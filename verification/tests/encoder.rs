use carbleurator::motor_control::{
    input_to_message_analog, input_to_message_digital, SixBitAnalogFullDrive, ThreeBitAnalogMotor,
};
use carbleurator::motor_control::ThreeBitAnalogMotor::{R100, R33, R66, S0, S100, S25, S50, S75};

#[test]
fn every_reading_encodes_to_six_bits() {
    for x in i8::MIN..=i8::MAX {
        for y in i8::MIN..=i8::MAX {
            let b = input_to_message_analog(x, y);
            assert!(b <= 63, "encode({x}, {y}) = {b:#010b} uses the top two bits");
        }
    }
}

#[test]
fn rest_encodes_as_stop() {
    assert_eq!(input_to_message_analog(0, 0), 0b000_000);
}

#[test]
fn pure_turn_collapses_to_stop() {
    // Zero throttle makes the smaller axis magnitude zero, so the collapse
    // rule forces both motors to stop; this is the intended encoding of a
    // pure turn, not a defect.
    assert_eq!(input_to_message_analog(127, 0), 0);
    assert_eq!(input_to_message_analog(-128, 0), 0);
}

#[test]
fn pure_throttle_collapses_to_stop() {
    // The collapse rule is symmetric: a centered lateral axis also zeroes
    // the smaller magnitude, so straight throttle encodes as stop as well.
    assert_eq!(input_to_message_analog(0, 127), 0);
    assert_eq!(input_to_message_analog(0, -128), 0);
}

#[test]
fn symmetric_deflection_steps_through_forward_buckets() {
    // On the diagonal the rescaling is exact: the left motor mixes to zero
    // and the right motor quantizes the raw axis value, so the byte is the
    // right code alone. Sweeping the axis across the bucket boundaries
    // steps the code through the four forward levels in order.
    let expected = [(1, 1), (32, 1), (33, 2), (64, 2), (65, 3), (97, 3), (98, 4), (127, 4)];
    for (y, code) in expected {
        assert_eq!(input_to_message_analog(y, y), code, "encode({y}, {y})");
    }
}

#[test]
fn symmetric_deflection_steps_through_reverse_buckets() {
    let expected = [(-1, 5), (-43, 5), (-44, 6), (-86, 6), (-87, 7), (-128, 7)];
    for (y, code) in expected {
        assert_eq!(input_to_message_analog(y, y), code, "encode({y}, {y})");
    }
}

#[test]
fn mixed_reading_rescales_and_packs_both_sides() {
    // x = 64, y = 127: magnitudes 64 and 127, smaller 64, sum 191.
    // left  = (127 - 64) * 64 / 191 = 21  -> S25 (code 1)
    // right = (127 + 64) * 64 / 191 = 64  -> S50 (code 2)
    assert_eq!(input_to_message_analog(64, 127), 0b001_010);
    // Full diagonal: left mixes to zero, right saturates forward.
    assert_eq!(input_to_message_analog(127, 127), 0b000_100);
    // Full reverse diagonal: left stops, right saturates in reverse.
    assert_eq!(input_to_message_analog(-128, -128), 0b000_111);
}

#[test]
fn drive_codes_pack_left_high_right_low() {
    let d = SixBitAnalogFullDrive { left: ThreeBitAnalogMotor::S100, right: ThreeBitAnalogMotor::R100 };
    assert_eq!(d.message(), 0b100_111);
    let d = SixBitAnalogFullDrive { left: ThreeBitAnalogMotor::S25, right: ThreeBitAnalogMotor::S0 };
    assert_eq!(d.message(), 0b001_000);
}

#[test]
fn from_speed_respects_bucket_boundaries() {
    let table = [
        (0, S0),
        (1, S25),
        (32, S25),
        (33, S50),
        (64, S50),
        (65, S75),
        (97, S75),
        (98, S100),
        (127, S100),
        (-1, R33),
        (-43, R33),
        (-44, R66),
        (-86, R66),
        (-87, R100),
        (-128, R100),
    ];
    for (speed, code) in table {
        assert_eq!(ThreeBitAnalogMotor::from_speed(speed), code, "from_speed({speed})");
    }
}

#[test]
fn digital_deadzone_means_stop() {
    assert_eq!(input_to_message_digital(0, 0), b's');
    assert_eq!(input_to_message_digital(63, -63), b's');
    assert_eq!(input_to_message_digital(-63, 63), b's');
}

#[test]
fn digital_throttle_wins_over_turn() {
    assert_eq!(input_to_message_digital(0, 64), b'b');
    assert_eq!(input_to_message_digital(127, 127), b'b');
    assert_eq!(input_to_message_digital(0, -64), b'f');
    assert_eq!(input_to_message_digital(-128, -128), b'f');
}

#[test]
fn digital_turns() {
    assert_eq!(input_to_message_digital(-64, 0), b'l');
    assert_eq!(input_to_message_digital(-128, 63), b'l');
    assert_eq!(input_to_message_digital(64, 0), b'r');
    assert_eq!(input_to_message_digital(127, -63), b'r');
}
