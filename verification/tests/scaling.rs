//! Unit-conversion tests: exact scaling values, round-trip tolerance,
//! and the end-to-end zero-command scenario.

use robstride_driver::actuator_types::RobstrideActuatorType;
use robstride_driver::client::{swap16, ActuatorClient};
use robstride_driver::driver::RobstrideDriver;
use robstride_driver::protocol::{ActuatorRequest, ActuatorRequestParams};
use robstride_driver::range::Range;
use robstride_driver::types::ActuatorCommand;

fn all_types() -> [RobstrideActuatorType; 5] {
    [
        RobstrideActuatorType::Robstride00,
        RobstrideActuatorType::Robstride01,
        RobstrideActuatorType::Robstride02,
        RobstrideActuatorType::Robstride03,
        RobstrideActuatorType::Robstride04,
    ]
}

#[test]
fn scale_endpoints_and_midpoint() {
    let eng = Range::new(-12_566_371, 12_566_371);
    let wire = Range::new(0, 65_535);
    assert_eq!(eng.scale_value(-12_566_371, &wire), 0);
    assert_eq!(eng.scale_value(12_566_371, &wire), 65_535);
    // engineering zero sits exactly mid-range: 32767.5 rounds up
    assert_eq!(eng.scale_value(0, &wire), 32_768);
}

#[test]
fn scale_back_from_wire() {
    let eng = Range::new(-12_566_371, 12_566_371);
    let wire = Range::new(0, 65_535);
    assert_eq!(wire.scale_value(0, &eng), -12_566_371);
    assert_eq!(wire.scale_value(65_535, &eng), 12_566_371);
    assert_eq!(wire.scale_value(32_768, &eng), 192);
}

#[test]
fn scale_clamps_out_of_range_commands() {
    let eng = Range::new(0, 5_000_000);
    let wire = Range::new(0, 65_535);
    assert_eq!(eng.scale_value_clamped(-1_000_000, &wire), 0);
    assert_eq!(eng.scale_value_clamped(9_000_000, &wire), 65_535);
    assert_eq!(eng.scale_value_clamped(5_000_000, &wire), 65_535);
}

#[test]
fn scaling_round_trip_tolerance_every_axis_every_type() {
    // Forward to the wire and back: the error in engineering
    // micro-units stays within half a wire step plus rounding, i.e.
    // 2 * wire_span * |error| <= eng_span + wire_span.
    let wire = Range::new(0, 65_535);
    for t in all_types() {
        let ranges = t.actuator_ranges();
        for axis in [ranges.angle, ranges.velocity, ranges.torque, ranges.kp, ranges.kd] {
            let span_a = (axis.max - axis.min) as i128;
            let span_b = (wire.max - wire.min) as i128;
            for v in [
                axis.min,
                axis.max,
                0,
                axis.min / 2,
                axis.max / 3,
                axis.min + 1,
                axis.max - 1,
            ] {
                let there = axis.scale_value(v, &wire);
                let back = wire.scale_value(there, &axis);
                let err = (back - v).abs() as i128;
                assert!(
                    2 * span_b * err <= span_a + span_b,
                    "axis {:?} value {} came back as {}",
                    axis,
                    v,
                    back
                );
            }
        }
    }
}

#[test]
fn swap16_swaps_bytes() {
    assert_eq!(swap16(0x1234), 0x3412);
    assert_eq!(swap16(0x00FF), 0xFF00);
    assert_eq!(swap16(0x0000), 0x0000);
    assert_eq!(swap16(0xFFFF), 0xFFFF);
}

#[test]
fn zero_command_scales_to_midpoint_for_robstride01() {
    // End to end: register actuator 21 as Robstride01 and command all
    // five axes to zero. The symmetric angle/velocity/torque ranges
    // put engineering zero exactly mid-range (32768 on the wire); zero
    // is the minimum of the kp and kd ranges, so those scale to 0.
    let mut driver = RobstrideDriver::new();
    driver.add_actuator(21, RobstrideActuatorType::Robstride01);
    let command = ActuatorCommand { qpos: 0, qvel: 0, qfrc: 0, kp: 0, kd: 0 };
    let frame = driver
        .stage_request_for(21, &ActuatorRequestParams::Control(command))
        .expect("actuator 21 is registered");
    let bytes = frame.to_bytes();
    assert_eq!(bytes[0], 21);
    // torque 32768 little-endian in the identifier bytes
    assert_eq!([bytes[1], bytes[2]], [0x00, 0x80]);
    // angle and velocity 32768 big-endian in the payload
    assert_eq!([bytes[8], bytes[9]], [0x80, 0x00]);
    assert_eq!([bytes[10], bytes[11]], [0x80, 0x00]);
    // kp and kd 0
    assert_eq!([bytes[12], bytes[13]], [0x00, 0x00]);
    assert_eq!([bytes[14], bytes[15]], [0x00, 0x00]);
}

#[test]
fn zero_command_fields_via_session_builder() {
    let client = ActuatorClient::new(21, RobstrideActuatorType::Robstride01);
    let command = ActuatorCommand { qpos: 0, qvel: 0, qfrc: 0, kp: 0, kd: 0 };
    match client.build_request(&ActuatorRequestParams::Control(command)) {
        ActuatorRequest::Control(req) => {
            assert_eq!(req.torque_scale, 32_768);
            assert_eq!(req.angle_scale, 32_768);
            assert_eq!(req.angular_vel_scale, 32_768);
            assert_eq!(req.kp_scale, 0);
            assert_eq!(req.kd_scale, 0);
        }
        other => panic!("control parameters built {:?}", other),
    }
}

#[test]
fn engineering_ranges_per_model() {
    let r01 = RobstrideActuatorType::Robstride01.actuator_ranges();
    assert_eq!((r01.velocity.min, r01.velocity.max), (-44_000_000, 44_000_000));
    assert_eq!((r01.torque.min, r01.torque.max), (-17_000_000, 17_000_000));
    assert_eq!((r01.kp.min, r01.kp.max), (0, 500_000_000));
    assert_eq!((r01.kd.min, r01.kd.max), (0, 5_000_000));
    let r04 = RobstrideActuatorType::Robstride04.actuator_ranges();
    assert_eq!((r04.torque.min, r04.torque.max), (-120_000_000, 120_000_000));
    assert_eq!((r04.kp.min, r04.kp.max), (0, 5_000_000_000));
    let wire = RobstrideActuatorType::Robstride00.can_ranges();
    assert_eq!((wire.angle.min, wire.angle.max), (0, 65_535));
    assert_eq!((wire.kd.min, wire.kd.max), (0, 65_535));
}
