//! Fleet-driver tests: the session registry, discovery decisions,
//! timeout outcomes, and parameter-dump request gating.

use robstride_driver::actuator_types::RobstrideActuatorType;
use robstride_driver::can::CanFrame;
use robstride_driver::driver::{fragment_info, RobstrideDriver};
use robstride_driver::error::RobstrideError;
use robstride_driver::protocol::{
    ActuatorRequestParams, FeedbackResponse, ObtainIdResponse, ReadAllParamsResponse,
};

#[test]
fn registry_add_has_and_list() {
    let mut driver = RobstrideDriver::new();
    assert!(!driver.has_actuator(5));
    assert_eq!(driver.get_registered_actuators(), Vec::<u8>::new());
    driver.add_actuator(5, RobstrideActuatorType::Robstride01);
    driver.add_actuator(9, RobstrideActuatorType::Robstride03);
    assert!(driver.has_actuator(5));
    assert!(driver.has_actuator(9));
    assert!(!driver.has_actuator(6));
    assert_eq!(driver.get_registered_actuators(), vec![5, 9]);
    // re-adding replaces, never duplicates
    driver.add_actuator(5, RobstrideActuatorType::Robstride04);
    assert_eq!(driver.get_registered_actuators(), vec![5, 9]);
}

#[test]
fn stage_request_for_unregistered_is_actuator_not_found() {
    let mut driver = RobstrideDriver::new();
    let r = driver.stage_request_for(7, &ActuatorRequestParams::MotorEnable);
    assert_eq!(r, Err(RobstrideError::ActuatorNotFound(7)));
}

#[test]
fn handle_response_for_unregistered_is_actuator_not_found() {
    let mut driver = RobstrideDriver::new();
    let frame = ObtainIdResponse { actuator_can_id: 7, mcu_uid: 1 }.encode();
    let r = driver.handle_response_for(7, &frame);
    assert_eq!(r, Err(RobstrideError::ActuatorNotFound(7)));
}

#[test]
fn enable_round_trip_through_registry() {
    let mut driver = RobstrideDriver::new();
    driver.add_actuator(5, RobstrideActuatorType::Robstride01);
    let frame = driver
        .stage_request_for(5, &ActuatorRequestParams::MotorEnable)
        .expect("registered");
    assert_eq!(frame.to_bytes()[3], 0x83);
    let reply = FeedbackResponse {
        host_id: 0xFD,
        actuator_can_id: 5,
        fault_flags: 0,
        angle_scale_be: 0x0080,
        angular_vel_scale_be: 0x0080,
        torque_be: 0x0080,
        temp_be: 0,
    }
    .encode();
    let update = driver.handle_response_for(5, &reply).expect("accepted");
    assert!(update.is_some());
}

#[test]
fn ping_timeout_returns_false_and_registers_nothing() {
    // The transport never yields a response: the ping resolves to
    // false once its 100 ms deadline passes, and the registry is
    // exactly as before.
    let mut driver = RobstrideDriver::new();
    let ok = driver.ping_actuator_outcome(11, RobstrideActuatorType::Robstride01, None);
    assert!(!ok);
    assert!(!driver.has_actuator(11));
    assert_eq!(driver.get_registered_actuators(), Vec::<u8>::new());
}

#[test]
fn ping_matching_response_registers_with_identity() {
    let mut driver = RobstrideDriver::new();
    let response = ObtainIdResponse { actuator_can_id: 11, mcu_uid: 0xA1B2 }.encode();
    let ok = driver.ping_actuator_outcome(11, RobstrideActuatorType::Robstride01, Some(&response));
    assert!(ok);
    assert!(driver.has_actuator(11));
    // the staged session stored the learned identity
    let req = driver.read_all_params_request(11).expect("identity known");
    assert_eq!(req.to_bytes()[0], 11);
}

#[test]
fn ping_mismatched_response_registers_nothing() {
    let mut driver = RobstrideDriver::new();
    let response = ObtainIdResponse { actuator_can_id: 12, mcu_uid: 0xA1B2 }.encode();
    let ok = driver.ping_actuator_outcome(11, RobstrideActuatorType::Robstride01, Some(&response));
    assert!(!ok);
    assert!(!driver.has_actuator(11));
}

#[test]
fn scan_of_silent_bus_discovers_nothing() {
    // Scanning identifiers 10..=12 on a bus that never answers: every
    // probe times out, nothing is registered, the result is empty.
    // (Each probe is bounded by its 100 ms deadline, so the whole scan
    // is bounded by about three of them; the deadline itself belongs
    // to the I/O layer.)
    let mut driver = RobstrideDriver::new();
    let mut discovered: Vec<u8> = Vec::new();
    for can_id in 10..=12u8 {
        // raw probe: no response within the deadline
        let no_response: Option<CanFrame> = None;
        let heard = match no_response {
            Some(ref frame) => RobstrideDriver::is_matching_obtain_id(frame, can_id),
            None => false,
        };
        if heard {
            for t in RobstrideDriver::scan_candidate_types() {
                if driver.ping_actuator_outcome(can_id, t, None) {
                    discovered.push(can_id);
                    break;
                }
            }
        }
    }
    assert_eq!(discovered, Vec::<u8>::new());
    assert_eq!(driver.get_registered_actuators(), Vec::<u8>::new());
}

#[test]
fn round_trip_timeout_resolves_to_timeout_error() {
    let mut driver = RobstrideDriver::new();
    driver.add_actuator(5, RobstrideActuatorType::Robstride01);
    driver
        .stage_request_for(5, &ActuatorRequestParams::Feedback)
        .expect("registered");
    let r = driver.handle_response_event(5, None);
    assert_eq!(r, Err(RobstrideError::Timeout));
    assert!(driver.has_actuator(5));
    let reply = ObtainIdResponse { actuator_can_id: 5, mcu_uid: 4 }.encode();
    assert_eq!(driver.handle_response_event(5, Some(&reply)), Ok(None));
}

#[test]
fn raw_probe_frame_and_matching() {
    let probe = RobstrideDriver::raw_ping_frame(0x15);
    assert_eq!(
        probe.to_bytes(),
        [0x15, 0xFD, 0x00, 0x80, 8, 0, 0, 0, 0, 0, 0, 0, 0, 0, 0, 0]
    );
    let good = ObtainIdResponse { actuator_can_id: 0x15, mcu_uid: 3 }.encode();
    assert!(RobstrideDriver::is_matching_obtain_id(&good, 0x15));
    let wrong_id = ObtainIdResponse { actuator_can_id: 0x16, mcu_uid: 3 }.encode();
    assert!(!RobstrideDriver::is_matching_obtain_id(&wrong_id, 0x15));
    let wrong_shape = FeedbackResponse {
        host_id: 0xFD,
        actuator_can_id: 0x15,
        fault_flags: 0,
        angle_scale_be: 0,
        angular_vel_scale_be: 0,
        torque_be: 0,
        temp_be: 0,
    }
    .encode();
    assert!(!RobstrideDriver::is_matching_obtain_id(&wrong_shape, 0x15));
}

#[test]
fn scan_type_order_matches_probe_policy() {
    assert_eq!(
        RobstrideDriver::scan_candidate_types(),
        vec![
            RobstrideActuatorType::Robstride01,
            RobstrideActuatorType::Robstride00,
            RobstrideActuatorType::Robstride02,
            RobstrideActuatorType::Robstride03,
            RobstrideActuatorType::Robstride04,
        ]
    );
}

#[test]
fn dump_request_requires_registration_and_identity() {
    let mut driver = RobstrideDriver::new();
    assert_eq!(
        driver.read_all_params_request(5),
        Err(RobstrideError::ActuatorNotFound(5))
    );
    driver.add_actuator(5, RobstrideActuatorType::Robstride01);
    assert_eq!(
        driver.read_all_params_request(5),
        Err(RobstrideError::MissingIdentity(5))
    );
    let response = ObtainIdResponse { actuator_can_id: 5, mcu_uid: 0x0708 }.encode();
    assert!(driver.ping_actuator_outcome(5, RobstrideActuatorType::Robstride01, Some(&response)));
    let frame = driver.read_all_params_request(5).expect("identity known");
    assert_eq!(
        frame.to_bytes(),
        [0x05, 0xFD, 0x00, 0x93, 8, 0, 0, 0, 0x08, 0x07, 0, 0, 0, 0, 0, 0]
    );
}

#[test]
fn fragment_info_reads_code_marker_and_sized_data() {
    let full = ReadAllParamsResponse {
        host_id: 0xFD,
        actuator_can_id: 5,
        byte_marker: 0x06,
        len: 8,
        param_idx: 0x2007,
        can_data: [0x3D, 0xCC, 0xCC, 0x3D, 0x00, 0x00],
    }
    .encode();
    assert_eq!(
        fragment_info(&full),
        Some((0x2007, 0x06, vec![0x3D, 0xCC, 0xCC, 0x3D, 0x00, 0x00]))
    );
    let short = ReadAllParamsResponse {
        host_id: 0xFD,
        actuator_can_id: 5,
        byte_marker: 0x07,
        len: 4,
        param_idx: 0x2007,
        can_data: [0x00, 0x00, 0xAA, 0xAA, 0xAA, 0xAA],
    }
    .encode();
    assert_eq!(fragment_info(&short), Some((0x2007, 0x07, vec![0x00, 0x00])));
    let not_a_fragment = ObtainIdResponse { actuator_can_id: 5, mcu_uid: 0 }.encode();
    assert_eq!(fragment_info(&not_a_fragment), None);
}
