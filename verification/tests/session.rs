//! Session state-machine tests: staging, response validation,
//! identifier mismatches, and feedback interpretation.

use robstride_driver::actuator_types::RobstrideActuatorType;
use robstride_driver::can::CanFrame;
use robstride_driver::client::{ActuatorClient, ActuatorClientState};
use robstride_driver::error::{ProtocolError, RobstrideError};
use robstride_driver::protocol::{
    ActuatorRequest, ActuatorRequestParams, FeedbackResponse, ObtainIdResponse,
    ReadAllParamsResponse,
};

#[test]
fn new_session_starts_reset_with_no_identity() {
    let client = ActuatorClient::new(5, RobstrideActuatorType::Robstride01);
    assert_eq!(client.state, ActuatorClientState::Reset);
    assert_eq!(client.mcu_uid(), None);
    assert_eq!(client.can_id(), 5);
    assert_eq!(client.last_request, None);
    assert_eq!(client.host_id, 0xFD00);
}

#[test]
fn stage_request_records_and_awaits() {
    let mut client = ActuatorClient::new(5, RobstrideActuatorType::Robstride01);
    let frame = client.stage_request(&ActuatorRequestParams::ObtainId);
    assert_eq!(client.state, ActuatorClientState::AwaitingResponse);
    match client.last_request {
        Some(ActuatorRequest::ObtainId(req)) => {
            assert_eq!(req.actuator_can_id, 5);
            assert_eq!(req.host_id, 0xFD00);
            assert_eq!(frame, req.encode());
        }
        other => panic!("staged {:?}", other),
    }
}

#[test]
fn obtain_id_mismatch_yields_error_and_changes_nothing() {
    // A session for identifier 5 handed an ObtainId response that
    // carries identifier 6: CanIdMismatch, and the stored MCU
    // identifier stays what it was.
    let mut client = ActuatorClient::new(5, RobstrideActuatorType::Robstride01);
    client.stage_request(&ActuatorRequestParams::ObtainId);
    let response = ObtainIdResponse { actuator_can_id: 6, mcu_uid: 0xDEAD_BEEF }.encode();
    let r = client.handle_response(&response);
    assert_eq!(
        r,
        Err(RobstrideError::Protocol(ProtocolError::CanIdMismatch {
            expected: 5,
            received: 6
        }))
    );
    assert_eq!(client.mcu_uid(), None);
    assert_eq!(client.state, ActuatorClientState::AwaitingResponse);
}

#[test]
fn obtain_id_match_stores_identity() {
    let mut client = ActuatorClient::new(5, RobstrideActuatorType::Robstride01);
    client.stage_request(&ActuatorRequestParams::ObtainId);
    let response = ObtainIdResponse { actuator_can_id: 5, mcu_uid: 0x0102_0304_0506_0708 }.encode();
    let r = client.handle_response(&response);
    assert_eq!(r, Ok(None));
    assert_eq!(client.mcu_uid(), Some(0x0102_0304_0506_0708));
    assert_eq!(client.state, ActuatorClientState::Ready);
}

#[test]
fn feedback_mismatch_yields_error() {
    let mut client = ActuatorClient::new(5, RobstrideActuatorType::Robstride01);
    let response = FeedbackResponse {
        host_id: 0xFD,
        actuator_can_id: 9,
        fault_flags: 0,
        angle_scale_be: 0,
        angular_vel_scale_be: 0,
        torque_be: 0,
        temp_be: 0,
    }
    .encode();
    let r = client.handle_response(&response);
    assert_eq!(
        r,
        Err(RobstrideError::Protocol(ProtocolError::CanIdMismatch {
            expected: 5,
            received: 9
        }))
    );
}

#[test]
fn feedback_update_scales_back_to_engineering_units() {
    let mut client = ActuatorClient::new(5, RobstrideActuatorType::Robstride01);
    client.stage_request(&ActuatorRequestParams::Feedback);
    // Wire values are big-endian; the struct fields hold the raw
    // little-endian reading, so 32768 on the wire reads as 0x0080.
    let response = FeedbackResponse {
        host_id: 0xFD,
        actuator_can_id: 5,
        fault_flags: 0,
        angle_scale_be: 0x0080,      // swapped: 0x8000 = 32768
        angular_vel_scale_be: 0x0080,
        torque_be: 0x0040,           // swapped: 0x4000 = 16384
        temp_be: 0,
    }
    .encode();
    let update = client
        .handle_response(&response)
        .expect("matching feedback is accepted")
        .expect("feedback yields an update");
    // raw 32768 of 0..65535 onto -12_566_371..12_566_371 rounds to 192
    assert_eq!(update.qpos, Some(192));
    // raw 32768 onto -44_000_000..44_000_000 rounds to 671
    assert_eq!(update.qvel, Some(671));
    // raw 16384 onto -17_000_000..17_000_000 rounds to -8_499_870
    assert_eq!(update.qfrc, Some(-8_499_870));
    assert_eq!(update.kp, None);
    assert_eq!(update.kd, None);
    assert_eq!(update.temp, None);
    assert_eq!(update.faults, None);
    assert_eq!(client.state, ActuatorClientState::Ready);
}

#[test]
fn dump_fragment_is_a_session_no_op() {
    let mut client = ActuatorClient::new(5, RobstrideActuatorType::Robstride01);
    client.stage_request(&ActuatorRequestParams::ReadAllParams(7));
    let fragment = ReadAllParamsResponse {
        host_id: 0xFD,
        actuator_can_id: 5,
        byte_marker: 0,
        len: 8,
        param_idx: 0x2007,
        can_data: [1, 2, 3, 4, 5, 6],
    }
    .encode();
    let r = client.handle_response(&fragment);
    assert_eq!(r, Ok(None));
    assert_eq!(client.state, ActuatorClientState::Ready);
}

#[test]
fn unknown_mux_leaves_session_awaiting_for_retry() {
    let mut client = ActuatorClient::new(5, RobstrideActuatorType::Robstride01);
    client.stage_request(&ActuatorRequestParams::ObtainId);
    let mut bytes = [0u8; 16];
    bytes[3] = 0x8A; // extended-frame flag + unknown mux 0x0A
    let r = client.handle_response(&CanFrame::from_bytes(bytes));
    assert_eq!(
        r,
        Err(RobstrideError::Protocol(ProtocolError::UnknownMux(0x0A)))
    );
    assert_eq!(client.state, ActuatorClientState::AwaitingResponse);
    assert_eq!(client.mcu_uid(), None);
}

#[test]
fn reset_clears_pending_request_and_keeps_identity() {
    let mut client = ActuatorClient::new(5, RobstrideActuatorType::Robstride01);
    client.stage_request(&ActuatorRequestParams::ObtainId);
    let response = ObtainIdResponse { actuator_can_id: 5, mcu_uid: 42 }.encode();
    client.handle_response(&response).unwrap();
    client.stage_request(&ActuatorRequestParams::MotorEnable);
    client.reset();
    assert_eq!(client.state, ActuatorClientState::Reset);
    assert_eq!(client.last_request, None);
    assert_eq!(client.mcu_uid(), Some(42));
    assert_eq!(client.can_id(), 5);
}

#[test]
fn build_request_fills_in_session_identifiers() {
    let client = ActuatorClient::new(0x2A, RobstrideActuatorType::Robstride03);
    match client.build_request(&ActuatorRequestParams::SingleParameterRead(0x3004)) {
        ActuatorRequest::SingleParameterRead(req) => {
            assert_eq!(req.actuator_can_id, 0x2A);
            assert_eq!(req.host_id, 0xFD00);
            assert_eq!(req.param_index, 0x3004);
        }
        other => panic!("built {:?}", other),
    }
    match client.build_request(&ActuatorRequestParams::ReadAllParams(0x55)) {
        ActuatorRequest::ReadAllParams(req) => {
            assert_eq!(req.actuator_can_id, 0x2A);
            // the dump request carries the single-byte host identifier
            assert_eq!(req.host_id, 0x00); // low byte of 0xFD00
            assert_eq!(req.mcu_uid, 0x55);
        }
        other => panic!("built {:?}", other),
    }
    match client.build_request(&ActuatorRequestParams::SingleParameterWrite(0x7005, 2)) {
        ActuatorRequest::SingleParameterWrite(req) => {
            assert_eq!(req.param_index, 0x7005);
            assert_eq!(req.param_data, 2);
        }
        other => panic!("built {:?}", other),
    }
}
