//! Byte-exact layout and round-trip tests for every message shape.

use robstride_driver::can::CanFrame;
use robstride_driver::error::{ProtocolError, RobstrideError};
use robstride_driver::protocol::{
    actuator_can_id_from_response, mux_from_can_frame, ActuatorRequest, ActuatorResponse,
    ControlCommandRequest, FeedbackRequest, FeedbackResponse, MotorDataSaveRequest,
    MotorEnableRequest, ObtainIdRequest, ObtainIdResponse, ReadAllParamsRequest,
    ReadAllParamsResponse, SingleParameterReadRequest, SingleParameterReadResponse,
    SingleParameterWriteRequest, ZeroPositionRequest,
};

#[test]
fn mux_extraction_all_256_values() {
    for b in 0..=255u8 {
        let mut bytes = [0u8; 16];
        bytes[3] = b;
        let frame = CanFrame::from_bytes(bytes);
        assert_eq!(mux_from_can_frame(&frame), b & 0x1F);
    }
}

#[test]
fn obtain_id_request_layout() {
    let req = ObtainIdRequest::new(0xFD00, 0x15);
    let frame = req.encode();
    assert_eq!(
        frame.to_bytes(),
        [0x15, 0x00, 0xFD, 0x80, 8, 0, 0, 0, 0, 0, 0, 0, 0, 0, 0, 0]
    );
}

#[test]
fn obtain_id_request_round_trip() {
    let req = ObtainIdRequest::new(0xABCD, 0x7F);
    assert_eq!(ObtainIdRequest::parse(&req.encode()), Some(req));
}

#[test]
fn obtain_id_response_layout_and_round_trip() {
    let resp = ObtainIdResponse {
        actuator_can_id: 0x0015,
        mcu_uid: 0x1122_3344_5566_7788,
    };
    let frame = resp.encode();
    assert_eq!(
        frame.to_bytes(),
        [
            0x00, 0x15, 0x00, 0x80, 8, 0, 0, 0, 0x88, 0x77, 0x66, 0x55, 0x44, 0x33, 0x22, 0x11
        ]
    );
    assert_eq!(ObtainIdResponse::parse(&frame), Some(resp));
}

#[test]
fn control_command_layout() {
    // torque little-endian in the identifier bytes; the four payload
    // axes big-endian. Note the builder's (torque, angle, vel, kd, kp)
    // argument order.
    let req = ControlCommandRequest::new(0x15, 0x1234, 0x5678, 0x9ABC, 0x2222, 0x1111);
    let frame = req.encode();
    assert_eq!(
        frame.to_bytes(),
        [
            0x15, 0x34, 0x12, 0x81, 8, 0, 0, 0, 0x56, 0x78, 0x9A, 0xBC, 0x11, 0x11, 0x22, 0x22
        ]
    );
}

#[test]
fn control_command_round_trip() {
    let req = ControlCommandRequest::new(9, 65535, 0, 32768, 1, 65534);
    assert_eq!(ControlCommandRequest::parse(&req.encode()), Some(req));
}

#[test]
fn motor_enable_layout_and_round_trip() {
    let req = MotorEnableRequest::new(0xFD00, 0x21);
    let frame = req.encode();
    assert_eq!(
        frame.to_bytes(),
        [0x21, 0x00, 0xFD, 0x83, 8, 0, 0, 0, 0, 0, 0, 0, 0, 0, 0, 0]
    );
    assert_eq!(MotorEnableRequest::parse(&frame), Some(req));
}

#[test]
fn feedback_request_layout_and_round_trip() {
    let req = FeedbackRequest::new(0xFD00, 0x21);
    let frame = req.encode();
    assert_eq!(
        frame.to_bytes(),
        [0x21, 0x00, 0xFD, 0x82, 8, 0, 0, 0, 0, 0, 0, 0, 0, 0, 0, 0]
    );
    assert_eq!(FeedbackRequest::parse(&frame), Some(req));
}

#[test]
fn feedback_response_layout_and_round_trip() {
    let resp = FeedbackResponse {
        host_id: 0xFD,
        actuator_can_id: 0x15,
        fault_flags: 0x03,
        angle_scale_be: 0x3412,
        angular_vel_scale_be: 0x7856,
        torque_be: 0xBC9A,
        temp_be: 0xF0DE,
    };
    let frame = resp.encode();
    assert_eq!(
        frame.to_bytes(),
        [
            0xFD, 0x15, 0x03, 0x82, 8, 0, 0, 0, 0x12, 0x34, 0x56, 0x78, 0x9A, 0xBC, 0xDE, 0xF0
        ]
    );
    assert_eq!(FeedbackResponse::parse(&frame), Some(resp));
}

#[test]
fn zero_position_layout_and_round_trip() {
    let req = ZeroPositionRequest::new(0xFD00, 0x15);
    let frame = req.encode();
    assert_eq!(
        frame.to_bytes(),
        [0x15, 0x00, 0xFD, 0x86, 8, 0, 0, 0, 0x01, 0x01, 0xCD, 0, 0, 0, 0, 0]
    );
    assert_eq!(ZeroPositionRequest::parse(&frame), Some(req));
}

#[test]
fn motor_data_save_layout_and_round_trip() {
    let req = MotorDataSaveRequest::new(0xFD00, 0x15);
    let frame = req.encode();
    assert_eq!(
        frame.to_bytes(),
        [0x15, 0x00, 0xFD, 0x96, 8, 0, 0, 0, 1, 2, 3, 4, 5, 6, 7, 8]
    );
    assert_eq!(MotorDataSaveRequest::parse(&frame), Some(req));
}

#[test]
fn single_parameter_read_request_layout_and_round_trip() {
    let req = SingleParameterReadRequest::new(0xFD00, 0x15, 0x2007);
    let frame = req.encode();
    assert_eq!(
        frame.to_bytes(),
        [0x15, 0x00, 0xFD, 0x91, 8, 0, 0, 0, 0x07, 0x20, 0, 0, 0, 0, 0, 0]
    );
    assert_eq!(SingleParameterReadRequest::parse(&frame), Some(req));
}

#[test]
fn single_parameter_read_response_layout_and_round_trip() {
    let resp = SingleParameterReadResponse {
        host_id: 0xFD,
        actuator_can_id: 0x15,
        status: 0x00,
        param_index: 0x2007,
        param_data: 0x3DCCCC3D,
    };
    let frame = resp.encode();
    assert_eq!(
        frame.to_bytes(),
        [
            0xFD, 0x15, 0x00, 0x91, 8, 0, 0, 0, 0x07, 0x20, 0, 0, 0x3D, 0xCC, 0xCC, 0x3D
        ]
    );
    assert_eq!(SingleParameterReadResponse::parse(&frame), Some(resp));
    assert!(resp.is_success());
    assert_eq!(resp.param_data_bytes(), [0x3D, 0xCC, 0xCC, 0x3D]);
    let failed = SingleParameterReadResponse { status: 0x01, ..resp };
    assert!(!failed.is_success());
}

#[test]
fn single_parameter_write_layout_and_round_trip() {
    let req = SingleParameterWriteRequest::new(0xFD00, 0x15, 0x7005, 0x0000_0002);
    let frame = req.encode();
    assert_eq!(
        frame.to_bytes(),
        [0x15, 0x00, 0xFD, 0x92, 8, 0, 0, 0, 0x05, 0x70, 0, 0, 0x02, 0, 0, 0]
    );
    assert_eq!(SingleParameterWriteRequest::parse(&frame), Some(req));
    let r8 = SingleParameterWriteRequest::new_uint8(0xFD00, 0x15, 0x200A, 0x7F);
    assert_eq!(r8.param_data, 0x7F);
    let r16 = SingleParameterWriteRequest::new_uint16(0xFD00, 0x15, 0x2000, 0xBEEF);
    assert_eq!(r16.param_data, 0xBEEF);
}

#[test]
fn read_all_params_request_layout_and_round_trip() {
    let req = ReadAllParamsRequest::new(0xFD, 0x15, 0x0102_0304_0506_0708);
    let frame = req.encode();
    assert_eq!(
        frame.to_bytes(),
        [
            0x15, 0xFD, 0x00, 0x93, 8, 0, 0, 0, 0x08, 0x07, 0x06, 0x05, 0x04, 0x03, 0x02, 0x01
        ]
    );
    assert_eq!(ReadAllParamsRequest::parse(&frame), Some(req));
}

#[test]
fn read_all_params_response_layout_and_round_trip() {
    let resp = ReadAllParamsResponse {
        host_id: 0xFD,
        actuator_can_id: 0x15,
        byte_marker: 0x06,
        len: 8,
        param_idx: 0x2007,
        can_data: [0x3D, 0xCC, 0xCC, 0x3D, 0x00, 0x00],
    };
    let frame = resp.encode();
    assert_eq!(
        frame.to_bytes(),
        [
            0xFD, 0x15, 0x06, 0x93, 8, 0, 0, 0, 0x07, 0x20, 0x3D, 0xCC, 0xCC, 0x3D, 0x00, 0x00
        ]
    );
    assert_eq!(ReadAllParamsResponse::parse(&frame), Some(resp));
}

#[test]
fn parse_rejects_wrong_mux() {
    let req = ObtainIdRequest::new(0xFD00, 1);
    let frame = req.encode();
    assert_eq!(ControlCommandRequest::parse(&frame), None);
    assert_eq!(FeedbackResponse::parse(&frame), None);
    assert_eq!(ReadAllParamsResponse::parse(&frame), None);
}

#[test]
fn response_dispatch_per_mux() {
    let obtain = ObtainIdResponse { actuator_can_id: 5, mcu_uid: 1 };
    match ActuatorResponse::from_can_frame(&obtain.encode()) {
        Ok(ActuatorResponse::ObtainId(r)) => assert_eq!(r, obtain),
        other => panic!("wrong dispatch: {:?}", other),
    }
    let feedback = FeedbackResponse {
        host_id: 0xFD,
        actuator_can_id: 5,
        fault_flags: 0,
        angle_scale_be: 0,
        angular_vel_scale_be: 0,
        torque_be: 0,
        temp_be: 0,
    };
    match ActuatorResponse::from_can_frame(&feedback.encode()) {
        Ok(ActuatorResponse::Feedback(r)) => assert_eq!(r, feedback),
        other => panic!("wrong dispatch: {:?}", other),
    }
}

#[test]
fn unknown_mux_is_an_error_not_a_guess() {
    // Mux 0x1F names no response shape.
    let mut bytes = [0u8; 16];
    bytes[3] = 0x9F; // extended-frame flag + mux 0x1F
    let frame = CanFrame::from_bytes(bytes);
    assert_eq!(
        ActuatorResponse::from_can_frame(&frame),
        Err(RobstrideError::Protocol(ProtocolError::UnknownMux(0x1F)))
    );
}

#[test]
fn actuator_can_id_per_response_shape() {
    let obtain = ObtainIdResponse { actuator_can_id: 0x15, mcu_uid: 0 };
    assert_eq!(actuator_can_id_from_response(&obtain.encode()), 0x15);
    let feedback = FeedbackResponse {
        host_id: 0xFD,
        actuator_can_id: 0x2A,
        fault_flags: 0,
        angle_scale_be: 0,
        angular_vel_scale_be: 0,
        torque_be: 0,
        temp_be: 0,
    };
    assert_eq!(actuator_can_id_from_response(&feedback.encode()), 0x2A);
    let mut bytes = [0u8; 16];
    bytes[3] = 0x9F;
    bytes[1] = 0x2A;
    assert_eq!(
        actuator_can_id_from_response(&CanFrame::from_bytes(bytes)),
        0x7F
    );
}

#[test]
fn response_mux_per_request_kind() {
    let host = 0xFD00u16;
    assert_eq!(
        ActuatorRequest::ObtainId(ObtainIdRequest::new(host, 1)).response_mux(),
        0x00
    );
    assert_eq!(
        ActuatorRequest::Control(ControlCommandRequest::new(1, 0, 0, 0, 0, 0)).response_mux(),
        0x02
    );
    assert_eq!(
        ActuatorRequest::MotorEnable(MotorEnableRequest::new(host, 1)).response_mux(),
        0x02
    );
    assert_eq!(
        ActuatorRequest::Feedback(FeedbackRequest::new(host, 1)).response_mux(),
        0x02
    );
    assert_eq!(
        ActuatorRequest::ReadAllParams(ReadAllParamsRequest::new(0xFD, 1, 0)).response_mux(),
        0x13
    );
    assert_eq!(
        ActuatorRequest::ZeroPosition(ZeroPositionRequest::new(host, 1)).response_mux(),
        0x02
    );
    assert_eq!(
        ActuatorRequest::SingleParameterRead(SingleParameterReadRequest::new(host, 1, 0))
            .response_mux(),
        0x11
    );
    assert_eq!(
        ActuatorRequest::SingleParameterWrite(SingleParameterWriteRequest::new(host, 1, 0, 0))
            .response_mux(),
        0x02
    );
    assert_eq!(
        ActuatorRequest::MotorDataSave(MotorDataSaveRequest::new(host, 1)).response_mux(),
        0x02
    );
}

#[test]
fn extended_frame_flag_is_set_on_every_encoded_request() {
    let host = 0xFD00u16;
    let frames = [
        ObtainIdRequest::new(host, 1).encode(),
        MotorEnableRequest::new(host, 1).encode(),
        FeedbackRequest::new(host, 1).encode(),
        ZeroPositionRequest::new(host, 1).encode(),
        MotorDataSaveRequest::new(host, 1).encode(),
        ControlCommandRequest::new(1, 0, 0, 0, 0, 0).encode(),
        SingleParameterReadRequest::new(host, 1, 0).encode(),
        SingleParameterWriteRequest::new(host, 1, 0, 0).encode(),
        ReadAllParamsRequest::new(0xFD, 1, 0).encode(),
    ];
    for frame in frames.iter() {
        assert_eq!(frame.can_id() & 0x8000_0000, 0x8000_0000);
    }
}
