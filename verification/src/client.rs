//! The per-actuator session: identity, held ranges, the single
//! outstanding request, and validation of incoming responses.
//!
//! A session moves from `Reset` to `AwaitingResponse` when a request is
//! staged, and to `Ready` when a response is validated and applied. A
//! rejected response (unknown discriminator or a mismatched actuator
//! identifier) leaves the session exactly as it was, so the exchange
//! can be retried.

use vstd::prelude::*;
use crate::actuator_types::{spec_actuator_ranges, spec_can_ranges, RobstrideActuatorType};
use crate::can::CanFrame;
use crate::error::{ProtocolError, RobstrideError};
use crate::protocol::{
    ActuatorRequest, ActuatorRequestParams, ActuatorResponse, ControlCommandRequest,
    FeedbackRequest, FeedbackResponse, MotorDataSaveRequest, MotorEnableRequest, ObtainIdRequest,
    ReadAllParamsRequest, SingleParameterReadRequest, SingleParameterWriteRequest,
    ZeroPositionRequest, spec_mux,
};
use crate::range::{spec_clamp, spec_scale, Range, RangeSet};
use crate::types::{ActuatorCommand, ActuatorFeedbackUpdate};

verus! {

/// The default host identifier baked into every session.
pub const DEFAULT_HOST_ID: u16 = 0xFD00;

/// Where a session stands in its request/response cycle.
#[derive(Clone, Copy, Debug, PartialEq, Eq, Structural)]
pub enum ActuatorClientState {
    /// No request pending; the MCU identifier may or may not be known.
    Reset,
    /// A request has been staged and handed out for transmission.
    AwaitingResponse,
    /// The last response was validated and applied.
    Ready,
}

/// The two bytes of a 16-bit value exchanged: how a big-endian wire
/// field is turned into its value after a little-endian read.
pub open spec fn spec_swap16(x: u16) -> u16 {
    (((x % 256) * 256) + (x / 256)) as u16
}

/// Swaps the two bytes of a 16-bit value.
pub fn swap16(x: u16) -> (r: u16)
    ensures
        r == spec_swap16(x),
{
    (x % 256) * 256 + (x / 256)
}

/// One actuator session.
#[derive(Clone, Copy, Debug, PartialEq, Eq)]
pub struct ActuatorClient {
    pub host_id: u16,
    pub actuator_can_id: u8,
    pub mcu_uid: Option<u64>,
    pub last_request: Option<ActuatorRequest>,
    pub state: ActuatorClientState,
    pub actuator_ranges: RangeSet,
    pub can_range: RangeSet,
}

/// Scales one command axis from its engineering range into the
/// transport range: out-of-range commands saturate at the range ends.
pub open spec fn spec_scale_axis(v: int, from: Range, to: Range) -> u16
    recommends
        from.min < from.max,
{
    spec_scale(spec_clamp(v, from), from, to) as u16
}

impl ActuatorClient {
    /// A session always holds well-formed engineering ranges and the
    /// fixed transport range set.
    pub open spec fn wf(self) -> bool {
        &&& self.actuator_ranges.wf()
        &&& self.can_range == spec_can_ranges()
    }

    /// A fresh session for one CAN identifier, bound to the given
    /// model's engineering ranges. No identity known, nothing pending.
    pub fn new(actuator_can_id: u8, actuator_type: RobstrideActuatorType) -> (c: ActuatorClient)
        ensures
            c == (ActuatorClient {
                host_id: DEFAULT_HOST_ID,
                actuator_can_id,
                mcu_uid: None::<u64>,
                last_request: None::<ActuatorRequest>,
                state: ActuatorClientState::Reset,
                actuator_ranges: spec_actuator_ranges(actuator_type),
                can_range: spec_can_ranges(),
            }),
            c.wf(),
    {
        ActuatorClient {
            host_id: DEFAULT_HOST_ID,
            actuator_can_id,
            mcu_uid: None,
            last_request: None,
            state: ActuatorClientState::Reset,
            actuator_ranges: actuator_type.actuator_ranges(),
            can_range: actuator_type.can_ranges(),
        }
    }

    /// The MCU unique identifier, once an ObtainId exchange succeeded.
    pub fn mcu_uid(&self) -> (r: Option<u64>)
        ensures
            r == self.mcu_uid,
    {
        self.mcu_uid
    }

    /// This session's CAN identifier.
    pub fn can_id(&self) -> (r: u8)
        ensures
            r == self.actuator_can_id,
    {
        self.actuator_can_id
    }

    /// Drops any pending request and returns to the initial state. The
    /// identity and the ranges are kept.
    pub fn reset(&mut self)
        ensures
            *final(self) == (ActuatorClient {
                state: ActuatorClientState::Reset,
                last_request: None::<ActuatorRequest>,
                ..*old(self)
            }),
    {
        self.state = ActuatorClientState::Reset;
        self.last_request = None;
    }

    /// The request this session builds for the given parameters: its
    /// own identifiers filled in, and for a control command all five
    /// axes scaled (with saturation) into the transport range.
    pub open spec fn spec_build_request(self, params: ActuatorRequestParams) -> ActuatorRequest {
        match params {
            ActuatorRequestParams::ObtainId => ActuatorRequest::ObtainId(ObtainIdRequest {
                actuator_can_id: self.actuator_can_id,
                host_id: self.host_id,
            }),
            ActuatorRequestParams::MotorEnable => ActuatorRequest::MotorEnable(MotorEnableRequest {
                actuator_can_id: self.actuator_can_id,
                host_id: self.host_id,
            }),
            ActuatorRequestParams::Feedback => ActuatorRequest::Feedback(FeedbackRequest {
                actuator_can_id: self.actuator_can_id,
                host_id: self.host_id,
            }),
            ActuatorRequestParams::ReadAllParams(mcu_uid) => ActuatorRequest::ReadAllParams(
                ReadAllParamsRequest {
                    actuator_can_id: self.actuator_can_id,
                    host_id: self.host_id as u8,
                    res_id: 0u8,
                    mcu_uid,
                },
            ),
            ActuatorRequestParams::Control(cmd) => ActuatorRequest::Control(ControlCommandRequest {
                actuator_can_id: self.actuator_can_id,
                torque_scale: spec_scale_axis(
                    cmd.qfrc as int,
                    self.actuator_ranges.torque,
                    self.can_range.torque,
                ),
                angle_scale: spec_scale_axis(
                    cmd.qpos as int,
                    self.actuator_ranges.angle,
                    self.can_range.angle,
                ),
                angular_vel_scale: spec_scale_axis(
                    cmd.qvel as int,
                    self.actuator_ranges.velocity,
                    self.can_range.velocity,
                ),
                kp_scale: spec_scale_axis(
                    cmd.kp as int,
                    self.actuator_ranges.kp,
                    self.can_range.kp,
                ),
                kd_scale: spec_scale_axis(
                    cmd.kd as int,
                    self.actuator_ranges.kd,
                    self.can_range.kd,
                ),
            }),
            ActuatorRequestParams::ZeroPosition => ActuatorRequest::ZeroPosition(
                ZeroPositionRequest { actuator_can_id: self.actuator_can_id, host_id: self.host_id },
            ),
            ActuatorRequestParams::SingleParameterRead(param_index) => {
                ActuatorRequest::SingleParameterRead(SingleParameterReadRequest {
                    actuator_can_id: self.actuator_can_id,
                    host_id: self.host_id,
                    param_index,
                })
            },
            ActuatorRequestParams::SingleParameterWrite(param_index, data) => {
                ActuatorRequest::SingleParameterWrite(SingleParameterWriteRequest {
                    actuator_can_id: self.actuator_can_id,
                    host_id: self.host_id,
                    param_index,
                    param_data: data,
                })
            },
            ActuatorRequestParams::MotorDataSave => ActuatorRequest::MotorDataSave(
                MotorDataSaveRequest { actuator_can_id: self.actuator_can_id, host_id: self.host_id },
            ),
        }
    }

    /// Builds the request for the given parameters. Pure: the session
    /// is not changed.
    pub fn build_request(&self, params: &ActuatorRequestParams) -> (r: ActuatorRequest)
        requires
            self.wf(),
        ensures
            r == self.spec_build_request(*params),
    {
        match params {
            ActuatorRequestParams::ObtainId => ActuatorRequest::ObtainId(ObtainIdRequest::new(
                self.host_id,
                self.actuator_can_id,
            )),
            ActuatorRequestParams::MotorEnable => ActuatorRequest::MotorEnable(
                MotorEnableRequest::new(self.host_id, self.actuator_can_id),
            ),
            ActuatorRequestParams::Feedback => ActuatorRequest::Feedback(FeedbackRequest::new(
                self.host_id,
                self.actuator_can_id,
            )),
            ActuatorRequestParams::ReadAllParams(mcu_uid) => ActuatorRequest::ReadAllParams(
                ReadAllParamsRequest::new(self.host_id as u8, self.actuator_can_id, *mcu_uid),
            ),
            ActuatorRequestParams::Control(cmd) => {
                let torque = self.actuator_ranges.torque.scale_value_clamped(
                    cmd.qfrc,
                    &self.can_range.torque,
                );
                let angle = self.actuator_ranges.angle.scale_value_clamped(
                    cmd.qpos,
                    &self.can_range.angle,
                );
                let velocity = self.actuator_ranges.velocity.scale_value_clamped(
                    cmd.qvel,
                    &self.can_range.velocity,
                );
                let kp = self.actuator_ranges.kp.scale_value_clamped(cmd.kp, &self.can_range.kp);
                let kd = self.actuator_ranges.kd.scale_value_clamped(cmd.kd, &self.can_range.kd);
                ActuatorRequest::Control(ControlCommandRequest::new(
                    self.actuator_can_id,
                    torque as u16,
                    angle as u16,
                    velocity as u16,
                    kd as u16,
                    kp as u16,
                ))
            },
            ActuatorRequestParams::ZeroPosition => ActuatorRequest::ZeroPosition(
                ZeroPositionRequest::new(self.host_id, self.actuator_can_id),
            ),
            ActuatorRequestParams::SingleParameterRead(param_index) => {
                ActuatorRequest::SingleParameterRead(SingleParameterReadRequest::new(
                    self.host_id,
                    self.actuator_can_id,
                    *param_index,
                ))
            },
            ActuatorRequestParams::SingleParameterWrite(param_index, data) => {
                ActuatorRequest::SingleParameterWrite(SingleParameterWriteRequest::new(
                    self.host_id,
                    self.actuator_can_id,
                    *param_index,
                    *data,
                ))
            },
            ActuatorRequestParams::MotorDataSave => ActuatorRequest::MotorDataSave(
                MotorDataSaveRequest::new(self.host_id, self.actuator_can_id),
            ),
        }
    }

    /// Builds the request, records it as outstanding, moves to
    /// `AwaitingResponse`, and returns the encoded frame to transmit.
    pub fn stage_request(&mut self, params: &ActuatorRequestParams) -> (frame: CanFrame)
        requires
            old(self).wf(),
        ensures
            *final(self) == (ActuatorClient {
                state: ActuatorClientState::AwaitingResponse,
                last_request: Some(old(self).spec_build_request(*params)),
                ..*old(self)
            }),
            final(self).wf(),
            frame@ == old(self).spec_build_request(*params).wire_bytes(),
    {
        self.state = ActuatorClientState::AwaitingResponse;
        let request = self.build_request(params);
        self.last_request = Some(request);
        request.to_can_frame()
    }

    /// The feedback update a feedback response yields: position,
    /// velocity and torque byte-swapped from the wire and scaled from
    /// the transport range into this session's engineering ranges.
    /// Gains, temperature and faults are not populated by this shape.
    pub open spec fn spec_update_from_feedback(self, resp: FeedbackResponse)
        -> ActuatorFeedbackUpdate {
        ActuatorFeedbackUpdate {
            qpos: Some(
                spec_scale(
                    spec_swap16(resp.angle_scale_be) as int,
                    self.can_range.angle,
                    self.actuator_ranges.angle,
                ) as i64,
            ),
            qvel: Some(
                spec_scale(
                    spec_swap16(resp.angular_vel_scale_be) as int,
                    self.can_range.velocity,
                    self.actuator_ranges.velocity,
                ) as i64,
            ),
            qfrc: Some(
                spec_scale(
                    spec_swap16(resp.torque_be) as int,
                    self.can_range.torque,
                    self.actuator_ranges.torque,
                ) as i64,
            ),
            kp: None::<i64>,
            kd: None::<i64>,
            temp: None::<i64>,
            faults: None::<u32>,
        }
    }

    fn update_from_feedback(&self, resp: &FeedbackResponse) -> (u: ActuatorFeedbackUpdate)
        requires
            self.wf(),
        ensures
            u == self.spec_update_from_feedback(*resp),
    {
        let qpos = self.can_range.angle.scale_value(
            swap16(resp.angle_scale_be) as i64,
            &self.actuator_ranges.angle,
        );
        let qvel = self.can_range.velocity.scale_value(
            swap16(resp.angular_vel_scale_be) as i64,
            &self.actuator_ranges.velocity,
        );
        let qfrc = self.can_range.torque.scale_value(
            swap16(resp.torque_be) as i64,
            &self.actuator_ranges.torque,
        );
        ActuatorFeedbackUpdate {
            qpos: Some(qpos),
            qvel: Some(qvel),
            qfrc: Some(qfrc),
            kp: None,
            kd: None,
            temp: None,
            faults: None,
        }
    }

    /// How a received frame changes the session and what it returns:
    /// the session after the call and the call's result.
    ///
    /// - An undecodable frame (unknown discriminator) is an error and
    ///   leaves the session untouched.
    /// - An ObtainId response for another identifier is a
    ///   `CanIdMismatch` error and leaves the session untouched (in
    ///   particular the stored MCU identifier); for this session it
    ///   stores the MCU identifier and yields nothing.
    /// - A feedback response for another identifier is the same error;
    ///   for this session it yields the scaled feedback update.
    /// - Parameter-dump fragments and single-parameter responses carry
    ///   no session-level meaning: the session only becomes `Ready`
    ///   (their payloads are correlated at the driver level).
    pub open spec fn spec_handle_response(self, bytes: Seq<u8>) -> (ActuatorClient, Result<
        Option<ActuatorFeedbackUpdate>,
        RobstrideError,
    >) {
        match ActuatorResponse::spec_response_of(bytes) {
            Err(e) => (self, Err(e)),
            Ok(ActuatorResponse::ObtainId(resp)) => {
                if resp.actuator_can_id as u8 != self.actuator_can_id {
                    (
                        self,
                        Err(RobstrideError::Protocol(ProtocolError::CanIdMismatch {
                            expected: self.actuator_can_id,
                            received: resp.actuator_can_id as u8,
                        })),
                    )
                } else {
                    (
                        ActuatorClient {
                            mcu_uid: Some(resp.mcu_uid),
                            state: ActuatorClientState::Ready,
                            ..self
                        },
                        Ok(None::<ActuatorFeedbackUpdate>),
                    )
                }
            },
            Ok(ActuatorResponse::Feedback(resp)) => {
                if resp.actuator_can_id != self.actuator_can_id {
                    (
                        self,
                        Err(RobstrideError::Protocol(ProtocolError::CanIdMismatch {
                            expected: self.actuator_can_id,
                            received: resp.actuator_can_id,
                        })),
                    )
                } else {
                    (
                        ActuatorClient { state: ActuatorClientState::Ready, ..self },
                        Ok(Some(self.spec_update_from_feedback(resp))),
                    )
                }
            },
            Ok(ActuatorResponse::ReadAllParams(_)) => (
                ActuatorClient { state: ActuatorClientState::Ready, ..self },
                Ok(None::<ActuatorFeedbackUpdate>),
            ),
            Ok(ActuatorResponse::SingleParameterRead(_)) => (
                ActuatorClient { state: ActuatorClientState::Ready, ..self },
                Ok(None::<ActuatorFeedbackUpdate>),
            ),
        }
    }

    /// Decodes a received frame, validates it against this session, and
    /// applies it. See [`ActuatorClient::spec_handle_response`] for the
    /// exact outcome in every case; a rejected frame never corrupts the
    /// session.
    pub fn handle_response(&mut self, response: &CanFrame) -> (r: Result<
        Option<ActuatorFeedbackUpdate>,
        RobstrideError,
    >)
        requires
            old(self).wf(),
        ensures
            *final(self) == old(self).spec_handle_response(response@).0,
            r == old(self).spec_handle_response(response@).1,
            final(self).wf(),
    {
        let decoded = ActuatorResponse::from_can_frame(response);
        match decoded {
            Err(e) => Err(e),
            Ok(ActuatorResponse::ObtainId(resp)) => {
                if resp.actuator_can_id as u8 != self.actuator_can_id {
                    Err(RobstrideError::Protocol(ProtocolError::CanIdMismatch {
                        expected: self.actuator_can_id,
                        received: resp.actuator_can_id as u8,
                    }))
                } else {
                    self.mcu_uid = Some(resp.mcu_uid);
                    self.state = ActuatorClientState::Ready;
                    Ok(None)
                }
            },
            Ok(ActuatorResponse::Feedback(resp)) => {
                if resp.actuator_can_id != self.actuator_can_id {
                    Err(RobstrideError::Protocol(ProtocolError::CanIdMismatch {
                        expected: self.actuator_can_id,
                        received: resp.actuator_can_id,
                    }))
                } else {
                    self.state = ActuatorClientState::Ready;
                    let update = self.update_from_feedback(&resp);
                    Ok(Some(update))
                }
            },
            Ok(ActuatorResponse::ReadAllParams(_)) => {
                self.state = ActuatorClientState::Ready;
                Ok(None)
            },
            Ok(ActuatorResponse::SingleParameterRead(_)) => {
                self.state = ActuatorClientState::Ready;
                Ok(None)
            },
        }
    }
}

/// An identifier mismatch never touches the session: an ObtainId
/// response carrying another actuator's identifier yields
/// `CanIdMismatch` and leaves every session field, the stored MCU
/// identifier included, exactly as it was.
pub proof fn lemma_id_mismatch_preserves_session(c: ActuatorClient, bytes: Seq<u8>)
    requires
        spec_mux(bytes) == 0x00,
        crate::protocol::ObtainIdResponse::spec_from_bytes(bytes).actuator_can_id as u8
            != c.actuator_can_id,
    ensures
        c.spec_handle_response(bytes).0 == c,
        c.spec_handle_response(bytes).1 == Err::<Option<ActuatorFeedbackUpdate>, RobstrideError>(
            RobstrideError::Protocol(ProtocolError::CanIdMismatch {
                expected: c.actuator_can_id,
                received: crate::protocol::ObtainIdResponse::spec_from_bytes(
                    bytes,
                ).actuator_can_id as u8,
            }),
        ),
{
}

} // verus!
