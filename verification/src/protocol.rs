//! The Robstride request/response codec.
//!
//! Every message is a fixed layout over the 16 bytes of a [`CanFrame`].
//! A 5-bit command discriminator ("mux") sits in the low five bits of
//! frame byte 3; the top bit of that same byte is the extended-frame
//! flag, which every encoded frame sets. Multi-byte identifier and
//! parameter fields are little-endian; the four scaled axes of a control
//! command travel big-endian on the wire, and the scaled readings of a
//! feedback response arrive big-endian (their struct fields hold the
//! little-endian reading, to be byte-swapped before use).

use vstd::prelude::*;
use vstd::bytes::{
    spec_u16_from_le_bytes, spec_u16_to_le_bytes, lemma_auto_spec_u16_to_from_le_bytes,
    spec_u32_from_le_bytes, spec_u32_to_le_bytes, lemma_auto_spec_u32_to_from_le_bytes,
    spec_u64_from_le_bytes, spec_u64_to_le_bytes, lemma_auto_spec_u64_to_from_le_bytes,
};
use crate::can::CanFrame;
use crate::error::{ProtocolError, RobstrideError};
use crate::types::ActuatorCommand;

verus! {

/// The 5-bit command discriminator of a frame: the low five bits of
/// frame byte 3.
pub open spec fn spec_mux(bytes: Seq<u8>) -> u8
    recommends
        bytes.len() == 16,
{
    bytes[3] & 0x1F
}

/// Reads the command discriminator from a frame: the low five bits of
/// byte 3, for every one of the 256 possible values of that byte.
pub fn mux_from_can_frame(frame: &CanFrame) -> (mux: u8)
    ensures
        mux == spec_mux(frame@),
        mux == (frame@[3] & 0x1F),
{
    frame.bytes[3] & 0x1F
}

/// The mux byte as written on the wire is the discriminator with the
/// extended-frame flag (bit 7) set on top of it; masking with 0x1F
/// recovers the discriminator.
pub proof fn lemma_mux_byte_mask()
    ensures
        0x80u8 & 0x1F == 0x00,
        0x81u8 & 0x1F == 0x01,
        0x82u8 & 0x1F == 0x02,
        0x83u8 & 0x1F == 0x03,
        0x86u8 & 0x1F == 0x06,
        0x91u8 & 0x1F == 0x11,
        0x92u8 & 0x1F == 0x12,
        0x93u8 & 0x1F == 0x13,
        0x96u8 & 0x1F == 0x16,
{
    assert(0x80u8 & 0x1F == 0x00 && 0x81u8 & 0x1F == 0x01 && 0x82u8 & 0x1F == 0x02
        && 0x83u8 & 0x1F == 0x03 && 0x86u8 & 0x1F == 0x06 && 0x91u8 & 0x1F == 0x11
        && 0x92u8 & 0x1F == 0x12 && 0x93u8 & 0x1F == 0x13 && 0x96u8 & 0x1F == 0x16)
        by (bit_vector);
}

/// Reads the little-endian u16 at byte offset `i` of a frame.
fn frame_u16_le(frame: &CanFrame, i: usize) -> (x: u16)
    requires
        i + 2 <= 16,
    ensures
        x == spec_u16_from_le_bytes(frame@.subrange(i as int, i + 2)),
{
    let b: Vec<u8> = vec![frame.bytes[i], frame.bytes[i + 1]];
    let x = vstd::bytes::u16_from_le_bytes(b.as_slice());
    proof {
        assert(b@ =~= frame@.subrange(i as int, i + 2));
    }
    x
}

/// Reads the big-endian u16 at byte offset `i` of a frame.
fn frame_u16_be(frame: &CanFrame, i: usize) -> (x: u16)
    requires
        i + 2 <= 16,
    ensures
        x == spec_u16_from_le_bytes(seq![frame@[i + 1], frame@[i as int]]),
{
    let b: Vec<u8> = vec![frame.bytes[i + 1], frame.bytes[i]];
    let x = vstd::bytes::u16_from_le_bytes(b.as_slice());
    proof {
        assert(b@ =~= seq![frame@[i + 1], frame@[i as int]]);
    }
    x
}

/// Reads the little-endian u32 at byte offset `i` of a frame.
fn frame_u32_le(frame: &CanFrame, i: usize) -> (x: u32)
    requires
        i + 4 <= 16,
    ensures
        x == spec_u32_from_le_bytes(frame@.subrange(i as int, i + 4)),
{
    let b: Vec<u8> = vec![
        frame.bytes[i], frame.bytes[i + 1], frame.bytes[i + 2], frame.bytes[i + 3],
    ];
    let x = vstd::bytes::u32_from_le_bytes(b.as_slice());
    proof {
        assert(b@ =~= frame@.subrange(i as int, i + 4));
    }
    x
}

/// Reads the little-endian u64 in the payload (bytes 8..16) of a frame.
fn frame_u64_payload(frame: &CanFrame) -> (x: u64)
    ensures
        x == spec_u64_from_le_bytes(frame@.subrange(8, 16)),
{
    let b: Vec<u8> = vec![
        frame.bytes[8], frame.bytes[9], frame.bytes[10], frame.bytes[11],
        frame.bytes[12], frame.bytes[13], frame.bytes[14], frame.bytes[15],
    ];
    let x = vstd::bytes::u64_from_le_bytes(b.as_slice());
    proof {
        assert(b@ =~= frame@.subrange(8, 16));
    }
    x
}

/// Marker for every message shape that is a bit-exact layout over one
/// CAN frame.
pub trait RobstrideActuatorFrame {
}

// ---------------------------------------------------------------------
// ObtainId (mux 0x00)
// ---------------------------------------------------------------------

/// Request that an actuator report its MCU unique identifier.
#[derive(Clone, Copy, Debug, PartialEq, Eq)]
pub struct ObtainIdRequest {
    pub actuator_can_id: u8,
    pub host_id: u16,
}

impl RobstrideActuatorFrame for ObtainIdRequest {
}

impl ObtainIdRequest {
    /// Exact frame bytes of this request, extended-frame flag included.
    pub open spec fn wire_bytes(self) -> Seq<u8> {
        seq![
            self.actuator_can_id,
            spec_u16_to_le_bytes(self.host_id)[0],
            spec_u16_to_le_bytes(self.host_id)[1],
            0x80u8,
            8u8, 0u8, 0u8, 0u8,
            0u8, 0u8, 0u8, 0u8, 0u8, 0u8, 0u8, 0u8,
        ]
    }

    /// The fields read off a frame of this shape.
    pub open spec fn spec_from_bytes(bytes: Seq<u8>) -> ObtainIdRequest
        recommends
            bytes.len() == 16,
    {
        ObtainIdRequest {
            actuator_can_id: bytes[0],
            host_id: spec_u16_from_le_bytes(bytes.subrange(1, 3)),
        }
    }

    /// The request a frame carries when its discriminator is 0x00,
    /// nothing for any other discriminator.
    pub open spec fn spec_parse(bytes: Seq<u8>) -> Option<ObtainIdRequest>
        recommends
            bytes.len() == 16,
    {
        if spec_mux(bytes) == 0x00 {
            Some(Self::spec_from_bytes(bytes))
        } else {
            None
        }
    }

    pub fn new(host_id: u16, actuator_can_id: u8) -> (r: ObtainIdRequest)
        ensures
            r == (ObtainIdRequest { host_id, actuator_can_id }),
    {
        ObtainIdRequest { actuator_can_id, host_id }
    }

    /// Encodes this request into its frame.
    pub fn encode(&self) -> (f: CanFrame)
        ensures
            f@ == self.wire_bytes(),
    {
        let h = vstd::bytes::u16_to_le_bytes(self.host_id);
        let f = CanFrame {
            bytes: [
                self.actuator_can_id, h[0], h[1], 0x80,
                8, 0, 0, 0,
                0, 0, 0, 0, 0, 0, 0, 0,
            ],
        };
        proof {
            assert(f@ =~= self.wire_bytes());
        }
        f
    }

    /// Decodes a frame with mux 0x00 back into the request shape.
    pub fn parse(frame: &CanFrame) -> (r: Option<ObtainIdRequest>)
        ensures
            r == Self::spec_parse(frame@),
    {
        if mux_from_can_frame(frame) == 0x00 {
            Some(ObtainIdRequest {
                actuator_can_id: frame.bytes[0],
                host_id: frame_u16_le(frame, 1),
            })
        } else {
            None
        }
    }
}

/// An actuator's answer to ObtainId: its 64-bit MCU unique identifier.
/// Shares mux 0x00 with the request; only the payload differs.
#[derive(Clone, Copy, Debug, PartialEq, Eq)]
pub struct ObtainIdResponse {
    /// The responding actuator's CAN identifier, as the device reports
    /// it: a 16-bit field whose low byte is the identifier.
    pub actuator_can_id: u16,
    pub mcu_uid: u64,
}

impl RobstrideActuatorFrame for ObtainIdResponse {
}

impl ObtainIdResponse {
    /// Exact frame bytes of this response, extended-frame flag included.
    pub open spec fn wire_bytes(self) -> Seq<u8> {
        seq![
            0u8,
            spec_u16_to_le_bytes(self.actuator_can_id)[0],
            spec_u16_to_le_bytes(self.actuator_can_id)[1],
            0x80u8,
            8u8, 0u8, 0u8, 0u8,
            spec_u64_to_le_bytes(self.mcu_uid)[0],
            spec_u64_to_le_bytes(self.mcu_uid)[1],
            spec_u64_to_le_bytes(self.mcu_uid)[2],
            spec_u64_to_le_bytes(self.mcu_uid)[3],
            spec_u64_to_le_bytes(self.mcu_uid)[4],
            spec_u64_to_le_bytes(self.mcu_uid)[5],
            spec_u64_to_le_bytes(self.mcu_uid)[6],
            spec_u64_to_le_bytes(self.mcu_uid)[7],
        ]
    }

    /// The fields read off a frame of this shape.
    pub open spec fn spec_from_bytes(bytes: Seq<u8>) -> ObtainIdResponse
        recommends
            bytes.len() == 16,
    {
        ObtainIdResponse {
            actuator_can_id: spec_u16_from_le_bytes(bytes.subrange(1, 3)),
            mcu_uid: spec_u64_from_le_bytes(bytes.subrange(8, 16)),
        }
    }

    pub open spec fn spec_parse(bytes: Seq<u8>) -> Option<ObtainIdResponse>
        recommends
            bytes.len() == 16,
    {
        if spec_mux(bytes) == 0x00 {
            Some(Self::spec_from_bytes(bytes))
        } else {
            None
        }
    }

    /// Reads the fields of this shape from a frame, regardless of its
    /// discriminator.
    pub fn read_fields(frame: &CanFrame) -> (r: ObtainIdResponse)
        ensures
            r == Self::spec_from_bytes(frame@),
    {
        ObtainIdResponse {
            actuator_can_id: frame_u16_le(frame, 1),
            mcu_uid: frame_u64_payload(frame),
        }
    }

    /// Encodes this response into its frame (the device side of the
    /// exchange; used to build bus traffic in harnesses and checks).
    pub fn encode(&self) -> (f: CanFrame)
        ensures
            f@ == self.wire_bytes(),
    {
        let c = vstd::bytes::u16_to_le_bytes(self.actuator_can_id);
        let u = vstd::bytes::u64_to_le_bytes(self.mcu_uid);
        let f = CanFrame {
            bytes: [
                0, c[0], c[1], 0x80,
                8, 0, 0, 0,
                u[0], u[1], u[2], u[3], u[4], u[5], u[6], u[7],
            ],
        };
        proof {
            assert(f@ =~= self.wire_bytes());
        }
        f
    }

    pub fn parse(frame: &CanFrame) -> (r: Option<ObtainIdResponse>)
        ensures
            r == Self::spec_parse(frame@),
    {
        if mux_from_can_frame(frame) == 0x00 {
            Some(Self::read_fields(frame))
        } else {
            None
        }
    }
}

// ---------------------------------------------------------------------
// Control command (request mux 0x01)
// ---------------------------------------------------------------------

/// A full control command: all five axes already scaled to the 16-bit
/// transport range. The torque axis rides in the identifier bytes,
/// little-endian; the other four axes ride in the payload, big-endian.
#[derive(Clone, Copy, Debug, PartialEq, Eq)]
pub struct ControlCommandRequest {
    pub actuator_can_id: u8,
    pub torque_scale: u16,
    pub angle_scale: u16,
    pub angular_vel_scale: u16,
    pub kp_scale: u16,
    pub kd_scale: u16,
}

impl RobstrideActuatorFrame for ControlCommandRequest {
}

impl ControlCommandRequest {
    /// Exact frame bytes of this request, extended-frame flag included.
    pub open spec fn wire_bytes(self) -> Seq<u8> {
        seq![
            self.actuator_can_id,
            spec_u16_to_le_bytes(self.torque_scale)[0],
            spec_u16_to_le_bytes(self.torque_scale)[1],
            0x81u8,
            8u8, 0u8, 0u8, 0u8,
            spec_u16_to_le_bytes(self.angle_scale)[1],
            spec_u16_to_le_bytes(self.angle_scale)[0],
            spec_u16_to_le_bytes(self.angular_vel_scale)[1],
            spec_u16_to_le_bytes(self.angular_vel_scale)[0],
            spec_u16_to_le_bytes(self.kp_scale)[1],
            spec_u16_to_le_bytes(self.kp_scale)[0],
            spec_u16_to_le_bytes(self.kd_scale)[1],
            spec_u16_to_le_bytes(self.kd_scale)[0],
        ]
    }

    /// The fields read off a frame of this shape.
    pub open spec fn spec_from_bytes(bytes: Seq<u8>) -> ControlCommandRequest
        recommends
            bytes.len() == 16,
    {
        ControlCommandRequest {
            actuator_can_id: bytes[0],
            torque_scale: spec_u16_from_le_bytes(bytes.subrange(1, 3)),
            angle_scale: spec_u16_from_le_bytes(seq![bytes[9], bytes[8]]),
            angular_vel_scale: spec_u16_from_le_bytes(seq![bytes[11], bytes[10]]),
            kp_scale: spec_u16_from_le_bytes(seq![bytes[13], bytes[12]]),
            kd_scale: spec_u16_from_le_bytes(seq![bytes[15], bytes[14]]),
        }
    }

    pub open spec fn spec_parse(bytes: Seq<u8>) -> Option<ControlCommandRequest>
        recommends
            bytes.len() == 16,
    {
        if spec_mux(bytes) == 0x01 {
            Some(Self::spec_from_bytes(bytes))
        } else {
            None
        }
    }

    /// Builds the command. The argument order (torque, angle, velocity,
    /// kd, kp) is the order the rest of the driver has always used.
    pub fn new(
        actuator_can_id: u8,
        torque_scale: u16,
        angle_scale: u16,
        angular_vel_scale: u16,
        kd_scale: u16,
        kp_scale: u16,
    ) -> (r: ControlCommandRequest)
        ensures
            r == (ControlCommandRequest {
                actuator_can_id, torque_scale, angle_scale, angular_vel_scale, kp_scale, kd_scale,
            }),
    {
        ControlCommandRequest {
            actuator_can_id, torque_scale, angle_scale, angular_vel_scale, kp_scale, kd_scale,
        }
    }

    pub fn encode(&self) -> (f: CanFrame)
        ensures
            f@ == self.wire_bytes(),
    {
        let t = vstd::bytes::u16_to_le_bytes(self.torque_scale);
        let a = vstd::bytes::u16_to_le_bytes(self.angle_scale);
        let v = vstd::bytes::u16_to_le_bytes(self.angular_vel_scale);
        let p = vstd::bytes::u16_to_le_bytes(self.kp_scale);
        let d = vstd::bytes::u16_to_le_bytes(self.kd_scale);
        let f = CanFrame {
            bytes: [
                self.actuator_can_id, t[0], t[1], 0x81,
                8, 0, 0, 0,
                a[1], a[0], v[1], v[0], p[1], p[0], d[1], d[0],
            ],
        };
        proof {
            assert(f@ =~= self.wire_bytes());
        }
        f
    }

    pub fn parse(frame: &CanFrame) -> (r: Option<ControlCommandRequest>)
        ensures
            r == Self::spec_parse(frame@),
    {
        if mux_from_can_frame(frame) == 0x01 {
            Some(ControlCommandRequest {
                actuator_can_id: frame.bytes[0],
                torque_scale: frame_u16_le(frame, 1),
                angle_scale: frame_u16_be(frame, 8),
                angular_vel_scale: frame_u16_be(frame, 10),
                kp_scale: frame_u16_be(frame, 12),
                kd_scale: frame_u16_be(frame, 14),
            })
        } else {
            None
        }
    }
}

// ---------------------------------------------------------------------
// MotorEnable (request mux 0x03), Feedback request (mux 0x02),
// ZeroPosition (request mux 0x06), MotorDataSave (request mux 0x16)
// ---------------------------------------------------------------------

/// Enables the motor stage. Answered by a feedback-shaped response.
#[derive(Clone, Copy, Debug, PartialEq, Eq)]
pub struct MotorEnableRequest {
    pub actuator_can_id: u8,
    pub host_id: u16,
}

impl RobstrideActuatorFrame for MotorEnableRequest {
}

impl MotorEnableRequest {
    pub open spec fn wire_bytes(self) -> Seq<u8> {
        seq![
            self.actuator_can_id,
            spec_u16_to_le_bytes(self.host_id)[0],
            spec_u16_to_le_bytes(self.host_id)[1],
            0x83u8,
            8u8, 0u8, 0u8, 0u8,
            0u8, 0u8, 0u8, 0u8, 0u8, 0u8, 0u8, 0u8,
        ]
    }

    pub open spec fn spec_from_bytes(bytes: Seq<u8>) -> MotorEnableRequest
        recommends
            bytes.len() == 16,
    {
        MotorEnableRequest {
            actuator_can_id: bytes[0],
            host_id: spec_u16_from_le_bytes(bytes.subrange(1, 3)),
        }
    }

    pub open spec fn spec_parse(bytes: Seq<u8>) -> Option<MotorEnableRequest>
        recommends
            bytes.len() == 16,
    {
        if spec_mux(bytes) == 0x03 {
            Some(Self::spec_from_bytes(bytes))
        } else {
            None
        }
    }

    pub fn new(host_id: u16, actuator_can_id: u8) -> (r: MotorEnableRequest)
        ensures
            r == (MotorEnableRequest { host_id, actuator_can_id }),
    {
        MotorEnableRequest { actuator_can_id, host_id }
    }

    pub fn encode(&self) -> (f: CanFrame)
        ensures
            f@ == self.wire_bytes(),
    {
        let h = vstd::bytes::u16_to_le_bytes(self.host_id);
        let f = CanFrame {
            bytes: [
                self.actuator_can_id, h[0], h[1], 0x83,
                8, 0, 0, 0,
                0, 0, 0, 0, 0, 0, 0, 0,
            ],
        };
        proof {
            assert(f@ =~= self.wire_bytes());
        }
        f
    }

    pub fn parse(frame: &CanFrame) -> (r: Option<MotorEnableRequest>)
        ensures
            r == Self::spec_parse(frame@),
    {
        if mux_from_can_frame(frame) == 0x03 {
            Some(MotorEnableRequest {
                actuator_can_id: frame.bytes[0],
                host_id: frame_u16_le(frame, 1),
            })
        } else {
            None
        }
    }
}

/// Asks for one feedback report.
#[derive(Clone, Copy, Debug, PartialEq, Eq)]
pub struct FeedbackRequest {
    pub actuator_can_id: u8,
    pub host_id: u16,
}

impl RobstrideActuatorFrame for FeedbackRequest {
}

impl FeedbackRequest {
    pub open spec fn wire_bytes(self) -> Seq<u8> {
        seq![
            self.actuator_can_id,
            spec_u16_to_le_bytes(self.host_id)[0],
            spec_u16_to_le_bytes(self.host_id)[1],
            0x82u8,
            8u8, 0u8, 0u8, 0u8,
            0u8, 0u8, 0u8, 0u8, 0u8, 0u8, 0u8, 0u8,
        ]
    }

    pub open spec fn spec_from_bytes(bytes: Seq<u8>) -> FeedbackRequest
        recommends
            bytes.len() == 16,
    {
        FeedbackRequest {
            actuator_can_id: bytes[0],
            host_id: spec_u16_from_le_bytes(bytes.subrange(1, 3)),
        }
    }

    pub open spec fn spec_parse(bytes: Seq<u8>) -> Option<FeedbackRequest>
        recommends
            bytes.len() == 16,
    {
        if spec_mux(bytes) == 0x02 {
            Some(Self::spec_from_bytes(bytes))
        } else {
            None
        }
    }

    pub fn new(host_id: u16, actuator_can_id: u8) -> (r: FeedbackRequest)
        ensures
            r == (FeedbackRequest { host_id, actuator_can_id }),
    {
        FeedbackRequest { actuator_can_id, host_id }
    }

    pub fn encode(&self) -> (f: CanFrame)
        ensures
            f@ == self.wire_bytes(),
    {
        let h = vstd::bytes::u16_to_le_bytes(self.host_id);
        let f = CanFrame {
            bytes: [
                self.actuator_can_id, h[0], h[1], 0x82,
                8, 0, 0, 0,
                0, 0, 0, 0, 0, 0, 0, 0,
            ],
        };
        proof {
            assert(f@ =~= self.wire_bytes());
        }
        f
    }

    pub fn parse(frame: &CanFrame) -> (r: Option<FeedbackRequest>)
        ensures
            r == Self::spec_parse(frame@),
    {
        if mux_from_can_frame(frame) == 0x02 {
            Some(FeedbackRequest {
                actuator_can_id: frame.bytes[0],
                host_id: frame_u16_le(frame, 1),
            })
        } else {
            None
        }
    }
}

/// Declares the current mechanical position to be zero.
#[derive(Clone, Copy, Debug, PartialEq, Eq)]
pub struct ZeroPositionRequest {
    pub actuator_can_id: u8,
    pub host_id: u16,
}

impl RobstrideActuatorFrame for ZeroPositionRequest {
}

impl ZeroPositionRequest {
    /// The payload carries the fixed marker bytes 01 01 CD.
    pub open spec fn wire_bytes(self) -> Seq<u8> {
        seq![
            self.actuator_can_id,
            spec_u16_to_le_bytes(self.host_id)[0],
            spec_u16_to_le_bytes(self.host_id)[1],
            0x86u8,
            8u8, 0u8, 0u8, 0u8,
            0x01u8, 0x01u8, 0xCDu8, 0u8, 0u8, 0u8, 0u8, 0u8,
        ]
    }

    pub open spec fn spec_from_bytes(bytes: Seq<u8>) -> ZeroPositionRequest
        recommends
            bytes.len() == 16,
    {
        ZeroPositionRequest {
            actuator_can_id: bytes[0],
            host_id: spec_u16_from_le_bytes(bytes.subrange(1, 3)),
        }
    }

    pub open spec fn spec_parse(bytes: Seq<u8>) -> Option<ZeroPositionRequest>
        recommends
            bytes.len() == 16,
    {
        if spec_mux(bytes) == 0x06 {
            Some(Self::spec_from_bytes(bytes))
        } else {
            None
        }
    }

    pub fn new(host_id: u16, actuator_can_id: u8) -> (r: ZeroPositionRequest)
        ensures
            r == (ZeroPositionRequest { host_id, actuator_can_id }),
    {
        ZeroPositionRequest { actuator_can_id, host_id }
    }

    pub fn encode(&self) -> (f: CanFrame)
        ensures
            f@ == self.wire_bytes(),
    {
        let h = vstd::bytes::u16_to_le_bytes(self.host_id);
        let f = CanFrame {
            bytes: [
                self.actuator_can_id, h[0], h[1], 0x86,
                8, 0, 0, 0,
                0x01, 0x01, 0xCD, 0, 0, 0, 0, 0,
            ],
        };
        proof {
            assert(f@ =~= self.wire_bytes());
        }
        f
    }

    pub fn parse(frame: &CanFrame) -> (r: Option<ZeroPositionRequest>)
        ensures
            r == Self::spec_parse(frame@),
    {
        if mux_from_can_frame(frame) == 0x06 {
            Some(ZeroPositionRequest {
                actuator_can_id: frame.bytes[0],
                host_id: frame_u16_le(frame, 1),
            })
        } else {
            None
        }
    }
}

/// Asks the actuator to persist its parameters. The payload carries the
/// fixed confirmation sequence 01..08.
#[derive(Clone, Copy, Debug, PartialEq, Eq)]
pub struct MotorDataSaveRequest {
    pub actuator_can_id: u8,
    pub host_id: u16,
}

impl RobstrideActuatorFrame for MotorDataSaveRequest {
}

impl MotorDataSaveRequest {
    pub open spec fn wire_bytes(self) -> Seq<u8> {
        seq![
            self.actuator_can_id,
            spec_u16_to_le_bytes(self.host_id)[0],
            spec_u16_to_le_bytes(self.host_id)[1],
            0x96u8,
            8u8, 0u8, 0u8, 0u8,
            0x01u8, 0x02u8, 0x03u8, 0x04u8, 0x05u8, 0x06u8, 0x07u8, 0x08u8,
        ]
    }

    pub open spec fn spec_from_bytes(bytes: Seq<u8>) -> MotorDataSaveRequest
        recommends
            bytes.len() == 16,
    {
        MotorDataSaveRequest {
            actuator_can_id: bytes[0],
            host_id: spec_u16_from_le_bytes(bytes.subrange(1, 3)),
        }
    }

    pub open spec fn spec_parse(bytes: Seq<u8>) -> Option<MotorDataSaveRequest>
        recommends
            bytes.len() == 16,
    {
        if spec_mux(bytes) == 0x16 {
            Some(Self::spec_from_bytes(bytes))
        } else {
            None
        }
    }

    pub fn new(host_id: u16, actuator_can_id: u8) -> (r: MotorDataSaveRequest)
        ensures
            r == (MotorDataSaveRequest { host_id, actuator_can_id }),
    {
        MotorDataSaveRequest { actuator_can_id, host_id }
    }

    pub fn encode(&self) -> (f: CanFrame)
        ensures
            f@ == self.wire_bytes(),
    {
        let h = vstd::bytes::u16_to_le_bytes(self.host_id);
        let f = CanFrame {
            bytes: [
                self.actuator_can_id, h[0], h[1], 0x96,
                8, 0, 0, 0,
                0x01, 0x02, 0x03, 0x04, 0x05, 0x06, 0x07, 0x08,
            ],
        };
        proof {
            assert(f@ =~= self.wire_bytes());
        }
        f
    }

    pub fn parse(frame: &CanFrame) -> (r: Option<MotorDataSaveRequest>)
        ensures
            r == Self::spec_parse(frame@),
    {
        if mux_from_can_frame(frame) == 0x16 {
            Some(MotorDataSaveRequest {
                actuator_can_id: frame.bytes[0],
                host_id: frame_u16_le(frame, 1),
            })
        } else {
            None
        }
    }
}

// ---------------------------------------------------------------------
// Feedback response (mux 0x02)
// ---------------------------------------------------------------------

/// A feedback report. The three scaled readings and the temperature
/// arrive big-endian on the wire; each `_be` field holds the raw
/// little-endian reading of its two bytes and must be byte-swapped to
/// obtain the transport-range value.
#[derive(Clone, Copy, Debug, PartialEq, Eq)]
pub struct FeedbackResponse {
    pub host_id: u8,
    pub actuator_can_id: u8,
    pub fault_flags: u8,
    pub angle_scale_be: u16,
    pub angular_vel_scale_be: u16,
    pub torque_be: u16,
    pub temp_be: u16,
}

impl RobstrideActuatorFrame for FeedbackResponse {
}

impl FeedbackResponse {
    pub open spec fn wire_bytes(self) -> Seq<u8> {
        seq![
            self.host_id,
            self.actuator_can_id,
            self.fault_flags,
            0x82u8,
            8u8, 0u8, 0u8, 0u8,
            spec_u16_to_le_bytes(self.angle_scale_be)[0],
            spec_u16_to_le_bytes(self.angle_scale_be)[1],
            spec_u16_to_le_bytes(self.angular_vel_scale_be)[0],
            spec_u16_to_le_bytes(self.angular_vel_scale_be)[1],
            spec_u16_to_le_bytes(self.torque_be)[0],
            spec_u16_to_le_bytes(self.torque_be)[1],
            spec_u16_to_le_bytes(self.temp_be)[0],
            spec_u16_to_le_bytes(self.temp_be)[1],
        ]
    }

    pub open spec fn spec_from_bytes(bytes: Seq<u8>) -> FeedbackResponse
        recommends
            bytes.len() == 16,
    {
        FeedbackResponse {
            host_id: bytes[0],
            actuator_can_id: bytes[1],
            fault_flags: bytes[2],
            angle_scale_be: spec_u16_from_le_bytes(bytes.subrange(8, 10)),
            angular_vel_scale_be: spec_u16_from_le_bytes(bytes.subrange(10, 12)),
            torque_be: spec_u16_from_le_bytes(bytes.subrange(12, 14)),
            temp_be: spec_u16_from_le_bytes(bytes.subrange(14, 16)),
        }
    }

    pub open spec fn spec_parse(bytes: Seq<u8>) -> Option<FeedbackResponse>
        recommends
            bytes.len() == 16,
    {
        if spec_mux(bytes) == 0x02 {
            Some(Self::spec_from_bytes(bytes))
        } else {
            None
        }
    }

    pub fn read_fields(frame: &CanFrame) -> (r: FeedbackResponse)
        ensures
            r == Self::spec_from_bytes(frame@),
    {
        FeedbackResponse {
            host_id: frame.bytes[0],
            actuator_can_id: frame.bytes[1],
            fault_flags: frame.bytes[2],
            angle_scale_be: frame_u16_le(frame, 8),
            angular_vel_scale_be: frame_u16_le(frame, 10),
            torque_be: frame_u16_le(frame, 12),
            temp_be: frame_u16_le(frame, 14),
        }
    }

    pub fn encode(&self) -> (f: CanFrame)
        ensures
            f@ == self.wire_bytes(),
    {
        let a = vstd::bytes::u16_to_le_bytes(self.angle_scale_be);
        let v = vstd::bytes::u16_to_le_bytes(self.angular_vel_scale_be);
        let t = vstd::bytes::u16_to_le_bytes(self.torque_be);
        let m = vstd::bytes::u16_to_le_bytes(self.temp_be);
        let f = CanFrame {
            bytes: [
                self.host_id, self.actuator_can_id, self.fault_flags, 0x82,
                8, 0, 0, 0,
                a[0], a[1], v[0], v[1], t[0], t[1], m[0], m[1],
            ],
        };
        proof {
            assert(f@ =~= self.wire_bytes());
        }
        f
    }

    pub fn parse(frame: &CanFrame) -> (r: Option<FeedbackResponse>)
        ensures
            r == Self::spec_parse(frame@),
    {
        if mux_from_can_frame(frame) == 0x02 {
            Some(Self::read_fields(frame))
        } else {
            None
        }
    }
}

// ---------------------------------------------------------------------
// Single-parameter read (mux 0x11) and write (request mux 0x12)
// ---------------------------------------------------------------------

/// Reads one parameter by its 16-bit code.
#[derive(Clone, Copy, Debug, PartialEq, Eq)]
pub struct SingleParameterReadRequest {
    pub actuator_can_id: u8,
    pub host_id: u16,
    pub param_index: u16,
}

impl RobstrideActuatorFrame for SingleParameterReadRequest {
}

impl SingleParameterReadRequest {
    pub open spec fn wire_bytes(self) -> Seq<u8> {
        seq![
            self.actuator_can_id,
            spec_u16_to_le_bytes(self.host_id)[0],
            spec_u16_to_le_bytes(self.host_id)[1],
            0x91u8,
            8u8, 0u8, 0u8, 0u8,
            spec_u16_to_le_bytes(self.param_index)[0],
            spec_u16_to_le_bytes(self.param_index)[1],
            0u8, 0u8, 0u8, 0u8, 0u8, 0u8,
        ]
    }

    pub open spec fn spec_from_bytes(bytes: Seq<u8>) -> SingleParameterReadRequest
        recommends
            bytes.len() == 16,
    {
        SingleParameterReadRequest {
            actuator_can_id: bytes[0],
            host_id: spec_u16_from_le_bytes(bytes.subrange(1, 3)),
            param_index: spec_u16_from_le_bytes(bytes.subrange(8, 10)),
        }
    }

    pub open spec fn spec_parse(bytes: Seq<u8>) -> Option<SingleParameterReadRequest>
        recommends
            bytes.len() == 16,
    {
        if spec_mux(bytes) == 0x11 {
            Some(Self::spec_from_bytes(bytes))
        } else {
            None
        }
    }

    pub fn new(host_id: u16, actuator_can_id: u8, param_index: u16) -> (r:
        SingleParameterReadRequest)
        ensures
            r == (SingleParameterReadRequest { host_id, actuator_can_id, param_index }),
    {
        SingleParameterReadRequest { actuator_can_id, host_id, param_index }
    }

    pub fn encode(&self) -> (f: CanFrame)
        ensures
            f@ == self.wire_bytes(),
    {
        let h = vstd::bytes::u16_to_le_bytes(self.host_id);
        let p = vstd::bytes::u16_to_le_bytes(self.param_index);
        let f = CanFrame {
            bytes: [
                self.actuator_can_id, h[0], h[1], 0x91,
                8, 0, 0, 0,
                p[0], p[1], 0, 0, 0, 0, 0, 0,
            ],
        };
        proof {
            assert(f@ =~= self.wire_bytes());
        }
        f
    }

    pub fn parse(frame: &CanFrame) -> (r: Option<SingleParameterReadRequest>)
        ensures
            r == Self::spec_parse(frame@),
    {
        if mux_from_can_frame(frame) == 0x11 {
            Some(SingleParameterReadRequest {
                actuator_can_id: frame.bytes[0],
                host_id: frame_u16_le(frame, 1),
                param_index: frame_u16_le(frame, 8),
            })
        } else {
            None
        }
    }
}

/// The answer to a single-parameter read: a status byte, the echoed
/// parameter code, and four little-endian data bytes.
#[derive(Clone, Copy, Debug, PartialEq, Eq)]
pub struct SingleParameterReadResponse {
    pub host_id: u8,
    pub actuator_can_id: u8,
    /// 0x00 on success, 0x01 on error.
    pub status: u8,
    pub param_index: u16,
    pub param_data: u32,
}

impl RobstrideActuatorFrame for SingleParameterReadResponse {
}

impl SingleParameterReadResponse {
    pub open spec fn wire_bytes(self) -> Seq<u8> {
        seq![
            self.host_id,
            self.actuator_can_id,
            self.status,
            0x91u8,
            8u8, 0u8, 0u8, 0u8,
            spec_u16_to_le_bytes(self.param_index)[0],
            spec_u16_to_le_bytes(self.param_index)[1],
            0u8, 0u8,
            spec_u32_to_le_bytes(self.param_data)[0],
            spec_u32_to_le_bytes(self.param_data)[1],
            spec_u32_to_le_bytes(self.param_data)[2],
            spec_u32_to_le_bytes(self.param_data)[3],
        ]
    }

    pub open spec fn spec_from_bytes(bytes: Seq<u8>) -> SingleParameterReadResponse
        recommends
            bytes.len() == 16,
    {
        SingleParameterReadResponse {
            host_id: bytes[0],
            actuator_can_id: bytes[1],
            status: bytes[2],
            param_index: spec_u16_from_le_bytes(bytes.subrange(8, 10)),
            param_data: spec_u32_from_le_bytes(bytes.subrange(12, 16)),
        }
    }

    pub open spec fn spec_parse(bytes: Seq<u8>) -> Option<SingleParameterReadResponse>
        recommends
            bytes.len() == 16,
    {
        if spec_mux(bytes) == 0x11 {
            Some(Self::spec_from_bytes(bytes))
        } else {
            None
        }
    }

    pub fn read_fields(frame: &CanFrame) -> (r: SingleParameterReadResponse)
        ensures
            r == Self::spec_from_bytes(frame@),
    {
        SingleParameterReadResponse {
            host_id: frame.bytes[0],
            actuator_can_id: frame.bytes[1],
            status: frame.bytes[2],
            param_index: frame_u16_le(frame, 8),
            param_data: frame_u32_le(frame, 12),
        }
    }

    pub fn encode(&self) -> (f: CanFrame)
        ensures
            f@ == self.wire_bytes(),
    {
        let p = vstd::bytes::u16_to_le_bytes(self.param_index);
        let d = vstd::bytes::u32_to_le_bytes(self.param_data);
        let f = CanFrame {
            bytes: [
                self.host_id, self.actuator_can_id, self.status, 0x91,
                8, 0, 0, 0,
                p[0], p[1], 0, 0, d[0], d[1], d[2], d[3],
            ],
        };
        proof {
            assert(f@ =~= self.wire_bytes());
        }
        f
    }

    pub fn parse(frame: &CanFrame) -> (r: Option<SingleParameterReadResponse>)
        ensures
            r == Self::spec_parse(frame@),
    {
        if mux_from_can_frame(frame) == 0x11 {
            Some(Self::read_fields(frame))
        } else {
            None
        }
    }

    /// Whether the read succeeded.
    pub fn is_success(&self) -> (b: bool)
        ensures
            b == (self.status == 0x00),
    {
        self.status == 0x00
    }

    /// The parameter data as its four little-endian bytes.
    pub fn param_data_bytes(&self) -> (bytes: [u8; 4])
        ensures
            bytes@ == spec_u32_to_le_bytes(self.param_data),
    {
        let d = vstd::bytes::u32_to_le_bytes(self.param_data);
        let bytes: [u8; 4] = [d[0], d[1], d[2], d[3]];
        proof {
            assert(bytes@ =~= spec_u32_to_le_bytes(self.param_data));
        }
        bytes
    }
}

/// Writes one parameter: the 16-bit code and four little-endian data
/// bytes.
#[derive(Clone, Copy, Debug, PartialEq, Eq)]
pub struct SingleParameterWriteRequest {
    pub actuator_can_id: u8,
    pub host_id: u16,
    pub param_index: u16,
    pub param_data: u32,
}

impl RobstrideActuatorFrame for SingleParameterWriteRequest {
}

impl SingleParameterWriteRequest {
    pub open spec fn wire_bytes(self) -> Seq<u8> {
        seq![
            self.actuator_can_id,
            spec_u16_to_le_bytes(self.host_id)[0],
            spec_u16_to_le_bytes(self.host_id)[1],
            0x92u8,
            8u8, 0u8, 0u8, 0u8,
            spec_u16_to_le_bytes(self.param_index)[0],
            spec_u16_to_le_bytes(self.param_index)[1],
            0u8, 0u8,
            spec_u32_to_le_bytes(self.param_data)[0],
            spec_u32_to_le_bytes(self.param_data)[1],
            spec_u32_to_le_bytes(self.param_data)[2],
            spec_u32_to_le_bytes(self.param_data)[3],
        ]
    }

    pub open spec fn spec_from_bytes(bytes: Seq<u8>) -> SingleParameterWriteRequest
        recommends
            bytes.len() == 16,
    {
        SingleParameterWriteRequest {
            actuator_can_id: bytes[0],
            host_id: spec_u16_from_le_bytes(bytes.subrange(1, 3)),
            param_index: spec_u16_from_le_bytes(bytes.subrange(8, 10)),
            param_data: spec_u32_from_le_bytes(bytes.subrange(12, 16)),
        }
    }

    pub open spec fn spec_parse(bytes: Seq<u8>) -> Option<SingleParameterWriteRequest>
        recommends
            bytes.len() == 16,
    {
        if spec_mux(bytes) == 0x12 {
            Some(Self::spec_from_bytes(bytes))
        } else {
            None
        }
    }

    pub fn new(host_id: u16, actuator_can_id: u8, param_index: u16, data: u32) -> (r:
        SingleParameterWriteRequest)
        ensures
            r == (SingleParameterWriteRequest {
                host_id, actuator_can_id, param_index, param_data: data,
            }),
    {
        SingleParameterWriteRequest { actuator_can_id, host_id, param_index, param_data: data }
    }

    /// Write request for a one-byte unsigned parameter.
    pub fn new_uint8(host_id: u16, actuator_can_id: u8, param_index: u16, value: u8) -> (r:
        SingleParameterWriteRequest)
        ensures
            r == (SingleParameterWriteRequest {
                host_id, actuator_can_id, param_index, param_data: value as u32,
            }),
    {
        Self::new(host_id, actuator_can_id, param_index, value as u32)
    }

    /// Write request for a two-byte unsigned parameter.
    pub fn new_uint16(host_id: u16, actuator_can_id: u8, param_index: u16, value: u16) -> (r:
        SingleParameterWriteRequest)
        ensures
            r == (SingleParameterWriteRequest {
                host_id, actuator_can_id, param_index, param_data: value as u32,
            }),
    {
        Self::new(host_id, actuator_can_id, param_index, value as u32)
    }

    pub fn encode(&self) -> (f: CanFrame)
        ensures
            f@ == self.wire_bytes(),
    {
        let h = vstd::bytes::u16_to_le_bytes(self.host_id);
        let p = vstd::bytes::u16_to_le_bytes(self.param_index);
        let d = vstd::bytes::u32_to_le_bytes(self.param_data);
        let f = CanFrame {
            bytes: [
                self.actuator_can_id, h[0], h[1], 0x92,
                8, 0, 0, 0,
                p[0], p[1], 0, 0, d[0], d[1], d[2], d[3],
            ],
        };
        proof {
            assert(f@ =~= self.wire_bytes());
        }
        f
    }

    pub fn parse(frame: &CanFrame) -> (r: Option<SingleParameterWriteRequest>)
        ensures
            r == Self::spec_parse(frame@),
    {
        if mux_from_can_frame(frame) == 0x12 {
            Some(SingleParameterWriteRequest {
                actuator_can_id: frame.bytes[0],
                host_id: frame_u16_le(frame, 1),
                param_index: frame_u16_le(frame, 8),
                param_data: frame_u32_le(frame, 12),
            })
        } else {
            None
        }
    }
}

// ---------------------------------------------------------------------
// Parameter dump (mux 0x13)
// ---------------------------------------------------------------------

/// Starts a full parameter dump. Requires the MCU unique identifier
/// obtained earlier; the device answers with a stream of fragments.
#[derive(Clone, Copy, Debug, PartialEq, Eq)]
pub struct ReadAllParamsRequest {
    pub actuator_can_id: u8,
    pub host_id: u8,
    pub res_id: u8,
    pub mcu_uid: u64,
}

impl RobstrideActuatorFrame for ReadAllParamsRequest {
}

impl ReadAllParamsRequest {
    pub open spec fn wire_bytes(self) -> Seq<u8> {
        seq![
            self.actuator_can_id,
            self.host_id,
            self.res_id,
            0x93u8,
            8u8, 0u8, 0u8, 0u8,
            spec_u64_to_le_bytes(self.mcu_uid)[0],
            spec_u64_to_le_bytes(self.mcu_uid)[1],
            spec_u64_to_le_bytes(self.mcu_uid)[2],
            spec_u64_to_le_bytes(self.mcu_uid)[3],
            spec_u64_to_le_bytes(self.mcu_uid)[4],
            spec_u64_to_le_bytes(self.mcu_uid)[5],
            spec_u64_to_le_bytes(self.mcu_uid)[6],
            spec_u64_to_le_bytes(self.mcu_uid)[7],
        ]
    }

    pub open spec fn spec_from_bytes(bytes: Seq<u8>) -> ReadAllParamsRequest
        recommends
            bytes.len() == 16,
    {
        ReadAllParamsRequest {
            actuator_can_id: bytes[0],
            host_id: bytes[1],
            res_id: bytes[2],
            mcu_uid: spec_u64_from_le_bytes(bytes.subrange(8, 16)),
        }
    }

    pub open spec fn spec_parse(bytes: Seq<u8>) -> Option<ReadAllParamsRequest>
        recommends
            bytes.len() == 16,
    {
        if spec_mux(bytes) == 0x13 {
            Some(Self::spec_from_bytes(bytes))
        } else {
            None
        }
    }

    pub fn new(host_id: u8, actuator_can_id: u8, mcu_uid: u64) -> (r: ReadAllParamsRequest)
        ensures
            r == (ReadAllParamsRequest { host_id, actuator_can_id, res_id: 0u8, mcu_uid }),
    {
        ReadAllParamsRequest { actuator_can_id, host_id, res_id: 0, mcu_uid }
    }

    pub fn encode(&self) -> (f: CanFrame)
        ensures
            f@ == self.wire_bytes(),
    {
        let u = vstd::bytes::u64_to_le_bytes(self.mcu_uid);
        let f = CanFrame {
            bytes: [
                self.actuator_can_id, self.host_id, self.res_id, 0x93,
                8, 0, 0, 0,
                u[0], u[1], u[2], u[3], u[4], u[5], u[6], u[7],
            ],
        };
        proof {
            assert(f@ =~= self.wire_bytes());
        }
        f
    }

    pub fn parse(frame: &CanFrame) -> (r: Option<ReadAllParamsRequest>)
        ensures
            r == Self::spec_parse(frame@),
    {
        if mux_from_can_frame(frame) == 0x13 {
            Some(ReadAllParamsRequest {
                actuator_can_id: frame.bytes[0],
                host_id: frame.bytes[1],
                res_id: frame.bytes[2],
                mcu_uid: frame_u64_payload(frame),
            })
        } else {
            None
        }
    }
}

/// One fragment of a parameter dump: the parameter code, a sequencing
/// hint byte, and up to six payload bytes of that parameter's value.
/// The declared frame length says how many payload bytes are valid:
/// two bytes go to the parameter code, the rest to the value.
#[derive(Clone, Copy, Debug, PartialEq, Eq)]
pub struct ReadAllParamsResponse {
    pub host_id: u8,
    pub actuator_can_id: u8,
    /// Sequencing hint attached by the device; its validation role is
    /// unresolved and the driver does not interpret it.
    pub byte_marker: u8,
    /// The declared frame data length: 2 (code only) up to 8 (code
    /// plus six value bytes).
    pub len: u8,
    pub param_idx: u16,
    pub can_data: [u8; 6],
}

/// How many of a fragment's six payload bytes carry value data: the
/// declared length minus the two parameter-code bytes, capped at six.
pub open spec fn spec_fragment_data_len(len: u8) -> int {
    if len <= 2 {
        0
    } else if len >= 8 {
        6
    } else {
        len - 2
    }
}

/// The value bytes one fragment contributes, in wire order.
pub open spec fn spec_fragment_data(resp: ReadAllParamsResponse) -> Seq<u8> {
    resp.can_data@.take(spec_fragment_data_len(resp.len))
}

impl RobstrideActuatorFrame for ReadAllParamsResponse {
}

impl ReadAllParamsResponse {
    pub open spec fn wire_bytes(self) -> Seq<u8> {
        seq![
            self.host_id,
            self.actuator_can_id,
            self.byte_marker,
            0x93u8,
            self.len, 0u8, 0u8, 0u8,
            spec_u16_to_le_bytes(self.param_idx)[0],
            spec_u16_to_le_bytes(self.param_idx)[1],
            self.can_data[0],
            self.can_data[1],
            self.can_data[2],
            self.can_data[3],
            self.can_data[4],
            self.can_data[5],
        ]
    }

    pub open spec fn spec_from_bytes(bytes: Seq<u8>) -> ReadAllParamsResponse
        recommends
            bytes.len() == 16,
    {
        ReadAllParamsResponse {
            host_id: bytes[0],
            actuator_can_id: bytes[1],
            byte_marker: bytes[2],
            len: bytes[4],
            param_idx: spec_u16_from_le_bytes(bytes.subrange(8, 10)),
            can_data: [bytes[10], bytes[11], bytes[12], bytes[13], bytes[14], bytes[15]],
        }
    }

    pub open spec fn spec_parse(bytes: Seq<u8>) -> Option<ReadAllParamsResponse>
        recommends
            bytes.len() == 16,
    {
        if spec_mux(bytes) == 0x13 {
            Some(Self::spec_from_bytes(bytes))
        } else {
            None
        }
    }

    pub fn read_fields(frame: &CanFrame) -> (r: ReadAllParamsResponse)
        ensures
            r == Self::spec_from_bytes(frame@),
    {
        let can_data: [u8; 6] = [
            frame.bytes[10], frame.bytes[11], frame.bytes[12],
            frame.bytes[13], frame.bytes[14], frame.bytes[15],
        ];
        ReadAllParamsResponse {
            host_id: frame.bytes[0],
            actuator_can_id: frame.bytes[1],
            byte_marker: frame.bytes[2],
            len: frame.bytes[4],
            param_idx: frame_u16_le(frame, 8),
            can_data,
        }
    }

    pub fn encode(&self) -> (f: CanFrame)
        ensures
            f@ == self.wire_bytes(),
    {
        let p = vstd::bytes::u16_to_le_bytes(self.param_idx);
        let f = CanFrame {
            bytes: [
                self.host_id, self.actuator_can_id, self.byte_marker, 0x93,
                self.len, 0, 0, 0,
                p[0], p[1],
                self.can_data[0], self.can_data[1], self.can_data[2],
                self.can_data[3], self.can_data[4], self.can_data[5],
            ],
        };
        proof {
            assert(f@ =~= self.wire_bytes());
        }
        f
    }

    pub fn parse(frame: &CanFrame) -> (r: Option<ReadAllParamsResponse>)
        ensures
            r == Self::spec_parse(frame@),
    {
        if mux_from_can_frame(frame) == 0x13 {
            Some(Self::read_fields(frame))
        } else {
            None
        }
    }
}

// ---------------------------------------------------------------------
// Round trips
// ---------------------------------------------------------------------

/// Round trip: parsing the encoded frame of each request shape gives
/// back exactly the message, for every field value. One clause per
/// request variant.
pub proof fn lemma_request_round_trips(
    m0: ObtainIdRequest,
    m1: ControlCommandRequest,
    m3: MotorEnableRequest,
    m2: FeedbackRequest,
    m6: ZeroPositionRequest,
    m11: SingleParameterReadRequest,
    m12: SingleParameterWriteRequest,
    m13: ReadAllParamsRequest,
    m16: MotorDataSaveRequest,
)
    ensures
        ObtainIdRequest::spec_parse(m0.wire_bytes()) == Some(m0),
        ControlCommandRequest::spec_parse(m1.wire_bytes()) == Some(m1),
        MotorEnableRequest::spec_parse(m3.wire_bytes()) == Some(m3),
        FeedbackRequest::spec_parse(m2.wire_bytes()) == Some(m2),
        ZeroPositionRequest::spec_parse(m6.wire_bytes()) == Some(m6),
        SingleParameterReadRequest::spec_parse(m11.wire_bytes()) == Some(m11),
        SingleParameterWriteRequest::spec_parse(m12.wire_bytes()) == Some(m12),
        ReadAllParamsRequest::spec_parse(m13.wire_bytes()) == Some(m13),
        MotorDataSaveRequest::spec_parse(m16.wire_bytes()) == Some(m16),
{
    lemma_mux_byte_mask();
    lemma_auto_spec_u16_to_from_le_bytes();
    lemma_auto_spec_u32_to_from_le_bytes();
    lemma_auto_spec_u64_to_from_le_bytes();

    assert(m0.wire_bytes().subrange(1, 3) =~= spec_u16_to_le_bytes(m0.host_id));

    let w1 = m1.wire_bytes();
    assert(w1.subrange(1, 3) =~= spec_u16_to_le_bytes(m1.torque_scale));
    assert(seq![w1[9], w1[8]] =~= spec_u16_to_le_bytes(m1.angle_scale));
    assert(seq![w1[11], w1[10]] =~= spec_u16_to_le_bytes(m1.angular_vel_scale));
    assert(seq![w1[13], w1[12]] =~= spec_u16_to_le_bytes(m1.kp_scale));
    assert(seq![w1[15], w1[14]] =~= spec_u16_to_le_bytes(m1.kd_scale));

    assert(m3.wire_bytes().subrange(1, 3) =~= spec_u16_to_le_bytes(m3.host_id));
    assert(m2.wire_bytes().subrange(1, 3) =~= spec_u16_to_le_bytes(m2.host_id));
    assert(m6.wire_bytes().subrange(1, 3) =~= spec_u16_to_le_bytes(m6.host_id));

    let w11 = m11.wire_bytes();
    assert(w11.subrange(1, 3) =~= spec_u16_to_le_bytes(m11.host_id));
    assert(w11.subrange(8, 10) =~= spec_u16_to_le_bytes(m11.param_index));

    let w12 = m12.wire_bytes();
    assert(w12.subrange(1, 3) =~= spec_u16_to_le_bytes(m12.host_id));
    assert(w12.subrange(8, 10) =~= spec_u16_to_le_bytes(m12.param_index));
    assert(w12.subrange(12, 16) =~= spec_u32_to_le_bytes(m12.param_data));

    assert(m13.wire_bytes().subrange(8, 16) =~= spec_u64_to_le_bytes(m13.mcu_uid));

    assert(m16.wire_bytes().subrange(1, 3) =~= spec_u16_to_le_bytes(m16.host_id));
}

/// Round trip: parsing the encoded frame of each response shape gives
/// back exactly the message, for every field value — both through the
/// shape's own parser and through the mux-keyed response decoder. One
/// pair of clauses per response variant.
pub proof fn lemma_response_round_trips(
    r0: ObtainIdResponse,
    r2: FeedbackResponse,
    r11: SingleParameterReadResponse,
    r13: ReadAllParamsResponse,
)
    ensures
        ObtainIdResponse::spec_parse(r0.wire_bytes()) == Some(r0),
        FeedbackResponse::spec_parse(r2.wire_bytes()) == Some(r2),
        SingleParameterReadResponse::spec_parse(r11.wire_bytes()) == Some(r11),
        ReadAllParamsResponse::spec_parse(r13.wire_bytes()) == Some(r13),
        ActuatorResponse::spec_response_of(r0.wire_bytes()) == Ok::<
            ActuatorResponse,
            RobstrideError,
        >(ActuatorResponse::ObtainId(r0)),
        ActuatorResponse::spec_response_of(r2.wire_bytes()) == Ok::<
            ActuatorResponse,
            RobstrideError,
        >(ActuatorResponse::Feedback(r2)),
        ActuatorResponse::spec_response_of(r11.wire_bytes()) == Ok::<
            ActuatorResponse,
            RobstrideError,
        >(ActuatorResponse::SingleParameterRead(r11)),
        ActuatorResponse::spec_response_of(r13.wire_bytes()) == Ok::<
            ActuatorResponse,
            RobstrideError,
        >(ActuatorResponse::ReadAllParams(r13)),
{
    lemma_mux_byte_mask();
    lemma_auto_spec_u16_to_from_le_bytes();
    lemma_auto_spec_u32_to_from_le_bytes();
    lemma_auto_spec_u64_to_from_le_bytes();

    let w0 = r0.wire_bytes();
    assert(w0.subrange(1, 3) =~= spec_u16_to_le_bytes(r0.actuator_can_id));
    assert(w0.subrange(8, 16) =~= spec_u64_to_le_bytes(r0.mcu_uid));

    let w2 = r2.wire_bytes();
    assert(w2.subrange(8, 10) =~= spec_u16_to_le_bytes(r2.angle_scale_be));
    assert(w2.subrange(10, 12) =~= spec_u16_to_le_bytes(r2.angular_vel_scale_be));
    assert(w2.subrange(12, 14) =~= spec_u16_to_le_bytes(r2.torque_be));
    assert(w2.subrange(14, 16) =~= spec_u16_to_le_bytes(r2.temp_be));

    let w11 = r11.wire_bytes();
    assert(w11.subrange(8, 10) =~= spec_u16_to_le_bytes(r11.param_index));
    assert(w11.subrange(12, 16) =~= spec_u32_to_le_bytes(r11.param_data));

    let w13 = r13.wire_bytes();
    assert(w13.subrange(8, 10) =~= spec_u16_to_le_bytes(r13.param_idx));
    let parsed = ReadAllParamsResponse::spec_from_bytes(w13);
    assert(parsed.can_data@ =~= r13.can_data@);
    assert(parsed.can_data == r13.can_data);
}

// ---------------------------------------------------------------------
// Tagged request/response unions
// ---------------------------------------------------------------------

/// Every request the driver can send, as one closed union.
#[derive(Clone, Copy, Debug, PartialEq, Eq)]
pub enum ActuatorRequest {
    ObtainId(ObtainIdRequest),
    Control(ControlCommandRequest),
    MotorEnable(MotorEnableRequest),
    Feedback(FeedbackRequest),
    ReadAllParams(ReadAllParamsRequest),
    ZeroPosition(ZeroPositionRequest),
    SingleParameterRead(SingleParameterReadRequest),
    SingleParameterWrite(SingleParameterWriteRequest),
    MotorDataSave(MotorDataSaveRequest),
}

impl ActuatorRequest {
    /// The frame bytes this request encodes to.
    pub open spec fn wire_bytes(self) -> Seq<u8> {
        match self {
            ActuatorRequest::ObtainId(m) => m.wire_bytes(),
            ActuatorRequest::Control(m) => m.wire_bytes(),
            ActuatorRequest::MotorEnable(m) => m.wire_bytes(),
            ActuatorRequest::Feedback(m) => m.wire_bytes(),
            ActuatorRequest::ReadAllParams(m) => m.wire_bytes(),
            ActuatorRequest::ZeroPosition(m) => m.wire_bytes(),
            ActuatorRequest::SingleParameterRead(m) => m.wire_bytes(),
            ActuatorRequest::SingleParameterWrite(m) => m.wire_bytes(),
            ActuatorRequest::MotorDataSave(m) => m.wire_bytes(),
        }
    }

    /// Encodes the request into the frame to transmit.
    pub fn to_can_frame(&self) -> (f: CanFrame)
        ensures
            f@ == self.wire_bytes(),
    {
        match self {
            ActuatorRequest::ObtainId(m) => m.encode(),
            ActuatorRequest::Control(m) => m.encode(),
            ActuatorRequest::MotorEnable(m) => m.encode(),
            ActuatorRequest::Feedback(m) => m.encode(),
            ActuatorRequest::ReadAllParams(m) => m.encode(),
            ActuatorRequest::ZeroPosition(m) => m.encode(),
            ActuatorRequest::SingleParameterRead(m) => m.encode(),
            ActuatorRequest::SingleParameterWrite(m) => m.encode(),
            ActuatorRequest::MotorDataSave(m) => m.encode(),
        }
    }

    /// The discriminator the matching response will carry. Several
    /// request kinds share the feedback-shaped response (mux 0x02); the
    /// caller tracks which request is outstanding to interpret it.
    pub open spec fn spec_response_mux(self) -> u8 {
        match self {
            ActuatorRequest::ObtainId(_) => 0x00,
            ActuatorRequest::Control(_) => 0x02,
            ActuatorRequest::MotorEnable(_) => 0x02,
            ActuatorRequest::Feedback(_) => 0x02,
            ActuatorRequest::ReadAllParams(_) => 0x13,
            ActuatorRequest::ZeroPosition(_) => 0x02,
            ActuatorRequest::SingleParameterRead(_) => 0x11,
            ActuatorRequest::SingleParameterWrite(_) => 0x02,
            ActuatorRequest::MotorDataSave(_) => 0x02,
        }
    }

    pub fn response_mux(&self) -> (m: u8)
        ensures
            m == self.spec_response_mux(),
    {
        match self {
            ActuatorRequest::ObtainId(_) => 0x00,
            ActuatorRequest::Control(_) => 0x02,
            ActuatorRequest::MotorEnable(_) => 0x02,
            ActuatorRequest::Feedback(_) => 0x02,
            ActuatorRequest::ReadAllParams(_) => 0x13,
            ActuatorRequest::ZeroPosition(_) => 0x02,
            ActuatorRequest::SingleParameterRead(_) => 0x11,
            ActuatorRequest::SingleParameterWrite(_) => 0x02,
            ActuatorRequest::MotorDataSave(_) => 0x02,
        }
    }
}

/// The abstract parameters a caller hands to a session to have a
/// request built; the session fills in identifiers and scaling.
#[derive(Clone, Copy, Debug, PartialEq, Eq)]
pub enum ActuatorRequestParams {
    ObtainId,
    MotorEnable,
    Control(ActuatorCommand),
    Feedback,
    /// Carries the MCU unique identifier the dump must name.
    ReadAllParams(u64),
    ZeroPosition,
    SingleParameterRead(u16),
    SingleParameterWrite(u16, u32),
    MotorDataSave,
}

/// Every response shape the device can send, as one closed union.
#[derive(Clone, Copy, Debug, PartialEq, Eq)]
pub enum ActuatorResponse {
    ObtainId(ObtainIdResponse),
    Feedback(FeedbackResponse),
    ReadAllParams(ReadAllParamsResponse),
    SingleParameterRead(SingleParameterReadResponse),
}

impl ActuatorResponse {
    /// What decoding a frame yields: the response shape its
    /// discriminator names, or an error for an unknown discriminator.
    pub open spec fn spec_response_of(bytes: Seq<u8>) -> Result<ActuatorResponse, RobstrideError>
        recommends
            bytes.len() == 16,
    {
        let mux = spec_mux(bytes);
        if mux == 0x00 {
            Ok(ActuatorResponse::ObtainId(ObtainIdResponse::spec_from_bytes(bytes)))
        } else if mux == 0x02 {
            Ok(ActuatorResponse::Feedback(FeedbackResponse::spec_from_bytes(bytes)))
        } else if mux == 0x11 {
            Ok(ActuatorResponse::SingleParameterRead(
                SingleParameterReadResponse::spec_from_bytes(bytes),
            ))
        } else if mux == 0x13 {
            Ok(ActuatorResponse::ReadAllParams(ReadAllParamsResponse::spec_from_bytes(bytes)))
        } else {
            Err(RobstrideError::Protocol(ProtocolError::UnknownMux(mux)))
        }
    }

    /// Decodes a received frame into its typed response. An unknown
    /// discriminator is an error for this single frame; no shape is
    /// ever guessed.
    pub fn from_can_frame(frame: &CanFrame) -> (r: Result<ActuatorResponse, RobstrideError>)
        ensures
            r == Self::spec_response_of(frame@),
    {
        let mux = mux_from_can_frame(frame);
        if mux == 0x00 {
            Ok(ActuatorResponse::ObtainId(ObtainIdResponse::read_fields(frame)))
        } else if mux == 0x02 {
            Ok(ActuatorResponse::Feedback(FeedbackResponse::read_fields(frame)))
        } else if mux == 0x11 {
            Ok(ActuatorResponse::SingleParameterRead(SingleParameterReadResponse::read_fields(
                frame,
            )))
        } else if mux == 0x13 {
            Ok(ActuatorResponse::ReadAllParams(ReadAllParamsResponse::read_fields(frame)))
        } else {
            Err(RobstrideError::Protocol(ProtocolError::UnknownMux(mux)))
        }
    }
}

/// The actuator identifier a response frame names, per shape; 0x7F for
/// an unknown discriminator.
pub open spec fn spec_actuator_can_id_from_response(bytes: Seq<u8>) -> u8
    recommends
        bytes.len() == 16,
{
    let mux = spec_mux(bytes);
    if mux == 0x00 {
        ObtainIdResponse::spec_from_bytes(bytes).actuator_can_id as u8
    } else if mux == 0x02 {
        FeedbackResponse::spec_from_bytes(bytes).actuator_can_id
    } else if mux == 0x11 {
        SingleParameterReadResponse::spec_from_bytes(bytes).actuator_can_id
    } else if mux == 0x13 {
        ReadAllParamsResponse::spec_from_bytes(bytes).actuator_can_id
    } else {
        0x7F
    }
}

/// Extracts the responding actuator's identifier from a response frame,
/// whatever its shape; 0x7F when the discriminator is unknown.
pub fn actuator_can_id_from_response(frame: &CanFrame) -> (id: u8)
    ensures
        id == spec_actuator_can_id_from_response(frame@),
{
    let mux = mux_from_can_frame(frame);
    if mux == 0x00 {
        let r = ObtainIdResponse::read_fields(frame);
        r.actuator_can_id as u8
    } else if mux == 0x02 {
        frame.bytes[1]
    } else if mux == 0x11 {
        frame.bytes[1]
    } else if mux == 0x13 {
        frame.bytes[1]
    } else {
        0x7F
    }
}

} // verus!
