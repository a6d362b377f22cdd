//! The five supported actuator models and the engineering ranges each
//! one scales its command axes over.
//!
//! Engineering ranges are in micro-units (one millionth of a radian,
//! rad/s, Nm or gain step); the transport range is the plain 16-bit
//! wire domain 0..=65535, the same for every model and axis.

use vstd::prelude::*;
use crate::range::{Range, RangeSet};

verus! {

/// The five supported hardware models.
#[derive(Clone, Copy, Debug, PartialEq, Eq, Structural)]
pub enum RobstrideActuatorType {
    Robstride00,
    Robstride01,
    Robstride02,
    Robstride03,
    Robstride04,
}

/// The fixed transport-unit range set: 0..=65535 on every axis,
/// independent of the model.
pub open spec fn spec_can_ranges() -> RangeSet {
    RangeSet {
        angle: Range { min: 0, max: 65_535 },
        velocity: Range { min: 0, max: 65_535 },
        torque: Range { min: 0, max: 65_535 },
        kp: Range { min: 0, max: 65_535 },
        kd: Range { min: 0, max: 65_535 },
    }
}

/// The engineering range set of each model, in micro-units:
/// angle +-4 pi rad for every model, and per-model velocity (rad/s),
/// torque (Nm), position gain and velocity gain spans.
pub open spec fn spec_actuator_ranges(t: RobstrideActuatorType) -> RangeSet {
    match t {
        RobstrideActuatorType::Robstride00 => RangeSet {
            angle: Range { min: -12_566_371i64, max: 12_566_371 },
            velocity: Range { min: -33_000_000i64, max: 33_000_000 },
            torque: Range { min: -14_000_000i64, max: 14_000_000 },
            kp: Range { min: 0, max: 500_000_000 },
            kd: Range { min: 0, max: 5_000_000 },
        },
        RobstrideActuatorType::Robstride01 => RangeSet {
            angle: Range { min: -12_566_371i64, max: 12_566_371 },
            velocity: Range { min: -44_000_000i64, max: 44_000_000 },
            torque: Range { min: -17_000_000i64, max: 17_000_000 },
            kp: Range { min: 0, max: 500_000_000 },
            kd: Range { min: 0, max: 5_000_000 },
        },
        RobstrideActuatorType::Robstride02 => RangeSet {
            angle: Range { min: -12_566_371i64, max: 12_566_371 },
            velocity: Range { min: -44_000_000i64, max: 44_000_000 },
            torque: Range { min: -17_000_000i64, max: 17_000_000 },
            kp: Range { min: 0, max: 500_000_000 },
            kd: Range { min: 0, max: 5_000_000 },
        },
        RobstrideActuatorType::Robstride03 => RangeSet {
            angle: Range { min: -12_566_371i64, max: 12_566_371 },
            velocity: Range { min: -20_000_000i64, max: 20_000_000 },
            torque: Range { min: -60_000_000i64, max: 60_000_000 },
            kp: Range { min: 0, max: 5_000_000_000 },
            kd: Range { min: 0, max: 100_000_000 },
        },
        RobstrideActuatorType::Robstride04 => RangeSet {
            angle: Range { min: -12_566_371i64, max: 12_566_371 },
            velocity: Range { min: -15_000_000i64, max: 15_000_000 },
            torque: Range { min: -120_000_000i64, max: 120_000_000 },
            kp: Range { min: 0, max: 5_000_000_000 },
            kd: Range { min: 0, max: 100_000_000 },
        },
    }
}

impl RobstrideActuatorType {
    /// The fixed transport-unit range set (0..=65535 on every axis).
    pub fn can_ranges(&self) -> (r: RangeSet)
        ensures
            r == spec_can_ranges(),
            r.wf(),
    {
        let full = Range { min: 0, max: 65_535 };
        RangeSet { angle: full, velocity: full, torque: full, kp: full, kd: full }
    }

    /// This model's engineering range set, in micro-units.
    pub fn actuator_ranges(&self) -> (r: RangeSet)
        ensures
            r == spec_actuator_ranges(*self),
            r.wf(),
    {
        match self {
            RobstrideActuatorType::Robstride00 => RangeSet {
                angle: Range { min: -12_566_371i64, max: 12_566_371 },
                velocity: Range { min: -33_000_000i64, max: 33_000_000 },
                torque: Range { min: -14_000_000i64, max: 14_000_000 },
                kp: Range { min: 0, max: 500_000_000 },
                kd: Range { min: 0, max: 5_000_000 },
            },
            RobstrideActuatorType::Robstride01 => RangeSet {
                angle: Range { min: -12_566_371i64, max: 12_566_371 },
                velocity: Range { min: -44_000_000i64, max: 44_000_000 },
                torque: Range { min: -17_000_000i64, max: 17_000_000 },
                kp: Range { min: 0, max: 500_000_000 },
                kd: Range { min: 0, max: 5_000_000 },
            },
            RobstrideActuatorType::Robstride02 => RangeSet {
                angle: Range { min: -12_566_371i64, max: 12_566_371 },
                velocity: Range { min: -44_000_000i64, max: 44_000_000 },
                torque: Range { min: -17_000_000i64, max: 17_000_000 },
                kp: Range { min: 0, max: 500_000_000 },
                kd: Range { min: 0, max: 5_000_000 },
            },
            RobstrideActuatorType::Robstride03 => RangeSet {
                angle: Range { min: -12_566_371i64, max: 12_566_371 },
                velocity: Range { min: -20_000_000i64, max: 20_000_000 },
                torque: Range { min: -60_000_000i64, max: 60_000_000 },
                kp: Range { min: 0, max: 5_000_000_000 },
                kd: Range { min: 0, max: 100_000_000 },
            },
            RobstrideActuatorType::Robstride04 => RangeSet {
                angle: Range { min: -12_566_371i64, max: 12_566_371 },
                velocity: Range { min: -15_000_000i64, max: 15_000_000 },
                torque: Range { min: -120_000_000i64, max: 120_000_000 },
                kp: Range { min: 0, max: 5_000_000_000 },
                kd: Range { min: 0, max: 100_000_000 },
            },
        }
    }
}

} // verus!
