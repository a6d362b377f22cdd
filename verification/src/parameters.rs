//! The parameter registry: the fixed table mapping each 16-bit
//! parameter code to its name, primitive type and access rights, and
//! the decoder that turns a raw little-endian byte span into a typed
//! value.

use vstd::prelude::*;
use vstd::bytes::{spec_u16_from_le_bytes, spec_u32_from_le_bytes};
use std::collections::HashMap;

verus! {

broadcast use vstd::std_specs::hash::group_hash_axioms;

/// The primitive type of a parameter's value.
#[derive(Clone, Copy, Debug, PartialEq, Eq, Structural)]
pub enum ParameterType {
    String,
    Uint8,
    Uint16,
    Uint32,
    Int16,
    Int32,
    Float,
}

/// Who may read or write a parameter.
#[derive(Clone, Copy, Debug, PartialEq, Eq, Structural)]
pub enum ParameterAccess {
    ReadOnly,
    ReadWrite,
    Settings,
    Disposition,
}

/// One entry of the parameter table.
#[derive(Clone, Debug, PartialEq, Eq)]
pub struct ParameterInfo {
    pub code: u16,
    pub name: String,
    pub param_type: ParameterType,
    pub access: ParameterAccess,
    pub description: String,
}

/// The type and access rights the table declares for a code, or
/// nothing for a code outside the table.
pub open spec fn spec_param_meta(code: u16) -> Option<(ParameterType, ParameterAccess)> {
    if code == 0x0000 {
        Some((ParameterType::String, ParameterAccess::ReadWrite))
    } else if code == 0x0001 {
        Some((ParameterType::String, ParameterAccess::ReadWrite))
    } else if code == 0x1000 {
        Some((ParameterType::String, ParameterAccess::ReadOnly))
    } else if code == 0x1001 {
        Some((ParameterType::String, ParameterAccess::ReadOnly))
    } else if code == 0x1002 {
        Some((ParameterType::String, ParameterAccess::ReadOnly))
    } else if code == 0x1003 {
        Some((ParameterType::String, ParameterAccess::ReadOnly))
    } else if code == 0x1004 {
        Some((ParameterType::String, ParameterAccess::ReadOnly))
    } else if code == 0x1005 {
        Some((ParameterType::String, ParameterAccess::ReadOnly))
    } else if code == 0x1006 {
        Some((ParameterType::String, ParameterAccess::ReadOnly))
    } else if code == 0x1007 {
        Some((ParameterType::String, ParameterAccess::ReadOnly))
    } else if code == 0x2000 {
        Some((ParameterType::Uint16, ParameterAccess::Disposition))
    } else if code == 0x2001 {
        Some((ParameterType::Uint16, ParameterAccess::Disposition))
    } else if code == 0x2002 {
        Some((ParameterType::Uint16, ParameterAccess::Disposition))
    } else if code == 0x2003 {
        Some((ParameterType::Uint16, ParameterAccess::Disposition))
    } else if code == 0x2004 {
        Some((ParameterType::Uint32, ParameterAccess::ReadWrite))
    } else if code == 0x2005 {
        Some((ParameterType::Float, ParameterAccess::Settings))
    } else if code == 0x2006 {
        Some((ParameterType::Float, ParameterAccess::ReadWrite))
    } else if code == 0x2007 {
        Some((ParameterType::Float, ParameterAccess::ReadWrite))
    } else if code == 0x2008 {
        Some((ParameterType::Float, ParameterAccess::ReadWrite))
    } else if code == 0x2009 {
        Some((ParameterType::Uint8, ParameterAccess::Settings))
    } else if code == 0x200A {
        Some((ParameterType::Uint8, ParameterAccess::Settings))
    } else if code == 0x200B {
        Some((ParameterType::Uint8, ParameterAccess::Settings))
    } else if code == 0x200C {
        Some((ParameterType::Uint32, ParameterAccess::ReadWrite))
    } else if code == 0x200D {
        Some((ParameterType::Int16, ParameterAccess::ReadWrite))
    } else if code == 0x200E {
        Some((ParameterType::Uint32, ParameterAccess::ReadWrite))
    } else if code == 0x200F {
        Some((ParameterType::Float, ParameterAccess::ReadWrite))
    } else if code == 0x2010 {
        Some((ParameterType::Uint8, ParameterAccess::ReadWrite))
    } else if code == 0x2011 {
        Some((ParameterType::Float, ParameterAccess::ReadWrite))
    } else if code == 0x2012 {
        Some((ParameterType::Float, ParameterAccess::ReadWrite))
    } else if code == 0x2013 {
        Some((ParameterType::Float, ParameterAccess::ReadWrite))
    } else if code == 0x2014 {
        Some((ParameterType::Float, ParameterAccess::ReadWrite))
    } else if code == 0x2015 {
        Some((ParameterType::Float, ParameterAccess::ReadWrite))
    } else if code == 0x2016 {
        Some((ParameterType::Float, ParameterAccess::ReadWrite))
    } else if code == 0x2017 {
        Some((ParameterType::Float, ParameterAccess::ReadWrite))
    } else if code == 0x2018 {
        Some((ParameterType::Float, ParameterAccess::ReadWrite))
    } else if code == 0x2019 {
        Some((ParameterType::Float, ParameterAccess::ReadWrite))
    } else if code == 0x201A {
        Some((ParameterType::Float, ParameterAccess::ReadWrite))
    } else if code == 0x201B {
        Some((ParameterType::Float, ParameterAccess::ReadWrite))
    } else if code == 0x201C {
        Some((ParameterType::Float, ParameterAccess::ReadWrite))
    } else if code == 0x201D {
        Some((ParameterType::Float, ParameterAccess::ReadWrite))
    } else if code == 0x201E {
        Some((ParameterType::Float, ParameterAccess::ReadWrite))
    } else if code == 0x201F {
        Some((ParameterType::Float, ParameterAccess::ReadWrite))
    } else if code == 0x3000 {
        Some((ParameterType::Float, ParameterAccess::ReadWrite))
    } else if code == 0x3001 {
        Some((ParameterType::Float, ParameterAccess::ReadWrite))
    } else if code == 0x3002 {
        Some((ParameterType::Uint16, ParameterAccess::ReadOnly))
    } else if code == 0x3003 {
        Some((ParameterType::Uint16, ParameterAccess::ReadOnly))
    } else if code == 0x3004 {
        Some((ParameterType::Uint16, ParameterAccess::ReadOnly))
    } else if code == 0x3005 {
        Some((ParameterType::Uint16, ParameterAccess::ReadOnly))
    } else if code == 0x3006 {
        Some((ParameterType::Int16, ParameterAccess::ReadOnly))
    } else if code == 0x3007 {
        Some((ParameterType::Int16, ParameterAccess::ReadOnly))
    } else if code == 0x3008 {
        Some((ParameterType::Int16, ParameterAccess::ReadOnly))
    } else if code == 0x3009 {
        Some((ParameterType::Uint16, ParameterAccess::ReadOnly))
    } else if code == 0x300A {
        Some((ParameterType::Int32, ParameterAccess::ReadOnly))
    } else if code == 0x300B {
        Some((ParameterType::Int32, ParameterAccess::ReadOnly))
    } else if code == 0x300C {
        Some((ParameterType::Uint16, ParameterAccess::ReadOnly))
    } else if code == 0x300D {
        Some((ParameterType::Uint16, ParameterAccess::ReadOnly))
    } else if code == 0x300E {
        Some((ParameterType::Float, ParameterAccess::ReadOnly))
    } else if code == 0x300F {
        Some((ParameterType::Float, ParameterAccess::ReadOnly))
    } else if code == 0x3010 {
        Some((ParameterType::Float, ParameterAccess::ReadOnly))
    } else if code == 0x3011 {
        Some((ParameterType::Float, ParameterAccess::ReadOnly))
    } else if code == 0x3012 {
        Some((ParameterType::Float, ParameterAccess::ReadOnly))
    } else if code == 0x3013 {
        Some((ParameterType::Float, ParameterAccess::ReadOnly))
    } else if code == 0x3014 {
        Some((ParameterType::Float, ParameterAccess::ReadOnly))
    } else if code == 0x3015 {
        Some((ParameterType::Float, ParameterAccess::ReadOnly))
    } else if code == 0x3016 {
        Some((ParameterType::Int16, ParameterAccess::ReadOnly))
    } else if code == 0x3017 {
        Some((ParameterType::Float, ParameterAccess::ReadOnly))
    } else if code == 0x3018 {
        Some((ParameterType::Float, ParameterAccess::ReadOnly))
    } else if code == 0x3019 {
        Some((ParameterType::Float, ParameterAccess::ReadOnly))
    } else if code == 0x301A {
        Some((ParameterType::Float, ParameterAccess::ReadOnly))
    } else if code == 0x301B {
        Some((ParameterType::Float, ParameterAccess::ReadOnly))
    } else if code == 0x301C {
        Some((ParameterType::Float, ParameterAccess::ReadOnly))
    } else if code == 0x301D {
        Some((ParameterType::Float, ParameterAccess::ReadOnly))
    } else if code == 0x301E {
        Some((ParameterType::Uint32, ParameterAccess::ReadOnly))
    } else if code == 0x301F {
        Some((ParameterType::Uint8, ParameterAccess::ReadOnly))
    } else if code == 0x3020 {
        Some((ParameterType::Float, ParameterAccess::ReadOnly))
    } else if code == 0x3021 {
        Some((ParameterType::Int16, ParameterAccess::ReadOnly))
    } else if code == 0x3022 {
        Some((ParameterType::Float, ParameterAccess::ReadOnly))
    } else if code == 0x3023 {
        Some((ParameterType::Float, ParameterAccess::ReadOnly))
    } else if code == 0x3024 {
        Some((ParameterType::Uint32, ParameterAccess::ReadOnly))
    } else if code == 0x3025 {
        Some((ParameterType::Uint32, ParameterAccess::ReadOnly))
    } else if code == 0x3026 {
        Some((ParameterType::Uint16, ParameterAccess::ReadOnly))
    } else if code == 0x3027 {
        Some((ParameterType::Int16, ParameterAccess::ReadOnly))
    } else if code == 0x3028 {
        Some((ParameterType::Float, ParameterAccess::ReadOnly))
    } else if code == 0x3029 {
        Some((ParameterType::Float, ParameterAccess::ReadOnly))
    } else if code == 0x302A {
        Some((ParameterType::Float, ParameterAccess::ReadOnly))
    } else if code == 0x302B {
        Some((ParameterType::Float, ParameterAccess::ReadOnly))
    } else if code == 0x302C {
        Some((ParameterType::Float, ParameterAccess::ReadOnly))
    } else if code == 0x302D {
        Some((ParameterType::Float, ParameterAccess::ReadOnly))
    } else if code == 0x302E {
        Some((ParameterType::Float, ParameterAccess::ReadOnly))
    } else if code == 0x302F {
        Some((ParameterType::Float, ParameterAccess::ReadOnly))
    } else if code == 0x3030 {
        Some((ParameterType::Float, ParameterAccess::ReadOnly))
    } else if code == 0x3031 {
        Some((ParameterType::Float, ParameterAccess::ReadOnly))
    } else if code == 0x3032 {
        Some((ParameterType::Float, ParameterAccess::ReadOnly))
    } else if code == 0x3033 {
        Some((ParameterType::Float, ParameterAccess::ReadOnly))
    } else if code == 0x3034 {
        Some((ParameterType::Float, ParameterAccess::ReadOnly))
    } else if code == 0x3035 {
        Some((ParameterType::Float, ParameterAccess::ReadOnly))
    } else if code == 0x3036 {
        Some((ParameterType::Float, ParameterAccess::ReadOnly))
    } else if code == 0x3037 {
        Some((ParameterType::Float, ParameterAccess::ReadOnly))
    } else if code == 0x3038 {
        Some((ParameterType::Float, ParameterAccess::ReadOnly))
    } else if code == 0x3039 {
        Some((ParameterType::Uint32, ParameterAccess::ReadOnly))
    } else if code == 0x303A {
        Some((ParameterType::Uint32, ParameterAccess::ReadOnly))
    } else if code == 0x303B {
        Some((ParameterType::Uint32, ParameterAccess::ReadOnly))
    } else if code == 0x303C {
        Some((ParameterType::Uint32, ParameterAccess::ReadOnly))
    } else if code == 0x303D {
        Some((ParameterType::Uint32, ParameterAccess::ReadOnly))
    } else if code == 0x303E {
        Some((ParameterType::Uint32, ParameterAccess::ReadOnly))
    } else if code == 0x303F {
        Some((ParameterType::Uint32, ParameterAccess::ReadOnly))
    } else if code == 0x3040 {
        Some((ParameterType::Uint32, ParameterAccess::ReadOnly))
    } else if code == 0x3041 {
        Some((ParameterType::Float, ParameterAccess::ReadOnly))
    } else if code == 0x3042 {
        Some((ParameterType::Int16, ParameterAccess::ReadOnly))
    } else if code == 0x3043 {
        Some((ParameterType::Float, ParameterAccess::ReadOnly))
    } else if code == 0x3044 {
        Some((ParameterType::Uint8, ParameterAccess::ReadOnly))
    } else if code == 0x3045 {
        Some((ParameterType::Float, ParameterAccess::ReadOnly))
    } else if code == 0x7005 {
        Some((ParameterType::Uint8, ParameterAccess::ReadWrite))
    } else if code == 0x7006 {
        Some((ParameterType::Float, ParameterAccess::ReadWrite))
    } else if code == 0x700A {
        Some((ParameterType::Float, ParameterAccess::ReadWrite))
    } else if code == 0x700B {
        Some((ParameterType::Float, ParameterAccess::ReadWrite))
    } else if code == 0x7010 {
        Some((ParameterType::Float, ParameterAccess::ReadWrite))
    } else if code == 0x7011 {
        Some((ParameterType::Float, ParameterAccess::ReadWrite))
    } else if code == 0x7014 {
        Some((ParameterType::Float, ParameterAccess::ReadWrite))
    } else if code == 0x7016 {
        Some((ParameterType::Float, ParameterAccess::ReadWrite))
    } else if code == 0x7017 {
        Some((ParameterType::Float, ParameterAccess::ReadWrite))
    } else if code == 0x7018 {
        Some((ParameterType::Float, ParameterAccess::ReadWrite))
    } else if code == 0x7019 {
        Some((ParameterType::Float, ParameterAccess::ReadOnly))
    } else if code == 0x701A {
        Some((ParameterType::Float, ParameterAccess::ReadOnly))
    } else if code == 0x701B {
        Some((ParameterType::Float, ParameterAccess::ReadOnly))
    } else if code == 0x701C {
        Some((ParameterType::Float, ParameterAccess::ReadOnly))
    } else if code == 0x701E {
        Some((ParameterType::Float, ParameterAccess::ReadWrite))
    } else if code == 0x701F {
        Some((ParameterType::Float, ParameterAccess::ReadWrite))
    } else if code == 0x7020 {
        Some((ParameterType::Float, ParameterAccess::ReadWrite))
    } else if code == 0x7021 {
        Some((ParameterType::Float, ParameterAccess::ReadWrite))
    } else if code == 0x7022 {
        Some((ParameterType::Float, ParameterAccess::ReadWrite))
    } else if code == 0x7024 {
        Some((ParameterType::Float, ParameterAccess::ReadWrite))
    } else if code == 0x7025 {
        Some((ParameterType::Float, ParameterAccess::ReadWrite))
    } else if code == 0x7026 {
        Some((ParameterType::Uint16, ParameterAccess::ReadWrite))
    } else if code == 0x7028 {
        Some((ParameterType::Uint32, ParameterAccess::ReadWrite))
    } else if code == 0x7029 {
        Some((ParameterType::Uint8, ParameterAccess::ReadWrite))
    } else {
        None
    }
}

/// Looks one parameter code up in the fixed table: its full entry,
/// or nothing for a code the table does not hold.
#[verifier::rlimit(60)]
pub fn lookup_parameter(code: u16) -> (r: Option<ParameterInfo>)
    ensures
        match r {
            Some(info) => spec_param_meta(code) == Some((info.param_type, info.access))
                && info.code == code,
            None => spec_param_meta(code) is None,
        },
{
    match code {
        0x0000 => Some(ParameterInfo { code, name: "Name".to_owned(), param_type: ParameterType::String, access: ParameterAccess::ReadWrite, description: "Device name".to_owned() }),
        0x0001 => Some(ParameterInfo { code, name: "BarCode".to_owned(), param_type: ParameterType::String, access: ParameterAccess::ReadWrite, description: "Device barcode / serial".to_owned() }),
        0x1000 => Some(ParameterInfo { code, name: "BootCodeVersion".to_owned(), param_type: ParameterType::String, access: ParameterAccess::ReadOnly, description: "Bootloader version string".to_owned() }),
        0x1001 => Some(ParameterInfo { code, name: "BootBuildDate".to_owned(), param_type: ParameterType::String, access: ParameterAccess::ReadOnly, description: "Bootloader build date".to_owned() }),
        0x1002 => Some(ParameterInfo { code, name: "BootBuildTime".to_owned(), param_type: ParameterType::String, access: ParameterAccess::ReadOnly, description: "Bootloader build time".to_owned() }),
        0x1003 => Some(ParameterInfo { code, name: "AppCodeVersion".to_owned(), param_type: ParameterType::String, access: ParameterAccess::ReadOnly, description: "Application firmware version".to_owned() }),
        0x1004 => Some(ParameterInfo { code, name: "AppGitVersion".to_owned(), param_type: ParameterType::String, access: ParameterAccess::ReadOnly, description: "Git commit hash of firmware".to_owned() }),
        0x1005 => Some(ParameterInfo { code, name: "AppBuildDate".to_owned(), param_type: ParameterType::String, access: ParameterAccess::ReadOnly, description: "Application build date".to_owned() }),
        0x1006 => Some(ParameterInfo { code, name: "AppBuildTime".to_owned(), param_type: ParameterType::String, access: ParameterAccess::ReadOnly, description: "Application build time".to_owned() }),
        0x1007 => Some(ParameterInfo { code, name: "AppCodeName".to_owned(), param_type: ParameterType::String, access: ParameterAccess::ReadOnly, description: "Firmware code-name".to_owned() }),
        0x2000 => Some(ParameterInfo { code, name: "echoPara1".to_owned(), param_type: ParameterType::Uint16, access: ParameterAccess::Disposition, description: "Echo parameter 1".to_owned() }),
        0x2001 => Some(ParameterInfo { code, name: "echoPara2".to_owned(), param_type: ParameterType::Uint16, access: ParameterAccess::Disposition, description: "Echo parameter 2".to_owned() }),
        0x2002 => Some(ParameterInfo { code, name: "echoPara3".to_owned(), param_type: ParameterType::Uint16, access: ParameterAccess::Disposition, description: "Echo parameter 3".to_owned() }),
        0x2003 => Some(ParameterInfo { code, name: "echoPara4".to_owned(), param_type: ParameterType::Uint16, access: ParameterAccess::Disposition, description: "Echo parameter 4".to_owned() }),
        0x2004 => Some(ParameterInfo { code, name: "echoFreHz".to_owned(), param_type: ParameterType::Uint32, access: ParameterAccess::ReadWrite, description: "Echo frequency (Hz)".to_owned() }),
        0x2005 => Some(ParameterInfo { code, name: "MechOffset".to_owned(), param_type: ParameterType::Float, access: ParameterAccess::Settings, description: "Mechanical encoder offset".to_owned() }),
        0x2006 => Some(ParameterInfo { code, name: "status2_f32".to_owned(), param_type: ParameterType::Float, access: ParameterAccess::ReadWrite, description: "Reserved parameter (float)".to_owned() }),
        0x2007 => Some(ParameterInfo { code, name: "limit_torque".to_owned(), param_type: ParameterType::Float, access: ParameterAccess::ReadWrite, description: "Maximum torque limit (Nm)".to_owned() }),
        0x2008 => Some(ParameterInfo { code, name: "I_FW_MAX".to_owned(), param_type: ParameterType::Float, access: ParameterAccess::ReadWrite, description: "Field-weakening current max".to_owned() }),
        0x2009 => Some(ParameterInfo { code, name: "motor_baud".to_owned(), param_type: ParameterType::Uint8, access: ParameterAccess::Settings, description: "Baud-rate configuration flag".to_owned() }),
        0x200A => Some(ParameterInfo { code, name: "CAN_ID".to_owned(), param_type: ParameterType::Uint8, access: ParameterAccess::Settings, description: "Node CAN-ID".to_owned() }),
        0x200B => Some(ParameterInfo { code, name: "CAN_MASTER".to_owned(), param_type: ParameterType::Uint8, access: ParameterAccess::Settings, description: "Master CAN-ID".to_owned() }),
        0x200C => Some(ParameterInfo { code, name: "CAN_TIMEOUT".to_owned(), param_type: ParameterType::Uint32, access: ParameterAccess::ReadWrite, description: "CAN timeout threshold (us)".to_owned() }),
        0x200D => Some(ParameterInfo { code, name: "status2_i16".to_owned(), param_type: ParameterType::Int16, access: ParameterAccess::ReadWrite, description: "Reserved parameter (int16)".to_owned() }),
        0x200E => Some(ParameterInfo { code, name: "status3".to_owned(), param_type: ParameterType::Uint32, access: ParameterAccess::ReadWrite, description: "Reserved parameter (uint32)".to_owned() }),
        0x200F => Some(ParameterInfo { code, name: "status1".to_owned(), param_type: ParameterType::Float, access: ParameterAccess::ReadWrite, description: "Reserved parameter (float)".to_owned() }),
        0x2010 => Some(ParameterInfo { code, name: "status6".to_owned(), param_type: ParameterType::Uint8, access: ParameterAccess::ReadWrite, description: "Reserved parameter (uint8)".to_owned() }),
        0x2011 => Some(ParameterInfo { code, name: "cur_filt_gain".to_owned(), param_type: ParameterType::Float, access: ParameterAccess::ReadWrite, description: "Current-loop filter gain".to_owned() }),
        0x2012 => Some(ParameterInfo { code, name: "cur_kp".to_owned(), param_type: ParameterType::Float, access: ParameterAccess::ReadWrite, description: "Current-loop Kp".to_owned() }),
        0x2013 => Some(ParameterInfo { code, name: "cur_ki".to_owned(), param_type: ParameterType::Float, access: ParameterAccess::ReadWrite, description: "Current-loop Ki".to_owned() }),
        0x2014 => Some(ParameterInfo { code, name: "spd_kp".to_owned(), param_type: ParameterType::Float, access: ParameterAccess::ReadWrite, description: "Speed-loop Kp".to_owned() }),
        0x2015 => Some(ParameterInfo { code, name: "spd_ki".to_owned(), param_type: ParameterType::Float, access: ParameterAccess::ReadWrite, description: "Speed-loop Ki".to_owned() }),
        0x2016 => Some(ParameterInfo { code, name: "loc_kp".to_owned(), param_type: ParameterType::Float, access: ParameterAccess::ReadWrite, description: "Position-loop Kp".to_owned() }),
        0x2017 => Some(ParameterInfo { code, name: "spd_filt_gain".to_owned(), param_type: ParameterType::Float, access: ParameterAccess::ReadWrite, description: "Speed-loop filter gain".to_owned() }),
        0x2018 => Some(ParameterInfo { code, name: "limit_spd".to_owned(), param_type: ParameterType::Float, access: ParameterAccess::ReadWrite, description: "Maximum speed limit (location mode)".to_owned() }),
        0x2019 => Some(ParameterInfo { code, name: "limit_cur".to_owned(), param_type: ParameterType::Float, access: ParameterAccess::ReadWrite, description: "Current limit (loc/vel modes)".to_owned() }),
        0x201A => Some(ParameterInfo { code, name: "loc_ref_filt_gain".to_owned(), param_type: ParameterType::Float, access: ParameterAccess::ReadWrite, description: "Reserved parameter (float)".to_owned() }),
        0x201B => Some(ParameterInfo { code, name: "limit_loc".to_owned(), param_type: ParameterType::Float, access: ParameterAccess::ReadWrite, description: "Reserved parameter (float)".to_owned() }),
        0x201C => Some(ParameterInfo { code, name: "position_offset".to_owned(), param_type: ParameterType::Float, access: ParameterAccess::ReadWrite, description: "High-speed segment offset".to_owned() }),
        0x201D => Some(ParameterInfo { code, name: "chasu_angle_offset".to_owned(), param_type: ParameterType::Float, access: ParameterAccess::ReadWrite, description: "Low-speed segment offset".to_owned() }),
        0x201E => Some(ParameterInfo { code, name: "zero_sta".to_owned(), param_type: ParameterType::Float, access: ParameterAccess::ReadWrite, description: "Zero-marker status".to_owned() }),
        0x201F => Some(ParameterInfo { code, name: "protocol_1".to_owned(), param_type: ParameterType::Float, access: ParameterAccess::ReadWrite, description: "Protocol flag".to_owned() }),
        0x3000 => Some(ParameterInfo { code, name: "timeUse0".to_owned(), param_type: ParameterType::Float, access: ParameterAccess::ReadWrite, description: "Benchmark timer 0 (us)".to_owned() }),
        0x3001 => Some(ParameterInfo { code, name: "timeUse1".to_owned(), param_type: ParameterType::Float, access: ParameterAccess::ReadWrite, description: "Benchmark timer 1 (us)".to_owned() }),
        0x3002 => Some(ParameterInfo { code, name: "timeUse2".to_owned(), param_type: ParameterType::Uint16, access: ParameterAccess::ReadOnly, description: "Benchmark timer 2 (us)".to_owned() }),
        0x3003 => Some(ParameterInfo { code, name: "timeUse3".to_owned(), param_type: ParameterType::Uint16, access: ParameterAccess::ReadOnly, description: "Benchmark timer 3 (us)".to_owned() }),
        0x3004 => Some(ParameterInfo { code, name: "encoderRaw".to_owned(), param_type: ParameterType::Uint16, access: ParameterAccess::ReadOnly, description: "Magnetic encoder raw sample".to_owned() }),
        0x3005 => Some(ParameterInfo { code, name: "mcuTemp".to_owned(), param_type: ParameterType::Uint16, access: ParameterAccess::ReadOnly, description: "MCU internal temperature (x0.1 degC)".to_owned() }),
        0x3006 => Some(ParameterInfo { code, name: "motorTemp".to_owned(), param_type: ParameterType::Int16, access: ParameterAccess::ReadOnly, description: "Motor NTC temperature (x0.1 degC)".to_owned() }),
        0x3007 => Some(ParameterInfo { code, name: "vBus_mv".to_owned(), param_type: ParameterType::Int16, access: ParameterAccess::ReadOnly, description: "Bus voltage (mV)".to_owned() }),
        0x3008 => Some(ParameterInfo { code, name: "adc1Offset".to_owned(), param_type: ParameterType::Int16, access: ParameterAccess::ReadOnly, description: "ADC channel-1 zero-current bias".to_owned() }),
        0x3009 => Some(ParameterInfo { code, name: "adc2Offset".to_owned(), param_type: ParameterType::Uint16, access: ParameterAccess::ReadOnly, description: "ADC channel-2 zero-current bias".to_owned() }),
        0x300A => Some(ParameterInfo { code, name: "adc1Raw".to_owned(), param_type: ParameterType::Int32, access: ParameterAccess::ReadOnly, description: "ADC channel-1 raw value".to_owned() }),
        0x300B => Some(ParameterInfo { code, name: "adc2Raw".to_owned(), param_type: ParameterType::Int32, access: ParameterAccess::ReadOnly, description: "ADC channel-2 raw value".to_owned() }),
        0x300C => Some(ParameterInfo { code, name: "VBUS".to_owned(), param_type: ParameterType::Uint16, access: ParameterAccess::ReadOnly, description: "Bus voltage mirror (mV)".to_owned() }),
        0x300D => Some(ParameterInfo { code, name: "cmdId".to_owned(), param_type: ParameterType::Uint16, access: ParameterAccess::ReadOnly, description: "Command ring identifier".to_owned() }),
        0x300E => Some(ParameterInfo { code, name: "cmdIq".to_owned(), param_type: ParameterType::Float, access: ParameterAccess::ReadOnly, description: "Commanded iq (A)".to_owned() }),
        0x300F => Some(ParameterInfo { code, name: "cmdLocRef".to_owned(), param_type: ParameterType::Float, access: ParameterAccess::ReadOnly, description: "Commanded position reference".to_owned() }),
        0x3010 => Some(ParameterInfo { code, name: "cmdSpdRef".to_owned(), param_type: ParameterType::Float, access: ParameterAccess::ReadOnly, description: "Commanded speed reference".to_owned() }),
        0x3011 => Some(ParameterInfo { code, name: "cmdTorque".to_owned(), param_type: ParameterType::Float, access: ParameterAccess::ReadOnly, description: "Commanded torque (Nm)".to_owned() }),
        0x3012 => Some(ParameterInfo { code, name: "cmdPos".to_owned(), param_type: ParameterType::Float, access: ParameterAccess::ReadOnly, description: "MIT protocol position command".to_owned() }),
        0x3013 => Some(ParameterInfo { code, name: "cmdVel".to_owned(), param_type: ParameterType::Float, access: ParameterAccess::ReadOnly, description: "MIT protocol speed command".to_owned() }),
        0x3014 => Some(ParameterInfo { code, name: "rotation".to_owned(), param_type: ParameterType::Float, access: ParameterAccess::ReadOnly, description: "Total rotations counted".to_owned() }),
        0x3015 => Some(ParameterInfo { code, name: "modPos".to_owned(), param_type: ParameterType::Float, access: ParameterAccess::ReadOnly, description: "Modulo mechanical angle (rad)".to_owned() }),
        0x3016 => Some(ParameterInfo { code, name: "mechPos".to_owned(), param_type: ParameterType::Int16, access: ParameterAccess::ReadOnly, description: "Load mechanical angle (rad)".to_owned() }),
        0x3017 => Some(ParameterInfo { code, name: "mechVel".to_owned(), param_type: ParameterType::Float, access: ParameterAccess::ReadOnly, description: "Load speed (rad/s)".to_owned() }),
        0x3018 => Some(ParameterInfo { code, name: "elecPos".to_owned(), param_type: ParameterType::Float, access: ParameterAccess::ReadOnly, description: "Electrical angle (rad)".to_owned() }),
        0x3019 => Some(ParameterInfo { code, name: "ia".to_owned(), param_type: ParameterType::Float, access: ParameterAccess::ReadOnly, description: "Phase-U current (A)".to_owned() }),
        0x301A => Some(ParameterInfo { code, name: "ib".to_owned(), param_type: ParameterType::Float, access: ParameterAccess::ReadOnly, description: "Phase-V current (A)".to_owned() }),
        0x301B => Some(ParameterInfo { code, name: "ic".to_owned(), param_type: ParameterType::Float, access: ParameterAccess::ReadOnly, description: "Phase-W current (A)".to_owned() }),
        0x301C => Some(ParameterInfo { code, name: "timeout_cnt".to_owned(), param_type: ParameterType::Float, access: ParameterAccess::ReadOnly, description: "Timeout counter value".to_owned() }),
        0x301D => Some(ParameterInfo { code, name: "phaseOrder".to_owned(), param_type: ParameterType::Float, access: ParameterAccess::ReadOnly, description: "Phase order marker".to_owned() }),
        0x301E => Some(ParameterInfo { code, name: "iq_filter".to_owned(), param_type: ParameterType::Uint32, access: ParameterAccess::ReadOnly, description: "Filtered iq value".to_owned() }),
        0x301F => Some(ParameterInfo { code, name: "boardTemp".to_owned(), param_type: ParameterType::Uint8, access: ParameterAccess::ReadOnly, description: "Board temperature (x0.1 degC)".to_owned() }),
        0x3020 => Some(ParameterInfo { code, name: "iq".to_owned(), param_type: ParameterType::Float, access: ParameterAccess::ReadOnly, description: "Instantaneous iq (A)".to_owned() }),
        0x3021 => Some(ParameterInfo { code, name: "id".to_owned(), param_type: ParameterType::Int16, access: ParameterAccess::ReadOnly, description: "Instantaneous id (A)".to_owned() }),
        0x3022 => Some(ParameterInfo { code, name: "faultSta".to_owned(), param_type: ParameterType::Float, access: ParameterAccess::ReadOnly, description: "Fault status flags".to_owned() }),
        0x3023 => Some(ParameterInfo { code, name: "warnSta".to_owned(), param_type: ParameterType::Float, access: ParameterAccess::ReadOnly, description: "Warning status flags".to_owned() }),
        0x3024 => Some(ParameterInfo { code, name: "drv_fault".to_owned(), param_type: ParameterType::Uint32, access: ParameterAccess::ReadOnly, description: "Driver fault value".to_owned() }),
        0x3025 => Some(ParameterInfo { code, name: "drv_temp".to_owned(), param_type: ParameterType::Uint32, access: ParameterAccess::ReadOnly, description: "Driver temperature value".to_owned() }),
        0x3026 => Some(ParameterInfo { code, name: "Uq".to_owned(), param_type: ParameterType::Uint16, access: ParameterAccess::ReadOnly, description: "Q-axis voltage".to_owned() }),
        0x3027 => Some(ParameterInfo { code, name: "Ud".to_owned(), param_type: ParameterType::Int16, access: ParameterAccess::ReadOnly, description: "D-axis voltage".to_owned() }),
        0x3028 => Some(ParameterInfo { code, name: "dtc_u".to_owned(), param_type: ParameterType::Float, access: ParameterAccess::ReadOnly, description: "PWM duty-cycle phase-U".to_owned() }),
        0x3029 => Some(ParameterInfo { code, name: "dtc_v".to_owned(), param_type: ParameterType::Float, access: ParameterAccess::ReadOnly, description: "PWM duty-cycle phase-V".to_owned() }),
        0x302A => Some(ParameterInfo { code, name: "dtc_w".to_owned(), param_type: ParameterType::Float, access: ParameterAccess::ReadOnly, description: "PWM duty-cycle phase-W".to_owned() }),
        0x302B => Some(ParameterInfo { code, name: "v_bus".to_owned(), param_type: ParameterType::Float, access: ParameterAccess::ReadOnly, description: "Vbus (filtered)".to_owned() }),
        0x302C => Some(ParameterInfo { code, name: "torque_fdb".to_owned(), param_type: ParameterType::Float, access: ParameterAccess::ReadOnly, description: "Torque feedback (Nm)".to_owned() }),
        0x302D => Some(ParameterInfo { code, name: "rated_i".to_owned(), param_type: ParameterType::Float, access: ParameterAccess::ReadOnly, description: "Rated motor current (A)".to_owned() }),
        0x302E => Some(ParameterInfo { code, name: "limit_i".to_owned(), param_type: ParameterType::Float, access: ParameterAccess::ReadOnly, description: "Current limit (A)".to_owned() }),
        0x302F => Some(ParameterInfo { code, name: "spd_ref".to_owned(), param_type: ParameterType::Float, access: ParameterAccess::ReadOnly, description: "Speed reference (rad/s)".to_owned() }),
        0x3030 => Some(ParameterInfo { code, name: "motor_mech_angle".to_owned(), param_type: ParameterType::Float, access: ParameterAccess::ReadOnly, description: "Motor mechanical angle (rad)".to_owned() }),
        0x3031 => Some(ParameterInfo { code, name: "position".to_owned(), param_type: ParameterType::Float, access: ParameterAccess::ReadOnly, description: "Position determination parameter".to_owned() }),
        0x3032 => Some(ParameterInfo { code, name: "chasu_angle_init".to_owned(), param_type: ParameterType::Float, access: ParameterAccess::ReadOnly, description: "Position determination parameter".to_owned() }),
        0x3033 => Some(ParameterInfo { code, name: "chasu_angle_out".to_owned(), param_type: ParameterType::Float, access: ParameterAccess::ReadOnly, description: "Position determination parameter".to_owned() }),
        0x3034 => Some(ParameterInfo { code, name: "motormechinit1".to_owned(), param_type: ParameterType::Float, access: ParameterAccess::ReadOnly, description: "Position determination parameter".to_owned() }),
        0x3035 => Some(ParameterInfo { code, name: "mech_angle_init2".to_owned(), param_type: ParameterType::Float, access: ParameterAccess::ReadOnly, description: "Position determination parameter".to_owned() }),
        0x3036 => Some(ParameterInfo { code, name: "mech_angle_rotations".to_owned(), param_type: ParameterType::Float, access: ParameterAccess::ReadOnly, description: "Position determination parameter".to_owned() }),
        0x3037 => Some(ParameterInfo { code, name: "cmdlocref_1".to_owned(), param_type: ParameterType::Float, access: ParameterAccess::ReadOnly, description: "Position determination parameter".to_owned() }),
        0x3038 => Some(ParameterInfo { code, name: "status_1".to_owned(), param_type: ParameterType::Float, access: ParameterAccess::ReadOnly, description: "Retention parameter".to_owned() }),
        0x3039 => Some(ParameterInfo { code, name: "ElecOffset".to_owned(), param_type: ParameterType::Uint32, access: ParameterAccess::ReadOnly, description: "Electrical angle offset".to_owned() }),
        0x303A => Some(ParameterInfo { code, name: "mcOverTemp".to_owned(), param_type: ParameterType::Uint32, access: ParameterAccess::ReadOnly, description: "MC over-temperature threshold".to_owned() }),
        0x303B => Some(ParameterInfo { code, name: "Kt_Nm_Amp".to_owned(), param_type: ParameterType::Uint32, access: ParameterAccess::ReadOnly, description: "Torque constant (Nm/A)".to_owned() }),
        0x303C => Some(ParameterInfo { code, name: "Tqcali_Type".to_owned(), param_type: ParameterType::Uint32, access: ParameterAccess::ReadOnly, description: "Torque calibration type".to_owned() }),
        0x303D => Some(ParameterInfo { code, name: "fault1".to_owned(), param_type: ParameterType::Uint32, access: ParameterAccess::ReadOnly, description: "Fault log entry 1".to_owned() }),
        0x303E => Some(ParameterInfo { code, name: "fault2".to_owned(), param_type: ParameterType::Uint32, access: ParameterAccess::ReadOnly, description: "Fault log entry 2".to_owned() }),
        0x303F => Some(ParameterInfo { code, name: "fault3".to_owned(), param_type: ParameterType::Uint32, access: ParameterAccess::ReadOnly, description: "Fault log entry 3".to_owned() }),
        0x3040 => Some(ParameterInfo { code, name: "fault4".to_owned(), param_type: ParameterType::Uint32, access: ParameterAccess::ReadOnly, description: "Fault log entry 4".to_owned() }),
        0x3041 => Some(ParameterInfo { code, name: "fault5".to_owned(), param_type: ParameterType::Float, access: ParameterAccess::ReadOnly, description: "Fault log entry 5".to_owned() }),
        0x3042 => Some(ParameterInfo { code, name: "fault6".to_owned(), param_type: ParameterType::Int16, access: ParameterAccess::ReadOnly, description: "Fault log entry 6".to_owned() }),
        0x3043 => Some(ParameterInfo { code, name: "fault7".to_owned(), param_type: ParameterType::Float, access: ParameterAccess::ReadOnly, description: "Fault log entry 7".to_owned() }),
        0x3044 => Some(ParameterInfo { code, name: "fault8".to_owned(), param_type: ParameterType::Uint8, access: ParameterAccess::ReadOnly, description: "Fault log entry 8".to_owned() }),
        0x3045 => Some(ParameterInfo { code, name: "theta_mech_1".to_owned(), param_type: ParameterType::Float, access: ParameterAccess::ReadOnly, description: "Mechanical angle theta1".to_owned() }),
        0x7005 => Some(ParameterInfo { code, name: "run_mode".to_owned(), param_type: ParameterType::Uint8, access: ParameterAccess::ReadWrite, description: "Operation mode: 0=operation, 1=position PP, 2=velocity, 3=operation, 5=position CSP".to_owned() }),
        0x7006 => Some(ParameterInfo { code, name: "iq_ref".to_owned(), param_type: ParameterType::Float, access: ParameterAccess::ReadWrite, description: "Current mode Iq command (A)".to_owned() }),
        0x700A => Some(ParameterInfo { code, name: "spd_ref".to_owned(), param_type: ParameterType::Float, access: ParameterAccess::ReadWrite, description: "Rotational speed command (rad/s)".to_owned() }),
        0x700B => Some(ParameterInfo { code, name: "limit_torque".to_owned(), param_type: ParameterType::Float, access: ParameterAccess::ReadWrite, description: "Torque limit (Nm)".to_owned() }),
        0x7010 => Some(ParameterInfo { code, name: "cur_kp".to_owned(), param_type: ParameterType::Float, access: ParameterAccess::ReadWrite, description: "Current loop Kp".to_owned() }),
        0x7011 => Some(ParameterInfo { code, name: "cur_ki".to_owned(), param_type: ParameterType::Float, access: ParameterAccess::ReadWrite, description: "Current loop Ki".to_owned() }),
        0x7014 => Some(ParameterInfo { code, name: "cur_filt_gain".to_owned(), param_type: ParameterType::Float, access: ParameterAccess::ReadWrite, description: "Current filter gain".to_owned() }),
        0x7016 => Some(ParameterInfo { code, name: "loc_ref".to_owned(), param_type: ParameterType::Float, access: ParameterAccess::ReadWrite, description: "Position mode angle instruction (rad)".to_owned() }),
        0x7017 => Some(ParameterInfo { code, name: "limit_spd".to_owned(), param_type: ParameterType::Float, access: ParameterAccess::ReadWrite, description: "Location mode CSP speed limit (rad/s)".to_owned() }),
        0x7018 => Some(ParameterInfo { code, name: "limit_cur".to_owned(), param_type: ParameterType::Float, access: ParameterAccess::ReadWrite, description: "Velocity/position mode current limitation (A)".to_owned() }),
        0x7019 => Some(ParameterInfo { code, name: "mechPos".to_owned(), param_type: ParameterType::Float, access: ParameterAccess::ReadOnly, description: "Mechanical angle of the loading coil (rad)".to_owned() }),
        0x701A => Some(ParameterInfo { code, name: "iqf".to_owned(), param_type: ParameterType::Float, access: ParameterAccess::ReadOnly, description: "Iq filter (A)".to_owned() }),
        0x701B => Some(ParameterInfo { code, name: "mechVel".to_owned(), param_type: ParameterType::Float, access: ParameterAccess::ReadOnly, description: "Speed of the load (rad/s)".to_owned() }),
        0x701C => Some(ParameterInfo { code, name: "VBUS".to_owned(), param_type: ParameterType::Float, access: ParameterAccess::ReadOnly, description: "Bus voltage (V)".to_owned() }),
        0x701E => Some(ParameterInfo { code, name: "loc_kp".to_owned(), param_type: ParameterType::Float, access: ParameterAccess::ReadWrite, description: "Position loop Kp".to_owned() }),
        0x701F => Some(ParameterInfo { code, name: "spd_kp".to_owned(), param_type: ParameterType::Float, access: ParameterAccess::ReadWrite, description: "Speed loop Kp".to_owned() }),
        0x7020 => Some(ParameterInfo { code, name: "spd_ki".to_owned(), param_type: ParameterType::Float, access: ParameterAccess::ReadWrite, description: "Speed loop Ki".to_owned() }),
        0x7021 => Some(ParameterInfo { code, name: "spd_filt_gain".to_owned(), param_type: ParameterType::Float, access: ParameterAccess::ReadWrite, description: "Speed filter gain".to_owned() }),
        0x7022 => Some(ParameterInfo { code, name: "acc_rad".to_owned(), param_type: ParameterType::Float, access: ParameterAccess::ReadWrite, description: "Velocity mode acceleration (rad/s2)".to_owned() }),
        0x7024 => Some(ParameterInfo { code, name: "vel_max".to_owned(), param_type: ParameterType::Float, access: ParameterAccess::ReadWrite, description: "Location mode PP speed (rad/s)".to_owned() }),
        0x7025 => Some(ParameterInfo { code, name: "acc_set".to_owned(), param_type: ParameterType::Float, access: ParameterAccess::ReadWrite, description: "Location mode PP acceleration (rad/s2)".to_owned() }),
        0x7026 => Some(ParameterInfo { code, name: "EPScan_time".to_owned(), param_type: ParameterType::Uint16, access: ParameterAccess::ReadWrite, description: "Report time (10ms units)".to_owned() }),
        0x7028 => Some(ParameterInfo { code, name: "canTimeout".to_owned(), param_type: ParameterType::Uint32, access: ParameterAccess::ReadWrite, description: "CAN timeout threshold (20000 = 1s)".to_owned() }),
        0x7029 => Some(ParameterInfo { code, name: "zero_sta".to_owned(), param_type: ParameterType::Uint8, access: ParameterAccess::ReadWrite, description: "Zero flag bit: 0=0-2pi, 1=-pi-pi".to_owned() }),
        _ => None,
    }
}

/// Every code the table holds, in ascending order.
#[verifier::rlimit(100)]
pub fn parameter_codes() -> (codes: Vec<u16>)
    ensures
        forall|c: u16| spec_param_meta(c) is Some ==> codes@.contains(c),
        forall|i: int| 0 <= i < codes@.len() ==> spec_param_meta(#[trigger] codes@[i]) is Some,
{
    let codes: Vec<u16> = vec![
        0x0000, 0x0001, 0x1000, 0x1001, 0x1002, 0x1003, 0x1004, 0x1005, 0x1006, 0x1007, 0x2000, 0x2001, 0x2002, 0x2003, 0x2004, 0x2005, 0x2006, 0x2007, 0x2008, 0x2009, 0x200A, 0x200B, 0x200C, 0x200D, 0x200E, 0x200F, 0x2010, 0x2011, 0x2012, 0x2013, 0x2014, 0x2015, 0x2016, 0x2017, 0x2018, 0x2019, 0x201A, 0x201B, 0x201C, 0x201D, 0x201E, 0x201F, 0x3000, 0x3001, 0x3002, 0x3003, 0x3004, 0x3005, 0x3006, 0x3007, 0x3008, 0x3009, 0x300A, 0x300B, 0x300C, 0x300D, 0x300E, 0x300F, 0x3010, 0x3011, 0x3012, 0x3013, 0x3014, 0x3015, 0x3016, 0x3017, 0x3018, 0x3019, 0x301A, 0x301B, 0x301C, 0x301D, 0x301E, 0x301F, 0x3020, 0x3021, 0x3022, 0x3023, 0x3024, 0x3025, 0x3026, 0x3027, 0x3028, 0x3029, 0x302A, 0x302B, 0x302C, 0x302D, 0x302E, 0x302F, 0x3030, 0x3031, 0x3032, 0x3033, 0x3034, 0x3035, 0x3036, 0x3037, 0x3038, 0x3039, 0x303A, 0x303B, 0x303C, 0x303D, 0x303E, 0x303F, 0x3040, 0x3041, 0x3042, 0x3043, 0x3044, 0x3045, 0x7005, 0x7006, 0x700A, 0x700B, 0x7010, 0x7011, 0x7014, 0x7016, 0x7017, 0x7018, 0x7019, 0x701A, 0x701B, 0x701C, 0x701E, 0x701F, 0x7020, 0x7021, 0x7022, 0x7024, 0x7025, 0x7026, 0x7028, 0x7029,
    ];
    proof {
        assert forall|c: u16| spec_param_meta(c) is Some implies codes@.contains(c) by {
            if c == 0x0000 {
                assert(codes@[0] == 0x0000u16);
            } else if c == 0x0001 {
                assert(codes@[1] == 0x0001u16);
            } else if c == 0x1000 {
                assert(codes@[2] == 0x1000u16);
            } else if c == 0x1001 {
                assert(codes@[3] == 0x1001u16);
            } else if c == 0x1002 {
                assert(codes@[4] == 0x1002u16);
            } else if c == 0x1003 {
                assert(codes@[5] == 0x1003u16);
            } else if c == 0x1004 {
                assert(codes@[6] == 0x1004u16);
            } else if c == 0x1005 {
                assert(codes@[7] == 0x1005u16);
            } else if c == 0x1006 {
                assert(codes@[8] == 0x1006u16);
            } else if c == 0x1007 {
                assert(codes@[9] == 0x1007u16);
            } else if c == 0x2000 {
                assert(codes@[10] == 0x2000u16);
            } else if c == 0x2001 {
                assert(codes@[11] == 0x2001u16);
            } else if c == 0x2002 {
                assert(codes@[12] == 0x2002u16);
            } else if c == 0x2003 {
                assert(codes@[13] == 0x2003u16);
            } else if c == 0x2004 {
                assert(codes@[14] == 0x2004u16);
            } else if c == 0x2005 {
                assert(codes@[15] == 0x2005u16);
            } else if c == 0x2006 {
                assert(codes@[16] == 0x2006u16);
            } else if c == 0x2007 {
                assert(codes@[17] == 0x2007u16);
            } else if c == 0x2008 {
                assert(codes@[18] == 0x2008u16);
            } else if c == 0x2009 {
                assert(codes@[19] == 0x2009u16);
            } else if c == 0x200A {
                assert(codes@[20] == 0x200Au16);
            } else if c == 0x200B {
                assert(codes@[21] == 0x200Bu16);
            } else if c == 0x200C {
                assert(codes@[22] == 0x200Cu16);
            } else if c == 0x200D {
                assert(codes@[23] == 0x200Du16);
            } else if c == 0x200E {
                assert(codes@[24] == 0x200Eu16);
            } else if c == 0x200F {
                assert(codes@[25] == 0x200Fu16);
            } else if c == 0x2010 {
                assert(codes@[26] == 0x2010u16);
            } else if c == 0x2011 {
                assert(codes@[27] == 0x2011u16);
            } else if c == 0x2012 {
                assert(codes@[28] == 0x2012u16);
            } else if c == 0x2013 {
                assert(codes@[29] == 0x2013u16);
            } else if c == 0x2014 {
                assert(codes@[30] == 0x2014u16);
            } else if c == 0x2015 {
                assert(codes@[31] == 0x2015u16);
            } else if c == 0x2016 {
                assert(codes@[32] == 0x2016u16);
            } else if c == 0x2017 {
                assert(codes@[33] == 0x2017u16);
            } else if c == 0x2018 {
                assert(codes@[34] == 0x2018u16);
            } else if c == 0x2019 {
                assert(codes@[35] == 0x2019u16);
            } else if c == 0x201A {
                assert(codes@[36] == 0x201Au16);
            } else if c == 0x201B {
                assert(codes@[37] == 0x201Bu16);
            } else if c == 0x201C {
                assert(codes@[38] == 0x201Cu16);
            } else if c == 0x201D {
                assert(codes@[39] == 0x201Du16);
            } else if c == 0x201E {
                assert(codes@[40] == 0x201Eu16);
            } else if c == 0x201F {
                assert(codes@[41] == 0x201Fu16);
            } else if c == 0x3000 {
                assert(codes@[42] == 0x3000u16);
            } else if c == 0x3001 {
                assert(codes@[43] == 0x3001u16);
            } else if c == 0x3002 {
                assert(codes@[44] == 0x3002u16);
            } else if c == 0x3003 {
                assert(codes@[45] == 0x3003u16);
            } else if c == 0x3004 {
                assert(codes@[46] == 0x3004u16);
            } else if c == 0x3005 {
                assert(codes@[47] == 0x3005u16);
            } else if c == 0x3006 {
                assert(codes@[48] == 0x3006u16);
            } else if c == 0x3007 {
                assert(codes@[49] == 0x3007u16);
            } else if c == 0x3008 {
                assert(codes@[50] == 0x3008u16);
            } else if c == 0x3009 {
                assert(codes@[51] == 0x3009u16);
            } else if c == 0x300A {
                assert(codes@[52] == 0x300Au16);
            } else if c == 0x300B {
                assert(codes@[53] == 0x300Bu16);
            } else if c == 0x300C {
                assert(codes@[54] == 0x300Cu16);
            } else if c == 0x300D {
                assert(codes@[55] == 0x300Du16);
            } else if c == 0x300E {
                assert(codes@[56] == 0x300Eu16);
            } else if c == 0x300F {
                assert(codes@[57] == 0x300Fu16);
            } else if c == 0x3010 {
                assert(codes@[58] == 0x3010u16);
            } else if c == 0x3011 {
                assert(codes@[59] == 0x3011u16);
            } else if c == 0x3012 {
                assert(codes@[60] == 0x3012u16);
            } else if c == 0x3013 {
                assert(codes@[61] == 0x3013u16);
            } else if c == 0x3014 {
                assert(codes@[62] == 0x3014u16);
            } else if c == 0x3015 {
                assert(codes@[63] == 0x3015u16);
            } else if c == 0x3016 {
                assert(codes@[64] == 0x3016u16);
            } else if c == 0x3017 {
                assert(codes@[65] == 0x3017u16);
            } else if c == 0x3018 {
                assert(codes@[66] == 0x3018u16);
            } else if c == 0x3019 {
                assert(codes@[67] == 0x3019u16);
            } else if c == 0x301A {
                assert(codes@[68] == 0x301Au16);
            } else if c == 0x301B {
                assert(codes@[69] == 0x301Bu16);
            } else if c == 0x301C {
                assert(codes@[70] == 0x301Cu16);
            } else if c == 0x301D {
                assert(codes@[71] == 0x301Du16);
            } else if c == 0x301E {
                assert(codes@[72] == 0x301Eu16);
            } else if c == 0x301F {
                assert(codes@[73] == 0x301Fu16);
            } else if c == 0x3020 {
                assert(codes@[74] == 0x3020u16);
            } else if c == 0x3021 {
                assert(codes@[75] == 0x3021u16);
            } else if c == 0x3022 {
                assert(codes@[76] == 0x3022u16);
            } else if c == 0x3023 {
                assert(codes@[77] == 0x3023u16);
            } else if c == 0x3024 {
                assert(codes@[78] == 0x3024u16);
            } else if c == 0x3025 {
                assert(codes@[79] == 0x3025u16);
            } else if c == 0x3026 {
                assert(codes@[80] == 0x3026u16);
            } else if c == 0x3027 {
                assert(codes@[81] == 0x3027u16);
            } else if c == 0x3028 {
                assert(codes@[82] == 0x3028u16);
            } else if c == 0x3029 {
                assert(codes@[83] == 0x3029u16);
            } else if c == 0x302A {
                assert(codes@[84] == 0x302Au16);
            } else if c == 0x302B {
                assert(codes@[85] == 0x302Bu16);
            } else if c == 0x302C {
                assert(codes@[86] == 0x302Cu16);
            } else if c == 0x302D {
                assert(codes@[87] == 0x302Du16);
            } else if c == 0x302E {
                assert(codes@[88] == 0x302Eu16);
            } else if c == 0x302F {
                assert(codes@[89] == 0x302Fu16);
            } else if c == 0x3030 {
                assert(codes@[90] == 0x3030u16);
            } else if c == 0x3031 {
                assert(codes@[91] == 0x3031u16);
            } else if c == 0x3032 {
                assert(codes@[92] == 0x3032u16);
            } else if c == 0x3033 {
                assert(codes@[93] == 0x3033u16);
            } else if c == 0x3034 {
                assert(codes@[94] == 0x3034u16);
            } else if c == 0x3035 {
                assert(codes@[95] == 0x3035u16);
            } else if c == 0x3036 {
                assert(codes@[96] == 0x3036u16);
            } else if c == 0x3037 {
                assert(codes@[97] == 0x3037u16);
            } else if c == 0x3038 {
                assert(codes@[98] == 0x3038u16);
            } else if c == 0x3039 {
                assert(codes@[99] == 0x3039u16);
            } else if c == 0x303A {
                assert(codes@[100] == 0x303Au16);
            } else if c == 0x303B {
                assert(codes@[101] == 0x303Bu16);
            } else if c == 0x303C {
                assert(codes@[102] == 0x303Cu16);
            } else if c == 0x303D {
                assert(codes@[103] == 0x303Du16);
            } else if c == 0x303E {
                assert(codes@[104] == 0x303Eu16);
            } else if c == 0x303F {
                assert(codes@[105] == 0x303Fu16);
            } else if c == 0x3040 {
                assert(codes@[106] == 0x3040u16);
            } else if c == 0x3041 {
                assert(codes@[107] == 0x3041u16);
            } else if c == 0x3042 {
                assert(codes@[108] == 0x3042u16);
            } else if c == 0x3043 {
                assert(codes@[109] == 0x3043u16);
            } else if c == 0x3044 {
                assert(codes@[110] == 0x3044u16);
            } else if c == 0x3045 {
                assert(codes@[111] == 0x3045u16);
            } else if c == 0x7005 {
                assert(codes@[112] == 0x7005u16);
            } else if c == 0x7006 {
                assert(codes@[113] == 0x7006u16);
            } else if c == 0x700A {
                assert(codes@[114] == 0x700Au16);
            } else if c == 0x700B {
                assert(codes@[115] == 0x700Bu16);
            } else if c == 0x7010 {
                assert(codes@[116] == 0x7010u16);
            } else if c == 0x7011 {
                assert(codes@[117] == 0x7011u16);
            } else if c == 0x7014 {
                assert(codes@[118] == 0x7014u16);
            } else if c == 0x7016 {
                assert(codes@[119] == 0x7016u16);
            } else if c == 0x7017 {
                assert(codes@[120] == 0x7017u16);
            } else if c == 0x7018 {
                assert(codes@[121] == 0x7018u16);
            } else if c == 0x7019 {
                assert(codes@[122] == 0x7019u16);
            } else if c == 0x701A {
                assert(codes@[123] == 0x701Au16);
            } else if c == 0x701B {
                assert(codes@[124] == 0x701Bu16);
            } else if c == 0x701C {
                assert(codes@[125] == 0x701Cu16);
            } else if c == 0x701E {
                assert(codes@[126] == 0x701Eu16);
            } else if c == 0x701F {
                assert(codes@[127] == 0x701Fu16);
            } else if c == 0x7020 {
                assert(codes@[128] == 0x7020u16);
            } else if c == 0x7021 {
                assert(codes@[129] == 0x7021u16);
            } else if c == 0x7022 {
                assert(codes@[130] == 0x7022u16);
            } else if c == 0x7024 {
                assert(codes@[131] == 0x7024u16);
            } else if c == 0x7025 {
                assert(codes@[132] == 0x7025u16);
            } else if c == 0x7026 {
                assert(codes@[133] == 0x7026u16);
            } else if c == 0x7028 {
                assert(codes@[134] == 0x7028u16);
            } else if c == 0x7029 {
                assert(codes@[135] == 0x7029u16);
            }
        }
    }
    codes
}

/// Builds the full table: one entry per known code, exactly the codes
/// [`spec_param_meta`] knows, each carrying its declared type and
/// access rights.
pub fn get_parameter_table() -> (table: HashMap<u16, ParameterInfo>)
    ensures
        forall|c: u16| #[trigger] table@.contains_key(c) <==> spec_param_meta(c) is Some,
        forall|c: u16| #[trigger] table@.contains_key(c) ==> table@[c].code == c
            && spec_param_meta(c) == Some((table@[c].param_type, table@[c].access)),
{
    let codes = parameter_codes();
    let mut table: HashMap<u16, ParameterInfo> = HashMap::new();
    let mut i: usize = 0;
    while i < codes.len()
        invariant
            forall|c: u16| #[trigger] table@.contains_key(c) ==> spec_param_meta(c) is Some
                && table@[c].code == c
                && spec_param_meta(c) == Some((table@[c].param_type, table@[c].access)),
            forall|k: int| 0 <= k < i ==> table@.contains_key(#[trigger] codes@[k]),
            forall|c: u16| spec_param_meta(c) is Some ==> codes@.contains(c),
            forall|k: int| 0 <= k < codes@.len() ==> spec_param_meta(#[trigger] codes@[k]) is Some,
            i <= codes@.len(),
        decreases codes@.len() - i,
    {
        let code = codes[i];
        proof {
            assert(vstd::std_specs::hash::obeys_key_model::<u16>());
            assert(vstd::std_specs::hash::builds_valid_hashers::<
                std::collections::hash_map::RandomState,
            >());
            assert(spec_param_meta(code) is Some);
        }
        match lookup_parameter(code) {
            Some(info) => {
                table.insert(code, info);
            },
            None => {
                proof {
                    assert(false);
                }
            },
        }
        proof {
            assert(table@.contains_key(codes@[i as int]));
        }
        i = i + 1;
    }
    proof {
        assert forall|c: u16| spec_param_meta(c) is Some implies table@.contains_key(c) by {
            assert(codes@.contains(c));
            let k = choose|k: int| 0 <= k < codes@.len() && codes@[k] == c;
            assert(table@.contains_key(codes@[k]));
        }
    }
    table
}


/// A parameter's decoded value. A floating-point parameter is carried
/// as its raw IEEE-754 single-precision bit pattern: the table's logic
/// never does arithmetic on it, and the caller working in floating
/// point rebuilds the number from the bits.
#[derive(Clone, Debug, PartialEq, Eq)]
pub enum ParameterValue {
    String(String),
    Uint8(u8),
    Uint16(u16),
    Uint32(u32),
    Int16(i16),
    Int32(i32),
    Float(u32),
}

/// The bytes of a string parameter: everything before the first NUL,
/// or the whole span when no NUL occurs.
pub open spec fn spec_nul_prefix(bytes: Seq<u8>) -> Seq<u8>
    decreases bytes.len(),
{
    if bytes.len() == 0 || bytes[0] == 0 {
        Seq::<u8>::empty()
    } else {
        seq![bytes[0]] + spec_nul_prefix(bytes.drop_first())
    }
}

/// What `String::from_utf8_lossy` yields on a byte sequence: a result
/// of the bytes alone, the same in every process and on every machine.
pub uninterp spec fn lossy_utf8_of(bytes: Seq<u8>) -> Seq<char>;

/// Relies on `String::from_utf8_lossy`: its characters depend on the
/// input bytes alone (invalid sequences become replacement
/// characters), and an empty input yields the empty string.
#[verifier::external_body]
fn utf8_lossy(bytes: &[u8]) -> (s: String)
    ensures
        s@ == lossy_utf8_of(bytes@),
        bytes@.len() == 0 ==> s@.len() == 0,
{
    String::from_utf8_lossy(bytes).into_owned()
}

/// Copies out everything before the first NUL byte.
fn nul_prefix(bytes: &[u8]) -> (prefix: Vec<u8>)
    ensures
        prefix@ == spec_nul_prefix(bytes@),
{
    let mut prefix: Vec<u8> = Vec::new();
    let n = bytes.len();
    let mut i: usize = 0;
    proof {
        assert(bytes@.skip(0) =~= bytes@);
        assert(prefix@ + bytes@ =~= bytes@);
    }
    while i < n
        invariant
            n == bytes@.len(),
            i <= n,
            spec_nul_prefix(bytes@) == prefix@ + spec_nul_prefix(bytes@.skip(i as int)),
            forall|k: int| 0 <= k < i ==> bytes@[k] != 0,
            prefix@ =~= bytes@.take(i as int),
        decreases n - i,
    {
        let b = bytes[i];
        if b == 0 {
            proof {
                assert(bytes@.skip(i as int)[0] == 0);
                assert(spec_nul_prefix(bytes@.skip(i as int)) =~= Seq::<u8>::empty());
                assert(prefix@ + Seq::<u8>::empty() =~= prefix@);
            }
            return prefix;
        }
        proof {
            let rest = bytes@.skip(i as int);
            assert(rest[0] == b && b != 0);
            assert(rest.drop_first() =~= bytes@.skip(i as int + 1));
            assert(spec_nul_prefix(rest) == seq![b] + spec_nul_prefix(bytes@.skip(i as int + 1)));
            assert(prefix@ + spec_nul_prefix(rest) =~= (prefix@ + seq![b]) + spec_nul_prefix(
                bytes@.skip(i as int + 1),
            ));
            assert(prefix@.push(b) =~= prefix@ + seq![b]);
        }
        prefix.push(b);
        i = i + 1;
    }
    proof {
        assert(bytes@.skip(n as int) =~= Seq::<u8>::empty());
        assert(spec_nul_prefix(bytes@.skip(n as int)) =~= Seq::<u8>::empty());
        assert(prefix@ + Seq::<u8>::empty() =~= prefix@);
    }
    prefix
}

impl ParameterValue {
    /// Decodes a raw little-endian byte span into the typed value the
    /// declared parameter type names. Every numeric type needs its
    /// full width and yields nothing from a shorter span; a string
    /// never fails: it takes everything before the first NUL (or the
    /// whole span) and decodes it lossily as UTF-8.
    pub fn from_bytes(bytes: &[u8], param_type: ParameterType) -> (r: Option<ParameterValue>)
        ensures
            match param_type {
                ParameterType::String => r matches Some(ParameterValue::String(s)) && s@
                    == lossy_utf8_of(spec_nul_prefix(bytes@)),
                ParameterType::Uint8 => if bytes@.len() >= 1 {
                    r == Some(ParameterValue::Uint8(bytes@[0]))
                } else {
                    r is None
                },
                ParameterType::Uint16 => if bytes@.len() >= 2 {
                    r == Some(ParameterValue::Uint16(spec_u16_from_le_bytes(bytes@.subrange(0, 2))))
                } else {
                    r is None
                },
                ParameterType::Uint32 => if bytes@.len() >= 4 {
                    r == Some(ParameterValue::Uint32(spec_u32_from_le_bytes(bytes@.subrange(0, 4))))
                } else {
                    r is None
                },
                ParameterType::Int16 => if bytes@.len() >= 2 {
                    r == Some(ParameterValue::Int16(
                        spec_u16_from_le_bytes(bytes@.subrange(0, 2)) as i16,
                    ))
                } else {
                    r is None
                },
                ParameterType::Int32 => if bytes@.len() >= 4 {
                    r == Some(ParameterValue::Int32(
                        spec_u32_from_le_bytes(bytes@.subrange(0, 4)) as i32,
                    ))
                } else {
                    r is None
                },
                ParameterType::Float => if bytes@.len() >= 4 {
                    r == Some(ParameterValue::Float(spec_u32_from_le_bytes(bytes@.subrange(0, 4))))
                } else {
                    r is None
                },
            },
    {
        match param_type {
            ParameterType::String => {
                let prefix = nul_prefix(bytes);
                let s = utf8_lossy(prefix.as_slice());
                Some(ParameterValue::String(s))
            },
            ParameterType::Uint8 => {
                if bytes.len() >= 1 {
                    Some(ParameterValue::Uint8(bytes[0]))
                } else {
                    None
                }
            },
            ParameterType::Uint16 => {
                if bytes.len() >= 2 {
                    let b: Vec<u8> = vec![bytes[0], bytes[1]];
                    let val = vstd::bytes::u16_from_le_bytes(b.as_slice());
                    proof {
                        assert(b@ =~= bytes@.subrange(0, 2));
                    }
                    Some(ParameterValue::Uint16(val))
                } else {
                    None
                }
            },
            ParameterType::Uint32 => {
                if bytes.len() >= 4 {
                    let b: Vec<u8> = vec![bytes[0], bytes[1], bytes[2], bytes[3]];
                    let val = vstd::bytes::u32_from_le_bytes(b.as_slice());
                    proof {
                        assert(b@ =~= bytes@.subrange(0, 4));
                    }
                    Some(ParameterValue::Uint32(val))
                } else {
                    None
                }
            },
            ParameterType::Int16 => {
                if bytes.len() >= 2 {
                    let b: Vec<u8> = vec![bytes[0], bytes[1]];
                    let val = vstd::bytes::u16_from_le_bytes(b.as_slice());
                    proof {
                        assert(b@ =~= bytes@.subrange(0, 2));
                    }
                    Some(ParameterValue::Int16(val as i16))
                } else {
                    None
                }
            },
            ParameterType::Int32 => {
                if bytes.len() >= 4 {
                    let b: Vec<u8> = vec![bytes[0], bytes[1], bytes[2], bytes[3]];
                    let val = vstd::bytes::u32_from_le_bytes(b.as_slice());
                    proof {
                        assert(b@ =~= bytes@.subrange(0, 4));
                    }
                    Some(ParameterValue::Int32(val as i32))
                } else {
                    None
                }
            },
            ParameterType::Float => {
                if bytes.len() >= 4 {
                    let b: Vec<u8> = vec![bytes[0], bytes[1], bytes[2], bytes[3]];
                    let val = vstd::bytes::u32_from_le_bytes(b.as_slice());
                    proof {
                        assert(b@ =~= bytes@.subrange(0, 4));
                    }
                    Some(ParameterValue::Float(val))
                } else {
                    None
                }
            },
        }
    }
}

} // verus!
