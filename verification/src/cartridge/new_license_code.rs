//! Publisher codes of the newer cartridge headers.
use vstd::prelude::*;

verus! {

/// The publishers a two-character new licensee code names.
#[derive(Copy, Clone, Debug, PartialEq, Eq, Structural)]
pub enum NewLicenseCode {
    NoPublisher,
    NintendoRnD,
    Capcom,
    EA,
    HudsonSoft,
    BAI,
    KSS,
    PlanningOfficeWADA,
    PCMComplete,
    SanX,
    Kemco,
    SETRACorporation,
    Viacom,
    Nintendo,
    Bandai,
    OceanSoftware,
}

/// The code of a publisher.
pub open spec fn new_license_code_value(c: NewLicenseCode) -> u16 {
    match c {
        NewLicenseCode::NoPublisher => 0x3030,
        NewLicenseCode::NintendoRnD => 0x3031,
        NewLicenseCode::Capcom => 0x3038,
        NewLicenseCode::EA => 0x3133,
        NewLicenseCode::HudsonSoft => 0x3138,
        NewLicenseCode::BAI => 0x3139,
        NewLicenseCode::KSS => 0x3230,
        NewLicenseCode::PlanningOfficeWADA => 0x3232,
        NewLicenseCode::PCMComplete => 0x3234,
        NewLicenseCode::SanX => 0x3235,
        NewLicenseCode::Kemco => 0x3238,
        NewLicenseCode::SETRACorporation => 0x3239,
        NewLicenseCode::Viacom => 0x3330,
        NewLicenseCode::Nintendo => 0x3331,
        NewLicenseCode::Bandai => 0x3332,
        NewLicenseCode::OceanSoftware => 0x3333,
    }
}

/// The publisher a code names, if it is one of those listed.
pub open spec fn new_license_code_of(code: u16) -> Option<NewLicenseCode> {
    match code {
        0x3030 => Some(NewLicenseCode::NoPublisher),
        0x3031 => Some(NewLicenseCode::NintendoRnD),
        0x3038 => Some(NewLicenseCode::Capcom),
        0x3133 => Some(NewLicenseCode::EA),
        0x3138 => Some(NewLicenseCode::HudsonSoft),
        0x3139 => Some(NewLicenseCode::BAI),
        0x3230 => Some(NewLicenseCode::KSS),
        0x3232 => Some(NewLicenseCode::PlanningOfficeWADA),
        0x3234 => Some(NewLicenseCode::PCMComplete),
        0x3235 => Some(NewLicenseCode::SanX),
        0x3238 => Some(NewLicenseCode::Kemco),
        0x3239 => Some(NewLicenseCode::SETRACorporation),
        0x3330 => Some(NewLicenseCode::Viacom),
        0x3331 => Some(NewLicenseCode::Nintendo),
        0x3332 => Some(NewLicenseCode::Bandai),
        0x3333 => Some(NewLicenseCode::OceanSoftware),
        _ => None,
    }
}

impl NewLicenseCode {
    /// The two ASCII characters of the code, high one first.
    pub fn code(self) -> (r: u16)
        ensures
            r == new_license_code_value(self),
    {
        match self {
            NewLicenseCode::NoPublisher => 0x3030,
            NewLicenseCode::NintendoRnD => 0x3031,
            NewLicenseCode::Capcom => 0x3038,
            NewLicenseCode::EA => 0x3133,
            NewLicenseCode::HudsonSoft => 0x3138,
            NewLicenseCode::BAI => 0x3139,
            NewLicenseCode::KSS => 0x3230,
            NewLicenseCode::PlanningOfficeWADA => 0x3232,
            NewLicenseCode::PCMComplete => 0x3234,
            NewLicenseCode::SanX => 0x3235,
            NewLicenseCode::Kemco => 0x3238,
            NewLicenseCode::SETRACorporation => 0x3239,
            NewLicenseCode::Viacom => 0x3330,
            NewLicenseCode::Nintendo => 0x3331,
            NewLicenseCode::Bandai => 0x3332,
            NewLicenseCode::OceanSoftware => 0x3333,
        }
    }

    /// The publisher a code names, if it is one of those listed.
    pub fn from_code(code: u16) -> (r: Option<NewLicenseCode>)
        ensures
            r == new_license_code_of(code),
    {
        match code {
            0x3030 => Some(NewLicenseCode::NoPublisher),
            0x3031 => Some(NewLicenseCode::NintendoRnD),
            0x3038 => Some(NewLicenseCode::Capcom),
            0x3133 => Some(NewLicenseCode::EA),
            0x3138 => Some(NewLicenseCode::HudsonSoft),
            0x3139 => Some(NewLicenseCode::BAI),
            0x3230 => Some(NewLicenseCode::KSS),
            0x3232 => Some(NewLicenseCode::PlanningOfficeWADA),
            0x3234 => Some(NewLicenseCode::PCMComplete),
            0x3235 => Some(NewLicenseCode::SanX),
            0x3238 => Some(NewLicenseCode::Kemco),
            0x3239 => Some(NewLicenseCode::SETRACorporation),
            0x3330 => Some(NewLicenseCode::Viacom),
            0x3331 => Some(NewLicenseCode::Nintendo),
            0x3332 => Some(NewLicenseCode::Bandai),
            0x3333 => Some(NewLicenseCode::OceanSoftware),
            _ => None,
        }
    }
}

} // verus!
