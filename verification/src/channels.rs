//! Channel identities and the identifiers of the built-in channel layouts.

use vstd::prelude::*;

verus! {

/// The location or intent of one channel (front left, LFE, and so on),
/// in the engine's own order: the native code of each identity is its
/// position in this declaration.
#[derive(Debug, Copy, Clone, PartialEq, Eq, Structural)]
pub enum ChannelId {
    Invalid,
    /// First of the commonly supported identities.
    FrontLeft,
    FrontRight,
    FrontCenter,
    Lfe,
    BackLeft,
    BackRight,
    FrontLeftCenter,
    FrontRightCenter,
    BackCenter,
    SideLeft,
    SideRight,
    TopCenter,
    TopFrontLeft,
    TopFrontCenter,
    TopFrontRight,
    TopBackLeft,
    TopBackCenter,
    TopBackRight,
    /// First of the less commonly supported identities.
    BackLeftCenter,
    BackRightCenter,
    FrontLeftWide,
    FrontRightWide,
    FrontLeftHigh,
    FrontCenterHigh,
    FrontRightHigh,
    TopFrontLeftCenter,
    TopFrontRightCenter,
    TopSideLeft,
    TopSideRight,
    LeftLfe,
    RightLfe,
    Lfe2,
    BottomCenter,
    BottomLeftCenter,
    BottomRightCenter,
    /// Mid/side recording.
    MsMid,
    MsSide,
    /// First order ambisonic channels.
    AmbisonicW,
    AmbisonicX,
    AmbisonicY,
    AmbisonicZ,
    /// X-Y recording.
    XyX,
    XyY,
    /// First of the "other" channel identities.
    HeadphonesLeft,
    HeadphonesRight,
    ClickTrack,
    ForeignLanguage,
    HearingImpaired,
    Narration,
    Haptic,
    DialogCentricMix,
    /// Auxiliary channels.
    Aux,
    Aux0,
    Aux1,
    Aux2,
    Aux3,
    Aux4,
    Aux5,
    Aux6,
    Aux7,
    Aux8,
    Aux9,
    Aux10,
    Aux11,
    Aux12,
    Aux13,
    Aux14,
    Aux15,
}

/// The native engine code of a channel identity.
pub open spec fn code_of_channel_id(id: ChannelId) -> int {
    match id {
        ChannelId::Invalid => 0,
        ChannelId::FrontLeft => 1,
        ChannelId::FrontRight => 2,
        ChannelId::FrontCenter => 3,
        ChannelId::Lfe => 4,
        ChannelId::BackLeft => 5,
        ChannelId::BackRight => 6,
        ChannelId::FrontLeftCenter => 7,
        ChannelId::FrontRightCenter => 8,
        ChannelId::BackCenter => 9,
        ChannelId::SideLeft => 10,
        ChannelId::SideRight => 11,
        ChannelId::TopCenter => 12,
        ChannelId::TopFrontLeft => 13,
        ChannelId::TopFrontCenter => 14,
        ChannelId::TopFrontRight => 15,
        ChannelId::TopBackLeft => 16,
        ChannelId::TopBackCenter => 17,
        ChannelId::TopBackRight => 18,
        ChannelId::BackLeftCenter => 19,
        ChannelId::BackRightCenter => 20,
        ChannelId::FrontLeftWide => 21,
        ChannelId::FrontRightWide => 22,
        ChannelId::FrontLeftHigh => 23,
        ChannelId::FrontCenterHigh => 24,
        ChannelId::FrontRightHigh => 25,
        ChannelId::TopFrontLeftCenter => 26,
        ChannelId::TopFrontRightCenter => 27,
        ChannelId::TopSideLeft => 28,
        ChannelId::TopSideRight => 29,
        ChannelId::LeftLfe => 30,
        ChannelId::RightLfe => 31,
        ChannelId::Lfe2 => 32,
        ChannelId::BottomCenter => 33,
        ChannelId::BottomLeftCenter => 34,
        ChannelId::BottomRightCenter => 35,
        ChannelId::MsMid => 36,
        ChannelId::MsSide => 37,
        ChannelId::AmbisonicW => 38,
        ChannelId::AmbisonicX => 39,
        ChannelId::AmbisonicY => 40,
        ChannelId::AmbisonicZ => 41,
        ChannelId::XyX => 42,
        ChannelId::XyY => 43,
        ChannelId::HeadphonesLeft => 44,
        ChannelId::HeadphonesRight => 45,
        ChannelId::ClickTrack => 46,
        ChannelId::ForeignLanguage => 47,
        ChannelId::HearingImpaired => 48,
        ChannelId::Narration => 49,
        ChannelId::Haptic => 50,
        ChannelId::DialogCentricMix => 51,
        ChannelId::Aux => 52,
        ChannelId::Aux0 => 53,
        ChannelId::Aux1 => 54,
        ChannelId::Aux2 => 55,
        ChannelId::Aux3 => 56,
        ChannelId::Aux4 => 57,
        ChannelId::Aux5 => 58,
        ChannelId::Aux6 => 59,
        ChannelId::Aux7 => 60,
        ChannelId::Aux8 => 61,
        ChannelId::Aux9 => 62,
        ChannelId::Aux10 => 63,
        ChannelId::Aux11 => 64,
        ChannelId::Aux12 => 65,
        ChannelId::Aux13 => 66,
        ChannelId::Aux14 => 67,
        ChannelId::Aux15 => 68,
    }
}

impl ChannelId {
    /// Decode a native engine channel identity code; out-of-range codes
    /// decode to [`ChannelId::Invalid`].
    pub fn from_native(code: i32) -> (id: ChannelId)
        ensures
            1 <= code <= 68 ==> code_of_channel_id(id) == code as int,
            !(1 <= code <= 68) ==> id == ChannelId::Invalid,
    {
        match code {
            1 => ChannelId::FrontLeft,
            2 => ChannelId::FrontRight,
            3 => ChannelId::FrontCenter,
            4 => ChannelId::Lfe,
            5 => ChannelId::BackLeft,
            6 => ChannelId::BackRight,
            7 => ChannelId::FrontLeftCenter,
            8 => ChannelId::FrontRightCenter,
            9 => ChannelId::BackCenter,
            10 => ChannelId::SideLeft,
            11 => ChannelId::SideRight,
            12 => ChannelId::TopCenter,
            13 => ChannelId::TopFrontLeft,
            14 => ChannelId::TopFrontCenter,
            15 => ChannelId::TopFrontRight,
            16 => ChannelId::TopBackLeft,
            17 => ChannelId::TopBackCenter,
            18 => ChannelId::TopBackRight,
            19 => ChannelId::BackLeftCenter,
            20 => ChannelId::BackRightCenter,
            21 => ChannelId::FrontLeftWide,
            22 => ChannelId::FrontRightWide,
            23 => ChannelId::FrontLeftHigh,
            24 => ChannelId::FrontCenterHigh,
            25 => ChannelId::FrontRightHigh,
            26 => ChannelId::TopFrontLeftCenter,
            27 => ChannelId::TopFrontRightCenter,
            28 => ChannelId::TopSideLeft,
            29 => ChannelId::TopSideRight,
            30 => ChannelId::LeftLfe,
            31 => ChannelId::RightLfe,
            32 => ChannelId::Lfe2,
            33 => ChannelId::BottomCenter,
            34 => ChannelId::BottomLeftCenter,
            35 => ChannelId::BottomRightCenter,
            36 => ChannelId::MsMid,
            37 => ChannelId::MsSide,
            38 => ChannelId::AmbisonicW,
            39 => ChannelId::AmbisonicX,
            40 => ChannelId::AmbisonicY,
            41 => ChannelId::AmbisonicZ,
            42 => ChannelId::XyX,
            43 => ChannelId::XyY,
            44 => ChannelId::HeadphonesLeft,
            45 => ChannelId::HeadphonesRight,
            46 => ChannelId::ClickTrack,
            47 => ChannelId::ForeignLanguage,
            48 => ChannelId::HearingImpaired,
            49 => ChannelId::Narration,
            50 => ChannelId::Haptic,
            51 => ChannelId::DialogCentricMix,
            52 => ChannelId::Aux,
            53 => ChannelId::Aux0,
            54 => ChannelId::Aux1,
            55 => ChannelId::Aux2,
            56 => ChannelId::Aux3,
            57 => ChannelId::Aux4,
            58 => ChannelId::Aux5,
            59 => ChannelId::Aux6,
            60 => ChannelId::Aux7,
            61 => ChannelId::Aux8,
            62 => ChannelId::Aux9,
            63 => ChannelId::Aux10,
            64 => ChannelId::Aux11,
            65 => ChannelId::Aux12,
            66 => ChannelId::Aux13,
            67 => ChannelId::Aux14,
            68 => ChannelId::Aux15,
            _ => ChannelId::Invalid,
        }
    }

    /// Encode this channel identity as a native engine code.
    pub fn to_native(self) -> (code: i32)
        ensures
            code as int == code_of_channel_id(self),
    {
        match self {
            ChannelId::Invalid => 0,
            ChannelId::FrontLeft => 1,
            ChannelId::FrontRight => 2,
            ChannelId::FrontCenter => 3,
            ChannelId::Lfe => 4,
            ChannelId::BackLeft => 5,
            ChannelId::BackRight => 6,
            ChannelId::FrontLeftCenter => 7,
            ChannelId::FrontRightCenter => 8,
            ChannelId::BackCenter => 9,
            ChannelId::SideLeft => 10,
            ChannelId::SideRight => 11,
            ChannelId::TopCenter => 12,
            ChannelId::TopFrontLeft => 13,
            ChannelId::TopFrontCenter => 14,
            ChannelId::TopFrontRight => 15,
            ChannelId::TopBackLeft => 16,
            ChannelId::TopBackCenter => 17,
            ChannelId::TopBackRight => 18,
            ChannelId::BackLeftCenter => 19,
            ChannelId::BackRightCenter => 20,
            ChannelId::FrontLeftWide => 21,
            ChannelId::FrontRightWide => 22,
            ChannelId::FrontLeftHigh => 23,
            ChannelId::FrontCenterHigh => 24,
            ChannelId::FrontRightHigh => 25,
            ChannelId::TopFrontLeftCenter => 26,
            ChannelId::TopFrontRightCenter => 27,
            ChannelId::TopSideLeft => 28,
            ChannelId::TopSideRight => 29,
            ChannelId::LeftLfe => 30,
            ChannelId::RightLfe => 31,
            ChannelId::Lfe2 => 32,
            ChannelId::BottomCenter => 33,
            ChannelId::BottomLeftCenter => 34,
            ChannelId::BottomRightCenter => 35,
            ChannelId::MsMid => 36,
            ChannelId::MsSide => 37,
            ChannelId::AmbisonicW => 38,
            ChannelId::AmbisonicX => 39,
            ChannelId::AmbisonicY => 40,
            ChannelId::AmbisonicZ => 41,
            ChannelId::XyX => 42,
            ChannelId::XyY => 43,
            ChannelId::HeadphonesLeft => 44,
            ChannelId::HeadphonesRight => 45,
            ChannelId::ClickTrack => 46,
            ChannelId::ForeignLanguage => 47,
            ChannelId::HearingImpaired => 48,
            ChannelId::Narration => 49,
            ChannelId::Haptic => 50,
            ChannelId::DialogCentricMix => 51,
            ChannelId::Aux => 52,
            ChannelId::Aux0 => 53,
            ChannelId::Aux1 => 54,
            ChannelId::Aux2 => 55,
            ChannelId::Aux3 => 56,
            ChannelId::Aux4 => 57,
            ChannelId::Aux5 => 58,
            ChannelId::Aux6 => 59,
            ChannelId::Aux7 => 60,
            ChannelId::Aux8 => 61,
            ChannelId::Aux9 => 62,
            ChannelId::Aux10 => 63,
            ChannelId::Aux11 => 64,
            ChannelId::Aux12 => 65,
            ChannelId::Aux13 => 66,
            ChannelId::Aux14 => 67,
            ChannelId::Aux15 => 68,
        }
    }
}

/// Decoding the native code of any channel identity yields that identity
/// again.
pub proof fn lemma_channel_id_code_round_trip(id: ChannelId, other: ChannelId)
    ensures
        code_of_channel_id(id) == code_of_channel_id(other) ==> id == other,
        0 <= code_of_channel_id(id) <= 68,
{
}

/// The identifier of one built-in channel layout. Names that would start
/// with a digit carry a leading `C`: `C2Point1` is the 2.1 layout.
#[derive(Debug, Copy, Clone, PartialEq, Eq, Structural)]
pub enum ChannelLayoutId {
    Mono,
    Stereo,
    C2Point1,
    C3Point0,
    C3Point0Back,
    C3Point1,
    C4Point0,
    Quad,
    QuadSide,
    C4Point1,
    C5Point0Back,
    C5Point0Side,
    C5Point1,
    C5Point1Back,
    C6Point0Side,
    C6Point0Front,
    Hexagonal,
    C6Point1,
    C6Point1Back,
    C6Point1Front,
    C7Point0,
    C7Point0Front,
    C7Point1,
    C7Point1Wide,
    C7Point1WideBack,
    Octagonal,
}

/// The native engine code of a built-in layout identifier.
pub open spec fn code_of_layout_id(id: ChannelLayoutId) -> int {
    match id {
        ChannelLayoutId::Mono => 0,
        ChannelLayoutId::Stereo => 1,
        ChannelLayoutId::C2Point1 => 2,
        ChannelLayoutId::C3Point0 => 3,
        ChannelLayoutId::C3Point0Back => 4,
        ChannelLayoutId::C3Point1 => 5,
        ChannelLayoutId::C4Point0 => 6,
        ChannelLayoutId::Quad => 7,
        ChannelLayoutId::QuadSide => 8,
        ChannelLayoutId::C4Point1 => 9,
        ChannelLayoutId::C5Point0Back => 10,
        ChannelLayoutId::C5Point0Side => 11,
        ChannelLayoutId::C5Point1 => 12,
        ChannelLayoutId::C5Point1Back => 13,
        ChannelLayoutId::C6Point0Side => 14,
        ChannelLayoutId::C6Point0Front => 15,
        ChannelLayoutId::Hexagonal => 16,
        ChannelLayoutId::C6Point1 => 17,
        ChannelLayoutId::C6Point1Back => 18,
        ChannelLayoutId::C6Point1Front => 19,
        ChannelLayoutId::C7Point0 => 20,
        ChannelLayoutId::C7Point0Front => 21,
        ChannelLayoutId::C7Point1 => 22,
        ChannelLayoutId::C7Point1Wide => 23,
        ChannelLayoutId::C7Point1WideBack => 24,
        ChannelLayoutId::Octagonal => 25,
    }
}

/// The built-in layout identifier denoted by a native engine code;
/// codes at or past the end of the table denote the last entry.
pub open spec fn layout_id_of_code(code: int) -> ChannelLayoutId {
    if code == 0 {
        ChannelLayoutId::Mono
    } else if code == 1 {
        ChannelLayoutId::Stereo
    } else if code == 2 {
        ChannelLayoutId::C2Point1
    } else if code == 3 {
        ChannelLayoutId::C3Point0
    } else if code == 4 {
        ChannelLayoutId::C3Point0Back
    } else if code == 5 {
        ChannelLayoutId::C3Point1
    } else if code == 6 {
        ChannelLayoutId::C4Point0
    } else if code == 7 {
        ChannelLayoutId::Quad
    } else if code == 8 {
        ChannelLayoutId::QuadSide
    } else if code == 9 {
        ChannelLayoutId::C4Point1
    } else if code == 10 {
        ChannelLayoutId::C5Point0Back
    } else if code == 11 {
        ChannelLayoutId::C5Point0Side
    } else if code == 12 {
        ChannelLayoutId::C5Point1
    } else if code == 13 {
        ChannelLayoutId::C5Point1Back
    } else if code == 14 {
        ChannelLayoutId::C6Point0Side
    } else if code == 15 {
        ChannelLayoutId::C6Point0Front
    } else if code == 16 {
        ChannelLayoutId::Hexagonal
    } else if code == 17 {
        ChannelLayoutId::C6Point1
    } else if code == 18 {
        ChannelLayoutId::C6Point1Back
    } else if code == 19 {
        ChannelLayoutId::C6Point1Front
    } else if code == 20 {
        ChannelLayoutId::C7Point0
    } else if code == 21 {
        ChannelLayoutId::C7Point0Front
    } else if code == 22 {
        ChannelLayoutId::C7Point1
    } else if code == 23 {
        ChannelLayoutId::C7Point1Wide
    } else if code == 24 {
        ChannelLayoutId::C7Point1WideBack
    } else {
        ChannelLayoutId::Octagonal
    }
}

impl ChannelLayoutId {
    /// Decode a native engine layout identifier code. The engine's table
    /// has exactly 26 entries, so any other code is a caller error.
    pub fn from_native(code: i32) -> (id: ChannelLayoutId)
        requires
            0 <= code <= 25,
        ensures
            id == layout_id_of_code(code as int),
            code_of_layout_id(id) == code as int,
    {
        match code {
            0 => ChannelLayoutId::Mono,
            1 => ChannelLayoutId::Stereo,
            2 => ChannelLayoutId::C2Point1,
            3 => ChannelLayoutId::C3Point0,
            4 => ChannelLayoutId::C3Point0Back,
            5 => ChannelLayoutId::C3Point1,
            6 => ChannelLayoutId::C4Point0,
            7 => ChannelLayoutId::Quad,
            8 => ChannelLayoutId::QuadSide,
            9 => ChannelLayoutId::C4Point1,
            10 => ChannelLayoutId::C5Point0Back,
            11 => ChannelLayoutId::C5Point0Side,
            12 => ChannelLayoutId::C5Point1,
            13 => ChannelLayoutId::C5Point1Back,
            14 => ChannelLayoutId::C6Point0Side,
            15 => ChannelLayoutId::C6Point0Front,
            16 => ChannelLayoutId::Hexagonal,
            17 => ChannelLayoutId::C6Point1,
            18 => ChannelLayoutId::C6Point1Back,
            19 => ChannelLayoutId::C6Point1Front,
            20 => ChannelLayoutId::C7Point0,
            21 => ChannelLayoutId::C7Point0Front,
            22 => ChannelLayoutId::C7Point1,
            23 => ChannelLayoutId::C7Point1Wide,
            24 => ChannelLayoutId::C7Point1WideBack,
            _ => ChannelLayoutId::Octagonal,
        }
    }

    /// Encode this layout identifier as a native engine code.
    pub fn to_native(self) -> (code: i32)
        ensures
            code as int == code_of_layout_id(self),
    {
        match self {
            ChannelLayoutId::Mono => 0,
            ChannelLayoutId::Stereo => 1,
            ChannelLayoutId::C2Point1 => 2,
            ChannelLayoutId::C3Point0 => 3,
            ChannelLayoutId::C3Point0Back => 4,
            ChannelLayoutId::C3Point1 => 5,
            ChannelLayoutId::C4Point0 => 6,
            ChannelLayoutId::Quad => 7,
            ChannelLayoutId::QuadSide => 8,
            ChannelLayoutId::C4Point1 => 9,
            ChannelLayoutId::C5Point0Back => 10,
            ChannelLayoutId::C5Point0Side => 11,
            ChannelLayoutId::C5Point1 => 12,
            ChannelLayoutId::C5Point1Back => 13,
            ChannelLayoutId::C6Point0Side => 14,
            ChannelLayoutId::C6Point0Front => 15,
            ChannelLayoutId::Hexagonal => 16,
            ChannelLayoutId::C6Point1 => 17,
            ChannelLayoutId::C6Point1Back => 18,
            ChannelLayoutId::C6Point1Front => 19,
            ChannelLayoutId::C7Point0 => 20,
            ChannelLayoutId::C7Point0Front => 21,
            ChannelLayoutId::C7Point1 => 22,
            ChannelLayoutId::C7Point1Wide => 23,
            ChannelLayoutId::C7Point1WideBack => 24,
            ChannelLayoutId::Octagonal => 25,
        }
    }
}

/// The native codes of the built-in layout identifiers are their positions
/// in the engine's table: encoding and decoding are mutually inverse.
pub proof fn lemma_layout_id_code_round_trip(id: ChannelLayoutId)
    ensures
        layout_id_of_code(code_of_layout_id(id)) == id,
        0 <= code_of_layout_id(id) <= 25,
{
}

} // verus!
