//! Plain-value models of the platform's display-configuration records.
//!
//! The platform exposes a topology as flat arrays of path and mode records
//! plus per-device name queries.  The records are carried here as ordinary
//! structs of integers and strings; the code that fills them from the
//! platform lives outside the crate.

use vstd::prelude::*;

verus! {

/// Query flag: enumerate every path the adapters support.
pub const QDC_ALL_PATHS: u32 = 1;
/// Query flag: enumerate only the currently active paths.
pub const QDC_ONLY_ACTIVE_PATHS: u32 = 2;
/// Query flag: enumerate the topology stored in the database.
pub const QDC_DATABASE_CURRENT: u32 = 4;

/// Path flag: the path is active.
pub const DISPLAYCONFIG_PATH_ACTIVE: u32 = 1;
/// Path flag: the path carries a virtual-mode topology extension.
pub const DISPLAYCONFIG_PATH_SUPPORT_VIRTUAL_MODE: u32 = 8;
/// Source status flag: the source is in use by at least one active path.
pub const DISPLAYCONFIG_SOURCE_IN_USE: u32 = 1;
/// Target status flag: the target is in use on an active path.
pub const DISPLAYCONFIG_TARGET_IN_USE: u32 = 1;

/// Device-name flag bit: the friendly name comes from the EDID.
pub const TARGET_DEVICE_NAME_FLAG_FRIENDLY_NAME_FROM_EDID: u32 = 1;
/// Device-name flag bit: the friendly name was forced by the driver.
pub const TARGET_DEVICE_NAME_FLAG_FRIENDLY_NAME_FORCED: u32 = 2;
/// Device-name flag bit: the EDID manufacture and product ids are valid.
pub const TARGET_DEVICE_NAME_FLAG_EDID_IDS_VALID: u32 = 4;

/// Which set of paths a topology query should enumerate.
#[derive(Debug, Clone, Copy, PartialEq, Eq, Structural)]
pub enum DisplayQueryType {
    All,
    Active,
    Database,
}

impl DisplayQueryType {
    /// The platform query flag that selects this enumeration.
    pub open spec fn spec_to_flags(self) -> u32 {
        match self {
            DisplayQueryType::All => QDC_ALL_PATHS,
            DisplayQueryType::Active => QDC_ONLY_ACTIVE_PATHS,
            DisplayQueryType::Database => QDC_DATABASE_CURRENT,
        }
    }

    pub fn to_flags(self) -> (r: u32)
        ensures
            r == self.spec_to_flags(),
    {
        match self {
            DisplayQueryType::All => QDC_ALL_PATHS,
            DisplayQueryType::Active => QDC_ONLY_ACTIVE_PATHS,
            DisplayQueryType::Database => QDC_DATABASE_CURRENT,
        }
    }
}

/// A locally unique adapter identifier, valid only within one boot.
#[derive(Debug, Clone, Copy, PartialEq, Eq, Hash, Structural)]
pub struct LuidWrapper {
    pub low_part: u32,
    pub high_part: i32,
}

/// A device id qualified by the adapter that owns it.
#[derive(Debug, Clone, Copy, PartialEq, Eq, Hash, Structural)]
pub struct IdAndAdapterId {
    pub id: u32,
    pub adapter_id: LuidWrapper,
}

/// A rational number, used for sync frequencies and refresh rates.
#[derive(Debug, Clone, Copy, PartialEq, Eq, Structural)]
pub struct Rational {
    pub numerator: u32,
    pub denominator: u32,
}

/// A width and height in pixels.
#[derive(Debug, Clone, Copy, PartialEq, Eq, Structural)]
pub struct Region {
    pub x: u32,
    pub y: u32,
}

/// A point or offset in desktop space.
#[derive(Debug, Clone, Copy, PartialEq, Eq, Structural)]
pub struct Point {
    pub x: i32,
    pub y: i32,
}

/// The connector class of a target device.
///
/// `Other` carries any platform value that no named variant covers,
/// including the platform's own "other" value.
#[derive(Debug, Clone, Copy, PartialEq, Eq, Structural)]
pub enum OutputTechnology {
    Hd15,
    SVideo,
    CompositeVideo,
    ComponentVideo,
    Dvi,
    Hdmi,
    Lvds,
    Djpn,
    Sdi,
    DisplayPortExternal,
    DisplayPortEmbedded,
    UdiExternal,
    UdiEmbedded,
    SdtvDongle,
    Miracast,
    IndirectWired,
    IndirectVirtual,
    DisplayPortUsbTunnel,
    Internal,
    Other(i32),
}

impl OutputTechnology {
    /// The platform value this variant stands for.
    pub open spec fn spec_discriminant(self) -> i32 {
        match self {
            OutputTechnology::Hd15 => 0,
            OutputTechnology::SVideo => 1,
            OutputTechnology::CompositeVideo => 2,
            OutputTechnology::ComponentVideo => 3,
            OutputTechnology::Dvi => 4,
            OutputTechnology::Hdmi => 5,
            OutputTechnology::Lvds => 6,
            OutputTechnology::Djpn => 8,
            OutputTechnology::Sdi => 9,
            OutputTechnology::DisplayPortExternal => 10,
            OutputTechnology::DisplayPortEmbedded => 11,
            OutputTechnology::UdiExternal => 12,
            OutputTechnology::UdiEmbedded => 13,
            OutputTechnology::SdtvDongle => 14,
            OutputTechnology::Miracast => 15,
            OutputTechnology::IndirectWired => 16,
            OutputTechnology::IndirectVirtual => 17,
            OutputTechnology::DisplayPortUsbTunnel => 18,
            OutputTechnology::Internal => i32::MIN,
            OutputTechnology::Other(v) => v,
        }
    }

    /// The variant that stands for a platform value.
    pub open spec fn spec_from_discriminant(v: i32) -> OutputTechnology {
        if v == 0 {
            OutputTechnology::Hd15
        } else if v == 1 {
            OutputTechnology::SVideo
        } else if v == 2 {
            OutputTechnology::CompositeVideo
        } else if v == 3 {
            OutputTechnology::ComponentVideo
        } else if v == 4 {
            OutputTechnology::Dvi
        } else if v == 5 {
            OutputTechnology::Hdmi
        } else if v == 6 {
            OutputTechnology::Lvds
        } else if v == 8 {
            OutputTechnology::Djpn
        } else if v == 9 {
            OutputTechnology::Sdi
        } else if v == 10 {
            OutputTechnology::DisplayPortExternal
        } else if v == 11 {
            OutputTechnology::DisplayPortEmbedded
        } else if v == 12 {
            OutputTechnology::UdiExternal
        } else if v == 13 {
            OutputTechnology::UdiEmbedded
        } else if v == 14 {
            OutputTechnology::SdtvDongle
        } else if v == 15 {
            OutputTechnology::Miracast
        } else if v == 16 {
            OutputTechnology::IndirectWired
        } else if v == 17 {
            OutputTechnology::IndirectVirtual
        } else if v == 18 {
            OutputTechnology::DisplayPortUsbTunnel
        } else if v == i32::MIN {
            OutputTechnology::Internal
        } else {
            OutputTechnology::Other(v)
        }
    }

    pub fn discriminant(self) -> (r: i32)
        ensures
            r == self.spec_discriminant(),
    {
        match self {
            OutputTechnology::Hd15 => 0,
            OutputTechnology::SVideo => 1,
            OutputTechnology::CompositeVideo => 2,
            OutputTechnology::ComponentVideo => 3,
            OutputTechnology::Dvi => 4,
            OutputTechnology::Hdmi => 5,
            OutputTechnology::Lvds => 6,
            OutputTechnology::Djpn => 8,
            OutputTechnology::Sdi => 9,
            OutputTechnology::DisplayPortExternal => 10,
            OutputTechnology::DisplayPortEmbedded => 11,
            OutputTechnology::UdiExternal => 12,
            OutputTechnology::UdiEmbedded => 13,
            OutputTechnology::SdtvDongle => 14,
            OutputTechnology::Miracast => 15,
            OutputTechnology::IndirectWired => 16,
            OutputTechnology::IndirectVirtual => 17,
            OutputTechnology::DisplayPortUsbTunnel => 18,
            OutputTechnology::Internal => i32::MIN,
            OutputTechnology::Other(v) => v,
        }
    }

    pub fn from_discriminant(v: i32) -> (r: OutputTechnology)
        ensures
            r == OutputTechnology::spec_from_discriminant(v),
    {
        if v == 0 {
            OutputTechnology::Hd15
        } else if v == 1 {
            OutputTechnology::SVideo
        } else if v == 2 {
            OutputTechnology::CompositeVideo
        } else if v == 3 {
            OutputTechnology::ComponentVideo
        } else if v == 4 {
            OutputTechnology::Dvi
        } else if v == 5 {
            OutputTechnology::Hdmi
        } else if v == 6 {
            OutputTechnology::Lvds
        } else if v == 8 {
            OutputTechnology::Djpn
        } else if v == 9 {
            OutputTechnology::Sdi
        } else if v == 10 {
            OutputTechnology::DisplayPortExternal
        } else if v == 11 {
            OutputTechnology::DisplayPortEmbedded
        } else if v == 12 {
            OutputTechnology::UdiExternal
        } else if v == 13 {
            OutputTechnology::UdiEmbedded
        } else if v == 14 {
            OutputTechnology::SdtvDongle
        } else if v == 15 {
            OutputTechnology::Miracast
        } else if v == 16 {
            OutputTechnology::IndirectWired
        } else if v == 17 {
            OutputTechnology::IndirectVirtual
        } else if v == 18 {
            OutputTechnology::DisplayPortUsbTunnel
        } else if v == i32::MIN {
            OutputTechnology::Internal
        } else {
            OutputTechnology::Other(v)
        }
    }
}

/// Reading a platform value and writing it back preserves the value, even
/// for connector classes this crate does not name.
pub proof fn lemma_output_technology_value_round_trip(v: i32)
    ensures
        OutputTechnology::spec_from_discriminant(v).spec_discriminant() == v,
{
}

/// The clockwise rotation applied on a path.
#[derive(Debug, Clone, Copy, PartialEq, Eq, Structural)]
pub enum DisplayRotation {
    Identity,
    Rotate90,
    Rotate180,
    Rotate270,
    Unknown(i32),
}

impl DisplayRotation {
    /// The platform value this variant stands for.
    pub open spec fn spec_discriminant(self) -> i32 {
        match self {
            DisplayRotation::Identity => 1,
            DisplayRotation::Rotate90 => 2,
            DisplayRotation::Rotate180 => 3,
            DisplayRotation::Rotate270 => 4,
            DisplayRotation::Unknown(v) => v,
        }
    }

    /// The variant that stands for a platform value.
    pub open spec fn spec_from_discriminant(v: i32) -> DisplayRotation {
        if v == 1 {
            DisplayRotation::Identity
        } else if v == 2 {
            DisplayRotation::Rotate90
        } else if v == 3 {
            DisplayRotation::Rotate180
        } else if v == 4 {
            DisplayRotation::Rotate270
        } else {
            DisplayRotation::Unknown(v)
        }
    }

    pub fn discriminant(self) -> (r: i32)
        ensures
            r == self.spec_discriminant(),
    {
        match self {
            DisplayRotation::Identity => 1,
            DisplayRotation::Rotate90 => 2,
            DisplayRotation::Rotate180 => 3,
            DisplayRotation::Rotate270 => 4,
            DisplayRotation::Unknown(v) => v,
        }
    }

    pub fn from_discriminant(v: i32) -> (r: DisplayRotation)
        ensures
            r == DisplayRotation::spec_from_discriminant(v),
    {
        if v == 1 {
            DisplayRotation::Identity
        } else if v == 2 {
            DisplayRotation::Rotate90
        } else if v == 3 {
            DisplayRotation::Rotate180
        } else if v == 4 {
            DisplayRotation::Rotate270
        } else {
            DisplayRotation::Unknown(v)
        }
    }
}

/// Reading a platform rotation value and writing it back preserves it.
pub proof fn lemma_rotation_value_round_trip(v: i32)
    ensures
        DisplayRotation::spec_from_discriminant(v).spec_discriminant() == v,
{
}

/// The scaling transformation applied on a path.
#[derive(Debug, Clone, Copy, PartialEq, Eq, Structural)]
pub enum DisplayScaling {
    Identity,
    Centered,
    Stretched,
    AspectRatioCenteredMax,
    Custom,
    Preferred,
    Unknown(i32),
}

impl DisplayScaling {
    /// The platform value this variant stands for.
    pub open spec fn spec_discriminant(self) -> i32 {
        match self {
            DisplayScaling::Identity => 1,
            DisplayScaling::Centered => 2,
            DisplayScaling::Stretched => 3,
            DisplayScaling::AspectRatioCenteredMax => 4,
            DisplayScaling::Custom => 5,
            DisplayScaling::Preferred => 128,
            DisplayScaling::Unknown(v) => v,
        }
    }

    /// The variant that stands for a platform value.
    pub open spec fn spec_from_discriminant(v: i32) -> DisplayScaling {
        if v == 1 {
            DisplayScaling::Identity
        } else if v == 2 {
            DisplayScaling::Centered
        } else if v == 3 {
            DisplayScaling::Stretched
        } else if v == 4 {
            DisplayScaling::AspectRatioCenteredMax
        } else if v == 5 {
            DisplayScaling::Custom
        } else if v == 128 {
            DisplayScaling::Preferred
        } else {
            DisplayScaling::Unknown(v)
        }
    }

    pub fn discriminant(self) -> (r: i32)
        ensures
            r == self.spec_discriminant(),
    {
        match self {
            DisplayScaling::Identity => 1,
            DisplayScaling::Centered => 2,
            DisplayScaling::Stretched => 3,
            DisplayScaling::AspectRatioCenteredMax => 4,
            DisplayScaling::Custom => 5,
            DisplayScaling::Preferred => 128,
            DisplayScaling::Unknown(v) => v,
        }
    }

    pub fn from_discriminant(v: i32) -> (r: DisplayScaling)
        ensures
            r == DisplayScaling::spec_from_discriminant(v),
    {
        if v == 1 {
            DisplayScaling::Identity
        } else if v == 2 {
            DisplayScaling::Centered
        } else if v == 3 {
            DisplayScaling::Stretched
        } else if v == 4 {
            DisplayScaling::AspectRatioCenteredMax
        } else if v == 5 {
            DisplayScaling::Custom
        } else if v == 128 {
            DisplayScaling::Preferred
        } else {
            DisplayScaling::Unknown(v)
        }
    }
}

/// Reading a platform scaling value and writing it back preserves it.
pub proof fn lemma_scaling_value_round_trip(v: i32)
    ensures
        DisplayScaling::spec_from_discriminant(v).spec_discriminant() == v,
{
}

/// The timing standard of a target's video signal.
#[derive(Debug, Clone, Copy, PartialEq, Eq, Structural)]
pub enum VideoStandard {
    Uninitialized,
    VesaDmt,
    VesaGtf,
    VesaCvt,
    Ibm,
    Apple,
    NtscM,
    NtscJ,
    Ntsc443,
    PalB,
    PalB1,
    PalG,
    PalH,
    PalI,
    PalD,
    PalN,
    PalNC,
    SecamB,
    SecamD,
    SecamG,
    SecamH,
    SecamK,
    SecamK1,
    SecamL,
    SecamL1,
    Eia861,
    Eia861A,
    Eia861B,
    PalK,
    PalK1,
    PalL,
    PalM,
    Other(i32),
}

impl VideoStandard {
    /// The platform value this variant stands for.
    pub open spec fn spec_discriminant(self) -> i32 {
        match self {
            VideoStandard::Uninitialized => 0,
            VideoStandard::VesaDmt => 1,
            VideoStandard::VesaGtf => 2,
            VideoStandard::VesaCvt => 3,
            VideoStandard::Ibm => 4,
            VideoStandard::Apple => 5,
            VideoStandard::NtscM => 6,
            VideoStandard::NtscJ => 7,
            VideoStandard::Ntsc443 => 8,
            VideoStandard::PalB => 9,
            VideoStandard::PalB1 => 10,
            VideoStandard::PalG => 11,
            VideoStandard::PalH => 12,
            VideoStandard::PalI => 13,
            VideoStandard::PalD => 14,
            VideoStandard::PalN => 15,
            VideoStandard::PalNC => 16,
            VideoStandard::SecamB => 17,
            VideoStandard::SecamD => 18,
            VideoStandard::SecamG => 19,
            VideoStandard::SecamH => 20,
            VideoStandard::SecamK => 21,
            VideoStandard::SecamK1 => 22,
            VideoStandard::SecamL => 23,
            VideoStandard::SecamL1 => 24,
            VideoStandard::Eia861 => 25,
            VideoStandard::Eia861A => 26,
            VideoStandard::Eia861B => 27,
            VideoStandard::PalK => 28,
            VideoStandard::PalK1 => 29,
            VideoStandard::PalL => 30,
            VideoStandard::PalM => 31,
            VideoStandard::Other(v) => v,
        }
    }

    /// The variant that stands for a platform value.
    pub open spec fn spec_from_discriminant(v: i32) -> VideoStandard {
        if v == 0 {
            VideoStandard::Uninitialized
        } else if v == 1 {
            VideoStandard::VesaDmt
        } else if v == 2 {
            VideoStandard::VesaGtf
        } else if v == 3 {
            VideoStandard::VesaCvt
        } else if v == 4 {
            VideoStandard::Ibm
        } else if v == 5 {
            VideoStandard::Apple
        } else if v == 6 {
            VideoStandard::NtscM
        } else if v == 7 {
            VideoStandard::NtscJ
        } else if v == 8 {
            VideoStandard::Ntsc443
        } else if v == 9 {
            VideoStandard::PalB
        } else if v == 10 {
            VideoStandard::PalB1
        } else if v == 11 {
            VideoStandard::PalG
        } else if v == 12 {
            VideoStandard::PalH
        } else if v == 13 {
            VideoStandard::PalI
        } else if v == 14 {
            VideoStandard::PalD
        } else if v == 15 {
            VideoStandard::PalN
        } else if v == 16 {
            VideoStandard::PalNC
        } else if v == 17 {
            VideoStandard::SecamB
        } else if v == 18 {
            VideoStandard::SecamD
        } else if v == 19 {
            VideoStandard::SecamG
        } else if v == 20 {
            VideoStandard::SecamH
        } else if v == 21 {
            VideoStandard::SecamK
        } else if v == 22 {
            VideoStandard::SecamK1
        } else if v == 23 {
            VideoStandard::SecamL
        } else if v == 24 {
            VideoStandard::SecamL1
        } else if v == 25 {
            VideoStandard::Eia861
        } else if v == 26 {
            VideoStandard::Eia861A
        } else if v == 27 {
            VideoStandard::Eia861B
        } else if v == 28 {
            VideoStandard::PalK
        } else if v == 29 {
            VideoStandard::PalK1
        } else if v == 30 {
            VideoStandard::PalL
        } else if v == 31 {
            VideoStandard::PalM
        } else {
            VideoStandard::Other(v)
        }
    }

    pub fn discriminant(self) -> (r: i32)
        ensures
            r == self.spec_discriminant(),
    {
        match self {
            VideoStandard::Uninitialized => 0,
            VideoStandard::VesaDmt => 1,
            VideoStandard::VesaGtf => 2,
            VideoStandard::VesaCvt => 3,
            VideoStandard::Ibm => 4,
            VideoStandard::Apple => 5,
            VideoStandard::NtscM => 6,
            VideoStandard::NtscJ => 7,
            VideoStandard::Ntsc443 => 8,
            VideoStandard::PalB => 9,
            VideoStandard::PalB1 => 10,
            VideoStandard::PalG => 11,
            VideoStandard::PalH => 12,
            VideoStandard::PalI => 13,
            VideoStandard::PalD => 14,
            VideoStandard::PalN => 15,
            VideoStandard::PalNC => 16,
            VideoStandard::SecamB => 17,
            VideoStandard::SecamD => 18,
            VideoStandard::SecamG => 19,
            VideoStandard::SecamH => 20,
            VideoStandard::SecamK => 21,
            VideoStandard::SecamK1 => 22,
            VideoStandard::SecamL => 23,
            VideoStandard::SecamL1 => 24,
            VideoStandard::Eia861 => 25,
            VideoStandard::Eia861A => 26,
            VideoStandard::Eia861B => 27,
            VideoStandard::PalK => 28,
            VideoStandard::PalK1 => 29,
            VideoStandard::PalL => 30,
            VideoStandard::PalM => 31,
            VideoStandard::Other(v) => v,
        }
    }

    pub fn from_discriminant(v: i32) -> (r: VideoStandard)
        ensures
            r == VideoStandard::spec_from_discriminant(v),
    {
        if v == 0 {
            VideoStandard::Uninitialized
        } else if v == 1 {
            VideoStandard::VesaDmt
        } else if v == 2 {
            VideoStandard::VesaGtf
        } else if v == 3 {
            VideoStandard::VesaCvt
        } else if v == 4 {
            VideoStandard::Ibm
        } else if v == 5 {
            VideoStandard::Apple
        } else if v == 6 {
            VideoStandard::NtscM
        } else if v == 7 {
            VideoStandard::NtscJ
        } else if v == 8 {
            VideoStandard::Ntsc443
        } else if v == 9 {
            VideoStandard::PalB
        } else if v == 10 {
            VideoStandard::PalB1
        } else if v == 11 {
            VideoStandard::PalG
        } else if v == 12 {
            VideoStandard::PalH
        } else if v == 13 {
            VideoStandard::PalI
        } else if v == 14 {
            VideoStandard::PalD
        } else if v == 15 {
            VideoStandard::PalN
        } else if v == 16 {
            VideoStandard::PalNC
        } else if v == 17 {
            VideoStandard::SecamB
        } else if v == 18 {
            VideoStandard::SecamD
        } else if v == 19 {
            VideoStandard::SecamG
        } else if v == 20 {
            VideoStandard::SecamH
        } else if v == 21 {
            VideoStandard::SecamK
        } else if v == 22 {
            VideoStandard::SecamK1
        } else if v == 23 {
            VideoStandard::SecamL
        } else if v == 24 {
            VideoStandard::SecamL1
        } else if v == 25 {
            VideoStandard::Eia861
        } else if v == 26 {
            VideoStandard::Eia861A
        } else if v == 27 {
            VideoStandard::Eia861B
        } else if v == 28 {
            VideoStandard::PalK
        } else if v == 29 {
            VideoStandard::PalK1
        } else if v == 30 {
            VideoStandard::PalL
        } else if v == 31 {
            VideoStandard::PalM
        } else {
            VideoStandard::Other(v)
        }
    }
}

/// Reading a platform video-standard value and writing it back preserves it.
pub proof fn lemma_video_standard_value_round_trip(v: i32)
    ensures
        VideoStandard::spec_from_discriminant(v).spec_discriminant() == v,
{
}

/// How the display draws scan lines.
#[derive(Debug, Clone, Copy, PartialEq, Eq, Structural)]
pub enum ScanlineOrdering {
    Unspecified,
    Progressive,
    InterlacedUpperFieldFirst,
    InterlacedLowerFieldFirst,
    Unknown(i32),
}

impl ScanlineOrdering {
    /// The platform value this variant stands for.
    pub open spec fn spec_discriminant(self) -> i32 {
        match self {
            ScanlineOrdering::Unspecified => 0,
            ScanlineOrdering::Progressive => 1,
            ScanlineOrdering::InterlacedUpperFieldFirst => 2,
            ScanlineOrdering::InterlacedLowerFieldFirst => 3,
            ScanlineOrdering::Unknown(v) => v,
        }
    }

    /// The variant that stands for a platform value.
    pub open spec fn spec_from_discriminant(v: i32) -> ScanlineOrdering {
        if v == 0 {
            ScanlineOrdering::Unspecified
        } else if v == 1 {
            ScanlineOrdering::Progressive
        } else if v == 2 {
            ScanlineOrdering::InterlacedUpperFieldFirst
        } else if v == 3 {
            ScanlineOrdering::InterlacedLowerFieldFirst
        } else {
            ScanlineOrdering::Unknown(v)
        }
    }

    pub fn discriminant(self) -> (r: i32)
        ensures
            r == self.spec_discriminant(),
    {
        match self {
            ScanlineOrdering::Unspecified => 0,
            ScanlineOrdering::Progressive => 1,
            ScanlineOrdering::InterlacedUpperFieldFirst => 2,
            ScanlineOrdering::InterlacedLowerFieldFirst => 3,
            ScanlineOrdering::Unknown(v) => v,
        }
    }

    pub fn from_discriminant(v: i32) -> (r: ScanlineOrdering)
        ensures
            r == ScanlineOrdering::spec_from_discriminant(v),
    {
        if v == 0 {
            ScanlineOrdering::Unspecified
        } else if v == 1 {
            ScanlineOrdering::Progressive
        } else if v == 2 {
            ScanlineOrdering::InterlacedUpperFieldFirst
        } else if v == 3 {
            ScanlineOrdering::InterlacedLowerFieldFirst
        } else {
            ScanlineOrdering::Unknown(v)
        }
    }
}

/// Reading a platform scan-line value and writing it back preserves it.
pub proof fn lemma_scanline_ordering_value_round_trip(v: i32)
    ensures
        ScanlineOrdering::spec_from_discriminant(v).spec_discriminant() == v,
{
}

/// The pixel format of a source's desktop surface.
#[derive(Debug, Clone, Copy, PartialEq, Eq, Structural)]
pub enum PixelFormat {
    Bpp8,
    Bpp16,
    Bpp24,
    Bpp32,
    Nongdi,
    Unknown(i32),
}

impl PixelFormat {
    /// The platform value this variant stands for.
    pub open spec fn spec_discriminant(self) -> i32 {
        match self {
            PixelFormat::Bpp8 => 1,
            PixelFormat::Bpp16 => 2,
            PixelFormat::Bpp24 => 3,
            PixelFormat::Bpp32 => 4,
            PixelFormat::Nongdi => 5,
            PixelFormat::Unknown(v) => v,
        }
    }

    /// The variant that stands for a platform value.
    pub open spec fn spec_from_discriminant(v: i32) -> PixelFormat {
        if v == 1 {
            PixelFormat::Bpp8
        } else if v == 2 {
            PixelFormat::Bpp16
        } else if v == 3 {
            PixelFormat::Bpp24
        } else if v == 4 {
            PixelFormat::Bpp32
        } else if v == 5 {
            PixelFormat::Nongdi
        } else {
            PixelFormat::Unknown(v)
        }
    }

    pub fn discriminant(self) -> (r: i32)
        ensures
            r == self.spec_discriminant(),
    {
        match self {
            PixelFormat::Bpp8 => 1,
            PixelFormat::Bpp16 => 2,
            PixelFormat::Bpp24 => 3,
            PixelFormat::Bpp32 => 4,
            PixelFormat::Nongdi => 5,
            PixelFormat::Unknown(v) => v,
        }
    }

    pub fn from_discriminant(v: i32) -> (r: PixelFormat)
        ensures
            r == PixelFormat::spec_from_discriminant(v),
    {
        if v == 1 {
            PixelFormat::Bpp8
        } else if v == 2 {
            PixelFormat::Bpp16
        } else if v == 3 {
            PixelFormat::Bpp24
        } else if v == 4 {
            PixelFormat::Bpp32
        } else if v == 5 {
            PixelFormat::Nongdi
        } else {
            PixelFormat::Unknown(v)
        }
    }
}

/// Reading a platform pixel-format value and writing it back preserves it.
pub proof fn lemma_pixel_format_value_round_trip(v: i32)
    ensures
        PixelFormat::spec_from_discriminant(v).spec_discriminant() == v,
{
}

/// The diagnostic name of a connector class, with the raw value spelled
/// out for classes this crate does not name.
pub open spec fn spec_output_technology_name(t: OutputTechnology) -> Seq<char> {
    match t {
        OutputTechnology::Hd15 => "Hd15"@,
        OutputTechnology::SVideo => "SVideo"@,
        OutputTechnology::CompositeVideo => "CompositeVideo"@,
        OutputTechnology::ComponentVideo => "ComponentVideo"@,
        OutputTechnology::Dvi => "Dvi"@,
        OutputTechnology::Hdmi => "Hdmi"@,
        OutputTechnology::Lvds => "Lvds"@,
        OutputTechnology::Djpn => "Djpn"@,
        OutputTechnology::Sdi => "Sdi"@,
        OutputTechnology::DisplayPortExternal => "DisplayPortExternal"@,
        OutputTechnology::DisplayPortEmbedded => "DisplayPortEmbedded"@,
        OutputTechnology::UdiExternal => "UdiExternal"@,
        OutputTechnology::UdiEmbedded => "UdiEmbedded"@,
        OutputTechnology::SdtvDongle => "SdtvDongle"@,
        OutputTechnology::Miracast => "Miracast"@,
        OutputTechnology::IndirectWired => "IndirectWired"@,
        OutputTechnology::IndirectVirtual => "IndirectVirtual"@,
        OutputTechnology::DisplayPortUsbTunnel => "DisplayPortUsbTunnel"@,
        OutputTechnology::Internal => "Internal"@,
        OutputTechnology::Other(v) => "Other("@ + crate::strfmt::int_digits(v as int) + ")"@,
    }
}

/// The diagnostic name of a raw connector-class value.
pub fn format_output_technology(output_technology: i32) -> (s: String)
    ensures
        s@ == spec_output_technology_name(
            OutputTechnology::spec_from_discriminant(output_technology),
        ),
{
    let t = OutputTechnology::from_discriminant(output_technology);
    match t {
        OutputTechnology::Hd15 => "Hd15".to_owned(),
        OutputTechnology::SVideo => "SVideo".to_owned(),
        OutputTechnology::CompositeVideo => "CompositeVideo".to_owned(),
        OutputTechnology::ComponentVideo => "ComponentVideo".to_owned(),
        OutputTechnology::Dvi => "Dvi".to_owned(),
        OutputTechnology::Hdmi => "Hdmi".to_owned(),
        OutputTechnology::Lvds => "Lvds".to_owned(),
        OutputTechnology::Djpn => "Djpn".to_owned(),
        OutputTechnology::Sdi => "Sdi".to_owned(),
        OutputTechnology::DisplayPortExternal => "DisplayPortExternal".to_owned(),
        OutputTechnology::DisplayPortEmbedded => "DisplayPortEmbedded".to_owned(),
        OutputTechnology::UdiExternal => "UdiExternal".to_owned(),
        OutputTechnology::UdiEmbedded => "UdiEmbedded".to_owned(),
        OutputTechnology::SdtvDongle => "SdtvDongle".to_owned(),
        OutputTechnology::Miracast => "Miracast".to_owned(),
        OutputTechnology::IndirectWired => "IndirectWired".to_owned(),
        OutputTechnology::IndirectVirtual => "IndirectVirtual".to_owned(),
        OutputTechnology::DisplayPortUsbTunnel => "DisplayPortUsbTunnel".to_owned(),
        OutputTechnology::Internal => "Internal".to_owned(),
        OutputTechnology::Other(v) => {
            let mut s = "Other(".to_owned();
            let digits = crate::strfmt::i32_to_string(v);
            s.append(digits.as_str());
            s.append(")");
            proof {
                assert(s@ =~= "Other("@ + crate::strfmt::int_digits(v as int) + ")"@);
            }
            s
        },
    }
}

/// The decimal rendering of a frequency in millihertz: the integer part,
/// then up to three fractional digits with trailing zeros dropped.
pub open spec fn spec_frequency_decimal(milli: int) -> Seq<char> {
    let ip = milli / 1000;
    let frac = milli % 1000;
    if frac == 0 {
        crate::strfmt::dec_digits(ip as nat)
    } else {
        let d1 = frac / 100;
        let d2 = (frac / 10) % 10;
        let d3 = frac % 10;
        if d3 == 0 && d2 == 0 {
            crate::strfmt::dec_digits(ip as nat) + "."@ + crate::strfmt::dec_digits(d1 as nat)
        } else if d3 == 0 {
            crate::strfmt::dec_digits(ip as nat) + "."@ + crate::strfmt::dec_digits(d1 as nat)
                + crate::strfmt::dec_digits(d2 as nat)
        } else {
            crate::strfmt::dec_digits(ip as nat) + "."@ + crate::strfmt::dec_digits(d1 as nat)
                + crate::strfmt::dec_digits(d2 as nat) + crate::strfmt::dec_digits(d3 as nat)
        }
    }
}

/// The diagnostic rendering of a rational frequency: the raw fraction
/// for a zero denominator, the plain numerator for a denominator of
/// one, and otherwise the value in hertz truncated to three decimals
/// with the fraction spelled out after it.
pub open spec fn spec_format_rational_frequency(r: Rational) -> Seq<char> {
    if r.denominator == 0 {
        crate::strfmt::dec_digits(r.numerator as nat) + "/"@ + crate::strfmt::dec_digits(
            r.denominator as nat,
        )
    } else if r.denominator == 1 {
        crate::strfmt::dec_digits(r.numerator as nat) + "Hz"@
    } else {
        spec_frequency_decimal((r.numerator as int) * 1000 / (r.denominator as int)) + "Hz ("@
            + crate::strfmt::dec_digits(r.numerator as nat) + "/"@ + crate::strfmt::dec_digits(
            r.denominator as nat,
        ) + ")"@
    }
}

/// Renders a rational frequency for diagnostics.
pub fn format_rational_frequency(rational: Rational) -> (s: String)
    ensures
        s@ == spec_format_rational_frequency(rational),
{
    if rational.denominator == 0 {
        let mut s = crate::strfmt::u64_to_string(rational.numerator as u64);
        s.append("/");
        let den = crate::strfmt::u64_to_string(rational.denominator as u64);
        s.append(den.as_str());
        proof {
            assert(s@ =~= spec_format_rational_frequency(rational));
        }
        s
    } else if rational.denominator == 1 {
        let mut s = crate::strfmt::u64_to_string(rational.numerator as u64);
        s.append("Hz");
        proof {
            assert(s@ =~= spec_format_rational_frequency(rational));
        }
        s
    } else {
        let milli = (rational.numerator as u64 * 1000) / (rational.denominator as u64);
        let integer_part = milli / 1000;
        let frac = milli % 1000;
        let mut s = crate::strfmt::u64_to_string(integer_part);
        if frac != 0 {
            s.append(".");
            let d1 = frac / 100;
            let d2 = (frac / 10) % 10;
            let d3 = frac % 10;
            crate::strfmt::push_u64_digits(d1, &mut s);
            if d2 != 0 || d3 != 0 {
                crate::strfmt::push_u64_digits(d2, &mut s);
                if d3 != 0 {
                    crate::strfmt::push_u64_digits(d3, &mut s);
                }
            }
        }
        s.append("Hz (");
        crate::strfmt::push_u64_digits(rational.numerator as u64, &mut s);
        s.append("/");
        crate::strfmt::push_u64_digits(rational.denominator as u64, &mut s);
        s.append(")");
        proof {
            assert(milli == (rational.numerator as int) * 1000 / (rational.denominator as int));
            assert(s@ =~= spec_format_rational_frequency(rational));
        }
        s
    }
}

/// The video standard held in bits 0 through 15 of the packed
/// additional-signal-info field of a native target mode.
pub open spec fn spec_unpack_video_standard(field: u32) -> i32 {
    (field & 0xFFFF) as i32
}

/// The vertical-sync divisor held in bits 16 through 21 of the packed
/// additional-signal-info field of a native target mode.
pub open spec fn spec_unpack_v_sync_freq_divider(field: u32) -> u32 {
    (field >> 16) & 0x3F
}

/// The packed additional-signal-info field: the video standard in bits 0
/// through 15, the vertical-sync divisor in bits 16 through 21, the
/// reserved upper bits zero.
pub open spec fn spec_pack_additional_signal_info(video_standard: i32, divider: u32) -> u32 {
    ((video_standard as u32) & 0xFFFF) | ((divider & 0x3F) << 16)
}

pub fn unpack_video_standard(field: u32) -> (r: i32)
    ensures
        r == spec_unpack_video_standard(field),
{
    (field & 0xFFFF) as i32
}

pub fn unpack_v_sync_freq_divider(field: u32) -> (r: u32)
    ensures
        r == spec_unpack_v_sync_freq_divider(field),
{
    (field >> 16) & 0x3F
}

pub fn pack_additional_signal_info(video_standard: i32, divider: u32) -> (r: u32)
    ensures
        r == spec_pack_additional_signal_info(video_standard, divider),
{
    (#[verifier::truncate] (video_standard as u32) & 0xFFFF) | ((divider & 0x3F) << 16)
}

/// Packing a video standard and divisor that fit their bit ranges and
/// unpacking the result gives the two values back.
pub proof fn lemma_signal_info_pack_then_unpack(video_standard: i32, divider: u32)
    requires
        0 <= video_standard < 0x10000,
        divider < 0x40,
    ensures
        spec_unpack_video_standard(spec_pack_additional_signal_info(video_standard, divider))
            == video_standard,
        spec_unpack_v_sync_freq_divider(spec_pack_additional_signal_info(video_standard, divider))
            == divider,
{
    let vu = video_standard as u32;
    assert(vu < 0x10000) by (bit_vector)
        requires
            0 <= video_standard < 0x10000,
            vu == video_standard as u32,
    ;
    let packed = (vu & 0xFFFF) | ((divider & 0x3F) << 16);
    assert((packed & 0xFFFF) == vu && ((packed >> 16) & 0x3F) == divider) by (bit_vector)
        requires
            vu < 0x10000,
            divider < 0x40,
            packed == (vu & 0xFFFF) | ((divider & 0x3F) << 16),
    ;
    assert((packed & 0xFFFF) as i32 == video_standard) by (bit_vector)
        requires
            0 <= video_standard < 0x10000,
            vu == video_standard as u32,
            (packed & 0xFFFF) == vu,
    ;
}

/// Unpacking a field and packing the two values back reproduces the field
/// with its reserved upper bits cleared.
pub proof fn lemma_signal_info_unpack_then_pack(field: u32)
    ensures
        spec_pack_additional_signal_info(
            spec_unpack_video_standard(field),
            spec_unpack_v_sync_freq_divider(field),
        ) == field & 0x3FFFFF,
{
    let vs = (field & 0xFFFF) as i32;
    let vu = vs as u32;
    assert(vu == field & 0xFFFF) by (bit_vector)
        requires
            vs == (field & 0xFFFF) as i32,
            vu == vs as u32,
    ;
    assert(((field & 0xFFFF) & 0xFFFF) | ((((field >> 16) & 0x3F) & 0x3F) << 16) == field
        & 0x3FFFFF) by (bit_vector);
}

/// The source half of a native path record.
#[derive(Debug, Clone, Copy, PartialEq, Eq, Structural)]
pub struct NativePathSourceInfo {
    pub adapter_id: LuidWrapper,
    pub id: u32,
    /// Index into the flat mode array; undefined for virtual-mode paths.
    pub mode_info_idx: u32,
    pub status_flags: u32,
}

/// The target half of a native path record.
#[derive(Debug, Clone, Copy, PartialEq, Eq, Structural)]
pub struct NativePathTargetInfo {
    pub adapter_id: LuidWrapper,
    pub id: u32,
    /// Index into the flat mode array; undefined for virtual-mode paths.
    pub mode_info_idx: u32,
    /// Raw connector-class value; see [`OutputTechnology`].
    pub output_technology: i32,
    /// Raw rotation value; see [`DisplayRotation`].
    pub rotation: i32,
    /// Raw scaling value; see [`DisplayScaling`].
    pub scaling: i32,
    pub refresh_rate: Rational,
    /// Raw scan-line value; see [`ScanlineOrdering`].
    pub scanline_ordering: i32,
    pub target_available: bool,
    pub status_flags: u32,
}

/// One native path record: an active or possible source-to-target link.
#[derive(Debug, Clone, Copy, PartialEq, Eq, Structural)]
pub struct NativePathInfo {
    pub source_info: NativePathSourceInfo,
    pub target_info: NativePathTargetInfo,
    pub flags: u32,
}

/// The payload of a native source-type mode record.
#[derive(Debug, Clone, Copy, PartialEq, Eq, Structural)]
pub struct NativeSourceMode {
    pub width: u32,
    pub height: u32,
    /// Raw pixel-format value; see [`PixelFormat`].
    pub pixel_format: i32,
    pub position: Point,
}

/// The payload of a native target-type mode record: the video signal.
#[derive(Debug, Clone, Copy, PartialEq, Eq, Structural)]
pub struct NativeVideoSignalInfo {
    pub pixel_rate: u64,
    pub h_sync_freq: Rational,
    pub v_sync_freq: Rational,
    pub active_size: Region,
    pub total_size: Region,
    /// Packed field: video standard in bits 0 through 15, vertical-sync
    /// divisor in bits 16 through 21; see the pack and unpack functions.
    pub additional_signal_info: u32,
    /// Raw scan-line value; see [`ScanlineOrdering`].
    pub scanline_ordering: i32,
}

/// The typed payload of a native mode record.
///
/// `Other` carries the raw type tag of a record this crate does not
/// interpret, such as a desktop-image record.
#[derive(Debug, Clone, Copy, PartialEq, Eq, Structural)]
pub enum NativeModeData {
    Source(NativeSourceMode),
    Target(NativeVideoSignalInfo),
    Other(i32),
}

/// One native mode record from the flat mode array.
#[derive(Debug, Clone, Copy, PartialEq, Eq, Structural)]
pub struct NativeModeInfo {
    pub id: u32,
    pub adapter_id: LuidWrapper,
    pub data: NativeModeData,
}

/// The resolved name record of a source device.
#[derive(Debug, Clone)]
pub struct SourceDeviceName {
    pub view_gdi_device_name: String,
}

/// The resolved name record of a target device.
///
/// The two name strings follow the platform's wire convention: an empty
/// string means the name is absent.
#[derive(Debug, Clone)]
pub struct TargetDeviceName {
    pub flags: u32,
    /// Raw connector-class value; see [`OutputTechnology`].
    pub output_technology: i32,
    pub edid_manufacture_id: u16,
    pub edid_product_code_id: u16,
    pub connector_instance: u32,
    pub monitor_friendly_device_name: String,
    pub monitor_device_path: String,
}

/// Why building, resolving or materializing a topology failed.
#[derive(Debug, Clone, PartialEq)]
pub enum DisplayError {
    /// An active path carries the virtual-mode extension, which this
    /// system intentionally does not support.
    VirtualModeNotSupported,
    /// A path's source-mode index points outside the flat mode array.
    SourceModeNotFound { mode_index: u32 },
    /// A path's source-mode index points at a record of another type.
    NotASourceMode { mode_index: u32 },
    /// A path's target-mode index points outside the flat mode array.
    TargetModeNotFound { mode_index: u32 },
    /// A path's target-mode index points at a record of another type.
    NotATargetMode { mode_index: u32 },
    /// The live enumeration has no device path for this adapter, so the
    /// devices that depend on it cannot be described.
    AdapterPathUnresolved { adapter_id: LuidWrapper },
    /// No adapter in the live enumeration carries this stored device path.
    AdapterIdNotFound { device_path: String },
    /// A candidate target device on this adapter has no resolved name
    /// record, so matching against it is impossible.
    TargetDeviceUnresolved { adapter_id: LuidWrapper },
    /// Two live target devices on one adapter share this monitor device
    /// path; neither can safely be chosen.
    AmbiguousTargetDevicePath { device_path: String },
    /// The stored target device has no monitor device path to match by.
    TargetDevicePathMissing,
}

/// The first value bound to `key`, scanning the pairs front to back.
pub open spec fn assoc_find<K, V>(s: Seq<(K, V)>, key: K) -> Option<V>
    decreases s.len(),
{
    if s.len() == 0 {
        None
    } else if s[0].0 == key {
        Some(s[0].1)
    } else {
        assoc_find(s.skip(1), key)
    }
}

pub proof fn lemma_assoc_find_at<K, V>(s: Seq<(K, V)>, key: K, i: int)
    requires
        0 <= i < s.len(),
        s[i].0 == key,
        forall|j: int| 0 <= j < i ==> (#[trigger] s[j]).0 != key,
    ensures
        assoc_find(s, key) == Some(s[i].1),
    decreases i,
{
    if i > 0 {
        lemma_assoc_find_at(s.skip(1), key, i - 1);
    }
}

pub proof fn lemma_assoc_find_none<K, V>(s: Seq<(K, V)>, key: K)
    requires
        forall|j: int| 0 <= j < s.len() ==> (#[trigger] s[j]).0 != key,
    ensures
        assoc_find(s, key) is None,
    decreases s.len(),
{
    if s.len() > 0 {
        lemma_assoc_find_none(s.skip(1), key);
    }
}

/// Whenever `assoc_find` yields nothing, no pair holds the key.
pub proof fn lemma_assoc_find_none_implies_absent<K, V>(s: Seq<(K, V)>, key: K)
    requires
        assoc_find(s, key) is None,
    ensures
        forall|j: int| 0 <= j < s.len() ==> (#[trigger] s[j]).0 != key,
    decreases s.len(),
{
    if s.len() > 0 {
        lemma_assoc_find_none_implies_absent(s.skip(1), key);
        assert forall|j: int| 0 <= j < s.len() implies (#[trigger] s[j]).0 != key by {
            if j > 0 {
                assert(s.skip(1)[j - 1] == s[j]);
            }
        }
    }
}

/// Whenever `assoc_find` yields a value, some pair holds it.
pub proof fn lemma_assoc_find_some_implies_present<K, V>(s: Seq<(K, V)>, key: K)
    requires
        assoc_find(s, key) is Some,
    ensures
        exists|j: int|
            0 <= j < s.len() && (#[trigger] s[j]).0 == key && s[j].1 == assoc_find(
                s,
                key,
            )->Some_0,
    decreases s.len(),
{
    if s.len() > 0 && s[0].0 != key {
        lemma_assoc_find_some_implies_present(s.skip(1), key);
        let j = choose|j: int|
            0 <= j < s.skip(1).len() && (#[trigger] s.skip(1)[j]).0 == key && s.skip(1)[j].1
                == assoc_find(s.skip(1), key)->Some_0;
        assert(s[j + 1] == s.skip(1)[j]);
    }
}

/// One live topology enumeration: the flat path and mode arrays together
/// with the device names the platform resolved for them.
///
/// Each name table is an association list looked up by its first match;
/// the platform query that fills it produces one entry per key.  A device
/// whose name query failed simply has no entry.
#[derive(Debug, Clone)]
pub struct WindowsDisplayConfig {
    pub paths: Vec<NativePathInfo>,
    pub modes: Vec<NativeModeInfo>,
    pub adapter_device_names: Vec<(LuidWrapper, String)>,
    pub source_device_names: Vec<(IdAndAdapterId, SourceDeviceName)>,
    pub target_device_names: Vec<(IdAndAdapterId, TargetDeviceName)>,
}

impl WindowsDisplayConfig {
    /// Assembles an enumeration from its parts.
    pub fn from_parts(
        paths: Vec<NativePathInfo>,
        modes: Vec<NativeModeInfo>,
        adapter_device_names: Vec<(LuidWrapper, String)>,
        source_device_names: Vec<(IdAndAdapterId, SourceDeviceName)>,
        target_device_names: Vec<(IdAndAdapterId, TargetDeviceName)>,
    ) -> (r: WindowsDisplayConfig)
        ensures
            r.paths == paths,
            r.modes == modes,
            r.adapter_device_names == adapter_device_names,
            r.source_device_names == source_device_names,
            r.target_device_names == target_device_names,
    {
        WindowsDisplayConfig { paths, modes, adapter_device_names, source_device_names, target_device_names }
    }

    /// The stable device path of an adapter, if the enumeration resolved one.
    pub fn adapter_device_path(&self, adapter_id: LuidWrapper) -> (r: Option<&String>)
        ensures
            match r {
                Some(s) => assoc_find(self.adapter_device_names@, adapter_id) == Some(*s),
                None => assoc_find(self.adapter_device_names@, adapter_id) is None,
            },
    {
        let n = self.adapter_device_names.len();
        let mut i: usize = 0;
        while i < n
            invariant
                n == self.adapter_device_names@.len(),
                0 <= i <= n,
                forall|j: int|
                    0 <= j < i ==> (#[trigger] self.adapter_device_names@[j]).0 != adapter_id,
            decreases n - i,
        {
            if self.adapter_device_names[i].0 == adapter_id {
                proof {
                    lemma_assoc_find_at(self.adapter_device_names@, adapter_id, i as int);
                }
                return Some(&self.adapter_device_names[i].1);
            }
            i += 1;
        }
        proof {
            lemma_assoc_find_none(self.adapter_device_names@, adapter_id);
        }
        None
    }

    /// The resolved name record of a source device, if there is one.
    pub fn source_device_name(&self, key: IdAndAdapterId) -> (r: Option<&SourceDeviceName>)
        ensures
            match r {
                Some(s) => assoc_find(self.source_device_names@, key) == Some(*s),
                None => assoc_find(self.source_device_names@, key) is None,
            },
    {
        let n = self.source_device_names.len();
        let mut i: usize = 0;
        while i < n
            invariant
                n == self.source_device_names@.len(),
                0 <= i <= n,
                forall|j: int| 0 <= j < i ==> (#[trigger] self.source_device_names@[j]).0 != key,
            decreases n - i,
        {
            if self.source_device_names[i].0 == key {
                proof {
                    lemma_assoc_find_at(self.source_device_names@, key, i as int);
                }
                return Some(&self.source_device_names[i].1);
            }
            i += 1;
        }
        proof {
            lemma_assoc_find_none(self.source_device_names@, key);
        }
        None
    }

    /// The resolved name record of a target device, if there is one.
    pub fn target_device_name(&self, key: IdAndAdapterId) -> (r: Option<&TargetDeviceName>)
        ensures
            match r {
                Some(s) => assoc_find(self.target_device_names@, key) == Some(*s),
                None => assoc_find(self.target_device_names@, key) is None,
            },
    {
        let n = self.target_device_names.len();
        let mut i: usize = 0;
        while i < n
            invariant
                n == self.target_device_names@.len(),
                0 <= i <= n,
                forall|j: int| 0 <= j < i ==> (#[trigger] self.target_device_names@[j]).0 != key,
            decreases n - i,
        {
            if self.target_device_names[i].0 == key {
                proof {
                    lemma_assoc_find_at(self.target_device_names@, key, i as int);
                }
                return Some(&self.target_device_names[i].1);
            }
            i += 1;
        }
        proof {
            lemma_assoc_find_none(self.target_device_names@, key);
        }
        None
    }
}

/// The flat arrays of a materialized configuration, ready for the
/// platform's apply call.
#[derive(Debug, Clone)]
pub struct NativeDisplayConfig {
    pub paths: Vec<NativePathInfo>,
    pub modes: Vec<NativeModeInfo>,
}

/// Whether a numeric target id appears on the adapter anywhere in the
/// enumeration: as a target-type mode record or on a path's target half.
pub open spec fn is_target_candidate(
    w: WindowsDisplayConfig,
    adapter_id: LuidWrapper,
    id: u32,
) -> bool {
    (exists|i: int|
        0 <= i < w.modes@.len() && (#[trigger] w.modes@[i]).data is Target && w.modes@[i].adapter_id
            == adapter_id && w.modes@[i].id == id) || (exists|i: int|
        0 <= i < w.paths@.len() && (#[trigger] w.paths@[i]).target_info.adapter_id == adapter_id
            && w.paths@[i].target_info.id == id)
}

/// Whether the enumeration resolved a name record for this target.
pub open spec fn candidate_resolvable(
    w: WindowsDisplayConfig,
    adapter_id: LuidWrapper,
    id: u32,
) -> bool {
    assoc_find(w.target_device_names@, IdAndAdapterId { id, adapter_id }) is Some
}

/// Whether this target's resolved monitor device path is present and
/// equals the stored one.
pub open spec fn target_path_matches(
    w: WindowsDisplayConfig,
    adapter_id: LuidWrapper,
    id: u32,
    device_path: Seq<char>,
) -> bool {
    match assoc_find(w.target_device_names@, IdAndAdapterId { id, adapter_id }) {
        Some(n) => n.monitor_device_path@ == device_path && n.monitor_device_path@.len() > 0,
        None => false,
    }
}

/// A live target on the adapter whose monitor device path equals the
/// stored one.
pub open spec fn is_target_match(
    w: WindowsDisplayConfig,
    adapter_id: LuidWrapper,
    id: u32,
    device_path: Seq<char>,
) -> bool {
    is_target_candidate(w, adapter_id, id) && target_path_matches(w, adapter_id, id, device_path)
}

/// Whether a value occurs in a vector of ids.
fn vec_contains_u32(v: &Vec<u32>, x: u32) -> (r: bool)
    ensures
        r == v@.contains(x),
{
    let n = v.len();
    let mut i: usize = 0;
    while i < n
        invariant
            n == v@.len(),
            0 <= i <= n,
            forall|j: int| 0 <= j < i ==> v@[j] != x,
        decreases n - i,
    {
        if v[i] == x {
            return true;
        }
        i += 1;
    }
    false
}

impl WindowsDisplayConfig {
    /// The live adapter id of the first adapter whose resolved device
    /// path equals the given one.
    pub fn device_path_to_adapter_id(&self, device_path: &String) -> (r: Option<LuidWrapper>)
        ensures
            r == rev_adapter_find(self.adapter_device_names@, device_path@),
    {
        let n = self.adapter_device_names.len();
        let mut i: usize = 0;
        while i < n
            invariant
                n == self.adapter_device_names@.len(),
                0 <= i <= n,
                forall|j: int|
                    0 <= j < i ==> (#[trigger] self.adapter_device_names@[j]).1@ != device_path@,
            decreases n - i,
        {
            if self.adapter_device_names[i].1 == *device_path {
                proof {
                    lemma_rev_adapter_find_at(self.adapter_device_names@, device_path@, i as int);
                }
                return Some(self.adapter_device_names[i].0);
            }
            i += 1;
        }
        proof {
            lemma_rev_adapter_find_none(self.adapter_device_names@, device_path@);
        }
        None
    }

    /// The live numeric id to use for a stored target mode on this
    /// adapter.
    ///
    /// Every id on the adapter (from target-type mode records and path
    /// target halves) is a candidate; each must have a resolved name
    /// record.  Exactly one candidate with the stored monitor device path
    /// gives its id; none gives the stored id back as a best-effort
    /// fallback; two or more are a fatal ambiguity, and a stored target
    /// without a device path cannot be matched at all.
    pub fn get_matching_target_mode_id(
        &self,
        adapter_id: LuidWrapper,
        target_mode: &crate::display::DisplayTargetMode,
    ) -> (r: Result<u32, DisplayError>)
        ensures
            match r {
                Ok(id) => {
                    &&& forall|c: u32|
                        is_target_candidate(*self, adapter_id, c) ==> candidate_resolvable(
                            *self,
                            adapter_id,
                            c,
                        )
                    &&& target_mode.device.monitor_device_path is Some
                    &&& {
                        let p = target_mode.device.monitor_device_path->0@;
                        if exists|c: u32| is_target_match(*self, adapter_id, c, p) {
                            is_target_match(*self, adapter_id, id, p) && (forall|c: u32|
                                is_target_match(*self, adapter_id, c, p) ==> c == id)
                        } else {
                            id == target_mode.device.id
                        }
                    }
                },
                Err(e) => match e {
                    DisplayError::TargetDeviceUnresolved { adapter_id: a } => {
                        &&& a == adapter_id
                        &&& exists|c: u32|
                            is_target_candidate(*self, adapter_id, c) && !candidate_resolvable(
                                *self,
                                adapter_id,
                                c,
                            )
                    },
                    DisplayError::TargetDevicePathMissing => {
                        &&& target_mode.device.monitor_device_path is None
                        &&& forall|c: u32|
                            is_target_candidate(*self, adapter_id, c) ==> candidate_resolvable(
                                *self,
                                adapter_id,
                                c,
                            )
                    },
                    DisplayError::AmbiguousTargetDevicePath { device_path } => {
                        &&& target_mode.device.monitor_device_path is Some
                        &&& device_path == target_mode.device.monitor_device_path->0
                        &&& forall|c: u32|
                            is_target_candidate(*self, adapter_id, c) ==> candidate_resolvable(
                                *self,
                                adapter_id,
                                c,
                            )
                        &&& exists|c1: u32, c2: u32|
                            c1 != c2 && is_target_match(
                                *self,
                                adapter_id,
                                c1,
                                target_mode.device.monitor_device_path->0@,
                            ) && is_target_match(
                                *self,
                                adapter_id,
                                c2,
                                target_mode.device.monitor_device_path->0@,
                            )
                    },
                    _ => false,
                },
            },
    {
        let ghost w = *self;
        // Collect every distinct id on this adapter, first from the mode
        // records, then from the path target halves.
        let mut candidate_ids: Vec<u32> = Vec::new();
        let nm = self.modes.len();
        let mut i: usize = 0;
        while i < nm
            invariant
                w == *self,
                nm == self.modes@.len(),
                0 <= i <= nm,
                forall|j1: int, j2: int|
                    #![trigger candidate_ids@[j1], candidate_ids@[j2]]
                    0 <= j1 < j2 < candidate_ids@.len() ==> candidate_ids@[j1]
                        != candidate_ids@[j2],
                forall|j: int|
                    0 <= j < candidate_ids@.len() ==> is_target_candidate(
                        w,
                        adapter_id,
                        #[trigger] candidate_ids@[j],
                    ),
                forall|m: int|
                    0 <= m < i && (#[trigger] self.modes@[m]).data is Target
                        && self.modes@[m].adapter_id == adapter_id ==> candidate_ids@.contains(
                        self.modes@[m].id,
                    ),
            decreases nm - i,
        {
            let ghost old_ids = candidate_ids@;
            let rec = &self.modes[i];
            let is_target = match rec.data {
                NativeModeData::Target(t) => true,
                _ => false,
            };
            if is_target && rec.adapter_id == adapter_id {
                if !vec_contains_u32(&candidate_ids, rec.id) {
                    candidate_ids.push(rec.id);
                    proof {
                        assert(candidate_ids@[old_ids.len() as int] == rec.id);
                        assert(candidate_ids@.contains(rec.id));
                    }
                }
            }
            proof {
                assert forall|v: u32| old_ids.contains(v) implies candidate_ids@.contains(v) by {
                    let j = choose|j: int| 0 <= j < old_ids.len() && old_ids[j] == v;
                    assert(candidate_ids@[j] == v);
                }
            }
            i += 1;
        }
        let np = self.paths.len();
        let mut i2: usize = 0;
        while i2 < np
            invariant
                w == *self,
                np == self.paths@.len(),
                0 <= i2 <= np,
                forall|j1: int, j2: int|
                    #![trigger candidate_ids@[j1], candidate_ids@[j2]]
                    0 <= j1 < j2 < candidate_ids@.len() ==> candidate_ids@[j1]
                        != candidate_ids@[j2],
                forall|j: int|
                    0 <= j < candidate_ids@.len() ==> is_target_candidate(
                        w,
                        adapter_id,
                        #[trigger] candidate_ids@[j],
                    ),
                forall|m: int|
                    0 <= m < self.modes@.len() && (#[trigger] self.modes@[m]).data is Target
                        && self.modes@[m].adapter_id == adapter_id ==> candidate_ids@.contains(
                        self.modes@[m].id,
                    ),
                forall|m: int|
                    0 <= m < i2 && (#[trigger] self.paths@[m]).target_info.adapter_id == adapter_id
                        ==> candidate_ids@.contains(self.paths@[m].target_info.id),
            decreases np - i2,
        {
            let ghost old_ids = candidate_ids@;
            let info = &self.paths[i2].target_info;
            if info.adapter_id == adapter_id {
                if !vec_contains_u32(&candidate_ids, info.id) {
                    candidate_ids.push(info.id);
                    proof {
                        assert(candidate_ids@[old_ids.len() as int] == info.id);
                        assert(candidate_ids@.contains(info.id));
                    }
                }
            }
            proof {
                assert forall|v: u32| old_ids.contains(v) implies candidate_ids@.contains(v) by {
                    let j = choose|j: int| 0 <= j < old_ids.len() && old_ids[j] == v;
                    assert(candidate_ids@[j] == v);
                }
            }
            i2 += 1;
        }
        proof {
            assert forall|c: u32| is_target_candidate(w, adapter_id, c) implies candidate_ids@
                .contains(c) by {}
        }
        // Every candidate must have a resolved name record before any
        // matching is attempted.
        let nc = candidate_ids.len();
        let mut i3: usize = 0;
        while i3 < nc
            invariant
                w == *self,
                nc == candidate_ids@.len(),
                0 <= i3 <= nc,
                forall|j: int|
                    0 <= j < candidate_ids@.len() ==> is_target_candidate(
                        w,
                        adapter_id,
                        #[trigger] candidate_ids@[j],
                    ),
                forall|c: u32| is_target_candidate(w, adapter_id, c) ==> candidate_ids@.contains(c),
                forall|j: int|
                    0 <= j < i3 ==> candidate_resolvable(
                        w,
                        adapter_id,
                        #[trigger] candidate_ids@[j],
                    ),
            decreases nc - i3,
        {
            if self.target_device_name(
                IdAndAdapterId { id: candidate_ids[i3], adapter_id },
            ).is_none() {
                return Err(DisplayError::TargetDeviceUnresolved { adapter_id });
            }
            i3 += 1;
        }
        let target_mode_device_path = match &target_mode.device.monitor_device_path {
            Some(p) => p,
            None => {
                return Err(DisplayError::TargetDevicePathMissing);
            },
        };
        // Count the candidates whose monitor device path equals the
        // stored one; the ids are distinct, so the count is the number
        // of distinct matching ids.
        let ghost p = target_mode_device_path@;
        let mut matched_id: u32 = 0;
        let mut match_count: usize = 0;
        let mut i4: usize = 0;
        while i4 < nc
            invariant
                w == *self,
                nc == candidate_ids@.len(),
                0 <= i4 <= nc,
                p == target_mode.device.monitor_device_path->0@,
                p == target_mode_device_path@,
                target_mode.device.monitor_device_path is Some,
                forall|j1: int, j2: int|
                    #![trigger candidate_ids@[j1], candidate_ids@[j2]]
                    0 <= j1 < j2 < candidate_ids@.len() ==> candidate_ids@[j1]
                        != candidate_ids@[j2],
                forall|j: int|
                    0 <= j < candidate_ids@.len() ==> is_target_candidate(
                        w,
                        adapter_id,
                        #[trigger] candidate_ids@[j],
                    ),
                forall|c: u32| is_target_candidate(w, adapter_id, c) ==> candidate_ids@.contains(c),
                forall|j: int|
                    0 <= j < candidate_ids@.len() ==> candidate_resolvable(
                        w,
                        adapter_id,
                        #[trigger] candidate_ids@[j],
                    ),
                match_count <= i4,
                match_count == 0 ==> forall|j: int|
                    0 <= j < i4 ==> !is_target_match(
                        w,
                        adapter_id,
                        #[trigger] candidate_ids@[j],
                        p,
                    ),
                match_count == 1 ==> {
                    &&& is_target_match(w, adapter_id, matched_id, p)
                    &&& exists|j: int| 0 <= j < i4 && candidate_ids@[j] == matched_id
                    &&& forall|j: int|
                        0 <= j < i4 && is_target_match(
                            w,
                            adapter_id,
                            #[trigger] candidate_ids@[j],
                            p,
                        ) ==> candidate_ids@[j] == matched_id
                },
                match_count >= 2 ==> exists|c1: u32, c2: u32|
                    c1 != c2 && is_target_match(w, adapter_id, c1, p) && is_target_match(
                        w,
                        adapter_id,
                        c2,
                        p,
                    ),
            decreases nc - i4,
    {
            let cid = candidate_ids[i4];
            match self.target_device_name(IdAndAdapterId { id: cid, adapter_id }) {
                Some(n) => {
                    let matches_here = !n.monitor_device_path.as_str().is_empty()
                        && n.monitor_device_path == *target_mode_device_path;
                    if matches_here {
                        proof {
                            assert(candidate_ids@[i4 as int] == cid);
                            assert(is_target_candidate(w, adapter_id, cid));
                            assert(assoc_find(
                                w.target_device_names@,
                                IdAndAdapterId { id: cid, adapter_id },
                            ) == Some(*n));
                            assert(n.monitor_device_path@ == target_mode_device_path@);
                            assert(p == target_mode_device_path@);
                            assert(n.monitor_device_path@.len() > 0);
                            assert(target_path_matches(w, adapter_id, cid, p));
                        }
                        if match_count == 0 {
                            matched_id = cid;
                            match_count = 1;
                            proof {
                                assert(candidate_ids@[i4 as int] == matched_id);
                            }
                        } else if match_count == 1 {
                            proof {
                                let j = choose|j: int|
                                    0 <= j < i4 && candidate_ids@[j] == matched_id;
                                assert(candidate_ids@[j] != candidate_ids@[i4 as int]);
                                assert(matched_id != cid);
                                assert(is_target_match(w, adapter_id, matched_id, p));
                                assert(is_target_match(w, adapter_id, cid, p));
                                assert(exists|c1: u32, c2: u32|
                                    c1 != c2 && is_target_match(w, adapter_id, c1, p)
                                        && is_target_match(w, adapter_id, c2, p)) by {
                                    assert(matched_id != cid && is_target_match(
                                        w,
                                        adapter_id,
                                        matched_id,
                                        p,
                                    ) && is_target_match(w, adapter_id, cid, p));
                                }
                            }
                            match_count = 2;
                        }
                    }
                },
                None => {
                    return Err(DisplayError::TargetDeviceUnresolved { adapter_id });
                },
            }
            i4 += 1;
        }
        if match_count == 0 {
            proof {
                assert forall|c: u32| !is_target_match(w, adapter_id, c, p) by {
                    if is_target_match(w, adapter_id, c, p) {
                        let j = choose|j: int|
                            0 <= j < candidate_ids@.len() && candidate_ids@[j] == c;
                    }
                }
            }
            Ok(target_mode.device.id)
        } else if match_count == 1 {
            proof {
                assert forall|c: u32| is_target_match(w, adapter_id, c, p) implies c
                    == matched_id by {
                    let j = choose|j: int| 0 <= j < candidate_ids@.len() && candidate_ids@[j] == c;
                }
            }
            Ok(matched_id)
        } else {
            Err(
                DisplayError::AmbiguousTargetDevicePath {
                    device_path: target_mode_device_path.clone(),
                },
            )
        }
    }
}

/// The first adapter bound to a device path, scanning the table front to
/// back.
pub open spec fn rev_adapter_find(
    s: Seq<(LuidWrapper, String)>,
    device_path: Seq<char>,
) -> Option<LuidWrapper>
    decreases s.len(),
{
    if s.len() == 0 {
        None
    } else if s[0].1@ == device_path {
        Some(s[0].0)
    } else {
        rev_adapter_find(s.skip(1), device_path)
    }
}

pub proof fn lemma_rev_adapter_find_at(s: Seq<(LuidWrapper, String)>, device_path: Seq<char>, i: int)
    requires
        0 <= i < s.len(),
        s[i].1@ == device_path,
        forall|j: int| 0 <= j < i ==> (#[trigger] s[j]).1@ != device_path,
    ensures
        rev_adapter_find(s, device_path) == Some(s[i].0),
    decreases i,
{
    if i > 0 {
        lemma_rev_adapter_find_at(s.skip(1), device_path, i - 1);
    }
}

pub proof fn lemma_rev_adapter_find_none(s: Seq<(LuidWrapper, String)>, device_path: Seq<char>)
    requires
        forall|j: int| 0 <= j < s.len() ==> (#[trigger] s[j]).1@ != device_path,
    ensures
        rev_adapter_find(s, device_path) is None,
    decreases s.len(),
{
    if s.len() > 0 {
        lemma_rev_adapter_find_none(s.skip(1), device_path);
    }
}

/// Whenever `rev_adapter_find` yields an adapter, its table entry carries
/// the path looked for.
pub proof fn lemma_rev_adapter_find_some_implies_present(
    s: Seq<(LuidWrapper, String)>,
    device_path: Seq<char>,
)
    requires
        rev_adapter_find(s, device_path) is Some,
    ensures
        exists|j: int|
            0 <= j < s.len() && (#[trigger] s[j]).1@ == device_path && s[j].0 == rev_adapter_find(
                s,
                device_path,
            )->0,
    decreases s.len(),
{
    if s.len() > 0 && s[0].1@ != device_path {
        lemma_rev_adapter_find_some_implies_present(s.skip(1), device_path);
        let j = choose|j: int|
            0 <= j < s.skip(1).len() && (#[trigger] s.skip(1)[j]).1@ == device_path && s.skip(
                1,
            )[j].0 == rev_adapter_find(s.skip(1), device_path)->0;
        assert(s[j + 1] == s.skip(1)[j]);
    }
}

/// Whether an adapter id appears anywhere in the flat arrays: on a mode
/// record or on either half of a path.
pub open spec fn is_referenced_adapter(
    paths: Seq<NativePathInfo>,
    modes: Seq<NativeModeInfo>,
    adapter_id: LuidWrapper,
) -> bool {
    (exists|i: int| 0 <= i < modes.len() && (#[trigger] modes[i]).adapter_id == adapter_id)
        || (exists|i: int|
        0 <= i < paths.len() && ((#[trigger] paths[i]).source_info.adapter_id == adapter_id
            || paths[i].target_info.adapter_id == adapter_id))
}

/// Whether a device id, qualified by its adapter, appears anywhere in
/// the flat arrays: on a mode record or on either half of a path.
pub open spec fn is_referenced_device(
    paths: Seq<NativePathInfo>,
    modes: Seq<NativeModeInfo>,
    key: IdAndAdapterId,
) -> bool {
    (exists|i: int|
        0 <= i < modes.len() && (#[trigger] modes[i]).adapter_id == key.adapter_id && modes[i].id
            == key.id) || (exists|i: int|
        0 <= i < paths.len() && (((#[trigger] paths[i]).source_info.adapter_id == key.adapter_id
            && paths[i].source_info.id == key.id) || (paths[i].target_info.adapter_id
            == key.adapter_id && paths[i].target_info.id == key.id)))
}

fn vec_contains_luid(v: &Vec<LuidWrapper>, x: LuidWrapper) -> (r: bool)
    ensures
        r == v@.contains(x),
{
    let n = v.len();
    let mut i: usize = 0;
    while i < n
        invariant
            n == v@.len(),
            0 <= i <= n,
            forall|j: int| 0 <= j < i ==> v@[j] != x,
        decreases n - i,
    {
        if v[i] == x {
            return true;
        }
        i += 1;
    }
    false
}

fn vec_contains_key(v: &Vec<IdAndAdapterId>, x: IdAndAdapterId) -> (r: bool)
    ensures
        r == v@.contains(x),
{
    let n = v.len();
    let mut i: usize = 0;
    while i < n
        invariant
            n == v@.len(),
            0 <= i <= n,
            forall|j: int| 0 <= j < i ==> v@[j] != x,
        decreases n - i,
    {
        if v[i] == x {
            return true;
        }
        i += 1;
    }
    false
}

/// The distinct adapter ids the flat arrays reference, in first-encounter
/// order over the mode records and then the paths.  These are the
/// adapters whose device paths an enumeration needs resolved.
pub fn referenced_adapter_ids(
    paths: &Vec<NativePathInfo>,
    modes: &Vec<NativeModeInfo>,
) -> (r: Vec<LuidWrapper>)
    ensures
        forall|j1: int, j2: int|
            #![trigger r@[j1], r@[j2]]
            0 <= j1 < j2 < r@.len() ==> r@[j1] != r@[j2],
        forall|j: int|
            0 <= j < r@.len() ==> is_referenced_adapter(paths@, modes@, #[trigger] r@[j]),
        forall|a: LuidWrapper| is_referenced_adapter(paths@, modes@, a) ==> r@.contains(a),
{
    let mut out: Vec<LuidWrapper> = Vec::new();
    let nm = modes.len();
    let mut i: usize = 0;
    while i < nm
        invariant
            nm == modes@.len(),
            0 <= i <= nm,
            forall|j1: int, j2: int|
                #![trigger out@[j1], out@[j2]]
                0 <= j1 < j2 < out@.len() ==> out@[j1] != out@[j2],
            forall|j: int|
                0 <= j < out@.len() ==> is_referenced_adapter(paths@, modes@, #[trigger] out@[j]),
            forall|m: int| 0 <= m < i ==> out@.contains((#[trigger] modes@[m]).adapter_id),
        decreases nm - i,
    {
        let ghost old_out = out@;
        let a = modes[i].adapter_id;
        if !vec_contains_luid(&out, a) {
            out.push(a);
            proof {
                assert(out@[old_out.len() as int] == a);
                assert(out@.contains(a));
            }
        }
        proof {
            assert forall|v: LuidWrapper| old_out.contains(v) implies out@.contains(v) by {
                let j = choose|j: int| 0 <= j < old_out.len() && old_out[j] == v;
                assert(out@[j] == v);
            }
        }
        i += 1;
    }
    let np = paths.len();
    let mut i2: usize = 0;
    while i2 < np
        invariant
            np == paths@.len(),
            0 <= i2 <= np,
            forall|j1: int, j2: int|
                #![trigger out@[j1], out@[j2]]
                0 <= j1 < j2 < out@.len() ==> out@[j1] != out@[j2],
            forall|j: int|
                0 <= j < out@.len() ==> is_referenced_adapter(paths@, modes@, #[trigger] out@[j]),
            forall|m: int| 0 <= m < modes@.len() ==> out@.contains((#[trigger] modes@[m]).adapter_id),
            forall|m: int|
                0 <= m < i2 ==> out@.contains((#[trigger] paths@[m]).source_info.adapter_id)
                    && out@.contains(paths@[m].target_info.adapter_id),
        decreases np - i2,
    {
        let ghost old_out = out@;
        let a_src = paths[i2].source_info.adapter_id;
        if !vec_contains_luid(&out, a_src) {
            out.push(a_src);
            proof {
                assert(out@[old_out.len() as int] == a_src);
                assert(out@.contains(a_src));
            }
        }
        proof {
            assert forall|v: LuidWrapper| old_out.contains(v) implies out@.contains(v) by {
                let j = choose|j: int| 0 <= j < old_out.len() && old_out[j] == v;
                assert(out@[j] == v);
            }
        }
        let ghost mid_out = out@;
        let a_tgt = paths[i2].target_info.adapter_id;
        if !vec_contains_luid(&out, a_tgt) {
            out.push(a_tgt);
            proof {
                assert(out@[mid_out.len() as int] == a_tgt);
                assert(out@.contains(a_tgt));
            }
        }
        proof {
            assert forall|v: LuidWrapper| mid_out.contains(v) implies out@.contains(v) by {
                let j = choose|j: int| 0 <= j < mid_out.len() && mid_out[j] == v;
                assert(out@[j] == v);
            }
        }
        i2 += 1;
    }
    proof {
        assert forall|a: LuidWrapper| is_referenced_adapter(paths@, modes@, a) implies out@
            .contains(a) by {}
    }
    out
}

/// The distinct adapter-qualified device ids the flat arrays reference,
/// in first-encounter order over the mode records and then the paths.
/// These are the devices whose names an enumeration tries to resolve.
pub fn referenced_device_ids(
    paths: &Vec<NativePathInfo>,
    modes: &Vec<NativeModeInfo>,
) -> (r: Vec<IdAndAdapterId>)
    ensures
        forall|j1: int, j2: int|
            #![trigger r@[j1], r@[j2]]
            0 <= j1 < j2 < r@.len() ==> r@[j1] != r@[j2],
        forall|j: int|
            0 <= j < r@.len() ==> is_referenced_device(paths@, modes@, #[trigger] r@[j]),
        forall|key: IdAndAdapterId| is_referenced_device(paths@, modes@, key) ==> r@.contains(key),
{
    let mut out: Vec<IdAndAdapterId> = Vec::new();
    let nm = modes.len();
    let mut i: usize = 0;
    while i < nm
        invariant
            nm == modes@.len(),
            0 <= i <= nm,
            forall|j1: int, j2: int|
                #![trigger out@[j1], out@[j2]]
                0 <= j1 < j2 < out@.len() ==> out@[j1] != out@[j2],
            forall|j: int|
                0 <= j < out@.len() ==> is_referenced_device(paths@, modes@, #[trigger] out@[j]),
            forall|m: int|
                0 <= m < i ==> out@.contains(
                    IdAndAdapterId {
                        id: (#[trigger] modes@[m]).id,
                        adapter_id: modes@[m].adapter_id,
                    },
                ),
        decreases nm - i,
    {
        let ghost old_out = out@;
        let key = IdAndAdapterId { id: modes[i].id, adapter_id: modes[i].adapter_id };
        if !vec_contains_key(&out, key) {
            out.push(key);
            proof {
                assert(out@[old_out.len() as int] == key);
                assert(out@.contains(key));
            }
        }
        proof {
            assert forall|v: IdAndAdapterId| old_out.contains(v) implies out@.contains(v) by {
                let j = choose|j: int| 0 <= j < old_out.len() && old_out[j] == v;
                assert(out@[j] == v);
            }
        }
        i += 1;
    }
    let np = paths.len();
    let mut i2: usize = 0;
    while i2 < np
        invariant
            np == paths@.len(),
            0 <= i2 <= np,
            forall|j1: int, j2: int|
                #![trigger out@[j1], out@[j2]]
                0 <= j1 < j2 < out@.len() ==> out@[j1] != out@[j2],
            forall|j: int|
                0 <= j < out@.len() ==> is_referenced_device(paths@, modes@, #[trigger] out@[j]),
            forall|m: int|
                0 <= m < modes@.len() ==> out@.contains(
                    IdAndAdapterId {
                        id: (#[trigger] modes@[m]).id,
                        adapter_id: modes@[m].adapter_id,
                    },
                ),
            forall|m: int|
                0 <= m < i2 ==> out@.contains(
                    IdAndAdapterId {
                        id: (#[trigger] paths@[m]).source_info.id,
                        adapter_id: paths@[m].source_info.adapter_id,
                    },
                ) && out@.contains(
                    IdAndAdapterId {
                        id: paths@[m].target_info.id,
                        adapter_id: paths@[m].target_info.adapter_id,
                    },
                ),
        decreases np - i2,
    {
        let ghost old_out = out@;
        let key_src = IdAndAdapterId {
            id: paths[i2].source_info.id,
            adapter_id: paths[i2].source_info.adapter_id,
        };
        if !vec_contains_key(&out, key_src) {
            out.push(key_src);
            proof {
                assert(out@[old_out.len() as int] == key_src);
                assert(out@.contains(key_src));
            }
        }
        proof {
            assert forall|v: IdAndAdapterId| old_out.contains(v) implies out@.contains(v) by {
                let j = choose|j: int| 0 <= j < old_out.len() && old_out[j] == v;
                assert(out@[j] == v);
            }
        }
        let ghost mid_out = out@;
        let key_tgt = IdAndAdapterId {
            id: paths[i2].target_info.id,
            adapter_id: paths[i2].target_info.adapter_id,
        };
        if !vec_contains_key(&out, key_tgt) {
            out.push(key_tgt);
            proof {
                assert(out@[mid_out.len() as int] == key_tgt);
                assert(out@.contains(key_tgt));
            }
        }
        proof {
            assert forall|v: IdAndAdapterId| mid_out.contains(v) implies out@.contains(v) by {
                let j = choose|j: int| 0 <= j < mid_out.len() && mid_out[j] == v;
                assert(out@[j] == v);
            }
        }
        i2 += 1;
    }
    proof {
        assert forall|key: IdAndAdapterId| is_referenced_device(paths@, modes@, key) implies out@
            .contains(key) by {}
    }
    out
}

/// With pairwise distinct adapter device paths in the table, looking an
/// adapter's resolved path back up yields that adapter again.
pub proof fn lemma_adapter_path_inverts(s: Seq<(LuidWrapper, String)>, a: LuidWrapper)
    requires
        assoc_find(s, a) is Some,
        forall|i1: int, i2: int|
            #![trigger s[i1], s[i2]]
            0 <= i1 < i2 < s.len() ==> s[i1].1@ != s[i2].1@,
    ensures
        rev_adapter_find(s, assoc_find(s, a)->0@) == Some(a),
{
    lemma_assoc_find_some_implies_present(s, a);
    let j = choose|j: int|
        0 <= j < s.len() && (#[trigger] s[j]).0 == a && s[j].1 == assoc_find(s, a)->Some_0;
    assert forall|j2: int| 0 <= j2 < j implies (#[trigger] s[j2]).1@ != assoc_find(
        s,
        a,
    )->0@ by {
        assert(s[j2].1@ != s[j].1@);
    }
    lemma_rev_adapter_find_at(s, assoc_find(s, a)->0@, j);
}

pub fn is_target_device_friendly_name_from_edid(flags: u32) -> (r: bool)
    ensures
        r == (flags & TARGET_DEVICE_NAME_FLAG_FRIENDLY_NAME_FROM_EDID != 0),
{
    flags & TARGET_DEVICE_NAME_FLAG_FRIENDLY_NAME_FROM_EDID != 0
}

pub fn is_target_device_friendly_name_forced(flags: u32) -> (r: bool)
    ensures
        r == (flags & TARGET_DEVICE_NAME_FLAG_FRIENDLY_NAME_FORCED != 0),
{
    flags & TARGET_DEVICE_NAME_FLAG_FRIENDLY_NAME_FORCED != 0
}

pub fn is_target_device_edid_ids_valid(flags: u32) -> (r: bool)
    ensures
        r == (flags & TARGET_DEVICE_NAME_FLAG_EDID_IDS_VALID != 0),
{
    flags & TARGET_DEVICE_NAME_FLAG_EDID_IDS_VALID != 0
}

/// The friendly monitor name of a name record, with the wire convention
/// that an empty string means the name is absent.
pub fn get_monitor_friendly_device_name(target_device_name: &TargetDeviceName) -> (r: Option<
    String,
>)
    ensures
        match r {
            Some(s) => s@ == target_device_name.monitor_friendly_device_name@ && s@.len() > 0,
            None => target_device_name.monitor_friendly_device_name@.len() == 0,
        },
{
    if target_device_name.monitor_friendly_device_name.as_str().is_empty() {
        None
    } else {
        Some(target_device_name.monitor_friendly_device_name.clone())
    }
}

/// The stable monitor device path of a name record, with the wire
/// convention that an empty string means the path is absent.
pub fn get_monitor_device_path(target_device_name: &TargetDeviceName) -> (r: Option<String>)
    ensures
        match r {
            Some(s) => s@ == target_device_name.monitor_device_path@ && s@.len() > 0,
            None => target_device_name.monitor_device_path@.len() == 0,
        },
{
    if target_device_name.monitor_device_path.as_str().is_empty() {
        None
    } else {
        Some(target_device_name.monitor_device_path.clone())
    }
}

} // verus!

