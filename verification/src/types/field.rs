//! The fields of a parsed title, grouped by the kind of value they hold.

use vstd::prelude::*;

verus! {

/// The fields that hold at most one text.
#[derive(Debug, Clone, Copy, PartialEq, Eq, Structural)]
pub enum TextField {
    Resolution,
    /// A date, as year, month and day joined by hyphens.
    Date,
    Edition,
    Region,
    /// The source or quality of the release, in lower case and without separators.
    Quality,
    Bitrate,
    BitDepth,
    /// The release group.
    Group,
    Container,
    /// A checksum-like code in brackets, in upper case.
    EpisodeCode,
    Site,
    Extension,
    Size,
    Network,
    /// The codec as the release name writes it, in lower case and without separators.
    CodecTag,
}

impl TextField {
    /// How many fields of this kind there are.
    pub open spec fn count() -> nat {
        15
    }

    /// The position of this field among those of its kind.
    pub open spec fn ordinal(self) -> nat {
        match self {
            TextField::Resolution => 0,
            TextField::Date => 1,
            TextField::Edition => 2,
            TextField::Region => 3,
            TextField::Quality => 4,
            TextField::Bitrate => 5,
            TextField::BitDepth => 6,
            TextField::Group => 7,
            TextField::Container => 8,
            TextField::EpisodeCode => 9,
            TextField::Site => 10,
            TextField::Extension => 11,
            TextField::Size => 12,
            TextField::Network => 13,
            TextField::CodecTag => 14,
        }
    }

    /// The position of this field among those of its kind.
    pub fn index(self) -> (r: usize)
        ensures
            r == self.ordinal(),
            r < Self::count(),
    {
        match self {
            TextField::Resolution => 0,
            TextField::Date => 1,
            TextField::Edition => 2,
            TextField::Region => 3,
            TextField::Quality => 4,
            TextField::Bitrate => 5,
            TextField::BitDepth => 6,
            TextField::Group => 7,
            TextField::Container => 8,
            TextField::EpisodeCode => 9,
            TextField::Site => 10,
            TextField::Extension => 11,
            TextField::Size => 12,
            TextField::Network => 13,
            TextField::CodecTag => 14,
        }
    }
}

/// The fields that are raised once and never lowered by a rule.
#[derive(Debug, Clone, Copy, PartialEq, Eq, Structural)]
pub enum FlagField {
    /// Whether the release is a pay-per-view event.
    Ppv,
    Trash,
    Adult,
    Extended,
    Convert,
    Hardcoded,
    Proper,
    Repack,
    Retail,
    Remastered,
    Unrated,
    Complete,
    Dubbed,
    Subbed,
    Documentary,
    Upscaled,
    /// Whether the release is in three dimensions.
    Is3d,
    Scene,
}

impl FlagField {
    /// How many fields of this kind there are.
    pub open spec fn count() -> nat {
        18
    }

    /// The position of this field among those of its kind.
    pub open spec fn ordinal(self) -> nat {
        match self {
            FlagField::Ppv => 0,
            FlagField::Trash => 1,
            FlagField::Adult => 2,
            FlagField::Extended => 3,
            FlagField::Convert => 4,
            FlagField::Hardcoded => 5,
            FlagField::Proper => 6,
            FlagField::Repack => 7,
            FlagField::Retail => 8,
            FlagField::Remastered => 9,
            FlagField::Unrated => 10,
            FlagField::Complete => 11,
            FlagField::Dubbed => 12,
            FlagField::Subbed => 13,
            FlagField::Documentary => 14,
            FlagField::Upscaled => 15,
            FlagField::Is3d => 16,
            FlagField::Scene => 17,
        }
    }

    /// The position of this field among those of its kind.
    pub fn index(self) -> (r: usize)
        ensures
            r == self.ordinal(),
            r < Self::count(),
    {
        match self {
            FlagField::Ppv => 0,
            FlagField::Trash => 1,
            FlagField::Adult => 2,
            FlagField::Extended => 3,
            FlagField::Convert => 4,
            FlagField::Hardcoded => 5,
            FlagField::Proper => 6,
            FlagField::Repack => 7,
            FlagField::Retail => 8,
            FlagField::Remastered => 9,
            FlagField::Unrated => 10,
            FlagField::Complete => 11,
            FlagField::Dubbed => 12,
            FlagField::Subbed => 13,
            FlagField::Documentary => 14,
            FlagField::Upscaled => 15,
            FlagField::Is3d => 16,
            FlagField::Scene => 17,
        }
    }
}

/// The fields that hold an ordered list of distinct texts.
#[derive(Debug, Clone, Copy, PartialEq, Eq, Structural)]
pub enum ListField {
    Hdr,
    Audio,
    Channels,
    Extras,
}

impl ListField {
    /// How many fields of this kind there are.
    pub open spec fn count() -> nat {
        4
    }

    /// The position of this field among those of its kind.
    pub open spec fn ordinal(self) -> nat {
        match self {
            ListField::Hdr => 0,
            ListField::Audio => 1,
            ListField::Channels => 2,
            ListField::Extras => 3,
        }
    }

    /// The position of this field among those of its kind.
    pub fn index(self) -> (r: usize)
        ensures
            r == self.ordinal(),
            r < Self::count(),
    {
        match self {
            ListField::Hdr => 0,
            ListField::Audio => 1,
            ListField::Channels => 2,
            ListField::Extras => 3,
        }
    }
}

/// The fields that hold a list of numbers.
#[derive(Debug, Clone, Copy, PartialEq, Eq, Structural)]
pub enum NumbersField {
    Volumes,
    Seasons,
    Episodes,
}

impl NumbersField {
    /// How many fields of this kind there are.
    pub open spec fn count() -> nat {
        3
    }

    /// The position of this field among those of its kind.
    pub open spec fn ordinal(self) -> nat {
        match self {
            NumbersField::Volumes => 0,
            NumbersField::Seasons => 1,
            NumbersField::Episodes => 2,
        }
    }

    /// The position of this field among those of its kind.
    pub fn index(self) -> (r: usize)
        ensures
            r == self.ordinal(),
            r < Self::count(),
    {
        match self {
            NumbersField::Volumes => 0,
            NumbersField::Seasons => 1,
            NumbersField::Episodes => 2,
        }
    }
}

} // verus!
