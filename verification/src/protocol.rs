use vstd::prelude::*;

verus! {

/// A version of the Minecraft protocol, from 1.7.2 to 1.21.6.
///
/// Each variant stands for the protocol number that one or more releases share
/// (`V1_8` covers 1.8 to 1.8.9, `V1_21_2` covers 1.21.2 and 1.21.3, and so on).
/// `Any` is the version of a client that has not said which one it speaks.
#[derive(Clone, Copy, Debug, PartialEq, Eq, Structural)]
pub enum ProtocolVersion {
    Any,
    V1_7_2,
    V1_7_6,
    V1_8,
    V1_9,
    V1_9_1,
    V1_9_2,
    V1_9_3,
    V1_10,
    V1_11,
    V1_11_1,
    V1_12,
    V1_12_1,
    V1_12_2,
    V1_13,
    V1_13_1,
    V1_13_2,
    V1_14,
    V1_14_1,
    V1_14_2,
    V1_14_3,
    V1_14_4,
    V1_15,
    V1_15_1,
    V1_15_2,
    V1_16,
    V1_16_1,
    V1_16_2,
    V1_16_3,
    V1_16_4,
    V1_17,
    V1_17_1,
    V1_18,
    V1_18_2,
    V1_19,
    V1_19_1,
    V1_19_3,
    V1_19_4,
    V1_20,
    V1_20_2,
    V1_20_3,
    V1_20_5,
    V1_21,
    V1_21_2,
    V1_21_4,
    V1_21_5,
    V1_21_6,
}

/// Whether `v` is the version that the protocol number `n` stands for: the
/// known version with the greatest number that is at most `n`, or the oldest
/// one for a number below every known version.
pub open spec fn spec_version_for_number(n: i32, v: ProtocolVersion) -> bool {
    &&& v.is_known()
    &&& n >= 4 ==> v.spec_number() <= n
    &&& n < 4 ==> v == ProtocolVersion::V1_7_2
    &&& forall|w: ProtocolVersion| #![trigger w.spec_number()] w.is_known() && w.spec_number() <= n ==> w.spec_number() <= v.spec_number()
}

impl ProtocolVersion {
    /// The protocol number of the version; `Any` has the number -1.
    pub open spec fn spec_number(self) -> int {
        match self {
            ProtocolVersion::Any => -1,
            ProtocolVersion::V1_7_2 => 4,
            ProtocolVersion::V1_7_6 => 5,
            ProtocolVersion::V1_8 => 47,
            ProtocolVersion::V1_9 => 107,
            ProtocolVersion::V1_9_1 => 108,
            ProtocolVersion::V1_9_2 => 109,
            ProtocolVersion::V1_9_3 => 110,
            ProtocolVersion::V1_10 => 210,
            ProtocolVersion::V1_11 => 315,
            ProtocolVersion::V1_11_1 => 316,
            ProtocolVersion::V1_12 => 335,
            ProtocolVersion::V1_12_1 => 338,
            ProtocolVersion::V1_12_2 => 340,
            ProtocolVersion::V1_13 => 393,
            ProtocolVersion::V1_13_1 => 401,
            ProtocolVersion::V1_13_2 => 404,
            ProtocolVersion::V1_14 => 477,
            ProtocolVersion::V1_14_1 => 480,
            ProtocolVersion::V1_14_2 => 485,
            ProtocolVersion::V1_14_3 => 490,
            ProtocolVersion::V1_14_4 => 498,
            ProtocolVersion::V1_15 => 573,
            ProtocolVersion::V1_15_1 => 575,
            ProtocolVersion::V1_15_2 => 578,
            ProtocolVersion::V1_16 => 735,
            ProtocolVersion::V1_16_1 => 736,
            ProtocolVersion::V1_16_2 => 751,
            ProtocolVersion::V1_16_3 => 753,
            ProtocolVersion::V1_16_4 => 754,
            ProtocolVersion::V1_17 => 755,
            ProtocolVersion::V1_17_1 => 756,
            ProtocolVersion::V1_18 => 757,
            ProtocolVersion::V1_18_2 => 758,
            ProtocolVersion::V1_19 => 759,
            ProtocolVersion::V1_19_1 => 760,
            ProtocolVersion::V1_19_3 => 761,
            ProtocolVersion::V1_19_4 => 762,
            ProtocolVersion::V1_20 => 763,
            ProtocolVersion::V1_20_2 => 764,
            ProtocolVersion::V1_20_3 => 765,
            ProtocolVersion::V1_20_5 => 766,
            ProtocolVersion::V1_21 => 767,
            ProtocolVersion::V1_21_2 => 768,
            ProtocolVersion::V1_21_4 => 769,
            ProtocolVersion::V1_21_5 => 770,
            ProtocolVersion::V1_21_6 => 771,
        }
    }

    /// The release name that the version is shown with.
    pub open spec fn spec_name(self) -> Seq<char> {
        self.spec_humanize()@
    }

    /// The release name, as the text that `humanize` returns.
    pub open spec fn spec_humanize(self) -> &'static str {
        match self {
            ProtocolVersion::Any => "any",
            ProtocolVersion::V1_7_2 => "1.7.2",
            ProtocolVersion::V1_7_6 => "1.7.6",
            ProtocolVersion::V1_8 => "1.8",
            ProtocolVersion::V1_9 => "1.9",
            ProtocolVersion::V1_9_1 => "1.9.1",
            ProtocolVersion::V1_9_2 => "1.9.2",
            ProtocolVersion::V1_9_3 => "1.9.3",
            ProtocolVersion::V1_10 => "1.10",
            ProtocolVersion::V1_11 => "1.11",
            ProtocolVersion::V1_11_1 => "1.11.1",
            ProtocolVersion::V1_12 => "1.12",
            ProtocolVersion::V1_12_1 => "1.12.1",
            ProtocolVersion::V1_12_2 => "1.12.2",
            ProtocolVersion::V1_13 => "1.13",
            ProtocolVersion::V1_13_1 => "1.13.1",
            ProtocolVersion::V1_13_2 => "1.13.2",
            ProtocolVersion::V1_14 => "1.14",
            ProtocolVersion::V1_14_1 => "1.14.1",
            ProtocolVersion::V1_14_2 => "1.14.2",
            ProtocolVersion::V1_14_3 => "1.14.3",
            ProtocolVersion::V1_14_4 => "1.14.4",
            ProtocolVersion::V1_15 => "1.15",
            ProtocolVersion::V1_15_1 => "1.15.1",
            ProtocolVersion::V1_15_2 => "1.15.2",
            ProtocolVersion::V1_16 => "1.16",
            ProtocolVersion::V1_16_1 => "1.16.1",
            ProtocolVersion::V1_16_2 => "1.16.2",
            ProtocolVersion::V1_16_3 => "1.16.3",
            ProtocolVersion::V1_16_4 => "1.16.4",
            ProtocolVersion::V1_17 => "1.17",
            ProtocolVersion::V1_17_1 => "1.17.1",
            ProtocolVersion::V1_18 => "1.18",
            ProtocolVersion::V1_18_2 => "1.18.2",
            ProtocolVersion::V1_19 => "1.19",
            ProtocolVersion::V1_19_1 => "1.19.1",
            ProtocolVersion::V1_19_3 => "1.19.3",
            ProtocolVersion::V1_19_4 => "1.19.4",
            ProtocolVersion::V1_20 => "1.20",
            ProtocolVersion::V1_20_2 => "1.20.2",
            ProtocolVersion::V1_20_3 => "1.20.3",
            ProtocolVersion::V1_20_5 => "1.20.5",
            ProtocolVersion::V1_21 => "1.21",
            ProtocolVersion::V1_21_2 => "1.21.2",
            ProtocolVersion::V1_21_4 => "1.21.4",
            ProtocolVersion::V1_21_5 => "1.21.5",
            ProtocolVersion::V1_21_6 => "1.21.6",
        }
    }

    /// The name of the data directory that holds the reports of the version.
    pub open spec fn spec_directory_name(self) -> Seq<char> {
        match self {
            ProtocolVersion::Any => "Any"@,
            ProtocolVersion::V1_7_2 => "V1_7_2"@,
            ProtocolVersion::V1_7_6 => "V1_7_6"@,
            ProtocolVersion::V1_8 => "V1_8"@,
            ProtocolVersion::V1_9 => "V1_9"@,
            ProtocolVersion::V1_9_1 => "V1_9_1"@,
            ProtocolVersion::V1_9_2 => "V1_9_2"@,
            ProtocolVersion::V1_9_3 => "V1_9_3"@,
            ProtocolVersion::V1_10 => "V1_10"@,
            ProtocolVersion::V1_11 => "V1_11"@,
            ProtocolVersion::V1_11_1 => "V1_11_1"@,
            ProtocolVersion::V1_12 => "V1_12"@,
            ProtocolVersion::V1_12_1 => "V1_12_1"@,
            ProtocolVersion::V1_12_2 => "V1_12_2"@,
            ProtocolVersion::V1_13 => "V1_13"@,
            ProtocolVersion::V1_13_1 => "V1_13_1"@,
            ProtocolVersion::V1_13_2 => "V1_13_2"@,
            ProtocolVersion::V1_14 => "V1_14"@,
            ProtocolVersion::V1_14_1 => "V1_14_1"@,
            ProtocolVersion::V1_14_2 => "V1_14_2"@,
            ProtocolVersion::V1_14_3 => "V1_14_3"@,
            ProtocolVersion::V1_14_4 => "V1_14_4"@,
            ProtocolVersion::V1_15 => "V1_15"@,
            ProtocolVersion::V1_15_1 => "V1_15_1"@,
            ProtocolVersion::V1_15_2 => "V1_15_2"@,
            ProtocolVersion::V1_16 => "V1_16"@,
            ProtocolVersion::V1_16_1 => "V1_16_1"@,
            ProtocolVersion::V1_16_2 => "V1_16_2"@,
            ProtocolVersion::V1_16_3 => "V1_16_3"@,
            ProtocolVersion::V1_16_4 => "V1_16_4"@,
            ProtocolVersion::V1_17 => "V1_17"@,
            ProtocolVersion::V1_17_1 => "V1_17_1"@,
            ProtocolVersion::V1_18 => "V1_18"@,
            ProtocolVersion::V1_18_2 => "V1_18_2"@,
            ProtocolVersion::V1_19 => "V1_19"@,
            ProtocolVersion::V1_19_1 => "V1_19_1"@,
            ProtocolVersion::V1_19_3 => "V1_19_3"@,
            ProtocolVersion::V1_19_4 => "V1_19_4"@,
            ProtocolVersion::V1_20 => "V1_20"@,
            ProtocolVersion::V1_20_2 => "V1_20_2"@,
            ProtocolVersion::V1_20_3 => "V1_20_3"@,
            ProtocolVersion::V1_20_5 => "V1_20_5"@,
            ProtocolVersion::V1_21 => "V1_21"@,
            ProtocolVersion::V1_21_2 => "V1_21_2"@,
            ProtocolVersion::V1_21_4 => "V1_21_4"@,
            ProtocolVersion::V1_21_5 => "V1_21_5"@,
            ProtocolVersion::V1_21_6 => "V1_21_6"@,
        }
    }

    pub open spec fn is_known(self) -> bool {
        self != ProtocolVersion::Any
    }

    /// Returns the protocol number of the version.
    pub fn version_number(&self) -> (n: i32)
        ensures
            n == self.spec_number(),
    {
        match self {
            ProtocolVersion::Any => -1,
            ProtocolVersion::V1_7_2 => 4,
            ProtocolVersion::V1_7_6 => 5,
            ProtocolVersion::V1_8 => 47,
            ProtocolVersion::V1_9 => 107,
            ProtocolVersion::V1_9_1 => 108,
            ProtocolVersion::V1_9_2 => 109,
            ProtocolVersion::V1_9_3 => 110,
            ProtocolVersion::V1_10 => 210,
            ProtocolVersion::V1_11 => 315,
            ProtocolVersion::V1_11_1 => 316,
            ProtocolVersion::V1_12 => 335,
            ProtocolVersion::V1_12_1 => 338,
            ProtocolVersion::V1_12_2 => 340,
            ProtocolVersion::V1_13 => 393,
            ProtocolVersion::V1_13_1 => 401,
            ProtocolVersion::V1_13_2 => 404,
            ProtocolVersion::V1_14 => 477,
            ProtocolVersion::V1_14_1 => 480,
            ProtocolVersion::V1_14_2 => 485,
            ProtocolVersion::V1_14_3 => 490,
            ProtocolVersion::V1_14_4 => 498,
            ProtocolVersion::V1_15 => 573,
            ProtocolVersion::V1_15_1 => 575,
            ProtocolVersion::V1_15_2 => 578,
            ProtocolVersion::V1_16 => 735,
            ProtocolVersion::V1_16_1 => 736,
            ProtocolVersion::V1_16_2 => 751,
            ProtocolVersion::V1_16_3 => 753,
            ProtocolVersion::V1_16_4 => 754,
            ProtocolVersion::V1_17 => 755,
            ProtocolVersion::V1_17_1 => 756,
            ProtocolVersion::V1_18 => 757,
            ProtocolVersion::V1_18_2 => 758,
            ProtocolVersion::V1_19 => 759,
            ProtocolVersion::V1_19_1 => 760,
            ProtocolVersion::V1_19_3 => 761,
            ProtocolVersion::V1_19_4 => 762,
            ProtocolVersion::V1_20 => 763,
            ProtocolVersion::V1_20_2 => 764,
            ProtocolVersion::V1_20_3 => 765,
            ProtocolVersion::V1_20_5 => 766,
            ProtocolVersion::V1_21 => 767,
            ProtocolVersion::V1_21_2 => 768,
            ProtocolVersion::V1_21_4 => 769,
            ProtocolVersion::V1_21_5 => 770,
            ProtocolVersion::V1_21_6 => 771,
        }
    }

    /// Returns the release name of the version, such as `1.21.4`.
    pub fn humanize(&self) -> (s: &'static str)
        ensures
            s == self.spec_humanize(),
            s@ == self.spec_name(),
    {
        match self {
            ProtocolVersion::Any => "any",
            ProtocolVersion::V1_7_2 => "1.7.2",
            ProtocolVersion::V1_7_6 => "1.7.6",
            ProtocolVersion::V1_8 => "1.8",
            ProtocolVersion::V1_9 => "1.9",
            ProtocolVersion::V1_9_1 => "1.9.1",
            ProtocolVersion::V1_9_2 => "1.9.2",
            ProtocolVersion::V1_9_3 => "1.9.3",
            ProtocolVersion::V1_10 => "1.10",
            ProtocolVersion::V1_11 => "1.11",
            ProtocolVersion::V1_11_1 => "1.11.1",
            ProtocolVersion::V1_12 => "1.12",
            ProtocolVersion::V1_12_1 => "1.12.1",
            ProtocolVersion::V1_12_2 => "1.12.2",
            ProtocolVersion::V1_13 => "1.13",
            ProtocolVersion::V1_13_1 => "1.13.1",
            ProtocolVersion::V1_13_2 => "1.13.2",
            ProtocolVersion::V1_14 => "1.14",
            ProtocolVersion::V1_14_1 => "1.14.1",
            ProtocolVersion::V1_14_2 => "1.14.2",
            ProtocolVersion::V1_14_3 => "1.14.3",
            ProtocolVersion::V1_14_4 => "1.14.4",
            ProtocolVersion::V1_15 => "1.15",
            ProtocolVersion::V1_15_1 => "1.15.1",
            ProtocolVersion::V1_15_2 => "1.15.2",
            ProtocolVersion::V1_16 => "1.16",
            ProtocolVersion::V1_16_1 => "1.16.1",
            ProtocolVersion::V1_16_2 => "1.16.2",
            ProtocolVersion::V1_16_3 => "1.16.3",
            ProtocolVersion::V1_16_4 => "1.16.4",
            ProtocolVersion::V1_17 => "1.17",
            ProtocolVersion::V1_17_1 => "1.17.1",
            ProtocolVersion::V1_18 => "1.18",
            ProtocolVersion::V1_18_2 => "1.18.2",
            ProtocolVersion::V1_19 => "1.19",
            ProtocolVersion::V1_19_1 => "1.19.1",
            ProtocolVersion::V1_19_3 => "1.19.3",
            ProtocolVersion::V1_19_4 => "1.19.4",
            ProtocolVersion::V1_20 => "1.20",
            ProtocolVersion::V1_20_2 => "1.20.2",
            ProtocolVersion::V1_20_3 => "1.20.3",
            ProtocolVersion::V1_20_5 => "1.20.5",
            ProtocolVersion::V1_21 => "1.21",
            ProtocolVersion::V1_21_2 => "1.21.2",
            ProtocolVersion::V1_21_4 => "1.21.4",
            ProtocolVersion::V1_21_5 => "1.21.5",
            ProtocolVersion::V1_21_6 => "1.21.6",
        }
    }

    /// Returns the name of the data directory of the version, such as `V1_21_4`.
    pub fn directory_name(&self) -> (s: &'static str)
        ensures
            s@ == self.spec_directory_name(),
    {
        match self {
            ProtocolVersion::Any => "Any",
            ProtocolVersion::V1_7_2 => "V1_7_2",
            ProtocolVersion::V1_7_6 => "V1_7_6",
            ProtocolVersion::V1_8 => "V1_8",
            ProtocolVersion::V1_9 => "V1_9",
            ProtocolVersion::V1_9_1 => "V1_9_1",
            ProtocolVersion::V1_9_2 => "V1_9_2",
            ProtocolVersion::V1_9_3 => "V1_9_3",
            ProtocolVersion::V1_10 => "V1_10",
            ProtocolVersion::V1_11 => "V1_11",
            ProtocolVersion::V1_11_1 => "V1_11_1",
            ProtocolVersion::V1_12 => "V1_12",
            ProtocolVersion::V1_12_1 => "V1_12_1",
            ProtocolVersion::V1_12_2 => "V1_12_2",
            ProtocolVersion::V1_13 => "V1_13",
            ProtocolVersion::V1_13_1 => "V1_13_1",
            ProtocolVersion::V1_13_2 => "V1_13_2",
            ProtocolVersion::V1_14 => "V1_14",
            ProtocolVersion::V1_14_1 => "V1_14_1",
            ProtocolVersion::V1_14_2 => "V1_14_2",
            ProtocolVersion::V1_14_3 => "V1_14_3",
            ProtocolVersion::V1_14_4 => "V1_14_4",
            ProtocolVersion::V1_15 => "V1_15",
            ProtocolVersion::V1_15_1 => "V1_15_1",
            ProtocolVersion::V1_15_2 => "V1_15_2",
            ProtocolVersion::V1_16 => "V1_16",
            ProtocolVersion::V1_16_1 => "V1_16_1",
            ProtocolVersion::V1_16_2 => "V1_16_2",
            ProtocolVersion::V1_16_3 => "V1_16_3",
            ProtocolVersion::V1_16_4 => "V1_16_4",
            ProtocolVersion::V1_17 => "V1_17",
            ProtocolVersion::V1_17_1 => "V1_17_1",
            ProtocolVersion::V1_18 => "V1_18",
            ProtocolVersion::V1_18_2 => "V1_18_2",
            ProtocolVersion::V1_19 => "V1_19",
            ProtocolVersion::V1_19_1 => "V1_19_1",
            ProtocolVersion::V1_19_3 => "V1_19_3",
            ProtocolVersion::V1_19_4 => "V1_19_4",
            ProtocolVersion::V1_20 => "V1_20",
            ProtocolVersion::V1_20_2 => "V1_20_2",
            ProtocolVersion::V1_20_3 => "V1_20_3",
            ProtocolVersion::V1_20_5 => "V1_20_5",
            ProtocolVersion::V1_21 => "V1_21",
            ProtocolVersion::V1_21_2 => "V1_21_2",
            ProtocolVersion::V1_21_4 => "V1_21_4",
            ProtocolVersion::V1_21_5 => "V1_21_5",
            ProtocolVersion::V1_21_6 => "V1_21_6",
        }
    }

    /// Returns the known version with the greatest number that is at most `n`;
    /// a number below every known version gives the oldest one.
    pub fn from_number(n: i32) -> (v: ProtocolVersion)
        ensures
            spec_version_for_number(n, v),
    {
        if n >= 771 {
            ProtocolVersion::V1_21_6
        } else if n >= 770 {
            ProtocolVersion::V1_21_5
        } else if n >= 769 {
            ProtocolVersion::V1_21_4
        } else if n >= 768 {
            ProtocolVersion::V1_21_2
        } else if n >= 767 {
            ProtocolVersion::V1_21
        } else if n >= 766 {
            ProtocolVersion::V1_20_5
        } else if n >= 765 {
            ProtocolVersion::V1_20_3
        } else if n >= 764 {
            ProtocolVersion::V1_20_2
        } else if n >= 763 {
            ProtocolVersion::V1_20
        } else if n >= 762 {
            ProtocolVersion::V1_19_4
        } else if n >= 761 {
            ProtocolVersion::V1_19_3
        } else if n >= 760 {
            ProtocolVersion::V1_19_1
        } else if n >= 759 {
            ProtocolVersion::V1_19
        } else if n >= 758 {
            ProtocolVersion::V1_18_2
        } else if n >= 757 {
            ProtocolVersion::V1_18
        } else if n >= 756 {
            ProtocolVersion::V1_17_1
        } else if n >= 755 {
            ProtocolVersion::V1_17
        } else if n >= 754 {
            ProtocolVersion::V1_16_4
        } else if n >= 753 {
            ProtocolVersion::V1_16_3
        } else if n >= 751 {
            ProtocolVersion::V1_16_2
        } else if n >= 736 {
            ProtocolVersion::V1_16_1
        } else if n >= 735 {
            ProtocolVersion::V1_16
        } else if n >= 578 {
            ProtocolVersion::V1_15_2
        } else if n >= 575 {
            ProtocolVersion::V1_15_1
        } else if n >= 573 {
            ProtocolVersion::V1_15
        } else if n >= 498 {
            ProtocolVersion::V1_14_4
        } else if n >= 490 {
            ProtocolVersion::V1_14_3
        } else if n >= 485 {
            ProtocolVersion::V1_14_2
        } else if n >= 480 {
            ProtocolVersion::V1_14_1
        } else if n >= 477 {
            ProtocolVersion::V1_14
        } else if n >= 404 {
            ProtocolVersion::V1_13_2
        } else if n >= 401 {
            ProtocolVersion::V1_13_1
        } else if n >= 393 {
            ProtocolVersion::V1_13
        } else if n >= 340 {
            ProtocolVersion::V1_12_2
        } else if n >= 338 {
            ProtocolVersion::V1_12_1
        } else if n >= 335 {
            ProtocolVersion::V1_12
        } else if n >= 316 {
            ProtocolVersion::V1_11_1
        } else if n >= 315 {
            ProtocolVersion::V1_11
        } else if n >= 210 {
            ProtocolVersion::V1_10
        } else if n >= 110 {
            ProtocolVersion::V1_9_3
        } else if n >= 109 {
            ProtocolVersion::V1_9_2
        } else if n >= 108 {
            ProtocolVersion::V1_9_1
        } else if n >= 107 {
            ProtocolVersion::V1_9
        } else if n >= 47 {
            ProtocolVersion::V1_8
        } else if n >= 5 {
            ProtocolVersion::V1_7_6
        } else {
            ProtocolVersion::V1_7_2
        }
    }

    /// Whether the version is `other` or a later one.
    pub fn is_after_inclusive(&self, other: ProtocolVersion) -> (b: bool)
        ensures
            b == (self.spec_number() >= other.spec_number()),
    {
        self.version_number() >= other.version_number()
    }

    /// Whether the version is `other` or an earlier one.
    pub fn is_before_inclusive(&self, other: ProtocolVersion) -> (b: bool)
        ensures
            b == (self.spec_number() <= other.spec_number()),
    {
        self.version_number() <= other.version_number()
    }

    /// Whether the version lies between `low` and `high`, both included.
    pub fn between_inclusive(&self, low: ProtocolVersion, high: ProtocolVersion) -> (b: bool)
        ensures
            b == (low.spec_number() <= self.spec_number() <= high.spec_number()),
    {
        let n = self.version_number();
        low.version_number() <= n && n <= high.version_number()
    }

    /// Whether the client has not said which version it speaks.
    pub fn is_any(&self) -> (b: bool)
        ensures
            b == (*self == ProtocolVersion::Any),
    {
        matches!(self, ProtocolVersion::Any)
    }

    /// The oldest version the server speaks.
    pub fn oldest() -> (v: ProtocolVersion)
        ensures
            v == ProtocolVersion::V1_7_2,
    {
        ProtocolVersion::V1_7_2
    }

    /// The latest version the server speaks.
    pub fn latest() -> (v: ProtocolVersion)
        ensures
            v == ProtocolVersion::V1_21_6,
    {
        ProtocolVersion::V1_21_6
    }

    pub open spec fn spec_supports_configuration_state(self) -> bool {
        self.spec_number() >= ProtocolVersion::V1_20_2.spec_number()
    }

    /// Whether the version has a configuration state between login and play
    /// (1.20.2 and later).
    pub fn supports_configuration_state(&self) -> (b: bool)
        ensures
            b == self.spec_supports_configuration_state(),
    {
        self.is_after_inclusive(ProtocolVersion::V1_20_2)
    }
}

/// Every known version is above the oldest one and at most the latest one,
/// and no two versions share a protocol number.
pub proof fn lemma_version_numbers(v: ProtocolVersion, w: ProtocolVersion)
    ensures
        v.is_known() ==> ProtocolVersion::V1_7_2.spec_number() <= v.spec_number()
            <= ProtocolVersion::V1_21_6.spec_number(),
        v.spec_number() == w.spec_number() ==> v == w,
{
}

/// Reading back the number of a known version gives that version.
pub proof fn lemma_from_number_of_version_number(v: ProtocolVersion, r: ProtocolVersion)
    requires
        v.is_known(),
        r.is_known(),
        r.spec_number() <= v.spec_number(),
        forall|w: ProtocolVersion| #![trigger w.spec_number()] w.is_known() && w.spec_number() <= v.spec_number() ==> w.spec_number() <= r.spec_number(),
    ensures
        r == v,
{
    assert(v.spec_number() <= r.spec_number());
    lemma_version_numbers(v, r);
}

/// The state of a client connection.
#[derive(Clone, Copy, Debug, PartialEq, Eq, Structural)]
pub enum State {
    Handshake,
    Status,
    Login,
    Transfer,
    Configuration,
    Play,
}

impl State {
    pub open spec fn spec_name(self) -> Seq<char> {
        match self {
            State::Handshake => "handshake"@,
            State::Status => "status"@,
            State::Login => "login"@,
            State::Transfer => "transfer"@,
            State::Configuration => "configuration"@,
            State::Play => "play"@,
        }
    }

    /// The name of the state as the packet reports spell it.
    pub fn name(&self) -> (s: &'static str)
        ensures
            s@ == self.spec_name(),
    {
        match self {
            State::Handshake => "handshake",
            State::Status => "status",
            State::Login => "login",
            State::Transfer => "transfer",
            State::Configuration => "configuration",
            State::Play => "play",
        }
    }
}

impl Default for State {
    fn default() -> (s: State)
        ensures
            s == State::Handshake,
    {
        State::Handshake
    }
}

/// A dimension a player can spawn in.
#[derive(Clone, Copy, Debug, PartialEq, Eq, Structural)]
pub enum Dimension {
    Overworld,
    Nether,
    End,
}

impl Default for Dimension {
    fn default() -> (d: Dimension)
        ensures
            d == Dimension::Overworld,
    {
        Dimension::Overworld
    }
}

impl Dimension {
    /// The name of the dimension's type in the game data.
    pub fn registry_name(&self) -> (s: &'static str)
        ensures
            *self == Dimension::Overworld ==> s@ == "overworld"@,
            *self == Dimension::Nether ==> s@ == "the_nether"@,
            *self == Dimension::End ==> s@ == "the_end"@,
    {
        match self {
            Dimension::Overworld => "overworld",
            Dimension::Nether => "the_nether",
            Dimension::End => "the_end",
        }
    }
}

} // verus!
