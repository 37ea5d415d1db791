use crate::packets::RegistryEntry;
use crate::protocol::ProtocolVersion;
use crate::text::str_eq;
use vstd::prelude::*;

verus! {

/// The shape that registry data takes in a range of protocol versions.
#[derive(Clone, Copy, Debug, PartialEq, Eq, Structural)]
pub enum RegistryFormat {
    V1_20_5,
    V1_20_2,
    V1_19,
    V1_16_2,
    V1_16,
    NoRegistries,
}

impl RegistryFormat {
    pub open spec fn spec_from_version(v: ProtocolVersion) -> RegistryFormat {
        let n = v.spec_number();
        if n >= ProtocolVersion::V1_20_5.spec_number() {
            RegistryFormat::V1_20_5
        } else if ProtocolVersion::V1_20_2.spec_number() <= n <= ProtocolVersion::V1_20_3.spec_number() {
            RegistryFormat::V1_20_2
        } else if ProtocolVersion::V1_19.spec_number() <= n <= ProtocolVersion::V1_20.spec_number() {
            RegistryFormat::V1_19
        } else if ProtocolVersion::V1_16_2.spec_number() <= n <= ProtocolVersion::V1_18_2.spec_number() {
            RegistryFormat::V1_16_2
        } else if ProtocolVersion::V1_16.spec_number() <= n <= ProtocolVersion::V1_16_1.spec_number() {
            RegistryFormat::V1_16
        } else {
            RegistryFormat::NoRegistries
        }
    }

    /// The registry format of a protocol version: 1.20.5 and later, 1.20.2 to
    /// 1.20.3, 1.19 to 1.20, 1.16.2 to 1.18.2, 1.16 to 1.16.1, or none before.
    pub fn from_version(protocol_version: ProtocolVersion) -> (f: RegistryFormat)
        ensures
            f == Self::spec_from_version(protocol_version),
    {
        if protocol_version.is_after_inclusive(ProtocolVersion::V1_20_5) {
            RegistryFormat::V1_20_5
        } else if protocol_version.between_inclusive(ProtocolVersion::V1_20_2, ProtocolVersion::V1_20_3) {
            RegistryFormat::V1_20_2
        } else if protocol_version.between_inclusive(ProtocolVersion::V1_19, ProtocolVersion::V1_20) {
            RegistryFormat::V1_19
        } else if protocol_version.between_inclusive(ProtocolVersion::V1_16_2, ProtocolVersion::V1_18_2) {
            RegistryFormat::V1_16_2
        } else if protocol_version.between_inclusive(ProtocolVersion::V1_16, ProtocolVersion::V1_16_1) {
            RegistryFormat::V1_16
        } else {
            RegistryFormat::NoRegistries
        }
    }
}

/// One registry and its entries.
#[derive(Clone, Debug, PartialEq, Eq)]
pub struct RegistryGroup {
    pub registry_id: String,
    pub entries: Vec<RegistryEntry>,
}

/// The registry data of one protocol version, in the format of that version.
#[derive(Clone, Debug, PartialEq, Eq)]
pub enum Registries {
    V1_20_5 { registries: Vec<RegistryGroup> },
    V1_20_2 { registry_codec: Vec<u8> },
    V1_19 { registry_codec: Vec<u8> },
    V1_16_2 { registry_codec: Vec<u8>, dimension: Vec<u8> },
    V1_16 { registry_codec: Vec<u8> },
    NoRegistries,
}

impl Registries {
    /// The format the registry data is in.
    pub fn format(&self) -> (f: RegistryFormat)
        ensures
            f == self.spec_format(),
    {
        match self {
            Registries::V1_20_5 { .. } => RegistryFormat::V1_20_5,
            Registries::V1_20_2 { .. } => RegistryFormat::V1_20_2,
            Registries::V1_19 { .. } => RegistryFormat::V1_19,
            Registries::V1_16_2 { .. } => RegistryFormat::V1_16_2,
            Registries::V1_16 { .. } => RegistryFormat::V1_16,
            Registries::NoRegistries => RegistryFormat::NoRegistries,
        }
    }

    pub open spec fn spec_format(self) -> RegistryFormat {
        match self {
            Registries::V1_20_5 { .. } => RegistryFormat::V1_20_5,
            Registries::V1_20_2 { .. } => RegistryFormat::V1_20_2,
            Registries::V1_19 { .. } => RegistryFormat::V1_19,
            Registries::V1_16_2 { .. } => RegistryFormat::V1_16_2,
            Registries::V1_16 { .. } => RegistryFormat::V1_16,
            Registries::NoRegistries => RegistryFormat::NoRegistries,
        }
    }
}

/// What the game data holds for one protocol version and spawn dimension: the
/// registries, the index of the dimension type, and the index of the biome the
/// empty chunks are filled with.
#[derive(Clone, Debug, PartialEq, Eq)]
pub struct VersionData {
    pub registries: Registries,
    pub dimension_index: Option<i32>,
    pub void_biome_index: Option<i32>,
}

impl VersionData {
    /// Whether the registries are in the format of the protocol version.
    pub open spec fn fits(self, protocol_version: ProtocolVersion) -> bool {
        self.registries.spec_format() == RegistryFormat::spec_from_version(protocol_version)
    }

    /// Whether the registries are in the format of the protocol version.
    pub fn fits_version(&self, protocol_version: ProtocolVersion) -> (b: bool)
        ensures
            b == self.fits(protocol_version),
    {
        self.registries.format() == RegistryFormat::from_version(protocol_version)
    }
}

/// What a look at a data directory found.
#[derive(Clone, Debug, PartialEq, Eq)]
pub enum DirectoryListing {
    /// There is no such directory.
    Missing,
    /// The directory exists but could not be read.
    Unreadable,
    /// The names (without extension) of the files in the directory, in the
    /// order the directory was read.
    Files(Vec<String>),
}

/// Finds the index of an entry in a registry directory listing.
pub fn get_entry_index(listing: &DirectoryListing, entry_name: &str, default: usize) -> (idx: usize)
    ensures
        match listing {
            DirectoryListing::Missing => idx == 1,
            DirectoryListing::Unreadable => idx == default,
            DirectoryListing::Files(names) => {
                &&& (idx < names@.len() && names@[idx as int]@ == entry_name@ && forall|j: int| 0 <= j < idx ==> names@[j]@ != entry_name@)
                    || (idx == default && forall|j: int| 0 <= j < names@.len() ==> names@[j]@ != entry_name@)
            },
        },
{
    match listing {
        DirectoryListing::Missing => 1,
        DirectoryListing::Unreadable => default,
        DirectoryListing::Files(names) => {
            let mut i: usize = 0;
            while i < names.len()
                invariant
                    *listing == DirectoryListing::Files(*names),
                    i <= names@.len(),
                    forall|j: int| 0 <= j < i ==> names@[j]@ != entry_name@,
                decreases names@.len() - i,
            {
                if str_eq(names[i].as_str(), entry_name) {
                    return i;
                }
                i = i + 1;
            }
            default
        },
    }
}

/// The index of the biome that fills the empty chunks ("plains"), or 1.
pub fn get_the_void_index(listing: &DirectoryListing) -> (idx: usize)
    ensures
        match listing {
            DirectoryListing::Missing => idx == 1,
            DirectoryListing::Unreadable => idx == 1,
            DirectoryListing::Files(names) => {
                (idx < names@.len() && names@[idx as int]@ == "plains"@ && forall|j: int| 0 <= j < idx ==> names@[j]@ != "plains"@)
                    || (idx == 1 && forall|j: int| 0 <= j < names@.len() ==> names@[j]@ != "plains"@)
            },
        },
{
    get_entry_index(listing, "plains", 1)
}

/// The index of a dimension type in the registry, or 0.
pub fn get_dimension_type_index(listing: &DirectoryListing, dimension_name: &str) -> (idx: usize)
    ensures
        match listing {
            DirectoryListing::Missing => idx == 1,
            DirectoryListing::Unreadable => idx == 0,
            DirectoryListing::Files(names) => {
                (idx < names@.len() && names@[idx as int]@ == dimension_name@ && forall|j: int| 0 <= j < idx ==> names@[j]@ != dimension_name@)
                    || (idx == 0 && forall|j: int| 0 <= j < names@.len() ==> names@[j]@ != dimension_name@)
            },
        },
{
    get_entry_index(listing, dimension_name, 0)
}

} // verus!
