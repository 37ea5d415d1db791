use pico_limbo::registries::{DirectoryListing, Registries, RegistryFormat, VersionData, get_dimension_type_index, get_entry_index, get_the_void_index};
use pico_limbo::registry_data::{group_registries, is_available_registry, is_sent_registry_path, RegistryFileEntry};
use pico_limbo::protocol::ProtocolVersion;

fn entry(registry_id: &str, entry_id: &str, byte: u8) -> RegistryFileEntry {
    RegistryFileEntry { registry_id: registry_id.to_string(), entry_id: entry_id.to_string(), nbt: vec![byte] }
}

#[test]
fn entries_are_grouped_by_registry_in_order() {
    let groups = group_registries(vec![
        entry("minecraft:dimension_type", "overworld", 1),
        entry("minecraft:worldgen/biome", "plains", 2),
        entry("minecraft:dimension_type", "the_end", 3),
        entry("minecraft:worldgen/biome", "the_void", 4),
        entry("minecraft:damage_type", "fall", 5),
    ]);
    let summary: Vec<(String, Vec<(String, Vec<u8>)>)> = groups
        .iter()
        .map(|g| (g.registry_id.clone(), g.entries.iter().map(|e| (e.entry_id.clone(), e.data.clone())).collect()))
        .collect();
    assert_eq!(
        summary,
        vec![
            (
                "minecraft:dimension_type".to_string(),
                vec![("minecraft:overworld".to_string(), vec![1]), ("minecraft:the_end".to_string(), vec![3])]
            ),
            (
                "minecraft:worldgen/biome".to_string(),
                vec![("minecraft:plains".to_string(), vec![2]), ("minecraft:the_void".to_string(), vec![4])]
            ),
            ("minecraft:damage_type".to_string(), vec![("minecraft:fall".to_string(), vec![5])]),
        ]
    );
    assert!(group_registries(vec![]).is_empty());
}

#[test]
fn registry_files_are_filtered_by_path_and_identifier() {
    assert!(is_sent_registry_path("data/minecraft/worldgen/biome/plains.json"));
    assert!(is_sent_registry_path("data/minecraft/dimension_type/overworld.json"));
    assert!(!is_sent_registry_path("data/minecraft/recipe/stick.json"));
    assert!(is_available_registry("minecraft:wolf_variant"));
    assert!(!is_available_registry("minecraft:recipe"));
    assert!(!is_available_registry("wolf_variant"));
}

#[test]
fn registry_format_follows_the_version() {
    assert_eq!(RegistryFormat::from_version(ProtocolVersion::V1_21_4), RegistryFormat::V1_20_5);
    assert_eq!(RegistryFormat::from_version(ProtocolVersion::V1_20_3), RegistryFormat::V1_20_2);
    assert_eq!(RegistryFormat::from_version(ProtocolVersion::V1_19_4), RegistryFormat::V1_19);
    assert_eq!(RegistryFormat::from_version(ProtocolVersion::V1_18_2), RegistryFormat::V1_16_2);
    assert_eq!(RegistryFormat::from_version(ProtocolVersion::V1_16_1), RegistryFormat::V1_16);
    assert_eq!(RegistryFormat::from_version(ProtocolVersion::V1_15_2), RegistryFormat::NoRegistries);
}

#[test]
fn entry_indexes_are_found_in_directory_listings() {
    let listing = DirectoryListing::Files(vec!["badlands".to_string(), "plains".to_string(), "the_void".to_string()]);
    assert_eq!(get_the_void_index(&listing), 1);
    assert_eq!(get_entry_index(&listing, "the_void", 7), 2);
    assert_eq!(get_entry_index(&listing, "ocean", 7), 7);
    assert_eq!(get_dimension_type_index(&listing, "the_end"), 0);
    assert_eq!(get_dimension_type_index(&DirectoryListing::Missing, "overworld"), 1);
    assert_eq!(get_the_void_index(&DirectoryListing::Unreadable), 1);
}

#[test]
fn version_data_fits_the_versions_of_its_format() {
    let data = VersionData { registries: Registries::V1_19 { registry_codec: vec![] }, dimension_index: None, void_biome_index: Some(1) };
    assert!(data.fits_version(ProtocolVersion::V1_19));
    assert!(data.fits_version(ProtocolVersion::V1_20));
    assert!(!data.fits_version(ProtocolVersion::V1_20_2));
    let none = VersionData { registries: Registries::NoRegistries, dimension_index: None, void_biome_index: None };
    assert!(none.fits_version(ProtocolVersion::Any));
    assert!(none.fits_version(ProtocolVersion::V1_12_2));
    assert_eq!(none.registries.format(), RegistryFormat::NoRegistries);
}
