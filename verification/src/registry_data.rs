use crate::packets::RegistryEntry;
use crate::registries::RegistryGroup;
use crate::text::{concat, contains_str, spec_occurs_at, str_eq};
use vstd::prelude::*;

verus! {

/// One entry of a registry read from the game data: the registry it belongs
/// to, its name without namespace, and its encoded data.
pub struct RegistryFileEntry {
    pub registry_id: String,
    pub entry_id: String,
    pub nbt: Vec<u8>,
}

/// The registries that are sent to clients, as they appear in the paths of
/// the game data.
pub open spec fn spec_registries_to_send() -> Seq<Seq<char>> {
    seq![
        "banner_pattern"@,
        "chat_type"@,
        "damage_type"@,
        "dimension_type"@,
        "painting_variant"@,
        "trim_material"@,
        "trim_pattern"@,
        "wolf_variant"@,
        "worldgen/biome"@,
    ]
}

/// The registries that are kept, by identifier.
pub open spec fn spec_available_registries() -> Seq<Seq<char>> {
    seq![
        "minecraft:banner_pattern"@,
        "minecraft:chat_type"@,
        "minecraft:damage_type"@,
        "minecraft:dimension_type"@,
        "minecraft:painting_variant"@,
        "minecraft:trim_material"@,
        "minecraft:trim_pattern"@,
        "minecraft:wolf_variant"@,
        "minecraft:worldgen/biome"@,
    ]
}

fn registries_to_send() -> (v: Vec<&'static str>)
    ensures
        v@.len() == spec_registries_to_send().len(),
        forall|i: int| 0 <= i < v@.len() ==> #[trigger] v@[i]@ == spec_registries_to_send()[i],
{
    let v = vec![
        "banner_pattern",
        "chat_type",
        "damage_type",
        "dimension_type",
        "painting_variant",
        "trim_material",
        "trim_pattern",
        "wolf_variant",
        "worldgen/biome",
    ];
    assert(v@.len() == 9);
    v
}

fn available_registries() -> (v: Vec<&'static str>)
    ensures
        v@.len() == spec_available_registries().len(),
        forall|i: int| 0 <= i < v@.len() ==> #[trigger] v@[i]@ == spec_available_registries()[i],
{
    let v = vec![
        "minecraft:banner_pattern",
        "minecraft:chat_type",
        "minecraft:damage_type",
        "minecraft:dimension_type",
        "minecraft:painting_variant",
        "minecraft:trim_material",
        "minecraft:trim_pattern",
        "minecraft:wolf_variant",
        "minecraft:worldgen/biome",
    ];
    assert(v@.len() == 9);
    v
}

/// Whether a file of the game data belongs to a registry that is sent: its
/// path names one of them.
pub fn is_sent_registry_path(path: &str) -> (b: bool)
    ensures
        b == exists|k: int, i: int| 0 <= k < spec_registries_to_send().len() && #[trigger] spec_occurs_at(path@, spec_registries_to_send()[k], i),
{
    let names = registries_to_send();
    let mut k: usize = 0;
    while k < names.len()
        invariant
            names@.len() == spec_registries_to_send().len(),
            forall|j: int| 0 <= j < names@.len() ==> #[trigger] names@[j]@ == spec_registries_to_send()[j],
            k <= names@.len(),
            forall|j: int, i: int| 0 <= j < k ==> !#[trigger] spec_occurs_at(path@, spec_registries_to_send()[j], i),
        decreases names@.len() - k,
    {
        assert(names@[k as int]@ == spec_registries_to_send()[k as int]);
        if contains_str(path, names[k]) {
            return true;
        }
        k = k + 1;
    }
    false
}

/// Whether a registry is kept.
pub fn is_available_registry(registry_id: &str) -> (b: bool)
    ensures
        b == spec_available_registries().contains(registry_id@),
{
    let names = available_registries();
    let mut k: usize = 0;
    while k < names.len()
        invariant
            names@.len() == spec_available_registries().len(),
            forall|j: int| 0 <= j < names@.len() ==> #[trigger] names@[j]@ == spec_available_registries()[j],
            k <= names@.len(),
            forall|j: int| 0 <= j < k ==> spec_available_registries()[j] != registry_id@,
        decreases names@.len() - k,
    {
        if str_eq(names[k], registry_id) {
            assert(spec_available_registries()[k as int] == registry_id@);
            return true;
        }
        k = k + 1;
    }
    false
}

/// What a registry group holds: its identifier, and the name and data of
/// each entry in order.
pub open spec fn spec_group_view(g: RegistryGroup) -> (Seq<char>, Seq<(Seq<char>, Seq<u8>)>) {
    (g.registry_id@, g.entries@.map_values(|e: RegistryEntry| (e.entry_id@, e.data@)))
}

/// The index of the group of a registry, if there is one.
pub open spec fn spec_group_index(groups: Seq<(Seq<char>, Seq<(Seq<char>, Seq<u8>)>)>, registry_id: Seq<char>) -> Option<int>
    decreases groups.len(),
{
    if groups.len() == 0 {
        None
    } else if groups.last().0 == registry_id {
        Some(groups.len() - 1)
    } else {
        spec_group_index(groups.drop_last(), registry_id)
    }
}

/// The entries grouped by registry: the registries in the order they first
/// appear, and in each, the entries in their order, named in the `minecraft`
/// namespace.
pub open spec fn spec_grouped(entries: Seq<(Seq<char>, Seq<char>, Seq<u8>)>) -> Seq<(Seq<char>, Seq<(Seq<char>, Seq<u8>)>)>
    decreases entries.len(),
{
    if entries.len() == 0 {
        Seq::empty()
    } else {
        let groups = spec_grouped(entries.drop_last());
        let e = entries.last();
        let item = ("minecraft:"@ + e.1, e.2);
        match spec_group_index(groups, e.0) {
            Some(k) => groups.update(k, (groups[k].0, groups[k].1.push(item))),
            None => groups.push((e.0, seq![item])),
        }
    }
}

/// What a registry file entry holds.
pub open spec fn spec_file_entry_view(e: RegistryFileEntry) -> (Seq<char>, Seq<char>, Seq<u8>) {
    (e.registry_id@, e.entry_id@, e.nbt@)
}

proof fn lemma_group_index_found(groups: Seq<(Seq<char>, Seq<(Seq<char>, Seq<u8>)>)>, registry_id: Seq<char>)
    ensures
        match spec_group_index(groups, registry_id) {
            Some(k) => 0 <= k < groups.len() && groups[k].0 == registry_id,
            None => forall|j: int| 0 <= j < groups.len() ==> groups[j].0 != registry_id,
        },
    decreases groups.len(),
{
    if groups.len() > 0 {
        lemma_group_index_found(groups.drop_last(), registry_id);
        assert forall|j: int| 0 <= j < groups.len() - 1 implies groups.drop_last()[j] == groups[j] by {}
    }
}

/// No registry has two groups.
pub proof fn lemma_grouped_ids_distinct(entries: Seq<(Seq<char>, Seq<char>, Seq<u8>)>)
    ensures
        forall|i: int, j: int| 0 <= i < j < spec_grouped(entries).len() ==> spec_grouped(entries)[i].0 != spec_grouped(entries)[j].0,
    decreases entries.len(),
{
    if entries.len() > 0 {
        lemma_grouped_ids_distinct(entries.drop_last());
        let groups = spec_grouped(entries.drop_last());
        lemma_group_index_found(groups, entries.last().0);
    }
}

/// The number of entries in all the groups.
pub open spec fn spec_entry_total(groups: Seq<(Seq<char>, Seq<(Seq<char>, Seq<u8>)>)>) -> nat
    decreases groups.len(),
{
    if groups.len() == 0 {
        0
    } else {
        spec_entry_total(groups.drop_last()) + groups.last().1.len()
    }
}

proof fn lemma_entry_total_update(groups: Seq<(Seq<char>, Seq<(Seq<char>, Seq<u8>)>)>, k: int, g: (Seq<char>, Seq<(Seq<char>, Seq<u8>)>))
    requires
        0 <= k < groups.len(),
        g.1.len() == groups[k].1.len() + 1,
    ensures
        spec_entry_total(groups.update(k, g)) == spec_entry_total(groups) + 1,
    decreases groups.len(),
{
    let updated = groups.update(k, g);
    if k == groups.len() - 1 {
        assert(updated.drop_last() =~= groups.drop_last());
    } else {
        assert(updated.drop_last() =~= groups.drop_last().update(k, g));
        lemma_entry_total_update(groups.drop_last(), k, g);
    }
}

/// Grouping loses no entry and adds none: the groups hold as many entries
/// as were read.
pub proof fn lemma_grouped_entry_count(entries: Seq<(Seq<char>, Seq<char>, Seq<u8>)>)
    ensures
        spec_entry_total(spec_grouped(entries)) == entries.len(),
    decreases entries.len(),
{
    if entries.len() > 0 {
        lemma_grouped_entry_count(entries.drop_last());
        let groups = spec_grouped(entries.drop_last());
        let e = entries.last();
        let item = ("minecraft:"@ + e.1, e.2);
        lemma_group_index_found(groups, e.0);
        match spec_group_index(groups, e.0) {
            Some(k) => {
                lemma_entry_total_update(groups, k, (groups[k].0, groups[k].1.push(item)));
            },
            None => {
                assert(groups.push((e.0, seq![item])).drop_last() =~= groups);
            },
        }
    }
}

/// Finds the group of a registry.
fn find_group(groups: &Vec<RegistryGroup>, registry_id: &str) -> (k: Option<usize>)
    ensures
        spec_group_index(groups@.map_values(|g: RegistryGroup| spec_group_view(g)), registry_id@) == match k {
            Some(i) => Some(i as int),
            None => None::<int>,
        },
{
    let ghost views = groups@.map_values(|g: RegistryGroup| spec_group_view(g));
    assert(views.take(groups@.len() as int) =~= views);
    let mut i: usize = groups.len();
    while i > 0
        invariant
            i <= groups@.len(),
            views == groups@.map_values(|g: RegistryGroup| spec_group_view(g)),
            spec_group_index(views, registry_id@) == spec_group_index(views.take(i as int), registry_id@),
        decreases i,
    {
        let ghost prefix = views.take(i as int);
        assert(prefix.drop_last() =~= views.take(i - 1));
        assert(prefix.last() == views[i - 1]);
        if str_eq(groups[i - 1].registry_id.as_str(), registry_id) {
            return Some(i - 1);
        }
        i = i - 1;
    }
    assert(views.take(0) =~= Seq::<(Seq<char>, Seq<(Seq<char>, Seq<u8>)>)>::empty());
    None
}

/// Groups the entries read from the game data by registry: the registries
/// in the order they first appear, each with its entries in order, named in
/// the `minecraft` namespace.
pub fn group_registries(entries: Vec<RegistryFileEntry>) -> (groups: Vec<RegistryGroup>)
    ensures
        groups@.map_values(|g: RegistryGroup| spec_group_view(g)) == spec_grouped(entries@.map_values(|e: RegistryFileEntry| spec_file_entry_view(e))),
{
    let ghost all = entries@.map_values(|e: RegistryFileEntry| spec_file_entry_view(e));
    let mut rest = entries;
    let mut groups: Vec<RegistryGroup> = Vec::new();
    let ghost mut done: int = 0;
    assert(all.take(0) =~= Seq::<(Seq<char>, Seq<char>, Seq<u8>)>::empty());
    while rest.len() > 0
        invariant
            0 <= done <= all.len(),
            rest@.map_values(|e: RegistryFileEntry| spec_file_entry_view(e)) == all.skip(done),
            groups@.map_values(|g: RegistryGroup| spec_group_view(g)) == spec_grouped(all.take(done)),
        decreases rest@.len(),
    {
        let ghost before = groups@.map_values(|g: RegistryGroup| spec_group_view(g));
        assert(rest@.map_values(|x: RegistryFileEntry| spec_file_entry_view(x)).len() == rest@.len());
        assert(done < all.len());
        assert(rest@.map_values(|x: RegistryFileEntry| spec_file_entry_view(x))[0] == spec_file_entry_view(rest@[0]));
        let ghost old_rest = rest@;
        let entry = rest.remove(0);
        assert forall|i: int| 0 <= i < rest@.len() implies #[trigger] rest@[i] == old_rest[i + 1] by {}
        let ghost e = spec_file_entry_view(entry);
        assert(e == all[done]) by {
            assert(all.skip(done)[0] == all[done]);
        }
        let RegistryFileEntry { registry_id, entry_id, nbt } = entry;
        let name = concat("minecraft:", entry_id.as_str());
        let item = RegistryEntry { entry_id: name, data: nbt };
        assert(all.take(done + 1).drop_last() =~= all.take(done));
        assert(all.take(done + 1).last() == e);
        match find_group(&groups, registry_id.as_str()) {
            Some(k) => {
                proof {
                    lemma_group_index_found(before, e.0);
                }
                assert(before.len() == groups@.len());
                let mut group = groups.remove(k);
                let ghost old_entries = group.entries@;
                group.entries.push(item);
                assert(group.entries@.map_values(|x: RegistryEntry| (x.entry_id@, x.data@))
                    =~= old_entries.map_values(|x: RegistryEntry| (x.entry_id@, x.data@)).push(("minecraft:"@ + e.1, e.2)));
                groups.insert(k, group);
                assert(groups@.map_values(|g: RegistryGroup| spec_group_view(g))
                    =~= before.update(k as int, (before[k as int].0, before[k as int].1.push(("minecraft:"@ + e.1, e.2)))));
            },
            None => {
                let mut new_entries: Vec<RegistryEntry> = Vec::new();
                new_entries.push(item);
                groups.push(RegistryGroup { registry_id, entries: new_entries });
                assert(new_entries@.map_values(|x: RegistryEntry| (x.entry_id@, x.data@)) =~= seq![("minecraft:"@ + e.1, e.2)]);
                assert(groups@.map_values(|g: RegistryGroup| spec_group_view(g)) =~= before.push((e.0, seq![("minecraft:"@ + e.1, e.2)])));
            },
        }
        proof {
            done = done + 1;
        }
        assert forall|i: int| 0 <= i < rest@.len() implies spec_file_entry_view(#[trigger] rest@[i]) == all.skip(done)[i] by {
            assert(old_rest.map_values(|x: RegistryFileEntry| spec_file_entry_view(x))[i + 1] == spec_file_entry_view(old_rest[i + 1]));
        }
        assert(rest@.map_values(|x: RegistryFileEntry| spec_file_entry_view(x)) =~= all.skip(done));
    }
    assert(all.take(done) =~= all);
    groups
}

} // verus!
