//! The pixel formats, each with a DRM modifier, that a device can share.

use vstd::prelude::*;

verus! {

/// Code of the format with 8 bits each of alpha, red, green and blue.
pub const ARGB8888: u32 = 0x3432_5241;

/// Code of the format with 8 bits each of red, green and blue, and 8 unused.
pub const XRGB8888: u32 = 0x3432_5258;

/// `drm_fourcc::DrmFourcc::Argb8888`, as the number that the variant stands
/// for: `drm_fourcc` defines it by its constant `DRM_FOURCC_ARGB8888`, which
/// is 875713089.
#[verifier::external_body]
fn argb8888() -> (code: u32)
    ensures
        code == ARGB8888,
{
    drm_fourcc::DrmFourcc::Argb8888 as u32
}

/// `drm_fourcc::DrmFourcc::Xrgb8888`, as the number that the variant stands
/// for: `drm_fourcc` defines it by its constant `DRM_FOURCC_XRGB8888`, which
/// is 875713112.
#[verifier::external_body]
fn xrgb8888() -> (code: u32)
    ensures
        code == XRGB8888,
{
    drm_fourcc::DrmFourcc::Xrgb8888 as u32
}

/// A pixel format together with the layout of its memory.
#[derive(Clone, Copy, Debug, PartialEq, Eq, Structural)]
pub struct FormatKey {
    /// The four character code of the format.
    pub code: u32,
    /// The modifier that names the layout.
    pub modifier: u64,
}

/// What a device reports of one modifier of a format.
#[derive(Clone, Copy, Debug, PartialEq, Eq, Structural)]
pub struct ModifierProperties {
    /// The modifier.
    pub drm_format_modifier: u64,
    /// The number of memory planes of an image with this modifier.
    pub drm_format_modifier_plane_count: u32,
    /// What images with this modifier can be used for, as a bit set.
    pub drm_format_modifier_tiling_features: u32,
}

/// The formats that a device can share, each with what the device reported
/// of its modifier. A format occurs once.
#[derive(Debug)]
pub struct FormatTable {
    entries: Vec<(FormatKey, ModifierProperties)>,
}

/// Some place of `key` among the entries.
spec fn place_of(entries: Seq<(FormatKey, ModifierProperties)>, key: FormatKey) -> int {
    choose|i: int| 0 <= i < entries.len() && entries[i].0 == key
}

/// The table that a list of entries stands for.
spec fn table_of(entries: Seq<(FormatKey, ModifierProperties)>) -> Map<
    FormatKey,
    ModifierProperties,
> {
    Map::new(
        |key: FormatKey| exists|i: int| 0 <= i < entries.len() && entries[i].0 == key,
        |key: FormatKey| entries[place_of(entries, key)].1,
    )
}

/// No format occurs twice.
spec fn distinct(entries: Seq<(FormatKey, ModifierProperties)>) -> bool {
    forall|i: int, j: int| 0 <= i < j < entries.len() ==> entries[i].0 != entries[j].0
}

/// The table after the properties of one more modifier were entered: under
/// both formats that this crate shares.
pub open spec fn with_modifier(
    table: Map<FormatKey, ModifierProperties>,
    properties: ModifierProperties,
) -> Map<FormatKey, ModifierProperties> {
    table.insert(
        (FormatKey { code: ARGB8888, modifier: properties.drm_format_modifier }),
        properties,
    ).insert((FormatKey { code: XRGB8888, modifier: properties.drm_format_modifier }), properties)
}

/// The table that a device's list of modifiers gives: each entered in
/// turn, so that of two reports of one modifier the later one stays.
pub open spec fn table_of_modifiers(list: Seq<ModifierProperties>) -> Map<
    FormatKey,
    ModifierProperties,
>
    decreases list.len(),
{
    if list.len() == 0 {
        Map::empty()
    } else {
        with_modifier(table_of_modifiers(list.drop_last()), list.last())
    }
}

impl View for FormatTable {
    type V = Map<FormatKey, ModifierProperties>;

    closed spec fn view(&self) -> Map<FormatKey, ModifierProperties> {
        table_of(self.entries@)
    }
}

impl FormatTable {
    /// No format occurs twice among the entries.
    #[verifier::type_invariant]
    spec fn wf(&self) -> bool {
        distinct(self.entries@)
    }

    /// A table without formats.
    pub fn new() -> (table: FormatTable)
        ensures
            table@ == Map::<FormatKey, ModifierProperties>::empty(),
    {
        let table = FormatTable { entries: Vec::new() };
        assert(table@ =~= Map::<FormatKey, ModifierProperties>::empty());
        table
    }

    /// What the device reported of a format, if the table holds it.
    pub fn get(&self, key: FormatKey) -> (properties: Option<ModifierProperties>)
        ensures
            properties.is_some() <==> self@.dom().contains(key),
            properties matches Some(p) ==> p == self@[key],
    {
        proof {
            use_type_invariant(self);
        }
        match find(&self.entries, key) {
            Some(i) => Some(self.entries[i].1),
            None => None,
        }
    }

    /// The table of a device: the properties of each modifier that the
    /// device reported for the reference format, entered in the order of
    /// the list under both formats that this crate shares.
    pub fn from_modifiers(list: &Vec<ModifierProperties>) -> (table: FormatTable)
        ensures
            table@ == table_of_modifiers(list@),
    {
        let mut entries: Vec<(FormatKey, ModifierProperties)> = Vec::new();
        let mut i: usize = 0;
        assert(list@.take(0) =~= Seq::<ModifierProperties>::empty());
        assert(table_of(entries@) =~= Map::<FormatKey, ModifierProperties>::empty());
        while i < list.len()
            invariant
                i <= list.len(),
                distinct(entries@),
                table_of(entries@) == table_of_modifiers(list@.take(i as int)),
            decreases list.len() - i,
        {
            let properties = list[i];
            proof {
                assert(list@.take(i + 1).drop_last() =~= list@.take(i as int));
                assert(list@.take(i + 1).last() == properties);
            }
            enter(
                &mut entries,
                FormatKey { code: argb8888(), modifier: properties.drm_format_modifier },
                properties,
            );
            enter(
                &mut entries,
                FormatKey { code: xrgb8888(), modifier: properties.drm_format_modifier },
                properties,
            );
            i += 1;
        }
        assert(list@.take(list.len() as int) =~= list@);
        FormatTable { entries }
    }
}

impl Clone for FormatTable {
    /// A table that holds the same formats.
    fn clone(&self) -> (copy: Self)
        ensures
            copy@ == self@,
    {
        proof {
            use_type_invariant(self);
        }
        let mut entries: Vec<(FormatKey, ModifierProperties)> = Vec::new();
        let mut i: usize = 0;
        while i < self.entries.len()
            invariant
                i <= self.entries.len(),
                entries@ == self.entries@.take(i as int),
            decreases self.entries.len() - i,
        {
            entries.push(self.entries[i]);
            assert(entries@ =~= self.entries@.take(i + 1));
            i += 1;
        }
        assert(entries@ =~= self.entries@);
        FormatTable { entries }
    }
}

/// The place of a format among the entries, if it has one.
fn find(entries: &Vec<(FormatKey, ModifierProperties)>, key: FormatKey) -> (place: Option<usize>)
    requires
        distinct(entries@),
    ensures
        place.is_some() <==> table_of(entries@).dom().contains(key),
        place matches Some(i) ==> i < entries@.len() && entries@[i as int].0 == key && table_of(
            entries@,
        )[key] == entries@[i as int].1,
{
    let mut i: usize = 0;
    while i < entries.len()
        invariant
            i <= entries.len(),
            distinct(entries@),
            forall|k: int| 0 <= k < i ==> entries@[k].0 != key,
        decreases entries.len() - i,
    {
        if entries[i].0 == key {
            proof {
                unique_place(entries@, key);
            }
            return Some(i);
        }
        i += 1;
    }
    None
}

/// Enters a format, in place of what the entries held of it.
fn enter(
    entries: &mut Vec<(FormatKey, ModifierProperties)>,
    key: FormatKey,
    properties: ModifierProperties,
)
    requires
        distinct(old(entries)@),
    ensures
        distinct(final(entries)@),
        table_of(final(entries)@) == table_of(old(entries)@).insert(key, properties),
{
    let ghost before = entries@;
    match find(entries, key) {
        Some(i) => {
            entries[i] = (key, properties);
            proof {
                let after = entries@;
                assert(distinct(after)) by {
                    assert forall|a: int, b: int| 0 <= a < b < after.len() implies after[a].0
                        != after[b].0 by {
                        assert(after[a].0 == before[a].0);
                        assert(after[b].0 == before[b].0);
                    }
                }
                same_keys(before, after);
                assert forall|k: FormatKey| #[trigger]
                    table_of(before).insert(key, properties).dom().contains(k) implies table_of(
                    after,
                )[k] == table_of(before).insert(key, properties)[k] by {
                    unique_place(after, k);
                    unique_place(before, k);
                }
                assert(table_of(after) =~= table_of(before).insert(key, properties));
            }
        },
        None => {
            entries.push((key, properties));
            proof {
                let after = entries@;
                assert(after[before.len() as int].0 == key);
                assert(distinct(after)) by {
                    assert forall|a: int, b: int| 0 <= a < b < after.len() implies after[a].0
                        != after[b].0 by {
                        if b < before.len() {
                            assert(after[b] == before[b]);
                        }
                        assert(after[a] == before[a]);
                        assert(table_of(before).dom().contains(before[a].0));
                    }
                }
                assert forall|k: FormatKey| #[trigger]
                    table_of(before).insert(key, properties).dom().contains(k) implies table_of(
                    after,
                ).dom().contains(k) && table_of(after)[k] == table_of(before).insert(
                    key,
                    properties,
                )[k] by {
                    if k == key {
                        assert(after[before.len() as int].0 == k);
                    } else {
                        let p = place_of(before, k);
                        assert(after[p].0 == k);
                        unique_place(before, k);
                    }
                    unique_place(after, k);
                }
                assert forall|k: FormatKey| #[trigger]
                    table_of(after).dom().contains(k) implies table_of(before).insert(
                    key,
                    properties,
                ).dom().contains(k) by {
                    let p = place_of(after, k);
                    if p < before.len() {
                        assert(before[p].0 == k);
                    }
                }
                assert(table_of(after) =~= table_of(before).insert(key, properties));
            }
        },
    }
}

/// The table of a device holds a format exactly if it is one of the two
/// that this crate shares and the device reported its modifier; what it
/// holds of the format is the last report of that modifier.
pub proof fn table_holds_what_was_reported(list: Seq<ModifierProperties>, key: FormatKey)
    ensures
        table_of_modifiers(list).dom().contains(key) <==> (key.code == ARGB8888 || key.code
            == XRGB8888) && exists|i: int|
            0 <= i < list.len() && (#[trigger] list[i]).drm_format_modifier == key.modifier,
        table_of_modifiers(list).dom().contains(key) ==> exists|i: int|
            0 <= i < list.len() && #[trigger] list[i] == table_of_modifiers(list)[key]
                && list[i].drm_format_modifier == key.modifier && forall|j: int|
                i < j < list.len() ==> (#[trigger] list[j]).drm_format_modifier != key.modifier,
    decreases list.len(),
{
    if list.len() > 0 {
        let rest = list.drop_last();
        let last = list.last();
        table_holds_what_was_reported(rest, key);
        let shared = key.code == ARGB8888 || key.code == XRGB8888;
        if shared && last.drm_format_modifier == key.modifier {
            assert(list[list.len() - 1] == last);
            assert(table_of_modifiers(list)[key] == last);
        } else if table_of_modifiers(rest).dom().contains(key) {
            let i = choose|i: int|
                0 <= i < rest.len() && #[trigger] rest[i] == table_of_modifiers(rest)[key]
                    && rest[i].drm_format_modifier == key.modifier && forall|j: int|
                    i < j < rest.len() ==> (#[trigger] rest[j]).drm_format_modifier != key.modifier;
            assert(list[i] == rest[i]);
            assert(table_of_modifiers(list)[key] == table_of_modifiers(rest)[key]);
            assert forall|j: int| i < j < list.len() implies (#[trigger] list[j]).drm_format_modifier
                != key.modifier by {
                if j < rest.len() {
                    assert(list[j] == rest[j]);
                }
            }
        } else {
            assert forall|i: int| 0 <= i < list.len() implies !(shared && (#[trigger] list[i]).drm_format_modifier
                == key.modifier) by {
                if i < rest.len() {
                    assert(list[i] == rest[i]);
                }
            }
        }
        if table_of_modifiers(rest).dom().contains(key) {
            let i = choose|i: int|
                0 <= i < rest.len() && (#[trigger] rest[i]).drm_format_modifier == key.modifier;
            assert(list[i] == rest[i]);
        }
    }
}

/// Where no format occurs twice, a format has one place.
proof fn unique_place(entries: Seq<(FormatKey, ModifierProperties)>, key: FormatKey)
    requires
        distinct(entries),
    ensures
        forall|i: int|
            0 <= i < entries.len() && (#[trigger] entries[i]).0 == key ==> place_of(entries, key)
                == i,
{
    assert forall|i: int| 0 <= i < entries.len() && (#[trigger] entries[i]).0 == key implies place_of(
        entries,
        key,
    ) == i by {
        let p = place_of(entries, key);
        if p < i {
            assert(entries[p].0 != entries[i].0);
        } else if p > i {
            assert(entries[i].0 != entries[p].0);
        }
    }
}

/// Two lists with the same formats at the same places hold the same formats.
proof fn same_keys(
    before: Seq<(FormatKey, ModifierProperties)>,
    after: Seq<(FormatKey, ModifierProperties)>,
)
    requires
        before.len() == after.len(),
        forall|i: int| 0 <= i < before.len() ==> before[i].0 == after[i].0,
    ensures
        table_of(before).dom() =~= table_of(after).dom(),
{
    assert forall|k: FormatKey| table_of(before).dom().contains(k) implies table_of(
        after,
    ).dom().contains(k) by {
        let i = choose|i: int| 0 <= i < before.len() && before[i].0 == k;
        assert(after[i].0 == k);
    }
    assert forall|k: FormatKey| table_of(after).dom().contains(k) implies table_of(
        before,
    ).dom().contains(k) by {
        let i = choose|i: int| 0 <= i < after.len() && after[i].0 == k;
        assert(before[i].0 == k);
    }
}

} // verus!
