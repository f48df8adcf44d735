//! The texel dictionaries: association lists from a `(Part, Emotion)` key to
//! the texel variants registered under it, and from a posture to such a
//! dictionary. Keys are kept unique, so each list reads as a map.

use vstd::prelude::*;

use crate::posture::Posture;
use crate::texel::{Texel, copy_texels};
use crate::tuple::Tuple;

verus! {

/// One dictionary entry: the texel variants registered under one key.
#[derive(Clone, Debug)]
pub struct TexelEntry {
    pub key: Tuple,
    pub texels: Vec<Texel>,
}

/// One catalog entry: the dictionary of one posture.
#[derive(Clone, Debug)]
pub struct PostureEntry {
    pub posture: Posture,
    pub entries: Vec<TexelEntry>,
}

/// The map an entry list denotes; on a repeated key the later entry wins.
pub open spec fn entries_view(s: Seq<TexelEntry>) -> Map<Tuple, Seq<Texel>>
    decreases s.len(),
{
    if s.len() == 0 {
        Map::empty()
    } else {
        entries_view(s.drop_last()).insert(s.last().key, s.last().texels@)
    }
}

/// No two entries share a key.
pub open spec fn entries_unique(s: Seq<TexelEntry>) -> bool {
    forall|i: int, j: int| 0 <= i < j < s.len() ==> s[i].key != s[j].key
}

/// The map a catalog denotes; on a repeated posture the later entry wins.
pub open spec fn catalog_view(s: Seq<PostureEntry>) -> Map<Posture, Map<Tuple, Seq<Texel>>>
    decreases s.len(),
{
    if s.len() == 0 {
        Map::empty()
    } else {
        catalog_view(s.drop_last()).insert(s.last().posture, entries_view(s.last().entries@))
    }
}

/// No two catalog entries share a posture, and every dictionary has
/// unique keys.
pub open spec fn catalog_unique(s: Seq<PostureEntry>) -> bool {
    &&& forall|i: int, j: int| 0 <= i < j < s.len() ==> s[i].posture != s[j].posture
    &&& forall|i: int| 0 <= i < s.len() ==> entries_unique(#[trigger] s[i].entries@)
}

/// A key is in the map exactly when some entry holds it.
pub proof fn lemma_entries_view_contains(s: Seq<TexelEntry>, key: Tuple)
    ensures
        entries_view(s).contains_key(key) <==> exists|i: int| 0 <= i < s.len() && s[i].key == key,
    decreases s.len(),
{
    if s.len() > 0 {
        lemma_entries_view_contains(s.drop_last(), key);
        if s.last().key != key && entries_view(s).contains_key(key) {
            let i = choose|i: int| 0 <= i < s.drop_last().len() && s.drop_last()[i].key == key;
            assert(s[i].key == key);
        }
        if exists|i: int| 0 <= i < s.len() && s[i].key == key {
            let i = choose|i: int| 0 <= i < s.len() && s[i].key == key;
            if i < s.len() - 1 {
                assert(s.drop_last()[i].key == key);
            }
        }
    }
}

/// Under unique keys, the map sends each entry's key to that entry's list.
pub proof fn lemma_entries_view_index(s: Seq<TexelEntry>, i: int)
    requires
        entries_unique(s),
        0 <= i < s.len(),
    ensures
        entries_view(s).contains_key(s[i].key),
        entries_view(s)[s[i].key] == s[i].texels@,
    decreases s.len(),
{
    if i == s.len() - 1 {
    } else {
        assert(entries_unique(s.drop_last()));
        assert(s.drop_last()[i] == s[i]);
        lemma_entries_view_index(s.drop_last(), i);
        assert(s[i].key != s.last().key);
    }
}

/// A posture is in the catalog exactly when some entry holds it.
pub proof fn lemma_catalog_view_contains(s: Seq<PostureEntry>, posture: Posture)
    ensures
        catalog_view(s).contains_key(posture) <==> exists|i: int|
            0 <= i < s.len() && s[i].posture == posture,
    decreases s.len(),
{
    if s.len() > 0 {
        lemma_catalog_view_contains(s.drop_last(), posture);
        if s.last().posture != posture && catalog_view(s).contains_key(posture) {
            let i = choose|i: int|
                0 <= i < s.drop_last().len() && s.drop_last()[i].posture == posture;
            assert(s[i].posture == posture);
        }
        if exists|i: int| 0 <= i < s.len() && s[i].posture == posture {
            let i = choose|i: int| 0 <= i < s.len() && s[i].posture == posture;
            if i < s.len() - 1 {
                assert(s.drop_last()[i].posture == posture);
            }
        }
    }
}

/// Under unique postures, the catalog sends each entry's posture to that
/// entry's dictionary.
pub proof fn lemma_catalog_view_index(s: Seq<PostureEntry>, i: int)
    requires
        forall|i: int, j: int| 0 <= i < j < s.len() ==> s[i].posture != s[j].posture,
        0 <= i < s.len(),
    ensures
        catalog_view(s).contains_key(s[i].posture),
        catalog_view(s)[s[i].posture] == entries_view(s[i].entries@),
    decreases s.len(),
{
    if i == s.len() - 1 {
    } else {
        assert(s.drop_last()[i] == s[i]);
        lemma_catalog_view_index(s.drop_last(), i);
        assert(s[i].posture != s.last().posture);
    }
}

/// Finds the entry holding `key`, if any.
pub fn find_entry(entries: &Vec<TexelEntry>, key: &Tuple) -> (r: Option<usize>)
    ensures
        match r {
            Some(i) => i < entries@.len() && entries@[i as int].key == *key,
            None => forall|i: int| 0 <= i < entries@.len() ==> entries@[i].key != *key,
        },
{
    let mut i: usize = 0;
    while i < entries.len()
        invariant
            i <= entries@.len(),
            forall|j: int| 0 <= j < i ==> entries@[j].key != *key,
        decreases entries@.len() - i,
    {
        if entries[i].key == *key {
            return Some(i);
        }
        i = i + 1;
    }
    None
}

/// Finds the catalog entry of `posture`, if any.
pub fn find_posture(cat: &Vec<PostureEntry>, posture: &Posture) -> (r: Option<usize>)
    ensures
        match r {
            Some(i) => i < cat@.len() && cat@[i as int].posture == *posture,
            None => forall|i: int| 0 <= i < cat@.len() ==> cat@[i].posture != *posture,
        },
{
    let mut i: usize = 0;
    while i < cat.len()
        invariant
            i <= cat@.len(),
            forall|j: int| 0 <= j < i ==> cat@[j].posture != *posture,
        decreases cat@.len() - i,
    {
        if cat[i].posture == *posture {
            return Some(i);
        }
        i = i + 1;
    }
    None
}

/// Replacing the list at an existing key updates the map at that key.
pub proof fn lemma_entries_view_update(s: Seq<TexelEntry>, i: int, e: TexelEntry)
    requires
        entries_unique(s),
        0 <= i < s.len(),
        e.key == s[i].key,
    ensures
        entries_view(s.update(i, e)) == entries_view(s).insert(e.key, e.texels@),
    decreases s.len(),
{
    lemma_entries_view_index(s, i);
    if i == s.len() - 1 {
        assert(s.update(i, e).drop_last() =~= s.drop_last());
        assert(s.update(i, e).last() == e);
        assert(entries_view(s.update(i, e)) =~= entries_view(s).insert(e.key, e.texels@));
    } else {
        assert(s.update(i, e).drop_last() =~= s.drop_last().update(i, e));
        assert(entries_unique(s.drop_last()));
        lemma_entries_view_update(s.drop_last(), i, e);
        assert(s.update(i, e).last() == s.last());
        assert(s[i].key != s.last().key);
        assert(entries_view(s.update(i, e)) =~= entries_view(s).insert(e.key, e.texels@));
    }
}

/// Pushing an entry inserts its key into the map.
pub proof fn lemma_entries_view_push(s: Seq<TexelEntry>, e: TexelEntry)
    ensures
        entries_view(s.push(e)) == entries_view(s).insert(e.key, e.texels@),
{
    assert(s.push(e).drop_last() =~= s);
    assert(s.push(e).last() == e);
}

/// Replacing the dictionary at an existing posture updates the catalog map
/// at that posture.
pub proof fn lemma_catalog_view_update(s: Seq<PostureEntry>, i: int, e: PostureEntry)
    requires
        forall|i: int, j: int| 0 <= i < j < s.len() ==> s[i].posture != s[j].posture,
        0 <= i < s.len(),
        e.posture == s[i].posture,
    ensures
        catalog_view(s.update(i, e)) == catalog_view(s).insert(e.posture, entries_view(e.entries@)),
    decreases s.len(),
{
    lemma_catalog_view_index(s, i);
    if i == s.len() - 1 {
        assert(s.update(i, e).drop_last() =~= s.drop_last());
        assert(s.update(i, e).last() == e);
        assert(catalog_view(s.update(i, e)) =~= catalog_view(s).insert(
            e.posture,
            entries_view(e.entries@),
        ));
    } else {
        assert(s.update(i, e).drop_last() =~= s.drop_last().update(i, e));
        lemma_catalog_view_update(s.drop_last(), i, e);
        assert(s.update(i, e).last() == s.last());
        assert(s[i].posture != s.last().posture);
        assert(catalog_view(s.update(i, e)) =~= catalog_view(s).insert(
            e.posture,
            entries_view(e.entries@),
        ));
    }
}

/// Pushing a catalog entry inserts its posture into the catalog map.
pub proof fn lemma_catalog_view_push(s: Seq<PostureEntry>, e: PostureEntry)
    ensures
        catalog_view(s.push(e)) == catalog_view(s).insert(e.posture, entries_view(e.entries@)),
{
    assert(s.push(e).drop_last() =~= s);
    assert(s.push(e).last() == e);
}

/// Binds `key` to `texels` in the dictionary, replacing any previous list.
pub fn set_texels(entries: &mut Vec<TexelEntry>, key: Tuple, texels: Vec<Texel>)
    requires
        entries_unique(old(entries)@),
    ensures
        entries_unique(final(entries)@),
        entries_view(final(entries)@) == entries_view(old(entries)@).insert(key, texels@),
{
    let ghost orig = entries@;
    match find_entry(entries, &key) {
        Some(i) => {
            let e = TexelEntry { key, texels };
            entries[i] = e;
            proof {
                lemma_entries_view_update(orig, i as int, entries@[i as int]);
            }
        },
        None => {
            let e = TexelEntry { key, texels };
            entries.push(e);
            proof {
                lemma_entries_view_push(orig, entries@.last());
            }
        },
    }
}

/// Appends one texel to the variant list of `key`, creating the entry if
/// it is absent: the map gains `key -> previous list + [texel]`, where an
/// absent key reads as the empty list.
pub fn append_texel(entries: &mut Vec<TexelEntry>, key: Tuple, texel: Texel)
    requires
        entries_unique(old(entries)@),
    ensures
        entries_unique(final(entries)@),
        entries_view(final(entries)@) == entries_view(old(entries)@).insert(
            key,
            if entries_view(old(entries)@).contains_key(key) {
                entries_view(old(entries)@)[key].push(texel)
            } else {
                seq![texel]
            },
        ),
{
    let ghost orig = entries@;
    match find_entry(entries, &key) {
        Some(i) => {
            proof {
                lemma_entries_view_index(orig, i as int);
            }
            let mut texels = copy_texels(&entries[i].texels);
            texels.push(texel);
            let e = TexelEntry { key, texels };
            entries[i] = e;
            proof {
                lemma_entries_view_update(orig, i as int, entries@[i as int]);
            }
        },
        None => {
            proof {
                lemma_entries_view_contains(orig, key);
            }
            let mut texels: Vec<Texel> = Vec::new();
            texels.push(texel);
            let e = TexelEntry { key, texels };
            entries.push(e);
            proof {
                lemma_entries_view_push(orig, entries@.last());
                assert(entries@.last().texels@ =~= seq![texel]);
            }
        },
    }
}

} // verus!
