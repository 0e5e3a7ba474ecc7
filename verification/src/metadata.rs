//! The metadata document and the merge of raster-derived keys.
//!
//! Callers supply a JSON object of free-form metadata. The pipeline overwrites
//! four keys — `width`, `height`, `projectionRef` and `affineTransform` — with
//! values derived from the opened raster, and passes every other key through
//! unchanged. The document is held as a vector of key/value entries with
//! pairwise-distinct keys, viewed as a map from key strings to opaque JSON
//! values.

use vstd::prelude::*;

use crate::jsonval::json_of_str;
use crate::jsonval::json_of_usize;
use crate::jsonval::value_from_string;
use crate::jsonval::value_from_usize;

verus! {

/// One key/value pair of the metadata document.
pub struct MetaEntry {
    pub key: String,
    pub value: serde_json::Value,
}

/// The map that a sequence of entries denotes; a later entry with the same
/// key overrides an earlier one.
pub open spec fn entries_map(s: Seq<MetaEntry>) -> Map<Seq<char>, serde_json::Value>
    decreases s.len(),
{
    if s.len() == 0 {
        Map::empty()
    } else {
        entries_map(s.drop_last()).insert(s.last().key@, s.last().value)
    }
}

/// No two entries share a key.
pub open spec fn unique_keys(s: Seq<MetaEntry>) -> bool {
    forall|i: int, j: int|
        0 <= i < j < s.len() ==> (#[trigger] s[i]).key@ != (#[trigger] s[j]).key@
}

/// A key is in the denoted map exactly when some entry carries it.
pub proof fn lemma_entries_map_contains(s: Seq<MetaEntry>, k: Seq<char>)
    ensures
        entries_map(s).contains_key(k) <==> exists|i: int|
            0 <= i < s.len() && (#[trigger] s[i]).key@ == k,
    decreases s.len(),
{
    if s.len() > 0 {
        lemma_entries_map_contains(s.drop_last(), k);
        if entries_map(s).contains_key(k) {
            if s.last().key@ == k {
                assert(s[s.len() - 1].key@ == k);
            } else {
                let i = choose|i: int|
                    0 <= i < s.drop_last().len() && (#[trigger] s.drop_last()[i]).key@ == k;
                assert(s[i].key@ == k);
            }
        }
        if exists|i: int| 0 <= i < s.len() && (#[trigger] s[i]).key@ == k {
            let i = choose|i: int| 0 <= i < s.len() && (#[trigger] s[i]).key@ == k;
            if i < s.len() - 1 {
                assert(s.drop_last()[i].key@ == k);
            }
        }
    }
}

/// With distinct keys, the map sends each entry's key to that entry's value.
pub proof fn lemma_entries_map_value(s: Seq<MetaEntry>, i: int)
    requires
        unique_keys(s),
        0 <= i < s.len(),
    ensures
        entries_map(s).contains_key(s[i].key@),
        entries_map(s)[s[i].key@] == s[i].value,
    decreases s.len(),
{
    if i < s.len() - 1 {
        assert(unique_keys(s.drop_last()));
        lemma_entries_map_value(s.drop_last(), i);
        assert(s.drop_last()[i] == s[i]);
        assert(s[i].key@ != s.last().key@);
    }
}

/// Replacing the entry that carries a key denotes inserting at that key.
pub proof fn lemma_entries_map_update(s: Seq<MetaEntry>, i: int, e: MetaEntry)
    requires
        unique_keys(s),
        0 <= i < s.len(),
        e.key@ == s[i].key@,
    ensures
        entries_map(s.update(i, e)) == entries_map(s).insert(e.key@, e.value),
    decreases s.len(),
{
    let s2 = s.update(i, e);
    if i == s.len() - 1 {
        assert(s2.drop_last() =~= s.drop_last());
        assert(s2.last() == e);
        assert(entries_map(s).insert(e.key@, e.value) =~= entries_map(s.drop_last()).insert(
            e.key@,
            e.value,
        ));
    } else {
        assert(unique_keys(s.drop_last()));
        assert(s.drop_last()[i] == s[i]);
        lemma_entries_map_update(s.drop_last(), i, e);
        assert(s2.drop_last() =~= s.drop_last().update(i, e));
        assert(s2.last() == s.last());
        assert(s.last().key@ != e.key@);
        assert(entries_map(s.drop_last()).insert(e.key@, e.value).insert(
            s.last().key@,
            s.last().value,
        ) =~= entries_map(s.drop_last()).insert(s.last().key@, s.last().value).insert(
            e.key@,
            e.value,
        ));
    }
}

/// With distinct keys, the denoted map has exactly one key per entry.
pub proof fn lemma_entries_map_dom_len(s: Seq<MetaEntry>)
    requires
        unique_keys(s),
    ensures
        entries_map(s).dom().finite(),
        entries_map(s).dom().len() == s.len(),
    decreases s.len(),
{
    if s.len() == 0 {
        assert(entries_map(s).dom() =~= Set::<Seq<char>>::empty());
    } else {
        assert(unique_keys(s.drop_last()));
        lemma_entries_map_dom_len(s.drop_last());
        lemma_entries_map_contains(s.drop_last(), s.last().key@);
        assert(forall|i: int|
            0 <= i < s.drop_last().len() ==> (#[trigger] s.drop_last()[i]).key@ != s.last().key@);
        assert(!entries_map(s.drop_last()).contains_key(s.last().key@));
        assert(entries_map(s).dom() =~= entries_map(s.drop_last()).dom().insert(s.last().key@));
    }
}

/// A metadata document: string keys, opaque JSON values, distinct keys.
pub struct MetaDoc {
    entries: Vec<MetaEntry>,
}

impl MetaDoc {
    /// The entries in insertion order.
    pub closed spec fn entries_seq(&self) -> Seq<MetaEntry> {
        self.entries@
    }

    /// The key-to-value map the document denotes.
    pub closed spec fn view(&self) -> Map<Seq<char>, serde_json::Value> {
        entries_map(self.entries@)
    }

    /// Every key occurs in at most one entry.
    pub open spec fn wf(&self) -> bool {
        unique_keys(self.entries_seq())
    }

    /// An empty document.
    pub fn new() -> (d: MetaDoc)
        ensures
            d.wf(),
            d@ == Map::<Seq<char>, serde_json::Value>::empty(),
            d.entries_seq() == Seq::<MetaEntry>::empty(),
    {
        let d = MetaDoc { entries: Vec::new() };
        proof {
            assert(d.entries@ =~= Seq::<MetaEntry>::empty());
        }
        d
    }

    /// How many entries the document holds.
    pub fn entry_count(&self) -> (n: usize)
        ensures
            n == self.entries_seq().len(),
    {
        self.entries.len()
    }

    /// The entry at position `i`, for walking the document.
    pub fn entry_at(&self, i: usize) -> (e: &MetaEntry)
        requires
            i < self.entries_seq().len(),
        ensures
            *e == self.entries_seq()[i as int],
    {
        &self.entries[i]
    }

    /// The number of distinct keys.
    pub fn key_count(&self) -> (n: usize)
        requires
            self.wf(),
        ensures
            n as nat == self@.dom().len(),
    {
        proof {
            lemma_entries_map_dom_len(self.entries@);
        }
        self.entries.len()
    }

    /// The position of the entry carrying `key`, if any.
    fn find(&self, key: &String) -> (r: Option<usize>)
        ensures
            match r {
                Some(i) => i < self.entries_seq().len() && self.entries_seq()[i as int].key@
                    == key@,
                None => forall|i: int|
                    0 <= i < self.entries_seq().len() ==> (#[trigger] self.entries_seq()[i]).key@
                        != key@,
            },
    {
        let mut i: usize = 0;
        while i < self.entries.len()
            invariant
                i <= self.entries@.len(),
                forall|j: int| 0 <= j < i ==> (#[trigger] self.entries@[j]).key@ != key@,
            decreases self.entries@.len() - i,
        {
            if self.entries[i].key == *key {
                return Some(i);
            }
            i = i + 1;
        }
        None
    }

    /// Sets `key` to `value`, overwriting an entry that already carries `key`
    /// and appending a new entry otherwise.
    pub fn insert(&mut self, key: String, value: serde_json::Value)
        requires
            old(self).wf(),
        ensures
            final(self).wf(),
            final(self)@ == old(self)@.insert(key@, value),
    {
        let ghost k: Seq<char> = key@;
        let ghost v = value;
        let ghost s_old = self.entries@;
        let found = self.find(&key);
        match found {
            Some(i) => {
                self.entries[i].value = value;
                proof {
                    let s_new = self.entries@;
                    let e = s_new[i as int];
                    assert(s_new == s_old.update(i as int, e));
                    assert(e.key == s_old[i as int].key);
                    assert(e.key@ == k);
                    assert(e.value == v);
                    lemma_entries_map_update(s_old, i as int, e);
                    assert forall|i1: int, j1: int| 0 <= i1 < j1 < s_new.len() implies (
                    #[trigger] s_new[i1]).key@ != (#[trigger] s_new[j1]).key@ by {
                        assert(s_new[i1].key@ == s_old[i1].key@);
                        assert(s_new[j1].key@ == s_old[j1].key@);
                    }
                }
            },
            None => {
                self.entries.push(MetaEntry { key, value });
                proof {
                    let s_new = self.entries@;
                    assert(s_new == s_old.push(s_new.last()));
                    assert(s_new.last().key@ == k);
                    assert(s_new.last().value == v);
                    assert(s_new.drop_last() =~= s_old);
                    assert forall|i1: int, j1: int| 0 <= i1 < j1 < s_new.len() implies (
                    #[trigger] s_new[i1]).key@ != (#[trigger] s_new[j1]).key@ by {
                        if j1 < s_new.len() - 1 {
                            assert(s_new[i1].key@ == s_old[i1].key@);
                            assert(s_new[j1].key@ == s_old[j1].key@);
                        } else {
                            assert(s_new[i1].key@ == s_old[i1].key@);
                            assert(s_new[j1].key@ == k);
                        }
                    }
                }
            },
        }
    }

    /// The value stored at `key`, if any.
    pub fn get(&self, key: &String) -> (r: Option<&serde_json::Value>)
        requires
            self.wf(),
        ensures
            r is Some <==> self@.contains_key(key@),
            r matches Some(v) ==> self@[key@] == *v,
    {
        let found = self.find(key);
        proof {
            lemma_entries_map_contains(self.entries@, key@);
        }
        match found {
            Some(i) => {
                proof {
                    lemma_entries_map_value(self.entries@, i as int);
                }
                Some(&self.entries[i].value)
            },
            None => None,
        }
    }
}

/// The four keys that the pipeline always derives from the raster itself.
pub open spec fn reserved_key(k: Seq<char>) -> bool {
    ||| k == "width"@
    ||| k == "height"@
    ||| k == "projectionRef"@
    ||| k == "affineTransform"@
}

/// The metadata map after the raster-derived keys are merged in.
pub open spec fn merged_spec(
    m: Map<Seq<char>, serde_json::Value>,
    width: usize,
    height: usize,
    projection: Seq<char>,
    transform: serde_json::Value,
) -> Map<Seq<char>, serde_json::Value> {
    m.insert("width"@, json_of_usize(width)).insert("height"@, json_of_usize(height)).insert(
        "projectionRef"@,
        json_of_str(projection),
    ).insert("affineTransform"@, transform)
}

impl MetaDoc {
    /// Overwrites the four raster-derived keys with the dataset's dimensions,
    /// projection reference and affine geotransform value; every other key is
    /// left as it was.
    pub fn apply_raster_meta(
        &mut self,
        width: usize,
        height: usize,
        projection: String,
        transform: serde_json::Value,
    )
        requires
            old(self).wf(),
        ensures
            final(self).wf(),
            final(self)@ == merged_spec(old(self)@, width, height, projection@, transform),
    {
        let wv = value_from_usize(width);
        let hv = value_from_usize(height);
        let pv = value_from_string(projection);
        self.insert(String::from_str("width"), wv);
        self.insert(String::from_str("height"), hv);
        self.insert(String::from_str("projectionRef"), pv);
        self.insert(String::from_str("affineTransform"), transform);
    }
}

/// The output document: exactly two keys, `metadata` carrying the merged
/// metadata document and `data` carrying the column-major pixel grid.
pub fn output_document(metadata: serde_json::Value, data: serde_json::Value) -> (d: MetaDoc)
    ensures
        d.wf(),
        d@ == Map::<Seq<char>, serde_json::Value>::empty().insert("metadata"@, metadata).insert(
            "data"@,
            data,
        ),
{
    let mut d = MetaDoc::new();
    d.insert(String::from_str("metadata"), metadata);
    d.insert(String::from_str("data"), data);
    d
}

/// Merging never touches a key outside the four raster-derived ones: such a
/// key is in the merged map exactly when the caller supplied it, with the
/// caller's value.
pub proof fn lemma_merge_preserves_other_keys(
    m: Map<Seq<char>, serde_json::Value>,
    width: usize,
    height: usize,
    projection: Seq<char>,
    transform: serde_json::Value,
    k: Seq<char>,
)
    requires
        !reserved_key(k),
    ensures
        merged_spec(m, width, height, projection, transform).contains_key(k) == m.contains_key(k),
        m.contains_key(k) ==> merged_spec(m, width, height, projection, transform)[k] == m[k],
{
}

/// Merging always sets the four raster-derived keys to the dataset's values,
/// whether or not the caller supplied them.
pub proof fn lemma_merge_sets_raster_keys(
    m: Map<Seq<char>, serde_json::Value>,
    width: usize,
    height: usize,
    projection: Seq<char>,
    transform: serde_json::Value,
)
    ensures
        merged_spec(m, width, height, projection, transform).contains_key("width"@),
        merged_spec(m, width, height, projection, transform)["width"@] == json_of_usize(width),
        merged_spec(m, width, height, projection, transform).contains_key("height"@),
        merged_spec(m, width, height, projection, transform)["height"@] == json_of_usize(height),
        merged_spec(m, width, height, projection, transform).contains_key("projectionRef"@),
        merged_spec(m, width, height, projection, transform)["projectionRef"@] == json_of_str(
            projection,
        ),
        merged_spec(m, width, height, projection, transform).contains_key("affineTransform"@),
        merged_spec(m, width, height, projection, transform)["affineTransform"@] == transform,
{
    reveal_strlit("width");
    reveal_strlit("height");
    reveal_strlit("projectionRef");
    reveal_strlit("affineTransform");
    assert("width"@.len() == 5 && "height"@.len() == 6 && "projectionRef"@.len() == 13
        && "affineTransform"@.len() == 15);
    assert("width"@ != "height"@ && "width"@ != "projectionRef"@ && "width"@
        != "affineTransform"@);
    assert("height"@ != "projectionRef"@ && "height"@ != "affineTransform"@);
    assert("projectionRef"@ != "affineTransform"@);
}

} // verus!
