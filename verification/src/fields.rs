//! Field values and ordered key/value field maps.
//!
//! Events and context frames carry free-form metadata as key/value
//! pairs. The map keeps its entries in insertion order and is modelled
//! as a sequence of key/value pairs; a key's binding is its first
//! occurrence in that sequence.

use vstd::prelude::*;

verus! {

/// The mathematical model of a field value.
pub enum FieldValueView {
    /// The JSON null value.
    Null,
    /// A boolean value.
    Bool(bool),
    /// An integer value.
    Int(int),
    /// A text value.
    Str(Seq<char>),
}

/// A single metadata value attached to an event or a context frame.
#[derive(Clone, Debug)]
pub enum FieldValue {
    /// The JSON null value.
    Null,
    /// A boolean value.
    Bool(bool),
    /// A signed integer value.
    Int(i64),
    /// An unsigned integer value.
    UInt(u64),
    /// A text value.
    Str(String),
}

impl View for FieldValue {
    type V = FieldValueView;

    open spec fn view(&self) -> FieldValueView {
        match self {
            FieldValue::Null => FieldValueView::Null,
            FieldValue::Bool(b) => FieldValueView::Bool(*b),
            FieldValue::Int(i) => FieldValueView::Int(*i as int),
            FieldValue::UInt(u) => FieldValueView::Int(*u as int),
            FieldValue::Str(s) => FieldValueView::Str(s@),
        }
    }
}

impl DeepView for FieldValue {
    type V = FieldValueView;

    open spec fn deep_view(&self) -> FieldValueView {
        self.view()
    }
}

/// One modelled map entry: a key and its value.
pub type EntryView = (Seq<char>, FieldValueView);

/// The value bound to `k` in `entries`: the value of the first entry
/// whose key is `k`, if any.
pub open spec fn lookup(entries: Seq<EntryView>, k: Seq<char>) -> Option<FieldValueView>
    decreases entries.len(),
{
    if entries.len() == 0 {
        None
    } else if entries[0].0 == k {
        Some(entries[0].1)
    } else {
        lookup(entries.drop_first(), k)
    }
}

/// Does some entry of `entries` bind `k`?
pub open spec fn has_key(entries: Seq<EntryView>, k: Seq<char>) -> bool {
    lookup(entries, k) is Some
}

/// `entries` with the first entry binding `k` removed.
pub open spec fn remove_key(entries: Seq<EntryView>, k: Seq<char>) -> Seq<EntryView>
    decreases entries.len(),
{
    if entries.len() == 0 {
        entries
    } else if entries[0].0 == k {
        entries.drop_first()
    } else {
        seq![entries[0]] + remove_key(entries.drop_first(), k)
    }
}

/// `entries` with `k` bound to `v`: the first entry binding `k` is
/// replaced in place, or a new entry is appended if there is none.
pub open spec fn insert_key(entries: Seq<EntryView>, k: Seq<char>, v: FieldValueView) -> Seq<
    EntryView,
>
    decreases entries.len(),
{
    if entries.len() == 0 {
        seq![(k, v)]
    } else if entries[0].0 == k {
        seq![(k, v)] + entries.drop_first()
    } else {
        seq![entries[0]] + insert_key(entries.drop_first(), k, v)
    }
}

impl FieldValue {
    /// An exact copy of this value.
    pub fn duplicate(&self) -> (r: FieldValue)
        ensures
            r@ == self@,
    {
        match self {
            FieldValue::Null => FieldValue::Null,
            FieldValue::Bool(b) => FieldValue::Bool(*b),
            FieldValue::Int(i) => FieldValue::Int(*i),
            FieldValue::UInt(u) => FieldValue::UInt(*u),
            FieldValue::Str(s) => FieldValue::Str(s.clone()),
        }
    }
}

/// An ordered map from field names to field values.
#[derive(Clone, Debug)]
pub struct FieldMap {
    entries: Vec<(String, FieldValue)>,
}

impl View for FieldMap {
    type V = Seq<EntryView>;

    closed spec fn view(&self) -> Seq<EntryView> {
        self.entries.deep_view()
    }
}

impl FieldMap {
    /// An empty field map.
    pub fn new() -> (r: FieldMap)
        ensures
            r@ == Seq::<EntryView>::empty(),
    {
        FieldMap { entries: Vec::new() }
    }

    /// The number of entries.
    pub fn len(&self) -> (n: usize)
        ensures
            n == self@.len(),
    {
        self.entries.len()
    }

    /// The entry at position `i`, by reference.
    pub fn entry_at(&self, i: usize) -> (e: &(String, FieldValue))
        requires
            i < self@.len(),
        ensures
            e.deep_view() == self@[i as int],
    {
        &self.entries[i]
    }

    /// Look the key up; `None` when no entry binds it.
    pub fn get(&self, k: &String) -> (r: Option<&FieldValue>)
        ensures
            match r {
                Some(v) => lookup(self@, k@) == Some(v@),
                None => lookup(self@, k@) is None,
            },
    {
        let n = self.entries.len();
        for i in 0..n
            invariant
                n == self@.len(),
                forall|j: int| 0 <= j < i ==> self@[j].0 != k@,
        {
            if self.entries[i].0 == *k {
                proof {
                    lemma_lookup_at(self@, k@, i as int);
                }
                return Some(&self.entries[i].1);
            }
        }
        proof {
            lemma_lookup_none(self@, k@);
        }
        None
    }

    /// Does some entry bind the key?
    pub fn contains_key(&self, k: &String) -> (r: bool)
        ensures
            r == has_key(self@, k@),
    {
        self.get(k).is_some()
    }

    /// Bind `k` to `v`, replacing the first existing binding in place,
    /// or appending a new entry when there is none.
    pub fn insert(&mut self, k: String, v: FieldValue)
        ensures
            final(self)@ == insert_key(old(self)@, k@, v@),
    {
        let n = self.entries.len();
        for i in 0..n
            invariant
                n == self@.len(),
                self@ == old(self)@,
                forall|j: int| 0 <= j < i ==> self@[j].0 != k@,
        {
            if self.entries[i].0 == k {
                self.entries[i] = (k, v);
                proof {
                    lemma_insert_at(old(self)@, k@, v@, i as int);
                    assert(final(self)@ =~= insert_key(old(self)@, k@, v@));
                }
                return ;
            }
        }
        self.entries.push((k, v));
        proof {
            lemma_insert_absent(old(self)@, k@, v@);
            assert(final(self)@ =~= insert_key(old(self)@, k@, v@));
        }
    }

    /// Append an entry without looking for an existing binding of the
    /// key. When the key is fresh this agrees with `insert`.
    pub fn push(&mut self, k: String, v: FieldValue)
        ensures
            final(self)@ == old(self)@.push((k@, v@)),
    {
        self.entries.push((k, v));
    }

    /// An entry-by-entry copy of this map, with the same view.
    pub fn duplicate(&self) -> (r: FieldMap)
        ensures
            r@ == self@,
    {
        let mut entries: Vec<(String, FieldValue)> = Vec::new();
        let n = self.entries.len();
        for i in 0..n
            invariant
                n == self@.len(),
                entries@.len() == i as int,
                entries.deep_view() == self@.subrange(0, i as int),
        {
            let e = &self.entries[i];
            let k = e.0.clone();
            let v = e.1.duplicate();
            let ghost pre_dv = entries.deep_view();
            let ghost pre_v = entries@;
            entries.push((k, v));
            proof {
                assert((k@, v@) =~~= self@[i as int]);
                assert(entries.deep_view()[i as int] == entries@[i as int].deep_view());
                assert forall|j: int| 0 <= j < i as int implies #[trigger] entries.deep_view()[j]
                    == self@[j] by {
                    assert(entries.deep_view()[j] == entries@[j].deep_view());
                    assert(entries@[j] == pre_v[j]);
                    assert(pre_dv[j] == pre_v[j].deep_view());
                    assert(pre_dv[j] == self@.subrange(0, i as int)[j]);
                }
                assert(entries.deep_view() =~= self@.subrange(0, i + 1));
            }
        }
        let r = FieldMap { entries };
        proof {
            assert(r@ =~= self@.subrange(0, n as int));
            assert(self@.subrange(0, n as int) =~= self@);
        }
        r
    }

    /// Remove the first entry binding `k` and return its value.
    pub fn remove(&mut self, k: &String) -> (r: Option<FieldValue>)
        ensures
            final(self)@ == remove_key(old(self)@, k@),
            match r {
                Some(v) => lookup(old(self)@, k@) == Some(v@),
                None => lookup(old(self)@, k@) is None,
            },
    {
        let n = self.entries.len();
        for i in 0..n
            invariant
                n == self@.len(),
                self@ == old(self)@,
                forall|j: int| 0 <= j < i ==> self@[j].0 != k@,
        {
            if self.entries[i].0 == *k {
                let (_, v) = self.entries.remove(i);
                proof {
                    lemma_lookup_at(old(self)@, k@, i as int);
                    lemma_remove_at(old(self)@, k@, i as int);
                    assert(final(self)@ =~= remove_key(old(self)@, k@));
                }
                return Some(v);
            }
        }
        proof {
            lemma_lookup_none(self@, k@);
            lemma_remove_absent(self@, k@);
            assert(final(self)@ =~= remove_key(old(self)@, k@));
        }
        None
    }
}

/// When the first `i` entries miss `k` and entry `i` binds it, the
/// lookup returns entry `i`'s value.
proof fn lemma_lookup_at(entries: Seq<EntryView>, k: Seq<char>, i: int)
    requires
        0 <= i < entries.len(),
        forall|j: int| 0 <= j < i ==> entries[j].0 != k,
        entries[i].0 == k,
    ensures
        lookup(entries, k) == Some(entries[i].1),
    decreases i,
{
    if i > 0 {
        lemma_lookup_at(entries.drop_first(), k, i - 1);
    }
}

/// When no entry binds `k`, the lookup misses.
proof fn lemma_lookup_none(entries: Seq<EntryView>, k: Seq<char>)
    requires
        forall|j: int| 0 <= j < entries.len() ==> entries[j].0 != k,
    ensures
        lookup(entries, k) is None,
    decreases entries.len(),
{
    if entries.len() > 0 {
        lemma_lookup_none(entries.drop_first(), k);
    }
}

/// Replacing the first entry that binds `k` realizes `insert_key`.
proof fn lemma_insert_at(entries: Seq<EntryView>, k: Seq<char>, v: FieldValueView, i: int)
    requires
        0 <= i < entries.len(),
        forall|j: int| 0 <= j < i ==> entries[j].0 != k,
        entries[i].0 == k,
    ensures
        insert_key(entries, k, v) =~= entries.update(i, (k, v)),
    decreases i,
{
    if i > 0 {
        lemma_insert_at(entries.drop_first(), k, v, i - 1);
    }
}

/// Appending a fresh key realizes `insert_key`.
proof fn lemma_insert_absent(entries: Seq<EntryView>, k: Seq<char>, v: FieldValueView)
    requires
        forall|j: int| 0 <= j < entries.len() ==> entries[j].0 != k,
    ensures
        insert_key(entries, k, v) =~= entries.push((k, v)),
    decreases entries.len(),
{
    if entries.len() > 0 {
        lemma_insert_absent(entries.drop_first(), k, v);
    }
}

/// Deleting the first entry that binds `k` realizes `remove_key`.
proof fn lemma_remove_at(entries: Seq<EntryView>, k: Seq<char>, i: int)
    requires
        0 <= i < entries.len(),
        forall|j: int| 0 <= j < i ==> entries[j].0 != k,
        entries[i].0 == k,
    ensures
        remove_key(entries, k) =~= entries.remove(i),
    decreases i,
{
    if i > 0 {
        lemma_remove_at(entries.drop_first(), k, i - 1);
    }
}

/// Removing a key that no entry binds changes nothing.
proof fn lemma_remove_absent(entries: Seq<EntryView>, k: Seq<char>)
    requires
        forall|j: int| 0 <= j < entries.len() ==> entries[j].0 != k,
    ensures
        remove_key(entries, k) =~= entries,
    decreases entries.len(),
{
    if entries.len() > 0 {
        lemma_remove_absent(entries.drop_first(), k);
    }
}

} // verus!
