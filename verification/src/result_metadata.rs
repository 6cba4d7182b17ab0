//! Annotations that a decoder attaches to a detection.

use vstd::prelude::*;

verus! {

/// What an annotation of a detection is about.
#[derive(Clone, Copy, Debug, PartialEq, Eq, Hash, Structural)]
pub enum RXingResultMetadataType {
    /// Anything that has no key of its own.
    Other,
    /// Likely orientation of the code in the image, in degrees clockwise from upright.
    Orientation,
    /// The error correction level used by the code, for formats that have one.
    ErrorCorrectionLevel,
    /// The issue number of a periodical, read from an extension.
    IssueNumber,
    /// The suggested retail price, read from an extension.
    SuggestedPrice,
    /// The country of the manufacturer, guessed from the product code.
    PossibleCountry,
    /// The contents of a UPC/EAN extension.
    UpcEanExtension,
    /// The position of this code in a structured-append series.
    StructuredAppendSequence,
    /// The parity shared by the codes of a structured-append series.
    StructuredAppendParity,
    /// The symbology identifier, a short string naming format and options.
    SymbologyIdentifier,
}

/// The value of one annotation.
#[derive(Debug, PartialEq, Eq)]
pub enum RXingResultMetadataValue {
    /// A whole number, such as an orientation in degrees.
    Number(i32),
    /// A text, such as an error correction level.
    Text(String),
}

impl Clone for RXingResultMetadataValue {
    fn clone(&self) -> (r: Self)
        ensures
            r == *self,
    {
        match self {
            RXingResultMetadataValue::Number(n) => RXingResultMetadataValue::Number(*n),
            RXingResultMetadataValue::Text(t) => RXingResultMetadataValue::Text(t.clone()),
        }
    }
}

/// One annotation: what it is about, and its value.
pub type MetadataEntry = (RXingResultMetadataType, RXingResultMetadataValue);

/// The mapping that a list of annotations stands for, where a later entry
/// for a key replaces an earlier one.
pub open spec fn entries_map(entries: Seq<MetadataEntry>) -> Map<
    RXingResultMetadataType,
    RXingResultMetadataValue,
>
    decreases entries.len(),
{
    if entries.len() == 0 {
        Map::empty()
    } else {
        entries_map(entries.drop_last()).insert(entries.last().0, entries.last().1)
    }
}

/// No key occurs twice in the list.
pub open spec fn distinct_keys(entries: Seq<MetadataEntry>) -> bool {
    forall|i: int, j: int| 0 <= i < j < entries.len() ==> entries[i].0 != entries[j].0
}

/// A key that no entry of the list has is not in the list's mapping.
proof fn lemma_absent_key(entries: Seq<MetadataEntry>, key: RXingResultMetadataType)
    requires
        forall|i: int| 0 <= i < entries.len() ==> entries[i].0 != key,
    ensures
        !entries_map(entries).dom().contains(key),
    decreases entries.len(),
{
    if entries.len() > 0 {
        lemma_absent_key(entries.drop_last(), key);
    }
}

/// In a list without repeated keys, the mapping sends the key of each entry
/// to the value of that entry.
proof fn lemma_present_key(entries: Seq<MetadataEntry>, i: int)
    requires
        distinct_keys(entries),
        0 <= i < entries.len(),
    ensures
        entries_map(entries).dom().contains(entries[i].0),
        entries_map(entries)[entries[i].0] == entries[i].1,
    decreases entries.len(),
{
    if i < entries.len() - 1 {
        lemma_present_key(entries.drop_last(), i);
    }
}

/// Replacing the value of one entry replaces the value of its key in the mapping.
proof fn lemma_replaced_value(entries: Seq<MetadataEntry>, i: int, value: RXingResultMetadataValue)
    requires
        distinct_keys(entries),
        0 <= i < entries.len(),
    ensures
        distinct_keys(entries.update(i, (entries[i].0, value))),
        entries_map(entries.update(i, (entries[i].0, value))) == entries_map(entries).insert(
            entries[i].0,
            value,
        ),
    decreases entries.len(),
{
    let key = entries[i].0;
    let updated = entries.update(i, (key, value));
    if i == entries.len() - 1 {
        assert(updated.drop_last() =~= entries.drop_last());
        assert(entries_map(updated) =~= entries_map(entries).insert(key, value));
    } else {
        lemma_replaced_value(entries.drop_last(), i, value);
        assert(updated.drop_last() =~= entries.drop_last().update(i, (key, value)));
        assert(entries_map(updated) =~= entries_map(entries).insert(key, value));
    }
}

/// A list without repeated keys has as many entries as its mapping has keys.
proof fn lemma_number_of_keys(entries: Seq<MetadataEntry>)
    requires
        distinct_keys(entries),
    ensures
        entries_map(entries).dom().finite(),
        entries_map(entries).dom().len() == entries.len(),
    decreases entries.len(),
{
    if entries.len() > 0 {
        let rest = entries.drop_last();
        lemma_number_of_keys(rest);
        lemma_absent_key(rest, entries.last().0);
        assert(entries_map(entries).dom() =~= entries_map(rest).dom().insert(entries.last().0));
    } else {
        assert(entries_map(entries).dom() =~= Set::empty());
    }
}

/// The annotations of one detection: a mapping from keys to values. It is
/// held as a list of entries in which no key occurs twice.
#[derive(Debug)]
pub struct RXingResultMetadata {
    entries: Vec<MetadataEntry>,
}

impl View for RXingResultMetadata {
    type V = Map<RXingResultMetadataType, RXingResultMetadataValue>;

    closed spec fn view(&self) -> Self::V {
        entries_map(self.entries@)
    }
}

impl Clone for RXingResultMetadata {
    fn clone(&self) -> (r: Self)
        ensures
            r@ == self@,
    {
        proof {
            use_type_invariant(self);
        }
        let mut entries: Vec<MetadataEntry> = Vec::new();
        let mut i: usize = 0;
        while i < self.entries.len()
            invariant
                i <= self.entries.len(),
                entries@ == self.entries@.take(i as int),
            decreases self.entries.len() - i,
        {
            let key = self.entries[i].0;
            let value = self.entries[i].1.clone();
            entries.push((key, value));
            assert(entries@ =~= self.entries@.take(i + 1));
            i += 1;
        }
        assert(entries@ =~= self.entries@);
        RXingResultMetadata { entries }
    }
}

impl RXingResultMetadata {
    #[verifier::type_invariant]
    spec fn keys_are_distinct(self) -> bool {
        distinct_keys(self.entries@)
    }

    /// The empty mapping.
    pub fn new() -> (m: RXingResultMetadata)
        ensures
            m@ == Map::<RXingResultMetadataType, RXingResultMetadataValue>::empty(),
    {
        RXingResultMetadata { entries: Vec::new() }
    }

    /// The place of the entry for `key`, if there is one.
    fn find(&self, key: RXingResultMetadataType) -> (place: Option<usize>)
        ensures
            match place {
                Some(i) => i < self.entries@.len() && self.entries@[i as int].0 == key,
                None => forall|i: int| 0 <= i < self.entries@.len() ==> self.entries@[i].0 != key,
            },
    {
        let mut i: usize = 0;
        while i < self.entries.len()
            invariant
                i <= self.entries.len(),
                forall|j: int| 0 <= j < i ==> self.entries@[j].0 != key,
            decreases self.entries.len() - i,
        {
            if self.entries[i].0 == key {
                return Some(i);
            }
            i += 1;
        }
        None
    }

    /// Number of keys that have a value.
    pub fn len(&self) -> (n: usize)
        ensures
            self@.dom().finite(),
            n == self@.dom().len(),
    {
        proof {
            use_type_invariant(self);
            lemma_number_of_keys(self.entries@);
        }
        self.entries.len()
    }

    /// Whether no key has a value.
    pub fn is_empty(&self) -> (e: bool)
        ensures
            e == (self@ == Map::<RXingResultMetadataType, RXingResultMetadataValue>::empty()),
    {
        proof {
            use_type_invariant(self);
            if self.entries@.len() > 0 {
                lemma_present_key(self.entries@, 0);
            }
        }
        self.entries.len() == 0
    }

    /// Whether `key` has a value.
    pub fn contains_key(&self, key: RXingResultMetadataType) -> (c: bool)
        ensures
            c == self@.dom().contains(key),
    {
        self.get(key).is_some()
    }

    /// The value of `key`, if it has one.
    pub fn get(&self, key: RXingResultMetadataType) -> (value: Option<&RXingResultMetadataValue>)
        ensures
            match value {
                Some(v) => self@.dom().contains(key) && self@[key] == *v,
                None => !self@.dom().contains(key),
            },
    {
        proof {
            use_type_invariant(self);
        }
        match self.find(key) {
            Some(i) => {
                proof {
                    lemma_present_key(self.entries@, i as int);
                }
                Some(&self.entries[i].1)
            },
            None => {
                proof {
                    lemma_absent_key(self.entries@, key);
                }
                None
            },
        }
    }

    /// Gives `key` the value `value`, in place of the one it had, if any.
    pub fn put(&mut self, key: RXingResultMetadataType, value: RXingResultMetadataValue)
        ensures
            final(self)@ == old(self)@.insert(key, value),
    {
        proof {
            use_type_invariant(&*self);
        }
        let place = self.find(key);
        let mut entries: Vec<MetadataEntry> = Vec::new();
        core::mem::swap(&mut entries, &mut self.entries);
        match place {
            Some(i) => {
                proof {
                    lemma_replaced_value(entries@, i as int, value);
                }
                entries.set(i, (key, value));
            },
            None => {
                entries.push((key, value));
                assert(entries@.drop_last() =~= old(self).entries@);
            },
        }
        core::mem::swap(&mut entries, &mut self.entries);
    }

    /// Gives every key of `other` the value it has there, and leaves the
    /// other keys as they are.
    pub fn put_all(&mut self, other: RXingResultMetadata)
        ensures
            final(self)@ == old(self)@.union_prefer_right(other@),
    {
        proof {
            use_type_invariant(&other);
        }
        let mut rest: Vec<MetadataEntry> = other.entries;
        let ghost merged = old(self)@.union_prefer_right(other@);
        assert(self@.union_prefer_right(entries_map(rest@)) =~= merged);
        while rest.len() > 0
            invariant
                distinct_keys(rest@),
                self@.union_prefer_right(entries_map(rest@)) == merged,
            decreases rest.len(),
        {
            let ghost before = rest@;
            let ghost held = self@;
            let entry = rest.pop().unwrap();
            proof {
                assert(rest@ =~= before.drop_last());
                lemma_absent_key(rest@, entry.0);
            }
            self.put(entry.0, entry.1);
            assert(self@.union_prefer_right(entries_map(rest@)) =~= held.union_prefer_right(
                entries_map(before),
            ));
        }
        assert(self@.union_prefer_right(entries_map(rest@)) =~= self@);
    }
}

} // verus!
