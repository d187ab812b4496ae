//! [`Metadata`]: an ordered, typed key-value store.
use vstd::prelude::*;
use vstd::map::*;
use crate::data_type::DataType;
use crate::entries::{
    entries_map, keys_of, lemma_entries_insert, lemma_entries_map_index, lemma_entries_map_len,
    lemma_entries_remove, lemma_entries_update, lemma_sorted_unique, sorted_keys,
};
use crate::error::{MetadataError, MetadataResult, conversion_message};
use crate::schema::{MetadataSchema, entry_problem, error_is};
use crate::text::{Order, lemma_seq_lt_irreflexive, lemma_seq_lt_transitive, seq_lt, str_eq, str_order};
use crate::value::{FromValue, IntoValue, Value, ValueModel, copy_value, same_value, value_same};

verus! {

/// The model of stored entries: each key's characters beside its value's
/// model.
pub open spec fn entries_model(v: Seq<(String, Value)>) -> Seq<(Seq<char>, ValueModel)> {
    v.map_values(|e: (String, Value)| (e.0@, e.1@))
}

/// The map that inserting the pairs of `s` into `m`, one after the other,
/// gives: later pairs win.
pub open spec fn insert_all(m: Map<Seq<char>, ValueModel>, s: Seq<(Seq<char>, ValueModel)>) -> Map<
    Seq<char>,
    ValueModel,
>
    decreases s.len(),
{
    if s.len() == 0 {
        m
    } else {
        insert_all(m, s.drop_last()).insert(s.last().0, s.last().1)
    }
}

/// Inserting pairs one after the other: a key of the pairs ends up holding
/// the value of its last pair, whether or not it was present before, and any
/// other key keeps what it had.
pub proof fn law_later_pairs_win(m: Map<Seq<char>, ValueModel>, s: Seq<(Seq<char>, ValueModel)>, k: Seq<char>)
    ensures
        forall|i: int|
            0 <= i < s.len() && (#[trigger] s[i]).0 == k && (forall|j: int| i < j < s.len() ==> s[j].0 != k)
                ==> insert_all(m, s).contains_key(k) && insert_all(m, s)[k] == s[i].1,
        (forall|i: int| 0 <= i < s.len() ==> (#[trigger] s[i]).0 != k) ==> (insert_all(m, s).contains_key(k)
            == m.contains_key(k) && (m.contains_key(k) ==> insert_all(m, s)[k] == m[k])),
    decreases s.len(),
{
    if s.len() > 0 {
        let d = s.drop_last();
        let n = s.len() - 1;
        law_later_pairs_win(m, d, k);
        assert forall|i: int|
            0 <= i < s.len() && (#[trigger] s[i]).0 == k && (forall|j: int| i < j < s.len() ==> s[j].0 != k)
                implies insert_all(m, s).contains_key(k) && insert_all(m, s)[k] == s[i].1 by {
            if i < n {
                assert(s[n].0 != k);
                assert(d[i] == s[i]);
                assert forall|j: int| i < j < d.len() implies d[j].0 != k by {
                    assert(d[j] == s[j]);
                }
            }
        }
        if forall|i: int| 0 <= i < s.len() ==> (#[trigger] s[i]).0 != k {
            assert(s[n].0 != k);
            assert forall|i: int| 0 <= i < d.len() implies (#[trigger] d[i]).0 != k by {
                assert(d[i] == s[i]);
            }
        }
    }
}

/// A structured, ordered, typed key-value store for metadata fields.
///
/// Entries are kept sorted by key, so iteration visits keys in ascending
/// order.
#[derive(Debug)]
pub struct Metadata {
    entries: Vec<(String, Value)>,
}

/// Locates `key` among key-sorted entries: `Ok` with its index, or `Err`
/// with the index at which it would be inserted.
fn find_key(entries: &Vec<(String, Value)>, key: &str) -> (r: Result<usize, usize>)
    requires
        sorted_keys(entries_model(entries@)),
    ensures
        match r {
            Ok(i) => i < entries@.len() && entries_model(entries@)[i as int].0 == key@,
            Err(i) => i <= entries@.len() && (forall|j: int|
                0 <= j < i ==> seq_lt(#[trigger] entries_model(entries@)[j].0, key@)) && (forall|
                j: int,
            |
                i <= j < entries@.len() ==> seq_lt(key@, #[trigger] entries_model(entries@)[j].0)),
        },
{
    let ghost s = entries_model(entries@);
    let mut i: usize = 0;
    while i < entries.len()
        invariant
            s == entries_model(entries@),
            sorted_keys(s),
            i <= entries@.len(),
            forall|j: int| 0 <= j < i ==> seq_lt(#[trigger] s[j].0, key@),
        decreases entries.len() - i,
    {
        match str_order(entries[i].0.as_str(), key) {
            Order::Less => {
                assert(seq_lt(s[i as int].0, key@));
            },
            Order::Equal => {
                return Ok(i);
            },
            Order::Greater => {
                proof {
                    crate::text::lemma_seq_lt_total(s[i as int].0, key@);
                    assert forall|j: int| i <= j < entries@.len() implies seq_lt(
                        key@,
                        #[trigger] s[j].0,
                    ) by {
                        if j > i {
                            lemma_seq_lt_transitive(key@, s[i as int].0, s[j].0);
                        }
                    }
                }
                return Err(i);
            },
        }
        i = i + 1;
    }
    Err(i)
}

/// Inserts or replaces the value of `key` among key-sorted entries.
fn insert_entry(entries: &mut Vec<(String, Value)>, key: &str, value: Value) -> (r: Option<Value>)
    requires
        sorted_keys(entries_model(old(entries)@)),
    ensures
        sorted_keys(entries_model(final(entries)@)),
        entries_map(entries_model(final(entries)@)) == entries_map(
            entries_model(old(entries)@),
        ).insert(key@, value@),
        match r {
            Some(v) => entries_map(entries_model(old(entries)@)).contains_key(key@) && v@
                == entries_map(entries_model(old(entries)@))[key@],
            None => !entries_map(entries_model(old(entries)@)).contains_key(key@),
        },
{
    let ghost s = entries_model(entries@);
    match find_key(entries, key) {
        Ok(i) => {
            let (k, old_value) = entries.remove(i);
            proof {
                lemma_entries_map_index(s, i as int);
            }
            entries.insert(i, (k, value));
            proof {
                lemma_entries_update(s, i as int, value@);
                assert(entries_model(entries@) =~= s.update(i as int, (s[i as int].0, value@)));
            }
            Some(old_value)
        },
        Err(i) => {
            entries.insert(i, (key.to_string(), value));
            proof {
                lemma_entries_insert(s, i as int, key@, value@);
                assert(entries_model(entries@) =~= s.insert(i as int, (key@, value@)));
            }
            None
        },
    }
}

/// Removes the entry of `key` from key-sorted entries.
fn remove_entry(entries: &mut Vec<(String, Value)>, key: &str) -> (r: Option<Value>)
    requires
        sorted_keys(entries_model(old(entries)@)),
    ensures
        sorted_keys(entries_model(final(entries)@)),
        entries_map(entries_model(final(entries)@)) == entries_map(
            entries_model(old(entries)@),
        ).remove(key@),
        match r {
            Some(v) => entries_map(entries_model(old(entries)@)).contains_key(key@) && v@
                == entries_map(entries_model(old(entries)@))[key@],
            None => !entries_map(entries_model(old(entries)@)).contains_key(key@),
        },
{
    let ghost s = entries_model(entries@);
    match find_key(entries, key) {
        Ok(i) => {
            proof {
                lemma_entries_map_index(s, i as int);
                lemma_entries_remove(s, i as int);
            }
            let (_, v) = entries.remove(i);
            proof {
                assert(entries_model(entries@) =~= s.remove(i as int));
            }
            Some(v)
        },
        Err(i) => {
            proof {
                lemma_seq_lt_irreflexive(key@);
                if entries_map(s).contains_key(key@) {
                    let j = choose|j: int| 0 <= j < s.len() && (#[trigger] s[j]).0 == key@;
                    if j < i {
                        assert(seq_lt(s[j].0, key@));
                    } else {
                        assert(seq_lt(key@, s[j].0));
                    }
                }
                assert(entries_map(s).remove(key@) =~= entries_map(s));
            }
            None
        },
    }
}

/// Looks up the value of `key` among key-sorted entries.
fn lookup<'a>(entries: &'a Vec<(String, Value)>, key: &str) -> (r: Option<&'a Value>)
    requires
        sorted_keys(entries_model(entries@)),
    ensures
        match r {
            Some(v) => entries_map(entries_model(entries@)).contains_key(key@) && v@ == entries_map(
                entries_model(entries@),
            )[key@],
            None => !entries_map(entries_model(entries@)).contains_key(key@),
        },
{
    let ghost s = entries_model(entries@);
    match find_key(entries, key) {
        Ok(i) => {
            proof {
                lemma_entries_map_index(s, i as int);
            }
            Some(&entries[i].1)
        },
        Err(i) => {
            proof {
                lemma_seq_lt_irreflexive(key@);
                if entries_map(s).contains_key(key@) {
                    let j = choose|j: int| 0 <= j < s.len() && (#[trigger] s[j]).0 == key@;
                    if j < i {
                        assert(seq_lt(s[j].0, key@));
                    } else {
                        assert(seq_lt(key@, s[j].0));
                    }
                }
            }
            None
        },
    }
}

impl View for Metadata {
    type V = Map<Seq<char>, ValueModel>;

    /// The map from each key to the model of its value.
    open spec fn view(&self) -> Map<Seq<char>, ValueModel> {
        entries_map(self.entry_seq())
    }
}

impl Metadata {
    /// The stored entries in key order, each key's characters beside its
    /// value's model.
    pub closed spec fn entry_seq(&self) -> Seq<(Seq<char>, ValueModel)> {
        entries_model(self.entries@)
    }

    /// The stored entry at position `i` in key order.
    pub closed spec fn entry_at(&self, i: int) -> (String, Value) {
        self.entries@[i]
    }

    /// The number of stored entries.
    pub closed spec fn entry_count(&self) -> nat {
        self.entries@.len()
    }

    /// Entries are kept strictly sorted by key.
    #[verifier::type_invariant]
    closed spec fn keys_are_sorted(&self) -> bool {
        sorted_keys(entries_model(self.entries@))
    }

    /// Creates an empty metadata object.
    pub fn new() -> (r: Metadata)
        ensures
            r@ == Map::<Seq<char>, ValueModel>::empty(),
            r.entry_count() == 0,
    {
        let r = Metadata { entries: Vec::new() };
        proof {
            assert(r.entry_seq() =~= Seq::<(Seq<char>, ValueModel)>::empty());
            assert(entries_map(r.entry_seq()) =~= Map::<Seq<char>, ValueModel>::empty());
        }
        r
    }

    /// Returns `true` if there are no entries.
    pub fn is_empty(&self) -> (r: bool)
        ensures
            r == (self@.len() == 0),
            r == (self@ == Map::<Seq<char>, ValueModel>::empty()),
    {
        proof {
            use_type_invariant(self);
            lemma_entries_map_len(self.entry_seq());
            if self.entries@.len() > 0 {
                lemma_entries_map_index(self.entry_seq(), 0);
                assert(self@.contains_key(self.entry_seq()[0].0));
            } else {
                assert(self@ =~= Map::<Seq<char>, ValueModel>::empty());
            }
        }
        self.entries.len() == 0
    }

    /// Returns the number of entries.
    pub fn len(&self) -> (r: usize)
        ensures
            r == self@.len(),
    {
        proof {
            use_type_invariant(self);
            lemma_entries_map_len(self.entry_seq());
        }
        self.entries.len()
    }

    /// Returns `true` if `key` has an entry.
    pub fn contains_key(&self, key: &str) -> (r: bool)
        ensures
            r == self@.contains_key(key@),
    {
        proof {
            use_type_invariant(self);
        }
        lookup(&self.entries, key).is_some()
    }

    /// Returns the stored value of `key`, or `None` if it is absent.
    pub fn get_raw(&self, key: &str) -> (r: Option<&Value>)
        ensures
            match r {
                Some(v) => self@.contains_key(key@) && v@ == self@[key@],
                None => !self@.contains_key(key@),
            },
    {
        proof {
            use_type_invariant(self);
        }
        lookup(&self.entries, key)
    }

    /// Returns the data type of the value stored under `key`.
    pub fn data_type(&self, key: &str) -> (r: Option<DataType>)
        ensures
            match r {
                Some(t) => self@.contains_key(key@) && t == self@[key@].data_type(),
                None => !self@.contains_key(key@),
            },
    {
        match self.get_raw(key) {
            Some(v) => Some(v.data_type()),
            None => None,
        }
    }

    /// Reads the value of `key` as a `T`.
    ///
    /// # Errors
    ///
    /// [`MetadataError::MissingKey`] when `key` is absent, and
    /// [`MetadataError::TypeMismatch`] when the stored value is not a `T`.
    pub fn try_get<T: FromValue>(&self, key: &str) -> (r: MetadataResult<T>)
        ensures
            match r {
                Ok(x) => self@.contains_key(key@) && x.value_model() == self@[key@],
                Err(MetadataError::MissingKey(k)) => !self@.contains_key(key@) && k@ == key@,
                Err(MetadataError::TypeMismatch { key: k, expected, actual, message }) =>
                    self@.contains_key(key@) && !(self@[key@].data_type() == T::spec_data_type()
                        && !(self@[key@] is Empty)) && k@ == key@ && expected == T::spec_data_type()
                    && actual == self@[key@].data_type() && message@ == conversion_message(
                    expected,
                    actual,
                ),
                Err(_) => false,
            },
            r is Ok <==> (self@.contains_key(key@) && self@[key@].data_type() == T::spec_data_type()
                && !(self@[key@] is Empty)),
    {
        match self.get_raw(key) {
            None => Err(MetadataError::MissingKey(key.to_string())),
            Some(v) => match T::from_value(v) {
                Some(x) => Ok(x),
                None => Err(MetadataError::conversion_error(key, T::data_type(), v.data_type())),
            },
        }
    }

    /// Reads the value of `key` as a `T`; `None` when it is absent or not a
    /// `T`.
    pub fn get<T: FromValue>(&self, key: &str) -> (r: Option<T>)
        ensures
            r is Some <==> (self@.contains_key(key@) && self@[key@].data_type() == T::spec_data_type()
                && !(self@[key@] is Empty)),
            r matches Some(x) ==> x.value_model() == self@[key@],
    {
        match self.try_get(key) {
            Ok(x) => Some(x),
            Err(_) => None,
        }
    }

    /// Reads the value of `key` as a `T`, or returns `default` when it is
    /// absent or not a `T`.
    pub fn get_or<T: FromValue>(&self, key: &str, default: T) -> (r: T)
        ensures
            if self@.contains_key(key@) && self@[key@].data_type() == T::spec_data_type() && !(
            self@[key@] is Empty) {
                r.value_model() == self@[key@]
            } else {
                r == default
            },
    {
        match self.try_get(key) {
            Ok(x) => x,
            Err(_) => default,
        }
    }

    /// Stores `value` under `key` and returns the value it replaces.
    pub fn set_raw(&mut self, key: &str, value: Value) -> (r: Option<Value>)
        ensures
            final(self)@ == old(self)@.insert(key@, value@),
            match r {
                Some(v) => old(self)@.contains_key(key@) && v@ == old(self)@[key@],
                None => !old(self)@.contains_key(key@),
            },
    {
        proof {
            use_type_invariant(&*self);
        }
        let mut entries: Vec<(String, Value)> = Vec::new();
        std::mem::swap(&mut entries, &mut self.entries);
        let r = insert_entry(&mut entries, key, value);
        self.entries = entries;
        r
    }

    /// Stores a typed `value` under `key` and returns the value it replaces.
    pub fn set<T: IntoValue>(&mut self, key: &str, value: T) -> (r: Option<Value>)
        ensures
            final(self)@ == old(self)@.insert(key@, value.value_model()),
            match r {
                Some(v) => old(self)@.contains_key(key@) && v@ == old(self)@[key@],
                None => !old(self)@.contains_key(key@),
            },
    {
        self.set_raw(key, value.into_value())
    }

    /// Returns this metadata with `value` stored under `key`.
    pub fn with<T: IntoValue>(self, key: &str, value: T) -> (r: Metadata)
        ensures
            r@ == self@.insert(key@, value.value_model()),
    {
        let mut m = self;
        m.set(key, value);
        m
    }

    /// Returns this metadata with the raw `value` stored under `key`.
    pub fn with_raw(self, key: &str, value: Value) -> (r: Metadata)
        ensures
            r@ == self@.insert(key@, value@),
    {
        let mut m = self;
        m.set_raw(key, value);
        m
    }

    /// Removes the entry of `key` and returns its value.
    pub fn remove(&mut self, key: &str) -> (r: Option<Value>)
        ensures
            final(self)@ == old(self)@.remove(key@),
            match r {
                Some(v) => old(self)@.contains_key(key@) && v@ == old(self)@[key@],
                None => !old(self)@.contains_key(key@),
            },
    {
        proof {
            use_type_invariant(&*self);
        }
        let mut entries: Vec<(String, Value)> = Vec::new();
        std::mem::swap(&mut entries, &mut self.entries);
        let r = remove_entry(&mut entries, key);
        self.entries = entries;
        r
    }

    /// Removes all entries.
    pub fn clear(&mut self)
        ensures
            final(self)@ == Map::<Seq<char>, ValueModel>::empty(),
    {
        self.entries = Vec::new();
        proof {
            assert(self.entry_seq() =~= Seq::<(Seq<char>, ValueModel)>::empty());
            assert(entries_map(self.entry_seq()) =~= Map::<Seq<char>, ValueModel>::empty());
        }
    }

    /// Stores a typed `value` under `key` after validating the entry
    /// against `schema`, and returns the value it replaces.
    ///
    /// # Errors
    ///
    /// The schema's error for the entry (see [`entry_problem`]); the
    /// metadata is then unchanged.
    pub fn set_checked<T: IntoValue>(&mut self, schema: &MetadataSchema, key: &str, value: T) -> (r:
        MetadataResult<Option<Value>>)
        ensures
            match entry_problem(schema@, key@, value.value_model()) {
                None => r matches Ok(prev) && final(self)@ == old(self)@.insert(
                    key@,
                    value.value_model(),
                ) && match prev {
                    Some(v) => old(self)@.contains_key(key@) && v@ == old(self)@[key@],
                    None => !old(self)@.contains_key(key@),
                },
                Some(p) => r matches Err(e) && error_is(e, p) && final(self)@ == old(self)@,
            },
    {
        let v = value.into_value();
        match schema.validate_entry(key, &v) {
            Ok(()) => Ok(self.set_raw(key, v)),
            Err(e) => Err(e),
        }
    }

    /// Returns this metadata with a typed `value` stored under `key` after
    /// validating the entry against `schema`.
    ///
    /// # Errors
    ///
    /// The schema's error for the entry (see [`entry_problem`]).
    pub fn with_checked<T: IntoValue>(self, schema: &MetadataSchema, key: &str, value: T) -> (r:
        MetadataResult<Metadata>)
        ensures
            match entry_problem(schema@, key@, value.value_model()) {
                None => r matches Ok(m) && m@ == self@.insert(key@, value.value_model()),
                Some(p) => r matches Err(e) && error_is(e, p),
            },
    {
        let mut m = self;
        match m.set_checked(schema, key, value) {
            Ok(_) => Ok(m),
            Err(e) => Err(e),
        }
    }

    /// Returns the entries as `(key, value)` pairs in ascending key order.
    pub fn iter(&self) -> (r: Vec<(&str, &Value)>)
        ensures
            sorted_keys(self.entry_seq()),
            r@.len() == self.entry_seq().len(),
            forall|i: int|
                0 <= i < r@.len() ==> (#[trigger] r@[i]).0@ == self.entry_seq()[i].0 && r@[i].1@
                    == self.entry_seq()[i].1,
    {
        proof {
            use_type_invariant(self);
        }
        let mut r: Vec<(&str, &Value)> = Vec::new();
        let mut i: usize = 0;
        while i < self.entries.len()
            invariant
                i <= self.entries@.len(),
                r@.len() == i,
                forall|j: int|
                    0 <= j < i ==> (#[trigger] r@[j]).0@ == self.entry_seq()[j].0 && r@[j].1@
                        == self.entry_seq()[j].1,
            decreases self.entries.len() - i,
        {
            r.push((self.entries[i].0.as_str(), &self.entries[i].1));
            i = i + 1;
        }
        r
    }

    /// Returns the keys in ascending order.
    pub fn keys(&self) -> (r: Vec<&str>)
        ensures
            sorted_keys(self.entry_seq()),
            r@.len() == self.entry_seq().len(),
            forall|i: int| 0 <= i < r@.len() ==> (#[trigger] r@[i])@ == self.entry_seq()[i].0,
    {
        proof {
            use_type_invariant(self);
        }
        let mut r: Vec<&str> = Vec::new();
        let mut i: usize = 0;
        while i < self.entries.len()
            invariant
                i <= self.entries@.len(),
                r@.len() == i,
                forall|j: int| 0 <= j < i ==> (#[trigger] r@[j])@ == self.entry_seq()[j].0,
            decreases self.entries.len() - i,
        {
            r.push(self.entries[i].0.as_str());
            i = i + 1;
        }
        r
    }

    /// Returns the values in ascending order of their keys.
    pub fn values(&self) -> (r: Vec<&Value>)
        ensures
            sorted_keys(self.entry_seq()),
            r@.len() == self.entry_seq().len(),
            forall|i: int| 0 <= i < r@.len() ==> (#[trigger] r@[i])@ == self.entry_seq()[i].1,
    {
        proof {
            use_type_invariant(self);
        }
        let mut r: Vec<&Value> = Vec::new();
        let mut i: usize = 0;
        while i < self.entries.len()
            invariant
                i <= self.entries@.len(),
                r@.len() == i,
                forall|j: int| 0 <= j < i ==> (#[trigger] r@[j])@ == self.entry_seq()[j].1,
            decreases self.entries.len() - i,
        {
            r.push(&self.entries[i].1);
            i = i + 1;
        }
        r
    }

    /// Copies every entry of `other` into this metadata, overwriting the
    /// values of keys that both hold.
    fn merge_from(&mut self, other: &Metadata)
        ensures
            final(self)@ == old(self)@.union_prefer_right(other@),
    {
        proof {
            use_type_invariant(other);
        }
        let ghost o = other.entry_seq();
        let ghost start = self@;
        let mut i: usize = 0;
        proof {
            assert(o.take(0) =~= Seq::<(Seq<char>, ValueModel)>::empty());
            assert(start.union_prefer_right(entries_map(o.take(0))) =~= start);
        }
        while i < other.entries.len()
            invariant
                o == other.entry_seq(),
                sorted_keys(o),
                i <= other.entries@.len(),
                self@ == start.union_prefer_right(entries_map(o.take(i as int))),
            decreases other.entries.len() - i,
        {
            let v = copy_value(&other.entries[i].1);
            self.set_raw(other.entries[i].0.as_str(), v);
            proof {
                lemma_take_next(o, i as int);
                let m = entries_map(o.take(i as int));
                assert(start.union_prefer_right(m.insert(o[i as int].0, o[i as int].1))
                    =~= start.union_prefer_right(m).insert(o[i as int].0, o[i as int].1));
            }
            i = i + 1;
        }
        proof {
            assert(o.take(i as int) =~= o);
        }
    }

    /// Moves every entry of `other` into this metadata, overwriting the
    /// values of keys that both hold.
    pub fn merge(&mut self, other: Metadata)
        ensures
            final(self)@ == old(self)@.union_prefer_right(other@),
    {
        self.merge_from(&other);
    }

    /// Returns a metadata object with the entries of both; `other` wins on
    /// keys that both hold.
    pub fn merged(&self, other: &Metadata) -> (r: Metadata)
        ensures
            r@ == self@.union_prefer_right(other@),
    {
        let mut r = self.clone();
        r.merge_from(other);
        r
    }

    /// Keeps only the entries for which `predicate` returns `true`: every
    /// entry that stays keeps its value, and each entry stays or goes by a
    /// verdict of `predicate` on its key and value.
    pub fn retain<F: Fn(&String, &Value) -> bool>(&mut self, predicate: F)
        requires
            forall|k: &String, v: &Value| predicate.requires((k, v)),
        ensures
            forall|k: Seq<char>| #[trigger]
                final(self)@.contains_key(k) ==> old(self)@.contains_key(k) && final(self)@[k] == old(
                    self,
                )@[k],
            forall|i: int|
                0 <= i < old(self).entry_count() ==> predicate.ensures(
                    (&(#[trigger] old(self).entry_at(i)).0, &old(self).entry_at(i).1),
                    final(self)@.contains_key(old(self).entry_seq()[i].0),
                ),
    {
        proof {
            use_type_invariant(&*self);
        }
        let ghost s = self.entry_seq();
        let ghost before = *self;
        let mut entries: Vec<(String, Value)> = Vec::new();
        std::mem::swap(&mut entries, &mut self.entries);
        let mut kept: Vec<(String, Value)> = Vec::new();
        let mut i: usize = 0;
        while i < entries.len()
            invariant
                s == entries_model(entries@),
                s == before.entry_seq(),
                entries@.len() == before.entry_count(),
                forall|j: int| 0 <= j < entries@.len() ==> entries@[j] == #[trigger] before.entry_at(j),
                sorted_keys(s),
                forall|k: &String, v: &Value| predicate.requires((k, v)),
                i <= entries@.len(),
                sorted_keys(entries_model(kept@)),
                forall|j: int|
                    0 <= j < kept@.len() ==> exists|n: int|
                        0 <= n < i && #[trigger] entries_model(kept@)[j] == s[n],
                forall|n: int|
                    0 <= n < i ==> predicate.ensures(
                        (&(#[trigger] entries@[n]).0, &entries@[n].1),
                        entries_map(entries_model(kept@)).contains_key(s[n].0),
                    ),
            decreases entries.len() - i,
        {
            let ghost km = entries_model(kept@);
            proof {
                assert forall|j: int| 0 <= j < km.len() implies seq_lt(#[trigger] km[j].0, s[i as int].0) by {
                    let n = choose|n: int| 0 <= n < i && #[trigger] entries_model(kept@)[j] == s[n];
                }
                if entries_map(km).contains_key(s[i as int].0) {
                    let j = choose|j: int| 0 <= j < km.len() && (#[trigger] km[j]).0 == s[i as int].0;
                    lemma_seq_lt_irreflexive(s[i as int].0);
                }
            }
            let keep = predicate(&entries[i].0, &entries[i].1);
            if keep {
                let k = entries[i].0.clone();
                let v = copy_value(&entries[i].1);
                kept.push((k, v));
                proof {
                    lemma_entries_insert(km, km.len() as int, s[i as int].0, s[i as int].1);
                    assert(entries_model(kept@) =~= km.insert(km.len() as int, (s[i as int].0, s[i as int].1)));
                    assert(entries_model(kept@)[km.len() as int] == s[i as int]);
                    assert forall|j: int| 0 <= j < kept@.len() implies exists|n: int|
                        0 <= n < i + 1 && #[trigger] entries_model(kept@)[j] == s[n] by {
                        if j < km.len() {
                            assert(entries_model(kept@)[j] == km[j]);
                            let n = choose|n: int| 0 <= n < i && #[trigger] entries_model(kept@)[j] == s[n];
                        } else {
                            assert(entries_model(kept@)[j] == s[i as int]);
                        }
                    }
                    assert forall|n: int| 0 <= n < i + 1 implies predicate.ensures(
                        (&(#[trigger] entries@[n]).0, &entries@[n].1),
                        entries_map(entries_model(kept@)).contains_key(s[n].0),
                    ) by {
                        if n < i {
                            lemma_seq_lt_irreflexive(s[n].0);
                            if s[n].0 == s[i as int].0 {
                                lemma_sorted_unique(s, n, i as int);
                            }
                            assert(entries_map(entries_model(kept@)).contains_key(s[n].0)
                                == entries_map(km).contains_key(s[n].0));
                        } else {
                            lemma_entries_map_index(entries_model(kept@), km.len() as int);
                        }
                    }
                }
            }
            i = i + 1;
        }
        self.entries = kept;
        proof {
            assert forall|k: Seq<char>| #[trigger] self@.contains_key(k) implies before@.contains_key(k)
                && self@[k] == before@[k] by {
                let km = entries_model(self.entries@);
                let j = choose|j: int| 0 <= j < km.len() && (#[trigger] km[j]).0 == k;
                let n = choose|n: int| 0 <= n < s.len() && #[trigger] km[j] == s[n];
                lemma_entries_map_index(km, j);
                lemma_entries_map_index(s, n);
            }
        }
    }

    /// Returns the entries in ascending key order.
    pub fn into_inner(self) -> (r: Vec<(String, Value)>)
        ensures
            entries_model(r@) == self.entry_seq(),
            sorted_keys(entries_model(r@)),
    {
        proof {
            use_type_invariant(&self);
        }
        let Metadata { entries } = self;
        entries
    }

    /// Inserts the given pairs one after the other; later pairs win.
    pub fn extend(&mut self, pairs: Vec<(String, Value)>)
        ensures
            final(self)@ == insert_all(old(self)@, entries_model(pairs@)),
            forall|i: int|
                0 <= i < pairs@.len() && (forall|j: int| i < j < pairs@.len() ==> pairs@[j].0@ != pairs@[i].0@)
                    ==> final(self)@.contains_key(#[trigger] pairs@[i].0@) && final(self)@[pairs@[i].0@]
                    == pairs@[i].1@,
            forall|k: Seq<char>|
                #![trigger final(self)@.contains_key(k)]
                #![trigger old(self)@.contains_key(k)]
                (forall|i: int| 0 <= i < pairs@.len() ==> (#[trigger] pairs@[i]).0@ != k) ==> (final(self)@.contains_key(k) == old(self)@.contains_key(k) && (old(self)@.contains_key(k) ==> final(self)@[k] == old(self)@[k])),
    {
        let ghost s = entries_model(pairs@);
        let ghost start = self@;
        let mut i: usize = 0;
        proof {
            assert(s.take(0) =~= Seq::<(Seq<char>, ValueModel)>::empty());
        }
        while i < pairs.len()
            invariant
                s == entries_model(pairs@),
                i <= pairs@.len(),
                self@ == insert_all(start, s.take(i as int)),
            decreases pairs.len() - i,
        {
            let v = copy_value(&pairs[i].1);
            self.set_raw(pairs[i].0.as_str(), v);
            proof {
                assert(s.take(i + 1).drop_last() =~= s.take(i as int));
            }
            i = i + 1;
        }
        proof {
            assert(s.take(i as int) =~= s);
            assert forall|n: int|
                0 <= n < pairs@.len() && (forall|j: int| n < j < pairs@.len() ==> pairs@[j].0@ != pairs@[n].0@)
                    implies self@.contains_key(#[trigger] pairs@[n].0@) && self@[pairs@[n].0@]
                    == pairs@[n].1@ by {
                law_later_pairs_win(start, s, pairs@[n].0@);
                assert(s[n] == (pairs@[n].0@, pairs@[n].1@));
                assert forall|j: int| n < j < s.len() implies s[j].0 != s[n].0 by {
                    assert(s[j] == (pairs@[j].0@, pairs@[j].1@));
                }
            }
            assert forall|k: Seq<char>|
                #![trigger self@.contains_key(k)]
                #![trigger start.contains_key(k)]
                (forall|n: int| 0 <= n < pairs@.len() ==> (#[trigger] pairs@[n]).0@ != k) implies (
                self@.contains_key(k) == start.contains_key(k) && (start.contains_key(k) ==> self@[k]
                    == start[k])) by {
                law_later_pairs_win(start, s, k);
                assert forall|n: int| 0 <= n < s.len() implies (#[trigger] s[n]).0 != k by {
                    assert(s[n] == (pairs@[n].0@, pairs@[n].1@));
                    assert(pairs@[n].0@ != k);
                }
            }
        }
    }

    /// Builds metadata from pairs inserted one after the other; later pairs
    /// win.
    pub fn from_entries(pairs: Vec<(String, Value)>) -> (r: Metadata)
        ensures
            r@ == insert_all(Map::empty(), entries_model(pairs@)),
    {
        let mut m = Metadata::new();
        m.extend(pairs);
        m
    }
}

/// Extending a key-sorted prefix by the next entry adds that entry to its map.
proof fn lemma_take_next(s: Seq<(Seq<char>, ValueModel)>, i: int)
    requires
        sorted_keys(s),
        0 <= i < s.len(),
    ensures
        entries_map(s.take(i + 1)) =~= entries_map(s.take(i)).insert(s[i].0, s[i].1),
{
    let t = s.take(i);
    assert(sorted_keys(t));
    lemma_entries_insert(t, i, s[i].0, s[i].1);
    assert(t.insert(i, (s[i].0, s[i].1)) =~= s.take(i + 1));
}

impl Clone for Metadata {
    fn clone(&self) -> (r: Self)
        ensures
            r.entry_seq() == self.entry_seq(),
            r@ == self@,
    {
        proof {
            use_type_invariant(self);
        }
        let mut entries: Vec<(String, Value)> = Vec::new();
        let mut i: usize = 0;
        while i < self.entries.len()
            invariant
                i <= self.entries@.len(),
                entries_model(entries@) == self.entry_seq().take(i as int),
            decreases self.entries.len() - i,
        {
            let k = self.entries[i].0.clone();
            let v = copy_value(&self.entries[i].1);
            let ghost before = entries@;
            entries.push((k, v));
            proof {
                assert(entries@ == before.push((k, v)));
                assert(entries_model(entries@) =~= entries_model(before).push((k@, v@)));
                assert(self.entry_seq()[i as int] == (self.entries@[i as int].0@, self.entries@[i as int].1@));
                assert(entries_model(entries@) =~= self.entry_seq().take(i + 1));
            }
            i = i + 1;
        }
        proof {
            assert(self.entry_seq().take(i as int) =~= self.entry_seq());
        }
        Metadata { entries }
    }
}

impl Default for Metadata {
    fn default() -> (r: Self)
        ensures
            r@ == Map::<Seq<char>, ValueModel>::empty(),
    {
        Metadata::new()
    }
}

impl PartialEq for Metadata {
    fn eq(&self, other: &Self) -> (r: bool) {
        if self.entries.len() != other.entries.len() {
            return false;
        }
        let mut i: usize = 0;
        while i < self.entries.len()
            invariant
                self.entries@.len() == other.entries@.len(),
                i <= self.entries@.len(),
                self.entry_seq().len() == other.entry_seq().len(),
                forall|j: int|
                    0 <= j < i ==> (#[trigger] self.entry_seq()[j]).0 == other.entry_seq()[j].0
                        && value_same(self.entry_seq()[j].1, other.entry_seq()[j].1),
            decreases self.entries.len() - i,
        {
            proof {
                assert(self.entry_seq()[i as int] == (self.entries@[i as int].0@, self.entries@[i as int].1@));
                assert(other.entry_seq()[i as int] == (other.entries@[i as int].0@, other.entries@[i as int].1@));
            }
            if !str_eq(self.entries[i].0.as_str(), other.entries[i].0.as_str()) {
                return false;
            }
            if !same_value(&self.entries[i].1, &other.entries[i].1) {
                return false;
            }
            i = i + 1;
        }
        true
    }
}

impl vstd::std_specs::cmp::PartialEqSpecImpl for Metadata {
    open spec fn obeys_eq_spec() -> bool {
        true
    }

    open spec fn eq_spec(&self, other: &Self) -> bool {
        &&& self.entry_seq().len() == other.entry_seq().len()
        &&& forall|i: int|
            0 <= i < self.entry_seq().len() ==> (#[trigger] self.entry_seq()[i]).0 == other.entry_seq()[i].0
                && value_same(self.entry_seq()[i].1, other.entry_seq()[i].1)
    }
}

} // verus!
