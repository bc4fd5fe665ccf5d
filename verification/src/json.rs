//! A plain-value model of JSON documents, in which every message of the
//! protocol is built and taken apart.

use vstd::prelude::*;

verus! {

broadcast use vstd::std_specs::vec::axiom_vec_decreases_to_view;

/// A JSON value. Numbers keep their decimal text; objects keep the order in
/// which their entries were written. A string whose written form held an
/// escape sequence is kept apart from one written as its characters alone:
/// both read as strings, but only the latter can be borrowed from the text
/// it was read from.
#[derive(Debug)]
pub enum JsonValue {
    Null,
    Bool(bool),
    Number(String),
    Str(String),
    Escaped(String),
    Array(Vec<JsonValue>),
    Object(Vec<(String, JsonValue)>),
}

/// The mathematical value of a [`JsonValue`].
pub enum Json {
    Null,
    Bool(bool),
    Number(Seq<char>),
    Str(Seq<char>),
    Escaped(Seq<char>),
    Array(Seq<Json>),
    Object(Seq<(Seq<char>, Json)>),
}

impl JsonValue {
    /// The value, with every string taken by its characters.
    pub open spec fn deep(self) -> Json
        decreases self,
    {
        match self {
            JsonValue::Null => Json::Null,
            JsonValue::Bool(b) => Json::Bool(b),
            JsonValue::Number(n) => Json::Number(n@),
            JsonValue::Str(s) => Json::Str(s@),
            JsonValue::Escaped(s) => Json::Escaped(s@),
            JsonValue::Array(items) => Json::Array(deep_items(items@)),
            JsonValue::Object(entries) => Json::Object(deep_entries(entries@)),
        }
    }
}

/// The values of a sequence of elements.
pub open spec fn deep_items(s: Seq<JsonValue>) -> Seq<Json>
    decreases s,
{
    if s.len() == 0 {
        Seq::empty()
    } else {
        deep_items(s.drop_last()).push(s.last().deep())
    }
}

/// The keys and values of a sequence of object entries.
pub open spec fn deep_entries(s: Seq<(String, JsonValue)>) -> Seq<(Seq<char>, Json)>
    decreases s,
{
    if s.len() == 0 {
        Seq::empty()
    } else {
        deep_entries(s.drop_last()).push((s.last().0@, s.last().1.deep()))
    }
}

/// The characters of a string, however it was written; `None` for a value
/// that is not a string.
pub open spec fn string_of(j: Json) -> Option<Seq<char>> {
    match j {
        Json::Str(s) => Some(s),
        Json::Escaped(s) => Some(s),
        _ => None,
    }
}

/// The string of a value, however it was written, or `None` for a value
/// that is not a string.
pub fn as_string(j: &JsonValue) -> (r: Option<&String>)
    ensures
        match string_of(j.deep()) {
            Some(s) => r matches Some(t) && t@ == s,
            None => r is None,
        },
{
    match j {
        JsonValue::Str(s) => Some(s),
        JsonValue::Escaped(s) => Some(s),
        _ => None,
    }
}

} // verus!

verus! {

/// The value of each element of a sequence is the element's value.
pub proof fn lemma_deep_items(s: Seq<JsonValue>)
    ensures
        deep_items(s).len() == s.len(),
        forall|i: int| 0 <= i < s.len() ==> #[trigger] deep_items(s)[i] == s[i].deep(),
    decreases s.len(),
{
    if s.len() > 0 {
        lemma_deep_items(s.drop_last());
    }
}

/// The key and value of each entry of a sequence are the entry's.
pub proof fn lemma_deep_entries(s: Seq<(String, JsonValue)>)
    ensures
        deep_entries(s).len() == s.len(),
        forall|i: int|
            0 <= i < s.len() ==> #[trigger] deep_entries(s)[i] == (s[i].0@, s[i].1.deep()),
    decreases s.len(),
{
    if s.len() > 0 {
        lemma_deep_entries(s.drop_last());
    }
}

/// The keys and values of two sequences of entries agree where they agree
/// entry by entry.
pub proof fn lemma_deep_entries_ext(s: Seq<(String, JsonValue)>, t: Seq<(Seq<char>, Json)>)
    requires
        s.len() == t.len(),
        forall|i: int| 0 <= i < s.len() ==> (s[i].0@, s[i].1.deep()) == #[trigger] t[i],
    ensures
        deep_entries(s) == t,
{
    lemma_deep_entries(s);
    assert(deep_entries(s) =~= t);
}

/// Whether `i` is the first position of `entries` whose key is `key`.
pub open spec fn is_first_key(entries: Seq<(Seq<char>, Json)>, key: Seq<char>, i: int) -> bool {
    &&& 0 <= i < entries.len()
    &&& entries[i].0 == key
    &&& forall|j: int| 0 <= j < i ==> #[trigger] entries[j].0 != key
}

/// Whether some entry of `entries` has the key `key`.
pub open spec fn has_key(entries: Seq<(Seq<char>, Json)>, key: Seq<char>) -> bool {
    exists|i: int| 0 <= i < entries.len() && #[trigger] entries[i].0 == key
}

/// The first position of `entries` whose key is `key`, where there is one.
pub open spec fn key_position(entries: Seq<(Seq<char>, Json)>, key: Seq<char>) -> int {
    choose|i: int| is_first_key(entries, key, i)
}

/// Where some entry has the key, [`key_position`] is the first such entry.
pub proof fn lemma_key_position(entries: Seq<(Seq<char>, Json)>, key: Seq<char>)
    requires
        has_key(entries, key),
    ensures
        is_first_key(entries, key, key_position(entries, key)),
{
    let k = choose|i: int| 0 <= i < entries.len() && #[trigger] entries[i].0 == key;
    lemma_first_below(entries, key, k);
}

proof fn lemma_first_below(entries: Seq<(Seq<char>, Json)>, key: Seq<char>, k: int)
    requires
        0 <= k < entries.len(),
        entries[k].0 == key,
    ensures
        exists|i: int| is_first_key(entries, key, i),
    decreases k,
{
    if exists|j: int| 0 <= j < k && #[trigger] entries[j].0 == key {
        let j = choose|j: int| 0 <= j < k && #[trigger] entries[j].0 == key;
        lemma_first_below(entries, key, j);
    } else {
        assert(is_first_key(entries, key, k));
    }
}

/// Whether two entries of `entries` have the key `key`.
pub open spec fn is_repeated(entries: Seq<(Seq<char>, Json)>, key: Seq<char>) -> bool {
    exists|i: int, j: int|
        #![trigger entries[i], entries[j]]
        0 <= i < j < entries.len() && entries[i].0 == key && entries[j].0 == key
}

/// A string that holds the characters of `s`.
pub fn text(s: &str) -> (r: String)
    ensures
        r@ == s@,
{
    String::from_str(s)
}

/// The first position of `entries` whose key is `key`, or `None` where no
/// entry has that key.
pub fn find_key(entries: &Vec<(String, JsonValue)>, key: &str) -> (r: Option<usize>)
    ensures
        match r {
            Some(i) => is_first_key(deep_entries(entries@), key@, i as int),
            None => !has_key(deep_entries(entries@), key@),
        },
{
    proof {
        lemma_deep_entries(entries@);
    }
    let ghost e = deep_entries(entries@);
    let k = text(key);
    let mut i: usize = 0;
    while i < entries.len()
        invariant
            i <= entries.len(),
            e == deep_entries(entries@),
            e.len() == entries@.len(),
            forall|j: int| 0 <= j < entries@.len() ==> #[trigger] e[j] == (entries@[j].0@, entries@[j].1.deep()),
            k@ == key@,
            forall|j: int| 0 <= j < i ==> #[trigger] e[j].0 != key@,
        decreases entries.len() - i,
    {
        if entries[i].0 == k {
            return Some(i);
        }
        i = i + 1;
    }
    None
}

/// Whether two entries of `entries` have the key `key`.
pub fn repeats_key(entries: &Vec<(String, JsonValue)>, key: &str) -> (b: bool)
    ensures
        b == is_repeated(deep_entries(entries@), key@),
{
    proof {
        lemma_deep_entries(entries@);
    }
    let ghost e = deep_entries(entries@);
    match find_key(entries, key) {
        None => {
            proof {
                if is_repeated(e, key@) {
                    let (a, b) = choose|a: int, b: int|
                        #![trigger e[a], e[b]]
                        0 <= a < b < e.len() && e[a].0 == key@ && e[b].0 == key@;
                    assert(e[a].0 == key@);
                }
            }
            false
        },
        Some(p) => {
            let k = text(key);
            assert(p < entries.len());
            let mut i: usize = p + 1;
            while i < entries.len()
                invariant
                    p < i <= entries.len(),
                    e == deep_entries(entries@),
                    e.len() == entries@.len(),
                    forall|j: int| 0 <= j < entries@.len() ==> #[trigger] e[j] == (entries@[j].0@, entries@[j].1.deep()),
                    k@ == key@,
                    is_first_key(e, key@, p as int),
                    forall|j: int| p < j < i ==> #[trigger] e[j].0 != key@,
                decreases entries.len() - i,
            {
                if entries[i].0 == k {
                    proof {
                        assert(e[p as int].0 == key@ && e[i as int].0 == key@);
                    }
                    return true;
                }
                i = i + 1;
            }
            proof {
                if is_repeated(e, key@) {
                    let (a, b) = choose|a: int, b: int|
                        #![trigger e[a], e[b]]
                        0 <= a < b < e.len() && e[a].0 == key@ && e[b].0 == key@;
                    if a < p {
                        assert(e[a].0 != key@);
                    }
                    assert(e[b].0 != key@);
                }
            }
            false
        },
    }
}

} // verus!

verus! {

/// Why a JSON value is not a message of the expected shape.
#[derive(PartialEq, Eq, Structural, Clone, Copy, Debug)]
pub enum FormatError {
    /// An object was expected.
    NotAnObject,
    /// An object lacks an entry that the shape requires.
    MissingField,
    /// An object has an entry that the shape does not allow.
    UnknownField,
    /// An object has two entries with a key that the shape reads.
    DuplicateField,
    /// A tag names no variant of the shape.
    UnknownVariant,
    /// A value is of the wrong type.
    InvalidType,
    /// A list has the wrong number of elements.
    InvalidLength,
    /// An identifier is not the text of a UUID.
    InvalidUuid,
}

impl FormatError {
    /// A short text that says what is wrong.
    pub open spec fn spec_text(self) -> Seq<char> {
        match self {
            FormatError::NotAnObject => "expected an object"@,
            FormatError::MissingField => "missing field"@,
            FormatError::UnknownField => "unknown field"@,
            FormatError::DuplicateField => "duplicate field"@,
            FormatError::UnknownVariant => "unknown variant"@,
            FormatError::InvalidType => "invalid type"@,
            FormatError::InvalidLength => "invalid length"@,
            FormatError::InvalidUuid => "invalid UUID"@,
        }
    }

    /// A short text that says what is wrong.
    pub fn text(&self) -> (s: String)
        ensures
            s@ == self.spec_text(),
    {
        match self {
            FormatError::NotAnObject => text("expected an object"),
            FormatError::MissingField => text("missing field"),
            FormatError::UnknownField => text("unknown field"),
            FormatError::DuplicateField => text("duplicate field"),
            FormatError::UnknownVariant => text("unknown variant"),
            FormatError::InvalidType => text("invalid type"),
            FormatError::InvalidLength => text("invalid length"),
            FormatError::InvalidUuid => text("invalid UUID"),
        }
    }
}

} // verus!

verus! {

/// Only one position is the first with a given key.
pub proof fn lemma_first_key_unique(entries: Seq<(Seq<char>, Json)>, key: Seq<char>, i: int)
    requires
        is_first_key(entries, key, i),
    ensures
        has_key(entries, key),
        key_position(entries, key) == i,
{
    assert(entries[i].0 == key);
    lemma_key_position(entries, key);
    let p = key_position(entries, key);
    if p < i {
        assert(entries[p].0 != key);
    }
    if i < p {
        assert(entries[i].0 != key);
    }
}

} // verus!

verus! {

/// An object of two entries answers every question by key the same way
/// with its entries in either order: whether a key is there, whether it is
/// there twice, and, where it is there once, the entry that has it.
pub proof fn lemma_swapped_pair_keys(
    a: (Seq<char>, Json),
    b: (Seq<char>, Json),
    key: Seq<char>,
)
    ensures
        has_key(seq![a, b], key) == has_key(seq![b, a], key),
        has_key(seq![a, b], key) <==> (a.0 == key || b.0 == key),
        is_repeated(seq![a, b], key) == is_repeated(seq![b, a], key),
        is_repeated(seq![a, b], key) <==> (a.0 == key && b.0 == key),
        has_key(seq![a, b], key) && !is_repeated(seq![a, b], key) ==> seq![a, b][key_position(
            seq![a, b],
            key,
        )] == seq![b, a][key_position(seq![b, a], key)],
{
    let x = seq![a, b];
    let y = seq![b, a];
    assert(x[0] == a && x[1] == b && y[0] == b && y[1] == a);
    if a.0 == key && b.0 == key {
        assert(x[0].0 == key && x[1].0 == key);
        assert(y[0].0 == key && y[1].0 == key);
    }
    if is_repeated(x, key) {
        let (i, j) = choose|i: int, j: int|
            #![trigger x[i], x[j]]
            0 <= i < j < x.len() && x[i].0 == key && x[j].0 == key;
        assert(i == 0 && j == 1);
    }
    if is_repeated(y, key) {
        let (i, j) = choose|i: int, j: int|
            #![trigger y[i], y[j]]
            0 <= i < j < y.len() && y[i].0 == key && y[j].0 == key;
        assert(i == 0 && j == 1);
    }
    if has_key(x, key) {
        let i = choose|i: int| 0 <= i < x.len() && #[trigger] x[i].0 == key;
        assert(i == 0 || i == 1);
    }
    if has_key(y, key) {
        let i = choose|i: int| 0 <= i < y.len() && #[trigger] y[i].0 == key;
        assert(i == 0 || i == 1);
    }
    if a.0 == key && b.0 != key {
        assert(is_first_key(x, key, 0));
        assert(is_first_key(y, key, 1));
        lemma_first_key_unique(x, key, 0);
        lemma_first_key_unique(y, key, 1);
    }
    if a.0 != key && b.0 == key {
        assert(is_first_key(x, key, 1));
        assert(is_first_key(y, key, 0));
        lemma_first_key_unique(x, key, 1);
        lemma_first_key_unique(y, key, 0);
    }
}

/// Taking an entry out of a sequence takes its key and value out of the
/// sequence's keys and values.
pub proof fn lemma_deep_entries_remove(s: Seq<(String, JsonValue)>, p: int)
    requires
        0 <= p < s.len(),
    ensures
        deep_entries(s.remove(p)) == deep_entries(s).remove(p),
{
    lemma_deep_entries(s);
    lemma_deep_entries_ext(s.remove(p), deep_entries(s).remove(p));
}

} // verus!
