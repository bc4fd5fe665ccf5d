//! The shape of events on the wire: what an enum of emitted or called events
//! becomes, how it is read back, and how a response is written.
//!
//! An event enum is described by an [`EventSchema`]: the name of each
//! variant and the names of its fields. Emitted and called events are
//! written `{"event": <variant name in snake case>, "args": <fields>}`, where
//! the fields are `null` for a variant without fields and otherwise a list
//! of their values in order. A response is written as an object of its
//! fields, the variant's name left out.

use vstd::prelude::*;
use crate::json::{
    deep_entries, deep_items, find_key, has_key, is_first_key, is_repeated, key_position,
    repeats_key, as_string, string_of, lemma_swapped_pair_keys,
    lemma_deep_entries, lemma_deep_entries_ext, lemma_deep_items, lemma_key_position, text,
    FormatError, Json, JsonValue,
};

verus! {

/// The lower-case form of an ASCII letter; any other character unchanged.
pub open spec fn ascii_lower(c: char) -> char {
    if 'A' <= c && c <= 'Z' {
        ((c as u32) + 32) as char
    } else {
        c
    }
}

/// Whether `char::is_uppercase` holds of `c`.
pub uninterp spec fn is_uppercase_char(c: char) -> bool;

/// Calls `char::is_uppercase`. Among ASCII characters it holds of the
/// letters `A` to `Z` alone; of other characters it is not stated.
#[verifier::external_body]
fn char_is_uppercase(c: char) -> (b: bool)
    ensures
        b == is_uppercase_char(c),
        (c as u32) < 128 ==> (b <==> ('A' <= c && c <= 'Z')),
{
    c.is_uppercase()
}

/// Whether serde's snake-case renaming counts `c` as upper case: among
/// ASCII characters the letters `A` to `Z`, elsewhere what
/// `char::is_uppercase` says.
pub open spec fn is_upper(c: char) -> bool {
    if (c as u32) < 128 {
        'A' <= c && c <= 'Z'
    } else {
        is_uppercase_char(c)
    }
}

/// Calls `String::push`.
#[verifier::external_body]
fn push_char(s: &mut String, c: char)
    ensures
        final(s)@ == old(s)@.push(c),
{
    s.push(c)
}

/// The snake-case form of a variant's name: each upper-case character but
/// the first is preceded by `_`, and ASCII letters are made lower case.
pub open spec fn snake_case(name: Seq<char>) -> Seq<char>
    decreases name.len(),
{
    if name.len() == 0 {
        Seq::empty()
    } else {
        let c = name.last();
        let sep = if name.len() > 1 && is_upper(c) {
            seq!['_']
        } else {
            Seq::empty()
        };
        snake_case(name.drop_last()) + sep + seq![ascii_lower(c)]
    }
}

fn ascii_lower_char(c: char) -> (d: char)
    ensures
        d == ascii_lower(c),
{
    if 'A' <= c && c <= 'Z' {
        let b: u8 = c as u8;
        let n: u8 = b + 32;
        n as char
    } else {
        c
    }
}

/// The snake-case form of a variant's name, as events are tagged on the wire.
pub fn snake_case_name(name: &str) -> (s: String)
    ensures
        s@ == snake_case(name@),
{
    let n: usize = name.unicode_len();
    let mut out = String::new();
    let mut i: usize = 0;
    while i < n
        invariant
            n == name@.len(),
            i <= n,
            out@ == snake_case(name@.take(i as int)),
        decreases n - i,
    {
        let c = name.get_char(i);
        proof {
            assert(name@.take(i + 1).drop_last() =~= name@.take(i as int));
            assert(name@.take(i + 1).last() == c);
        }
        if i > 0 && char_is_uppercase(c) {
            push_char(&mut out, '_');
        }
        push_char(&mut out, ascii_lower_char(c));
        proof {
            assert(out@ =~= snake_case(name@.take(i + 1)));
        }
        i = i + 1;
    }
    proof {
        assert(name@.take(n as int) =~= name@);
    }
    out
}

} // verus!

verus! {

/// How the fields of an event variant are declared.
pub enum VariantFields {
    /// Fields with names, in order: `Variant { a: A, b: B }`.
    Named(Vec<String>),
    /// A number of fields without names: `Variant(A, B)`.
    Unnamed(usize),
    /// No field list: `Variant`.
    Unit,
}

/// A variant of an event enum, as it is declared.
pub struct VariantDecl {
    pub name: String,
    pub fields: VariantFields,
}

struct VariantSchema {
    name: String,
    wire_name: String,
    fields: Vec<String>,
}

/// The variants of an event enum: their names and the names of their
/// fields, in order.
pub struct EventSchema {
    variants: Vec<VariantSchema>,
}

/// The names of a list of strings.
pub open spec fn string_views(v: Seq<String>) -> Seq<Seq<char>> {
    Seq::new(v.len(), |i: int| v[i]@)
}

/// Whether every variant of `decls` declares its fields by name.
pub open spec fn all_named(decls: Seq<VariantDecl>) -> bool {
    forall|i: int| 0 <= i < decls.len() ==> #[trigger] decls[i].fields is Named
}

/// The text of the refusal of a variant whose fields have no names.
pub open spec fn unnamed_variant_text() -> Seq<char> {
    "Variants of emit messages must be named structs."@
}

impl EventSchema {
    #[verifier::type_invariant]
    spec fn inv(self) -> bool {
        forall|i: int|
            0 <= i < self.variants@.len() ==> #[trigger] self.variants@[i].wire_name@ == snake_case(
                self.variants@[i].name@,
            )
    }

    /// The names of the variants.
    pub closed spec fn names(&self) -> Seq<Seq<char>> {
        Seq::new(self.variants@.len(), |i: int| self.variants@[i].name@)
    }

    /// The names of the fields of each variant.
    pub closed spec fn fields(&self) -> Seq<Seq<Seq<char>>> {
        Seq::new(self.variants@.len(), |i: int| string_views(self.variants@[i].fields@))
    }

    /// The schema of an enum with the given variants. Every variant must
    /// declare its fields by name.
    pub fn new(decls: Vec<VariantDecl>) -> (r: Result<EventSchema, String>)
        ensures
            r is Ok <==> all_named(decls@),
            r matches Ok(s) ==> {
                &&& s.names().len() == decls@.len()
                &&& s.fields().len() == decls@.len()
                &&& forall|i: int|
                    0 <= i < decls@.len() ==> {
                        &&& #[trigger] s.names()[i] == decls@[i].name@
                        &&& decls@[i].fields matches VariantFields::Named(f) && s.fields()[i]
                            == string_views(f@)
                    }
            },
            r matches Err(m) ==> m@ == unnamed_variant_text(),
    {
        let ghost orig = decls@;
        let mut rest = decls;
        let mut rev: Vec<VariantSchema> = Vec::new();
        while rest.len() > 0
            invariant
                orig == decls@,
                rest@ == orig.take(rest@.len() as int),
                rev@.len() + rest@.len() == orig.len(),
                forall|i: int|
                    0 <= i < rev@.len() ==> {
                        let d = #[trigger] orig[orig.len() - 1 - i];
                        &&& rev@[i].name@ == d.name@
                        &&& rev@[i].wire_name@ == snake_case(d.name@)
                        &&& d.fields matches VariantFields::Named(f) && rev@[i].fields@ == f@
                    },
            decreases rest@.len(),
        {
            let d = rest.pop().unwrap();
            proof {
                assert(d == orig[orig.len() - 1 - rev@.len()]);
                assert(rest@ =~= orig.take(rest@.len() as int));
            }
            match d.fields {
                VariantFields::Named(f) => {
                    let wire_name = snake_case_name(d.name.as_str());
                    rev.push(VariantSchema { name: d.name, wire_name, fields: f });
                },
                _ => {
                    proof {
                        let k = orig.len() - 1 - (rev@.len());
                        assert(!(orig[k].fields is Named));
                        assert(!all_named(orig));
                    }
                    return Err(text("Variants of emit messages must be named structs."));
                },
            }
        }
        let mut variants: Vec<VariantSchema> = Vec::new();
        let n: usize = rev.len();
        while rev.len() > 0
            invariant
                orig == decls@,
                rev@.len() + variants@.len() == n,
                n == orig.len(),
                forall|i: int|
                    0 <= i < variants@.len() ==> {
                        let d = #[trigger] orig[i];
                        &&& variants@[i].name@ == d.name@
                        &&& variants@[i].wire_name@ == snake_case(d.name@)
                        &&& d.fields matches VariantFields::Named(f) && variants@[i].fields@ == f@
                    },
                forall|i: int|
                    0 <= i < rev@.len() ==> {
                        let d = #[trigger] orig[orig.len() - 1 - i];
                        &&& rev@[i].name@ == d.name@
                        &&& rev@[i].wire_name@ == snake_case(d.name@)
                        &&& d.fields matches VariantFields::Named(f) && rev@[i].fields@ == f@
                    },
            decreases rev@.len(),
        {
            let v = rev.pop().unwrap();
            proof {
                assert(orig[orig.len() - 1 - rev@.len()] == orig[variants@.len() as int]);
            }
            variants.push(v);
        }
        proof {
            assert forall|i: int| 0 <= i < variants@.len() implies #[trigger] variants@[i].wire_name@
                == snake_case(variants@[i].name@) by {
                assert(variants@[i].name@ == orig[i].name@);
            }
        }
        let s = EventSchema { variants };
        proof {
            assert forall|i: int| 0 <= i < decls@.len() implies #[trigger] decls@[i].fields is Named by {
                assert(orig[i].fields is Named);
            }
        }
        Ok(s)
    }
}

} // verus!

verus! {

/// A value of an event enum: which variant, and the values of its fields in
/// order.
#[derive(Debug)]
pub struct EventValue {
    pub variant: usize,
    pub args: Vec<JsonValue>,
}

/// How the fields of a variant are written: `null` when there are none,
/// otherwise the list of their values.
pub open spec fn args_json(args: Seq<Json>) -> Json {
    if args.len() == 0 {
        Json::Null
    } else {
        Json::Array(args)
    }
}

/// The entries of an emitted or called event, as it is written.
pub open spec fn event_entries(wire_name: Seq<char>, args: Seq<Json>) -> Seq<(Seq<char>, Json)> {
    seq![("event"@, Json::Str(wire_name)), ("args"@, args_json(args))]
}

/// How an emitted or called event is written.
pub open spec fn event_json(wire_name: Seq<char>, args: Seq<Json>) -> Json {
    Json::Object(event_entries(wire_name, args))
}

/// How a response is written: an object of its fields, in order.
pub open spec fn response_json(fields: Seq<Seq<char>>, values: Seq<Json>) -> Json {
    Json::Object(Seq::new(fields.len(), |i: int| (fields[i], values[i])))
}

/// A response is always an object, with one entry per field, in order,
/// each under the field's name: a variant without fields is written as the
/// empty object.
pub proof fn lemma_response_is_object(fields: Seq<Seq<char>>, values: Seq<Json>)
    requires
        values.len() == fields.len(),
    ensures
        response_json(fields, values) is Object,
        response_json(fields, values)->Object_0.len() == fields.len(),
        forall|i: int|
            0 <= i < fields.len() ==> #[trigger] response_json(fields, values)->Object_0[i] == (
                fields[i],
                values[i],
            ),
{
}

/// Whether `k` is the first variant whose name, in snake case, is `tag`.
pub open spec fn is_first_variant(names: Seq<Seq<char>>, tag: Seq<char>, k: int) -> bool {
    &&& 0 <= k < names.len()
    &&& snake_case(names[k]) == tag
    &&& forall|j: int| 0 <= j < k ==> snake_case(#[trigger] names[j]) != tag
}

/// Whether some variant's name, in snake case, is `tag`.
pub open spec fn has_variant(names: Seq<Seq<char>>, tag: Seq<char>) -> bool {
    exists|k: int| 0 <= k < names.len() && snake_case(#[trigger] names[k]) == tag
}

/// The first variant whose name, in snake case, is `tag`, where there is one.
pub open spec fn variant_position(names: Seq<Seq<char>>, tag: Seq<char>) -> int {
    choose|k: int| is_first_variant(names, tag, k)
}

proof fn lemma_variant_position(names: Seq<Seq<char>>, tag: Seq<char>, k: int)
    requires
        is_first_variant(names, tag, k),
    ensures
        variant_position(names, tag) == k,
{
    let p = variant_position(names, tag);
    assert(is_first_variant(names, tag, p));
    if p < k {
        assert(snake_case(names[p]) != tag);
    }
    if k < p {
        assert(snake_case(names[k]) != tag);
    }
}

/// The values of the fields of a variant with `arity` fields, read from
/// their written form.
pub open spec fn decode_args(j: Json, arity: nat) -> Result<Seq<Json>, FormatError> {
    if arity == 0 {
        if j is Null {
            Ok(Seq::empty())
        } else {
            Err(FormatError::InvalidType)
        }
    } else {
        match j {
            Json::Array(a) => if a.len() == arity {
                Ok(a)
            } else {
                Err(FormatError::InvalidLength)
            },
            _ => Err(FormatError::InvalidType),
        }
    }
}

/// Whether an object has an entry other than `event` and `args`.
pub open spec fn has_foreign_key(e: Seq<(Seq<char>, Json)>) -> bool {
    exists|i: int| 0 <= i < e.len() && #[trigger] e[i].0 != "event"@ && e[i].0 != "args"@
}

/// The variant and field values of an event, read from its written form;
/// or why it is not an event of the enum with the given variant names and
/// field names.
pub open spec fn decode_event(
    j: Json,
    names: Seq<Seq<char>>,
    fields: Seq<Seq<Seq<char>>>,
) -> Result<(int, Seq<Json>), FormatError> {
    match j {
        Json::Object(e) => if has_foreign_key(e) {
            Err(FormatError::UnknownField)
        } else if is_repeated(e, "event"@) || is_repeated(e, "args"@) {
            Err(FormatError::DuplicateField)
        } else if !has_key(e, "event"@) || !has_key(e, "args"@) {
            Err(FormatError::MissingField)
        } else {
            match string_of(e[key_position(e, "event"@)].1) {
                Some(tag) => if has_variant(names, tag) {
                    let k = variant_position(names, tag);
                    match decode_args(e[key_position(e, "args"@)].1, fields[k].len()) {
                        Ok(a) => Ok((k, a)),
                        Err(x) => Err(x),
                    }
                } else {
                    Err(FormatError::UnknownVariant)
                },
                _ => Err(FormatError::InvalidType),
            }
        },
        _ => Err(FormatError::NotAnObject),
    }
}

/// The field values read by [`decode_args`], or why they cannot be read.
fn read_args(j: JsonValue, arity: usize) -> (r: Result<Vec<JsonValue>, FormatError>)
    ensures
        match r {
            Ok(a) => decode_args(j.deep(), arity as nat) == Ok::<Seq<Json>, FormatError>(
                deep_items(a@),
            ),
            Err(x) => decode_args(j.deep(), arity as nat) == Err::<Seq<Json>, FormatError>(x),
        },
{
    if arity == 0 {
        match j {
            JsonValue::Null => {
                let a: Vec<JsonValue> = Vec::new();
                proof {
                    assert(deep_items(a@) =~= Seq::<Json>::empty());
                }
                Ok(a)
            },
            _ => Err(FormatError::InvalidType),
        }
    } else {
        match j {
            JsonValue::Array(a) => {
                proof {
                    lemma_deep_items(a@);
                }
                if a.len() == arity {
                    Ok(a)
                } else {
                    proof {
                        lemma_deep_items(a@);
                    }
                    Err(FormatError::InvalidLength)
                }
            },
            _ => Err(FormatError::InvalidType),
        }
    }
}

impl EventSchema {
    /// The number of variants, which is the number of names and of field
    /// lists.
    pub fn len(&self) -> (n: usize)
        ensures
            n == self.names().len(),
            n == self.fields().len(),
    {
        self.variants.len()
    }

    /// The number of fields of variant `k`.
    pub fn arity(&self, k: usize) -> (n: usize)
        requires
            k < self.names().len(),
        ensures
            n == self.fields()[k as int].len(),
    {
        self.variants[k].fields.len()
    }

    /// The first variant whose name, in snake case, is `tag`.
    fn find_variant(&self, tag: &String) -> (r: Option<usize>)
        ensures
            match r {
                Some(k) => is_first_variant(self.names(), tag@, k as int),
                None => !has_variant(self.names(), tag@),
            },
    {
        proof {
            use_type_invariant(self);
        }
        let mut k: usize = 0;
        while k < self.variants.len()
            invariant
                k <= self.variants@.len(),
                forall|j: int|
                    0 <= j < self.variants@.len() ==> #[trigger] self.variants@[j].wire_name@
                        == snake_case(self.variants@[j].name@),
                forall|j: int| 0 <= j < k ==> snake_case(#[trigger] self.names()[j]) != tag@,
            decreases self.variants@.len() - k,
        {
            if self.variants[k].wire_name == *tag {
                return Some(k);
            }
            k = k + 1;
        }
        None
    }

    /// How a value of the enum is written when it is emitted or called.
    pub fn encode_event(&self, ev: EventValue) -> (j: JsonValue)
        requires
            ev.variant < self.names().len(),
            ev.args@.len() == self.fields()[ev.variant as int].len(),
        ensures
            j.deep() == event_json(snake_case(self.names()[ev.variant as int]), deep_items(ev.args@)),
    {
        proof {
            use_type_invariant(self);
            lemma_deep_items(ev.args@);
        }
        let tag = self.variants[ev.variant].wire_name.clone();
        let args = if ev.args.len() == 0 {
            JsonValue::Null
        } else {
            JsonValue::Array(ev.args)
        };
        let mut entries: Vec<(String, JsonValue)> = Vec::new();
        entries.push((text("event"), JsonValue::Str(tag)));
        entries.push((text("args"), args));
        proof {
            let t = seq![
                ("event"@, Json::Str(snake_case(self.names()[ev.variant as int]))),
                ("args"@, args_json(deep_items(ev.args@))),
            ];
            if ev.args@.len() == 0 {
                assert(deep_items(ev.args@) =~= Seq::<Json>::empty());
            }
            lemma_deep_entries_ext(entries@, t);
        }
        JsonValue::Object(entries)
    }

    /// How a value of the enum is written when it is a response: an object
    /// of its fields, in order.
    pub fn encode_response(&self, ev: EventValue) -> (j: JsonValue)
        requires
            ev.variant < self.names().len(),
            ev.args@.len() == self.fields()[ev.variant as int].len(),
        ensures
            j.deep() == response_json(self.fields()[ev.variant as int], deep_items(ev.args@)),
            j.deep() is Object,
            j.deep()->Object_0.len() == self.fields()[ev.variant as int].len(),
            forall|i: int|
                0 <= i < ev.args@.len() ==> #[trigger] j.deep()->Object_0[i] == (
                    self.fields()[ev.variant as int][i],
                    ev.args@[i].deep(),
                ),
    {
        proof {
            lemma_deep_items(ev.args@);
        }
        let ghost orig = ev.args@;
        let ghost names = self.fields()[ev.variant as int];
        let fields = &self.variants[ev.variant].fields;
        let mut args = ev.args;
        let mut entries: Vec<(String, JsonValue)> = Vec::new();
        let n: usize = fields.len();
        let mut i: usize = 0;
        while i < n
            invariant
                n == fields@.len(),
                n == orig.len(),
                names == string_views(fields@),
                i <= n,
                args@ == orig.skip(i as int),
                entries@.len() == i,
                forall|j: int|
                    0 <= j < i ==> (#[trigger] entries@[j]).0@ == names[j] && entries@[j].1 == orig[j],
            decreases n - i,
        {
            let v = args.remove(0);
            entries.push((fields[i].clone(), v));
            i = i + 1;
            proof {
                assert(args@ =~= orig.skip(i as int));
            }
        }
        proof {
            lemma_deep_entries_ext(
                entries@,
                Seq::new(names.len(), |k: int| (names[k], deep_items(orig)[k])),
            );
        }
        JsonValue::Object(entries)
    }

    /// Reads a value of the enum from its written form.
    pub fn decode_event(&self, j: JsonValue) -> (r: Result<EventValue, FormatError>)
        ensures
            match r {
                Ok(ev) => decode_event(j.deep(), self.names(), self.fields()) == Ok::<
                    (int, Seq<Json>),
                    FormatError,
                >((ev.variant as int, deep_items(ev.args@))),
                Err(x) => decode_event(j.deep(), self.names(), self.fields()) == Err::<
                    (int, Seq<Json>),
                    FormatError,
                >(x),
            },
    {
        let ghost jd = j.deep();
        match j {
            JsonValue::Object(entries) => {
                let mut entries = entries;
                let ghost e = deep_entries(entries@);
                proof {
                    lemma_deep_entries(entries@);
                }
                let ev_key = text("event");
                let args_key = text("args");
                let mut i: usize = 0;
                while i < entries.len()
                    invariant
                        i <= entries@.len(),
                        jd == j.deep(),
                        jd == Json::Object(e),
                        e == deep_entries(entries@),
                        e.len() == entries@.len(),
                        forall|j: int| 0 <= j < entries@.len() ==> #[trigger] e[j] == (entries@[j].0@, entries@[j].1.deep()),
                        ev_key@ == "event"@,
                        args_key@ == "args"@,
                        forall|j: int| 0 <= j < i ==> (#[trigger] e[j].0 == "event"@ || e[j].0 == "args"@),
                    decreases entries@.len() - i,
                {
                    if !(entries[i].0 == ev_key || entries[i].0 == args_key) {
                        proof {
                            assert(e[i as int].0 != "event"@ && e[i as int].0 != "args"@);
                        }
                        return Err(FormatError::UnknownField);
                    }
                    i = i + 1;
                }
                assert(!has_foreign_key(e));
                if repeats_key(&entries, "event") || repeats_key(&entries, "args") {
                    return Err(FormatError::DuplicateField);
                }
                let ep = find_key(&entries, "event");
                let ap = find_key(&entries, "args");
                if ep.is_none() || ap.is_none() {
                    return Err(FormatError::MissingField);
                }
                let ep: usize = ep.unwrap();
                let ap: usize = ap.unwrap();
                proof {
                    lemma_key_position(e, "event"@);
                    lemma_key_position(e, "args"@);
                    assert(key_position(e, "event"@) == ep as int);
                    assert(key_position(e, "args"@) == ap as int);
                }
                let k = match as_string(&entries[ep].1) {
                    Some(tag) => self.find_variant(tag),
                    None => {
                        return Err(FormatError::InvalidType);
                    },
                };
                match k {
                    None => Err(FormatError::UnknownVariant),
                    Some(k) => {
                        proof {
                            lemma_variant_position(self.names(), string_of(e[ep as int].1).unwrap(), k as int);
                        }
                        let n: usize = self.arity(k);
                        let (_, a) = entries.remove(ap);
                        match read_args(a, n) {
                            Ok(args) => Ok(EventValue { variant: k, args }),
                            Err(x) => Err(x),
                        }
                    },
                }
            },
            _ => Err(FormatError::NotAnObject),
        }
    }
}

} // verus!

verus! {

/// Whether the variants' names are distinct in snake case, as they are
/// written on the wire.
pub open spec fn distinct_wire_names(names: Seq<Seq<char>>) -> bool {
    forall|i: int, j: int|
        0 <= i < j < names.len() ==> snake_case(#[trigger] names[i]) != snake_case(#[trigger] names[j])
}

/// What a listener reads is what an emitter wrote: the written form of a
/// variant with its field values reads back as that variant and those
/// values, where the variants' names are distinct in snake case.
pub proof fn lemma_event_roundtrip(
    names: Seq<Seq<char>>,
    fields: Seq<Seq<Seq<char>>>,
    k: int,
    args: Seq<Json>,
)
    requires
        distinct_wire_names(names),
        names.len() == fields.len(),
        0 <= k < names.len(),
        args.len() == fields[k].len(),
    ensures
        decode_event(event_json(snake_case(names[k]), args), names, fields) == Ok::<
            (int, Seq<Json>),
            FormatError,
        >((k, args)),
{
    reveal_strlit("event");
    reveal_strlit("args");
    let tag = snake_case(names[k]);
    let e = seq![("event"@, Json::Str(tag)), ("args"@, args_json(args))];
    assert("args"@.len() == 4);
    assert("event"@.len() == 5);
    assert(e[1].0 != "event"@);
    assert(!has_foreign_key(e)) by {
        assert forall|i: int| 0 <= i < e.len() implies !(#[trigger] e[i].0 != "event"@ && e[i].0
            != "args"@) by {
            assert(i == 0 || i == 1);
        }
    }
    assert(!is_repeated(e, "event"@) && !is_repeated(e, "args"@)) by {
        assert forall|a: int, b: int| 0 <= a < b < e.len() implies !(e[a].0 == e[b].0) by {
            assert(a == 0 && b == 1);
        }
    }
    assert(is_first_key(e, "event"@, 0));
    assert(is_first_key(e, "args"@, 1));
    crate::json::lemma_first_key_unique(e, "event"@, 0);
    crate::json::lemma_first_key_unique(e, "args"@, 1);
    assert(is_first_variant(names, tag, k));
    lemma_variant_position(names, tag, k);
    if args.len() == 0 {
        assert(args =~= Seq::<Json>::empty());
    }
}

/// Reading an event does not depend on the order of its entries: an object
/// of two entries reads the same with them in either order, so an event
/// written with `args` before `event` reads as the same event.
pub proof fn lemma_event_order_free(
    a: (Seq<char>, Json),
    b: (Seq<char>, Json),
    names: Seq<Seq<char>>,
    fields: Seq<Seq<Seq<char>>>,
)
    ensures
        decode_event(Json::Object(seq![a, b]), names, fields) == decode_event(
            Json::Object(seq![b, a]),
            names,
            fields,
        ),
{
    lemma_swapped_pair_keys(a, b, "event"@);
    lemma_swapped_pair_keys(a, b, "args"@);
    let x = seq![a, b];
    let y = seq![b, a];
    assert(x[0] == a && x[1] == b && y[0] == b && y[1] == a);
    if has_foreign_key(x) {
        let i = choose|i: int| 0 <= i < x.len() && #[trigger] x[i].0 != "event"@ && x[i].0 != "args"@;
        assert(i == 0 || i == 1);
        assert(y[1 - i].0 == x[i].0);
    }
    if has_foreign_key(y) {
        let i = choose|i: int| 0 <= i < y.len() && #[trigger] y[i].0 != "event"@ && y[i].0 != "args"@;
        assert(i == 0 || i == 1);
        assert(x[1 - i].0 == y[i].0);
    }
}

proof fn lemma_first_variant_below(names: Seq<Seq<char>>, tag: Seq<char>, k: int)
    requires
        0 <= k < names.len(),
        snake_case(names[k]) == tag,
    ensures
        is_first_variant(names, tag, variant_position(names, tag)),
    decreases k,
{
    if exists|j: int| 0 <= j < k && snake_case(#[trigger] names[j]) == tag {
        let j = choose|j: int| 0 <= j < k && snake_case(#[trigger] names[j]) == tag;
        lemma_first_variant_below(names, tag, j);
    } else {
        assert(is_first_variant(names, tag, k));
        lemma_variant_position(names, tag, k);
    }
}

/// What a listener reads, written again, is what it read: an object that
/// reads as variant `k` with field values `args` has exactly the two entries
/// of the written form of that variant and those values, in the same order
/// where its first entry is `event` and the other way round otherwise; its
/// tag may have been written with escapes, and is written again without.
pub proof fn lemma_decoded_event_rewrites(
    j: Json,
    names: Seq<Seq<char>>,
    fields: Seq<Seq<Seq<char>>>,
    k: int,
    args: Seq<Json>,
)
    requires
        decode_event(j, names, fields) == Ok::<(int, Seq<Json>), FormatError>((k, args)),
    ensures
        0 <= k < names.len(),
        args.len() == fields[k].len(),
        j is Object,
        j->Object_0.len() == 2,
        j->Object_0[0].0 == "event"@ ==> {
            &&& string_of(j->Object_0[0].1) == Some(snake_case(names[k]))
            &&& j->Object_0[1] == ("args"@, args_json(args))
            &&& j->Object_0[0].1 is Str ==> j == event_json(snake_case(names[k]), args)
        },
        j->Object_0[0].0 != "event"@ ==> {
            &&& j->Object_0[0] == ("args"@, args_json(args))
            &&& j->Object_0[1].0 == "event"@
            &&& string_of(j->Object_0[1].1) == Some(snake_case(names[k]))
            &&& j->Object_0[1].1 is Str ==> j->Object_0 == seq![
                ("args"@, args_json(args)),
                ("event"@, Json::Str(snake_case(names[k]))),
            ]
        },
{
    reveal_strlit("event");
    reveal_strlit("args");
    assert("event"@.len() == 5 && "args"@.len() == 4);
    let e = j->Object_0;
    lemma_key_position(e, "event"@);
    lemma_key_position(e, "args"@);
    let p = key_position(e, "event"@);
    let q = key_position(e, "args"@);
    let tag = string_of(e[p].1).unwrap();
    let w = choose|w: int| 0 <= w < names.len() && snake_case(#[trigger] names[w]) == tag;
    lemma_first_variant_below(names, tag, w);
    assert(k == variant_position(names, tag));
    assert forall|i: int| #![trigger e[i]] 0 <= i < e.len() implies i == p || i == q by {
        assert(!(e[i].0 != "event"@ && e[i].0 != "args"@));
        if e[i].0 == "event"@ && i != p {
            assert(p < i);
            assert(e[p].0 == "event"@);
        }
        if e[i].0 == "args"@ && i != q {
            assert(q < i);
            assert(e[q].0 == "args"@);
        }
    }
    if e.len() > 2 {
        assert(e[0] == e[0] && e[1] == e[1] && e[2] == e[2]);
        assert(0 == p || 0 == q);
        assert(1 == p || 1 == q);
        assert(2 == p || 2 == q);
    }
    let want = event_entries(snake_case(names[k]), args);
    if e[0].0 == "event"@ {
        assert(p == 0 && q == 1);
        if e[0].1 is Str {
            assert(e =~= want);
        }
    } else {
        assert(q == 0 && p == 1);
        if e[1].1 is Str {
            assert(e =~= seq![want[1], want[0]]);
        }
    }
}

/// Every variant of a schema reads back as written: the law of
/// [`lemma_event_roundtrip`] for the names and fields of a schema.
pub proof fn lemma_schema_roundtrip(schema: EventSchema, k: int, args: Seq<Json>)
    requires
        distinct_wire_names(schema.names()),
        0 <= k < schema.names().len(),
        args.len() == schema.fields()[k].len(),
    ensures
        decode_event(
            event_json(snake_case(schema.names()[k]), args),
            schema.names(),
            schema.fields(),
        ) == Ok::<(int, Seq<Json>), FormatError>((k, args)),
{
    lemma_event_roundtrip(schema.names(), schema.fields(), k, args);
}

} // verus!
