//! A two-level model of the JSON documents that carry notifications: a
//! top-level object whose members are scalars or flat objects of scalars.
//! serde_json does the reading and writing of JSON text; everything that the
//! library decides about a document is decided on this model.
use vstd::prelude::*;
use vstd::string::to_string_from_display_ensures_for_str;

verus! {

/// A JSON scalar, or `Other` for anything the notification wire format never
/// holds at that depth (an array, a nested object, a fractional number).
pub enum Leaf {
    Null,
    Bool(bool),
    Int(i128),
    Str(String),
    Other,
}

/// A member of the top-level object.
pub enum Member {
    Leaf(Leaf),
    Object(Vec<(String, Leaf)>),
}

/// An element of a top-level array: an object, or some other JSON value.
pub enum Element {
    Object(Vec<(String, Member)>),
    Other,
}

/// A whole JSON document: an object, an array, or some other JSON value.
pub enum Document {
    Object(Vec<(String, Member)>),
    Array(Vec<Element>),
    Other,
}

pub enum LeafV {
    Null,
    Bool(bool),
    Int(int),
    Str(Seq<char>),
    Other,
}

pub enum MemberV {
    Leaf(LeafV),
    Object(Seq<(Seq<char>, LeafV)>),
}

pub enum ElementV {
    Object(Seq<(Seq<char>, MemberV)>),
    Other,
}

pub enum DocV {
    Object(Seq<(Seq<char>, MemberV)>),
    Array(Seq<ElementV>),
    Other,
}

impl View for Leaf {
    type V = LeafV;

    open spec fn view(&self) -> LeafV {
        match self {
            Leaf::Null => LeafV::Null,
            Leaf::Bool(b) => LeafV::Bool(*b),
            Leaf::Int(i) => LeafV::Int(*i as int),
            Leaf::Str(s) => LeafV::Str(s@),
            Leaf::Other => LeafV::Other,
        }
    }
}

pub open spec fn leaf_entries_view(v: Seq<(String, Leaf)>) -> Seq<(Seq<char>, LeafV)> {
    v.map_values(|e: (String, Leaf)| (e.0@, e.1@))
}

pub open spec fn member_entries_view(v: Seq<(String, Member)>) -> Seq<(Seq<char>, MemberV)> {
    v.map_values(|e: (String, Member)| (e.0@, e.1@))
}

impl View for Member {
    type V = MemberV;

    open spec fn view(&self) -> MemberV {
        match self {
            Member::Leaf(l) => MemberV::Leaf(l@),
            Member::Object(v) => MemberV::Object(leaf_entries_view(v@)),
        }
    }
}

impl View for Element {
    type V = ElementV;

    open spec fn view(&self) -> ElementV {
        match self {
            Element::Object(v) => ElementV::Object(member_entries_view(v@)),
            Element::Other => ElementV::Other,
        }
    }
}

impl View for Document {
    type V = DocV;

    open spec fn view(&self) -> DocV {
        match self {
            Document::Object(v) => DocV::Object(member_entries_view(v@)),
            Document::Array(v) => DocV::Array(v@.map_values(|e: Element| e@)),
            Document::Other => DocV::Other,
        }
    }
}

/// The value that an object gives to key `k`: as in serde_json's maps, a
/// later entry with the same key overrides an earlier one.
pub open spec fn lookup<V>(s: Seq<(Seq<char>, V)>, k: Seq<char>) -> Option<V>
    decreases s.len(),
{
    if s.len() == 0 {
        None
    } else if s.last().0 == k {
        Some(s.last().1)
    } else {
        lookup(s.drop_last(), k)
    }
}

/// Two members that read the same through `lookup`.
pub open spec fn same_member(a: MemberV, b: MemberV) -> bool {
    match (a, b) {
        (MemberV::Leaf(x), MemberV::Leaf(y)) => x == y,
        (MemberV::Object(x), MemberV::Object(y)) => forall|k: Seq<char>|
            #[trigger] lookup(x, k) == lookup(y, k),
        _ => false,
    }
}

/// Two documents that read the same through `lookup`, whatever the order of
/// their entries.
pub open spec fn same_doc(a: DocV, b: DocV) -> bool {
    match (a, b) {
        (DocV::Other, DocV::Other) => true,
        (DocV::Object(x), DocV::Object(y)) => forall|k: Seq<char>|
            match (#[trigger] lookup(x, k), lookup(y, k)) {
                (None, None) => true,
                (Some(m), Some(n)) => same_member(m, n),
                _ => false,
            },
        _ => false,
    }
}

pub open spec fn printable_leaf(l: LeafV) -> bool {
    match l {
        LeafV::Int(i) => -0x8000_0000_0000_0000 <= i <= 0xffff_ffff_ffff_ffff,
        LeafV::Other => false,
        _ => true,
    }
}

/// The object key that serde_json's reader, built with its `raw_value`
/// feature, takes as the mark of an embedded raw JSON value instead of a key.
pub open spec fn reserved_key() -> Seq<char> {
    "$serde_json::private::RawValue"@
}

pub open spec fn printable_member(m: MemberV) -> bool {
    match m {
        MemberV::Leaf(l) => printable_leaf(l),
        MemberV::Object(s) => forall|i: int|
            0 <= i < s.len() ==> printable_leaf(#[trigger] s[i].1) && s[i].0 != reserved_key(),
    }
}

/// A document that JSON text can carry unchanged: an object of members that
/// hold only null, booleans, strings and integers within serde_json's range,
/// under keys other than `reserved_key()`.
pub open spec fn printable(d: DocV) -> bool {
    match d {
        DocV::Object(s) => forall|i: int|
            0 <= i < s.len() ==> printable_member(#[trigger] s[i].1) && s[i].0 != reserved_key(),
        _ => false,
    }
}

/// A printable document `d` comes back from its JSON text `back` unchanged,
/// up to the order of object entries.
pub open spec fn round_trips(d: DocV, back: Result<DocV, Seq<char>>) -> bool {
    printable(d) ==> (back matches Ok(e) && same_doc(e, d))
}

/// What serde_json reads from the bytes `b`: the document, or, where they are
/// not JSON text, the message of its error.
pub uninterp spec fn json_read(b: Seq<u8>) -> Result<DocV, Seq<char>>;

/// The JSON text that serde_json writes for the document `d`.
pub uninterp spec fn json_text(d: DocV) -> Seq<u8>;

pub open spec fn read_view(r: Result<Document, String>) -> Result<DocV, Seq<char>> {
    match r {
        Ok(d) => Ok(d@),
        Err(m) => Err(m@),
    }
}

/// Relies on serde_json::from_slice::<serde_json::Value>: its value, or its
/// error's message, depends on the bytes alone. It fails on bytes that are not
/// JSON text (and, with serde_json's `raw_value` feature, on some objects keyed
/// by `reserved_key()`). The value is converted here one variant for one.
#[verifier::external_body]
pub(crate) fn parse_document(b: &[u8]) -> (r: Result<Document, String>)
    ensures
        read_view(r) == json_read(b@),
{
    match serde_json::from_slice::<serde_json::Value>(b) {
        Ok(serde_json::Value::Object(m)) => Ok(
            Document::Object(m.into_iter().map(|(k, v)| (k, member_from_value(v))).collect()),
        ),
        Ok(serde_json::Value::Array(items)) => Ok(
            Document::Array(items.into_iter().map(element_from_value).collect()),
        ),
        Ok(_) => Ok(Document::Other),
        Err(e) => Err(e.to_string()),
    }
}

/// Relies on serde_json::to_vec of a serde_json::Value: it writes the map of
/// each object and reads back, through serde_json::from_slice, the same keys with
/// the same null, boolean, string and integer values, as long as no key is
/// `reserved_key()`.
#[verifier::external_body]
pub(crate) fn print_document(d: &Document) -> (r: Vec<u8>)
    ensures
        r@ == json_text(d@),
        round_trips(d@, json_read(r@)),
{
    serde_json::to_vec(&value_from_document(d)).unwrap_or_default()
}

/// serde_json's JSON value, carried opaquely between the conversions below.
#[verifier::external_type_specification]
#[verifier::external_body]
pub struct ExValue(serde_json::Value);

/// Conversion of one serde_json::Value into a `Leaf`, one variant for one.
#[verifier::external_body]
fn leaf_from_value(v: serde_json::Value) -> Leaf {
    match v {
        serde_json::Value::Null => Leaf::Null,
        serde_json::Value::Bool(b) => Leaf::Bool(b),
        serde_json::Value::Number(n) => n.as_i128().map_or(Leaf::Other, Leaf::Int),
        serde_json::Value::String(s) => Leaf::Str(s),
        _ => Leaf::Other,
    }
}

/// Conversion of one serde_json::Value into a `Member`, one variant for one.
#[verifier::external_body]
fn member_from_value(v: serde_json::Value) -> Member {
    match v {
        serde_json::Value::Object(m) => Member::Object(
            m.into_iter().map(|(k, v)| (k, leaf_from_value(v))).collect(),
        ),
        v => Member::Leaf(leaf_from_value(v)),
    }
}

/// Conversion of one serde_json::Value into an `Element`, one variant for one.
#[verifier::external_body]
fn element_from_value(v: serde_json::Value) -> Element {
    match v {
        serde_json::Value::Object(m) => Element::Object(
            m.into_iter().map(|(k, v)| (k, member_from_value(v))).collect(),
        ),
        _ => Element::Other,
    }
}

/// Conversion of a `Leaf` into a serde_json::Value, one variant for one.
#[verifier::external_body]
fn value_from_leaf(l: &Leaf) -> serde_json::Value {
    match l {
        Leaf::Null | Leaf::Other => serde_json::Value::Null,
        Leaf::Bool(b) => serde_json::Value::Bool(*b),
        Leaf::Int(i) => serde_json::Number::from_i128(*i).map_or(serde_json::Value::Null, serde_json::Value::Number),
        Leaf::Str(s) => serde_json::Value::String(s.clone()),
    }
}

/// Conversion of a `Member` into a serde_json::Value, one variant for one.
#[verifier::external_body]
fn value_from_member(m: &Member) -> serde_json::Value {
    match m {
        Member::Leaf(l) => value_from_leaf(l),
        Member::Object(o) => serde_json::Value::Object(
            o.iter().map(|(k, l)| (k.clone(), value_from_leaf(l))).collect(),
        ),
    }
}

/// Conversion of a `Document` into a serde_json::Value, one variant for one;
/// an element that is not an object is written as null.
#[verifier::external_body]
fn value_from_document(d: &Document) -> serde_json::Value {
    match d {
        Document::Object(entries) => serde_json::Value::Object(
            entries.iter().map(|(k, m)| (k.clone(), value_from_member(m))).collect(),
        ),
        Document::Array(items) => serde_json::Value::Array(items.iter().map(|e| match e {
            Element::Object(entries) => serde_json::Value::Object(
                entries.iter().map(|(k, m)| (k.clone(), value_from_member(m))).collect(),
            ),
            Element::Other => serde_json::Value::Null,
        }).collect()),
        Document::Other => serde_json::Value::Null,
    }
}

/// The position of the entry that gives key `k` its value, if any.
pub fn find_member(entries: &Vec<(String, Member)>, k: &str) -> (r: Option<usize>)
    ensures
        r is None <==> lookup(member_entries_view(entries@), k@) is None,
        r matches Some(i) ==> i < entries.len() && entries@[i as int].0@ == k@
            && lookup(member_entries_view(entries@), k@) == Some(entries@[i as int].1@)
            && forall|j: int| i < j < entries.len() ==> (#[trigger] entries@[j]).0@ != k@,
{
    let ghost s = member_entries_view(entries@);
    let key: String = k.to_string();
    proof {
        to_string_from_display_ensures_for_str(k, key);
        assert(s.take(entries.len() as int) =~= s);
    }
    let mut n: usize = entries.len();
    while n > 0
        invariant
            n <= entries.len(),
            s == member_entries_view(entries@),
            key@ == k@,
            lookup(s, k@) == lookup(s.take(n as int), k@),
            forall|j: int| n <= j < entries.len() ==> (#[trigger] entries@[j]).0@ != k@,
        decreases n,
    {
        assert(s.take(n as int).drop_last() =~= s.take(n - 1));
        if entries[n - 1].0 == key {
            return Some(n - 1);
        }
        n -= 1;
    }
    None
}

/// The position of the entry that gives key `k` its value, if any.
pub fn find_leaf(entries: &Vec<(String, Leaf)>, k: &str) -> (r: Option<usize>)
    ensures
        r is None <==> lookup(leaf_entries_view(entries@), k@) is None,
        r matches Some(i) ==> i < entries.len() && entries@[i as int].0@ == k@
            && lookup(leaf_entries_view(entries@), k@) == Some(entries@[i as int].1@)
            && forall|j: int| i < j < entries.len() ==> (#[trigger] entries@[j]).0@ != k@,
{
    let ghost s = leaf_entries_view(entries@);
    let key: String = k.to_string();
    proof {
        to_string_from_display_ensures_for_str(k, key);
        assert(s.take(entries.len() as int) =~= s);
    }
    let mut n: usize = entries.len();
    while n > 0
        invariant
            n <= entries.len(),
            s == leaf_entries_view(entries@),
            key@ == k@,
            lookup(s, k@) == lookup(s.take(n as int), k@),
            forall|j: int| n <= j < entries.len() ==> (#[trigger] entries@[j]).0@ != k@,
        decreases n,
    {
        assert(s.take(n as int).drop_last() =~= s.take(n - 1));
        if entries[n - 1].0 == key {
            return Some(n - 1);
        }
        n -= 1;
    }
    None
}

} // verus!
