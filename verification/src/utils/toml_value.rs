//! TOML documents as the library reads and writes them.
//!
//! The TOML text itself is read and written by the `toml` crate; this module
//! holds the library's own value type, its mathematical model, and the
//! table operations that the manifest logic is built from.
use vstd::prelude::*;
use vstd::string::*;

use crate::utils::hash::decimal;

verus! {

broadcast use vstd::std_specs::vec::group_vec_axioms;

/// Declares `toml::Value` so that the values the library never inspects
/// (floats and date-times) can be carried through unchanged.
#[verifier::external_type_specification]
#[verifier::external_body]
pub struct ExTomlValue(toml::Value);

/// A TOML value.
///
/// Tables keep their entries in document order, the way the `toml` crate
/// keeps them when built with `preserve_order`. A table's keys are meant to
/// be distinct, as they are in every document the `toml` crate parses. Where
/// a table built by hand repeats a key, the table operations of this module
/// take its first entry, while `render_toml` writes one entry per key, at
/// the first entry's place and with the last entry's value.
#[derive(Debug)]
pub enum TomlValue {
    String(String),
    Integer(i64),
    Boolean(bool),
    Array(Vec<TomlValue>),
    Table(Vec<(String, TomlValue)>),
    /// A float or a date-time, held as the `toml` crate gave it.
    Opaque(toml::Value),
}

/// Mathematical model of a TOML value.
pub enum TomlModel {
    Str(Seq<char>),
    Int(i64),
    Bool(bool),
    Array(Seq<TomlModel>),
    Table(Seq<(Seq<char>, TomlModel)>),
    Opaque(toml::Value),
}

/// The entries of a table, in order.
pub type TableModel = Seq<(Seq<char>, TomlModel)>;

pub open spec fn model_of(v: TomlValue) -> TomlModel
    decreases v, 1nat,
{
    match v {
        TomlValue::String(s) => TomlModel::Str(s@),
        TomlValue::Integer(i) => TomlModel::Int(i),
        TomlValue::Boolean(b) => TomlModel::Bool(b),
        TomlValue::Array(items) => TomlModel::Array(items_model(items@)),
        TomlValue::Table(entries) => TomlModel::Table(entries_model(entries@)),
        TomlValue::Opaque(o) => TomlModel::Opaque(o),
    }
}

pub open spec fn items_model(s: Seq<TomlValue>) -> Seq<TomlModel>
    decreases s, 0nat,
{
    if s.len() == 0 {
        Seq::empty()
    } else {
        items_model(s.drop_last()).push(model_of(s.last()))
    }
}

pub open spec fn entries_model(s: Seq<(String, TomlValue)>) -> TableModel
    decreases s, 0nat,
{
    if s.len() == 0 {
        Seq::empty()
    } else {
        entries_model(s.drop_last()).push((s.last().0@, model_of(s.last().1)))
    }
}

impl View for TomlValue {
    type V = TomlModel;

    open spec fn view(&self) -> TomlModel {
        model_of(*self)
    }
}

pub broadcast proof fn lemma_items_model(s: Seq<TomlValue>)
    ensures
        #[trigger] items_model(s).len() == s.len(),
        forall|i: int| 0 <= i < s.len() ==> #[trigger] items_model(s)[i] == model_of(s[i]),
    decreases s.len(),
{
    if s.len() > 0 {
        lemma_items_model(s.drop_last());
    }
}

pub broadcast proof fn lemma_entries_model(s: Seq<(String, TomlValue)>)
    ensures
        #[trigger] entries_model(s).len() == s.len(),
        forall|i: int|
            0 <= i < s.len() ==> #[trigger] entries_model(s)[i] == (s[i].0@, model_of(s[i].1)),
    decreases s.len(),
{
    if s.len() > 0 {
        lemma_entries_model(s.drop_last());
    }
}

pub broadcast group group_toml_model {
    lemma_items_model,
    lemma_entries_model,
}

// ---------------------------------------------------------------------------
// Tables as ordered maps: the first entry with a key is the one that counts.
// ---------------------------------------------------------------------------

pub open spec fn has_key(t: TableModel, k: Seq<char>) -> bool {
    exists|i: int| 0 <= i < t.len() && t[i].0 == k
}

pub open spec fn is_first_key(t: TableModel, k: Seq<char>, i: int) -> bool {
    &&& 0 <= i < t.len()
    &&& t[i].0 == k
    &&& forall|j: int| 0 <= j < i ==> t[j].0 != k
}

/// Index of the first entry with key `k`, or -1 where there is none.
pub open spec fn key_index(t: TableModel, k: Seq<char>) -> int {
    if has_key(t, k) {
        choose|i: int| is_first_key(t, k, i)
    } else {
        -1
    }
}

/// The value stored under `k` (meaningful where `has_key(t, k)`).
pub open spec fn get_value(t: TableModel, k: Seq<char>) -> TomlModel {
    t[key_index(t, k)].1
}

/// The table with `(k, d)` appended when `k` is absent; unchanged otherwise.
pub open spec fn or_insert(t: TableModel, k: Seq<char>, d: TomlModel) -> TableModel {
    if has_key(t, k) {
        t
    } else {
        t.push((k, d))
    }
}

/// The table with the value under `k` replaced by `v`, in place.
pub open spec fn set_value(t: TableModel, k: Seq<char>, v: TomlModel) -> TableModel {
    t.update(key_index(t, k), (k, v))
}

proof fn lemma_first_key_exists(t: TableModel, k: Seq<char>)
    requires
        has_key(t, k),
    ensures
        exists|i: int| is_first_key(t, k, i),
    decreases t.len(),
{
    let w = choose|i: int| 0 <= i < t.len() && t[i].0 == k;
    if w > 0 && has_key(t.take(w), k) {
        lemma_first_key_exists(t.take(w), k);
        let i = choose|i: int| is_first_key(t.take(w), k, i);
        assert forall|j: int| 0 <= j <= i implies t[j] == t.take(w)[j] by {}
        assert(is_first_key(t, k, i));
    } else {
        assert forall|j: int| 0 <= j < w implies t[j].0 != k by {
            assert(t.take(w)[j] == t[j]);
        }
        assert(is_first_key(t, k, w));
    }
}

/// `key_index` picks the first entry with the key.
pub proof fn lemma_key_index(t: TableModel, k: Seq<char>)
    ensures
        has_key(t, k) ==> is_first_key(t, k, key_index(t, k)),
        !has_key(t, k) ==> key_index(t, k) == -1,
        forall|i: int| is_first_key(t, k, i) ==> key_index(t, k) == i,
{
    if has_key(t, k) {
        lemma_first_key_exists(t, k);
        let c = key_index(t, k);
        assert forall|i: int| is_first_key(t, k, i) implies c == i by {
            if c < i {
                assert(t[c].0 == k);
            } else if i < c {
                assert(t[i].0 == k);
            }
        }
    }
}

/// After `or_insert`, the key is present and its first entry is where it
/// was, or at the end.
pub proof fn lemma_or_insert(t: TableModel, k: Seq<char>, d: TomlModel)
    ensures
        has_key(or_insert(t, k, d), k),
        has_key(t, k) ==> key_index(or_insert(t, k, d), k) == key_index(t, k),
        !has_key(t, k) ==> key_index(or_insert(t, k, d), k) == t.len(),
        !has_key(t, k) ==> get_value(or_insert(t, k, d), k) == d,
        has_key(t, k) ==> get_value(or_insert(t, k, d), k) == get_value(t, k),
{
    lemma_key_index(t, k);
    let u = or_insert(t, k, d);
    if !has_key(t, k) {
        assert(u[t.len() as int].0 == k);
        assert(is_first_key(u, k, t.len() as int));
    }
    lemma_key_index(u, k);
}

/// Replacing the value under a present key keeps the keys, and the key's
/// first entry, where they were.
pub proof fn lemma_set_value(t: TableModel, k: Seq<char>, v: TomlModel)
    requires
        has_key(t, k),
    ensures
        has_key(set_value(t, k, v), k),
        key_index(set_value(t, k, v), k) == key_index(t, k),
        get_value(set_value(t, k, v), k) == v,
        set_value(t, k, v).len() == t.len(),
        forall|i: int| 0 <= i < t.len() ==> #[trigger] set_value(t, k, v)[i].0 == t[i].0,
        forall|k2: Seq<char>| #[trigger] has_key(set_value(t, k, v), k2) == has_key(t, k2),
        forall|k2: Seq<char>|
            #[trigger] key_index(set_value(t, k, v), k2) == key_index(t, k2),
{
    lemma_key_index(t, k);
    let u = set_value(t, k, v);
    assert forall|k2: Seq<char>| #[trigger] has_key(u, k2) == has_key(t, k2) by {
        if has_key(t, k2) {
            let i = choose|i: int| 0 <= i < t.len() && t[i].0 == k2;
            assert(u[i].0 == k2);
        }
        if has_key(u, k2) {
            let i = choose|i: int| 0 <= i < u.len() && u[i].0 == k2;
            assert(t[i].0 == k2);
        }
    }
    assert forall|k2: Seq<char>| #[trigger] key_index(u, k2) == key_index(t, k2) by {
        lemma_key_index(t, k2);
        lemma_key_index(u, k2);
        if has_key(t, k2) {
            let i = key_index(t, k2);
            assert(is_first_key(u, k2, i));
        }
    }
}

/// `or_insert` leaves every key that was present where it was, with its value.
pub proof fn lemma_or_insert_other(t: TableModel, k0: Seq<char>, d: TomlModel, k: Seq<char>)
    requires
        has_key(t, k),
    ensures
        has_key(or_insert(t, k0, d), k),
        key_index(or_insert(t, k0, d), k) == key_index(t, k),
        get_value(or_insert(t, k0, d), k) == get_value(t, k),
{
    lemma_key_index(t, k);
    let u = or_insert(t, k0, d);
    let i = key_index(t, k);
    assert(is_first_key(u, k, i));
    lemma_key_index(u, k);
}

/// `set_value` under one key leaves the value under every other key.
pub proof fn lemma_set_value_other(t: TableModel, k0: Seq<char>, v: TomlModel, k: Seq<char>)
    requires
        has_key(t, k0),
        has_key(t, k),
        k != k0,
    ensures
        has_key(set_value(t, k0, v), k),
        get_value(set_value(t, k0, v), k) == get_value(t, k),
{
    lemma_key_index(t, k0);
    lemma_key_index(t, k);
    lemma_set_value(t, k0, v);
    assert(key_index(set_value(t, k0, v), k) == key_index(t, k));
}

/// Setting the value that is already there changes nothing.
pub proof fn lemma_set_same(t: TableModel, k: Seq<char>)
    requires
        has_key(t, k),
    ensures
        set_value(t, k, get_value(t, k)) == t,
{
    lemma_key_index(t, k);
    assert(set_value(t, k, get_value(t, k)) =~= t);
}

/// Setting twice under the same key is setting once, to the second value.
pub proof fn lemma_set_twice(t: TableModel, k: Seq<char>, v1: TomlModel, v2: TomlModel)
    requires
        has_key(t, k),
    ensures
        set_value(set_value(t, k, v1), k, v2) == set_value(t, k, v2),
{
    lemma_key_index(t, k);
    lemma_set_value(t, k, v1);
    assert(set_value(set_value(t, k, v1), k, v2) =~= set_value(t, k, v2));
}

/// `u` keeps the entries of `t` in place, with their keys, and with their
/// values except the first entry under `k`; it may have more entries after.
pub open spec fn keeps_entries_except(t: TableModel, u: TableModel, k: Seq<char>) -> bool {
    &&& t.len() <= u.len()
    &&& forall|i: int| 0 <= i < t.len() ==> (#[trigger] u[i]).0 == t[i].0
    &&& forall|i: int| 0 <= i < t.len() && i != key_index(t, k) ==> #[trigger] u[i] == t[i]
}

pub proof fn lemma_keeps_or_insert(t: TableModel, k0: Seq<char>, d: TomlModel, k: Seq<char>)
    ensures
        keeps_entries_except(t, or_insert(t, k0, d), k),
{
}

pub proof fn lemma_keeps_set_value(t: TableModel, k: Seq<char>, v: TomlModel)
    requires
        has_key(t, k),
    ensures
        keeps_entries_except(t, set_value(t, k, v), k),
{
    lemma_key_index(t, k);
}

/// Keeping entries composes, as long as the exception stays the same key.
pub proof fn lemma_keeps_trans(t: TableModel, u: TableModel, w: TableModel, k: Seq<char>)
    requires
        keeps_entries_except(t, u, k),
        keeps_entries_except(u, w, k),
    ensures
        keeps_entries_except(t, w, k),
{
    lemma_key_index(t, k);
    lemma_key_index(u, k);
    assert forall|i: int| 0 <= i < t.len() && i != key_index(t, k) implies #[trigger] w[i] == t[i] by {
        if i == key_index(u, k) {
            assert(u[i].0 == k);
            assert(t[i].0 == k);
            assert(is_first_key(u, k, i));
            if has_key(t, k) {
                assert(key_index(t, k) < i);
                assert(u[key_index(t, k)].0 == k);
            }
        }
    }
}

// ---------------------------------------------------------------------------
// Executable table operations.
// ---------------------------------------------------------------------------

/// Index of the first entry of `entries` whose key is `key`.
pub fn find_key(entries: &Vec<(String, TomlValue)>, key: &String) -> (r: Option<usize>)
    ensures
        r is None <==> !has_key(entries_model(entries@), key@),
        r matches Some(i) ==> i == key_index(entries_model(entries@), key@),
        r matches Some(i) ==> i < entries@.len(),
{
    broadcast use group_toml_model;

    let ghost t = entries_model(entries@);
    proof {
        lemma_entries_model(entries@);
    }
    let mut i: usize = 0;
    while i < entries.len()
        invariant
            t == entries_model(entries@),
            t.len() == entries@.len(),
            forall|j: int| 0 <= j < entries@.len() ==> #[trigger] t[j] == (entries@[j].0@, model_of(entries@[j].1)),
            i <= entries@.len(),
            forall|j: int| 0 <= j < i ==> t[j].0 != key@,
        decreases entries@.len() - i,
    {
        proof {
            assert(t[i as int].0 == entries@[i as int].0@);
        }
        if entries[i].0 == *key {
            proof {
                assert(is_first_key(t, key@, i as int));
                lemma_key_index(t, key@);
            }
            return Some(i);
        }
        i = i + 1;
    }
    proof {
        lemma_key_index(t, key@);
    }
    None
}

/// Appends `(key, default)` where `key` is absent; returns the index of the
/// key's first entry.
pub fn or_insert_entry(entries: &mut Vec<(String, TomlValue)>, key: &String, default: TomlValue) -> (idx: usize)
    ensures
        entries_model(final(entries)@) == or_insert(entries_model(old(entries)@), key@, default@),
        idx == key_index(entries_model(final(entries)@), key@),
        idx < final(entries)@.len(),
{
    broadcast use group_toml_model;

    proof {
        lemma_or_insert(entries_model(entries@), key@, default@);
        lemma_key_index(entries_model(entries@), key@);
    }
    match find_key(entries, key) {
        Some(i) => i,
        None => {
            let ghost before = entries@;
            entries.push((key.clone(), default));
            proof {
                assert(entries_model(entries@) =~= entries_model(before).push((key@, default@)));
            }
            entries.len() - 1
        },
    }
}

/// Removes the entry at `i` from the table and returns it, key and value;
/// `put_value` inserts an entry back at the same place.
pub fn take_value(entries: &mut Vec<(String, TomlValue)>, i: usize) -> (res: (String, TomlValue))
    requires
        i < old(entries)@.len(),
    ensures
        res == old(entries)@[i as int],
        final(entries)@ == old(entries)@.remove(i as int),
{
    entries.remove(i)
}

/// Inserts the entry `(key, value)` at `i`, shifting later entries back.
pub fn put_value(entries: &mut Vec<(String, TomlValue)>, i: usize, key: String, value: TomlValue)
    requires
        i <= old(entries)@.len(),
    ensures
        final(entries)@ == old(entries)@.insert(i as int, (key, value)),
{
    entries.insert(i, (key, value));
}

/// Taking the value at `i` out and putting another back is an update.
pub proof fn lemma_take_put(s: Seq<(String, TomlValue)>, i: int, key: String, value: TomlValue)
    requires
        0 <= i < s.len(),
        s[i].0 == key,
    ensures
        entries_model(s.remove(i).insert(i, (key, value))) == entries_model(s).update(
            i,
            (key@, value@),
        ),
{
    broadcast use group_toml_model;

    let u = s.remove(i).insert(i, (key, value));
    assert(u =~= s.update(i, (key, value)));
    assert(entries_model(u) =~= entries_model(s).update(i, (key@, value@)));
}

// ---------------------------------------------------------------------------
// Reading and writing TOML text through the `toml` crate.
// ---------------------------------------------------------------------------

/// What `toml::from_slice::<toml::Value>` gives for a byte slice: the parsed
/// document, or the text of the parse error.
pub uninterp spec fn toml_document(bytes: Seq<u8>) -> Result<TomlModel, Seq<char>>;

/// What `toml::to_string` gives for a value: its TOML text, or `None` where
/// the serializer refuses the value.
pub uninterp spec fn toml_text(v: TomlModel) -> Option<Seq<char>>;

pub open spec fn parse_result_view(r: Result<TomlValue, String>) -> Result<TomlModel, Seq<char>> {
    match r {
        Ok(v) => Ok(v@),
        Err(e) => Err(e@),
    }
}

pub open spec fn text_view(r: Option<String>) -> Option<Seq<char>> {
    match r {
        Some(s) => Some(s@),
        None => None,
    }
}

/// Converts a `toml::Value` into the library's value, one variant for one,
/// keeping table order. Nothing is stated of the result: the input is opaque.
#[verifier::external_body]
fn from_toml(v: toml::Value) -> TomlValue {
    match v {
        toml::Value::String(s) => TomlValue::String(s),
        toml::Value::Integer(i) => TomlValue::Integer(i),
        toml::Value::Boolean(b) => TomlValue::Boolean(b),
        toml::Value::Array(items) => TomlValue::Array(items.into_iter().map(from_toml).collect()),
        toml::Value::Table(t) => TomlValue::Table(
            t.into_iter().map(|(k, v)| (k, from_toml(v))).collect(),
        ),
        other => TomlValue::Opaque(other),
    }
}

/// Converts the library's value into a `toml::Value`, one variant for one,
/// keeping table order. Nothing is stated of the result: it is opaque.
#[verifier::external_body]
fn to_toml(v: &TomlValue) -> toml::Value {
    match v {
        TomlValue::String(s) => toml::Value::String(s.clone()),
        TomlValue::Integer(i) => toml::Value::Integer(*i),
        TomlValue::Boolean(b) => toml::Value::Boolean(*b),
        TomlValue::Array(items) => toml::Value::Array(items.iter().map(to_toml).collect()),
        TomlValue::Table(e) => toml::Value::Table(e.iter().map(|(k, v)| (k.clone(), to_toml(v))).collect()),
        TomlValue::Opaque(o) => o.clone(),
    }
}

/// Calls `toml::from_slice::<toml::Value>` on the bytes. The contract claims
/// only that the outcome is a function of the bytes, named `toml_document`;
/// a parse error is handed back as its message text.
#[verifier::external_body]
pub(crate) fn parse_toml(bytes: &[u8]) -> (res: Result<TomlValue, String>)
    ensures
        parse_result_view(res) == toml_document(bytes@),
{
    match toml::from_slice::<toml::Value>(bytes) {
        Ok(v) => Ok(from_toml(v)),
        Err(e) => Err(e.to_string()),
    }
}

/// The decimal text of an integer, with a leading `-` where it is negative,
/// as `i64`'s `Display` writes it.
pub open spec fn int_text(i: i64) -> Seq<char> {
    if i < 0 {
        "-"@ + decimal((-i) as nat)
    } else {
        decimal(i as nat)
    }
}

/// The TOML text of a value that stands alone and is a boolean or an
/// integer: the literal itself.
pub open spec fn scalar_text(m: TomlModel) -> Option<Seq<char>> {
    match m {
        TomlModel::Bool(b) => Some(if b { "true"@ } else { "false"@ }),
        TomlModel::Int(i) => Some(int_text(i)),
        _ => None,
    }
}

/// Calls `toml::to_string` on the value. The contract claims that the
/// outcome is a function of the value's model, named `toml_text` (an error
/// of the serializer becomes `None`), and that a boolean or an integer
/// standing alone is written as its literal: the serializer starts in its
/// end state, where `serialize_bool` and `serialize_i64` write the value's
/// `Display` text with no key and no newline (`ser.rs`, `display`,
/// `_emit_key`). Of other values the text is left unsaid: it takes the
/// serializer's pages to state.
#[verifier::external_body]
pub(crate) fn render_toml(v: &TomlValue) -> (res: Option<String>)
    ensures
        text_view(res) == toml_text(v@),
        scalar_text(v@) is Some ==> text_view(res) == scalar_text(v@),
{
    toml::to_string(&to_toml(v)).ok()
}

impl TomlValue {
    /// The TOML text of this value, as the `toml` crate writes it.
    pub fn to_toml_string(&self) -> (res: Option<String>)
        ensures
            text_view(res) == toml_text(self@),
    {
        render_toml(self)
    }

    /// A string value holding a copy of `s`.
    pub fn string(s: &str) -> (res: TomlValue)
        ensures
            res@ == TomlModel::Str(s@),
    {
        TomlValue::String(String::from_str(s))
    }

    /// A table with no entries.
    pub fn empty_table() -> (res: TomlValue)
        ensures
            res@ == TomlModel::Table(Seq::empty()),
    {
        let v: Vec<(String, TomlValue)> = Vec::new();
        proof {
            assert(entries_model(v@) =~= Seq::empty());
        }
        TomlValue::Table(v)
    }

    /// An array with no items.
    pub fn empty_array() -> (res: TomlValue)
        ensures
            res@ == TomlModel::Array(Seq::empty()),
    {
        let v: Vec<TomlValue> = Vec::new();
        proof {
            assert(items_model(v@) =~= Seq::empty());
        }
        TomlValue::Array(v)
    }
}

} // verus!
