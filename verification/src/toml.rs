//! TOML documents, as the `toml_edit` crate holds and edits them.
//!
//! A document keeps the user's text (comments, order, spacing) and is opaque
//! to the verifier: its contents are named by `doc_entries`, those of a
//! table by `table_entries`, and the contracts of the functions below say
//! what each `toml_edit` operation does to them. None of these contracts is
//! proved; each restates the behaviour of one operation of that crate.
//!
//! A document made or parsed by that crate has a table as its root, but a
//! caller can put any item in the root's place. Such a document has no
//! entries to speak of and cannot be serialised: `doc_is_rooted` tells the
//! two apart, and the functions that need the root table require it.

use vstd::prelude::*;

verus! {

/// `toml_edit::DocumentMut`, an editable TOML document; opaque here.
#[verifier::external_type_specification]
#[verifier::external_body]
pub struct ExDocumentMut(toml_edit::DocumentMut);

/// `toml_edit::Table`, a TOML table; opaque here.
#[verifier::external_type_specification]
#[verifier::external_body]
pub struct ExTable(toml_edit::Table);

/// `toml_edit::Item`, what a table holds under a key; opaque here.
#[verifier::external_type_specification]
#[verifier::external_body]
pub struct ExItem(toml_edit::Item);

/// `toml_edit::TomlError`, the error of a failed parse; opaque here.
#[verifier::external_type_specification]
#[verifier::external_body]
pub struct ExTomlError(toml_edit::TomlError);

/// What a TOML item holds, as far as this library looks into it.
pub enum TomlValue {
    /// An integer.
    Integer(int),
    /// A string.
    Text(Seq<char>),
    /// An array of values.
    Array(Seq<TomlValue>),
    /// An inline table: `{ key = value, .. }`.
    Inline(Map<Seq<char>, TomlValue>),
    /// A table with a header of its own, or one spelled with dotted keys.
    Table(Map<Seq<char>, TomlValue>),
    /// The placeholder of an item that is not there (`Item::None`).
    Nothing,
    /// Any other item: a float, a boolean, a date or time, an array of tables.
    Other,
}

/// The entries of a table: key to value.
pub type Entries = Map<Seq<char>, TomlValue>;

/// No entries.
pub open spec fn no_entries() -> Entries {
    Map::empty()
}

/// Whether a value can stand inside an array or an inline table as it is.
pub open spec fn is_plain_value(v: TomlValue) -> bool {
    v is Integer || v is Text || v is Array || v is Inline
}

/// Whether the root item of a document is a table.
pub uninterp spec fn doc_is_rooted(d: toml_edit::DocumentMut) -> bool;

/// The entries of a document's root table that are there (placeholders
/// left out).
pub uninterp spec fn doc_entries(d: toml_edit::DocumentMut) -> Map<Seq<char>, TomlValue>;

/// The text that a document serialises to.
pub uninterp spec fn doc_text(d: toml_edit::DocumentMut) -> Seq<char>;

/// The entries of a table that are there (placeholders left out).
pub uninterp spec fn table_entries(t: toml_edit::Table) -> Map<Seq<char>, TomlValue>;

/// What an item holds.
pub uninterp spec fn item_value(i: toml_edit::Item) -> TomlValue;

/// The root entries of the document that a text parses to; `None` where
/// `toml_edit` refuses the text: it is not valid TOML, or nested deeper than
/// that crate's parser goes.
pub uninterp spec fn toml_parse(text: Seq<char>) -> Option<Map<Seq<char>, TomlValue>>;

/// `DocumentMut::new`: a document without entries, with a table as its
/// root.
#[verifier::external_body]
pub(crate) fn doc_new() -> (d: toml_edit::DocumentMut)
    ensures
        doc_is_rooted(d),
        doc_entries(d) == no_entries(),
{
    toml_edit::DocumentMut::new()
}

/// `DocumentMut::from_str`: parses a document. It succeeds exactly on the
/// texts that the crate's parser accepts, and the document then has a table
/// as its root and holds what `toml_parse` names.
#[verifier::external_body]
pub(crate) fn doc_parse(text: &str) -> (r: Result<toml_edit::DocumentMut, toml_edit::TomlError>)
    ensures
        r matches Ok(d) ==> doc_is_rooted(d) && toml_parse(text@) == Some(doc_entries(d)),
        r is Err ==> toml_parse(text@) is None,
{
    text.parse::<toml_edit::DocumentMut>()
}

/// The parse error's own description (`Display` of `TomlError`).
#[verifier::external_body]
pub(crate) fn toml_error_text(e: &toml_edit::TomlError) -> String {
    e.to_string()
}

/// `DocumentMut::as_item` with `Item::is_table`: whether the root item is a
/// table.
#[verifier::external_body]
pub(crate) fn doc_has_root_table(d: &toml_edit::DocumentMut) -> (r: bool)
    ensures
        r == doc_is_rooted(*d),
{
    d.as_item().is_table()
}

/// `DocumentMut`'s `Display`: the document as text. It goes through the
/// root table and panics without one.
#[verifier::external_body]
pub(crate) fn doc_to_string(d: &toml_edit::DocumentMut) -> (s: String)
    requires
        doc_is_rooted(*d),
    ensures
        s@ == doc_text(*d),
{
    d.to_string()
}

/// `DocumentMut::as_table`: the root table; it panics without one. Its
/// entries are the document's.
#[verifier::external_body]
pub(crate) fn doc_as_table(d: &toml_edit::DocumentMut) -> (t: &toml_edit::Table)
    requires
        doc_is_rooted(*d),
    ensures
        table_entries(*t) == doc_entries(*d),
{
    d.as_table()
}

/// `DocumentMut::as_table_mut`: the root table, for editing; it panics
/// without one. The document's entries are the table's, before and after,
/// and the root stays a table.
#[verifier::external_body]
pub(crate) fn doc_as_table_mut(d: &mut toml_edit::DocumentMut) -> (t: &mut toml_edit::Table)
    requires
        doc_is_rooted(*old(d)),
    ensures
        table_entries(*t) == doc_entries(*old(d)),
        doc_entries(*final(d)) == table_entries(*final(t)),
        doc_is_rooted(*final(d)),
{
    d.as_table_mut()
}

/// `Table::new`: a table without entries.
#[verifier::external_body]
pub(crate) fn table_new() -> (t: toml_edit::Table)
    ensures
        table_entries(t) == no_entries(),
{
    toml_edit::Table::new()
}

/// `Table::contains_key`: whether the table has an entry under `key`.
#[verifier::external_body]
pub(crate) fn table_contains_key(t: &toml_edit::Table, key: &str) -> (r: bool)
    ensures
        r == table_entries(*t).contains_key(key@),
{
    t.contains_key(key)
}

/// `Table::contains_table`: whether the entry under `key` is a table.
#[verifier::external_body]
pub(crate) fn table_contains_table(t: &toml_edit::Table, key: &str) -> (r: bool)
    ensures
        r == (table_entries(*t).contains_key(key@) && table_entries(*t)[key@] is Table),
{
    t.contains_table(key)
}

/// `Table::is_empty`: whether the table has no entry.
#[verifier::external_body]
pub(crate) fn table_is_empty(t: &toml_edit::Table) -> (r: bool)
    ensures
        r == (table_entries(*t) =~= no_entries()),
{
    t.is_empty()
}

/// `Table::insert`: puts `item` under `key`, in place of what was there.
#[verifier::external_body]
pub(crate) fn table_insert(t: &mut toml_edit::Table, key: &str, item: toml_edit::Item)
    requires
        !(item_value(item) is Nothing),
    ensures
        table_entries(*final(t)) == table_entries(*old(t)).insert(key@, item_value(item)),
{
    t.insert(key, item);
}

/// `Table::remove`: takes away what is under `key`.
#[verifier::external_body]
pub(crate) fn table_remove(t: &mut toml_edit::Table, key: &str)
    ensures
        table_entries(*final(t)) == table_entries(*old(t)).remove(key@),
{
    t.remove(key);
}

/// `Table::get_mut` followed by `Item::as_table_mut`: the table under
/// `key`, for editing. What the caller leaves in it is what the outer table
/// then holds under `key`.
#[verifier::external_body]
pub(crate) fn table_get_table_mut<'a>(t: &'a mut toml_edit::Table, key: &str) -> (sub:
    &'a mut toml_edit::Table)
    requires
        table_entries(*old(t)).contains_key(key@),
        table_entries(*old(t))[key@] is Table,
    ensures
        TomlValue::Table(table_entries(*sub)) == table_entries(*old(t))[key@],
        table_entries(*final(t)) == table_entries(*old(t)).insert(
            key@,
            TomlValue::Table(table_entries(*final(sub))),
        ),
{
    t.get_mut(key).unwrap().as_table_mut().unwrap()
}

/// `toml_edit::value` of an `i64`: an integer item.
#[verifier::external_body]
pub(crate) fn item_integer(v: i64) -> (i: toml_edit::Item)
    ensures
        item_value(i) == TomlValue::Integer(v as int),
{
    toml_edit::value(v)
}

/// `toml_edit::value` of a string: a string item.
#[verifier::external_body]
pub(crate) fn item_text(s: &str) -> (i: toml_edit::Item)
    ensures
        item_value(i) == TomlValue::Text(s@),
{
    toml_edit::value(s)
}

/// `Item::Table`: the item that holds a table.
#[verifier::external_body]
pub(crate) fn item_table(t: toml_edit::Table) -> (i: toml_edit::Item)
    ensures
        item_value(i) == TomlValue::Table(table_entries(t)),
{
    toml_edit::Item::Table(t)
}

/// `InlineTable::new`, as an item: an inline table without entries.
#[verifier::external_body]
pub(crate) fn item_inline_table() -> (i: toml_edit::Item)
    ensures
        item_value(i) == TomlValue::Inline(no_entries()),
{
    toml_edit::value(toml_edit::InlineTable::new())
}

/// `InlineTable::insert`, on an item that holds an inline table: puts the
/// value of `v` under `key`.
#[verifier::external_body]
pub(crate) fn item_inline_insert(i: &mut toml_edit::Item, key: &str, v: toml_edit::Item)
    requires
        item_value(*old(i)) is Inline,
        is_plain_value(item_value(v)),
    ensures
        item_value(*final(i)) == TomlValue::Inline(
            item_value(*old(i))->Inline_0.insert(key@, item_value(v)),
        ),
{
    i.as_inline_table_mut().unwrap().insert(key, v.into_value().unwrap());
}

/// `Array::new`, as an item: an array without elements.
#[verifier::external_body]
pub(crate) fn item_array() -> (i: toml_edit::Item)
    ensures
        item_value(i) == TomlValue::Array(Seq::empty()),
{
    toml_edit::value(toml_edit::Array::new())
}

/// `Array::push`, on an item that holds an array: appends the value of `v`.
#[verifier::external_body]
pub(crate) fn item_array_push(i: &mut toml_edit::Item, v: toml_edit::Item)
    requires
        item_value(*old(i)) is Array,
        is_plain_value(item_value(v)),
    ensures
        item_value(*final(i)) == TomlValue::Array(item_value(*old(i))->Array_0.push(item_value(v))),
{
    i.as_array_mut().unwrap().push(v.into_value().unwrap());
}

} // verus!
