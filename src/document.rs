//! Structural parse: a TOML document into the sixteen-slot palette record.

use vstd::prelude::*;

use crate::palette::{field_name, spec_field_name, Colors, FIELD_COUNT};

verus! {

#[verifier::external_type_specification]
#[verifier::external_body]
#[verifier::reject_recursive_types(K)]
#[verifier::reject_recursive_types(V)]
pub struct ExTomlMap<K, V>(toml::map::Map<K, V>);

#[verifier::external_type_specification]
#[verifier::external_body]
pub struct ExTomlValue(toml::Value);

#[verifier::external_type_specification]
#[verifier::external_body]
pub struct ExTomlError(toml::de::Error);

/// A TOML table: its top-level keys and values.
pub type Table = toml::map::Map<String, toml::Value>;

/// The top-level entries of the document `text`, each key mapped to its
/// string value, or to `None` where the value is not a string; `None` where
/// `text` is not a TOML document.
pub uninterp spec fn toml_document(text: Seq<char>) -> Option<Map<Seq<char>, Option<Seq<char>>>>;

/// The entries of a table, each key mapped to its string value, or to `None`
/// where the value is not a string.
pub uninterp spec fn table_entries(t: Table) -> Map<Seq<char>, Option<Seq<char>>>;

pub open spec fn string_option_view(o: Option<String>) -> Option<Seq<char>> {
    match o {
        Some(s) => Some(s@),
        None => None,
    }
}

/// Relies on toml::from_str read as a `toml::Table`: it parses the whole text
/// as a TOML document, and fails exactly where the text is not one.
#[verifier::external_body]
fn parse_toml_table(text: &str) -> (r: Result<Table, toml::de::Error>)
    ensures
        r is Ok <==> toml_document(text@) is Some,
        r matches Ok(t) ==> table_entries(t) == toml_document(text@)->0,
{
    toml::from_str::<Table>(text)
}

/// Relies on toml::map::Map::get: the value stored under `key`, if any, told
/// apart by whether it is a `toml::Value::String`.
#[verifier::external_body]
fn table_get_string(t: &Table, key: &str) -> (r: Option<Option<String>>)
    ensures
        r is Some <==> table_entries(*t).contains_key(key@),
        r matches Some(v) ==> string_option_view(v) == table_entries(*t)[key@],
{
    t.get(key).map(|v| match v {
        toml::Value::String(s) => Some(s.clone()),
        _ => None,
    })
}

/// Relies on the `Display` impl of toml::de::Error, for a diagnostic text.
#[verifier::external_body]
fn toml_error_text(e: &toml::de::Error) -> (r: String) {
    format!("{}", e)
}

/// Why a document does not have the shape of a palette.
#[derive(Clone, Debug)]
pub enum ParseError {
    /// The text is not a TOML document; holds the parser's description.
    Syntax(String),
    /// The named slot is absent.
    MissingField(String),
    /// The named slot holds something other than a string.
    NotAString(String),
}

/// `entries` holds slot `i` as a string.
pub open spec fn has_slot(entries: Map<Seq<char>, Option<Seq<char>>>, i: int) -> bool {
    entries.contains_key(spec_field_name(i)) && entries[spec_field_name(i)] is Some
}

/// The error that the first unusable slot, `i`, of `entries` gives.
pub open spec fn slot_error(entries: Map<Seq<char>, Option<Seq<char>>>, i: int, e: ParseError) -> bool {
    if !entries.contains_key(spec_field_name(i)) {
        e matches ParseError::MissingField(n) && n@ == spec_field_name(i)
    } else {
        e matches ParseError::NotAString(n) && n@ == spec_field_name(i)
    }
}

/// `entries` holds all sixteen slots as strings.
pub open spec fn all_slots(entries: Map<Seq<char>, Option<Seq<char>>>) -> bool {
    forall|i: int| 0 <= i < FIELD_COUNT ==> #[trigger] has_slot(entries, i)
}

/// The string values of the sixteen slots of `entries`, in enumeration order.
pub open spec fn slot_values(entries: Map<Seq<char>, Option<Seq<char>>>) -> Seq<Seq<char>> {
    Seq::new(FIELD_COUNT as nat, |i: int| entries[spec_field_name(i)]->0)
}

/// `e` is the error of the first slot of `entries`, in enumeration order,
/// that is absent or not a string.
pub open spec fn names_first_missing(entries: Map<Seq<char>, Option<Seq<char>>>, e: ParseError) -> bool {
    exists|i: int|
        0 <= i < FIELD_COUNT
        && !#[trigger] has_slot(entries, i)
        && (forall|j: int| 0 <= j < i ==> #[trigger] has_slot(entries, j))
        && slot_error(entries, i, e)
}

/// What reading `entries` as a palette gives: the sixteen slots in order, or
/// the error of the first slot that is absent or not a string.
pub open spec fn colors_result(entries: Map<Seq<char>, Option<Seq<char>>>, r: Result<Colors, ParseError>) -> bool {
    &&& r is Ok <==> all_slots(entries)
    &&& r matches Ok(c) ==> c.values() == slot_values(entries)
    &&& r matches Err(e) ==> names_first_missing(entries, e)
}

/// Reads the sixteen slots out of a parsed table, in enumeration order,
/// stopping at the first that is absent or not a string. Other keys are
/// ignored.
pub fn colors_from_table(t: &Table) -> (r: Result<Colors, ParseError>)
    ensures
        colors_result(table_entries(*t), r),
{
    let ghost entries = table_entries(*t);
    let mut values: Vec<String> = Vec::new();
    let mut i: usize = 0;
    while i < FIELD_COUNT
        invariant
            i <= FIELD_COUNT,
            entries == table_entries(*t),
            values@.len() == i,
            forall|j: int| 0 <= j < i ==> #[trigger] has_slot(entries, j),
            forall|j: int| 0 <= j < i ==> has_slot(entries, j) && #[trigger] values@[j]@ == entries[spec_field_name(j)]->0,
        decreases FIELD_COUNT - i,
    {
        let name = field_name(i);
        match table_get_string(t, name) {
            None => {
                let e = ParseError::MissingField(name.to_string());
                assert(!has_slot(entries, i as int) && slot_error(entries, i as int, e));
                return Err(e);
            },
            Some(None) => {
                let e = ParseError::NotAString(name.to_string());
                assert(!has_slot(entries, i as int) && slot_error(entries, i as int, e));
                return Err(e);
            },
            Some(Some(s)) => {
                values.push(s);
            },
        }
        i = i + 1;
    }
    let c = Colors::from_values(values);
    assert(c.values() =~= slot_values(entries));
    Ok(c)
}

/// Parses `text` as a TOML document and reads the palette out of it.
pub fn parse_colors(text: &str) -> (r: Result<Colors, ParseError>)
    ensures
        toml_document(text@) is None ==> r matches Err(ParseError::Syntax(_)),
        toml_document(text@) matches Some(entries) ==> colors_result(entries, r),
{
    match parse_toml_table(text) {
        Ok(t) => colors_from_table(&t),
        Err(e) => Err(ParseError::Syntax(toml_error_text(&e))),
    }
}

} // verus!
