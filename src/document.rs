//! TOML documents: parsing through the `toml` crate and locating the
//! section of a project manifest reserved for this tool (`[tool.uv]`).
use vstd::prelude::*;
use toml::de::Error as DeError;

verus! {

#[verifier::external_type_specification]
#[verifier::external_body]
#[verifier::reject_recursive_types(K)]
#[verifier::reject_recursive_types(V)]
pub struct ExTomlMap<K, V>(toml::map::Map<K, V>);

#[verifier::external_type_specification]
#[verifier::external_body]
pub struct ExTomlValue(toml::Value);

#[verifier::external_type_specification]
#[verifier::external_body]
pub struct ExTomlError(DeError);

/// The table that a TOML document parses to, or none when it is not valid TOML.
pub uninterp spec fn parsed_document(text: Seq<char>) -> Option<toml::Table>;

/// The keys that a table holds.
pub uninterp spec fn table_keys(t: toml::Table) -> Set<Seq<char>>;

/// The value under `key`, when there is one and it is itself a table.
pub uninterp spec fn table_entry(t: toml::Table, key: Seq<char>) -> Option<toml::Table>;

/// Relies on `toml::from_str` into a `toml::Table`: it succeeds exactly on
/// valid TOML documents, and the table depends on the text alone.
#[verifier::external_body]
pub(crate) fn parse_document(text: &str) -> (r: Result<toml::Table, DeError>)
    ensures
        match r {
            Ok(t) => parsed_document(text@) == Some(t),
            Err(_) => parsed_document(text@) is None,
        },
{
    toml::from_str::<toml::Table>(text)
}

/// Relies on `toml::map::Map::remove`: it yields the value stored under `key`
/// when the key is present. The value is told apart as a table or not.
#[verifier::external_body]
fn take_table(t: toml::Table, key: &str) -> (r: Option<Option<toml::Table>>)
    ensures
        (r is None) == !table_keys(t).contains(key@),
        r matches Some(Some(s)) ==> table_entry(t, key@) == Some(s),
        r matches Some(None) ==> table_entry(t, key@) is None,
{
    let mut t = t;
    match t.remove(key) {
        None => None,
        Some(toml::Value::Table(s)) => Some(Some(s)),
        Some(_) => Some(None),
    }
}

/// Relies on `toml::map::Map::is_empty`: true exactly when the table holds no key.
#[verifier::external_body]
fn table_is_empty(t: &toml::Table) -> (r: bool)
    ensures
        r == (table_keys(*t) == Set::<Seq<char>>::empty()),
{
    t.is_empty()
}

/// What a project manifest holds in the section reserved for this tool.
pub enum Reserved {
    /// No such section, or an empty one.
    Missing,
    /// `tool` or `tool.uv` is present but is not a table; the key is named.
    NotATable(String),
    /// A section with at least one setting.
    Present(toml::Table),
}

/// The reserved `[tool.uv]` section of a parsed manifest.
pub open spec fn reserved_section(doc: toml::Table) -> Reserved {
    if !table_keys(doc).contains("tool"@) {
        Reserved::Missing
    } else {
        match table_entry(doc, "tool"@) {
            None => Reserved::NotATable(arbitrary()),
            Some(tool) => if !table_keys(tool).contains("uv"@) {
                Reserved::Missing
            } else {
                match table_entry(tool, "uv"@) {
                    None => Reserved::NotATable(arbitrary()),
                    Some(uv) => if table_keys(uv) == Set::<Seq<char>>::empty() {
                        Reserved::Missing
                    } else {
                        Reserved::Present(uv)
                    },
                }
            },
        }
    }
}

/// Two outcomes of a section lookup agree, up to the key named in `NotATable`.
pub open spec fn same_section(a: Reserved, b: Reserved) -> bool {
    match (a, b) {
        (Reserved::Missing, Reserved::Missing) => true,
        (Reserved::NotATable(_), Reserved::NotATable(_)) => true,
        (Reserved::Present(x), Reserved::Present(y)) => x == y,
        _ => false,
    }
}

/// Extracts the `[tool.uv]` section of a parsed manifest.
pub fn find_reserved_section(doc: toml::Table) -> (r: Reserved)
    ensures
        same_section(r, reserved_section(doc)),
{
    match take_table(doc, "tool") {
        None => Reserved::Missing,
        Some(None) => Reserved::NotATable(String::from_str("tool")),
        Some(Some(tool)) => match take_table(tool, "uv") {
            None => Reserved::Missing,
            Some(None) => Reserved::NotATable(String::from_str("tool.uv")),
            Some(Some(uv)) => {
                if table_is_empty(&uv) {
                    Reserved::Missing
                } else {
                    Reserved::Present(uv)
                }
            },
        },
    }
}

} // verus!
