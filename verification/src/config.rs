use vstd::prelude::*;

use crate::Error;

verus! {

/// What the TOML parser yields for a given document and key: `Some` of the
/// string list when the document is a TOML table holding an array of
/// strings under that key, `None` for any other document. TOML's grammar is
/// far too large to restate here, but the outcome depends on the two
/// arguments alone; the callers' contracts go through this name.
pub uninterp spec fn toml_string_list(doc: Seq<char>, key: Seq<char>) -> Option<Seq<Seq<char>>>;

/// Relies on `toml::Table`'s `FromStr` impl to parse the document, and on
/// `toml::map::Map::get`, `toml::Value::as_array` and `toml::Value::as_str`
/// to take apart the value stored under `key`.
#[verifier::external_body]
fn parse_string_list(doc: &str, key: &str) -> (r: Option<Vec<String>>)
    ensures
        match r {
            Some(v) => toml_string_list(doc@, key@) == Some(v.deep_view()),
            None => toml_string_list(doc@, key@) is None,
        },
{
    let table: toml::Table = doc.parse().ok()?;
    let list = table.get(key)?.as_array()?;
    list.iter().map(|v| v.as_str().map(|s| s.to_string())).collect()
}

/// The key of the configuration table that holds the ordered roster of
/// monitor names.
pub open spec fn spec_monitors_key() -> Seq<char> {
    "monitors"@
}

/// The ordered monitor-name roster: the source of truth that gives every
/// monitor its stable zero-based index.
pub struct Config {
    pub monitors: Vec<String>,
}

impl Config {
    /// Parses the configuration document, a TOML table whose `monitors` key
    /// holds the roster of monitor names; any other document is a
    /// configuration error.
    pub fn parse(input: &str) -> (r: Result<Config, Error>)
        ensures
            match r {
                Ok(c) => toml_string_list(input@, spec_monitors_key()) == Some(
                    c.monitors.deep_view(),
                ),
                Err(e) => e == Error::ConfigurationError && toml_string_list(
                    input@,
                    spec_monitors_key(),
                ) is None,
            },
    {
        match parse_string_list(input, "monitors") {
            Some(monitors) => Ok(Config { monitors }),
            None => Err(Error::ConfigurationError),
        }
    }
}

} // verus!
