//! Reading a manifest file as a TOML document.

use vstd::prelude::*;

verus! {

/// The top-level entries of the TOML document that `content` holds, or the
/// parser's diagnostic where `content` is no TOML document. An entry is a key
/// with the text of its value where that value is a string, and with `None`
/// where it is of any other type.
pub uninterp spec fn toml_document(content: Seq<char>) -> Result<
    Seq<(Seq<char>, Option<Seq<char>>)>,
    Seq<char>,
>;

/// `toml::from_str`, to a `toml::Table`. Each entry of the table is handed
/// back as its key and what `toml::Value::as_str` gives for its value; an
/// error as its text. The contract gives this result its name,
/// `toml_document`, and claims nothing else.
#[verifier::external_body]
pub(crate) fn parse_document(content: &str) -> (parsed: Result<
    Vec<(String, Option<String>)>,
    String,
>)
    ensures
        match parsed {
            Ok(entries) => toml_document(content@) == Ok::<
                Seq<(Seq<char>, Option<Seq<char>>)>,
                Seq<char>,
            >(entries.deep_view()),
            Err(diagnostic) => toml_document(content@) == Err::<
                Seq<(Seq<char>, Option<Seq<char>>)>,
                Seq<char>,
            >(diagnostic@),
        },
{
    match toml::from_str::<toml::Table>(content) {
        Ok(table) => Ok(
            table.iter().map(|(key, value)| (key.clone(), value.as_str().map(str::to_owned))).collect(),
        ),
        Err(error) => Err(error.to_string()),
    }
}

} // verus!
