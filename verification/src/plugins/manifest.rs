//! The manifest that describes a plugin.

use vstd::prelude::*;
use crate::plugins::document::{parse_document, toml_document};
use crate::views::result_view;

verus! {

/// The metadata of a plugin, as its manifest file declares it.
#[derive(Debug)]
pub struct Manifest {
    pub name: String,
    pub description: String,
    pub homepage: Option<String>,
    pub repo: Option<String>,
    pub license: Option<String>,
    pub author: String,
}

pub struct ManifestView {
    pub name: Seq<char>,
    pub description: Seq<char>,
    pub homepage: Option<Seq<char>>,
    pub repo: Option<Seq<char>>,
    pub license: Option<Seq<char>>,
    pub author: Seq<char>,
}

impl View for Manifest {
    type V = ManifestView;

    open spec fn view(&self) -> ManifestView {
        ManifestView {
            name: self.name@,
            description: self.description@,
            homepage: self.homepage.deep_view(),
            repo: self.repo.deep_view(),
            license: self.license.deep_view(),
            author: self.author@,
        }
    }
}

/// The keys of a manifest, in the order in which they are checked.
#[derive(Clone, Copy, Debug, PartialEq, Eq, Structural)]
pub enum ManifestField {
    Name,
    Description,
    Homepage,
    Repo,
    License,
    Author,
}

impl ManifestField {
    pub open spec fn spec_key(self) -> Seq<char> {
        match self {
            ManifestField::Name => "name"@,
            ManifestField::Description => "description"@,
            ManifestField::Homepage => "homepage"@,
            ManifestField::Repo => "repo"@,
            ManifestField::License => "license"@,
            ManifestField::Author => "author"@,
        }
    }

    /// The key under which the field stands in a manifest file.
    pub fn key(self) -> (key: &'static str)
        ensures
            key@ == self.spec_key(),
    {
        match self {
            ManifestField::Name => "name",
            ManifestField::Description => "description",
            ManifestField::Homepage => "homepage",
            ManifestField::Repo => "repo",
            ManifestField::License => "license",
            ManifestField::Author => "author",
        }
    }
}

/// Why a text is no manifest.
#[derive(Debug)]
pub enum ManifestFault {
    /// The text is no TOML document; the parser's diagnostic.
    Syntax(String),
    /// A required key is absent.
    Missing(ManifestField),
    /// The value of a key is not a string.
    NotText(ManifestField),
}

pub enum ManifestFaultView {
    Syntax(Seq<char>),
    Missing(ManifestField),
    NotText(ManifestField),
}

impl View for ManifestFault {
    type V = ManifestFaultView;

    open spec fn view(&self) -> ManifestFaultView {
        match *self {
            ManifestFault::Syntax(diagnostic) => ManifestFaultView::Syntax(diagnostic@),
            ManifestFault::Missing(field) => ManifestFaultView::Missing(field),
            ManifestFault::NotText(field) => ManifestFaultView::NotText(field),
        }
    }
}

impl ManifestFaultView {
    /// The fault in words.
    pub open spec fn diagnostic(self) -> Seq<char> {
        match self {
            ManifestFaultView::Syntax(diagnostic) => diagnostic,
            ManifestFaultView::Missing(field) => "missing field `"@ + field.spec_key() + "`"@,
            ManifestFaultView::NotText(field) => "invalid type for field `"@ + field.spec_key()
                + "`: expected a string"@,
        }
    }
}

impl ManifestFault {
    /// The fault in words.
    pub fn diagnostic(&self) -> (text: String)
        ensures
            text@ == self@.diagnostic(),
    {
        match self {
            ManifestFault::Syntax(diagnostic) => diagnostic.clone(),
            ManifestFault::Missing(field) => "missing field `".to_owned().concat(field.key()).concat(
                "`",
            ),
            ManifestFault::NotText(field) => "invalid type for field `".to_owned().concat(
                field.key(),
            ).concat("`: expected a string"),
        }
    }
}

/// The entries of a document, as the parser hands them over.
pub type Entries = Seq<(Seq<char>, Option<Seq<char>>)>;

/// What the first entry under `key` holds: `None` where there is no such
/// entry, otherwise its text, or `None` where its value is not a string.
pub open spec fn lookup(entries: Entries, key: Seq<char>) -> Option<Option<Seq<char>>>
    decreases entries.len(),
{
    if entries.len() == 0 {
        None
    } else if entries[0].0 == key {
        Some(entries[0].1)
    } else {
        lookup(entries.drop_first(), key)
    }
}

/// The text of a field that a manifest must have.
pub open spec fn required(entries: Entries, field: ManifestField) -> Result<
    Seq<char>,
    ManifestFaultView,
> {
    match lookup(entries, field.spec_key()) {
        None => Err(ManifestFaultView::Missing(field)),
        Some(None) => Err(ManifestFaultView::NotText(field)),
        Some(Some(text)) => Ok(text),
    }
}

/// The text of a field that a manifest may have.
pub open spec fn optional(entries: Entries, field: ManifestField) -> Result<
    Option<Seq<char>>,
    ManifestFaultView,
> {
    match lookup(entries, field.spec_key()) {
        None => Ok(None),
        Some(None) => Err(ManifestFaultView::NotText(field)),
        Some(Some(text)) => Ok(Some(text)),
    }
}

/// The manifest that the entries of a document make up, or the first fault
/// among its fields, taken in the order of [`ManifestField`]. Keys that are
/// no fields of a manifest are passed over.
pub open spec fn manifest_of(entries: Entries) -> Result<ManifestView, ManifestFaultView> {
    match required(entries, ManifestField::Name) {
        Err(fault) => Err(fault),
        Ok(name) => match required(entries, ManifestField::Description) {
            Err(fault) => Err(fault),
            Ok(description) => match optional(entries, ManifestField::Homepage) {
                Err(fault) => Err(fault),
                Ok(homepage) => match optional(entries, ManifestField::Repo) {
                    Err(fault) => Err(fault),
                    Ok(repo) => match optional(entries, ManifestField::License) {
                        Err(fault) => Err(fault),
                        Ok(license) => match required(entries, ManifestField::Author) {
                            Err(fault) => Err(fault),
                            Ok(author) => Ok(
                                ManifestView { name, description, homepage, repo, license, author },
                            ),
                        },
                    },
                },
            },
        },
    }
}

/// The manifest that a text holds: that of its entries, where the text is a
/// TOML document.
pub open spec fn parsed_manifest(content: Seq<char>) -> Result<ManifestView, ManifestFaultView> {
    match toml_document(content) {
        Err(diagnostic) => Err(ManifestFaultView::Syntax(diagnostic)),
        Ok(entries) => manifest_of(entries),
    }
}

fn find(entries: &Vec<(String, Option<String>)>, key: &str) -> (found: Option<Option<String>>)
    ensures
        found.deep_view() == lookup(entries.deep_view(), key@),
{
    let ghost all = entries.deep_view();
    let mut i: usize = 0;
    assert(all.skip(0) =~= all);
    while i < entries.len()
        invariant
            i <= entries.len(),
            all == entries.deep_view(),
            lookup(all, key@) == lookup(all.skip(i as int), key@),
        decreases entries.len() - i,
    {
        assert(all.skip(i as int).drop_first() =~= all.skip(i + 1));
        if entries[i].0.as_str().eq(key) {
            return match &entries[i].1 {
                Some(text) => Some(Some(text.clone())),
                None => Some(None),
            };
        }
        i += 1;
    }
    None
}

fn find_required(entries: &Vec<(String, Option<String>)>, field: ManifestField) -> (found: Result<
    String,
    ManifestFault,
>)
    ensures
        match found {
            Ok(text) => required(entries.deep_view(), field) == Ok::<Seq<char>, ManifestFaultView>(
                text@,
            ),
            Err(fault) => required(entries.deep_view(), field) == Err::<
                Seq<char>,
                ManifestFaultView,
            >(fault@),
        },
{
    match find(entries, field.key()) {
        None => Err(ManifestFault::Missing(field)),
        Some(None) => Err(ManifestFault::NotText(field)),
        Some(Some(text)) => Ok(text),
    }
}

fn find_optional(entries: &Vec<(String, Option<String>)>, field: ManifestField) -> (found: Result<
    Option<String>,
    ManifestFault,
>)
    ensures
        match found {
            Ok(text) => optional(entries.deep_view(), field) == Ok::<
                Option<Seq<char>>,
                ManifestFaultView,
            >(text.deep_view()),
            Err(fault) => optional(entries.deep_view(), field) == Err::<
                Option<Seq<char>>,
                ManifestFaultView,
            >(fault@),
        },
{
    match find(entries, field.key()) {
        None => Ok(None),
        Some(None) => Err(ManifestFault::NotText(field)),
        Some(Some(text)) => Ok(Some(text)),
    }
}

impl Manifest {
    /// Builds a manifest from the entries of a document.
    pub fn from_entries(entries: &Vec<(String, Option<String>)>) -> (result: Result<
        Manifest,
        ManifestFault,
    >)
        ensures
            result_view(result) == manifest_of(entries.deep_view()),
    {
        let name = match find_required(entries, ManifestField::Name) {
            Ok(text) => text,
            Err(fault) => { return Err(fault); },
        };
        let description = match find_required(entries, ManifestField::Description) {
            Ok(text) => text,
            Err(fault) => { return Err(fault); },
        };
        let homepage = match find_optional(entries, ManifestField::Homepage) {
            Ok(text) => text,
            Err(fault) => { return Err(fault); },
        };
        let repo = match find_optional(entries, ManifestField::Repo) {
            Ok(text) => text,
            Err(fault) => { return Err(fault); },
        };
        let license = match find_optional(entries, ManifestField::License) {
            Ok(text) => text,
            Err(fault) => { return Err(fault); },
        };
        let author = match find_required(entries, ManifestField::Author) {
            Ok(text) => text,
            Err(fault) => { return Err(fault); },
        };
        Ok(Manifest { name, description, homepage, repo, license, author })
    }

    /// Parses the text of a manifest file. A missing required field or a
    /// value that is no string is a fault, as a text that is no TOML is.
    pub fn parse(content: &str) -> (result: Result<Manifest, ManifestFault>)
        ensures
            result_view(result) == parsed_manifest(content@),
    {
        match parse_document(content) {
            Err(diagnostic) => Err(ManifestFault::Syntax(diagnostic)),
            Ok(entries) => Manifest::from_entries(&entries),
        }
    }
}

} // verus!
