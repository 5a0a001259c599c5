//! The built-in shape catalog: an immutable table of named entries, each with
//! a description, an ordered list of file-matching glob patterns, and the
//! location its shape description is retrieved from. It is constructed once
//! and handed to the resolver as a plain value, so a test can substitute a
//! smaller catalog.

use vstd::prelude::*;
use vstd::string::*;

verus! {

/// One catalog entry. Immutable after construction.
pub struct CatalogEntry {
    /// Unique identifier and display name.
    pub name: String,
    /// Free-text description.
    pub description: String,
    /// Ordered glob patterns over file names; empty means the entry never
    /// matches by name.
    pub file_match: Vec<String>,
    /// Where the shape description is retrieved from: a network endpoint
    /// (URL-scheme prefix) or a local path.
    pub location: String,
}

/// The mathematical content of a catalog entry.
pub ghost struct EntryView {
    pub name: Seq<char>,
    pub description: Seq<char>,
    pub file_match: Seq<Seq<char>>,
    pub location: Seq<char>,
}

impl View for CatalogEntry {
    type V = EntryView;

    open spec fn view(&self) -> EntryView {
        EntryView {
            name: self.name@,
            description: self.description@,
            file_match: self.file_match.deep_view(),
            location: self.location@,
        }
    }
}

impl DeepView for CatalogEntry {
    type V = EntryView;

    open spec fn deep_view(&self) -> EntryView {
        self.view()
    }
}

fn one_pattern(a: &str) -> (r: Vec<String>)
    ensures
        r.deep_view() == seq![a@],
{
    let mut v: Vec<String> = Vec::new();
    v.push(String::from_str(a));
    proof {
        assert(v.deep_view() =~= seq![a@]);
    }
    v
}

fn two_patterns(a: &str, b: &str) -> (r: Vec<String>)
    ensures
        r.deep_view() == seq![a@, b@],
{
    let mut v: Vec<String> = Vec::new();
    v.push(String::from_str(a));
    v.push(String::from_str(b));
    proof {
        assert(v.deep_view() =~= seq![a@, b@]);
    }
    v
}

fn entry(name: &str, description: &str, file_match: Vec<String>, location: &str) -> (r:
    CatalogEntry)
    ensures
        r@ == (EntryView {
            name: name@,
            description: description@,
            file_match: file_match.deep_view(),
            location: location@,
        }),
{
    CatalogEntry {
        name: String::from_str(name),
        description: String::from_str(description),
        file_match,
        location: String::from_str(location),
    }
}

/// The embedded catalog definition, as a mathematical value.
pub open spec fn spec_catalog() -> Seq<EntryView> {
    seq![
        EntryView {
            name: ".angular-cli.json"@,
            description: "Angular CLI configuration file"@,
            file_match: seq![".angular-cli.json"@, "angular-cli.json"@],
            location:
                "https://raw.githubusercontent.com/SchemaStore/schemastore/master/src/schemas/json/angular-cli.json"@,
        },
        EntryView {
            name: ".babelrc"@,
            description: "Babel configuration file"@,
            file_match: seq![".babelrc"@],
            location:
                "https://raw.githubusercontent.com/SchemaStore/schemastore/master/src/schemas/json/babelrc.json"@,
        },
        EntryView {
            name: "package.json"@,
            description: "NPM package manifest"@,
            file_match: seq!["package.json"@],
            location:
                "https://raw.githubusercontent.com/SchemaStore/schemastore/master/src/schemas/json/package.json"@,
        },
        EntryView {
            name: "tsconfig.json"@,
            description: "TypeScript compiler configuration"@,
            file_match: seq!["tsconfig.json"@, "tsconfig.*.json"@],
            location:
                "https://raw.githubusercontent.com/SchemaStore/schemastore/master/src/schemas/json/tsconfig.json"@,
        },
        EntryView {
            name: ".travis.yml"@,
            description: "Travis CI configuration file"@,
            file_match: seq![".travis.yml"@],
            location:
                "https://raw.githubusercontent.com/SchemaStore/schemastore/master/src/schemas/json/travis.json"@,
        },
    ]
}

/// The embedded catalog, constructed once at startup and read-only
/// thereafter.
pub fn catalog() -> (r: Vec<CatalogEntry>)
    ensures
        r.deep_view() == spec_catalog(),
{
    let mut v: Vec<CatalogEntry> = Vec::new();
    v.push(
        entry(
            ".angular-cli.json",
            "Angular CLI configuration file",
            two_patterns(".angular-cli.json", "angular-cli.json"),
            "https://raw.githubusercontent.com/SchemaStore/schemastore/master/src/schemas/json/angular-cli.json",
        ),
    );
    v.push(
        entry(
            ".babelrc",
            "Babel configuration file",
            one_pattern(".babelrc"),
            "https://raw.githubusercontent.com/SchemaStore/schemastore/master/src/schemas/json/babelrc.json",
        ),
    );
    v.push(
        entry(
            "package.json",
            "NPM package manifest",
            one_pattern("package.json"),
            "https://raw.githubusercontent.com/SchemaStore/schemastore/master/src/schemas/json/package.json",
        ),
    );
    v.push(
        entry(
            "tsconfig.json",
            "TypeScript compiler configuration",
            two_patterns("tsconfig.json", "tsconfig.*.json"),
            "https://raw.githubusercontent.com/SchemaStore/schemastore/master/src/schemas/json/tsconfig.json",
        ),
    );
    v.push(
        entry(
            ".travis.yml",
            "Travis CI configuration file",
            one_pattern(".travis.yml"),
            "https://raw.githubusercontent.com/SchemaStore/schemastore/master/src/schemas/json/travis.json",
        ),
    );
    proof {
        assert(v.deep_view() =~= spec_catalog());
    }
    v
}

} // verus!
