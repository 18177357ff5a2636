//! What a build script reads about the package it builds: the commit a
//! published crate was packaged from, and the `[package.metadata]` table of
//! its manifest. Reading the files is the caller's part; this module works
//! on their text.

use vstd::prelude::*;
use vstd::string::StringSliceAdditionalSpecFns;

verus! {

#[verifier::external_type_specification]
#[verifier::external_body]
pub struct ExJsonValue(serde_json::Value);

#[verifier::external_type_specification]
#[verifier::external_body]
pub struct ExJsonError(serde_json::Error);

#[verifier::external_type_specification]
#[verifier::external_body]
pub struct ExTomlValue(toml::Value);

#[verifier::external_type_specification]
#[verifier::external_body]
#[verifier::reject_recursive_types(K)]
#[verifier::reject_recursive_types(V)]
pub struct ExTomlMap<K, V>(toml::map::Map<K, V>);

#[verifier::external_type_specification]
#[verifier::external_body]
pub struct ExTomlError(toml::de::Error);

/// Whether serde_json reads `text` as one JSON value.
pub uninterp spec fn json_accepts(text: Seq<char>) -> bool;

/// Whether toml reads `text` as a table.
pub uninterp spec fn toml_accepts(text: Seq<char>) -> bool;

/// Relies on serde_json::from_str: `Ok` exactly when the text is valid JSON.
#[verifier::external_body]
fn parse_json(text: &str) -> (r: Result<serde_json::Value, serde_json::Error>)
    ensures
        r is Ok == json_accepts(text@),
{
    serde_json::from_str::<serde_json::Value>(text)
}

/// Relies on serde_json::Value::get with a string key: the member of an
/// object, if it has one.
#[verifier::external_body]
fn json_member<'a>(value: &'a serde_json::Value, key: &str) -> (r: Option<&'a serde_json::Value>) {
    value.get(key)
}

/// Relies on serde_json::Value::as_str: the text of a string value.
#[verifier::external_body]
fn json_text(value: &serde_json::Value) -> (r: Option<String>) {
    value.as_str().map(|s| s.to_owned())
}

/// toml reads arrays, inline tables, table headers and dotted keys
/// recursively, without a depth limit: each level of nesting takes a `[`, a
/// `{` or a `.`, so texts with more of them than this are not handed to it.
pub const MAX_TOML_NESTING_MARKS: usize = 256;

/// Whether a byte is `.`, `[` or `{`; in UTF-8 these bytes stand only for
/// those characters.
pub open spec fn is_nesting_mark(b: u8) -> bool {
    b == 46u8 || b == 91u8 || b == 123u8
}

/// How many `.`, `[` and `{` the bytes hold.
pub open spec fn nesting_marks(b: Seq<u8>) -> nat
    decreases b.len(),
{
    if b.len() == 0 {
        0
    } else {
        nesting_marks(b.drop_last()) + if is_nesting_mark(b.last()) {
            1nat
        } else {
            0nat
        }
    }
}

/// Whether the text nests shallowly enough to be parsed.
pub fn nesting_within_bound(text: &str) -> (r: bool)
    ensures
        r == (nesting_marks(text.spec_bytes()) <= MAX_TOML_NESTING_MARKS),
{
    let b = text.as_bytes();
    let mut count: usize = 0;
    let mut i: usize = 0;
    while i < b.len()
        invariant
            b@ == text.spec_bytes(),
            i <= b@.len(),
            count <= i,
            count == nesting_marks(b@.take(i as int)),
        decreases b@.len() - i,
    {
        proof {
            assert(b@.take(i as int + 1).drop_last() =~= b@.take(i as int));
        }
        if b[i] == 46u8 || b[i] == 91u8 || b[i] == 123u8 {
            count = count + 1;
        }
        i = i + 1;
    }
    proof {
        assert(b@.take(b@.len() as int) =~= b@);
    }
    count <= MAX_TOML_NESTING_MARKS
}

/// Relies on toml::de::from_str for a table: `Ok` exactly when the text is a
/// valid TOML document. Its recursion is bounded by the count of nesting
/// marks.
#[verifier::external_body]
fn parse_toml(text: &str) -> (r: Result<toml::value::Table, toml::de::Error>)
    requires
        nesting_marks(text.spec_bytes()) <= MAX_TOML_NESTING_MARKS,
    ensures
        r is Ok == toml_accepts(text@),
{
    toml::de::from_str::<toml::value::Table>(text)
}

/// Relies on toml::map::Map::get: the entry under `key`, if any.
#[verifier::external_body]
fn table_entry<'a>(table: &'a toml::value::Table, key: &str) -> (r: Option<&'a toml::Value>) {
    table.get(key)
}

/// Relies on toml::Value::as_table: the table that a value is, if it is one.
#[verifier::external_body]
fn toml_table(value: &toml::Value) -> (r: Option<&toml::value::Table>) {
    value.as_table()
}

/// Relies on toml::map::Map::iter: the entries of a table, in key order; a
/// map holds each key once.
#[verifier::external_body]
fn table_entries(table: &toml::value::Table) -> (r: Vec<(String, toml::Value)>)
    ensures
        forall|i: int, j: int|
            0 <= i < j < r@.len() ==> #[trigger] r@[i].0@ != #[trigger] r@[j].0@,
{
    table.iter().map(|(k, v)| (k.clone(), v.clone())).collect()
}

/// Relies on toml::Value::as_str: the text of a string value.
#[verifier::external_body]
fn toml_text(value: &toml::Value) -> (r: Option<String>) {
    value.as_str().map(|s| s.to_owned())
}

#[derive(Debug, PartialEq, Eq, Structural)]
pub enum RepositoryHashError {
    /// The version control record is not JSON.
    InvalidJson,
    /// It has no `git` member.
    MissingGit,
    /// Its `git` member has no `sha1` member.
    MissingSha1,
    /// The `sha1` member is not a string.
    Sha1NotText,
}

/// What the lookups in a version control record found: whether it has a
/// `git` member, whether that has a `sha1` member, and the text of `sha1`
/// when it is a string.
pub fn hash_from_record(has_git: bool, has_sha1: bool, sha1_text: Option<String>) -> (r: Result<
    String,
    RepositoryHashError,
>)
    ensures
        !has_git ==> r == Err::<String, RepositoryHashError>(RepositoryHashError::MissingGit),
        has_git && !has_sha1 ==> r == Err::<String, RepositoryHashError>(
            RepositoryHashError::MissingSha1,
        ),
        has_git && has_sha1 && sha1_text is None ==> r == Err::<String, RepositoryHashError>(
            RepositoryHashError::Sha1NotText,
        ),
        has_git && has_sha1 && sha1_text is Some ==> (r is Ok && r->Ok_0@ == sha1_text.unwrap()@),
{
    if !has_git {
        Err(RepositoryHashError::MissingGit)
    } else if !has_sha1 {
        Err(RepositoryHashError::MissingSha1)
    } else {
        match sha1_text {
            Some(t) => Ok(t),
            None => Err(RepositoryHashError::Sha1NotText),
        }
    }
}

/// The commit hash in the version control record (`.cargo_vcs_info.json`)
/// that cargo writes into a packaged crate.
pub fn crate_repository_hash(vcs_info: &str) -> (r: Result<String, RepositoryHashError>)
    ensures
        (r == Err::<String, RepositoryHashError>(RepositoryHashError::InvalidJson)) == !json_accepts(
            vcs_info@,
        ),
{
    let value = match parse_json(vcs_info) {
        Ok(v) => v,
        Err(_) => {
            return Err(RepositoryHashError::InvalidJson);
        },
    };
    match json_member(&value, "git") {
        None => hash_from_record(false, false, None),
        Some(git) => match json_member(git, "sha1") {
            None => hash_from_record(true, false, None),
            Some(sha1) => hash_from_record(true, true, json_text(sha1)),
        },
    }
}

/// Whether the build runs from a packaged crate: `Ok(false)` without a
/// readable, valid version control record, `Ok(true)` when it names a
/// commit, and the error when a valid record lacks it.
pub fn is_crate(vcs_info: Option<&str>) -> (r: Result<bool, RepositoryHashError>)
    ensures
        vcs_info is None ==> r == Ok::<bool, RepositoryHashError>(false),
        vcs_info is Some ==> ((r == Ok::<bool, RepositoryHashError>(false)) == !json_accepts(
            vcs_info.unwrap()@,
        )),
        r is Err ==> r->Err_0 != RepositoryHashError::InvalidJson,
{
    match vcs_info {
        Some(text) => match crate_repository_hash(text) {
            Ok(_) => Ok(true),
            Err(RepositoryHashError::InvalidJson) => Ok(false),
            Err(e) => Err(e),
        },
        None => Ok(false),
    }
}

#[derive(Debug, PartialEq, Eq)]
pub enum MetadataError {
    /// The manifest nests more deeply than the parser is given.
    TooDeep,
    /// The manifest is not TOML.
    InvalidToml,
    /// It has no `[package]` section.
    MissingPackage,
    /// `[package]` has no `metadata` entry.
    MissingMetadata,
    /// `package.metadata` is not a table.
    MetadataNotTable,
    /// The entry under this key is not a string.
    NotText(String),
}

/// The pairs of key and string value, when every entry's value is a string;
/// else `NotText` with the key of the first entry whose value is not.
pub fn metadata_entries(entries: Vec<(String, Option<String>)>) -> (r: Result<
    Vec<(String, String)>,
    MetadataError,
>)
    ensures
        (forall|i: int| 0 <= i < entries@.len() ==> (#[trigger] entries@[i]).1 is Some) ==> (r is Ok
            && r->Ok_0@.len() == entries@.len() && forall|i: int|
            0 <= i < entries@.len() ==> (#[trigger] r->Ok_0@[i]).0@ == entries@[i].0@ && r->Ok_0@[i].1@
                == entries@[i].1.unwrap()@),
        forall|k: int|
            0 <= k < entries@.len() && (#[trigger] entries@[k]).1 is None && (forall|i: int|
                0 <= i < k ==> (#[trigger] entries@[i]).1 is Some) ==> (r is Err && r->Err_0
                is NotText && r->Err_0->NotText_0@ == entries@[k].0@),
        r is Err ==> r->Err_0 is NotText,
        r is Ok ==> (r->Ok_0@.len() == entries@.len() && forall|i: int|
            0 <= i < entries@.len() ==> (#[trigger] r->Ok_0@[i]).0@ == entries@[i].0@),
{
    let mut out: Vec<(String, String)> = Vec::new();
    let mut i: usize = 0;
    while i < entries.len()
        invariant
            i <= entries@.len(),
            out@.len() == i,
            forall|j: int| 0 <= j < i ==> (#[trigger] entries@[j]).1 is Some,
            forall|j: int|
                0 <= j < i ==> (#[trigger] out@[j]).0@ == entries@[j].0@ && out@[j].1@
                    == entries@[j].1.unwrap()@,
        decreases entries@.len() - i,
    {
        let key = entries[i].0.clone();
        match &entries[i].1 {
            Some(text) => {
                out.push((key, text.clone()));
            },
            None => {
                return Err(MetadataError::NotText(key));
            },
        }
        i = i + 1;
    }
    Ok(out)
}

/// The entries of `[package.metadata]` in the manifest text, each as a pair of
/// key and string value, in key order.
pub fn get_metadata(manifest: &str) -> (r: Result<Vec<(String, String)>, MetadataError>)
    ensures
        (r is Err && r->Err_0 is TooDeep) == (nesting_marks(manifest.spec_bytes())
            > MAX_TOML_NESTING_MARKS),
        (r is Err && r->Err_0 is InvalidToml) == (nesting_marks(manifest.spec_bytes())
            <= MAX_TOML_NESTING_MARKS && !toml_accepts(manifest@)),
        r is Ok ==> forall|i: int, j: int|
            0 <= i < j < r->Ok_0@.len() ==> #[trigger] r->Ok_0@[i].0@ != #[trigger] r->Ok_0@[j].0@,
{
    if !nesting_within_bound(manifest) {
        return Err(MetadataError::TooDeep);
    }
    let root = match parse_toml(manifest) {
        Ok(t) => t,
        Err(_) => {
            return Err(MetadataError::InvalidToml);
        },
    };
    let package = match table_entry(&root, "package") {
        Some(p) => p,
        None => {
            return Err(MetadataError::MissingPackage);
        },
    };
    let package = match toml_table(package) {
        Some(p) => p,
        None => {
            return Err(MetadataError::MissingMetadata);
        },
    };
    let metadata = match table_entry(package, "metadata") {
        Some(m) => m,
        None => {
            return Err(MetadataError::MissingMetadata);
        },
    };
    let metadata = match toml_table(metadata) {
        Some(m) => m,
        None => {
            return Err(MetadataError::MetadataNotTable);
        },
    };
    let entries = table_entries(metadata);
    let mut texts: Vec<(String, Option<String>)> = Vec::new();
    let mut i: usize = 0;
    while i < entries.len()
        invariant
            i <= entries@.len(),
            nesting_marks(manifest.spec_bytes()) <= MAX_TOML_NESTING_MARKS,
            toml_accepts(manifest@),
            texts@.len() == i,
            forall|j: int| 0 <= j < i ==> (#[trigger] texts@[j]).0@ == entries@[j].0@,
        decreases entries@.len() - i,
    {
        let key = entries[i].0.clone();
        texts.push((key, toml_text(&entries[i].1)));
        i = i + 1;
    }
    metadata_entries(texts)
}

} // verus!
