//! Build-manifest registration: reads a project or workspace manifest,
//! decides whether the generated crate is already registered, and
//! produces the updated manifest text when it is not. The TOML reading
//! and writing itself is done by the toml crate behind trusted
//! wrappers; every decision is made here, on plain values.

use vstd::prelude::*;

use crate::strutil::str_eq;

verus! {

#[verifier::external_type_specification]
#[verifier::external_body]
pub struct ExTomlValue(toml::Value);

#[verifier::external_type_specification]
#[verifier::external_body]
pub struct ExTomlDeError(toml::de::Error);

#[verifier::external_type_specification]
#[verifier::external_body]
pub struct ExTomlSerError(toml::ser::Error);

/// Whether a manifest text parses as a TOML document.
pub uninterp spec fn manifest_parses(s: Seq<char>) -> bool;

/// The workspace member entries of a parsed manifest text: each array
/// entry as its string, or None for a non-string entry; None overall
/// when the document has no workspace members array.
pub uninterp spec fn manifest_members(s: Seq<char>) -> Option<Seq<Option<Seq<char>>>>;

/// The dependency-table keys of a parsed manifest text, or None when
/// the document has no dependency table.
pub uninterp spec fn manifest_dep_keys(s: Seq<char>) -> Option<Seq<Seq<char>>>;

/// The workspace member entries a TOML document holds.
pub uninterp spec fn members_of_value(v: toml::Value) -> Option<Seq<Option<Seq<char>>>>;

/// The dependency-table keys a TOML document holds.
pub uninterp spec fn dep_keys_of_value(v: toml::Value) -> Option<Seq<Seq<char>>>;

/// Whether a TOML document holds only what the text form can carry,
/// so that writing it back cannot fail. Every freshly parsed document
/// does, and the registration edits keep it so.
pub uninterp spec fn value_wf(v: toml::Value) -> bool;

/// Relies on toml's FromStr for Table: whether a manifest text parses
/// as a document, and what the parsed document holds, are functions of
/// the text alone; a parsed document holds only strings, numbers,
/// booleans, datetimes, arrays and string-keyed tables, all of which
/// the text form carries.
#[verifier::external_body]
fn parse_toml(s: &str) -> (r: Result<toml::Value, toml::de::Error>)
    ensures
        r is Ok <==> manifest_parses(s@),
        match r {
            Ok(v) => members_of_value(v) == manifest_members(s@) && dep_keys_of_value(v)
                == manifest_dep_keys(s@) && value_wf(v),
            Err(_) => true,
        },
{
    match s.parse::<toml::Table>() {
        Ok(t) => Ok(toml::Value::Table(t)),
        Err(e) => Err(e),
    }
}

/// Relies on toml::Value::get, Value::as_array and Value::as_str:
/// reads the workspace members array, each entry as its string or as
/// None when the entry is not a string.
#[verifier::external_body]
fn read_workspace_members(v: &toml::Value) -> (r: Option<Vec<Option<String>>>)
    ensures
        match r {
            Some(ms) => members_of_value(*v) == Some(ms.deep_view()),
            None => members_of_value(*v) is None,
        },
{
    match v.get("workspace").and_then(|w| w.get("members")).and_then(|m| m.as_array()) {
        Some(arr) => Some(arr.iter().map(|m| m.as_str().map(|s| s.to_owned())).collect()),
        None => None,
    }
}

/// Relies on toml::Value::get_mut, Value::as_array_mut and std's
/// Vec::push: appends the name to the end of the workspace members
/// array when that array exists, and otherwise changes nothing; the
/// dependency table is untouched either way, and a string entry keeps
/// the document writable.
#[verifier::external_body]
fn push_workspace_member(v: &mut toml::Value, name: &str) -> (r: bool)
    ensures
        match members_of_value(*old(v)) {
            Some(ms) => r && members_of_value(*final(v)) == Some(ms.push(Some(name@))),
            None => !r && members_of_value(*final(v)) == members_of_value(*old(v)),
        },
        dep_keys_of_value(*final(v)) == dep_keys_of_value(*old(v)),
        value_wf(*old(v)) ==> value_wf(*final(v)),
{
    match v.get_mut("workspace").and_then(|w| w.get_mut("members")).and_then(
        |m| m.as_array_mut(),
    ) {
        Some(arr) => {
            arr.push(toml::Value::String(name.to_owned()));
            true
        },
        None => false,
    }
}

/// Relies on toml::Value::get and Value::as_table, and on Map::keys:
/// reads the keys of the dependency table, in the table's order.
#[verifier::external_body]
fn read_dependency_keys(v: &toml::Value) -> (r: Option<Vec<String>>)
    ensures
        match r {
            Some(ks) => dep_keys_of_value(*v) == Some(ks.deep_view()),
            None => dep_keys_of_value(*v) is None,
        },
{
    match v.get("dependencies").and_then(|d| d.as_table()) {
        Some(t) => Some(t.keys().map(|k| k.to_owned()).collect()),
        None => None,
    }
}

/// Relies on toml::Value::get_mut, Value::as_table_mut and
/// Map::insert: puts `name = { path = <path> }` into the dependency
/// table when that table exists, so the name joins the key set; with
/// no dependency table nothing changes; the workspace members are
/// untouched either way, and the inserted string-keyed table keeps
/// the document writable.
#[verifier::external_body]
fn insert_path_dependency(v: &mut toml::Value, name: &str, path: &str) -> (r: bool)
    ensures
        match dep_keys_of_value(*old(v)) {
            Some(ks) => r && (match dep_keys_of_value(*final(v)) {
                Some(ks2) => ks2.to_set() == ks.to_set().insert(name@),
                None => false,
            }),
            None => !r && dep_keys_of_value(*final(v)) == dep_keys_of_value(*old(v)),
        },
        members_of_value(*final(v)) == members_of_value(*old(v)),
        value_wf(*old(v)) ==> value_wf(*final(v)),
{
    match v.get_mut("dependencies").and_then(|d| d.as_table_mut()) {
        Some(t) => {
            let mut inner = toml::map::Map::new();
            inner.insert("path".to_owned(), toml::Value::String(path.to_owned()));
            t.insert(name.to_owned(), toml::Value::Table(inner));
            true
        },
        None => false,
    }
}

/// Relies on toml::to_string_pretty: it fails only on data the text
/// form cannot carry (an unsupported type, an absent optional value, a
/// non-string key, an invalid date), which a writable document holds
/// none of; on success the output is manifest text for the same
/// document, so parsing it back finds the same workspace members and
/// dependency keys.
#[verifier::external_body]
fn toml_to_text(v: &toml::Value) -> (r: Result<String, toml::ser::Error>)
    ensures
        value_wf(*v) ==> r is Ok,
        match r {
            Ok(t) => manifest_parses(t@) && manifest_members(t@) == members_of_value(*v)
                && manifest_dep_keys(t@) == dep_keys_of_value(*v),
            Err(_) => true,
        },
{
    toml::to_string_pretty(v)
}

/// Relies on the Display impl of toml's parse error for the
/// human-readable cause.
#[verifier::external_body]
fn de_error_text(e: &toml::de::Error) -> (r: String) {
    e.to_string()
}

/// Relies on the Display impl of toml's serialize error for the
/// human-readable cause.
#[verifier::external_body]
fn ser_error_text(e: &toml::ser::Error) -> (r: String) {
    e.to_string()
}

/// Why a manifest could not be updated: it did not parse, or the
/// updated document could not be serialized. Each variant carries the
/// cause as text.
#[derive(Debug)]
pub enum ManifestError {
    Parse(String),
    Serialize(String),
}

/// Whether the member entries already hold the name.
pub fn members_contain(members: &Vec<Option<String>>, name: &str) -> (r: bool)
    ensures
        r == members.deep_view().contains(Some(name@)),
{
    let n = members.len();
    let mut i: usize = 0;
    while i < n
        invariant
            n == members.len(),
            i <= n,
            forall|j: int| 0 <= j < i ==> members.deep_view()[j] != Some(name@),
        decreases n - i,
    {
        match &members[i] {
            Some(s) => {
                if str_eq(s.as_str(), name) {
                    proof {
                        assert(members.deep_view()[i as int] == Some(name@));
                    }
                    return true;
                }
            },
            None => {},
        }
        i += 1;
    }
    false
}

/// Whether the key list already holds the name.
pub fn keys_contain(keys: &Vec<String>, name: &str) -> (r: bool)
    ensures
        r == keys.deep_view().contains(name@),
{
    let n = keys.len();
    let mut i: usize = 0;
    while i < n
        invariant
            n == keys.len(),
            i <= n,
            forall|j: int| 0 <= j < i ==> keys.deep_view()[j] != name@,
        decreases n - i,
    {
        if str_eq(keys[i].as_str(), name) {
            proof {
                assert(keys.deep_view()[i as int] == name@);
            }
            return true;
        }
        i += 1;
    }
    false
}

/// Whether a members list still needs the name registered.
pub open spec fn needs_member(ms: Seq<Option<Seq<char>>>, name: Seq<char>) -> bool {
    !ms.contains(Some(name))
}

/// The members list after one registration run.
pub open spec fn registered_members(ms: Seq<Option<Seq<char>>>, name: Seq<char>) -> Seq<
    Option<Seq<char>>,
> {
    if needs_member(ms, name) {
        ms.push(Some(name))
    } else {
        ms
    }
}

/// Law: member registration is idempotent — one run leaves a list
/// that holds the name, and a second run changes nothing.
pub proof fn lemma_member_registration_idempotent(ms: Seq<Option<Seq<char>>>, name: Seq<char>)
    ensures
        registered_members(ms, name).contains(Some(name)),
        registered_members(registered_members(ms, name), name) == registered_members(ms, name),
{
    if needs_member(ms, name) {
        assert(ms.push(Some(name))[ms.len() as int] == Some(name));
    }
}

/// Whether a dependency-key set still needs the name added.
pub open spec fn needs_dependency(ks: Set<Seq<char>>, name: Seq<char>) -> bool {
    !ks.contains(name)
}

/// The key set after one registration run.
pub open spec fn registered_keys(ks: Set<Seq<char>>, name: Seq<char>) -> Set<Seq<char>> {
    if needs_dependency(ks, name) {
        ks.insert(name)
    } else {
        ks
    }
}

/// Law: dependency registration is idempotent — one run leaves a key
/// set that holds the name, and a second run changes nothing.
pub proof fn lemma_dependency_registration_idempotent(ks: Set<Seq<char>>, name: Seq<char>)
    ensures
        registered_keys(ks, name).contains(name),
        registered_keys(registered_keys(ks, name), name) == registered_keys(ks, name),
{
}

/// Registers the generated crate as a workspace member: parses the
/// manifest text, and when the workspace members array exists and does
/// not yet hold the crate, appends it and returns the updated text,
/// which parses to the same document with the member appended and the
/// dependency table untouched; an already-updated manifest, or one
/// without a members array, comes back as no change; only a text that
/// does not parse fails.
pub fn update_workspace_manifest(content: &str) -> (r: Result<Option<String>, ManifestError>)
    ensures
        r is Ok <==> manifest_parses(content@),
        r is Err ==> r matches Err(ManifestError::Parse(_)),
        manifest_parses(content@) ==> match manifest_members(content@) {
            None => r == Ok::<Option<String>, ManifestError>(None::<String>),
            Some(ms) => if !needs_member(ms, "caller-utils"@) {
                r == Ok::<Option<String>, ManifestError>(None::<String>)
            } else {
                match r {
                    Ok(Some(text)) => manifest_parses(text@) && manifest_members(text@)
                        == Some(ms.push(Some("caller-utils"@))) && manifest_dep_keys(text@)
                        == manifest_dep_keys(content@),
                    _ => false,
                }
            },
        },
{
    match parse_toml(content) {
        Err(e) => Err(ManifestError::Parse(de_error_text(&e))),
        Ok(v) => {
            let mut v = v;
            match read_workspace_members(&v) {
                None => Ok(None),
                Some(members) => {
                    if members_contain(&members, "caller-utils") {
                        Ok(None)
                    } else {
                        let pushed = push_workspace_member(&mut v, "caller-utils");
                        proof {
                            assert(pushed);
                        }
                        match toml_to_text(&v) {
                            Ok(text) => Ok(Some(text)),
                            Err(e) => Err(ManifestError::Serialize(ser_error_text(&e))),
                        }
                    }
                },
            }
        },
    }
}

/// Adds the generated crate as a path dependency of one project
/// manifest: parses the text, and when the dependency table exists and
/// does not yet hold the crate, inserts it and returns the updated
/// text, which parses to the same document with the crate among the
/// dependency keys and the workspace members untouched; an
/// already-updated manifest, or one without a dependency table, comes
/// back as no change; only a text that does not parse fails.
pub fn add_dependency_to_manifest(content: &str) -> (r: Result<Option<String>, ManifestError>)
    ensures
        r is Ok <==> manifest_parses(content@),
        r is Err ==> r matches Err(ManifestError::Parse(_)),
        manifest_parses(content@) ==> match manifest_dep_keys(content@) {
            None => r == Ok::<Option<String>, ManifestError>(None::<String>),
            Some(ks) => if !needs_dependency(ks.to_set(), "caller-utils"@) {
                r == Ok::<Option<String>, ManifestError>(None::<String>)
            } else {
                match r {
                    Ok(Some(text)) => manifest_parses(text@) && (match manifest_dep_keys(
                        text@,
                    ) {
                        Some(ks2) => ks2.to_set() == ks.to_set().insert("caller-utils"@),
                        None => false,
                    }) && manifest_members(text@) == manifest_members(content@),
                    _ => false,
                }
            },
        },
{
    match parse_toml(content) {
        Err(e) => Err(ManifestError::Parse(de_error_text(&e))),
        Ok(v) => {
            let mut v = v;
            match read_dependency_keys(&v) {
                None => Ok(None),
                Some(keys) => {
                    if keys_contain(&keys, "caller-utils") {
                        proof {
                            assert(keys.deep_view().to_set().contains("caller-utils"@));
                        }
                        Ok(None)
                    } else {
                        proof {
                            assert(!keys.deep_view().to_set().contains("caller-utils"@));
                        }
                        let inserted = insert_path_dependency(
                            &mut v,
                            "caller-utils",
                            "../caller-utils",
                        );
                        proof {
                            assert(inserted);
                        }
                        match toml_to_text(&v) {
                            Ok(text) => Ok(Some(text)),
                            Err(e) => Err(ManifestError::Serialize(ser_error_text(&e))),
                        }
                    }
                },
            }
        },
    }
}

} // verus!
