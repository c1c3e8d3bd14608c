use caller_utils_gen::manifest::ManifestError;
use caller_utils_gen::manifest::add_dependency_to_manifest;
use caller_utils_gen::manifest::update_workspace_manifest;

#[test]
fn workspace_member_is_appended_once() {
    let base = "[workspace]\nmembers = [\"a\", \"b\"]\n";
    let updated = update_workspace_manifest(base).unwrap().unwrap();
    assert!(updated.contains("caller-utils"));
    assert!(updated.contains("\"a\""));
    assert!(updated.contains("\"b\""));
}

#[test]
fn workspace_registration_is_idempotent() {
    let base = "[workspace]\nmembers = [\"a\"]\n";
    let updated = update_workspace_manifest(base).unwrap().unwrap();
    let second = update_workspace_manifest(&updated).unwrap();
    assert!(second.is_none(), "second run changed the text");
}

#[test]
fn workspace_with_member_already_present_is_untouched() {
    let base = "[workspace]\nmembers = [\"caller-utils\", \"a\"]\n";
    assert!(update_workspace_manifest(base).unwrap().is_none());
}

#[test]
fn manifest_without_members_is_untouched() {
    let base = "[package]\nname = \"x\"\nversion = \"0.1.0\"\n";
    assert!(update_workspace_manifest(base).unwrap().is_none());
}

#[test]
fn unparsable_workspace_manifest_is_an_error() {
    let r = update_workspace_manifest("not = = toml [");
    assert!(matches!(r, Err(ManifestError::Parse(_))));
}

#[test]
fn dependency_is_inserted_with_its_path() {
    let base = "[package]\nname = \"p\"\nversion = \"0.1.0\"\n\n[dependencies]\nserde = \"1\"\n";
    let updated = add_dependency_to_manifest(base).unwrap().unwrap();
    assert!(updated.contains("caller-utils"));
    assert!(updated.contains("../caller-utils"));
    assert!(updated.contains("serde"));
}

#[test]
fn dependency_registration_is_idempotent() {
    let base = "[package]\nname = \"p\"\n\n[dependencies]\nfoo = \"1\"\n";
    let updated = add_dependency_to_manifest(base).unwrap().unwrap();
    let second = add_dependency_to_manifest(&updated).unwrap();
    assert!(second.is_none(), "second run changed the text");
}

#[test]
fn manifest_without_dependency_table_is_untouched() {
    let base = "[package]\nname = \"p\"\n";
    assert!(add_dependency_to_manifest(base).unwrap().is_none());
}

#[test]
fn dependency_already_present_is_untouched() {
    let base = "[package]\nname = \"p\"\n\n[dependencies]\ncaller-utils = { path = \"../caller-utils\" }\n";
    assert!(add_dependency_to_manifest(base).unwrap().is_none());
}

#[test]
fn unparsable_project_manifest_is_an_error() {
    let r = add_dependency_to_manifest("][");
    assert!(matches!(r, Err(ManifestError::Parse(_))));
}

#[test]
fn updated_workspace_parses_with_member_appended() {
    let base = "[workspace]\nmembers = [\"a\", \"b\"]\n\n[workspace.package]\nversion = \"1.0.0\"\n";
    let updated = update_workspace_manifest(base).unwrap().unwrap();
    let doc: toml::Table = updated.parse().unwrap();
    let members: Vec<&str> = doc["workspace"]["members"]
        .as_array()
        .unwrap()
        .iter()
        .map(|m| m.as_str().unwrap())
        .collect();
    assert_eq!(members, vec!["a", "b", "caller-utils"]);
    assert_eq!(doc["workspace"]["package"]["version"].as_str(), Some("1.0.0"));
}

#[test]
fn updated_project_parses_with_dependency_added() {
    let base = "[package]\nname = \"p\"\nversion = \"0.1.0\"\n\n[dependencies]\nserde = \"1\"\n";
    let updated = add_dependency_to_manifest(base).unwrap().unwrap();
    let doc: toml::Table = updated.parse().unwrap();
    assert_eq!(doc["dependencies"]["serde"].as_str(), Some("1"));
    assert_eq!(doc["dependencies"]["caller-utils"]["path"].as_str(), Some("../caller-utils"));
    assert_eq!(doc["package"]["name"].as_str(), Some("p"));
}
