use ghsync::errors::{PathRole, SyncError};
use ghsync::probe::{classify, RepoClassification};
use ghsync::store::{find_pair, remove, validate_new_pair, AddConfig, RemoveConfig};

fn pair(name: &str, source: &str, destination: &str, branch: &str) -> AddConfig {
    AddConfig {
        name: name.to_string(),
        source: source.to_string(),
        destination: destination.to_string(),
        branch: branch.to_string(),
    }
}

#[test]
fn classify_missing_path() {
    assert_eq!(classify(false, false, false), RepoClassification::PathNotFound);
    assert_eq!(classify(false, true, true), RepoClassification::PathNotFound);
}

#[test]
fn classify_non_directory() {
    assert_eq!(classify(true, false, false), RepoClassification::NotADirectory);
    assert_eq!(classify(true, false, true), RepoClassification::NotADirectory);
}

#[test]
fn classify_non_repo_and_valid() {
    assert_eq!(classify(true, true, false), RepoClassification::NotAVersionControlledTree);
    assert_eq!(classify(true, true, true), RepoClassification::Valid);
}

#[test]
fn add_appends_pair() {
    let mut configs = vec![pair("one", "/a", "/b", "main")];
    let two = pair("two", "/c", "/d", "main");
    ghsync::store::add(&mut configs, &two);
    assert_eq!(configs.len(), 2);
    assert_eq!(configs[1].name, "two");
    assert_eq!(configs[1].source, "/c");
    assert_eq!(configs[1].destination, "/d");
    assert_eq!(configs[1].branch, "main");
}

#[test]
fn remove_missing_name_fails_not_found() {
    let mut configs = vec![pair("one", "/a", "/b", "main")];
    let request = RemoveConfig { name: "absent".to_string() };
    let r = remove(&mut configs, &request.name);
    assert_eq!(r, Err(SyncError::NotFound { name: "absent".to_string() }));
    assert_eq!(configs.len(), 1);
    assert_eq!(configs[0].name, "one");
}

#[test]
fn remove_deletes_every_match_and_keeps_order() {
    let mut configs = vec![
        pair("one", "/a", "/b", "main"),
        pair("two", "/c", "/d", "main"),
        pair("one", "/e", "/f", "dev"),
        pair("three", "/g", "/h", "main"),
    ];
    let r = remove(&mut configs, "one");
    assert!(r.is_ok());
    assert_eq!(configs.len(), 2);
    assert_eq!(configs[0].name, "two");
    assert_eq!(configs[1].name, "three");
}

#[test]
fn find_pair_returns_first_match() {
    let configs = vec![
        pair("one", "/a", "/b", "main"),
        pair("two", "/c", "/d", "main"),
        pair("two", "/e", "/f", "dev"),
    ];
    assert_eq!(find_pair(&configs, "two"), Some(1));
    assert_eq!(find_pair(&configs, "one"), Some(0));
    assert_eq!(find_pair(&configs, "absent"), None);
}

#[test]
fn validate_rejects_taken_name_first() {
    let configs = vec![pair("demo", "/a", "/b", "main")];
    let candidate = pair("demo", "/x", "/y", "main");
    let r = validate_new_pair(
        &configs,
        &candidate,
        RepoClassification::PathNotFound,
        RepoClassification::Valid,
    );
    assert_eq!(r, Err(SyncError::NameTaken { name: "demo".to_string() }));
}

#[test]
fn validate_rejects_bad_source_then_bad_destination() {
    let configs = vec![pair("demo", "/a", "/b", "main")];
    let candidate = pair("fresh", "/x", "/y", "main");
    let r = validate_new_pair(
        &configs,
        &candidate,
        RepoClassification::NotADirectory,
        RepoClassification::PathNotFound,
    );
    assert_eq!(
        r,
        Err(SyncError::PathInvalid {
            role: PathRole::Source,
            classification: RepoClassification::NotADirectory,
        })
    );
    let r = validate_new_pair(
        &configs,
        &candidate,
        RepoClassification::Valid,
        RepoClassification::NotAVersionControlledTree,
    );
    assert_eq!(
        r,
        Err(SyncError::PathInvalid {
            role: PathRole::Destination,
            classification: RepoClassification::NotAVersionControlledTree,
        })
    );
}

#[test]
fn validate_accepts_fresh_name_and_valid_trees() {
    let configs = vec![pair("demo", "/a", "/b", "main")];
    let candidate = pair("fresh", "/x", "/y", "main");
    let r = validate_new_pair(
        &configs,
        &candidate,
        RepoClassification::Valid,
        RepoClassification::Valid,
    );
    assert!(r.is_ok());
}
