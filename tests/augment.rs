use wasmcloud_provider_macros::augment::augment_derives;

fn groups(gs: &[&[&str]]) -> Vec<Vec<String>> {
    gs.iter().map(|g| g.iter().map(|e| e.to_string()).collect()).collect()
}

#[test]
fn appends_both_capabilities() {
    let r = augment_derives(groups(&[&["Debug", "Clone"]]));
    assert_eq!(r, groups(&[&["Debug", "Clone", "serde::Serialize", "serde::Deserialize"]]));
}

#[test]
fn no_derive_group_is_left_alone() {
    assert_eq!(augment_derives(Vec::new()), Vec::<Vec<String>>::new());
}

#[test]
fn augmenting_twice_adds_nothing_more() {
    let once = augment_derives(groups(&[&["Debug"]]));
    let twice = augment_derives(once.clone());
    assert_eq!(once, twice);
}

#[test]
fn present_capability_is_not_repeated() {
    let r = augment_derives(groups(&[&["Debug", "::serde::Serialize"], &["Clone"]]));
    assert_eq!(
        r,
        groups(&[&["Debug", "::serde::Serialize", "serde::Deserialize"], &["Clone"]])
    );
}
