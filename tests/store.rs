use brim::progress::{PackageProgress, ProgressState};
use brim::store::{EntryUpdate, ProgressStore};

fn set_state(store: &mut ProgressStore, i: usize, s: ProgressState) {
    store.update(i, EntryUpdate { state: Some(s), percent: None, message: None });
}

#[test]
fn new_entry_is_pending_and_empty() {
    let p = PackageProgress::new("jq".to_string());
    assert_eq!(p.name, "jq");
    assert_eq!(p.state, ProgressState::Pending);
    assert_eq!(p.progress, 0);
    assert_eq!(p.message, "");
}

#[test]
fn state_labels() {
    let mut p = PackageProgress::new("jq".to_string());
    let cases = [
        (ProgressState::Pending, "pending"),
        (ProgressState::Downloading, "downloading"),
        (ProgressState::Installing, "installing"),
        (ProgressState::Removing, "removing"),
        (ProgressState::Completed, "completed"),
        (ProgressState::Failed, "failed"),
    ];
    for (s, label) in cases {
        p.state = s;
        assert_eq!(p.state_label(), label);
    }
}

#[test]
fn store_starts_with_one_pending_entry_per_name() {
    let store = ProgressStore::new(vec!["a".to_string(), "b".to_string(), "c".to_string()]);
    assert_eq!(store.len(), 3);
    let snap = store.snapshot();
    let names: Vec<&str> = snap.iter().map(|e| e.name.as_str()).collect();
    assert_eq!(names, vec!["a", "b", "c"]);
    assert!(snap.iter().all(|e| e.state == ProgressState::Pending && e.progress == 0));
    assert!(!store.all_terminal());
}

#[test]
fn update_changes_only_given_fields() {
    let mut store = ProgressStore::new(vec!["a".to_string()]);
    store.update(0, EntryUpdate { state: Some(ProgressState::Downloading), percent: Some(20), message: Some("go".to_string()) });
    store.update(0, EntryUpdate { state: None, percent: Some(40), message: None });
    let e = store.get(0);
    assert_eq!(e.state, ProgressState::Downloading);
    assert_eq!(e.progress, 40);
    assert_eq!(e.message, "go");
}

#[test]
fn update_out_of_range_is_ignored() {
    let mut store = ProgressStore::new(vec!["a".to_string()]);
    store.update(5, EntryUpdate { state: Some(ProgressState::Failed), percent: Some(1), message: None });
    assert_eq!(store.len(), 1);
    assert_eq!(store.get(0).state, ProgressState::Pending);
}

#[test]
fn update_clamps_percent() {
    let mut store = ProgressStore::new(vec!["a".to_string()]);
    store.update(0, EntryUpdate { state: None, percent: Some(250), message: None });
    assert_eq!(store.get(0).progress, 100);
}

#[test]
fn transitions_follow_the_state_graph() {
    let mut store = ProgressStore::new(vec!["a".to_string(), "b".to_string()]);
    // Pending cannot jump to Completed
    set_state(&mut store, 0, ProgressState::Completed);
    assert_eq!(store.get(0).state, ProgressState::Pending);
    // Pending may fail directly
    set_state(&mut store, 1, ProgressState::Failed);
    assert_eq!(store.get(1).state, ProgressState::Failed);
    // active states do not chain
    set_state(&mut store, 0, ProgressState::Downloading);
    set_state(&mut store, 0, ProgressState::Installing);
    assert_eq!(store.get(0).state, ProgressState::Downloading);
    set_state(&mut store, 0, ProgressState::Completed);
    assert_eq!(store.get(0).state, ProgressState::Completed);
    // terminal entries never move again
    set_state(&mut store, 0, ProgressState::Failed);
    set_state(&mut store, 1, ProgressState::Installing);
    assert_eq!(store.get(0).state, ProgressState::Completed);
    assert_eq!(store.get(1).state, ProgressState::Failed);
    assert!(store.all_terminal());
}

#[test]
fn counts_entries_by_state() {
    let mut store = ProgressStore::new(vec!["a".to_string(), "b".to_string(), "c".to_string()]);
    set_state(&mut store, 0, ProgressState::Removing);
    set_state(&mut store, 0, ProgressState::Completed);
    set_state(&mut store, 1, ProgressState::Failed);
    assert_eq!(store.count_in_state(ProgressState::Completed), 1);
    assert_eq!(store.count_in_state(ProgressState::Failed), 1);
    assert_eq!(store.count_in_state(ProgressState::Pending), 1);
}

#[test]
fn empty_store_is_all_terminal() {
    let store = ProgressStore::new(Vec::new());
    assert_eq!(store.len(), 0);
    assert!(store.all_terminal());
}

#[test]
fn finished_entry_keeps_state_but_takes_other_fields() {
    let mut store = ProgressStore::new(vec!["a".to_string()]);
    set_state(&mut store, 0, ProgressState::Installing);
    store.update(0, EntryUpdate { state: Some(ProgressState::Completed), percent: Some(100), message: Some("Done".to_string()) });
    store.update(0, EntryUpdate { state: Some(ProgressState::Completed), percent: Some(40), message: Some("again".to_string()) });
    let e = store.get(0);
    assert_eq!(e.state, ProgressState::Completed);
    assert_eq!(e.progress, 40);
    assert_eq!(e.message, "again");
    store.update(0, EntryUpdate { state: Some(ProgressState::Installing), percent: Some(250), message: None });
    let e = store.get(0);
    assert_eq!(e.state, ProgressState::Completed);
    assert_eq!(e.progress, 100);
    assert_eq!(e.message, "again");
}
