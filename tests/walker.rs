use ubuild::walker::{
    dir_readable, next_dir_up, parent_dir, read_permission, Access, AccessError, EntryKind,
    PermissionWalker, WalkError,
};

fn walk(start: &str, readable: &[bool]) -> (String, Vec<String>) {
    let mut w = PermissionWalker::new(start.to_string(), true).ok().expect("readable start");
    let mut asked = Vec::new();
    let mut answers = readable.iter();
    while let Some(dir) = w.next_probe() {
        asked.push(dir);
        let answer = *answers.next().expect("an answer for each probe");
        w.record_probe(answer);
    }
    (w.top(), asked)
}

#[test]
fn climbs_to_the_highest_readable_directory_below_root() {
    let (top, asked) = walk("/home/alice/src/proj", &[true, true, true]);
    assert_eq!(top, "/home");
    assert_eq!(asked, vec!["/home/alice/src", "/home/alice", "/home"]);
}

#[test]
fn stops_below_an_unreadable_parent() {
    let (top, asked) = walk("/home/alice/src/proj", &[true, false]);
    assert_eq!(top, "/home/alice/src");
    assert_eq!(asked, vec!["/home/alice/src", "/home/alice"]);
}

#[test]
fn root_and_top_level_starts_stay_put() {
    assert_eq!(walk("/", &[]).0, "/");
    assert_eq!(walk("/tmp", &[]).0, "/tmp");
}

#[test]
fn unreadable_start_is_an_error() {
    match PermissionWalker::new("/secret".to_string(), false) {
        Err(WalkError::PermissionDenied { path }) => assert_eq!(path, "/secret"),
        Ok(_) => panic!("an unreadable start was accepted"),
    }
}

#[test]
fn parents_of_canonical_paths() {
    assert_eq!(parent_dir("/a/b/c"), Some("/a/b".to_string()));
    assert_eq!(parent_dir("/a"), Some("/".to_string()));
    assert_eq!(parent_dir("/"), None);
    assert_eq!(next_dir_up("/a"), None);
    assert_eq!(next_dir_up("/a/b"), Some("/a".to_string()));
}

#[test]
fn readability_decisions() {
    assert_eq!(read_permission(Access::Denied, EntryKind::Dir, Access::Granted), Ok(false));
    assert_eq!(read_permission(Access::Failed, EntryKind::Dir, Access::Granted), Err(AccessError::Metadata));
    assert_eq!(read_permission(Access::Granted, EntryKind::Dir, Access::Granted), Ok(true));
    assert_eq!(read_permission(Access::Granted, EntryKind::File, Access::Denied), Ok(false));
    assert_eq!(read_permission(Access::Granted, EntryKind::File, Access::Failed), Err(AccessError::Open));
    assert_eq!(read_permission(Access::Granted, EntryKind::Other, Access::Granted), Ok(false));
    assert!(dir_readable(true, 0o755));
    assert!(dir_readable(true, 0o400));
    assert!(!dir_readable(true, 0o311));
    assert!(!dir_readable(false, 0o755));
}
