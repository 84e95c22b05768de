use wallcycle::file_list::{get_file_list, get_rand_image, pick_random, FsEntry};
use wallcycle::text::path_in_subtree;

fn entry(path: &str, is_dir: bool, depth: u32) -> FsEntry {
    FsEntry { path: path.to_string(), is_dir, depth }
}

fn no_blacklist() -> Vec<String> {
    vec![]
}

#[test]
fn zero_matching_extensions_is_an_error() {
    let entries = vec![
        entry("/r", true, 0),
        entry("/r/c.txt", false, 1),
        entry("/r/notes.md", false, 1),
    ];
    let r = get_file_list(&entries, 3, false, &no_blacklist());
    match r {
        Ok(_) => panic!("a tree without images must not yield a pool"),
        Err(e) => assert_eq!(e.message(), "File list is empty"),
    }
}

#[test]
fn finds_exactly_the_image_files() {
    let entries = vec![
        entry("/r", true, 0),
        entry("/r/a.jpg", false, 1),
        entry("/r/b.png", false, 1),
        entry("/r/c.txt", false, 1),
    ];
    let files = get_file_list(&entries, 3, false, &no_blacklist()).unwrap();
    assert_eq!(files, vec!["/r/a.jpg".to_string(), "/r/b.png".to_string()]);
}

#[test]
fn blacklisted_folder_is_pruned_when_enabled() {
    let entries = vec![
        entry("/r", true, 0),
        entry("/r/secret", true, 1),
        entry("/r/secret/x.jpg", false, 2),
        entry("/r/a.jpg", false, 1),
    ];
    let black_list = vec!["secret".to_string()];
    let files = get_file_list(&entries, 3, true, &black_list).unwrap();
    assert_eq!(files, vec!["/r/a.jpg".to_string()]);

    let all = get_file_list(&entries, 3, false, &black_list).unwrap();
    assert_eq!(all.len(), 2);
}

#[test]
fn blacklist_entry_too_short_prunes_nothing() {
    let entries = vec![
        entry("/r", true, 0),
        entry("/r/xy", true, 1),
        entry("/r/xy/a.jpg", false, 2),
    ];
    let black_list = vec!["xy".to_string()];
    let files = get_file_list(&entries, 3, true, &black_list).unwrap();
    assert_eq!(files, vec!["/r/xy/a.jpg".to_string()]);
}

#[test]
fn files_beyond_max_depth_are_ignored() {
    let entries = vec![
        entry("/r", true, 0),
        entry("/r/a/b/c", true, 3),
        entry("/r/a/b/c/deep.jpg", false, 4),
        entry("/r/top.jpg", false, 1),
    ];
    let files = get_file_list(&entries, 3, false, &no_blacklist()).unwrap();
    assert_eq!(files, vec!["/r/top.jpg".to_string()]);
}

#[test]
fn extension_match_is_exact_and_case_sensitive() {
    let entries = vec![
        entry("/r", true, 0),
        entry("/r/upper.JPG", false, 1),
        entry("/r/longer.jpeg", false, 1),
        entry("/r/.jpg", false, 1),
        entry("/r/noext", false, 1),
        entry("/r/fine.png", false, 1),
    ];
    let files = get_file_list(&entries, 3, false, &no_blacklist()).unwrap();
    assert_eq!(files, vec!["/r/fine.png".to_string()]);
}

#[test]
fn subtree_needs_a_separator() {
    assert!(path_in_subtree("/r/secret/a.jpg", "/r/secret"));
    assert!(path_in_subtree("/r/secret", "/r/secret"));
    assert!(!path_in_subtree("/r/secrets-pub/a.jpg", "/r/secret"));
    assert!(!path_in_subtree("/r", "/r/secret"));
}

#[test]
fn empty_pool_yields_empty_path() {
    let list: Vec<String> = vec![];
    assert_eq!(get_rand_image(&list), "".to_string());
}

#[test]
fn singleton_pool_is_always_chosen() {
    let list = vec!["/r/only.jpg".to_string()];
    assert_eq!(get_rand_image(&list), "/r/only.jpg".to_string());
}

#[test]
fn random_pick_returns_a_member() {
    let list = vec!["a.jpg".to_string(), "b.jpg".to_string(), "c.png".to_string()];
    for _ in 0..32 {
        let picked = get_rand_image(&list);
        assert!(list.contains(&picked));
    }
}

#[test]
fn pick_random_singleton_is_deterministic() {
    let list = vec!["https://example.test/one".to_string()];
    assert_eq!(pick_random(&list), "https://example.test/one".to_string());
}

#[test]
fn pick_random_returns_a_member() {
    let list = vec!["u1".to_string(), "u2".to_string(), "u3".to_string(), "u4".to_string()];
    for _ in 0..32 {
        assert!(list.contains(&pick_random(&list)));
    }
}
