use wallcycle::file_list::check_black_list;

#[test]
fn short_entries_never_match() {
    let names = ["a", "ab", "abc", "some/long/path/img.jpg", ""];
    let black_list = vec!["a".to_string(), "ab".to_string(), "".to_string()];
    for name in names {
        assert!(check_black_list(&name.to_string(), &black_list));
    }
}

#[test]
fn empty_blacklist_allows_everything() {
    let black_list: Vec<String> = vec![];
    assert!(check_black_list(&"anything/at/all.png".to_string(), &black_list));
}

#[test]
fn long_entry_blocks_containing_name() {
    let black_list = vec!["bad".to_string()];
    assert!(!check_black_list(&"my/bad/dir".to_string(), &black_list));
    assert!(!check_black_list(&"bad".to_string(), &black_list));
    assert!(check_black_list(&"my/good/dir".to_string(), &black_list));
}

#[test]
fn three_character_entry_is_used() {
    let black_list = vec!["nsf".to_string()];
    assert!(!check_black_list(&"x/nsfw/y".to_string(), &black_list));
    assert!(check_black_list(&"x/nsx/y".to_string(), &black_list));
}

#[test]
fn match_must_be_contiguous() {
    let black_list = vec!["axc".to_string()];
    assert!(check_black_list(&"abc".to_string(), &black_list));
    assert!(check_black_list(&"ax_c".to_string(), &black_list));
    assert!(!check_black_list(&"zaxcz".to_string(), &black_list));
}

#[test]
fn mixed_lengths_only_long_entries_count() {
    let black_list = vec!["ab".to_string(), "hidden".to_string(), "x".to_string()];
    assert!(check_black_list(&"ab/x/ok.jpg".to_string(), &black_list));
    assert!(!check_black_list(&"ab/hidden/ok.jpg".to_string(), &black_list));
}
