use dotfile_browser::entry::Entry;
use dotfile_browser::locator::{
    config_entries, dot_entries, locate, scan_plan, starts_with_dot, Found, LocateError,
    ScanPlan, Visit, Walk, CONFIG_SUFFIX,
};

fn found(path: &str, name: &str, depth: usize) -> Visit {
    Visit::Found(Found {
        path: path.to_string(),
        name: Some(name.to_string()),
        depth,
    })
}

fn paths(entries: &[Entry]) -> Vec<&str> {
    entries.iter().map(|entry| entry.path()).collect()
}

#[test]
fn an_entry_is_its_path() {
    let entry = Entry::new("/home/u/.bashrc".to_string());
    assert_eq!(entry.path(), "/home/u/.bashrc");
    assert_eq!(entry.label(), "/home/u/.bashrc");
    assert_eq!(entry, Entry::new("/home/u/.bashrc".to_string()));
}

#[test]
fn no_home_directory_is_an_error() {
    assert_eq!(scan_plan(None), Err(LocateError::HomeNotFound));
}

#[test]
fn the_scan_covers_the_home_children_and_the_config_tree() {
    let plan = scan_plan(Some("/home/u".to_string()));
    let expected = ScanPlan {
        home: Walk {
            root: "/home/u".to_string(),
            min_depth: 1,
            max_depth: Some(1),
        },
        config: Walk {
            root: "/home/u/.config".to_string(),
            min_depth: 1,
            max_depth: None,
        },
    };
    assert_eq!(plan, Ok(expected));
}

#[test]
fn the_config_directory_is_named_by_appending_to_the_home() {
    assert_eq!(CONFIG_SUFFIX, "/.config");
    let plan = scan_plan(Some(String::new())).unwrap();
    assert_eq!(plan.home.root, "");
    assert_eq!(plan.config.root, "/.config");
    let plan = scan_plan(Some("/root/".to_string())).unwrap();
    assert_eq!(plan.config.root, "/root//.config");
}

#[test]
fn dot_names_begin_with_a_dot() {
    assert!(starts_with_dot(".bashrc"));
    assert!(starts_with_dot("."));
    assert!(starts_with_dot(".."));
    assert!(starts_with_dot(".config"));
    assert!(!starts_with_dot(""));
    assert!(!starts_with_dot("notes.txt"));
    assert!(!starts_with_dot("a."));
    assert!(!starts_with_dot(" .hidden"));
    assert!(!starts_with_dot("\u{b7}profile"));
}

#[test]
fn locate_lists_dot_entries_then_config_contents() {
    let home = vec![
        found("/home/u/.bashrc", ".bashrc", 1),
        found("/home/u/notes.txt", "notes.txt", 1),
    ];
    let config = vec![
        found("/home/u/.config/app", "app", 1),
        found("/home/u/.config/app/config.toml", "config.toml", 2),
    ];
    let entries = locate(&home, &config);
    assert_eq!(
        paths(&entries),
        vec![
            "/home/u/.bashrc",
            "/home/u/.config/app",
            "/home/u/.config/app/config.toml",
        ]
    );
}

#[test]
fn the_config_directory_is_itself_a_dot_entry_of_the_home() {
    let home = vec![
        found("/home/u/.config", ".config", 1),
        found("/home/u/.bashrc", ".bashrc", 1),
        found("/home/u/notes.txt", "notes.txt", 1),
    ];
    let config = vec![
        found("/home/u/.config", ".config", 0),
        found("/home/u/.config/app", "app", 1),
    ];
    let entries = locate(&home, &config);
    assert_eq!(
        paths(&entries),
        vec!["/home/u/.config", "/home/u/.bashrc", "/home/u/.config/app"]
    );
}

#[test]
fn walk_order_is_kept_and_nothing_is_sorted() {
    let home = vec![
        found("/h/.z", ".z", 1),
        found("/h/.a", ".a", 1),
        found("/h/.m", ".m", 1),
    ];
    let config = vec![found("/h/.config/y", "y", 1), found("/h/.config/b", "b", 1)];
    let entries = locate(&home, &config);
    assert_eq!(
        paths(&entries),
        vec!["/h/.z", "/h/.a", "/h/.m", "/h/.config/y", "/h/.config/b"]
    );
}

#[test]
fn what_could_not_be_read_is_passed_over() {
    let home = vec![
        Visit::Unreadable,
        found("/h/.a", ".a", 1),
        Visit::Unreadable,
        Visit::Unreadable,
        found("/h/.b", ".b", 1),
    ];
    let config = vec![
        found("/h/.config/x", "x", 1),
        Visit::Unreadable,
        found("/h/.config/x/y", "y", 2),
    ];
    let entries = locate(&home, &config);
    assert_eq!(
        paths(&entries),
        vec!["/h/.a", "/h/.b", "/h/.config/x", "/h/.config/x/y"]
    );
}

#[test]
fn only_immediate_children_of_the_home_count() {
    let home = vec![
        found("/h", ".h", 0),
        found("/h/.a", ".a", 1),
        found("/h/.a/.b", ".b", 2),
        found("/h/c/.d", ".d", 2),
    ];
    assert_eq!(paths(&dot_entries(&home)), vec!["/h/.a"]);
}

#[test]
fn a_name_that_is_not_text_is_no_dot_name() {
    let home = vec![
        Visit::Found(Found {
            path: "/h/.\u{fffd}".to_string(),
            name: None,
            depth: 1,
        }),
        found("/h/.ok", ".ok", 1),
    ];
    assert_eq!(paths(&dot_entries(&home)), vec!["/h/.ok"]);
}

#[test]
fn the_name_decides_and_not_the_path() {
    let home = vec![
        found("/h/.hidden/plain", "plain", 1),
        found("/h/plain", ".dot", 1),
    ];
    assert_eq!(paths(&dot_entries(&home)), vec!["/h/plain"]);
}

#[test]
fn config_contents_are_taken_whatever_their_name() {
    let config = vec![
        found("/h/.config", ".config", 0),
        found("/h/.config/app", "app", 1),
        found("/h/.config/.secret", ".secret", 1),
        Visit::Found(Found {
            path: "/h/.config/\u{fffd}".to_string(),
            name: None,
            depth: 1,
        }),
        found("/h/.config/a/b/c/d", "d", 4),
    ];
    assert_eq!(
        paths(&config_entries(&config)),
        vec![
            "/h/.config/app",
            "/h/.config/.secret",
            "/h/.config/\u{fffd}",
            "/h/.config/a/b/c/d",
        ]
    );
}

#[test]
fn empty_walks_locate_nothing() {
    assert!(locate(&Vec::new(), &Vec::new()).is_empty());
    let home = vec![found("/h/notes.txt", "notes.txt", 1), Visit::Unreadable];
    assert!(locate(&home, &Vec::new()).is_empty());
}

#[test]
fn a_missing_config_directory_leaves_the_dot_entries() {
    let home = vec![found("/h/.profile", ".profile", 1)];
    let config = vec![Visit::Unreadable];
    assert_eq!(paths(&locate(&home, &config)), vec!["/h/.profile"]);
}
