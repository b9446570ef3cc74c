use sunshine_core::filebrowser::{FileBrowser, FileEntry};

fn listing(items: &[(&str, bool)]) -> Vec<(String, bool)> {
    items.iter().map(|(p, d)| (p.to_string(), *d)).collect()
}

fn names(b: &FileBrowser) -> Vec<String> {
    b.get_visible_entries().iter().map(|e| e.name.clone()).collect()
}

fn root() -> FileBrowser {
    FileBrowser::new(
        "/p",
        true,
        listing(&[
            ("/p/zeta.php", false),
            ("/p/src", true),
            ("/p/Alpha.php", false),
            ("/p/beta.php", false),
            ("/p/Docs", true),
        ]),
    )
}

#[test]
fn new_entry_takes_its_name_from_the_path() {
    let e = FileEntry::new("/a/b/c.txt".to_string(), false, 3);
    assert_eq!(e.path, "/a/b/c.txt");
    assert_eq!(e.name, "c.txt");
    assert!(!e.is_dir);
    assert!(!e.is_expanded);
    assert_eq!(e.depth, 3);
    assert!(e.children.is_empty());
    let e = FileEntry::new("/".to_string(), true, 0);
    assert_eq!(e.name, "");
}

#[test]
fn children_are_sorted_folders_first_then_by_name_without_case() {
    let b = root();
    assert_eq!(names(&b), vec!["p", "Docs", "src", "Alpha.php", "beta.php", "zeta.php"]);
    let rows = b.get_visible_entries();
    assert_eq!(rows[0].depth, 0);
    assert!(rows[0].is_expanded);
    for row in &rows[1..] {
        assert_eq!(row.depth, 1);
        assert!(!row.is_expanded);
    }
}

#[test]
fn entries_with_equal_keys_keep_their_order() {
    let mut e = FileEntry::new("/p".to_string(), true, 0);
    e.load_children(listing(&[("/p/x/A.txt", false), ("/p/y/a.txt", false), ("/p/z/A.TXT", false)]));
    let paths: Vec<&str> = e.children.iter().map(|c| c.path.as_str()).collect();
    assert_eq!(paths, vec!["/p/x/A.txt", "/p/y/a.txt", "/p/z/A.TXT"]);
    let mut e = FileEntry::new("/p".to_string(), true, 0);
    e.load_children(listing(&[("/p/z/A.TXT", false), ("/p/b", false), ("/p/x/A.txt", false)]));
    let paths: Vec<&str> = e.children.iter().map(|c| c.path.as_str()).collect();
    assert_eq!(paths, vec!["/p/z/A.TXT", "/p/x/A.txt", "/p/b"]);
}

#[test]
fn load_children_leaves_files_and_open_folders() {
    let mut f = FileEntry::new("/p/a.txt".to_string(), false, 1);
    f.load_children(listing(&[("/p/a.txt/x", false)]));
    assert!(!f.is_expanded);
    assert!(f.children.is_empty());
    let mut d = FileEntry::new("/p".to_string(), true, 0);
    d.load_children(listing(&[("/p/a", false)]));
    d.load_children(listing(&[("/p/b", false), ("/p/c", false)]));
    assert_eq!(d.children.len(), 1);
    assert_eq!(d.children[0].name, "a");
}

#[test]
fn toggle_opens_and_closes() {
    let mut d = FileEntry::new("/p".to_string(), true, 0);
    d.toggle(listing(&[("/p/a", false)]));
    assert!(d.is_expanded);
    assert_eq!(d.flatten().len(), 2);
    d.toggle(listing(&[("/p/never", false)]));
    assert!(!d.is_expanded);
    assert!(d.children.is_empty());
    assert_eq!(d.flatten().len(), 1);
    let mut f = FileEntry::new("/p/a".to_string(), false, 0);
    f.toggle(listing(&[("/p/a/x", false)]));
    assert!(!f.is_expanded);
}

#[test]
fn empty_listing_opens_an_empty_folder() {
    let mut d = FileEntry::new("/p".to_string(), true, 0);
    d.toggle(Vec::new());
    assert!(d.is_expanded);
    assert!(d.children.is_empty());
}

#[test]
fn selection_moves_within_the_rows() {
    let mut b = root();
    assert_eq!(b.selected_index(), 0);
    b.move_up();
    assert_eq!(b.selected_index(), 0);
    for _ in 0..10 {
        b.move_down();
    }
    assert_eq!(b.selected_index(), 5);
    assert_eq!(b.selected_entry().unwrap().name, "zeta.php");
    b.move_up();
    assert_eq!(b.selected_entry().unwrap().name, "beta.php");
}

#[test]
fn toggle_selected_opens_the_selected_folder() {
    let mut b = root();
    b.move_down();
    b.move_down();
    assert_eq!(b.selected_entry().unwrap().name, "src");
    b.toggle_selected(listing(&[("/p/src/main.php", false), ("/p/src/lib", true)]));
    assert_eq!(
        names(&b),
        vec!["p", "Docs", "src", "lib", "main.php", "Alpha.php", "beta.php", "zeta.php"]
    );
    assert_eq!(b.get_visible_entries()[3].depth, 2);
    assert_eq!(b.selected_index(), 2);
    b.toggle_selected(Vec::new());
    assert_eq!(names(&b), vec!["p", "Docs", "src", "Alpha.php", "beta.php", "zeta.php"]);
}

#[test]
fn toggle_selected_on_a_file_changes_nothing() {
    let mut b = root();
    for _ in 0..3 {
        b.move_down();
    }
    assert_eq!(b.selected_entry().unwrap().name, "Alpha.php");
    b.toggle_selected(listing(&[("/p/Alpha.php/x", false)]));
    assert_eq!(names(&b).len(), 6);
}

#[test]
fn closing_the_root_leaves_the_selection_where_it_was() {
    let mut b = root();
    for _ in 0..4 {
        b.move_down();
    }
    b.move_up();
    b.move_up();
    b.move_up();
    b.move_up();
    b.toggle_selected(Vec::new());
    assert_eq!(names(&b), vec!["p"]);
    let mut b = root();
    for _ in 0..4 {
        b.move_down();
    }
    assert_eq!(b.selected_index(), 4);
}

#[test]
fn scroll_follows_the_selection_and_stays_inside() {
    let mut b = root();
    b.update_scroll(3);
    assert_eq!(b.scroll_offset(), 0);
    for _ in 0..4 {
        b.move_down();
    }
    b.update_scroll(3);
    assert_eq!(b.scroll_offset(), 2);
    b.move_down();
    b.update_scroll(3);
    assert_eq!(b.scroll_offset(), 3);
    b.update_scroll(10);
    assert_eq!(b.scroll_offset(), 0);
    for _ in 0..4 {
        b.move_up();
    }
    b.update_scroll(2);
    assert_eq!(b.scroll_offset(), 0);
    b.move_down();
    b.move_down();
    b.update_scroll(2);
    assert_eq!(b.scroll_offset(), 2);
    b.update_scroll(6);
    assert_eq!(b.scroll_offset(), 0);
}

#[test]
fn scroll_with_no_rows_goes_past_the_selection() {
    let mut b = root();
    b.move_down();
    b.update_scroll(0);
    assert_eq!(b.scroll_offset(), 2);
}

#[test]
fn search_finds_names_without_case() {
    let mut b = root();
    b.move_down();
    b.move_down();
    b.toggle_selected(listing(&[("/p/src/Main.php", false), ("/p/src/lib", true)]));
    assert_eq!(b.search_files("PHP"), vec!["/p/src/Main.php", "/p/Alpha.php", "/p/beta.php", "/p/zeta.php"]);
    assert_eq!(b.search_files("a"), vec!["/p/src/Main.php", "/p/Alpha.php", "/p/beta.php", "/p/zeta.php"]);
    assert_eq!(b.search_files("src"), vec!["/p/src"]);
    assert_eq!(b.search_files("nothing"), Vec::<String>::new());
    assert_eq!(b.search_files("").len(), 8);
}

#[test]
fn a_file_as_root_shows_one_row() {
    let b = FileBrowser::new("/p/a.txt", false, listing(&[("/x", false)]));
    assert_eq!(names(&b), vec!["a.txt"]);
    assert!(!b.get_visible_entries()[0].is_expanded);
}
