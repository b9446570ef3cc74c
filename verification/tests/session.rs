use sunshine_core::filebrowser::FileBrowser;
use sunshine_core::keys::{AppMode, Command, Key, KeyPress};
use sunshine_core::project::FrameworkType;
use sunshine_core::session::{name_of_framework, Action, Session, WriteReport};
use sunshine_core::theme::MaterialTheme;

fn press(s: &mut Session, key: Key) -> Action {
    s.handle_key(KeyPress { key, ctrl: false })
}

fn ctrl(s: &mut Session, c: char) -> Action {
    s.handle_key(KeyPress { key: Key::Char(c), ctrl: true })
}

fn type_text(s: &mut Session, text: &str) {
    for c in text.chars() {
        assert!(matches!(press(s, Key::Char(c)), Action::Idle));
    }
}

fn run(s: &mut Session, line: &str) -> Action {
    assert!(matches!(press(s, Key::Char(':')), Action::Idle));
    type_text(s, line);
    press(s, Key::Enter)
}

fn tree() -> FileBrowser {
    FileBrowser::new(
        "/p",
        true,
        vec![("/p/b.php".to_string(), false), ("/p/src".to_string(), true)],
    )
}

fn active_text(s: &Session) -> String {
    s.tabs().tabs()[s.tabs().active_index()].buffer.text()
}

fn cursor(s: &Session) -> (usize, usize) {
    let c = s.tabs().tabs()[s.tabs().active_index()].buffer.cursor();
    (c.line, c.column)
}

#[test]
fn a_new_session_greets() {
    let s = Session::new(None, Some(FrameworkType::Laravel));
    assert_eq!(s.status_message(), "PHP Sunshine IDE - Laravel Project Ready");
    assert_eq!(s.mode(), AppMode::Normal);
    assert_eq!(s.theme(), MaterialTheme::Ocean);
    assert!(!s.should_quit());
    assert!(s.show_file_browser());
    assert!(s.file_browser().is_none());
    assert_eq!(s.command_input(), "");
    assert_eq!(s.tabs().tabs().len(), 1);
    assert!(s.has_room());
    assert!(s.can_toggle());
    let s = Session::new(None, None);
    assert_eq!(s.status_message(), "PHP Sunshine IDE - PHP Project Ready");
}

#[test]
fn framework_names() {
    assert_eq!(name_of_framework(Some(FrameworkType::PrestaShop)), "PrestaShop");
    assert_eq!(name_of_framework(Some(FrameworkType::Laravel)), "Laravel");
    assert_eq!(name_of_framework(Some(FrameworkType::Symfony)), "Symfony");
    assert_eq!(name_of_framework(Some(FrameworkType::Generic)), "PHP");
    assert_eq!(name_of_framework(None), "PHP");
}

#[test]
fn q_quits_in_normal_mode_only() {
    let mut s = Session::new(None, None);
    press(&mut s, Key::Char('i'));
    assert_eq!(s.mode(), AppMode::Insert);
    assert_eq!(s.status_message(), "-- INSERT --");
    press(&mut s, Key::Char('q'));
    assert!(!s.should_quit());
    assert_eq!(active_text(&s), "q");
    press(&mut s, Key::Esc);
    assert_eq!(s.mode(), AppMode::Normal);
    assert_eq!(s.status_message(), "Normal mode");
    press(&mut s, Key::Char('q'));
    assert!(s.should_quit());
}

#[test]
fn control_c_quits() {
    let mut s = Session::new(None, None);
    press(&mut s, Key::Char('c'));
    assert!(!s.should_quit());
    ctrl(&mut s, 'c');
    assert!(s.should_quit());
}

#[test]
fn typing_and_editing_in_insert_mode() {
    let mut s = Session::new(None, None);
    press(&mut s, Key::Char('i'));
    press(&mut s, Key::Enter);
    assert_eq!(active_text(&s), "\n");
    assert_eq!(cursor(&s), (0, 1));
    press(&mut s, Key::Down);
    assert_eq!(cursor(&s), (1, 0));
    type_text(&mut s, "a");
    assert_eq!(active_text(&s), "\na");
    press(&mut s, Key::Left);
    press(&mut s, Key::Delete);
    assert_eq!(active_text(&s), "\n");
    press(&mut s, Key::Backspace);
    assert_eq!(active_text(&s), "");
    assert_eq!(cursor(&s), (0, 0));
    press(&mut s, Key::Up);
    press(&mut s, Key::Right);
    assert_eq!(cursor(&s), (0, 0));
}

#[test]
fn arrows_move_in_the_tree_while_it_is_shown() {
    let mut s = Session::new(Some(tree()), None);
    press(&mut s, Key::Down);
    press(&mut s, Key::Char('j'));
    press(&mut s, Key::Down);
    assert_eq!(s.file_browser().unwrap().selected_index(), 2);
    press(&mut s, Key::Char('k'));
    assert_eq!(s.file_browser().unwrap().selected_index(), 1);
    ctrl(&mut s, 'e');
    assert!(!s.show_file_browser());
    press(&mut s, Key::Up);
    assert_eq!(s.file_browser().unwrap().selected_index(), 1);
}

#[test]
fn arrows_are_lost_on_a_shown_but_missing_tree() {
    let mut s = Session::new(None, None);
    s.tabs();
    press(&mut s, Key::Char('i'));
    type_text(&mut s, "\n");
    press(&mut s, Key::Esc);
    press(&mut s, Key::Down);
    assert_eq!(cursor(&s), (0, 1));
    ctrl(&mut s, 'e');
    press(&mut s, Key::Down);
    assert_eq!(cursor(&s), (1, 0));
}

#[test]
fn tabs_by_key() {
    let mut s = Session::new(None, None);
    ctrl(&mut s, 't');
    assert_eq!(s.status_message(), "New tab created");
    ctrl(&mut s, 't');
    assert_eq!(s.tabs().tabs().len(), 3);
    assert_eq!(s.tabs().active_index(), 2);
    s.handle_key(KeyPress { key: Key::Tab, ctrl: true });
    assert_eq!(s.tabs().active_index(), 0);
    s.handle_key(KeyPress { key: Key::Tab, ctrl: false });
    assert_eq!(s.tabs().active_index(), 0);
    press(&mut s, Key::BackTab);
    assert_eq!(s.tabs().active_index(), 2);
    ctrl(&mut s, 'w');
    assert_eq!(s.tabs().tabs().len(), 2);
    assert_eq!(s.tabs().active_index(), 1);
}

#[test]
fn saving_an_unnamed_document_reports_success() {
    let mut s = Session::new(None, None);
    assert!(matches!(ctrl(&mut s, 's'), Action::Idle));
    assert_eq!(s.status_message(), "File saved");
    assert!(matches!(run(&mut s, "w"), Action::Idle));
    assert_eq!(s.status_message(), "Saved");
    assert!(matches!(run(&mut s, "wq"), Action::Idle));
    assert_eq!(s.status_message(), "Saved");
    assert!(s.should_quit());
}

#[test]
fn saving_a_named_document_hands_out_the_write() {
    let mut s = Session::new(None, None);
    s.file_read("/p/a.php", "a.php", Ok("x"));
    assert_eq!(s.status_message(), "Opened: a.php");
    assert!(!s.show_file_browser());
    press(&mut s, Key::Char('i'));
    type_text(&mut s, "y");
    press(&mut s, Key::Esc);
    match ctrl(&mut s, 's') {
        Action::Write { place, write, report } => {
            assert_eq!(place, 1);
            assert_eq!(write.path, "/p/a.php");
            assert_eq!(write.content, "yx");
            assert_eq!(report, WriteReport::KeySave);
            assert_eq!(s.status_message(), "Normal mode");
            s.write_finished(place, &write.path, report, Some("disk full"));
            assert_eq!(s.status_message(), "Error saving: disk full");
            assert!(s.tabs().has_modified());
            s.write_finished(place, &write.path, report, None);
            assert_eq!(s.status_message(), "File saved");
            assert!(!s.tabs().has_modified());
        }
        _ => panic!("no write"),
    }
    press(&mut s, Key::Char('i'));
    type_text(&mut s, "z");
    press(&mut s, Key::Esc);
    match run(&mut s, "write") {
        Action::Write { place, write, report } => {
            assert_eq!(report, WriteReport::CommandSave);
            s.write_finished(place, &write.path, report, Some("denied"));
            assert_eq!(s.status_message(), "Error: denied");
            s.write_finished(place, &write.path, report, None);
            assert_eq!(s.status_message(), "Saved");
        }
        _ => panic!("no write"),
    }
    press(&mut s, Key::Char('i'));
    type_text(&mut s, "!");
    press(&mut s, Key::Esc);
    match run(&mut s, "wq") {
        Action::Write { place, write, report } => {
            assert_eq!(report, WriteReport::Silent);
            assert!(s.should_quit());
            s.write_finished(place, &write.path, report, Some("denied"));
            assert_eq!(s.status_message(), "Normal mode");
        }
        _ => panic!("no write"),
    }
}

#[test]
fn command_line_editing() {
    let mut s = Session::new(None, None);
    press(&mut s, Key::Char(':'));
    assert_eq!(s.mode(), AppMode::Command);
    type_text(&mut s, "qx");
    assert_eq!(s.command_input(), "qx");
    press(&mut s, Key::Backspace);
    assert_eq!(s.command_input(), "q");
    press(&mut s, Key::Backspace);
    press(&mut s, Key::Backspace);
    assert_eq!(s.command_input(), "");
    type_text(&mut s, "quit");
    press(&mut s, Key::Esc);
    assert_eq!(s.mode(), AppMode::Normal);
    assert_eq!(s.command_input(), "");
    assert!(!s.should_quit());
    press(&mut s, Key::Char(':'));
    type_text(&mut s, "  quit  now ");
    press(&mut s, Key::Enter);
    assert!(s.should_quit());
    assert_eq!(s.mode(), AppMode::Normal);
    assert_eq!(s.command_input(), "");
}

#[test]
fn empty_and_unknown_commands() {
    let mut s = Session::new(None, None);
    let before = s.status_message().to_string();
    assert!(matches!(run(&mut s, "   "), Action::Idle));
    assert_eq!(s.status_message(), before);
    assert!(matches!(run(&mut s, "frobnicate now"), Action::Idle));
    assert_eq!(s.status_message(), "Unknown command: frobnicate");
    assert!(matches!(run(&mut s, "Q"), Action::Idle));
    assert_eq!(s.status_message(), "Unknown command: Q");
    assert!(!s.should_quit());
}

#[test]
fn theme_command() {
    let mut s = Session::new(None, None);
    assert!(matches!(run(&mut s, "theme"), Action::Idle));
    assert_eq!(
        s.status_message(),
        "Available: ocean, palenight, darker, lighter, deepocean"
    );
    match run(&mut s, "theme PaleNight") {
        Action::ThemeChanged { theme } => assert_eq!(theme, MaterialTheme::Palenight),
        _ => panic!("no theme"),
    }
    assert_eq!(s.theme(), MaterialTheme::Palenight);
    match run(&mut s, "theme deep") {
        Action::ThemeChanged { theme } => assert_eq!(theme, MaterialTheme::DeepOcean),
        _ => panic!("no theme"),
    }
    assert!(matches!(run(&mut s, "theme solarized"), Action::Idle));
    assert_eq!(s.status_message(), "Invalid theme name");
    assert_eq!(s.theme(), MaterialTheme::DeepOcean);
    s.set_status("Theme changed to: x");
    assert_eq!(s.status_message(), "Theme changed to: x");
}

#[test]
fn run_words_takes_the_words_as_given() {
    let mut s = Session::new(None, None);
    assert!(matches!(s.run_words(&vec![]), Action::Idle));
    assert!(matches!(
        s.run_words(&vec!["theme".to_string(), "LIGHTER".to_string(), "x".to_string()]),
        Action::ThemeChanged { theme: MaterialTheme::Lighter }
    ));
    assert!(matches!(s.run_words(&vec!["quit".to_string()]), Action::Idle));
    assert!(s.should_quit());
}

#[test]
fn enter_on_a_folder_asks_for_its_listing() {
    let mut s = Session::new(Some(tree()), None);
    press(&mut s, Key::Down);
    match press(&mut s, Key::Enter) {
        Action::ListFolder { path } => {
            assert_eq!(path, "/p/src");
            s.folder_listed(vec![("/p/src/x.php".to_string(), false)]);
        }
        _ => panic!("no listing asked for"),
    }
    let rows: Vec<String> =
        s.file_browser().unwrap().get_visible_entries().iter().map(|e| e.name.clone()).collect();
    assert_eq!(rows, vec!["p", "src", "x.php", "b.php"]);
    assert!(s.show_file_browser());
}

#[test]
fn enter_on_a_file_asks_for_its_text_once() {
    let mut s = Session::new(Some(tree()), None);
    press(&mut s, Key::Down);
    press(&mut s, Key::Down);
    match press(&mut s, Key::Enter) {
        Action::ReadFile { path, name } => {
            assert_eq!(path, "/p/b.php");
            assert_eq!(name, "b.php");
            s.file_read(&path, &name, Err("gone"));
            assert_eq!(s.status_message(), "Error opening file: gone");
            assert!(s.show_file_browser());
            assert_eq!(s.tabs().tabs().len(), 1);
            s.file_read(&path, &name, Ok("<?php"));
        }
        _ => panic!("no read asked for"),
    }
    assert_eq!(s.status_message(), "Opened: b.php");
    assert!(!s.show_file_browser());
    assert_eq!(active_text(&s), "<?php");
    ctrl(&mut s, 't');
    assert_eq!(s.tabs().active_index(), 2);
    assert!(matches!(press(&mut s, Key::Enter), Action::Idle));
    assert_eq!(s.tabs().active_index(), 2);
    ctrl(&mut s, 'e');
    s.set_status("");
    assert!(matches!(press(&mut s, Key::Enter), Action::Idle));
    assert_eq!(s.tabs().tabs().len(), 3);
    assert_eq!(s.tabs().active_index(), 1);
    assert_eq!(s.status_message(), "Opened: b.php");
    assert!(!s.show_file_browser());
}

#[test]
fn enter_without_a_tree_does_nothing() {
    let mut s = Session::new(None, None);
    assert!(matches!(press(&mut s, Key::Enter), Action::Idle));
    assert!(matches!(s.apply(Command::Activate), Action::Idle));
    s.folder_listed(vec![("/x".to_string(), true)]);
    assert!(s.file_browser().is_none());
}

#[test]
fn scrolling_goes_to_the_active_document_and_the_tree() {
    let mut s = Session::new(Some(tree()), None);
    s.file_read("/p/long", "long", Ok("0\n1\n2\n3\n4\n5"));
    for _ in 0..4 {
        press(&mut s, Key::Down);
    }
    s.scroll_editor(2);
    assert_eq!(s.tabs().tabs()[1].buffer.scroll_offset(), 3);
    ctrl(&mut s, 'e');
    press(&mut s, Key::Down);
    press(&mut s, Key::Down);
    s.scroll_browser(1);
    assert_eq!(s.file_browser().unwrap().scroll_offset(), 2);
}
