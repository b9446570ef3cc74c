use sunshine_core::icons::MaterialIcons;

#[test]
fn php_files_get_the_php_glyph() {
    assert_eq!(MaterialIcons::for_file("src/index.php", false), "\u{f031f}");
    assert_eq!(MaterialIcons::for_file("view.phtml", false), "\u{f031f}");
}

#[test]
fn xml_files_get_the_xml_glyph() {
    assert_eq!(MaterialIcons::for_file("config/services.xml", false), "\u{8b39}");
}

#[test]
fn other_files_get_the_plain_glyph() {
    for path in [
        "a.js", "a.tsx", "a.html", "a.scss", "a.tpl", "a.twig", "a.json", "a.yml", "a.toml",
        "composer.lock", "other.lock", "a.sql", "a.md", "a.png", ".gitignore", "Dockerfile",
        "docker-compose.yml", "composer.json", "package.json", "Cargo.toml", "noext", "",
    ] {
        assert_eq!(MaterialIcons::for_file(path, false), "");
    }
}

#[test]
fn folders_get_the_folder_glyph_whatever_their_name() {
    assert_eq!(MaterialIcons::for_file("weird.php", true), MaterialIcons::folder());
    assert_eq!(MaterialIcons::for_file("src", true), "");
}

#[test]
fn extension_is_matched_exactly() {
    assert_eq!(MaterialIcons::for_file("a.PHP", false), "");
    assert_eq!(MaterialIcons::for_file("php", false), "");
    assert_eq!(MaterialIcons::for_file(".php", false), "");
    assert_eq!(MaterialIcons::for_file("a.php.bak", false), "");
    assert_eq!(MaterialIcons::for_file("a.blade.php", false), "\u{f031f}");
}

#[test]
fn special_folders() {
    assert_eq!(MaterialIcons::folder_special("modules"), "\u{f03d7}");
    for name in ["src", "vendor", "node_modules", "tests", ".git", "views", "anything", ""] {
        assert_eq!(MaterialIcons::folder_special(name), "");
    }
    assert_eq!(MaterialIcons::folder_special("Modules"), MaterialIcons::folder());
}

#[test]
fn state_glyphs() {
    assert_eq!(MaterialIcons::git_added(), "\u{271a}");
    assert_eq!(MaterialIcons::git_modified(), "\u{25cf}");
    assert_eq!(MaterialIcons::git_deleted(), "\u{2716}");
    assert_eq!(MaterialIcons::prestashop(), "\u{f0431}");
    assert_eq!(MaterialIcons::folder(), "");
    assert_eq!(MaterialIcons::folder_open(), "");
    assert_eq!(MaterialIcons::git_branch(), "");
    assert_eq!(MaterialIcons::search(), "");
    assert_eq!(MaterialIcons::settings(), "");
    assert_eq!(MaterialIcons::terminal(), "");
    assert_eq!(MaterialIcons::close(), "");
    assert_eq!(MaterialIcons::save(), "");
    assert_eq!(MaterialIcons::error(), "");
    assert_eq!(MaterialIcons::warning(), "");
    assert_eq!(MaterialIcons::info(), "");
    assert_eq!(MaterialIcons::success(), "");
    assert_eq!(MaterialIcons::laravel(), "");
    assert_eq!(MaterialIcons::symfony(), "");
}

#[test]
fn parts_decide_the_glyph() {
    let php = Some("php".to_string());
    let name = Some("index.php".to_string());
    assert_eq!(MaterialIcons::for_parts(false, &php, &name, "src/index.php"), "\u{f031f}");
    assert_eq!(MaterialIcons::for_parts(true, &php, &name, "src/index.php"), "");
    assert_eq!(MaterialIcons::for_parts(false, &Some("xml".to_string()), &None, ""), "\u{8b39}");
    assert_eq!(MaterialIcons::for_parts(false, &None, &name, "src/index.php"), "");
    assert_eq!(
        MaterialIcons::for_parts(false, &Some("lock".to_string()), &Some("composer.lock".to_string()), "composer.lock"),
        ""
    );
}
