//! The glyphs shown beside files, folders and states.

use vstd::prelude::*;
use crate::paths::{extension_of, file_name_of, path_extension};
use crate::strs::{str_contains, str_eq};

verus! {

/// The glyph for a file with extension `ext`, or for a folder.
pub open spec fn file_icon(is_dir: bool, ext: Option<Seq<char>>) -> Seq<char> {
    if is_dir {
        ""@
    } else if ext == Some("php"@) || ext == Some("phtml"@) {
        "\u{f031f}"@
    } else if ext == Some("xml"@) {
        "\u{8b39}"@
    } else {
        ""@
    }
}

/// The glyph for a folder named `name`.
pub open spec fn folder_icon(name: Seq<char>) -> Seq<char> {
    if name == "modules"@ {
        "\u{f03d7}"@
    } else {
        ""@
    }
}

/// Whether `name` holds a file name equal to `wanted`.
fn is_named(name: &Option<String>, wanted: &str) -> (same: bool)
    ensures
        same == (name matches Some(n) && n@ == wanted@),
{
    match name {
        Some(n) => str_eq(n.as_str(), wanted),
        None => false,
    }
}

/// The icon set.
pub struct MaterialIcons;

impl MaterialIcons {
    /// The glyph for the file at `path`, chosen by its extension and
    /// name; `is_dir` says whether the path is a folder.
    pub fn for_file(path: &str, is_dir: bool) -> (icon: &'static str)
        ensures
            icon@ == file_icon(is_dir, path_extension(path@)),
    {
        let ext = extension_of(path);
        let name = file_name_of(path);
        Self::for_parts(is_dir, &ext, &name, path)
    }

    /// The glyph for the file at `path`, whose extension is `ext` and
    /// whose name is `name`; `is_dir` says whether the path is a folder.
    /// The extension decides; the name and the path choose among files
    /// whose glyph is the plain one.
    pub fn for_parts(
        is_dir: bool,
        ext: &Option<String>,
        name: &Option<String>,
        path: &str,
    ) -> (icon: &'static str)
        ensures
            icon@ == file_icon(
                is_dir,
                match *ext {
                    Some(e) => Some(e@),
                    None => None,
                },
            ),
    {
        if is_dir {
            return Self::folder();
        }
        match ext {
            Some(e) => {
                let e = e.as_str();
                if str_eq(e, "php") || str_eq(e, "phtml") {
                    return "\u{f031f}";
                }
                if str_eq(e, "xml") {
                    return "\u{8b39}";
                }
                if str_eq(e, "js") || str_eq(e, "jsx") || str_eq(e, "ts") || str_eq(e, "tsx")
                    || str_eq(e, "mjs") {
                    return "";
                }
                if str_eq(e, "html") || str_eq(e, "htm") || str_eq(e, "css") || str_eq(e, "scss")
                    || str_eq(e, "sass") || str_eq(e, "less") {
                    return "";
                }
                if str_eq(e, "tpl") || str_eq(e, "blade.php") || str_eq(e, "twig") {
                    return "";
                }
                if str_eq(e, "json") || str_eq(e, "yaml") || str_eq(e, "yml") || str_eq(e, "toml")
                    || str_eq(e, "ini") || str_eq(e, "env") {
                    return "";
                }
                if str_eq(e, "lock") && is_named(name, "composer.lock") {
                    return "";
                }
                if str_eq(e, "sql") || str_eq(e, "db") || str_eq(e, "sqlite") {
                    return "";
                }
                if str_eq(e, "md") || str_eq(e, "txt") || str_eq(e, "pdf") {
                    return "";
                }
                if str_eq(e, "png") || str_eq(e, "jpg") || str_eq(e, "jpeg") || str_eq(e, "gif")
                    || str_eq(e, "svg") || str_eq(e, "ico") || str_eq(e, "webp") {
                    return "";
                }
            },
            None => {},
        }
        if is_named(name, ".gitignore") || is_named(name, ".gitattributes") {
            return "";
        }
        if str_contains(path, "Dockerfile") || is_named(name, "docker-compose.yml") {
            return "";
        }
        if is_named(name, "composer.json") || is_named(name, "package.json") || is_named(
            name,
            "Cargo.toml",
        ) {
            return "";
        }
        ""
    }

    /// The glyph for a closed folder.
    pub fn folder() -> (icon: &'static str)
        ensures
            icon@ == ""@,
    {
        ""
    }

    /// The glyph for an open folder.
    pub fn folder_open() -> (icon: &'static str)
        ensures
            icon@ == ""@,
    {
        ""
    }

    /// The glyph for a folder with a well-known name, or the plain folder
    /// glyph.
    pub fn folder_special(name: &str) -> (icon: &'static str)
        ensures
            icon@ == folder_icon(name@),
    {
        if str_eq(name, "modules") {
            return "\u{f03d7}";
        }
        if str_eq(name, "src") || str_eq(name, "source") || str_eq(name, "vendor") || str_eq(
            name,
            "node_modules",
        ) {
            return "";
        }
        if str_eq(name, "public") || str_eq(name, "dist") || str_eq(name, "build") {
            return "";
        }
        if str_eq(name, "test") || str_eq(name, "tests") || str_eq(name, "__tests__") {
            return "";
        }
        if str_eq(name, "docs") || str_eq(name, "documentation") || str_eq(name, ".git")
            || str_eq(name, "config") {
            return "";
        }
        if str_eq(name, "assets") || str_eq(name, "images") || str_eq(name, "img") {
            return "";
        }
        if str_eq(name, "themes") || str_eq(name, "controllers") || str_eq(name, "models")
            || str_eq(name, "views") {
            return "";
        }
        Self::folder()
    }

    /// The glyph for a git branch.
    pub fn git_branch() -> (icon: &'static str)
        ensures
            icon@ == ""@,
    {
        ""
    }

    /// The glyph for an added file.
    pub fn git_added() -> (icon: &'static str)
        ensures
            icon@ == "\u{271a}"@,
    {
        "\u{271a}"
    }

    /// The glyph for a modified file.
    pub fn git_modified() -> (icon: &'static str)
        ensures
            icon@ == "\u{25cf}"@,
    {
        "\u{25cf}"
    }

    /// The glyph for a deleted file.
    pub fn git_deleted() -> (icon: &'static str)
        ensures
            icon@ == "\u{2716}"@,
    {
        "\u{2716}"
    }

    /// The glyph for search.
    pub fn search() -> (icon: &'static str)
        ensures
            icon@ == ""@,
    {
        ""
    }

    /// The glyph for settings.
    pub fn settings() -> (icon: &'static str)
        ensures
            icon@ == ""@,
    {
        ""
    }

    /// The glyph for a terminal.
    pub fn terminal() -> (icon: &'static str)
        ensures
            icon@ == ""@,
    {
        ""
    }

    /// The glyph for closing.
    pub fn close() -> (icon: &'static str)
        ensures
            icon@ == ""@,
    {
        ""
    }

    /// The glyph for saving.
    pub fn save() -> (icon: &'static str)
        ensures
            icon@ == ""@,
    {
        ""
    }

    /// The glyph for an error.
    pub fn error() -> (icon: &'static str)
        ensures
            icon@ == ""@,
    {
        ""
    }

    /// The glyph for a warning.
    pub fn warning() -> (icon: &'static str)
        ensures
            icon@ == ""@,
    {
        ""
    }

    /// The glyph for a notice.
    pub fn info() -> (icon: &'static str)
        ensures
            icon@ == ""@,
    {
        ""
    }

    /// The glyph for success.
    pub fn success() -> (icon: &'static str)
        ensures
            icon@ == ""@,
    {
        ""
    }

    /// The glyph for a Laravel project.
    pub fn laravel() -> (icon: &'static str)
        ensures
            icon@ == ""@,
    {
        ""
    }

    /// The glyph for a Symfony project.
    pub fn symfony() -> (icon: &'static str)
        ensures
            icon@ == ""@,
    {
        ""
    }

    /// The glyph for a PrestaShop project.
    pub fn prestashop() -> (icon: &'static str)
        ensures
            icon@ == "\u{f0431}"@,
    {
        "\u{f0431}"
    }
}

} // verus!
