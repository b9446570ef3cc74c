//! Which framework a project directory belongs to, told from the marker
//! files found in it.

use vstd::prelude::*;
use vstd::string::StringExecFns;

verus! {

/// The frameworks that are told apart.
#[derive(Debug, Clone, Copy, PartialEq, Eq)]
pub enum FrameworkType {
    PrestaShop,
    Laravel,
    Symfony,
    Generic,
}

/// Which marker files and folders exist under a project's root.
#[derive(Debug, Clone, Copy)]
pub struct ProjectMarks {
    /// `config/defines.inc.php`
    pub defines_inc: bool,
    /// `install/`
    pub install_dir: bool,
    /// `classes/`
    pub classes_dir: bool,
    /// `artisan`
    pub artisan: bool,
    /// `bootstrap/app.php`
    pub bootstrap_app: bool,
    /// `bin/console`
    pub bin_console: bool,
    /// `symfony.lock`
    pub symfony_lock: bool,
}

/// The framework that the marks point to. PrestaShop is looked for first,
/// then Laravel, then Symfony.
pub open spec fn framework_of(marks: ProjectMarks) -> FrameworkType {
    if marks.defines_inc || (marks.install_dir && marks.classes_dir) {
        FrameworkType::PrestaShop
    } else if marks.artisan && marks.bootstrap_app {
        FrameworkType::Laravel
    } else if marks.bin_console && marks.symfony_lock {
        FrameworkType::Symfony
    } else {
        FrameworkType::Generic
    }
}

/// A project directory and the framework it was found to use.
pub struct Project {
    root: String,
    framework: FrameworkType,
}

impl Project {
    /// The root path of the project.
    pub closed spec fn root_path(self) -> Seq<char> {
        self.root@
    }

    /// The framework of the project.
    pub closed spec fn kind(self) -> FrameworkType {
        self.framework
    }

    /// The project rooted at `path`, with the framework that `marks`
    /// point to.
    pub fn detect(path: &str, marks: &ProjectMarks) -> (p: Self)
        ensures
            p.root_path() == path@,
            p.kind() == framework_of(*marks),
    {
        let framework = Self::detect_framework(marks);
        Self { root: String::from_str(path), framework }
    }

    /// The framework that `marks` point to.
    pub fn detect_framework(marks: &ProjectMarks) -> (f: FrameworkType)
        ensures
            f == framework_of(*marks),
    {
        if marks.defines_inc || marks.install_dir && marks.classes_dir {
            return FrameworkType::PrestaShop;
        }
        if marks.artisan && marks.bootstrap_app {
            return FrameworkType::Laravel;
        }
        if marks.bin_console && marks.symfony_lock {
            return FrameworkType::Symfony;
        }
        FrameworkType::Generic
    }

    /// The framework of the project.
    pub fn framework(&self) -> (f: &FrameworkType)
        ensures
            *f == self.kind(),
    {
        &self.framework
    }

    /// The root path of the project.
    pub fn root(&self) -> (r: &str)
        ensures
            r@ == self.root_path(),
    {
        self.root.as_str()
    }
}

} // verus!
