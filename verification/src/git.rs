//! What the outputs of git commands mean: the repository root, the
//! branch, and the state of a file.

use vstd::prelude::*;
use vstd::string::{StrSliceExecFns, StringExecFns};
use crate::strs::{str_eq, str_trim, trimmed};

verus! {

/// The state of a file in the working tree.
#[derive(Debug, Clone, Copy, PartialEq, Eq)]
pub enum FileStatus {
    Untracked,
    Modified,
    Added,
    Deleted,
    Renamed,
    Unmodified,
}

/// What went wrong with a git command.
#[derive(Debug, Clone, Copy, PartialEq, Eq)]
pub enum GitError {
    /// The directory lies in no repository.
    NotARepository,
    /// `git add` failed.
    StageFailed,
    /// `git reset` failed.
    UnstageFailed,
}

/// What a finished command left: whether it succeeded, and its standard
/// output as text.
pub struct CommandOutput {
    pub success: bool,
    pub stdout: String,
}

/// The state that a status code stands for, the code being the first two
/// characters of a line of short-format status without the white space
/// around them.
pub open spec fn status_of_code(code: Seq<char>) -> FileStatus {
    if code == "??"@ {
        FileStatus::Untracked
    } else if code == "M"@ || code == " M"@ || code == "MM"@ {
        FileStatus::Modified
    } else if code == "A"@ || code == " A"@ {
        FileStatus::Added
    } else if code == "D"@ || code == " D"@ {
        FileStatus::Deleted
    } else if code == "R"@ || code == " R"@ {
        FileStatus::Renamed
    } else {
        FileStatus::Unmodified
    }
}

/// The first two characters of `s`, or all of it where it is shorter.
pub open spec fn first_two(s: Seq<char>) -> Seq<char> {
    if s.len() <= 2 {
        s
    } else {
        s.subrange(0, 2)
    }
}

/// The state that the output of a status command reports for one file.
pub open spec fn status_of_output(success: bool, stdout: Seq<char>) -> FileStatus {
    if !success || stdout.len() == 0 {
        FileStatus::Unmodified
    } else {
        status_of_code(trimmed(first_two(stdout)))
    }
}

impl GitError {
    /// The message shown for the error.
    pub fn message(&self) -> (m: String)
        ensures
            m@ == match *self {
                GitError::NotARepository => "Not a git repository"@,
                GitError::StageFailed => "Failed to stage file"@,
                GitError::UnstageFailed => "Failed to unstage file"@,
            },
    {
        match self {
            GitError::NotARepository => String::from_str("Not a git repository"),
            GitError::StageFailed => String::from_str("Failed to stage file"),
            GitError::UnstageFailed => String::from_str("Failed to unstage file"),
        }
    }
}

impl FileStatus {
    /// The state that the status code `code` stands for.
    pub fn from_code(code: &str) -> (status: FileStatus)
        ensures
            status == status_of_code(code@),
    {
        if str_eq(code, "??") {
            FileStatus::Untracked
        } else if str_eq(code, "M") || str_eq(code, " M") || str_eq(code, "MM") {
            FileStatus::Modified
        } else if str_eq(code, "A") || str_eq(code, " A") {
            FileStatus::Added
        } else if str_eq(code, "D") || str_eq(code, " D") {
            FileStatus::Deleted
        } else if str_eq(code, "R") || str_eq(code, " R") {
            FileStatus::Renamed
        } else {
            FileStatus::Unmodified
        }
    }
}

/// A repository: its root directory and the branch that is checked out.
pub struct GitRepo {
    root: String,
    current_branch: String,
}

impl GitRepo {
    /// The root directory of the repository.
    pub closed spec fn root_path(self) -> Seq<char> {
        self.root@
    }

    /// The name of the branch that is checked out.
    pub closed spec fn branch_name(self) -> Seq<char> {
        self.current_branch@
    }

    /// The repository that the two commands describe: `toplevel` is the
    /// outcome of asking git for the root of the working tree, `branch`
    /// that of asking it for the current branch. Fails where the first
    /// command failed, which it does outside a repository.
    pub fn open(toplevel: &CommandOutput, branch: &CommandOutput) -> (repo: Result<Self, GitError>)
        ensures
            toplevel.success ==> repo is Ok && repo->Ok_0.root_path() == trimmed(toplevel.stdout@)
                && repo->Ok_0.branch_name() == if branch.success {
                trimmed(branch.stdout@)
            } else {
                "(no branch)"@
            },
            !toplevel.success ==> repo == Err::<Self, GitError>(GitError::NotARepository),
    {
        match Self::find_git_root(toplevel) {
            Ok(root) => Ok(Self { root, current_branch: Self::get_current_branch(branch) }),
            Err(e) => Err(e),
        }
    }

    /// The root of the working tree, from the outcome of asking git for
    /// it: its output without the white space around it. Fails where the
    /// command failed.
    pub fn find_git_root(toplevel: &CommandOutput) -> (root: Result<String, GitError>)
        ensures
            toplevel.success ==> root is Ok && root->Ok_0@ == trimmed(toplevel.stdout@),
            !toplevel.success ==> root == Err::<String, GitError>(GitError::NotARepository),
    {
        if toplevel.success {
            Ok(String::from_str(str_trim(toplevel.stdout.as_str())))
        } else {
            Err(GitError::NotARepository)
        }
    }

    /// The current branch, from the outcome of asking git for it: its
    /// output without the white space around it, or `(no branch)` where
    /// the command failed.
    pub fn get_current_branch(branch: &CommandOutput) -> (name: String)
        ensures
            name@ == if branch.success {
                trimmed(branch.stdout@)
            } else {
                "(no branch)"@
            },
    {
        if branch.success {
            String::from_str(str_trim(branch.stdout.as_str()))
        } else {
            String::from_str("(no branch)")
        }
    }

    /// The name of the branch that is checked out.
    pub fn branch(&self) -> (name: &str)
        ensures
            name@ == self.branch_name(),
    {
        self.current_branch.as_str()
    }

    /// The root directory of the repository.
    pub fn root(&self) -> (path: &str)
        ensures
            path@ == self.root_path(),
    {
        self.root.as_str()
    }

    /// The state of a file, from the outcome of a short-format status
    /// command on it. A failed command and an empty output both mean an
    /// unmodified file.
    pub fn get_status(&self, status: &CommandOutput) -> (state: FileStatus)
        ensures
            state == status_of_output(status.success, status.stdout@),
    {
        if !status.success {
            return FileStatus::Unmodified;
        }
        let out = status.stdout.as_str();
        let len = out.unicode_len();
        if len == 0 {
            return FileStatus::Unmodified;
        }
        let code = if len <= 2 {
            assert(out@.subrange(0, len as int) =~= out@);
            out.substring_char(0, len)
        } else {
            out.substring_char(0, 2)
        };
        FileStatus::from_code(str_trim(code))
    }

    /// The outcome of staging a file, from whether `git add` succeeded.
    pub fn stage_file(&self, success: bool) -> (done: Result<(), GitError>)
        ensures
            done == if success {
                Ok::<(), GitError>(())
            } else {
                Err::<(), GitError>(GitError::StageFailed)
            },
    {
        if success {
            Ok(())
        } else {
            Err(GitError::StageFailed)
        }
    }

    /// The outcome of unstaging a file, from whether `git reset` succeeded.
    pub fn unstage_file(&self, success: bool) -> (done: Result<(), GitError>)
        ensures
            done == if success {
                Ok::<(), GitError>(())
            } else {
                Err::<(), GitError>(GitError::UnstageFailed)
            },
    {
        if success {
            Ok(())
        } else {
            Err(GitError::UnstageFailed)
        }
    }

    /// Whether the working tree has changes, from the output of a
    /// short-format status command on all of it: it has where the output
    /// is not empty.
    pub fn has_changes(&self, status: &CommandOutput) -> (changed: bool)
        ensures
            changed == (status.stdout@.len() > 0),
    {
        !status.stdout.as_str().is_empty()
    }
}

} // verus!
