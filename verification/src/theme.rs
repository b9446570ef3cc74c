//! The colour themes, by name.

use vstd::prelude::*;
use crate::strs::{lowercase, str_eq, str_to_lowercase};

verus! {

/// The colour themes of the editor.
#[derive(Debug, Clone, Copy, PartialEq, Eq)]
pub enum MaterialTheme {
    Ocean,
    Palenight,
    Darker,
    Lighter,
    DeepOcean,
}

/// The theme that the lower-case name `name` stands for.
pub open spec fn theme_of(name: Seq<char>) -> Option<MaterialTheme> {
    if name == "ocean"@ {
        Some(MaterialTheme::Ocean)
    } else if name == "palenight"@ {
        Some(MaterialTheme::Palenight)
    } else if name == "darker"@ {
        Some(MaterialTheme::Darker)
    } else if name == "lighter"@ {
        Some(MaterialTheme::Lighter)
    } else if name == "deepocean"@ || name == "deep"@ {
        Some(MaterialTheme::DeepOcean)
    } else {
        None
    }
}

impl MaterialTheme {
    /// The theme called `name`, without regard to case.
    pub fn from_name(name: &str) -> (theme: Option<MaterialTheme>)
        ensures
            theme == theme_of(lowercase(name@)),
    {
        let lower = str_to_lowercase(name);
        Self::from_lowercase(lower.as_str())
    }

    /// The theme that the lower-case name `name` stands for.
    pub fn from_lowercase(name: &str) -> (theme: Option<MaterialTheme>)
        ensures
            theme == theme_of(name@),
    {
        if str_eq(name, "ocean") {
            Some(MaterialTheme::Ocean)
        } else if str_eq(name, "palenight") {
            Some(MaterialTheme::Palenight)
        } else if str_eq(name, "darker") {
            Some(MaterialTheme::Darker)
        } else if str_eq(name, "lighter") {
            Some(MaterialTheme::Lighter)
        } else if str_eq(name, "deepocean") || str_eq(name, "deep") {
            Some(MaterialTheme::DeepOcean)
        } else {
            None
        }
    }
}

} // verus!
