//! The closed set of supported languages and their toolchain names.

use vstd::prelude::*;

verus! {

/// A language tag.  The set is closed: every tag selects exactly one
/// toolchain, so resolution is total and has no error path.
#[derive(Clone, Copy, PartialEq, Eq, Structural, Debug)]
pub enum Language {
    C,
    Cpp,
    Rust,
}

/// The name of the source file a workspace holds for `lang`.
pub open spec fn spec_source_file_name(lang: Language) -> Seq<char> {
    match lang {
        Language::C => "temp.c"@,
        Language::Cpp => "temp.cpp"@,
        Language::Rust => "temp.rs"@,
    }
}

/// The name of the compiler executable for `lang`.
pub open spec fn spec_compiler_name(lang: Language) -> Seq<char> {
    match lang {
        Language::C => "gcc"@,
        Language::Cpp => "g++"@,
        Language::Rust => "rustc"@,
    }
}

impl Language {
    /// The source file name the workspace uses for this language.
    pub fn source_file_name(&self) -> (r: &'static str)
        ensures
            r@ == spec_source_file_name(*self),
    {
        match self {
            Language::C => "temp.c",
            Language::Cpp => "temp.cpp",
            Language::Rust => "temp.rs",
        }
    }

    /// The compiler executable that builds this language's sources.
    pub fn compiler_name(&self) -> (r: &'static str)
        ensures
            r@ == spec_compiler_name(*self),
    {
        match self {
            Language::C => "gcc",
            Language::Cpp => "g++",
            Language::Rust => "rustc",
        }
    }
}

} // verus!
