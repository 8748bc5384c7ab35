//! The registry that maps a language tag to its toolchain shape.

use vstd::prelude::*;
use vstd::string::StringExecFns;

use crate::lang::{spec_compiler_name, spec_source_file_name, Language};

verus! {

/// The toolchain configuration for one language: the name the source file
/// is stored under, the compiler executable, and (through
/// [`Backend::compile_args`]) the argument template that produces an
/// executable artifact, which is then run directly.
pub struct Backend {
    /// The language this backend serves.
    pub lang: Language,
    /// The name the submitted source is stored under in the workspace.
    pub source_file_name: String,
    /// The compiler executable invoked on the source file.
    pub compiler: String,
}

/// Resolves a language tag to its backend.  Total over the closed set of
/// languages: no error path exists.
pub fn resolve(lang: Language) -> (b: Backend)
    ensures
        b.lang == lang,
        b.source_file_name@ == spec_source_file_name(lang),
        b.compiler@ == spec_compiler_name(lang),
{
    Backend {
        lang,
        source_file_name: String::from_str(lang.source_file_name()),
        compiler: String::from_str(lang.compiler_name()),
    }
}

impl Backend {
    /// The arguments handed to the compiler: the source path, then `-o`,
    /// then the path the artifact is produced at.  The same template
    /// serves every language in the closed set.
    pub fn compile_args(&self, source_path: &str, executable_path: &str) -> (r: Vec<String>)
        ensures
            r@.len() == 3,
            r@[0]@ == source_path@,
            r@[1]@ == "-o"@,
            r@[2]@ == executable_path@,
    {
        let mut args: Vec<String> = Vec::new();
        args.push(String::from_str(source_path));
        args.push(String::from_str("-o"));
        args.push(String::from_str(executable_path));
        args
    }
}

} // verus!
