//! An isolated filesystem area for one pipeline run.
//!
//! A workspace is a directory root plus three paths derived from it: the
//! source file (named by the language), the input file, and the compiled
//! artifact.  The derivations are pure: every path is the root, a
//! separator, and a fixed file name, so all three are computable
//! deterministically from the root and the language, and two workspaces
//! with distinct roots can never derive the same path.
//!
//! A workspace is created fresh per request, so two concurrent requests
//! never share filesystem state and need no lock; the directory is removed
//! when the workspace is dropped.  (A single workspace shared by all
//! requests and serialized behind an exclusive lock would also satisfy the
//! path model here, but it forces every request to wait for the previous
//! one's whole pipeline; the per-request workspace makes parallel runs the
//! default.)

use vstd::prelude::*;
use vstd::string::StringExecFns;

use crate::failure::Failure;
use crate::lang::{spec_source_file_name, Language};

verus! {

#[verifier::external_type_specification]
#[verifier::external_body]
pub struct ExTempDir(tempfile::TempDir);

/// Relies on tempfile::Builder::tempdir: it creates a new, uniquely named
/// directory under the system's temporary directory, whose name begins
/// with the given prefix, and returns a handle that removes the directory
/// on drop.  The second component is that directory's path rendered as a
/// string; the path of a created directory is never empty.
#[verifier::external_body]
fn make_temp_dir(prefix: &str) -> (r: Result<(tempfile::TempDir, String), String>)
    ensures
        r matches Ok(p) ==> p.1@.len() > 0,
{
    match tempfile::Builder::new().prefix(prefix).tempdir() {
        Ok(dir) => {
            let root = dir.path().to_string_lossy().to_string();
            Ok((dir, root))
        },
        Err(e) => Err(format!("{}", e)),
    }
}

/// A directory root joined with a file name: `root`, a `/` separator,
/// then `name`.
pub open spec fn spec_join(root: Seq<char>, name: Seq<char>) -> Seq<char> {
    root + seq!['/'] + name
}

/// The name of the file that persists a request's input payload.
pub open spec fn spec_input_file_name() -> Seq<char> {
    "input.txt"@
}

/// The name of the compiled artifact.
pub open spec fn spec_executable_file_name() -> Seq<char> {
    "program"@
}

/// An isolated filesystem area used by exactly one pipeline run at a time.
pub struct Workspace {
    /// Keeps the directory alive; the directory is deleted when the
    /// workspace is dropped.
    dir: tempfile::TempDir,
    /// The directory's path.
    root: String,
}

/// A workspace is abstractly its directory root: every path it hands out
/// is derived from the root alone.
impl View for Workspace {
    type V = Seq<char>;

    closed spec fn view(&self) -> Seq<char> {
        self.root@
    }
}

impl Workspace {
    /// A workspace is well formed when its root names a directory: the
    /// root path is never the empty string.
    pub open spec fn wf(&self) -> bool {
        self@.len() > 0
    }

    /// The directory root this workspace derives its paths from.
    pub fn root(&self) -> (r: &str)
        ensures
            r@ == self@,
    {
        self.root.as_str()
    }

    /// Allocates a fresh, isolated filesystem area.
    ///
    /// Fails with `ResourceFailure` when the directory cannot be created.
    pub fn create() -> (r: Result<Workspace, Failure>)
        ensures
            r matches Ok(w) ==> w.wf(),
            r matches Err(f) ==> f matches Failure::ResourceFailure(_),
    {
        match make_temp_dir("compiler-service-") {
            Ok((dir, root)) => Ok(Workspace { dir, root }),
            Err(m) => Err(Failure::ResourceFailure(m)),
        }
    }

    /// The path of the source file for `lang`: pure derivation, no I/O.
    pub fn source_path(&self, lang: Language) -> (r: String)
        ensures
            r@ == spec_join(self@, spec_source_file_name(lang)),
    {
        let mut p = self.root.clone();
        p.append("/");
        p.append(lang.source_file_name());
        proof {
            reveal_strlit("/");
            assert("/"@ =~= seq!['/']);
            assert(p@ =~= spec_join(self@, spec_source_file_name(lang)));
        }
        p
    }

    /// The path of the input file: pure derivation, no I/O.
    pub fn input_path(&self) -> (r: String)
        ensures
            r@ == spec_join(self@, spec_input_file_name()),
    {
        let mut p = self.root.clone();
        p.append("/");
        p.append("input.txt");
        proof {
            reveal_strlit("/");
            assert("/"@ =~= seq!['/']);
            assert(p@ =~= spec_join(self@, spec_input_file_name()));
        }
        p
    }

    /// The path of the compiled artifact: pure derivation, no I/O.
    pub fn executable_path(&self) -> (r: String)
        ensures
            r@ == spec_join(self@, spec_executable_file_name()),
    {
        let mut p = self.root.clone();
        p.append("/");
        p.append("program");
        proof {
            reveal_strlit("/");
            assert("/"@ =~= seq!['/']);
            assert(p@ =~= spec_join(self@, spec_executable_file_name()));
        }
        p
    }
}

/// Law: path derivation is injective.  For file names that contain no
/// separator, equal derived paths can only come from the same root and the
/// same name.
pub proof fn lemma_join_injective(r1: Seq<char>, n1: Seq<char>, r2: Seq<char>, n2: Seq<char>)
    requires
        !n1.contains('/'),
        !n2.contains('/'),
        spec_join(r1, n1) == spec_join(r2, n2),
    ensures
        r1 == r2,
        n1 == n2,
{
    let j = spec_join(r1, n1);
    assert(j.len() == r1.len() + 1 + n1.len());
    assert(j.len() == r2.len() + 1 + n2.len());
    if n1.len() < n2.len() {
        let k = r1.len() as int;
        assert(j[k] == '/');
        let k2 = k - r2.len() - 1;
        assert(0 <= k2 < n2.len());
        assert(j[k] == n2[k2]);
        assert(n2.contains('/'));
    } else if n2.len() < n1.len() {
        let k = r2.len() as int;
        assert(j[k] == '/');
        let k1 = k - r1.len() - 1;
        assert(0 <= k1 < n1.len());
        assert(j[k] == n1[k1]);
        assert(n1.contains('/'));
    } else {
        assert(r1.len() == r2.len());
        assert forall|i: int| 0 <= i < r1.len() implies r1[i] == r2[i] by {
            assert(j[i] == r1[i]);
            assert(j[i] == r2[i]);
        }
        assert(r1 =~= r2);
        assert forall|i: int| 0 <= i < n1.len() implies n1[i] == n2[i] by {
            assert(j[r1.len() + 1 + i] == n1[i]);
            assert(j[r2.len() + 1 + i] == n2[i]);
        }
        assert(n1 =~= n2);
    }
}

/// The fixed file names a workspace uses contain no path separator, so
/// every derived path has its root as the part before the last separator.
pub proof fn lemma_file_names_slash_free(lang: Language)
    ensures
        !spec_source_file_name(lang).contains('/'),
        !spec_input_file_name().contains('/'),
        !spec_executable_file_name().contains('/'),
{
    reveal_strlit("temp.c");
    reveal_strlit("temp.cpp");
    reveal_strlit("temp.rs");
    reveal_strlit("input.txt");
    reveal_strlit("program");
    assert(!"temp.c"@.contains('/'));
    assert(!"temp.cpp"@.contains('/'));
    assert(!"temp.rs"@.contains('/'));
    assert(!"input.txt"@.contains('/'));
    assert(!"program"@.contains('/'));
}

/// Law: two workspaces with distinct roots never derive the same path, in
/// any combination of roles, so pipeline runs over distinct workspaces
/// touch disjoint files and cannot interfere.
pub proof fn lemma_distinct_roots_no_interference(
    root1: Seq<char>,
    root2: Seq<char>,
    n1: Seq<char>,
    n2: Seq<char>,
)
    requires
        root1 != root2,
        !n1.contains('/'),
        !n2.contains('/'),
    ensures
        spec_join(root1, n1) != spec_join(root2, n2),
{
    if spec_join(root1, n1) == spec_join(root2, n2) {
        lemma_join_injective(root1, n1, root2, n2);
    }
}

/// Law: within one workspace the source file, the input file and the
/// compiled artifact are three distinct paths, whatever the language.
pub proof fn lemma_paths_within_workspace_distinct(root: Seq<char>, lang: Language)
    ensures
        spec_join(root, spec_source_file_name(lang)) != spec_join(root, spec_input_file_name()),
        spec_join(root, spec_source_file_name(lang)) != spec_join(
            root,
            spec_executable_file_name(),
        ),
        spec_join(root, spec_input_file_name()) != spec_join(root, spec_executable_file_name()),
{
    lemma_file_names_slash_free(lang);
    reveal_strlit("temp.c");
    reveal_strlit("temp.cpp");
    reveal_strlit("temp.rs");
    reveal_strlit("input.txt");
    reveal_strlit("program");
    if spec_join(root, spec_source_file_name(lang)) == spec_join(root, spec_input_file_name()) {
        lemma_join_injective(root, spec_source_file_name(lang), root, spec_input_file_name());
    }
    if spec_join(root, spec_source_file_name(lang)) == spec_join(
        root,
        spec_executable_file_name(),
    ) {
        lemma_join_injective(root, spec_source_file_name(lang), root, spec_executable_file_name());
        assert(spec_source_file_name(lang)[0] == spec_executable_file_name()[0]);
    }
    if spec_join(root, spec_input_file_name()) == spec_join(root, spec_executable_file_name()) {
        lemma_join_injective(root, spec_input_file_name(), root, spec_executable_file_name());
    }
}

} // verus!
