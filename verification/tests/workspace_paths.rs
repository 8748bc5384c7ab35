use compiler_api::backend::resolve;
use compiler_api::lang::Language;
use compiler_api::workspace::Workspace;

#[test]
fn registry_resolves_every_language() {
    let b = resolve(Language::C);
    assert_eq!(b.lang, Language::C);
    assert_eq!(b.source_file_name, "temp.c");
    assert_eq!(b.compiler, "gcc");
    let b = resolve(Language::Cpp);
    assert_eq!(b.lang, Language::Cpp);
    assert_eq!(b.source_file_name, "temp.cpp");
    assert_eq!(b.compiler, "g++");
    let b = resolve(Language::Rust);
    assert_eq!(b.lang, Language::Rust);
    assert_eq!(b.source_file_name, "temp.rs");
    assert_eq!(b.compiler, "rustc");
}

#[test]
fn compile_args_name_source_then_output_then_artifact() {
    let b = resolve(Language::C);
    let args = b.compile_args("/w/temp.c", "/w/program");
    assert_eq!(
        args,
        vec![
            "/w/temp.c".to_string(),
            "-o".to_string(),
            "/w/program".to_string()
        ]
    );
}

#[test]
fn workspace_paths_derive_from_the_root() {
    let w = Workspace::create().unwrap();
    let root = w.root().to_string();
    assert!(!root.is_empty());
    assert!(root.starts_with('/'));
    assert!(root.contains("compiler-service-"));
    assert_eq!(w.source_path(Language::C), format!("{}/temp.c", root));
    assert_eq!(w.source_path(Language::Cpp), format!("{}/temp.cpp", root));
    assert_eq!(w.source_path(Language::Rust), format!("{}/temp.rs", root));
    assert_eq!(w.input_path(), format!("{}/input.txt", root));
    assert_eq!(w.executable_path(), format!("{}/program", root));
}

#[test]
fn the_three_roles_have_three_distinct_paths() {
    let w = Workspace::create().unwrap();
    for lang in [Language::C, Language::Cpp, Language::Rust] {
        assert_ne!(w.source_path(lang), w.input_path());
        assert_ne!(w.source_path(lang), w.executable_path());
    }
    assert_ne!(w.input_path(), w.executable_path());
}

#[test]
fn two_workspaces_never_share_a_path() {
    let w1 = Workspace::create().unwrap();
    let w2 = Workspace::create().unwrap();
    assert_ne!(w1.root(), w2.root());
    for lang in [Language::C, Language::Cpp, Language::Rust] {
        assert_ne!(w1.source_path(lang), w2.source_path(lang));
    }
    assert_ne!(w1.input_path(), w2.input_path());
    assert_ne!(w1.executable_path(), w2.executable_path());
    // even across roles the paths stay disjoint
    assert_ne!(w1.source_path(Language::Rust), w2.executable_path());
    assert_ne!(w1.input_path(), w2.source_path(Language::C));
}
