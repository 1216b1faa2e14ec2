//! The per-language toolchain table: which tags are supported, whether a
//! language needs an on-disk workspace and a compile step, and the exact
//! source filename, compile command and run command of each.

use vstd::prelude::*;
use vstd::string::StringExecFns;
use crate::java::spec_extract_java_class_name;
use crate::java::extract_java_class_name;
use crate::text::str_eq;

verus! {

/// A supported language. Tags that share a toolchain share a variant:
/// `javascript` and `typescript` both run under node, `cpp` and `c++` under
/// g++, `vlang` and `v` under the V compiler.
#[derive(Clone, Copy, PartialEq, Eq, Structural, Debug)]
pub enum Language {
    Python,
    Javascript,
    Rust,
    Go,
    Cpp,
    Java,
    C,
    Zig,
    Elixir,
    Vlang,
}

/// The language a request tag names, drawn from the closed enumeration of
/// supported tags (lowercase, exact match).
pub open spec fn spec_parse_language(tag: Seq<char>) -> Option<Language> {
    if tag == "python"@ {
        Some(Language::Python)
    } else if tag == "javascript"@ || tag == "typescript"@ {
        Some(Language::Javascript)
    } else if tag == "rust"@ {
        Some(Language::Rust)
    } else if tag == "go"@ {
        Some(Language::Go)
    } else if tag == "cpp"@ || tag == "c++"@ {
        Some(Language::Cpp)
    } else if tag == "java"@ {
        Some(Language::Java)
    } else if tag == "c"@ {
        Some(Language::C)
    } else if tag == "zig"@ {
        Some(Language::Zig)
    } else if tag == "elixir"@ {
        Some(Language::Elixir)
    } else if tag == "vlang"@ || tag == "v"@ {
        Some(Language::Vlang)
    } else {
        None
    }
}

/// Maps a request tag to its language, `None` for a tag outside the
/// enumeration.
pub fn parse_language(tag: &str) -> (r: Option<Language>)
    ensures
        r == spec_parse_language(tag@),
{
    if str_eq(tag, "python") {
        Some(Language::Python)
    } else if str_eq(tag, "javascript") || str_eq(tag, "typescript") {
        Some(Language::Javascript)
    } else if str_eq(tag, "rust") {
        Some(Language::Rust)
    } else if str_eq(tag, "go") {
        Some(Language::Go)
    } else if str_eq(tag, "cpp") || str_eq(tag, "c++") {
        Some(Language::Cpp)
    } else if str_eq(tag, "java") {
        Some(Language::Java)
    } else if str_eq(tag, "c") {
        Some(Language::C)
    } else if str_eq(tag, "zig") {
        Some(Language::Zig)
    } else if str_eq(tag, "elixir") {
        Some(Language::Elixir)
    } else if str_eq(tag, "vlang") || str_eq(tag, "v") {
        Some(Language::Vlang)
    } else {
        None
    }
}

/// Whether the language's sources are written to a workspace directory.
/// Python and javascript code is handed to the interpreter inline instead.
pub open spec fn spec_needs_workspace(lang: Language) -> bool {
    match lang {
        Language::Python => false,
        Language::Javascript => false,
        _ => true,
    }
}

pub fn needs_workspace(lang: Language) -> (r: bool)
    ensures
        r == spec_needs_workspace(lang),
{
    match lang {
        Language::Python => false,
        Language::Javascript => false,
        _ => true,
    }
}

/// Whether the language has a compile step before the run step.
pub open spec fn spec_has_compile(lang: Language) -> bool {
    match lang {
        Language::Rust => true,
        Language::Cpp => true,
        Language::Java => true,
        Language::C => true,
        Language::Zig => true,
        _ => false,
    }
}

pub fn has_compile(lang: Language) -> (r: bool)
    ensures
        r == spec_has_compile(lang),
{
    match lang {
        Language::Rust => true,
        Language::Cpp => true,
        Language::Java => true,
        Language::C => true,
        Language::Zig => true,
        _ => false,
    }
}

/// The tag written into the workspace directory name.
pub open spec fn spec_lang_prefix(lang: Language) -> Seq<char> {
    match lang {
        Language::Python => "python"@,
        Language::Javascript => "javascript"@,
        Language::Rust => "rust"@,
        Language::Go => "go"@,
        Language::Cpp => "cpp"@,
        Language::Java => "java"@,
        Language::C => "c"@,
        Language::Zig => "zig"@,
        Language::Elixir => "elixir"@,
        Language::Vlang => "vlang"@,
    }
}

pub fn lang_prefix(lang: Language) -> (r: &'static str)
    ensures
        r@ == spec_lang_prefix(lang),
{
    match lang {
        Language::Python => "python",
        Language::Javascript => "javascript",
        Language::Rust => "rust",
        Language::Go => "go",
        Language::Cpp => "cpp",
        Language::Java => "java",
        Language::C => "c",
        Language::Zig => "zig",
        Language::Elixir => "elixir",
        Language::Vlang => "vlang",
    }
}

/// The name the Java adapter uses for the class: what the textual scan
/// extracts, or `Main` when it extracts nothing.
pub open spec fn spec_java_class_name(code: Seq<char>) -> Seq<char> {
    match spec_extract_java_class_name(code) {
        Some(n) => n,
        None => "Main"@,
    }
}

/// The class name for a Java submission, with the default applied.
pub fn java_class_name(code: &str) -> (r: String)
    ensures
        r@ == spec_java_class_name(code@),
{
    match extract_java_class_name(code) {
        Some(n) => n,
        None => String::from_str("Main"),
    }
}

/// The workspace directory for one request: the temp root, the language tag
/// and a fresh token.
pub open spec fn spec_workspace_dir(lang: Language, token: Seq<char>) -> Seq<char> {
    "/tmp/"@ + spec_lang_prefix(lang) + "_"@ + token
}

pub fn workspace_dir(lang: Language, token: &str) -> (r: String)
    ensures
        r@ == spec_workspace_dir(lang, token@),
{
    let p = String::from_str("/tmp/");
    let p = p.concat(lang_prefix(lang));
    let p = p.concat("_");
    let p = p.concat(token);
    proof {
        assert(p@ =~= spec_workspace_dir(lang, token@));
    }
    p
}

/// No cross-talk between requests: two workspaces made from distinct tokens
/// of equal length are distinct directories, whatever the languages, so
/// neither request can observe the other's files.
pub proof fn lemma_workspace_dirs_distinct(
    l1: Language,
    t1: Seq<char>,
    l2: Language,
    t2: Seq<char>,
)
    requires
        t1.len() == t2.len(),
        t1 != t2,
    ensures
        spec_workspace_dir(l1, t1) != spec_workspace_dir(l2, t2),
{
    let d1 = spec_workspace_dir(l1, t1);
    let d2 = spec_workspace_dir(l2, t2);
    assert(d1.subrange(d1.len() - t1.len(), d1.len() as int) =~= t1);
    assert(d2.subrange(d2.len() - t2.len(), d2.len() as int) =~= t2);
    if d1 == d2 {
        assert(t1 =~= t2);
    }
}

/// The source file's name inside the workspace.
pub open spec fn spec_source_filename(lang: Language, code: Seq<char>) -> Seq<char> {
    match lang {
        Language::Python => Seq::empty(),
        Language::Javascript => Seq::empty(),
        Language::Rust => "main.rs"@,
        Language::Go => "main.go"@,
        Language::Cpp => "main.cpp"@,
        Language::Java => spec_java_class_name(code) + ".java"@,
        Language::C => "main.c"@,
        Language::Zig => "main.zig"@,
        Language::Elixir => "main.exs"@,
        Language::Vlang => "main.v"@,
    }
}

/// The source file's absolute path.
pub open spec fn spec_source_path(lang: Language, code: Seq<char>, token: Seq<char>) -> Seq<
    char,
> {
    spec_workspace_dir(lang, token) + "/"@ + spec_source_filename(lang, code)
}

/// The compiled binary's absolute path, for the languages compiled to one.
pub open spec fn spec_binary_path(lang: Language, token: Seq<char>) -> Seq<char> {
    spec_workspace_dir(lang, token) + "/main"@
}

/// The compile command, for the languages that have a compile step.
pub open spec fn spec_compile_argv(lang: Language, code: Seq<char>, token: Seq<char>) -> Seq<
    Seq<char>,
> {
    match lang {
        Language::Rust => seq![
            "rustc"@,
            spec_source_path(lang, code, token),
            "-o"@,
            spec_binary_path(lang, token),
        ],
        Language::Cpp => seq![
            "g++"@,
            spec_source_path(lang, code, token),
            "-o"@,
            spec_binary_path(lang, token),
            "-std=c++17"@,
        ],
        Language::C => seq![
            "gcc"@,
            spec_source_path(lang, code, token),
            "-o"@,
            spec_binary_path(lang, token),
        ],
        Language::Java => seq!["javac"@, spec_source_path(lang, code, token)],
        Language::Zig => seq!["zig"@, "build-exe"@, "main.zig"@],
        _ => Seq::empty(),
    }
}

/// The run command.
pub open spec fn spec_run_argv(lang: Language, code: Seq<char>, token: Seq<char>) -> Seq<
    Seq<char>,
> {
    match lang {
        Language::Python => seq!["python3"@, "-c"@, code],
        Language::Javascript => seq!["node"@, "-e"@, code],
        Language::Rust => seq![spec_binary_path(lang, token)],
        Language::Go => seq!["go"@, "run"@, spec_source_path(lang, code, token)],
        Language::Cpp => seq![spec_binary_path(lang, token)],
        Language::Java => seq!["java"@, spec_java_class_name(code)],
        Language::C => seq![spec_binary_path(lang, token)],
        Language::Zig => seq![spec_binary_path(lang, token)],
        Language::Elixir => seq!["elixir"@, "main.exs"@],
        Language::Vlang => seq!["v"@, "run"@, "main.v"@],
    }
}

/// Whether the compile and run commands are issued with the workspace as
/// their working directory.
pub open spec fn spec_runs_in_dir(lang: Language) -> bool {
    match lang {
        Language::Java => true,
        Language::Zig => true,
        Language::Elixir => true,
        Language::Vlang => true,
        _ => false,
    }
}

pub fn runs_in_dir(lang: Language) -> (r: bool)
    ensures
        r == spec_runs_in_dir(lang),
{
    match lang {
        Language::Java => true,
        Language::Zig => true,
        Language::Elixir => true,
        Language::Vlang => true,
        _ => false,
    }
}

/// The on-disk layout and the commands for one request: what the toolchain
/// adapter decides from the language, the code and the workspace token.
pub struct Plan {
    /// The workspace directory, for the languages that need one.
    pub workspace: Option<String>,
    /// Where the code is written, for the languages materialised on disk.
    pub source_path: Option<String>,
    /// The compile command, for the languages with a compile step.
    pub compile_argv: Option<Vec<String>>,
    /// The run command.
    pub run_argv: Vec<String>,
    /// The working directory the commands are issued from, when it is not
    /// the service's own.
    pub cwd: Option<String>,
}

/// What a well-formed plan for `lang`, `code` and `token` holds: field for
/// field, the table's row for the language.
pub open spec fn plan_matches(p: Plan, lang: Language, code: Seq<char>, token: Seq<char>) -> bool {
    &&& (p.workspace matches Some(d) && d@ == spec_workspace_dir(lang, token)) <==> spec_needs_workspace(lang)
    &&& (!spec_needs_workspace(lang) ==> p.workspace is None)
    &&& (spec_needs_workspace(lang) ==> (p.source_path matches Some(f) && f@ == spec_source_path(
        lang,
        code,
        token,
    )))
    &&& (!spec_needs_workspace(lang) ==> p.source_path is None)
    &&& (spec_has_compile(lang) ==> (p.compile_argv matches Some(a) && a.deep_view()
        == spec_compile_argv(lang, code, token)))
    &&& (!spec_has_compile(lang) ==> p.compile_argv is None)
    &&& p.run_argv.deep_view() == spec_run_argv(lang, code, token)
    &&& (spec_runs_in_dir(lang) ==> (p.cwd matches Some(d) && d@ == spec_workspace_dir(
        lang,
        token,
    )))
    &&& (!spec_runs_in_dir(lang) ==> p.cwd is None)
}

fn push_str(argv: &mut Vec<String>, s: &str)
    ensures
        final(argv)@.len() == old(argv)@.len() + 1,
        final(argv).deep_view() == old(argv).deep_view().push(s@),
{
    argv.push(String::from_str(s));
    proof {
        assert(argv.deep_view() =~= old(argv).deep_view().push(s@));
    }
}

fn push_string(argv: &mut Vec<String>, s: String)
    ensures
        final(argv)@.len() == old(argv)@.len() + 1,
        final(argv).deep_view() == old(argv).deep_view().push(s@),
{
    let ghost v = s@;
    argv.push(s);
    proof {
        assert(argv.deep_view() =~= old(argv).deep_view().push(v));
    }
}

/// Builds the toolchain adapter's plan for one request.
pub fn build_plan(lang: Language, code: &str, token: &str) -> (p: Plan)
    ensures
        plan_matches(p, lang, code@, token@),
{
    if !needs_workspace(lang) {
        let mut run_argv: Vec<String> = Vec::new();
        match lang {
            Language::Python => {
                push_str(&mut run_argv, "python3");
                push_str(&mut run_argv, "-c");
                push_str(&mut run_argv, code);
            },
            _ => {
                push_str(&mut run_argv, "node");
                push_str(&mut run_argv, "-e");
                push_str(&mut run_argv, code);
            },
        }
        proof {
            assert(run_argv.deep_view() =~= spec_run_argv(lang, code@, token@));
        }
        Plan { workspace: None, source_path: None, compile_argv: None, run_argv, cwd: None }
    } else {
        let dir = workspace_dir(lang, token);
        let filename: String = match lang {
            Language::Rust => String::from_str("main.rs"),
            Language::Go => String::from_str("main.go"),
            Language::Cpp => String::from_str("main.cpp"),
            Language::Java => java_class_name(code).concat(".java"),
            Language::C => String::from_str("main.c"),
            Language::Zig => String::from_str("main.zig"),
            Language::Elixir => String::from_str("main.exs"),
            _ => String::from_str("main.v"),
        };
        let source_path = dir.clone().concat("/").concat(filename.as_str());
        proof {
            assert(source_path@ =~= spec_source_path(lang, code@, token@));
        }
        let binary_path = dir.clone().concat("/main");
        proof {
            assert(binary_path@ =~= spec_binary_path(lang, token@));
        }
        let compile_argv: Option<Vec<String>> = if has_compile(lang) {
            let mut ca: Vec<String> = Vec::new();
            match lang {
                Language::Rust => {
                    push_str(&mut ca, "rustc");
                    push_string(&mut ca, source_path.clone());
                    push_str(&mut ca, "-o");
                    push_string(&mut ca, binary_path.clone());
                },
                Language::Cpp => {
                    push_str(&mut ca, "g++");
                    push_string(&mut ca, source_path.clone());
                    push_str(&mut ca, "-o");
                    push_string(&mut ca, binary_path.clone());
                    push_str(&mut ca, "-std=c++17");
                },
                Language::C => {
                    push_str(&mut ca, "gcc");
                    push_string(&mut ca, source_path.clone());
                    push_str(&mut ca, "-o");
                    push_string(&mut ca, binary_path.clone());
                },
                Language::Java => {
                    push_str(&mut ca, "javac");
                    push_string(&mut ca, source_path.clone());
                },
                _ => {
                    push_str(&mut ca, "zig");
                    push_str(&mut ca, "build-exe");
                    push_str(&mut ca, "main.zig");
                },
            }
            proof {
                assert(ca.deep_view() =~= spec_compile_argv(lang, code@, token@));
            }
            Some(ca)
        } else {
            None
        };
        let mut run_argv: Vec<String> = Vec::new();
        match lang {
            Language::Rust => {
                push_string(&mut run_argv, binary_path.clone());
            },
            Language::Go => {
                push_str(&mut run_argv, "go");
                push_str(&mut run_argv, "run");
                push_string(&mut run_argv, source_path.clone());
            },
            Language::Cpp => {
                push_string(&mut run_argv, binary_path.clone());
            },
            Language::Java => {
                push_str(&mut run_argv, "java");
                push_string(&mut run_argv, java_class_name(code));
            },
            Language::C => {
                push_string(&mut run_argv, binary_path.clone());
            },
            Language::Zig => {
                push_string(&mut run_argv, binary_path.clone());
            },
            Language::Elixir => {
                push_str(&mut run_argv, "elixir");
                push_str(&mut run_argv, "main.exs");
            },
            _ => {
                push_str(&mut run_argv, "v");
                push_str(&mut run_argv, "run");
                push_str(&mut run_argv, "main.v");
            },
        }
        proof {
            assert(run_argv.deep_view() =~= spec_run_argv(lang, code@, token@));
        }
        let cwd: Option<String> = if runs_in_dir(lang) {
            Some(dir.clone())
        } else {
            None
        };
        Plan {
            workspace: Some(dir),
            source_path: Some(source_path),
            compile_argv,
            run_argv,
            cwd,
        }
    }
}

} // verus!
