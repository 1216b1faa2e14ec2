//! End-to-end scenarios driven through the session state machine, with the
//! host's side played by the test: each directive is answered by the outcome
//! a real host would report.

use execution_service::response::stamp;
use execution_service::session::Directive;
use execution_service::session::ExecuteRequest;
use execution_service::session::RunOutcome;
use execution_service::session::Session;

fn req(language: &str, code: &str, timeout: u64) -> ExecuteRequest {
    ExecuteRequest { code: code.to_string(), language: language.to_string(), timeout }
}

#[test]
fn python_stdout_success() {
    let (session, directive) = Session::begin(req("python", "print('hi')", 0), "tok".to_string());
    let argv = match directive {
        Directive::RunProgram { argv, cwd, deadline_seconds } => {
            assert!(cwd.is_none());
            assert_eq!(deadline_seconds, 10);
            argv
        },
        _ => panic!("python must go straight to the run step"),
    };
    assert_eq!(argv, vec!["python3".to_string(), "-c".to_string(), "print('hi')".to_string()]);
    let (_, directive) = session.on_ran(RunOutcome::Completed {
        stdout: "hi\n".to_string(),
        stderr: String::new(),
        exit_code: 0,
    });
    match directive {
        Directive::Emit { body } => {
            assert_eq!(body.stdout, "hi\n");
            assert_eq!(body.stderr, "");
            assert_eq!(body.exit_code, 0);
        },
        _ => panic!("an inline language answers right after the run"),
    }
}

#[test]
fn python_stderr_and_exit_code_pass_through() {
    let (session, directive) = Session::begin(
        req("python", "import sys; sys.stderr.write('x'); sys.exit(2)", 0),
        "tok".to_string(),
    );
    assert!(matches!(directive, Directive::RunProgram { .. }));
    let (_, directive) = session.on_ran(RunOutcome::Completed {
        stdout: String::new(),
        stderr: "x".to_string(),
        exit_code: 2,
    });
    match directive {
        Directive::Emit { body } => {
            assert_eq!(body.stdout, "");
            assert!(body.stderr.contains("x"));
            assert_eq!(body.exit_code, 2);
        },
        _ => panic!("expected the answer"),
    }
}

#[test]
fn c_success_walks_every_phase() {
    let code = "int main(){return 0;}";
    let (session, directive) = Session::begin(req("c", code, 0), "tok".to_string());
    let dir = match directive {
        Directive::CreateDir { dir } => dir,
        _ => panic!("c needs a workspace"),
    };
    assert_eq!(dir, "/tmp/c_tok");
    let (session, directive) = session.on_created(Ok(()));
    match &directive {
        Directive::WriteFile { path, contents } => {
            assert_eq!(path, "/tmp/c_tok/main.c");
            assert_eq!(contents, code);
        },
        _ => panic!("the source must be written next"),
    }
    let (session, directive) = session.on_written(Ok(()));
    match &directive {
        Directive::RunCompile { argv, cwd } => {
            assert_eq!(
                argv,
                &vec![
                    "gcc".to_string(),
                    "/tmp/c_tok/main.c".to_string(),
                    "-o".to_string(),
                    "/tmp/c_tok/main".to_string(),
                ],
            );
            assert!(cwd.is_none());
        },
        _ => panic!("c has a compile step"),
    }
    let (session, directive) = session.on_compiled(RunOutcome::Completed {
        stdout: String::new(),
        stderr: String::new(),
        exit_code: 0,
    });
    match &directive {
        Directive::RunProgram { argv, cwd, deadline_seconds } => {
            assert_eq!(argv, &vec!["/tmp/c_tok/main".to_string()]);
            assert!(cwd.is_none());
            assert_eq!(*deadline_seconds, 10);
        },
        _ => panic!("a clean compile goes on to the run step"),
    }
    let (session, directive) = session.on_ran(RunOutcome::Completed {
        stdout: String::new(),
        stderr: String::new(),
        exit_code: 0,
    });
    match &directive {
        Directive::RemoveDir { dir } => assert_eq!(dir, "/tmp/c_tok"),
        _ => panic!("the workspace is removed before answering"),
    }
    let (_, directive) = session.on_removed();
    match directive {
        Directive::Emit { body } => {
            assert_eq!(body.stdout, "");
            assert_eq!(body.stderr, "");
            assert_eq!(body.exit_code, 0);
        },
        _ => panic!("cleanup is followed by the answer"),
    }
}

#[test]
fn c_compile_error_is_reported_in_band() {
    let (session, _) = Session::begin(req("c", "int main(){return", 0), "tok".to_string());
    let (session, _) = session.on_created(Ok(()));
    let (session, directive) = session.on_written(Ok(()));
    assert!(matches!(directive, Directive::RunCompile { .. }));
    let (session, directive) = session.on_compiled(RunOutcome::Completed {
        stdout: String::new(),
        stderr: "main.c: error: expected expression".to_string(),
        exit_code: 1,
    });
    assert!(matches!(directive, Directive::RemoveDir { .. }));
    let (_, directive) = session.on_removed();
    match directive {
        Directive::Emit { body } => {
            assert_eq!(body.stdout, "");
            assert!(body.stderr.starts_with("Compilation error:\n"));
            assert_eq!(body.stderr, "Compilation error:\nmain.c: error: expected expression");
            assert_eq!(body.exit_code, 1);
        },
        _ => panic!("a compile error still answers in band"),
    }
}

#[test]
fn run_timeout_answers_the_timeout_message() {
    let (session, directive) = Session::begin(
        req("python", "while True: pass", 1),
        "tok".to_string(),
    );
    match &directive {
        Directive::RunProgram { deadline_seconds, .. } => assert_eq!(*deadline_seconds, 1),
        _ => panic!("python goes straight to the run step"),
    }
    let (_, directive) = session.on_ran(RunOutcome::TimedOut);
    match directive {
        Directive::Emit { body } => {
            assert_eq!(body.stdout, "");
            assert_eq!(body.stderr, "Execution timeout (1s)");
            assert_eq!(body.exit_code, 1);
            let response = stamp(body, 1003);
            assert!(response.execution_time_ms >= 1000);
        },
        _ => panic!("a timeout answers in band"),
    }
}

#[test]
fn timeout_message_carries_the_multi_digit_deadline() {
    let (session, _) = Session::begin(req("javascript", "for(;;){}", 90), "tok".to_string());
    let (_, directive) = session.on_ran(RunOutcome::TimedOut);
    match directive {
        Directive::Emit { body } => {
            assert_eq!(body.stderr, "Execution timeout (90s)");
            assert_eq!(body.exit_code, 1);
        },
        _ => panic!("a timeout answers in band"),
    }
}

#[test]
fn java_uses_the_extracted_class_name() {
    let code = "public class Foo { public static void main(String[] a){ System.out.println(42); } }";
    let (session, directive) = Session::begin(req("java", code, 0), "tok".to_string());
    match &directive {
        Directive::CreateDir { dir } => assert_eq!(dir, "/tmp/java_tok"),
        _ => panic!("java needs a workspace"),
    }
    let (session, directive) = session.on_created(Ok(()));
    match &directive {
        Directive::WriteFile { path, .. } => assert_eq!(path, "/tmp/java_tok/Foo.java"),
        _ => panic!("the source must be written next"),
    }
    let (session, directive) = session.on_written(Ok(()));
    match &directive {
        Directive::RunCompile { argv, cwd } => {
            assert_eq!(argv, &vec!["javac".to_string(), "/tmp/java_tok/Foo.java".to_string()]);
            assert_eq!(cwd.as_deref(), Some("/tmp/java_tok"));
        },
        _ => panic!("java has a compile step"),
    }
    let (session, directive) = session.on_compiled(RunOutcome::Completed {
        stdout: String::new(),
        stderr: String::new(),
        exit_code: 0,
    });
    match &directive {
        Directive::RunProgram { argv, cwd, .. } => {
            assert_eq!(argv, &vec!["java".to_string(), "Foo".to_string()]);
            assert_eq!(cwd.as_deref(), Some("/tmp/java_tok"));
        },
        _ => panic!("a clean compile goes on to the run step"),
    }
    let (session, directive) = session.on_ran(RunOutcome::Completed {
        stdout: "42\n".to_string(),
        stderr: String::new(),
        exit_code: 0,
    });
    assert!(matches!(directive, Directive::RemoveDir { .. }));
    let (_, directive) = session.on_removed();
    match directive {
        Directive::Emit { body } => {
            assert_eq!(body.stdout, "42\n");
            assert_eq!(body.exit_code, 0);
        },
        _ => panic!("cleanup is followed by the answer"),
    }
}

#[test]
fn unsupported_language_answers_at_once() {
    let (_, directive) = Session::begin(req("brainfuck", "++", 0), "tok".to_string());
    match directive {
        Directive::Emit { body } => {
            assert_eq!(body.stdout, "");
            assert_eq!(body.stderr, "Unsupported language: brainfuck");
            assert!(body.stderr.contains("Unsupported language:"));
            assert_eq!(body.exit_code, 1);
            let response = stamp(body, 0);
            assert_eq!(response.exit_code, 1);
        },
        _ => panic!("an unknown tag is rejected at once"),
    }
}

#[test]
fn workspace_failure_answers_a_service_error() {
    let (session, _) = Session::begin(req("go", "package main", 0), "tok".to_string());
    let (_, directive) = session.on_created(Err("permission denied".to_string()));
    match directive {
        Directive::Emit { body } => {
            assert_eq!(body.stdout, "");
            assert_eq!(body.stderr, "Failed to create temp dir: permission denied");
            assert_eq!(body.exit_code, 1);
        },
        _ => panic!("nothing to clean when the directory was never made"),
    }
}

#[test]
fn write_failure_cleans_up_before_answering() {
    let (session, _) = Session::begin(req("rust", "fn main() {}", 0), "tok".to_string());
    let (session, _) = session.on_created(Ok(()));
    let (session, directive) = session.on_written(Err("disk full".to_string()));
    match &directive {
        Directive::RemoveDir { dir } => assert_eq!(dir, "/tmp/rust_tok"),
        _ => panic!("a created workspace is removed on every path"),
    }
    let (_, directive) = session.on_removed();
    match directive {
        Directive::Emit { body } => {
            assert_eq!(body.stderr, "Failed to write source: disk full");
            assert_eq!(body.exit_code, 1);
        },
        _ => panic!("cleanup is followed by the answer"),
    }
}

#[test]
fn missing_compiler_cleans_up_before_answering() {
    let (session, _) = Session::begin(req("zig", "pub fn main() void {}", 0), "tok".to_string());
    let (session, _) = session.on_created(Ok(()));
    let (session, directive) = session.on_written(Ok(()));
    match &directive {
        Directive::RunCompile { argv, cwd } => {
            assert_eq!(
                argv,
                &vec!["zig".to_string(), "build-exe".to_string(), "main.zig".to_string()],
            );
            assert_eq!(cwd.as_deref(), Some("/tmp/zig_tok"));
        },
        _ => panic!("zig has a compile step"),
    }
    let (session, directive) = session.on_compiled(RunOutcome::SpawnFailed {
        reason: "No such file or directory".to_string(),
    });
    assert!(matches!(directive, Directive::RemoveDir { .. }));
    let (_, directive) = session.on_removed();
    match directive {
        Directive::Emit { body } => {
            assert_eq!(body.stderr, "Compiler not available: No such file or directory");
            assert_eq!(body.exit_code, 1);
        },
        _ => panic!("cleanup is followed by the answer"),
    }
}

#[test]
fn run_spawn_failure_is_a_service_error() {
    let (session, _) = Session::begin(req("elixir", "IO.puts 1", 0), "tok".to_string());
    let (session, _) = session.on_created(Ok(()));
    let (session, directive) = session.on_written(Ok(()));
    match &directive {
        Directive::RunProgram { argv, cwd, .. } => {
            assert_eq!(argv, &vec!["elixir".to_string(), "main.exs".to_string()]);
            assert_eq!(cwd.as_deref(), Some("/tmp/elixir_tok"));
        },
        _ => panic!("elixir has no compile step"),
    }
    let (session, directive) = session.on_ran(RunOutcome::SpawnFailed {
        reason: "No such file or directory".to_string(),
    });
    assert!(matches!(directive, Directive::RemoveDir { .. }));
    let (_, directive) = session.on_removed();
    match directive {
        Directive::Emit { body } => {
            assert_eq!(body.stderr, "Failed to execute: No such file or directory");
            assert_eq!(body.exit_code, 1);
        },
        _ => panic!("cleanup is followed by the answer"),
    }
}

#[test]
fn tag_aliases_share_a_toolchain() {
    let (_, directive) = Session::begin(req("typescript", "console.log(1)", 0), "t".to_string());
    match directive {
        Directive::RunProgram { argv, .. } => {
            assert_eq!(argv[0], "node");
            assert_eq!(argv[1], "-e");
        },
        _ => panic!("typescript runs inline under node"),
    }
    let (_, directive) = Session::begin(req("c++", "int main(){}", 0), "t".to_string());
    match directive {
        Directive::CreateDir { dir } => assert_eq!(dir, "/tmp/cpp_t"),
        _ => panic!("c++ needs a workspace"),
    }
    let (_, directive) = Session::begin(req("v", "fn main() {}", 0), "t".to_string());
    match directive {
        Directive::CreateDir { dir } => assert_eq!(dir, "/tmp/vlang_t"),
        _ => panic!("v needs a workspace"),
    }
}

#[test]
fn rust_compile_commands_use_absolute_paths() {
    let (session, _) = Session::begin(req("rust", "fn main() {}", 0), "tok".to_string());
    let (session, _) = session.on_created(Ok(()));
    let (session, directive) = session.on_written(Ok(()));
    match &directive {
        Directive::RunCompile { argv, cwd } => {
            assert_eq!(
                argv,
                &vec![
                    "rustc".to_string(),
                    "/tmp/rust_tok/main.rs".to_string(),
                    "-o".to_string(),
                    "/tmp/rust_tok/main".to_string(),
                ],
            );
            assert!(cwd.is_none());
        },
        _ => panic!("rust has a compile step"),
    }
    let (_, directive) = session.on_compiled(RunOutcome::Completed {
        stdout: String::new(),
        stderr: String::new(),
        exit_code: 0,
    });
    match directive {
        Directive::RunProgram { argv, .. } => {
            assert_eq!(argv, vec!["/tmp/rust_tok/main".to_string()]);
        },
        _ => panic!("a clean compile goes on to the run step"),
    }
}

#[test]
fn go_runs_without_a_compile_step() {
    let (session, _) = Session::begin(req("go", "package main", 7), "tok".to_string());
    let (session, _) = session.on_created(Ok(()));
    let (_, directive) = session.on_written(Ok(()));
    match directive {
        Directive::RunProgram { argv, cwd, deadline_seconds } => {
            assert_eq!(
                argv,
                vec!["go".to_string(), "run".to_string(), "/tmp/go_tok/main.go".to_string()],
            );
            assert!(cwd.is_none());
            assert_eq!(deadline_seconds, 7);
        },
        _ => panic!("go runs its source directly"),
    }
}
