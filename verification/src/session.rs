//! The execution orchestrator, as a state machine per request.
//!
//! The host owns the effects (directories, files, child processes, the
//! clock); the session owns every decision. Each step hands the host a
//! `Directive`; the host performs it and reports the outcome back through the
//! matching `on_*` method. The contracts pin the whole protocol: which
//! command runs for which language, under which deadline, what each failure
//! answers, and that a created workspace is removed before the session
//! answers.

use vstd::prelude::*;
use crate::lang::Language;
use crate::lang::Plan;
use crate::lang::build_plan;
use crate::lang::has_compile;
use crate::lang::needs_workspace;
use crate::lang::parse_language;
use crate::lang::plan_matches;
use crate::lang::spec_compile_argv;
use crate::lang::spec_has_compile;
use crate::lang::spec_needs_workspace;
use crate::lang::spec_parse_language;
use crate::lang::spec_run_argv;
use crate::lang::spec_runs_in_dir;
use crate::lang::spec_source_path;
use crate::lang::spec_workspace_dir;
use crate::response::ResponseBody;
use crate::response::compile_error_body;
use crate::response::compiler_missing_body;
use crate::response::spawn_error_body;
use crate::response::spec_compile_error_message;
use crate::response::spec_compiler_missing_message;
use crate::response::spec_failure_body;
use crate::response::spec_spawn_error_message;
use crate::response::spec_timeout_message;
use crate::response::spec_unsupported_message;
use crate::response::spec_workspace_error_message;
use crate::response::spec_write_error_message;
use crate::response::timeout_body;
use crate::response::unsupported_body;
use crate::response::workspace_error_body;
use crate::response::write_error_body;
use crate::timeout::effective_timeout;
use crate::timeout::spec_effective_timeout;

verus! {

/// A validated request: the code, the language tag, and the requested
/// deadline in seconds, where 0 means "apply the default".
pub struct ExecuteRequest {
    pub code: String,
    pub language: String,
    pub timeout: u64,
}

/// What the process runner reports for one compile or run step.
pub enum RunOutcome {
    /// The child terminated in time; `exit_code` is its own status, or 1
    /// where the platform reported no numeric code.
    Completed { stdout: String, stderr: String, exit_code: i32 },
    /// The wall-clock deadline expired before the child terminated.
    TimedOut,
    /// The child could not be started.
    SpawnFailed { reason: String },
}

/// What the host must do next for a session.
pub enum Directive {
    /// Create the workspace directory.
    CreateDir { dir: String },
    /// Write the source file.
    WriteFile { path: String, contents: String },
    /// Run the compile command to completion, with no deadline, capturing
    /// stdout and stderr.
    RunCompile { argv: Vec<String>, cwd: Option<String> },
    /// Run the command under the wall-clock deadline, capturing stdout and
    /// stderr.
    RunProgram { argv: Vec<String>, cwd: Option<String>, deadline_seconds: u64 },
    /// Remove the workspace directory tree, best-effort.
    RemoveDir { dir: String },
    /// The session is over: stamp the elapsed time onto the body and answer.
    Emit { body: ResponseBody },
}

/// Where a session stands.
#[derive(Clone, Copy, PartialEq, Eq, Structural, Debug)]
pub enum Phase {
    /// Waiting for the workspace directory to be created.
    MakingWorkspace,
    /// Waiting for the source file to be written.
    WritingSource,
    /// Waiting for the compile command.
    Compiling,
    /// Waiting for the run command.
    Running,
    /// Waiting for the workspace directory to be removed.
    Removing,
    /// The answer has been handed out.
    Done,
}

/// One request's orchestration state.
pub struct Session {
    pub code: String,
    pub token: String,
    /// The effective deadline in seconds: always positive.
    pub timeout_seconds: u64,
    pub lang: Option<Language>,
    pub plan: Option<Plan>,
    /// The workspace directory has been created.
    pub created: bool,
    /// The workspace directory has been removed.
    pub removed: bool,
    /// The body to answer once cleanup is over.
    pub pending: Option<ResponseBody>,
    pub phase: Phase,
}

/// The expected working directory of a command: the workspace for the
/// languages run from inside it, the service's own otherwise.
pub open spec fn spec_cwd_ok(l: Language, token: Seq<char>, cwd: Option<String>) -> bool {
    if spec_runs_in_dir(l) {
        cwd matches Some(d) && d@ == spec_workspace_dir(l, token)
    } else {
        cwd is None
    }
}

/// The directive that runs the user's program: the language's run command,
/// its working directory, and the effective deadline.
pub open spec fn spec_run_directive(
    d: Directive,
    l: Language,
    code: Seq<char>,
    token: Seq<char>,
    t: u64,
) -> bool {
    &&& d matches Directive::RunProgram { argv, cwd, deadline_seconds } && argv.deep_view()
        == spec_run_argv(l, code, token) && spec_cwd_ok(l, token, cwd) && deadline_seconds == t
}

/// The directive that runs the language's compiler.
pub open spec fn spec_compile_directive(
    d: Directive,
    l: Language,
    code: Seq<char>,
    token: Seq<char>,
) -> bool {
    &&& d matches Directive::RunCompile { argv, cwd } && argv.deep_view() == spec_compile_argv(
        l,
        code,
        token,
    ) && spec_cwd_ok(l, token, cwd)
}

/// The directive that removes the session's workspace.
pub open spec fn spec_remove_directive(d: Directive, l: Language, token: Seq<char>) -> bool {
    &&& d matches Directive::RemoveDir { dir } && dir@ == spec_workspace_dir(l, token)
}

/// The body answered for a run outcome: the child's own record when it
/// terminated, the timeout message for an expired deadline of `t` seconds,
/// and the spawn diagnostic when it never started.
pub open spec fn spec_run_body(b: ResponseBody, outcome: RunOutcome, t: u64) -> bool {
    match outcome {
        RunOutcome::Completed { stdout, stderr, exit_code } => {
            &&& b.stdout@ == stdout@
            &&& b.stderr@ == stderr@
            &&& b.exit_code == exit_code
        },
        RunOutcome::TimedOut => spec_failure_body(b, spec_timeout_message(t)),
        RunOutcome::SpawnFailed { reason } => spec_failure_body(
            b,
            spec_spawn_error_message(reason@),
        ),
    }
}

fn clone_argv(v: &Vec<String>) -> (r: Vec<String>)
    ensures
        r.deep_view() == v.deep_view(),
{
    let r = v.clone();
    proof {
        assert(r@ =~= v@) by {
            assert forall|i: int| 0 <= i < v@.len() implies r@[i] == v@[i] by {
                assert(cloned::<String>(v@[i], r@[i]));
            }
        }
    }
    r
}

fn clone_opt_string(o: &Option<String>) -> (r: Option<String>)
    ensures
        (r is Some <==> o is Some),
        (o matches Some(s) ==> (r matches Some(t) && t@ == s@)),
{
    match o {
        Some(s) => Some(s.clone()),
        None => None,
    }
}

impl Session {
    /// Everything the session decides from stays fixed over its lifetime.
    pub open spec fn same_setup(self, later: Session) -> bool {
        &&& later.code@ == self.code@
        &&& later.token@ == self.token@
        &&& later.timeout_seconds == self.timeout_seconds
        &&& later.lang == self.lang
    }

    /// The session's invariant: the plan matches the language's table row,
    /// the deadline is positive, each phase is entered with the right
    /// workspace bookkeeping, and a finished session has removed whatever it
    /// created.
    pub open spec fn wf(self) -> bool {
        &&& self.timeout_seconds > 0
        &&& (match self.lang {
            Some(l) => self.plan matches Some(p) && plan_matches(p, l, self.code@, self.token@),
            None => self.phase is Done,
        })
        &&& (match self.phase {
            Phase::MakingWorkspace => self.lang matches Some(l) && spec_needs_workspace(l)
                && !self.created && !self.removed && self.pending is None,
            Phase::WritingSource => self.lang matches Some(l) && spec_needs_workspace(l)
                && self.created && !self.removed && self.pending is None,
            Phase::Compiling => self.lang matches Some(l) && spec_needs_workspace(l)
                && spec_has_compile(l) && self.created && !self.removed && self.pending is None,
            Phase::Running => self.lang matches Some(l) && (self.created <==> spec_needs_workspace(
                l,
            )) && !self.removed && self.pending is None,
            Phase::Removing => self.lang is Some && self.created && !self.removed
                && self.pending is Some,
            Phase::Done => self.created ==> self.removed,
        })
    }

    fn run_directive(&self) -> (d: Directive)
        requires
            self.wf(),
            self.lang is Some,
        ensures
            (self.lang matches Some(l) ==> spec_run_directive(
                d,
                l,
                self.code@,
                self.token@,
                self.timeout_seconds,
            )),
    {
        let plan = match &self.plan {
            Some(p) => p,
            None => unreached(),
        };
        let argv = clone_argv(&plan.run_argv);
        let cwd = clone_opt_string(&plan.cwd);
        Directive::RunProgram { argv, cwd, deadline_seconds: self.timeout_seconds }
    }

    fn compile_directive(&self) -> (d: Directive)
        requires
            self.wf(),
            self.lang is Some,
            (self.lang matches Some(l) ==> spec_has_compile(l)),
        ensures
            (self.lang matches Some(l) ==> spec_compile_directive(d, l, self.code@, self.token@)),
    {
        let plan = match &self.plan {
            Some(p) => p,
            None => unreached(),
        };
        let argv = match &plan.compile_argv {
            Some(a) => clone_argv(a),
            None => unreached(),
        };
        let cwd = clone_opt_string(&plan.cwd);
        Directive::RunCompile { argv, cwd }
    }

    fn remove_directive(&self) -> (d: Directive)
        requires
            self.wf(),
            self.lang is Some,
            (self.lang matches Some(l) ==> spec_needs_workspace(l)),
        ensures
            (self.lang matches Some(l) ==> spec_remove_directive(d, l, self.token@)),
    {
        let plan = match &self.plan {
            Some(p) => p,
            None => unreached(),
        };
        let dir = match &plan.workspace {
            Some(d) => d.clone(),
            None => unreached(),
        };
        Directive::RemoveDir { dir }
    }

    /// Starts a session for a validated request, under a fresh workspace
    /// token. A tag outside the enumeration is answered at once, in band; an
    /// inline language goes straight to its run command; the rest ask for a
    /// workspace first.
    pub fn begin(req: ExecuteRequest, token: String) -> (r: (Session, Directive))
        ensures
            r.0.wf(),
            r.0.code@ == req.code@,
            r.0.token@ == token@,
            r.0.timeout_seconds == spec_effective_timeout(req.timeout),
            r.0.lang == spec_parse_language(req.language@),
            !r.0.created && !r.0.removed,
            (r.1 matches Directive::Emit { body } ==> r.0.phase is Done),
            match spec_parse_language(req.language@) {
                None => r.1 matches Directive::Emit { body } && spec_failure_body(
                    body,
                    spec_unsupported_message(req.language@),
                ) && r.0.phase is Done,
                Some(l) => {
                    if spec_needs_workspace(l) {
                        r.1 matches Directive::CreateDir { dir } && dir@ == spec_workspace_dir(
                            l,
                            token@,
                        ) && r.0.phase is MakingWorkspace
                    } else {
                        spec_run_directive(
                            r.1,
                            l,
                            req.code@,
                            token@,
                            spec_effective_timeout(req.timeout),
                        ) && r.0.phase is Running
                    }
                },
            },
    {
        let timeout_seconds = effective_timeout(req.timeout);
        match parse_language(req.language.as_str()) {
            None => {
                let body = unsupported_body(req.language.as_str());
                let s = Session {
                    code: req.code,
                    token,
                    timeout_seconds,
                    lang: None,
                    plan: None,
                    created: false,
                    removed: false,
                    pending: None,
                    phase: Phase::Done,
                };
                (s, Directive::Emit { body })
            },
            Some(l) => {
                let plan = build_plan(l, req.code.as_str(), token.as_str());
                if needs_workspace(l) {
                    let dir = match &plan.workspace {
                        Some(d) => d.clone(),
                        None => unreached(),
                    };
                    let s = Session {
                        code: req.code,
                        token,
                        timeout_seconds,
                        lang: Some(l),
                        plan: Some(plan),
                        created: false,
                        removed: false,
                        pending: None,
                        phase: Phase::MakingWorkspace,
                    };
                    (s, Directive::CreateDir { dir })
                } else {
                    let s = Session {
                        code: req.code,
                        token,
                        timeout_seconds,
                        lang: Some(l),
                        plan: Some(plan),
                        created: false,
                        removed: false,
                        pending: None,
                        phase: Phase::Running,
                    };
                    let d = s.run_directive();
                    (s, d)
                }
            },
        }
    }

    /// The host reports whether the workspace directory was created. On
    /// success the source file is written next; on refusal there is nothing
    /// to clean, and the service error is answered at once.
    pub fn on_created(self, outcome: Result<(), String>) -> (r: (Session, Directive))
        requires
            self.wf(),
            self.phase is MakingWorkspace,
        ensures
            r.0.wf(),
            self.same_setup(r.0),
            (r.1 matches Directive::Emit { body } ==> r.0.phase is Done),
            (self.lang matches Some(l) ==> match outcome {
                Ok(u) => r.1 matches Directive::WriteFile { path, contents } && path@
                    == spec_source_path(l, self.code@, self.token@) && contents@ == self.code@
                    && r.0.phase is WritingSource && r.0.created && !r.0.removed,
                Err(e) => r.1 matches Directive::Emit { body } && spec_failure_body(
                    body,
                    spec_workspace_error_message(e@),
                ) && r.0.phase is Done && !r.0.created,
            }),
    {
        match outcome {
            Ok(_) => {
                let s = Session { created: true, phase: Phase::WritingSource, ..self };
                let plan = match &s.plan {
                    Some(p) => p,
                    None => unreached(),
                };
                let path = match &plan.source_path {
                    Some(p) => p.clone(),
                    None => unreached(),
                };
                let contents = s.code.clone();
                (s, Directive::WriteFile { path, contents })
            },
            Err(e) => {
                let body = workspace_error_body(e.as_str());
                let s = Session { phase: Phase::Done, ..self };
                (s, Directive::Emit { body })
            },
        }
    }

    /// The host reports whether the source file was written. On success the
    /// compile step runs where the language has one, else the run step; on
    /// failure the workspace is removed before the service error is answered.
    pub fn on_written(self, outcome: Result<(), String>) -> (r: (Session, Directive))
        requires
            self.wf(),
            self.phase is WritingSource,
        ensures
            r.0.wf(),
            self.same_setup(r.0),
            (r.1 matches Directive::Emit { body } ==> r.0.phase is Done),
            (self.lang matches Some(l) ==> match outcome {
                Ok(u) => {
                    if spec_has_compile(l) {
                        spec_compile_directive(r.1, l, self.code@, self.token@)
                            && r.0.phase is Compiling
                    } else {
                        spec_run_directive(r.1, l, self.code@, self.token@, self.timeout_seconds)
                            && r.0.phase is Running
                    }
                },
                Err(e) => spec_remove_directive(r.1, l, self.token@) && r.0.phase is Removing && (
                r.0.pending matches Some(b) && spec_failure_body(
                    b,
                    spec_write_error_message(e@),
                )),
            }),
    {
        match outcome {
            Ok(_) => {
                let l = match self.lang {
                    Some(l) => l,
                    None => unreached(),
                };
                if has_compile(l) {
                    let s = Session { phase: Phase::Compiling, ..self };
                    let d = s.compile_directive();
                    (s, d)
                } else {
                    let s = Session { phase: Phase::Running, ..self };
                    let d = s.run_directive();
                    (s, d)
                }
            },
            Err(e) => {
                let body = write_error_body(e.as_str());
                let s = Session { pending: Some(body), phase: Phase::Removing, ..self };
                let d = s.remove_directive();
                (s, d)
            },
        }
    }

    /// The host reports the compiler's outcome. A clean exit goes on to the
    /// run step; an exit with an error answers the compile-error body; a
    /// compiler that could not start answers the service error. Either
    /// failure removes the workspace first. The compile step runs under no
    /// deadline, so it never times out.
    pub fn on_compiled(self, outcome: RunOutcome) -> (r: (Session, Directive))
        requires
            self.wf(),
            self.phase is Compiling,
            !(outcome is TimedOut),
        ensures
            r.0.wf(),
            self.same_setup(r.0),
            (r.1 matches Directive::Emit { body } ==> r.0.phase is Done),
            (self.lang matches Some(l) ==> match outcome {
                RunOutcome::Completed { stdout, stderr, exit_code } => {
                    if exit_code == 0 {
                        spec_run_directive(r.1, l, self.code@, self.token@, self.timeout_seconds)
                            && r.0.phase is Running
                    } else {
                        spec_remove_directive(r.1, l, self.token@) && r.0.phase is Removing && (
                        r.0.pending matches Some(b) && spec_failure_body(
                            b,
                            spec_compile_error_message(stderr@),
                        ))
                    }
                },
                RunOutcome::TimedOut => true,
                RunOutcome::SpawnFailed { reason } => spec_remove_directive(r.1, l, self.token@)
                    && r.0.phase is Removing && (r.0.pending matches Some(b) && spec_failure_body(
                    b,
                    spec_compiler_missing_message(reason@),
                )),
            }),
    {
        match outcome {
            RunOutcome::Completed { stdout: _, stderr, exit_code } => {
                if exit_code == 0 {
                    let s = Session { phase: Phase::Running, ..self };
                    let d = s.run_directive();
                    (s, d)
                } else {
                    let body = compile_error_body(stderr.as_str());
                    let s = Session { pending: Some(body), phase: Phase::Removing, ..self };
                    let d = s.remove_directive();
                    (s, d)
                }
            },
            RunOutcome::TimedOut => unreached(),
            RunOutcome::SpawnFailed { reason } => {
                let body = compiler_missing_body(reason.as_str());
                let s = Session { pending: Some(body), phase: Phase::Removing, ..self };
                let d = s.remove_directive();
                (s, d)
            },
        }
    }

    /// The host reports the run step's outcome. The body is decided here: the
    /// child's own record, the timeout message, or the spawn diagnostic. A
    /// session with a workspace removes it before answering; an inline
    /// session answers at once.
    pub fn on_ran(self, outcome: RunOutcome) -> (r: (Session, Directive))
        requires
            self.wf(),
            self.phase is Running,
        ensures
            r.0.wf(),
            self.same_setup(r.0),
            (r.1 matches Directive::Emit { body } ==> r.0.phase is Done),
            (self.lang matches Some(l) ==> {
                if self.created {
                    spec_remove_directive(r.1, l, self.token@) && r.0.phase is Removing && (
                    r.0.pending matches Some(b) && spec_run_body(
                        b,
                        outcome,
                        self.timeout_seconds,
                    ))
                } else {
                    r.1 matches Directive::Emit { body } && spec_run_body(
                        body,
                        outcome,
                        self.timeout_seconds,
                    ) && r.0.phase is Done
                }
            }),
    {
        let body = match outcome {
            RunOutcome::Completed { stdout, stderr, exit_code } => ResponseBody {
                stdout,
                stderr,
                exit_code,
            },
            RunOutcome::TimedOut => timeout_body(self.timeout_seconds),
            RunOutcome::SpawnFailed { reason } => spawn_error_body(reason.as_str()),
        };
        if self.created {
            let s = Session { pending: Some(body), phase: Phase::Removing, ..self };
            let d = s.remove_directive();
            (s, d)
        } else {
            let s = Session { phase: Phase::Done, ..self };
            (s, Directive::Emit { body })
        }
    }

    /// The host reports that the workspace was removed (removal is
    /// best-effort and never fails the request). The pending body is
    /// answered.
    pub fn on_removed(self) -> (r: (Session, Directive))
        requires
            self.wf(),
            self.phase is Removing,
        ensures
            r.0.wf(),
            self.same_setup(r.0),
            r.0.phase is Done,
            r.0.removed,
            (r.1 matches Directive::Emit { body } && (self.pending matches Some(b) && body == b)),
    {
        let Session { code, token, timeout_seconds, lang, plan, created, removed: _, pending, phase: _ } = self;
        let body = match pending {
            Some(b) => b,
            None => unreached(),
        };
        let s = Session {
            code,
            token,
            timeout_seconds,
            lang,
            plan,
            created,
            removed: true,
            pending: None,
            phase: Phase::Done,
        };
        (s, Directive::Emit { body })
    }
}

/// Workspace hygiene: a session that has reached its terminal phase has
/// removed whatever workspace directory it created, on every control path.
pub proof fn lemma_workspace_hygiene(s: Session)
    requires
        s.wf(),
        s.phase is Done,
    ensures
        s.created ==> s.removed,
{
}

} // verus!
