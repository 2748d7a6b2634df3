use vstd::prelude::*;
use vstd::string::StringExecFns;
use crate::parser::{ASTNode, ASTNodeType, AstView, node_view};
use crate::rush_path::RushPath;
use crate::token::str_eq;

verus! {

// ---------------------------------------------------------------------------
// Built-ins and statement dispatch
// ---------------------------------------------------------------------------

/// The commands the shell runs itself rather than spawning.
#[derive(Debug, Clone, Copy, PartialEq, Eq, Structural)]
pub enum BuiltinKind {
    Cd,
    Exit,
}

/// Which built-in, if any, a command name names.
pub open spec fn spec_builtin_of(name: Seq<char>) -> Option<BuiltinKind> {
    if name == "cd"@ {
        Some(BuiltinKind::Cd)
    } else if name == "exit"@ {
        Some(BuiltinKind::Exit)
    } else {
        None
    }
}

pub fn builtin_of(name: &str) -> (r: Option<BuiltinKind>)
    ensures
        r == spec_builtin_of(name@),
{
    if str_eq(name, "cd") {
        Some(BuiltinKind::Cd)
    } else if str_eq(name, "exit") {
        Some(BuiltinKind::Exit)
    } else {
        None
    }
}

/// What the engine does with one parsed statement.
#[derive(Debug, Clone, Copy, PartialEq, Eq, Structural)]
pub enum StatementDispatch {
    /// A scripting construct, handed to the evaluator.
    Evaluate,
    /// A pipeline of command invocations, run by the engine.
    RunPipeline,
    /// Not a statement the grammar produces at statement position.
    NotAStatement,
}

pub open spec fn spec_dispatch(n: AstView) -> StatementDispatch {
    match n {
        AstView::VarDef(_, _) => StatementDispatch::Evaluate,
        AstView::IfStatement(_, _, _) => StatementDispatch::Evaluate,
        AstView::FnDef(_, _, _) => StatementDispatch::Evaluate,
        AstView::NumberLiteral(_) => StatementDispatch::Evaluate,
        AstView::StringLiteral(_) => StatementDispatch::Evaluate,
        AstView::BoolLiteral(_) => StatementDispatch::Evaluate,
        AstView::Identifier(_) => StatementDispatch::Evaluate,
        AstView::BinaryExpr(_, _, _) => StatementDispatch::Evaluate,
        AstView::LogicalExpr(_, _, _) => StatementDispatch::Evaluate,
        AstView::ParenExpr(_) => StatementDispatch::Evaluate,
        AstView::Pipeline(_) => StatementDispatch::RunPipeline,
        _ => StatementDispatch::NotAStatement,
    }
}

/// Dispatch one statement: the scripting constructs and bare expressions
/// go to the evaluator, pipelines to the engine, strictly in statement
/// order; a failure of one statement never stops its siblings.
pub fn dispatch_statement(n: &ASTNode) -> (r: StatementDispatch)
    ensures
        r == spec_dispatch(n@),
{
    match &n.node_type {
        ASTNodeType::VarDef(_, _) => StatementDispatch::Evaluate,
        ASTNodeType::IfStatement(_, _, _) => StatementDispatch::Evaluate,
        ASTNodeType::FnDef(_, _, _) => StatementDispatch::Evaluate,
        ASTNodeType::NumberLiteral(_) => StatementDispatch::Evaluate,
        ASTNodeType::StringLiteral(_) => StatementDispatch::Evaluate,
        ASTNodeType::BoolLiteral(_) => StatementDispatch::Evaluate,
        ASTNodeType::Identifier(_) => StatementDispatch::Evaluate,
        ASTNodeType::BinaryExpr(_, _, _) => StatementDispatch::Evaluate,
        ASTNodeType::LogicalExpr(_, _, _) => StatementDispatch::Evaluate,
        ASTNodeType::ParenExpr(_) => StatementDispatch::Evaluate,
        ASTNodeType::Pipeline(_) => StatementDispatch::RunPipeline,
        _ => StatementDispatch::NotAStatement,
    }
}

// ---------------------------------------------------------------------------
// Pipeline planning
// ---------------------------------------------------------------------------

/// The program name of a pipeline stage.
pub open spec fn stage_name(st: AstView) -> Seq<char> {
    match st {
        AstView::CommandInvocation(name, _) => name,
        _ => Seq::empty(),
    }
}

/// How a pipeline is to be run.
#[derive(Debug, PartialEq)]
pub enum PipelinePlan {
    /// Exactly one stage, naming a built-in: the shell runs it in place.
    Builtin(BuiltinKind),
    /// No stage names a built-in: spawn every stage, left to right.
    Spawn,
    /// A multi-stage pipeline with a built-in stage is refused: built-ins
    /// are not spawnable processes and cannot sit mid-pipeline.
    UnsupportedPipelineStage { stage: usize },
}

/// Decide how to run a pipeline.  Built-ins are resolved only when the
/// pipeline has exactly one stage; a multi-stage pipeline naming a built-in
/// anywhere is reported, never silently passed through.
pub fn plan_pipeline(stages: &Vec<ASTNode>) -> (r: PipelinePlan)
    ensures
        match r {
            PipelinePlan::Builtin(b) => stages@.len() == 1 && spec_builtin_of(
                stage_name(node_view(stages@[0])),
            ) == Some(b),
            PipelinePlan::Spawn => forall|j: int|
                0 <= j < stages@.len() ==> spec_builtin_of(
                    #[trigger] stage_name(node_view(stages@[j])),
                ) is None,
            PipelinePlan::UnsupportedPipelineStage { stage } => stages@.len() > 1 && stage
                < stages@.len() && spec_builtin_of(stage_name(node_view(stages@[stage as int])))
                is Some && forall|j: int|
                0 <= j < stage ==> spec_builtin_of(
                    #[trigger] stage_name(node_view(stages@[j])),
                ) is None,
        },
{
    let n = stages.len();
    let mut i: usize = 0;
    loop
        invariant
            0 <= i <= n,
            n == stages@.len(),
            forall|m: int|
                0 <= m < i ==> spec_builtin_of(
                    #[trigger] stage_name(node_view(stages@[m])),
                ) is None,
        decreases n - i,
    {
        if i >= n {
            return PipelinePlan::Spawn;
        }
        let stage = &stages[i];
        proof {
            assert(*stage == stages@[i as int]);
        }
        let b = match &stage.node_type {
            ASTNodeType::CommandInvocation(nm, _) => {
                let bb = builtin_of(nm.as_str());
                proof {
                    assert(stage_name(node_view(*stage)) == nm@);
                    assert(bb == spec_builtin_of(stage_name(node_view(stages@[i as int]))));
                }
                bb
            },
            _ => {
                proof {
                    reveal_strlit("cd");
                    reveal_strlit("exit");
                    assert(stage_name(node_view(*stage)) =~= Seq::<char>::empty());
                    assert(spec_builtin_of(stage_name(node_view(stages@[i as int]))) is None);
                }
                None
            },
        };
        match b {
            Some(bk) => {
                if n == 1 {
                    return PipelinePlan::Builtin(bk);
                }
                return PipelinePlan::UnsupportedPipelineStage { stage: i };
            },
            None => {
                proof {
                    reveal_strlit("cd");
                    reveal_strlit("exit");
                    assert(spec_builtin_of(stage_name(node_view(stages@[i as int]))) is None);
                }
                i = i + 1;
            },
        }
    }
}

// ---------------------------------------------------------------------------
// Pipe wiring
// ---------------------------------------------------------------------------

/// Where a stage's standard input comes from.
#[derive(Debug, Clone, Copy, PartialEq, Eq, Structural)]
pub enum StdinSource {
    /// The shell's own inherited input: only the first stage.
    Inherit,
    /// The read end of the channel from the previous stage.
    PipeFromPrevious,
}

/// Where a stage's standard output goes.
#[derive(Debug, Clone, Copy, PartialEq, Eq, Structural)]
pub enum StdoutSink {
    /// The shell's own inherited output: only the last stage.
    Inherit,
    /// The write end of the channel to the next stage.
    PipeToNext,
}

/// Stage `i`'s input end: inherited for the first stage, piped from the
/// previous one otherwise.
pub fn stage_stdin(i: usize) -> (r: StdinSource)
    ensures
        i == 0 ==> r == StdinSource::Inherit,
        i > 0 ==> r == StdinSource::PipeFromPrevious,
{
    if i == 0 {
        StdinSource::Inherit
    } else {
        StdinSource::PipeFromPrevious
    }
}

/// Stage `i`'s output end in a pipeline of `n` stages: inherited for the
/// last stage, piped to the next one otherwise.
pub fn stage_stdout(i: usize, n: usize) -> (r: StdoutSink)
    requires
        i < n,
    ensures
        i + 1 == n ==> r == StdoutSink::Inherit,
        i + 1 < n ==> r == StdoutSink::PipeToNext,
{
    if i + 1 == n {
        StdoutSink::Inherit
    } else {
        StdoutSink::PipeToNext
    }
}

/// A pipeline's exit status is the last stage's status, whatever the
/// earlier stages reported.
pub fn pipeline_status(statuses: &Vec<i32>) -> (r: i32)
    requires
        statuses@.len() > 0,
    ensures
        r == statuses@.last(),
{
    statuses[statuses.len() - 1]
}

// ---------------------------------------------------------------------------
// The stage state machine
// ---------------------------------------------------------------------------

/// The lifecycle of one pipeline stage.
#[derive(Debug, Clone, PartialEq)]
pub enum StageState {
    Pending,
    Spawned,
    Exited(i32),
    SpawnFailed(String),
}

/// What the engine observes about a stage.
#[derive(Debug, Clone, PartialEq)]
pub enum StageEvent {
    Spawn,
    SpawnError(String),
    Exit(i32),
}

/// The only transitions a stage may take: `Pending` to `Spawned` or
/// `SpawnFailed`, `Spawned` to `Exited`.  No stage re-enters `Pending` and
/// no spawn is retried: any other step is refused.
pub fn stage_step(pre: &StageState, ev: StageEvent) -> (r: Option<StageState>)
    ensures
        match (pre, ev) {
            (StageState::Pending, StageEvent::Spawn) => r == Some(StageState::Spawned),
            (StageState::Pending, StageEvent::SpawnError(m)) => r matches Some(st) && st
                == StageState::SpawnFailed(m),
            (StageState::Spawned, StageEvent::Exit(c)) => r matches Some(st) && st
                == StageState::Exited(c),
            _ => r is None,
        },
{
    match (pre, ev) {
        (StageState::Pending, StageEvent::Spawn) => Some(StageState::Spawned),
        (StageState::Pending, StageEvent::SpawnError(m)) => Some(StageState::SpawnFailed(m)),
        (StageState::Spawned, StageEvent::Exit(c)) => Some(StageState::Exited(c)),
        _ => None,
    }
}

// ---------------------------------------------------------------------------
// The session and the built-ins
// ---------------------------------------------------------------------------

/// The shell session the engine threads through execution: the working
/// directory and whether the main loop should continue.
#[derive(Debug)]
pub struct ShellSession {
    pub cwd: RushPath,
    pub running: bool,
}

impl ShellSession {
    /// A running session in the directory `cwd`.
    pub fn new(cwd: RushPath) -> (s: ShellSession)
        ensures
            s.cwd == cwd,
            s.running == true,
    {
        ShellSession { cwd, running: true }
    }

    /// The `exit` built-in: end the main loop cleanly, with no further
    /// statements processed.
    pub fn apply_exit(&mut self)
        ensures
            final(self).running == false,
            final(self).cwd == old(self).cwd,
    {
        self.running = false;
    }
}

/// The text a command argument contributes, for built-ins that read their
/// arguments as plain words.
pub open spec fn spec_argument_text(n: AstView) -> Option<Seq<char>> {
    match n {
        AstView::Identifier(t) => Some(t),
        AstView::StringLiteral(t) => Some(t),
        AstView::NumberLiteral(t) => Some(t),
        AstView::BoolLiteral(b) => Some(
            if b {
                "true"@
            } else {
                "false"@
            },
        ),
        _ => None,
    }
}

pub fn argument_text(n: &ASTNode) -> (r: Option<String>)
    ensures
        match spec_argument_text(n@) {
            Some(t) => r matches Some(s) && s@ == t,
            None => r is None,
        },
{
    match &n.node_type {
        ASTNodeType::Identifier(t) => Some(t.clone()),
        ASTNodeType::StringLiteral(t) => Some(t.clone()),
        ASTNodeType::NumberLiteral(t) => Some(t.clone()),
        ASTNodeType::BoolLiteral(b) => {
            if *b {
                Some(String::from_str("true"))
            } else {
                Some(String::from_str("false"))
            }
        },
        _ => None,
    }
}

/// The directory `cd` should try: its argument when one is given, else the
/// resolved home directory, else the filesystem root.
pub fn cd_target(arg: Option<&String>, home: Option<String>) -> (r: String)
    ensures
        arg matches Some(a) ==> r@ == a@,
        arg is None ==> (home matches Some(h) ==> r@ == h@),
        (arg is None && home is None) ==> r@ == "/"@,
{
    match arg {
        Some(a) => a.clone(),
        None => match home {
            Some(h) => h,
            None => String::from_str("/"),
        },
    }
}

/// Fold the outcome of the attempted directory change into the session.
/// On success the session's directory is the new one.  On failure the
/// error is reported, never swallowed; with an explicit argument the
/// directory is left unchanged, while a failed default (the home
/// directory) falls back to the filesystem root, the session continuing
/// either way.
pub fn apply_cd(session: &mut ShellSession, had_argument: bool, outcome: Result<String, String>)
    -> (report: Option<String>)
    ensures
        final(session).running == old(session).running,
        match outcome {
            Ok(d) => final(session).cwd.path@ == d@ && report is None,
            Err(m) => report matches Some(r2) && r2@ == m@
                && (had_argument ==> final(session).cwd == old(session).cwd)
                && (!had_argument ==> final(session).cwd.path@ == "/"@),
        },
{
    match outcome {
        Ok(d) => {
            session.cwd.set(d);
            None
        },
        Err(m) => {
            if !had_argument {
                session.cwd.set(String::from_str("/"));
            }
            Some(m)
        },
    }
}

} // verus!
