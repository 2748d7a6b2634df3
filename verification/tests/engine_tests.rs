use rush::engine::{
    apply_cd, argument_text, builtin_of, cd_target, dispatch_statement, pipeline_status,
    plan_pipeline, stage_stdin, stage_stdout, stage_step, BuiltinKind, PipelinePlan, ShellSession,
    StageEvent, StageState, StatementDispatch, StdinSource, StdoutSink,
};
use rush::parser::{ASTNode, ASTNodeType, Parser};
use rush::rush_path::RushPath;

fn command(name: &str, args: Vec<ASTNode>) -> ASTNode {
    ASTNode { node_type: ASTNodeType::CommandInvocation(String::from(name), args) }
}

fn parse_pipeline_stages(line: &str) -> Vec<ASTNode> {
    let mut p = Parser::new();
    let parsed = p.parse(line).expect("the line must parse");
    match parsed.node_type {
        ASTNodeType::StatementList(mut stmts) => match stmts.remove(0).node_type {
            ASTNodeType::Pipeline(stages) => stages,
            _ => panic!("expected a pipeline"),
        },
        _ => panic!("expected a statement list"),
    }
}

#[test]
fn builtins_are_cd_and_exit() {
    assert_eq!(builtin_of("cd"), Some(BuiltinKind::Cd));
    assert_eq!(builtin_of("exit"), Some(BuiltinKind::Exit));
    assert_eq!(builtin_of("ls"), None);
    assert_eq!(builtin_of(""), None);
}

#[test]
fn script_constructs_go_to_the_evaluator() {
    let mut p = Parser::new();
    let parsed = p.parse("let x = 1.0 if true { ls } fn f() { ls } echo hi").expect("parses");
    match parsed.node_type {
        ASTNodeType::StatementList(stmts) => {
            assert_eq!(dispatch_statement(&stmts[0]), StatementDispatch::Evaluate);
            assert_eq!(dispatch_statement(&stmts[1]), StatementDispatch::Evaluate);
            assert_eq!(dispatch_statement(&stmts[2]), StatementDispatch::Evaluate);
            assert_eq!(dispatch_statement(&stmts[3]), StatementDispatch::RunPipeline);
        },
        _ => panic!("expected a statement list"),
    }
}

#[test]
fn bare_expressions_go_to_the_evaluator() {
    let mut p = Parser::new();
    let parsed = p.parse("1.0 + 2.0 \"hi\" (true)").expect("parses");
    match parsed.node_type {
        ASTNodeType::StatementList(stmts) => {
            assert_eq!(stmts.len(), 3);
            assert_eq!(dispatch_statement(&stmts[0]), StatementDispatch::Evaluate);
            assert_eq!(dispatch_statement(&stmts[1]), StatementDispatch::Evaluate);
            assert_eq!(dispatch_statement(&stmts[2]), StatementDispatch::Evaluate);
        },
        _ => panic!("expected a statement list"),
    }
}

#[test]
fn pipeline_reports_the_last_stage_status() {
    // a pipeline of `false` then `true`: every stage is spawned, and the
    // pipeline's status is the last stage's, whatever the earlier stages
    // reported
    let stages = vec![command("false", vec![]), command("true", vec![])];
    assert_eq!(plan_pipeline(&stages), PipelinePlan::Spawn);
    let statuses = vec![1, 0];
    assert_eq!(pipeline_status(&statuses), 0);
    let statuses = vec![0, 3];
    assert_eq!(pipeline_status(&statuses), 3);
}

#[test]
fn single_builtin_stage_runs_in_place() {
    let stages = parse_pipeline_stages("cd /tmp");
    assert_eq!(plan_pipeline(&stages), PipelinePlan::Builtin(BuiltinKind::Cd));
    let stages = parse_pipeline_stages("exit");
    assert_eq!(plan_pipeline(&stages), PipelinePlan::Builtin(BuiltinKind::Exit));
}

#[test]
fn builtin_inside_a_multi_stage_pipeline_is_refused() {
    let stages = parse_pipeline_stages("cd /tmp | grep foo");
    assert_eq!(plan_pipeline(&stages), PipelinePlan::UnsupportedPipelineStage { stage: 0 });
    let stages = parse_pipeline_stages("ls | exit");
    assert_eq!(plan_pipeline(&stages), PipelinePlan::UnsupportedPipelineStage { stage: 1 });
}

#[test]
fn pipe_wiring_connects_adjacent_stages() {
    let n = 3;
    assert_eq!(stage_stdin(0), StdinSource::Inherit);
    assert_eq!(stage_stdin(1), StdinSource::PipeFromPrevious);
    assert_eq!(stage_stdin(2), StdinSource::PipeFromPrevious);
    assert_eq!(stage_stdout(0, n), StdoutSink::PipeToNext);
    assert_eq!(stage_stdout(1, n), StdoutSink::PipeToNext);
    assert_eq!(stage_stdout(2, n), StdoutSink::Inherit);
}

#[test]
fn stage_lifecycle_never_reenters_pending() {
    let spawned = stage_step(&StageState::Pending, StageEvent::Spawn).expect("spawn is allowed");
    assert_eq!(spawned, StageState::Spawned);
    let exited = stage_step(&spawned, StageEvent::Exit(0)).expect("exit is allowed");
    assert_eq!(exited, StageState::Exited(0));
    // terminal states take no further events; failed spawns are not retried
    assert_eq!(stage_step(&exited, StageEvent::Spawn), None);
    let failed = stage_step(
        &StageState::Pending,
        StageEvent::SpawnError(String::from("no such file")),
    )
    .expect("a spawn failure is recorded");
    assert_eq!(failed, StageState::SpawnFailed(String::from("no such file")));
    assert_eq!(stage_step(&failed, StageEvent::Spawn), None);
    assert_eq!(stage_step(&StageState::Spawned, StageEvent::Spawn), None);
}

#[test]
fn cd_with_no_argument_goes_home() {
    let target = cd_target(None, Some(String::from("/home/someone")));
    assert_eq!(target, String::from("/home/someone"));

    let mut session = ShellSession::new(RushPath::from(String::from("/etc")));
    let report = apply_cd(&mut session, false, Ok(String::from("/home/someone")));
    assert_eq!(report, None);
    assert_eq!(session.cwd.path, String::from("/home/someone"));
    assert!(session.running);
}

#[test]
fn cd_to_a_missing_directory_reports_and_keeps_the_directory() {
    let arg = String::from("/nonexistent");
    let target = cd_target(Some(&arg), Some(String::from("/home/someone")));
    assert_eq!(target, String::from("/nonexistent"));

    let mut session = ShellSession::new(RushPath::from(String::from("/etc")));
    let report = apply_cd(
        &mut session,
        true,
        Err(String::from("No such file or directory")),
    );
    assert_eq!(report, Some(String::from("No such file or directory")));
    assert_eq!(session.cwd.path, String::from("/etc"));
    assert!(session.running);
}

#[test]
fn cd_home_failure_falls_back_to_the_root() {
    assert_eq!(cd_target(None, None), String::from("/"));

    let mut session = ShellSession::new(RushPath::from(String::from("/etc")));
    let report = apply_cd(&mut session, false, Err(String::from("unresolvable")));
    assert_eq!(report, Some(String::from("unresolvable")));
    assert_eq!(session.cwd.path, String::from("/"));
    assert!(session.running);
}

#[test]
fn exit_ends_the_loop_cleanly() {
    let mut session = ShellSession::new(RushPath::from(String::from("/etc")));
    session.apply_exit();
    assert!(!session.running);
    assert_eq!(session.cwd.path, String::from("/etc"));
}

#[test]
fn argument_text_reads_each_argument_kind() {
    let i = ASTNode { node_type: ASTNodeType::Identifier(String::from("-a")) };
    let s = ASTNode { node_type: ASTNodeType::StringLiteral(String::from("a b")) };
    let n = ASTNode { node_type: ASTNodeType::NumberLiteral(String::from("2.5")) };
    let b = ASTNode { node_type: ASTNodeType::BoolLiteral(true) };
    let p = ASTNode { node_type: ASTNodeType::Pipeline(vec![command("ls", vec![])]) };
    assert_eq!(argument_text(&i), Some(String::from("-a")));
    assert_eq!(argument_text(&s), Some(String::from("a b")));
    assert_eq!(argument_text(&n), Some(String::from("2.5")));
    assert_eq!(argument_text(&b), Some(String::from("true")));
    assert_eq!(argument_text(&p), None);
}

#[test]
fn rush_path_holds_and_replaces_its_text() {
    let mut p = RushPath::new();
    assert_eq!(p.to_str(), Some(""));
    p.set(String::from("/usr/local"));
    assert_eq!(p.to_str(), Some("/usr/local"));
    let q = RushPath::from(String::from("/tmp"));
    assert_eq!(q.to_str(), Some("/tmp"));
}
