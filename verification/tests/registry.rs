use mcp_multi_tool::compliance::{parse_env, ComplianceTarget};
use mcp_multi_tool::registry::{ArgumentShape, ToolRegistry};
use mcp_multi_tool::error_budget::FreezeReport;
use mcp_multi_tool::server::{
    conflict_reply, dispatch, failure_reply, freeze_reply, help_sections, rollback_reply,
    route_tool, unknown_tool_reply, Dispatch, ErrorCode, HelpSection, ToolRoute,
};
use mcp_multi_tool::types::ReleaseTrack;

#[test]
fn rollback_disables_inspector_tools() {
    let registry = ToolRegistry::new(ReleaseTrack::Rollback);
    let listed = registry.list();
    assert_eq!(listed.len(), 1, "rollback should expose only help tool");
    assert_eq!(listed[0].name, "help");
    assert_eq!(dispatch(registry.release_track(), "inspector_call"), Dispatch::Rollback);
    assert_eq!(ErrorCode::ReleaseTrackRollback.as_str(), "RELEASE_TRACK_ROLLBACK");
    // the help stays, under both of its names
    assert_eq!(dispatch(ReleaseTrack::Rollback, "help"), Dispatch::Route(ToolRoute::Help));
    assert_eq!(dispatch(ReleaseTrack::Rollback, "inspector_help"), Dispatch::Route(ToolRoute::Help));
    // on the rollback track unknown names are refused like the inspector tools
    assert_eq!(dispatch(ReleaseTrack::Rollback, "nothing"), Dispatch::Rollback);
}

#[test]
fn stable_and_canary_expose_every_tool() {
    for track in [ReleaseTrack::Stable, ReleaseTrack::Canary] {
        let listed = ToolRegistry::new(track).list();
        let names: Vec<&str> = listed.iter().map(|tool| tool.name).collect();
        assert_eq!(
            names,
            vec![
                "help",
                "inspector_probe",
                "inspector_list_tools",
                "inspector_describe",
                "inspector_call"
            ]
        );
        assert_eq!(listed[0].arguments, ArgumentShape::Empty);
        assert_eq!(listed[1].arguments, ArgumentShape::Probe);
        assert_eq!(listed[2].arguments, ArgumentShape::Probe);
        assert_eq!(listed[3].arguments, ArgumentShape::Describe);
        assert_eq!(listed[4].arguments, ArgumentShape::Call);
        for tool in &listed {
            assert!(!tool.description.is_empty());
            match dispatch(track, tool.name) {
                Dispatch::Route(route) => assert_ne!(route, ToolRoute::Unknown),
                Dispatch::Rollback => panic!("listed tool is refused"),
            }
        }
    }
}

#[test]
fn tool_names_are_routed() {
    assert_eq!(route_tool("help"), ToolRoute::Help);
    assert_eq!(route_tool("inspector_help"), ToolRoute::Help);
    assert_eq!(route_tool("inspector_probe"), ToolRoute::Probe);
    assert_eq!(route_tool("inspector.probe"), ToolRoute::Probe);
    assert_eq!(route_tool("inspector_list_tools"), ToolRoute::ListTools);
    assert_eq!(route_tool("inspector.list_tools"), ToolRoute::ListTools);
    assert_eq!(route_tool("inspector_describe"), ToolRoute::Describe);
    assert_eq!(route_tool("inspector.describe"), ToolRoute::Describe);
    assert_eq!(route_tool("inspector_call"), ToolRoute::Call);
    assert_eq!(route_tool("inspector.call"), ToolRoute::Call);
    assert_eq!(route_tool("inspector-call"), ToolRoute::Unknown);
    assert_eq!(route_tool(""), ToolRoute::Unknown);
    assert_eq!(dispatch(ReleaseTrack::Stable, "nothing"), Dispatch::Route(ToolRoute::Unknown));
}

#[test]
fn error_codes() {
    assert_eq!(ErrorCode::IdempotencyConflict.as_str(), "IDEMPOTENCY_CONFLICT");
    assert_eq!(ErrorCode::ErrorBudgetExhausted.as_str(), "ERROR_BUDGET_EXHAUSTED");
    assert_eq!(ErrorCode::MissingCommand.as_str(), "MISSING_COMMAND");
    assert_eq!(ErrorCode::MissingStdioCmd.as_str(), "MISSING_STDIO_CMD");
    assert_eq!(ErrorCode::UnknownTool.as_str(), "UNKNOWN_TOOL");
}

#[test]
fn compliance_target_and_entries() {
    let target = ComplianceTarget::stdio("server-bin");
    assert_eq!(target.command.as_deref(), Some("server-bin"));
    assert!(target.args.is_empty());
    assert!(target.env.is_none());
    assert!(target.cwd.is_none());
    assert!(target.sse_url.is_none());
    assert!(target.http_url.is_none());
    assert!(target.http_headers.is_none());
    assert!(target.http_auth_token.is_none());
    assert_eq!(parse_env("KEY=VALUE"), Ok(("KEY".to_string(), "VALUE".to_string())));
    assert_eq!(parse_env("A=b=c"), Ok(("A".to_string(), "b=c".to_string())));
    assert_eq!(parse_env("=x"), Ok(("".to_string(), "x".to_string())));
    assert_eq!(parse_env("A="), Ok(("A".to_string(), "".to_string())));
    assert_eq!(parse_env("novalue"), Err("env entry must be KEY=VALUE".to_string()));
}

#[test]
fn help_outline_follows_the_release_track() {
    let fixed = vec![
        HelpSection::Summary,
        HelpSection::Tool(ToolRoute::Probe),
        HelpSection::Tool(ToolRoute::ListTools),
        HelpSection::Tool(ToolRoute::Describe),
        HelpSection::Tool(ToolRoute::Call),
        HelpSection::Environment,
        HelpSection::Workflow,
    ];
    assert_eq!(help_sections(ReleaseTrack::Stable), fixed);
    assert_eq!(help_sections(ReleaseTrack::Canary), fixed);
    let mut with_notice = fixed.clone();
    with_notice.push(HelpSection::Notice);
    assert_eq!(help_sections(ReleaseTrack::Rollback), with_notice);
    assert_eq!(HelpSection::Summary.as_str(), "summary");
    assert_eq!(HelpSection::Tool(ToolRoute::Call).as_str(), "tool");
    assert_eq!(HelpSection::Environment.as_str(), "environment");
    assert_eq!(HelpSection::Workflow.as_str(), "workflow");
    assert_eq!(HelpSection::Notice.as_str(), "notice");
}

#[test]
fn structured_errors() {
    let plain = failure_reply("boom");
    assert_eq!(plain.error, "boom");
    assert_eq!(plain.code, None);
    assert!(plain.event.is_none());
    assert!(plain.freeze.is_none());
    assert_eq!(unknown_tool_reply().error, "unknown tool");
    assert_eq!(unknown_tool_reply().code, None);
    let rollback = rollback_reply();
    assert_eq!(rollback.error, "inspector disabled by release track");
    assert_eq!(rollback.code, Some(ErrorCode::ReleaseTrackRollback));
    let conflict = conflict_reply("idempotency conflict".into(), None);
    assert_eq!(conflict.error, "idempotency conflict");
    assert_eq!(conflict.code, Some(ErrorCode::IdempotencyConflict));
    assert!(conflict.event.is_none());
    let frozen = freeze_reply(&FreezeReport {
        until: 1_546_300_800_000_000_000,
        successes: 1,
        sample_size: 4,
    });
    assert_eq!(frozen.error, "error budget exhausted");
    assert_eq!(frozen.code, Some(ErrorCode::ErrorBudgetExhausted));
    let notice = frozen.freeze.expect("the end of the freeze");
    assert_eq!(notice.frozen_until, "2019-01-01T00:00:00Z");
    assert_eq!(notice.successes, 1);
    assert_eq!(notice.sample_size, 4);
}
