use mcp_multi_tool::command::CommandError;
use mcp_multi_tool::session::{
    build_http_target, build_sse_target, check_http_target, check_sse_target, find_tool,
    handshake_timeout_ms, plan_list_tools, plan_probe, probe_success, probe_timeout_message,
    resolve_stdio_invocation, session_timeout_message, ListPlan, ProbePlan, SessionError,
};
use mcp_multi_tool::types::{ProbeRequest, TargetTransportKind};

fn stdio(command: Option<&str>, args: Option<Vec<&str>>) -> ProbeRequest {
    let mut request = ProbeRequest::default();
    request.transport = Some(TargetTransportKind::Stdio);
    request.command = command.map(|c| c.to_string());
    request.args = args.map(|list| list.into_iter().map(|a| a.to_string()).collect());
    request
}

#[test]
fn probe_without_command_is_answered_at_once() {
    let request = stdio(None, None);
    match plan_probe(&request).unwrap() {
        ProbePlan::Answer(result) => {
            assert!(!result.ok);
            assert_eq!(result.transport, "stdio");
            assert_eq!(result.error.as_deref(), Some("missing command for stdio"));
            assert_eq!(result.version, None);
            assert_eq!(result.latency_ms, None);
            assert_eq!(result.server_name, None);
        }
        other => panic!("expected an answer, got {:?}", other),
    }
    // the transport defaults to standard streams
    assert!(matches!(plan_probe(&ProbeRequest::default()).unwrap(), ProbePlan::Answer(_)));
    // an empty command with arguments is missing as well
    assert!(matches!(
        plan_probe(&stdio(Some(""), Some(vec!["x"]))).unwrap(),
        ProbePlan::Answer(_)
    ));
    // arguments without a command
    assert!(matches!(
        plan_probe(&stdio(None, Some(vec!["x"]))).unwrap(),
        ProbePlan::Answer(_)
    ));
}

#[test]
fn probe_stdio_plans_the_child_process() {
    let mut request = stdio(Some("server bin"), Some(vec!["--flag", "v"]));
    request.cwd = Some("/tmp".into());
    request.handshake_timeout_ms = Some(5_000);
    match plan_probe(&request).unwrap() {
        ProbePlan::Stdio { launch, handshake_timeout_ms } => {
            // command and arguments are taken as they are
            assert_eq!(launch.program, "server bin");
            assert_eq!(launch.args, vec!["--flag", "v"]);
            assert_eq!(launch.cwd.as_deref(), Some("/tmp"));
            assert_eq!(handshake_timeout_ms, 5_000);
        }
        other => panic!("expected stdio, got {:?}", other),
    }
    // a command alone is split into words
    match plan_probe(&stdio(Some("server --flag 'a b'"), None)).unwrap() {
        ProbePlan::Stdio { launch, handshake_timeout_ms } => {
            assert_eq!(launch.program, "server");
            assert_eq!(launch.args, vec!["--flag", "a b"]);
            assert_eq!(handshake_timeout_ms, 15_000);
        }
        other => panic!("expected stdio, got {:?}", other),
    }
    assert_eq!(plan_probe(&stdio(Some(""), None)).unwrap_err(), CommandError::Empty);
    assert_eq!(plan_probe(&stdio(Some("a 'b"), None)).unwrap_err(), CommandError::Unparsable);
}

#[test]
fn probe_network_targets() {
    let mut request = ProbeRequest::default();
    request.transport = Some(TargetTransportKind::Sse);
    match plan_probe(&request).unwrap() {
        ProbePlan::Answer(result) => {
            assert_eq!(result.transport, "sse");
            assert_eq!(result.error.as_deref(), Some("missing url"));
        }
        other => panic!("expected an answer, got {:?}", other),
    }
    request.url = Some("".into());
    assert!(matches!(plan_probe(&request).unwrap(), ProbePlan::Answer(_)));
    request.url = Some("http://host/sse".into());
    match plan_probe(&request).unwrap() {
        ProbePlan::Sse { url, handshake_timeout_ms } => {
            assert_eq!(url, "http://host/sse");
            assert_eq!(handshake_timeout_ms, 15_000);
        }
        other => panic!("expected sse, got {:?}", other),
    }
    request.transport = Some(TargetTransportKind::Http);
    request.auth_token = Some("tok".into());
    request.handshake_timeout_ms = Some(1);
    match plan_probe(&request).unwrap() {
        ProbePlan::Http { url, auth_token, handshake_timeout_ms } => {
            assert_eq!(url, "http://host/sse");
            assert_eq!(auth_token.as_deref(), Some("tok"));
            assert_eq!(handshake_timeout_ms, 1);
        }
        other => panic!("expected http, got {:?}", other),
    }
    request.url = None;
    match plan_probe(&request).unwrap() {
        ProbePlan::Answer(result) => {
            assert_eq!(result.transport, "http");
            assert_eq!(result.error.as_deref(), Some("missing url"));
        }
        other => panic!("expected an answer, got {:?}", other),
    }
}

#[test]
fn probe_answers_and_messages() {
    let ok = probe_success(TargetTransportKind::Stdio, Some("1.2.3".into()), 17);
    assert!(ok.ok);
    assert_eq!(ok.transport, "stdio");
    assert_eq!(ok.version.as_deref(), Some("1.2.3"));
    assert_eq!(ok.latency_ms, Some(17));
    assert_eq!(ok.error, None);
    assert_eq!(ok.server_name, None);
    assert_eq!(
        probe_timeout_message(TargetTransportKind::Stdio, 15_000),
        "stdio handshake timed out after 15000 ms"
    );
    assert_eq!(
        probe_timeout_message(TargetTransportKind::Http, 0),
        "http handshake timed out after 0 ms"
    );
    assert_eq!(session_timeout_message(TargetTransportKind::Sse), "sse handshake timed out");
    assert_eq!(TargetTransportKind::Stdio.context(), "spawn stdio target");
    assert_eq!(TargetTransportKind::Sse.context(), "connect sse target");
    assert_eq!(TargetTransportKind::Http.context(), "connect http target");
    assert_eq!(handshake_timeout_ms(None), 15_000);
    assert_eq!(handshake_timeout_ms(Some(3)), 3);
}

#[test]
fn stdio_invocation_is_resolved() {
    assert_eq!(
        resolve_stdio_invocation(&stdio(Some("bin"), Some(vec!["a"])), Some("env-bin")),
        Ok(("bin".to_string(), vec!["a".to_string()]))
    );
    assert_eq!(
        resolve_stdio_invocation(&stdio(Some("bin -x"), None), None),
        Ok(("bin".to_string(), vec!["-x".to_string()]))
    );
    assert_eq!(
        resolve_stdio_invocation(&stdio(Some("  \t"), Some(vec!["a"])), Some("env-bin")),
        Err(SessionError::BlankCommand)
    );
    assert_eq!(
        resolve_stdio_invocation(&stdio(None, Some(vec!["a"])), Some("env-bin")),
        Err(SessionError::ArgumentsWithoutCommand)
    );
    assert_eq!(
        resolve_stdio_invocation(&stdio(None, Some(vec![])), Some("env-bin --y")),
        Ok(("env-bin".to_string(), vec!["--y".to_string()]))
    );
    assert_eq!(
        resolve_stdio_invocation(&stdio(None, None), None),
        Err(SessionError::NoCommand)
    );
    assert_eq!(
        resolve_stdio_invocation(&stdio(None, None), Some("'open")),
        Err(SessionError::EnvironmentCommand(CommandError::Unparsable))
    );
    assert_eq!(
        resolve_stdio_invocation(&stdio(Some("x 'open"), None), None),
        Err(SessionError::Command(CommandError::Unparsable))
    );
}

#[test]
fn session_error_messages() {
    assert_eq!(
        SessionError::BlankCommand.message(""),
        "command is required for stdio transport"
    );
    assert_eq!(
        SessionError::ArgumentsWithoutCommand.message(""),
        "arguments provided without command for stdio transport"
    );
    assert_eq!(
        SessionError::NoCommand.message(""),
        "command is required for stdio transport; set 'command'/'args' or INSPECTOR_STDIO_CMD"
    );
    assert_eq!(SessionError::MissingSseUrl.message(""), "missing sse url");
    assert_eq!(SessionError::MissingHttpUrl.message(""), "missing http url");
    assert_eq!(
        SessionError::Command(CommandError::Empty).message("x"),
        "empty command"
    );
    assert_eq!(
        SessionError::EnvironmentCommand(CommandError::Unparsable).message("a 'b"),
        "failed to parse command 'a 'b': missing closing quote"
    );
}

#[test]
fn network_targets_are_built() {
    let mut request = ProbeRequest::default();
    assert_eq!(build_sse_target(&request).unwrap_err(), SessionError::MissingSseUrl);
    assert_eq!(build_http_target(&request).unwrap_err(), SessionError::MissingHttpUrl);
    request.url = Some("http://h".into());
    request.auth_token = Some("t".into());
    request.handshake_timeout_ms = Some(9);
    let sse = build_sse_target(&request).unwrap();
    assert_eq!(sse.url, "http://h");
    assert_eq!(sse.handshake_timeout_ms, Some(9));
    let http = build_http_target(&request).unwrap();
    assert_eq!(http.url, "http://h");
    assert_eq!(http.auth_token.as_deref(), Some("t"));
    assert_eq!(http.handshake_timeout_ms, Some(9));
    assert_eq!(check_sse_target(&sse), Ok(9));
    assert_eq!(check_http_target(&http), Ok(9));
    let mut bare_sse = sse.clone();
    bare_sse.url = String::new();
    bare_sse.handshake_timeout_ms = None;
    assert_eq!(check_sse_target(&bare_sse), Err(SessionError::MissingSseUrl));
    bare_sse.url = "u".into();
    assert_eq!(check_sse_target(&bare_sse), Ok(15_000));
    let mut bare_http = http.clone();
    bare_http.url = String::new();
    assert_eq!(check_http_target(&bare_http), Err(SessionError::MissingHttpUrl));
}

#[test]
fn listing_is_planned_by_transport() {
    match plan_list_tools(&stdio(None, None), Some("env-bin a")).unwrap() {
        ListPlan::Stdio(launch) => {
            assert_eq!(launch.program, "env-bin");
            assert_eq!(launch.args, vec!["a"]);
        }
        other => panic!("expected stdio, got {:?}", other),
    }
    let mut request = ProbeRequest::default();
    request.transport = Some(TargetTransportKind::Http);
    assert_eq!(plan_list_tools(&request, None).unwrap_err(), SessionError::MissingHttpUrl);
    request.transport = Some(TargetTransportKind::Sse);
    assert_eq!(plan_list_tools(&request, None).unwrap_err(), SessionError::MissingSseUrl);
    request.url = Some("u".into());
    assert!(matches!(plan_list_tools(&request, None).unwrap(), ListPlan::Sse(_)));
    request.transport = Some(TargetTransportKind::Http);
    assert!(matches!(plan_list_tools(&request, None).unwrap(), ListPlan::Http(_)));
}

#[test]
fn describe_round_trip() {
    let names: Vec<String> = vec!["help".into(), "echo".into(), "add".into(), "echo".into()];
    assert_eq!(find_tool(&names, "help"), Ok(0));
    assert_eq!(find_tool(&names, "echo"), Ok(1));
    assert_eq!(find_tool(&names, "add"), Ok(2));
    assert_eq!(find_tool(&names, "sub"), Err("tool 'sub' not found".to_string()));
    assert_eq!(find_tool(&Vec::new(), "help"), Err("tool 'help' not found".to_string()));
    for name in &names {
        let at = find_tool(&names, name).unwrap();
        assert_eq!(&names[at], name);
    }
}
