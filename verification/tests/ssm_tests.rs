use sso_connect::ec2::{list_ec2_instances, running_filter};
use sso_connect::gcp::GcpWorkflow;
use sso_connect::interactive::{select_instance, PromptOutcome, SelectError};
use sso_connect::json::{object, string_array};
use sso_connect::ssm::{
    connect_interactive_session, copy_ssh_key, establish_tunnel, plugin_outcome,
    run_session_manager_plugin, run_ssm_command, session_info, session_parameters,
    start_jupyter_notebook, start_ssm_session_with_document, ParameterValue, SessionInfo,
    SessionParameter, SsmError,
};

fn info() -> SessionInfo {
    SessionInfo {
        session_id: "sess-1".to_string(),
        stream_url: "wss://stream/1".to_string(),
        token_value: "tok".to_string(),
    }
}

#[test]
fn plugin_arguments_for_a_session_without_parameters() {
    let args = run_session_manager_plugin(&info(), "eu-west-1", "Doc", "i-1", None);
    assert_eq!(args.len(), 5);
    assert_eq!(
        args[0],
        "{\"SessionId\":\"sess-1\",\"StreamUrl\":\"wss://stream/1\",\"TokenValue\":\"tok\"}"
    );
    assert_eq!(args[1], "eu-west-1");
    assert_eq!(args[2], "StartSession");
    assert_eq!(args[3], "");
    assert_eq!(args[4], "{\"DocumentName\":\"Doc\",\"Parameters\":{},\"Target\":\"i-1\"}");
}

#[test]
fn plugin_arguments_match_what_serde_json_writes() {
    let request = establish_tunnel("i-9", 2222, 22);
    let args = run_session_manager_plugin(
        &info(),
        "eu-west-1",
        &request.document_name,
        &request.target,
        Some(&request.parameters),
    );
    let mut session = serde_json::Map::new();
    session.insert("SessionId".to_string(), serde_json::Value::from("sess-1"));
    session.insert("StreamUrl".to_string(), serde_json::Value::from("wss://stream/1"));
    session.insert("TokenValue".to_string(), serde_json::Value::from("tok"));
    assert_eq!(args[0], serde_json::Value::Object(session).to_string());
    let mut parameters = serde_json::Map::new();
    parameters.insert(
        "portNumber".to_string(),
        serde_json::Value::Array(vec![serde_json::Value::from("22")]),
    );
    parameters.insert(
        "localPortNumber".to_string(),
        serde_json::Value::Array(vec![serde_json::Value::from("2222")]),
    );
    let mut extra = serde_json::Map::new();
    extra.insert("Target".to_string(), serde_json::Value::from("i-9"));
    extra.insert(
        "DocumentName".to_string(),
        serde_json::Value::from("AWS-StartPortForwardingSession"),
    );
    extra.insert("Parameters".to_string(), serde_json::Value::Object(parameters));
    assert_eq!(args[4], serde_json::Value::Object(extra).to_string());
}

#[test]
fn strings_are_quoted_and_escaped() {
    let session = SessionInfo {
        session_id: "a\"b\\c".to_string(),
        stream_url: "line\nbreak".to_string(),
        token_value: "\u{e9}\t".to_string(),
    };
    let args = run_session_manager_plugin(&session, "r", "d", "t", None);
    assert_eq!(
        args[0],
        "{\"SessionId\":\"a\\\"b\\\\c\",\"StreamUrl\":\"line\\nbreak\",\"TokenValue\":\"\u{e9}\\t\"}"
    );
    let parsed: serde_json::Value = serde_json::from_str(&args[0]).unwrap();
    assert_eq!(parsed["SessionId"].as_str(), Some("a\"b\\c"));
    assert_eq!(parsed["StreamUrl"].as_str(), Some("line\nbreak"));
}

#[test]
fn json_lists_and_objects() {
    assert_eq!(string_array(&vec![]), "[]");
    assert_eq!(string_array(&vec!["bash".to_string()]), "[\"bash\"]");
    assert_eq!(string_array(&vec!["a".to_string(), "b".to_string()]), "[\"a\",\"b\"]");
    assert_eq!(object(&vec![]), "{}");
    assert_eq!(
        object(&vec![("k".to_string(), "1".to_string()), ("l".to_string(), "[]".to_string())]),
        "{\"k\":1,\"l\":[]}"
    );
}

#[test]
fn interactive_session_request() {
    let r = connect_interactive_session("i-123");
    assert_eq!(r.target, "i-123");
    assert_eq!(r.document_name, "AWS-StartInteractiveCommand");
    assert_eq!(r.parameters.len(), 1);
    assert_eq!(r.parameters[0].name, "command");
    assert_eq!(r.parameters[0].values, vec!["bash"]);
    let args = run_session_manager_plugin(
        &info(),
        "eu-west-1",
        &r.document_name,
        &r.target,
        Some(&r.parameters),
    );
    assert_eq!(
        args[4],
        "{\"DocumentName\":\"AWS-StartInteractiveCommand\",\"Parameters\":{\"command\":[\"bash\"]},\"Target\":\"i-123\"}"
    );
}

#[test]
fn tunnel_request() {
    let r = establish_tunnel("i-1", 2222, 22);
    assert_eq!(r.document_name, "AWS-StartPortForwardingSession");
    assert_eq!(r.parameters.len(), 2);
    assert_eq!(r.parameters[0].name, "localPortNumber");
    assert_eq!(r.parameters[0].values, vec!["2222"]);
    assert_eq!(r.parameters[1].name, "portNumber");
    assert_eq!(r.parameters[1].values, vec!["22"]);
}

#[test]
fn notebook_plan() {
    let p = start_jupyter_notebook("i-1", "ssm-user", 2222, 8888);
    assert_eq!(p.command.document_name, "AWS-RunShellScript");
    assert_eq!(p.command.instance_id, "i-1");
    assert_eq!(p.command.comment, "Start Jupyter Notebook");
    assert_eq!(
        p.command.commands,
        vec!["sudo -u ssm-user nohup jupyter notebook --no-browser --ip=0.0.0.0 --port=8888 > ~/jupyter.log 2>&1 &"]
    );
    assert_eq!(p.tunnel.parameters[0].values, vec!["2222"]);
    assert_eq!(p.tunnel.parameters[1].values, vec!["8888"]);
}

#[test]
fn key_is_installed_without_surrounding_white_space() {
    let r = copy_ssh_key("i-1", "ssm-user", "  ssh-rsa AAAA user@host \n");
    assert_eq!(r.document_name, "AWS-RunShellScript");
    assert_eq!(r.instance_id, "i-1");
    assert_eq!(r.comment, "Append SSH public key");
    assert_eq!(
        r.commands,
        vec!["sudo -u ssm-user bash -c 'mkdir -p /home/ssm-user/.ssh && chmod 700 /home/ssm-user/.ssh && touch /home/ssm-user/.ssh/authorized_keys && chmod 600 /home/ssm-user/.ssh/authorized_keys && grep -qxF \"ssh-rsa AAAA user@host\" /home/ssm-user/.ssh/authorized_keys || echo \"ssh-rsa AAAA user@host\" >> /home/ssm-user/.ssh/authorized_keys'"]
    );
}

#[test]
fn shell_command_request() {
    let r = run_ssm_command("i-7", vec!["ls".to_string(), "pwd".to_string()], "look");
    assert_eq!(r.document_name, "AWS-RunShellScript");
    assert_eq!(r.instance_id, "i-7");
    assert_eq!(r.commands, vec!["ls", "pwd"]);
    assert_eq!(r.comment, "look");
}

#[test]
fn parameters_must_be_lists() {
    let good = Some(vec![
        ("command".to_string(), ParameterValue::List(vec![Some("bash".to_string()), None])),
        ("empty".to_string(), ParameterValue::List(vec![])),
    ]);
    let p: Vec<SessionParameter> = session_parameters(&good).unwrap();
    assert_eq!(p.len(), 2);
    assert_eq!(p[0].name, "command");
    assert_eq!(p[0].values, vec!["bash", ""]);
    assert_eq!(p[1].name, "empty");
    assert!(p[1].values.is_empty());
    let bad = Some(vec![
        ("command".to_string(), ParameterValue::List(vec![])),
        ("port".to_string(), ParameterValue::NotAList),
    ]);
    assert_eq!(session_parameters(&bad).unwrap_err(), SsmError::InvalidParameterFormat);
    assert!(session_parameters(&None).unwrap().is_empty());
    assert!(session_parameters(&Some(vec![])).unwrap().is_empty());
}

#[test]
fn start_session_request() {
    let r = start_ssm_session_with_document(
        "i-1",
        "Doc",
        &Some(vec![("k".to_string(), ParameterValue::List(vec![Some("v".to_string())]))]),
    )
    .unwrap();
    assert_eq!(r.target, "i-1");
    assert_eq!(r.document_name, "Doc");
    assert_eq!(r.parameters[0].values, vec!["v"]);
    let e = start_ssm_session_with_document(
        "i-1",
        "Doc",
        &Some(vec![("k".to_string(), ParameterValue::NotAList)]),
    )
    .unwrap_err();
    assert_eq!(e, SsmError::InvalidParameterFormat);
    assert_eq!(e.message(), "Invalid parameter format");
}

#[test]
fn session_info_from_response() {
    let s = session_info(Some("a".to_string()), Some("b".to_string()), Some("c".to_string()));
    assert_eq!(s.session_id, "a");
    assert_eq!(s.stream_url, "b");
    assert_eq!(s.token_value, "c");
}

#[test]
fn plugin_outcome_maps_failure() {
    assert_eq!(plugin_outcome(true), Ok(()));
    assert_eq!(plugin_outcome(false), Err(SsmError::PluginFailed));
    assert_eq!(SsmError::PluginFailed.message(), "session-manager-plugin execution failed");
}

#[test]
fn instance_ids_are_flattened_in_order() {
    let reservations = vec![
        vec![Some("i-1".to_string()), None, Some("i-2".to_string())],
        vec![],
        vec![None],
        vec![Some("i-3".to_string())],
    ];
    assert_eq!(list_ec2_instances(&reservations), vec!["i-1", "i-2", "i-3"]);
    assert!(list_ec2_instances(&vec![]).is_empty());
    let f = running_filter("instance-state-name");
    assert_eq!(f.name, "instance-state-name");
    assert_eq!(f.values, vec!["running"]);
}

#[test]
fn instance_choice() {
    assert_eq!(select_instance(PromptOutcome::Chosen("i-1".to_string())).unwrap(), "i-1");
    let c = select_instance(PromptOutcome::Cancelled).unwrap_err();
    assert!(matches!(c, SelectError::Cancelled));
    assert_eq!(c.message(), "Selection cancelled by user");
    let f = select_instance(PromptOutcome::Failed("not a tty".to_string())).unwrap_err();
    assert_eq!(f.message(), "not a tty");
}

#[test]
fn gcp_workflow_announces_itself() {
    let w = GcpWorkflow::new("proj-1".to_string());
    assert_eq!(w.project_id(), "proj-1");
    assert_eq!(w.run_workflow(), "To still be implemented: proj-1");
}
