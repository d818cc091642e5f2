//! Systems Manager sessions: the requests that open them and the commands
//! that prepare an instance.

use vstd::prelude::*;
use vstd::string::*;
use crate::credentials::or_empty;
use crate::device::opt_view;
use crate::json::{array_text, json_string, member_views, object, object_text, quote, string_array};
use crate::text::{decimal, decimal_text, texts, trim_ends, trimmed};

verus! {

/// The port on which a notebook server listens on the instance.
pub const NOTEBOOK_PORT: u16 = 8888;

/// What the session-manager helper needs to attach to a session.
#[derive(Clone, Debug)]
pub struct SessionInfo {
    pub session_id: String,
    pub stream_url: String,
    pub token_value: String,
}

/// The value of one session parameter as the caller gave it: a list, whose
/// items may or may not be texts, or something else.
#[derive(Clone, Debug)]
pub enum ParameterValue {
    List(Vec<Option<String>>),
    NotAList,
}

/// Why a session could not be opened.
#[derive(Clone, Copy, Debug, PartialEq, Eq, Structural)]
pub enum SsmError {
    /// A session parameter is not a list.
    InvalidParameterFormat,
    /// The session-manager helper ended without success.
    PluginFailed,
}

impl SsmError {
    pub open spec fn message_spec(self) -> Seq<char> {
        match self {
            SsmError::InvalidParameterFormat => "Invalid parameter format"@,
            SsmError::PluginFailed => "session-manager-plugin execution failed"@,
        }
    }

    /// The text shown to the user.
    pub fn message(self) -> (out: &'static str)
        ensures
            out@ == self.message_spec(),
    {
        match self {
            SsmError::InvalidParameterFormat => "Invalid parameter format",
            SsmError::PluginFailed => "session-manager-plugin execution failed",
        }
    }
}

/// One session parameter: its name and its values.
#[derive(Clone, Debug)]
pub struct SessionParameter {
    pub name: String,
    pub values: Vec<String>,
}

/// What the start-session call sends.
#[derive(Clone, Debug)]
pub struct StartSessionRequest {
    pub target: String,
    pub document_name: String,
    pub parameters: Vec<SessionParameter>,
}

/// What the send-command call sends.
#[derive(Clone, Debug)]
pub struct SendCommandRequest {
    pub document_name: String,
    pub instance_id: String,
    pub commands: Vec<String>,
    pub comment: String,
}

/// The texts that a list of items stands for: an item that is no text counts
/// as the empty text.
pub open spec fn item_texts(items: Seq<Option<String>>) -> Seq<Seq<char>> {
    items.map_values(|i: Option<String>| or_empty(opt_view(i)))
}

/// Every parameter of the list is a list.
pub open spec fn all_lists(given: Seq<(String, ParameterValue)>) -> bool {
    forall|i: int| 0 <= i < given.len() ==> (#[trigger] given[i]).1 is List
}

/// The session parameter `p` is the one that `g` stands for.
pub open spec fn stands_for(p: SessionParameter, g: (String, ParameterValue)) -> bool {
    &&& p.name@ == g.0@
    &&& g.1 matches ParameterValue::List(items) && texts(p.values@) == item_texts(items@)
}

fn item_values(items: &Vec<Option<String>>) -> (out: Vec<String>)
    ensures
        texts(out@) == item_texts(items@),
{
    let mut out: Vec<String> = Vec::new();
    let mut k: usize = 0;
    while k < items.len()
        invariant
            k <= items.len(),
            out@.len() == k,
            forall|j: int| 0 <= j < k ==> (#[trigger] out@[j])@ == or_empty(opt_view(items@[j])),
        decreases items.len() - k,
    {
        let value = match &items[k] {
            Some(s) => s.clone(),
            None => String::new(),
        };
        out.push(value);
        k = k + 1;
    }
    assert(texts(out@) =~= item_texts(items@));
    out
}

/// Reads the parameters of a session: each must be a list. Without
/// parameters the session has none.
pub fn session_parameters(given: &Option<Vec<(String, ParameterValue)>>) -> (out: Result<
    Vec<SessionParameter>,
    SsmError,
>)
    ensures
        match given {
            None => out is Ok && out->Ok_0@.len() == 0,
            Some(g) => if all_lists(g@) {
                &&& out is Ok
                &&& out->Ok_0@.len() == g@.len()
                &&& forall|i: int|
                    0 <= i < g@.len() ==> stands_for(#[trigger] out->Ok_0@[i], g@[i])
            } else {
                out == Err::<Vec<SessionParameter>, SsmError>(SsmError::InvalidParameterFormat)
            },
        },
{
    let mut out: Vec<SessionParameter> = Vec::new();
    match given {
        None => Ok(out),
        Some(g) => {
            let mut k: usize = 0;
            while k < g.len()
                invariant
                    *given == Some(*g),
                    k <= g.len(),
                    out@.len() == k,
                    forall|i: int| 0 <= i < k ==> (#[trigger] g@[i]).1 is List,
                    forall|i: int| 0 <= i < k ==> stands_for(#[trigger] out@[i], g@[i]),
                decreases g.len() - k,
            {
                match &g[k].1 {
                    ParameterValue::List(items) => {
                        let p = SessionParameter {
                            name: g[k].0.clone(),
                            values: item_values(items),
                        };
                        out.push(p);
                    },
                    ParameterValue::NotAList => {
                        assert(!(g@[k as int].1 is List));
                        return Err(SsmError::InvalidParameterFormat);
                    },
                }
                k = k + 1;
            }
            Ok(out)
        },
    }
}

/// The request that opens a session on an instance with a session document.
pub fn start_ssm_session_with_document(
    instance_id: &str,
    document_name: &str,
    parameters: &Option<Vec<(String, ParameterValue)>>,
) -> (out: Result<StartSessionRequest, SsmError>)
    ensures
        match parameters {
            None => out is Ok && out->Ok_0.parameters@.len() == 0,
            Some(g) => if all_lists(g@) {
                &&& out is Ok
                &&& out->Ok_0.parameters@.len() == g@.len()
                &&& forall|i: int|
                    0 <= i < g@.len() ==> stands_for(#[trigger] out->Ok_0.parameters@[i], g@[i])
            } else {
                out is Err && out->Err_0 == SsmError::InvalidParameterFormat
            },
        },
        out is Ok ==> out->Ok_0.target@ == instance_id@ && out->Ok_0.document_name@
            == document_name@,
{
    match session_parameters(parameters) {
        Ok(p) => Ok(
            StartSessionRequest {
                target: String::from_str(instance_id),
                document_name: String::from_str(document_name),
                parameters: p,
            },
        ),
        Err(e) => Err(e),
    }
}

/// The session that a start-session response describes. The response must
/// hold all three fields.
pub fn session_info(
    session_id: Option<String>,
    stream_url: Option<String>,
    token_value: Option<String>,
) -> (out: SessionInfo)
    requires
        session_id is Some,
        stream_url is Some,
        token_value is Some,
    ensures
        out.session_id@ == session_id->0@,
        out.stream_url@ == stream_url->0@,
        out.token_value@ == token_value->0@,
{
    SessionInfo {
        session_id: session_id.unwrap(),
        stream_url: stream_url.unwrap(),
        token_value: token_value.unwrap(),
    }
}

/// The request that runs shell commands on an instance.
pub fn run_ssm_command(instance_id: &str, commands: Vec<String>, comment: &str) -> (out:
    SendCommandRequest)
    ensures
        out.document_name@ == "AWS-RunShellScript"@,
        out.instance_id@ == instance_id@,
        out.commands == commands,
        out.comment@ == comment@,
{
    SendCommandRequest {
        document_name: String::from_str("AWS-RunShellScript"),
        instance_id: String::from_str(instance_id),
        commands,
        comment: String::from_str(comment),
    }
}

/// The shell command that adds a public key to a user's authorized keys,
/// once, making the directory and the file where they are missing.
pub open spec fn append_key_command(username: Seq<char>, key: Seq<char>) -> Seq<char> {
    "sudo -u "@ + username + " bash -c 'mkdir -p /home/"@ + username + "/.ssh && chmod 700 /home/"@
        + username + "/.ssh && touch /home/"@ + username
        + "/.ssh/authorized_keys && chmod 600 /home/"@ + username
        + "/.ssh/authorized_keys && grep -qxF \""@ + key + "\" /home/"@ + username
        + "/.ssh/authorized_keys || echo \""@ + key + "\" >> /home/"@ + username
        + "/.ssh/authorized_keys'"@
}

/// The request that installs a public key for a user of an instance. The
/// key is given as its file holds it, and is used without the white space
/// at its ends.
pub fn copy_ssh_key(instance_id: &str, username: &str, key_file: &str) -> (out: SendCommandRequest)
    ensures
        out.document_name@ == "AWS-RunShellScript"@,
        out.instance_id@ == instance_id@,
        texts(out.commands@) == seq![append_key_command(username@, trimmed(key_file@))],
        out.comment@ == "Append SSH public key"@,
{
    let key = trim_ends(key_file);
    let command = String::from_str("sudo -u ").concat(username).concat(
        " bash -c 'mkdir -p /home/",
    ).concat(username).concat("/.ssh && chmod 700 /home/").concat(username).concat(
        "/.ssh && touch /home/",
    ).concat(username).concat("/.ssh/authorized_keys && chmod 600 /home/").concat(username).concat(
        "/.ssh/authorized_keys && grep -qxF \"",
    ).concat(key).concat("\" /home/").concat(username).concat(
        "/.ssh/authorized_keys || echo \"",
    ).concat(key).concat("\" >> /home/").concat(username).concat("/.ssh/authorized_keys'");
    let mut commands: Vec<String> = Vec::new();
    commands.push(command);
    assert(texts(commands@) =~= seq![append_key_command(username@, trimmed(key_file@))]);
    run_ssm_command(instance_id, commands, "Append SSH public key")
}

/// A session parameter with one value.
fn single(name: &str, value: String) -> (out: SessionParameter)
    ensures
        out.name@ == name@,
        texts(out.values@) == seq![value@],
{
    let mut values: Vec<String> = Vec::new();
    values.push(value);
    assert(texts(values@) =~= seq![value@]);
    SessionParameter { name: String::from_str(name), values }
}

/// The request that opens an interactive shell on an instance.
pub fn connect_interactive_session(instance_id: &str) -> (out: StartSessionRequest)
    ensures
        out.target@ == instance_id@,
        out.document_name@ == "AWS-StartInteractiveCommand"@,
        out.parameters@.len() == 1,
        out.parameters@[0].name@ == "command"@,
        texts(out.parameters@[0].values@) == seq!["bash"@],
{
    let mut parameters: Vec<SessionParameter> = Vec::new();
    parameters.push(single("command", String::from_str("bash")));
    StartSessionRequest {
        target: String::from_str(instance_id),
        document_name: String::from_str("AWS-StartInteractiveCommand"),
        parameters,
    }
}

/// The request that forwards a local port to a port of an instance. The
/// parameters stand in the order of their names.
pub fn establish_tunnel(instance_id: &str, local_port: u16, remote_port: u16) -> (out:
    StartSessionRequest)
    ensures
        out.target@ == instance_id@,
        out.document_name@ == "AWS-StartPortForwardingSession"@,
        out.parameters@.len() == 2,
        out.parameters@[0].name@ == "localPortNumber"@,
        texts(out.parameters@[0].values@) == seq![decimal(local_port as nat)],
        out.parameters@[1].name@ == "portNumber"@,
        texts(out.parameters@[1].values@) == seq![decimal(remote_port as nat)],
{
    let mut parameters: Vec<SessionParameter> = Vec::new();
    parameters.push(single("localPortNumber", decimal_text(local_port)));
    parameters.push(single("portNumber", decimal_text(remote_port)));
    StartSessionRequest {
        target: String::from_str(instance_id),
        document_name: String::from_str("AWS-StartPortForwardingSession"),
        parameters,
    }
}

/// The shell command that starts a notebook server for a user on a port.
pub open spec fn notebook_command(username: Seq<char>, port: nat) -> Seq<char> {
    "sudo -u "@ + username + " nohup jupyter notebook --no-browser --ip=0.0.0.0 --port="@
        + decimal(port) + " > ~/jupyter.log 2>&1 &"@
}

/// What starting a notebook takes: the command to run on the instance, then
/// the tunnel to its port.
#[derive(Clone, Debug)]
pub struct NotebookPlan {
    pub command: SendCommandRequest,
    pub tunnel: StartSessionRequest,
}

/// The requests that start a notebook server on an instance and forward a
/// local port to it.
pub fn start_jupyter_notebook(
    instance_id: &str,
    username: &str,
    local_port: u16,
    remote_port: u16,
) -> (out: NotebookPlan)
    ensures
        out.command.document_name@ == "AWS-RunShellScript"@,
        out.command.instance_id@ == instance_id@,
        texts(out.command.commands@) == seq![notebook_command(username@, remote_port as nat)],
        out.command.comment@ == "Start Jupyter Notebook"@,
        out.tunnel.target@ == instance_id@,
        out.tunnel.document_name@ == "AWS-StartPortForwardingSession"@,
        out.tunnel.parameters@.len() == 2,
        out.tunnel.parameters@[0].name@ == "localPortNumber"@,
        texts(out.tunnel.parameters@[0].values@) == seq![decimal(local_port as nat)],
        out.tunnel.parameters@[1].name@ == "portNumber"@,
        texts(out.tunnel.parameters@[1].values@) == seq![decimal(remote_port as nat)],
{
    let command = String::from_str("sudo -u ").concat(username).concat(
        " nohup jupyter notebook --no-browser --ip=0.0.0.0 --port=",
    ).concat(decimal_text(remote_port).as_str()).concat(" > ~/jupyter.log 2>&1 &");
    let mut commands: Vec<String> = Vec::new();
    commands.push(command);
    assert(texts(commands@) =~= seq![notebook_command(username@, remote_port as nat)]);
    NotebookPlan {
        command: run_ssm_command(instance_id, commands, "Start Jupyter Notebook"),
        tunnel: establish_tunnel(instance_id, local_port, remote_port),
    }
}

/// The session parameters as the members of a JSON object: each value is
/// the list of the parameter's values.
pub open spec fn parameter_members(parameters: Seq<SessionParameter>) -> Seq<
    (Seq<char>, Seq<char>),
> {
    parameters.map_values(|p: SessionParameter| (p.name@, array_text(texts(p.values@))))
}

/// The JSON object that describes a session to the helper.
pub open spec fn session_text(session: SessionInfo) -> Seq<char> {
    object_text(
        seq![
            ("SessionId"@, json_string(session.session_id@)),
            ("StreamUrl"@, json_string(session.stream_url@)),
            ("TokenValue"@, json_string(session.token_value@)),
        ],
    )
}

/// The JSON object that tells the helper what the session was opened with.
pub open spec fn request_text(
    document_name: Seq<char>,
    target: Seq<char>,
    parameters: Seq<SessionParameter>,
) -> Seq<char> {
    object_text(
        seq![
            ("DocumentName"@, json_string(document_name)),
            ("Parameters"@, object_text(parameter_members(parameters))),
            ("Target"@, json_string(target)),
        ],
    )
}

/// The parameters of a session, or none where none were given.
pub open spec fn given_parameters(parameters: Option<&Vec<SessionParameter>>) -> Seq<
    SessionParameter,
> {
    match parameters {
        Some(p) => p@,
        None => Seq::empty(),
    }
}

fn member(name: &str, value: String) -> (out: (String, String))
    ensures
        out.0@ == name@,
        out.1@ == value@,
{
    (String::from_str(name), value)
}

fn parameters_json(parameters: Option<&Vec<SessionParameter>>) -> (out: String)
    ensures
        out@ == object_text(parameter_members(given_parameters(parameters))),
{
    let mut members: Vec<(String, String)> = Vec::new();
    match parameters {
        Some(p) => {
            let mut k: usize = 0;
            while k < p.len()
                invariant
                    k <= p.len(),
                    members@.len() == k,
                    forall|j: int|
                        0 <= j < k ==> (#[trigger] members@[j]).0@ == p@[j].name@ && members@[j].1@
                            == array_text(texts(p@[j].values@)),
                decreases p.len() - k,
            {
                let entry = (p[k].name.clone(), string_array(&p[k].values));
                members.push(entry);
                k = k + 1;
            }
            assert(member_views(members@) =~= parameter_members(p@));
        },
        None => {
            assert(member_views(members@) =~= parameter_members(Seq::empty()));
        },
    }
    object(&members)
}

/// The arguments with which the session-manager helper is started for an
/// open session: the session, the region, the operation, the profile (none)
/// and what the session was opened with.
pub fn run_session_manager_plugin(
    session_info: &SessionInfo,
    region: &str,
    document_name: &str,
    target: &str,
    parameters: Option<&Vec<SessionParameter>>,
) -> (out: Vec<String>)
    ensures
        texts(out@) == seq![
            session_text(*session_info),
            region@,
            "StartSession"@,
            Seq::<char>::empty(),
            request_text(document_name@, target@, given_parameters(parameters)),
        ],
{
    let mut session: Vec<(String, String)> = Vec::new();
    session.push(member("SessionId", quote(session_info.session_id.as_str())));
    session.push(member("StreamUrl", quote(session_info.stream_url.as_str())));
    session.push(member("TokenValue", quote(session_info.token_value.as_str())));
    assert(member_views(session@) =~= seq![
        ("SessionId"@, json_string(session_info.session_id@)),
        ("StreamUrl"@, json_string(session_info.stream_url@)),
        ("TokenValue"@, json_string(session_info.token_value@)),
    ]);
    let mut request: Vec<(String, String)> = Vec::new();
    request.push(member("DocumentName", quote(document_name)));
    request.push(member("Parameters", parameters_json(parameters)));
    request.push(member("Target", quote(target)));
    assert(member_views(request@) =~= seq![
        ("DocumentName"@, json_string(document_name@)),
        ("Parameters"@, object_text(parameter_members(given_parameters(parameters)))),
        ("Target"@, json_string(target@)),
    ]);
    let mut out: Vec<String> = Vec::new();
    out.push(object(&session));
    out.push(String::from_str(region));
    out.push(String::from_str("StartSession"));
    out.push(String::new());
    out.push(object(&request));
    assert(texts(out@) =~= seq![
        session_text(*session_info),
        region@,
        "StartSession"@,
        Seq::<char>::empty(),
        request_text(document_name@, target@, given_parameters(parameters)),
    ]);
    out
}

/// What the helper's end means: success, or the error for its failure.
pub fn plugin_outcome(success: bool) -> (out: Result<(), SsmError>)
    ensures
        success ==> out is Ok,
        !success ==> out == Err::<(), SsmError>(SsmError::PluginFailed),
{
    if success {
        Ok(())
    } else {
        Err(SsmError::PluginFailed)
    }
}

} // verus!
