//! The manager socket: sorting what comes in, and writing what goes out.

use crate::event::socket::{
    EventMessage, EventMessageView, RawEventMessage, RawEventMessageView, ResponseMessage,
    ResponseMessageView, StateMessage, StateMessageView, StateSnapshot, StateSnapshotView,
    WelcomeMessage, WelcomeMessageView,
};
use crate::event::fields::{req_text, req_text_exec};
use crate::event::types::{
    DevBusLogEvent, DevBusLogEventView, TraceContext, TraceContextView, UnifiedEvent,
    UnifiedEventView,
};
use crate::json::{
    get_in, get_in_exec, json_text, parse_json, parsed_json, text_in, text_in_exec, write_json,
    Json, JsonView,
};
use crate::text::{text_or, text_or_exec, 
    chars_of, concat, concat3, decimal, decimal_string, is_blank, is_blank_exec, lowercase_of,
    str_eq, string_from_chars, to_lowercase, trim, trim_exec,
};
use vstd::prelude::*;

verus! {

/// What a line from the socket is.
#[derive(Debug)]
pub enum SocketMessage {
    /// A blank line, a line that is no message, or a message of a type that
    /// is not consumed.
    Ignored,
    /// The greeting of the server.
    Welcome(WelcomeMessage),
    /// A snapshot of the whole server.
    State(StateSnapshot),
    /// An event, or a fault to show.
    Event(UnifiedEvent),
    /// The answer to a command.
    Response(ResponseMessage),
}

/// The mathematical value of a [`SocketMessage`].
pub enum SocketMessageView {
    Ignored,
    Welcome(WelcomeMessageView),
    State(StateSnapshotView),
    Event(UnifiedEventView),
    Response(ResponseMessageView),
}

impl View for SocketMessage {
    type V = SocketMessageView;

    open spec fn view(&self) -> SocketMessageView {
        match self {
            SocketMessage::Ignored => SocketMessageView::Ignored,
            SocketMessage::Welcome(m) => SocketMessageView::Welcome(m@),
            SocketMessage::State(s) => SocketMessageView::State(s@),
            SocketMessage::Event(e) => SocketMessageView::Event(e@),
            SocketMessage::Response(r) => SocketMessageView::Response(r@),
        }
    }
}

/// The place in a trace that an event tells of, where it names the trace.
pub open spec fn raw_trace_context(event: JsonView) -> Option<TraceContextView> {
    let context = get_in(Some(event), "traceContext"@);
    match text_in(context, "traceId"@) {
        Some(trace_id) => Some(
            TraceContextView { trace_id, parent_id: text_in(context, "parentId"@) },
        ),
        None => None,
    }
}

/// An event of any shape as an event of the second schema: it must name
/// its type and its scope by texts; a missing session or request counts as
/// unknown, a missing category as `request`. Of a log line the message, the
/// level in lower case and the prefix are taken from its payload.
pub open spec fn raw_log_event(raw: RawEventMessageView) -> Option<DevBusLogEventView> {
    let event = Some(raw.event);
    let data = get_in(event, "data"@);
    let category = text_or(text_in(event, "category"@), "request"@);
    match (text_in(event, "type"@), text_in(event, "scopeId"@)) {
        (Some(event_type), Some(scope_id)) => Some(
            DevBusLogEventView {
                id: raw.id,
                timestamp: raw.timestamp,
                category,
                event_type,
                prefix: if category == "log"@ {
                    text_or(text_in(data, "prefix"@), "sdk"@)
                } else {
                    "manager"@
                },
                scope_id,
                session_id: text_or(text_in(event, "sessionId"@), "unknown"@),
                request_id: text_or(text_in(event, "requestId"@), "unknown"@),
                trace_context: raw_trace_context(raw.event),
                data,
                message: if category == "log"@ {
                    text_in(data, "message"@)
                } else {
                    None
                },
                args: None,
                level: None,
                level_name: if category == "log"@ {
                    match text_in(data, "level"@) {
                        Some(l) => Some(lowercase_of(l)),
                        None => None,
                    }
                } else {
                    None
                },
            },
        ),
        _ => None,
    }
}

/// The fault that is shown for a state message that does not fit its schema.
pub open spec fn state_fault() -> Seq<char> {
    "State parse error: the message does not fit the schema of a snapshot"@
}

/// What the JSON of a line from the socket is, by the text in its field `type`.
pub open spec fn socket_json_message(j: JsonView) -> SocketMessageView {
    match req_text(j, "type"@) {
        Some(t) => if t == "welcome"@ {
            match WelcomeMessageView::decode(j) {
                Some(m) => SocketMessageView::Welcome(m),
                None => SocketMessageView::Ignored,
            }
        } else if t == "state"@ {
            match StateMessageView::decode(j) {
                Some(m) => SocketMessageView::State(m.state),
                None => SocketMessageView::Event(UnifiedEventView::Error(state_fault())),
            }
        } else if t == "event"@ {
            match EventMessageView::decode(j) {
                Some(m) => SocketMessageView::Event(UnifiedEventView::Legacy(m.event)),
                None => match RawEventMessageView::decode(j) {
                    Some(raw) => match raw_log_event(raw) {
                        Some(e) => SocketMessageView::Event(UnifiedEventView::LogTransport(e)),
                        None => SocketMessageView::Ignored,
                    },
                    None => SocketMessageView::Ignored,
                },
            }
        } else if t == "response"@ {
            match ResponseMessageView::decode(j) {
                Some(m) => SocketMessageView::Response(m),
                None => SocketMessageView::Ignored,
            }
        } else {
            SocketMessageView::Ignored
        },
        None => SocketMessageView::Ignored,
    }
}

/// What a line from the socket is.
pub open spec fn socket_line_message(line: Seq<char>) -> SocketMessageView {
    if is_blank(line) {
        SocketMessageView::Ignored
    } else {
        match parsed_json(trim(line)) {
            Some(j) => socket_json_message(j),
            None => SocketMessageView::Ignored,
        }
    }
}

/// Turns an event of any shape into an event of the second schema.
pub fn raw_event_to_log_event(raw: &RawEventMessage) -> (r: Option<DevBusLogEvent>)
    ensures
        r.deep_view() == raw_log_event(raw@),
{
    let event = Some(&raw.event);
    let event_type = match text_in_exec(event, "type") {
        Some(t) => t,
        None => {
            return None;
        },
    };
    let scope_id = match text_in_exec(event, "scopeId") {
        Some(t) => t,
        None => {
            return None;
        },
    };
    let session_id = text_or_exec(text_in_exec(event, "sessionId"), "unknown");
    let request_id = text_or_exec(text_in_exec(event, "requestId"), "unknown");
    let category = text_or_exec(text_in_exec(event, "category"), "request");
    let context = get_in_exec(event, "traceContext");
    let trace_context = match text_in_exec(context, "traceId") {
        Some(trace_id) => Some(
            TraceContext { trace_id, parent_id: text_in_exec(context, "parentId") },
        ),
        None => None,
    };
    let data = get_in_exec(event, "data");
    let is_log = str_eq(category.as_str(), "log");
    let message = if is_log {
        text_in_exec(data, "message")
    } else {
        None
    };
    let level_name = if is_log {
        match text_in_exec(data, "level") {
            Some(l) => Some(to_lowercase(l.as_str())),
            None => None,
        }
    } else {
        None
    };
    let prefix = if is_log {
        text_or_exec(text_in_exec(data, "prefix"), "sdk")
    } else {
        "manager".to_owned()
    };
    Some(
        DevBusLogEvent {
            id: raw.id.clone(),
            timestamp: raw.timestamp,
            category,
            event_type,
            prefix,
            scope_id,
            session_id,
            request_id,
            trace_context,
            data: match data {
                Some(d) => Some(d.clone()),
                None => None,
            },
            message,
            args: None,
            level: None,
            level_name,
        },
    )
}

/// Says what the JSON of a line from the socket is.
pub fn classify_socket_json(j: &Json) -> (r: SocketMessage)
    ensures
        r@ == socket_json_message(j@),
{
    let kind = match req_text_exec(j, "type") {
        Some(t) => t,
        None => {
            return SocketMessage::Ignored;
        },
    };
    let t = kind.as_str();
    if str_eq(t, "welcome") {
        match WelcomeMessage::decode(j) {
            Some(m) => SocketMessage::Welcome(m),
            None => SocketMessage::Ignored,
        }
    } else if str_eq(t, "state") {
        match StateMessage::decode(j) {
            Some(m) => SocketMessage::State(m.state),
            None => SocketMessage::Event(
                UnifiedEvent::Error(
                    "State parse error: the message does not fit the schema of a snapshot".to_owned(),
                ),
            ),
        }
    } else if str_eq(t, "event") {
        match EventMessage::decode(j) {
            Some(m) => SocketMessage::Event(UnifiedEvent::Legacy(m.event)),
            None => match RawEventMessage::decode(j) {
                Some(raw) => match raw_event_to_log_event(&raw) {
                    Some(e) => SocketMessage::Event(UnifiedEvent::LogTransport(e)),
                    None => SocketMessage::Ignored,
                },
                None => SocketMessage::Ignored,
            },
        }
    } else if str_eq(t, "response") {
        match ResponseMessage::decode(j) {
            Some(m) => SocketMessage::Response(m),
            None => SocketMessage::Ignored,
        }
    } else {
        SocketMessage::Ignored
    }
}

/// Says what a line from the socket is.
pub fn classify_socket_line(line: &str) -> (r: SocketMessage)
    ensures
        r@ == socket_line_message(line@),
{
    let chars = chars_of(line);
    if is_blank_exec(&chars) {
        return SocketMessage::Ignored;
    }
    let trimmed = string_from_chars(&trim_exec(&chars));
    match parse_json(trimmed.as_str()) {
        Some(j) => classify_socket_json(&j),
        None => SocketMessage::Ignored,
    }
}

// ---------------------------------------------------------------------------
// Commands
// ---------------------------------------------------------------------------

/// How a simulated client names itself.
#[derive(Debug, Clone)]
pub struct SimulateClientOptions {
    pub client_name: Option<String>,
    pub client_version: Option<String>,
}

/// A command to the server.
#[derive(Debug, Clone)]
pub enum ManagerCommand {
    Ping,
    GetState,
    ListTools { scope_id: String },
    CallTool { scope_id: String, tool_name: String, arguments: Option<Json> },
    SimulateClient { scope_id: String, options: Option<SimulateClientOptions> },
}

/// The message that carries a command: the type `command`, an id that no
/// earlier command of the process had, and the command.
#[derive(Debug, Clone)]
pub struct CommandMessage {
    pub msg_type: String,
    pub id: String,
    pub command: ManagerCommand,
}

/// The mathematical value of a [`SimulateClientOptions`].
pub struct SimulateClientOptionsView {
    pub client_name: Option<Seq<char>>,
    pub client_version: Option<Seq<char>>,
}

/// The mathematical value of a [`ManagerCommand`].
pub enum ManagerCommandView {
    Ping,
    GetState,
    ListTools { scope_id: Seq<char> },
    CallTool { scope_id: Seq<char>, tool_name: Seq<char>, arguments: Option<JsonView> },
    SimulateClient { scope_id: Seq<char>, options: Option<SimulateClientOptionsView> },
}

/// The mathematical value of a [`CommandMessage`].
pub struct CommandMessageView {
    pub msg_type: Seq<char>,
    pub id: Seq<char>,
    pub command: ManagerCommandView,
}

impl View for SimulateClientOptions {
    type V = SimulateClientOptionsView;

    open spec fn view(&self) -> SimulateClientOptionsView {
        SimulateClientOptionsView {
            client_name: self.client_name.deep_view(),
            client_version: self.client_version.deep_view(),
        }
    }
}

impl View for ManagerCommand {
    type V = ManagerCommandView;

    open spec fn view(&self) -> ManagerCommandView {
        match self {
            ManagerCommand::Ping => ManagerCommandView::Ping,
            ManagerCommand::GetState => ManagerCommandView::GetState,
            ManagerCommand::ListTools { scope_id } => ManagerCommandView::ListTools {
                scope_id: scope_id@,
            },
            ManagerCommand::CallTool {
                scope_id,
                tool_name,
                arguments,
            } => ManagerCommandView::CallTool {
                scope_id: scope_id@,
                tool_name: tool_name@,
                arguments: arguments.deep_view(),
            },
            ManagerCommand::SimulateClient {
                scope_id,
                options,
            } => ManagerCommandView::SimulateClient {
                scope_id: scope_id@,
                options: match options {
                    Some(o) => Some(o@),
                    None => None,
                },
            },
        }
    }
}

impl View for CommandMessage {
    type V = CommandMessageView;

    open spec fn view(&self) -> CommandMessageView {
        CommandMessageView { msg_type: self.msg_type@, id: self.id@, command: self.command@ }
    }
}

/// A text, or null where there is none.
pub open spec fn text_or_null(text: Option<Seq<char>>) -> JsonView {
    match text {
        Some(t) => JsonView::Text(t),
        None => JsonView::Null,
    }
}

/// The JSON of the options of a simulated client.
pub open spec fn options_json(options: SimulateClientOptionsView) -> JsonView {
    JsonView::Object(
        seq![
            ("clientName"@, text_or_null(options.client_name)),
            ("clientVersion"@, text_or_null(options.client_version)),
        ],
    )
}

/// The JSON of a command: its name, and its arguments by their names. An
/// argument that is optional and missing is left out.
pub open spec fn command_json(command: ManagerCommandView) -> JsonView {
    match command {
        ManagerCommandView::Ping => JsonView::Object(seq![("name"@, JsonView::Text("ping"@))]),
        ManagerCommandView::GetState => JsonView::Object(
            seq![("name"@, JsonView::Text("getState"@))],
        ),
        ManagerCommandView::ListTools { scope_id } => JsonView::Object(
            seq![("name"@, JsonView::Text("listTools"@)), ("scopeId"@, JsonView::Text(scope_id))],
        ),
        ManagerCommandView::CallTool { scope_id, tool_name, arguments } => JsonView::Object(
            seq![
                ("name"@, JsonView::Text("callTool"@)),
                ("scopeId"@, JsonView::Text(scope_id)),
                ("toolName"@, JsonView::Text(tool_name)),
            ] + match arguments {
                Some(a) => seq![("arguments"@, a)],
                None => Seq::empty(),
            },
        ),
        ManagerCommandView::SimulateClient { scope_id, options } => JsonView::Object(
            seq![
                ("name"@, JsonView::Text("simulateClient"@)),
                ("scopeId"@, JsonView::Text(scope_id)),
            ] + match options {
                Some(o) => seq![("options"@, options_json(o))],
                None => Seq::empty(),
            },
        ),
    }
}

/// The JSON of the message that carries a command.
pub open spec fn message_json(message: CommandMessageView) -> JsonView {
    JsonView::Object(
        seq![
            ("type"@, JsonView::Text(message.msg_type)),
            ("id"@, JsonView::Text(message.id)),
            ("command"@, command_json(message.command)),
        ],
    )
}

/// The id of the command with the number: the numbers count up from zero,
/// so that no two commands of a process share an id.
pub open spec fn command_id(number: u64) -> Seq<char> {
    "cmd-"@ + decimal(number as nat)
}

/// Commands with different numbers have different ids.
pub proof fn lemma_command_ids_differ(a: u64, b: u64)
    requires
        a != b,
    ensures
        command_id(a) != command_id(b),
{
    let head = "cmd-"@;
    if command_id(a) == command_id(b) {
        assert((head + decimal(a as nat)).skip(head.len() as int) =~= decimal(a as nat));
        assert((head + decimal(b as nat)).skip(head.len() as int) =~= decimal(b as nat));
        crate::text::lemma_decimal_injective(a as nat, b as nat);
    }
}

fn text_json(text: &str) -> (r: Json)
    ensures
        r@ == JsonView::Text(text@),
{
    Json::String(text.to_owned())
}

fn text_or_null_exec(text: &Option<String>) -> (r: Json)
    ensures
        r@ == text_or_null(text.deep_view()),
{
    match text {
        Some(t) => Json::String(t.clone()),
        None => Json::Null,
    }
}

fn object_json(fields: Vec<(String, Json)>) -> (r: Json)
    ensures
        r@ == JsonView::Object(Seq::new(fields@.len(), |i: int| (fields@[i].0@, fields@[i].1@))),
{
    let r = Json::Object(fields);
    proof {
        crate::json::lemma_view_unfold(r);
        assert(r@->Object_0 =~= Seq::new(fields@.len(), |i: int| (fields@[i].0@, fields@[i].1@)));
    }
    r
}

impl SimulateClientOptions {
    pub fn to_json(&self) -> (r: Json)
        ensures
            r@ == options_json(self@),
    {
        let mut fields: Vec<(String, Json)> = Vec::new();
        fields.push(("clientName".to_owned(), text_or_null_exec(&self.client_name)));
        fields.push(("clientVersion".to_owned(), text_or_null_exec(&self.client_version)));
        let r = object_json(fields);
        assert(r@->Object_0 =~= options_json(self@)->Object_0);
        r
    }
}

impl ManagerCommand {
    pub fn to_json(&self) -> (r: Json)
        ensures
            r@ == command_json(self@),
    {
        let mut fields: Vec<(String, Json)> = Vec::new();
        match self {
            ManagerCommand::Ping => {
                fields.push(("name".to_owned(), text_json("ping")));
            },
            ManagerCommand::GetState => {
                fields.push(("name".to_owned(), text_json("getState")));
            },
            ManagerCommand::ListTools { scope_id } => {
                fields.push(("name".to_owned(), text_json("listTools")));
                fields.push(("scopeId".to_owned(), text_json(scope_id.as_str())));
            },
            ManagerCommand::CallTool { scope_id, tool_name, arguments } => {
                fields.push(("name".to_owned(), text_json("callTool")));
                fields.push(("scopeId".to_owned(), text_json(scope_id.as_str())));
                fields.push(("toolName".to_owned(), text_json(tool_name.as_str())));
                match arguments {
                    Some(a) => {
                        fields.push(("arguments".to_owned(), a.clone()));
                    },
                    None => {},
                }
            },
            ManagerCommand::SimulateClient { scope_id, options } => {
                fields.push(("name".to_owned(), text_json("simulateClient")));
                fields.push(("scopeId".to_owned(), text_json(scope_id.as_str())));
                match options {
                    Some(o) => {
                        fields.push(("options".to_owned(), o.to_json()));
                    },
                    None => {},
                }
            },
        }
        let r = object_json(fields);
        assert(r@->Object_0 =~= command_json(self@)->Object_0);
        r
    }
}

impl CommandMessage {
    /// The message that carries the command with the number.
    pub fn new(number: u64, command: ManagerCommand) -> (r: CommandMessage)
        ensures
            r@ == (CommandMessageView {
                msg_type: "command"@,
                id: command_id(number),
                command: command@,
            }),
    {
        let digits = decimal_string(number);
        CommandMessage {
            msg_type: "command".to_owned(),
            id: concat("cmd-", digits.as_str()),
            command,
        }
    }

    pub fn to_json(&self) -> (r: Json)
        ensures
            r@ == message_json(self@),
    {
        let mut fields: Vec<(String, Json)> = Vec::new();
        fields.push(("type".to_owned(), text_json(self.msg_type.as_str())));
        fields.push(("id".to_owned(), text_json(self.id.as_str())));
        fields.push(("command".to_owned(), self.command.to_json()));
        let r = object_json(fields);
        assert(r@->Object_0 =~= message_json(self@)->Object_0);
        r
    }

    /// The line that is written to the socket, without its end.
    pub fn encode(&self) -> (r: String)
        ensures
            r@ == json_text(message_json(self@)),
    {
        let j = self.to_json();
        write_json(&j)
    }
}

// ---------------------------------------------------------------------------
// Connecting
// ---------------------------------------------------------------------------

/// How often a missing socket is looked for again before the client gives up.
pub const SOCKET_CHECK_BUDGET: u32 = 50;

/// Why the socket could not be connected, with the path of the socket.
#[derive(Debug, Clone)]
pub struct ConnectionError {
    pub message: String,
    pub socket_path: String,
}

/// The mathematical value of a [`ConnectionError`].
pub struct ConnectionErrorView {
    pub message: Seq<char>,
    pub socket_path: Seq<char>,
}

impl View for ConnectionError {
    type V = ConnectionErrorView;

    open spec fn view(&self) -> ConnectionErrorView {
        ConnectionErrorView { message: self.message@, socket_path: self.socket_path@ }
    }
}

/// What still waiting for the socket leads to.
#[derive(Debug)]
pub enum WaitStep {
    /// Look again, having looked in vain so often.
    Retry(u32),
    /// Give up.
    GiveUp(ConnectionError),
}

impl ConnectionError {
    /// The fault of a socket that did not appear in time.
    pub open spec fn spec_not_found(path: Seq<char>) -> ConnectionErrorView {
        ConnectionErrorView {
            message: "Socket not found after 5s. Server may not be running.\nPath: "@ + path,
            socket_path: path,
        }
    }

    /// The fault of a socket that refused the connection.
    pub open spec fn spec_refused(reason: Seq<char>, path: Seq<char>) -> ConnectionErrorView {
        ConnectionErrorView {
            message: "Failed to connect to server socket: "@ + reason + "\nPath: "@ + path,
            socket_path: path,
        }
    }

    /// The fault of a socket that could not be split into its two halves.
    pub open spec fn spec_not_split(reason: Seq<char>, path: Seq<char>) -> ConnectionErrorView {
        ConnectionErrorView {
            message: "Failed to clone socket for reading: "@ + reason,
            socket_path: path,
        }
    }

    pub fn not_found(path: &str) -> (r: ConnectionError)
        ensures
            r@ == Self::spec_not_found(path@),
    {
        ConnectionError {
            message: concat("Socket not found after 5s. Server may not be running.\nPath: ", path),
            socket_path: path.to_owned(),
        }
    }

    pub fn refused(reason: &str, path: &str) -> (r: ConnectionError)
        ensures
            r@ == Self::spec_refused(reason@, path@),
    {
        let mut message = concat3("Failed to connect to server socket: ", reason, "\nPath: ");
        message.append(path);
        ConnectionError { message, socket_path: path.to_owned() }
    }

    pub fn not_split(reason: &str, path: &str) -> (r: ConnectionError)
        ensures
            r@ == Self::spec_not_split(reason@, path@),
    {
        ConnectionError {
            message: concat("Failed to clone socket for reading: ", reason),
            socket_path: path.to_owned(),
        }
    }

    /// The text that is shown for the fault.
    pub fn describe(&self) -> (r: String)
        ensures
            r@ == self@.message,
    {
        self.message.clone()
    }
}

/// What to do after the socket was looked for in vain once more: the
/// client gives up as soon as it has looked more often than its budget allows.
pub fn after_missed_check(attempts: u32, path: &str) -> (r: WaitStep)
    ensures
        attempts < SOCKET_CHECK_BUDGET ==> (r matches WaitStep::Retry(n) && n == attempts + 1),
        attempts >= SOCKET_CHECK_BUDGET ==> (r matches WaitStep::GiveUp(e) && e@
            == ConnectionError::spec_not_found(path@)),
{
    if attempts < SOCKET_CHECK_BUDGET {
        WaitStep::Retry(attempts + 1)
    } else {
        WaitStep::GiveUp(ConnectionError::not_found(path))
    }
}

} // verus!
