//! The router's records and the requests and answers of its commands.

use vstd::prelude::*;
use crate::text::{str_eq, text_of};
use crate::error::message;

verus! {

/// A user of the router.
#[derive(Debug, Clone, PartialEq, Eq)]
pub struct User {
    pub id: String,
    pub username: String,
    pub password_hash: String,
    pub created_at: String,
    pub updated_at: String,
}

/// How the router reaches an MCP server.
#[derive(Debug, Clone, Copy, PartialEq, Eq, Structural)]
pub enum ServerType {
    /// A local process spoken to over stdio.
    Local,
    /// A remote server spoken to over HTTP.
    Remote,
    /// A remote server spoken to over streamable HTTP.
    RemoteStreamable,
}

/// The name of a server type, as stored and as shown.
pub open spec fn server_type_text(t: ServerType) -> Seq<char> {
    match t {
        ServerType::Local => "local"@,
        ServerType::Remote => "remote"@,
        ServerType::RemoteStreamable => "remote-streamable"@,
    }
}

/// The server type that a name denotes: each name that
/// `server_type_text` writes, and `remote_streamable` as well.
pub open spec fn server_type_named(s: Seq<char>) -> Option<ServerType> {
    if s == "local"@ {
        Some(ServerType::Local)
    } else if s == "remote"@ {
        Some(ServerType::Remote)
    } else if s == "remote-streamable"@ || s == "remote_streamable"@ {
        Some(ServerType::RemoteStreamable)
    } else {
        None
    }
}

impl ServerType {
    /// The name of this server type.
    pub fn to_string(&self) -> (r: String)
        ensures
            r@ == server_type_text(*self),
    {
        match self {
            ServerType::Local => text_of("local"),
            ServerType::Remote => text_of("remote"),
            ServerType::RemoteStreamable => text_of("remote-streamable"),
        }
    }

    /// The server type named by `s`; an unknown name is refused with
    /// `Unknown server type: <s>`.
    pub fn from_str(s: &str) -> (r: Result<ServerType, String>)
        ensures
            match r {
                Ok(t) => server_type_named(s@) == Some(t),
                Err(m) => server_type_named(s@) is None && m@ == "Unknown server type: "@ + s@,
            },
    {
        if str_eq(s, "local") {
            Ok(ServerType::Local)
        } else if str_eq(s, "remote") {
            Ok(ServerType::Remote)
        } else if str_eq(s, "remote-streamable") || str_eq(s, "remote_streamable") {
            Ok(ServerType::RemoteStreamable)
        } else {
            Err(message("Unknown server type: ", s))
        }
    }
}

/// Reading back the name of a server type gives the same type.
pub proof fn lemma_server_type_round_trip(t: ServerType)
    ensures
        server_type_named(server_type_text(t)) == Some(t),
{
    reveal_strlit("local");
    reveal_strlit("remote");
    reveal_strlit("remote-streamable");
    reveal_strlit("remote_streamable");
    match t {
        ServerType::Local => {},
        ServerType::Remote => {
            assert("remote"@.len() == 6);
            assert("local"@.len() == 5);
        },
        ServerType::RemoteStreamable => {
            assert("remote-streamable"@.len() == 17);
            assert("local"@.len() == 5);
            assert("remote"@.len() == 6);
        },
    }
}

/// An MCP server known to the router.
#[derive(Debug, Clone, PartialEq, Eq)]
pub struct McpServer {
    pub id: String,
    pub name: String,
    pub description: Option<String>,
    pub server_type: ServerType,
    pub command: Option<String>,
    /// The arguments of the command, as a JSON list of strings.
    pub args: Option<String>,
    /// The environment of the command, as a JSON object of strings.
    pub env: Option<String>,
    pub remote_url: Option<String>,
    pub bearer_token: Option<String>,
    pub project_id: Option<String>,
    pub tool_permissions: Option<String>,
    pub auto_start: bool,
    pub disabled: bool,
    pub created_at: String,
    pub updated_at: String,
}

/// The content of an `McpServer`.
pub struct McpServerView {
    pub id: Seq<char>,
    pub name: Seq<char>,
    pub description: Option<Seq<char>>,
    pub server_type: ServerType,
    pub command: Option<Seq<char>>,
    pub args: Option<Seq<char>>,
    pub env: Option<Seq<char>>,
    pub remote_url: Option<Seq<char>>,
    pub bearer_token: Option<Seq<char>>,
    pub project_id: Option<Seq<char>>,
    pub tool_permissions: Option<Seq<char>>,
    pub auto_start: bool,
    pub disabled: bool,
    pub created_at: Seq<char>,
    pub updated_at: Seq<char>,
}

impl View for McpServer {
    type V = McpServerView;

    open spec fn view(&self) -> McpServerView {
        McpServerView {
            id: self.id@,
            name: self.name@,
            description: self.description.deep_view(),
            server_type: self.server_type,
            command: self.command.deep_view(),
            args: self.args.deep_view(),
            env: self.env.deep_view(),
            remote_url: self.remote_url.deep_view(),
            bearer_token: self.bearer_token.deep_view(),
            project_id: self.project_id.deep_view(),
            tool_permissions: self.tool_permissions.deep_view(),
            auto_start: self.auto_start,
            disabled: self.disabled,
            created_at: self.created_at@,
            updated_at: self.updated_at@,
        }
    }
}

/// A project: a named group of servers.
#[derive(Debug, Clone, PartialEq, Eq)]
pub struct Project {
    pub id: String,
    pub name: String,
    pub optimization: Option<String>,
    pub created_at: String,
    pub updated_at: String,
}

/// The content of a `Project`.
pub struct ProjectView {
    pub id: Seq<char>,
    pub name: Seq<char>,
    pub optimization: Option<Seq<char>>,
    pub created_at: Seq<char>,
    pub updated_at: Seq<char>,
}

impl View for Project {
    type V = ProjectView;

    open spec fn view(&self) -> ProjectView {
        ProjectView {
            id: self.id@,
            name: self.name@,
            optimization: self.optimization.deep_view(),
            created_at: self.created_at@,
            updated_at: self.updated_at@,
        }
    }
}

/// One entry of the request log.
#[derive(Debug, Clone, PartialEq, Eq)]
pub struct RequestLog {
    pub id: String,
    /// Milliseconds since the Unix epoch.
    pub timestamp: i64,
    pub client_id: Option<String>,
    pub client_name: Option<String>,
    pub server_id: Option<String>,
    pub server_name: Option<String>,
    pub request_type: String,
    pub request_params: Option<String>,
    pub response_status: String,
    /// Milliseconds the request took.
    pub duration: Option<i64>,
    pub error_message: Option<String>,
}

/// The content of a `RequestLog`.
pub struct RequestLogView {
    pub id: Seq<char>,
    pub timestamp: int,
    pub client_id: Option<Seq<char>>,
    pub client_name: Option<Seq<char>>,
    pub server_id: Option<Seq<char>>,
    pub server_name: Option<Seq<char>>,
    pub request_type: Seq<char>,
    pub request_params: Option<Seq<char>>,
    pub response_status: Seq<char>,
    pub duration: Option<i64>,
    pub error_message: Option<Seq<char>>,
}

impl View for RequestLog {
    type V = RequestLogView;

    open spec fn view(&self) -> RequestLogView {
        RequestLogView {
            id: self.id@,
            timestamp: self.timestamp as int,
            client_id: self.client_id.deep_view(),
            client_name: self.client_name.deep_view(),
            server_id: self.server_id.deep_view(),
            server_name: self.server_name.deep_view(),
            request_type: self.request_type@,
            request_params: self.request_params.deep_view(),
            response_status: self.response_status@,
            duration: self.duration,
            error_message: self.error_message.deep_view(),
        }
    }
}

/// An API token issued to an MCP client.
#[derive(Debug, Clone, PartialEq, Eq)]
pub struct ApiToken {
    /// The token itself, `mcpr_` followed by its random part.
    pub id: String,
    pub client_id: String,
    /// Which servers the client may use, as a JSON object of flags.
    pub server_access: String,
    /// Seconds since the Unix epoch.
    pub issued_at: i64,
    /// Seconds since the Unix epoch, if the token expires.
    pub expires_at: Option<i64>,
}

/// The content of an `ApiToken`.
pub struct ApiTokenView {
    pub id: Seq<char>,
    pub client_id: Seq<char>,
    pub server_access: Seq<char>,
    pub issued_at: i64,
    pub expires_at: Option<i64>,
}

impl View for ApiToken {
    type V = ApiTokenView;

    open spec fn view(&self) -> ApiTokenView {
        ApiTokenView {
            id: self.id@,
            client_id: self.client_id@,
            server_access: self.server_access@,
            issued_at: self.issued_at,
            expires_at: self.expires_at,
        }
    }
}

/// A tool that an MCP server offers.
#[derive(Debug, Clone, PartialEq, Eq)]
pub struct McpTool {
    pub name: String,
    pub description: Option<String>,
    /// The JSON schema of the tool's input, as JSON text.
    pub input_schema: Option<String>,
}

/// The content of an `McpTool`.
pub struct McpToolView {
    pub name: Seq<char>,
    pub description: Option<Seq<char>>,
    pub input_schema: Option<Seq<char>>,
}

impl View for McpTool {
    type V = McpToolView;

    open spec fn view(&self) -> McpToolView {
        McpToolView {
            name: self.name@,
            description: self.description.deep_view(),
            input_schema: self.input_schema.deep_view(),
        }
    }
}

/// The contents of a list of tools.
pub open spec fn tools_view(tools: Seq<McpTool>) -> Seq<McpToolView> {
    tools.map_values(|t: McpTool| t@)
}

impl McpTool {
    /// A copy of this tool.
    pub fn copy(&self) -> (r: McpTool)
        ensures
            r@ == self@,
    {
        McpTool {
            name: self.name.clone(),
            description: self.description.clone(),
            input_schema: self.input_schema.clone(),
        }
    }
}

/// A copy of a list of tools.
pub fn copy_tools(tools: &Vec<McpTool>) -> (r: Vec<McpTool>)
    ensures
        tools_view(r@) == tools_view(tools@),
        r@.len() == tools@.len(),
{
    let mut r: Vec<McpTool> = Vec::new();
    let n = tools.len();
    let mut i: usize = 0;
    while i < n
        invariant
            n == tools@.len(),
            i <= n,
            r@.len() == i,
            forall|j: int| 0 <= j < i ==> #[trigger] r@[j]@ == tools@[j]@,
        decreases n - i,
    {
        r.push(tools[i].copy());
        i = i + 1;
    }
    proof {
        assert(tools_view(r@) =~= tools_view(tools@));
    }
    r
}

/// Whether a server is running, and the tools it offers.
#[derive(Debug, Clone, PartialEq, Eq)]
pub struct ServerStatus {
    pub server_id: String,
    pub is_running: bool,
    pub tools: Vec<McpTool>,
    pub error: Option<String>,
}

/// A server together with its status.
#[derive(Debug, Clone, PartialEq, Eq)]
pub struct ServerWithStatus {
    pub server: McpServer,
    pub status: ServerStatus,
}

/// Credentials offered at login.
#[derive(Debug, Clone, PartialEq, Eq)]
pub struct LoginRequest {
    pub username: String,
    pub password: String,
}

/// The answer to a successful login: the session token and the user.
#[derive(Debug, Clone, PartialEq, Eq)]
pub struct LoginResponse {
    pub token: String,
    pub username: String,
}

/// Whether a session token is valid, and whose session it is.
#[derive(Debug, Clone, PartialEq, Eq)]
pub struct ValidateSessionResponse {
    pub valid: bool,
    pub username: Option<String>,
}

/// The fields of a new server.
#[derive(Debug, Clone, PartialEq, Eq)]
pub struct CreateServerRequest {
    pub name: String,
    pub description: Option<String>,
    pub server_type: ServerType,
    pub command: Option<String>,
    pub args: Option<String>,
    pub env: Option<String>,
    pub remote_url: Option<String>,
    pub bearer_token: Option<String>,
    pub project_id: Option<String>,
    pub auto_start: Option<bool>,
}

/// The fields of a server to change; `None` leaves a field as it is.
#[derive(Debug, Clone, PartialEq, Eq)]
pub struct UpdateServerRequest {
    pub id: String,
    pub name: Option<String>,
    pub description: Option<String>,
    pub command: Option<String>,
    pub args: Option<String>,
    pub env: Option<String>,
    pub remote_url: Option<String>,
    pub bearer_token: Option<String>,
    pub project_id: Option<String>,
    pub tool_permissions: Option<String>,
    pub auto_start: Option<bool>,
    pub disabled: Option<bool>,
}

/// The fields of a new project.
#[derive(Debug, Clone, PartialEq, Eq)]
pub struct CreateProjectRequest {
    pub name: String,
    pub optimization: Option<String>,
}

/// A request for an API token.
#[derive(Debug, Clone, PartialEq, Eq)]
pub struct GenerateTokenRequest {
    pub client_id: String,
    /// For each server id, whether the client may use it; where an id occurs
    /// twice, the later entry counts.
    pub server_access: Vec<(String, bool)>,
    /// Token lifetime in seconds. Defaults to 90 days if not specified.
    pub expires_in_seconds: Option<i64>,
}

/// Which page of the request log to show, and which entries.
#[derive(Debug, Clone, PartialEq, Eq)]
pub struct LogQueryParams {
    pub limit: Option<i64>,
    pub offset: Option<i64>,
    pub server_id: Option<String>,
    pub request_type: Option<String>,
    pub response_status: Option<String>,
}

/// A page of the request log.
#[derive(Debug, Clone, PartialEq, Eq)]
pub struct LogQueryResult {
    pub items: Vec<RequestLog>,
    pub total: i64,
    pub has_more: bool,
}

/// Counts shown on the router's dashboard.
#[derive(Debug, Clone, Copy, PartialEq, Eq)]
pub struct AppStats {
    pub total_servers: i64,
    pub active_servers: i64,
    pub total_requests: i64,
    pub total_projects: i64,
}

} // verus!
