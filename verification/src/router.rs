//! The router's decisions around running servers: how to reach a server,
//! what its status is, and what is logged when it starts, stops or serves a
//! tool call.

use vstd::prelude::*;
use crate::crypto::uuid_v4_text;
use crate::clock::{millis_of, Instant, CHRONO_MAX_SECS};
use crate::error::{error_text, AppError};
use crate::json::{json_string_list, json_string_map, parse_string_list, parse_string_map};
use crate::logging::{log_entry_cells, LoggingService, INSERT_LOG_SQL};
use crate::models::{copy_tools, tools_view, McpServer, McpTool, ServerStatus, ServerType};
use crate::sql::{opt_str, SqlStatement, StatementView};
use crate::text::text_of;

verus! {

/// How to reach a server.
#[derive(Debug, PartialEq, Eq)]
pub enum ConnectPlan {
    /// Spawn `command` with `args` and the variables `env`, and speak over
    /// its stdio.
    Stdio { command: String, args: Vec<String>, env: Vec<(String, String)> },
    /// Speak HTTP to `url`, with the bearer token if any.
    Http { url: String, bearer_token: Option<String> },
}

/// The arguments of a local server: its JSON list of strings; none, or a
/// text that is not such a list, means no arguments.
pub open spec fn server_args(args: Option<Seq<char>>) -> Seq<Seq<char>> {
    match args {
        Some(a) => match json_string_list(a) {
            Some(l) => l,
            None => seq![],
        },
        None => seq![],
    }
}

/// The environment of a local server: its JSON object of strings; none, or
/// a text that is not such an object, means no variables.
pub open spec fn server_env(env: Option<Seq<char>>) -> Seq<(Seq<char>, Seq<char>)> {
    match env {
        Some(e) => match json_string_map(e) {
            Some(m) => m,
            None => seq![],
        },
        None => seq![],
    }
}

/// The names and values of environment variables.
pub open spec fn env_view(env: Seq<(String, String)>) -> Seq<(Seq<char>, Seq<char>)> {
    env.map_values(|p: (String, String)| (p.0@, p.1@))
}

/// The status of a server: running with its tools, or stopped.
pub open spec fn status_is(s: ServerStatus, server_id: Seq<char>, tools: Option<Seq<McpTool>>) -> bool {
    &&& s.server_id@ == server_id
    &&& s.error is None
    &&& match tools {
        Some(t) => s.is_running && tools_view(s.tools@) == tools_view(t),
        None => !s.is_running && s.tools@.len() == 0,
    }
}

/// The tools of the first running server whose id is `id`, if any.
pub open spec fn running_tools(running: Seq<(String, Vec<McpTool>)>, id: Seq<char>) -> Option<Seq<McpTool>>
    decreases running.len(),
{
    if running.len() == 0 {
        None
    } else if running[0].0@ == id {
        Some(running[0].1@)
    } else {
        running_tools(running.drop_first(), id)
    }
}

/// The running tools of a server are found wherever its entry stands: when
/// the first entry with the server's id is at `k`, the lookup gives that
/// entry's tools.
pub proof fn law_running_entry_is_found(running: Seq<(String, Vec<McpTool>)>, id: Seq<char>, k: int)
    requires
        0 <= k < running.len(),
        running[k].0@ == id,
        forall|j: int| 0 <= j < k ==> (#[trigger] running[j]).0@ != id,
    ensures
        running_tools(running, id) == Some(running[k].1@),
    decreases k,
{
    if k > 0 {
        assert forall|j: int| 0 <= j < k - 1 implies (#[trigger] running.drop_first()[j]).0@ != id by {
            assert(running.drop_first()[j] == running[j + 1]);
        }
        assert(running.drop_first()[k - 1] == running[k]);
        law_running_entry_is_found(running.drop_first(), id, k - 1);
    }
}

/// A server whose id no running entry carries is found stopped.
pub proof fn law_absent_server_is_stopped(running: Seq<(String, Vec<McpTool>)>, id: Seq<char>)
    requires
        forall|j: int| 0 <= j < running.len() ==> (#[trigger] running[j]).0@ != id,
    ensures
        running_tools(running, id) is None,
    decreases running.len(),
{
    if running.len() > 0 {
        assert forall|j: int| 0 <= j < running.len() - 1 implies (#[trigger] running.drop_first()[j]).0@ != id by {
            assert(running.drop_first()[j] == running[j + 1]);
        }
        law_absent_server_is_stopped(running.drop_first(), id);
    }
}

/// Every server is reported as the running list says: running with the
/// tools of the first entry that carries its id, wherever that entry
/// stands, and stopped when no entry carries it.
pub proof fn law_statuses_follow_running_list(
    servers: Seq<McpServer>,
    running: Seq<(String, Vec<McpTool>)>,
    statuses: Seq<ServerStatus>,
    i: int,
    k: int,
)
    requires
        statuses.len() == servers.len(),
        forall|m: int|
            0 <= m < servers.len() ==> status_is(
                #[trigger] statuses[m],
                servers[m].id@,
                running_tools(running, servers[m].id@),
            ),
        0 <= i < servers.len(),
        0 <= k < running.len(),
        running[k].0@ == servers[i].id@,
        forall|j: int| 0 <= j < k ==> (#[trigger] running[j]).0@ != servers[i].id@,
    ensures
        statuses[i].is_running,
        statuses[i].server_id@ == servers[i].id@,
        tools_view(statuses[i].tools@) == tools_view(running[k].1@),
{
    law_running_entry_is_found(running, servers[i].id@, k);
    assert(status_is(statuses[i], servers[i].id@, running_tools(running, servers[i].id@)));
}

/// The statement that logs a successful request of kind `kind` for a
/// server, with id `id` at `at`.
pub open spec fn server_event(
    id: Seq<char>,
    at: Instant,
    server_id: Seq<char>,
    server_name: Seq<char>,
    kind: Seq<char>,
) -> StatementView {
    StatementView {
        sql: INSERT_LOG_SQL@,
        params: log_entry_cells(
            id,
            millis_of(at),
            Some(server_id),
            Some(server_name),
            None,
            None,
            kind,
            None,
            "success"@,
            None,
            None,
        ),
    }
}

/// The router's rules for running servers.
pub struct Router;

impl Router {
    /// How to reach `server`: a local server needs a command, a remote one
    /// a URL.
    pub fn connect_plan(server: &McpServer) -> (r: Result<ConnectPlan, AppError>)
        ensures
            match server.server_type {
                ServerType::Local => match server.command {
                    None => r matches Err(AppError::Mcp(m))
                        && m@ == "No command specified for local server"@,
                    Some(c) => r matches Ok(ConnectPlan::Stdio { command, args, env })
                        && command@ == c@
                        && args.deep_view() == server_args(server.args.deep_view())
                        && env_view(env@) == server_env(server.env.deep_view()),
                },
                _ => match server.remote_url {
                    None => r matches Err(AppError::Mcp(m))
                        && m@ == "No URL specified for remote server"@,
                    Some(u) => r matches Ok(ConnectPlan::Http { url, bearer_token })
                        && url@ == u@ && bearer_token.deep_view() == server.bearer_token.deep_view(),
                },
            },
    {
        match server.server_type {
            ServerType::Local => {
                let command = match &server.command {
                    Some(c) => c.clone(),
                    None => return Err(AppError::Mcp(text_of("No command specified for local server"))),
                };
                let args = match &server.args {
                    Some(a) => match parse_string_list(a.as_str()) {
                        Some(l) => l,
                        None => Vec::new(),
                    },
                    None => Vec::new(),
                };
                let env = match &server.env {
                    Some(e) => match parse_string_map(e.as_str()) {
                        Some(m) => m,
                        None => Vec::new(),
                    },
                    None => Vec::new(),
                };
                proof {
                    assert(args.deep_view() =~= server_args(server.args.deep_view()));
                    assert(env_view(env@) =~= server_env(server.env.deep_view()));
                }
                Ok(ConnectPlan::Stdio { command, args, env })
            },
            _ => {
                let url = match &server.remote_url {
                    Some(u) => u.clone(),
                    None => return Err(AppError::Mcp(text_of("No URL specified for remote server"))),
                };
                Ok(ConnectPlan::Http { url, bearer_token: server.bearer_token.clone() })
            },
        }
    }

    /// The status of a running server offering `tools`.
    pub fn running_status(server_id: &str, tools: &Vec<McpTool>) -> (s: ServerStatus)
        ensures
            status_is(s, server_id@, Some(tools@)),
    {
        ServerStatus { server_id: text_of(server_id), is_running: true, tools: copy_tools(tools), error: None }
    }

    /// The status of a server that is not running.
    pub fn stopped_status(server_id: &str) -> (s: ServerStatus)
        ensures
            status_is(s, server_id@, None),
    {
        ServerStatus { server_id: text_of(server_id), is_running: false, tools: Vec::new(), error: None }
    }

    /// The status of a server, given the tools of its client if it runs.
    pub fn server_status(server_id: &str, running: Option<&Vec<McpTool>>) -> (s: ServerStatus)
        ensures
            status_is(s, server_id@, match running {
                Some(t) => Some(t@),
                None => None,
            }),
    {
        match running {
            Some(tools) => Self::running_status(server_id, tools),
            None => Self::stopped_status(server_id),
        }
    }

    /// The tools of the first running server whose id is `id`, if any.
    pub fn find_running<'a>(running: &'a Vec<(String, Vec<McpTool>)>, id: &str) -> (r: Option<&'a Vec<McpTool>>)
        ensures
            match r {
                Some(t) => running_tools(running@, id@) == Some(t@),
                None => running_tools(running@, id@) is None,
            },
    {
        let n = running.len();
        let mut i: usize = 0;
        assert(running@.subrange(0, n as int) =~= running@);
        while i < n
            invariant
                n == running@.len(),
                i <= n,
                running_tools(running@, id@) == running_tools(running@.subrange(i as int, n as int), id@),
            decreases n - i,
        {
            let ghost rest = running@.subrange(i as int, n as int);
            assert(rest[0] == running@[i as int]);
            assert(rest.drop_first() =~= running@.subrange(i + 1, n as int));
            if crate::text::str_eq(running[i].0.as_str(), id) {
                return Some(&running[i].1);
            }
            i = i + 1;
        }
        None
    }

    /// The status of every server, in order, given the running servers and
    /// their tools.
    pub fn all_server_statuses(servers: &Vec<McpServer>, running: &Vec<(String, Vec<McpTool>)>) -> (r: Vec<
        ServerStatus,
    >)
        ensures
            r@.len() == servers@.len(),
            forall|i: int|
                0 <= i < servers@.len() ==> status_is(
                    #[trigger] r@[i],
                    servers@[i].id@,
                    running_tools(running@, servers@[i].id@),
                ),
    {
        let mut r: Vec<ServerStatus> = Vec::new();
        let n = servers.len();
        let mut i: usize = 0;
        while i < n
            invariant
                n == servers@.len(),
                i <= n,
                r@.len() == i,
                forall|j: int|
                    0 <= j < i ==> status_is(
                        #[trigger] r@[j],
                        servers@[j].id@,
                        running_tools(running@, servers@[j].id@),
                    ),
            decreases n - i,
        {
            let id = servers[i].id.as_str();
            let s = Self::server_status(id, Self::find_running(running, id));
            r.push(s);
            i = i + 1;
        }
        r
    }

    /// The error of a request to a server that is not running.
    pub fn not_running(server_id: &str) -> (e: AppError)
        ensures
            e matches AppError::Server(m) && m@ == "Server "@ + server_id@ + " is not running"@,
    {
        let mut m = text_of("Server ");
        m.append(server_id);
        m.append(" is not running");
        AppError::Server(m)
    }

    /// The log entry of a server that has started.
    pub fn start_log(server_id: &str, server_name: &str) -> (s: SqlStatement)
        ensures
            exists|id: Seq<char>, at: Instant|
                #![trigger server_event(id, at, server_id@, server_name@, "StartServer"@)]
                uuid_v4_text(id) && 0 <= at.secs <= CHRONO_MAX_SECS
                    && s@ == server_event(id, at, server_id@, server_name@, "StartServer"@),
    {
        Self::server_log(server_id, server_name, "StartServer")
    }

    /// The log entry of a server that has stopped.
    pub fn stop_log(server_id: &str, server_name: &str) -> (s: SqlStatement)
        ensures
            exists|id: Seq<char>, at: Instant|
                #![trigger server_event(id, at, server_id@, server_name@, "StopServer"@)]
                uuid_v4_text(id) && 0 <= at.secs <= CHRONO_MAX_SECS
                    && s@ == server_event(id, at, server_id@, server_name@, "StopServer"@),
    {
        Self::server_log(server_id, server_name, "StopServer")
    }

    /// The log entry of a successful request of kind `kind` for a server.
    fn server_log(server_id: &str, server_name: &str, kind: &str) -> (s: SqlStatement)
        ensures
            exists|id: Seq<char>, at: Instant|
                #![trigger server_event(id, at, server_id@, server_name@, kind@)]
                uuid_v4_text(id) && 0 <= at.secs <= CHRONO_MAX_SECS
                    && s@ == server_event(id, at, server_id@, server_name@, kind@),
    {
        let s = LoggingService::log_request(
            Some(server_id),
            Some(server_name),
            None,
            None,
            kind,
            None,
            "success",
            None,
            None,
        );
        proof {
            let (id, at) = choose|id: Seq<char>, at: Instant|
                uuid_v4_text(id) && 0 <= at.secs <= CHRONO_MAX_SECS && s@ == (StatementView {
                    sql: INSERT_LOG_SQL@,
                    params: log_entry_cells(
                        id,
                        millis_of(at),
                        opt_str(Some(server_id)),
                        opt_str(Some(server_name)),
                        opt_str(None),
                        opt_str(None),
                        kind@,
                        opt_str(None),
                        "success"@,
                        None,
                        opt_str(None),
                    ),
                });
            assert(s@ == server_event(id, at, server_id@, server_name@, kind@));
        }
        s
    }

    /// The log entry of a tool call that took `duration` milliseconds, with
    /// its parameters as JSON text, and what it answered.
    pub fn call_tool_log(
        server_id: &str,
        server_name: &str,
        params_json: &str,
        duration: i64,
        outcome: &Result<String, AppError>,
    ) -> (s: SqlStatement)
        ensures
            exists|id: Seq<char>, at: Instant|
                #![trigger log_entry_cells(id, millis_of(at), Some(server_id@), Some(server_name@),
                    None, None, "CallTool"@, Some(params_json@), call_status(*outcome), Some(duration),
                    call_error(*outcome))]
                uuid_v4_text(id) && 0 <= at.secs <= CHRONO_MAX_SECS && s@ == (StatementView {
                    sql: INSERT_LOG_SQL@,
                    params: log_entry_cells(
                        id,
                        millis_of(at),
                        Some(server_id@),
                        Some(server_name@),
                        None,
                        None,
                        "CallTool"@,
                        Some(params_json@),
                        call_status(*outcome),
                        Some(duration),
                        call_error(*outcome),
                    ),
                }),
    {
        let (status, err_text) = match outcome {
            Ok(_) => ("success", None),
            Err(e) => ("error", Some(e.to_string())),
        };
        let err_ref: Option<&str> = match &err_text {
            Some(t) => Some(t.as_str()),
            None => None,
        };
        let s = LoggingService::log_request(
            Some(server_id),
            Some(server_name),
            None,
            None,
            "CallTool",
            Some(params_json),
            status,
            Some(duration),
            err_ref,
        );
        proof {
            assert(status@ == call_status(*outcome));
            assert(opt_str(err_ref) == call_error(*outcome));
            let (id, at) = choose|id: Seq<char>, at: Instant|
                uuid_v4_text(id) && 0 <= at.secs <= CHRONO_MAX_SECS && s@ == (StatementView {
                    sql: INSERT_LOG_SQL@,
                    params: log_entry_cells(
                        id,
                        millis_of(at),
                        opt_str(Some(server_id)),
                        opt_str(Some(server_name)),
                        opt_str(None),
                        opt_str(None),
                        "CallTool"@,
                        opt_str(Some(params_json)),
                        status@,
                        Some(duration),
                        opt_str(err_ref),
                    ),
                });
            assert(s@.params == log_entry_cells(
                id,
                millis_of(at),
                Some(server_id@),
                Some(server_name@),
                None,
                None,
                "CallTool"@,
                Some(params_json@),
                call_status(*outcome),
                Some(duration),
                call_error(*outcome),
            ));
        }
        s
    }

    /// What a tool call answers: its result, or its failure as an MCP error.
    pub fn call_tool_outcome(outcome: Result<String, AppError>) -> (r: Result<String, AppError>)
        ensures
            match outcome {
                Ok(v) => r matches Ok(w) && w@ == v@,
                Err(e) => r matches Err(AppError::Mcp(m)) && m@ == error_text(e),
            },
    {
        match outcome {
            Ok(v) => Ok(v),
            Err(e) => Err(AppError::Mcp(e.to_string())),
        }
    }
}

/// The status a tool call is logged with.
pub open spec fn call_status(outcome: Result<String, AppError>) -> Seq<char> {
    match outcome {
        Ok(_) => "success"@,
        Err(_) => "error"@,
    }
}

/// The error message a tool call is logged with.
pub open spec fn call_error(outcome: Result<String, AppError>) -> Option<Seq<char>> {
    match outcome {
        Ok(_) => None,
        Err(e) => Some(error_text(e)),
    }
}

} // verus!
