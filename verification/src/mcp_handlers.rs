//! The decisions of the MCP management API: listing tools and servers,
//! enabling and disabling a server, and changing a server's API key. The
//! connections themselves are made by the caller.

use vstd::prelude::*;
use crate::config::{ApiKeyEnvironment, Config, McpConfig, McpToolDescriptor, McpToolServerConfig, McpTransport, opt_view};
use crate::config_api::sanitize::{Sanitize, sanitized_tool_server_view, spec_sanitized_tool_server};
use crate::config_api::types::SanitizedMcpToolServerConfig;
use crate::mcp::format_mcp_tool_name;
use crate::text::{concat, concat3, str_eq};

verus! {

/// A tool of an MCP server as the API lists it.
#[derive(Debug, Clone)]
pub struct McpToolInfo {
    /// Full name, `mcp__server__tool`.
    pub name: String,
    /// The tool's own name.
    pub display_name: String,
    /// The server that offers it.
    pub server_name: String,
    /// Its description.
    pub description: Option<String>,
    /// Whether its server is enabled.
    pub enabled: bool,
    /// Its input schema, as JSON text.
    pub parameters: Option<String>,
}

/// The tool list.
#[derive(Debug)]
pub struct McpToolListResponse {
    pub tools: Vec<McpToolInfo>,
    pub total: usize,
    pub enabled_count: usize,
}

/// The server list.
#[derive(Debug)]
pub struct McpServerListResponse {
    pub servers: Vec<SanitizedMcpToolServerConfig>,
    pub total: usize,
    pub enabled_count: usize,
}

/// A request to enable or disable a server.
#[derive(Debug, Clone, Copy)]
pub struct ToggleMcpServerRequest {
    pub enable: bool,
}

/// The answer to an enable or disable request.
#[derive(Debug)]
pub struct ToggleMcpServerResponse {
    pub success: bool,
    pub message: String,
    pub server: SanitizedMcpToolServerConfig,
}

/// A request to change a server's API key.
#[derive(Debug)]
pub struct UpdateApiKeyRequest {
    pub api_key: String,
    pub api_key_param: Option<String>,
}

/// The answer to an API key change.
#[derive(Debug)]
pub struct UpdateApiKeyResponse {
    pub success: bool,
    pub message: String,
}

/// The name a server's tools are listed under: the one it reported, else
/// the configured one.
pub open spec fn shown_server_name(s: McpToolServerConfig) -> Seq<char> {
    match s.server_name {
        Some(n) => n@,
        None => s.name@,
    }
}

/// A listed tool, as values: full name, own name, server, description,
/// enabled, parameters.
pub type ToolInfoV = (Seq<char>, Seq<char>, Seq<char>, Option<Seq<char>>, bool, Option<Seq<char>>);

/// A tool of a server as listed.
pub open spec fn spec_tool_info(s: McpToolServerConfig, t: McpToolDescriptor) -> ToolInfoV {
    (
        "mcp__"@ + shown_server_name(s) + "__"@ + t.name@,
        t.name@,
        shown_server_name(s),
        opt_view(t.description),
        s.enable,
        opt_view(t.input_schema),
    )
}

/// A listed tool as values.
pub open spec fn tool_info_view(t: McpToolInfo) -> ToolInfoV {
    (t.name@, t.display_name@, t.server_name@, opt_view(t.description), t.enabled, opt_view(t.parameters))
}

/// The tools of the first `j` tools of a server, as listed.
pub open spec fn spec_server_tools(s: McpToolServerConfig, j: int) -> Seq<ToolInfoV>
    decreases j,
{
    if j <= 0 {
        Seq::empty()
    } else {
        match s.tools {
            Some(ts) => spec_server_tools(s, j - 1).push(spec_tool_info(s, ts@[j - 1])),
            None => Seq::empty(),
        }
    }
}

/// The number of tools a server has.
pub open spec fn tool_count(s: McpToolServerConfig) -> nat {
    match s.tools {
        Some(ts) => ts@.len(),
        None => 0,
    }
}

/// The tools of all servers, server by server, as listed.
pub open spec fn spec_all_tools(servers: Seq<McpToolServerConfig>) -> Seq<ToolInfoV>
    decreases servers.len(),
{
    if servers.len() == 0 {
        Seq::empty()
    } else {
        spec_all_tools(servers.drop_last()) + spec_server_tools(servers.last(), tool_count(servers.last()) as int)
    }
}

/// The number of tools of enabled servers.
pub open spec fn spec_enabled_tools(servers: Seq<McpToolServerConfig>) -> nat
    decreases servers.len(),
{
    if servers.len() == 0 {
        0
    } else {
        spec_enabled_tools(servers.drop_last()) + if servers.last().enable { tool_count(servers.last()) } else { 0 }
    }
}

/// The configured servers, none without an MCP section.
pub open spec fn spec_servers(c: Config) -> Seq<McpToolServerConfig> {
    match c.mcp {
        Some(m) => m.server.tool_servers@,
        None => Seq::empty(),
    }
}

/// The views of listed tools.
pub open spec fn tool_info_views(v: Seq<McpToolInfo>) -> Seq<ToolInfoV> {
    v.map_values(|t: McpToolInfo| tool_info_view(t))
}

/// Lists the tools of all configured servers, with how many there are and
/// how many belong to enabled servers.
pub fn list_mcp_tools(config: &Config) -> (r: McpToolListResponse)
    ensures
        tool_info_views(r.tools@) == spec_all_tools(spec_servers(*config)),
        r.total == r.tools@.len(),
        r.enabled_count == spec_enabled_tools(spec_servers(*config)),
{
    let mut tools: Vec<McpToolInfo> = Vec::new();
    let mut enabled_count: usize = 0;
    let ghost servers = spec_servers(*config);
    match &config.mcp {
        None => {},
        Some(m) => {
            let list = &m.server.tool_servers;
            let mut i: usize = 0;
            assert(servers.subrange(0, 0) =~= Seq::<McpToolServerConfig>::empty());
            while i < list.len()
                invariant
                    servers == list@,
                    i <= list@.len(),
                    tool_info_views(tools@) == spec_all_tools(servers.subrange(0, i as int)),
                    enabled_count == spec_enabled_tools(servers.subrange(0, i as int)),
                    enabled_count <= tools@.len(),
                decreases list.len() - i,
            {
                let s = &list[i];
                let shown = match &s.server_name {
                    Some(n) => n.clone(),
                    None => s.name.clone(),
                };
                proof {
                    assert(servers.subrange(0, i + 1).drop_last() =~= servers.subrange(0, i as int));
                    assert(servers.subrange(0, i + 1).last() == *s);
                }
                match &s.tools {
                    None => {
                        assert(tool_info_views(tools@) =~= tool_info_views(tools@) + spec_server_tools(*s, 0));
                    },
                    Some(ts) => {
                        let ghost before = tool_info_views(tools@);
                        let ghost count_before = enabled_count;
                        let mut j: usize = 0;
                        while j < ts.len()
                            invariant
                                s.tools == Some(*ts),
                                shown@ == shown_server_name(*s),
                                j <= ts@.len(),
                                tool_info_views(tools@) == before + spec_server_tools(*s, j as int),
                                enabled_count == count_before + if s.enable { j as nat } else { 0 },
                                enabled_count <= tools@.len(),
                                count_before <= before.len(),
                                before.len() <= tools@.len(),
                            decreases ts.len() - j,
                        {
                            let t = &ts[j];
                            let info = McpToolInfo {
                                name: format_mcp_tool_name(shown.as_str(), t.name.as_str()),
                                display_name: t.name.clone(),
                                server_name: shown.clone(),
                                description: match &t.description {
                                    Some(d) => Some(d.clone()),
                                    None => None,
                                },
                                enabled: s.enable,
                                parameters: match &t.input_schema {
                                    Some(p) => Some(p.clone()),
                                    None => None,
                                },
                            };
                            assert(tool_info_view(info) == spec_tool_info(*s, ts@[j as int]));
                            let ghost old_views = tool_info_views(tools@);
                            tools.push(info);
                            let _count = tools.len();
                            proof {
                                assert(tool_info_views(tools@) =~= old_views.push(tool_info_view(info)));
                                assert(spec_server_tools(*s, j + 1) == spec_server_tools(*s, j as int).push(spec_tool_info(*s, ts@[j as int])));
                                assert(tool_info_views(tools@) =~= before + spec_server_tools(*s, j + 1));
                            }
                            if s.enable {
                                enabled_count = enabled_count + 1;
                            }
                            j = j + 1;
                        }
                    },
                }
                i = i + 1;
            }
            assert(servers.subrange(0, list.len() as int) =~= servers);
        },
    }
    let total = tools.len();
    McpToolListResponse { tools, total, enabled_count }
}

/// The number of enabled servers.
pub open spec fn spec_enabled_servers(servers: Seq<McpToolServerConfig>) -> nat
    decreases servers.len(),
{
    if servers.len() == 0 {
        0
    } else {
        spec_enabled_servers(servers.drop_last()) + if servers.last().enable { 1nat } else { 0 }
    }
}

/// Lists the configured servers as the API shows them, with how many there
/// are and how many are enabled.
pub fn list_mcp_servers(config: &Config) -> (r: McpServerListResponse)
    ensures
        r.servers@.len() == spec_servers(*config).len(),
        forall|k: int| 0 <= k < r.servers@.len() ==>
            sanitized_tool_server_view(#[trigger] r.servers@[k]) == spec_sanitized_tool_server(spec_servers(*config)[k]),
        r.total == r.servers@.len(),
        r.enabled_count == spec_enabled_servers(spec_servers(*config)),
{
    let env = ApiKeyEnvironment::unset();
    let mut servers: Vec<SanitizedMcpToolServerConfig> = Vec::new();
    let mut enabled_count: usize = 0;
    let ghost all = spec_servers(*config);
    match &config.mcp {
        None => {},
        Some(m) => {
            let list = &m.server.tool_servers;
            let mut i: usize = 0;
            assert(all.subrange(0, 0) =~= Seq::<McpToolServerConfig>::empty());
            while i < list.len()
                invariant
                    all == list@,
                    i <= list@.len(),
                    servers@.len() == i,
                    forall|k: int| 0 <= k < i ==>
                        sanitized_tool_server_view(#[trigger] servers@[k]) == spec_sanitized_tool_server(all[k]),
                    enabled_count == spec_enabled_servers(all.subrange(0, i as int)),
                    enabled_count <= i,
                decreases list.len() - i,
            {
                let s = &list[i];
                proof {
                    assert(all.subrange(0, i + 1).drop_last() =~= all.subrange(0, i as int));
                }
                if s.enable {
                    enabled_count = enabled_count + 1;
                }
                servers.push(s.sanitize(&env));
                i = i + 1;
            }
            assert(all.subrange(0, list.len() as int) =~= all);
        },
    }
    let total = servers.len();
    McpServerListResponse { servers, total, enabled_count }
}

/// The index of the first server named `name`, or -1.
pub open spec fn spec_find_server(servers: Seq<McpToolServerConfig>, name: Seq<char>) -> int {
    if exists|k: int| 0 <= k < servers.len() && (#[trigger] servers[k]).name@ == name {
        choose|k: int| 0 <= k < servers.len() && servers[k].name@ == name
            && forall|j: int| 0 <= j < k ==> (#[trigger] servers[j]).name@ != name
    } else {
        -1
    }
}

/// When some server is named `name`, a first one is.
proof fn lemma_first_match(servers: Seq<McpToolServerConfig>, name: Seq<char>, i: int)
    requires
        0 <= i < servers.len(),
        servers[i].name@ == name,
    ensures
        exists|k: int| 0 <= k < servers.len() && servers[k].name@ == name
            && forall|j: int| 0 <= j < k ==> (#[trigger] servers[j]).name@ != name,
    decreases i,
{
    if exists|j: int| 0 <= j < i && (#[trigger] servers[j]).name@ == name {
        let j = choose|j: int| 0 <= j < i && (#[trigger] servers[j]).name@ == name;
        lemma_first_match(servers, name, j);
    }
}

/// What the search by name gives: -1 when no server has the name, else the
/// index of the first one that has it.
pub proof fn lemma_find_server(servers: Seq<McpToolServerConfig>, name: Seq<char>)
    ensures
        spec_find_server(servers, name) == -1 <==> forall|j: int| 0 <= j < servers.len() ==> (#[trigger] servers[j]).name@ != name,
        spec_find_server(servers, name) >= 0 ==> ({
            let k = spec_find_server(servers, name);
            &&& k < servers.len()
            &&& servers[k].name@ == name
            &&& forall|j: int| 0 <= j < k ==> (#[trigger] servers[j]).name@ != name
        }),
{
    if exists|k: int| 0 <= k < servers.len() && (#[trigger] servers[k]).name@ == name {
        let i = choose|k: int| 0 <= k < servers.len() && (#[trigger] servers[k]).name@ == name;
        lemma_first_match(servers, name, i);
    }
}

/// The index of the first server named `name`.
pub fn find_server_index(servers: &Vec<McpToolServerConfig>, name: &str) -> (r: Option<usize>)
    ensures
        match r {
            Some(k) => k < servers@.len() && servers@[k as int].name@ == name@
                && forall|j: int| 0 <= j < k ==> (#[trigger] servers@[j]).name@ != name@,
            None => forall|j: int| 0 <= j < servers@.len() ==> (#[trigger] servers@[j]).name@ != name@,
        },
        match r {
            Some(k) => spec_find_server(servers@, name@) == k,
            None => spec_find_server(servers@, name@) == -1,
        },
{
    let mut i: usize = 0;
    while i < servers.len()
        invariant
            i <= servers@.len(),
            forall|j: int| 0 <= j < i ==> (#[trigger] servers@[j]).name@ != name@,
        decreases servers.len() - i,
    {
        if str_eq(servers[i].name.as_str(), name) {
            proof {
                let k = spec_find_server(servers@, name@);
                assert(servers@[i as int].name@ == name@);
                let c = choose|k: int| 0 <= k < servers@.len() && servers@[k].name@ == name@
                    && forall|j: int| 0 <= j < k ==> (#[trigger] servers@[j]).name@ != name@;
                assert(c == i) by {
                    if c < i { assert(servers@[c].name@ != name@); }
                    if c > i { assert(servers@[i as int].name@ != name@); }
                }
            }
            return Some(i);
        }
        i = i + 1;
    }
    None
}

/// What an enable or disable request calls for.
#[derive(Debug)]
pub enum ToggleDecision {
    /// There is no MCP section.
    NoMcpConfig,
    /// No server has the name.
    NotFound,
    /// The server is already in the state asked for; its shown form.
    Unchanged(SanitizedMcpToolServerConfig),
    /// The server at this index is to be connected and enabled.
    Enable(usize),
    /// The server at this index is to be disabled.
    Disable(usize),
}

/// What an enable or disable request for `name` calls for.
pub fn decide_toggle(config: &Config, name: &str, enable: bool) -> (r: ToggleDecision)
    ensures
        config.mcp is None ==> r is NoMcpConfig,
        config.mcp is Some ==> ({
            let servers = spec_servers(*config);
            let k = spec_find_server(servers, name@);
            &&& k == -1 ==> r is NotFound
            &&& k >= 0 && servers[k].enable == enable ==> (r matches ToggleDecision::Unchanged(s)
                && sanitized_tool_server_view(s) == spec_sanitized_tool_server(servers[k]))
            &&& k >= 0 && servers[k].enable != enable && enable ==> r == ToggleDecision::Enable(k as usize)
            &&& k >= 0 && servers[k].enable != enable && !enable ==> r == ToggleDecision::Disable(k as usize)
        }),
{
    match &config.mcp {
        None => ToggleDecision::NoMcpConfig,
        Some(m) => match find_server_index(&m.server.tool_servers, name) {
            None => ToggleDecision::NotFound,
            Some(k) => {
                let s = &m.server.tool_servers[k];
                if s.enable == enable {
                    let env = ApiKeyEnvironment::unset();
                    ToggleDecision::Unchanged(s.sanitize(&env))
                } else if enable {
                    ToggleDecision::Enable(k)
                } else {
                    ToggleDecision::Disable(k)
                }
            },
        },
    }
}

/// The shown form of a server that could not be found.
fn unknown_server(name: &str) -> (r: SanitizedMcpToolServerConfig)
    ensures
        r.name@ == name@,
        r.transport@.len() == 0,
        r.url is None,
        r.command is None,
        !r.enable,
        r.tools_count == 0,
{
    SanitizedMcpToolServerConfig {
        name: String::from_str(name),
        transport: String::new(),
        url: None,
        command: None,
        enable: false,
        tools_count: 0,
    }
}

/// The answer, with its status, to a request that needs no connection
/// change: no MCP section or no such server (404), or a server already in
/// the state asked for (200). `None` when the request needs a change.
pub fn toggle_early_response(decision: ToggleDecision, name: &str, enable: bool) -> (r: Option<(u16, ToggleMcpServerResponse)>)
    ensures
        decision is NoMcpConfig ==> (r matches Some((st, resp)) && st == 404 && !resp.success
            && resp.message@ == "MCP configuration not found"@ && resp.server.name@ == name@),
        decision is NotFound ==> (r matches Some((st, resp)) && st == 404 && !resp.success
            && resp.message@ == "MCP server '"@ + name@ + "' not found"@ && resp.server.name@ == name@),
        decision is Unchanged ==> (r matches Some((st, resp)) && st == 200 && resp.success
            && resp.message@ == "MCP server '"@ + name@ + "' is already "@ + (if enable { "enabled"@ } else { "disabled"@ })
            && resp.server == decision->Unchanged_0),
        (decision is Enable || decision is Disable) ==> r is None,
{
    proof {
        reveal_strlit("MCP configuration not found");
        reveal_strlit("MCP server '");
        reveal_strlit("' not found");
        reveal_strlit("' is already ");
        reveal_strlit("enabled");
        reveal_strlit("disabled");
    }
    match decision {
        ToggleDecision::NoMcpConfig => Some((404, ToggleMcpServerResponse {
            success: false,
            message: String::from_str("MCP configuration not found"),
            server: unknown_server(name),
        })),
        ToggleDecision::NotFound => Some((404, ToggleMcpServerResponse {
            success: false,
            message: concat3("MCP server '", name, "' not found"),
            server: unknown_server(name),
        })),
        ToggleDecision::Unchanged(s) => {
            let head = concat3("MCP server '", name, "' is already ");
            let state = if enable { "enabled" } else { "disabled" };
            Some((200, ToggleMcpServerResponse { success: true, message: concat(head.as_str(), state), server: s }))
        },
        _ => None,
    }
}

/// The server after it is disabled: not enabled, with no tools and no
/// reported name.
pub open spec fn spec_disabled(s: McpToolServerConfig) -> McpToolServerConfig {
    McpToolServerConfig { enable: false, tools: None, server_name: None, ..s }
}

/// What a disabled server leaves to tear down.
#[derive(Debug)]
pub struct DisabledServer {
    /// How it was connected.
    pub transport: McpTransport,
    /// The name its connection was registered under.
    pub service_name: String,
    /// Its shown form after the change.
    pub server: SanitizedMcpToolServerConfig,
}

/// Disables the server at index `k` in the configuration and says what
/// connection to tear down.
pub fn disable_server(config: &mut Config, k: usize) -> (r: DisabledServer)
    requires
        old(config).mcp is Some,
        k < spec_servers(*old(config)).len(),
    ensures
        final(config).mcp is Some,
        spec_servers(*final(config)) == spec_servers(*old(config)).update(k as int, spec_disabled(spec_servers(*old(config))[k as int])),
        final(config).server == old(config).server,
        final(config).skill == old(config).skill,
        r.transport == spec_servers(*old(config))[k as int].transport,
        r.service_name@ == shown_server_name(spec_servers(*old(config))[k as int]),
        sanitized_tool_server_view(r.server) == spec_sanitized_tool_server(spec_disabled(spec_servers(*old(config))[k as int])),
{
    let mut taken: Option<McpConfig> = None;
    std::mem::swap(&mut taken, &mut config.mcp);
    let mut m = taken.unwrap();
    let mut s = m.server.tool_servers.remove(k);
    let ghost before = s;
    let transport = s.transport;
    let service_name = match &s.server_name {
        Some(n) => n.clone(),
        None => s.name.clone(),
    };
    s.enable = false;
    s.tools = None;
    s.server_name = None;
    let env = ApiKeyEnvironment::unset();
    let shown = s.sanitize(&env);
    assert(s == spec_disabled(before));
    m.server.tool_servers.insert(k, s);
    config.mcp = Some(m);
    proof {
        assert(spec_servers(*final(config)) =~= spec_servers(*old(config)).update(k as int, spec_disabled(before)));
    }
    DisabledServer { transport, service_name, server: shown }
}

/// Puts `server` in place of the first server named like it, after a
/// successful connection. Says whether one was found.
pub fn replace_server(config: &mut Config, server: McpToolServerConfig) -> (r: bool)
    ensures
        r == (old(config).mcp is Some && spec_find_server(spec_servers(*old(config)), server.name@) >= 0),
        r ==> spec_servers(*final(config)) == spec_servers(*old(config)).update(
            spec_find_server(spec_servers(*old(config)), server.name@), server),
        !r ==> spec_servers(*final(config)) == spec_servers(*old(config)),
        final(config).mcp is Some == old(config).mcp is Some,
        final(config).server == old(config).server,
{
    let mut taken: Option<McpConfig> = None;
    std::mem::swap(&mut taken, &mut config.mcp);
    match taken {
        None => {
            config.mcp = None;
            false
        },
        Some(mut m) => {
            match find_server_index(&m.server.tool_servers, server.name.as_str()) {
                None => {
                    config.mcp = Some(m);
                    false
                },
                Some(k) => {
                    let ghost old_list = m.server.tool_servers@;
                    let _ = m.server.tool_servers.remove(k);
                    m.server.tool_servers.insert(k, server);
                    proof {
                        assert(m.server.tool_servers@ =~= old_list.update(k as int, server));
                    }
                    config.mcp = Some(m);
                    true
                },
            }
        },
    }
}

/// The answer to a successful enable.
pub fn enabled_response(name: &str, server: SanitizedMcpToolServerConfig) -> (r: ToggleMcpServerResponse)
    ensures
        r.success,
        r.message@ == "MCP server '"@ + name@ + "' enabled successfully"@,
        r.server == server,
{
    proof {
        reveal_strlit("MCP server '");
        reveal_strlit("' enabled successfully");
    }
    ToggleMcpServerResponse { success: true, message: concat3("MCP server '", name, "' enabled successfully"), server }
}

/// The answer to a failed enable (status 500).
pub fn enable_failed_response(name: &str, error: &str, server: SanitizedMcpToolServerConfig) -> (r: ToggleMcpServerResponse)
    ensures
        !r.success,
        r.message@ == "Failed to connect MCP server '"@ + name@ + "': "@ + error@,
        r.server == server,
{
    proof {
        reveal_strlit("Failed to connect MCP server '");
        reveal_strlit("': ");
    }
    let head = concat3("Failed to connect MCP server '", name, "': ");
    ToggleMcpServerResponse { success: false, message: concat(head.as_str(), error), server }
}

/// The answer to a disable.
pub fn disabled_response(name: &str, server: SanitizedMcpToolServerConfig) -> (r: ToggleMcpServerResponse)
    ensures
        r.success,
        r.message@ == "MCP server '"@ + name@ + "' disabled successfully"@,
        r.server == server,
{
    proof {
        reveal_strlit("MCP server '");
        reveal_strlit("' disabled successfully");
    }
    ToggleMcpServerResponse { success: true, message: concat3("MCP server '", name, "' disabled successfully"), server }
}

/// What an API key change leaves to do: whether the server was enabled, how
/// it is connected, and the name its connection is registered under.
#[derive(Debug)]
pub struct ApiKeyChange {
    pub was_enabled: bool,
    pub transport: McpTransport,
    pub service_name: String,
}

/// The server after an API key change: an empty key clears the key; a
/// parameter name, when given, replaces the old one (an empty one clears it).
pub open spec fn spec_with_key(s: McpToolServerConfig, api_key: String, api_key_param: Option<String>) -> McpToolServerConfig {
    McpToolServerConfig {
        api_key: if api_key@.len() == 0 { None } else { Some(api_key) },
        api_key_param: match api_key_param {
            Some(p) => if p@.len() == 0 { None } else { Some(p) },
            None => s.api_key_param,
        },
        ..s
    }
}

/// Changes the API key of the server named `name`: with no MCP section or
/// no such server the answer is 404 and nothing changes.
pub fn update_server_api_key(config: &mut Config, name: &str, api_key: String, api_key_param: Option<String>)
    -> (r: Result<ApiKeyChange, (u16, UpdateApiKeyResponse)>)
    ensures
        old(config).mcp is None ==> (r matches Err((st, resp)) && st == 404 && !resp.success
            && resp.message@ == "MCP configuration not found"@),
        old(config).mcp is Some && spec_find_server(spec_servers(*old(config)), name@) == -1 ==> (r matches Err((st, resp))
            && st == 404 && !resp.success && resp.message@ == "MCP server '"@ + name@ + "' not found"@),
        r is Err ==> spec_servers(*final(config)) == spec_servers(*old(config)),
        r is Ok ==> ({
            let k = spec_find_server(spec_servers(*old(config)), name@);
            let s = spec_servers(*old(config))[k];
            &&& old(config).mcp is Some && k >= 0
            &&& spec_servers(*final(config)) == spec_servers(*old(config)).update(k, spec_with_key(s, api_key, api_key_param))
            &&& r->Ok_0.was_enabled == s.enable
            &&& r->Ok_0.transport == s.transport
            &&& r->Ok_0.service_name@ == shown_server_name(s)
        }),
        final(config).mcp is Some == old(config).mcp is Some,
        final(config).server == old(config).server,
{
    proof {
        reveal_strlit("MCP configuration not found");
        reveal_strlit("MCP server '");
        reveal_strlit("' not found");
    }
    let mut taken: Option<McpConfig> = None;
    std::mem::swap(&mut taken, &mut config.mcp);
    match taken {
        None => {
            config.mcp = None;
            Err((404, UpdateApiKeyResponse { success: false, message: String::from_str("MCP configuration not found") }))
        },
        Some(mut m) => match find_server_index(&m.server.tool_servers, name) {
            None => {
                config.mcp = Some(m);
                Err((404, UpdateApiKeyResponse { success: false, message: concat3("MCP server '", name, "' not found") }))
            },
            Some(k) => {
                let ghost old_list = m.server.tool_servers@;
                let mut s = m.server.tool_servers.remove(k);
                let ghost before = s;
                let was_enabled = s.enable;
                let transport = s.transport;
                let service_name = match &s.server_name {
                    Some(n) => n.clone(),
                    None => s.name.clone(),
                };
                let ghost key0 = api_key;
                let ghost param0 = api_key_param;
                s.api_key = if api_key.unicode_len() == 0 { None } else { Some(api_key) };
                match api_key_param {
                    Some(p) => {
                        s.api_key_param = if p.unicode_len() == 0 { None } else { Some(p) };
                    },
                    None => {},
                }
                assert(s == spec_with_key(before, key0, param0));
                m.server.tool_servers.insert(k, s);
                proof {
                    assert(m.server.tool_servers@ =~= old_list.update(k as int, spec_with_key(before, key0, param0)));
                }
                config.mcp = Some(m);
                Ok(ApiKeyChange { was_enabled, transport, service_name })
            },
        },
    }
}

/// A changed key needs a new connection when the server is enabled and is
/// reached over the network.
pub fn needs_reconnect(change: &ApiKeyChange) -> (r: bool)
    ensures
        r == (change.was_enabled && change.transport != McpTransport::Stdio),
{
    change.was_enabled && change.transport != McpTransport::Stdio
}

/// The answer to an API key change whose reconnection failed (status 500).
pub fn reconnect_failed_response(error: &str) -> (r: UpdateApiKeyResponse)
    ensures
        !r.success,
        r.message@ == "API key updated but reconnection failed: "@ + error@ + ". Server has been disabled."@,
{
    proof {
        reveal_strlit("API key updated but reconnection failed: ");
        reveal_strlit(". Server has been disabled.");
    }
    UpdateApiKeyResponse {
        success: false,
        message: concat3("API key updated but reconnection failed: ", error, ". Server has been disabled."),
    }
}

/// The answer to a successful API key change.
pub fn api_key_updated_response(name: &str) -> (r: UpdateApiKeyResponse)
    ensures
        r.success,
        r.message@ == "API key updated for MCP server '"@ + name@ + "'"@,
{
    proof {
        reveal_strlit("API key updated for MCP server '");
        reveal_strlit("'");
    }
    UpdateApiKeyResponse { success: true, message: concat3("API key updated for MCP server '", name, "'") }
}

} // verus!
