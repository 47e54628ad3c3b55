//! MCP servers: what a connection to a configured server needs (which URL,
//! with the API key in its query), how tools are named, and the decisions of
//! the MCP management API (list, enable, disable, change the API key).

use vstd::prelude::*;
use vstd::utf8::*;
use crate::config::{Config, McpToolDescriptor, McpToolServerConfig, McpTransport, opt_view};
use crate::error::ServerError;
use crate::text::{concat, concat3, contains_char, join, spec_decimal, spec_has_char, spec_join, u64_to_decimal, views};

verus! {

// ---------------------------------------------------------------------------
// Names of outside results
// ---------------------------------------------------------------------------

/// What `url::Url::parse` says of a text: `None` when it parses, else the
/// text of its error.
pub uninterp spec fn url_parse_error(s: Seq<char>) -> Option<Seq<char>>;

/// Calls `url::Url::parse` and keeps only whether it failed and, if so, the
/// error's text. The result is named (it depends on the text alone), not
/// described.
#[verifier::external_body]
fn check_url(s: &str) -> (r: Option<String>)
    ensures
        opt_view(r) == url_parse_error(s@),
{
    match url::Url::parse(s) {
        Ok(_) => None,
        Err(e) => Some(e.to_string()),
    }
}

/// A byte that percent-encoding leaves as it is: an ASCII letter or digit,
/// `-`, `.`, `_` or `~`.
pub open spec fn is_unreserved(b: u8) -> bool {
    (48 <= b && b <= 57) || (65 <= b && b <= 90) || (97 <= b && b <= 122) || b == 45 || b == 46 || b == 95 || b == 126
}

/// The upper-case hexadecimal digit of a number below 16.
pub open spec fn hex_digit(d: u8) -> char {
    if d < 10 {
        ((48 + d) as u8) as char
    } else {
        ((55 + d) as u8) as char
    }
}

/// Percent-encoding of bytes: each unreserved byte as its character, every
/// other byte as `%` and two upper-case hexadecimal digits.
pub open spec fn spec_percent_encode(bytes: Seq<u8>) -> Seq<char>
    decreases bytes.len(),
{
    if bytes.len() == 0 {
        Seq::empty()
    } else {
        let b = bytes.last();
        let piece = if is_unreserved(b) {
            seq![b as char]
        } else {
            seq!['%', hex_digit(b / 16), hex_digit(b % 16)]
        };
        spec_percent_encode(bytes.drop_last()) + piece
    }
}

/// Calls `urlencoding::encode`, which percent-encodes the UTF-8 bytes of the
/// text and leaves letters, digits, `-`, `.`, `_` and `~` as they are.
#[verifier::external_body]
fn url_encode(s: &str) -> (r: String)
    ensures
        r@ == spec_percent_encode(encode_utf8(s@)),
{
    urlencoding::encode(s).into_owned()
}

// ---------------------------------------------------------------------------
// Connection planning
// ---------------------------------------------------------------------------

/// `s` without the `/` characters at its end.
pub open spec fn spec_trim_end_slashes(s: Seq<char>) -> Seq<char>
    decreases s.len(),
{
    if s.len() > 0 && s.last() == '/' {
        spec_trim_end_slashes(s.drop_last())
    } else {
        s
    }
}

/// `s` without the `/` characters at its end.
pub fn trim_end_slashes(s: &str) -> (r: String)
    ensures
        r@ == spec_trim_end_slashes(s@),
{
    let mut n = s.unicode_len();
    assert(s@.subrange(0, n as int) =~= s@);
    while n > 0 && s.get_char(n - 1) == '/'
        invariant
            n <= s@.len(),
            spec_trim_end_slashes(s@.subrange(0, n as int)) == spec_trim_end_slashes(s@),
        decreases n,
    {
        assert(s@.subrange(0, n as int).drop_last() =~= s@.subrange(0, n - 1));
        n = n - 1;
    }
    crate::text::substring(s, 0, n)
}

/// The URL to connect to, with the API key in its query when there are both
/// a key that is not empty and the name of its parameter: the URL without
/// trailing `/`, then `?` (or `&` when it has a query already), the
/// parameter's name, `=` and the key percent-encoded.
pub open spec fn spec_url_with_key(url: Seq<char>, api_key: Option<Seq<char>>, param: Option<Seq<char>>) -> Seq<char> {
    let base = spec_trim_end_slashes(url);
    match (api_key, param) {
        (Some(k), Some(p)) => if k.len() > 0 {
            base + (if spec_has_char(base, '?') { "&"@ } else { "?"@ }) + p + "="@ + spec_percent_encode(encode_utf8(k))
        } else {
            base
        },
        _ => base,
    }
}

/// The URL to connect to, with the API key in its query.
pub fn url_with_key(url: &str, api_key: &Option<String>, param: &Option<String>) -> (r: String)
    ensures
        r@ == spec_url_with_key(url@, opt_view(*api_key), opt_view(*param)),
{
    let base = trim_end_slashes(url);
    match (api_key, param) {
        (Some(k), Some(p)) => {
            if k.unicode_len() > 0 {
                proof {
                    reveal_strlit("&");
                    reveal_strlit("?");
                    reveal_strlit("=");
                }
                let sep = if contains_char(base.as_str(), '?') { "&" } else { "?" };
                let head = concat3(base.as_str(), sep, p.as_str());
                let encoded = url_encode(k.as_str());
                concat3(head.as_str(), "=", encoded.as_str())
            } else {
                base
            }
        },
        _ => base,
    }
}

/// The error of a server with both `url` and `oauth_url`.
pub open spec fn spec_both_urls_message(name: Seq<char>) -> Seq<char> {
    "Invalid configuration for mcp server '"@ + name + "': Both url and oauth_url cannot be set at the same time"@
}

/// The error of a server with neither `url` nor `oauth_url`.
pub open spec fn spec_no_url_message(name: Seq<char>) -> Seq<char> {
    "Invalid configuration for mcp server '"@ + name + "': Either url or oauth_url must be set"@
}

/// The error of a stdio server without a command.
pub open spec fn spec_no_command_message(name: Seq<char>) -> Seq<char> {
    "Invalid configuration for stdio mcp server '"@ + name + "': 'command' is required"@
}

/// The error of a URL that does not parse.
pub open spec fn spec_invalid_url_message(transport: McpTransport, url: Seq<char>, err: Seq<char>) -> Seq<char> {
    (if transport == McpTransport::Sse { "Invalid mcp tools sse URL: "@ } else { "Invalid mcp tools stream-http URL: "@ })
        + url + ". "@ + err
}

/// How to connect to a configured MCP server.
#[derive(Debug)]
pub enum McpConnectPlan {
    /// The server is disabled: nothing to do.
    Disabled,
    /// Start this command and speak MCP over its standard streams.
    Stdio { command: String },
    /// Connect to this URL, through OAuth when `use_oauth`.
    Remote { url: String, use_oauth: bool },
}

/// The URL of a remote server (with the API key) and whether it goes
/// through OAuth: exactly one of `url` and `oauth_url` must be set.
pub open spec fn spec_remote_url(s: McpToolServerConfig) -> Result<(Seq<char>, bool), Seq<char>> {
    match (s.url, s.oauth_url) {
        (Some(u), None) => Ok((spec_url_with_key(u@, opt_view(s.api_key), opt_view(s.api_key_param)), false)),
        (None, Some(o)) => Ok((spec_url_with_key(o@, opt_view(s.api_key), opt_view(s.api_key_param)), true)),
        (Some(_), Some(_)) => Err(spec_both_urls_message(s.name@)),
        (None, None) => Err(spec_no_url_message(s.name@)),
    }
}

/// What a check of the URL says: a URL without OAuth must parse.
pub open spec fn spec_url_check(transport: McpTransport, url: Seq<char>, use_oauth: bool, parse_error: Option<Seq<char>>) -> Option<Seq<char>> {
    if !use_oauth && parse_error is Some {
        Some(spec_invalid_url_message(transport, url, parse_error->0))
    } else {
        None
    }
}

/// The error, if any, that a URL check gives, from what parsing the URL said.
pub fn url_check(transport: McpTransport, url: &str, use_oauth: bool, parse_error: Option<String>) -> (r: Option<ServerError>)
    requires
        transport != McpTransport::Stdio,
    ensures
        match spec_url_check(transport, url@, use_oauth, opt_view(parse_error)) {
            Some(m) => r matches Some(e) && e is Operation && e->Operation_0@ == m,
            None => r is None,
        },
{
    if use_oauth {
        return None;
    }
    match parse_error {
        None => None,
        Some(err) => {
            proof {
                reveal_strlit("Invalid mcp tools sse URL: ");
                reveal_strlit("Invalid mcp tools stream-http URL: ");
                reveal_strlit(". ");
            }
            let head = match transport {
                McpTransport::Sse => concat("Invalid mcp tools sse URL: ", url),
                _ => concat("Invalid mcp tools stream-http URL: ", url),
            };
            Some(ServerError::Operation(concat3(head.as_str(), ". ", err.as_str())))
        },
    }
}

/// The plan of a server, given what parsing its URL says (for a remote
/// server without OAuth): disabled servers need nothing; stdio servers need
/// a command; remote servers need exactly one URL, which must parse unless
/// it goes through OAuth.
pub open spec fn spec_plan(s: McpToolServerConfig, parse_error: Option<Seq<char>>) -> Result<McpConnectPlanV, Seq<char>> {
    if !s.enable {
        Ok(McpConnectPlanV::Disabled)
    } else if s.transport == McpTransport::Stdio {
        match s.command {
            Some(c) => Ok(McpConnectPlanV::Stdio { command: c@ }),
            None => Err(spec_no_command_message(s.name@)),
        }
    } else {
        match spec_remote_url(s) {
            Err(m) => Err(m),
            Ok((url, use_oauth)) => match spec_url_check(s.transport, url, use_oauth, parse_error) {
                Some(m) => Err(m),
                None => Ok(McpConnectPlanV::Remote { url, use_oauth }),
            },
        }
    }
}

/// A connection plan as values.
pub enum McpConnectPlanV {
    Disabled,
    Stdio { command: Seq<char> },
    Remote { url: Seq<char>, use_oauth: bool },
}

/// A connection plan as values.
pub open spec fn plan_view(p: McpConnectPlan) -> McpConnectPlanV {
    match p {
        McpConnectPlan::Disabled => McpConnectPlanV::Disabled,
        McpConnectPlan::Stdio { command } => McpConnectPlanV::Stdio { command: command@ },
        McpConnectPlan::Remote { url, use_oauth } => McpConnectPlanV::Remote { url: url@, use_oauth },
    }
}

/// The URL of a remote server with the API key, and whether it goes through OAuth.
pub fn remote_url(s: &McpToolServerConfig) -> (r: Result<(String, bool), ServerError>)
    ensures
        match spec_remote_url(*s) {
            Ok((u, o)) => r matches Ok((ru, ro)) && ru@ == u && ro == o,
            Err(m) => r matches Err(e) && e is Operation && e->Operation_0@ == m,
        },
{
    proof {
        reveal_strlit("Invalid configuration for mcp server '");
        reveal_strlit("': Both url and oauth_url cannot be set at the same time");
        reveal_strlit("': Either url or oauth_url must be set");
    }
    match (&s.url, &s.oauth_url) {
        (Some(u), None) => Ok((url_with_key(u.as_str(), &s.api_key, &s.api_key_param), false)),
        (None, Some(o)) => Ok((url_with_key(o.as_str(), &s.api_key, &s.api_key_param), true)),
        (Some(_), Some(_)) => Err(ServerError::Operation(concat3(
            "Invalid configuration for mcp server '",
            s.name.as_str(),
            "': Both url and oauth_url cannot be set at the same time",
        ))),
        (None, None) => Err(ServerError::Operation(concat3(
            "Invalid configuration for mcp server '",
            s.name.as_str(),
            "': Either url or oauth_url must be set",
        ))),
    }
}

/// How to connect to a configured server, or why its configuration is
/// refused. The URL of a remote server without OAuth is parsed with `url`.
pub fn plan_mcp_connection(s: &McpToolServerConfig) -> (r: Result<McpConnectPlan, ServerError>)
    ensures
        s.enable && s.transport != McpTransport::Stdio && spec_remote_url(*s) is Ok ==> ({
            let (url, use_oauth) = spec_remote_url(*s)->Ok_0;
            let parse_error = if use_oauth { None } else { url_parse_error(url) };
            match spec_plan(*s, parse_error) {
                Ok(p) => r matches Ok(rp) && plan_view(rp) == p,
                Err(m) => r matches Err(e) && e is Operation && e->Operation_0@ == m,
            }
        }),
        !(s.enable && s.transport != McpTransport::Stdio && spec_remote_url(*s) is Ok) ==> match spec_plan(*s, None) {
            Ok(p) => r matches Ok(rp) && plan_view(rp) == p,
            Err(m) => r matches Err(e) && e is Operation && e->Operation_0@ == m,
        },
{
    if !s.enable {
        return Ok(McpConnectPlan::Disabled);
    }
    if s.transport == McpTransport::Stdio {
        proof {
            reveal_strlit("Invalid configuration for stdio mcp server '");
            reveal_strlit("': 'command' is required");
        }
        return match &s.command {
            Some(c) => Ok(McpConnectPlan::Stdio { command: c.clone() }),
            None => Err(ServerError::Operation(concat3(
                "Invalid configuration for stdio mcp server '",
                s.name.as_str(),
                "': 'command' is required",
            ))),
        };
    }
    match remote_url(s) {
        Err(e) => Err(e),
        Ok((url, use_oauth)) => {
            let parse_error = if use_oauth { None } else { check_url(url.as_str()) };
            match url_check(s.transport, url.as_str(), use_oauth, parse_error) {
                Some(e) => Err(e),
                None => Ok(McpConnectPlan::Remote { url, use_oauth }),
            }
        },
    }
}

/// The name under which a connected service is registered: the name the
/// server reports, else the configured name.
pub fn service_name_of(reported: Option<String>, configured: &str) -> (r: String)
    ensures
        r@ == (match reported {
            Some(n) => n@,
            None => configured@,
        }),
{
    match reported {
        Some(n) => n,
        None => String::from_str(configured),
    }
}

/// Admits a connected service to the registered clients under its name:
/// refused, with the registry unchanged, when a client of that name is
/// registered already; otherwise the name is added at the end.
pub fn admit_service(registered: &mut Vec<String>, service_name: &str) -> (r: Result<(), ServerError>)
    ensures
        views(old(registered)@).contains(service_name@) ==> (r matches Err(ServerError::Operation(m))
            && m@ == "Mcp client "@ + service_name@ + " already exists"@
            && final(registered)@ == old(registered)@),
        !views(old(registered)@).contains(service_name@) ==> (r is Ok
            && views(final(registered)@) == views(old(registered)@).push(service_name@)),
{
    let mut i: usize = 0;
    while i < registered.len()
        invariant
            i <= registered@.len(),
            forall|j: int| 0 <= j < i ==> registered@[j]@ != service_name@,
        decreases registered@.len() - i,
    {
        if crate::text::str_eq(registered[i].as_str(), service_name) {
            assert(views(registered@)[i as int] == service_name@);
            return Err(ServerError::Operation(concat3("Mcp client ", service_name, " already exists")));
        }
        i = i + 1;
    }
    assert forall|j: int| 0 <= j < registered@.len() implies views(registered@)[j] != service_name@ by {
        assert(views(registered@)[j] == registered@[j]@);
    }
    let ghost before = registered@;
    registered.push(String::from_str(service_name));
    assert(views(registered@) =~= views(before).push(service_name@));
    Ok(())
}

/// Records a successful connection: the reported service name and the tools.
pub fn record_connection(s: &mut McpToolServerConfig, service_name: String, tools: Vec<McpToolDescriptor>)
    ensures
        final(s).server_name == Some(service_name),
        final(s).tools == Some(tools),
        final(s).name == old(s).name,
        final(s).enable == old(s).enable,
        final(s).transport == old(s).transport,
        final(s).url == old(s).url,
        final(s).oauth_url == old(s).oauth_url,
        final(s).api_key == old(s).api_key,
        final(s).api_key_param == old(s).api_key_param,
        final(s).command == old(s).command,
        final(s).args == old(s).args,
        final(s).env == old(s).env,
        final(s).working_dir == old(s).working_dir,
        final(s).fallback_message == old(s).fallback_message,
{
    s.server_name = Some(service_name);
    s.tools = Some(tools);
}

/// The name under which a tool of a server is offered: `mcp__server__tool`.
pub fn format_mcp_tool_name(server: &str, tool: &str) -> (r: String)
    ensures
        r@ == "mcp__"@ + server@ + "__"@ + tool@,
{
    proof {
        reveal_strlit("mcp__");
        reveal_strlit("__");
    }
    let a = concat3("mcp__", server, "__");
    concat(a.as_str(), tool)
}


/// The warning after connecting the configured servers, when some failed:
/// how many connected out of how many, how many failed, and their names.
pub open spec fn spec_connect_summary(connected: nat, total: nat, failed: Seq<Seq<char>>) -> Seq<char> {
    "MCP servers: "@ + spec_decimal(connected) + "/"@ + spec_decimal(total) + " connected, "@
        + spec_decimal(failed.len()) + " failed ("@ + spec_join(failed, ", "@)
        + "). Failed servers have been disabled."@
}

/// The warning after connecting the configured servers; none when no
/// server failed.
pub fn connect_summary(connected: u64, total: u64, failed: &Vec<String>) -> (r: Option<String>)
    ensures
        failed@.len() == 0 ==> r is None,
        failed@.len() > 0 ==> (r matches Some(m) && m@ == spec_connect_summary(connected as nat, total as nat, views(failed@))),
{
    if failed.len() == 0 {
        return None;
    }
    proof {
        reveal_strlit("MCP servers: ");
        reveal_strlit("/");
        reveal_strlit(" connected, ");
        reveal_strlit(" failed (");
        reveal_strlit(", ");
        reveal_strlit("). Failed servers have been disabled.");
    }
    let c = u64_to_decimal(connected);
    let t = u64_to_decimal(total);
    let f = u64_to_decimal(failed.len() as u64);
    let names = join(failed, ", ");
    let a = concat3("MCP servers: ", c.as_str(), "/");
    let b = concat3(a.as_str(), t.as_str(), " connected, ");
    let d = concat3(b.as_str(), f.as_str(), " failed (");
    let e = concat3(d.as_str(), names.as_str(), "). Failed servers have been disabled.");
    assert(views(failed@).len() == failed@.len());
    Some(e)
}

} // verus!
