//! The command line: its options, the environment settings they override, and what a
//! start-up does.
use vstd::prelude::*;
use crate::auth::{is_truthy, opt_str_view};
use crate::token::pairs_view;

verus! {

/// The parsed command line.
pub struct Cli {
    pub debug: bool,
    pub command: Option<Command>,
    pub print_access_token: bool,
    pub print_auth_file: bool,
    pub list_models: bool,
    pub auth_file: Option<String>,
    pub auth_url: Option<String>,
    pub token_url: Option<String>,
    pub client_id: Option<String>,
    pub redirect_uri: Option<String>,
    pub scope: Option<String>,
    pub no_proxy: bool,
}

/// A subcommand.
pub enum Command {
    Auth,
    Serve { proxy_host: String, proxy_port: u16 },
}

/// Proxy bind host when none is given.
pub const DEFAULT_PROXY_HOST: &'static str = "127.0.0.1";

/// Proxy bind port when none is given.
pub const DEFAULT_PROXY_PORT: u16 = 8788;

impl Command {
    /// The bind host and port of `serve`; nothing for other subcommands.
    pub fn serve_values(&self) -> (r: Option<(&str, u16)>)
        ensures
            match self {
                Command::Serve { proxy_host, proxy_port } => r matches Some(v) && v.0@
                    == proxy_host@ && v.1 == *proxy_port,
                Command::Auth => r is None,
            },
    {
        match self {
            Command::Serve { proxy_host, proxy_port } => Some((proxy_host.as_str(), *proxy_port)),
            _ => None,
        }
    }
}

pub open spec fn opt_setting(name: Seq<char>, v: Option<String>) -> Seq<(Seq<char>, Seq<char>)> {
    match v {
        Some(s) => seq![(name, s@)],
        None => seq![],
    }
}

pub open spec fn flag_setting(name: Seq<char>, on: bool) -> Seq<(Seq<char>, Seq<char>)> {
    if on {
        seq![(name, "1"@)]
    } else {
        seq![]
    }
}

/// The environment variables the command line sets, in order.
pub open spec fn env_overrides(cli: Cli) -> Seq<(Seq<char>, Seq<char>)> {
    opt_setting("AGENT_AUTH_FILE"@, cli.auth_file) + opt_setting(
        "OPENAI_OAUTH_AUTH_URL"@,
        cli.auth_url,
    ) + opt_setting("OPENAI_OAUTH_TOKEN_URL"@, cli.token_url) + opt_setting(
        "OPENAI_OAUTH_CLIENT_ID"@,
        cli.client_id,
    ) + opt_setting("OPENAI_OAUTH_REDIRECT_URI"@, cli.redirect_uri) + opt_setting(
        "OPENAI_OAUTH_SCOPE"@,
        cli.scope,
    ) + flag_setting("OPENAI_OAUTH_NO_PROXY"@, cli.no_proxy) + flag_setting(
        "OPENAI_OAUTH_PROXY_DEBUG"@,
        cli.debug,
    )
}

fn push_opt(out: &mut Vec<(String, String)>, name: &str, v: &Option<String>)
    ensures
        pairs_view(final(out)@) == pairs_view(old(out)@) + opt_setting(name@, *v),
{
    let ghost before = pairs_view(out@);
    match v {
        Some(s) => {
            out.push((name.to_owned(), s.clone()));
            assert(pairs_view(out@) =~= before + opt_setting(name@, *v));
        },
        None => {
            assert(pairs_view(out@) =~= before + opt_setting(name@, *v));
        },
    }
}

fn push_flag(out: &mut Vec<(String, String)>, name: &str, on: bool)
    ensures
        pairs_view(final(out)@) == pairs_view(old(out)@) + flag_setting(name@, on),
{
    let ghost before = pairs_view(out@);
    if on {
        out.push((name.to_owned(), "1".to_owned()));
    }
    assert(pairs_view(out@) =~= before + flag_setting(name@, on));
}

/// The `(variable, value)` settings that the command line's options put in the environment.
pub fn cli_env_overrides(cli: &Cli) -> (out: Vec<(String, String)>)
    ensures
        pairs_view(out@) == env_overrides(*cli),
{
    let mut out: Vec<(String, String)> = Vec::new();
    push_opt(&mut out, "AGENT_AUTH_FILE", &cli.auth_file);
    push_opt(&mut out, "OPENAI_OAUTH_AUTH_URL", &cli.auth_url);
    push_opt(&mut out, "OPENAI_OAUTH_TOKEN_URL", &cli.token_url);
    push_opt(&mut out, "OPENAI_OAUTH_CLIENT_ID", &cli.client_id);
    push_opt(&mut out, "OPENAI_OAUTH_REDIRECT_URI", &cli.redirect_uri);
    push_opt(&mut out, "OPENAI_OAUTH_SCOPE", &cli.scope);
    push_flag(&mut out, "OPENAI_OAUTH_NO_PROXY", cli.no_proxy);
    push_flag(&mut out, "OPENAI_OAUTH_PROXY_DEBUG", cli.debug);
    assert(pairs_view(out@) =~= env_overrides(*cli));
    out
}

/// What a start-up does.
pub enum StartupAction {
    /// Print the token file path.
    PrintAuthFile,
    /// Print the built-in models.
    ListModels,
    /// Print the access token (refreshed if needed).
    PrintAccessToken,
    /// Run the browser login.
    Auth,
    /// Log in if no token is stored, then serve the proxy on this host and port.
    Serve { host: String, port: u16 },
}

pub enum StartupActionV {
    PrintAuthFile,
    ListModels,
    PrintAccessToken,
    Auth,
    Serve(Seq<char>, u16),
}

pub open spec fn startup_view(a: StartupAction) -> StartupActionV {
    match a {
        StartupAction::PrintAuthFile => StartupActionV::PrintAuthFile,
        StartupAction::ListModels => StartupActionV::ListModels,
        StartupAction::PrintAccessToken => StartupActionV::PrintAccessToken,
        StartupAction::Auth => StartupActionV::Auth,
        StartupAction::Serve { host, port } => StartupActionV::Serve(host@, port),
    }
}

/// The start-up's action: the printing options first, then `auth`, else serving (on the
/// `serve` host and port, or the defaults when no subcommand is given).
pub open spec fn startup_of(cli: Cli) -> StartupActionV {
    if cli.print_auth_file {
        StartupActionV::PrintAuthFile
    } else if cli.list_models {
        StartupActionV::ListModels
    } else if cli.print_access_token {
        StartupActionV::PrintAccessToken
    } else {
        match cli.command {
            Some(Command::Auth) => StartupActionV::Auth,
            Some(Command::Serve { proxy_host, proxy_port }) => StartupActionV::Serve(
                proxy_host@,
                proxy_port,
            ),
            None => StartupActionV::Serve(DEFAULT_PROXY_HOST@, DEFAULT_PROXY_PORT),
        }
    }
}

/// Decides what a start-up does.
pub fn startup_action(cli: &Cli) -> (a: StartupAction)
    ensures
        startup_view(a) == startup_of(*cli),
{
    let (run_auth, host, port) = match &cli.command {
        Some(Command::Auth) => (true, DEFAULT_PROXY_HOST.to_owned(), DEFAULT_PROXY_PORT),
        Some(command) => match command.serve_values() {
            Some((h, p)) => (false, h.to_owned(), p),
            None => (false, DEFAULT_PROXY_HOST.to_owned(), DEFAULT_PROXY_PORT),
        },
        None => (false, DEFAULT_PROXY_HOST.to_owned(), DEFAULT_PROXY_PORT),
    };
    if cli.print_auth_file {
        return StartupAction::PrintAuthFile;
    }
    if cli.list_models {
        return StartupAction::ListModels;
    }
    if cli.print_access_token {
        return StartupAction::PrintAccessToken;
    }
    if run_auth {
        return StartupAction::Auth;
    }
    StartupAction::Serve { host, port }
}

/// The default log filter: debug level when `OPENAI_OAUTH_PROXY_DEBUG` is switched on.
pub fn default_log_filter(debug_flag: Option<&str>) -> (f: &'static str)
    ensures
        f@ == if is_truthy(opt_str_view(debug_flag)) {
            "openai_oauth_proxy=debug,tower_http=debug"@
        } else {
            "openai_oauth_proxy=info,tower_http=info"@
        },
{
    if crate::auth::flag_enabled(debug_flag) {
        "openai_oauth_proxy=debug,tower_http=debug"
    } else {
        "openai_oauth_proxy=info,tower_http=info"
    }
}

} // verus!
