use openai_oauth_proxy::cli::{
    cli_env_overrides, default_log_filter, startup_action, Cli, Command, StartupAction,
};

fn cli() -> Cli {
    Cli {
        debug: false,
        command: None,
        print_access_token: false,
        print_auth_file: false,
        list_models: false,
        auth_file: None,
        auth_url: None,
        token_url: None,
        client_id: None,
        redirect_uri: None,
        scope: None,
        no_proxy: false,
    }
}

#[test]
fn serve_values_of_commands() {
    let serve = Command::Serve {
        proxy_host: "0.0.0.0".to_string(),
        proxy_port: 9000,
    };
    assert_eq!(serve.serve_values(), Some(("0.0.0.0", 9000)));
    assert_eq!(Command::Auth.serve_values(), None);
}

#[test]
fn env_overrides_in_order() {
    let mut c = cli();
    c.auth_file = Some("/f".to_string());
    c.scope = Some("openid".to_string());
    c.no_proxy = true;
    c.debug = true;
    assert_eq!(
        cli_env_overrides(&c),
        vec![
            ("AGENT_AUTH_FILE".to_string(), "/f".to_string()),
            ("OPENAI_OAUTH_SCOPE".to_string(), "openid".to_string()),
            ("OPENAI_OAUTH_NO_PROXY".to_string(), "1".to_string()),
            ("OPENAI_OAUTH_PROXY_DEBUG".to_string(), "1".to_string()),
        ]
    );
    assert!(cli_env_overrides(&cli()).is_empty());
}

#[test]
fn startup_defaults_to_serving() {
    match startup_action(&cli()) {
        StartupAction::Serve { host, port } => {
            assert_eq!(host, "127.0.0.1");
            assert_eq!(port, 8788);
        }
        _ => panic!(),
    }
}

#[test]
fn startup_order_of_options() {
    let mut c = cli();
    c.command = Some(Command::Auth);
    assert!(matches!(startup_action(&c), StartupAction::Auth));
    c.print_access_token = true;
    assert!(matches!(startup_action(&c), StartupAction::PrintAccessToken));
    c.list_models = true;
    assert!(matches!(startup_action(&c), StartupAction::ListModels));
    c.print_auth_file = true;
    assert!(matches!(startup_action(&c), StartupAction::PrintAuthFile));
    let mut c = cli();
    c.command = Some(Command::Serve {
        proxy_host: "h".to_string(),
        proxy_port: 1,
    });
    match startup_action(&c) {
        StartupAction::Serve { host, port } => assert_eq!((host.as_str(), port), ("h", 1)),
        _ => panic!(),
    }
}

#[test]
fn log_filters() {
    assert_eq!(
        default_log_filter(Some("yes")),
        "openai_oauth_proxy=debug,tower_http=debug"
    );
    assert_eq!(
        default_log_filter(None),
        "openai_oauth_proxy=info,tower_http=info"
    );
}
