use swatchdog::args::Args;
use swatchdog::args::ServiceCommand;
use swatchdog::logger::LogConfig;
use swatchdog::logger::PathKind;
use swatchdog::prober::on_wait;
use swatchdog::prober::ProberDirective;
use swatchdog::prober::WaitOutcome;
use swatchdog::watchdog::ConfigError;
use swatchdog::watchdog::Watchdog;

fn args_for(url: &str) -> Args {
    Args {
        url: url.to_string(),
        method: "GET".to_string(),
        interval_ms: 100,
        insecure: true,
        local_address: None,
        verbose: false,
        log: None,
        service: None,
    }
}

#[test]
fn ftp_scheme_is_rejected_before_anything_starts() {
    match Watchdog::try_new(args_for("ftp://example.com")) {
        Err(ConfigError::SchemeNotAllowed(scheme)) => assert_eq!(scheme, "ftp"),
        Err(_) => panic!("wrong rejection for an ftp endpoint"),
        Ok(_) => panic!("an ftp endpoint must not construct a watchdog"),
    }
}

#[test]
fn http_and_https_schemes_are_accepted() {
    let wd = Watchdog::try_new(args_for("http://localhost")).expect("http is allowed");
    assert_eq!(wd.host(), "localhost");
    let wd = Watchdog::try_new(args_for("https://Example.COM/x")).expect("https is allowed");
    assert_eq!(wd.scheme(), "https");
    assert_eq!(wd.host(), "example.com");
    assert_eq!(wd.url_text(), "https://example.com/x");
    assert_eq!(wd.interval_ms(), 100);
    assert!(wd.ignore_cert_errors());
}

#[test]
fn endpoint_must_be_a_url() {
    match Watchdog::try_new(args_for("not a url")) {
        Err(ConfigError::InvalidUrl) => {},
        _ => panic!("a malformed endpoint must be rejected as no URL"),
    }
}

#[test]
fn endpoint_must_have_a_host() {
    match Watchdog::try_new(args_for("data:text/plain,x")) {
        Err(ConfigError::MissingHost) => {},
        _ => panic!("an endpoint without a host must be rejected"),
    }
}

#[test]
fn config_error_messages() {
    assert_eq!(ConfigError::InvalidUrl.message(), "parse url");
    assert_eq!(ConfigError::MissingHost.message(), "no host in url");
    assert_eq!(
        ConfigError::SchemeNotAllowed("ftp".to_string()).message(),
        "URL scheme is not allowed: ftp"
    );
}

#[test]
fn shutdown_test() {
    let mut wd = Watchdog::try_new(args_for("http://localhost")).expect("a valid configuration");
    let shutdown = wd.take_shutdown_tx();
    assert!(shutdown.is_some());
    assert!(wd.take_shutdown_tx().is_none());
    drop(shutdown);
    let rx = wd.into_shutdown_rx();
    assert!(rx.recv().is_err());
    assert!(matches!(on_wait(WaitOutcome::Disconnected), ProberDirective::Halt));
}

#[test]
fn render_minimal_config() {
    let args = Args {
        url: "http://example.com/".to_string(),
        method: "GET".to_string(),
        interval_ms: 60000,
        insecure: false,
        local_address: None,
        verbose: false,
        log: None,
        service: None,
    };
    let rendered = args.render();
    assert_eq!(rendered, vec!["--url".to_string(), "http://example.com/".to_string()]);
}

#[test]
fn render_full_config() {
    let args = Args {
        url: "https://example.com/x".to_string(),
        method: "POST".to_string(),
        interval_ms: 90500,
        insecure: true,
        local_address: Some("0.0.0.0".to_string()),
        verbose: true,
        log: Some(LogConfig::File("log.txt".to_string())),
        service: Some(ServiceCommand::Run),
    };
    let expected: Vec<String> = vec![
        "--url",
        "https://example.com/x",
        "--method",
        "POST",
        "--interval",
        "1m 30s 500ms",
        "--insecure",
        "--from",
        "0.0.0.0",
        "--verbose",
        "--log",
        "\"log.txt\"",
        "--service",
        "run",
    ]
    .into_iter()
    .map(String::from)
    .collect();
    assert_eq!(args.render(), expected);
}

#[test]
fn service_command_from_str_accepts_any_case() {
    assert_eq!(ServiceCommand::from_str("Install").unwrap(), ServiceCommand::Install);
    assert_eq!(ServiceCommand::from_str("UNINSTALL").unwrap(), ServiceCommand::Uninstall);
    assert_eq!(ServiceCommand::from_str("start").unwrap(), ServiceCommand::Start);
    assert_eq!(ServiceCommand::from_str("sToP").unwrap(), ServiceCommand::Stop);
    assert_eq!(ServiceCommand::from_str("run").unwrap(), ServiceCommand::Run);
    assert!(ServiceCommand::from_str("pause").is_err());
    assert!(ServiceCommand::from_str("").is_err());
}

#[test]
fn service_command_round_trip() {
    let commands = [
        ServiceCommand::Install,
        ServiceCommand::Uninstall,
        ServiceCommand::Start,
        ServiceCommand::Stop,
        ServiceCommand::Run,
    ];
    for command in commands {
        let text = command.as_text();
        assert_eq!(ServiceCommand::from_str(&text).unwrap(), command);
    }
}

#[test]
fn log_config_keywords() {
    assert!(matches!(LogConfig::classify("", PathKind::Missing), LogConfig::Default));
    assert!(matches!(LogConfig::classify("None", PathKind::Missing), LogConfig::Off));
    assert!(matches!(LogConfig::classify("STDOUT", PathKind::File), LogConfig::StdOut));
    assert!(matches!(LogConfig::classify("stderr", PathKind::Directory), LogConfig::StdErr));
}

#[test]
fn log_config_paths_follow_the_file_system() {
    match LogConfig::classify("/Var/Log", PathKind::Directory) {
        LogConfig::Directory(p) => assert_eq!(p, "/var/log"),
        _ => panic!("an existing directory must become a rotation directory"),
    }
    match LogConfig::classify("app.log", PathKind::File) {
        LogConfig::File(p) => assert_eq!(p, "app.log"),
        _ => panic!("an existing file must become a log file"),
    }
    match LogConfig::classify("missing.log", PathKind::Missing) {
        LogConfig::File(p) => assert_eq!(p, "missing.log"),
        _ => panic!("a path that names nothing yet must become a log file"),
    }
}

#[test]
fn log_config_lowers_ascii_only() {
    match LogConfig::classify("Ünïcode/Päth", PathKind::Missing) {
        LogConfig::File(p) => assert_eq!(p, "Ünïcode/päth"),
        _ => panic!("a path that names nothing yet must become a log file"),
    }
}

#[test]
fn log_config_text_quotes_paths() {
    assert_eq!(LogConfig::File("x.log".to_string()).as_text(), "\"x.log\"");
    assert_eq!(LogConfig::Directory("/tmp".to_string()).as_text(), "\"/tmp\"");
    assert_eq!(LogConfig::Off.as_text(), "none");
    assert_eq!(LogConfig::StdOut.as_text(), "stdout");
    assert_eq!(LogConfig::StdErr.as_text(), "stderr");
    assert_eq!(LogConfig::Default.as_text(), "");
}
