use houdini::cli::{Cli, Cmd};
use houdini::config::{
    parse_config, write_config, Config, DockerConfig, LevelFilter, LogConfig, ReportConfig,
};
use houdini::logging::{level_of, resolve_format, LevelFilterLayer, LoggingFormat, TraceLevel};

#[test]
fn test_parse_config() {
    let config = r#"
            BR2_HAVE_DOT_CONFIG=y
            BR2_EXTERNAL_HOUDINI_PATH="/foo/var/houdini"
            BR2_HOST_GCC_AT_LEAST_4_9=y
            BR2_HOST_GCC_AT_LEAST_5=y
            BR2_HOST_GCC_AT_LEAST_6=y
            BR2_HOST_GCC_AT_LEAST_7=y
            BR2_HOST_GCC_AT_LEAST_8=y
            BR2_HOST_GCC_AT_LEAST_9=y
            # BR2_OPTIMIZE_0 is not set
            # BR2_OPTIMIZE_1 is not set
            # BR2_OPTIMIZE_2 is not set
            # BR2_OPTIMIZE_3 is not set
            # BR2_OPTIMIZE_G is not set
            # foo = qux
            foooooooooooooooooooooooooobaaaaaaaaaaaaaaaaarquuuuuuuuuuuuuuuux
            "#;
    let config_map = parse_config(config);

    let expected_config_map: Vec<(String, String)> = [
        ("BR2_HAVE_DOT_CONFIG", "y"),
        ("BR2_EXTERNAL_HOUDINI_PATH", "\"/foo/var/houdini\""),
        ("BR2_HOST_GCC_AT_LEAST_4_9", "y"),
        ("BR2_HOST_GCC_AT_LEAST_5", "y"),
        ("BR2_HOST_GCC_AT_LEAST_6", "y"),
        ("BR2_HOST_GCC_AT_LEAST_7", "y"),
        ("BR2_HOST_GCC_AT_LEAST_8", "y"),
        ("BR2_HOST_GCC_AT_LEAST_9", "y"),
    ]
    .iter()
    .map(|(k, v)| (k.to_string(), v.to_string()))
    .collect();

    assert_eq!(config_map, expected_config_map, "parsed config map should be same as expected");

    let expected_output = r#"BR2_HAVE_DOT_CONFIG=y
BR2_EXTERNAL_HOUDINI_PATH="/foo/var/houdini"
BR2_HOST_GCC_AT_LEAST_4_9=y
BR2_HOST_GCC_AT_LEAST_5=y
BR2_HOST_GCC_AT_LEAST_6=y
BR2_HOST_GCC_AT_LEAST_7=y
BR2_HOST_GCC_AT_LEAST_8=y
BR2_HOST_GCC_AT_LEAST_9=y
"#;

    assert_eq!(write_config(&config_map), expected_output);
}

#[test]
fn config_later_lines_override() {
    let parsed = parse_config("A=1\r\nB = 2\nA= 3 \n=x\n  #C=4\nD=e=f");
    let expected: Vec<(String, String)> = vec![
        ("A".to_string(), "3".to_string()),
        ("B".to_string(), "2".to_string()),
        ("".to_string(), "x".to_string()),
        ("D".to_string(), "e=f".to_string()),
    ];
    assert_eq!(parsed, expected);
    assert!(parse_config("").is_empty());
    assert_eq!(write_config(&vec![]), "");
}

fn cli(verbose: i8) -> Cli {
    Cli { subcmd: Cmd::Run { tricks: vec!["t.yaml".to_string()] }, verbose, format: LoggingFormat::Auto }
}

#[test]
fn verbosity_levels() {
    assert_eq!(LevelFilterLayer::from_args(&cli(-3)).level, TraceLevel::Off);
    assert_eq!(LevelFilterLayer::from_args(&cli(0)).level, TraceLevel::Warn);
    assert_eq!(LevelFilterLayer::from_args(&cli(1)).level, TraceLevel::Info);
    assert_eq!(LevelFilterLayer::from_args(&cli(2)).level, TraceLevel::Debug);
    assert_eq!(LevelFilterLayer::from_args(&cli(3)).level, TraceLevel::Trace);
    assert_eq!(LevelFilterLayer::from_args(&cli(127)).level, TraceLevel::Trace);
}

#[test]
fn configured_level() {
    let cfg = Config {
        docker: DockerConfig {
            client: "docker".to_string(),
            daemon: "dockerd".to_string(),
            runtime: "runc".to_string(),
            socket: "/var/run/docker.sock".to_string(),
        },
        log: LogConfig { file: None, level: LevelFilter::default() },
        reports: ReportConfig { dir: "/tmp".to_string() },
    };
    assert_eq!(LevelFilterLayer::from_cfg(&cfg).level, TraceLevel::Info);
    assert_eq!(level_of(LevelFilter::Error), TraceLevel::Error);
    assert_eq!(level_of(LevelFilter::Trace), TraceLevel::Trace);
}

#[test]
fn logging_formats() {
    assert_eq!(resolve_format(LoggingFormat::Auto, true), LoggingFormat::Pretty);
    assert_eq!(resolve_format(LoggingFormat::Auto, false), LoggingFormat::Json);
    assert_eq!(resolve_format(LoggingFormat::Compact, false), LoggingFormat::Compact);
}
