use webdir::cli::{parse_args, usage, PortConfig};

fn args(values: &[&str]) -> Vec<String> {
    values.iter().map(|value| value.to_string()).collect()
}

#[test]
fn parses_default_and_custom_ports() {
    assert_eq!(
        parse_args(Vec::<String>::new()).unwrap(),
        Some(PortConfig {
            port: 8080,
            fallback_to_random: true,
            pid_file: None,
            raw: false,
            cache_dir: None,
            serve_dir: ".".to_string(),
            auth_token: None,
        })
    );
    assert_eq!(
        parse_args(args(&["-p", "3000"])).unwrap(),
        Some(PortConfig {
            port: 3000,
            fallback_to_random: false,
            pid_file: None,
            raw: false,
            cache_dir: None,
            serve_dir: ".".to_string(),
            auth_token: None,
        })
    );
    assert_eq!(
        parse_args(args(&["-pid", "/tmp/webdir.pid", "-p", "9000"])).unwrap(),
        Some(PortConfig {
            port: 9000,
            fallback_to_random: false,
            pid_file: Some("/tmp/webdir.pid".to_string()),
            raw: false,
            cache_dir: None,
            serve_dir: ".".to_string(),
            auth_token: None,
        })
    );
    assert_eq!(
        parse_args(args(&["--raw"])).unwrap(),
        Some(PortConfig {
            port: 8080,
            fallback_to_random: true,
            pid_file: None,
            raw: true,
            cache_dir: None,
            serve_dir: ".".to_string(),
            auth_token: None,
        })
    );
    assert!(parse_args(args(&["-pid"])).is_err());
    assert_eq!(
        parse_args(args(&["--auth-token", "secret"]))
            .unwrap()
            .unwrap()
            .auth_token,
        Some("secret".into())
    );
    assert!(parse_args(args(&["--auth-token", ""])).is_err());
}

#[test]
fn parses_cache_and_serving_directories() {
    for (cache_flag, dir_flag) in [("-cache", "-dir"), ("--cache", "--dir")] {
        let config = parse_args(args(&[cache_flag, "image cache", dir_flag, "my photos"]))
            .unwrap()
            .unwrap();
        assert_eq!(config.cache_dir, Some("image cache".to_string()));
        assert_eq!(config.serve_dir, "my photos".to_string());
        assert!(parse_args(args(&[cache_flag])).is_err());
        assert!(parse_args(args(&[dir_flag])).is_err());
    }
}

#[test]
fn rejects_bad_ports_and_unknown_options_with_their_messages() {
    assert_eq!(parse_args(args(&["-p", "0"])), Err("端口必须在 1 到 65535 之间".to_string()));
    assert_eq!(parse_args(args(&["-p", "65536"])), Err("无效端口: 65536".to_string()));
    assert_eq!(parse_args(args(&["-p", "http"])), Err("无效端口: http".to_string()));
    assert_eq!(parse_args(args(&["--port"])), Err("--port 后需要端口号".to_string()));
    assert_eq!(parse_args(args(&["--pid", ""])), Err("PID 文件路径不能为空".to_string()));
    assert_eq!(parse_args(args(&["--verbose"])), Err("未知参数: --verbose".to_string()));
}

#[test]
fn help_stops_reading_options() {
    assert_eq!(parse_args(args(&["-h", "--verbose"])), Ok(None));
    assert_eq!(parse_args(args(&["--raw", "--help"])), Ok(None));
    assert!(usage().starts_with("用法: webdir"));
    assert!(usage().contains("--auth-token TOKEN"));
}

#[test]
fn the_last_value_of_an_option_wins() {
    let config = parse_args(args(&["-p", "3000", "--port", "4000", "-dir", "a", "--dir", "b"]))
        .unwrap()
        .unwrap();
    assert_eq!(config.port, 4000);
    assert_eq!(config.serve_dir, "b");
}
