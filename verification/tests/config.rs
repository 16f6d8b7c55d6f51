use agent::config::Config;

#[test]
fn defaults_when_nothing_is_set() {
    let c = Config::from_values(None, None, None);
    assert_eq!(c.backend_url, "http://localhost:8000");
    assert_eq!(c.channel_buffer_size, 100);
    assert_eq!(c.log_level, "info");
}

#[test]
fn values_that_are_set_are_taken() {
    let c = Config::from_values(
        Some("http://backend:9000".to_string()),
        Some("512".to_string()),
        Some("debug".to_string()),
    );
    assert_eq!(c.backend_url, "http://backend:9000");
    assert_eq!(c.channel_buffer_size, 512);
    assert_eq!(c.log_level, "debug");
}

#[test]
fn bad_buffer_size_falls_back_to_default() {
    for raw in ["", "abc", "-5", "1.5", "99999999999999999999999"] {
        let c = Config::from_values(None, Some(raw.to_string()), None);
        assert_eq!(c.channel_buffer_size, 100, "{raw:?}");
    }
}

#[test]
fn log_lines() {
    let c = Config::from_values(Some("http://x".to_string()), Some("64".to_string()), None);
    assert_eq!(
        c.log(),
        vec![
            "Configuration:".to_string(),
            "  Backend URL: http://x".to_string(),
            "  Channel Buffer Size: 64".to_string(),
            "  Log Level: info".to_string(),
        ]
    );
}

#[test]
fn logged_buffer_size_reads_back() {
    let c = Config::from_values(None, Some("4096".to_string()), None);
    let line = c.log()[2].clone();
    let logged = line.trim_start_matches("  Channel Buffer Size: ").to_string();
    let again = Config::from_values(None, Some(logged), None);
    assert_eq!(again.channel_buffer_size, 4096);
}
