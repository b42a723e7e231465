use automatex_notifier::config::{get_env, get_env_duration, parse_u64, Config};

fn env(pairs: &[(&str, &str)]) -> Vec<(String, String)> {
    pairs.iter().map(|(k, v)| (k.to_string(), v.to_string())).collect()
}

#[test]
fn get_env_gives_the_value_or_the_default() {
    let vars = env(&[("A", "1"), ("B", ""), ("A", "2")]);
    assert_eq!(get_env(&vars, "A", "x"), "1");
    assert_eq!(get_env(&vars, "B", "x"), "");
    assert_eq!(get_env(&vars, "C", "x"), "x");
    assert_eq!(get_env(&Vec::new(), "A", ""), "");
}

#[test]
fn get_env_duration_reads_whole_seconds() {
    let vars = env(&[
        ("OK", "120"),
        ("ZERO", "0"),
        ("PLUS", "+7"),
        ("BIG", "18446744073709551615"),
        ("WORD", "soon"),
        ("NEG", "-5"),
        ("EMPTY", ""),
        ("SPACE", " 5"),
        ("FRACTION", "1.5"),
        ("OVER", "18446744073709551616"),
    ]);
    assert_eq!(get_env_duration(&vars, "OK", 300), 120);
    assert_eq!(get_env_duration(&vars, "ZERO", 300), 0);
    assert_eq!(get_env_duration(&vars, "PLUS", 300), 7);
    assert_eq!(get_env_duration(&vars, "BIG", 300), u64::MAX);
    assert_eq!(get_env_duration(&vars, "WORD", 300), 300);
    assert_eq!(get_env_duration(&vars, "NEG", 300), 300);
    assert_eq!(get_env_duration(&vars, "EMPTY", 300), 300);
    assert_eq!(get_env_duration(&vars, "SPACE", 300), 300);
    assert_eq!(get_env_duration(&vars, "FRACTION", 300), 300);
    assert_eq!(get_env_duration(&vars, "OVER", 300), 300);
    assert_eq!(get_env_duration(&vars, "MISSING", 900), 900);
}

#[test]
fn config_needs_both_credentials() {
    assert!(Config::load(&Vec::new()).is_none());
    assert!(Config::load(&env(&[("TELEGRAM_API_KEY", "k")])).is_none());
    assert!(Config::load(&env(&[("TELEGRAM_CHAT_ID", "c")])).is_none());
    assert!(Config::load(&env(&[("TELEGRAM_API_KEY", ""), ("TELEGRAM_CHAT_ID", "c")])).is_none());
    assert!(Config::load(&env(&[("TELEGRAM_API_KEY", "k"), ("TELEGRAM_CHAT_ID", "")])).is_none());
    assert!(Config::load(&env(&[("TELEGRAM_API_KEY", "k"), ("TELEGRAM_CHAT_ID", "c")])).is_some());
}

#[test]
fn config_defaults() {
    let config = Config::load(&env(&[("TELEGRAM_API_KEY", "k"), ("TELEGRAM_CHAT_ID", "c")]))
        .expect("both credentials are set");
    assert_eq!(config.earthquake.check_interval, 300);
    assert_eq!(config.rocket_launch.check_interval, 900);
    assert_eq!(config.space_weather.check_interval, 1800);
    assert_eq!(config.vulnerability.check_interval, 3600);
    for service in [
        &config.earthquake,
        &config.rocket_launch,
        &config.space_weather,
        &config.vulnerability,
    ] {
        assert!(service.enabled);
        assert_eq!(service.telegram_api_key, "k");
        assert_eq!(service.telegram_chat_id, "c");
        assert_eq!(service.buymeacoffee_url, "");
        assert_eq!(service.disclaimer, "");
    }
}

#[test]
fn config_reads_each_source_from_its_own_variables() {
    let config = Config::load(&env(&[
        ("TELEGRAM_API_KEY", "k"),
        ("TELEGRAM_CHAT_ID", "c"),
        ("BUYMEACOFFEE_URL", "https://coffee"),
        ("EARTHQUAKE_INTERVAL_SECS", "60"),
        ("ROCKETLAUNCH_INTERVAL_SECS", "not a number"),
        ("SPACEWEATHER_INTERVAL_SECS", "7"),
        ("VULNERABILITY_INTERVAL_SECS", "8"),
        ("EARTHQUAKE_DISCLAIMER", "quake"),
        ("ROCKETLAUNCH_DISCLAIMER", "rocket"),
        ("SPACEWEATHER_DISCLAIMER", "sun"),
        ("VULNERABILITY_DISCLAIMER", "vuln"),
    ]))
    .expect("both credentials are set");
    assert_eq!(config.earthquake.check_interval, 60);
    assert_eq!(config.rocket_launch.check_interval, 900);
    assert_eq!(config.space_weather.check_interval, 7);
    assert_eq!(config.vulnerability.check_interval, 8);
    assert_eq!(config.earthquake.disclaimer, "quake");
    assert_eq!(config.rocket_launch.disclaimer, "rocket");
    assert_eq!(config.space_weather.disclaimer, "sun");
    assert_eq!(config.vulnerability.disclaimer, "vuln");
    assert_eq!(config.earthquake.buymeacoffee_url, "https://coffee");
    assert_eq!(config.vulnerability.buymeacoffee_url, "https://coffee");
    let copy = config.clone();
    assert_eq!(copy.space_weather.disclaimer, "sun");
    assert_eq!(copy.rocket_launch.telegram_chat_id, "c");
}

#[test]
fn parse_u64_takes_an_optional_plus_and_digits() {
    assert_eq!(parse_u64("0"), Some(0));
    assert_eq!(parse_u64("007"), Some(7));
    assert_eq!(parse_u64("+15"), Some(15));
    assert_eq!(parse_u64("18446744073709551615"), Some(u64::MAX));
    assert_eq!(parse_u64("+18446744073709551615"), Some(u64::MAX));
    assert_eq!(parse_u64("00018446744073709551615"), Some(u64::MAX));
    for text in [
        "", "+", "-", "++1", "+-1", "-1", "1+", "1 ", " 1", "1_000", "0x10", "1e3", "1.0",
        "18446744073709551616", "99999999999999999999", "\u{0661}",
    ] {
        assert_eq!(parse_u64(text), None, "{:?}", text);
        assert_eq!(parse_u64(text), text.parse::<u64>().ok(), "{:?}", text);
    }
    for text in ["0", "+0", "42", "+42", "18446744073709551615", "000"] {
        assert_eq!(parse_u64(text), text.parse::<u64>().ok(), "{:?}", text);
    }
}
