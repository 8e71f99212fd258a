use blrs::config::{AppConfig, EnvVars, env_url, migration_url, replace_first_exec, valkey_url};

fn env(pairs: &[(&str, &str)]) -> EnvVars {
    EnvVars { vars: pairs.iter().map(|(k, v)| (k.to_string(), v.to_string())).collect() }
}

fn full() -> Vec<(&'static str, &'static str)> {
    vec![
        ("BLOB_READ_WRITE_TOKEN", "vercel_blob_rw_STORE1_secret"),
        ("mail_port", " 465 "),
        ("CORS_ORIGINS", " https://a.com/ ,,https://b.com//, "),
        ("JWT_SECRET", "j"),
        ("CRON_SECRET", "c"),
        ("mail_host", "smtp.x"),
        ("mail_username", "u"),
        ("mail_password", "p"),
        ("mail_from", "f@x.y"),
        ("algolia_app_id", "A"),
        ("algolia_search_key", "S"),
        ("algolia_write_key", "W"),
        ("site_name", "  "),
        ("site_icon", " i "),
    ]
}

#[test]
fn complete_environment_configures_everything() {
    let cfg = AppConfig::from_env(&env(&full())).unwrap();
    assert_eq!(cfg.blob_store_id, "STORE1");
    assert_eq!(cfg.mail.port, 465);
    assert_eq!(cfg.cors_origins, vec!["https://a.com", "https://b.com"]);
    assert_eq!(cfg.site.name, None);
    assert_eq!(cfg.site.icon.as_deref(), Some("i"));
    assert_eq!(cfg.algolia.write_key, "W");
}

#[test]
fn first_missing_variable_is_reported() {
    let mut vars = full();
    vars.retain(|(k, _)| *k != "mail_from" && *k != "algolia_app_id");
    assert_eq!(AppConfig::from_env(&env(&vars)).err().unwrap(), "缺少必需的环境变量: mail_from");
    let mut vars = full();
    vars.retain(|(k, _)| *k != "BLOB_READ_WRITE_TOKEN");
    assert_eq!(
        AppConfig::from_env(&env(&vars)).err().unwrap(),
        "缺少必需的环境变量: BLOB_READ_WRITE_TOKEN"
    );
}

#[test]
fn bad_port_and_token_are_reported() {
    let mut vars = full();
    vars.retain(|(k, _)| *k != "mail_port");
    vars.push(("mail_port", "70000"));
    assert_eq!(
        AppConfig::from_env(&env(&vars)).err().unwrap(),
        "mail_port 不是合法端口: number too large to fit in target type"
    );
    let mut vars = full();
    vars.retain(|(k, _)| *k != "mail_port");
    vars.push(("mail_port", "2x"));
    assert_eq!(
        AppConfig::from_env(&env(&vars)).err().unwrap(),
        "mail_port 不是合法端口: invalid digit found in string"
    );
    let mut vars = full();
    vars.retain(|(k, _)| *k != "BLOB_READ_WRITE_TOKEN");
    vars.push(("BLOB_READ_WRITE_TOKEN", "vercel_blob_rw__x"));
    assert_eq!(
        AppConfig::from_env(&env(&vars)).err().unwrap(),
        "无法从 BLOB_READ_WRITE_TOKEN 解析 storeId, 请显式设置 BLOB_STORE_ID"
    );
    vars.push(("BLOB_STORE_ID", "given"));
    assert_eq!(AppConfig::from_env(&env(&vars)).unwrap().blob_store_id, "given");
}

#[test]
fn connection_strings_pick_the_right_variable() {
    let e = env(&[("POSTGRES_URL", "pooled"), ("POSTGRES_URL_NON_POOLING", "direct")]);
    assert_eq!(migration_url(&e).unwrap(), "direct");
    let e = env(&[("POSTGRES_URL_NON_POOLING", ""), ("POSTGRES_PRISMA_URL", "prisma")]);
    assert_eq!(migration_url(&e).unwrap(), "prisma");
    assert_eq!(
        migration_url(&env(&[])).err().unwrap(),
        "缺少环境变量: POSTGRES_URL / POSTGRES_PRISMA_URL"
    );
    assert_eq!(env_url(&env(&[]), &["A"]).err().unwrap(), "缺少环境变量: A");
}

#[test]
fn valkey_scheme_is_rewritten() {
    let e = env(&[("aiven_valkey_service_uri", "valkeys://u:p@h:1")]);
    assert_eq!(valkey_url(&e).unwrap(), "rediss://u:p@h:1");
    let e = env(&[("AIVEN_VALKEY_SERVICE_URI", "valkey://h")]);
    assert_eq!(valkey_url(&e).unwrap(), "redis://h");
    let e = env(&[("aiven_valkey_service_uri", "redis://h")]);
    assert_eq!(valkey_url(&e).unwrap(), "redis://h");
}

#[test]
fn replace_first_matches_replacen() {
    for (s, from, to) in [("valkey://h", "valkey://", "redis://"), ("a-b-b", "b", "c"), ("abc", "", "x"), ("", "", "x"), ("abc", "zz", "y")] {
        assert_eq!(replace_first_exec(s, from, to), s.replacen(from, to, 1));
    }
}
