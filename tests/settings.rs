use gha_demo::settings::{app_mode, config_sources, ConnectOptions, SslMode};
use gha_demo::{ApplicationSettings, DbSettings};

fn app(host: &str, port: u16) -> ApplicationSettings {
    ApplicationSettings {
        host: host.to_string(),
        port,
    }
}

fn db(ssl: bool) -> DbSettings {
    DbSettings {
        username: "app".to_string(),
        host: "db.internal".to_string(),
        port: 5432,
        database: "cats".to_string(),
        ssl,
    }
}

#[test]
fn connection_string_joins_host_and_port() {
    assert_eq!(app("127.0.0.1", 8000).connection_string(), "127.0.0.1:8000");
}

#[test]
fn connection_string_with_any_free_port() {
    assert_eq!(app("localhost", 0).connection_string(), "localhost:0");
}

#[test]
fn connection_string_with_single_digit_port() {
    assert_eq!(app("0.0.0.0", 7).connection_string(), "0.0.0.0:7");
}

#[test]
fn connection_string_with_largest_port() {
    assert_eq!(app("::1", 65535).connection_string(), "::1:65535");
}

#[test]
fn connection_string_with_round_port() {
    assert_eq!(app("h", 10000).connection_string(), "h:10000");
}

#[test]
fn ssl_switch_selects_require() {
    assert_eq!(db(true).ssl_mode(), SslMode::Require);
}

#[test]
fn ssl_switch_off_selects_disable() {
    assert_eq!(db(false).ssl_mode(), SslMode::Disable);
}

#[test]
fn connect_options_copy_the_settings() {
    let o: ConnectOptions = db(true).get_db_settings();
    assert_eq!(o.host, "db.internal");
    assert_eq!(o.port, 5432);
    assert_eq!(o.username, "app");
    assert_eq!(o.database, "cats");
    assert_eq!(o.ssl_mode, SslMode::Require);
    assert_eq!(db(false).get_db_settings().ssl_mode, SslMode::Disable);
}

#[test]
fn mode_defaults_to_local() {
    assert_eq!(app_mode(None), "local");
}

#[test]
fn mode_given_is_kept() {
    assert_eq!(app_mode(Some("production".to_string())), "production");
}

#[test]
fn sources_are_base_then_mode() {
    assert_eq!(
        config_sources("local"),
        vec![
            "configuration/base.yaml".to_string(),
            "configuration/local.yaml".to_string()
        ]
    );
    assert_eq!(config_sources("production")[1], "configuration/production.yaml");
}
