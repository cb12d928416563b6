use rbackup::commands::choose_server;
use rbackup::config::{Config, LogConfig, S3Server, SSHServer, Server};
use rbackup::remote_path::{file_name, parent_path, remote_key, trim_trailing_slashes};
use rbackup::transfer::remote_prefix;

fn s3(name: &str, path: &str) -> Server {
    Server::S3(S3Server {
        name: name.to_string(),
        access_key: "ak".to_string(),
        secret_key: "sk".to_string(),
        bucket: "bucket".to_string(),
        region: "us-east-1".to_string(),
        endpoint: None,
        default_path: path.to_string(),
    })
}

fn ssh(name: &str, path: &str) -> Server {
    Server::SSH(SSHServer {
        name: name.to_string(),
        username: "u".to_string(),
        password: "p".to_string(),
        server: "host".to_string(),
        port: 22,
        default_path: path.to_string(),
    })
}

fn config(default: &str) -> Config {
    Config {
        default: default.to_string(),
        log: LogConfig { level: "info".to_string() },
        servers: vec![s3("a", "/pa"), ssh("b", "/pb"), ssh("a", "/second")],
    }
}

#[test]
fn key_for_single_file_source() {
    assert_eq!(remote_key("backup", "/data/report.csv", false), "backup/report.csv");
}

#[test]
fn key_for_directory_source() {
    assert_eq!(remote_key("backup", "/data/report.csv", true), "backup/data/report.csv");
}

#[test]
fn key_drops_trailing_slashes_of_prefix() {
    assert_eq!(remote_key("backup//", "/data/report.csv", false), "backup/report.csv");
    assert_eq!(trim_trailing_slashes("a/b///"), "a/b");
    assert_eq!(trim_trailing_slashes("///"), "");
}

#[test]
fn key_without_parent_directory_name() {
    assert_eq!(remote_key("backup", "report.csv", true), "backup/report.csv");
}

#[test]
fn path_components() {
    assert_eq!(file_name("/data/report.csv"), "report.csv");
    assert_eq!(file_name("report.csv"), "report.csv");
    assert_eq!(parent_path("/data/report.csv"), "/data");
    assert_eq!(parent_path("report.csv"), "");
}

#[test]
fn get_finds_first_by_name() {
    let c = config("b");
    let r = c.get(Some(&"a".to_string())).unwrap();
    assert_eq!(r.get_default_path(), "/pa");
    assert_eq!(r.get_name(), "a");
    assert!(c.get(Some(&"zzz".to_string())).is_none());
    assert!(c.get(None).is_none());
}

#[test]
fn get_default_uses_default_name() {
    assert_eq!(config("b").get_default().unwrap().get_default_path(), "/pb");
    assert!(config("missing").get_default().is_none());
}

#[test]
fn prefix_given_or_default() {
    let s = ssh("b", "/pb");
    assert_eq!(remote_prefix(&s, &Some("x/y".to_string())), "x/y");
    assert_eq!(remote_prefix(&s, &None), "/pb");
}

#[test]
fn named_destination_or_default() {
    let c = config("b");
    assert_eq!(choose_server(&c, Some(&"a".to_string())).unwrap().get_default_path(), "/pa");
    assert_eq!(choose_server(&c, Some(&"zzz".to_string())).unwrap().get_default_path(), "/pb");
    assert_eq!(choose_server(&c, None).unwrap().get_default_path(), "/pb");
    assert!(choose_server(&config("none"), None).is_none());
}
