use vorleser_server::config::{default_data_address, default_data_directory, default_log_level, default_log_location, default_scan_interval, log_level_filter, LevelFilter};
use vorleser_server::helpers::db::BusyWaitConnectionCustomizer;
use vorleser_server::helpers::util::{get_secret, Environment};
use vorleser_server::static_files::{get_appcss, get_elmjs, get_index, get_materialcss};
use vorleser_server::text::i32_text;

#[test]
fn defaults() {
    assert_eq!(default_log_level(), "info");
    assert_eq!(default_scan_interval(), 600);
    assert_eq!(default_data_address(), "localhost");
    assert_eq!(default_data_directory(), "data");
    assert_eq!(default_log_location().as_deref(), Some("data/vorleser.log"));
}

#[test]
fn log_levels() {
    assert_eq!(log_level_filter("ERROR"), LevelFilter::Error);
    assert_eq!(log_level_filter("Warn"), LevelFilter::Warn);
    assert_eq!(log_level_filter("debug"), LevelFilter::Debug);
    assert_eq!(log_level_filter("tRaCe"), LevelFilter::Trace);
    assert_eq!(log_level_filter("off"), LevelFilter::Off);
    assert_eq!(log_level_filter("verbose"), LevelFilter::Info);
    assert_eq!(log_level_filter(""), LevelFilter::Info);
}

#[test]
fn secrets() {
    assert_eq!(get_secret(Some("s3cr3t"), Environment::Production), "s3cr3t");
    assert_eq!(get_secret(None, Environment::Development), "secret");
}

#[test]
fn static_files_have_types() {
    let f = get_index(b"<html/>".to_vec());
    assert_eq!(f.content_type, "text/html; charset=utf-8");
    let answer = f.respond_to();
    assert_eq!(answer.status.code(), 200);
    assert_eq!(answer.content_type, "text/html; charset=utf-8");
    assert_eq!(answer.body, b"<html/>".to_vec());
    assert_eq!(get_elmjs(vec![]).content_type, "text/javascript");
    assert_eq!(get_materialcss(vec![]).content_type, "text/css; charset=utf-8");
    let answer = get_appcss(b"a{}".to_vec()).respond_to();
    assert_eq!((answer.body, answer.content_type), (b"a{}".to_vec(), "text/css; charset=utf-8".to_string()));
}

#[test]
fn pragmas() {
    let s = BusyWaitConnectionCustomizer.statements();
    assert_eq!(s, vec!["PRAGMA busy_timeout = 1000;".to_string(), "PRAGMA journal_mode = WAL;".to_string()]);
}

#[test]
fn decimal_texts() {
    assert_eq!(i32_text(0), "0");
    assert_eq!(i32_text(-42), "-42");
    assert_eq!(i32_text(i32::MIN), "-2147483648");
    assert_eq!(i32_text(1234567), "1234567");
}
