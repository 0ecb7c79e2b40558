use json_logger::{is_enabled, EncodedRecord, JsonLogger, Level, Record, SerializableRecord, Src};
use rustc_serialize::json::Json;
use serde_json::Value;
use std::collections::BTreeMap;

fn here(line: u32) -> Src {
    Src { file: "tests/tests.rs".to_string(), line, module: "tests".to_string() }
}

fn logger(name: &str) -> JsonLogger {
    JsonLogger::new(name, "testhost".to_string(), 4242)
}

fn lines(out: &str) -> Vec<Value> {
    out.split_terminator('\n').map(|l| serde_json::from_str(l).unwrap()).collect()
}

fn record(level: Level, msg: &str, data: Option<Json>) -> Record {
    Record { level, msg: msg.to_string(), data, src: here(1) }
}

fn payload() -> Json {
    let mut o = BTreeMap::new();
    o.insert("a".to_string(), Json::String("1".to_string()));
    o.insert("b".to_string(), Json::I64(2));
    Json::Object(o)
}

#[test]
fn log() {
    let mut log = logger("json_logger");
    log.log(record(Level::Info, "baz", None));
    let actual: Value = serde_json::from_str(log.output()).unwrap();

    assert!(actual.get("data").is_none());
    assert!(!actual["hostname"].as_str().unwrap().is_empty());
    assert_eq!(actual["level"].as_i64(), Some(30));
    assert_eq!(actual["msg"].as_str(), Some("baz"));
    assert!(!actual["time"].as_str().unwrap().is_empty());
}

#[test]
fn log_with_data() {
    let mut log = logger("json_logger");
    log.log(record(Level::Warn, "baz", Some(payload())));
    let value: Value = serde_json::from_str(log.output()).unwrap();
    let actual = value.pointer("/data").unwrap().as_object().unwrap();

    assert_eq!(actual["a"].as_str(), Some("1"));
    assert_eq!(actual["b"].as_i64(), Some(2));
}

#[test]
fn log_level_macros() {
    let mut log = logger("json_logger");
    log.set_minimum_level(Level::Trace);
    log.fatal("test", here(1), None);
    log.error("test", here(2), None);
    log.warn("test", here(3), None);
    log.info("test", here(4), None);
    log.debug("test", here(5), None);
    log.trace("test", here(6), None);
    log.log(record(Level::Info, "test", None));
    let logs = lines(log.output());

    assert_eq!(logs[0]["level"].as_i64(), Some(60));
    assert_eq!(logs[1]["level"].as_i64(), Some(50));
    assert_eq!(logs[2]["level"].as_i64(), Some(40));
    assert_eq!(logs[3]["level"].as_i64(), Some(30));
    assert_eq!(logs[4]["level"].as_i64(), Some(20));
    assert_eq!(logs[5]["level"].as_i64(), Some(10));
    assert_eq!(logs[6]["level"].as_i64(), Some(30));
}

#[test]
fn set_minimum_level() {
    let mut log = logger("json_logger");
    log.set_minimum_level(Level::Info);
    log.info("visible", here(1), None);
    log.trace("not visible", here(2), None);
    log.set_minimum_level(Level::Error);
    log.info("not visible", here(3), None);
    log.fatal("visible", here(4), None);
    log.set_minimum_level(Level::Disabled);
    log.fatal("not visible", here(5), None);
    let logs = lines(log.output());

    assert_eq!(logs.len(), 2);
    assert_eq!(logs[0]["msg"].as_str(), Some("visible"));
    assert_eq!(logs[1]["msg"].as_str(), Some("visible"));
}

#[test]
fn threshold_info_passes_info_and_above() {
    let levels = [Level::Trace, Level::Debug, Level::Info, Level::Warn, Level::Error, Level::Fatal];
    let mut log = logger("svc");
    for l in levels.iter() {
        log.log(record(*l, "m", None));
    }
    let got: Vec<i64> = lines(log.output()).iter().map(|v| v["level"].as_i64().unwrap()).collect();
    assert_eq!(got, vec![30, 40, 50, 60]);
    let passing: Vec<bool> = levels.iter().map(|l| is_enabled(Level::Info, *l)).collect();
    assert_eq!(passing, vec![false, false, true, true, true, true]);
}

#[test]
fn disabled_threshold_suppresses_every_level() {
    let mut log = logger("svc");
    log.set_minimum_level(Level::Disabled);
    log.fatal("f", here(1), Some(payload()));
    log.error("e", here(2), None);
    log.warn("w", here(3), None);
    log.info("i", here(4), None);
    log.debug("d", here(5), None);
    log.trace("t", here(6), None);
    assert_eq!(log.output(), "");
    assert!(!is_enabled(Level::Disabled, Level::Fatal));
}

#[test]
fn no_payload_means_no_data_key() {
    let mut log = logger("svc");
    log.info("plain", here(9), None);
    let out = log.output().to_string();
    assert!(!out.contains("\"data\""));
    assert!(!out.contains("null"));
    let v: Value = serde_json::from_str(&out).unwrap();
    assert!(v.as_object().unwrap().get("data").is_none());
}

#[test]
fn every_line_is_one_object_with_schema_fields() {
    let mut log = logger("svc");
    log.set_minimum_level(Level::Trace);
    log.error("first \"quoted\"\nwith break", here(1), Some(payload()));
    log.debug("", here(2), None);
    let out = log.output().to_string();
    assert!(out.ends_with("}\n"));
    assert!(!out.ends_with("\n\n"));
    assert_eq!(out.matches('\n').count(), 2);
    let logs = lines(&out);
    assert_eq!(logs[0]["v"].as_i64(), Some(0));
    assert_eq!(logs[0]["level"].as_i64(), Some(50));
    assert_eq!(logs[0]["msg"].as_str(), Some("first \"quoted\"\nwith break"));
    let time = logs[0]["time"].as_str().unwrap();
    assert!(time.len() >= 17);
    let tb = time.as_bytes();
    let n = tb.len();
    assert_eq!(tb[n - 1], b'Z');
    assert_eq!(tb[n - 10], b'T');
    assert_eq!(tb[n - 16], b'-');
    assert_eq!(tb[n - 7], b':');
    assert_eq!(logs[1]["msg"].as_str(), Some(""));
    assert_eq!(logs[1]["src"]["line"].as_i64(), Some(2));
    assert_eq!(logs[1]["src"]["file"].as_str(), Some("tests/tests.rs"));
    assert_eq!(logs[1]["pid"].as_i64(), Some(4242));
}

#[test]
fn loggers_keep_their_own_names() {
    let mut a = JsonLogger::new("alpha", "host-1".to_string(), 7);
    let mut b = JsonLogger::new("beta", "host-1".to_string(), 7);
    a.info("m", here(1), None);
    b.info("m", here(1), None);
    let va: Value = serde_json::from_str(a.output()).unwrap();
    let vb: Value = serde_json::from_str(b.output()).unwrap();
    assert_eq!(va["name"].as_str(), Some("alpha"));
    assert_eq!(vb["name"].as_str(), Some("beta"));
    assert_eq!(va["hostname"], vb["hostname"]);
    assert_eq!(va["pid"], vb["pid"]);
}

#[test]
fn svc_scenario_two_lines_in_order() {
    let mut log = JsonLogger::new("svc", "testhost".to_string(), 1);
    assert_eq!(log.minimum_level(), Level::Info);
    log.trace("hidden", here(1), None);
    assert_eq!(log.output(), "");
    log.info("visible", here(2), None);
    assert_eq!(lines(log.output()).len(), 1);
    log.fatal("visible2", here(3), None);
    let out = log.take_output();
    assert_eq!(log.output(), "");
    let logs = lines(&out);
    assert_eq!(logs.len(), 2);
    assert!(out.ends_with('\n'));
    assert_eq!(logs[0]["msg"].as_str(), Some("visible"));
    assert_eq!(logs[1]["msg"].as_str(), Some("visible2"));
    assert_eq!(logs[1]["level"].as_i64(), Some(60));
}

#[test]
fn render_writes_exact_line() {
    let e = EncodedRecord {
        level: 40,
        name: "\"n\"".to_string(),
        hostname: "\"h\"".to_string(),
        pid: 1234,
        time: "\"2020-01-02T03:04:05Z\"".to_string(),
        msg: "\"hi\"".to_string(),
        file: "\"f.rs\"".to_string(),
        line: 7,
        module: "\"m\"".to_string(),
        data: None,
    };
    let expected = String::new()
        + "{\"v\":0,\"level\":40,\"name\":\"n\",\"hostname\":\"h\",\"pid\":1234,"
        + "\"time\":\"2020-01-02T03:04:05Z\",\"msg\":\"hi\",\"src\":{\"file\":\"f.rs\",\"line\":7,"
        + "\"module_"
        + "path\":\"m\"}}\n";
    assert_eq!(e.render(), expected);
    let with_data = EncodedRecord { data: Some("{\"a\":1}".to_string()), ..e };
    assert!(with_data.render().ends_with("\"m\"},\"data\":{\"a\":1}}\n"));
}

#[test]
fn to_line_escapes_strings() {
    let r = SerializableRecord {
        level: 10,
        name: "a\"b".to_string(),
        hostname: "".to_string(),
        pid: 0,
        time: "t".to_string(),
        msg: "x\ny\\\u{1}".to_string(),
        src: Src { file: "".to_string(), line: 0, module: "".to_string() },
        data: None,
    };
    let line = r.to_line();
    assert!(line.starts_with("{\"v\":0,\"level\":10,\"name\":\"a\\\"b\",\"hostname\":\"\",\"pid\":0,"));
    assert!(line.contains("\"msg\":\"x\\ny\\\\\\u0001\""));
    assert_eq!(r.encode().msg, "\"x\\ny\\\\\\u0001\"");
    assert_eq!(line.matches('\n').count(), 1);
}

#[test]
fn level_weights() {
    let ws: Vec<u8> = [
        Level::Trace,
        Level::Debug,
        Level::Info,
        Level::Warn,
        Level::Error,
        Level::Fatal,
        Level::Disabled,
    ]
    .iter()
    .map(|l| l.value())
    .collect();
    assert_eq!(ws, vec![10, 20, 30, 40, 50, 60, 255]);
    assert!(is_enabled(Level::Trace, Level::Trace));
    assert!(!is_enabled(Level::Error, Level::Warn));
}
