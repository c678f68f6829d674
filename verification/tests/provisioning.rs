use balena_migrate::balena_cfg_json::{check_outcome, BalenaCfgJson, CfgValue};
use balena_migrate::config::Config;
use balena_migrate::error::MigErrorKind;
use balena_migrate::file_info::FileInfo;

const PROVISIONING_DOC: &str = r###"{
  "applicationId": 308423,
  "apiEndpoint": "https://api.balena-cloud.com",
  "apiKey": "SECRET-REDACTED",
  "deviceType": "intel-nuc",
  "hostname": "old-host",
  "userId": 44444,
  "vpnEndpoint": "vpn.example.com",
  "vpnPort": 443,
  "extra": {"nested": [1, 2, 3], "flag": true}
}"###;

fn doc_file() -> FileInfo {
    FileInfo { path: String::from("/work/config.json"), size: 280 }
}

fn parse_doc() -> BalenaCfgJson {
    BalenaCfgJson::new(doc_file(), PROVISIONING_DOC).unwrap()
}

#[test]
fn typed_getters_read_required_keys() {
    let doc = parse_doc();
    assert_eq!(doc.get_hostname().unwrap(), "old-host");
    assert_eq!(doc.get_app_id().unwrap(), 308423);
    assert_eq!(doc.get_api_key().unwrap(), "SECRET-REDACTED");
    assert_eq!(doc.get_api_endpoint().unwrap(), "https://api.balena-cloud.com");
    assert_eq!(doc.get_vpn_endpoint().unwrap(), "vpn.example.com");
    assert_eq!(doc.get_vpn_port().unwrap(), 443);
    assert_eq!(doc.get_device_type().unwrap(), "intel-nuc");
    assert_eq!(doc.get_size(), 280);
    assert_eq!(doc.get_rel_path(), "/work/config.json");
}

#[test]
fn missing_key_and_wrong_shape_are_distinct() {
    let doc = parse_doc();
    let missing = doc.get_str_val("noSuchKey").unwrap_err();
    assert_eq!(missing.kind(), MigErrorKind::NotFound);
    // applicationId holds a number, not a string.
    let wrong = doc.get_str_val("applicationId").unwrap_err();
    assert_eq!(wrong.kind(), MigErrorKind::InvParam);
    // hostname holds a string, not an unsigned integer.
    let wrong_uint = doc.get_uint_val("hostname").unwrap_err();
    assert_eq!(wrong_uint.kind(), MigErrorKind::InvParam);
}

#[test]
fn malformed_document_is_an_error_naming_the_path() {
    let err = BalenaCfgJson::new(doc_file(), "{ not json").unwrap_err();
    assert_eq!(err.kind(), MigErrorKind::Upstream);
    assert!(err.remark().contains("/work/config.json"));
    // A document that is not an object fails the same deserialization.
    let not_an_object = BalenaCfgJson::new(doc_file(), "[1, 2]").unwrap_err();
    assert_eq!(not_an_object.kind(), MigErrorKind::Upstream);
    assert!(not_an_object.remark().contains("/work/config.json"));
}

#[test]
fn round_trip_preserves_untouched_keys() {
    let mut doc = parse_doc();
    assert!(!doc.is_modified());

    let previous = doc.set_host_name("new-host");
    assert_eq!(previous, Some(CfgValue::Str(String::from("old-host"))));
    assert!(doc.is_modified());

    // Writing serialises every key, touched or not; re-parsing the
    // rendered text reproduces every pair except the mutated hostname.
    let rendered = doc.render();
    doc.mark_written();
    assert!(!doc.is_modified());

    let reparsed = BalenaCfgJson::new(doc_file(), &rendered).unwrap();
    assert_eq!(reparsed.get_hostname().unwrap(), "new-host");
    assert_eq!(reparsed.get_app_id().unwrap(), 308423);
    assert_eq!(reparsed.get_api_key().unwrap(), "SECRET-REDACTED");
    assert_eq!(reparsed.get_api_endpoint().unwrap(), "https://api.balena-cloud.com");
    assert_eq!(reparsed.get_vpn_endpoint().unwrap(), "vpn.example.com");
    assert_eq!(reparsed.get_vpn_port().unwrap(), 443);
    assert_eq!(reparsed.get_device_type().unwrap(), "intel-nuc");
    assert_eq!(reparsed.get_uint_val("userId").unwrap(), 44444);
    assert_eq!(reparsed.entries.len(), doc.entries.len());
    for (a, b) in doc.entries.iter().zip(reparsed.entries.iter()) {
        assert_eq!(a, b);
    }
}

#[test]
fn hostname_gained_when_absent() {
    let mut doc = BalenaCfgJson::new(doc_file(), "{\"applicationId\": 7}").unwrap();
    assert_eq!(doc.set_host_name("fresh"), None);
    assert!(doc.is_modified());
    assert_eq!(doc.get_hostname().unwrap(), "fresh");
    assert_eq!(doc.get_app_id().unwrap(), 7);
}

#[test]
fn render_escapes_strings() {
    let mut doc = BalenaCfgJson::new(doc_file(), "{}").unwrap();
    doc.set_host_name("a\"b\\c\nd");
    let rendered = doc.render();
    assert_eq!(rendered, "{\"hostname\":\"a\\\"b\\\\c\\nd\"}");
    let reparsed = BalenaCfgJson::new(doc_file(), &rendered).unwrap();
    assert_eq!(reparsed.get_hostname().unwrap(), "a\"b\\c\nd");
}

#[test]
fn render_escapes_control_characters() {
    let mut doc = BalenaCfgJson::new(doc_file(), "{}").unwrap();
    doc.set_host_name("a\u{1}b\tc");
    let rendered = doc.render();
    assert_eq!(rendered, "{\"hostname\":\"a\\u0001b\\tc\"}");
    let reparsed = BalenaCfgJson::new(doc_file(), &rendered).unwrap();
    assert_eq!(reparsed.get_hostname().unwrap(), "a\u{1}b\tc");
}

#[test]
fn missing_api_endpoint_is_not_found() {
    let doc = BalenaCfgJson::new(doc_file(), "{\"vpnPort\": 443}").unwrap();
    let err = doc.api_probe_target(5).unwrap_err();
    assert_eq!(err.kind(), MigErrorKind::NotFound);
}

#[test]
fn api_probe_target_reads_url_host_and_port() {
    let doc = parse_doc();
    // The endpoint names no port: the well-known provisioning API port
    // stands in.
    let target = doc.api_probe_target(20).unwrap();
    assert_eq!(target.host, "api.balena-cloud.com");
    assert_eq!(target.port, 443);
    assert_eq!(target.timeout, 20);
}

#[test]
fn api_probe_target_honours_explicit_port() {
    let text = "{\"apiEndpoint\": \"https://api.example.com:444/v6\"}";
    let doc = BalenaCfgJson::new(doc_file(), text).unwrap();
    let target = doc.api_probe_target(5).unwrap();
    assert_eq!(target.host, "api.example.com");
    assert_eq!(target.port, 444);
}

#[test]
fn check_plan_lists_vpn_probe() {
    let doc = parse_doc();
    let config = Config::from_string(
        "balena:\n  check_vpn: true\n  check_timeout: 20\n  api:\n    check: false\n",
    )
    .unwrap();
    let plan = doc.check_plan(&config).unwrap();
    assert_eq!(plan.len(), 1);
    assert_eq!(plan[0].host, "vpn.example.com");
    assert_eq!(plan[0].port, 443);
    assert_eq!(plan[0].timeout, 20);
}

#[test]
fn oversized_vpn_port_is_an_invalid_parameter() {
    let text = "{\"vpnEndpoint\": \"vpn.example.com\", \"vpnPort\": 65536}";
    let doc = BalenaCfgJson::new(doc_file(), text).unwrap();
    let config = Config::from_string(
        "balena:\n  check_vpn: true\n  api:\n    check: false\n",
    )
    .unwrap();
    let err = doc.check_plan(&config).unwrap_err();
    assert_eq!(err.kind(), MigErrorKind::InvParam);
}

#[test]
fn unparseable_api_endpoint_is_upstream() {
    let doc = BalenaCfgJson::new(doc_file(), "{\"apiEndpoint\": \"not a url\"}").unwrap();
    let err = doc.api_probe_target(5).unwrap_err();
    assert_eq!(err.kind(), MigErrorKind::Upstream);
    assert!(err.remark().contains("not a url"));
}

#[test]
fn failed_vpn_probe_is_terminal_and_displayed() {
    // The probe to the VPN endpoint timed out: validation must fail
    // with a terminal, already-displayed error.
    let err = check_outcome(&vec![false]).unwrap_err();
    assert_eq!(err.kind(), MigErrorKind::Displayed);
    let err2 = check_outcome(&vec![true, false]).unwrap_err();
    assert_eq!(err2.kind(), MigErrorKind::Displayed);
    assert!(check_outcome(&vec![true, true]).is_ok());
    assert!(check_outcome(&vec![]).is_ok());
}
