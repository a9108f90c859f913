use proxmox_api::error::ProxmoxAPIError;
use proxmox_api::model::cluster::{PveClusterStatus, PveType};
use proxmox_api::model::tasks::Task;
use proxmox_api::model::PveVersion;
use proxmox_api::response::{classify_status, is_success, read_document, PveResponse};

const VERSION_BODY: &str = r#"{"data": {"release": "8.1", "repoid": "abc123", "version": "8.1.3"}}"#;

fn version(status: u16, body: Option<&str>) -> Result<PveVersion, ProxmoxAPIError> {
    PveResponse::<PveVersion>::from_response(status, body.map(|b| b.to_string())).map(|r| r.data)
}

#[test]
fn envelope_unwraps_version_payload() {
    let v = version(200, Some(VERSION_BODY)).unwrap();
    assert_eq!(v.release, "8.1");
    assert_eq!(v.repoid, "abc123");
    assert_eq!(v.version, "8.1.3");
    assert!(v.console.is_none());
}

#[test]
fn envelope_reads_optional_enum_member() {
    let body = r#"{"data": {"release": "8.1", "repoid": "abc123", "version": "8.1.3", "console": "xtermjs"}}"#;
    let v = version(200, Some(body)).unwrap();
    assert_eq!(v.console, Some(proxmox_api::model::PveConsoleViewer::XTermJS));
}

#[test]
fn status_401_is_unauthorized_whatever_the_body() {
    assert_eq!(version(401, Some(VERSION_BODY)).unwrap_err(), ProxmoxAPIError::Unauthorized);
    assert_eq!(version(401, Some("not json")).unwrap_err(), ProxmoxAPIError::Unauthorized);
    assert_eq!(version(401, None).unwrap_err(), ProxmoxAPIError::Unauthorized);
}

#[test]
fn status_500_is_api_error_with_status() {
    assert_eq!(version(500, Some(VERSION_BODY)).unwrap_err(), ProxmoxAPIError::ApiError(500));
    assert_eq!(version(404, None).unwrap_err(), ProxmoxAPIError::ApiError(404));
}

#[test]
fn unparseable_body_is_deserialization_error() {
    assert_eq!(version(200, Some("not json")).unwrap_err(), ProxmoxAPIError::DeserializationError);
}

#[test]
fn wrong_field_type_is_deserialization_error() {
    let body = r#"{"data": {"release": 8.1, "repoid": "abc123", "version": "8.1.3"}}"#;
    assert_eq!(version(200, Some(body)).unwrap_err(), ProxmoxAPIError::DeserializationError);
}

#[test]
fn missing_envelope_is_deserialization_error() {
    let body = r#"{"release": "8.1", "repoid": "abc123", "version": "8.1.3"}"#;
    assert_eq!(version(200, Some(body)).unwrap_err(), ProxmoxAPIError::DeserializationError);
}

#[test]
fn missing_required_field_is_deserialization_error() {
    let body = r#"{"data": {"release": "8.1", "version": "8.1.3"}}"#;
    assert_eq!(version(200, Some(body)).unwrap_err(), ProxmoxAPIError::DeserializationError);
}

#[test]
fn unknown_enum_name_is_deserialization_error() {
    let body = r#"{"data": {"release": "8.1", "repoid": "a", "version": "8", "console": "telnet"}}"#;
    assert_eq!(version(200, Some(body)).unwrap_err(), ProxmoxAPIError::DeserializationError);
}

#[test]
fn body_read_failure_is_network_error() {
    assert_eq!(version(200, None).unwrap_err(), ProxmoxAPIError::NetworkError);
}

#[test]
fn status_classification_boundaries() {
    assert!(is_success(200));
    assert!(is_success(204));
    assert!(is_success(299));
    assert!(!is_success(199));
    assert!(!is_success(300));
    assert_eq!(classify_status(201), Ok(()));
    assert_eq!(classify_status(401), Err(ProxmoxAPIError::Unauthorized));
    assert_eq!(classify_status(403), Err(ProxmoxAPIError::ApiError(403)));
    assert_eq!(classify_status(302), Err(ProxmoxAPIError::ApiError(302)));
}

#[test]
fn read_document_parses_the_body() {
    let doc = read_document(200, Some("{\"data\": [1, 2]}".to_string())).unwrap();
    assert_eq!(doc["data"][1].as_u64(), Some(2));
    assert_eq!(read_document(200, Some("[".to_string())).unwrap_err(), ProxmoxAPIError::DeserializationError);
}

#[test]
fn list_payload_decodes_each_element() {
    let body = r#"{"data": [
        {"id": "a", "node": "pve01", "pid": 1, "pstart": 2, "starttime": 3, "type": "vzdump",
         "upid": "UPID:a", "user": "root@pam", "status": ""},
        {"id": "b", "node": "pve02", "pid": 4, "pstart": 5, "starttime": 6, "type": "vzstart",
         "upid": "UPID:b", "user": "root@pam", "status": "OK", "end_time": 9}
    ]}"#;
    let tasks = PveResponse::<Vec<Task>>::from_response(200, Some(body.to_string())).unwrap().data;
    assert_eq!(tasks.len(), 2);
    assert_eq!(tasks[0].node, "pve01");
    assert_eq!(tasks[0].status, None);
    assert_eq!(tasks[0].end_time, None);
    assert_eq!(tasks[1].task_type, "vzstart");
    assert_eq!(tasks[1].status.as_deref(), Some("OK"));
    assert_eq!(tasks[1].end_time, Some(9));
}

#[test]
fn list_payload_with_one_bad_element_fails_whole() {
    let body = r#"{"data": [
        {"id": "a", "node": "pve01", "pid": 1, "pstart": 2, "starttime": 3, "type": "t", "upid": "u", "user": "r"},
        {"id": "b", "node": "pve02", "pid": -4, "pstart": 5, "starttime": 6, "type": "t", "upid": "u", "user": "r"}
    ]}"#;
    let r = PveResponse::<Vec<Task>>::from_response(200, Some(body.to_string()));
    assert_eq!(r.err(), Some(ProxmoxAPIError::DeserializationError));
}

#[test]
fn cluster_status_decodes_enum_and_integers() {
    let body = r#"{"data": {"id": "cluster", "name": "lab", "type": "cluster", "nodes": 3, "quorate": true, "version": null}}"#;
    let s = PveResponse::<PveClusterStatus>::from_response(200, Some(body.to_string())).unwrap().data;
    assert_eq!(s.pve_type, PveType::Cluster);
    assert_eq!(s.nodes, Some(3));
    assert_eq!(s.quorate, Some(true));
    assert_eq!(s.version, None);
    assert_eq!(s.ip, None);
}

#[test]
fn integer_out_of_range_is_deserialization_error() {
    let body = r#"{"data": {"id": "n", "name": "n", "type": "node", "nodeid": 3000000000}}"#;
    let r = PveResponse::<PveClusterStatus>::from_response(200, Some(body.to_string()));
    assert_eq!(r.err(), Some(ProxmoxAPIError::DeserializationError));
}

#[test]
fn document_payload_keeps_float_values() {
    let body = r#"{"data": {"ratio": 1.5, "other": 2.5, "n": -3}}"#;
    let v = PveResponse::<serde_json::Value>::from_response(200, Some(body.to_string())).unwrap().data;
    assert_eq!(v["ratio"].as_f64(), Some(1.5));
    assert_eq!(v["other"].as_f64(), Some(2.5));
    assert_eq!(v["n"].as_i64(), Some(-3));
}
