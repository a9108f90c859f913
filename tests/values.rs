use proxmox_api::auth::{ProxmoxAuthentication, PveToken};
use proxmox_api::deserializers::{non_empty_nodeid, non_empty_str, non_empty_vmid};
use proxmox_api::error::ProxmoxAPIError;
use proxmox_api::json::{str_equal, FromJson};
use proxmox_api::model::node::{NodeId, NodeStatus, VMId};
use proxmox_api::model::system::CommandMethod;
use proxmox_api::model::tasks::{TaskSource, TasksFilter};
use proxmox_api::model::vzdump::{Compression, ConfiguredDefaults};
use proxmox_api::response::PveResponse;
use serde_json::Value;

fn text(s: &str) -> Value {
    Value::String(s.to_string())
}

#[test]
fn empty_string_decodes_to_absent() {
    assert_eq!(non_empty_str(Some(&text(""))), Ok(None));
    assert_eq!(non_empty_vmid(Some(&text(""))), Ok(None));
    assert_eq!(non_empty_nodeid(Some(&text(""))), Ok(None));
}

#[test]
fn non_empty_string_decodes_to_present() {
    assert_eq!(non_empty_str(Some(&text("abc"))), Ok(Some("abc".to_string())));
    assert_eq!(non_empty_vmid(Some(&text("abc"))), Ok(Some(VMId::new("abc".to_string()))));
    assert_eq!(non_empty_nodeid(Some(&text("abc"))), Ok(Some(NodeId::new("abc".to_string()))));
}

#[test]
fn missing_or_null_field_decodes_to_absent() {
    assert_eq!(non_empty_str(None), Ok(None));
    assert_eq!(non_empty_vmid(None), Ok(None));
    assert_eq!(non_empty_nodeid(None), Ok(None));
    assert_eq!(non_empty_str(Some(&Value::Null)), Ok(None));
    assert_eq!(non_empty_nodeid(Some(&Value::Null)), Ok(None));
}

#[test]
fn non_string_field_is_deserialization_error() {
    let n: Value = serde_json::from_str("5").unwrap();
    assert_eq!(non_empty_str(Some(&n)), Err(ProxmoxAPIError::DeserializationError));
    assert_eq!(non_empty_vmid(Some(&n)), Err(ProxmoxAPIError::DeserializationError));
    let o: Value = serde_json::from_str("{\"a\": \"b\"}").unwrap();
    assert_eq!(non_empty_nodeid(Some(&o)), Err(ProxmoxAPIError::DeserializationError));
}

#[test]
fn node_id_serializes_as_bare_string() {
    let id = NodeId::new("pve01".to_string());
    let json = serde_json::to_string(&id.to_json()).unwrap();
    assert_eq!(json, "\"pve01\"");
    let vm = VMId::from("101");
    assert_eq!(serde_json::to_string(&vm.to_json()).unwrap(), "\"101\"");
}

#[test]
fn node_id_deserializes_from_bare_string() {
    let v: Value = serde_json::from_str("\"pve01\"").unwrap();
    assert_eq!(NodeId::from_json(&v), Ok(NodeId::new("pve01".to_string())));
    let obj: Value = serde_json::from_str("{\"0\": \"pve01\"}").unwrap();
    assert_eq!(NodeId::from_json(&obj), Err(ProxmoxAPIError::DeserializationError));
}

#[test]
fn identifiers_compare_by_text() {
    assert_eq!(NodeId::from("a"), NodeId::new("a".to_string()));
    assert_ne!(NodeId::from("a"), NodeId::from("b"));
    assert_eq!(VMId::from("100".to_string()).to_string(), "100");
    assert_eq!(NodeId::from("pve").as_str(), "pve");
}

#[test]
fn node_status_display_text() {
    assert_eq!(NodeStatus::Online.to_string(), "Online");
    assert_eq!(NodeStatus::Offline.to_string(), "Offline");
    assert_eq!(NodeStatus::Unknown.to_string(), "Unknown");
}

#[test]
fn authorization_header_value() {
    let auth = ProxmoxAuthentication {
        user: "root".into(),
        realm: "pam".into(),
        token: PveToken { name: "api-test".into(), value: "SECRET-REDACTED".into() },
    };
    assert_eq!(auth.authorization_value(), "PVEAPIToken=root@pam!api-test=SECRET-REDACTED");
}

#[test]
fn tasks_filter_default() {
    let f = TasksFilter::default();
    assert_eq!(f.only_errors, Some(false));
    assert_eq!(f.limit, Some(50));
    assert_eq!(f.start, Some(0));
    assert!(matches!(f.source, Some(TaskSource::Archive)));
    assert!(f.since.is_none() && f.until.is_none() && f.vmid.is_none());
    assert!(f.status_filter.is_none() && f.type_filter.is_none() && f.user_filter.is_none());
}

#[test]
fn wire_names() {
    assert_eq!(CommandMethod::Get.wire_name(), "GET");
    assert_eq!(CommandMethod::Delete.wire_name(), "DELETE");
    assert_eq!(TaskSource::All.wire_name(), "all");
}

#[test]
fn error_messages() {
    assert_eq!(ProxmoxAPIError::NetworkError.message(), "Network Error");
    assert_eq!(ProxmoxAPIError::Unauthorized.message(), "Unauthorized");
    assert_eq!(ProxmoxAPIError::ApiError(500).message(), "Unknown API error");
    assert_eq!(ProxmoxAPIError::DeserializationError.message(), "Error while deserializing response JSON");
}

#[test]
fn text_equality() {
    assert!(str_equal("abc", "abc"));
    assert!(!str_equal("abc", "abd"));
    assert!(!str_equal("abc", "ab"));
    assert!(str_equal("", ""));
}

const DEFAULTS: &str = r#"{"all": false, "bwlimit": 0, "compress": "zstd", "dumpdir": "",
    "ionice": 7, "lockwait": 180, "mailnotification": "always", "mode": "snapshot",
    "notification-policy": "failure", "pigz": 0, "prune-backups": "keep-all=1",
    "quiet": false, "remove": true, "stdexcludes": true, "stop": false, "stopwait": 10,
    "storage": "local", "zstd": 1, "exclude_path": ["/tmp", "/var/cache"]}"#;

fn defaults(body: &str) -> Result<ConfiguredDefaults, ProxmoxAPIError> {
    let text = format!("{{\"data\": {}}}", body);
    PveResponse::<ConfiguredDefaults>::from_response(200, Some(text)).map(|r| r.data)
}

#[test]
fn backup_defaults_decode() {
    let d = defaults(DEFAULTS).unwrap();
    assert!(matches!(d.compress, Compression::ZStd));
    assert_eq!(d.dumpdir, None);
    assert_eq!(d.storage.as_deref(), Some("local"));
    assert!(!d.protected);
    assert_eq!(d.prune_backus.as_deref(), Some("keep-all=1"));
    assert_eq!(d.exclude_path, Some(vec!["/tmp".to_string(), "/var/cache".to_string()]));
    assert_eq!(d.lockwait, 180);
    assert_eq!(d.maxfiles, None);
}

#[test]
fn backup_defaults_need_retention_field() {
    let body = DEFAULTS.replace("\"prune-backups\": \"keep-all=1\",", "");
    assert_eq!(defaults(&body).err(), Some(ProxmoxAPIError::DeserializationError));
}

#[test]
fn backup_defaults_protected_flag_is_read() {
    let body = DEFAULTS.replace("\"quiet\": false", "\"quiet\": false, \"protected\": true");
    assert!(defaults(&body).unwrap().protected);
    let body = DEFAULTS.replace("\"quiet\": false", "\"quiet\": false, \"protected\": null");
    assert_eq!(defaults(&body).err(), Some(ProxmoxAPIError::DeserializationError));
}
