use proxmox_api::model::cluster::PveResourceType;
use proxmox_api::model::node::{NodeId, VMId};
use proxmox_api::model::system::{Command, CommandMethod, Property};
use proxmox_api::model::tasks::TasksFilter;
use proxmox_api::requests::{self, HttpMethod};
use serde_json::Value;

fn node() -> NodeId {
    NodeId::from("pve01")
}

fn body_text(body: &Option<Value>) -> String {
    serde_json::to_string(body.as_ref().unwrap()).unwrap()
}

#[test]
fn version_and_nodes_paths() {
    let r = requests::version();
    assert_eq!(r.method, HttpMethod::Get);
    assert_eq!(r.path, "/api2/json/version");
    assert!(r.body.is_none());
    assert_eq!(requests::nodes().path, "/api2/json/nodes");
}

#[test]
fn node_call_paths() {
    let r = requests::node_wake_on_lan(&node());
    assert_eq!(r.method, HttpMethod::Post);
    assert_eq!(r.path, "/api2/json/nodes/pve01/wakeonlan");
    assert_eq!(requests::vzdump_defaults(&node(), None).path, "/api2/json/nodes/pve01/vzdump/defaults");
    assert_eq!(requests::task_status(&node(), "UPID:x").path, "/api2/json/nodes/pve01/tasks/UPID:x/status");
    assert_eq!(requests::cluster_next_id().path, "/api2/json/cluster/nextid");
}

#[test]
fn container_call_paths() {
    let id = VMId::from("101");
    let r = requests::lxc_status_current(&node(), &id);
    assert_eq!(r.method, HttpMethod::Get);
    assert_eq!(r.path, "/api2/json/nodes/pve01/lxc/101/status/current");
    assert_eq!(requests::lxc_template(&node(), &id).path, "/api2/json/nodes/pve01/lxc/101/template");
}

#[test]
fn stop_all_body() {
    let r = requests::node_stop_all(&node(), true, None);
    assert_eq!(body_text(&r.body), r#"{"force-stop":true,"timeout":null}"#);
    let r = requests::node_stop_all(&node(), false, Some(30));
    assert_eq!(body_text(&r.body), r#"{"force-stop":false,"timeout":30}"#);
}

#[test]
fn resize_body_marks_additive_sizes() {
    let id = VMId::from("101");
    let r = requests::lxc_resize(&node(), &id, "256G", true, "rootfs", None);
    assert_eq!(r.path, "/api2/json/nodes/pve01/lxc/101/resize");
    assert_eq!(body_text(&r.body), r#"{"digest":null,"disk":"rootfs","size":"+256G"}"#);
    let r = requests::lxc_resize(&node(), &id, "8G", false, "mp0", Some("abc"));
    assert_eq!(body_text(&r.body), r#"{"digest":"abc","disk":"mp0","size":"8G"}"#);
}

#[test]
fn migrate_body_carries_target_and_limit() {
    let id = VMId::from("101");
    let limit = Value::from(2048u64);
    let r = requests::lxc_migrate(&node(), &id, &NodeId::from("pve02"), limit, true, false, None, Some(60));
    let body = r.body.unwrap();
    assert_eq!(body["target"], Value::String("pve02".into()));
    assert_eq!(body["bwlimit"].as_u64(), Some(2048));
    assert_eq!(body["online"], Value::Bool(true));
    assert_eq!(body["restart"], Value::Bool(false));
    assert!(body["target-storage"].is_null());
    assert_eq!(body["timeout"].as_u64(), Some(60));
}

#[test]
fn clone_body_names_every_parameter() {
    let id = VMId::from("101");
    let target = NodeId::from("pve02");
    let r = requests::lxc_clone(
        &node(), &id, &VMId::from("200"), Value::Null, Some("copy"), Some(true), None, None, None, Some("local"), Some(&target),
    );
    let body = r.body.unwrap();
    assert_eq!(body["newid"], Value::String("200".into()));
    assert!(body["bwlimit"].is_null());
    assert_eq!(body["description"], Value::String("copy".into()));
    assert_eq!(body["full"], Value::Bool(true));
    assert!(body["hostname"].is_null());
    assert_eq!(body["storage"], Value::String("local".into()));
    assert_eq!(body["target"], Value::String("pve02".into()));
    assert_eq!(body.as_object().unwrap().len(), 9);
}

#[test]
fn resources_and_config_bodies_use_wire_names() {
    let r = requests::cluster_resources(PveResourceType::VM);
    assert_eq!(body_text(&r.body), r#"{"type":"vm"}"#);
    let r = requests::node_config(&node(), Some(Property::WakeOnLan));
    assert_eq!(body_text(&r.body), r#"{"property":"WakeOnLan"}"#);
    let r = requests::node_config(&node(), None);
    assert_eq!(body_text(&r.body), r#"{"property":null}"#);
}

#[test]
fn execute_body_holds_commands_as_text() {
    let commands = vec![Command { args: "".into(), method: CommandMethod::Get, path: "/version".into() }];
    let r = requests::node_execute(&node(), &commands);
    let body = r.body.unwrap();
    assert_eq!(body["commands"], Value::String(r#"[{"args":"","method":"GET","path":"/version"}]"#.into()));
}

#[test]
fn tasks_body_is_the_filter() {
    let r = requests::node_tasks(&node(), None);
    assert_eq!(body_text(&r.body), "null");
    let f = TasksFilter::default();
    let r = requests::node_tasks(&node(), Some(&f));
    assert_eq!(
        body_text(&r.body),
        r#"{"errors":false,"limit":50,"since":null,"source":"archive","start":0,"statusfilter":null,"typefilter":null,"until":null,"userfilter":null,"vmid":null}"#
    );
}
