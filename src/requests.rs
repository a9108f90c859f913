//! The API calls that the endpoints make, as plain descriptions: the HTTP
//! method, the path below the host, and the JSON body. Sending them is the
//! transport's work; the response goes back through `response`.

use vstd::prelude::*;
use vstd::string::StringExecFns;

use crate::json::{
    array_value, bool_value, json_text, json_text_of, json_view, no_members, null_value, object_value, object_view,
    string_value, text_view, u64_value, JsonModel, JsonNumber,
};
use crate::model::cluster::PveResourceType;
use crate::model::node::{NodeId, VMId};
use crate::model::system::{Command, Property};
use crate::model::tasks::{TaskSource, TasksFilter};

verus! {

/// The HTTP methods the API is called with.
#[derive(Debug, Clone, Copy, PartialEq, Eq, Structural)]
pub enum HttpMethod {
    Get,
    Post,
}

/// One API call: its method, its path below the host, and its JSON body,
/// if it has one.
#[derive(Debug)]
pub struct ApiRequest {
    pub method: HttpMethod,
    pub path: String,
    pub body: Option<serde_json::Value>,
}

/// `r` is a call with method `m` to `path` whose body is an object with the
/// members `body` (or that has no body, for `None`).
pub open spec fn is_call(r: ApiRequest, m: HttpMethod, path: Seq<char>, body: Option<Map<Seq<char>, JsonModel>>) -> bool {
    &&& r.method == m
    &&& r.path@ == path
    &&& match body {
        None => r.body is None,
        Some(members) => r.body is Some && json_view(r.body->Some_0) == JsonModel::Object(members),
    }
}

/// The path of a cluster-wide resource.
pub open spec fn cluster_path(action: Seq<char>) -> Seq<char> {
    "/api2/json/cluster/"@ + action
}

/// The path of a resource of one node.
pub open spec fn node_path(node: Seq<char>, action: Seq<char>) -> Seq<char> {
    "/api2/json/nodes/"@ + node + "/"@ + action
}

/// The path of a resource of one container of one node.
pub open spec fn lxc_path(node: Seq<char>, id: Seq<char>, action: Seq<char>) -> Seq<char> {
    "/api2/json/nodes/"@ + node + "/lxc/"@ + id + "/"@ + action
}

pub open spec fn opt_text_json(o: Option<Seq<char>>) -> JsonModel {
    match o {
        Some(s) => JsonModel::Str(s),
        None => JsonModel::Null,
    }
}

pub open spec fn opt_str_view(o: Option<&str>) -> Option<Seq<char>> {
    match o {
        Some(s) => Some(s@),
        None => None,
    }
}

pub open spec fn opt_node_view(o: Option<&NodeId>) -> Option<Seq<char>> {
    match o {
        Some(id) => Some(id@),
        None => None,
    }
}

pub open spec fn opt_u64_json(o: Option<u64>) -> JsonModel {
    match o {
        Some(n) => JsonModel::Number(JsonNumber::PosInt(n)),
        None => JsonModel::Null,
    }
}

pub open spec fn opt_u32_json(o: Option<u32>) -> JsonModel {
    match o {
        Some(n) => JsonModel::Number(JsonNumber::PosInt(n as u64)),
        None => JsonModel::Null,
    }
}

pub open spec fn opt_bool_json(o: Option<bool>) -> JsonModel {
    match o {
        Some(b) => JsonModel::Bool(b),
        None => JsonModel::Null,
    }
}

pub open spec fn opt_property_json(o: Option<Property>) -> JsonModel {
    match o {
        Some(p) => JsonModel::Str(p.spec_wire_name()),
        None => JsonModel::Null,
    }
}

pub open spec fn opt_source_json(o: Option<TaskSource>) -> JsonModel {
    match o {
        Some(s) => JsonModel::Str(s.spec_wire_name()),
        None => JsonModel::Null,
    }
}

/// The path of the API's version resource.
pub fn version_path() -> (r: String)
    ensures
        r@ == "/api2/json/version"@,
{
    String::from_str("/api2/json/version")
}

/// The path of the node index.
pub fn nodes_path() -> (r: String)
    ensures
        r@ == "/api2/json/nodes"@,
{
    String::from_str("/api2/json/nodes")
}

fn cluster_path_of(action: &str) -> (r: String)
    ensures
        r@ == cluster_path(action@),
{
    let mut r = String::from_str("/api2/json/cluster/");
    r.append(action);
    r
}

fn node_path_of(node: &NodeId, action: &str) -> (r: String)
    ensures
        r@ == node_path(node@, action@),
{
    let mut r = String::from_str("/api2/json/nodes/");
    r.append(node.as_str());
    r.append("/");
    r.append(action);
    r
}

fn lxc_path_of(node: &NodeId, id: &VMId, action: &str) -> (r: String)
    ensures
        r@ == lxc_path(node@, id@, action@),
{
    let mut r = String::from_str("/api2/json/nodes/");
    r.append(node.as_str());
    r.append("/lxc/");
    r.append(id.as_str());
    r.append("/");
    r.append(action);
    r
}

fn put(m: &mut serde_json::Map<String, serde_json::Value>, key: &str, v: serde_json::Value)
    ensures
        object_view(*final(m)) == object_view(*old(m)).insert(key@, json_view(v)),
{
    m.insert(key.to_owned(), v);
}

fn text_value(s: &str) -> (r: serde_json::Value)
    ensures
        json_view(r) == JsonModel::Str(s@),
{
    string_value(s.to_owned())
}

fn opt_text_value(o: Option<&str>) -> (r: serde_json::Value)
    ensures
        json_view(r) == opt_text_json(opt_str_view(o)),
{
    match o {
        Some(s) => text_value(s),
        None => null_value(),
    }
}

fn opt_node_value(o: Option<&NodeId>) -> (r: serde_json::Value)
    ensures
        json_view(r) == opt_text_json(opt_node_view(o)),
{
    match o {
        Some(id) => text_value(id.as_str()),
        None => null_value(),
    }
}

fn opt_u64_value(o: Option<u64>) -> (r: serde_json::Value)
    ensures
        json_view(r) == opt_u64_json(o),
{
    match o {
        Some(n) => u64_value(n),
        None => null_value(),
    }
}

fn opt_u32_value(o: Option<u32>) -> (r: serde_json::Value)
    ensures
        json_view(r) == opt_u32_json(o),
{
    match o {
        Some(n) => u64_value(n as u64),
        None => null_value(),
    }
}

fn opt_bool_value(o: Option<bool>) -> (r: serde_json::Value)
    ensures
        json_view(r) == opt_bool_json(o),
{
    match o {
        Some(b) => bool_value(b),
        None => null_value(),
    }
}

fn get(path: String) -> (r: ApiRequest)
    ensures
        is_call(r, HttpMethod::Get, path@, None),
{
    ApiRequest { method: HttpMethod::Get, path, body: None }
}

fn post(path: String) -> (r: ApiRequest)
    ensures
        is_call(r, HttpMethod::Post, path@, None),
{
    ApiRequest { method: HttpMethod::Post, path, body: None }
}

fn with_body(m: HttpMethod, path: String, members: serde_json::Map<String, serde_json::Value>) -> (r: ApiRequest)
    ensures
        is_call(r, m, path@, Some(object_view(members))),
{
    ApiRequest { method: m, path, body: Some(object_value(members)) }
}

/// The size argument of a resize: the rendered size, prefixed with `+` when
/// it is to be added to the current size.
pub open spec fn resize_amount(size: Seq<char>, additive: bool) -> Seq<char> {
    if additive {
        "+"@ + size
    } else {
        size
    }
}

/// The JSON object a batched API call is written as.
pub open spec fn command_json(c: Command) -> JsonModel {
    JsonModel::Object(
        map!["args"@ => JsonModel::Str(c.args@), "method"@ => JsonModel::Str(c.method.spec_wire_name()), "path"@ => JsonModel::Str(c.path@)],
    )
}

/// The JSON object a task filter is written as: every member is present,
/// `null` where the filter leaves it open.
pub open spec fn filter_json(f: TasksFilter) -> JsonModel {
    JsonModel::Object(
        map![
            "errors"@ => opt_bool_json(f.only_errors),
            "limit"@ => opt_u64_json(f.limit),
            "since"@ => opt_u64_json(f.since),
            "source"@ => opt_source_json(f.source),
            "start"@ => opt_u64_json(f.start),
            "statusfilter"@ => opt_text_json(text_view(f.status_filter)),
            "typefilter"@ => opt_text_json(text_view(f.type_filter)),
            "until"@ => opt_u64_json(f.until),
            "userfilter"@ => opt_text_json(text_view(f.user_filter)),
            "vmid"@ => opt_u64_json(f.vmid),
        ],
    )
}

fn opt_string_value(o: &Option<String>) -> (r: serde_json::Value)
    ensures
        json_view(r) == opt_text_json(text_view(*o)),
{
    match o {
        Some(s) => text_value(s.as_str()),
        None => null_value(),
    }
}

fn opt_property_value(o: Option<Property>) -> (r: serde_json::Value)
    ensures
        json_view(r) == opt_property_json(o),
{
    match o {
        Some(p) => text_value(p.wire_name()),
        None => null_value(),
    }
}

fn opt_source_value(o: Option<TaskSource>) -> (r: serde_json::Value)
    ensures
        json_view(r) == opt_source_json(o),
{
    match o {
        Some(s) => text_value(s.wire_name()),
        None => null_value(),
    }
}

/// The JSON object of one batched API call.
pub fn command_value(c: &Command) -> (r: serde_json::Value)
    ensures
        json_view(r) == command_json(*c),
{
    let mut m = serde_json::Map::new();
    put(&mut m, "args", text_value(c.args.as_str()));
    put(&mut m, "method", text_value(c.method.wire_name()));
    put(&mut m, "path", text_value(c.path.as_str()));
    object_value(m)
}

/// The JSON object of a task filter.
pub fn filter_value(f: &TasksFilter) -> (r: serde_json::Value)
    ensures
        json_view(r) == filter_json(*f),
{
    let mut m = serde_json::Map::new();
    put(&mut m, "errors", opt_bool_value(f.only_errors));
    put(&mut m, "limit", opt_u64_value(f.limit));
    put(&mut m, "since", opt_u64_value(f.since));
    put(&mut m, "source", opt_source_value(f.source));
    put(&mut m, "start", opt_u64_value(f.start));
    put(&mut m, "statusfilter", opt_string_value(&f.status_filter));
    put(&mut m, "typefilter", opt_string_value(&f.type_filter));
    put(&mut m, "until", opt_u64_value(f.until));
    put(&mut m, "userfilter", opt_string_value(&f.user_filter));
    put(&mut m, "vmid", opt_u64_value(f.vmid));
    object_value(m)
}

/// The API version of the server.
pub fn version() -> (r: ApiRequest)
    ensures
        is_call(r, HttpMethod::Get, "/api2/json/version"@, None),
{
    get(version_path())
}

/// The node index of the cluster.
pub fn nodes() -> (r: ApiRequest)
    ensures
        is_call(r, HttpMethod::Get, "/api2/json/nodes"@, None),
{
    get(nodes_path())
}

/// The status of one task of a node.
pub fn task_status(node: &NodeId, upid: &str) -> (r: ApiRequest)
    ensures
        is_call(r, HttpMethod::Get, node_path(node@, "tasks/"@ + upid@ + "/status"@), None),
{
    let mut action = String::from_str("tasks/");
    action.append(upid);
    action.append("/status");
    get(node_path_of(node, action.as_str()))
}

/// The tasks of a node; the body is the filter, or `null` without one.
pub fn node_tasks(node: &NodeId, filter: Option<&TasksFilter>) -> (r: ApiRequest)
    ensures
        r.method == HttpMethod::Get,
        r.path@ == node_path(node@, "tasks"@),
        r.body is Some,
        json_view(r.body->Some_0) == match filter {
            Some(f) => filter_json(*f),
            None => JsonModel::Null,
        },
{
    let body = match filter {
        Some(f) => filter_value(f),
        None => null_value(),
    };
    ApiRequest { method: HttpMethod::Get, path: node_path_of(node, "tasks"), body: Some(body) }
}

/// Runs a batch of API calls on a node; the batch travels as the JSON text
/// of the array of its calls.
pub fn node_execute(node: &NodeId, commands: &[Command]) -> (r: ApiRequest)
    ensures
        is_call(
            r,
            HttpMethod::Post,
            node_path(node@, "execute"@),
            Some(map!["commands"@ => JsonModel::Str(json_text_of(JsonModel::Array(commands@.map_values(|c: Command| command_json(c)))))]),
        ),
{
    let mut items: Vec<serde_json::Value> = Vec::new();
    let mut i: usize = 0;
    while i < commands.len()
        invariant
            i <= commands@.len(),
            items@.len() == i,
            forall|k: int| 0 <= k < i ==> json_view(#[trigger] items@[k]) == command_json(commands@[k]),
        decreases commands@.len() - i,
    {
        items.push(command_value(&commands[i]));
        i = i + 1;
    }
    assert(items@.map_values(|item: serde_json::Value| json_view(item)) =~= commands@.map_values(|c: Command| command_json(c)));
    let text = json_text(&array_value(items));
    let mut m = serde_json::Map::new();
    put(&mut m, "commands", string_value(text));
    with_body(HttpMethod::Post, node_path_of(node, "execute"), m)
}

/// Resizes a mount point of a container (shrinking is not supported).
/// `size` is the rendered size; when `additive` holds it is prefixed with
/// `+`, so that it is added to the current size. `digest` guards against
/// concurrent changes of the configuration.
pub fn lxc_resize(node: &NodeId, id: &VMId, size: &str, additive: bool, disk: &str, digest: Option<&str>) -> (r: ApiRequest)
    ensures
        is_call(
            r,
            HttpMethod::Post,
            lxc_path(node@, id@, "resize"@),
            Some(map!["disk"@ => JsonModel::Str(disk@), "size"@ => JsonModel::Str(resize_amount(size@, additive)), "digest"@ => opt_text_json(opt_str_view(digest))]),
        ),
{
    let mut amount = if additive {
        String::from_str("+")
    } else {
        String::new()
    };
    amount.append(size);
    let mut m = serde_json::Map::new();
    put(&mut m, "disk", text_value(disk));
    put(&mut m, "size", string_value(amount));
    put(&mut m, "digest", opt_text_value(digest));
    with_body(HttpMethod::Post, lxc_path_of(node, id, "resize"), m)
}

/// Recent tasks of the whole cluster.
pub fn cluster_tasks() -> (r: ApiRequest)
    ensures
        is_call(r, HttpMethod::Get, cluster_path("tasks"@), None),
{
    get(cluster_path_of("tasks"))
}

/// The status of the cluster and of each node.
pub fn cluster_status() -> (r: ApiRequest)
    ensures
        is_call(r, HttpMethod::Get, cluster_path("status"@), None),
{
    get(cluster_path_of("status"))
}

/// The resources of the cluster, of one kind.
pub fn cluster_resources(resource: PveResourceType) -> (r: ApiRequest)
    ensures
        is_call(r, HttpMethod::Get, cluster_path("resources"@), Some(map!["type"@ => JsonModel::Str(resource.spec_wire_name())])),
{
    let mut m = serde_json::Map::new();
    put(&mut m, "type", text_value(resource.wire_name()));
    with_body(HttpMethod::Get, cluster_path_of("resources"), m)
}

/// The datacenter options.
pub fn cluster_options() -> (r: ApiRequest)
    ensures
        is_call(r, HttpMethod::Get, cluster_path("options"@), None),
{
    get(cluster_path_of("options"))
}

/// The next free guest id.
pub fn cluster_next_id() -> (r: ApiRequest)
    ensures
        is_call(r, HttpMethod::Get, cluster_path("nextid"@), None),
{
    get(cluster_path_of("nextid"))
}

/// The recent cluster log.
pub fn cluster_log() -> (r: ApiRequest)
    ensures
        is_call(r, HttpMethod::Get, cluster_path("log"@), None),
{
    get(cluster_path_of("log"))
}

/// Wakes a node with a wake-on-LAN packet.
pub fn node_wake_on_lan(node: &NodeId) -> (r: ApiRequest)
    ensures
        is_call(r, HttpMethod::Post, node_path(node@, "wakeonlan"@), None),
{
    post(node_path_of(node, "wakeonlan"))
}

/// The API version of a node.
pub fn node_version(node: &NodeId) -> (r: ApiRequest)
    ensures
        is_call(r, HttpMethod::Get, node_path(node@, "version"@), None),
{
    get(node_path_of(node, "version"))
}

/// The clock of a node.
pub fn node_time(node: &NodeId) -> (r: ApiRequest)
    ensures
        is_call(r, HttpMethod::Get, node_path(node@, "time"@), None),
{
    get(node_path_of(node, "time"))
}

/// Suspends all guests of a node.
pub fn node_suspend_all(node: &NodeId) -> (r: ApiRequest)
    ensures
        is_call(r, HttpMethod::Post, node_path(node@, "suspendall"@), None),
{
    post(node_path_of(node, "suspendall"))
}

/// Stops all guests of a node; `timeout` is in seconds.
pub fn node_stop_all(node: &NodeId, force: bool, timeout: Option<u64>) -> (r: ApiRequest)
    ensures
        is_call(r, HttpMethod::Post, node_path(node@, "stopall"@), Some(map!["force-stop"@ => JsonModel::Bool(force), "timeout"@ => opt_u64_json(timeout)])),
{
    let mut m = serde_json::Map::new();
    put(&mut m, "force-stop", bool_value(force));
    put(&mut m, "timeout", opt_u64_value(timeout));
    with_body(HttpMethod::Post, node_path_of(node, "stopall"), m)
}

/// Starts the guests of a node (by default those marked to start on boot).
pub fn node_start_all(node: &NodeId, force: bool) -> (r: ApiRequest)
    ensures
        is_call(r, HttpMethod::Post, node_path(node@, "startall"@), Some(map!["force"@ => JsonModel::Bool(force)])),
{
    let mut m = serde_json::Map::new();
    put(&mut m, "force", bool_value(force));
    with_body(HttpMethod::Post, node_path_of(node, "startall"), m)
}

/// The system report of a node.
pub fn node_report(node: &NodeId) -> (r: ApiRequest)
    ensures
        is_call(r, HttpMethod::Get, node_path(node@, "report"@), None),
{
    get(node_path_of(node, "report"))
}

/// What a node learns about a URL before downloading from it.
pub fn node_query_url_metadata(node: &NodeId, url: &str, verify_certs: bool) -> (r: ApiRequest)
    ensures
        is_call(r, HttpMethod::Get, node_path(node@, "query-url-metadata"@), Some(map!["url"@ => JsonModel::Str(url@), "verify-certificates"@ => JsonModel::Bool(verify_certs)])),
{
    let mut m = serde_json::Map::new();
    put(&mut m, "url", text_value(url));
    put(&mut m, "verify-certificates", bool_value(verify_certs));
    with_body(HttpMethod::Get, node_path_of(node, "query-url-metadata"), m)
}

/// The network traffic of the guests of a node.
pub fn node_netstat(node: &NodeId) -> (r: ApiRequest)
    ensures
        is_call(r, HttpMethod::Get, node_path(node@, "netstat"@), None),
{
    get(node_path_of(node, "netstat"))
}

/// Migrates all guests of a node to `target`.
pub fn node_migrate_all(node: &NodeId, target: &NodeId, with_local_disks: bool, max_workers: Option<u32>) -> (r: ApiRequest)
    ensures
        is_call(r, HttpMethod::Post, node_path(node@, "migrateall"@), Some(map!["target"@ => JsonModel::Str(target@), "maxworkers"@ => opt_u32_json(max_workers), "with-local-disks"@ => JsonModel::Bool(with_local_disks)])),
{
    let mut m = serde_json::Map::new();
    put(&mut m, "target", text_value(target.as_str()));
    put(&mut m, "maxworkers", opt_u32_value(max_workers));
    put(&mut m, "with-local-disks", bool_value(with_local_disks));
    with_body(HttpMethod::Post, node_path_of(node, "migrateall"), m)
}

/// The hosts file of a node.
pub fn node_hosts(node: &NodeId) -> (r: ApiRequest)
    ensures
        is_call(r, HttpMethod::Get, node_path(node@, "hosts"@), None),
{
    get(node_path_of(node, "hosts"))
}

/// The DNS settings of a node.
pub fn node_dns(node: &NodeId) -> (r: ApiRequest)
    ensures
        is_call(r, HttpMethod::Get, node_path(node@, "dns"@), None),
{
    get(node_path_of(node, "dns"))
}

/// The configuration of a node, or one property of it.
pub fn node_config(node: &NodeId, property: Option<Property>) -> (r: ApiRequest)
    ensures
        is_call(r, HttpMethod::Get, node_path(node@, "config"@), Some(map!["property"@ => opt_property_json(property)])),
{
    let mut m = serde_json::Map::new();
    put(&mut m, "property", opt_property_value(property));
    with_body(HttpMethod::Get, node_path_of(node, "config"), m)
}

/// The appliance templates a node can download.
pub fn node_apl_info(node: &NodeId) -> (r: ApiRequest)
    ensures
        is_call(r, HttpMethod::Get, node_path(node@, "aplinfo"@), None),
{
    get(node_path_of(node, "aplinfo"))
}

/// The backup defaults of a node, for a storage if one is named.
pub fn vzdump_defaults(node: &NodeId, storage: Option<&str>) -> (r: ApiRequest)
    ensures
        is_call(r, HttpMethod::Get, node_path(node@, "vzdump/defaults"@), Some(map!["storage"@ => opt_text_json(opt_str_view(storage))])),
{
    let mut m = serde_json::Map::new();
    put(&mut m, "storage", opt_text_value(storage));
    with_body(HttpMethod::Get, node_path_of(node, "vzdump/defaults"), m)
}

/// Turns a container into a template.
pub fn lxc_template(node: &NodeId, id: &VMId) -> (r: ApiRequest)
    ensures
        is_call(r, HttpMethod::Post, lxc_path(node@, id@, "template"@), None),
{
    post(lxc_path_of(node, id, "template"))
}

/// Migrates a container to `target`. `bandwidth_limit` is the JSON value of
/// the limit in KiB/s (or `null`); `timeout` is in seconds.
pub fn lxc_migrate(node: &NodeId, id: &VMId, target: &NodeId, bandwidth_limit: serde_json::Value, online: bool, restart: bool, target_storage: Option<&str>, timeout: Option<u64>) -> (r: ApiRequest)
    ensures
        is_call(r, HttpMethod::Post, lxc_path(node@, id@, "migrate"@), Some(map!["target"@ => JsonModel::Str(target@), "bwlimit"@ => json_view(bandwidth_limit), "online"@ => JsonModel::Bool(online), "restart"@ => JsonModel::Bool(restart), "target-storage"@ => opt_text_json(opt_str_view(target_storage)), "timeout"@ => opt_u64_json(timeout)])),
{
    let mut m = serde_json::Map::new();
    put(&mut m, "target", text_value(target.as_str()));
    put(&mut m, "bwlimit", bandwidth_limit);
    put(&mut m, "online", bool_value(online));
    put(&mut m, "restart", bool_value(restart));
    put(&mut m, "target-storage", opt_text_value(target_storage));
    put(&mut m, "timeout", opt_u64_value(timeout));
    with_body(HttpMethod::Post, lxc_path_of(node, id, "migrate"), m)
}

/// The network interfaces of a container.
pub fn lxc_interfaces(node: &NodeId, id: &VMId) -> (r: ApiRequest)
    ensures
        is_call(r, HttpMethod::Get, lxc_path(node@, id@, "interfaces"@), None),
{
    get(lxc_path_of(node, id, "interfaces"))
}

/// The configuration of a container: the current values rather than the
/// pending ones when `current` holds, and those of a snapshot if one is named.
pub fn lxc_config(node: &NodeId, id: &VMId, current: bool, snapshot: Option<&str>) -> (r: ApiRequest)
    ensures
        is_call(r, HttpMethod::Get, lxc_path(node@, id@, "config"@), Some(map!["current"@ => JsonModel::Bool(current), "snapshot"@ => opt_text_json(opt_str_view(snapshot))])),
{
    let mut m = serde_json::Map::new();
    put(&mut m, "current", bool_value(current));
    put(&mut m, "snapshot", opt_text_value(snapshot));
    with_body(HttpMethod::Get, lxc_path_of(node, id, "config"), m)
}

/// Clones a container into `new_id`. `bandwidth_limit` is the JSON value of
/// the limit in KiB/s (or `null`).
pub fn lxc_clone(node: &NodeId, id: &VMId, new_id: &VMId, bandwidth_limit: serde_json::Value, description: Option<&str>, full: Option<bool>, hostname: Option<&str>, pool: Option<&str>, snapname: Option<&str>, storage: Option<&str>, target: Option<&NodeId>) -> (r: ApiRequest)
    ensures
        is_call(r, HttpMethod::Post, lxc_path(node@, id@, "clone"@), Some(map!["newid"@ => JsonModel::Str(new_id@), "bwlimit"@ => json_view(bandwidth_limit), "description"@ => opt_text_json(opt_str_view(description)), "full"@ => opt_bool_json(full), "hostname"@ => opt_text_json(opt_str_view(hostname)), "pool"@ => opt_text_json(opt_str_view(pool)), "snapname"@ => opt_text_json(opt_str_view(snapname)), "storage"@ => opt_text_json(opt_str_view(storage)), "target"@ => opt_text_json(opt_node_view(target))])),
{
    let mut m = serde_json::Map::new();
    put(&mut m, "newid", text_value(new_id.as_str()));
    put(&mut m, "bwlimit", bandwidth_limit);
    put(&mut m, "description", opt_text_value(description));
    put(&mut m, "full", opt_bool_value(full));
    put(&mut m, "hostname", opt_text_value(hostname));
    put(&mut m, "pool", opt_text_value(pool));
    put(&mut m, "snapname", opt_text_value(snapname));
    put(&mut m, "storage", opt_text_value(storage));
    put(&mut m, "target", opt_node_value(target));
    with_body(HttpMethod::Post, lxc_path_of(node, id, "clone"), m)
}

/// Suspends a container.
pub fn lxc_status_suspend(node: &NodeId, id: &VMId) -> (r: ApiRequest)
    ensures
        is_call(r, HttpMethod::Post, lxc_path(node@, id@, "status/suspend"@), None),
{
    post(lxc_path_of(node, id, "status/suspend"))
}

/// Stops a container at once.
pub fn lxc_status_stop(node: &NodeId, id: &VMId, skip_lock: bool) -> (r: ApiRequest)
    ensures
        is_call(r, HttpMethod::Post, lxc_path(node@, id@, "status/stop"@), Some(map!["skiplock"@ => JsonModel::Bool(skip_lock)])),
{
    let mut m = serde_json::Map::new();
    put(&mut m, "skiplock", bool_value(skip_lock));
    with_body(HttpMethod::Post, lxc_path_of(node, id, "status/stop"), m)
}

/// Starts a container.
pub fn lxc_status_start(node: &NodeId, id: &VMId, skip_lock: bool, debug: bool) -> (r: ApiRequest)
    ensures
        is_call(r, HttpMethod::Post, lxc_path(node@, id@, "status/start"@), Some(map!["skiplock"@ => JsonModel::Bool(skip_lock), "debug"@ => JsonModel::Bool(debug)])),
{
    let mut m = serde_json::Map::new();
    put(&mut m, "skiplock", bool_value(skip_lock));
    put(&mut m, "debug", bool_value(debug));
    with_body(HttpMethod::Post, lxc_path_of(node, id, "status/start"), m)
}

/// Shuts a container down; `timeout` is in seconds.
pub fn lxc_status_shutdown(node: &NodeId, id: &VMId, force: bool, timeout: Option<u64>) -> (r: ApiRequest)
    ensures
        is_call(r, HttpMethod::Post, lxc_path(node@, id@, "status/shutdown"@), Some(map!["forceStop"@ => JsonModel::Bool(force), "timeout"@ => opt_u64_json(timeout)])),
{
    let mut m = serde_json::Map::new();
    put(&mut m, "forceStop", bool_value(force));
    put(&mut m, "timeout", opt_u64_value(timeout));
    with_body(HttpMethod::Post, lxc_path_of(node, id, "status/shutdown"), m)
}

/// Resumes a suspended container.
pub fn lxc_status_resume(node: &NodeId, id: &VMId) -> (r: ApiRequest)
    ensures
        is_call(r, HttpMethod::Post, lxc_path(node@, id@, "status/resume"@), None),
{
    post(lxc_path_of(node, id, "status/resume"))
}

/// Reboots a container; `timeout` is in seconds.
pub fn lxc_status_reboot(node: &NodeId, id: &VMId, timeout: Option<u64>) -> (r: ApiRequest)
    ensures
        is_call(r, HttpMethod::Post, lxc_path(node@, id@, "status/reboot"@), Some(map!["timeout"@ => opt_u64_json(timeout)])),
{
    let mut m = serde_json::Map::new();
    put(&mut m, "timeout", opt_u64_value(timeout));
    with_body(HttpMethod::Post, lxc_path_of(node, id, "status/reboot"), m)
}

/// The current status of a container.
pub fn lxc_status_current(node: &NodeId, id: &VMId) -> (r: ApiRequest)
    ensures
        is_call(r, HttpMethod::Get, lxc_path(node@, id@, "status/current"@), None),
{
    get(lxc_path_of(node, id, "status/current"))
}

} // verus!
