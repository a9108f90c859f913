//! Tasks that nodes run, and the filter for listing them.

use vstd::prelude::*;

use crate::error::ProxmoxAPIError;
use crate::deserializers::{non_empty_str_field};
use crate::json::{FromJson, JsonModel, WireName, int_of_u64, member_of, named_field, named_of, nonempty_text_of, opt_bool_field, opt_bool_of, opt_named_field, opt_named_of, opt_text_field, opt_text_of, opt_unsigned_field, opt_unsigned_of, str_equal, text_field, text_of, text_view, unsigned_field, unsigned_of};

verus! {

/// Which tasks a listing returns.
#[derive(Debug)]
pub struct TasksFilter {
    /// Only tasks with an error status.
    pub only_errors: Option<bool>,
    /// At most this many tasks.
    pub limit: Option<u64>,
    /// Only tasks since this UNIX epoch.
    pub since: Option<u64>,
    /// Archived, active or all tasks.
    pub source: Option<TaskSource>,
    /// Tasks from this offset on.
    pub start: Option<u64>,
    /// The task states to list.
    pub status_filter: Option<String>,
    /// Only tasks of this type.
    pub type_filter: Option<String>,
    /// Only tasks until this UNIX epoch.
    pub until: Option<u64>,
    /// Only tasks of this user.
    pub user_filter: Option<String>,
    /// Only tasks of this guest.
    pub vmid: Option<u64>,
}

impl Default for TasksFilter {
    /// The first fifty archived tasks, errors or not.
    fn default() -> (r: TasksFilter)
        ensures
            r.only_errors == Some(false),
            r.limit == Some(50u64),
            r.since is None,
            r.source == Some(TaskSource::Archive),
            r.start == Some(0u64),
            r.status_filter is None,
            r.type_filter is None,
            r.until is None,
            r.user_filter is None,
            r.vmid is None,
    {
        TasksFilter {
            only_errors: Some(false),
            limit: Some(50),
            since: None,
            source: Some(TaskSource::Archive),
            start: Some(0),
            status_filter: None,
            type_filter: None,
            until: None,
            user_filter: None,
            vmid: None,
        }
    }
}

/// Which tasks a listing draws from.
#[derive(Debug, Clone, Copy, PartialEq, Eq, Structural)]
pub enum TaskSource {
    Archive,
    Active,
    All,
}

impl TaskSource {
    /// The name this value is written as on the wire.
    pub open spec fn spec_wire_name(&self) -> Seq<char> {
        match self {
            TaskSource::Archive => "archive"@,
            TaskSource::Active => "active"@,
            TaskSource::All => "all"@,
        }
    }

    /// The name this value is written as on the wire.
    pub fn wire_name(&self) -> (r: &'static str)
        ensures
            r@ == self.spec_wire_name(),
    {
        match self {
            TaskSource::Archive => "archive",
            TaskSource::Active => "active",
            TaskSource::All => "all",
        }
    }
}

/// A task in a node's task list.
#[derive(Debug)]
pub struct Task {
    pub id: String,
    pub node: String,
    pub pid: u64,
    pub pstart: u64,
    pub start_time: u64,
    pub task_type: String,
    pub upid: String,
    pub user: String,
    pub end_time: Option<u64>,
    pub status: Option<String>,
}

impl FromJson for Task {
    open spec fn decodes(j: JsonModel, x: Task) -> bool {
        &&& text_of(member_of(j, "id"@)) == Some(x.id@)
        &&& text_of(member_of(j, "node"@)) == Some(x.node@)
        &&& unsigned_of(member_of(j, "pid"@), u64::MAX as int) == Some(x.pid as int)
        &&& unsigned_of(member_of(j, "pstart"@), u64::MAX as int) == Some(x.pstart as int)
        &&& unsigned_of(member_of(j, "starttime"@), u64::MAX as int) == Some(x.start_time as int)
        &&& text_of(member_of(j, "type"@)) == Some(x.task_type@)
        &&& text_of(member_of(j, "upid"@)) == Some(x.upid@)
        &&& text_of(member_of(j, "user"@)) == Some(x.user@)
        &&& opt_unsigned_of(member_of(j, "end_time"@), u64::MAX as int) == Some(int_of_u64(x.end_time))
        &&& nonempty_text_of(member_of(j, "status"@)) == Some(text_view(x.status))
    }

    fn from_json(v: &serde_json::Value) -> (r: Result<Task, ProxmoxAPIError>) {
        let id = text_field(v, "id")?;
        let node = text_field(v, "node")?;
        let pid = unsigned_field(v, "pid", u64::MAX)?;
        let pstart = unsigned_field(v, "pstart", u64::MAX)?;
        let start_time = unsigned_field(v, "starttime", u64::MAX)?;
        let task_type = text_field(v, "type")?;
        let upid = text_field(v, "upid")?;
        let user = text_field(v, "user")?;
        let end_time = opt_unsigned_field(v, "end_time", u64::MAX)?;
        let status = non_empty_str_field(v, "status")?;
        Ok(Task { id, node, pid, pstart, start_time, task_type, upid, user, end_time, status })
    }
}

/// The status of one task.
#[derive(Debug)]
pub struct TaskStatus {
    pub id: String,
    pub node: String,
    pub pid: u64,
    pub start_time: u64,
    pub status: TaskState,
    pub task_type: String,
    pub upid: String,
    pub user: String,
    pub exit_status: Option<String>,
}

impl FromJson for TaskStatus {
    open spec fn decodes(j: JsonModel, x: TaskStatus) -> bool {
        &&& text_of(member_of(j, "id"@)) == Some(x.id@)
        &&& text_of(member_of(j, "node"@)) == Some(x.node@)
        &&& unsigned_of(member_of(j, "pid"@), u64::MAX as int) == Some(x.pid as int)
        &&& unsigned_of(member_of(j, "starttime"@), u64::MAX as int) == Some(x.start_time as int)
        &&& named_of::<TaskState>(member_of(j, "status"@)) == Some(x.status)
        &&& text_of(member_of(j, "type"@)) == Some(x.task_type@)
        &&& text_of(member_of(j, "upid"@)) == Some(x.upid@)
        &&& text_of(member_of(j, "user"@)) == Some(x.user@)
        &&& nonempty_text_of(member_of(j, "exitstatus"@)) == Some(text_view(x.exit_status))
    }

    fn from_json(v: &serde_json::Value) -> (r: Result<TaskStatus, ProxmoxAPIError>) {
        let id = text_field(v, "id")?;
        let node = text_field(v, "node")?;
        let pid = unsigned_field(v, "pid", u64::MAX)?;
        let start_time = unsigned_field(v, "starttime", u64::MAX)?;
        let status = named_field::<TaskState>(v, "status")?;
        let task_type = text_field(v, "type")?;
        let upid = text_field(v, "upid")?;
        let user = text_field(v, "user")?;
        let exit_status = non_empty_str_field(v, "exitstatus")?;
        Ok(TaskStatus { id, node, pid, start_time, status, task_type, upid, user, exit_status })
    }
}

/// Whether a task still runs.
#[derive(Debug, Clone, Copy, PartialEq, Eq, Structural)]
pub enum TaskState {
    Running,
    Stopped,
}

impl WireName for TaskState {
    open spec fn spec_from_wire(s: Seq<char>) -> Option<TaskState> {
        if s == "running"@ {
            Some(TaskState::Running)
        } else if s == "stopped"@ {
            Some(TaskState::Stopped)
        } else {
            None
        }
    }

    fn from_wire(s: &str) -> (r: Option<TaskState>) {
        if str_equal(s, "running") {
            Some(TaskState::Running)
        } else if str_equal(s, "stopped") {
            Some(TaskState::Stopped)
        } else {
            None
        }
    }
}

} // verus!
