//! Backup (vzdump) defaults.

use vstd::prelude::*;

use crate::error::ProxmoxAPIError;
use crate::deserializers::{non_empty_str_field, non_empty_str_present};
use crate::json::{FromJson, JsonModel, WireName, bool_field, bool_of, bool_or_false_field, bool_or_false_of, int_of_i32, member_of, named_field, named_of, nonempty_text_of, opt_signed_field, opt_signed_of, opt_text_list_field, opt_text_list_of, signed_field, signed_of, str_equal, text_view, texts_of};

verus! {

/// The backup defaults configured on a node.
#[derive(Debug)]
pub struct ConfiguredDefaults {
    /// Back up all known guests of the host.
    pub all: bool,
    /// I/O bandwidth limit in KiB/s.
    pub bwlimit: i64,
    /// Compression of the dump file.
    pub compress: Compression,
    /// Directory for the resulting files.
    pub dumpdir: Option<String>,
    /// Guests to exclude.
    pub exclude: Option<String>,
    /// Files and directories to exclude (shell globs).
    pub exclude_path: Option<Vec<String>>,
    /// I/O priority.
    pub ionice: i32,
    /// Longest wait for the global lock, in minutes.
    pub lockwait: i32,
    /// When to send mail (deprecated).
    pub mail_notification: MailNotification,
    /// Addresses or users to notify by mail.
    pub mailto: Option<String>,
    /// Backup files kept per guest (deprecated).
    pub maxfiles: Option<i32>,
    /// Backup mode.
    pub mode: Mode,
    /// Only run on this node.
    pub node: Option<String>,
    /// Template for the notes of a backup.
    pub notes_template: Option<String>,
    /// When to send a notification.
    pub notification_policy: NotificationPolicy,
    /// The notification endpoint or group.
    pub notification_target: Option<String>,
    /// Other performance settings.
    pub performance: Option<String>,
    /// pigz threads.
    pub pigz: i32,
    /// Back up the guests of this pool.
    pub pool: Option<String>,
    /// Mark the backups as protected.
    pub protected: bool,
    /// Retention options.
    pub prune_backus: Option<String>,
    /// Be quiet.
    pub quiet: bool,
    /// Prune older backups.
    pub remove: bool,
    /// Hook script.
    pub script: Option<String>,
    /// Exclude temporary files and logs.
    pub stdexcludes: bool,
    /// Stop running backup jobs on the host.
    pub stop: bool,
    /// Longest wait for a guest to stop, in minutes.
    pub stopwait: i32,
    /// Storage for the resulting file.
    pub storage: Option<String>,
    /// Directory for temporary files.
    pub tmpdir: Option<String>,
    /// The guests to back up.
    pub vmid: Option<String>,
    /// zstd threads.
    pub zstd: i32,
}

impl FromJson for ConfiguredDefaults {
    open spec fn decodes(j: JsonModel, x: ConfiguredDefaults) -> bool {
        &&& bool_of(member_of(j, "all"@)) == Some(x.all)
        &&& signed_of(member_of(j, "bwlimit"@), i64::MIN as int, i64::MAX as int) == Some(x.bwlimit as int)
        &&& named_of::<Compression>(member_of(j, "compress"@)) == Some(x.compress)
        &&& nonempty_text_of(member_of(j, "dumpdir"@)) == Some(text_view(x.dumpdir))
        &&& nonempty_text_of(member_of(j, "exclude"@)) == Some(text_view(x.exclude))
        &&& opt_text_list_of(member_of(j, "exclude_path"@)) == Some(texts_of(x.exclude_path))
        &&& signed_of(member_of(j, "ionice"@), i32::MIN as int, i32::MAX as int) == Some(x.ionice as int)
        &&& signed_of(member_of(j, "lockwait"@), i32::MIN as int, i32::MAX as int) == Some(x.lockwait as int)
        &&& named_of::<MailNotification>(member_of(j, "mailnotification"@)) == Some(x.mail_notification)
        &&& nonempty_text_of(member_of(j, "mailto"@)) == Some(text_view(x.mailto))
        &&& opt_signed_of(member_of(j, "maxfiles"@), i32::MIN as int, i32::MAX as int) == Some(int_of_i32(x.maxfiles))
        &&& named_of::<Mode>(member_of(j, "mode"@)) == Some(x.mode)
        &&& nonempty_text_of(member_of(j, "node"@)) == Some(text_view(x.node))
        &&& nonempty_text_of(member_of(j, "notes-template"@)) == Some(text_view(x.notes_template))
        &&& named_of::<NotificationPolicy>(member_of(j, "notification-policy"@)) == Some(x.notification_policy)
        &&& nonempty_text_of(member_of(j, "notification-target"@)) == Some(text_view(x.notification_target))
        &&& nonempty_text_of(member_of(j, "performance"@)) == Some(text_view(x.performance))
        &&& signed_of(member_of(j, "pigz"@), i32::MIN as int, i32::MAX as int) == Some(x.pigz as int)
        &&& nonempty_text_of(member_of(j, "pool"@)) == Some(text_view(x.pool))
        &&& bool_or_false_of(member_of(j, "protected"@)) == Some(x.protected)
        &&& member_of(j, "prune-backups"@) is Some && nonempty_text_of(member_of(j, "prune-backups"@)) == Some(text_view(x.prune_backus))
        &&& bool_of(member_of(j, "quiet"@)) == Some(x.quiet)
        &&& bool_of(member_of(j, "remove"@)) == Some(x.remove)
        &&& nonempty_text_of(member_of(j, "script"@)) == Some(text_view(x.script))
        &&& bool_of(member_of(j, "stdexcludes"@)) == Some(x.stdexcludes)
        &&& bool_of(member_of(j, "stop"@)) == Some(x.stop)
        &&& signed_of(member_of(j, "stopwait"@), i32::MIN as int, i32::MAX as int) == Some(x.stopwait as int)
        &&& nonempty_text_of(member_of(j, "storage"@)) == Some(text_view(x.storage))
        &&& nonempty_text_of(member_of(j, "tmpdir"@)) == Some(text_view(x.tmpdir))
        &&& nonempty_text_of(member_of(j, "vmid"@)) == Some(text_view(x.vmid))
        &&& signed_of(member_of(j, "zstd"@), i32::MIN as int, i32::MAX as int) == Some(x.zstd as int)
    }

    fn from_json(v: &serde_json::Value) -> (r: Result<ConfiguredDefaults, ProxmoxAPIError>) {
        let all = bool_field(v, "all")?;
        let bwlimit = signed_field(v, "bwlimit", i64::MIN, i64::MAX)?;
        let compress = named_field::<Compression>(v, "compress")?;
        let dumpdir = non_empty_str_field(v, "dumpdir")?;
        let exclude = non_empty_str_field(v, "exclude")?;
        let exclude_path = opt_text_list_field(v, "exclude_path")?;
        let ionice = signed_field(v, "ionice", i32::MIN as i64, i32::MAX as i64)? as i32;
        let lockwait = signed_field(v, "lockwait", i32::MIN as i64, i32::MAX as i64)? as i32;
        let mail_notification = named_field::<MailNotification>(v, "mailnotification")?;
        let mailto = non_empty_str_field(v, "mailto")?;
        let maxfiles = match opt_signed_field(v, "maxfiles", i32::MIN as i64, i32::MAX as i64)? {
            Some(n) => Some(n as i32),
            None => None,
        };
        let mode = named_field::<Mode>(v, "mode")?;
        let node = non_empty_str_field(v, "node")?;
        let notes_template = non_empty_str_field(v, "notes-template")?;
        let notification_policy = named_field::<NotificationPolicy>(v, "notification-policy")?;
        let notification_target = non_empty_str_field(v, "notification-target")?;
        let performance = non_empty_str_field(v, "performance")?;
        let pigz = signed_field(v, "pigz", i32::MIN as i64, i32::MAX as i64)? as i32;
        let pool = non_empty_str_field(v, "pool")?;
        let protected = bool_or_false_field(v, "protected")?;
        let prune_backus = non_empty_str_present(v, "prune-backups")?;
        let quiet = bool_field(v, "quiet")?;
        let remove = bool_field(v, "remove")?;
        let script = non_empty_str_field(v, "script")?;
        let stdexcludes = bool_field(v, "stdexcludes")?;
        let stop = bool_field(v, "stop")?;
        let stopwait = signed_field(v, "stopwait", i32::MIN as i64, i32::MAX as i64)? as i32;
        let storage = non_empty_str_field(v, "storage")?;
        let tmpdir = non_empty_str_field(v, "tmpdir")?;
        let vmid = non_empty_str_field(v, "vmid")?;
        let zstd = signed_field(v, "zstd", i32::MIN as i64, i32::MAX as i64)? as i32;
        Ok(ConfiguredDefaults { all, bwlimit, compress, dumpdir, exclude, exclude_path, ionice, lockwait, mail_notification, mailto, maxfiles, mode, node, notes_template, notification_policy, notification_target, performance, pigz, pool, protected, prune_backus, quiet, remove, script, stdexcludes, stop, stopwait, storage, tmpdir, vmid, zstd })
    }
}

/// Compression of a dump file.
#[derive(Debug, Clone, Copy, PartialEq, Eq, Structural)]
pub enum Compression {
    Zero,
    One,
    GZip,
    LZO,
    ZStd,
}

impl WireName for Compression {
    open spec fn spec_from_wire(s: Seq<char>) -> Option<Compression> {
        if s == "0"@ {
            Some(Compression::Zero)
        } else if s == "1"@ {
            Some(Compression::One)
        } else if s == "gzip"@ {
            Some(Compression::GZip)
        } else if s == "lzo"@ {
            Some(Compression::LZO)
        } else if s == "zstd"@ {
            Some(Compression::ZStd)
        } else {
            None
        }
    }

    fn from_wire(s: &str) -> (r: Option<Compression>) {
        if str_equal(s, "0") {
            Some(Compression::Zero)
        } else if str_equal(s, "1") {
            Some(Compression::One)
        } else if str_equal(s, "gzip") {
            Some(Compression::GZip)
        } else if str_equal(s, "lzo") {
            Some(Compression::LZO)
        } else if str_equal(s, "zstd") {
            Some(Compression::ZStd)
        } else {
            None
        }
    }
}

/// When backup mail is sent.
#[derive(Debug, Clone, Copy, PartialEq, Eq, Structural)]
pub enum MailNotification {
    Always,
    Failure,
}

impl WireName for MailNotification {
    open spec fn spec_from_wire(s: Seq<char>) -> Option<MailNotification> {
        if s == "always"@ {
            Some(MailNotification::Always)
        } else if s == "failure"@ {
            Some(MailNotification::Failure)
        } else {
            None
        }
    }

    fn from_wire(s: &str) -> (r: Option<MailNotification>) {
        if str_equal(s, "always") {
            Some(MailNotification::Always)
        } else if str_equal(s, "failure") {
            Some(MailNotification::Failure)
        } else {
            None
        }
    }
}

/// How a guest is backed up.
#[derive(Debug, Clone, Copy, PartialEq, Eq, Structural)]
pub enum Mode {
    Snapshot,
    Suspend,
    Stop,
}

impl WireName for Mode {
    open spec fn spec_from_wire(s: Seq<char>) -> Option<Mode> {
        if s == "snapshot"@ {
            Some(Mode::Snapshot)
        } else if s == "suspend"@ {
            Some(Mode::Suspend)
        } else if s == "stop"@ {
            Some(Mode::Stop)
        } else {
            None
        }
    }

    fn from_wire(s: &str) -> (r: Option<Mode>) {
        if str_equal(s, "snapshot") {
            Some(Mode::Snapshot)
        } else if str_equal(s, "suspend") {
            Some(Mode::Suspend)
        } else if str_equal(s, "stop") {
            Some(Mode::Stop)
        } else {
            None
        }
    }
}

/// When a backup notification is sent.
#[derive(Debug, Clone, Copy, PartialEq, Eq, Structural)]
pub enum NotificationPolicy {
    Always,
    Failure,
    Never,
}

impl WireName for NotificationPolicy {
    open spec fn spec_from_wire(s: Seq<char>) -> Option<NotificationPolicy> {
        if s == "always"@ {
            Some(NotificationPolicy::Always)
        } else if s == "failure"@ {
            Some(NotificationPolicy::Failure)
        } else if s == "never"@ {
            Some(NotificationPolicy::Never)
        } else {
            None
        }
    }

    fn from_wire(s: &str) -> (r: Option<NotificationPolicy>) {
        if str_equal(s, "always") {
            Some(NotificationPolicy::Always)
        } else if str_equal(s, "failure") {
            Some(NotificationPolicy::Failure)
        } else if str_equal(s, "never") {
            Some(NotificationPolicy::Never)
        } else {
            None
        }
    }
}

} // verus!
