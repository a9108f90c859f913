//! Notification endpoints, matchers and targets.

use vstd::prelude::*;

use crate::error::ProxmoxAPIError;
use crate::json::{FromJson, JsonModel, WireName, int_of_i16, member_of, named_field, named_of, opt_bool_field, opt_bool_of, opt_named_field, opt_named_of, opt_signed_field, opt_signed_of, opt_text_field, opt_text_list_field, opt_text_list_of, opt_text_of, str_equal, text_field, text_of, text_view, texts_of};
use crate::model::cluster::{PveEncryptMode, PveResourceOrigin};

verus! {

/// A Gotify notification endpoint.
#[derive(Debug)]
pub struct Gotify {
    /// The name of the endpoint.
    pub name: String,
    /// Whether the entry was created by a user or is built in.
    pub origin: Option<PveResourceOrigin>,
    /// Server URL.
    pub server: String,
    pub comment: Option<String>,
    /// Digest of the configuration, to detect concurrent changes.
    pub digest: Option<String>,
    /// Whether the endpoint is disabled.
    pub disable: Option<bool>,
}

impl FromJson for Gotify {
    open spec fn decodes(j: JsonModel, x: Gotify) -> bool {
        &&& text_of(member_of(j, "name"@)) == Some(x.name@)
        &&& opt_named_of::<PveResourceOrigin>(member_of(j, "origin"@)) == Some(x.origin)
        &&& text_of(member_of(j, "server"@)) == Some(x.server@)
        &&& opt_text_of(member_of(j, "comment"@)) == Some(text_view(x.comment))
        &&& opt_text_of(member_of(j, "digest"@)) == Some(text_view(x.digest))
        &&& opt_bool_of(member_of(j, "disable"@)) == Some(x.disable)
    }

    fn from_json(v: &serde_json::Value) -> (r: Result<Gotify, ProxmoxAPIError>) {
        let name = text_field(v, "name")?;
        let origin = opt_named_field::<PveResourceOrigin>(v, "origin")?;
        let server = text_field(v, "server")?;
        let comment = opt_text_field(v, "comment")?;
        let digest = opt_text_field(v, "digest")?;
        let disable = opt_bool_field(v, "disable")?;
        Ok(Gotify { name, origin, server, comment, digest, disable })
    }
}

/// A sendmail notification endpoint.
#[derive(Debug)]
pub struct SendMail {
    /// The name of the endpoint.
    pub name: String,
    /// Whether the entry was created by a user or is built in.
    pub origin: Option<PveResourceOrigin>,
    /// Author of the email.
    pub author: Option<String>,
    pub comment: Option<String>,
    /// Whether the endpoint is disabled.
    pub disable: Option<bool>,
    /// 'From' address for the email.
    pub from_address: Option<String>,
    /// Email recipients.
    pub mailto: Option<Vec<String>>,
    /// Users to notify.
    pub mailto_user: Option<Vec<String>>,
}

impl FromJson for SendMail {
    open spec fn decodes(j: JsonModel, x: SendMail) -> bool {
        &&& text_of(member_of(j, "name"@)) == Some(x.name@)
        &&& opt_named_of::<PveResourceOrigin>(member_of(j, "origin"@)) == Some(x.origin)
        &&& opt_text_of(member_of(j, "author"@)) == Some(text_view(x.author))
        &&& opt_text_of(member_of(j, "comment"@)) == Some(text_view(x.comment))
        &&& opt_bool_of(member_of(j, "disable"@)) == Some(x.disable)
        &&& opt_text_of(member_of(j, "from-address"@)) == Some(text_view(x.from_address))
        &&& opt_text_list_of(member_of(j, "mailto"@)) == Some(texts_of(x.mailto))
        &&& opt_text_list_of(member_of(j, "mailto-user"@)) == Some(texts_of(x.mailto_user))
    }

    fn from_json(v: &serde_json::Value) -> (r: Result<SendMail, ProxmoxAPIError>) {
        let name = text_field(v, "name")?;
        let origin = opt_named_field::<PveResourceOrigin>(v, "origin")?;
        let author = opt_text_field(v, "author")?;
        let comment = opt_text_field(v, "comment")?;
        let disable = opt_bool_field(v, "disable")?;
        let from_address = opt_text_field(v, "from-address")?;
        let mailto = opt_text_list_field(v, "mailto")?;
        let mailto_user = opt_text_list_field(v, "mailto-user")?;
        Ok(SendMail { name, origin, author, comment, disable, from_address, mailto, mailto_user })
    }
}

/// An SMTP notification endpoint.
#[derive(Debug)]
pub struct PveSmtp {
    /// 'From' address for the email.
    pub from_address: String,
    /// The name of the endpoint.
    pub name: String,
    /// Whether the entry was created by a user or is built in.
    pub origin: Option<PveResourceOrigin>,
    /// The address of the SMTP server.
    pub server: String,
    /// Author of the mail.
    pub author: Option<String>,
    pub comment: Option<String>,
    /// Whether the endpoint is disabled.
    pub disable: Option<bool>,
    /// Email recipients.
    pub mailto: Option<Vec<String>>,
    /// Users to notify.
    pub mailto_user: Option<Vec<String>>,
    /// The encryption the connection uses.
    pub mode: Option<PveEncryptMode>,
    /// The port to connect to.
    pub port: Option<i16>,
    /// Username for SMTP authentication.
    pub username: Option<String>,
}

impl FromJson for PveSmtp {
    open spec fn decodes(j: JsonModel, x: PveSmtp) -> bool {
        &&& text_of(member_of(j, "from-address"@)) == Some(x.from_address@)
        &&& text_of(member_of(j, "name"@)) == Some(x.name@)
        &&& opt_named_of::<PveResourceOrigin>(member_of(j, "origin"@)) == Some(x.origin)
        &&& text_of(member_of(j, "server"@)) == Some(x.server@)
        &&& opt_text_of(member_of(j, "author"@)) == Some(text_view(x.author))
        &&& opt_text_of(member_of(j, "comment"@)) == Some(text_view(x.comment))
        &&& opt_bool_of(member_of(j, "disable"@)) == Some(x.disable)
        &&& opt_text_list_of(member_of(j, "mailto"@)) == Some(texts_of(x.mailto))
        &&& opt_text_list_of(member_of(j, "mailto-user"@)) == Some(texts_of(x.mailto_user))
        &&& opt_named_of::<PveEncryptMode>(member_of(j, "mode"@)) == Some(x.mode)
        &&& opt_signed_of(member_of(j, "port"@), i16::MIN as int, i16::MAX as int) == Some(int_of_i16(x.port))
        &&& opt_text_of(member_of(j, "username"@)) == Some(text_view(x.username))
    }

    fn from_json(v: &serde_json::Value) -> (r: Result<PveSmtp, ProxmoxAPIError>) {
        let from_address = text_field(v, "from-address")?;
        let name = text_field(v, "name")?;
        let origin = opt_named_field::<PveResourceOrigin>(v, "origin")?;
        let server = text_field(v, "server")?;
        let author = opt_text_field(v, "author")?;
        let comment = opt_text_field(v, "comment")?;
        let disable = opt_bool_field(v, "disable")?;
        let mailto = opt_text_list_field(v, "mailto")?;
        let mailto_user = opt_text_list_field(v, "mailto-user")?;
        let mode = opt_named_field::<PveEncryptMode>(v, "mode")?;
        let port = match opt_signed_field(v, "port", i16::MIN as i64, i16::MAX as i64)? {
            Some(n) => Some(n as i16),
            None => None,
        };
        let username = opt_text_field(v, "username")?;
        Ok(PveSmtp { from_address, name, origin, server, author, comment, disable, mailto, mailto_user, mode, port, username })
    }
}

/// A notification matcher.
#[derive(Debug)]
pub struct PveMatcher {
    /// Name of the matcher.
    pub name: String,
    /// Whether the entry was created by a user or is built in.
    pub origin: Option<String>,
    pub comment: Option<String>,
    /// Whether the matcher is disabled.
    pub disable: Option<bool>,
    /// Whether the match of the whole matcher is inverted.
    pub invert_match: Option<bool>,
    /// Notification timestamps to match.
    pub match_calendar: Option<Vec<String>>,
    /// Metadata fields to match.
    pub match_field: Option<Vec<String>>,
    /// Notification severities to match.
    pub match_security: Option<Vec<String>>,
    /// Whether all or any of the properties must match.
    pub mode: Option<MatcherMode>,
    /// Targets to notify on a match.
    pub target: Option<Vec<String>>,
}

impl FromJson for PveMatcher {
    open spec fn decodes(j: JsonModel, x: PveMatcher) -> bool {
        &&& text_of(member_of(j, "name"@)) == Some(x.name@)
        &&& opt_text_of(member_of(j, "origin"@)) == Some(text_view(x.origin))
        &&& opt_text_of(member_of(j, "comment"@)) == Some(text_view(x.comment))
        &&& opt_bool_of(member_of(j, "disable"@)) == Some(x.disable)
        &&& opt_bool_of(member_of(j, "invert-match"@)) == Some(x.invert_match)
        &&& opt_text_list_of(member_of(j, "match-calendar"@)) == Some(texts_of(x.match_calendar))
        &&& opt_text_list_of(member_of(j, "match-field"@)) == Some(texts_of(x.match_field))
        &&& opt_text_list_of(member_of(j, "match-security"@)) == Some(texts_of(x.match_security))
        &&& opt_named_of::<MatcherMode>(member_of(j, "mode"@)) == Some(x.mode)
        &&& opt_text_list_of(member_of(j, "target"@)) == Some(texts_of(x.target))
    }

    fn from_json(v: &serde_json::Value) -> (r: Result<PveMatcher, ProxmoxAPIError>) {
        let name = text_field(v, "name")?;
        let origin = opt_text_field(v, "origin")?;
        let comment = opt_text_field(v, "comment")?;
        let disable = opt_bool_field(v, "disable")?;
        let invert_match = opt_bool_field(v, "invert-match")?;
        let match_calendar = opt_text_list_field(v, "match-calendar")?;
        let match_field = opt_text_list_field(v, "match-field")?;
        let match_security = opt_text_list_field(v, "match-security")?;
        let mode = opt_named_field::<MatcherMode>(v, "mode")?;
        let target = opt_text_list_field(v, "target")?;
        Ok(PveMatcher { name, origin, comment, disable, invert_match, match_calendar, match_field, match_security, mode, target })
    }
}

/// How a matcher combines its properties.
#[derive(Debug, Clone, Copy, PartialEq, Eq, Structural)]
pub enum MatcherMode {
    All,
    Any,
}

impl WireName for MatcherMode {
    open spec fn spec_from_wire(s: Seq<char>) -> Option<MatcherMode> {
        if s == "all"@ {
            Some(MatcherMode::All)
        } else if s == "any"@ {
            Some(MatcherMode::Any)
        } else {
            None
        }
    }

    fn from_wire(s: &str) -> (r: Option<MatcherMode>) {
        if str_equal(s, "all") {
            Some(MatcherMode::All)
        } else if str_equal(s, "any") {
            Some(MatcherMode::Any)
        } else {
            None
        }
    }
}

/// A notification target.
#[derive(Debug)]
pub struct PveTarget {
    /// Name of the target.
    pub name: String,
    /// Whether the entry was created by a user or is built in.
    pub origin: String,
    /// Type of the target.
    pub target_type: TargetType,
    pub comment: Option<String>,
    /// Whether the target is disabled.
    pub disable: Option<bool>,
}

impl FromJson for PveTarget {
    open spec fn decodes(j: JsonModel, x: PveTarget) -> bool {
        &&& text_of(member_of(j, "name"@)) == Some(x.name@)
        &&& text_of(member_of(j, "origin"@)) == Some(x.origin@)
        &&& named_of::<TargetType>(member_of(j, "type"@)) == Some(x.target_type)
        &&& opt_text_of(member_of(j, "comment"@)) == Some(text_view(x.comment))
        &&& opt_bool_of(member_of(j, "disable"@)) == Some(x.disable)
    }

    fn from_json(v: &serde_json::Value) -> (r: Result<PveTarget, ProxmoxAPIError>) {
        let name = text_field(v, "name")?;
        let origin = text_field(v, "origin")?;
        let target_type = named_field::<TargetType>(v, "type")?;
        let comment = opt_text_field(v, "comment")?;
        let disable = opt_bool_field(v, "disable")?;
        Ok(PveTarget { name, origin, target_type, comment, disable })
    }
}

/// The kinds of notification target.
#[derive(Debug, Clone, Copy, PartialEq, Eq, Structural)]
pub enum TargetType {
    SendMail,
    Gotify,
}

impl WireName for TargetType {
    open spec fn spec_from_wire(s: Seq<char>) -> Option<TargetType> {
        if s == "sendmail"@ {
            Some(TargetType::SendMail)
        } else if s == "gotify"@ {
            Some(TargetType::Gotify)
        } else {
            None
        }
    }

    fn from_wire(s: &str) -> (r: Option<TargetType>) {
        if str_equal(s, "sendmail") {
            Some(TargetType::SendMail)
        } else if str_equal(s, "gotify") {
            Some(TargetType::Gotify)
        } else {
            None
        }
    }
}

} // verus!
