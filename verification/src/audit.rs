//! Audit events: what happened, how severe, who did it and to which map.
//! Callers keep secrets out of the message and detail.
use vstd::prelude::*;
use crate::text::owned;

verus! {

#[derive(Clone, Copy, Debug, PartialEq, Eq, Structural)]
pub enum Severity {
    Info,
    Warn,
    Error,
    Success,
}

pub open spec fn severity_label(s: Severity) -> Seq<char> {
    match s {
        Severity::Info => "info"@,
        Severity::Warn => "warn"@,
        Severity::Error => "error"@,
        Severity::Success => "success"@,
    }
}

impl Severity {
    /// The severity as stored in the activity log.
    pub fn as_str(&self) -> (res: &'static str)
        ensures
            res@ == severity_label(*self),
    {
        match self {
            Severity::Info => "info",
            Severity::Warn => "warn",
            Severity::Error => "error",
            Severity::Success => "success",
        }
    }
}

/// One audit event.
#[derive(Clone, Debug)]
pub struct AuditEvent {
    pub severity: Severity,
    pub source: String,
    pub actor: String,
    pub target_map: String,
    pub message: String,
    pub detail: String,
}

impl AuditEvent {
    /// An event by the manager itself, with no target and no detail.
    pub fn new(severity: Severity, source: &str, message: &str) -> (res: Self)
        ensures
            res.severity == severity,
            res.source@ == source@,
            res.actor@ == "rust-manager"@,
            res.target_map@.len() == 0,
            res.message@ == message@,
            res.detail@.len() == 0,
    {
        let r = AuditEvent {
            severity,
            source: owned(source),
            actor: owned("rust-manager"),
            target_map: String::new(),
            message: owned(message),
            detail: String::new(),
        };
        r
    }

    /// The event with `detail` as its detail.
    pub fn detail(self, detail: &str) -> (res: Self)
        ensures
            res.detail@ == detail@,
            res.severity == self.severity,
            res.source == self.source,
            res.actor == self.actor,
            res.target_map == self.target_map,
            res.message == self.message,
    {
        let mut e = self;
        e.detail = owned(detail);
        e
    }

    /// The event with `actor` as its actor.
    pub fn actor(self, actor: &str) -> (res: Self)
        ensures
            res.actor@ == actor@,
            res.severity == self.severity,
            res.source == self.source,
            res.detail == self.detail,
            res.target_map == self.target_map,
            res.message == self.message,
    {
        let mut e = self;
        e.actor = owned(actor);
        e
    }

    /// The event with `target` as its target map.
    pub fn target(self, target: &str) -> (res: Self)
        ensures
            res.target_map@ == target@,
            res.severity == self.severity,
            res.source == self.source,
            res.actor == self.actor,
            res.detail == self.detail,
            res.message == self.message,
    {
        let mut e = self;
        e.target_map = owned(target);
        e
    }
}

} // verus!
