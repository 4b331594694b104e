use vstd::prelude::*;

verus! {

/// What an audit event records.
#[derive(Clone, Debug)]
pub enum AuditKind {
    ValidationSuccess,
    ValidationFailed { reason: String },
    RoutingAllowed { label: String },
    RoutingDenied { reason: String },
}

/// Mathematical model of an [`AuditKind`]: the variant and its text.
pub ghost enum AuditEntry {
    ValidationSuccess,
    ValidationFailed(Seq<char>),
    RoutingAllowed(Seq<char>),
    RoutingDenied(Seq<char>),
}

impl View for AuditKind {
    type V = AuditEntry;

    open spec fn view(&self) -> AuditEntry {
        match self {
            AuditKind::ValidationSuccess => AuditEntry::ValidationSuccess,
            AuditKind::ValidationFailed { reason } => AuditEntry::ValidationFailed(reason@),
            AuditKind::RoutingAllowed { label } => AuditEntry::RoutingAllowed(label@),
            AuditKind::RoutingDenied { reason } => AuditEntry::RoutingDenied(reason@),
        }
    }
}

/// One append-only audit record. Identifiers are UUIDs as 128-bit integers; the
/// timestamp counts microseconds since the Unix epoch, UTC.
#[derive(Clone, Debug)]
pub struct AuditEvent {
    pub event_id: u128,
    pub session_id: u128,
    pub timestamp_utc: i64,
    pub kind: AuditKind,
}

/// Relies on uuid::Uuid::new_v4 (and Uuid::as_u128): a fresh random identifier.
/// Nothing is known of its value.
#[verifier::external_body]
fn fresh_uuid() -> (r: u128) {
    uuid::Uuid::new_v4().as_u128()
}

/// Relies on chrono's `From<SystemTime> for DateTime<Utc>` (and
/// DateTime::timestamp_micros): the current time, also when the clock reads
/// before the Unix epoch. Nothing is known of its value.
#[verifier::external_body]
fn now_utc_micros() -> (r: i64) {
    chrono::DateTime::<chrono::Utc>::from(std::time::SystemTime::now()).timestamp_micros()
}

impl AuditEvent {
    pub fn validation_success() -> (r: Self)
        ensures
            r.kind@ == AuditEntry::ValidationSuccess,
    {
        Self::simple(AuditKind::ValidationSuccess)
    }

    pub fn validation_failed(reason: &str) -> (r: Self)
        ensures
            r.kind@ == AuditEntry::ValidationFailed(reason@),
    {
        Self::simple(AuditKind::ValidationFailed { reason: reason.to_owned() })
    }

    pub fn routing_allowed(label: &str) -> (r: Self)
        ensures
            r.kind@ == AuditEntry::RoutingAllowed(label@),
    {
        Self::simple(AuditKind::RoutingAllowed { label: label.to_owned() })
    }

    pub fn routing_denied(reason: &str) -> (r: Self)
        ensures
            r.kind@ == AuditEntry::RoutingDenied(reason@),
    {
        Self::simple(AuditKind::RoutingDenied { reason: reason.to_owned() })
    }

    /// A fresh event of the given kind, stamped with new identifiers and the time now.
    fn simple(kind: AuditKind) -> (r: Self)
        ensures
            r.kind == kind,
    {
        AuditEvent {
            event_id: fresh_uuid(),
            session_id: fresh_uuid(),
            timestamp_utc: now_utc_micros(),
            kind,
        }
    }
}

/// `after` is `before` with one more event, whose kind is `entry`.
pub open spec fn appended(before: Seq<AuditEvent>, after: Seq<AuditEvent>, entry: AuditEntry) -> bool {
    after == before.push(after.last()) && after.last().kind@ == entry
}

/// Append-only receiver of audit events.
pub trait AuditSink {
    /// The events recorded so far, oldest first.
    spec fn recorded(&self) -> Seq<AuditEvent>;

    /// Appends `event` unchanged; earlier events stay as they were.
    fn record(&mut self, event: AuditEvent)
        ensures
            final(self).recorded() == old(self).recorded().push(event),
    ;
}

/// Audit sink that keeps every event in memory.
pub struct InMemoryAuditSink {
    pub events: Vec<AuditEvent>,
}

impl InMemoryAuditSink {
    pub fn new() -> (r: Self)
        ensures
            r.events@.len() == 0,
            r.recorded().len() == 0,
    {
        InMemoryAuditSink { events: Vec::new() }
    }
}

impl AuditSink for InMemoryAuditSink {
    open spec fn recorded(&self) -> Seq<AuditEvent> {
        self.events@
    }

    fn record(&mut self, event: AuditEvent) {
        self.events.push(event);
    }
}

} // verus!
