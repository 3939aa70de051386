//! Terminal session lifecycle boundary.
//!
//! Sessions bind a principal, authority bitmap, trace context, and bounded
//! history of security-relevant events. The state machine fails closed for
//! closed, locked, or not-yet-open sessions, and a refused transition leaves
//! the session exactly as it was.

use vstd::prelude::*;

use crate::commands::{CommandContext, MAX_COMMAND_NAME_LEN};
use crate::{
    empty_trace, label_outcome, redaction_outcome, rights_include, rights_known,
    validate_redaction, validate_terminal_label, DataClass, RedactionState, TerminalError,
    TerminalResult, TerminalRights, TraceContext, TERMINAL_RIGHT_AUDIT, TERMINAL_RIGHT_EXECUTE,
};

verus! {

/// Session descriptor schema version.
pub const SESSION_SCHEMA_VERSION: &'static str = "alani-terminal.session.v1";
/// Maximum session label length.
pub const MAX_SESSION_LABEL_LEN: usize = 64;
/// Maximum principal label length.
pub const MAX_PRINCIPAL_LABEL_LEN: usize = 128;
/// Default bounded history capacity for host-mode sessions.
pub const MAX_HISTORY: usize = 64;

/// Session operating mode.
#[derive(Clone, Copy, Debug, PartialEq, Eq, Structural)]
pub enum SessionMode {
    /// Human operator with command execution authority.
    Operator,
    /// Read-only inspection session.
    ReadOnly,
    /// Debug session for trusted development.
    Debug,
    /// Automation or scripted session.
    Automation,
    /// Guest session with minimal authority.
    Guest,
}

/// Session lifecycle state.
#[derive(Clone, Copy, Debug, PartialEq, Eq, Structural)]
pub enum SessionState {
    /// Session exists but is not accepting commands.
    New,
    /// Session accepts commands.
    Active,
    /// Session is locked until reauthorization.
    Locked,
    /// Session has been closed.
    Closed,
}

/// Principal family for terminal sessions.
#[derive(Clone, Copy, Debug, PartialEq, Eq, Structural)]
pub enum PrincipalKind {
    /// Human operator.
    Human,
    /// System service.
    Service,
    /// Agent or cognition process.
    Agent,
    /// Host-mode test principal.
    Test,
    /// Anonymous guest principal.
    Anonymous,
}

/// Principal identity metadata visible to the terminal.
#[derive(Clone, Copy, Debug, PartialEq, Eq)]
pub struct TerminalPrincipal<'a> {
    /// Principal family.
    pub kind: PrincipalKind,
    /// Stable principal label.
    pub label: &'a str,
}

impl<'a> TerminalPrincipal<'a> {
    /// A principal is valid when its label is a valid label of at most
    /// [`MAX_PRINCIPAL_LABEL_LEN`] bytes; any failure is an invalid session.
    pub open spec fn spec_validate(self) -> TerminalResult<()> {
        if label_outcome(self.label@, MAX_PRINCIPAL_LABEL_LEN as nat) is Err {
            Err(TerminalError::InvalidSession)
        } else {
            Ok(())
        }
    }

    /// Creates principal metadata.
    pub fn new(kind: PrincipalKind, label: &'a str) -> (r: Self)
        ensures
            r == (TerminalPrincipal { kind, label }),
    {
        TerminalPrincipal { kind, label }
    }

    /// Validates principal metadata.
    pub fn validate(self) -> (r: TerminalResult<()>)
        ensures
            r == self.spec_validate(),
    {
        match validate_terminal_label(self.label, MAX_PRINCIPAL_LABEL_LEN) {
            Ok(()) => Ok(()),
            Err(_) => Err(TerminalError::InvalidSession),
        }
    }
}

/// Session descriptor used when opening a terminal.
#[derive(Clone, Copy, Debug, PartialEq, Eq)]
pub struct SessionDescriptor<'a> {
    /// Stable session label.
    pub name: &'a str,
    /// Session schema version.
    pub schema: &'static str,
    /// Session mode.
    pub mode: SessionMode,
    /// Principal bound to the session.
    pub principal: TerminalPrincipal<'a>,
    /// Rights available to the session.
    pub rights: TerminalRights,
    /// Session metadata data class.
    pub data_class: DataClass,
    /// Session metadata redaction state.
    pub redaction: RedactionState,
    /// Whether session lifecycle changes must be audited.
    pub audit_required: bool,
    /// Trace context for the session.
    pub trace: TraceContext,
}

impl<'a> SessionDescriptor<'a> {
    /// The outcome of validating a session descriptor: a bad session label,
    /// an empty schema or a bad principal is an invalid session; the rights
    /// may hold only known bits; an audited session must hold the audit
    /// right; the redaction must suit the class; and the trace must validate.
    pub open spec fn spec_validate(self) -> TerminalResult<()> {
        if label_outcome(self.name@, MAX_SESSION_LABEL_LEN as nat) is Err {
            Err(TerminalError::InvalidSession)
        } else if self.schema@.len() == 0 {
            Err(TerminalError::InvalidSession)
        } else if self.principal.spec_validate() is Err {
            self.principal.spec_validate()
        } else if !rights_known(self.rights.0) {
            Err(TerminalError::ReservedBits)
        } else if self.audit_required && !rights_include(self.rights.0, TERMINAL_RIGHT_AUDIT) {
            Err(TerminalError::AuditRequired)
        } else if redaction_outcome(self.data_class, self.redaction) is Err {
            redaction_outcome(self.data_class, self.redaction)
        } else {
            self.trace.spec_validate()
        }
    }

    /// Creates a session descriptor.
    pub fn new(
        name: &'a str,
        mode: SessionMode,
        principal: TerminalPrincipal<'a>,
        rights: TerminalRights,
    ) -> (r: Self)
        ensures
            r == (SessionDescriptor {
                name,
                schema: SESSION_SCHEMA_VERSION,
                mode,
                principal,
                rights,
                data_class: DataClass::Operational,
                redaction: RedactionState::Operational,
                audit_required: false,
                trace: empty_trace(),
            }),
    {
        SessionDescriptor {
            name,
            schema: SESSION_SCHEMA_VERSION,
            mode,
            principal,
            rights,
            data_class: DataClass::Operational,
            redaction: RedactionState::Operational,
            audit_required: false,
            trace: TraceContext::empty(),
        }
    }

    /// Marks session lifecycle changes as audit-required.
    pub fn with_audit_required(self) -> (r: Self)
        ensures
            r == (SessionDescriptor { audit_required: true, ..self }),
    {
        let mut d = self;
        d.audit_required = true;
        d
    }

    /// Overrides classification and redaction metadata.
    pub fn with_data(self, data_class: DataClass, redaction: RedactionState) -> (r: Self)
        ensures
            r == (SessionDescriptor { data_class, redaction, ..self }),
    {
        let mut d = self;
        d.data_class = data_class;
        d.redaction = redaction;
        d
    }

    /// Attaches trace metadata.
    pub fn with_trace(self, trace: TraceContext) -> (r: Self)
        ensures
            r == (SessionDescriptor { trace, ..self }),
    {
        let mut d = self;
        d.trace = trace;
        d
    }

    /// Validates session descriptor metadata.
    pub fn validate(self) -> (r: TerminalResult<()>)
        ensures
            r == self.spec_validate(),
    {
        if validate_terminal_label(self.name, MAX_SESSION_LABEL_LEN).is_err() {
            return Err(TerminalError::InvalidSession);
        }
        if self.schema.is_empty() {
            return Err(TerminalError::InvalidSession);
        }
        let pv = self.principal.validate();
        if pv.is_err() {
            return pv;
        }
        let rv = self.rights.validate();
        if rv.is_err() {
            return rv;
        }
        if self.audit_required && !self.rights.contains(TerminalRights::audit()) {
            return Err(TerminalError::AuditRequired);
        }
        let dv = validate_redaction(self.data_class, self.redaction);
        if dv.is_err() {
            return dv;
        }
        self.trace.validate()
    }
}

/// Session event kind recorded in bounded history.
#[derive(Clone, Copy, Debug, PartialEq, Eq, Structural)]
pub enum SessionEventKind {
    /// Session opened.
    Opened,
    /// Command accepted by the session.
    CommandAccepted,
    /// Command denied by the session.
    CommandDenied,
    /// Command completed after dispatch.
    CommandCompleted,
    /// Session locked.
    Locked,
    /// Session unlocked.
    Unlocked,
    /// Session closed.
    Closed,
}

/// Session lifecycle event.
#[derive(Clone, Copy, Debug, PartialEq, Eq)]
pub struct SessionEvent<'a> {
    /// Event kind.
    pub kind: SessionEventKind,
    /// Command name or lifecycle label.
    pub command: &'a str,
    /// Monotonic event counter within the session.
    pub counter: u64,
    /// Whether this event must be represented in audit evidence.
    pub requires_audit: bool,
    /// Trace context for the event.
    pub trace: TraceContext,
}

impl<'a> SessionEvent<'a> {
    /// The outcome of validating an event: the command must be a valid
    /// command label, the counter non-zero, and the trace valid.
    pub open spec fn spec_validate(self) -> TerminalResult<()> {
        if label_outcome(self.command@, MAX_COMMAND_NAME_LEN as nat) is Err {
            label_outcome(self.command@, MAX_COMMAND_NAME_LEN as nat)
        } else if self.counter == 0 {
            Err(TerminalError::InvalidSession)
        } else {
            self.trace.spec_validate()
        }
    }

    /// Creates a session event.
    pub fn new(
        kind: SessionEventKind,
        command: &'a str,
        counter: u64,
        requires_audit: bool,
        trace: TraceContext,
    ) -> (r: Self)
        ensures
            r == (SessionEvent { kind, command, counter, requires_audit, trace }),
    {
        SessionEvent { kind, command, counter, requires_audit, trace }
    }

    /// Validates session event metadata.
    pub fn validate(self) -> (r: TerminalResult<()>)
        ensures
            r == self.spec_validate(),
    {
        let lv = validate_terminal_label(self.command, MAX_COMMAND_NAME_LEN);
        if lv.is_err() {
            return lv;
        }
        if self.counter == 0 {
            return Err(TerminalError::InvalidSession);
        }
        self.trace.validate()
    }
}

/// A session as a mathematical value.
pub ghost struct SessionModel<'a> {
    pub session_id: u64,
    pub descriptor: SessionDescriptor<'a>,
    pub state: SessionState,
    pub events: Seq<SessionEvent<'a>>,
}

/// The outcome of appending an event to a history of capacity `cap`: the
/// history must have room, the event (numbered one past the history's
/// length) must validate, and an audited event needs the audit right.
pub open spec fn append_outcome<'a>(
    m: SessionModel<'a>,
    cap: nat,
    kind: SessionEventKind,
    command: &'a str,
    requires_audit: bool,
    trace: TraceContext,
) -> TerminalResult<SessionModel<'a>> {
    let event = SessionEvent {
        kind,
        command,
        counter: (m.events.len() + 1) as u64,
        requires_audit,
        trace,
    };
    if m.events.len() >= cap {
        Err(TerminalError::CapacityExceeded)
    } else if event.spec_validate() is Err {
        Err(event.spec_validate()->Err_0)
    } else if requires_audit && !rights_include(m.descriptor.rights.0, TERMINAL_RIGHT_AUDIT) {
        Err(TerminalError::AuditRequired)
    } else {
        Ok(SessionModel { events: m.events.push(event), ..m })
    }
}

/// The same outcome with the state set to `state` on success.
pub open spec fn transition_outcome<'a>(
    m: SessionModel<'a>,
    cap: nat,
    kind: SessionEventKind,
    command: &'a str,
    requires_audit: bool,
    trace: TraceContext,
    state: SessionState,
) -> TerminalResult<SessionModel<'a>> {
    match append_outcome(m, cap, kind, command, requires_audit, trace) {
        Ok(n) => Ok(SessionModel { state, ..n }),
        Err(e) => Err(e),
    }
}

/// Commands are accepted only by an active session: a closed one answers
/// that it is closed, a new or locked one that the state is wrong.
pub open spec fn active_outcome(state: SessionState) -> TerminalResult<()> {
    match state {
        SessionState::Active => Ok(()),
        SessionState::Closed => Err(TerminalError::SessionClosed),
        _ => Err(TerminalError::InvalidState),
    }
}

/// Opening is allowed only from the new state, with a valid trace; it records
/// an `Opened` event (audited when the session is) and activates the session.
pub open spec fn open_outcome<'a>(m: SessionModel<'a>, cap: nat, trace: TraceContext) -> TerminalResult<
    SessionModel<'a>,
> {
    if m.state != SessionState::New {
        Err(TerminalError::InvalidState)
    } else if trace.spec_validate() is Err {
        Err(trace.spec_validate()->Err_0)
    } else {
        transition_outcome(
            m,
            cap,
            SessionEventKind::Opened,
            "session",
            m.descriptor.audit_required,
            trace,
            SessionState::Active,
        )
    }
}

/// Recording a command needs an active session, and an audited record needs
/// a session holding the audit right; it records an accepted or denied event.
pub open spec fn record_outcome<'a>(
    m: SessionModel<'a>,
    cap: nat,
    command: &'a str,
    accepted: bool,
    requires_audit: bool,
    trace: TraceContext,
) -> TerminalResult<SessionModel<'a>> {
    if active_outcome(m.state) is Err {
        Err(active_outcome(m.state)->Err_0)
    } else if requires_audit && !rights_include(m.descriptor.rights.0, TERMINAL_RIGHT_AUDIT) {
        Err(TerminalError::AuditRequired)
    } else {
        append_outcome(
            m,
            cap,
            if accepted {
                SessionEventKind::CommandAccepted
            } else {
                SessionEventKind::CommandDenied
            },
            command,
            requires_audit,
            trace,
        )
    }
}

/// Completing a command needs an active session; it records an unaudited
/// completion event.
pub open spec fn complete_outcome<'a>(
    m: SessionModel<'a>,
    cap: nat,
    command: &'a str,
    trace: TraceContext,
) -> TerminalResult<SessionModel<'a>> {
    if active_outcome(m.state) is Err {
        Err(active_outcome(m.state)->Err_0)
    } else {
        append_outcome(m, cap, SessionEventKind::CommandCompleted, command, false, trace)
    }
}

/// Locking needs an active session; it records a `Locked` event and locks.
pub open spec fn lock_outcome<'a>(m: SessionModel<'a>, cap: nat, trace: TraceContext) -> TerminalResult<
    SessionModel<'a>,
> {
    if active_outcome(m.state) is Err {
        Err(active_outcome(m.state)->Err_0)
    } else {
        transition_outcome(
            m,
            cap,
            SessionEventKind::Locked,
            "session",
            m.descriptor.audit_required,
            trace,
            SessionState::Locked,
        )
    }
}

/// Unlocking needs a locked (not closed) session and reauthorization rights
/// that include execute, and the audit right for an audited session; it
/// records an `Unlocked` event and reactivates the session.
pub open spec fn unlock_outcome<'a>(
    m: SessionModel<'a>,
    cap: nat,
    rights: TerminalRights,
    trace: TraceContext,
) -> TerminalResult<SessionModel<'a>> {
    if m.state == SessionState::Closed {
        Err(TerminalError::SessionClosed)
    } else if m.state != SessionState::Locked {
        Err(TerminalError::InvalidState)
    } else if rights.spec_require(TerminalRights(TERMINAL_RIGHT_EXECUTE)) is Err {
        Err(rights.spec_require(TerminalRights(TERMINAL_RIGHT_EXECUTE))->Err_0)
    } else if m.descriptor.audit_required && !rights_include(rights.0, TERMINAL_RIGHT_AUDIT) {
        Err(TerminalError::AuditRequired)
    } else {
        transition_outcome(
            m,
            cap,
            SessionEventKind::Unlocked,
            "session",
            m.descriptor.audit_required,
            trace,
            SessionState::Active,
        )
    }
}

/// Closing needs an opened session that is not already closed; it records a
/// `Closed` event and closes.
pub open spec fn close_outcome<'a>(m: SessionModel<'a>, cap: nat, trace: TraceContext) -> TerminalResult<
    SessionModel<'a>,
> {
    if m.state == SessionState::Closed {
        Err(TerminalError::SessionClosed)
    } else if m.state == SessionState::New {
        Err(TerminalError::InvalidState)
    } else {
        transition_outcome(
            m,
            cap,
            SessionEventKind::Closed,
            "session",
            m.descriptor.audit_required,
            trace,
            SessionState::Closed,
        )
    }
}

/// Whether the session answered `r` to an operation whose outcome is `o`:
/// on success the session became the outcome, on failure it is unchanged.
pub open spec fn applied<'a>(
    o: TerminalResult<SessionModel<'a>>,
    r: TerminalResult<()>,
    before: SessionModel<'a>,
    after: SessionModel<'a>,
) -> bool {
    match r {
        Ok(()) => o == Ok::<SessionModel<'a>, TerminalError>(after),
        Err(e) => o == Err::<SessionModel<'a>, TerminalError>(e) && after == before,
    }
}

/// A well-formed session history of capacity `cap`: a non-zero identifier
/// and a valid descriptor; at most `cap` events, the `i`-th numbered `i + 1`,
/// each valid, and audited events only when the session holds the audit
/// right.
pub open spec fn history_ok<'a>(m: SessionModel<'a>, cap: nat) -> bool {
    &&& m.session_id != 0
    &&& m.descriptor.spec_validate() is Ok
    &&& m.events.len() <= cap
    &&& forall|i: int| 0 <= i < m.events.len() ==> (#[trigger] m.events[i]).counter == i + 1
    &&& forall|i: int| 0 <= i < m.events.len() ==> (#[trigger] m.events[i]).spec_validate() is Ok
    &&& forall|i: int|
        0 <= i < m.events.len() && (#[trigger] m.events[i]).requires_audit ==> rights_include(
            m.descriptor.rights.0,
            TERMINAL_RIGHT_AUDIT,
        )
}

/// Fixed-capacity terminal session state.
#[derive(Clone, Debug, PartialEq, Eq)]
pub struct TerminalSession<'a, const N: usize> {
    /// Session identifier.
    pub session_id: u64,
    /// Session descriptor.
    pub descriptor: SessionDescriptor<'a>,
    /// Current lifecycle state.
    pub state: SessionState,
    events: Vec<SessionEvent<'a>>,
}

impl<'a, const N: usize> TerminalSession<'a, N> {
    /// The session as a mathematical value.
    pub closed spec fn model(&self) -> SessionModel<'a> {
        SessionModel {
            session_id: self.session_id,
            descriptor: self.descriptor,
            state: self.state,
            events: self.events@,
        }
    }

    /// The session invariant: a well-formed history, and the history is
    /// empty exactly while the session is new.
    pub open spec fn wf(&self) -> bool {
        &&& history_ok(self.model(), N as nat)
        &&& (self.model().state == SessionState::New <==> self.model().events.len() == 0)
    }

    /// Creates a new unopened terminal session.
    pub fn new(session_id: u64, descriptor: SessionDescriptor<'a>) -> (r: TerminalResult<Self>)
        ensures
            session_id == 0 ==> r == Err::<Self, TerminalError>(TerminalError::InvalidSession),
            session_id != 0 && descriptor.spec_validate() is Err ==> r == Err::<Self, TerminalError>(
                descriptor.spec_validate()->Err_0,
            ),
            session_id != 0 && descriptor.spec_validate() is Ok ==> r is Ok && r->Ok_0.wf()
                && r->Ok_0.model() == (SessionModel {
                session_id,
                descriptor,
                state: SessionState::New,
                events: Seq::empty(),
            }),
    {
        if session_id == 0 {
            return Err(TerminalError::InvalidSession);
        }
        if let Err(e) = descriptor.validate() {
            return Err(e);
        }
        Ok(TerminalSession { session_id, descriptor, state: SessionState::New, events: Vec::new() })
    }

    /// Returns the number of recorded session events.
    pub fn event_count(&self) -> (r: usize)
        ensures
            r == self.model().events.len(),
    {
        self.events.len()
    }

    /// Returns `true` when the session accepts commands.
    pub fn is_active(&self) -> (r: bool)
        ensures
            r == (self.model().state == SessionState::Active),
    {
        match self.state {
            SessionState::Active => true,
            _ => false,
        }
    }

    /// Returns a session event by index.
    pub fn event(&self, index: usize) -> (r: Option<SessionEvent<'a>>)
        ensures
            index >= self.model().events.len() ==> r is None,
            index < self.model().events.len() ==> r == Some(self.model().events[index as int]),
    {
        if index >= self.events.len() {
            None
        } else {
            Some(self.events[index])
        }
    }

    /// Opens the session and records an open event.
    pub fn open(&mut self, trace: TraceContext) -> (r: TerminalResult<()>)
        requires
            old(self).wf(),
        ensures
            final(self).wf(),
            applied(
                open_outcome(old(self).model(), N as nat, trace),
                r,
                old(self).model(),
                final(self).model(),
            ),
    {
        if self.state != SessionState::New {
            return Err(TerminalError::InvalidState);
        }
        if let Err(e) = trace.validate() {
            return Err(e);
        }
        let audit = self.descriptor.audit_required;
        if let Err(e) = self.push_event(SessionEventKind::Opened, "session", audit, trace) {
            return Err(e);
        }
        self.state = SessionState::Active;
        Ok(())
    }

    /// Records a command acceptance or denial event.
    pub fn record_command(
        &mut self,
        command: &'a str,
        accepted: bool,
        requires_audit: bool,
        trace: TraceContext,
    ) -> (r: TerminalResult<()>)
        requires
            old(self).wf(),
        ensures
            final(self).wf(),
            applied(
                record_outcome(old(self).model(), N as nat, command, accepted, requires_audit, trace),
                r,
                old(self).model(),
                final(self).model(),
            ),
    {
        if let Err(e) = self.require_active() {
            return Err(e);
        }
        if requires_audit && !self.descriptor.rights.contains(TerminalRights::audit()) {
            return Err(TerminalError::AuditRequired);
        }
        let kind = if accepted {
            SessionEventKind::CommandAccepted
        } else {
            SessionEventKind::CommandDenied
        };
        self.push_event(kind, command, requires_audit, trace)
    }

    /// Records command completion.
    pub fn complete_command(&mut self, command: &'a str, trace: TraceContext) -> (r: TerminalResult<
        (),
    >)
        requires
            old(self).wf(),
        ensures
            final(self).wf(),
            applied(
                complete_outcome(old(self).model(), N as nat, command, trace),
                r,
                old(self).model(),
                final(self).model(),
            ),
    {
        if let Err(e) = self.require_active() {
            return Err(e);
        }
        self.push_event(SessionEventKind::CommandCompleted, command, false, trace)
    }

    /// Locks an active session.
    pub fn lock(&mut self, trace: TraceContext) -> (r: TerminalResult<()>)
        requires
            old(self).wf(),
        ensures
            final(self).wf(),
            applied(
                lock_outcome(old(self).model(), N as nat, trace),
                r,
                old(self).model(),
                final(self).model(),
            ),
    {
        if let Err(e) = self.require_active() {
            return Err(e);
        }
        let audit = self.descriptor.audit_required;
        if let Err(e) = self.push_event(SessionEventKind::Locked, "session", audit, trace) {
            return Err(e);
        }
        self.state = SessionState::Locked;
        Ok(())
    }

    /// Unlocks a locked session after reauthorization.
    pub fn unlock(&mut self, rights: TerminalRights, trace: TraceContext) -> (r: TerminalResult<()>)
        requires
            old(self).wf(),
        ensures
            final(self).wf(),
            applied(
                unlock_outcome(old(self).model(), N as nat, rights, trace),
                r,
                old(self).model(),
                final(self).model(),
            ),
    {
        if self.state == SessionState::Closed {
            return Err(TerminalError::SessionClosed);
        }
        if self.state != SessionState::Locked {
            return Err(TerminalError::InvalidState);
        }
        if let Err(e) = rights.require(TerminalRights::execute()) {
            return Err(e);
        }
        if self.descriptor.audit_required && !rights.contains(TerminalRights::audit()) {
            return Err(TerminalError::AuditRequired);
        }
        let audit = self.descriptor.audit_required;
        if let Err(e) = self.push_event(SessionEventKind::Unlocked, "session", audit, trace) {
            return Err(e);
        }
        self.state = SessionState::Active;
        Ok(())
    }

    /// Closes an active or locked session.
    pub fn close(&mut self, trace: TraceContext) -> (r: TerminalResult<()>)
        requires
            old(self).wf(),
        ensures
            final(self).wf(),
            applied(
                close_outcome(old(self).model(), N as nat, trace),
                r,
                old(self).model(),
                final(self).model(),
            ),
    {
        if self.state == SessionState::Closed {
            return Err(TerminalError::SessionClosed);
        }
        if self.state == SessionState::New {
            return Err(TerminalError::InvalidState);
        }
        let audit = self.descriptor.audit_required;
        if let Err(e) = self.push_event(SessionEventKind::Closed, "session", audit, trace) {
            return Err(e);
        }
        self.state = SessionState::Closed;
        Ok(())
    }

    fn require_active(&self) -> (r: TerminalResult<()>)
        ensures
            r == active_outcome(self.model().state),
    {
        match self.state {
            SessionState::Active => Ok(()),
            SessionState::Closed => Err(TerminalError::SessionClosed),
            _ => Err(TerminalError::InvalidState),
        }
    }

    /// Creates a command context using the session descriptor rights.
    pub fn command_context(&self, trace: TraceContext) -> (r: TerminalResult<CommandContext>)
        ensures
            active_outcome(self.model().state) is Err ==> r == Err::<CommandContext, TerminalError>(
                active_outcome(self.model().state)->Err_0,
            ),
            active_outcome(self.model().state) is Ok && trace.spec_validate() is Err ==> r == Err::<
                CommandContext,
                TerminalError,
            >(trace.spec_validate()->Err_0),
            active_outcome(self.model().state) is Ok && trace.spec_validate() is Ok ==> r == Ok::<
                CommandContext,
                TerminalError,
            >(
                CommandContext {
                    session_id: self.model().session_id,
                    rights: self.model().descriptor.rights,
                    trace,
                    audit_ready: self.model().descriptor.audit_required,
                },
            ),
    {
        if let Err(e) = self.require_active() {
            return Err(e);
        }
        if let Err(e) = trace.validate() {
            return Err(e);
        }
        let context = CommandContext::new(self.session_id, self.descriptor.rights, trace);
        if self.descriptor.audit_required {
            Ok(context.with_audit_ready())
        } else {
            Ok(context)
        }
    }

    fn next_counter(&self) -> (r: u64)
        requires
            self.model().events.len() < N,
        ensures
            r == self.model().events.len() + 1,
    {
        self.events.len() as u64 + 1
    }

    fn push_event(
        &mut self,
        kind: SessionEventKind,
        command: &'a str,
        requires_audit: bool,
        trace: TraceContext,
    ) -> (r: TerminalResult<()>)
        requires
            history_ok(old(self).model(), N as nat),
        ensures
            history_ok(final(self).model(), N as nat),
            match append_outcome(old(self).model(), N as nat, kind, command, requires_audit, trace) {
                Ok(m) => r is Ok && final(self).model() == m,
                Err(e) => r == Err::<(), TerminalError>(e) && final(self).model() == old(self).model(),
            },
    {
        if self.events.len() >= N {
            return Err(TerminalError::CapacityExceeded);
        }
        let event = SessionEvent::new(kind, command, self.next_counter(), requires_audit, trace);
        if let Err(e) = event.validate() {
            return Err(e);
        }
        if event.requires_audit && !self.descriptor.rights.contains(TerminalRights::audit()) {
            return Err(TerminalError::AuditRequired);
        }
        let ghost before = self.events@;
        self.events.push(event);
        proof {
            assert forall|i: int| 0 <= i < self.events@.len() implies (#[trigger] self.events@[i]).counter == i + 1 by {
                if i < before.len() {
                    assert(self.events@[i] == before[i]);
                }
            }
        }
        Ok(())
    }
}


/// The lifecycle label `session` is a valid command label.
pub proof fn lemma_session_label()
    ensures
        label_outcome("session"@, MAX_COMMAND_NAME_LEN as nat) is Ok,
{
    reveal_strlit("session");
    crate::text::lemma_ascii_label("session"@, MAX_COMMAND_NAME_LEN as nat);
}

/// A closed session is final: every lifecycle operation is refused with
/// `SessionClosed` (opening, which needs a new session, with `InvalidState`),
/// and no command context is handed out.
pub proof fn law_closed_session_is_final<'a>(
    m: SessionModel<'a>,
    cap: nat,
    command: &'a str,
    accepted: bool,
    requires_audit: bool,
    rights: TerminalRights,
    trace: TraceContext,
)
    requires
        m.state == SessionState::Closed,
    ensures
        open_outcome(m, cap, trace) == Err::<SessionModel<'a>, TerminalError>(
            TerminalError::InvalidState,
        ),
        record_outcome(m, cap, command, accepted, requires_audit, trace) == Err::<
            SessionModel<'a>,
            TerminalError,
        >(TerminalError::SessionClosed),
        complete_outcome(m, cap, command, trace) == Err::<SessionModel<'a>, TerminalError>(
            TerminalError::SessionClosed,
        ),
        lock_outcome(m, cap, trace) == Err::<SessionModel<'a>, TerminalError>(
            TerminalError::SessionClosed,
        ),
        unlock_outcome(m, cap, rights, trace) == Err::<SessionModel<'a>, TerminalError>(
            TerminalError::SessionClosed,
        ),
        close_outcome(m, cap, trace) == Err::<SessionModel<'a>, TerminalError>(
            TerminalError::SessionClosed,
        ),
        active_outcome(m.state) == Err::<(), TerminalError>(TerminalError::SessionClosed),
{
}

/// Session history is append-only: a successful append adds exactly one
/// event, numbered one past the previous history, keeps every earlier event,
/// and changes nothing else; and it keeps a well-formed history well formed.
pub proof fn law_history_append_only<'a>(
    m: SessionModel<'a>,
    cap: nat,
    kind: SessionEventKind,
    command: &'a str,
    requires_audit: bool,
    trace: TraceContext,
)
    requires
        m.events.len() < u64::MAX,
    ensures
        append_outcome(m, cap, kind, command, requires_audit, trace) is Ok ==> {
            let n = append_outcome(m, cap, kind, command, requires_audit, trace)->Ok_0;
            &&& n.events.len() == m.events.len() + 1
            &&& n.events.subrange(0, m.events.len() as int) == m.events
            &&& n.events.last().counter == m.events.len() + 1
            &&& n.events.last().kind == kind
            &&& n.session_id == m.session_id
            &&& n.descriptor == m.descriptor
            &&& n.state == m.state
            &&& n.events.len() <= cap
            &&& (history_ok(m, cap) ==> history_ok(n, cap))
        },
{
    if append_outcome(m, cap, kind, command, requires_audit, trace) is Ok {
        let n = append_outcome(m, cap, kind, command, requires_audit, trace)->Ok_0;
        assert(n.events.subrange(0, m.events.len() as int) =~= m.events);
        if history_ok(m, cap) {
            assert forall|i: int| 0 <= i < n.events.len() implies (#[trigger] n.events[i]).counter
                == i + 1 by {
                if i < m.events.len() {
                    assert(n.events[i] == m.events[i]);
                }
            }
        }
    }
}

/// In a well-formed session the event counters strictly increase along the
/// history and the history never exceeds the session's capacity.
pub proof fn law_counters_increase<'a, const N: usize>(s: TerminalSession<'a, N>, i: int, j: int)
    requires
        s.wf(),
        0 <= i < j < s.model().events.len(),
    ensures
        s.model().events[i].counter < s.model().events[j].counter,
        s.model().events.len() <= N,
{
    assert(s.model().events[i].counter == i + 1);
    assert(s.model().events[j].counter == j + 1);
}

/// Locking an active session and then unlocking it with rights that hold
/// execute (and audit, for an audited session) returns it to the active
/// state with exactly two more events, provided the history has room and
/// both traces validate.
pub proof fn law_lock_then_unlock_reactivates<'a>(
    m: SessionModel<'a>,
    cap: nat,
    rights: TerminalRights,
    t1: TraceContext,
    t2: TraceContext,
)
    requires
        history_ok(m, cap),
        m.state == SessionState::Active,
        m.events.len() + 2 <= cap,
        m.events.len() + 2 < 0x1_0000_0000_0000_0000,
        t1.spec_validate() is Ok,
        t2.spec_validate() is Ok,
        rights.spec_require(TerminalRights(TERMINAL_RIGHT_EXECUTE)) is Ok,
        m.descriptor.audit_required ==> rights_include(rights.0, TERMINAL_RIGHT_AUDIT),
    ensures
        lock_outcome(m, cap, t1) is Ok,
        unlock_outcome(lock_outcome(m, cap, t1)->Ok_0, cap, rights, t2) is Ok,
        ({
            let after = unlock_outcome(lock_outcome(m, cap, t1)->Ok_0, cap, rights, t2)->Ok_0;
            after.state == SessionState::Active && after.events.len() == m.events.len() + 2
        }),
{
    lemma_session_label();
    reveal_strlit("session");
    let locked = lock_outcome(m, cap, t1)->Ok_0;
    assert(locked.events.len() == m.events.len() + 1);
    assert(locked.state == SessionState::Locked);
    assert(locked.descriptor == m.descriptor);
}

/// Whether `n` is `m` with exactly one more event, of kind `kind`, naming
/// `command`, audited as `requires_audit` says and carrying `trace`, every
/// earlier event, the identifier and the descriptor kept as they were.
pub open spec fn appends_event<'a>(
    m: SessionModel<'a>,
    n: SessionModel<'a>,
    kind: SessionEventKind,
    command: &'a str,
    requires_audit: bool,
    trace: TraceContext,
) -> bool {
    &&& n.events.len() == m.events.len() + 1
    &&& n.events.subrange(0, m.events.len() as int) == m.events
    &&& n.events.last().kind == kind
    &&& n.events.last().command == command
    &&& n.events.last().requires_audit == requires_audit
    &&& n.events.last().trace == trace
    &&& n.session_id == m.session_id
    &&& n.descriptor == m.descriptor
}

proof fn lemma_append_shape<'a>(
    m: SessionModel<'a>,
    cap: nat,
    kind: SessionEventKind,
    command: &'a str,
    requires_audit: bool,
    trace: TraceContext,
)
    ensures
        append_outcome(m, cap, kind, command, requires_audit, trace) is Ok ==> {
            let n = append_outcome(m, cap, kind, command, requires_audit, trace)->Ok_0;
            appends_event(m, n, kind, command, requires_audit, trace) && n.state == m.state
        },
{
    if append_outcome(m, cap, kind, command, requires_audit, trace) is Ok {
        let n = append_outcome(m, cap, kind, command, requires_audit, trace)->Ok_0;
        assert(n.events.subrange(0, m.events.len() as int) =~= m.events);
    }
}

/// Each lifecycle operation that succeeds appends exactly one event of its
/// own kind and moves the session as the lifecycle says: opening (from new)
/// records `Opened` and activates; recording a command (in an active
/// session) records `CommandAccepted` when the command was accepted and
/// `CommandDenied` when it was not, with the caller's command, audit flag
/// and trace, and leaves the session active; completing records an
/// unaudited `CommandCompleted`; locking (from active) records `Locked` and
/// locks; unlocking (from locked) records `Unlocked` and reactivates; and
/// closing (from active or locked) records `Closed` and closes. Lifecycle
/// events name `session` and are audited exactly when the session is.
pub proof fn law_lifecycle_events<'a>(
    m: SessionModel<'a>,
    cap: nat,
    command: &'a str,
    accepted: bool,
    requires_audit: bool,
    rights: TerminalRights,
    trace: TraceContext,
)
    ensures
        open_outcome(m, cap, trace) is Ok ==> {
            let n = open_outcome(m, cap, trace)->Ok_0;
            &&& m.state == SessionState::New && n.state == SessionState::Active
            &&& appends_event(
                m,
                n,
                SessionEventKind::Opened,
                "session",
                m.descriptor.audit_required,
                trace,
            )
        },
        record_outcome(m, cap, command, accepted, requires_audit, trace) is Ok ==> {
            let n = record_outcome(m, cap, command, accepted, requires_audit, trace)->Ok_0;
            &&& m.state == SessionState::Active && n.state == SessionState::Active
            &&& accepted ==> appends_event(
                m,
                n,
                SessionEventKind::CommandAccepted,
                command,
                requires_audit,
                trace,
            )
            &&& !accepted ==> appends_event(
                m,
                n,
                SessionEventKind::CommandDenied,
                command,
                requires_audit,
                trace,
            )
        },
        complete_outcome(m, cap, command, trace) is Ok ==> {
            let n = complete_outcome(m, cap, command, trace)->Ok_0;
            &&& m.state == SessionState::Active && n.state == SessionState::Active
            &&& appends_event(m, n, SessionEventKind::CommandCompleted, command, false, trace)
        },
        lock_outcome(m, cap, trace) is Ok ==> {
            let n = lock_outcome(m, cap, trace)->Ok_0;
            &&& m.state == SessionState::Active && n.state == SessionState::Locked
            &&& appends_event(
                m,
                n,
                SessionEventKind::Locked,
                "session",
                m.descriptor.audit_required,
                trace,
            )
        },
        unlock_outcome(m, cap, rights, trace) is Ok ==> {
            let n = unlock_outcome(m, cap, rights, trace)->Ok_0;
            &&& m.state == SessionState::Locked && n.state == SessionState::Active
            &&& appends_event(
                m,
                n,
                SessionEventKind::Unlocked,
                "session",
                m.descriptor.audit_required,
                trace,
            )
        },
        close_outcome(m, cap, trace) is Ok ==> {
            let n = close_outcome(m, cap, trace)->Ok_0;
            &&& (m.state == SessionState::Active || m.state == SessionState::Locked)
            &&& n.state == SessionState::Closed
            &&& appends_event(
                m,
                n,
                SessionEventKind::Closed,
                "session",
                m.descriptor.audit_required,
                trace,
            )
        },
{
    let audit = m.descriptor.audit_required;
    lemma_append_shape(m, cap, SessionEventKind::Opened, "session", audit, trace);
    lemma_append_shape(m, cap, SessionEventKind::CommandAccepted, command, requires_audit, trace);
    lemma_append_shape(m, cap, SessionEventKind::CommandDenied, command, requires_audit, trace);
    lemma_append_shape(m, cap, SessionEventKind::CommandCompleted, command, false, trace);
    lemma_append_shape(m, cap, SessionEventKind::Locked, "session", audit, trace);
    lemma_append_shape(m, cap, SessionEventKind::Unlocked, "session", audit, trace);
    lemma_append_shape(m, cap, SessionEventKind::Closed, "session", audit, trace);
}

/// What a successful lifecycle operation guarantees of its inputs: the
/// history had room and the new event carries a valid trace and a valid
/// command label; an audited command record needs a session holding the
/// audit right; and unlocking needs known rights that include execute, and
/// also audit when the session is audited.
pub proof fn law_lifecycle_guards<'a>(
    m: SessionModel<'a>,
    cap: nat,
    command: &'a str,
    accepted: bool,
    requires_audit: bool,
    rights: TerminalRights,
    trace: TraceContext,
)
    ensures
        open_outcome(m, cap, trace) is Ok ==> m.events.len() < cap && trace.spec_validate() is Ok,
        record_outcome(m, cap, command, accepted, requires_audit, trace) is Ok ==> {
            &&& m.events.len() < cap
            &&& trace.spec_validate() is Ok
            &&& label_outcome(command@, MAX_COMMAND_NAME_LEN as nat) is Ok
            &&& requires_audit ==> rights_include(m.descriptor.rights.0, TERMINAL_RIGHT_AUDIT)
        },
        complete_outcome(m, cap, command, trace) is Ok ==> {
            &&& m.events.len() < cap
            &&& trace.spec_validate() is Ok
            &&& label_outcome(command@, MAX_COMMAND_NAME_LEN as nat) is Ok
        },
        lock_outcome(m, cap, trace) is Ok ==> m.events.len() < cap && trace.spec_validate() is Ok,
        unlock_outcome(m, cap, rights, trace) is Ok ==> {
            &&& m.events.len() < cap
            &&& trace.spec_validate() is Ok
            &&& rights_known(rights.0)
            &&& rights_include(rights.0, TERMINAL_RIGHT_EXECUTE)
            &&& m.descriptor.audit_required ==> rights_include(rights.0, TERMINAL_RIGHT_AUDIT)
        },
        close_outcome(m, cap, trace) is Ok ==> m.events.len() < cap && trace.spec_validate() is Ok,
{
}

} // verus!
