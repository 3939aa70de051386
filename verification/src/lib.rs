//! Interactive shell and CLI contracts for Alani diagnostics and demos.
//!
//! `alani-terminal` owns command registration, command-line parsing, terminal
//! sessions, and output formatting. Every operation states in its contract
//! exactly which inputs it accepts and which error it answers otherwise, and
//! the library's cross-cutting promises (fail-closed authority checks,
//! redaction, bounded history, parser safety) are proved as lemmas.

use vstd::prelude::*;

pub mod text;
pub mod commands;
pub mod format;
pub mod parser;
pub mod session;

pub use commands::{
    BuiltinCommand, Command, CommandArgument, CommandContext, CommandDescriptor, CommandKind,
    CommandRegistry, CommandRequest, CommandResultRecord, CommandStatus, COMMANDS_SCHEMA_VERSION,
    MAX_COMMANDS, MAX_COMMAND_ARGS, MAX_COMMAND_ARGUMENT_LEN, MAX_COMMAND_NAME_LEN,
    MAX_COMMAND_OUTPUT_LEN,
};
pub use format::{
    format_command_result, format_record, DiagnosticRecord, FormatDescriptor, FormatStyle,
    FormattedOutput, OutputFormat, Severity, FORMAT_SCHEMA_VERSION, MAX_DIAGNOSTIC_MESSAGE_LEN,
    MAX_FORMAT_LABEL_LEN, MAX_FORMAT_WIDTH,
};
pub use parser::{
    contains_sensitive_literal, parse_command, parse_script, ParsePolicy, ParsedCommand,
    ParserDescriptor, ScriptPlan, Token, TokenKind, MAX_INPUT_LEN, MAX_SCRIPT_LINES, MAX_TOKENS,
    MAX_TOKEN_LEN, PARSER_SCHEMA_VERSION,
};
pub use session::{
    PrincipalKind, SessionDescriptor, SessionEvent, SessionEventKind, SessionMode, SessionState,
    TerminalPrincipal, TerminalSession, MAX_HISTORY, MAX_PRINCIPAL_LABEL_LEN,
    MAX_SESSION_LABEL_LEN, SESSION_SCHEMA_VERSION,
};


use crate::text::{is_label_byte, is_label_byte_exec, utf8_len};
use vstd::utf8::encode_utf8;

verus! {

/// Repository name.
pub const REPOSITORY: &'static str = "alani-terminal";

/// Crate version.
pub const VERSION: &'static str = "0.1.0";

/// Feature bit for command descriptors and registries.
pub const TERMINAL_FEATURE_COMMANDS: u64 = 1 << 0;
/// Feature bit for shell input parsing.
pub const TERMINAL_FEATURE_PARSER: u64 = 1 << 1;
/// Feature bit for session lifecycle tracking.
pub const TERMINAL_FEATURE_SESSION: u64 = 1 << 2;
/// Feature bit for diagnostic output formatting.
pub const TERMINAL_FEATURE_FORMAT: u64 = 1 << 3;
/// Feature bit for scripting-oriented command arguments.
pub const TERMINAL_FEATURE_SCRIPTING: u64 = 1 << 4;
/// Feature bit for trace-view commands.
pub const TERMINAL_FEATURE_TRACE_VIEW: u64 = 1 << 5;
/// Feature bit for cognition experiment command surfaces.
pub const TERMINAL_FEATURE_COGNITION_RUN: u64 = 1 << 6;
/// Feature bit for service-control command surfaces.
pub const TERMINAL_FEATURE_SERVICE_CONTROL: u64 = 1 << 7;
/// Feature bit for data classification and redaction validation.
pub const TERMINAL_FEATURE_REDACTION: u64 = 1 << 8;

/// All terminal feature bits known by this crate version.
pub const TERMINAL_KNOWN_FEATURES: u64 = TERMINAL_FEATURE_COMMANDS | TERMINAL_FEATURE_PARSER
    | TERMINAL_FEATURE_SESSION | TERMINAL_FEATURE_FORMAT | TERMINAL_FEATURE_SCRIPTING
    | TERMINAL_FEATURE_TRACE_VIEW | TERMINAL_FEATURE_COGNITION_RUN
    | TERMINAL_FEATURE_SERVICE_CONTROL | TERMINAL_FEATURE_REDACTION;

/// Caller may inspect terminal and runtime state.
pub const TERMINAL_RIGHT_READ: u64 = 1 << 0;
/// Caller may execute ordinary terminal commands.
pub const TERMINAL_RIGHT_EXECUTE: u64 = 1 << 1;
/// Caller may control services.
pub const TERMINAL_RIGHT_SERVICE_CONTROL: u64 = 1 << 2;
/// Caller may run debug commands.
pub const TERMINAL_RIGHT_DEBUG: u64 = 1 << 3;
/// Caller may run cognition experiments.
pub const TERMINAL_RIGHT_COGNITION: u64 = 1 << 4;
/// Caller may render or export formatted output.
pub const TERMINAL_RIGHT_FORMAT: u64 = 1 << 5;
/// Caller may inspect trace events.
pub const TERMINAL_RIGHT_TRACE_READ: u64 = 1 << 6;
/// Caller may emit or preserve audit evidence.
pub const TERMINAL_RIGHT_AUDIT: u64 = 1 << 7;
/// Caller has administrative terminal authority.
pub const TERMINAL_RIGHT_ADMIN: u64 = 1 << 8;

/// All terminal rights known by this crate version.
pub const TERMINAL_KNOWN_RIGHTS: u64 = TERMINAL_RIGHT_READ | TERMINAL_RIGHT_EXECUTE
    | TERMINAL_RIGHT_SERVICE_CONTROL | TERMINAL_RIGHT_DEBUG | TERMINAL_RIGHT_COGNITION
    | TERMINAL_RIGHT_FORMAT | TERMINAL_RIGHT_TRACE_READ | TERMINAL_RIGHT_AUDIT
    | TERMINAL_RIGHT_ADMIN;

/// Trace flag indicating the terminal event was sampled.
pub const TRACE_FLAG_SAMPLED: u32 = 1 << 0;
/// Trace flag indicating debug metadata may be attached by a trusted sink.
pub const TRACE_FLAG_DEBUG: u32 = 1 << 1;
/// Trace flag indicating an interactive trust boundary was crossed.
pub const TRACE_FLAG_INTERACTIVE_BOUNDARY: u32 = 1 << 2;
/// Trace flag indicating audit evidence must be preserved.
pub const TRACE_FLAG_AUDIT_REQUIRED: u32 = 1 << 3;

/// Trace flags known by this crate version.
pub const TRACE_KNOWN_FLAGS: u32 = TRACE_FLAG_SAMPLED | TRACE_FLAG_DEBUG
    | TRACE_FLAG_INTERACTIVE_BOUNDARY | TRACE_FLAG_AUDIT_REQUIRED;

/// Result alias for terminal validation and host-mode operations.
pub type TerminalResult<T> = Result<T, TerminalError>;

/// Error taxonomy for command, parser, session, and formatting contracts.
#[derive(Clone, Copy, Debug, PartialEq, Eq, Structural)]
pub enum TerminalError {
    /// A required field was empty or omitted.
    MissingField,
    /// A bounded field exceeded its documented maximum length.
    FieldTooLong,
    /// A stable label contained a disallowed character.
    InvalidLabel,
    /// Unknown feature, flag, right, or option bits were supplied.
    ReservedBits,
    /// Command descriptor metadata failed validation.
    InvalidCommand,
    /// Requested command was not registered.
    UnknownCommand,
    /// Command argument metadata failed validation.
    InvalidArgument,
    /// Command input could not be parsed safely.
    ParseError,
    /// Parser descriptor or policy failed validation.
    InvalidParser,
    /// Session descriptor or identifier failed validation.
    InvalidSession,
    /// Operation attempted to use a closed session.
    SessionClosed,
    /// Formatter descriptor or output metadata failed validation.
    InvalidFormat,
    /// Caller lacks required terminal authority.
    AccessDenied,
    /// Audit evidence is required but not authorized or available.
    AuditRequired,
    /// Operation attempted to mutate a sealed registry.
    Sealed,
    /// Fixed-capacity collection is full.
    CapacityExceeded,
    /// Duplicate entry was supplied.
    Duplicate,
    /// State machine transition is not allowed.
    InvalidState,
    /// Trace context was malformed.
    InvalidTrace,
    /// Redaction state is incompatible with data classification.
    InvalidRedaction,
    /// Sensitive input literal was rejected by policy.
    SensitiveInput,
    /// Sensitive output would be exposed without redaction.
    SensitiveOutput,
    /// Internal invariant failed.
    Internal,
}

/// The stable reason label of each error.
pub open spec fn error_reason(e: TerminalError) -> Seq<char> {
    match e {
        TerminalError::MissingField => "missing_field"@,
        TerminalError::FieldTooLong => "field_too_long"@,
        TerminalError::InvalidLabel => "invalid_label"@,
        TerminalError::ReservedBits => "reserved_bits"@,
        TerminalError::InvalidCommand => "invalid_command"@,
        TerminalError::UnknownCommand => "unknown_command"@,
        TerminalError::InvalidArgument => "invalid_argument"@,
        TerminalError::ParseError => "parse_error"@,
        TerminalError::InvalidParser => "invalid_parser"@,
        TerminalError::InvalidSession => "invalid_session"@,
        TerminalError::SessionClosed => "session_closed"@,
        TerminalError::InvalidFormat => "invalid_format"@,
        TerminalError::AccessDenied => "access_denied"@,
        TerminalError::AuditRequired => "audit_required"@,
        TerminalError::Sealed => "sealed"@,
        TerminalError::CapacityExceeded => "capacity_exceeded"@,
        TerminalError::Duplicate => "duplicate"@,
        TerminalError::InvalidState => "invalid_state"@,
        TerminalError::InvalidTrace => "invalid_trace"@,
        TerminalError::InvalidRedaction => "invalid_redaction"@,
        TerminalError::SensitiveInput => "sensitive_input"@,
        TerminalError::SensitiveOutput => "sensitive_output"@,
        TerminalError::Internal => "internal"@,
    }
}

/// Errors that mark a fail-closed trust boundary.
pub open spec fn error_is_security_relevant(e: TerminalError) -> bool {
    match e {
        TerminalError::ReservedBits | TerminalError::InvalidCommand
        | TerminalError::InvalidArgument | TerminalError::ParseError
        | TerminalError::AccessDenied | TerminalError::AuditRequired | TerminalError::Sealed
        | TerminalError::InvalidTrace | TerminalError::InvalidRedaction
        | TerminalError::SensitiveInput | TerminalError::SensitiveOutput => true,
        _ => false,
    }
}

impl TerminalError {
    /// Stable reason label for diagnostics and tests.
    pub fn reason(self) -> (r: &'static str)
        ensures
            r@ == error_reason(self),
    {
        match self {
            TerminalError::MissingField => "missing_field",
            TerminalError::FieldTooLong => "field_too_long",
            TerminalError::InvalidLabel => "invalid_label",
            TerminalError::ReservedBits => "reserved_bits",
            TerminalError::InvalidCommand => "invalid_command",
            TerminalError::UnknownCommand => "unknown_command",
            TerminalError::InvalidArgument => "invalid_argument",
            TerminalError::ParseError => "parse_error",
            TerminalError::InvalidParser => "invalid_parser",
            TerminalError::InvalidSession => "invalid_session",
            TerminalError::SessionClosed => "session_closed",
            TerminalError::InvalidFormat => "invalid_format",
            TerminalError::AccessDenied => "access_denied",
            TerminalError::AuditRequired => "audit_required",
            TerminalError::Sealed => "sealed",
            TerminalError::CapacityExceeded => "capacity_exceeded",
            TerminalError::Duplicate => "duplicate",
            TerminalError::InvalidState => "invalid_state",
            TerminalError::InvalidTrace => "invalid_trace",
            TerminalError::InvalidRedaction => "invalid_redaction",
            TerminalError::SensitiveInput => "sensitive_input",
            TerminalError::SensitiveOutput => "sensitive_output",
            TerminalError::Internal => "internal",
        }
    }

    /// Returns `true` when this error represents a fail-closed trust boundary.
    pub fn is_security_relevant(self) -> (r: bool)
        ensures
            r == error_is_security_relevant(self),
    {
        match self {
            TerminalError::ReservedBits | TerminalError::InvalidCommand
            | TerminalError::InvalidArgument | TerminalError::ParseError
            | TerminalError::AccessDenied | TerminalError::AuditRequired
            | TerminalError::Sealed | TerminalError::InvalidTrace
            | TerminalError::InvalidRedaction | TerminalError::SensitiveInput
            | TerminalError::SensitiveOutput => true,
            _ => false,
        }
    }
}

/// Data sensitivity classification for terminal inputs, outputs, and metadata.
#[derive(Clone, Copy, Debug, PartialEq, Eq, PartialOrd, Ord, Structural)]
pub enum DataClass {
    /// Public metadata or output.
    Public,
    /// Operational metadata suitable for trusted operators.
    Operational,
    /// Sensitive data requiring redaction before broad export.
    Sensitive,
    /// Secret data that must not be exported raw.
    Secret,
}

/// Classes whose data must be redacted before export.
pub open spec fn class_requires_redaction(c: DataClass) -> bool {
    c == DataClass::Sensitive || c == DataClass::Secret
}

/// The stable label of each data class.
pub open spec fn class_label(c: DataClass) -> Seq<char> {
    match c {
        DataClass::Public => "public"@,
        DataClass::Operational => "operational"@,
        DataClass::Sensitive => "sensitive"@,
        DataClass::Secret => "secret"@,
    }
}

impl DataClass {
    /// Returns `true` when data with this class must be redacted before export.
    pub fn requires_redaction(self) -> (r: bool)
        ensures
            r == class_requires_redaction(self),
    {
        match self {
            DataClass::Sensitive | DataClass::Secret => true,
            _ => false,
        }
    }

    /// Stable data class label.
    pub fn label(self) -> (r: &'static str)
        ensures
            r@ == class_label(self),
    {
        match self {
            DataClass::Public => "public",
            DataClass::Operational => "operational",
            DataClass::Sensitive => "sensitive",
            DataClass::Secret => "secret",
        }
    }
}

/// Redaction state applied to terminal inputs, outputs, and diagnostics.
#[derive(Clone, Copy, Debug, PartialEq, Eq, Structural)]
pub enum RedactionState {
    /// Public fields only.
    Public,
    /// Operational metadata only.
    Operational,
    /// Sensitive fields were redacted.
    SensitiveRedacted,
    /// Secret fields were redacted.
    SecretRedacted,
    /// Sensitive fields are present and must not be exported broadly.
    UnredactedSensitive,
}

/// The stable label of each redaction state.
pub open spec fn redaction_label(r: RedactionState) -> Seq<char> {
    match r {
        RedactionState::Public => "public"@,
        RedactionState::Operational => "operational"@,
        RedactionState::SensitiveRedacted => "sensitive_redacted"@,
        RedactionState::SecretRedacted => "secret_redacted"@,
        RedactionState::UnredactedSensitive => "unredacted_sensitive"@,
    }
}

impl RedactionState {
    /// Stable redaction label.
    pub fn label(self) -> (r: &'static str)
        ensures
            r@ == redaction_label(self),
    {
        match self {
            RedactionState::Public => "public",
            RedactionState::Operational => "operational",
            RedactionState::SensitiveRedacted => "sensitive_redacted",
            RedactionState::SecretRedacted => "secret_redacted",
            RedactionState::UnredactedSensitive => "unredacted_sensitive",
        }
    }
}

/// Stable trace context copied from observability layers when present.
#[derive(Clone, Copy, Debug, Default, PartialEq, Eq, Structural)]
pub struct TraceContext {
    /// Trace identifier shared across component boundaries.
    pub trace_id: u64,
    /// Current span identifier.
    pub span_id: u64,
    /// Parent span identifier.
    pub parent_span_id: u64,
    /// Trace flags.
    pub flags: u32,
}

/// The empty trace context: every identifier and flag is zero.
pub open spec fn empty_trace() -> TraceContext {
    TraceContext { trace_id: 0, span_id: 0, parent_span_id: 0, flags: 0 }
}

impl TraceContext {
    /// Whether every set flag is one this crate knows.
    pub open spec fn flags_known(self) -> bool {
        self.flags & !TRACE_KNOWN_FLAGS == 0
    }

    /// The outcome of validating this trace: unknown flags are reserved bits;
    /// an all-zero identity is the absent trace; otherwise both identifiers
    /// must be present and the parent span must differ from the span.
    pub open spec fn spec_validate(self) -> TerminalResult<()> {
        if !self.flags_known() {
            Err(TerminalError::ReservedBits)
        } else if self.trace_id == 0 && self.span_id == 0 && self.parent_span_id == 0 {
            Ok(())
        } else if self.trace_id == 0 || self.span_id == 0 {
            Err(TerminalError::InvalidTrace)
        } else if self.parent_span_id != 0 && self.parent_span_id == self.span_id {
            Err(TerminalError::InvalidTrace)
        } else {
            Ok(())
        }
    }

    /// Empty trace context used when no trace is available.
    pub fn empty() -> (r: Self)
        ensures
            r == empty_trace(),
    {
        TraceContext { trace_id: 0, span_id: 0, parent_span_id: 0, flags: 0 }
    }

    /// Creates a root trace context for a terminal interaction.
    pub fn root(trace_id: u64, span_id: u64) -> (r: Self)
        ensures
            r.trace_id == trace_id,
            r.span_id == span_id,
            r.parent_span_id == 0,
            r.flags == TRACE_FLAG_SAMPLED | TRACE_FLAG_INTERACTIVE_BOUNDARY,
    {
        TraceContext {
            trace_id,
            span_id,
            parent_span_id: 0,
            flags: TRACE_FLAG_SAMPLED | TRACE_FLAG_INTERACTIVE_BOUNDARY,
        }
    }

    /// Creates a child trace context preserving the trace identifier.
    pub fn child(self, span_id: u64) -> (r: Self)
        ensures
            r.trace_id == self.trace_id,
            r.span_id == span_id,
            r.parent_span_id == self.span_id,
            r.flags == self.flags,
    {
        TraceContext {
            trace_id: self.trace_id,
            span_id,
            parent_span_id: self.span_id,
            flags: self.flags,
        }
    }

    /// Sets trace flags.
    pub fn with_flags(self, flags: u32) -> (r: Self)
        ensures
            r == (TraceContext { flags, ..self }),
    {
        let mut t = self;
        t.flags = flags;
        t
    }

    /// Returns `true` when both trace and span identifiers are present.
    pub fn is_present(self) -> (r: bool)
        ensures
            r == (self.trace_id != 0 && self.span_id != 0),
    {
        self.trace_id != 0 && self.span_id != 0
    }

    /// Returns `true` when all requested trace flags are present.
    pub fn has_flags(self, flags: u32) -> (r: bool)
        ensures
            r == (self.flags & flags == flags),
    {
        self.flags & flags == flags
    }

    /// Validates trace metadata.
    pub fn validate(self) -> (r: TerminalResult<()>)
        ensures
            r == self.spec_validate(),
    {
        if self.flags & !TRACE_KNOWN_FLAGS != 0 {
            return Err(TerminalError::ReservedBits);
        }
        if self.trace_id == 0 && self.span_id == 0 && self.parent_span_id == 0 {
            return Ok(());
        }
        if self.trace_id == 0 || self.span_id == 0 {
            return Err(TerminalError::InvalidTrace);
        }
        if self.parent_span_id != 0 && self.parent_span_id == self.span_id {
            return Err(TerminalError::InvalidTrace);
        }
        Ok(())
    }
}

/// Whether every set bit of a rights bitmap is a right this crate knows.
pub open spec fn rights_known(bits: u64) -> bool {
    bits & !TERMINAL_KNOWN_RIGHTS == 0
}

/// Whether `held` includes every bit of `required`.
pub open spec fn rights_include(held: u64, required: u64) -> bool {
    held & required == required
}

/// Terminal authority bitmap used for fail-closed command gates.
#[derive(Clone, Copy, Debug, Default, PartialEq, Eq, Structural)]
pub struct TerminalRights(pub u64);

impl TerminalRights {
    /// The outcome of requiring `required` from `self`: unknown bits on either
    /// side are reserved bits, a missing right is access denied.
    pub open spec fn spec_require(self, required: TerminalRights) -> TerminalResult<()> {
        if !rights_known(self.0) || !rights_known(required.0) {
            Err(TerminalError::ReservedBits)
        } else if rights_include(self.0, required.0) {
            Ok(())
        } else {
            Err(TerminalError::AccessDenied)
        }
    }

    /// No authority.
    pub fn none() -> (r: Self)
        ensures
            r.0 == 0,
    {
        TerminalRights(0)
    }

    /// Inspect terminal and runtime metadata.
    pub fn read() -> (r: Self)
        ensures
            r.0 == TERMINAL_RIGHT_READ,
    {
        TerminalRights(TERMINAL_RIGHT_READ)
    }

    /// Execute ordinary commands.
    pub fn execute() -> (r: Self)
        ensures
            r.0 == TERMINAL_RIGHT_EXECUTE,
    {
        TerminalRights(TERMINAL_RIGHT_EXECUTE)
    }

    /// Control services.
    pub fn service_control() -> (r: Self)
        ensures
            r.0 == TERMINAL_RIGHT_SERVICE_CONTROL,
    {
        TerminalRights(TERMINAL_RIGHT_SERVICE_CONTROL)
    }

    /// Run debug commands.
    pub fn debug() -> (r: Self)
        ensures
            r.0 == TERMINAL_RIGHT_DEBUG,
    {
        TerminalRights(TERMINAL_RIGHT_DEBUG)
    }

    /// Run cognition experiments.
    pub fn cognition() -> (r: Self)
        ensures
            r.0 == TERMINAL_RIGHT_COGNITION,
    {
        TerminalRights(TERMINAL_RIGHT_COGNITION)
    }

    /// Render or export formatted output.
    pub fn format() -> (r: Self)
        ensures
            r.0 == TERMINAL_RIGHT_FORMAT,
    {
        TerminalRights(TERMINAL_RIGHT_FORMAT)
    }

    /// Inspect trace events.
    pub fn trace_read() -> (r: Self)
        ensures
            r.0 == TERMINAL_RIGHT_TRACE_READ,
    {
        TerminalRights(TERMINAL_RIGHT_TRACE_READ)
    }

    /// Emit or preserve audit evidence.
    pub fn audit() -> (r: Self)
        ensures
            r.0 == TERMINAL_RIGHT_AUDIT,
    {
        TerminalRights(TERMINAL_RIGHT_AUDIT)
    }

    /// Administrative terminal authority.
    pub fn admin() -> (r: Self)
        ensures
            r.0 == TERMINAL_RIGHT_ADMIN,
    {
        TerminalRights(TERMINAL_RIGHT_ADMIN)
    }

    /// Full authority for host-mode administrative tests.
    pub fn administrator() -> (r: Self)
        ensures
            r.0 == TERMINAL_KNOWN_RIGHTS,
    {
        TerminalRights(TERMINAL_KNOWN_RIGHTS)
    }

    /// Creates rights from raw bits after rejecting unknown bits.
    pub fn from_bits(bits: u64) -> (r: TerminalResult<Self>)
        ensures
            rights_known(bits) ==> r == Ok::<TerminalRights, TerminalError>(TerminalRights(bits)),
            !rights_known(bits) ==> r == Err::<TerminalRights, TerminalError>(
                TerminalError::ReservedBits,
            ),
    {
        if bits & !TERMINAL_KNOWN_RIGHTS != 0 {
            Err(TerminalError::ReservedBits)
        } else {
            Ok(TerminalRights(bits))
        }
    }

    /// Returns raw rights bits.
    pub fn bits(self) -> (r: u64)
        ensures
            r == self.0,
    {
        self.0
    }

    /// Returns `true` when all required rights are present.
    pub fn contains(self, required: Self) -> (r: bool)
        ensures
            r == rights_include(self.0, required.0),
    {
        self.0 & required.0 == required.0
    }

    /// Combines two rights sets.
    pub fn union(self, other: Self) -> (r: Self)
        ensures
            r.0 == self.0 | other.0,
    {
        TerminalRights(self.0 | other.0)
    }

    /// Validates reserved bits.
    pub fn validate(self) -> (r: TerminalResult<()>)
        ensures
            rights_known(self.0) ==> r is Ok,
            !rights_known(self.0) ==> r == Err::<(), TerminalError>(TerminalError::ReservedBits),
    {
        if self.0 & !TERMINAL_KNOWN_RIGHTS != 0 {
            Err(TerminalError::ReservedBits)
        } else {
            Ok(())
        }
    }

    /// Fails closed when required rights are absent.
    pub fn require(self, required: Self) -> (r: TerminalResult<()>)
        ensures
            r == self.spec_require(required),
    {
        if self.0 & !TERMINAL_KNOWN_RIGHTS != 0 || required.0 & !TERMINAL_KNOWN_RIGHTS != 0 {
            return Err(TerminalError::ReservedBits);
        }
        if self.contains(required) {
            Ok(())
        } else {
            Err(TerminalError::AccessDenied)
        }
    }
}

/// Implementation maturity marker for generated repository metadata.
#[derive(Clone, Copy, Debug, PartialEq, Eq, Structural)]
pub enum ComponentStatus {
    /// API is present as a draft skeleton.
    Draft,
    /// API is implemented enough for host-mode experimentation.
    Experimental,
    /// API is compatible and stable.
    Stable,
}

/// Stable component identity record.
#[derive(Clone, Debug, PartialEq, Eq)]
pub struct ComponentInfo {
    /// Repository name.
    pub repository: &'static str,
    /// Crate version.
    pub version: &'static str,
    /// Current implementation status.
    pub status: ComponentStatus,
}

/// Returns stable component identity metadata.
pub fn component_info() -> (r: ComponentInfo)
    ensures
        r.repository@ == REPOSITORY@,
        r.version@ == VERSION@,
        r.status == ComponentStatus::Experimental,
{
    ComponentInfo { repository: REPOSITORY, version: VERSION, status: ComponentStatus::Experimental }
}

/// Returns the repository name.
pub fn repository_name() -> (r: &'static str)
    ensures
        r@ == REPOSITORY@,
{
    REPOSITORY
}

/// Returns public module names.
pub fn module_names() -> (r: &'static [&'static str])
    ensures
        r@.len() == 4,
        r@[0]@ == "commands"@,
        r@[1]@ == "parser"@,
        r@[2]@ == "session"@,
        r@[3]@ == "format"@,
{
    &["commands", "parser", "session", "format"]
}

/// Compact root view of the terminal crate contract.
#[derive(Clone, Copy, Debug, PartialEq, Eq)]
pub struct TerminalCatalog {
    /// Repository name.
    pub repository: &'static str,
    /// Crate version.
    pub version: &'static str,
    /// Feature bitmap.
    pub features: u64,
    /// Rights bitmap recognized by this crate version.
    pub rights: u64,
    /// Command schema version.
    pub commands_schema: &'static str,
    /// Parser schema version.
    pub parser_schema: &'static str,
    /// Session schema version.
    pub session_schema: &'static str,
    /// Format schema version.
    pub format_schema: &'static str,
}

impl TerminalCatalog {
    /// The outcome of validating a catalog: every label must be present and
    /// the bitmaps may hold only known bits.
    pub open spec fn spec_validate(self) -> TerminalResult<()> {
        if self.repository@.len() == 0 || self.version@.len() == 0
            || self.commands_schema@.len() == 0 || self.parser_schema@.len() == 0
            || self.session_schema@.len() == 0 || self.format_schema@.len() == 0 {
            Err(TerminalError::MissingField)
        } else if self.features & !TERMINAL_KNOWN_FEATURES != 0 || !rights_known(self.rights) {
            Err(TerminalError::ReservedBits)
        } else {
            Ok(())
        }
    }

    /// Validates catalog metadata.
    pub fn validate(self) -> (r: TerminalResult<()>)
        ensures
            r == self.spec_validate(),
    {
        if self.repository.is_empty() || self.version.is_empty() || self.commands_schema.is_empty()
            || self.parser_schema.is_empty() || self.session_schema.is_empty()
            || self.format_schema.is_empty() {
            return Err(TerminalError::MissingField);
        }
        if self.features & !TERMINAL_KNOWN_FEATURES != 0 || self.rights & !TERMINAL_KNOWN_RIGHTS
            != 0 {
            return Err(TerminalError::ReservedBits);
        }
        Ok(())
    }
}

/// Returns the current terminal catalog.
pub fn terminal_catalog() -> (r: TerminalCatalog)
    ensures
        r.repository@ == REPOSITORY@,
        r.version@ == VERSION@,
        r.features == TERMINAL_KNOWN_FEATURES,
        r.rights == TERMINAL_KNOWN_RIGHTS,
        r.commands_schema@ == COMMANDS_SCHEMA_VERSION@,
        r.parser_schema@ == PARSER_SCHEMA_VERSION@,
        r.session_schema@ == SESSION_SCHEMA_VERSION@,
        r.format_schema@ == FORMAT_SCHEMA_VERSION@,
{
    TerminalCatalog {
        repository: REPOSITORY,
        version: VERSION,
        features: TERMINAL_KNOWN_FEATURES,
        rights: TERMINAL_KNOWN_RIGHTS,
        commands_schema: COMMANDS_SCHEMA_VERSION,
        parser_schema: PARSER_SCHEMA_VERSION,
        session_schema: SESSION_SCHEMA_VERSION,
        format_schema: FORMAT_SCHEMA_VERSION,
    }
}

/// Which redaction states a data class may carry: public and operational data
/// carry their own state, sensitive data must be redacted (as sensitive or
/// secret), and secret data must be redacted as secret.
pub open spec fn redaction_allowed(data_class: DataClass, redaction: RedactionState) -> bool {
    match data_class {
        DataClass::Public => redaction == RedactionState::Public,
        DataClass::Operational => redaction == RedactionState::Operational,
        DataClass::Sensitive => redaction == RedactionState::SensitiveRedacted || redaction
            == RedactionState::SecretRedacted,
        DataClass::Secret => redaction == RedactionState::SecretRedacted,
    }
}

/// The outcome of validating a redaction state for a data class.
pub open spec fn redaction_outcome(data_class: DataClass, redaction: RedactionState) -> TerminalResult<()> {
    if redaction_allowed(data_class, redaction) {
        Ok(())
    } else {
        Err(TerminalError::InvalidRedaction)
    }
}

/// Validates redaction state for a data class.
pub fn validate_redaction(data_class: DataClass, redaction: RedactionState) -> (r: TerminalResult<()>)
    ensures
        r == redaction_outcome(data_class, redaction),
{
    let ok = match data_class {
        DataClass::Public => match redaction {
            RedactionState::Public => true,
            _ => false,
        },
        DataClass::Operational => match redaction {
            RedactionState::Operational => true,
            _ => false,
        },
        DataClass::Sensitive => match redaction {
            RedactionState::SensitiveRedacted | RedactionState::SecretRedacted => true,
            _ => false,
        },
        DataClass::Secret => match redaction {
            RedactionState::SecretRedacted => true,
            _ => false,
        },
    };
    if ok {
        Ok(())
    } else {
        Err(TerminalError::InvalidRedaction)
    }
}

/// The outcome of validating a stable label of at most `max_len` bytes: an
/// empty label is a missing field, a longer one is too long, and every byte
/// must be ASCII alphanumeric or one of `:`, `_`, `-`, `.`, `/`, `@`.
pub open spec fn label_outcome(label: Seq<char>, max_len: nat) -> TerminalResult<()> {
    if label.len() == 0 {
        Err(TerminalError::MissingField)
    } else if utf8_len(label) > max_len {
        Err(TerminalError::FieldTooLong)
    } else if !(forall|i: int|
        0 <= i < encode_utf8(label).len() ==> #[trigger] is_label_byte(encode_utf8(label)[i])) {
        Err(TerminalError::InvalidLabel)
    } else {
        Ok(())
    }
}

/// Validates a stable terminal label.
pub fn validate_terminal_label(label: &str, max_len: usize) -> (r: TerminalResult<()>)
    ensures
        r == label_outcome(label@, max_len as nat),
{
    if label.is_empty() {
        return Err(TerminalError::MissingField);
    }
    let bytes = label.as_bytes();
    if bytes.len() > max_len {
        return Err(TerminalError::FieldTooLong);
    }
    let mut i: usize = 0;
    while i < bytes.len()
        invariant
            i <= bytes@.len(),
            bytes@ == encode_utf8(label@),
            label@.len() > 0,
            bytes@.len() <= max_len,
            forall|j: int| 0 <= j < i ==> #[trigger] is_label_byte(bytes@[j]),
        decreases bytes@.len() - i,
    {
        if !is_label_byte_exec(bytes[i]) {
            assert(!is_label_byte(encode_utf8(label@)[i as int]));
            return Err(TerminalError::InvalidLabel);
        }
        i = i + 1;
    }
    Ok(())
}


/// Combining two rights sets yields a set that contains each of them.
pub proof fn law_union_contains_both(a: TerminalRights, b: TerminalRights)
    ensures
        rights_include(a.0 | b.0, a.0),
        rights_include(a.0 | b.0, b.0),
        rights_known(a.0) && rights_known(b.0) ==> rights_known(a.0 | b.0),
{
    let x = a.0;
    let y = b.0;
    assert((x | y) & x == x) by (bit_vector);
    assert((x | y) & y == y) by (bit_vector);
    assert(x & !TERMINAL_KNOWN_RIGHTS == 0 && y & !TERMINAL_KNOWN_RIGHTS == 0 ==> (x | y)
        & !TERMINAL_KNOWN_RIGHTS == 0) by (bit_vector);
}

/// Requiring rights fails closed: success means both sets hold only known
/// bits and the held set contains every required bit; requiring nothing
/// from a known set always succeeds, and a known set always satisfies a
/// requirement of itself.
pub proof fn law_require_fails_closed(held: TerminalRights, required: TerminalRights)
    ensures
        held.spec_require(required) is Ok <==> (rights_known(held.0) && rights_known(required.0)
            && rights_include(held.0, required.0)),
        rights_known(held.0) ==> held.spec_require(TerminalRights(0)) is Ok,
        rights_known(held.0) ==> held.spec_require(held) is Ok,
{
    let h = held.0;
    assert(h & 0u64 == 0u64) by (bit_vector);
    assert(h & h == h) by (bit_vector);
    assert(0u64 & !TERMINAL_KNOWN_RIGHTS == 0) by (bit_vector);
}

/// The administrator set holds every known right, and creating rights from
/// known bits gives back exactly those bits.
pub proof fn law_administrator_holds_all_known(bits: u64)
    ensures
        rights_known(bits) ==> rights_include(TERMINAL_KNOWN_RIGHTS, bits),
        rights_known(TERMINAL_KNOWN_RIGHTS),
{
    assert(bits & !TERMINAL_KNOWN_RIGHTS == 0 ==> TERMINAL_KNOWN_RIGHTS & bits == bits)
        by (bit_vector);
    assert(TERMINAL_KNOWN_RIGHTS & !TERMINAL_KNOWN_RIGHTS == 0) by (bit_vector);
}

/// A root trace with non-zero identifiers validates, and the child of a
/// valid, present trace validates whenever its new span is non-zero and
/// differs from the parent span; the child keeps the trace identifier and
/// links back to the parent span.
pub proof fn law_trace_root_and_child_validate(t: TraceContext, trace_id: u64, span_id: u64, child_span: u64)
    ensures
        trace_id != 0 && span_id != 0 ==> (TraceContext {
            trace_id,
            span_id,
            parent_span_id: 0,
            flags: TRACE_FLAG_SAMPLED | TRACE_FLAG_INTERACTIVE_BOUNDARY,
        }).spec_validate() is Ok,
        t.spec_validate() is Ok && t.trace_id != 0 && child_span != 0 && child_span != t.span_id
            ==> (TraceContext {
            trace_id: t.trace_id,
            span_id: child_span,
            parent_span_id: t.span_id,
            flags: t.flags,
        }).spec_validate() is Ok,
{
    assert((TRACE_FLAG_SAMPLED | TRACE_FLAG_INTERACTIVE_BOUNDARY) & !TRACE_KNOWN_FLAGS == 0)
        by (bit_vector);
}

/// The empty trace is the absent trace and validates.
pub proof fn law_empty_trace_validates()
    ensures
        empty_trace().spec_validate() is Ok,
{
    assert(0u32 & !TRACE_KNOWN_FLAGS == 0) by (bit_vector);
}

/// A redaction state accepted for a class never leaves sensitive or secret
/// data unredacted; secret data is accepted only as secret-redacted and
/// public data only as public.
pub proof fn law_accepted_redaction_never_exposes(c: DataClass, r: RedactionState)
    ensures
        redaction_outcome(c, r) is Ok ==> !(class_requires_redaction(c) && r
            == RedactionState::UnredactedSensitive),
        redaction_outcome(DataClass::Secret, r) is Ok <==> r == RedactionState::SecretRedacted,
        redaction_outcome(DataClass::Public, r) is Ok <==> r == RedactionState::Public,
{
}

/// The current catalog validates.
pub proof fn law_current_catalog_validates(c: TerminalCatalog)
    requires
        c.repository == REPOSITORY,
        c.version == VERSION,
        c.features == TERMINAL_KNOWN_FEATURES,
        c.rights == TERMINAL_KNOWN_RIGHTS,
        c.commands_schema == COMMANDS_SCHEMA_VERSION,
        c.parser_schema == PARSER_SCHEMA_VERSION,
        c.session_schema == SESSION_SCHEMA_VERSION,
        c.format_schema == FORMAT_SCHEMA_VERSION,
    ensures
        c.spec_validate() is Ok,
{
    reveal_strlit("alani-terminal");
    reveal_strlit("0.1.0");
    reveal_strlit("alani-terminal.commands.v1");
    reveal_strlit("alani-terminal.parser.v1");
    reveal_strlit("alani-terminal.session.v1");
    reveal_strlit("alani-terminal.format.v1");
    assert(TERMINAL_KNOWN_FEATURES & !TERMINAL_KNOWN_FEATURES == 0) by (bit_vector);
    assert(TERMINAL_KNOWN_RIGHTS & !TERMINAL_KNOWN_RIGHTS == 0) by (bit_vector);
}

} // verus!
