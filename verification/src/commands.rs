//! Command registration and execution boundary.
//!
//! Descriptors declare the authority, audit, trace, and output classification
//! requirements for a command, while registries provide fixed-capacity
//! host-mode lookup and authorization checks that fail closed.

use vstd::prelude::*;

use crate::text::{str_eq, utf8_len};
use crate::{
    empty_trace, label_outcome, redaction_allowed, redaction_outcome, rights_include,
    rights_known, validate_redaction, validate_terminal_label, DataClass, RedactionState,
    TerminalError, TerminalResult, TerminalRights, TraceContext, TERMINAL_RIGHT_AUDIT,
    TRACE_FLAG_AUDIT_REQUIRED,
};

verus! {

/// Command descriptor schema version.
pub const COMMANDS_SCHEMA_VERSION: &'static str = "alani-terminal.commands.v1";
/// Maximum command name length.
pub const MAX_COMMAND_NAME_LEN: usize = 64;
/// Maximum command argument value length.
pub const MAX_COMMAND_ARGUMENT_LEN: usize = 256;
/// Maximum command output length accepted by skeleton formatters.
pub const MAX_COMMAND_OUTPUT_LEN: usize = 4096;
/// Maximum arguments accepted by host-mode command requests.
pub const MAX_COMMAND_ARGS: usize = 16;
/// Default command registry capacity used by tests and examples.
pub const MAX_COMMANDS: usize = 64;

/// High-level command family used for policy and UI grouping.
#[derive(Clone, Copy, Debug, PartialEq, Eq, Structural)]
pub enum CommandKind {
    /// Inspect runtime, kernel, or component state.
    Inspect,
    /// Control service lifecycle.
    ServiceControl,
    /// Run cognition experiments or demos.
    Cognition,
    /// Run debug-only commands.
    Debug,
    /// Display trace or diagnostic events.
    Trace,
    /// Display terminal help.
    Help,
    /// Exit or close the current session.
    Exit,
    /// Echo public text for smoke tests and demos.
    Echo,
}

/// The stable label of each command kind.
pub open spec fn kind_label(k: CommandKind) -> Seq<char> {
    match k {
        CommandKind::Inspect => "inspect"@,
        CommandKind::ServiceControl => "service_control"@,
        CommandKind::Cognition => "cognition"@,
        CommandKind::Debug => "debug"@,
        CommandKind::Trace => "trace"@,
        CommandKind::Help => "help"@,
        CommandKind::Exit => "exit"@,
        CommandKind::Echo => "echo"@,
    }
}

impl CommandKind {
    /// Stable command-kind label.
    pub fn label(self) -> (r: &'static str)
        ensures
            r@ == kind_label(self),
    {
        match self {
            CommandKind::Inspect => "inspect",
            CommandKind::ServiceControl => "service_control",
            CommandKind::Cognition => "cognition",
            CommandKind::Debug => "debug",
            CommandKind::Trace => "trace",
            CommandKind::Help => "help",
            CommandKind::Exit => "exit",
            CommandKind::Echo => "echo",
        }
    }
}

/// Built-in command descriptors exposed by the terminal skeleton.
#[derive(Clone, Copy, Debug, PartialEq, Eq, Structural)]
pub enum BuiltinCommand {
    /// `help` command.
    Help,
    /// `inspect` command for runtime or component state.
    Inspect,
    /// `trace.show` command for diagnostic trace inspection.
    TraceShow,
    /// `service.restart` command for service lifecycle control.
    ServiceRestart,
    /// `cognition.run` command for cognition experiments.
    CognitionRun,
    /// `debug.dump` command for trusted debug sessions.
    DebugDump,
    /// `exit` command.
    Exit,
    /// `echo` command for host-mode smoke tests.
    Echo,
}

/// A descriptor as the built-in table defines it: created with the
/// command schema, no audit, operational output, and the empty trace,
/// then adjusted per command.
pub open spec fn table_descriptor(
    name: &'static str,
    kind: CommandKind,
    rights: u64,
    requires_audit: bool,
    output_class: DataClass,
    output_redaction: RedactionState,
) -> CommandDescriptor<'static> {
    CommandDescriptor {
        name,
        schema: COMMANDS_SCHEMA_VERSION,
        kind,
        required_rights: TerminalRights(rights),
        requires_audit,
        output_class,
        output_redaction,
        trace: empty_trace(),
    }
}

/// The descriptor of each built-in command: `help` (read, public output),
/// `inspect` (read), `trace.show` (trace read), `service.restart` (service
/// control, audited), `cognition.run` (cognition, audited), `debug.dump`
/// (debug, audited, sensitive output redacted), `exit` and `echo` (execute,
/// public output).
pub open spec fn builtin_descriptor(b: BuiltinCommand) -> CommandDescriptor<'static> {
    let op = DataClass::Operational;
    let opr = RedactionState::Operational;
    match b {
        BuiltinCommand::Help => table_descriptor(
            "help",
            CommandKind::Help,
            crate::TERMINAL_RIGHT_READ,
            false,
            DataClass::Public,
            RedactionState::Public,
        ),
        BuiltinCommand::Inspect => table_descriptor(
            "inspect",
            CommandKind::Inspect,
            crate::TERMINAL_RIGHT_READ,
            false,
            op,
            opr,
        ),
        BuiltinCommand::TraceShow => table_descriptor(
            "trace.show",
            CommandKind::Trace,
            crate::TERMINAL_RIGHT_TRACE_READ,
            false,
            op,
            opr,
        ),
        BuiltinCommand::ServiceRestart => table_descriptor(
            "service.restart",
            CommandKind::ServiceControl,
            crate::TERMINAL_RIGHT_SERVICE_CONTROL,
            true,
            op,
            opr,
        ),
        BuiltinCommand::CognitionRun => table_descriptor(
            "cognition.run",
            CommandKind::Cognition,
            crate::TERMINAL_RIGHT_COGNITION,
            true,
            op,
            opr,
        ),
        BuiltinCommand::DebugDump => table_descriptor(
            "debug.dump",
            CommandKind::Debug,
            crate::TERMINAL_RIGHT_DEBUG,
            true,
            DataClass::Sensitive,
            RedactionState::SensitiveRedacted,
        ),
        BuiltinCommand::Exit => table_descriptor(
            "exit",
            CommandKind::Exit,
            crate::TERMINAL_RIGHT_EXECUTE,
            false,
            DataClass::Public,
            RedactionState::Public,
        ),
        BuiltinCommand::Echo => table_descriptor(
            "echo",
            CommandKind::Echo,
            crate::TERMINAL_RIGHT_EXECUTE,
            false,
            DataClass::Public,
            RedactionState::Public,
        ),
    }
}

impl BuiltinCommand {
    /// Returns the stable descriptor for a built-in command.
    pub fn descriptor(self) -> (r: CommandDescriptor<'static>)
        ensures
            r == builtin_descriptor(self),
    {
        let r = match self {
            BuiltinCommand::Help => CommandDescriptor::new(
                "help",
                CommandKind::Help,
                TerminalRights::read(),
            ).with_output(DataClass::Public, RedactionState::Public),
            BuiltinCommand::Inspect => CommandDescriptor::new(
                "inspect",
                CommandKind::Inspect,
                TerminalRights::read(),
            ),
            BuiltinCommand::TraceShow => CommandDescriptor::new(
                "trace.show",
                CommandKind::Trace,
                TerminalRights::trace_read(),
            ).with_output(DataClass::Operational, RedactionState::Operational),
            BuiltinCommand::ServiceRestart => CommandDescriptor::new(
                "service.restart",
                CommandKind::ServiceControl,
                TerminalRights::service_control(),
            ).with_audit(),
            BuiltinCommand::CognitionRun => CommandDescriptor::new(
                "cognition.run",
                CommandKind::Cognition,
                TerminalRights::cognition(),
            ).with_audit(),
            BuiltinCommand::DebugDump => CommandDescriptor::new(
                "debug.dump",
                CommandKind::Debug,
                TerminalRights::debug(),
            ).with_audit().with_output(DataClass::Sensitive, RedactionState::SensitiveRedacted),
            BuiltinCommand::Exit => CommandDescriptor::new(
                "exit",
                CommandKind::Exit,
                TerminalRights::execute(),
            ).with_output(DataClass::Public, RedactionState::Public),
            BuiltinCommand::Echo => CommandDescriptor::new(
                "echo",
                CommandKind::Echo,
                TerminalRights::execute(),
            ).with_output(DataClass::Public, RedactionState::Public),
        };
        r
    }
}

/// Command argument metadata.
#[derive(Clone, Copy, Debug, PartialEq, Eq)]
pub struct CommandArgument<'a> {
    /// Optional argument name. Positional arguments use an empty name.
    pub name: &'a str,
    /// Argument value.
    pub value: &'a str,
    /// Data class for the value.
    pub data_class: DataClass,
    /// Redaction state for the value.
    pub redaction: RedactionState,
}

impl<'a> CommandArgument<'a> {
    /// The outcome of validating an argument: a present name must be a valid
    /// command label; the value must be present and at most
    /// [`MAX_COMMAND_ARGUMENT_LEN`] bytes; and its redaction must suit its
    /// class (an invalid argument otherwise).
    pub open spec fn spec_validate(self) -> TerminalResult<()> {
        if self.name@.len() != 0 && label_outcome(self.name@, MAX_COMMAND_NAME_LEN as nat) is Err {
            label_outcome(self.name@, MAX_COMMAND_NAME_LEN as nat)
        } else if self.value@.len() == 0 {
            Err(TerminalError::InvalidArgument)
        } else if utf8_len(self.value@) > MAX_COMMAND_ARGUMENT_LEN {
            Err(TerminalError::FieldTooLong)
        } else if !redaction_allowed(self.data_class, self.redaction) {
            Err(TerminalError::InvalidArgument)
        } else {
            Ok(())
        }
    }

    /// Creates a named command argument.
    pub fn named(
        name: &'a str,
        value: &'a str,
        data_class: DataClass,
        redaction: RedactionState,
    ) -> (r: Self)
        ensures
            r == (CommandArgument { name, value, data_class, redaction }),
    {
        CommandArgument { name, value, data_class, redaction }
    }

    /// Creates a positional public command argument.
    pub fn positional(value: &'a str) -> (r: Self)
        ensures
            r.name@ == Seq::<char>::empty(),
            r.value == value,
            r.data_class == DataClass::Public,
            r.redaction == RedactionState::Public,
    {
        proof {
            reveal_strlit("");
        }
        CommandArgument {
            name: "",
            value,
            data_class: DataClass::Public,
            redaction: RedactionState::Public,
        }
    }

    /// Validates argument bounds, labels, and redaction metadata.
    pub fn validate(self) -> (r: TerminalResult<()>)
        ensures
            r == self.spec_validate(),
    {
        if !self.name.is_empty() {
            let l = validate_terminal_label(self.name, MAX_COMMAND_NAME_LEN);
            if l.is_err() {
                return l;
            }
        }
        if self.value.is_empty() {
            return Err(TerminalError::InvalidArgument);
        }
        if self.value.as_bytes().len() > MAX_COMMAND_ARGUMENT_LEN {
            return Err(TerminalError::FieldTooLong);
        }
        match validate_redaction(self.data_class, self.redaction) {
            Ok(()) => Ok(()),
            Err(_) => Err(TerminalError::InvalidArgument),
        }
    }
}

/// Stable command descriptor consumed by command registries and shell help.
#[derive(Clone, Copy, Debug, PartialEq, Eq)]
pub struct CommandDescriptor<'a> {
    /// Stable command name.
    pub name: &'a str,
    /// Descriptor schema version.
    pub schema: &'static str,
    /// Command family.
    pub kind: CommandKind,
    /// Rights required before execution.
    pub required_rights: TerminalRights,
    /// Whether execution must preserve audit evidence.
    pub requires_audit: bool,
    /// Data class for command output.
    pub output_class: DataClass,
    /// Redaction state for command output.
    pub output_redaction: RedactionState,
    /// Trace context attached to the descriptor when it was created.
    pub trace: TraceContext,
}

impl<'a> CommandDescriptor<'a> {
    /// The outcome of validating a descriptor: a bad name or an empty schema
    /// is an invalid command; then the required rights may hold only known
    /// bits, the trace must validate, and the output redaction must suit the
    /// output class.
    pub open spec fn spec_validate(self) -> TerminalResult<()> {
        if label_outcome(self.name@, MAX_COMMAND_NAME_LEN as nat) is Err {
            Err(TerminalError::InvalidCommand)
        } else if self.schema@.len() == 0 {
            Err(TerminalError::InvalidCommand)
        } else if !rights_known(self.required_rights.0) {
            Err(TerminalError::ReservedBits)
        } else if self.trace.spec_validate() is Err {
            self.trace.spec_validate()
        } else {
            redaction_outcome(self.output_class, self.output_redaction)
        }
    }

    /// Creates a command descriptor.
    pub fn new(name: &'a str, kind: CommandKind, required_rights: TerminalRights) -> (r: Self)
        ensures
            r.name == name,
            r.schema == COMMANDS_SCHEMA_VERSION,
            r.kind == kind,
            r.required_rights == required_rights,
            !r.requires_audit,
            r.output_class == DataClass::Operational,
            r.output_redaction == RedactionState::Operational,
            r.trace == empty_trace(),
    {
        CommandDescriptor {
            name,
            schema: COMMANDS_SCHEMA_VERSION,
            kind,
            required_rights,
            requires_audit: false,
            output_class: DataClass::Operational,
            output_redaction: RedactionState::Operational,
            trace: TraceContext::empty(),
        }
    }

    /// Marks the command as requiring audit evidence.
    pub fn with_audit(self) -> (r: Self)
        ensures
            r == (CommandDescriptor { requires_audit: true, ..self }),
    {
        let mut d = self;
        d.requires_audit = true;
        d
    }

    /// Overrides output classification and redaction metadata.
    pub fn with_output(self, output_class: DataClass, output_redaction: RedactionState) -> (r: Self)
        ensures
            r == (CommandDescriptor { output_class, output_redaction, ..self }),
    {
        let mut d = self;
        d.output_class = output_class;
        d.output_redaction = output_redaction;
        d
    }

    /// Attaches trace metadata.
    pub fn with_trace(self, trace: TraceContext) -> (r: Self)
        ensures
            r == (CommandDescriptor { trace, ..self }),
    {
        let mut d = self;
        d.trace = trace;
        d
    }

    /// Validates descriptor metadata.
    pub fn validate(self) -> (r: TerminalResult<()>)
        ensures
            r == self.spec_validate(),
    {
        if validate_terminal_label(self.name, MAX_COMMAND_NAME_LEN).is_err() {
            return Err(TerminalError::InvalidCommand);
        }
        if self.schema.is_empty() {
            return Err(TerminalError::InvalidCommand);
        }
        let rv = self.required_rights.validate();
        if rv.is_err() {
            return rv;
        }
        let tv = self.trace.validate();
        if tv.is_err() {
            return tv;
        }
        validate_redaction(self.output_class, self.output_redaction)
    }
}

/// Caller and session context supplied to command execution.
#[derive(Clone, Copy, Debug, PartialEq, Eq, Structural)]
pub struct CommandContext {
    /// Terminal session identifier.
    pub session_id: u64,
    /// Rights held by the caller.
    pub rights: TerminalRights,
    /// Trace context for the execution.
    pub trace: TraceContext,
    /// Whether the caller has an available audit sink.
    pub audit_ready: bool,
}

impl CommandContext {
    /// The outcome of validating a context: a session identifier of zero is
    /// an invalid session; then the rights and the trace are checked.
    pub open spec fn spec_validate(self) -> TerminalResult<()> {
        if self.session_id == 0 {
            Err(TerminalError::InvalidSession)
        } else if !rights_known(self.rights.0) {
            Err(TerminalError::ReservedBits)
        } else {
            self.trace.spec_validate()
        }
    }

    /// Creates a command context.
    pub fn new(session_id: u64, rights: TerminalRights, trace: TraceContext) -> (r: Self)
        ensures
            r == (CommandContext { session_id, rights, trace, audit_ready: false }),
    {
        CommandContext { session_id, rights, trace, audit_ready: false }
    }

    /// Marks the context as having an audit sink.
    pub fn with_audit_ready(self) -> (r: Self)
        ensures
            r == (CommandContext { audit_ready: true, ..self }),
    {
        let mut c = self;
        c.audit_ready = true;
        c
    }

    /// Validates context metadata.
    pub fn validate(self) -> (r: TerminalResult<()>)
        ensures
            r == self.spec_validate(),
    {
        if self.session_id == 0 {
            return Err(TerminalError::InvalidSession);
        }
        let rv = self.rights.validate();
        if rv.is_err() {
            return rv;
        }
        self.trace.validate()
    }
}

/// The outcome of validating arguments in order: the first invalid
/// argument's error, or success.
pub open spec fn arguments_outcome(args: Seq<CommandArgument>) -> TerminalResult<()>
    decreases args.len(),
{
    if args.len() == 0 {
        Ok(())
    } else if args[0].spec_validate() is Err {
        args[0].spec_validate()
    } else {
        arguments_outcome(args.drop_first())
    }
}

/// Parsed command request ready for authorization and dispatch.
#[derive(Clone, Copy, Debug, PartialEq, Eq)]
pub struct CommandRequest<'a> {
    /// Command descriptor selected by the parser or registry.
    pub descriptor: CommandDescriptor<'a>,
    /// Command arguments.
    pub arguments: &'a [CommandArgument<'a>],
    /// Raw command line.
    pub raw: &'a str,
    /// Terminal session identifier.
    pub session_id: u64,
    /// Trace context for this request.
    pub trace: TraceContext,
}

impl<'a> CommandRequest<'a> {
    /// The outcome of validating a request: the descriptor; at most
    /// [`MAX_COMMAND_ARGS`] arguments; a present raw line of at most
    /// [`MAX_COMMAND_OUTPUT_LEN`] bytes; a non-zero session; a valid trace;
    /// and then every argument in order.
    pub open spec fn spec_validate(self) -> TerminalResult<()> {
        if self.descriptor.spec_validate() is Err {
            self.descriptor.spec_validate()
        } else if self.arguments@.len() > MAX_COMMAND_ARGS {
            Err(TerminalError::CapacityExceeded)
        } else if self.raw@.len() == 0 {
            Err(TerminalError::MissingField)
        } else if utf8_len(self.raw@) > MAX_COMMAND_OUTPUT_LEN {
            Err(TerminalError::FieldTooLong)
        } else if self.session_id == 0 {
            Err(TerminalError::InvalidSession)
        } else if self.trace.spec_validate() is Err {
            self.trace.spec_validate()
        } else {
            arguments_outcome(self.arguments@)
        }
    }

    /// Whether this request must preserve audit evidence: its descriptor
    /// requires audit or its trace carries the audit-required flag.
    pub open spec fn spec_requires_audit(self) -> bool {
        self.descriptor.requires_audit || self.trace.flags & TRACE_FLAG_AUDIT_REQUIRED
            == TRACE_FLAG_AUDIT_REQUIRED
    }

    /// Creates a command request.
    pub fn new(
        descriptor: CommandDescriptor<'a>,
        arguments: &'a [CommandArgument<'a>],
        raw: &'a str,
        session_id: u64,
        trace: TraceContext,
    ) -> (r: Self)
        ensures
            r == (CommandRequest { descriptor, arguments, raw, session_id, trace }),
    {
        CommandRequest { descriptor, arguments, raw, session_id, trace }
    }

    /// Validates request metadata and argument bounds.
    pub fn validate(self) -> (r: TerminalResult<()>)
        ensures
            r == self.spec_validate(),
    {
        let dv = self.descriptor.validate();
        if dv.is_err() {
            return dv;
        }
        if self.arguments.len() > MAX_COMMAND_ARGS {
            return Err(TerminalError::CapacityExceeded);
        }
        if self.raw.is_empty() {
            return Err(TerminalError::MissingField);
        }
        if self.raw.as_bytes().len() > MAX_COMMAND_OUTPUT_LEN {
            return Err(TerminalError::FieldTooLong);
        }
        if self.session_id == 0 {
            return Err(TerminalError::InvalidSession);
        }
        let tv = self.trace.validate();
        if tv.is_err() {
            return tv;
        }
        let mut i: usize = 0;
        assert(self.arguments@.skip(0) =~= self.arguments@);
        while i < self.arguments.len()
            invariant
                i <= self.arguments@.len(),
                arguments_outcome(self.arguments@) == arguments_outcome(
                    self.arguments@.skip(i as int),
                ),
                self.spec_validate() == arguments_outcome(self.arguments@),
            decreases self.arguments@.len() - i,
        {
            proof {
                assert(self.arguments@.skip(i as int).drop_first() =~= self.arguments@.skip(
                    i + 1,
                ));
            }
            let av = self.arguments[i].validate();
            if av.is_err() {
                return av;
            }
            i = i + 1;
        }
        proof {
            assert(self.arguments@.skip(i as int) =~= Seq::<CommandArgument>::empty());
        }
        Ok(())
    }

    /// Returns `true` when this request must preserve audit evidence.
    pub fn requires_audit(self) -> (r: bool)
        ensures
            r == self.spec_requires_audit(),
    {
        self.descriptor.requires_audit || self.trace.has_flags(TRACE_FLAG_AUDIT_REQUIRED)
    }
}

/// Execution status for a command result.
#[derive(Clone, Copy, Debug, PartialEq, Eq, Structural)]
pub enum CommandStatus {
    /// Command was accepted but has not produced a terminal result.
    Accepted,
    /// Command completed successfully.
    Completed,
    /// Command was denied by policy.
    Denied,
    /// Command failed after dispatch.
    Failed,
    /// Command could not proceed until audit evidence is available.
    NeedsAudit,
    /// Command requested session exit.
    Exited,
}

/// The stable label of each command status.
pub open spec fn status_label(s: CommandStatus) -> Seq<char> {
    match s {
        CommandStatus::Accepted => "accepted"@,
        CommandStatus::Completed => "completed"@,
        CommandStatus::Denied => "denied"@,
        CommandStatus::Failed => "failed"@,
        CommandStatus::NeedsAudit => "needs_audit"@,
        CommandStatus::Exited => "exited"@,
    }
}

/// Statuses that represent successful completion.
pub open spec fn status_is_success(s: CommandStatus) -> bool {
    s == CommandStatus::Completed || s == CommandStatus::Exited
}

impl CommandStatus {
    /// Stable status label.
    pub fn label(self) -> (r: &'static str)
        ensures
            r@ == status_label(self),
    {
        match self {
            CommandStatus::Accepted => "accepted",
            CommandStatus::Completed => "completed",
            CommandStatus::Denied => "denied",
            CommandStatus::Failed => "failed",
            CommandStatus::NeedsAudit => "needs_audit",
            CommandStatus::Exited => "exited",
        }
    }

    /// Returns `true` when this status represents successful completion.
    pub fn is_success(self) -> (r: bool)
        ensures
            r == status_is_success(self),
    {
        match self {
            CommandStatus::Completed | CommandStatus::Exited => true,
            _ => false,
        }
    }
}

/// Output record returned by host-mode command dispatch.
#[derive(Clone, Copy, Debug, PartialEq, Eq)]
pub struct CommandResultRecord<'a> {
    /// Command name.
    pub command: &'a str,
    /// Command status.
    pub status: CommandStatus,
    /// Output body. Empty output is valid for command skeletons.
    pub output: &'a str,
    /// Data class for output.
    pub data_class: DataClass,
    /// Redaction state for output.
    pub redaction: RedactionState,
    /// Trace context propagated to output.
    pub trace: TraceContext,
}

impl<'a> CommandResultRecord<'a> {
    /// The outcome of validating a result record: the command name must be a
    /// valid label, the output at most [`MAX_COMMAND_OUTPUT_LEN`] bytes, the
    /// trace valid, and the redaction suited to the class.
    pub open spec fn spec_validate(self) -> TerminalResult<()> {
        if label_outcome(self.command@, MAX_COMMAND_NAME_LEN as nat) is Err {
            label_outcome(self.command@, MAX_COMMAND_NAME_LEN as nat)
        } else if utf8_len(self.output@) > MAX_COMMAND_OUTPUT_LEN {
            Err(TerminalError::FieldTooLong)
        } else if self.trace.spec_validate() is Err {
            self.trace.spec_validate()
        } else {
            redaction_outcome(self.data_class, self.redaction)
        }
    }

    /// Creates a command result record.
    pub fn new(
        command: &'a str,
        status: CommandStatus,
        output: &'a str,
        data_class: DataClass,
        redaction: RedactionState,
        trace: TraceContext,
    ) -> (r: Self)
        ensures
            r == (CommandResultRecord { command, status, output, data_class, redaction, trace }),
    {
        CommandResultRecord { command, status, output, data_class, redaction, trace }
    }

    /// Validates result metadata before formatting or export.
    pub fn validate(self) -> (r: TerminalResult<()>)
        ensures
            r == self.spec_validate(),
    {
        let lv = validate_terminal_label(self.command, MAX_COMMAND_NAME_LEN);
        if lv.is_err() {
            return lv;
        }
        if self.output.as_bytes().len() > MAX_COMMAND_OUTPUT_LEN {
            return Err(TerminalError::FieldTooLong);
        }
        let tv = self.trace.validate();
        if tv.is_err() {
            return tv;
        }
        validate_redaction(self.data_class, self.redaction)
    }

    /// Returns `true` when this result is displayable as a successful command.
    pub fn is_success(self) -> (r: bool)
        ensures
            r == status_is_success(self.status),
    {
        self.status.is_success()
    }
}

/// Trait implemented by concrete command handlers.
pub trait Command<'a> {
    /// Returns the stable command descriptor.
    fn descriptor(&self) -> CommandDescriptor<'a>;

    /// Executes the command with already parsed and validated input.
    fn execute(
        &self,
        context: CommandContext,
        request: CommandRequest<'a>,
    ) -> TerminalResult<CommandResultRecord<'a>>;
}

/// The first descriptor in `entries` with the given name.
pub open spec fn lookup<'a>(entries: Seq<CommandDescriptor<'a>>, name: Seq<char>) -> Option<
    CommandDescriptor<'a>,
>
    decreases entries.len(),
{
    if entries.len() == 0 {
        None
    } else if entries[0].name@ == name {
        Some(entries[0])
    } else {
        lookup(entries.drop_first(), name)
    }
}

/// The outcome of finding `name`: it must be a valid command label, and
/// then a registered descriptor of that name, or an unknown command.
pub open spec fn find_outcome<'a>(entries: Seq<CommandDescriptor<'a>>, name: Seq<char>) -> TerminalResult<
    CommandDescriptor<'a>,
> {
    if label_outcome(name, MAX_COMMAND_NAME_LEN as nat) is Err {
        Err(label_outcome(name, MAX_COMMAND_NAME_LEN as nat)->Err_0)
    } else {
        match lookup(entries, name) {
            Some(d) => Ok(d),
            None => Err(TerminalError::UnknownCommand),
        }
    }
}

/// The outcome of registering `d` in a registry holding `entries` with
/// capacity `cap`: sealed registries refuse, then the descriptor must
/// validate, its name must be new, and there must be room.
pub open spec fn register_outcome<'a>(
    entries: Seq<CommandDescriptor<'a>>,
    sealed: bool,
    d: CommandDescriptor<'a>,
    cap: nat,
) -> TerminalResult<()> {
    if sealed {
        Err(TerminalError::Sealed)
    } else if d.spec_validate() is Err {
        d.spec_validate()
    } else if lookup(entries, d.name@) is Some {
        Err(TerminalError::Duplicate)
    } else if entries.len() >= cap {
        Err(TerminalError::CapacityExceeded)
    } else {
        Ok(())
    }
}

/// The outcome of authorizing `d` for `context`: both must validate, the
/// context must hold the required rights, and an audited command needs an
/// audit-ready context holding the audit right.
pub open spec fn authorize_outcome(d: CommandDescriptor, context: CommandContext) -> TerminalResult<()> {
    if d.spec_validate() is Err {
        d.spec_validate()
    } else if context.spec_validate() is Err {
        context.spec_validate()
    } else if context.rights.spec_require(d.required_rights) is Err {
        context.rights.spec_require(d.required_rights)
    } else if d.requires_audit && (!context.audit_ready || !rights_include(
        context.rights.0,
        TERMINAL_RIGHT_AUDIT,
    )) {
        Err(TerminalError::AuditRequired)
    } else {
        Ok(())
    }
}

/// The record a successfully dispatched command answers with.
pub open spec fn declared_result<'a>(d: CommandDescriptor<'a>, request: CommandRequest<'a>) -> (
    Seq<char>,
    CommandStatus,
    Seq<char>,
    DataClass,
    RedactionState,
    TraceContext,
) {
    (
        d.name@,
        if d.kind == CommandKind::Exit {
            CommandStatus::Exited
        } else {
            CommandStatus::Completed
        },
        Seq::empty(),
        d.output_class,
        d.output_redaction,
        request.trace,
    )
}

/// The outcome of dispatching `request` against a registry holding
/// `entries`: the request must validate, its command must be registered,
/// and the registered descriptor must be authorized for `context`; the
/// answer is then [`declared_result`].
pub open spec fn execute_outcome<'a>(
    entries: Seq<CommandDescriptor<'a>>,
    context: CommandContext,
    request: CommandRequest<'a>,
) -> TerminalResult<(Seq<char>, CommandStatus, Seq<char>, DataClass, RedactionState, TraceContext)> {
    if request.spec_validate() is Err {
        Err(request.spec_validate()->Err_0)
    } else if find_outcome(entries, request.descriptor.name@) is Err {
        Err(find_outcome(entries, request.descriptor.name@)->Err_0)
    } else {
        let d = find_outcome(entries, request.descriptor.name@)->Ok_0;
        if authorize_outcome(d, context) is Err {
            Err(authorize_outcome(d, context)->Err_0)
        } else {
            Ok(declared_result(d, request))
        }
    }
}

/// The fields of a result record, as mathematical values.
pub open spec fn record_fields<'a>(r: CommandResultRecord<'a>) -> (
    Seq<char>,
    CommandStatus,
    Seq<char>,
    DataClass,
    RedactionState,
    TraceContext,
) {
    (r.command@, r.status, r.output@, r.data_class, r.redaction, r.trace)
}

/// Fixed-capacity command registry for host-mode demos and tests.
#[derive(Clone, Debug, PartialEq, Eq)]
pub struct CommandRegistry<'a, const N: usize> {
    entries: Vec<CommandDescriptor<'a>>,
    sealed: bool,
}

impl<'a, const N: usize> CommandRegistry<'a, N> {
    /// The registered descriptors, in registration order.
    pub closed spec fn spec_entries(&self) -> Seq<CommandDescriptor<'a>> {
        self.entries@
    }

    /// Whether the registry refuses further registrations.
    pub closed spec fn spec_sealed(&self) -> bool {
        self.sealed
    }

    /// The registry invariant: at most `N` entries, each a valid descriptor,
    /// no two with the same name.
    pub open spec fn wf(&self) -> bool {
        &&& self.spec_entries().len() <= N
        &&& forall|i: int|
            0 <= i < self.spec_entries().len() ==> (#[trigger] self.spec_entries()[i]).spec_validate() is Ok
        &&& forall|i: int, j: int|
            0 <= i < j < self.spec_entries().len() ==> (#[trigger] self.spec_entries()[i]).name@
                != (#[trigger] self.spec_entries()[j]).name@
    }

    /// Creates an empty command registry.
    pub fn new() -> (r: Self)
        ensures
            r.wf(),
            r.spec_entries().len() == 0,
            !r.spec_sealed(),
    {
        CommandRegistry { entries: Vec::new(), sealed: false }
    }

    /// Returns the number of registered commands.
    pub fn len(&self) -> (r: usize)
        ensures
            r == self.spec_entries().len(),
    {
        self.entries.len()
    }

    /// Returns `true` when no commands are registered.
    pub fn is_empty(&self) -> (r: bool)
        ensures
            r == (self.spec_entries().len() == 0),
    {
        self.entries.len() == 0
    }

    /// Returns `true` when the registry no longer accepts additions.
    pub fn is_sealed(&self) -> (r: bool)
        ensures
            r == self.spec_sealed(),
    {
        self.sealed
    }

    /// Prevents further command registrations.
    pub fn seal(&mut self)
        ensures
            final(self).spec_sealed(),
            final(self).spec_entries() == old(self).spec_entries(),
    {
        self.sealed = true;
    }

    /// Registers a command descriptor.
    pub fn register(&mut self, descriptor: CommandDescriptor<'a>) -> (r: TerminalResult<()>)
        requires
            old(self).wf(),
        ensures
            final(self).wf(),
            r == register_outcome(old(self).spec_entries(), old(self).spec_sealed(), descriptor, N as nat),
            r is Ok ==> final(self).spec_entries() == old(self).spec_entries().push(descriptor),
            r is Err ==> final(self).spec_entries() == old(self).spec_entries(),
            final(self).spec_sealed() == old(self).spec_sealed(),
    {
        if self.sealed {
            return Err(TerminalError::Sealed);
        }
        let dv = descriptor.validate();
        if dv.is_err() {
            return dv;
        }
        if self.find(descriptor.name).is_ok() {
            return Err(TerminalError::Duplicate);
        }
        if self.entries.len() >= N {
            return Err(TerminalError::CapacityExceeded);
        }
        let ghost before = self.entries@;
        self.entries.push(descriptor);
        proof {
            lemma_lookup_none_names(before, descriptor.name@);
            assert forall|i: int, j: int|
                0 <= i < j < self.entries@.len() implies (#[trigger] self.entries@[i]).name@
                != (#[trigger] self.entries@[j]).name@ by {
                if j == before.len() {
                    assert(before[i] == self.entries@[i]);
                }
            }
        }
        Ok(())
    }

    /// Registers one built-in command descriptor.
    pub fn register_builtin(&mut self, command: BuiltinCommand) -> (r: TerminalResult<()>)
        requires
            old(self).wf(),
        ensures
            final(self).wf(),
            r == register_outcome(old(self).spec_entries(), old(self).spec_sealed(), builtin_descriptor(command), N as nat),
            r is Ok ==> final(self).spec_entries() == old(self).spec_entries().push(
                builtin_descriptor(command),
            ),
            r is Err ==> final(self).spec_entries() == old(self).spec_entries(),
            final(self).spec_sealed() == old(self).spec_sealed(),
    {
        self.register(command.descriptor())
    }

    /// Finds a registered command descriptor by name.
    pub fn find(&self, name: &str) -> (r: TerminalResult<CommandDescriptor<'a>>)
        ensures
            r == find_outcome(self.spec_entries(), name@),
    {
        let lv = validate_terminal_label(name, MAX_COMMAND_NAME_LEN);
        if let Err(e) = lv {
            return Err(e);
        }
        let mut i: usize = 0;
        assert(self.entries@.skip(0) =~= self.entries@);
        while i < self.entries.len()
            invariant
                i <= self.entries@.len(),
                label_outcome(name@, MAX_COMMAND_NAME_LEN as nat) is Ok,
                lookup(self.entries@, name@) == lookup(self.entries@.skip(i as int), name@),
            decreases self.entries@.len() - i,
        {
            proof {
                assert(self.entries@.skip(i as int)[0] == self.entries@[i as int]);
                assert(self.entries@.skip(i as int).drop_first() =~= self.entries@.skip(i + 1));
            }
            let d = self.entries[i];
            if str_eq(d.name, name) {
                return Ok(d);
            }
            i = i + 1;
        }
        proof {
            assert(self.entries@.skip(i as int) =~= Seq::<CommandDescriptor<'a>>::empty());
        }
        Err(TerminalError::UnknownCommand)
    }

    /// Authorizes a command descriptor for the supplied context.
    pub fn authorize(&self, descriptor: CommandDescriptor<'a>, context: CommandContext) -> (r:
        TerminalResult<()>)
        ensures
            r == authorize_outcome(descriptor, context),
    {
        let dv = descriptor.validate();
        if dv.is_err() {
            return dv;
        }
        let cv = context.validate();
        if cv.is_err() {
            return cv;
        }
        let rv = context.rights.require(descriptor.required_rights);
        if rv.is_err() {
            return rv;
        }
        if descriptor.requires_audit && (!context.audit_ready || !context.rights.contains(
            TerminalRights::audit(),
        )) {
            return Err(TerminalError::AuditRequired);
        }
        Ok(())
    }

    /// Performs registry lookup and fail-closed authorization for a request.
    ///
    /// This skeleton does not run command side effects. It returns an empty
    /// result record that downstream formatters can validate.
    pub fn execute_declared(&self, context: CommandContext, request: CommandRequest<'a>) -> (r:
        TerminalResult<CommandResultRecord<'a>>)
        ensures
            execute_outcome(self.spec_entries(), context, request) == (match r {
                Ok(rec) => Ok(record_fields(rec)),
                Err(e) => Err(e),
            }),
    {
        let rv = request.validate();
        if let Err(e) = rv {
            return Err(e);
        }
        let found = self.find(request.descriptor.name);
        let descriptor = match found {
            Ok(d) => d,
            Err(e) => {
                return Err(e);
            },
        };
        let av = self.authorize(descriptor, context);
        if let Err(e) = av {
            return Err(e);
        }
        let status = if descriptor.kind == CommandKind::Exit {
            CommandStatus::Exited
        } else {
            CommandStatus::Completed
        };
        let rec = CommandResultRecord::new(
            descriptor.name,
            status,
            "",
            descriptor.output_class,
            descriptor.output_redaction,
            request.trace,
        );
        proof {
            reveal_strlit("");
            assert(rec.output@ =~= Seq::<char>::empty());
            assert(record_fields(rec) == declared_result(descriptor, request));
        }
        Ok(rec)
    }
}

impl<'a, const N: usize> Default for CommandRegistry<'a, N> {
    fn default() -> (r: Self)
        ensures
            r.wf(),
            r.spec_entries().len() == 0,
            !r.spec_sealed(),
    {
        Self::new()
    }
}

/// When `lookup` finds nothing, no entry carries the name.
pub proof fn lemma_lookup_none_names<'a>(entries: Seq<CommandDescriptor<'a>>, name: Seq<char>)
    requires
        lookup(entries, name) is None,
    ensures
        forall|i: int| 0 <= i < entries.len() ==> (#[trigger] entries[i]).name@ != name,
    decreases entries.len(),
{
    if entries.len() > 0 {
        lemma_lookup_none_names(entries.drop_first(), name);
        assert forall|i: int| 0 <= i < entries.len() implies (#[trigger] entries[i]).name@ != name by {
            if i > 0 {
                assert(entries[i] == entries.drop_first()[i - 1]);
            }
        }
    }
}

/// When some entry carries the name, `lookup` finds a descriptor of that name
/// among the entries.
pub proof fn lemma_lookup_some<'a>(entries: Seq<CommandDescriptor<'a>>, name: Seq<char>)
    ensures
        lookup(entries, name) is Some ==> lookup(entries, name)->Some_0.name@ == name
            && entries.contains(lookup(entries, name)->Some_0),
        (exists|i: int| 0 <= i < entries.len() && (#[trigger] entries[i]).name@ == name) ==> lookup(
            entries,
            name,
        ) is Some,
    decreases entries.len(),
{
    if entries.len() > 0 {
        lemma_lookup_some(entries.drop_first(), name);
        if lookup(entries, name) is Some && entries[0].name@ != name {
            let d = lookup(entries, name)->Some_0;
            let k = choose|k: int| 0 <= k < entries.drop_first().len() && entries.drop_first()[k] == d;
            assert(entries[k + 1] == d);
        }
        if exists|i: int| 0 <= i < entries.len() && (#[trigger] entries[i]).name@ == name {
            let i = choose|i: int| 0 <= i < entries.len() && (#[trigger] entries[i]).name@ == name;
            if i > 0 && entries[0].name@ != name {
                assert(entries.drop_first()[i - 1] == entries[i]);
            }
        }
    }
}


/// Looking a name up after appending a descriptor finds what was found
/// before, or the appended descriptor when nothing was.
pub proof fn lemma_lookup_push<'a>(
    entries: Seq<CommandDescriptor<'a>>,
    d: CommandDescriptor<'a>,
    name: Seq<char>,
)
    ensures
        lookup(entries.push(d), name) == if lookup(entries, name) is Some {
            lookup(entries, name)
        } else if d.name@ == name {
            Some(d)
        } else {
            None
        },
    decreases entries.len(),
{
    if entries.len() == 0 {
        assert(entries.push(d).drop_first() =~= Seq::<CommandDescriptor<'a>>::empty());
    } else {
        assert(entries.push(d).drop_first() =~= entries.drop_first().push(d));
        lemma_lookup_push(entries.drop_first(), d, name);
    }
}

/// What a registry reads back after a write: once `d` is registered, finding
/// its name answers `d`, and every other name answers as before.
pub proof fn law_find_after_register<'a>(
    entries: Seq<CommandDescriptor<'a>>,
    sealed: bool,
    d: CommandDescriptor<'a>,
    cap: nat,
    other: Seq<char>,
)
    requires
        register_outcome(entries, sealed, d, cap) is Ok,
    ensures
        find_outcome(entries.push(d), d.name@) == Ok::<CommandDescriptor<'a>, TerminalError>(d),
        other != d.name@ ==> find_outcome(entries.push(d), other) == find_outcome(entries, other),
{
    lemma_lookup_push(entries, d, d.name@);
    lemma_lookup_push(entries, d, other);
}

/// A sealed registry refuses every registration.
pub proof fn law_sealed_registry_refuses<'a>(
    entries: Seq<CommandDescriptor<'a>>,
    d: CommandDescriptor<'a>,
    cap: nat,
)
    ensures
        register_outcome(entries, true, d, cap) == Err::<(), TerminalError>(TerminalError::Sealed),
{
}

/// Registering a name already present is refused as a duplicate whenever the
/// registry is open and the descriptor is valid.
pub proof fn law_duplicate_refused<'a>(
    entries: Seq<CommandDescriptor<'a>>,
    d: CommandDescriptor<'a>,
    cap: nat,
    i: int,
)
    requires
        0 <= i < entries.len(),
        entries[i].name@ == d.name@,
        d.spec_validate() is Ok,
    ensures
        register_outcome(entries, false, d, cap) == Err::<(), TerminalError>(
            TerminalError::Duplicate,
        ),
{
    lemma_lookup_some(entries, d.name@);
}

/// What a lookup answers is a registered descriptor of the requested name.
pub proof fn law_find_answers_registered<'a>(entries: Seq<CommandDescriptor<'a>>, name: Seq<char>)
    ensures
        find_outcome(entries, name) is Ok ==> find_outcome(entries, name)->Ok_0.name@ == name
            && entries.contains(find_outcome(entries, name)->Ok_0),
{
    lemma_lookup_some(entries, name);
}

/// Dispatch fails closed: a request answered successfully names a registered
/// command whose required rights the (valid) context holds, an audited
/// command ran only with an audit-ready context holding the audit right, the
/// answer carries the registered command's name and output classification
/// with a redaction suited to it, and only the exit command answers
/// `Exited`.
pub proof fn law_dispatch_is_authorized<'a>(
    entries: Seq<CommandDescriptor<'a>>,
    context: CommandContext,
    request: CommandRequest<'a>,
)
    requires
        execute_outcome(entries, context, request) is Ok,
    ensures
        ({
            let d = lookup(entries, request.descriptor.name@)->Some_0;
            let out = execute_outcome(entries, context, request)->Ok_0;
            &&& lookup(entries, request.descriptor.name@) is Some
            &&& entries.contains(d)
            &&& context.spec_validate() is Ok
            &&& rights_known(context.rights.0)
            &&& rights_include(context.rights.0, d.required_rights.0)
            &&& (d.requires_audit ==> context.audit_ready && rights_include(
                context.rights.0,
                TERMINAL_RIGHT_AUDIT,
            ))
            &&& out.0 == d.name@ && d.name@ == request.descriptor.name@
            &&& (out.1 == CommandStatus::Exited <==> d.kind == CommandKind::Exit)
            &&& status_is_success(out.1)
            &&& out.3 == d.output_class && out.4 == d.output_redaction
            &&& redaction_allowed(out.3, out.4)
            &&& out.5 == request.trace
        }),
{
    lemma_lookup_some(entries, request.descriptor.name@);
}

/// Every built-in descriptor is valid, and the built-ins that control
/// services, run cognition, or dump debug state require audit evidence.
pub proof fn law_builtins_are_valid(b: BuiltinCommand)
    ensures
        builtin_descriptor(b).spec_validate() is Ok,
        builtin_descriptor(b).requires_audit <==> (b == BuiltinCommand::ServiceRestart || b
            == BuiltinCommand::CognitionRun || b == BuiltinCommand::DebugDump),
{
    crate::law_empty_trace_validates();
    reveal_strlit("alani-terminal.commands.v1");
    let d = builtin_descriptor(b);
    let r = d.required_rights.0;
    assert(r & !crate::TERMINAL_KNOWN_RIGHTS == 0) by (bit_vector)
        requires
            r == crate::TERMINAL_RIGHT_READ || r == crate::TERMINAL_RIGHT_TRACE_READ || r
                == crate::TERMINAL_RIGHT_SERVICE_CONTROL || r == crate::TERMINAL_RIGHT_COGNITION
                || r == crate::TERMINAL_RIGHT_DEBUG || r == crate::TERMINAL_RIGHT_EXECUTE,
    ;
    match b {
        BuiltinCommand::Help => {
            reveal_strlit("help");
            crate::text::lemma_ascii_label("help"@, MAX_COMMAND_NAME_LEN as nat);
        },
        BuiltinCommand::Inspect => {
            reveal_strlit("inspect");
            crate::text::lemma_ascii_label("inspect"@, MAX_COMMAND_NAME_LEN as nat);
        },
        BuiltinCommand::TraceShow => {
            reveal_strlit("trace.show");
            crate::text::lemma_ascii_label("trace.show"@, MAX_COMMAND_NAME_LEN as nat);
        },
        BuiltinCommand::ServiceRestart => {
            reveal_strlit("service.restart");
            crate::text::lemma_ascii_label("service.restart"@, MAX_COMMAND_NAME_LEN as nat);
        },
        BuiltinCommand::CognitionRun => {
            reveal_strlit("cognition.run");
            crate::text::lemma_ascii_label("cognition.run"@, MAX_COMMAND_NAME_LEN as nat);
        },
        BuiltinCommand::DebugDump => {
            reveal_strlit("debug.dump");
            crate::text::lemma_ascii_label("debug.dump"@, MAX_COMMAND_NAME_LEN as nat);
        },
        BuiltinCommand::Exit => {
            reveal_strlit("exit");
            crate::text::lemma_ascii_label("exit"@, MAX_COMMAND_NAME_LEN as nat);
        },
        BuiltinCommand::Echo => {
            reveal_strlit("echo");
            crate::text::lemma_ascii_label("echo"@, MAX_COMMAND_NAME_LEN as nat);
        },
    }
}

/// Arguments are validated one by one, in order: they pass exactly when every
/// argument validates, and otherwise the answer is the error of the first
/// argument that does not.
pub proof fn law_arguments_first_error(args: Seq<CommandArgument>)
    ensures
        arguments_outcome(args) is Ok <==> forall|i: int|
            0 <= i < args.len() ==> (#[trigger] args[i]).spec_validate() is Ok,
        arguments_outcome(args) is Err ==> exists|i: int|
            0 <= i < args.len() && (#[trigger] args[i]).spec_validate() is Err
                && arguments_outcome(args) == args[i].spec_validate() && forall|k: int|
                0 <= k < i ==> (#[trigger] args[k]).spec_validate() is Ok,
    decreases args.len(),
{
    if args.len() == 0 {
        return ;
    }
    if args[0].spec_validate() is Err {
        return ;
    }
    let rest = args.drop_first();
    law_arguments_first_error(rest);
    assert forall|i: int| 0 <= i < rest.len() implies #[trigger] rest[i] == args[i + 1] by {}
    if arguments_outcome(args) is Ok {
        assert forall|i: int| 0 <= i < args.len() implies (#[trigger] args[i]).spec_validate() is Ok by {
            if i > 0 {
                assert(rest[i - 1] == args[i]);
            }
        }
    } else {
        let i = choose|i: int|
            0 <= i < rest.len() && (#[trigger] rest[i]).spec_validate() is Err
                && arguments_outcome(rest) == rest[i].spec_validate() && forall|k: int|
                0 <= k < i ==> (#[trigger] rest[k]).spec_validate() is Ok;
        assert(args[i + 1] == rest[i]);
        assert forall|k: int| 0 <= k < i + 1 implies (#[trigger] args[k]).spec_validate() is Ok by {
            if k > 0 {
                assert(rest[k - 1] == args[k]);
            }
        }
        assert(!(forall|j: int| 0 <= j < args.len() ==> (#[trigger] args[j]).spec_validate() is Ok))
            by {
            assert(args[i + 1].spec_validate() is Err);
        }
    }
}

/// A request validates only when every one of its arguments validates: a
/// request carrying an invalid argument is refused, and dispatching it
/// fails; so a successful dispatch implies that every argument of the
/// request is valid.
pub proof fn law_request_validates_every_argument<'a>(
    entries: Seq<CommandDescriptor<'a>>,
    context: CommandContext,
    request: CommandRequest<'a>,
)
    ensures
        request.spec_validate() is Ok ==> forall|i: int|
            0 <= i < request.arguments@.len() ==> (#[trigger] request.arguments@[i]).spec_validate() is Ok,
        execute_outcome(entries, context, request) is Ok ==> forall|i: int|
            0 <= i < request.arguments@.len() ==> (#[trigger] request.arguments@[i]).spec_validate() is Ok,
        (exists|i: int|
            0 <= i < request.arguments@.len() && (#[trigger] request.arguments@[i]).spec_validate()
                is Err) ==> request.spec_validate() is Err && execute_outcome(entries, context, request)
            is Err,
{
    law_arguments_first_error(request.arguments@);
}

/// What a valid request guarantees: a valid descriptor and trace, a
/// non-zero session, a present raw line of at most
/// [`MAX_COMMAND_OUTPUT_LEN`] bytes, at most [`MAX_COMMAND_ARGS`] arguments,
/// and each argument with a present value of at most
/// [`MAX_COMMAND_ARGUMENT_LEN`] bytes, a name that is absent or a valid
/// command label, and a redaction suited to its class.
pub proof fn law_valid_request_fields<'a>(request: CommandRequest<'a>)
    requires
        request.spec_validate() is Ok,
    ensures
        request.descriptor.spec_validate() is Ok,
        request.trace.spec_validate() is Ok,
        request.session_id != 0,
        request.raw@.len() > 0,
        utf8_len(request.raw@) <= MAX_COMMAND_OUTPUT_LEN,
        request.arguments@.len() <= MAX_COMMAND_ARGS,
        forall|i: int|
            0 <= i < request.arguments@.len() ==> {
                let a = #[trigger] request.arguments@[i];
                &&& a.value@.len() > 0
                &&& utf8_len(a.value@) <= MAX_COMMAND_ARGUMENT_LEN
                &&& (a.name@.len() == 0 || label_outcome(a.name@, MAX_COMMAND_NAME_LEN as nat)
                    is Ok)
                &&& redaction_allowed(a.data_class, a.redaction)
            },
{
    law_arguments_first_error(request.arguments@);
    assert forall|i: int| 0 <= i < request.arguments@.len() implies {
        let a = #[trigger] request.arguments@[i];
        &&& a.value@.len() > 0
        &&& utf8_len(a.value@) <= MAX_COMMAND_ARGUMENT_LEN
        &&& (a.name@.len() == 0 || label_outcome(a.name@, MAX_COMMAND_NAME_LEN as nat) is Ok)
        &&& redaction_allowed(a.data_class, a.redaction)
    } by {
        assert(request.arguments@[i].spec_validate() is Ok);
    }
}

} // verus!
