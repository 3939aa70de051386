//! Output formatting and diagnostic record boundary.
//!
//! Formatters validate output metadata and carry classification, redaction,
//! and trace context forward. They do not allocate; they return borrowed
//! bodies that concrete terminal frontends can render.

use vstd::prelude::*;

use crate::commands::CommandResultRecord;
use crate::text::utf8_len;
use crate::{
    class_requires_redaction, empty_trace, label_outcome, redaction_outcome,
    validate_redaction, validate_terminal_label, DataClass, RedactionState, TerminalError,
    TerminalResult, TraceContext,
};

verus! {

/// Formatter descriptor schema version.
pub const FORMAT_SCHEMA_VERSION: &'static str = "alani-terminal.format.v1";
/// Maximum formatter label length.
pub const MAX_FORMAT_LABEL_LEN: usize = 64;
/// Maximum diagnostic message length.
pub const MAX_DIAGNOSTIC_MESSAGE_LEN: usize = 4096;
/// Maximum formatter width accepted by the skeleton.
pub const MAX_FORMAT_WIDTH: u16 = 240;

/// Supported terminal output formats.
#[derive(Clone, Copy, Debug, PartialEq, Eq, Structural)]
pub enum OutputFormat {
    /// Plain text.
    Plain,
    /// JSON Lines envelope expected by tooling.
    JsonLines,
    /// Fixed-width table view.
    Table,
    /// Markdown-oriented host output.
    Markdown,
    /// Diagnostic record view.
    Diagnostic,
}

/// The stable label of each output format.
pub open spec fn format_label(f: OutputFormat) -> Seq<char> {
    match f {
        OutputFormat::Plain => "plain"@,
        OutputFormat::JsonLines => "jsonl"@,
        OutputFormat::Table => "table"@,
        OutputFormat::Markdown => "markdown"@,
        OutputFormat::Diagnostic => "diagnostic"@,
    }
}

impl OutputFormat {
    /// Stable format label.
    pub fn label(self) -> (r: &'static str)
        ensures
            r@ == format_label(self),
    {
        match self {
            OutputFormat::Plain => "plain",
            OutputFormat::JsonLines => "jsonl",
            OutputFormat::Table => "table",
            OutputFormat::Markdown => "markdown",
            OutputFormat::Diagnostic => "diagnostic",
        }
    }
}

/// Diagnostic severity.
#[derive(Clone, Copy, Debug, PartialEq, Eq, PartialOrd, Ord, Structural)]
pub enum Severity {
    /// Trace-level details.
    Trace,
    /// Debug-only details.
    Debug,
    /// Informational output.
    Info,
    /// Warning output.
    Warn,
    /// Error output.
    Error,
}

/// The stable label of each severity.
pub open spec fn severity_label(s: Severity) -> Seq<char> {
    match s {
        Severity::Trace => "trace"@,
        Severity::Debug => "debug"@,
        Severity::Info => "info"@,
        Severity::Warn => "warn"@,
        Severity::Error => "error"@,
    }
}

impl Severity {
    /// Stable severity label.
    pub fn label(self) -> (r: &'static str)
        ensures
            r@ == severity_label(self),
    {
        match self {
            Severity::Trace => "trace",
            Severity::Debug => "debug",
            Severity::Info => "info",
            Severity::Warn => "warn",
            Severity::Error => "error",
        }
    }
}

/// Formatter style preferences.
#[derive(Clone, Copy, Debug, PartialEq, Eq, Structural)]
pub struct FormatStyle {
    /// Whether ANSI color may be emitted by a concrete frontend.
    pub color: bool,
    /// Preferred output width. Zero means unbounded.
    pub width: u16,
    /// Whether sensitive output must be redacted.
    pub redact_sensitive: bool,
}

/// The conservative default style: no color, 80 columns, redaction on.
pub open spec fn default_style() -> FormatStyle {
    FormatStyle { color: false, width: 80, redact_sensitive: true }
}

impl FormatStyle {
    /// A style is valid when its width is zero (unbounded) or between 20 and
    /// [`MAX_FORMAT_WIDTH`] columns.
    pub open spec fn spec_validate(self) -> TerminalResult<()> {
        if self.width > MAX_FORMAT_WIDTH || (self.width != 0 && self.width < 20) {
            Err(TerminalError::InvalidFormat)
        } else {
            Ok(())
        }
    }

    /// Creates a formatter style.
    pub fn new(color: bool, width: u16, redact_sensitive: bool) -> (r: Self)
        ensures
            r == (FormatStyle { color, width, redact_sensitive }),
    {
        FormatStyle { color, width, redact_sensitive }
    }

    /// Validates formatter style bounds.
    pub fn validate(self) -> (r: TerminalResult<()>)
        ensures
            r == self.spec_validate(),
    {
        if self.width > MAX_FORMAT_WIDTH {
            return Err(TerminalError::InvalidFormat);
        }
        if self.width != 0 && self.width < 20 {
            return Err(TerminalError::InvalidFormat);
        }
        Ok(())
    }
}

impl Default for FormatStyle {
    /// Conservative default style.
    fn default() -> (r: Self)
        ensures
            r == default_style(),
    {
        FormatStyle { color: false, width: 80, redact_sensitive: true }
    }
}

/// Formatter descriptor.
#[derive(Clone, Copy, Debug, PartialEq, Eq)]
pub struct FormatDescriptor<'a> {
    /// Stable formatter name.
    pub name: &'a str,
    /// Formatter schema version.
    pub schema: &'static str,
    /// Default output format.
    pub output_format: OutputFormat,
    /// Style preferences.
    pub style: FormatStyle,
    /// Trace context for formatter creation or invocation.
    pub trace: TraceContext,
}

impl<'a> FormatDescriptor<'a> {
    /// The outcome of validating a formatter descriptor: a bad name or an
    /// empty schema is an invalid format; then the style and the trace are
    /// checked.
    pub open spec fn spec_validate(self) -> TerminalResult<()> {
        if label_outcome(self.name@, MAX_FORMAT_LABEL_LEN as nat) is Err {
            Err(TerminalError::InvalidFormat)
        } else if self.schema@.len() == 0 {
            Err(TerminalError::InvalidFormat)
        } else if self.style.spec_validate() is Err {
            self.style.spec_validate()
        } else {
            self.trace.spec_validate()
        }
    }

    /// Creates a formatter descriptor.
    pub fn new(name: &'a str, output_format: OutputFormat) -> (r: Self)
        ensures
            r == (FormatDescriptor {
                name,
                schema: FORMAT_SCHEMA_VERSION,
                output_format,
                style: default_style(),
                trace: empty_trace(),
            }),
    {
        FormatDescriptor {
            name,
            schema: FORMAT_SCHEMA_VERSION,
            output_format,
            style: FormatStyle { color: false, width: 80, redact_sensitive: true },
            trace: TraceContext::empty(),
        }
    }

    /// Overrides style preferences.
    pub fn with_style(self, style: FormatStyle) -> (r: Self)
        ensures
            r == (FormatDescriptor { style, ..self }),
    {
        let mut d = self;
        d.style = style;
        d
    }

    /// Attaches trace metadata.
    pub fn with_trace(self, trace: TraceContext) -> (r: Self)
        ensures
            r == (FormatDescriptor { trace, ..self }),
    {
        let mut d = self;
        d.trace = trace;
        d
    }

    /// Validates formatter descriptor metadata.
    pub fn validate(self) -> (r: TerminalResult<()>)
        ensures
            r == self.spec_validate(),
    {
        if validate_terminal_label(self.name, MAX_FORMAT_LABEL_LEN).is_err() {
            return Err(TerminalError::InvalidFormat);
        }
        if self.schema.is_empty() {
            return Err(TerminalError::InvalidFormat);
        }
        let sv = self.style.validate();
        if sv.is_err() {
            return sv;
        }
        self.trace.validate()
    }
}

/// Whether a class that must be redacted is marked as unredacted.
pub open spec fn exposes_sensitive(data_class: DataClass, redaction: RedactionState) -> bool {
    class_requires_redaction(data_class) && redaction == RedactionState::UnredactedSensitive
}

/// Diagnostic record accepted by terminal formatters.
#[derive(Clone, Copy, Debug, PartialEq, Eq)]
pub struct DiagnosticRecord<'a> {
    /// Component or command that produced the diagnostic.
    pub component: &'a str,
    /// Diagnostic message body.
    pub message: &'a str,
    /// Diagnostic severity.
    pub severity: Severity,
    /// Data class for the message.
    pub data_class: DataClass,
    /// Redaction state for the message.
    pub redaction: RedactionState,
    /// Trace context for the diagnostic.
    pub trace: TraceContext,
}

impl<'a> DiagnosticRecord<'a> {
    /// The outcome of validating a diagnostic: a valid component label; a
    /// present message of at most [`MAX_DIAGNOSTIC_MESSAGE_LEN`] bytes;
    /// sensitive or secret data marked unredacted is sensitive output; the
    /// redaction must suit the class; and the trace must validate.
    pub open spec fn spec_validate(self) -> TerminalResult<()> {
        if label_outcome(self.component@, MAX_FORMAT_LABEL_LEN as nat) is Err {
            label_outcome(self.component@, MAX_FORMAT_LABEL_LEN as nat)
        } else if self.message@.len() == 0 {
            Err(TerminalError::MissingField)
        } else if utf8_len(self.message@) > MAX_DIAGNOSTIC_MESSAGE_LEN {
            Err(TerminalError::FieldTooLong)
        } else if exposes_sensitive(self.data_class, self.redaction) {
            Err(TerminalError::SensitiveOutput)
        } else if redaction_outcome(self.data_class, self.redaction) is Err {
            redaction_outcome(self.data_class, self.redaction)
        } else {
            self.trace.spec_validate()
        }
    }

    /// Creates an operational diagnostic record.
    pub fn new(component: &'a str, message: &'a str, severity: Severity) -> (r: Self)
        ensures
            r == (DiagnosticRecord {
                component,
                message,
                severity,
                data_class: DataClass::Operational,
                redaction: RedactionState::Operational,
                trace: empty_trace(),
            }),
    {
        DiagnosticRecord {
            component,
            message,
            severity,
            data_class: DataClass::Operational,
            redaction: RedactionState::Operational,
            trace: TraceContext::empty(),
        }
    }

    /// Overrides classification and redaction metadata.
    pub fn with_data(self, data_class: DataClass, redaction: RedactionState) -> (r: Self)
        ensures
            r == (DiagnosticRecord { data_class, redaction, ..self }),
    {
        let mut d = self;
        d.data_class = data_class;
        d.redaction = redaction;
        d
    }

    /// Attaches trace metadata.
    pub fn with_trace(self, trace: TraceContext) -> (r: Self)
        ensures
            r == (DiagnosticRecord { trace, ..self }),
    {
        let mut d = self;
        d.trace = trace;
        d
    }

    /// Validates diagnostic metadata before display or export.
    pub fn validate(self) -> (r: TerminalResult<()>)
        ensures
            r == self.spec_validate(),
    {
        let lv = validate_terminal_label(self.component, MAX_FORMAT_LABEL_LEN);
        if lv.is_err() {
            return lv;
        }
        if self.message.is_empty() {
            return Err(TerminalError::MissingField);
        }
        if self.message.as_bytes().len() > MAX_DIAGNOSTIC_MESSAGE_LEN {
            return Err(TerminalError::FieldTooLong);
        }
        if self.data_class.requires_redaction() && self.redaction
            == RedactionState::UnredactedSensitive {
            return Err(TerminalError::SensitiveOutput);
        }
        let rv = validate_redaction(self.data_class, self.redaction);
        if rv.is_err() {
            return rv;
        }
        self.trace.validate()
    }
}

/// Formatted output envelope.
#[derive(Clone, Copy, Debug, PartialEq, Eq)]
pub struct FormattedOutput<'a> {
    /// Output format.
    pub output_format: OutputFormat,
    /// Borrowed output body.
    pub body: &'a str,
    /// Data class for the output.
    pub data_class: DataClass,
    /// Redaction state for the output.
    pub redaction: RedactionState,
    /// Trace context for the output.
    pub trace: TraceContext,
}

impl<'a> FormattedOutput<'a> {
    /// The outcome of validating formatted output: a body of at most
    /// [`MAX_DIAGNOSTIC_MESSAGE_LEN`] bytes; no unredacted sensitive data; a
    /// redaction suited to the class; and a valid trace.
    pub open spec fn spec_validate(self) -> TerminalResult<()> {
        if utf8_len(self.body@) > MAX_DIAGNOSTIC_MESSAGE_LEN {
            Err(TerminalError::FieldTooLong)
        } else if exposes_sensitive(self.data_class, self.redaction) {
            Err(TerminalError::SensitiveOutput)
        } else if redaction_outcome(self.data_class, self.redaction) is Err {
            redaction_outcome(self.data_class, self.redaction)
        } else {
            self.trace.spec_validate()
        }
    }

    /// Creates formatted output.
    pub fn new(
        output_format: OutputFormat,
        body: &'a str,
        data_class: DataClass,
        redaction: RedactionState,
        trace: TraceContext,
    ) -> (r: Self)
        ensures
            r == (FormattedOutput { output_format, body, data_class, redaction, trace }),
    {
        FormattedOutput { output_format, body, data_class, redaction, trace }
    }

    /// Validates formatted output metadata.
    pub fn validate(self) -> (r: TerminalResult<()>)
        ensures
            r == self.spec_validate(),
    {
        if self.body.as_bytes().len() > MAX_DIAGNOSTIC_MESSAGE_LEN {
            return Err(TerminalError::FieldTooLong);
        }
        if self.data_class.requires_redaction() && self.redaction
            == RedactionState::UnredactedSensitive {
            return Err(TerminalError::SensitiveOutput);
        }
        let rv = validate_redaction(self.data_class, self.redaction);
        if rv.is_err() {
            return rv;
        }
        self.trace.validate()
    }
}

/// The outcome of formatting a diagnostic: the descriptor and the record
/// must validate; the output then carries the descriptor's format and the
/// record's message, classification, redaction, and trace.
pub open spec fn format_record_outcome<'a>(
    descriptor: FormatDescriptor<'a>,
    record: DiagnosticRecord<'a>,
) -> TerminalResult<FormattedOutput<'a>> {
    if descriptor.spec_validate() is Err {
        Err(descriptor.spec_validate()->Err_0)
    } else if record.spec_validate() is Err {
        Err(record.spec_validate()->Err_0)
    } else {
        Ok(
            FormattedOutput {
                output_format: descriptor.output_format,
                body: record.message,
                data_class: record.data_class,
                redaction: record.redaction,
                trace: record.trace,
            },
        )
    }
}

/// The outcome of formatting a command result: the descriptor and the
/// result must validate; the output then carries the descriptor's format and
/// the result's body, classification, redaction, and trace.
pub open spec fn format_result_outcome<'a>(
    descriptor: FormatDescriptor<'a>,
    result: CommandResultRecord<'a>,
) -> TerminalResult<FormattedOutput<'a>> {
    if descriptor.spec_validate() is Err {
        Err(descriptor.spec_validate()->Err_0)
    } else if result.spec_validate() is Err {
        Err(result.spec_validate()->Err_0)
    } else {
        Ok(
            FormattedOutput {
                output_format: descriptor.output_format,
                body: result.output,
                data_class: result.data_class,
                redaction: result.redaction,
                trace: result.trace,
            },
        )
    }
}

/// Validates a diagnostic record and returns a borrowed formatted output view.
pub fn format_record<'a>(descriptor: FormatDescriptor<'a>, record: DiagnosticRecord<'a>) -> (r:
    TerminalResult<FormattedOutput<'a>>)
    ensures
        r == format_record_outcome(descriptor, record),
{
    if let Err(e) = descriptor.validate() {
        return Err(e);
    }
    if let Err(e) = record.validate() {
        return Err(e);
    }
    if descriptor.style.redact_sensitive && record.data_class.requires_redaction() {
        if let Err(e) = validate_redaction(record.data_class, record.redaction) {
            return Err(e);
        }
    }
    let output = FormattedOutput::new(
        descriptor.output_format,
        record.message,
        record.data_class,
        record.redaction,
        record.trace,
    );
    if let Err(e) = output.validate() {
        return Err(e);
    }
    Ok(output)
}

/// Validates a command result and returns a borrowed formatted output view.
pub fn format_command_result<'a>(
    descriptor: FormatDescriptor<'a>,
    result: CommandResultRecord<'a>,
) -> (r: TerminalResult<FormattedOutput<'a>>)
    ensures
        r == format_result_outcome(descriptor, result),
{
    if let Err(e) = descriptor.validate() {
        return Err(e);
    }
    if let Err(e) = result.validate() {
        return Err(e);
    }
    if descriptor.style.redact_sensitive && result.data_class.requires_redaction() {
        if let Err(e) = validate_redaction(result.data_class, result.redaction) {
            return Err(e);
        }
    }
    let output = FormattedOutput::new(
        descriptor.output_format,
        result.output,
        result.data_class,
        result.redaction,
        result.trace,
    );
    if let Err(e) = output.validate() {
        return Err(e);
    }
    Ok(output)
}


/// Formatting never exports unredacted sensitive data: whatever a
/// formatter returns for a diagnostic or a command result is itself valid
/// output, carries a redaction accepted for its class, and leaves no
/// sensitive or secret data unredacted.
pub proof fn law_formatted_output_is_exportable<'a>(
    descriptor: FormatDescriptor<'a>,
    record: DiagnosticRecord<'a>,
    result: CommandResultRecord<'a>,
)
    ensures
        format_record_outcome(descriptor, record) is Ok ==> {
            let out = format_record_outcome(descriptor, record)->Ok_0;
            &&& out.spec_validate() is Ok
            &&& !exposes_sensitive(out.data_class, out.redaction)
            &&& crate::redaction_allowed(out.data_class, out.redaction)
        },
        format_result_outcome(descriptor, result) is Ok ==> {
            let out = format_result_outcome(descriptor, result)->Ok_0;
            &&& out.spec_validate() is Ok
            &&& !exposes_sensitive(out.data_class, out.redaction)
            &&& crate::redaction_allowed(out.data_class, out.redaction)
        },
{
}

/// Formatting passes its inputs through: a diagnostic or a command result is
/// formatted exactly when both the descriptor and the input validate, a bad
/// descriptor is reported before a bad input, and the output carries the
/// descriptor's output format together with the input's body,
/// classification, redaction, and trace, unchanged.
pub proof fn law_formatted_output_carries_inputs<'a>(
    descriptor: FormatDescriptor<'a>,
    record: DiagnosticRecord<'a>,
    result: CommandResultRecord<'a>,
)
    ensures
        format_record_outcome(descriptor, record) is Ok <==> descriptor.spec_validate() is Ok
            && record.spec_validate() is Ok,
        format_result_outcome(descriptor, result) is Ok <==> descriptor.spec_validate() is Ok
            && result.spec_validate() is Ok,
        descriptor.spec_validate() is Err ==> format_record_outcome(descriptor, record)
            == Err::<FormattedOutput<'a>, TerminalError>(descriptor.spec_validate()->Err_0),
        descriptor.spec_validate() is Err ==> format_result_outcome(descriptor, result)
            == Err::<FormattedOutput<'a>, TerminalError>(descriptor.spec_validate()->Err_0),
        format_record_outcome(descriptor, record) is Ok ==> {
            let out = format_record_outcome(descriptor, record)->Ok_0;
            &&& out.output_format == descriptor.output_format
            &&& out.body == record.message
            &&& out.data_class == record.data_class
            &&& out.redaction == record.redaction
            &&& out.trace == record.trace
        },
        format_result_outcome(descriptor, result) is Ok ==> {
            let out = format_result_outcome(descriptor, result)->Ok_0;
            &&& out.output_format == descriptor.output_format
            &&& out.body == result.output
            &&& out.data_class == result.data_class
            &&& out.redaction == result.redaction
            &&& out.trace == result.trace
        },
{
}

} // verus!
