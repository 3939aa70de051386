use alani_terminal::{
    contains_sensitive_literal, format_command_result, format_record, parse_command,
    parse_script, validate_redaction, validate_terminal_label, BuiltinCommand, CommandArgument,
    CommandContext, CommandDescriptor, CommandKind, CommandRegistry, CommandRequest,
    CommandResultRecord, CommandStatus, DataClass, DiagnosticRecord, FormatDescriptor,
    FormatStyle, FormattedOutput, OutputFormat, ParsePolicy, ParserDescriptor, PrincipalKind,
    RedactionState, SessionDescriptor, SessionEventKind, SessionMode, SessionState, Severity,
    TerminalCatalog, TerminalError, TerminalPrincipal, TerminalRights, TerminalSession, Token,
    TokenKind, TraceContext, MAX_COMMANDS, TERMINAL_KNOWN_RIGHTS, TRACE_FLAG_AUDIT_REQUIRED,
    TRACE_FLAG_INTERACTIVE_BOUNDARY, TRACE_FLAG_SAMPLED,
};

fn parser() -> ParserDescriptor<'static> {
    ParserDescriptor::new("host-parser")
}

// ---------------------------------------------------------------- labels

#[test]
fn labels_follow_the_byte_rules() {
    assert!(validate_terminal_label("user@host:/a_b-c.d", 64).is_ok());
    assert_eq!(validate_terminal_label("", 64), Err(TerminalError::MissingField));
    assert_eq!(validate_terminal_label("abcde", 4), Err(TerminalError::FieldTooLong));
    assert_eq!(validate_terminal_label("abcd", 4), Ok(()));
    assert_eq!(validate_terminal_label("a b", 64), Err(TerminalError::InvalidLabel));
    assert_eq!(validate_terminal_label("naïve", 64), Err(TerminalError::InvalidLabel));
    // byte length counts: four 2-byte characters exceed a limit of 7
    assert_eq!(validate_terminal_label("éééé", 7), Err(TerminalError::FieldTooLong));
}

#[test]
fn error_reasons_and_security_relevance() {
    assert_eq!(TerminalError::MissingField.reason(), "missing_field");
    assert_eq!(TerminalError::CapacityExceeded.reason(), "capacity_exceeded");
    assert_eq!(TerminalError::SensitiveOutput.reason(), "sensitive_output");
    assert_eq!(TerminalError::Internal.reason(), "internal");
    assert!(TerminalError::AccessDenied.is_security_relevant());
    assert!(TerminalError::SensitiveInput.is_security_relevant());
    assert!(!TerminalError::MissingField.is_security_relevant());
    assert!(!TerminalError::CapacityExceeded.is_security_relevant());
}

#[test]
fn data_classes_and_redaction_table() {
    assert!(DataClass::Secret.requires_redaction());
    assert!(DataClass::Sensitive.requires_redaction());
    assert!(!DataClass::Operational.requires_redaction());
    assert_eq!(DataClass::Operational.label(), "operational");
    assert_eq!(RedactionState::UnredactedSensitive.label(), "unredacted_sensitive");
    assert!(validate_redaction(DataClass::Public, RedactionState::Public).is_ok());
    assert!(validate_redaction(DataClass::Operational, RedactionState::Operational).is_ok());
    assert!(validate_redaction(DataClass::Sensitive, RedactionState::SecretRedacted).is_ok());
    assert!(validate_redaction(DataClass::Sensitive, RedactionState::SensitiveRedacted).is_ok());
    assert!(validate_redaction(DataClass::Secret, RedactionState::SecretRedacted).is_ok());
    for r in [
        RedactionState::Public,
        RedactionState::Operational,
        RedactionState::SensitiveRedacted,
        RedactionState::UnredactedSensitive,
    ] {
        assert_eq!(
            validate_redaction(DataClass::Secret, r),
            Err(TerminalError::InvalidRedaction)
        );
    }
    assert_eq!(
        validate_redaction(DataClass::Public, RedactionState::Operational),
        Err(TerminalError::InvalidRedaction)
    );
}

// ---------------------------------------------------------------- traces and rights

#[test]
fn trace_contexts_validate_and_propagate() {
    let root = TraceContext::root(5, 50);
    assert_eq!(root.parent_span_id, 0);
    assert_eq!(root.flags, TRACE_FLAG_SAMPLED | TRACE_FLAG_INTERACTIVE_BOUNDARY);
    assert!(root.validate().is_ok());
    assert!(root.is_present());
    let child = root.child(51);
    assert_eq!((child.trace_id, child.span_id, child.parent_span_id), (5, 51, 50));
    assert!(child.validate().is_ok());
    assert_eq!(root.child(50).validate(), Err(TerminalError::InvalidTrace));
    assert!(TraceContext::empty().validate().is_ok());
    assert!(!TraceContext::empty().is_present());
    assert_eq!(root.with_flags(1 << 9).validate(), Err(TerminalError::ReservedBits));
    assert!(root.with_flags(TRACE_FLAG_AUDIT_REQUIRED).has_flags(TRACE_FLAG_AUDIT_REQUIRED));
    assert!(!root.has_flags(TRACE_FLAG_AUDIT_REQUIRED));
    let orphan = TraceContext { trace_id: 0, span_id: 0, parent_span_id: 3, flags: 0 };
    assert_eq!(orphan.validate(), Err(TerminalError::InvalidTrace));
}

#[test]
fn rights_require_fails_closed() {
    let rw = TerminalRights::read().union(TerminalRights::execute());
    assert_eq!(rw.bits(), 0b11);
    assert!(rw.contains(TerminalRights::read()));
    assert!(!rw.contains(TerminalRights::audit()));
    assert_eq!(rw.require(TerminalRights::read()), Ok(()));
    assert_eq!(rw.require(TerminalRights::debug()), Err(TerminalError::AccessDenied));
    assert_eq!(
        TerminalRights(1 << 40).require(TerminalRights::none()),
        Err(TerminalError::ReservedBits)
    );
    assert_eq!(rw.require(TerminalRights(1 << 40)), Err(TerminalError::ReservedBits));
    assert_eq!(TerminalRights::from_bits(0b101).unwrap().bits(), 0b101);
    assert_eq!(TerminalRights::administrator().bits(), TERMINAL_KNOWN_RIGHTS);
    assert!(TerminalRights::administrator().contains(TerminalRights::admin()));
    assert_eq!(TerminalRights(1 << 9).validate(), Err(TerminalError::ReservedBits));
}

#[test]
fn catalog_validation_rejects_bad_metadata() {
    let good = alani_terminal::terminal_catalog();
    let empty = TerminalCatalog { repository: "", ..good };
    assert_eq!(empty.validate(), Err(TerminalError::MissingField));
    let reserved = TerminalCatalog { features: 1 << 20, ..good };
    assert_eq!(reserved.validate(), Err(TerminalError::ReservedBits));
}

// ---------------------------------------------------------------- parser

#[test]
fn parser_classifies_every_token_kind() {
    let p = parse_command::<8>(
        parser(),
        "  run 'quoted' --flag key_x=1 plain  ",
        ParsePolicy::default(),
    );
    // `key_x=1` holds no sensitive marker (`key=` needs the equals sign right after `key`)
    let p = p.unwrap();
    assert_eq!(p.raw, "run 'quoted' --flag key_x=1 plain");
    assert_eq!(p.command, "run");
    assert_eq!(p.len(), 5);
    let kinds: Vec<TokenKind> = (0..5).map(|i| p.token(i).unwrap().kind).collect();
    assert_eq!(
        kinds,
        vec![
            TokenKind::Command,
            TokenKind::Quoted,
            TokenKind::Flag,
            TokenKind::Assignment,
            TokenKind::Argument
        ]
    );
    for i in 0..5 {
        assert_eq!(p.token(i).unwrap().index, i);
    }
    assert_eq!(p.token(5), None);
    assert_eq!(p.argument_count(), 4);
    assert!(p.command_is("run"));
    assert!(!p.command_is("ru"));
}

#[test]
fn parser_rejects_unsafe_input() {
    let d = parser();
    let pol = ParsePolicy::default();
    assert_eq!(parse_command::<8>(d, "ls;rm", pol).unwrap_err(), TerminalError::ParseError);
    assert_eq!(parse_command::<8>(d, "cat a|b", pol).unwrap_err(), TerminalError::ParseError);
    assert_eq!(parse_command::<8>(d, "echo `x`", pol).unwrap_err(), TerminalError::ParseError);
    assert_eq!(
        parse_command::<8>(d, "echo \"two words\"", pol).unwrap_err(),
        TerminalError::ParseError
    );
    assert_eq!(parse_command::<8>(d, "echo a\"b", pol).unwrap_err(), TerminalError::ParseError);
    assert_eq!(parse_command::<8>(d, "echo 'x\"", pol).unwrap_err(), TerminalError::ParseError);
    assert_eq!(parse_command::<8>(d, "in$pect", pol).unwrap_err(), TerminalError::InvalidCommand);
    assert_eq!(parse_command::<8>(d, "   ", pol).unwrap_err(), TerminalError::MissingField);
    assert_eq!(parse_command::<8>(d, "# nothing", pol).unwrap_err(), TerminalError::MissingField);
    assert_eq!(
        parse_command::<8>(d, "echo --password", pol).unwrap_err(),
        TerminalError::SensitiveInput
    );
}

#[test]
fn parser_honours_policy_switches() {
    let d = parser();
    let no_comments = ParsePolicy { allow_comments: false, ..ParsePolicy::default() };
    assert_eq!(
        parse_command::<8>(d, "inspect # note", no_comments).unwrap_err(),
        TerminalError::ParseError
    );
    let with_comment = parse_command::<8>(d, "inspect runtime # note", ParsePolicy::default()).unwrap();
    assert_eq!(with_comment.len(), 2);

    let no_quotes = ParsePolicy { allow_quoted: false, ..ParsePolicy::default() };
    assert_eq!(parse_command::<8>(d, "echo 'x'", no_quotes).unwrap_err(), TerminalError::ParseError);

    let trusted = ParsePolicy::default().with_sensitive_literals();
    let p = parse_command::<8>(d, "login password=hunter2", trusted).unwrap();
    assert!(p.has_sensitive_literal);
    assert_eq!(p.len(), 2);

    let two = ParsePolicy::new(2, 4096);
    assert_eq!(parse_command::<8>(d, "a b c", two).unwrap_err(), TerminalError::CapacityExceeded);
    assert_eq!(parse_command::<8>(d, "a b", two).unwrap().len(), 2);

    let short = ParsePolicy::new(8, 5);
    assert_eq!(parse_command::<8>(d, "abcdef", short).unwrap_err(), TerminalError::FieldTooLong);
}

#[test]
fn parser_policy_and_descriptor_validation() {
    assert_eq!(ParsePolicy::new(0, 10).validate(), Err(TerminalError::InvalidParser));
    assert_eq!(ParsePolicy::new(10, 0).validate(), Err(TerminalError::InvalidParser));
    assert_eq!(ParsePolicy::new(65, 10).validate(), Err(TerminalError::FieldTooLong));
    assert_eq!(ParsePolicy::new(64, 4097).validate(), Err(TerminalError::FieldTooLong));
    assert!(ParsePolicy::default().validate().is_ok());
    assert_eq!(
        parse_command::<8>(ParserDescriptor::new("bad name"), "inspect", ParsePolicy::default())
            .unwrap_err(),
        TerminalError::InvalidParser
    );
    assert_eq!(
        parse_command::<8>(parser(), "inspect", ParsePolicy::new(0, 1)).unwrap_err(),
        TerminalError::InvalidParser
    );
    let traced = parser().with_trace(TraceContext::root(8, 80));
    assert_eq!(parse_command::<8>(traced, "inspect", ParsePolicy::default()).unwrap().trace.span_id, 80);
    assert_eq!(
        parser().with_policy(ParsePolicy::new(3, 3)).policy,
        ParsePolicy::new(3, 3)
    );
}

#[test]
fn parser_splits_on_unicode_whitespace_and_counts_bytes() {
    let p = parse_command::<8>(parser(), "inspect\u{3000}runtime\u{a0}now", ParsePolicy::default())
        .unwrap();
    assert_eq!(p.len(), 3);
    assert_eq!(p.token(1).unwrap().text, "runtime");
    let ok_token = format!("echo {}", "é".repeat(128));
    assert!(parse_command::<8>(parser(), &ok_token, ParsePolicy::default()).is_ok());
    let long_token = format!("echo {}", "é".repeat(129));
    assert_eq!(
        parse_command::<8>(parser(), &long_token, ParsePolicy::default()).unwrap_err(),
        TerminalError::FieldTooLong
    );
}

#[test]
fn tokens_validate_bounds() {
    assert!(Token::new("x", TokenKind::Argument, 1).validate().is_ok());
    assert_eq!(Token::new("", TokenKind::Argument, 1).validate(), Err(TerminalError::MissingField));
    let long = "y".repeat(257);
    assert_eq!(Token::new(&long, TokenKind::Argument, 1).validate(), Err(TerminalError::FieldTooLong));
}

#[test]
fn sensitive_literal_markers() {
    for s in [
        "password=x", "xsecret=y", "token=", "credential=1", "apikey=2", "--password",
        "--secret-file", "--tokens",
    ] {
        assert!(contains_sensitive_literal(s), "{s}");
    }
    for s in ["password", "key", "--pass", "tok=en", ""] {
        assert!(!contains_sensitive_literal(s), "{s}");
    }
}

#[test]
fn scripts_plan_lines_and_fail_closed() {
    let d = parser();
    let pol = ParsePolicy::default();
    let plan = parse_script::<4, 8>(d, "inspect a\r\n\r\n  echo b  \n", pol).unwrap();
    assert_eq!(plan.len(), 2);
    assert!(plan.command_at(1).unwrap().command_is("echo"));
    assert_eq!(plan.command_at(1).unwrap().raw, "echo b");
    assert!(plan.command_at(2).is_none());
    assert!(!plan.has_sensitive_literal);

    assert_eq!(
        parse_script::<1, 8>(d, "a\nb", pol).unwrap_err(),
        TerminalError::CapacityExceeded
    );
    assert_eq!(parse_script::<4, 8>(d, "# a\n\n# b", pol).unwrap_err(), TerminalError::MissingField);
    let no_comments = ParsePolicy { allow_comments: false, ..pol };
    assert_eq!(
        parse_script::<4, 8>(d, "a\n# b", no_comments).unwrap_err(),
        TerminalError::ParseError
    );
    assert_eq!(parse_script::<4, 8>(d, "a\nb;c", pol).unwrap_err(), TerminalError::ParseError);
    let trusted = pol.with_sensitive_literals();
    let plan = parse_script::<4, 8>(d, "a\nb token=1", trusted).unwrap();
    assert!(plan.has_sensitive_literal);
    assert!(!plan.command_at(0).unwrap().has_sensitive_literal);
    assert_eq!(
        parse_script::<4, 8>(d, "a", ParsePolicy::new(8, 0)).unwrap_err(),
        TerminalError::InvalidParser
    );
}

// ---------------------------------------------------------------- commands

fn trace() -> TraceContext {
    TraceContext::root(1, 10)
}

#[test]
fn builtins_all_register_and_describe_themselves() {
    let all = [
        BuiltinCommand::Help,
        BuiltinCommand::Inspect,
        BuiltinCommand::TraceShow,
        BuiltinCommand::ServiceRestart,
        BuiltinCommand::CognitionRun,
        BuiltinCommand::DebugDump,
        BuiltinCommand::Exit,
        BuiltinCommand::Echo,
    ];
    let mut registry: CommandRegistry<8> = CommandRegistry::new();
    for b in all {
        assert!(b.descriptor().validate().is_ok());
        registry.register_builtin(b).unwrap();
    }
    assert_eq!(registry.len(), 8);
    assert_eq!(registry.register_builtin(BuiltinCommand::Help), Err(TerminalError::Duplicate));
    let dump = registry.find("debug.dump").unwrap();
    assert!(dump.requires_audit);
    assert_eq!(dump.output_class, DataClass::Sensitive);
    assert_eq!(dump.kind.label(), "debug");
    assert!(!registry.find("help").unwrap().requires_audit);
    assert_eq!(registry.find("trace.show").unwrap().required_rights, TerminalRights::trace_read());
}

#[test]
fn registry_respects_seal_capacity_and_validation() {
    let mut registry: CommandRegistry<1> = CommandRegistry::default();
    assert!(registry.is_empty());
    let a = CommandDescriptor::new("a", CommandKind::Echo, TerminalRights::execute());
    let b = CommandDescriptor::new("b", CommandKind::Echo, TerminalRights::execute());
    registry.register(a).unwrap();
    assert_eq!(registry.register(b), Err(TerminalError::CapacityExceeded));
    assert_eq!(registry.len(), 1);
    registry.seal();
    assert!(registry.is_sealed());
    assert_eq!(registry.register(a), Err(TerminalError::Sealed));

    let mut open: CommandRegistry<4> = CommandRegistry::new();
    let bad = CommandDescriptor::new("bad name", CommandKind::Echo, TerminalRights::execute());
    assert_eq!(open.register(bad), Err(TerminalError::InvalidCommand));
    let reserved = CommandDescriptor::new("r", CommandKind::Echo, TerminalRights(1 << 30));
    assert_eq!(open.register(reserved), Err(TerminalError::ReservedBits));
    let leaky = a.with_output(DataClass::Secret, RedactionState::Public);
    assert_eq!(open.register(leaky), Err(TerminalError::InvalidRedaction));
    let bad_trace = a.with_trace(TraceContext { trace_id: 1, span_id: 0, parent_span_id: 0, flags: 0 });
    assert_eq!(open.register(bad_trace), Err(TerminalError::InvalidTrace));
    assert!(open.is_empty());
    assert_eq!(open.find(""), Err(TerminalError::MissingField));
    assert_eq!(open.find("no spaces"), Err(TerminalError::InvalidLabel));
    assert_eq!(MAX_COMMANDS, 64);
}

#[test]
fn dispatch_authorizes_and_reports_exit() {
    let mut registry: CommandRegistry<4> = CommandRegistry::new();
    registry.register_builtin(BuiltinCommand::Exit).unwrap();
    registry.register_builtin(BuiltinCommand::DebugDump).unwrap();
    let exit = registry.find("exit").unwrap();
    let request = CommandRequest::new(exit, &[], "exit", 3, trace());
    let ctx = CommandContext::new(3, TerminalRights::execute(), trace());
    let result = registry.execute_declared(ctx, request).unwrap();
    assert_eq!(result.status, CommandStatus::Exited);
    assert_eq!(result.output, "");
    assert_eq!(result.data_class, DataClass::Public);
    assert!(result.is_success());

    let read_only = CommandContext::new(3, TerminalRights::read(), trace());
    assert_eq!(registry.execute_declared(read_only, request), Err(TerminalError::AccessDenied));
    assert_eq!(
        registry.execute_declared(CommandContext::new(0, TerminalRights::execute(), trace()), request),
        Err(TerminalError::InvalidSession)
    );

    let dump = registry.find("debug.dump").unwrap();
    let dump_request = CommandRequest::new(dump, &[], "debug.dump", 3, trace());
    let debugger = TerminalRights::debug().union(TerminalRights::audit());
    let not_ready = CommandContext::new(3, debugger, trace());
    assert_eq!(
        registry.execute_declared(not_ready, dump_request),
        Err(TerminalError::AuditRequired)
    );
    let ready = not_ready.with_audit_ready();
    let result = registry.execute_declared(ready, dump_request).unwrap();
    assert_eq!(result.status, CommandStatus::Completed);
    assert_eq!(result.redaction, RedactionState::SensitiveRedacted);
    assert!(registry.authorize(dump, ready).is_ok());
    let no_audit_right = CommandContext::new(3, TerminalRights::debug(), trace()).with_audit_ready();
    assert_eq!(registry.authorize(dump, no_audit_right), Err(TerminalError::AuditRequired));

    let unknown = CommandDescriptor::new("ghost", CommandKind::Echo, TerminalRights::execute());
    let request = CommandRequest::new(unknown, &[], "ghost", 3, trace());
    assert_eq!(registry.execute_declared(ctx, request), Err(TerminalError::UnknownCommand));
}

#[test]
fn requests_validate_in_order() {
    let d = CommandDescriptor::new("echo", CommandKind::Echo, TerminalRights::execute());
    let args = [CommandArgument::positional("x")];
    assert!(CommandRequest::new(d, &args, "echo x", 1, trace()).validate().is_ok());
    let many = [CommandArgument::positional("x"); 17];
    assert_eq!(
        CommandRequest::new(d, &many, "echo", 1, trace()).validate(),
        Err(TerminalError::CapacityExceeded)
    );
    assert_eq!(CommandRequest::new(d, &args, "", 1, trace()).validate(), Err(TerminalError::MissingField));
    let long_raw = "r".repeat(4097);
    assert_eq!(
        CommandRequest::new(d, &args, &long_raw, 1, trace()).validate(),
        Err(TerminalError::FieldTooLong)
    );
    assert_eq!(CommandRequest::new(d, &args, "echo", 0, trace()).validate(), Err(TerminalError::InvalidSession));
    let empty_value = [CommandArgument::positional("")];
    assert_eq!(
        CommandRequest::new(d, &empty_value, "echo", 1, trace()).validate(),
        Err(TerminalError::InvalidArgument)
    );
    let bad_name = [CommandArgument::named("bad name", "v", DataClass::Public, RedactionState::Public)];
    assert_eq!(
        CommandRequest::new(d, &bad_name, "echo", 1, trace()).validate(),
        Err(TerminalError::InvalidLabel)
    );
    let leaky = [CommandArgument::named("pw", "v", DataClass::Secret, RedactionState::Public)];
    assert_eq!(
        CommandRequest::new(d, &leaky, "echo", 1, trace()).validate(),
        Err(TerminalError::InvalidArgument)
    );
    let long_value = "v".repeat(257);
    let long_arg = [CommandArgument::named("v", &long_value, DataClass::Public, RedactionState::Public)];
    assert_eq!(
        CommandRequest::new(d, &long_arg, "echo", 1, trace()).validate(),
        Err(TerminalError::FieldTooLong)
    );
    let audited = CommandRequest::new(d, &args, "echo", 1, trace().with_flags(TRACE_FLAG_AUDIT_REQUIRED));
    assert!(audited.requires_audit());
    assert!(!CommandRequest::new(d, &args, "echo", 1, trace()).requires_audit());
    assert!(CommandRequest::new(d.with_audit(), &args, "echo", 1, trace()).requires_audit());
}

#[test]
fn statuses_and_records() {
    assert!(CommandStatus::Exited.is_success());
    assert!(!CommandStatus::Denied.is_success());
    assert_eq!(CommandStatus::NeedsAudit.label(), "needs_audit");
    assert_eq!(CommandKind::ServiceControl.label(), "service_control");
    let rec = CommandResultRecord::new(
        "echo",
        CommandStatus::Failed,
        "x",
        DataClass::Public,
        RedactionState::Public,
        trace(),
    );
    assert!(!rec.is_success());
    assert!(rec.validate().is_ok());
    let big = "o".repeat(4097);
    let rec = CommandResultRecord { output: &big, ..rec };
    assert_eq!(rec.validate(), Err(TerminalError::FieldTooLong));
}

// ---------------------------------------------------------------- sessions

fn principal() -> TerminalPrincipal<'static> {
    TerminalPrincipal::new(PrincipalKind::Human, "alice")
}

#[test]
fn sessions_validate_their_descriptor() {
    let rights = TerminalRights::execute();
    let d = SessionDescriptor::new("s", SessionMode::Operator, principal(), rights);
    assert_eq!(TerminalSession::<4>::new(0, d).unwrap_err(), TerminalError::InvalidSession);
    assert_eq!(
        TerminalSession::<4>::new(1, d.with_audit_required()).unwrap_err(),
        TerminalError::AuditRequired
    );
    let bad_principal = SessionDescriptor::new(
        "s",
        SessionMode::Guest,
        TerminalPrincipal::new(PrincipalKind::Anonymous, ""),
        rights,
    );
    assert_eq!(TerminalSession::<4>::new(1, bad_principal).unwrap_err(), TerminalError::InvalidSession);
    assert_eq!(
        TerminalSession::<4>::new(1, d.with_data(DataClass::Secret, RedactionState::Public)).unwrap_err(),
        TerminalError::InvalidRedaction
    );
    let s = TerminalSession::<4>::new(1, d).unwrap();
    assert_eq!(s.state, SessionState::New);
    assert_eq!(s.event_count(), 0);
    assert!(!s.is_active());
}

#[test]
fn session_state_machine_fails_closed_and_counts_events() {
    let rights = TerminalRights::execute().union(TerminalRights::read());
    let d = SessionDescriptor::new("s", SessionMode::Operator, principal(), rights);
    let mut s = TerminalSession::<8>::new(7, d).unwrap();
    assert_eq!(s.close(trace()), Err(TerminalError::InvalidState));
    assert_eq!(s.record_command("x", true, false, trace()), Err(TerminalError::InvalidState));
    s.open(trace()).unwrap();
    assert_eq!(s.open(trace()), Err(TerminalError::InvalidState));
    assert!(s.is_active());
    s.record_command("inspect", false, false, trace()).unwrap();
    assert_eq!(
        s.record_command("inspect", true, true, trace()),
        Err(TerminalError::AuditRequired)
    );
    s.complete_command("inspect", trace()).unwrap();
    assert_eq!(s.unlock(rights, trace()), Err(TerminalError::InvalidState));
    s.lock(trace()).unwrap();
    assert_eq!(s.unlock(TerminalRights::read(), trace()), Err(TerminalError::AccessDenied));
    assert_eq!(s.unlock(TerminalRights(1 << 40), trace()), Err(TerminalError::ReservedBits));
    s.unlock(rights, trace()).unwrap();
    let ctx = s.command_context(trace()).unwrap();
    assert_eq!(ctx.session_id, 7);
    assert_eq!(ctx.rights, rights);
    assert!(!ctx.audit_ready);
    s.close(trace()).unwrap();
    assert_eq!(s.close(trace()), Err(TerminalError::SessionClosed));
    assert_eq!(s.unlock(rights, trace()), Err(TerminalError::SessionClosed));
    assert_eq!(s.lock(trace()), Err(TerminalError::SessionClosed));
    assert_eq!(s.complete_command("x", trace()), Err(TerminalError::SessionClosed));
    assert_eq!(s.command_context(trace()).unwrap_err(), TerminalError::SessionClosed);
    assert_eq!(s.event_count(), 6);
    let kinds: Vec<SessionEventKind> = (0..6).map(|i| s.event(i).unwrap().kind).collect();
    assert_eq!(
        kinds,
        vec![
            SessionEventKind::Opened,
            SessionEventKind::CommandDenied,
            SessionEventKind::CommandCompleted,
            SessionEventKind::Locked,
            SessionEventKind::Unlocked,
            SessionEventKind::Closed
        ]
    );
    for i in 0..6 {
        assert_eq!(s.event(i).unwrap().counter, i as u64 + 1);
    }
    assert_eq!(s.event(6), None);
    assert_eq!(s.event(0).unwrap().command, "session");
}

#[test]
fn full_session_history_refuses_and_stays_unchanged() {
    let d = SessionDescriptor::new("s", SessionMode::Automation, principal(), TerminalRights::execute());
    let mut s = TerminalSession::<1>::new(2, d).unwrap();
    s.open(trace()).unwrap();
    let before = s.clone();
    assert_eq!(s.record_command("x", true, false, trace()), Err(TerminalError::CapacityExceeded));
    assert_eq!(s.lock(trace()), Err(TerminalError::CapacityExceeded));
    assert_eq!(s.state, SessionState::Active);
    assert_eq!(s, before);
    let mut t = TerminalSession::<0>::new(2, d).unwrap();
    assert_eq!(t.open(trace()), Err(TerminalError::CapacityExceeded));
    assert_eq!(t.state, SessionState::New);
    let mut u = TerminalSession::<4>::new(2, d).unwrap();
    u.open(trace()).unwrap();
    assert_eq!(u.record_command("bad name", true, false, trace()), Err(TerminalError::InvalidLabel));
    assert_eq!(u.event_count(), 1);
}

// ---------------------------------------------------------------- format

#[test]
fn format_styles_and_descriptors_validate() {
    assert!(FormatStyle::default().validate().is_ok());
    assert!(FormatStyle::new(true, 0, false).validate().is_ok());
    assert!(FormatStyle::new(true, 20, false).validate().is_ok());
    assert!(FormatStyle::new(true, 240, false).validate().is_ok());
    assert_eq!(FormatStyle::new(false, 19, true).validate(), Err(TerminalError::InvalidFormat));
    assert_eq!(FormatStyle::new(false, 241, true).validate(), Err(TerminalError::InvalidFormat));
    let d = FormatDescriptor::new("plain", OutputFormat::Plain);
    assert_eq!(d.style, FormatStyle::default());
    assert_eq!(
        d.with_style(FormatStyle::new(false, 5, true)).validate(),
        Err(TerminalError::InvalidFormat)
    );
    assert_eq!(FormatDescriptor::new("", OutputFormat::Plain).validate(), Err(TerminalError::InvalidFormat));
    assert_eq!(OutputFormat::JsonLines.label(), "jsonl");
    assert_eq!(Severity::Warn.label(), "warn");
    assert!(Severity::Error > Severity::Info);
}

#[test]
fn diagnostics_and_outputs_validate() {
    let f = FormatDescriptor::new("diag", OutputFormat::Table);
    let r = DiagnosticRecord::new("terminal", "", Severity::Info);
    assert_eq!(format_record(f, r), Err(TerminalError::MissingField));
    let long = "m".repeat(4097);
    let r = DiagnosticRecord::new("terminal", &long, Severity::Info);
    assert_eq!(format_record(f, r), Err(TerminalError::FieldTooLong));
    let r = DiagnosticRecord::new("terminal", "m", Severity::Info)
        .with_data(DataClass::Secret, RedactionState::SensitiveRedacted);
    assert_eq!(format_record(f, r), Err(TerminalError::InvalidRedaction));
    let r = DiagnosticRecord::new("bad component", "m", Severity::Info);
    assert_eq!(format_record(f, r), Err(TerminalError::InvalidLabel));
    let secret = DiagnosticRecord::new("vault", "s3cr3t", Severity::Debug)
        .with_data(DataClass::Secret, RedactionState::SecretRedacted);
    let out = format_record(f, secret).unwrap();
    assert_eq!(out.output_format, OutputFormat::Table);
    assert_eq!(out.body, "s3cr3t");
    assert_eq!(out.redaction, RedactionState::SecretRedacted);
    let exposed = FormattedOutput::new(
        OutputFormat::Plain,
        "x",
        DataClass::Secret,
        RedactionState::UnredactedSensitive,
        TraceContext::empty(),
    );
    assert_eq!(exposed.validate(), Err(TerminalError::SensitiveOutput));
    let result = CommandResultRecord::new(
        "echo",
        CommandStatus::Completed,
        "out",
        DataClass::Secret,
        RedactionState::UnredactedSensitive,
        trace(),
    );
    assert_eq!(format_command_result(f, result), Err(TerminalError::InvalidRedaction));
}
