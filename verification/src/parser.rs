//! Shell input parser boundary.
//!
//! The parser supports a conservative token model for host-mode tests. It
//! rejects shell control operators and sensitive literals unless the caller
//! explicitly opts into handling them. Every parse is specified exactly by
//! [`parse_outcome`] and [`script_outcome`].

use vstd::prelude::*;
use vstd::utf8::encode_utf8;

use crate::commands::MAX_COMMAND_NAME_LEN;
use crate::text::{
    bytes_contain, bytes_contain_byte, contains_byte, ends_with_byte, has_infix, is_ws,
    lemma_line_end_bounds, lemma_skip_ws_bounds, lemma_word_end_bounds, line_end_exec,
    line_segments, skip_ws, skip_ws_exec, starts_with_byte, str_eq, trim, trim_str, utf8_len,
    word_end, word_end_exec, words_from,
};
use crate::{
    label_outcome, validate_terminal_label, TerminalError, TerminalResult, TraceContext,
};

verus! {

/// Parser descriptor schema version.
pub const PARSER_SCHEMA_VERSION: &'static str = "alani-terminal.parser.v1";
/// Maximum accepted raw input length.
pub const MAX_INPUT_LEN: usize = 4096;
/// Maximum accepted token length.
pub const MAX_TOKEN_LEN: usize = 256;
/// Default token capacity for parser examples and tests.
pub const MAX_TOKENS: usize = 64;
/// Default maximum script lines accepted by host-mode planning helpers.
pub const MAX_SCRIPT_LINES: usize = 64;

/// Parsed token kind.
#[derive(Clone, Copy, Debug, PartialEq, Eq, Structural)]
pub enum TokenKind {
    /// First token naming the command.
    Command,
    /// Positional argument token.
    Argument,
    /// Flag token beginning with `--`.
    Flag,
    /// Assignment token containing `=`.
    Assignment,
    /// Single-token quoted literal.
    Quoted,
    /// Comment marker accepted by policy.
    Comment,
}

/// Borrowed parser token.
#[derive(Clone, Copy, Debug, PartialEq, Eq)]
pub struct Token<'a> {
    /// Token text borrowed from the input line.
    pub text: &'a str,
    /// Token classification.
    pub kind: TokenKind,
    /// Zero-based token index.
    pub index: usize,
}

/// What a token is, as a mathematical value.
#[verifier::ext_equal]
pub ghost struct TokenModel {
    pub text: Seq<char>,
    pub kind: TokenKind,
    pub index: int,
}

impl<'a> Token<'a> {
    /// The token as a mathematical value.
    pub open spec fn model(self) -> TokenModel {
        TokenModel { text: self.text@, kind: self.kind, index: self.index as int }
    }

    /// The outcome of validating a token: it must be present and at most
    /// [`MAX_TOKEN_LEN`] bytes long.
    pub open spec fn spec_validate(self) -> TerminalResult<()> {
        if self.text@.len() == 0 {
            Err(TerminalError::MissingField)
        } else if utf8_len(self.text@) > MAX_TOKEN_LEN {
            Err(TerminalError::FieldTooLong)
        } else {
            Ok(())
        }
    }

    /// Creates a parser token.
    pub fn new(text: &'a str, kind: TokenKind, index: usize) -> (r: Self)
        ensures
            r == (Token { text, kind, index }),
    {
        Token { text, kind, index }
    }

    /// Validates token bounds.
    pub fn validate(self) -> (r: TerminalResult<()>)
        ensures
            r == self.spec_validate(),
    {
        if self.text.is_empty() {
            return Err(TerminalError::MissingField);
        }
        if self.text.as_bytes().len() > MAX_TOKEN_LEN {
            return Err(TerminalError::FieldTooLong);
        }
        Ok(())
    }
}

/// Parser policy controlling optional shell features.
#[derive(Clone, Copy, Debug, PartialEq, Eq, Structural)]
pub struct ParsePolicy {
    /// Whether `#` comment markers are accepted.
    pub allow_comments: bool,
    /// Whether single-token quoted literals are accepted.
    pub allow_quoted: bool,
    /// Whether sensitive literals may remain in parsed tokens.
    pub allow_sensitive_literals: bool,
    /// Maximum token count.
    pub max_tokens: usize,
    /// Maximum raw input length.
    pub max_input_len: usize,
}

/// The conservative default policy: comments and quoted tokens allowed,
/// sensitive literals rejected, crate-wide maxima.
pub open spec fn default_policy() -> ParsePolicy {
    ParsePolicy {
        allow_comments: true,
        allow_quoted: true,
        allow_sensitive_literals: false,
        max_tokens: MAX_TOKENS,
        max_input_len: MAX_INPUT_LEN,
    }
}

impl ParsePolicy {
    /// The outcome of validating a policy: both bounds must be non-zero and
    /// within the crate maxima.
    pub open spec fn spec_validate(self) -> TerminalResult<()> {
        if self.max_tokens == 0 || self.max_input_len == 0 {
            Err(TerminalError::InvalidParser)
        } else if self.max_tokens > MAX_TOKENS || self.max_input_len > MAX_INPUT_LEN {
            Err(TerminalError::FieldTooLong)
        } else {
            Ok(())
        }
    }

    /// Creates a parser policy.
    pub fn new(max_tokens: usize, max_input_len: usize) -> (r: Self)
        ensures
            r == (ParsePolicy {
                allow_comments: true,
                allow_quoted: true,
                allow_sensitive_literals: false,
                max_tokens,
                max_input_len,
            }),
    {
        ParsePolicy {
            allow_comments: true,
            allow_quoted: true,
            allow_sensitive_literals: false,
            max_tokens,
            max_input_len,
        }
    }

    /// Allows sensitive literals to be parsed by an explicitly trusted caller.
    pub fn with_sensitive_literals(self) -> (r: Self)
        ensures
            r == (ParsePolicy { allow_sensitive_literals: true, ..self }),
    {
        let mut p = self;
        p.allow_sensitive_literals = true;
        p
    }

    /// Validates parser policy bounds.
    pub fn validate(self) -> (r: TerminalResult<()>)
        ensures
            r == self.spec_validate(),
    {
        if self.max_tokens == 0 || self.max_input_len == 0 {
            return Err(TerminalError::InvalidParser);
        }
        if self.max_tokens > MAX_TOKENS || self.max_input_len > MAX_INPUT_LEN {
            return Err(TerminalError::FieldTooLong);
        }
        Ok(())
    }
}

impl Default for ParsePolicy {
    /// Conservative default parser policy.
    fn default() -> (r: Self)
        ensures
            r == default_policy(),
    {
        ParsePolicy::new(MAX_TOKENS, MAX_INPUT_LEN)
    }
}

/// Parser descriptor for host-mode parser instances.
#[derive(Clone, Copy, Debug, PartialEq, Eq)]
pub struct ParserDescriptor<'a> {
    /// Stable parser name.
    pub name: &'a str,
    /// Parser schema version.
    pub schema: &'static str,
    /// Parser policy.
    pub policy: ParsePolicy,
    /// Trace context for parser creation or invocation.
    pub trace: TraceContext,
}

impl<'a> ParserDescriptor<'a> {
    /// The outcome of validating a parser descriptor: a bad name or an empty
    /// schema is an invalid parser; then the policy and the trace are checked.
    pub open spec fn spec_validate(self) -> TerminalResult<()> {
        if label_outcome(self.name@, MAX_COMMAND_NAME_LEN as nat) is Err {
            Err(TerminalError::InvalidParser)
        } else if self.schema@.len() == 0 {
            Err(TerminalError::InvalidParser)
        } else if self.policy.spec_validate() is Err {
            self.policy.spec_validate()
        } else {
            self.trace.spec_validate()
        }
    }

    /// Creates a parser descriptor with the default policy.
    pub fn new(name: &'a str) -> (r: Self)
        ensures
            r.name == name,
            r.schema@ == PARSER_SCHEMA_VERSION@,
            r.policy == default_policy(),
            r.trace == crate::empty_trace(),
    {
        ParserDescriptor {
            name,
            schema: PARSER_SCHEMA_VERSION,
            policy: ParsePolicy::new(MAX_TOKENS, MAX_INPUT_LEN),
            trace: TraceContext::empty(),
        }
    }

    /// Overrides parser policy.
    pub fn with_policy(self, policy: ParsePolicy) -> (r: Self)
        ensures
            r == (ParserDescriptor { policy, ..self }),
    {
        let mut d = self;
        d.policy = policy;
        d
    }

    /// Attaches trace metadata.
    pub fn with_trace(self, trace: TraceContext) -> (r: Self)
        ensures
            r == (ParserDescriptor { trace, ..self }),
    {
        let mut d = self;
        d.trace = trace;
        d
    }

    /// Validates descriptor metadata.
    pub fn validate(self) -> (r: TerminalResult<()>)
        ensures
            r == self.spec_validate(),
    {
        if validate_terminal_label(self.name, MAX_COMMAND_NAME_LEN).is_err() {
            return Err(TerminalError::InvalidParser);
        }
        if self.schema.is_empty() {
            return Err(TerminalError::InvalidParser);
        }
        let p = self.policy.validate();
        if p.is_err() {
            return p;
        }
        self.trace.validate()
    }
}

/// What a parsed command line is, as a mathematical value.
#[verifier::ext_equal]
pub ghost struct ParseModel {
    pub raw: Seq<char>,
    pub command: Seq<char>,
    pub tokens: Seq<TokenModel>,
    pub has_sensitive_literal: bool,
    pub trace: TraceContext,
}

/// Shell control bytes: `;` `|` `&` `<` `>` and the backquote.
pub open spec fn is_shell_control_byte(b: u8) -> bool {
    b == 0x3b || b == 0x7c || b == 0x26 || b == 0x3c || b == 0x3e || b == 0x60
}

/// Whether a token's bytes contain a shell control operator.
pub open spec fn has_shell_control(b: Seq<u8>) -> bool {
    exists|i: int| 0 <= i < b.len() && #[trigger] is_shell_control_byte(b[i])
}

/// Whether a token's bytes contain one of the sensitive literal markers
/// `password=`, `secret=`, `token=`, `credential=`, `key=`, `--password`,
/// `--secret` or `--token`.
pub open spec fn is_sensitive_bytes(b: Seq<u8>) -> bool {
    has_infix(b, encode_utf8("password="@)) || has_infix(b, encode_utf8("secret="@))
        || has_infix(b, encode_utf8("token="@)) || has_infix(b, encode_utf8("credential="@))
        || has_infix(b, encode_utf8("key="@)) || has_infix(b, encode_utf8("--password"@))
        || has_infix(b, encode_utf8("--secret"@)) || has_infix(b, encode_utf8("--token"@))
}

/// Whether a token is a single quoted literal: a token touching a double
/// quote (0x22) or single quote (0x27) at either end must be wrapped in the
/// same quote at both ends and touch no other quote kind at its ends; a
/// quote anywhere else is a parse error.
pub open spec fn quote_outcome(b: Seq<u8>) -> TerminalResult<bool> {
    let sd = starts_with_byte(b, 0x22);
    let ed = ends_with_byte(b, 0x22);
    let ss = starts_with_byte(b, 0x27);
    let es = ends_with_byte(b, 0x27);
    if sd || ed || ss || es {
        if (sd && ed && !ss && !es) || (ss && es && !sd && !ed) {
            Ok(true)
        } else {
            Err(TerminalError::ParseError)
        }
    } else if contains_byte(b, 0x22) || contains_byte(b, 0x27) {
        Err(TerminalError::ParseError)
    } else {
        Ok(false)
    }
}

/// The kind of the token at position `index`: the first token names the
/// command; later ones are quoted literals, `--` flags, `=` assignments, or
/// plain arguments, in that order of precedence.
pub open spec fn token_kind(b: Seq<u8>, index: int, quoted: bool) -> TokenKind {
    if index == 0 {
        TokenKind::Command
    } else if quoted {
        TokenKind::Quoted
    } else if b.len() >= 2 && b[0] == 0x2d && b[1] == 0x2d {
        TokenKind::Flag
    } else if contains_byte(b, 0x3d) {
        TokenKind::Assignment
    } else {
        TokenKind::Argument
    }
}

/// What one word does to a parse in progress.
pub ghost enum WordStep {
    /// A comment marker ends the line.
    Stop,
    /// The line is rejected.
    Fail(TerminalError),
    /// The word became the next token.
    Next(ParseModel),
}

/// The checks applied to one whitespace-separated word, in order: a `#`
/// comment ends the line (or is a parse error when comments are not
/// allowed); the word must be at most [`MAX_TOKEN_LEN`] bytes; the policy's
/// token limit must not be reached; no shell control operator; well-formed
/// quoting, and quoting allowed by policy; sensitive literals only when the
/// policy allows them; the command word must be a valid command label; and
/// the token storage of capacity `cap` must have room.
pub open spec fn word_step(w: Seq<char>, policy: ParsePolicy, cap: nat, acc: ParseModel) -> WordStep {
    let b = encode_utf8(w);
    let n = acc.tokens.len();
    if starts_with_byte(b, 0x23) {
        if policy.allow_comments {
            WordStep::Stop
        } else {
            WordStep::Fail(TerminalError::ParseError)
        }
    } else if b.len() > MAX_TOKEN_LEN {
        WordStep::Fail(TerminalError::FieldTooLong)
    } else if n >= policy.max_tokens {
        WordStep::Fail(TerminalError::CapacityExceeded)
    } else if has_shell_control(b) {
        WordStep::Fail(TerminalError::ParseError)
    } else if quote_outcome(b) is Err {
        WordStep::Fail(TerminalError::ParseError)
    } else {
        let quoted = quote_outcome(b)->Ok_0;
        let sensitive = is_sensitive_bytes(b);
        let kind = token_kind(b, n as int, quoted);
        if quoted && !policy.allow_quoted {
            WordStep::Fail(TerminalError::ParseError)
        } else if sensitive && !policy.allow_sensitive_literals {
            WordStep::Fail(TerminalError::SensitiveInput)
        } else if kind == TokenKind::Command && label_outcome(w, MAX_COMMAND_NAME_LEN as nat) is Err {
            WordStep::Fail(TerminalError::InvalidCommand)
        } else if n >= cap {
            WordStep::Fail(TerminalError::CapacityExceeded)
        } else {
            WordStep::Next(
                ParseModel {
                    raw: acc.raw,
                    command: if kind == TokenKind::Command {
                        w
                    } else {
                        acc.command
                    },
                    tokens: acc.tokens.push(TokenModel { text: w, kind, index: n as int }),
                    has_sensitive_literal: acc.has_sensitive_literal || sensitive,
                    trace: acc.trace,
                },
            )
        }
    }
}

/// Folds [`word_step`] over the words of a line.
pub open spec fn scan_words(
    words: Seq<Seq<char>>,
    policy: ParsePolicy,
    cap: nat,
    acc: ParseModel,
) -> TerminalResult<ParseModel>
    decreases words.len(),
{
    if words.len() == 0 {
        Ok(acc)
    } else {
        match word_step(words[0], policy, cap, acc) {
            WordStep::Stop => Ok(acc),
            WordStep::Fail(e) => Err(e),
            WordStep::Next(m) => scan_words(words.drop_first(), policy, cap, m),
        }
    }
}

/// The parse of a line before any word was read.
pub open spec fn empty_parse(raw: Seq<char>, trace: TraceContext) -> ParseModel {
    ParseModel {
        raw,
        command: Seq::empty(),
        tokens: Seq::empty(),
        has_sensitive_literal: false,
        trace,
    }
}

/// The outcome of parsing `input` into at most `cap` tokens: the descriptor
/// and the policy must validate, the input must fit the policy's byte limit,
/// the trimmed line must not be empty, each word goes through
/// [`word_step`], and a line without a command word is a missing field.
pub open spec fn parse_outcome(
    descriptor: ParserDescriptor,
    input: Seq<char>,
    policy: ParsePolicy,
    cap: nat,
) -> TerminalResult<ParseModel> {
    let line = trim(input);
    if descriptor.spec_validate() is Err {
        Err(descriptor.spec_validate()->Err_0)
    } else if policy.spec_validate() is Err {
        Err(policy.spec_validate()->Err_0)
    } else if utf8_len(input) > policy.max_input_len {
        Err(TerminalError::FieldTooLong)
    } else if line.len() == 0 {
        Err(TerminalError::MissingField)
    } else {
        match scan_words(words_from(line, 0), policy, cap, empty_parse(line, descriptor.trace)) {
            Err(e) => Err(e),
            Ok(m) => if m.command.len() == 0 {
                Err(TerminalError::MissingField)
            } else {
                Ok(m)
            },
        }
    }
}

/// Parsed command with fixed-capacity token storage.
#[derive(Clone, Debug, PartialEq, Eq)]
pub struct ParsedCommand<'a, const N: usize> {
    /// Raw input line after outer whitespace trimming.
    pub raw: &'a str,
    /// Parsed command name.
    pub command: &'a str,
    tokens: Vec<Token<'a>>,
    /// Whether the parser observed a sensitive literal.
    pub has_sensitive_literal: bool,
    /// Trace context attached to parsing.
    pub trace: TraceContext,
}

impl<'a, const N: usize> ParsedCommand<'a, N> {
    /// The parsed command as a mathematical value.
    pub closed spec fn model(&self) -> ParseModel {
        ParseModel {
            raw: self.raw@,
            command: self.command@,
            tokens: self.tokens@.map_values(|t: Token<'a>| t.model()),
            has_sensitive_literal: self.has_sensitive_literal,
            trace: self.trace,
        }
    }

    /// Creates an empty parsed command container.
    pub fn empty(trace: TraceContext) -> (r: Self)
        ensures
            r.model() == empty_parse(Seq::empty(), trace),
    {
        let r = ParsedCommand {
            raw: "",
            command: "",
            tokens: Vec::new(),
            has_sensitive_literal: false,
            trace,
        };
        proof {
            reveal_strlit("");
            assert(r.model().tokens =~= Seq::<TokenModel>::empty());
        }
        r
    }

    /// Returns the number of parsed tokens.
    pub fn len(&self) -> (r: usize)
        ensures
            r == self.model().tokens.len(),
    {
        self.tokens.len()
    }

    /// Returns `true` when no tokens were parsed.
    pub fn is_empty(&self) -> (r: bool)
        ensures
            r == (self.model().tokens.len() == 0),
    {
        self.tokens.len() == 0
    }

    /// Returns a parsed token by index.
    pub fn token(&self, index: usize) -> (r: Option<Token<'a>>)
        ensures
            index >= self.model().tokens.len() ==> r is None,
            index < self.model().tokens.len() ==> r is Some && r->Some_0.model()
                == self.model().tokens[index as int],
    {
        if index >= self.tokens.len() {
            None
        } else {
            Some(self.tokens[index])
        }
    }

    /// Returns the number of argument-like tokens excluding the command token.
    pub fn argument_count(&self) -> (r: usize)
        ensures
            r == if self.model().tokens.len() == 0 {
                0
            } else {
                self.model().tokens.len() - 1
            },
    {
        if self.tokens.len() == 0 {
            0
        } else {
            self.tokens.len() - 1
        }
    }

    /// Returns `true` when the command token matches the supplied name.
    pub fn command_is(&self, name: &str) -> (r: bool)
        ensures
            r == (self.model().command == name@),
    {
        str_eq(self.command, name)
    }

    /// A copy of this parsed command.
    fn duplicate(&self) -> (r: Self)
        ensures
            r.model() == self.model(),
    {
        let mut tokens: Vec<Token<'a>> = Vec::new();
        let mut i: usize = 0;
        while i < self.tokens.len()
            invariant
                i <= self.tokens@.len(),
                tokens@ =~= self.tokens@.subrange(0, i as int),
            decreases self.tokens@.len() - i,
        {
            tokens.push(self.tokens[i]);
            i = i + 1;
        }
        let r = ParsedCommand {
            raw: self.raw,
            command: self.command,
            tokens,
            has_sensitive_literal: self.has_sensitive_literal,
            trace: self.trace,
        };
        proof {
            assert(tokens@ =~= self.tokens@);
        }
        r
    }

    fn push(&mut self, token: Token<'a>) -> (r: TerminalResult<()>)
        ensures
            old(self).model().tokens.len() >= N ==> r == Err::<(), TerminalError>(
                TerminalError::CapacityExceeded,
            ) && *final(self) == *old(self),
            old(self).model().tokens.len() < N ==> r is Ok && final(self).model() == (ParseModel {
                tokens: old(self).model().tokens.push(token.model()),
                ..old(self).model()
            }),
            final(self).raw == old(self).raw,
            final(self).command == old(self).command,
    {
        if self.tokens.len() >= N {
            return Err(TerminalError::CapacityExceeded);
        }
        let ghost before = self.tokens@;
        self.tokens.push(token);
        proof {
            assert(self.tokens@.map_values(|t: Token<'a>| t.model()) =~= before.map_values(
                |t: Token<'a>| t.model(),
            ).push(token.model()));
        }
        Ok(())
    }
}

/// Returns `true` when a token contains a sensitive literal marker.
pub fn contains_sensitive_literal(token: &str) -> (r: bool)
    ensures
        r == is_sensitive_bytes(encode_utf8(token@)),
{
    let b = token.as_bytes();
    bytes_contain(b, "password=".as_bytes()) || bytes_contain(b, "secret=".as_bytes())
        || bytes_contain(b, "token=".as_bytes()) || bytes_contain(b, "credential=".as_bytes())
        || bytes_contain(b, "key=".as_bytes()) || bytes_contain(b, "--password".as_bytes())
        || bytes_contain(b, "--secret".as_bytes()) || bytes_contain(b, "--token".as_bytes())
}

fn classify_token(token: &str, index: usize, quoted: bool) -> (r: TokenKind)
    ensures
        r == token_kind(encode_utf8(token@), index as int, quoted),
{
    let b = token.as_bytes();
    if index == 0 {
        TokenKind::Command
    } else if quoted {
        TokenKind::Quoted
    } else if b.len() >= 2 && b[0] == 0x2d && b[1] == 0x2d {
        TokenKind::Flag
    } else if bytes_contain_byte(b, 0x3d) {
        TokenKind::Assignment
    } else {
        TokenKind::Argument
    }
}

fn contains_shell_control(token: &str) -> (r: bool)
    ensures
        r == has_shell_control(encode_utf8(token@)),
{
    let b = token.as_bytes();
    let mut i: usize = 0;
    while i < b.len()
        invariant
            b@ == encode_utf8(token@),
            i <= b@.len(),
            forall|k: int| 0 <= k < i ==> !is_shell_control_byte(#[trigger] b@[k]),
        decreases b@.len() - i,
    {
        let x = b[i];
        if x == 0x3b || x == 0x7c || x == 0x26 || x == 0x3c || x == 0x3e || x == 0x60 {
            assert(is_shell_control_byte(b@[i as int]));
            return true;
        }
        i = i + 1;
    }
    false
}

fn is_quoted_token(token: &str) -> (r: TerminalResult<bool>)
    ensures
        r == quote_outcome(encode_utf8(token@)),
{
    let b = token.as_bytes();
    let n = b.len();
    let starts_double = n > 0 && b[0] == 0x22;
    let ends_double = n > 0 && b[n - 1] == 0x22;
    let starts_single = n > 0 && b[0] == 0x27;
    let ends_single = n > 0 && b[n - 1] == 0x27;
    if starts_double || ends_double || starts_single || ends_single {
        if (starts_double && ends_double && !starts_single && !ends_single) || (starts_single
            && ends_single && !starts_double && !ends_double) {
            Ok(true)
        } else {
            Err(TerminalError::ParseError)
        }
    } else if bytes_contain_byte(b, 0x22) || bytes_contain_byte(b, 0x27) {
        Err(TerminalError::ParseError)
    } else {
        Ok(false)
    }
}

proof fn lemma_words_unfold(s: Seq<char>, i: int)
    requires
        0 <= i <= s.len(),
        skip_ws(s, i) < s.len(),
    ensures
        ({
            let a = skip_ws(s, i);
            let b = word_end(s, a);
            &&& a < b <= s.len()
            &&& words_from(s, i) == seq![s.subrange(a, b)] + words_from(s, b)
            &&& words_from(s, i)[0] == s.subrange(a, b)
            &&& words_from(s, i).drop_first() == words_from(s, b)
        }),
{
    let a = skip_ws(s, i);
    lemma_skip_ws_bounds(s, i);
    lemma_word_end_bounds(s, a);
    lemma_word_end_bounds(s, a + 1);
    let b = word_end(s, a);
    assert(words_from(s, i) == seq![s.subrange(a, b)] + words_from(s, b));
    assert((seq![s.subrange(a, b)] + words_from(s, b)).drop_first() =~= words_from(s, b));
}

/// Parses a terminal command line into fixed-capacity borrowed tokens.
pub fn parse_command<'a, const N: usize>(
    descriptor: ParserDescriptor<'a>,
    input: &'a str,
    policy: ParsePolicy,
) -> (r: TerminalResult<ParsedCommand<'a, N>>)
    ensures
        parse_outcome(descriptor, input@, policy, N as nat) == (match r {
            Ok(p) => Ok(p.model()),
            Err(e) => Err(e),
        }),
{
    let d = descriptor.validate();
    if let Err(e) = d {
        return Err(e);
    }
    let p = policy.validate();
    if let Err(e) = p {
        return Err(e);
    }
    if input.as_bytes().len() > policy.max_input_len {
        return Err(TerminalError::FieldTooLong);
    }
    let line = trim_str(input);
    if line.is_empty() {
        return Err(TerminalError::MissingField);
    }
    let n = line.unicode_len();
    let mut parsed: ParsedCommand<'a, N> = ParsedCommand::empty(descriptor.trace);
    parsed.raw = line;
    let ghost init = empty_parse(line@, descriptor.trace);
    proof {
        assert(parsed.model() == init);
    }
    let mut pos: usize = 0;
    let mut stopped = false;
    while !stopped && pos < n
        invariant
            n == line@.len(),
            pos <= n,
            parsed.raw@ == line@,
            parsed.model().raw == line@,
            parsed.model().trace == descriptor.trace,
            descriptor.spec_validate() is Ok,
            policy.spec_validate() is Ok,
            utf8_len(input@) <= policy.max_input_len,
            line@ == trim(input@),
            line@.len() > 0,
            init == empty_parse(line@, descriptor.trace),
            stopped ==> scan_words(words_from(line@, 0), policy, N as nat, init) == Ok::<
                ParseModel,
                TerminalError,
            >(parsed.model()),
            !stopped ==> scan_words(words_from(line@, 0), policy, N as nat, init) == scan_words(
                words_from(line@, pos as int),
                policy,
                N as nat,
                parsed.model(),
            ),
            parsed.model().command.len() == 0 <==> parsed.model().tokens.len() == 0,
        decreases (n - pos) + (if stopped { 0int } else { 1int }),
    {
        let a = skip_ws_exec(line, n, pos);
        if a >= n {
            proof {
                assert(words_from(line@, pos as int) =~= Seq::<Seq<char>>::empty());
            }
            pos = n;
        } else {
            let b = word_end_exec(line, n, a);
            proof {
                lemma_words_unfold(line@, pos as int);
            }
            let word: &'a str = line.substring_char(a, b);
            let ghost w = word@;
            let ghost acc = parsed.model();
            proof {
                assert(w == words_from(line@, pos as int)[0]);
                assert(scan_words(words_from(line@, pos as int), policy, N as nat, acc) == match word_step(
                    w,
                    policy,
                    N as nat,
                    acc,
                ) {
                    WordStep::Stop => Ok(acc),
                    WordStep::Fail(e) => Err(e),
                    WordStep::Next(m) => scan_words(words_from(line@, b as int), policy, N as nat, m),
                });
            }
            let wb = word.as_bytes();
            if wb.len() > 0 && wb[0] == 0x23 {
                if policy.allow_comments {
                    stopped = true;
                } else {
                    return Err(TerminalError::ParseError);
                }
            } else {
                if wb.len() > MAX_TOKEN_LEN {
                    return Err(TerminalError::FieldTooLong);
                }
                if parsed.tokens.len() >= policy.max_tokens {
                    return Err(TerminalError::CapacityExceeded);
                }
                if contains_shell_control(word) {
                    return Err(TerminalError::ParseError);
                }
                let q = is_quoted_token(word);
                if q.is_err() {
                    return Err(TerminalError::ParseError);
                }
                let quoted = q.unwrap();
                if quoted && !policy.allow_quoted {
                    return Err(TerminalError::ParseError);
                }
                let sensitive = contains_sensitive_literal(word);
                if sensitive {
                    parsed.has_sensitive_literal = true;
                    if !policy.allow_sensitive_literals {
                        return Err(TerminalError::SensitiveInput);
                    }
                }
                let index = parsed.tokens.len();
                let kind = classify_token(word, index, quoted);
                if kind == TokenKind::Command {
                    if validate_terminal_label(word, MAX_COMMAND_NAME_LEN).is_err() {
                        return Err(TerminalError::InvalidCommand);
                    }
                    parsed.command = word;
                }
                let pushed = parsed.push(Token::new(word, kind, index));
                if pushed.is_err() {
                    return Err(TerminalError::CapacityExceeded);
                }
                proof {
                    assert(word_step(w, policy, N as nat, acc) == WordStep::Next(parsed.model()));
                }
                pos = b;
            }
        }
    }
    if parsed.command.is_empty() {
        return Err(TerminalError::MissingField);
    }
    Ok(parsed)
}

/// What a parsed script is, as a mathematical value.
#[verifier::ext_equal]
pub ghost struct ScriptModel {
    pub lines: Seq<ParseModel>,
    pub has_sensitive_literal: bool,
    pub trace: TraceContext,
}

/// What one script line does to a plan in progress: blank lines and `#`
/// comment lines (when comments are allowed) are skipped, a comment line is
/// a parse error otherwise, and any other line is parsed with
/// [`parse_outcome`] into at most `tcap` tokens and appended to a plan of at
/// most `lcap` lines.
pub open spec fn scan_lines(
    segments: Seq<Seq<char>>,
    descriptor: ParserDescriptor,
    policy: ParsePolicy,
    lcap: nat,
    tcap: nat,
    acc: ScriptModel,
) -> TerminalResult<ScriptModel>
    decreases segments.len(),
{
    if segments.len() == 0 {
        Ok(acc)
    } else {
        let t = trim(segments[0]);
        let rest = segments.drop_first();
        if t.len() == 0 {
            scan_lines(rest, descriptor, policy, lcap, tcap, acc)
        } else if starts_with_byte(encode_utf8(t), 0x23) {
            if policy.allow_comments {
                scan_lines(rest, descriptor, policy, lcap, tcap, acc)
            } else {
                Err(TerminalError::ParseError)
            }
        } else {
            match parse_outcome(descriptor, t, policy, tcap) {
                Err(e) => Err(e),
                Ok(m) => if acc.lines.len() >= lcap {
                    Err(TerminalError::CapacityExceeded)
                } else {
                    scan_lines(
                        rest,
                        descriptor,
                        policy,
                        lcap,
                        tcap,
                        ScriptModel {
                            lines: acc.lines.push(m),
                            has_sensitive_literal: acc.has_sensitive_literal
                                || m.has_sensitive_literal,
                            trace: acc.trace,
                        },
                    )
                },
            }
        }
    }
}

/// The outcome of planning a script of at most `lcap` lines of at most
/// `tcap` tokens: descriptor, policy and byte length are checked as for a
/// single line, then every line goes through [`scan_lines`]; a script with
/// no command line is a missing field.
pub open spec fn script_outcome(
    descriptor: ParserDescriptor,
    script: Seq<char>,
    policy: ParsePolicy,
    lcap: nat,
    tcap: nat,
) -> TerminalResult<ScriptModel> {
    if descriptor.spec_validate() is Err {
        Err(descriptor.spec_validate()->Err_0)
    } else if policy.spec_validate() is Err {
        Err(policy.spec_validate()->Err_0)
    } else if utf8_len(script) > policy.max_input_len {
        Err(TerminalError::FieldTooLong)
    } else {
        match scan_lines(
            line_segments(script, 0),
            descriptor,
            policy,
            lcap,
            tcap,
            ScriptModel { lines: Seq::empty(), has_sensitive_literal: false, trace: descriptor.trace },
        ) {
            Err(e) => Err(e),
            Ok(m) => if m.lines.len() == 0 {
                Err(TerminalError::MissingField)
            } else {
                Ok(m)
            },
        }
    }
}

/// Fixed-capacity parsed script plan.
#[derive(Clone, Debug, PartialEq, Eq)]
pub struct ScriptPlan<'a, const L: usize, const T: usize> {
    /// Parser descriptor used to build the plan.
    pub descriptor: ParserDescriptor<'a>,
    lines: Vec<ParsedCommand<'a, T>>,
    /// Whether any parsed line contained a sensitive literal.
    pub has_sensitive_literal: bool,
    /// Trace context attached to the plan.
    pub trace: TraceContext,
}

impl<'a, const L: usize, const T: usize> ScriptPlan<'a, L, T> {
    /// The plan as a mathematical value.
    pub closed spec fn model(&self) -> ScriptModel {
        ScriptModel {
            lines: self.lines@.map_values(|p: ParsedCommand<'a, T>| p.model()),
            has_sensitive_literal: self.has_sensitive_literal,
            trace: self.trace,
        }
    }

    /// The parser descriptor the plan was built with.
    pub closed spec fn spec_descriptor(&self) -> ParserDescriptor<'a> {
        self.descriptor
    }

    /// Creates an empty script plan.
    pub fn new(descriptor: ParserDescriptor<'a>) -> (r: Self)
        ensures
            r.model() == (ScriptModel {
                lines: Seq::empty(),
                has_sensitive_literal: false,
                trace: descriptor.trace,
            }),
            r.spec_descriptor() == descriptor,
    {
        let r = ScriptPlan {
            descriptor,
            lines: Vec::new(),
            has_sensitive_literal: false,
            trace: descriptor.trace,
        };
        proof {
            assert(r.model().lines =~= Seq::<ParseModel>::empty());
        }
        r
    }

    /// Returns the number of parsed command lines.
    pub fn len(&self) -> (r: usize)
        ensures
            r == self.model().lines.len(),
    {
        self.lines.len()
    }

    /// Returns `true` when no command lines were parsed.
    pub fn is_empty(&self) -> (r: bool)
        ensures
            r == (self.model().lines.len() == 0),
    {
        self.lines.len() == 0
    }

    /// Returns a parsed command by script index.
    pub fn command_at(&self, index: usize) -> (r: Option<ParsedCommand<'a, T>>)
        ensures
            index >= self.model().lines.len() ==> r is None,
            index < self.model().lines.len() ==> r is Some && r->Some_0.model()
                == self.model().lines[index as int],
    {
        if index >= self.lines.len() {
            None
        } else {
            Some(self.lines[index].duplicate())
        }
    }

    fn push(&mut self, command: ParsedCommand<'a, T>) -> (r: TerminalResult<()>)
        ensures
            old(self).model().lines.len() >= L ==> r == Err::<(), TerminalError>(
                TerminalError::CapacityExceeded,
            ),
            old(self).model().lines.len() < L ==> r is Ok && final(self).model() == (ScriptModel {
                lines: old(self).model().lines.push(command.model()),
                has_sensitive_literal: old(self).model().has_sensitive_literal
                    || command.model().has_sensitive_literal,
                trace: old(self).model().trace,
            }),
            final(self).spec_descriptor() == old(self).spec_descriptor(),
    {
        if self.lines.len() >= L {
            return Err(TerminalError::CapacityExceeded);
        }
        if command.has_sensitive_literal {
            self.has_sensitive_literal = true;
        }
        let ghost before = self.lines@;
        self.lines.push(command);
        proof {
            assert(self.lines@.map_values(|p: ParsedCommand<'a, T>| p.model()) =~= before.map_values(
                |p: ParsedCommand<'a, T>| p.model(),
            ).push(command.model()));
        }
        Ok(())
    }
}

/// Parses a multi-line terminal script into a fixed-capacity plan.
pub fn parse_script<'a, const L: usize, const T: usize>(
    descriptor: ParserDescriptor<'a>,
    script: &'a str,
    policy: ParsePolicy,
) -> (r: TerminalResult<ScriptPlan<'a, L, T>>)
    ensures
        script_outcome(descriptor, script@, policy, L as nat, T as nat) == (match r {
            Ok(p) => Ok(p.model()),
            Err(e) => Err(e),
        }),
        r is Ok ==> r->Ok_0.spec_descriptor() == descriptor,
{
    let d = descriptor.validate();
    if let Err(e) = d {
        return Err(e);
    }
    let p = policy.validate();
    if let Err(e) = p {
        return Err(e);
    }
    if script.as_bytes().len() > policy.max_input_len {
        return Err(TerminalError::FieldTooLong);
    }
    let n = script.unicode_len();
    let mut plan: ScriptPlan<'a, L, T> = ScriptPlan::new(descriptor);
    let ghost init = plan.model();
    let mut pos: usize = 0;
    let mut done = false;
    while !done
        invariant
            n == script@.len(),
            pos <= n,
            plan.spec_descriptor() == descriptor,
            descriptor.spec_validate() is Ok,
            policy.spec_validate() is Ok,
            utf8_len(script@) <= policy.max_input_len,
            init == (ScriptModel {
                lines: Seq::empty(),
                has_sensitive_literal: false,
                trace: descriptor.trace,
            }),
            done ==> scan_lines(line_segments(script@, 0), descriptor, policy, L as nat, T as nat, init)
                == Ok::<ScriptModel, TerminalError>(plan.model()),
            !done ==> scan_lines(line_segments(script@, 0), descriptor, policy, L as nat, T as nat, init)
                == scan_lines(
                line_segments(script@, pos as int),
                descriptor,
                policy,
                L as nat,
                T as nat,
                plan.model(),
            ),
        decreases (n + 1 - pos) + (if done { 0int } else { 1int }),
    {
        let e = line_end_exec(script, n, pos);
        let ghost segs = line_segments(script@, pos as int);
        proof {
            lemma_line_end_bounds(script@, pos as int);
            if e >= n {
                assert(segs == seq![script@.subrange(pos as int, e as int)]);
                assert(segs.drop_first() =~= Seq::<Seq<char>>::empty());
            } else {
                assert(segs == seq![script@.subrange(pos as int, e as int)] + line_segments(script@, e + 1));
                assert(segs.drop_first() =~= line_segments(script@, e + 1));
            }
        }
        let segment: &'a str = script.substring_char(pos, e);
        let trimmed: &'a str = trim_str(segment);
        let ghost acc = plan.model();
        proof {
            assert(segs[0] == segment@);
        }
        if !trimmed.is_empty() {
            let tb = trimmed.as_bytes();
            if tb.len() > 0 && tb[0] == 0x23 {
                if !policy.allow_comments {
                    return Err(TerminalError::ParseError);
                }
            } else {
                let parsed = parse_command::<T>(descriptor, trimmed, policy);
                match parsed {
                    Err(err) => {
                        return Err(err);
                    },
                    Ok(cmd) => {
                        let pushed = plan.push(cmd);
                        if pushed.is_err() {
                            return Err(TerminalError::CapacityExceeded);
                        }
                    },
                }
            }
        }
        proof {
            assert(scan_lines(segs, descriptor, policy, L as nat, T as nat, acc) == scan_lines(
                segs.drop_first(),
                descriptor,
                policy,
                L as nat,
                T as nat,
                plan.model(),
            ));
        }
        if e >= n {
            done = true;
        } else {
            pos = e + 1;
        }
    }
    if plan.is_empty() {
        return Err(TerminalError::MissingField);
    }
    Ok(plan)
}


/// Each word is a non-empty run of non-whitespace characters.
pub open spec fn words_ok(ws: Seq<Seq<char>>) -> bool {
    forall|j: int|
        0 <= j < ws.len() ==> (#[trigger] ws[j]).len() > 0 && forall|k: int|
            0 <= k < ws[j].len() ==> !is_ws(ws[j][k])
}

/// How a token's kind follows from its position and its bytes: the first
/// token, and only it, names the command; a later token wrapped in double
/// quotes or in single quotes at both ends is quoted; otherwise one that
/// starts with `--` is a flag; otherwise one holding `=` is an assignment;
/// anything else is a plain argument.
pub open spec fn kind_fits(t: TokenModel) -> bool {
    let b = encode_utf8(t.text);
    let quoted = (starts_with_byte(b, 0x22) && ends_with_byte(b, 0x22)) || (starts_with_byte(
        b,
        0x27,
    ) && ends_with_byte(b, 0x27));
    let flag = b.len() >= 2 && b[0] == 0x2d && b[1] == 0x2d;
    &&& (t.kind == TokenKind::Command <==> t.index == 0)
    &&& (t.kind == TokenKind::Quoted <==> t.index != 0 && quoted)
    &&& (t.kind == TokenKind::Flag <==> t.index != 0 && !quoted && flag)
    &&& (t.kind == TokenKind::Assignment <==> t.index != 0 && !quoted && !flag && contains_byte(
        b,
        0x3d,
    ))
}

/// What every accepted token guarantees under `policy`: it is a non-empty
/// run of non-whitespace characters of at most [`MAX_TOKEN_LEN`] bytes, not a
/// comment, free of shell control operators, well quoted (and not quoted at
/// all when quoting is not allowed), free of sensitive literals unless the
/// policy allows them, and of the kind [`kind_fits`] gives it.
pub open spec fn token_safe(t: TokenModel, policy: ParsePolicy) -> bool {
    let b = encode_utf8(t.text);
    &&& kind_fits(t)
    &&& t.text.len() > 0
    &&& forall|k: int| 0 <= k < t.text.len() ==> !is_ws(t.text[k])
    &&& b.len() <= MAX_TOKEN_LEN
    &&& !starts_with_byte(b, 0x23)
    &&& !has_shell_control(b)
    &&& quote_outcome(b) is Ok
    &&& (!policy.allow_quoted ==> t.kind != TokenKind::Quoted)
    &&& (!policy.allow_sensitive_literals ==> !is_sensitive_bytes(b))
}

/// What every parse accepted under `policy` into `cap` slots guarantees:
/// at most `cap` and at most the policy's token count; tokens numbered by
/// position, the first (and only the first) naming the command, each
/// [`token_safe`]; the command is the first token's text and a valid command
/// label; and the sensitive flag records exactly whether some token holds a
/// sensitive literal.
pub open spec fn parse_safe(m: ParseModel, policy: ParsePolicy, cap: nat) -> bool {
    &&& m.tokens.len() <= cap
    &&& m.tokens.len() <= policy.max_tokens
    &&& forall|j: int|
        0 <= j < m.tokens.len() ==> (#[trigger] m.tokens[j]).index == j && (m.tokens[j].kind
            == TokenKind::Command <==> j == 0) && token_safe(m.tokens[j], policy)
    &&& (m.tokens.len() == 0 <==> m.command.len() == 0)
    &&& (m.tokens.len() > 0 ==> m.command == m.tokens[0].text && label_outcome(
        m.command,
        MAX_COMMAND_NAME_LEN as nat,
    ) is Ok)
    &&& (m.has_sensitive_literal <==> exists|j: int|
        0 <= j < m.tokens.len() && is_sensitive_bytes(encode_utf8(#[trigger] m.tokens[j].text)))
}

proof fn lemma_words_ok(s: Seq<char>, i: int)
    requires
        0 <= i <= s.len(),
    ensures
        words_ok(words_from(s, i)),
    decreases s.len() - i,
{
    lemma_skip_ws_bounds(s, i);
    let a = skip_ws(s, i);
    if a < s.len() {
        lemma_words_unfold(s, i);
        let b = word_end(s, a);
        lemma_word_end_bounds(s, a);
        lemma_words_ok(s, b);
        let ws = words_from(s, i);
        assert forall|j: int| 0 <= j < ws.len() implies (#[trigger] ws[j]).len() > 0 && forall|
            k: int,
        | 0 <= k < ws[j].len() ==> !is_ws(ws[j][k]) by {
            if j == 0 {
                assert(ws[0] == s.subrange(a, b));
                assert forall|k: int| 0 <= k < ws[j].len() implies !is_ws(ws[j][k]) by {
                    assert(ws[j][k] == s[a + k]);
                }
            } else {
                assert(ws[j] == words_from(s, b)[j - 1]);
            }
        }
    }
}

proof fn lemma_scan_words_safe(ws: Seq<Seq<char>>, policy: ParsePolicy, cap: nat, acc: ParseModel)
    requires
        parse_safe(acc, policy, cap),
        words_ok(ws),
    ensures
        scan_words(ws, policy, cap, acc) is Ok ==> {
            let m = scan_words(ws, policy, cap, acc)->Ok_0;
            &&& parse_safe(m, policy, cap)
            &&& m.raw == acc.raw
            &&& m.trace == acc.trace
            &&& acc.tokens.len() <= m.tokens.len() <= acc.tokens.len() + ws.len()
            &&& m.tokens.subrange(0, acc.tokens.len() as int) == acc.tokens
            &&& forall|j: int|
                acc.tokens.len() <= j < m.tokens.len() ==> (#[trigger] m.tokens[j]).text == ws[j
                    - acc.tokens.len()]
            &&& m.tokens.len() < acc.tokens.len() + ws.len() ==> starts_with_byte(
                encode_utf8(ws[m.tokens.len() - acc.tokens.len()]),
                0x23,
            )
        },
    decreases ws.len(),
{
    if ws.len() == 0 {
        assert(acc.tokens.subrange(0, acc.tokens.len() as int) =~= acc.tokens);
        return ;
    }
    let w = ws[0];
    match word_step(w, policy, cap, acc) {
        WordStep::Stop => {
            assert(acc.tokens.subrange(0, acc.tokens.len() as int) =~= acc.tokens);
        },
        WordStep::Fail(_) => {},
        WordStep::Next(m1) => {
            let n = acc.tokens.len();
            let b = encode_utf8(w);
            assert(m1.tokens == acc.tokens.push(m1.tokens[n as int]));
            assert(m1.tokens[n as int].text == w);
            assert(token_safe(m1.tokens[n as int], policy)) by {
                assert(w == ws[0]);
            }
            assert forall|j: int| 0 <= j < m1.tokens.len() implies (#[trigger] m1.tokens[j]).index
                == j && (m1.tokens[j].kind == TokenKind::Command <==> j == 0) && token_safe(
                m1.tokens[j],
                policy,
            ) by {
                if j < n {
                    assert(m1.tokens[j] == acc.tokens[j]);
                }
            }
            if n > 0 {
                assert(m1.tokens[0] == acc.tokens[0]);
            }
            assert(m1.has_sensitive_literal <==> exists|j: int|
                0 <= j < m1.tokens.len() && is_sensitive_bytes(encode_utf8(#[trigger] m1.tokens[j].text))) by {
                if acc.has_sensitive_literal {
                    let j = choose|j: int|
                        0 <= j < acc.tokens.len() && is_sensitive_bytes(encode_utf8(#[trigger] acc.tokens[j].text));
                    assert(m1.tokens[j] == acc.tokens[j]);
                }
                if is_sensitive_bytes(b) {
                    assert(is_sensitive_bytes(encode_utf8(m1.tokens[n as int].text)));
                }
                if exists|j: int|
                    0 <= j < m1.tokens.len() && is_sensitive_bytes(encode_utf8(#[trigger] m1.tokens[j].text)) {
                    let j = choose|j: int|
                        0 <= j < m1.tokens.len() && is_sensitive_bytes(encode_utf8(#[trigger] m1.tokens[j].text));
                    if j < n {
                        assert(m1.tokens[j] == acc.tokens[j]);
                    }
                }
            }
            assert(parse_safe(m1, policy, cap));
            let rest = ws.drop_first();
            assert(words_ok(rest)) by {
                assert forall|j: int| 0 <= j < rest.len() implies (#[trigger] rest[j]).len() > 0 && forall|k: int|
                    0 <= k < rest[j].len() ==> !is_ws(rest[j][k]) by {
                    assert(rest[j] == ws[j + 1]);
                }
            }
            lemma_scan_words_safe(rest, policy, cap, m1);
            if scan_words(ws, policy, cap, acc) is Ok {
                let m = scan_words(ws, policy, cap, acc)->Ok_0;
                assert(m == scan_words(rest, policy, cap, m1)->Ok_0);
                assert(m.tokens.subrange(0, n as int) =~= acc.tokens) by {
                    assert forall|j: int| 0 <= j < n implies m.tokens[j] == acc.tokens[j] by {
                        assert(m.tokens.subrange(0, m1.tokens.len() as int)[j] == m1.tokens[j]);
                    }
                }
                assert forall|j: int| n <= j < m.tokens.len() implies (#[trigger] m.tokens[j]).text
                    == ws[j - n] by {
                    if j == n {
                        assert(m.tokens.subrange(0, m1.tokens.len() as int)[j] == m1.tokens[j]);
                    } else {
                        assert(rest[j - n - 1] == ws[j - n]);
                    }
                }
                if m.tokens.len() < n + ws.len() {
                    assert(rest[m.tokens.len() - m1.tokens.len()] == ws[m.tokens.len() - n]);
                }
            }
        },
    }
}

/// Every accepted command line is safe: the parse satisfies [`parse_safe`]
/// for the policy and capacity, holds at least one token, records the
/// trimmed line and the descriptor's trace, and its tokens are exactly the
/// whitespace-separated words of the trimmed line, in order, up to (and not
/// including) the first word that starts with `#`: a word that does not
/// start with `#`, such as one holding a `#` further in, never ends the
/// token list.
pub proof fn law_parsed_command_is_safe(
    descriptor: ParserDescriptor,
    input: Seq<char>,
    policy: ParsePolicy,
    cap: nat,
)
    requires
        parse_outcome(descriptor, input, policy, cap) is Ok,
    ensures
        ({
            let m = parse_outcome(descriptor, input, policy, cap)->Ok_0;
            let words = words_from(trim(input), 0);
            &&& parse_safe(m, policy, cap)
            &&& m.tokens.len() >= 1
            &&& m.raw == trim(input)
            &&& m.trace == descriptor.trace
            &&& m.tokens.len() <= words.len()
            &&& forall|j: int| 0 <= j < m.tokens.len() ==> (#[trigger] m.tokens[j]).text == words[j]
            &&& m.tokens.len() < words.len() ==> starts_with_byte(
                encode_utf8(words[m.tokens.len() as int]),
                0x23,
            )
        }),
{
    let line = trim(input);
    let init = empty_parse(line, descriptor.trace);
    assert(parse_safe(init, policy, cap));
    lemma_words_ok(line, 0);
    lemma_scan_words_safe(words_from(line, 0), policy, cap, init);
}

/// Every accepted script is safe: it holds between one and `lcap` lines,
/// each a parse that is [`parse_safe`] for `tcap` tokens and carries the
/// descriptor's trace, and the plan's sensitive flag records exactly whether
/// some line observed a sensitive literal.
pub proof fn law_script_plan_is_safe(
    descriptor: ParserDescriptor,
    script: Seq<char>,
    policy: ParsePolicy,
    lcap: nat,
    tcap: nat,
)
    requires
        script_outcome(descriptor, script, policy, lcap, tcap) is Ok,
    ensures
        ({
            let m = script_outcome(descriptor, script, policy, lcap, tcap)->Ok_0;
            &&& 1 <= m.lines.len() <= lcap
            &&& m.trace == descriptor.trace
            &&& forall|j: int|
                0 <= j < m.lines.len() ==> parse_safe(#[trigger] m.lines[j], policy, tcap)
                    && m.lines[j].trace == descriptor.trace && m.lines[j].tokens.len() >= 1
            &&& (m.has_sensitive_literal <==> exists|j: int|
                0 <= j < m.lines.len() && (#[trigger] m.lines[j]).has_sensitive_literal)
        }),
{
    lemma_scan_lines_safe(
        line_segments(script, 0),
        descriptor,
        policy,
        lcap,
        tcap,
        ScriptModel { lines: Seq::empty(), has_sensitive_literal: false, trace: descriptor.trace },
    );
}

proof fn lemma_scan_lines_safe(
    segs: Seq<Seq<char>>,
    descriptor: ParserDescriptor,
    policy: ParsePolicy,
    lcap: nat,
    tcap: nat,
    acc: ScriptModel,
)
    requires
        acc.lines.len() <= lcap,
        acc.trace == descriptor.trace,
        forall|j: int|
            0 <= j < acc.lines.len() ==> parse_safe(#[trigger] acc.lines[j], policy, tcap)
                && acc.lines[j].trace == descriptor.trace && acc.lines[j].tokens.len() >= 1,
        acc.has_sensitive_literal <==> exists|j: int|
            0 <= j < acc.lines.len() && (#[trigger] acc.lines[j]).has_sensitive_literal,
    ensures
        scan_lines(segs, descriptor, policy, lcap, tcap, acc) is Ok ==> {
            let m = scan_lines(segs, descriptor, policy, lcap, tcap, acc)->Ok_0;
            &&& acc.lines.len() <= m.lines.len() <= lcap
            &&& m.trace == descriptor.trace
            &&& forall|j: int|
                0 <= j < m.lines.len() ==> parse_safe(#[trigger] m.lines[j], policy, tcap)
                    && m.lines[j].trace == descriptor.trace && m.lines[j].tokens.len() >= 1
            &&& (m.has_sensitive_literal <==> exists|j: int|
                0 <= j < m.lines.len() && (#[trigger] m.lines[j]).has_sensitive_literal)
        },
    decreases segs.len(),
{
    if segs.len() == 0 {
        return ;
    }
    let t = trim(segs[0]);
    let rest = segs.drop_first();
    if t.len() == 0 || starts_with_byte(encode_utf8(t), 0x23) {
        lemma_scan_lines_safe(rest, descriptor, policy, lcap, tcap, acc);
    } else if parse_outcome(descriptor, t, policy, tcap) is Ok && acc.lines.len() < lcap {
        let pm = parse_outcome(descriptor, t, policy, tcap)->Ok_0;
        law_parsed_command_is_safe(descriptor, t, policy, tcap);
        let next = ScriptModel {
            lines: acc.lines.push(pm),
            has_sensitive_literal: acc.has_sensitive_literal || pm.has_sensitive_literal,
            trace: acc.trace,
        };
        assert forall|j: int| 0 <= j < next.lines.len() implies parse_safe(
            #[trigger] next.lines[j],
            policy,
            tcap,
        ) && next.lines[j].trace == descriptor.trace && next.lines[j].tokens.len() >= 1 by {
            if j < acc.lines.len() {
                assert(next.lines[j] == acc.lines[j]);
            }
        }
        assert(next.has_sensitive_literal <==> exists|j: int|
            0 <= j < next.lines.len() && (#[trigger] next.lines[j]).has_sensitive_literal) by {
            if acc.has_sensitive_literal {
                let j = choose|j: int|
                    0 <= j < acc.lines.len() && (#[trigger] acc.lines[j]).has_sensitive_literal;
                assert(next.lines[j] == acc.lines[j]);
            }
            if pm.has_sensitive_literal {
                assert(next.lines[acc.lines.len() as int] == pm);
            }
            if exists|j: int|
                0 <= j < next.lines.len() && (#[trigger] next.lines[j]).has_sensitive_literal {
                let j = choose|j: int|
                    0 <= j < next.lines.len() && (#[trigger] next.lines[j]).has_sensitive_literal;
                if j < acc.lines.len() {
                    assert(next.lines[j] == acc.lines[j]);
                }
            }
        }
        lemma_scan_lines_safe(rest, descriptor, policy, lcap, tcap, next);
    }
}


/// Parsing the recorded raw line of an accepted parse again, with the same
/// descriptor, policy and capacity, yields the very same parse.
pub proof fn law_reparse_raw_line(
    descriptor: ParserDescriptor,
    input: Seq<char>,
    policy: ParsePolicy,
    cap: nat,
)
    requires
        parse_outcome(descriptor, input, policy, cap) is Ok,
    ensures
        parse_outcome(
            descriptor,
            parse_outcome(descriptor, input, policy, cap)->Ok_0.raw,
            policy,
            cap,
        ) == parse_outcome(descriptor, input, policy, cap),
{
    law_parsed_command_is_safe(descriptor, input, policy, cap);
    crate::text::lemma_trim_idempotent(input);
}

/// Whether a trimmed script line is a command line: it is not blank and does
/// not start with `#`.
pub open spec fn is_command_line(t: Seq<char>) -> bool {
    t.len() > 0 && !starts_with_byte(encode_utf8(t), 0x23)
}

/// The command lines of a script split into lines: each line trimmed, and
/// only the command lines kept, in order.
pub open spec fn command_lines(segments: Seq<Seq<char>>) -> Seq<Seq<char>> {
    segments.map_values(|s: Seq<char>| trim(s)).filter(|t: Seq<char>| is_command_line(t))
}

proof fn lemma_command_lines_unfold(segments: Seq<Seq<char>>)
    requires
        segments.len() > 0,
    ensures
        command_lines(segments) == (if is_command_line(trim(segments[0])) {
            seq![trim(segments[0])]
        } else {
            Seq::<Seq<char>>::empty()
        }) + command_lines(segments.drop_first()),
{
    let f = |s: Seq<char>| trim(s);
    let p = |t: Seq<char>| is_command_line(t);
    let rest = segments.drop_first().map_values(f);
    assert(segments.map_values(f) =~= seq![trim(segments[0])] + rest);
    rest.lemma_filter_prepend(trim(segments[0]), p);
}

proof fn lemma_scan_lines_command_lines(
    segs: Seq<Seq<char>>,
    descriptor: ParserDescriptor,
    policy: ParsePolicy,
    lcap: nat,
    tcap: nat,
    acc: ScriptModel,
)
    ensures
        scan_lines(segs, descriptor, policy, lcap, tcap, acc) is Ok ==> {
            let m = scan_lines(segs, descriptor, policy, lcap, tcap, acc)->Ok_0;
            let cl = command_lines(segs);
            &&& m.lines.len() == acc.lines.len() + cl.len()
            &&& forall|j: int| 0 <= j < acc.lines.len() ==> #[trigger] m.lines[j] == acc.lines[j]
            &&& forall|j: int|
                0 <= j < cl.len() ==> parse_outcome(descriptor, #[trigger] cl[j], policy, tcap)
                    == Ok::<ParseModel, TerminalError>(m.lines[acc.lines.len() + j])
        },
    decreases segs.len(),
{
    if segs.len() == 0 {
        assert(command_lines(segs) =~= Seq::<Seq<char>>::empty()) by {
            reveal(Seq::filter);
            assert(segs.map_values(|s: Seq<char>| trim(s)) =~= Seq::<Seq<char>>::empty());
        }
        return ;
    }
    lemma_command_lines_unfold(segs);
    let t = trim(segs[0]);
    let rest = segs.drop_first();
    let cr = command_lines(rest);
    if t.len() == 0 || starts_with_byte(encode_utf8(t), 0x23) {
        assert(command_lines(segs) =~= cr);
        lemma_scan_lines_command_lines(rest, descriptor, policy, lcap, tcap, acc);
    } else if parse_outcome(descriptor, t, policy, tcap) is Ok && acc.lines.len() < lcap {
        let pm = parse_outcome(descriptor, t, policy, tcap)->Ok_0;
        let next = ScriptModel {
            lines: acc.lines.push(pm),
            has_sensitive_literal: acc.has_sensitive_literal || pm.has_sensitive_literal,
            trace: acc.trace,
        };
        lemma_scan_lines_command_lines(rest, descriptor, policy, lcap, tcap, next);
        let cl = command_lines(segs);
        assert(cl =~= seq![t] + cr);
        if scan_lines(segs, descriptor, policy, lcap, tcap, acc) is Ok {
            let m = scan_lines(segs, descriptor, policy, lcap, tcap, acc)->Ok_0;
            assert(m == scan_lines(rest, descriptor, policy, lcap, tcap, next)->Ok_0);
            let n = acc.lines.len();
            assert forall|j: int| 0 <= j < n implies #[trigger] m.lines[j] == acc.lines[j] by {
                assert(m.lines[j] == next.lines[j]);
            }
            assert forall|j: int| 0 <= j < cl.len() implies parse_outcome(
                descriptor,
                #[trigger] cl[j],
                policy,
                tcap,
            ) == Ok::<ParseModel, TerminalError>(m.lines[n + j]) by {
                if j == 0 {
                    assert(cl[0] == t);
                    assert(m.lines[n as int] == next.lines[n as int]);
                } else {
                    assert(cl[j] == cr[j - 1]);
                    assert(n + j == next.lines.len() + (j - 1));
                }
            }
        }
    }
}

/// A script plan holds one line for every command line of the script, in
/// order: every line that is neither blank nor starts with `#` once trimmed
/// (a line ending in a `# ...` remark is still a command line) contributes
/// exactly one plan line, and that plan line is the parse of the trimmed
/// line on its own.
pub proof fn law_script_lines_are_command_lines(
    descriptor: ParserDescriptor,
    script: Seq<char>,
    policy: ParsePolicy,
    lcap: nat,
    tcap: nat,
)
    requires
        script_outcome(descriptor, script, policy, lcap, tcap) is Ok,
    ensures
        ({
            let m = script_outcome(descriptor, script, policy, lcap, tcap)->Ok_0;
            let cl = command_lines(line_segments(script, 0));
            &&& m.lines.len() == cl.len()
            &&& forall|j: int|
                0 <= j < cl.len() ==> parse_outcome(descriptor, #[trigger] cl[j], policy, tcap)
                    == Ok::<ParseModel, TerminalError>(m.lines[j])
        }),
{
    lemma_scan_lines_command_lines(
        line_segments(script, 0),
        descriptor,
        policy,
        lcap,
        tcap,
        ScriptModel { lines: Seq::empty(), has_sensitive_literal: false, trace: descriptor.trace },
    );
}

/// Sensitive literals are refused unless the policy opts in: under a policy
/// that does not allow them, no token of an accepted line holds any of the
/// markers `password=`, `secret=`, `token=`, `credential=`, `key=`,
/// `--password`, `--secret` or `--token`, and the parse records no
/// sensitive literal.
pub proof fn law_sensitive_literals_refused(
    descriptor: ParserDescriptor,
    input: Seq<char>,
    policy: ParsePolicy,
    cap: nat,
)
    requires
        parse_outcome(descriptor, input, policy, cap) is Ok,
        !policy.allow_sensitive_literals,
    ensures
        ({
            let m = parse_outcome(descriptor, input, policy, cap)->Ok_0;
            &&& !m.has_sensitive_literal
            &&& forall|j: int|
                0 <= j < m.tokens.len() ==> {
                    let b = encode_utf8(#[trigger] m.tokens[j].text);
                    &&& !has_infix(b, encode_utf8("password="@))
                    &&& !has_infix(b, encode_utf8("secret="@))
                    &&& !has_infix(b, encode_utf8("token="@))
                    &&& !has_infix(b, encode_utf8("credential="@))
                    &&& !has_infix(b, encode_utf8("key="@))
                    &&& !has_infix(b, encode_utf8("--password"@))
                    &&& !has_infix(b, encode_utf8("--secret"@))
                    &&& !has_infix(b, encode_utf8("--token"@))
                }
        }),
{
    law_parsed_command_is_safe(descriptor, input, policy, cap);
    let m = parse_outcome(descriptor, input, policy, cap)->Ok_0;
    assert forall|j: int| 0 <= j < m.tokens.len() implies !is_sensitive_bytes(
        encode_utf8(#[trigger] m.tokens[j].text),
    ) by {
        assert(token_safe(m.tokens[j], policy));
    }
}

} // verus!
