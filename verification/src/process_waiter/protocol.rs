//! The wire format of the control channel: one line of text per command and
//! one per response. Nothing here reads or writes; lines come in and go out
//! as values.

use super::lifecycle::{LifecycleState, DEFAULT_GRACE_SECONDS};
use crate::text::{
    chars_of, decimal_text, decimal_value, is_decimal, is_digit, is_space, is_space_char,
    lemma_decimal_round_trip, lemma_decimal_text_is_decimal, parse_decimal, push_chars,
    push_decimal, push_signed, push_text, same_ignoring_case, signed_text, spells, upper_char,
};
use vstd::prelude::*;

verus! {

/// An instruction from the operator.
#[derive(Clone, Debug, PartialEq, Eq)]
pub enum ControlCommand {
    /// Report the state of the child.
    Status,
    /// Deliver the signal of this name to the child.
    Signal(String),
    /// Ask the child to end, and kill it after this many seconds.
    Terminate(u64),
    /// Stop the child and launch it again.
    Restart,
    /// Stop the child and end the supervisor.
    Shutdown,
}

/// A command as a mathematical value.
pub enum CommandView {
    Status,
    Signal(Seq<char>),
    Terminate(u64),
    Restart,
    Shutdown,
}

impl View for ControlCommand {
    type V = CommandView;

    open spec fn view(&self) -> CommandView {
        match self {
            ControlCommand::Status => CommandView::Status,
            ControlCommand::Signal(name) => CommandView::Signal(name@),
            ControlCommand::Terminate(grace) => CommandView::Terminate(*grace),
            ControlCommand::Restart => CommandView::Restart,
            ControlCommand::Shutdown => CommandView::Shutdown,
        }
    }
}

/// The answer to one command.
#[derive(Clone, Debug, PartialEq, Eq)]
pub enum ControlResponse {
    /// The command was carried out.
    Okay,
    /// The state of the child when the command was applied.
    StatusReport(LifecycleState),
    /// The command was turned down, for this reason.
    Error(String),
}

/// A response as a mathematical value.
pub enum ResponseView {
    Okay,
    StatusReport(LifecycleState),
    Error(Seq<char>),
}

impl View for ControlResponse {
    type V = ResponseView;

    open spec fn view(&self) -> ResponseView {
        match self {
            ControlResponse::Okay => ResponseView::Okay,
            ControlResponse::StatusReport(state) => ResponseView::StatusReport(*state),
            ControlResponse::Error(message) => ResponseView::Error(message@),
        }
    }
}

/// Why a line is no command.
#[derive(Clone, Copy, Debug, PartialEq, Eq, Structural)]
pub enum DecodeError {
    /// The line is empty or its first word is no known verb.
    UnknownCommand,
    /// The verb is known, but what follows it is not what it takes.
    InvalidArgument,
}

impl DecodeError {
    /// The words in which the error is reported to the operator.
    pub open spec fn message_text(self) -> Seq<char> {
        match self {
            DecodeError::UnknownCommand => "unknown command"@,
            DecodeError::InvalidArgument => "invalid argument"@,
        }
    }

    /// The words in which the error is reported to the operator.
    pub fn message(&self) -> (text: String)
        ensures
            text@ == self.message_text(),
    {
        let mut text = String::new();
        match self {
            DecodeError::UnknownCommand => push_text(&mut text, "unknown command"),
            DecodeError::InvalidArgument => push_text(&mut text, "invalid argument"),
        }
        text
    }
}

/// A word: at least one character, none of them a space.
pub open spec fn is_word(s: Seq<char>) -> bool {
    &&& s.len() > 0
    &&& forall|i: int| 0 <= i < s.len() ==> !is_space(#[trigger] s[i])
}

/// How many characters stand before the first space of `s`.
pub open spec fn word_len(s: Seq<char>) -> nat
    decreases s.len(),
{
    if s.len() == 0 || is_space(s[0]) {
        0
    } else {
        1 + word_len(s.drop_first())
    }
}

/// The first space, if any, is not beyond the end.
pub proof fn lemma_word_len_bound(s: Seq<char>)
    ensures
        word_len(s) <= s.len(),
    decreases s.len(),
{
    if s.len() > 0 && !is_space(s[0]) {
        lemma_word_len_bound(s.drop_first());
    }
}

/// The words of a line: its maximal runs of characters that are no spaces,
/// in the order in which they stand.
pub open spec fn words(s: Seq<char>) -> Seq<Seq<char>>
    decreases s.len(),
{
    if s.len() == 0 {
        Seq::empty()
    } else if is_space(s[0]) {
        words(s.drop_first())
    } else {
        proof {
            lemma_word_len_bound(s);
        }
        seq![s.take(word_len(s) as int)] + words(s.skip(word_len(s) as int))
    }
}

/// What a verb that takes no argument decodes to.
pub open spec fn decode_bare(
    w: Seq<Seq<char>>,
    command: CommandView,
) -> Result<CommandView, DecodeError> {
    if w.len() == 1 {
        Ok(command)
    } else {
        Err(DecodeError::InvalidArgument)
    }
}

/// The command that a line carries. Verbs are read without regard to the case
/// of their letters; `TERMINATE` without a number grants the default grace
/// period.
pub open spec fn decode_line(line: Seq<char>) -> Result<CommandView, DecodeError> {
    let w = words(line);
    if w.len() == 0 {
        Err(DecodeError::UnknownCommand)
    } else if same_ignoring_case(w[0], "STATUS"@) {
        decode_bare(w, CommandView::Status)
    } else if same_ignoring_case(w[0], "SIGNAL"@) {
        if w.len() == 2 {
            Ok(CommandView::Signal(w[1]))
        } else {
            Err(DecodeError::InvalidArgument)
        }
    } else if same_ignoring_case(w[0], "TERMINATE"@) {
        if w.len() == 1 {
            Ok(CommandView::Terminate(DEFAULT_GRACE_SECONDS))
        } else if w.len() == 2 && is_decimal(w[1]) && decimal_value(w[1]) <= u64::MAX {
            Ok(CommandView::Terminate(decimal_value(w[1]) as u64))
        } else {
            Err(DecodeError::InvalidArgument)
        }
    } else if same_ignoring_case(w[0], "RESTART"@) {
        decode_bare(w, CommandView::Restart)
    } else if same_ignoring_case(w[0], "SHUTDOWN"@) {
        decode_bare(w, CommandView::Shutdown)
    } else {
        Err(DecodeError::UnknownCommand)
    }
}

/// The outcome of decoding as a mathematical value.
pub open spec fn decoded_view(
    r: Result<ControlCommand, DecodeError>,
) -> Result<CommandView, DecodeError> {
    match r {
        Ok(command) => Ok(command@),
        Err(e) => Err(e),
    }
}

/// A run of `n` characters without a space, followed by a space or the end,
/// is a whole word.
pub proof fn lemma_word_len_is(s: Seq<char>, n: int)
    requires
        0 <= n <= s.len(),
        forall|k: int| 0 <= k < n ==> !is_space(#[trigger] s[k]),
        n == s.len() || is_space(s[n]),
    ensures
        word_len(s) == n,
    decreases n,
{
    if n > 0 {
        let t = s.drop_first();
        assert forall|k: int| 0 <= k < n - 1 implies !is_space(#[trigger] t[k]) by {
            assert(t[k] == s[k + 1]);
        }
        lemma_word_len_is(t, n - 1);
    }
}

/// Where each word of `chars` begins and ends.
pub fn split_words(chars: &Vec<char>) -> (spans: Vec<(usize, usize)>)
    ensures
        spans@.len() == words(chars@).len(),
        forall|k: int|
            0 <= k < spans@.len() ==> {
                &&& (#[trigger] spans@[k]).0 <= spans@[k].1 <= chars@.len()
                &&& words(chars@)[k] == chars@.subrange(spans@[k].0 as int, spans@[k].1 as int)
            },
{
    let ghost s = chars@;
    let ghost mut done: Seq<Seq<char>> = Seq::empty();
    let mut spans: Vec<(usize, usize)> = Vec::new();
    let len = chars.len();
    let mut i: usize = 0;
    assert(s.skip(0) == s);
    while i < len
        invariant
            s == chars@,
            len == s.len(),
            i <= len,
            words(s) == done + words(s.skip(i as int)),
            done.len() == spans@.len(),
            forall|k: int|
                0 <= k < spans@.len() ==> {
                    &&& (#[trigger] spans@[k]).0 <= spans@[k].1 <= len
                    &&& done[k] == s.subrange(spans@[k].0 as int, spans@[k].1 as int)
                },
        decreases len - i,
    {
        let ghost rest = s.skip(i as int);
        assert(rest[0] == s[i as int]);
        if is_space_char(chars[i]) {
            assert(rest.drop_first() == s.skip(i + 1));
            i += 1;
        } else {
            let start = i;
            let mut j: usize = i + 1;
            while j < len && !is_space_char(chars[j])
                invariant
                    s == chars@,
                    len == s.len(),
                    start < j <= len,
                    forall|k: int| start <= k < j ==> !is_space(#[trigger] s[k]),
                decreases len - j,
            {
                j += 1;
            }
            proof {
                assert forall|k: int| 0 <= k < j - start implies !is_space(#[trigger] rest[k]) by {
                    assert(rest[k] == s[start + k]);
                }
                if j < len {
                    assert(rest[j - start] == s[j as int]);
                }
                lemma_word_len_is(rest, j - start);
                assert(rest.take(j - start) == s.subrange(start as int, j as int));
                assert(rest.skip(j - start) == s.skip(j as int));
                done = done.push(s.subrange(start as int, j as int));
                assert(words(s) == done + words(s.skip(j as int)));
            }
            spans.push((start, j));
            i = j;
        }
    }
    assert(words(s.skip(len as int)) == Seq::<Seq<char>>::empty());
    assert(words(s) == done);
    spans
}

/// Reads one line as a command.
pub fn decode(line: &str) -> (r: Result<ControlCommand, DecodeError>)
    ensures
        decoded_view(r) == decode_line(line@),
{
    let chars = chars_of(line);
    let spans = split_words(&chars);
    let count = spans.len();
    if count == 0 {
        return Err(DecodeError::UnknownCommand);
    }
    let (from, to) = spans[0];
    if spells(&chars, from, to, "STATUS") {
        if count == 1 {
            Ok(ControlCommand::Status)
        } else {
            Err(DecodeError::InvalidArgument)
        }
    } else if spells(&chars, from, to, "SIGNAL") {
        if count == 2 {
            let (a, b) = spans[1];
            let mut name = String::new();
            push_chars(&mut name, &chars, a, b);
            assert(name@ == chars@.subrange(a as int, b as int));
            Ok(ControlCommand::Signal(name))
        } else {
            Err(DecodeError::InvalidArgument)
        }
    } else if spells(&chars, from, to, "TERMINATE") {
        if count == 1 {
            Ok(ControlCommand::Terminate(DEFAULT_GRACE_SECONDS))
        } else if count == 2 {
            let (a, b) = spans[1];
            match parse_decimal(&chars, a, b) {
                Some(grace) => Ok(ControlCommand::Terminate(grace)),
                None => Err(DecodeError::InvalidArgument),
            }
        } else {
            Err(DecodeError::InvalidArgument)
        }
    } else if spells(&chars, from, to, "RESTART") {
        if count == 1 {
            Ok(ControlCommand::Restart)
        } else {
            Err(DecodeError::InvalidArgument)
        }
    } else if spells(&chars, from, to, "SHUTDOWN") {
        if count == 1 {
            Ok(ControlCommand::Shutdown)
        } else {
            Err(DecodeError::InvalidArgument)
        }
    } else {
        Err(DecodeError::UnknownCommand)
    }
}

/// The name under which a state is reported.
pub open spec fn state_name(state: LifecycleState) -> Seq<char> {
    match state {
        LifecycleState::Idle => "idle"@,
        LifecycleState::Starting => "starting"@,
        LifecycleState::Running(_) => "running"@,
        LifecycleState::Stopping(_) => "stopping"@,
        LifecycleState::Exited(_) => "exited"@,
        LifecycleState::Failed(_) => "failed"@,
    }
}

/// One ` key=value` item of a status line.
pub open spec fn field(key: Seq<char>, value: Seq<char>) -> Seq<char> {
    seq![' '] + key + seq!['='] + value
}

/// A state as it stands in a status line: its name, then the process id
/// while a child exists, then the exit code once the child is gone.
pub open spec fn state_text(state: LifecycleState) -> Seq<char> {
    state_name(state) + (match state.pid() {
        Some(pid) => field("pid"@, decimal_text(pid as nat)),
        None => Seq::empty(),
    }) + (match state.exit_code() {
        Some(code) => field("exit"@, signed_text(code as int)),
        None => Seq::empty(),
    })
}

/// A text with each line feed replaced by a space.
pub open spec fn one_line(text: Seq<char>) -> Seq<char> {
    Seq::new(
        text.len(),
        |i: int|
            if text[i] == '\n' {
                ' '
            } else {
                text[i]
            },
    )
}

/// The line that carries a response, without the line feed that ends it.
pub open spec fn response_text(response: ResponseView) -> Seq<char> {
    match response {
        ResponseView::Okay => "OK"@,
        ResponseView::StatusReport(state) => "STATUS"@ + seq![' '] + state_text(state),
        ResponseView::Error(message) => "ERROR"@ + seq![' '] + one_line(message),
    }
}

/// The line that carries a command, without the line feed that ends it.
pub open spec fn command_text(command: CommandView) -> Seq<char> {
    match command {
        CommandView::Status => "STATUS"@,
        CommandView::Signal(name) => "SIGNAL"@ + seq![' '] + name,
        CommandView::Terminate(grace) => "TERMINATE"@ + seq![' '] + decimal_text(grace as nat),
        CommandView::Restart => "RESTART"@,
        CommandView::Shutdown => "SHUTDOWN"@,
    }
}

impl CommandView {
    /// A command that a line can carry: the name of a signal is one word.
    pub open spec fn valid(self) -> bool {
        self matches CommandView::Signal(name) ==> is_word(name)
    }
}

/// Appends ` key=` to `out`.
fn push_key(out: &mut String, key: &str)
    ensures
        final(out)@ == old(out)@ + seq![' '] + key@ + seq!['='],
{
    out.push(' ');
    push_text(out, key);
    out.push('=');
}

/// Appends a state to `out` as it stands in a status line.
pub fn push_state(out: &mut String, state: &LifecycleState)
    ensures
        final(out)@ == old(out)@ + state_text(*state),
{
    match state {
        LifecycleState::Idle => push_text(out, "idle"),
        LifecycleState::Starting => push_text(out, "starting"),
        LifecycleState::Running(_) => push_text(out, "running"),
        LifecycleState::Stopping(_) => push_text(out, "stopping"),
        LifecycleState::Exited(_) => push_text(out, "exited"),
        LifecycleState::Failed(_) => push_text(out, "failed"),
    }
    let ghost named = out@;
    assert(named == old(out)@ + state_name(*state));
    match state.child_pid() {
        Some(pid) => {
            push_key(out, "pid");
            push_decimal(out, pid as u64);
            assert(out@ == named + field("pid"@, decimal_text(pid as nat)));
        },
        None => {
            assert(out@ == named + Seq::<char>::empty());
        },
    }
    let ghost with_pid = out@;
    match state.reported_exit_code() {
        Some(code) => {
            push_key(out, "exit");
            push_signed(out, code);
            assert(out@ == with_pid + field("exit"@, signed_text(code as int)));
        },
        None => {
            assert(out@ == with_pid + Seq::<char>::empty());
        },
    }
    assert(out@ == old(out)@ + state_text(*state));
}

/// Appends `text` to `out` with each line feed replaced by a space.
pub fn push_one_line(out: &mut String, text: &str)
    ensures
        final(out)@ == old(out)@ + one_line(text@),
{
    let chars = chars_of(text);
    let mut i: usize = 0;
    while i < chars.len()
        invariant
            chars@ == text@,
            i <= chars@.len(),
            out@ == old(out)@ + one_line(text@).take(i as int),
        decreases chars@.len() - i,
    {
        let c = chars[i];
        if c == '\n' {
            out.push(' ');
        } else {
            out.push(c);
        }
        assert(one_line(text@).take(i + 1) == one_line(text@).take(i as int).push(
            one_line(text@)[i as int],
        ));
        i += 1;
    }
    assert(one_line(text@).take(i as int) == one_line(text@));
}

/// Writes a response as one line, without the line feed that ends it.
pub fn encode(response: &ControlResponse) -> (line: String)
    ensures
        line@ == response_text(response@),
{
    let mut line = String::new();
    match response {
        ControlResponse::Okay => {
            push_text(&mut line, "OK");
        },
        ControlResponse::StatusReport(state) => {
            push_text(&mut line, "STATUS");
            line.push(' ');
            push_state(&mut line, state);
        },
        ControlResponse::Error(message) => {
            push_text(&mut line, "ERROR");
            line.push(' ');
            push_one_line(&mut line, message.as_str());
        },
    }
    line
}

/// Writes a command as one line, without the line feed that ends it.
pub fn encode_command(command: &ControlCommand) -> (line: String)
    ensures
        line@ == command_text(command@),
{
    let mut line = String::new();
    match command {
        ControlCommand::Status => {
            push_text(&mut line, "STATUS");
        },
        ControlCommand::Signal(name) => {
            push_text(&mut line, "SIGNAL");
            line.push(' ');
            push_text(&mut line, name.as_str());
        },
        ControlCommand::Terminate(grace) => {
            push_text(&mut line, "TERMINATE");
            line.push(' ');
            push_decimal(&mut line, *grace);
        },
        ControlCommand::Restart => {
            push_text(&mut line, "RESTART");
        },
        ControlCommand::Shutdown => {
            push_text(&mut line, "SHUTDOWN");
        },
    }
    line
}

/// No character of the text is a line feed.
pub open spec fn no_line_feed(s: Seq<char>) -> bool {
    forall|i: int| 0 <= i < s.len() ==> #[trigger] s[i] != '\n'
}

/// The characters that count as the beginning of a word are no spaces, up to
/// the length of that word.
pub proof fn lemma_word_has_no_space(s: Seq<char>)
    ensures
        forall|k: int| 0 <= k < word_len(s) ==> !is_space(#[trigger] s[k]),
        word_len(s) <= s.len(),
        s.len() > 0 && !is_space(s[0]) ==> word_len(s) > 0,
    decreases s.len(),
{
    if s.len() > 0 && !is_space(s[0]) {
        let t = s.drop_first();
        lemma_word_has_no_space(t);
        assert forall|k: int| 0 <= k < word_len(s) implies !is_space(#[trigger] s[k]) by {
            if k > 0 {
                assert(s[k] == t[k - 1]);
            }
        }
    }
}

/// Each of the words of a line is a word: not empty, and free of spaces.
pub proof fn lemma_words_are_words(s: Seq<char>)
    ensures
        forall|k: int| 0 <= k < words(s).len() ==> is_word(#[trigger] words(s)[k]),
    decreases s.len(),
{
    if s.len() == 0 {
        assert(words(s).len() == 0);
    } else if is_space(s[0]) {
        lemma_words_are_words(s.drop_first());
        assert(words(s) == words(s.drop_first()));
    } else {
        lemma_word_has_no_space(s);
        let n = word_len(s) as int;
        let first = s.take(n);
        let rest = s.skip(n);
        lemma_words_are_words(rest);
        assert(is_word(first));
        assert(words(s) == seq![first] + words(rest));
        assert forall|k: int| 0 <= k < words(s).len() implies is_word(#[trigger] words(s)[k]) by {
            if k > 0 {
                assert(words(s)[k] == words(rest)[k - 1]);
            } else {
                assert(words(s)[k] == first);
            }
        }
    }
}

/// A word in front of a space or of the end is the first word of the line,
/// and the words that follow are those of the rest.
pub proof fn lemma_words_after_word(w: Seq<char>, rest: Seq<char>)
    requires
        is_word(w),
        rest.len() == 0 || is_space(rest[0]),
    ensures
        words(w + rest) == seq![w] + words(rest),
{
    let s = w + rest;
    assert(s[0] == w[0]);
    assert forall|k: int| 0 <= k < w.len() implies !is_space(#[trigger] s[k]) by {
        assert(s[k] == w[k]);
    }
    if rest.len() > 0 {
        assert(s[w.len() as int] == rest[0]);
    }
    lemma_word_len_is(s, w.len() as int);
    assert(s.take(w.len() as int) == w);
    assert(s.skip(w.len() as int) == rest);
}

/// A word alone on a line is the one word of that line.
pub proof fn lemma_words_of_word(w: Seq<char>)
    requires
        is_word(w),
    ensures
        words(w) == seq![w],
{
    lemma_words_after_word(w, Seq::empty());
    assert(w + Seq::<char>::empty() == w);
    assert(words(Seq::<char>::empty()) == Seq::<Seq<char>>::empty());
}

/// Two words with one space between them are the two words of the line.
pub proof fn lemma_words_of_pair(verb: Seq<char>, argument: Seq<char>)
    requires
        is_word(verb),
        is_word(argument),
    ensures
        words(verb + seq![' '] + argument) == seq![verb, argument],
{
    let rest = seq![' '] + argument;
    assert(rest[0] == ' ');
    assert(rest.drop_first() == argument);
    lemma_words_of_word(argument);
    assert(words(rest) == seq![argument]);
    lemma_words_after_word(verb, rest);
    assert(verb + seq![' '] + argument == verb + rest);
    assert(seq![verb] + seq![argument] == seq![verb, argument]);
}

/// A decimal numeral is one word.
pub proof fn lemma_decimal_is_word(s: Seq<char>)
    requires
        is_decimal(s),
    ensures
        is_word(s),
{
    assert forall|i: int| 0 <= i < s.len() implies !is_space(#[trigger] s[i]) by {
        assert(is_digit(s[i]));
    }
}

/// A command that was read from a line can be carried by a line: the name of
/// a signal that was decoded is one word.
pub proof fn lemma_decoded_is_valid(line: Seq<char>)
    ensures
        decode_line(line) matches Ok(command) ==> command.valid(),
{
    lemma_words_are_words(line);
    let w = words(line);
    if w.len() == 2 {
        assert(is_word(w[1]));
    }
}

/// Writing a command and reading the line gives the command back.
pub proof fn lemma_decode_inverts_encode(command: CommandView)
    requires
        command.valid(),
    ensures
        decode_line(command_text(command)) == Ok::<CommandView, DecodeError>(command),
{
    reveal_strlit("STATUS");
    reveal_strlit("SIGNAL");
    reveal_strlit("TERMINATE");
    reveal_strlit("RESTART");
    reveal_strlit("SHUTDOWN");
    assert("STATUS"@[1] == 'T');
    assert("SIGNAL"@[1] == 'I');
    assert("TERMINATE"@[0] == 'T');
    assert("RESTART"@[0] == 'R');
    assert("SHUTDOWN"@[1] == 'H');
    assert(is_word("STATUS"@));
    assert(is_word("SIGNAL"@));
    assert(is_word("TERMINATE"@));
    assert(is_word("RESTART"@));
    assert(is_word("SHUTDOWN"@));
    match command {
        CommandView::Status => {
            lemma_words_of_word("STATUS"@);
        },
        CommandView::Signal(name) => {
            lemma_words_of_pair("SIGNAL"@, name);
            assert(!same_ignoring_case("SIGNAL"@, "STATUS"@)) by {
                assert(upper_char("SIGNAL"@[1]) != upper_char("STATUS"@[1]));
            }
        },
        CommandView::Terminate(grace) => {
            let numeral = decimal_text(grace as nat);
            lemma_decimal_round_trip(grace as nat);
            lemma_decimal_is_word(numeral);
            lemma_words_of_pair("TERMINATE"@, numeral);
        },
        CommandView::Restart => {
            lemma_words_of_word("RESTART"@);
            assert(!same_ignoring_case("RESTART"@, "STATUS"@));
            assert(!same_ignoring_case("RESTART"@, "SIGNAL"@));
        },
        CommandView::Shutdown => {
            lemma_words_of_word("SHUTDOWN"@);
            assert(!same_ignoring_case("SHUTDOWN"@, "TERMINATE"@));
            assert(!same_ignoring_case("SHUTDOWN"@, "STATUS"@)) by {
                assert(upper_char("SHUTDOWN"@[1]) != upper_char("STATUS"@[1]));
            }
            assert(!same_ignoring_case("SHUTDOWN"@, "SIGNAL"@)) by {
                assert(upper_char("SHUTDOWN"@[1]) != upper_char("SIGNAL"@[1]));
            }
        },
    }
}

/// A line that carries a command can be replaced by the canonical line for
/// that command: the verb and its argument survive the round trip.
pub proof fn lemma_round_trip(line: Seq<char>)
    ensures
        decode_line(line) matches Ok(command) ==> decode_line(command_text(command)) == Ok::<
            CommandView,
            DecodeError,
        >(command),
{
    lemma_decoded_is_valid(line);
    if let Ok(command) = decode_line(line) {
        lemma_decode_inverts_encode(command);
    }
}

/// Joining two texts without a line feed gives a text without a line feed.
pub proof fn lemma_no_line_feed_concat(a: Seq<char>, b: Seq<char>)
    requires
        no_line_feed(a),
        no_line_feed(b),
    ensures
        no_line_feed(a + b),
{
    assert forall|i: int| 0 <= i < (a + b).len() implies #[trigger] (a + b)[i] != '\n' by {
        if i < a.len() {
            assert((a + b)[i] == a[i]);
        } else {
            assert((a + b)[i] == b[i - a.len()]);
        }
    }
}

/// A numeral holds no line feed.
pub proof fn lemma_numeral_no_line_feed(n: int)
    ensures
        no_line_feed(decimal_text(n as nat)),
        no_line_feed(signed_text(n)),
{
    lemma_decimal_text_is_decimal(n as nat);
    let d = decimal_text(n as nat);
    assert forall|i: int| 0 <= i < d.len() implies #[trigger] d[i] != '\n' by {
        assert(is_digit(d[i]));
    }
    if n < 0 {
        lemma_decimal_text_is_decimal((-n) as nat);
        let m = decimal_text((-n) as nat);
        assert forall|i: int| 0 <= i < m.len() implies #[trigger] m[i] != '\n' by {
            assert(is_digit(m[i]));
        }
        lemma_no_line_feed_concat(seq!['-'], m);
    }
}

/// One item of a status line holds no line feed if its parts hold none.
pub proof fn lemma_field_no_line_feed(key: Seq<char>, value: Seq<char>)
    requires
        no_line_feed(key),
        no_line_feed(value),
    ensures
        no_line_feed(field(key, value)),
{
    lemma_no_line_feed_concat(seq![' '], key);
    lemma_no_line_feed_concat(seq![' '] + key, seq!['=']);
    lemma_no_line_feed_concat(seq![' '] + key + seq!['='], value);
}

/// Every response is written on a single line: whatever the response, and
/// whatever message it carries, its text holds no line feed.
pub proof fn lemma_response_is_one_line(response: ResponseView)
    ensures
        no_line_feed(response_text(response)),
{
    reveal_strlit("OK");
    reveal_strlit("STATUS");
    reveal_strlit("ERROR");
    match response {
        ResponseView::Okay => {},
        ResponseView::StatusReport(state) => {
            reveal_strlit("idle");
            reveal_strlit("starting");
            reveal_strlit("running");
            reveal_strlit("stopping");
            reveal_strlit("exited");
            reveal_strlit("failed");
            reveal_strlit("pid");
            reveal_strlit("exit");
            assert(no_line_feed(state_name(state)));
            let pid_part = match state.pid() {
                Some(pid) => field("pid"@, decimal_text(pid as nat)),
                None => Seq::empty(),
            };
            let exit_part = match state.exit_code() {
                Some(code) => field("exit"@, signed_text(code as int)),
                None => Seq::empty(),
            };
            if let Some(pid) = state.pid() {
                lemma_numeral_no_line_feed(pid as int);
                lemma_field_no_line_feed("pid"@, decimal_text(pid as nat));
            }
            if let Some(code) = state.exit_code() {
                lemma_numeral_no_line_feed(code as int);
                lemma_field_no_line_feed("exit"@, signed_text(code as int));
            }
            lemma_no_line_feed_concat(state_name(state), pid_part);
            lemma_no_line_feed_concat(state_name(state) + pid_part, exit_part);
            lemma_no_line_feed_concat("STATUS"@, seq![' ']);
            lemma_no_line_feed_concat("STATUS"@ + seq![' '], state_text(state));
        },
        ResponseView::Error(message) => {
            lemma_no_line_feed_concat("ERROR"@, seq![' ']);
            lemma_no_line_feed_concat("ERROR"@ + seq![' '], one_line(message));
        },
    }
}

} // verus!
