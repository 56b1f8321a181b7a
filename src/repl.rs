//! The read-eval loop as a state machine. The loop's driver performs each
//! `Effect` that `Repl::step` asks for (writing, reading a line, looking a
//! name up, changing directory, running a program) and hands back what came
//! of it as an `Event`; every decision is taken here.
use vstd::prelude::*;
use crate::command::{
    keyword, keyword_of, error_text, parse_line, Builtin, BuiltinModel, CommandModel,
    ParseError, ShellCmd,
};
use crate::tokens::{
    is_space, is_word, join_words, lemma_blank_has_no_words, lemma_words_of_join, texts, words,
};

verus! {

/// Where the loop stands.
#[derive(Debug, PartialEq, Eq)]
pub enum Phase {
    /// The last effect is under way; the prompt comes once it is done.
    Idle,
    /// The prompt is shown; a line is awaited.
    Reading,
    /// `type cmd` waits for the lookup of `cmd`.
    Typing { cmd: String },
    /// An external command waits for the lookup of its name.
    Launching { cmd: String, args: Vec<String> },
    /// `cd dir` waits to learn whether `dir` is a directory.
    Entering { dir: String },
    /// The working directory is being changed to `dir`.
    Changing { dir: String },
    /// `pwd` waits for the working directory.
    Locating,
    /// The external program `cmd` runs.
    Running { cmd: String },
    /// The loop has ended with this exit status.
    Terminated { code: i32 },
}

/// What the driver reports back.
#[derive(Debug, PartialEq, Eq)]
pub enum Event {
    /// The last effect is done (or the loop starts).
    Ready,
    /// A line was read.
    Line(String),
    /// The input has ended.
    Eof,
    /// The result of a lookup on the search path.
    Resolved(Option<String>),
    /// Whether the path asked about is a directory.
    IsDir(bool),
    /// The current working directory.
    Cwd(String),
    /// Changing directory or starting a program failed, with the reason.
    Failed(String),
}

/// What the driver is asked to do next.
#[derive(Debug, PartialEq, Eq)]
pub enum Effect {
    /// Write `$ `, flush, and read a line.
    Prompt,
    /// Write the text to standard output.
    Write(String),
    /// Look the name up on the search path.
    Resolve(String),
    /// Find out whether the path is a directory.
    CheckDir(String),
    /// Make the path the working directory.
    ChangeDir(String),
    /// Find out the working directory.
    QueryCwd,
    /// Run the program with these arguments, with the inherited standard
    /// streams, and wait for it.
    Launch { path: String, args: Vec<String> },
    /// End the process with this status.
    Exit(i32),
}

/// What a `Phase` holds, as character sequences.
pub enum PhaseModel {
    Idle,
    Reading,
    Typing(Seq<char>),
    Launching(Seq<char>, Seq<Seq<char>>),
    Entering(Seq<char>),
    Changing(Seq<char>),
    Locating,
    Running(Seq<char>),
    Terminated(i32),
}

/// What an `Event` holds, as character sequences.
pub enum EventModel {
    Ready,
    Line(Seq<char>),
    Eof,
    Resolved(Option<Seq<char>>),
    IsDir(bool),
    Cwd(Seq<char>),
    Failed(Seq<char>),
}

/// What an `Effect` holds, as character sequences.
pub enum EffectModel {
    Prompt,
    Write(Seq<char>),
    Resolve(Seq<char>),
    CheckDir(Seq<char>),
    ChangeDir(Seq<char>),
    QueryCwd,
    Launch(Seq<char>, Seq<Seq<char>>),
    Exit(i32),
}

impl View for Phase {
    type V = PhaseModel;

    open spec fn view(&self) -> PhaseModel {
        match self {
            Phase::Idle => PhaseModel::Idle,
            Phase::Reading => PhaseModel::Reading,
            Phase::Typing { cmd } => PhaseModel::Typing(cmd@),
            Phase::Launching { cmd, args } => PhaseModel::Launching(cmd@, texts(args@)),
            Phase::Entering { dir } => PhaseModel::Entering(dir@),
            Phase::Changing { dir } => PhaseModel::Changing(dir@),
            Phase::Locating => PhaseModel::Locating,
            Phase::Running { cmd } => PhaseModel::Running(cmd@),
            Phase::Terminated { code } => PhaseModel::Terminated(*code),
        }
    }
}

impl View for Event {
    type V = EventModel;

    open spec fn view(&self) -> EventModel {
        match self {
            Event::Ready => EventModel::Ready,
            Event::Line(s) => EventModel::Line(s@),
            Event::Eof => EventModel::Eof,
            Event::Resolved(r) => EventModel::Resolved(
                match r {
                    Some(p) => Some(p@),
                    None => None,
                },
            ),
            Event::IsDir(b) => EventModel::IsDir(*b),
            Event::Cwd(s) => EventModel::Cwd(s@),
            Event::Failed(s) => EventModel::Failed(s@),
        }
    }
}

impl View for Effect {
    type V = EffectModel;

    open spec fn view(&self) -> EffectModel {
        match self {
            Effect::Prompt => EffectModel::Prompt,
            Effect::Write(s) => EffectModel::Write(s@),
            Effect::Resolve(s) => EffectModel::Resolve(s@),
            Effect::CheckDir(s) => EffectModel::CheckDir(s@),
            Effect::ChangeDir(s) => EffectModel::ChangeDir(s@),
            Effect::QueryCwd => EffectModel::QueryCwd,
            Effect::Launch { path, args } => EffectModel::Launch(path@, texts(args@)),
            Effect::Exit(c) => EffectModel::Exit(*c),
        }
    }
}

/// What `type name` reports, given what the lookup of `name` found.
pub open spec fn type_text(name: Seq<char>, found: Option<Seq<char>>) -> Seq<char> {
    if keyword_of(name) is Some {
        name + " is a shell builtin\n"@
    } else {
        match found {
            Some(p) => name + " is "@ + p + "\n"@,
            None => name + ": not found\n"@,
        }
    }
}

/// The message for a command that is not on the search path.
pub open spec fn not_found_text(name: Seq<char>) -> Seq<char> {
    name + ": command not found\n"@
}

/// The message for `cd` to a path that is not a directory.
pub open spec fn no_dir_text(dir: Seq<char>) -> Seq<char> {
    dir + ": No such file or directory\n"@
}

/// The message for a failed directory change or program start.
pub open spec fn failure_text(subject: Seq<char>, reason: Seq<char>) -> Seq<char> {
    subject + ": "@ + reason + "\n"@
}

/// The phase and effect that running a parsed command leads to.
pub open spec fn dispatch_spec(c: CommandModel) -> (PhaseModel, EffectModel) {
    match c {
        CommandModel::Builtin(BuiltinModel::Exit(code)) => (
            PhaseModel::Terminated(code),
            EffectModel::Exit(code),
        ),
        CommandModel::Builtin(BuiltinModel::Echo(w)) => (
            PhaseModel::Idle,
            EffectModel::Write(join_words(w) + "\n"@),
        ),
        CommandModel::Builtin(BuiltinModel::Type(n)) => if keyword_of(n) is Some {
            (PhaseModel::Idle, EffectModel::Write(type_text(n, None)))
        } else {
            (PhaseModel::Typing(n), EffectModel::Resolve(n))
        },
        CommandModel::Builtin(BuiltinModel::Pwd) => (PhaseModel::Locating, EffectModel::QueryCwd),
        CommandModel::Builtin(BuiltinModel::Cd(d)) => (
            PhaseModel::Entering(d),
            EffectModel::CheckDir(d),
        ),
        CommandModel::Unknown(n, a) => (PhaseModel::Launching(n, a), EffectModel::Resolve(n)),
    }
}

/// Whether the phase `p` awaits the event `e`.
pub open spec fn accepts_spec(p: PhaseModel, e: EventModel) -> bool {
    match p {
        PhaseModel::Idle => e is Ready,
        PhaseModel::Reading => e is Line || e is Eof,
        PhaseModel::Typing(_) => e is Resolved,
        PhaseModel::Launching(_, _) => e is Resolved,
        PhaseModel::Entering(_) => e is IsDir,
        PhaseModel::Changing(_) => e is Ready || e is Failed,
        PhaseModel::Locating => e is Cwd,
        PhaseModel::Running(_) => e is Ready || e is Failed,
        PhaseModel::Terminated(_) => true,
    }
}

/// The next phase and effect, for an event that the phase awaits.
pub open spec fn step_spec(p: PhaseModel, e: EventModel) -> (PhaseModel, EffectModel) {
    match (p, e) {
        (PhaseModel::Terminated(c), _) => (PhaseModel::Terminated(c), EffectModel::Exit(c)),
        (PhaseModel::Idle, EventModel::Ready) => (PhaseModel::Reading, EffectModel::Prompt),
        (PhaseModel::Changing(_), EventModel::Ready) => (PhaseModel::Reading, EffectModel::Prompt),
        (PhaseModel::Running(_), EventModel::Ready) => (PhaseModel::Reading, EffectModel::Prompt),
        (PhaseModel::Reading, EventModel::Eof) => (PhaseModel::Terminated(0), EffectModel::Exit(0)),
        (PhaseModel::Reading, EventModel::Line(s)) => match parse_line(s) {
            Ok(c) => dispatch_spec(c),
            Err(ParseError::Empty) => (PhaseModel::Reading, EffectModel::Prompt),
            Err(err) => (PhaseModel::Idle, EffectModel::Write(error_text(err))),
        },
        (PhaseModel::Typing(n), EventModel::Resolved(r)) => (
            PhaseModel::Idle,
            EffectModel::Write(type_text(n, r)),
        ),
        (PhaseModel::Launching(n, a), EventModel::Resolved(Some(path))) => (
            PhaseModel::Running(n),
            EffectModel::Launch(path, a),
        ),
        (PhaseModel::Launching(n, _), EventModel::Resolved(None)) => (
            PhaseModel::Idle,
            EffectModel::Write(not_found_text(n)),
        ),
        (PhaseModel::Entering(d), EventModel::IsDir(true)) => (
            PhaseModel::Changing(d),
            EffectModel::ChangeDir(d),
        ),
        (PhaseModel::Entering(d), EventModel::IsDir(false)) => (
            PhaseModel::Idle,
            EffectModel::Write(no_dir_text(d)),
        ),
        (PhaseModel::Changing(d), EventModel::Failed(m)) => (
            PhaseModel::Idle,
            EffectModel::Write(failure_text(d, m)),
        ),
        (PhaseModel::Running(n), EventModel::Failed(m)) => (
            PhaseModel::Idle,
            EffectModel::Write(failure_text(n, m)),
        ),
        (PhaseModel::Locating, EventModel::Cwd(s)) => (
            PhaseModel::Idle,
            EffectModel::Write(s + "\n"@),
        ),
        _ => (PhaseModel::Reading, EffectModel::Prompt),
    }
}

/// The words joined by single spaces, followed by a newline: what `echo`
/// writes.
pub fn echo_line(words: &Vec<String>) -> (r: String)
    ensures
        r@ == join_words(texts(words@)) + "\n"@,
{
    let mut out = String::new();
    let mut i: usize = 0;
    while i < words.len()
        invariant
            i <= words@.len(),
            out@ == join_words(texts(words@).subrange(0, i as int)),
        decreases words@.len() - i,
    {
        let ghost pre = texts(words@).subrange(0, i as int);
        let ghost next = texts(words@).subrange(0, i + 1);
        assert(next.drop_last() =~= pre);
        assert(next.last() == words@[i as int]@);
        if i > 0 {
            out.append(" ");
        } else {
            assert(out@ =~= Seq::<char>::empty());
        }
        out.append(words[i].as_str());
        if i == 0 {
            assert(out@ =~= next[0]);
        }
        i = i + 1;
    }
    assert(texts(words@).subrange(0, words@.len() as int) =~= texts(words@));
    out.append("\n");
    out
}

/// What `type name` reports, given what the lookup of `name` found.
pub fn type_reply(name: &str, found: Option<String>) -> (r: String)
    ensures
        r@ == type_text(
            name@,
            match found {
                Some(p) => Some(p@),
                None => None,
            },
        ),
{
    if keyword(name).is_some() {
        String::from_str(name).concat(" is a shell builtin\n")
    } else {
        match found {
            Some(p) => String::from_str(name).concat(" is ").concat(p.as_str()).concat("\n"),
            None => String::from_str(name).concat(": not found\n"),
        }
    }
}

/// Runs a parsed command as far as the loop can without the outside world:
/// the phase it leads to and the effect that is asked for.
pub fn dispatch(cmd: ShellCmd) -> (r: (Phase, Effect))
    ensures
        (r.0@, r.1@) == dispatch_spec(cmd@),
{
    match cmd {
        ShellCmd::Builtin(Builtin::Exit { code }) => (
            Phase::Terminated { code },
            Effect::Exit(code),
        ),
        ShellCmd::Builtin(Builtin::Echo { text }) => (Phase::Idle, Effect::Write(echo_line(&text))),
        ShellCmd::Builtin(Builtin::Type { cmd }) => {
            if keyword(cmd.as_str()).is_some() {
                let msg = type_reply(cmd.as_str(), None);
                (Phase::Idle, Effect::Write(msg))
            } else {
                let name = cmd.clone();
                (Phase::Typing { cmd }, Effect::Resolve(name))
            }
        },
        ShellCmd::Builtin(Builtin::Pwd) => (Phase::Locating, Effect::QueryCwd),
        ShellCmd::Builtin(Builtin::Cd { dir }) => {
            let target = dir.clone();
            (Phase::Entering { dir }, Effect::CheckDir(target))
        },
        ShellCmd::Unknown { cmd, args } => {
            let name = cmd.clone();
            (Phase::Launching { cmd, args }, Effect::Resolve(name))
        },
    }
}

/// The message for a failed directory change or program start.
fn failure_message(subject: &str, reason: &str) -> (r: String)
    ensures
        r@ == failure_text(subject@, reason@),
{
    String::from_str(subject).concat(": ").concat(reason).concat("\n")
}

/// The state of one interactive session.
pub struct Repl {
    pub phase: Phase,
}

impl Repl {
    /// A session that has not yet prompted; start it with `Event::Ready`.
    pub fn new() -> (r: Repl)
        ensures
            r.phase@ == PhaseModel::Idle,
    {
        Repl { phase: Phase::Idle }
    }

    /// Whether the session awaits the event `ev` now.
    pub fn accepts(&self, ev: &Event) -> (r: bool)
        ensures
            r == accepts_spec(self.phase@, ev@),
    {
        match (&self.phase, ev) {
            (Phase::Idle, Event::Ready) => true,
            (Phase::Reading, Event::Line(_)) => true,
            (Phase::Reading, Event::Eof) => true,
            (Phase::Typing { .. }, Event::Resolved(_)) => true,
            (Phase::Launching { .. }, Event::Resolved(_)) => true,
            (Phase::Entering { .. }, Event::IsDir(_)) => true,
            (Phase::Changing { .. }, Event::Ready) => true,
            (Phase::Changing { .. }, Event::Failed(_)) => true,
            (Phase::Locating, Event::Cwd(_)) => true,
            (Phase::Running { .. }, Event::Ready) => true,
            (Phase::Running { .. }, Event::Failed(_)) => true,
            (Phase::Terminated { .. }, _) => true,
            _ => false,
        }
    }

    /// Whether the session has ended.
    pub fn is_terminated(&self) -> (r: bool)
        ensures
            r == (self.phase@ is Terminated),
    {
        match self.phase {
            Phase::Terminated { .. } => true,
            _ => false,
        }
    }

    /// Takes the event that the last effect led to, moves to the next phase
    /// and returns the effect to perform next.
    pub fn step(&mut self, ev: Event) -> (eff: Effect)
        requires
            accepts_spec(old(self).phase@, ev@),
        ensures
            (final(self).phase@, eff@) == step_spec(old(self).phase@, ev@),
    {
        let mut p = Phase::Idle;
        std::mem::swap(&mut self.phase, &mut p);
        let (next, eff) = match (p, ev) {
            (Phase::Terminated { code }, _) => (Phase::Terminated { code }, Effect::Exit(code)),
            (Phase::Reading, Event::Eof) => (Phase::Terminated { code: 0 }, Effect::Exit(0)),
            (Phase::Reading, Event::Line(s)) => match ShellCmd::parser(s.as_str()) {
                Ok(c) => dispatch(c),
                Err(ParseError::Empty) => (Phase::Reading, Effect::Prompt),
                Err(e) => (Phase::Idle, Effect::Write(e.message())),
            },
            (Phase::Typing { cmd }, Event::Resolved(r)) => {
                let msg = type_reply(cmd.as_str(), r);
                (Phase::Idle, Effect::Write(msg))
            },
            (Phase::Launching { cmd, args }, Event::Resolved(Some(path))) => (
                Phase::Running { cmd },
                Effect::Launch { path, args },
            ),
            (Phase::Launching { cmd, .. }, Event::Resolved(None)) => (
                Phase::Idle,
                Effect::Write(String::from_str(cmd.as_str()).concat(": command not found\n")),
            ),
            (Phase::Entering { dir }, Event::IsDir(true)) => {
                let target = dir.clone();
                (Phase::Changing { dir }, Effect::ChangeDir(target))
            },
            (Phase::Entering { dir }, Event::IsDir(false)) => (
                Phase::Idle,
                Effect::Write(
                    String::from_str(dir.as_str()).concat(": No such file or directory\n"),
                ),
            ),
            (Phase::Changing { dir }, Event::Failed(m)) => (
                Phase::Idle,
                Effect::Write(failure_message(dir.as_str(), m.as_str())),
            ),
            (Phase::Running { cmd }, Event::Failed(m)) => (
                Phase::Idle,
                Effect::Write(failure_message(cmd.as_str(), m.as_str())),
            ),
            (Phase::Locating, Event::Cwd(s)) => (
                Phase::Idle,
                Effect::Write(String::from_str(s.as_str()).concat("\n")),
            ),
            _ => (Phase::Reading, Effect::Prompt),
        };
        self.phase = next;
        eff
    }
}

/// A line of spaces alone dispatches nothing: the loop prompts again.
pub proof fn lemma_blank_line_reprompts(s: Seq<char>)
    requires
        forall|i: int| 0 <= i < s.len() ==> is_space(#[trigger] s[i]),
    ensures
        step_spec(PhaseModel::Reading, EventModel::Line(s)) == (
            PhaseModel::Reading,
            EffectModel::Prompt,
        ),
{
    lemma_blank_has_no_words(s);
}

/// `exit` ends the loop with its code as the status.
pub proof fn lemma_exit_terminates(code: i32)
    ensures
        dispatch_spec(CommandModel::Builtin(BuiltinModel::Exit(code))) == (
            PhaseModel::Terminated(code),
            EffectModel::Exit(code),
        ),
{
}

/// Once ended, the loop stays ended whatever happens: it never prompts again.
pub proof fn lemma_terminated_is_final(code: i32, e: EventModel)
    ensures
        step_spec(PhaseModel::Terminated(code), e) == (
            PhaseModel::Terminated(code),
            EffectModel::Exit(code),
        ),
{
}

/// `echo` writes its words joined by single spaces, and a newline.
pub proof fn lemma_echo_writes_joined(w: Seq<Seq<char>>)
    ensures
        dispatch_spec(CommandModel::Builtin(BuiltinModel::Echo(w))) == (
            PhaseModel::Idle,
            EffectModel::Write(join_words(w) + "\n"@),
        ),
{
}

/// A line whose first word is `echo` writes the remaining words joined by
/// single spaces, and a newline.
pub proof fn lemma_echo_line(s: Seq<char>)
    requires
        words(s).len() > 0,
        words(s)[0] == "echo"@,
    ensures
        step_spec(PhaseModel::Reading, EventModel::Line(s)) == (
            PhaseModel::Idle,
            EffectModel::Write(join_words(words(s).drop_first()) + "\n"@),
        ),
{
    reveal_strlit("echo");
    reveal_strlit("exit");
    assert("echo"@ != "exit"@) by {
        assert("echo"@[1] != "exit"@[1]);
    }
}

/// Echo round trip: the line made of `echo` and the words `w`, joined by
/// single spaces, writes exactly those words joined by single spaces, and a
/// newline.
pub proof fn lemma_echo_round_trip(w: Seq<Seq<char>>)
    requires
        forall|k: int| 0 <= k < w.len() ==> is_word(#[trigger] w[k]),
    ensures
        step_spec(PhaseModel::Reading, EventModel::Line(join_words(seq!["echo"@] + w))) == (
            PhaseModel::Idle,
            EffectModel::Write(join_words(w) + "\n"@),
        ),
{
    let line = seq!["echo"@] + w;
    reveal_strlit("echo");
    assert forall|k: int| 0 <= k < line.len() implies is_word(#[trigger] line[k]) by {
        if k > 0 {
            assert(line[k] == w[k - 1]);
        } else {
            assert("echo"@.len() == 4);
            assert(forall|i: int| 0 <= i < 4 ==> !is_space(#[trigger] "echo"@[i]));
        }
    }
    lemma_words_of_join(line);
    assert(line[0] == "echo"@);
    assert(line.drop_first() =~= w);
    lemma_echo_line(join_words(line));
}

/// `type name` reports that `name` is a builtin.
pub open spec fn says_builtin(name: Seq<char>, out: Seq<char>) -> bool {
    keyword_of(name) is Some && out == name + " is a shell builtin\n"@
}

/// `type name` reports the path that `name` resolves to.
pub open spec fn says_path(name: Seq<char>, out: Seq<char>) -> bool {
    keyword_of(name) is None && exists|p: Seq<char>| out == name + " is "@ + p + "\n"@
}

/// `type name` reports that `name` was not found.
pub open spec fn says_not_found(name: Seq<char>, out: Seq<char>) -> bool {
    keyword_of(name) is None && out == name + ": not found\n"@
}

/// What `type` reports for any name and any lookup result is exactly one of:
/// a builtin, a resolved path, or not found.
pub proof fn lemma_type_exhaustive(name: Seq<char>, found: Option<Seq<char>>)
    ensures
        ({
            let out = type_text(name, found);
            (says_builtin(name, out) || says_path(name, out) || says_not_found(name, out))
                && !(says_builtin(name, out) && says_path(name, out))
                && !(says_builtin(name, out) && says_not_found(name, out))
                && !(says_path(name, out) && says_not_found(name, out))
        }),
{
    let out = type_text(name, found);
    if let Some(p) = found {
        if keyword_of(name) is None {
            assert(out == name + " is "@ + p + "\n"@);
        }
    }
    if says_path(name, out) && says_not_found(name, out) {
        let p = choose|p: Seq<char>| out == name + " is "@ + p + "\n"@;
        reveal_strlit(" is ");
        reveal_strlit(": not found\n");
        let n = name.len() as int;
        assert((name + " is "@ + p + "\n"@)[n] == ' ');
        assert((name + ": not found\n"@)[n] == ':');
    }
}

/// `cd path` first asks whether `path` is a directory; only a directory
/// becomes the working directory, and any other path is reported while the
/// working directory is left as it is.
pub proof fn lemma_cd(s: Seq<char>, dir: Seq<char>, is_dir: bool)
    requires
        words(s) == seq!["cd"@, dir],
    ensures
        step_spec(PhaseModel::Reading, EventModel::Line(s)) == (
            PhaseModel::Entering(dir),
            EffectModel::CheckDir(dir),
        ),
        step_spec(PhaseModel::Entering(dir), EventModel::IsDir(is_dir)) == if is_dir {
            (PhaseModel::Changing(dir), EffectModel::ChangeDir(dir))
        } else {
            (PhaseModel::Idle, EffectModel::Write(no_dir_text(dir)))
        },
{
    reveal_strlit("cd");
    reveal_strlit("exit");
    reveal_strlit("echo");
    reveal_strlit("type");
    reveal_strlit("pwd");
    assert("cd"@.len() == 2);
    assert("exit"@.len() == 4 && "echo"@.len() == 4 && "type"@.len() == 4);
    assert("pwd"@.len() == 3);
}

} // verus!
