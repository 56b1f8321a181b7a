//! The command grammar: a line's words become a builtin operation, an
//! external command, or a parse error.
use vstd::prelude::*;
use crate::tokens::{code_of, parse_code, texts, tokenize, words};

verus! {

/// The builtin operations, by their keyword.
#[derive(Clone, Copy, Debug, PartialEq, Eq, Structural)]
pub enum Keyword {
    Exit,
    Echo,
    Type,
    Pwd,
    Cd,
}

/// The word that names a builtin.
pub open spec fn keyword_text(k: Keyword) -> Seq<char> {
    match k {
        Keyword::Exit => "exit"@,
        Keyword::Echo => "echo"@,
        Keyword::Type => "type"@,
        Keyword::Pwd => "pwd"@,
        Keyword::Cd => "cd"@,
    }
}

/// The builtin that the word `w` names, if any (exact, case-sensitive match).
pub open spec fn keyword_of(w: Seq<char>) -> Option<Keyword> {
    if w == "exit"@ {
        Some(Keyword::Exit)
    } else if w == "echo"@ {
        Some(Keyword::Echo)
    } else if w == "type"@ {
        Some(Keyword::Type)
    } else if w == "pwd"@ {
        Some(Keyword::Pwd)
    } else if w == "cd"@ {
        Some(Keyword::Cd)
    } else {
        None
    }
}

impl Keyword {
    /// The word that names this builtin.
    pub fn name(&self) -> (r: &'static str)
        ensures
            r@ == keyword_text(*self),
    {
        match self {
            Keyword::Exit => "exit",
            Keyword::Echo => "echo",
            Keyword::Type => "type",
            Keyword::Pwd => "pwd",
            Keyword::Cd => "cd",
        }
    }
}

/// Whether two strings hold the same characters.
pub(crate) fn same_text(a: &str, b: &str) -> (r: bool)
    ensures
        r == (a@ == b@),
{
    let n = a.unicode_len();
    if n != b.unicode_len() {
        return false;
    }
    let mut i: usize = 0;
    while i < n
        invariant
            n == a@.len() == b@.len(),
            i <= n,
            forall|k: int| 0 <= k < i ==> a@[k] == b@[k],
        decreases n - i,
    {
        if a.get_char(i) != b.get_char(i) {
            return false;
        }
        i = i + 1;
    }
    assert(a@ =~= b@);
    true
}

/// The builtin that the word `w` names, if any.
pub fn keyword(w: &str) -> (r: Option<Keyword>)
    ensures
        r == keyword_of(w@),
{
    if same_text(w, "exit") {
        Some(Keyword::Exit)
    } else if same_text(w, "echo") {
        Some(Keyword::Echo)
    } else if same_text(w, "type") {
        Some(Keyword::Type)
    } else if same_text(w, "pwd") {
        Some(Keyword::Pwd)
    } else if same_text(w, "cd") {
        Some(Keyword::Cd)
    } else {
        None
    }
}

/// Why a line does not parse to a command.
#[derive(Clone, Copy, Debug, PartialEq, Eq, Structural)]
pub enum ParseError {
    /// The line has no words.
    Empty,
    /// `exit` was given a word that is not a decimal number fitting an `i32`.
    InvalidExitCode,
    /// The builtin needs one argument and was given none.
    MissingArgument(Keyword),
    /// The builtin was given more arguments than it takes.
    TooManyArguments(Keyword),
}

/// The message reported for a parse error; nothing for an empty line.
pub open spec fn error_text(e: ParseError) -> Seq<char> {
    match e {
        ParseError::Empty => Seq::empty(),
        ParseError::InvalidExitCode => "exit: numeric argument required\n"@,
        ParseError::MissingArgument(k) => keyword_text(k) + ": missing argument\n"@,
        ParseError::TooManyArguments(k) => keyword_text(k) + ": too many arguments\n"@,
    }
}

impl ParseError {
    /// The line reported to the user for this error.
    pub fn message(&self) -> (r: String)
        ensures
            r@ == error_text(*self),
    {
        match self {
            ParseError::Empty => String::new(),
            ParseError::InvalidExitCode => String::from_str("exit: numeric argument required\n"),
            ParseError::MissingArgument(k) => String::from_str(k.name()).concat(
                ": missing argument\n",
            ),
            ParseError::TooManyArguments(k) => String::from_str(k.name()).concat(
                ": too many arguments\n",
            ),
        }
    }
}

/// A builtin operation with its arguments.
#[derive(Debug, PartialEq, Eq)]
pub enum Builtin {
    Exit { code: i32 },
    Echo { text: Vec<String> },
    Type { cmd: String },
    Pwd,
    Cd { dir: String },
}

/// A parsed command: a builtin, or an external program with its arguments.
#[derive(Debug, PartialEq, Eq)]
pub enum ShellCmd {
    Builtin(Builtin),
    Unknown { cmd: String, args: Vec<String> },
}

/// What a `Builtin` holds, as character sequences.
pub enum BuiltinModel {
    Exit(i32),
    Echo(Seq<Seq<char>>),
    Type(Seq<char>),
    Pwd,
    Cd(Seq<char>),
}

/// What a `ShellCmd` holds, as character sequences.
pub enum CommandModel {
    Builtin(BuiltinModel),
    Unknown(Seq<char>, Seq<Seq<char>>),
}

impl View for Builtin {
    type V = BuiltinModel;

    open spec fn view(&self) -> BuiltinModel {
        match self {
            Builtin::Exit { code } => BuiltinModel::Exit(*code),
            Builtin::Echo { text } => BuiltinModel::Echo(texts(text@)),
            Builtin::Type { cmd } => BuiltinModel::Type(cmd@),
            Builtin::Pwd => BuiltinModel::Pwd,
            Builtin::Cd { dir } => BuiltinModel::Cd(dir@),
        }
    }
}

impl View for ShellCmd {
    type V = CommandModel;

    open spec fn view(&self) -> CommandModel {
        match self {
            ShellCmd::Builtin(b) => CommandModel::Builtin(b@),
            ShellCmd::Unknown { cmd, args } => CommandModel::Unknown(cmd@, texts(args@)),
        }
    }
}

/// A builtin that takes exactly one argument.
pub open spec fn one_argument(
    k: Keyword,
    t: Seq<Seq<char>>,
    make: spec_fn(Seq<char>) -> BuiltinModel,
) -> Result<BuiltinModel, ParseError> {
    if t.len() == 1 {
        Err(ParseError::MissingArgument(k))
    } else if t.len() > 2 {
        Err(ParseError::TooManyArguments(k))
    } else {
        Ok(make(t[1]))
    }
}

/// The builtin that the words `t` form: `None` when the first word is no
/// builtin's keyword, else the builtin or why its arguments are wrong.
pub open spec fn builtin_of(t: Seq<Seq<char>>) -> Option<Result<BuiltinModel, ParseError>> {
    if t.len() == 0 {
        None
    } else {
        match keyword_of(t[0]) {
            None => None,
            Some(Keyword::Exit) => Some(
                if t.len() == 1 {
                    Ok(BuiltinModel::Exit(0))
                } else if t.len() > 2 {
                    Err(ParseError::TooManyArguments(Keyword::Exit))
                } else {
                    match code_of(t[1]) {
                        Some(c) => Ok(BuiltinModel::Exit(c)),
                        None => Err(ParseError::InvalidExitCode),
                    }
                },
            ),
            Some(Keyword::Echo) => Some(Ok(BuiltinModel::Echo(t.drop_first()))),
            Some(Keyword::Type) => Some(
                one_argument(Keyword::Type, t, |w: Seq<char>| BuiltinModel::Type(w)),
            ),
            Some(Keyword::Pwd) => Some(
                if t.len() == 1 {
                    Ok(BuiltinModel::Pwd)
                } else {
                    Err(ParseError::TooManyArguments(Keyword::Pwd))
                },
            ),
            Some(Keyword::Cd) => Some(
                one_argument(Keyword::Cd, t, |w: Seq<char>| BuiltinModel::Cd(w)),
            ),
        }
    }
}

/// The command that the words `t` form.
pub open spec fn command_of(t: Seq<Seq<char>>) -> Result<CommandModel, ParseError> {
    if t.len() == 0 {
        Err(ParseError::Empty)
    } else {
        match builtin_of(t) {
            Some(Ok(b)) => Ok(CommandModel::Builtin(b)),
            Some(Err(e)) => Err(e),
            None => Ok(CommandModel::Unknown(t[0], t.drop_first())),
        }
    }
}

/// The command that the line `s` holds.
pub open spec fn parse_line(s: Seq<char>) -> Result<CommandModel, ParseError> {
    command_of(words(s))
}

/// The words of `v` after the first, copied.
fn tail(v: &Vec<String>) -> (r: Vec<String>)
    requires
        v@.len() > 0,
    ensures
        texts(r@) == texts(v@).drop_first(),
{
    let mut out: Vec<String> = Vec::new();
    let mut i: usize = 1;
    while i < v.len()
        invariant
            1 <= i <= v@.len(),
            out@.len() == i - 1,
            texts(out@) == texts(v@).subrange(1, i as int),
        decreases v@.len() - i,
    {
        let w = v[i].clone();
        let ghost before = out@;
        out.push(w);
        assert(out@ == before.push(w));
        assert forall|k: int| 0 <= k < i as int implies texts(out@)[k] == texts(v@).subrange(
            1,
            i + 1,
        )[k] by {
            if k < i - 1 {
                assert(out@[k] == before[k]);
                assert(texts(before)[k] == texts(v@).subrange(1, i as int)[k]);
            }
        }
        assert(texts(out@) =~= texts(v@).subrange(1, i + 1));
        i = i + 1;
    }
    assert(texts(v@).subrange(1, v@.len() as int) =~= texts(v@).drop_first());
    out
}

impl Builtin {
    /// Reads a builtin from the words of a line. `None` when the first word
    /// names no builtin; otherwise the builtin, or the error in its arguments.
    pub fn parser(tokens: &Vec<String>) -> (r: Option<Result<Builtin, ParseError>>)
        ensures
            match r {
                None => builtin_of(texts(tokens@)) is None,
                Some(Ok(b)) => builtin_of(texts(tokens@)) == Some(
                    Ok::<BuiltinModel, ParseError>(b@),
                ),
                Some(Err(e)) => builtin_of(texts(tokens@)) == Some(Err::<BuiltinModel, ParseError>(e)),
            },
    {
        let ghost t = texts(tokens@);
        let n = tokens.len();
        if n == 0 {
            return None;
        }
        assert(t[0] == tokens@[0]@);
        match keyword(tokens[0].as_str()) {
            None => None,
            Some(Keyword::Exit) => {
                if n == 1 {
                    Some(Ok(Builtin::Exit { code: 0 }))
                } else if n > 2 {
                    Some(Err(ParseError::TooManyArguments(Keyword::Exit)))
                } else {
                    assert(t[1] == tokens@[1]@);
                    match parse_code(tokens[1].as_str()) {
                        Some(c) => Some(Ok(Builtin::Exit { code: c })),
                        None => Some(Err(ParseError::InvalidExitCode)),
                    }
                }
            },
            Some(Keyword::Echo) => Some(Ok(Builtin::Echo { text: tail(tokens) })),
            Some(Keyword::Type) => {
                if n == 1 {
                    Some(Err(ParseError::MissingArgument(Keyword::Type)))
                } else if n > 2 {
                    Some(Err(ParseError::TooManyArguments(Keyword::Type)))
                } else {
                    assert(t[1] == tokens@[1]@);
                    Some(Ok(Builtin::Type { cmd: tokens[1].clone() }))
                }
            },
            Some(Keyword::Pwd) => {
                if n == 1 {
                    Some(Ok(Builtin::Pwd))
                } else {
                    Some(Err(ParseError::TooManyArguments(Keyword::Pwd)))
                }
            },
            Some(Keyword::Cd) => {
                if n == 1 {
                    Some(Err(ParseError::MissingArgument(Keyword::Cd)))
                } else if n > 2 {
                    Some(Err(ParseError::TooManyArguments(Keyword::Cd)))
                } else {
                    assert(t[1] == tokens@[1]@);
                    Some(Ok(Builtin::Cd { dir: tokens[1].clone() }))
                }
            },
        }
    }
}

impl ShellCmd {
    /// Parses a line. A first word that names a builtin gives that builtin
    /// (or the error in its arguments); any other first word gives an
    /// external command with the remaining words as its arguments.
    pub fn parser(line: &str) -> (r: Result<ShellCmd, ParseError>)
        ensures
            match r {
                Ok(c) => parse_line(line@) == Ok::<CommandModel, ParseError>(c@),
                Err(e) => parse_line(line@) == Err::<CommandModel, ParseError>(e),
            },
    {
        let toks = tokenize(line);
        if toks.len() == 0 {
            return Err(ParseError::Empty);
        }
        match Builtin::parser(&toks) {
            Some(Ok(b)) => Ok(ShellCmd::Builtin(b)),
            Some(Err(e)) => Err(e),
            None => {
                assert(texts(toks@)[0] == toks@[0]@);
                Ok(ShellCmd::Unknown { cmd: toks[0].clone(), args: tail(&toks) })
            },
        }
    }
}

} // verus!
