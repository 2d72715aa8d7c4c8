//! The command grammar: one line of text parsed into a verb and positional
//! string arguments.
//!
//! Tokens are separated by whitespace; a pair of single or double quotes
//! inside a token splices in a segment that may contain whitespace (an
//! unterminated quote extends to the end of the input).  The first token is
//! the verb:
//!
//! - `set_filename [name]` sets or, with the argument omitted, clears a file
//!   name;
//! - `save_as <name>` names the file to save to, and the name is required;
//! - anything else is an unknown command, and an input without any token is
//!   an empty command.  Both are recoverable errors, not crashes.

use crate::strutil::push_char;
use vstd::prelude::*;

verus! {

/// A recoverable failure of the command grammar.
#[derive(Clone, Copy, Debug, PartialEq, Eq, Structural)]
pub enum CommandError {
    /// The input held no token at all.
    EmptyCommand,
    /// The verb requires an argument that was not given.
    MissingArgument,
    /// The verb is not part of the grammar.
    UnknownCommand,
}

/// A parsed command: a verb with its argument.
#[derive(Clone, Debug, PartialEq, Eq)]
pub enum EditorCommand {
    /// Set the document's file name, or clear it when the name is empty.
    SetFilename(String),
    /// Set the document's file name and save to it at once.
    SaveAs(String),
}

/// The mathematical view of an [`EditorCommand`].
pub ghost enum CommandView {
    SetFilename(Seq<char>),
    SaveAs(Seq<char>),
}

impl View for EditorCommand {
    type V = CommandView;

    open spec fn view(&self) -> CommandView {
        match self {
            EditorCommand::SetFilename(s) => CommandView::SetFilename(s@),
            EditorCommand::SaveAs(s) => CommandView::SaveAs(s@),
        }
    }
}

/// The characters that separate tokens.
pub open spec fn is_space(c: char) -> bool {
    c == ' ' || c == '\t' || c == '\n' || c == '\r'
}

/// The characters that open (and close) a quoted segment.
pub open spec fn is_quote(c: char) -> bool {
    c == '"' || c == '\''
}

/// The tokenizer's position in the input: between tokens, inside an unquoted
/// part of a token, or inside a quoted segment opened by the given
/// character.
pub ghost enum TokState {
    Between,
    InToken,
    InQuote(char),
}

/// The tokens already produced once the input ends: a token still being
/// built is flushed.
pub open spec fn tok_finish(st: TokState, cur: Seq<char>, acc: Seq<Seq<char>>) -> Seq<Seq<char>> {
    match st {
        TokState::Between => acc,
        _ => acc.push(cur),
    }
}

/// One pass of the tokenizer over `s` from index `i`, in state `st`, with
/// the partial token `cur` and the tokens `acc` already produced.
pub open spec fn tok_rec(
    s: Seq<char>,
    i: int,
    st: TokState,
    cur: Seq<char>,
    acc: Seq<Seq<char>>,
) -> Seq<Seq<char>>
    decreases s.len() - i,
{
    if i < 0 || i >= s.len() {
        tok_finish(st, cur, acc)
    } else {
        let c = s[i];
        match st {
            TokState::Between => {
                if is_space(c) {
                    tok_rec(s, i + 1, TokState::Between, cur, acc)
                } else if is_quote(c) {
                    tok_rec(s, i + 1, TokState::InQuote(c), Seq::empty(), acc)
                } else {
                    tok_rec(s, i + 1, TokState::InToken, seq![c], acc)
                }
            },
            TokState::InToken => {
                if is_space(c) {
                    tok_rec(s, i + 1, TokState::Between, Seq::empty(), acc.push(cur))
                } else if is_quote(c) {
                    tok_rec(s, i + 1, TokState::InQuote(c), cur, acc)
                } else {
                    tok_rec(s, i + 1, TokState::InToken, cur.push(c), acc)
                }
            },
            TokState::InQuote(q) => {
                if c == q {
                    tok_rec(s, i + 1, TokState::InToken, cur, acc)
                } else {
                    tok_rec(s, i + 1, TokState::InQuote(q), cur.push(c), acc)
                }
            },
        }
    }
}

/// The tokens of `s`.
pub open spec fn tokenize(s: Seq<char>) -> Seq<Seq<char>> {
    tok_rec(s, 0, TokState::Between, Seq::empty(), Seq::empty())
}

/// What parsing a command line yields: the command, or the grammar error,
/// determined entirely by the input's tokens.
pub open spec fn spec_parse_command(s: Seq<char>) -> Result<CommandView, CommandError> {
    let toks = tokenize(s);
    if toks.len() == 0 {
        Err(CommandError::EmptyCommand)
    } else if toks[0] == "set_filename"@ {
        Ok(
            CommandView::SetFilename(
                if toks.len() >= 2 {
                    toks[1]
                } else {
                    Seq::empty()
                },
            ),
        )
    } else if toks[0] == "save_as"@ {
        if toks.len() >= 2 {
            Ok(CommandView::SaveAs(toks[1]))
        } else {
            Err(CommandError::MissingArgument)
        }
    } else {
        Err(CommandError::UnknownCommand)
    }
}

/// The tokenizer's exec state; mirrors [`TokState`].
enum TokMode {
    Between,
    InToken,
    InQuote(char),
}

impl TokMode {
    spec fn view_state(&self) -> TokState {
        match self {
            TokMode::Between => TokState::Between,
            TokMode::InToken => TokState::InToken,
            TokMode::InQuote(q) => TokState::InQuote(*q),
        }
    }
}

/// Split a command line into its tokens.
pub fn tokenize_command(s: &str) -> (r: Vec<String>)
    ensures
        r.deep_view() == tokenize(s@),
{
    let len = s.unicode_len();
    let mut acc: Vec<String> = Vec::new();
    let mut cur = String::new();
    let mut mode = TokMode::Between;
    let mut i: usize = 0;
    proof {
        assert(acc.deep_view() =~= Seq::<Seq<char>>::empty());
    }
    while i < len
        invariant
            i <= len,
            len == s@.len(),
            tok_rec(s@, i as int, mode.view_state(), cur@, acc.deep_view()) == tokenize(s@),
        decreases len - i,
    {
        let c = s.get_char(i);
        let ghost pre_acc = acc.deep_view();
        match mode {
            TokMode::Between => {
                if c == ' ' || c == '\t' || c == '\n' || c == '\r' {
                } else if c == '"' || c == '\'' {
                    cur = String::new();
                    mode = TokMode::InQuote(c);
                } else {
                    cur = String::new();
                    push_char(&mut cur, c);
                    mode = TokMode::InToken;
                    proof {
                        assert(cur@ =~= seq![c]);
                    }
                }
            },
            TokMode::InToken => {
                if c == ' ' || c == '\t' || c == '\n' || c == '\r' {
                    acc.push(cur);
                    cur = String::new();
                    mode = TokMode::Between;
                    proof {
                        assert(acc.deep_view() =~= pre_acc.push(acc@[pre_acc.len() as int]@));
                    }
                } else if c == '"' || c == '\'' {
                    mode = TokMode::InQuote(c);
                } else {
                    push_char(&mut cur, c);
                }
            },
            TokMode::InQuote(q) => {
                if c == q {
                    mode = TokMode::InToken;
                } else {
                    push_char(&mut cur, c);
                }
            },
        }
        i = i + 1;
    }
    match mode {
        TokMode::Between => {},
        _ => {
            let ghost pre_acc = acc.deep_view();
            acc.push(cur);
            proof {
                assert(acc.deep_view() =~= pre_acc.push(acc@[pre_acc.len() as int]@));
            }
        },
    }
    acc
}

/// Parse one line of command input into an [`EditorCommand`], or report the
/// grammar error: empty input, an unknown verb, or a missing required
/// argument.
pub fn parse_command(s: &str) -> (r: Result<EditorCommand, CommandError>)
    ensures
        match r {
            Ok(c) => spec_parse_command(s@) == Ok::<CommandView, CommandError>(c@),
            Err(e) => spec_parse_command(s@) == Err::<CommandView, CommandError>(e),
        },
{
    let toks = tokenize_command(s);
    if toks.len() == 0 {
        return Err(CommandError::EmptyCommand);
    }
    let set_filename = String::from_str("set_filename");
    let save_as = String::from_str("save_as");
    proof {
        assert(toks.deep_view()[0] == toks@[0]@);
    }
    if set_filename.eq(&toks[0]) {
        let arg = if toks.len() >= 2 {
            proof {
                assert(toks.deep_view()[1] == toks@[1]@);
            }
            toks[1].clone()
        } else {
            String::new()
        };
        Ok(EditorCommand::SetFilename(arg))
    } else if save_as.eq(&toks[0]) {
        if toks.len() >= 2 {
            proof {
                assert(toks.deep_view()[1] == toks@[1]@);
            }
            Ok(EditorCommand::SaveAs(toks[1].clone()))
        } else {
            Err(CommandError::MissingArgument)
        }
    } else {
        Err(CommandError::UnknownCommand)
    }
}

} // verus!
