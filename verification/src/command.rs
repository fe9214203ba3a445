//! The command parser: turns a free-form command line into a structured
//! program-plus-arguments value.
//!
//! Tokens are separated by unquoted whitespace; a double- or single-quoted
//! run keeps its characters (whitespace included) inside the current token,
//! and the quotes themselves are dropped. There are no escape sequences. A
//! command line whose last quote is never closed, or that holds no token at
//! all, does not parse.

use vstd::prelude::*;

verus! {

/// Whether `c` separates tokens outside quotes.
pub open spec fn space_char(c: char) -> bool {
    c == ' ' || c == '\t' || c == '\n' || c == '\r'
}

/// Whether `c` opens (and closes) a quoted run.
pub open spec fn quote_char(c: char) -> bool {
    c == '"' || c == '\''
}

/// The token under construction, or the empty token when none has started
/// yet.
pub open spec fn cur_or_empty(cur: Option<Seq<char>>) -> Seq<char> {
    match cur {
        Option::Some(t) => t,
        Option::None => Seq::empty(),
    }
}

/// The tokens of the suffix of `s` from `i` on, appended to the tokens
/// `acc` already finished, while `cur` is the token under construction and
/// `quote` the currently open quote; `None` when a quote is left unclosed.
pub open spec fn tokens_from(
    s: Seq<char>,
    i: int,
    acc: Seq<Seq<char>>,
    cur: Option<Seq<char>>,
    quote: Option<char>,
) -> Option<Seq<Seq<char>>>
    decreases s.len() - i,
{
    if i >= s.len() {
        match quote {
            Option::Some(_) => Option::None,
            Option::None => match cur {
                Option::Some(t) => Option::Some(acc.push(t)),
                Option::None => Option::Some(acc),
            },
        }
    } else {
        let c = s[i];
        match quote {
            Option::Some(q) => if c == q {
                tokens_from(s, i + 1, acc, cur, Option::None)
            } else {
                tokens_from(s, i + 1, acc, Option::Some(cur_or_empty(cur).push(c)), quote)
            },
            Option::None => if space_char(c) {
                match cur {
                    Option::Some(t) => tokens_from(s, i + 1, acc.push(t), Option::None, Option::None),
                    Option::None => tokens_from(s, i + 1, acc, Option::None, Option::None),
                }
            } else if quote_char(c) {
                tokens_from(s, i + 1, acc, Option::Some(cur_or_empty(cur)), Option::Some(c))
            } else {
                tokens_from(s, i + 1, acc, Option::Some(cur_or_empty(cur).push(c)), Option::None)
            },
        }
    }
}

/// The tokens of a whole command line; `None` when a quote is left unclosed.
pub open spec fn tokenize(s: Seq<char>) -> Option<Seq<Seq<char>>> {
    tokens_from(s, 0, Seq::empty(), Option::None, Option::None)
}

/// Why a command line does not parse.
#[derive(Debug, PartialEq, Eq, Structural)]
pub enum CommandParseError {
    /// The command line holds no token.
    EmptyCommand,
    /// A quote opened on the command line is never closed.
    UnclosedQuote,
}

/// The mathematical shape of a parsed command.
pub struct SpecCommand {
    pub program: Seq<char>,
    pub args: Seq<Seq<char>>,
}

/// A parsed command: the program to run and its arguments, one token each.
#[derive(Debug)]
pub struct ParsedCommand {
    pub program: String,
    pub args: Vec<String>,
}

impl View for ParsedCommand {
    type V = SpecCommand;

    open spec fn view(&self) -> SpecCommand {
        SpecCommand { program: self.program@, args: self.args.deep_view() }
    }
}

/// What parsing a command line must return: its first token as the program
/// and the remaining tokens as the arguments, or the exact parse error.
pub open spec fn spec_parse_command(s: Seq<char>) -> Result<SpecCommand, CommandParseError> {
    match tokenize(s) {
        Option::None => Err(CommandParseError::UnclosedQuote),
        Option::Some(toks) => if toks.len() == 0 {
            Err(CommandParseError::EmptyCommand)
        } else {
            Ok(SpecCommand { program: toks[0], args: toks.subrange(1, toks.len() as int) })
        },
    }
}

/// The view of an optional token under construction.
spec fn spec_cur(has_cur: bool, cur: &String) -> Option<Seq<char>> {
    if has_cur {
        Option::Some(cur@)
    } else {
        Option::None
    }
}

/// The view of an optional open quote.
spec fn spec_quote(in_quote: bool, quote_ch: char) -> Option<char> {
    if in_quote {
        Option::Some(quote_ch)
    } else {
        Option::None
    }
}

/// Parses a command line into a program and its arguments.
pub fn parse_command(s: &str) -> (r: Result<ParsedCommand, CommandParseError>)
    ensures
        match r {
            Ok(pc) => spec_parse_command(s@) == Ok::<SpecCommand, CommandParseError>(pc@),
            Err(e) => spec_parse_command(s@) == Err::<SpecCommand, CommandParseError>(e),
        },
{
    let n = s.unicode_len();
    let mut tokens: Vec<String> = Vec::new();
    let mut cur: String = String::new();
    let mut has_cur: bool = false;
    let mut in_quote: bool = false;
    let mut quote_ch: char = '"';
    let mut i: usize = 0;
    proof {
        assert(tokens.deep_view() =~= Seq::<Seq<char>>::empty());
    }
    while i < n
        invariant
            i <= n,
            n == s@.len(),
            in_quote ==> has_cur,
            !has_cur ==> cur@.len() == 0,
            tokenize(s@) == tokens_from(
                s@,
                i as int,
                tokens.deep_view(),
                spec_cur(has_cur, &cur),
                spec_quote(in_quote, quote_ch),
            ),
        decreases n - i,
    {
        let c = s.get_char(i);
        let ghost prev_tokens = tokens.deep_view();
        let ghost prev_cur = spec_cur(has_cur, &cur);
        let ghost prev_quote = spec_quote(in_quote, quote_ch);
        if in_quote {
            if c == quote_ch {
                in_quote = false;
            } else {
                let piece = s.substring_char(i, i + 1);
                cur.append(piece);
                proof {
                    assert(cur@ =~= cur_or_empty(prev_cur).push(c));
                }
            }
        } else {
            if c == ' ' || c == '\t' || c == '\n' || c == '\r' {
                if has_cur {
                    tokens.push(cur);
                    cur = String::new();
                    has_cur = false;
                    proof {
                        assert(tokens.deep_view() =~= prev_tokens.push(cur_or_empty(prev_cur)));
                    }
                }
            } else if c == '"' || c == '\'' {
                in_quote = true;
                quote_ch = c;
                has_cur = true;
                proof {
                    assert(cur@ == cur_or_empty(prev_cur));
                }
            } else {
                let piece = s.substring_char(i, i + 1);
                cur.append(piece);
                has_cur = true;
                proof {
                    assert(cur@ =~= cur_or_empty(prev_cur).push(c));
                }
            }
        }
        i = i + 1;
        proof {
            assert(tokens_from(s@, i - 1, prev_tokens, prev_cur, prev_quote) == tokens_from(
                s@,
                i as int,
                tokens.deep_view(),
                spec_cur(has_cur, &cur),
                spec_quote(in_quote, quote_ch),
            ));
        }
    }
    if in_quote {
        return Err(CommandParseError::UnclosedQuote);
    }
    if has_cur {
        let ghost prev_tokens = tokens.deep_view();
        tokens.push(cur);
        proof {
            assert(tokens.deep_view() =~= prev_tokens.push(cur@));
        }
    }
    proof {
        assert(tokenize(s@) == Option::Some(tokens.deep_view()));
    }
    if tokens.len() == 0 {
        return Err(CommandParseError::EmptyCommand);
    }
    let program = first_token(&tokens);
    let mut args: Vec<String> = Vec::new();
    let mut j: usize = 1;
    let toks_len = tokens.len();
    while j < toks_len
        invariant
            1 <= j <= toks_len,
            toks_len == tokens.deep_view().len(),
            args.deep_view() =~= tokens.deep_view().subrange(1, j as int),
        decreases toks_len - j,
    {
        let t = clone_token(&tokens, j);
        let ghost args_before = args.deep_view();
        let ghost t_view = t@;
        args.push(t);
        proof {
            assert(args_before.len() == j - 1);
            assert(args@.len() == j);
            assert(args.deep_view().len() == j);
            assert forall|k: int| 0 <= k < args.deep_view().len() implies args.deep_view()[k]
                == tokens.deep_view().subrange(1, j as int + 1)[k] by {
                if k < args_before.len() {
                    assert(args.deep_view()[k] == args_before[k]);
                } else {
                    assert(args.deep_view()[k] == t_view);
                }
            }
            assert(args.deep_view() =~= tokens.deep_view().subrange(1, j as int + 1));
        }
        j = j + 1;
    }
    let pc = ParsedCommand { program, args };
    proof {
        assert(pc@.args =~= tokens.deep_view().subrange(1, tokens.deep_view().len() as int));
    }
    Ok(pc)
}

/// A copy of the first token of a non-empty token list.
fn first_token(tokens: &Vec<String>) -> (r: String)
    requires
        tokens@.len() > 0,
    ensures
        r@ == tokens.deep_view()[0],
{
    tokens[0].clone()
}

/// A copy of the token at `j`.
fn clone_token(tokens: &Vec<String>, j: usize) -> (r: String)
    requires
        j < tokens@.len(),
    ensures
        r@ == tokens.deep_view()[j as int],
{
    tokens[j].clone()
}

} // verus!
