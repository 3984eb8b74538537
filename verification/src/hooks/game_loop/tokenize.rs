//! Slash-command tokenizer: whitespace separates tokens, double quotes group
//! words, and inside quotes a backslash escapes the next character.
use vstd::prelude::*;
use crate::text::{chars_of, chars_view, is_whitespace, is_ws, strings_view, to_strings};

verus! {

/// Tokenizer state after a prefix of the input.
pub struct TokState {
    pub tokens: Seq<Seq<char>>,
    pub cur: Seq<char>,
    pub in_quotes: bool,
    pub escaped: bool,
}

/// The state before any input.
pub open spec fn tok_init() -> TokState {
    TokState { tokens: seq![], cur: seq![], in_quotes: false, escaped: false }
}

/// The current token closed off (when non-empty).
pub open spec fn flush(tokens: Seq<Seq<char>>, cur: Seq<char>) -> Seq<Seq<char>> {
    if cur.len() > 0 {
        tokens.push(cur)
    } else {
        tokens
    }
}

/// One input character.
pub open spec fn tok_step(st: TokState, ch: char) -> TokState {
    if st.escaped {
        TokState { cur: st.cur.push(ch), escaped: false, ..st }
    } else if ch == '\\' && st.in_quotes {
        TokState { escaped: true, ..st }
    } else if ch == '"' {
        TokState { in_quotes: !st.in_quotes, ..st }
    } else if is_ws(ch) && !st.in_quotes {
        TokState { tokens: flush(st.tokens, st.cur), cur: seq![], ..st }
    } else {
        TokState { cur: st.cur.push(ch), ..st }
    }
}

/// The state after reading all of `s`.
pub open spec fn tok_run(s: Seq<char>) -> TokState
    decreases s.len(),
{
    if s.len() == 0 {
        tok_init()
    } else {
        tok_step(tok_run(s.drop_last()), s.last())
    }
}

/// The tokens of a slash command, or `None` when a quote is left open.
pub open spec fn tokenize_spec(s: Seq<char>) -> Option<Seq<Seq<char>>> {
    let st = tok_run(s);
    if st.in_quotes {
        None
    } else {
        let cur = if st.escaped {
            st.cur.push('\\')
        } else {
            st.cur
        };
        Some(flush(st.tokens, cur))
    }
}

/// Tokenize a command held as characters.
pub fn tokenize_chars(input: &[char]) -> (r: Option<Vec<Vec<char>>>)
    ensures
        r is None ==> tokenize_spec(input@) is None,
        r matches Some(t) ==> tokenize_spec(input@) == Some(chars_view(t@)),
{
    let mut tokens: Vec<Vec<char>> = Vec::new();
    let mut current: Vec<char> = Vec::new();
    let mut in_quotes = false;
    let mut escaped = false;
    let mut i: usize = 0;
    proof {
        assert(chars_view(tokens@) =~= seq![]);
        assert(current@ =~= seq![]);
        assert(input@.subrange(0, 0).len() == 0);
    }
    while i < input.len()
        invariant
            0 <= i <= input@.len(),
            tok_run(input@.subrange(0, i as int)) == (TokState {
                tokens: chars_view(tokens@),
                cur: current@,
                in_quotes,
                escaped,
            }),
        decreases input@.len() - i,
    {
        let ch = input[i];
        proof {
            let pre = input@.subrange(0, i + 1);
            assert(pre.drop_last() =~= input@.subrange(0, i as int));
            assert(pre.last() == ch);
        }
        if escaped {
            current.push(ch);
            escaped = false;
        } else if ch == '\\' && in_quotes {
            escaped = true;
        } else if ch == '"' {
            in_quotes = !in_quotes;
        } else if is_whitespace(ch) && !in_quotes {
            if current.len() > 0 {
                let ghost before = tokens@;
                tokens.push(current);
                proof {
                    assert(chars_view(tokens@) =~= chars_view(before).push(current@));
                }
                current = Vec::new();
            }
            proof {
                assert(current@ =~= seq![]);
            }
        } else {
            current.push(ch);
        }
        i = i + 1;
    }
    proof {
        assert(input@.subrange(0, input@.len() as int) =~= input@);
    }
    if in_quotes {
        return None;
    }
    if escaped {
        current.push('\\');
    }
    if current.len() > 0 {
        let ghost before = tokens@;
        tokens.push(current);
        proof {
            assert(chars_view(tokens@) =~= chars_view(before).push(current@));
        }
    }
    Some(tokens)
}

/// Split a slash command into tokens. Whitespace outside quotes separates
/// tokens; a double quote opens or closes a quoted run (the quote itself is
/// dropped); inside quotes a backslash makes the next character literal.
/// A quote left open is an error.
pub fn tokenize_slash_command(input: &str) -> (r: Result<Vec<String>, &'static str>)
    ensures
        r is Err <==> tokenize_spec(input@) is None,
        r matches Err(e) ==> e@ == "unterminated quote in slash command"@,
        r matches Ok(t) ==> tokenize_spec(input@) == Some(strings_view(t@)),
{
    let chars = chars_of(input);
    match tokenize_chars(chars.as_slice()) {
        None => Err("unterminated quote in slash command"),
        Some(t) => Ok(to_strings(&t)),
    }
}

} // verus!
