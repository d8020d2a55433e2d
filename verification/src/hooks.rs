//! Lifecycle commands: which shell command line, if any, a declared hook
//! stands for.

use vstd::prelude::*;
use crate::config::{HookCommand, HookToken};
use crate::text::{join, joined, texts};

verus! {

/// The string elements of a hook's list, in order; the other elements are
/// left out.
pub open spec fn token_texts(tokens: Seq<HookToken>) -> Seq<Seq<char>>
    decreases tokens.len(),
{
    if tokens.len() == 0 {
        Seq::empty()
    } else {
        let before = token_texts(tokens.drop_last());
        match tokens.last() {
            HookToken::Text(t) => before.push(t@),
            HookToken::Other => before,
        }
    }
}

/// The command line that a hook stands for: a single string as it is, a
/// list as its string elements joined by single spaces, and nothing for an
/// absent hook or one of another shape.
pub open spec fn shell_command_of(hook: Option<HookCommand>) -> Option<Seq<char>> {
    match hook {
        Some(HookCommand::Shell(line)) => Some(line@),
        Some(HookCommand::Tokens(tokens)) => Some(joined(token_texts(tokens@), " "@)),
        Some(HookCommand::Unsupported) => None,
        None => None,
    }
}

fn string_tokens(tokens: &Vec<HookToken>) -> (out: Vec<String>)
    ensures
        texts(out@) == token_texts(tokens@),
{
    let mut out: Vec<String> = Vec::new();
    let mut i: usize = 0;
    proof {
        assert(tokens@.take(0) =~= Seq::<HookToken>::empty());
        assert(texts(out@) =~= token_texts(tokens@.take(0)));
    }
    while i < tokens.len()
        invariant
            i <= tokens.len(),
            texts(out@) == token_texts(tokens@.take(i as int)),
        decreases tokens.len() - i,
    {
        proof {
            assert(tokens@.take(i + 1).drop_last() =~= tokens@.take(i as int));
            assert(tokens@.take(i + 1).last() == tokens@[i as int]);
        }
        match &tokens[i] {
            HookToken::Text(t) => {
                let copy = t.clone();
                proof {
                    assert(texts(out@.push(copy)) =~= texts(out@).push(t@));
                }
                out.push(copy);
            },
            HookToken::Other => {},
        }
        i += 1;
    }
    proof {
        assert(tokens@.take(i as int) =~= tokens@);
    }
    out
}

/// The shell command line to run for `hook`, if it stands for one.
pub fn shell_command(hook: &Option<HookCommand>) -> (out: Option<String>)
    ensures
        match shell_command_of(*hook) {
            Some(line) => out matches Some(s) && s@ == line,
            None => out is None,
        },
{
    match hook {
        Some(HookCommand::Shell(line)) => Some(line.clone()),
        Some(HookCommand::Tokens(tokens)) => {
            let parts = string_tokens(tokens);
            Some(join(&parts, " "))
        },
        Some(HookCommand::Unsupported) => None,
        None => None,
    }
}

} // verus!
