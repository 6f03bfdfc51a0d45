//! The command parser: raw input is trimmed and split at the first space
//! into a command token and an argument remainder.
use vstd::prelude::*;
use vstd::string::StrSliceExecFns;

use crate::strutil::{find_space, first_space, lemma_first_space, trim, trim_spec};

verus! {

/// The command token of a trimmed input: everything before the first space.
pub open spec fn cmd_of(t: Seq<char>) -> Seq<char> {
    t.take(first_space(t))
}

/// The argument remainder of a trimmed input: everything after the first
/// space, trimmed again.
pub open spec fn arg_of(t: Seq<char>) -> Seq<char> {
    trim_spec(t.skip(first_space(t)))
}

/// Clean up and separate a command string: the trimmed input is split at
/// its first space into the command token and the trimmed argument
/// remainder; the third component is the trimmed input itself, kept for
/// the fallback path. The command token never contains a space.
pub fn validate(args: &str) -> (r: (&str, &str, &str))
    ensures
        r.0@ == cmd_of(trim_spec(args@)),
        r.1@ == arg_of(trim_spec(args@)),
        r.2@ == trim_spec(args@),
        forall|i: int| 0 <= i < r.0@.len() ==> r.0@[i] != ' ',
{
    let trimmed = trim(args);
    let n = trimmed.unicode_len();
    let idx = find_space(trimmed);
    proof {
        lemma_first_space(trimmed@);
    }
    let cmd = trimmed.substring_char(0, idx);
    let rest = trimmed.substring_char(idx, n);
    let argv = trim(rest);
    proof {
        assert(trimmed@.subrange(0, idx as int) =~= trimmed@.take(idx as int));
        assert(trimmed@.subrange(idx as int, n as int) =~= trimmed@.skip(idx as int));
    }
    (cmd, argv, trimmed)
}

} // verus!
