//! The termination sentinel: the literal line "STOP", recognised after
//! trimming trailing whitespace, ends a chat session. Lines are
//! line-oriented operator input, so whitespace here is the ASCII kind that
//! such input carries: space, tab, carriage return and newline.

use vstd::prelude::*;
use vstd::string::{StrSliceExecFns, StringExecFns};

verus! {

/// ASCII whitespace as found at the end of a line of operator input.
pub open spec fn is_space(c: char) -> bool {
    c == ' ' || c == '\t' || c == '\n' || c == '\r'
}

/// The text with trailing whitespace removed.
pub open spec fn trim_spec(s: Seq<char>) -> Seq<char>
    decreases s.len(),
{
    if s.len() > 0 && is_space(s.last()) {
        trim_spec(s.drop_last())
    } else {
        s
    }
}

fn is_space_char(c: char) -> (r: bool)
    ensures
        r == is_space(c),
{
    c == ' ' || c == '\t' || c == '\n' || c == '\r'
}

/// The line with trailing whitespace trimmed off.
pub fn trimmed(s: &String) -> (t: String)
    ensures
        t@ == trim_spec(s@),
{
    let text = s.as_str();
    let n: usize = text.unicode_len();
    let mut end: usize = n;
    proof {
        assert(s@.take(n as int) =~= s@);
    }
    while end > 0
        invariant
            end <= n,
            n == s@.len(),
            text@ == s@,
            trim_spec(s@) == trim_spec(s@.take(end as int)),
        ensures
            end <= n,
            trim_spec(s@) == trim_spec(s@.take(end as int)),
            end == 0 || !is_space(s@[end - 1]),
        decreases end,
    {
        let c = text.get_char(end - 1);
        if !is_space_char(c) {
            break;
        }
        proof {
            let v = s@.take(end as int);
            assert(v.last() == s@[end - 1]);
            assert(trim_spec(v) == trim_spec(v.drop_last()));
            assert(v.drop_last() =~= s@.take(end as int - 1));
        }
        end = end - 1;
    }
    proof {
        let v = s@.take(end as int);
        if end > 0 {
            assert(v.last() == s@[end - 1]);
        }
        assert(trim_spec(v) == v);
    }
    String::from_str(text.substring_char(0, end))
}

/// True exactly when the line, after trimming trailing whitespace, is the
/// termination sentinel "STOP". The comparison is case-sensitive: neither
/// "stop" nor "STOP extra" qualifies, and leading whitespace is content.
pub fn is_sentinel(s: &String) -> (r: bool)
    ensures
        r == (trim_spec(s@) == "STOP"@),
{
    let t = trimmed(s);
    let stop = String::from_str("STOP");
    t.eq(&stop)
}

} // verus!
