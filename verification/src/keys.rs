//! Session key material and its one-line wire form. The exchange itself is a
//! write of the framed key followed by a read whose result is discarded; only
//! the framing is computed here.

use crate::strutil::push_char;
use vstd::prelude::*;
use vstd::string::StringExecFns;

verus! {

/// Generate a private and a public key, as the pair (private, public).
pub fn gen_key() -> (r: (String, String))
    ensures
        r.0@ == "Hello"@,
        r.1@ == "Toi"@,
{
    let priv_key = String::from_str("Hello");
    let pub_key = String::from_str("Toi");
    (priv_key, pub_key)
}

/// The key material as a single wire line: the key with a newline appended,
/// so the peer's line-oriented read picks it up whole.
pub fn key_line(key: &String) -> (w: String)
    ensures
        w@ == key@.push('\n'),
{
    let mut w = key.clone();
    push_char(&mut w, '\n');
    w
}

} // verus!
