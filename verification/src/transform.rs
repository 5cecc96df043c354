//! The reversible per-character byte-shift transform that obscures chat lines
//! on the wire, together with the trailing two-character integrity marker that
//! lets a receiver tell frames produced by this transform from foreign input.
//!
//! The shift amount is fixed at one regardless of the supplied key: the key
//! parameter is accepted for forward compatibility only. This is a deliberate
//! design choice, not an accident of the implementation.

use crate::strutil::push_char;
use vstd::prelude::*;
use vstd::string::StrSliceExecFns;

verus! {

/// One step of the byte-shift cipher on a single character: the code point is
/// reduced modulo 256, then moved up by one, wrapping around at 256.
pub open spec fn shift_up(c: char) -> char {
    ((((c as int) % 256) + 1) % 256) as char
}

/// Inverse step: the code point is reduced modulo 256, then moved down by
/// one, wrapping around at 0.
pub open spec fn shift_down(c: char) -> char {
    ((((c as int) % 256) + 255) % 256) as char
}

/// Printable ASCII: what chat lines are made of, and the range on which the
/// transform is exactly invertible and keeps clear of the newline delimiter.
pub open spec fn is_printable_ascii(c: char) -> bool {
    ' ' <= c && c <= '~'
}

/// The two fixed marker characters appended to every encoded line.
pub open spec fn marker() -> Seq<char> {
    seq!['3', '3']
}

/// Every character shifted up by one (modulo 256).
pub open spec fn shift_up_seq(s: Seq<char>) -> Seq<char> {
    s.map_values(|c: char| shift_up(c))
}

/// Every character shifted down by one (modulo 256).
pub open spec fn shift_down_seq(s: Seq<char>) -> Seq<char> {
    s.map_values(|c: char| shift_down(c))
}

/// What encoding produces: the shifted text followed by the raw marker.
pub open spec fn encode_spec(s: Seq<char>) -> Seq<char> {
    shift_up_seq(s) + marker()
}

/// What decoding produces: everything shifted down, then the trailing two
/// (marker) characters dropped.
pub open spec fn decode_spec(w: Seq<char>) -> Seq<char> {
    if w.len() >= 2 {
        shift_down_seq(w).take(w.len() - 2)
    } else {
        Seq::<char>::empty()
    }
}

/// A wire line is authentic when its last two characters are the raw marker.
pub open spec fn is_authentic_spec(w: Seq<char>) -> bool {
    &&& w.len() >= 2
    &&& w[w.len() - 1] == '3'
    &&& w[w.len() - 2] == '3'
}

/// Executable shift-up on one character.
fn shift_up_char(c: char) -> (r: char)
    ensures
        r == shift_up(c),
{
    let u: u32 = c as u32;
    let s: u32 = (u % 256 + 1) % 256;
    let s8: u8 = s as u8;
    s8 as char
}

/// Executable shift-down on one character.
fn shift_down_char(c: char) -> (r: char)
    ensures
        r == shift_down(c),
{
    let u: u32 = c as u32;
    let s: u32 = (u % 256 + 255) % 256;
    let s8: u8 = s as u8;
    s8 as char
}

/// Group of functions for the transform, on any text-like carrier.
pub trait Crypto: View<V = Seq<char>> {
    /// True exactly when the carried text ends in the integrity marker, that
    /// is, when it could have been produced by `encrypt`.
    fn check_string(&self) -> (r: bool)
        ensures
            r == is_authentic_spec(self@),
    ;

    /// Encode the carried text for the wire: shift every character up by one
    /// and append the marker. The key is ignored (fixed shift by design).
    fn encrypt(&self, key: String) -> (r: String)
        ensures
            r@ == encode_spec(self@),
    ;

    /// Decode a wire line: shift every character down by one and drop the
    /// trailing marker. A line too short to carry the marker decodes to the
    /// empty text.
    fn decrypt(&self, key: String) -> (r: String)
        ensures
            r@ == decode_spec(self@),
    ;
}

impl Crypto for String {
    fn check_string(&self) -> (r: bool) {
        let n: usize = self.as_str().unicode_len();
        if n < 2 {
            return false;
        }
        let last = self.as_str().get_char(n - 1);
        let before = self.as_str().get_char(n - 2);
        last == '3' && before == '3'
    }

    fn encrypt(&self, _key: String) -> (r: String) {
        let n: usize = self.as_str().unicode_len();
        let mut buff = String::new();
        let mut i: usize = 0;
        while i < n
            invariant
                i <= n,
                n == self@.len(),
                buff@ == shift_up_seq(self@.take(i as int)),
            decreases n - i,
        {
            let c = self.as_str().get_char(i);
            push_char(&mut buff, shift_up_char(c));
            i = i + 1;
            proof {
                assert(self@.take(i as int) =~= self@.take(i - 1).push(self@[i - 1]));
                assert(shift_up_seq(self@.take(i as int)) =~= shift_up_seq(
                    self@.take(i - 1),
                ).push(shift_up(self@[i - 1])));
            }
        }
        push_char(&mut buff, '3');
        push_char(&mut buff, '3');
        proof {
            assert(self@.take(n as int) =~= self@);
            assert(buff@ =~= encode_spec(self@));
        }
        buff
    }

    fn decrypt(&self, _key: String) -> (r: String) {
        let n: usize = self.as_str().unicode_len();
        if n < 2 {
            return String::new();
        }
        let mut buff = String::new();
        let mut i: usize = 0;
        while i < n - 2
            invariant
                n == self@.len(),
                2 <= n,
                i <= n - 2,
                buff@ == shift_down_seq(self@.take(i as int)),
            decreases n - 2 - i,
        {
            let c = self.as_str().get_char(i);
            push_char(&mut buff, shift_down_char(c));
            i = i + 1;
            proof {
                assert(self@.take(i as int) =~= self@.take(i - 1).push(self@[i - 1]));
                assert(shift_down_seq(self@.take(i as int)) =~= shift_down_seq(
                    self@.take(i - 1),
                ).push(shift_down(self@[i - 1])));
            }
        }
        proof {
            assert(shift_down_seq(self@.take(n - 2)) =~= shift_down_seq(self@).take(n - 2));
            assert(buff@ =~= decode_spec(self@));
        }
        buff
    }
}

/// Law: decoding an encoded line returns the original text. For every
/// printable-ASCII text (which never contains a newline), and whatever keys
/// the two sides pass, the shift is undone character by character and the
/// appended marker is dropped.
pub proof fn lemma_round_trip(s: Seq<char>)
    requires
        forall|i: int| 0 <= i < s.len() ==> is_printable_ascii(#[trigger] s[i]),
    ensures
        decode_spec(encode_spec(s)) == s,
{
    assert(decode_spec(encode_spec(s)) =~= s);
}

/// Law: every encoded line is authentic, whatever the text and the key.
pub proof fn lemma_encode_authentic(s: Seq<char>)
    ensures
        is_authentic_spec(encode_spec(s)),
{
}

/// Law: changing either of the last two characters of an encoded line to
/// anything else destroys authenticity.
pub proof fn lemma_marker_tamper(s: Seq<char>, i: int, c: char)
    requires
        encode_spec(s).len() - 2 <= i < encode_spec(s).len(),
        c != encode_spec(s)[i],
    ensures
        !is_authentic_spec(encode_spec(s).update(i, c)),
{
}

} // verus!
