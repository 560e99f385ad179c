use rand::Rng;
use vstd::prelude::*;

verus! {

/// Number of characters in a recovery code.
pub const RECOVERY_CODE_LEN: usize = 6;

/// A digit that may appear in a recovery code: `'1'` to `'9'`, never `'0'`.
pub open spec fn is_code_digit(c: char) -> bool {
    '1' <= c && c <= '9'
}

/// `s` has `len` characters, each a code digit.
pub open spec fn is_code_of_len(s: Seq<char>, len: nat) -> bool {
    &&& s.len() == len
    &&& forall|i: int| 0 <= i < s.len() ==> is_code_digit(#[trigger] s[i])
}

/// A well-formed recovery code.
pub open spec fn is_recovery_code(s: Seq<char>) -> bool {
    is_code_of_len(s, RECOVERY_CODE_LEN as nat)
}

/// Relies on rand's `Rng::random_range` on the thread-local generator: a
/// uniformly drawn character of the inclusive range `lo..=hi`, which must not
/// be empty (it panics on an empty range).
#[verifier::external_body]
fn random_char_between(lo: char, hi: char) -> (c: char)
    requires
        lo <= hi,
    ensures
        lo <= c && c <= hi,
{
    rand::rng().random_range(lo..=hi)
}

/// Relies on `String::push`: appends one character.
#[verifier::external_body]
fn push_char(s: &mut String, c: char)
    ensures
        final(s)@ == old(s)@.push(c),
{
    s.push(c)
}

/// Draws a recovery code of `length` characters, each independently
/// drawn from `'1'..='9'`.
pub fn generate_otp(length: usize) -> (r: String)
    ensures
        is_code_of_len(r@, length as nat),
{
    let mut otp = String::new();
    let mut i: usize = 0;
    while i < length
        invariant
            i <= length,
            is_code_of_len(otp@, i as nat),
        decreases length - i,
    {
        let c = random_char_between('1', '9');
        push_char(&mut otp, c);
        i = i + 1;
    }
    otp
}

} // verus!
