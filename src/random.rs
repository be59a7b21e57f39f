use vstd::prelude::*;

use crate::claims::digit_char;
use rand::rngs::ThreadRng;
use rand::Rng;

verus! {

/// Length of an email-verification token.
pub const EMAIL_VERIFICATION_TOKEN_LENGTH: usize = 40;

/// Length of a password-reset token.
pub const PASSWORD_RESET_TOKEN_LENGTH: usize = 7;

#[verifier::external_type_specification]
#[verifier::external_body]
pub struct ExThreadRng(ThreadRng);

/// Relies on rand's `thread_rng`: a handle on the thread's generator, which
/// is seeded from the operating system's random source.
pub assume_specification[ rand::thread_rng ]() -> ThreadRng;

/// One of the 62 characters `A-Z`, `a-z`, `0-9`.
pub open spec fn is_alphanumeric(c: char) -> bool {
    ('A' <= c && c <= 'Z') || ('a' <= c && c <= 'z') || ('0' <= c && c <= '9')
}

pub open spec fn is_digit(c: char) -> bool {
    '0' <= c && c <= '9'
}

/// Relies on rand's `Alphanumeric` distribution: a character drawn uniformly
/// from `A-Z`, `a-z`, `0-9`, by rejection sampling.
#[verifier::external_body]
fn sample_alphanumeric(rng: &mut ThreadRng) -> (r: char)
    ensures
        is_alphanumeric(r),
{
    rng.sample(rand::distributions::Alphanumeric)
}

/// Relies on rand's `Rng::gen_range`: an integer drawn uniformly from
/// `[0, bound)`, by rejection sampling. It panics where the range is empty.
#[verifier::external_body]
fn sample_below(rng: &mut ThreadRng, bound: u32) -> (r: u32)
    requires
        bound > 0,
    ensures
        r < bound,
{
    rng.gen_range(0, bound)
}

/// Issues an email-verification token: forty characters, each drawn
/// independently and uniformly from `A-Z`, `a-z`, `0-9`.
pub fn email_verification_token() -> (r: String)
    ensures
        r@.len() == EMAIL_VERIFICATION_TOKEN_LENGTH,
        forall|i: int| 0 <= i < r@.len() ==> is_alphanumeric(#[trigger] r@[i]),
{
    let mut rng = rand::thread_rng();
    let mut out = String::new();
    let mut i: usize = 0;
    while i < EMAIL_VERIFICATION_TOKEN_LENGTH
        invariant
            i <= EMAIL_VERIFICATION_TOKEN_LENGTH,
            out@.len() == i,
            forall|j: int| 0 <= j < out@.len() ==> is_alphanumeric(#[trigger] out@[j]),
        decreases EMAIL_VERIFICATION_TOKEN_LENGTH - i,
    {
        let c = sample_alphanumeric(&mut rng);
        out.push(c);
        i = i + 1;
    }
    out
}

/// The text of a digit sequence, one character per digit, leading zeros kept.
pub open spec fn digits_text(digits: Seq<u32>) -> Seq<char> {
    digits.map_values(|d: u32| digit_char(d as nat))
}

/// Writes the digits out as text, one character per digit, in order.
pub fn reset_token_from_digits(digits: &[u32]) -> (r: String)
    requires
        forall|i: int| 0 <= i < digits@.len() ==> #[trigger] digits@[i] < 10,
    ensures
        r@ == digits_text(digits@),
{
    let mut out = String::new();
    let mut i: usize = 0;
    while i < digits.len()
        invariant
            i <= digits@.len(),
            forall|k: int| 0 <= k < digits@.len() ==> #[trigger] digits@[k] < 10,
            out@ == digits_text(digits@.subrange(0, i as int)),
        decreases digits@.len() - i,
    {
        let d = digits[i];
        out.push(((48 + d) as u8) as char);
        assert(digits@.subrange(0, i + 1) =~= digits@.subrange(0, i as int).push(d));
        assert(out@ =~= digits_text(digits@.subrange(0, i + 1)));
        i = i + 1;
    }
    assert(digits@.subrange(0, digits@.len() as int) =~= digits@);
    out
}

/// Issues a password-reset token: seven decimal digits, each drawn
/// independently and uniformly from `[0, 10)`; leading zeros are kept.
pub fn password_reset_token() -> (r: String)
    ensures
        r@.len() == PASSWORD_RESET_TOKEN_LENGTH,
        forall|i: int| 0 <= i < r@.len() ==> is_digit(#[trigger] r@[i]),
        exists|digits: Seq<u32>|
            digits.len() == PASSWORD_RESET_TOKEN_LENGTH && (forall|i: int|
                0 <= i < digits.len() ==> #[trigger] digits[i] < 10) && r@ == digits_text(digits),
{
    let mut rng = rand::thread_rng();
    let mut digits: Vec<u32> = Vec::new();
    let mut i: usize = 0;
    while i < PASSWORD_RESET_TOKEN_LENGTH
        invariant
            i <= PASSWORD_RESET_TOKEN_LENGTH,
            digits@.len() == i,
            forall|k: int| 0 <= k < digits@.len() ==> #[trigger] digits@[k] < 10,
        decreases PASSWORD_RESET_TOKEN_LENGTH - i,
    {
        let d = sample_below(&mut rng, 10);
        digits.push(d);
        i = i + 1;
    }
    let r = reset_token_from_digits(digits.as_slice());
    assert forall|i: int| 0 <= i < r@.len() implies is_digit(#[trigger] r@[i]) by {
        let d = digits@[i];
        assert(d < 10);
        assert(r@[i] == digit_char(d as nat));
    }
    r
}

} // verus!
