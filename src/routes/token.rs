use rand::distributions::Alphanumeric;
use rand::rngs::ThreadRng;
use rand::Rng;
use vstd::prelude::*;

verus! {

/// Length of a subscription token, in characters.
pub const TOKEN_LEN: usize = 25;

#[verifier::external_type_specification]
#[verifier::external_body]
pub struct ExThreadRng(ThreadRng);

pub open spec fn is_alphanumeric_byte(b: u8) -> bool {
    (0x41 <= b <= 0x5a) || (0x61 <= b <= 0x7a) || (0x30 <= b <= 0x39)
}

pub open spec fn is_alphanumeric_char(c: char) -> bool {
    ('A' <= c <= 'Z') || ('a' <= c <= 'z') || ('0' <= c <= '9')
}

/// A token: `TOKEN_LEN` characters, each from `[A-Za-z0-9]`.
pub open spec fn is_token(s: Seq<char>) -> bool {
    s.len() == TOKEN_LEN && forall|i: int| 0 <= i < s.len() ==> is_alphanumeric_char(#[trigger] s[i])
}

/// Relies on `rand::thread_rng`: a handle to the thread's generator.
#[verifier::external_body]
fn thread_rng() -> ThreadRng {
    rand::thread_rng()
}

/// Relies on `Rng::sample(Alphanumeric)`: rand 0.8 draws a byte of
/// `GEN_ASCII_STR_CHARSET`, that is of `[A-Za-z0-9]`.
#[verifier::external_body]
fn sample_alphanumeric(rng: &mut ThreadRng) -> (r: u8)
    ensures
        is_alphanumeric_byte(r),
{
    rng.sample(Alphanumeric)
}

/// Relies on `String::push`: appends one character.
#[verifier::external_body]
pub(crate) fn push_char(s: &mut String, c: char)
    ensures
        final(s)@ == old(s)@.push(c),
{
    s.push(c)
}

/// A fresh random subscription token.
pub fn generate_token() -> (r: String)
    ensures
        is_token(r@),
{
    let mut rng = thread_rng();
    let mut token = String::new();
    let mut i: usize = 0;
    while i < TOKEN_LEN
        invariant
            i <= TOKEN_LEN,
            token@.len() == i,
            forall|j: int| 0 <= j < i ==> is_alphanumeric_char(#[trigger] token@[j]),
        decreases TOKEN_LEN - i,
    {
        let b = sample_alphanumeric(&mut rng);
        let c = b as char;
        assert(is_alphanumeric_char(c));
        push_char(&mut token, c);
        i += 1;
    }
    token
}

} // verus!
