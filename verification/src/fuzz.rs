//! Random text to feed a program under test with.
//!
//! The characters come from a charset; which of them come is left to the
//! `fastrand` generator. What is proved holds whatever the generator draws.

use vstd::prelude::*;
use vstd::string::StrSliceExecFns;
use vstd::utf8::encode_utf8;

verus! {

/// The charset that is used where none is configured: the ASCII letters
/// and digits.
pub open spec fn default_charset() -> Seq<char> {
    "abcdefghijklmnopqrstuvwxyzABCDEFGHIJKLMNOPQRSTUVWXYZ1234567890"@
}

/// The charset that a configuration asks for.
pub open spec fn charset_of(configured: Option<&str>) -> Seq<char> {
    match configured {
        Some(charset) => charset@,
        None => default_charset(),
    }
}

/// Draws a number below `bound` with `fastrand::usize`, which picks from a
/// range that is not empty and never leaves it. Which number comes is the
/// generator's choice.
#[verifier::external_body]
fn draw_below(bound: usize) -> (drawn: usize)
    requires
        bound > 0,
    ensures
        drawn < bound,
{
    fastrand::usize(..bound)
}

/// `String::push` appends one character.
pub assume_specification[ String::push ](text: &mut String, character: char)
    ensures
        final(text)@ == old(text)@.push(character),
;

/// The text that a sequence of draws spells: each draw is the position of
/// a character in the charset.
pub open spec fn spelled(charset: Seq<char>, draws: Seq<usize>) -> Seq<char> {
    Seq::new(draws.len(), |i: int| charset[draws[i] as int])
}

/// Spells the text that `draws` pick from `charset`, one character for each
/// draw and in their order.
pub fn spell(charset: &str, draws: &Vec<usize>) -> (text: String)
    requires
        forall|i: int| 0 <= i < draws@.len() ==> draws@[i] < charset@.len(),
    ensures
        text@ == spelled(charset@, draws@),
{
    let mut text = String::new();
    let mut i: usize = 0;
    while i < draws.len()
        invariant
            i <= draws.len(),
            forall|k: int| 0 <= k < draws@.len() ==> draws@[k] < charset@.len(),
            text@ == spelled(charset@, draws@.take(i as int)),
        decreases draws.len() - i,
    {
        text.push(charset.get_char(draws[i]));
        assert(text@ =~= spelled(charset@, draws@.take(i + 1)));
        i += 1;
    }
    assert(draws@.take(i as int) =~= draws@);
    text
}

/// Makes a random text of `length + 1` characters, each drawn from the
/// configured charset, or from the letters and digits where none is
/// configured.
pub fn fuzz(length: usize, configured: Option<&str>) -> (text: String)
    requires
        length < usize::MAX,
        configured matches Some(charset) ==> charset@.len() > 0,
    ensures
        text@.len() == length + 1,
        forall|i: int| 0 <= i < text@.len() ==> charset_of(configured).contains(text@[i]),
{
    let charset = match configured {
        Some(charset) => charset,
        None => "abcdefghijklmnopqrstuvwxyzABCDEFGHIJKLMNOPQRSTUVWXYZ1234567890",
    };
    proof {
        reveal_strlit("abcdefghijklmnopqrstuvwxyzABCDEFGHIJKLMNOPQRSTUVWXYZ1234567890");
    }
    let size = charset.unicode_len();
    let mut draws: Vec<usize> = Vec::new();
    let mut i: usize = 0;
    while i <= length
        invariant
            i <= length + 1,
            length < usize::MAX,
            draws@.len() == i,
            size == charset@.len(),
            size > 0,
            charset@ == charset_of(configured),
            forall|k: int| 0 <= k < draws@.len() ==> draws@[k] < charset@.len(),
        decreases length + 1 - i,
    {
        draws.push(draw_below(size));
        i += 1;
    }
    spell(charset, &draws)
}

/// Sets the seed of the generator of this thread with `fastrand::seed`.
/// What the generator draws afterwards follows from the seed; its state is
/// not modelled, so nothing is stated.
#[verifier::external_body]
fn seed_generator(seed: u64) {
    fastrand::seed(seed)
}

/// Draws a stride below `bound` with `fastrand::u8`, which picks from a
/// range that is not empty and never leaves it.
#[verifier::external_body]
fn draw_stride(bound: u8) -> (drawn: u8)
    requires
        bound > 0,
    ensures
        drawn < bound,
{
    fastrand::u8(..bound)
}

/// The bound below which the strides of a seeded walk are drawn: the
/// length of the charset in bytes, as far as it fits a byte.
pub open spec fn stride_bound(charset: Seq<char>) -> nat {
    encode_utf8(charset).len() % 256
}

/// Where a walk stands after one more stride. A walk that has passed
/// `passed` of `size` characters skips `stride` of them and lands on the
/// next, which it passes too; it has left where there is none to land on.
pub open spec fn after_stride(size: int, passed: int, stride: int) -> Option<int> {
    if passed + stride < size {
        Some(passed + stride + 1)
    } else {
        None
    }
}

/// Takes one stride of a walk through `size` characters.
pub fn take_stride(size: usize, passed: usize, stride: u8) -> (landed: Option<usize>)
    ensures
        match landed {
            Some(next) => after_stride(size as int, passed as int, stride as int) == Some(
                next as int,
            ),
            None => after_stride(size as int, passed as int, stride as int).is_none(),
        },
{
    if passed < size && stride as usize <= size - passed - 1 {
        Some(passed + stride as usize + 1)
    } else {
        None
    }
}

/// Whether a walk of `strides` strides, each drawn below `bound`, stays
/// inside `size` characters whatever is drawn: even strides of the greatest
/// length do not lead behind the last character.
pub open spec fn surely_stays(size: int, bound: int, strides: int) -> bool {
    bound > 0 && strides * bound <= size
}

/// Whether a walk of `strides` strides, each drawn below `bound`, leaves
/// `size` characters whatever is drawn: no stride can be drawn at all, or
/// there are more strides than characters to land on.
pub open spec fn surely_leaves(size: int, bound: int, strides: int) -> bool {
    bound <= 0 || strides > size
}

/// Seeds the generator of this thread, so that what it draws afterwards can
/// be drawn again, and walks it through the configured charset by
/// `length + 1` random strides. The charset is handed back where the walk
/// has stayed inside it. Nothing is handed back where a stride has led
/// behind the end of the charset, or where no stride can be drawn because
/// the bound is zero. Between the walks that surely stay and those that
/// surely leave, the generator decides.
pub fn fuzz_seed(length: usize, seed: u64, configured: Option<&str>) -> (charset: Option<String>)
    ensures
        charset matches Some(text) ==> text@ == charset_of(configured),
        surely_stays(
            charset_of(configured).len() as int,
            stride_bound(charset_of(configured)) as int,
            length + 1,
        ) ==> charset.is_some(),
        surely_leaves(
            charset_of(configured).len() as int,
            stride_bound(charset_of(configured)) as int,
            length + 1,
        ) ==> charset.is_none(),
{
    seed_generator(seed);
    let charset = match configured {
        Some(charset) => charset,
        None => "abcdefghijklmnopqrstuvwxyzABCDEFGHIJKLMNOPQRSTUVWXYZ1234567890",
    };
    let bound: u8 = (charset.as_bytes().len() % 256) as u8;
    if bound == 0 {
        return None;
    }
    let size = charset.unicode_len();
    let mut passed: usize = 0;
    let mut left: usize = length;
    loop
        invariant
            bound > 0,
            charset@ == charset_of(configured),
            bound == stride_bound(charset@),
            size == charset@.len(),
            left <= length,
            length - left <= passed <= size,
            passed <= (length - left) * bound,
        decreases left,
    {
        let ghost taken: int = length - left;
        let stride = draw_stride(bound);
        proof {
            assert((taken + 1) * bound == taken * bound + bound) by (nonlinear_arith);
            assert((taken + 1) * bound <= (length + 1) * bound) by (nonlinear_arith)
                requires
                    taken <= length,
                    bound > 0,
            ;
        }
        match take_stride(size, passed, stride) {
            Some(next) => {
                passed = next;
            },
            None => {
                return None;
            },
        }
        if left == 0 {
            return Some(charset.to_owned());
        }
        left -= 1;
    }
}

} // verus!
