//! The texts of the status line and of the fill colour, and the seconds that
//! the status line shows.

use vstd::prelude::*;
use vstd::string::*;

verus! {

/// Milliseconds in a second.
pub const MILLIS_PER_SECOND: u64 = 1000;

/// The character that stands for the digit `d` (capitals above 9).
pub open spec fn digit_char(d: int) -> char
    recommends
        0 <= d < 16,
{
    "0123456789ABCDEF"@[d]
}

/// `n` written in the given radix, most significant digit first, without
/// leading zeros; zero is a single `0`.
pub open spec fn numeral(n: nat, radix: nat) -> Seq<char>
    recommends
        2 <= radix <= 16,
    decreases n,
    via numeral_decreases
{
    if radix < 2 || n < radix {
        seq![digit_char(n as int)]
    } else {
        numeral(n / radix, radix).push(digit_char((n % radix) as int))
    }
}

#[via_fn]
proof fn numeral_decreases(n: nat, radix: nat) {
    if !(radix < 2 || n < radix) {
        lemma_quotient_smaller(n, radix);
    }
}

proof fn lemma_quotient_smaller(n: nat, radix: nat)
    requires
        2 <= radix <= n,
    ensures
        n / radix < n,
{
    assert(n / radix < n) by (nonlinear_arith)
        requires
            2 <= radix <= n,
    ;
}

/// The whole seconds in a span of whole milliseconds: a started second does not
/// count.
pub open spec fn whole_seconds(elapsed_ms: nat) -> nat {
    elapsed_ms / (MILLIS_PER_SECOND as nat)
}

/// What the status line says of the steps that are left.
pub open spec fn steps_text_spec(remaining: nat) -> Seq<char> {
    "Steps left "@ + numeral(remaining, 10)
}

/// What the status line says of the time that has passed.
pub open spec fn elapsed_text_spec(seconds: nat) -> Seq<char> {
    "Elapsed time: "@ + numeral(seconds, 10) + " seconds"@
}

/// The fill style for a colour number: a hash sign and the number in capital
/// hexadecimal digits.
pub open spec fn color_text_spec(color: nat) -> Seq<char> {
    "#"@ + numeral(color, 16)
}

/// The whole seconds in a time span that the host has rounded to whole
/// milliseconds; a started second does not count.
pub fn elapsed_seconds(elapsed_ms: u64) -> (seconds: u64)
    ensures
        seconds == whole_seconds(elapsed_ms as nat),
{
    elapsed_ms / MILLIS_PER_SECOND
}

fn numeral_string(n: u64, radix: u64) -> (text: String)
    requires
        2 <= radix <= 16,
    ensures
        text@ == numeral(n as nat, radix as nat),
    decreases n,
{
    let mut text = if n < radix {
        String::new()
    } else {
        proof {
            lemma_quotient_smaller(n as nat, radix as nat);
        }
        numeral_string(n / radix, radix)
    };
    let digit: usize = (n % radix) as usize;
    let digits = "0123456789ABCDEF";
    proof {
        reveal_strlit("0123456789ABCDEF");
        assert(digits@.subrange(digit as int, digit + 1) =~= seq![digit_char(digit as int)]);
        assert(text@ + seq![digit_char(digit as int)] =~= text@.push(digit_char(digit as int)));
        assert(Seq::<char>::empty().push(digit_char(digit as int)) =~= seq![
            digit_char(digit as int),
        ]);
    }
    text.append(digits.substring_ascii(digit, digit + 1));
    text
}

/// The text `Steps left <n>`, with `n` in decimal.
pub fn steps_text(remaining: u32) -> (text: String)
    ensures
        text@ == steps_text_spec(remaining as nat),
{
    let mut text = String::from_str("Steps left ");
    let number = numeral_string(remaining as u64, 10);
    text.append(number.as_str());
    text
}

/// The text `Elapsed time: <s> seconds`, with `s` in decimal.
pub fn elapsed_text(seconds: u64) -> (text: String)
    ensures
        text@ == elapsed_text_spec(seconds as nat),
{
    let mut text = String::from_str("Elapsed time: ");
    let number = numeral_string(seconds, 10);
    text.append(number.as_str());
    text.append(" seconds");
    text
}

/// The fill style for a colour number, such as `#1A2B3C`.
pub fn color_text(color: u64) -> (text: String)
    ensures
        text@ == color_text_spec(color as nat),
{
    let mut text = String::from_str("#");
    let number = numeral_string(color, 16);
    text.append(number.as_str());
    text
}

/// The displayed seconds never go back while the clock does not.
pub proof fn lemma_elapsed_seconds_monotonic(earlier_ms: nat, later_ms: nat)
    requires
        earlier_ms <= later_ms,
    ensures
        whole_seconds(earlier_ms) <= whole_seconds(later_ms),
{
}

} // verus!
