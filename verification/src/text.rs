//! Text that the store produces: decimal numerals, default user names and
//! the messages that errors carry.

use vstd::prelude::*;
use vstd::string::StringExecFns;
use vstd::utf8::{decode_utf8, is_ascii_chars, valid_utf8};

verus! {

/// The character that stands for one decimal digit.
pub open spec fn digit_char(d: nat) -> char {
    if d == 0 {
        '0'
    } else if d == 1 {
        '1'
    } else if d == 2 {
        '2'
    } else if d == 3 {
        '3'
    } else if d == 4 {
        '4'
    } else if d == 5 {
        '5'
    } else if d == 6 {
        '6'
    } else if d == 7 {
        '7'
    } else if d == 8 {
        '8'
    } else {
        '9'
    }
}

/// The decimal numeral of `n`, most significant digit first, without
/// leading zeros.
pub open spec fn decimal(n: nat) -> Seq<char>
    decreases n,
{
    if n < 10 {
        seq![digit_char(n)]
    } else {
        decimal(n / 10).push(digit_char(n % 10))
    }
}

/// The name that a profile gets when it is first created.
pub open spec fn default_username(user_id: u64) -> Seq<char> {
    "User"@ + decimal(user_id as nat)
}

/// The message of the error for a traffic report that is not stored.
pub open spec fn report_not_found_text(id: u64) -> Seq<char> {
    "Report with ID "@ + decimal(id as nat) + " not found"@
}

/// The message of the error for a user profile that is not stored.
pub open spec fn user_not_found_text(user_id: u64) -> Seq<char> {
    "User with ID "@ + decimal(user_id as nat) + " not found"@
}

/// The message of the error for a stored traffic report whose bytes are
/// not an encoded report.
pub open spec fn report_unreadable_text(id: u64) -> Seq<char> {
    "Report with ID "@ + decimal(id as nat) + " is unreadable"@
}

/// The message of the error for a stored user profile whose bytes are not
/// an encoded profile.
pub open spec fn user_unreadable_text(user_id: u64) -> Seq<char> {
    "User with ID "@ + decimal(user_id as nat) + " is unreadable"@
}

/// The message of the error for a profile whose totals cannot grow further.
pub open spec fn reward_overflow_text(user_id: u64) -> Seq<char> {
    "User with ID "@ + decimal(user_id as nat) + " cannot accrue more"@
}

/// The message of the error for a report identifier that could not be
/// issued.
pub open spec fn id_failure_text() -> Seq<char> {
    "Failed to generate report ID"@
}

/// The message of the error for a counter that could not be opened.
pub open spec fn counter_failure_text() -> Seq<char> {
    "Cannot create a counter"@
}

/// The power of ten with the given exponent.
pub open spec fn pow10(e: nat) -> nat
    decreases e,
{
    if e == 0 {
        1
    } else {
        10 * pow10((e - 1) as nat)
    }
}

/// A number below `10^e`, with `e` at least one, has at most `e` digits.
pub proof fn lemma_decimal_len_below(n: nat, e: nat)
    requires
        1 <= e,
        n < pow10(e),
    ensures
        1 <= decimal(n).len() <= e,
    decreases n,
{
    reveal_with_fuel(pow10, 2);
    if n >= 10 {
        assert(e >= 2);
        lemma_decimal_len_below(n / 10, (e - 1) as nat);
    }
}

/// The numeral of a 64-bit number has between one and twenty digits.
pub proof fn lemma_decimal_len(n: u64)
    ensures
        1 <= decimal(n as nat).len() <= 20,
{
    reveal_with_fuel(pow10, 21);
    assert(pow10(20) == 100_000_000_000_000_000_000nat);
    lemma_decimal_len_below(n as nat, 20);
}

/// Every character of a numeral is an ASCII character.
pub proof fn lemma_decimal_is_ascii(n: nat)
    ensures
        is_ascii_chars(decimal(n)),
    decreases n,
{
    if n >= 10 {
        lemma_decimal_is_ascii(n / 10);
        let shorter = decimal(n / 10);
        assert forall|i: int| 0 <= i < decimal(n).len() implies '\0' <= #[trigger] decimal(
            n,
        )[i] <= '\u{7f}' by {
            if i < shorter.len() {
                assert(decimal(n)[i] == shorter[i]);
            }
        }
    }
}

/// The one-character text of a digit.
fn digit_text(d: u64) -> (s: &'static str)
    requires
        d < 10,
    ensures
        s@ =~= seq![digit_char(d as nat)],
{
    proof {
        reveal_strlit("0");
        reveal_strlit("1");
        reveal_strlit("2");
        reveal_strlit("3");
        reveal_strlit("4");
        reveal_strlit("5");
        reveal_strlit("6");
        reveal_strlit("7");
        reveal_strlit("8");
        reveal_strlit("9");
    }
    if d == 0 {
        "0"
    } else if d == 1 {
        "1"
    } else if d == 2 {
        "2"
    } else if d == 3 {
        "3"
    } else if d == 4 {
        "4"
    } else if d == 5 {
        "5"
    } else if d == 6 {
        "6"
    } else if d == 7 {
        "7"
    } else if d == 8 {
        "8"
    } else {
        "9"
    }
}

/// Appends the decimal numeral of `n` to `out`.
pub fn append_decimal(out: &mut String, n: u64)
    ensures
        final(out)@ == old(out)@ + decimal(n as nat),
    decreases n,
{
    if n >= 10 {
        append_decimal(out, n / 10);
    }
    out.append(digit_text(n % 10));
    assert(out@ =~= old(out)@ + decimal(n as nat));
}

/// The text `prefix`, the decimal numeral of `n`, and `suffix`.
pub fn numbered_text(prefix: &str, n: u64, suffix: &str) -> (text: String)
    ensures
        text@ == prefix@ + decimal(n as nat) + suffix@,
{
    let mut text = String::from_str(prefix);
    append_decimal(&mut text, n);
    text.append(suffix);
    text
}

/// The name that a profile gets when it is first created: `User` and the
/// identifier in decimal.
pub fn make_default_username(user_id: u64) -> (name: String)
    ensures
        name@ == default_username(user_id),
{
    let name = numbered_text("User", user_id, "");
    proof {
        reveal_strlit("");
        assert(name@ =~= default_username(user_id));
    }
    name
}

/// Calls `String::from_utf8`, which checks that the bytes are UTF-8 and
/// then gives the text they encode; the error of the outside call, which
/// stands for bytes that are not UTF-8, becomes `None`.
#[verifier::external_body]
pub(crate) fn text_from_utf8(bytes: Vec<u8>) -> (text: Option<String>)
    ensures
        text is Some <==> valid_utf8(bytes@),
        text matches Some(s) ==> s@ == decode_utf8(bytes@),
{
    String::from_utf8(bytes).ok()
}

} // verus!
