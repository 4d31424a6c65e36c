//! The texts that the handlers send: identifiers in decimal, inside fixed phrases.

use vstd::prelude::*;
use vstd::string::StringExecFns;

verus! {

/// The character of a decimal digit.
pub open spec fn digit(d: nat) -> char {
    if d == 0 {
        '0'
    } else if d == 1 {
        '1'
    } else if d == 2 {
        '2'
    } else if d == 3 {
        '3'
    } else if d == 4 {
        '4'
    } else if d == 5 {
        '5'
    } else if d == 6 {
        '6'
    } else if d == 7 {
        '7'
    } else if d == 8 {
        '8'
    } else {
        '9'
    }
}

/// A number in decimal, without sign or leading zeros.
pub open spec fn decimal(n: nat) -> Seq<char>
    decreases n,
{
    if n < 10 {
        seq![digit(n)]
    } else {
        decimal(n / 10).push(digit(n % 10))
    }
}

/// What a caller reads when the chat it asked for is absent.
pub open spec fn not_found_text(id: u64) -> Seq<char> {
    "chat id "@ + decimal(id as nat)
}

/// What a caller reads when the chat it asked to delete is gone.
pub open spec fn deleted_text(id: u64) -> Seq<char> {
    "chat id "@ + decimal(id as nat) + " has been deleted"@
}

fn digit_str(d: u64) -> (text: &'static str)
    requires
        d < 10,
    ensures
        text@ == seq![digit(d as nat)],
{
    proof {
        reveal_strlit("0");
        reveal_strlit("1");
        reveal_strlit("2");
        reveal_strlit("3");
        reveal_strlit("4");
        reveal_strlit("5");
        reveal_strlit("6");
        reveal_strlit("7");
        reveal_strlit("8");
        reveal_strlit("9");
    }
    let text = if d == 0 {
        "0"
    } else if d == 1 {
        "1"
    } else if d == 2 {
        "2"
    } else if d == 3 {
        "3"
    } else if d == 4 {
        "4"
    } else if d == 5 {
        "5"
    } else if d == 6 {
        "6"
    } else if d == 7 {
        "7"
    } else if d == 8 {
        "8"
    } else {
        "9"
    };
    assert(text@ =~= seq![digit(d as nat)]);
    text
}

/// Appends a number in decimal to a text.
pub fn push_decimal(out: &mut String, n: u64)
    ensures
        final(out)@ == old(out)@ + decimal(n as nat),
    decreases n,
{
    if n >= 10 {
        push_decimal(out, n / 10);
    }
    out.append(digit_str(n % 10));
    assert(out@ =~= old(out)@ + decimal(n as nat));
}

/// The text for an absent chat.
pub fn render_not_found(id: u64) -> (text: String)
    ensures
        text@ == not_found_text(id),
{
    let mut text = String::from_str("chat id ");
    push_decimal(&mut text, id);
    text
}

/// The text for a deleted chat.
pub fn render_deleted(id: u64) -> (text: String)
    ensures
        text@ == deleted_text(id),
{
    let mut text = String::from_str("chat id ");
    push_decimal(&mut text, id);
    text.append(" has been deleted");
    text
}

} // verus!
