//! Decimal numerals and the marker text that becomes the new file content.

use vstd::prelude::*;

verus! {

/// The character of one decimal digit; `'9'` for anything above eight.
pub open spec fn digit_char(d: nat) -> char {
    if d == 0 {
        '0'
    } else if d == 1 {
        '1'
    } else if d == 2 {
        '2'
    } else if d == 3 {
        '3'
    } else if d == 4 {
        '4'
    } else if d == 5 {
        '5'
    } else if d == 6 {
        '6'
    } else if d == 7 {
        '7'
    } else if d == 8 {
        '8'
    } else {
        '9'
    }
}

/// The decimal numeral of `n`: most significant digit first, no leading zero,
/// and `"0"` for zero.
pub open spec fn decimal(n: nat) -> Seq<char>
    decreases n,
{
    if n < 10 {
        seq![digit_char(n)]
    } else {
        decimal(n / 10).push(digit_char(n % 10))
    }
}

/// The file content written by a run that starts `secs` seconds after the
/// Unix epoch.
pub open spec fn marker_text(secs: nat) -> Seq<char> {
    "This is an auto commit from Kommitter at "@ + decimal(secs)
        + " seconds since the Unix Epoch."@
}

/// A numeral has one digit exactly when the number is below ten.
pub proof fn lemma_decimal_len(n: nat)
    ensures
        decimal(n).len() >= 1,
        decimal(n).len() == 1 <==> n < 10,
    decreases n,
{
    if n >= 10 {
        lemma_decimal_len(n / 10);
    }
}

/// Different numbers have different numerals.
pub proof fn lemma_decimal_injective(a: nat, b: nat)
    requires
        decimal(a) == decimal(b),
    ensures
        a == b,
    decreases a,
{
    lemma_decimal_len(a);
    lemma_decimal_len(b);
    if a >= 10 {
        let high_a = decimal(a / 10);
        let high_b = decimal(b / 10);
        assert(high_a.push(digit_char(a % 10)).last() == digit_char(a % 10));
        assert(high_b.push(digit_char(b % 10)).last() == digit_char(b % 10));
        assert(high_a.push(digit_char(a % 10)).drop_last() =~= high_a);
        assert(high_b.push(digit_char(b % 10)).drop_last() =~= high_b);
        lemma_decimal_injective(a / 10, b / 10);
    } else {
        assert(decimal(a)[0] == digit_char(a));
        assert(decimal(b)[0] == digit_char(b));
    }
}

/// Runs that start at different seconds write different content.
pub proof fn lemma_marker_text_injective(a: nat, b: nat)
    requires
        marker_text(a) == marker_text(b),
    ensures
        a == b,
{
    let head = "This is an auto commit from Kommitter at "@;
    let tail = " seconds since the Unix Epoch."@;
    let start = head.len() as int;
    assert(marker_text(a).len() == head.len() + decimal(a).len() + tail.len());
    assert(marker_text(b).len() == head.len() + decimal(b).len() + tail.len());
    assert(marker_text(a).subrange(start, start + decimal(a).len()) =~= decimal(a));
    assert(marker_text(b).subrange(start, start + decimal(b).len()) =~= decimal(b));
    lemma_decimal_injective(a, b);
}

/// The one-character text of a decimal digit.
fn digit_text(d: u64) -> (text: &'static str)
    requires
        d < 10,
    ensures
        text@ == seq![digit_char(d as nat)],
{
    proof {
        reveal_strlit("0");
        reveal_strlit("1");
        reveal_strlit("2");
        reveal_strlit("3");
        reveal_strlit("4");
        reveal_strlit("5");
        reveal_strlit("6");
        reveal_strlit("7");
        reveal_strlit("8");
        reveal_strlit("9");
    }
    let text = if d == 0 {
        "0"
    } else if d == 1 {
        "1"
    } else if d == 2 {
        "2"
    } else if d == 3 {
        "3"
    } else if d == 4 {
        "4"
    } else if d == 5 {
        "5"
    } else if d == 6 {
        "6"
    } else if d == 7 {
        "7"
    } else if d == 8 {
        "8"
    } else {
        "9"
    };
    text
}

/// Appends the decimal numeral of `n` to `out`.
pub fn push_decimal(out: &mut String, n: u64)
    ensures
        final(out)@ == old(out)@ + decimal(n as nat),
    decreases n,
{
    if n >= 10 {
        push_decimal(out, n / 10);
    }
    let last = digit_text(n % 10);
    out.append(last);
}

/// The marker message for a run that starts `now_secs` seconds after the
/// Unix epoch. It is the whole content of the file after the commit.
pub fn blob_content(now_secs: u64) -> (content: String)
    ensures
        content@ == marker_text(now_secs as nat),
{
    let mut content = String::from_str("This is an auto commit from Kommitter at ");
    push_decimal(&mut content, now_secs);
    content.append(" seconds since the Unix Epoch.");
    content
}

} // verus!
