//! The line that reports the status of a device endpoint's reply.

use vstd::prelude::*;
use vstd::string::StringExecFns;

verus! {

/// The character of the decimal digit `d`.
pub open spec fn digit_char(d: nat) -> char {
    seq!['0', '1', '2', '3', '4', '5', '6', '7', '8', '9'][d as int]
}

/// `n` written in decimal, without leading zeros.
pub open spec fn decimal(n: nat) -> Seq<char>
    decreases n,
{
    if n < 10 {
        seq![digit_char(n)]
    } else {
        decimal(n / 10).push(digit_char(n % 10))
    }
}

/// The status code of a successful reply.
pub open spec fn ok_status() -> u16 {
    200
}

/// The report of a successful reply.
pub open spec fn success_text() -> Seq<char> {
    "success!"@
}

/// What precedes the code in the report of any other reply.
pub open spec fn failure_lead() -> Seq<char> {
    "Received response status: "@
}

/// The report of a reply with status `status`.
pub open spec fn status_text(status: u16) -> Seq<char> {
    if status == ok_status() {
        success_text()
    } else {
        failure_lead() + decimal(status as nat)
    }
}

fn digit_str(d: u16) -> (r: &'static str)
    requires
        d < 10,
    ensures
        r@ == seq![digit_char(d as nat)],
{
    proof {
        reveal_strlit("0");
        reveal_strlit("1");
        reveal_strlit("2");
        reveal_strlit("3");
        reveal_strlit("4");
        reveal_strlit("5");
        reveal_strlit("6");
        reveal_strlit("7");
        reveal_strlit("8");
        reveal_strlit("9");
    }
    match d {
        0 => "0",
        1 => "1",
        2 => "2",
        3 => "3",
        4 => "4",
        5 => "5",
        6 => "6",
        7 => "7",
        8 => "8",
        _ => "9",
    }
}

/// Appends `n` in decimal to `out`.
fn append_decimal(out: &mut String, n: u16)
    ensures
        final(out)@ == old(out)@ + decimal(n as nat),
    decreases n,
{
    if n >= 10 {
        append_decimal(out, n / 10);
    }
    out.append(digit_str(n % 10));
    proof {
        if n >= 10 {
            assert(decimal(n as nat) == decimal((n / 10) as nat).push(digit_char((n % 10) as nat)));
        }
    }
    assert(out@ =~= old(out)@ + decimal(n as nat));
}

/// The report of a reply with status `status`: `success!` for 200, and
/// otherwise the code after `Received response status: `.
pub fn status_report(status: u16) -> (r: String)
    ensures
        r@ == status_text(status),
{
    if status == 200 {
        "success!".to_owned()
    } else {
        let mut s = "Received response status: ".to_owned();
        append_decimal(&mut s, status);
        s
    }
}

} // verus!
