//! The textual shape of the records the bridge exchanges.
//!
//! An accepted submission is stored inbound as `ID:<id>:<payload>` and
//! acknowledged outbound as `Ack: <payload>`; the managed side's own
//! notifications go out as `<id>:<payload>`. The identifier is rendered in
//! decimal.

use vstd::prelude::*;
use vstd::string::StringExecFns;
use vstd::utf8::{valid_utf8, decode_utf8};

verus! {

/// The decimal digit character for `d`.
pub open spec fn digit_char(d: nat) -> char {
    if d == 0 {
        '0'
    } else if d == 1 {
        '1'
    } else if d == 2 {
        '2'
    } else if d == 3 {
        '3'
    } else if d == 4 {
        '4'
    } else if d == 5 {
        '5'
    } else if d == 6 {
        '6'
    } else if d == 7 {
        '7'
    } else if d == 8 {
        '8'
    } else {
        '9'
    }
}

/// The decimal rendering of `n`, most significant digit first, with no
/// leading zeros (`0` renders as `"0"`).
pub open spec fn decimal(n: nat) -> Seq<char>
    decreases n,
{
    if n < 10 {
        seq![digit_char(n)]
    } else {
        decimal(n / 10).push(digit_char(n % 10))
    }
}

/// The inbound record derived from an accepted submission.
pub open spec fn inbound_record(id: u32, payload: Seq<char>) -> Seq<char> {
    "ID:"@ + decimal(id as nat) + ":"@ + payload
}

/// The outbound acknowledgment derived from an accepted submission.
pub open spec fn ack_record(payload: Seq<char>) -> Seq<char> {
    "Ack: "@ + payload
}

/// The outbound record of a notification sent by the managed side.
pub open spec fn outbound_record(id: u32, payload: Seq<char>) -> Seq<char> {
    decimal(id as nat) + ":"@ + payload
}

/// The one-character string for the digit `d`.
fn digit_str(d: u32) -> (r: &'static str)
    requires
        d < 10,
    ensures
        r@ == seq![digit_char(d as nat)],
{
    proof {
        reveal_strlit("0");
        reveal_strlit("1");
        reveal_strlit("2");
        reveal_strlit("3");
        reveal_strlit("4");
        reveal_strlit("5");
        reveal_strlit("6");
        reveal_strlit("7");
        reveal_strlit("8");
        reveal_strlit("9");
    }
    if d == 0 {
        "0"
    } else if d == 1 {
        "1"
    } else if d == 2 {
        "2"
    } else if d == 3 {
        "3"
    } else if d == 4 {
        "4"
    } else if d == 5 {
        "5"
    } else if d == 6 {
        "6"
    } else if d == 7 {
        "7"
    } else if d == 8 {
        "8"
    } else {
        "9"
    }
}

/// Appends the decimal rendering of `n` to `s`.
pub fn push_decimal(s: &mut String, n: u32)
    ensures
        final(s)@ == old(s)@ + decimal(n as nat),
    decreases n,
{
    if n >= 10 {
        push_decimal(s, n / 10);
    }
    let d = digit_str(n % 10);
    s.append(d);
}

/// Decodes the caller's bytes as UTF-8 text.
///
/// Relies on `std::str::from_utf8`: it succeeds exactly on valid UTF-8,
/// and the returned string is the decoding of the bytes.
#[verifier::external_body]
fn utf8_to_str(bytes: &[u8]) -> (r: Option<&str>)
    ensures
        r is Some <==> valid_utf8(bytes@),
        r matches Some(s) ==> s@ == decode_utf8(bytes@),
{
    std::str::from_utf8(bytes).ok()
}

/// Decodes the caller's bytes as UTF-8 into an owned payload, or reports
/// that they are not valid text.
pub fn decode_payload(bytes: &[u8]) -> (r: Option<String>)
    ensures
        r is Some <==> valid_utf8(bytes@),
        r matches Some(s) ==> s@ == decode_utf8(bytes@),
{
    match utf8_to_str(bytes) {
        Some(s) => Some(s.to_owned()),
        None => None,
    }
}

/// Builds the inbound record `ID:<id>:<payload>`.
pub fn build_inbound_record(id: u32, payload: &str) -> (r: String)
    ensures
        r@ == inbound_record(id, payload@),
{
    let mut s = "ID:".to_owned();
    push_decimal(&mut s, id);
    s.append(":");
    s.append(payload);
    s
}

/// Builds the acknowledgment record `Ack: <payload>`.
pub fn build_ack_record(payload: &str) -> (r: String)
    ensures
        r@ == ack_record(payload@),
{
    let mut s = "Ack: ".to_owned();
    s.append(payload);
    s
}

/// Builds the outbound record `<id>:<payload>`.
pub fn build_outbound_record(id: u32, payload: &str) -> (r: String)
    ensures
        r@ == outbound_record(id, payload@),
{
    let mut s = String::new();
    push_decimal(&mut s, id);
    s.append(":");
    s.append(payload);
    s
}

} // verus!
