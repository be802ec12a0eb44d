//! Text encoding for provider requests: decimal rendering of record
//! identifiers, JSON string escaping, and the JSON body of a create or
//! update call.

use vstd::prelude::*;
use crate::records::{DesiredRecord, DesiredRecordV, RecordType};

verus! {

/// Relies on std's `String::push`: appends exactly the one character.
#[verifier::external_body]
fn push_char(s: &mut String, c: char)
    ensures
        final(s)@ == old(s)@ + seq![c],
{
    s.push(c)
}

/// The decimal digit character for a value below ten.
pub open spec fn dec_digit_char(n: nat) -> char {
    if n == 0 { '0' }
    else if n == 1 { '1' }
    else if n == 2 { '2' }
    else if n == 3 { '3' }
    else if n == 4 { '4' }
    else if n == 5 { '5' }
    else if n == 6 { '6' }
    else if n == 7 { '7' }
    else if n == 8 { '8' }
    else { '9' }
}

/// The usual decimal rendering of `n`, most significant digit first, with no
/// leading zeros (a single `'0'` for zero).
pub open spec fn dec_seq(n: nat) -> Seq<char>
    decreases n,
{
    if n < 10 {
        seq![dec_digit_char(n)]
    } else {
        dec_seq(n / 10) + seq![dec_digit_char(n % 10)]
    }
}

fn digit_str(d: u64) -> (r: &'static str)
    requires
        d < 10,
    ensures
        r@ == seq![dec_digit_char(d as nat)],
{
    proof {
        reveal_strlit("0");
        reveal_strlit("1");
        reveal_strlit("2");
        reveal_strlit("3");
        reveal_strlit("4");
        reveal_strlit("5");
        reveal_strlit("6");
        reveal_strlit("7");
        reveal_strlit("8");
        reveal_strlit("9");
    }
    let r: &'static str = if d == 0 { "0" }
    else if d == 1 { "1" }
    else if d == 2 { "2" }
    else if d == 3 { "3" }
    else if d == 4 { "4" }
    else if d == 5 { "5" }
    else if d == 6 { "6" }
    else if d == 7 { "7" }
    else if d == 8 { "8" }
    else { "9" };
    proof {
        assert(r@ =~= seq![dec_digit_char(d as nat)]);
    }
    r
}

/// The decimal rendering of `n`, as the provider expects identifiers in
/// request paths.
pub fn u64_decimal(n: u64) -> (r: String)
    ensures
        r@ == dec_seq(n as nat),
    decreases n,
{
    if n < 10 {
        digit_str(n).to_owned()
    } else {
        let mut s = u64_decimal(n / 10);
        s.append(digit_str(n % 10));
        s
    }
}

/// How one character is written inside a JSON string: quote and backslash
/// get a backslash escape, other control characters the `\u00XX` form, and
/// everything else stands as itself.
pub open spec fn escape_char(c: char) -> Seq<char> {
    if c == '"' {
        seq!['\\', '"']
    } else if c == '\\' {
        seq!['\\', '\\']
    } else if (c as u32) < 32 {
        seq!['\\', 'u', '0', '0', hex_digit_char((c as u32 / 16) as nat), hex_digit_char(
            (c as u32 % 16) as nat,
        )]
    } else {
        seq![c]
    }
}

/// The hexadecimal digit character for a value below sixteen, lower case.
pub open spec fn hex_digit_char(n: nat) -> char {
    if n < 10 { dec_digit_char(n) }
    else if n == 10 { 'a' }
    else if n == 11 { 'b' }
    else if n == 12 { 'c' }
    else if n == 13 { 'd' }
    else if n == 14 { 'e' }
    else { 'f' }
}

/// The body of a JSON string holding the characters of `s`, escaped.
pub open spec fn json_escape(s: Seq<char>) -> Seq<char>
    decreases s.len(),
{
    if s.len() == 0 {
        Seq::empty()
    } else {
        json_escape(s.drop_last()) + escape_char(s.last())
    }
}

fn hex_digit(n: u32) -> (c: char)
    requires
        n < 16,
    ensures
        c == hex_digit_char(n as nat),
{
    if n == 0 { '0' }
    else if n == 1 { '1' }
    else if n == 2 { '2' }
    else if n == 3 { '3' }
    else if n == 4 { '4' }
    else if n == 5 { '5' }
    else if n == 6 { '6' }
    else if n == 7 { '7' }
    else if n == 8 { '8' }
    else if n == 9 { '9' }
    else if n == 10 { 'a' }
    else if n == 11 { 'b' }
    else if n == 12 { 'c' }
    else if n == 13 { 'd' }
    else if n == 14 { 'e' }
    else { 'f' }
}

/// Appends the escaped form of `s` to `out`.
fn append_escaped(out: &mut String, s: &str)
    ensures
        final(out)@ == old(out)@ + json_escape(s@),
{
    let n = s.unicode_len();
    let mut i: usize = 0;
    while i < n
        invariant
            n == s@.len(),
            i <= n,
            out@ == old(out)@ + json_escape(s@.take(i as int)),
        decreases n - i,
    {
        let c = s.get_char(i);
        if c == '"' {
            push_char(out, '\\');
            push_char(out, '"');
        } else if c == '\\' {
            push_char(out, '\\');
            push_char(out, '\\');
        } else if (c as u32) < 32 {
            push_char(out, '\\');
            push_char(out, 'u');
            push_char(out, '0');
            push_char(out, '0');
            push_char(out, hex_digit(c as u32 / 16));
            push_char(out, hex_digit(c as u32 % 16));
        } else {
            push_char(out, c);
        }
        proof {
            assert(s@.take(i + 1).drop_last() =~= s@.take(i as int));
            assert(s@.take(i + 1).last() == s@[i as int]);
            assert(out@ =~= old(out)@ + json_escape(s@.take(i + 1)));
        }
        i = i + 1;
    }
    proof {
        assert(s@.take(n as int) =~= s@);
    }
}

/// The provider's canonical label for a record type, as written in request
/// bodies.
pub open spec fn rtype_label_spec(t: RecordType) -> Seq<char> {
    match t {
        RecordType::A => "A"@,
        RecordType::AAAA => "AAAA"@,
        RecordType::CAA => "CAA"@,
        RecordType::CNAME => "CNAME"@,
        RecordType::MX => "MX"@,
        RecordType::NS => "NS"@,
        RecordType::SRV => "SRV"@,
        RecordType::TXT => "TXT"@,
    }
}

/// The provider's name for a record type.
pub fn rtype_label(t: RecordType) -> (r: &'static str)
    ensures
        r@ == rtype_label_spec(t),
{
    match t {
        RecordType::A => "A",
        RecordType::AAAA => "AAAA",
        RecordType::CAA => "CAA",
        RecordType::CNAME => "CNAME",
        RecordType::MX => "MX",
        RecordType::NS => "NS",
        RecordType::SRV => "SRV",
        RecordType::TXT => "TXT",
    }
}

/// The JSON body sent with a create or update call: an object with the
/// record's type, qualified name and data, in that order.
pub open spec fn json_payload_spec(d: DesiredRecordV) -> Seq<char> {
    "{\"type\":\""@ + rtype_label_spec(d.rtype) + "\",\"name\":\""@ + json_escape(d.qualified_name)
        + "\",\"data\":\""@ + json_escape(d.data) + "\"}"@
}

/// Builds the JSON body for `d`.
pub fn json_payload(d: &DesiredRecord) -> (r: String)
    ensures
        r@ == json_payload_spec(d@),
{
    let mut out = "{\"type\":\"".to_owned();
    out.append(rtype_label(d.rtype));
    out.append("\",\"name\":\"");
    append_escaped(&mut out, d.qualified_name.as_str());
    out.append("\",\"data\":\"");
    append_escaped(&mut out, d.data.as_str());
    out.append("\"}");
    out
}

} // verus!
