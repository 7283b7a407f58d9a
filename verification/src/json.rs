//! Self-describing structured text encoding of the vehicle identity
//! record, used for the low-frequency spawn payload.
//!
//! The record is written as one JSON object with a fixed field order.
//! Numeric fields are written in decimal; colour channels are written as
//! their raw 32-bit patterns.  String fields are escaped so that the
//! output is always well-formed JSON.

use vstd::prelude::*;
use vstd::string::{StringExecFns, StrSliceExecFns};
use crate::vehicle::{Rgba, VehicleData};

verus! {

/// Relies on String::push from std: appends the given character to the
/// end of the string.
pub assume_specification[ std::string::String::push ](s: &mut String, ch: char)
    ensures
        final(s)@ == old(s)@ + seq![ch],
;

/// The decimal digit character for `d`.
pub open spec fn spec_digit_char(d: nat) -> char {
    if d == 0 {
        '0'
    } else if d == 1 {
        '1'
    } else if d == 2 {
        '2'
    } else if d == 3 {
        '3'
    } else if d == 4 {
        '4'
    } else if d == 5 {
        '5'
    } else if d == 6 {
        '6'
    } else if d == 7 {
        '7'
    } else if d == 8 {
        '8'
    } else {
        '9'
    }
}

/// The decimal digit string of `n`, most significant digit first, with
/// no leading zeros (a single `0` for zero).
pub open spec fn spec_u32_dec(n: nat) -> Seq<char>
    decreases n,
{
    if n < 10 {
        seq![spec_digit_char(n)]
    } else {
        spec_u32_dec(n / 10) + seq![spec_digit_char(n % 10)]
    }
}

/// The lower-case hexadecimal digit character for `d`.
pub open spec fn spec_hex_char(d: nat) -> char {
    if d < 10 {
        spec_digit_char(d)
    } else if d == 10 {
        'a'
    } else if d == 11 {
        'b'
    } else if d == 12 {
        'c'
    } else if d == 13 {
        'd'
    } else if d == 14 {
        'e'
    } else {
        'f'
    }
}

/// The JSON escape of one character: quotes and backslashes are escaped,
/// common control characters use their short escapes, remaining control
/// characters use a `\u00XX` escape, and everything else stands as is.
pub open spec fn spec_esc_char(c: char) -> Seq<char> {
    if c == '"' {
        "\\\""@
    } else if c == '\\' {
        "\\\\"@
    } else if c == '\n' {
        "\\n"@
    } else if c == '\r' {
        "\\r"@
    } else if c == '\t' {
        "\\t"@
    } else if (c as u32) < 0x20 {
        "\\u00"@ + seq![spec_hex_char((c as u32) as nat / 16)] + seq![
            spec_hex_char((c as u32) as nat % 16),
        ]
    } else {
        seq![c]
    }
}

/// The JSON escape of a string body.
pub open spec fn spec_escape(s: Seq<char>) -> Seq<char>
    decreases s.len(),
{
    if s.len() == 0 {
        Seq::empty()
    } else {
        spec_escape(s.drop_last()) + spec_esc_char(s.last())
    }
}

/// A JSON string literal: quote, escaped body, quote.
pub open spec fn spec_json_string(s: Seq<char>) -> Seq<char> {
    seq!['"'] + spec_escape(s) + seq!['"']
}

/// A colour as a JSON array of the four raw channel words.
pub open spec fn spec_rgba_json(c: Rgba) -> Seq<char> {
    "["@ + spec_u32_dec(c.r as nat) + ","@ + spec_u32_dec(c.g as nat) + ","@ + spec_u32_dec(
        c.b as nat,
    ) + ","@ + spec_u32_dec(c.a as nat) + "]"@
}

/// An optional identifier: `null` when absent, decimal when present.
pub open spec fn spec_opt_u32_json(o: Option<u32>) -> Seq<char> {
    match o {
        Option::None => "null"@,
        Option::Some(n) => spec_u32_dec(n as nat),
    }
}

/// The structured text encoding of the full vehicle identity record.
pub open spec fn spec_vehicle_json(d: VehicleData) -> Seq<char> {
    "{\"parts_config\":"@ + spec_json_string(d.parts_config@) + ",\"in_game_id\":"@
        + spec_u32_dec(d.in_game_id as nat) + ",\"color\":"@ + spec_rgba_json(d.color)
        + ",\"palete_0\":"@ + spec_rgba_json(d.palete_0) + ",\"palete_1\":"@ + spec_rgba_json(
        d.palete_1,
    ) + ",\"name\":"@ + spec_json_string(d.name@) + ",\"server_id\":"@ + spec_opt_u32_json(
        d.server_id,
    ) + ",\"owner\":"@ + spec_opt_u32_json(d.owner) + "}"@
}

/// Appends the decimal digit character for `d`.
fn push_digit(out: &mut String, d: u32)
    requires
        d < 10,
    ensures
        final(out)@ == old(out)@ + seq![spec_digit_char(d as nat)],
{
    let ch: char = if d == 0 {
        '0'
    } else if d == 1 {
        '1'
    } else if d == 2 {
        '2'
    } else if d == 3 {
        '3'
    } else if d == 4 {
        '4'
    } else if d == 5 {
        '5'
    } else if d == 6 {
        '6'
    } else if d == 7 {
        '7'
    } else if d == 8 {
        '8'
    } else {
        '9'
    };
    out.push(ch);
}

/// Appends the decimal digit string of `n`.
fn append_u32_dec(out: &mut String, n: u32)
    ensures
        final(out)@ == old(out)@ + spec_u32_dec(n as nat),
    decreases n,
{
    if n < 10 {
        push_digit(out, n);
    } else {
        append_u32_dec(out, n / 10);
        push_digit(out, n % 10);
    }
}

/// Appends the lower-case hexadecimal digit character for `d`.
fn push_hex(out: &mut String, d: u32)
    requires
        d < 16,
    ensures
        final(out)@ == old(out)@ + seq![spec_hex_char(d as nat)],
{
    if d < 10 {
        push_digit(out, d);
    } else {
        let ch: char = if d == 10 {
            'a'
        } else if d == 11 {
            'b'
        } else if d == 12 {
            'c'
        } else if d == 13 {
            'd'
        } else if d == 14 {
            'e'
        } else {
            'f'
        };
        out.push(ch);
    }
}

/// Appends the JSON escape of one character.
fn push_escaped_char(out: &mut String, c: char)
    ensures
        final(out)@ == old(out)@ + spec_esc_char(c),
{
    if c == '"' {
        out.append("\\\"");
    } else if c == '\\' {
        out.append("\\\\");
    } else if c == '\n' {
        out.append("\\n");
    } else if c == '\r' {
        out.append("\\r");
    } else if c == '\t' {
        out.append("\\t");
    } else if (c as u32) < 0x20 {
        let ghost start = out@;
        out.append("\\u00");
        let v = c as u32;
        push_hex(out, v / 16);
        push_hex(out, v % 16);
        proof {
            assert(out@ =~= start + spec_esc_char(c));
        }
    } else {
        out.push(c);
    }
}

/// Appends the JSON string literal for `s`.
fn append_json_string(out: &mut String, s: &str)
    ensures
        final(out)@ == old(out)@ + spec_json_string(s@),
{
    let ghost start = out@;
    out.append("\"");
    let len = s.unicode_len();
    let mut i: usize = 0;
    while i < len
        invariant
            i <= len,
            len == s@.len(),
            out@ == start + "\""@ + spec_escape(s@.take(i as int)),
        decreases len - i,
    {
        let c = s.get_char(i);
        push_escaped_char(out, c);
        proof {
            let t = s@.take(i + 1 as int);
            assert(t.drop_last() =~= s@.take(i as int));
            assert(t.last() == s@[i as int]);
        }
        i = i + 1;
    }
    out.append("\"");
    proof {
        assert(s@.take(s@.len() as int) =~= s@);
        assert("\""@ =~= seq!['"']) by {
            reveal_strlit("\"");
        }
        assert(out@ =~= start + spec_json_string(s@));
    }
}

/// Appends the JSON array for a colour.
fn append_rgba_json(out: &mut String, c: &Rgba)
    ensures
        final(out)@ == old(out)@ + spec_rgba_json(*c),
{
    let ghost start = out@;
    out.append("[");
    append_u32_dec(out, c.r);
    out.append(",");
    append_u32_dec(out, c.g);
    out.append(",");
    append_u32_dec(out, c.b);
    out.append(",");
    append_u32_dec(out, c.a);
    out.append("]");
    proof {
        assert(out@ =~= start + spec_rgba_json(*c));
    }
}

/// Appends `null` or the decimal identifier.
fn append_opt_u32_json(out: &mut String, o: &Option<u32>)
    ensures
        final(out)@ == old(out)@ + spec_opt_u32_json(*o),
{
    match o {
        Option::None => out.append("null"),
        Option::Some(n) => append_u32_dec(out, *n),
    }
}

/// The structured text encoding of the full vehicle identity record.
pub fn vehicle_json(d: &VehicleData) -> (out: String)
    ensures
        out@ == spec_vehicle_json(*d),
{
    let mut out = String::new();
    out.append("{\"parts_config\":");
    append_json_string(&mut out, d.parts_config.as_str());
    out.append(",\"in_game_id\":");
    append_u32_dec(&mut out, d.in_game_id);
    out.append(",\"color\":");
    append_rgba_json(&mut out, &d.color);
    out.append(",\"palete_0\":");
    append_rgba_json(&mut out, &d.palete_0);
    out.append(",\"palete_1\":");
    append_rgba_json(&mut out, &d.palete_1);
    out.append(",\"name\":");
    append_json_string(&mut out, d.name.as_str());
    out.append(",\"server_id\":");
    append_opt_u32_json(&mut out, &d.server_id);
    out.append(",\"owner\":");
    append_opt_u32_json(&mut out, &d.owner);
    out.append("}");
    proof {
        assert(out@ =~= spec_vehicle_json(*d));
    }
    out
}

} // verus!
