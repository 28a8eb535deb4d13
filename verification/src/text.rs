//! The pinned textual serialization of a [`Value`], used by the mock bridge
//! when it concatenates its synthetic response.
//!
//! The format is JSON text with every choice pinned: object entries in stored
//! order, strings escaped with `\"`, `\\`, `\n`, `\r`, `\t` and lowercase
//! `\u00XX` for the remaining control characters, integers in plain decimal.
//! Floating-point numbers have no pinned rendering here, so serialization is
//! offered exactly for float-free values.

use vstd::prelude::*;

use crate::value::{float_free, Number, Value};

verus! {

/// Relies on `String::push`: appends the given character to the end of the
/// string.
#[verifier::external_body]
pub(crate) fn push_char(s: &mut String, c: char)
    ensures
        final(s)@ == old(s)@.push(c),
{
    s.push(c);
}

/// The decimal digit character for `d`.
pub open spec fn dec_digit(d: int) -> char {
    if d == 0 {
        '0'
    } else if d == 1 {
        '1'
    } else if d == 2 {
        '2'
    } else if d == 3 {
        '3'
    } else if d == 4 {
        '4'
    } else if d == 5 {
        '5'
    } else if d == 6 {
        '6'
    } else if d == 7 {
        '7'
    } else if d == 8 {
        '8'
    } else {
        '9'
    }
}

/// The lowercase hexadecimal digit character for `d`.
pub open spec fn hex_digit(d: int) -> char {
    if d < 10 {
        dec_digit(d)
    } else if d == 10 {
        'a'
    } else if d == 11 {
        'b'
    } else if d == 12 {
        'c'
    } else if d == 13 {
        'd'
    } else if d == 14 {
        'e'
    } else {
        'f'
    }
}

/// The decimal representation of a natural number, most significant digit
/// first, without leading zeros (a single `0` for zero).
pub open spec fn dec_chars(n: nat) -> Seq<char>
    decreases n,
{
    if n < 10 {
        seq![dec_digit(n as int)]
    } else {
        dec_chars(n / 10).push(dec_digit((n % 10) as int))
    }
}

/// The decimal representation of an integer, with a leading minus sign when
/// negative.
pub open spec fn int_chars(i: int) -> Seq<char> {
    if i < 0 {
        seq!['-'] + dec_chars((-i) as nat)
    } else {
        dec_chars(i as nat)
    }
}

/// The escape of one character inside a JSON string literal.
pub open spec fn esc_char(c: char) -> Seq<char> {
    if c == '"' {
        "\\\""@
    } else if c == '\\' {
        "\\\\"@
    } else if c == '\n' {
        "\\n"@
    } else if c == '\r' {
        "\\r"@
    } else if c == '\t' {
        "\\t"@
    } else if (c as u32) < 32 {
        "\\u00"@ + seq![hex_digit((c as u32) as int / 16), hex_digit((c as u32) as int % 16)]
    } else {
        seq![c]
    }
}

/// The escaped body of a JSON string literal.
pub open spec fn esc_chars(s: Seq<char>) -> Seq<char>
    decreases s.len(),
{
    if s.len() == 0 {
        Seq::empty()
    } else {
        esc_chars(s.drop_last()) + esc_char(s.last())
    }
}

/// The JSON text of a float-free value. Meaningless on a value holding a
/// float, which the serializer refuses.
pub open spec fn json_chars(v: Value) -> Seq<char>
    decreases v,
{
    match v {
        Value::Null => "null"@,
        Value::Bool(b) => if b {
            "true"@
        } else {
            "false"@
        },
        Value::Num(Number::Int(i)) => int_chars(i as int),
        Value::Num(Number::Float(_)) => Seq::empty(),
        Value::Str(s) => "\""@ + esc_chars(s@) + "\""@,
        Value::Array(elems) => "["@ + arr_chars(elems@) + "]"@,
        Value::Object(entries) => "{"@ + obj_chars(entries@) + "}"@,
    }
}

/// The comma-separated JSON texts of a sequence of array elements.
pub open spec fn arr_chars(elems: Seq<Value>) -> Seq<char>
    decreases elems,
{
    if elems.len() == 0 {
        Seq::empty()
    } else if elems.len() == 1 {
        json_chars(elems[0])
    } else {
        arr_chars(elems.drop_last()) + ","@ + json_chars(elems.last())
    }
}

/// The JSON text of one object entry: quoted escaped key, colon, value.
pub open spec fn obj_entry_chars(e: (String, Value)) -> Seq<char>
    decreases e,
{
    "\""@ + esc_chars(e.0@) + "\":"@ + json_chars(e.1)
}

/// The comma-separated JSON texts of a sequence of object entries, in stored
/// order.
pub open spec fn obj_chars(entries: Seq<(String, Value)>) -> Seq<char>
    decreases entries,
{
    if entries.len() == 0 {
        Seq::empty()
    } else if entries.len() == 1 {
        obj_entry_chars(entries[0])
    } else {
        obj_chars(entries.drop_last()) + ","@ + obj_entry_chars(entries.last())
    }
}

/// The decimal digit character for a machine digit.
fn dec_digit_char(d: u64) -> (c: char)
    requires
        d < 10,
    ensures
        c == dec_digit(d as int),
{
    if d == 0 {
        '0'
    } else if d == 1 {
        '1'
    } else if d == 2 {
        '2'
    } else if d == 3 {
        '3'
    } else if d == 4 {
        '4'
    } else if d == 5 {
        '5'
    } else if d == 6 {
        '6'
    } else if d == 7 {
        '7'
    } else if d == 8 {
        '8'
    } else {
        '9'
    }
}

/// The lowercase hexadecimal digit character for a machine digit.
fn hex_digit_char(d: u32) -> (c: char)
    requires
        d < 16,
    ensures
        c == hex_digit(d as int),
{
    if d < 10 {
        dec_digit_char(d as u64)
    } else if d == 10 {
        'a'
    } else if d == 11 {
        'b'
    } else if d == 12 {
        'c'
    } else if d == 13 {
        'd'
    } else if d == 14 {
        'e'
    } else {
        'f'
    }
}

/// Appends the decimal representation of `n`.
fn push_u64_dec(out: &mut String, n: u64)
    ensures
        final(out)@ == old(out)@ + dec_chars(n as nat),
    decreases n,
{
    if n < 10 {
        push_char(out, dec_digit_char(n));
        proof {
            assert(final(out)@ =~= old(out)@ + dec_chars(n as nat));
        }
    } else {
        push_u64_dec(out, n / 10);
        push_char(out, dec_digit_char(n % 10));
        proof {
            assert(final(out)@ =~= old(out)@ + dec_chars(n as nat));
        }
    }
}

/// Appends the decimal representation of `i`, minus sign included.
fn push_i64_dec(out: &mut String, i: i64)
    ensures
        final(out)@ == old(out)@ + int_chars(i as int),
{
    if i < 0 {
        push_char(out, '-');
        let m: u64 = (-(i as i128)) as u64;
        push_u64_dec(out, m);
        proof {
            assert(m as nat == (-(i as int)) as nat);
            assert(final(out)@ =~= old(out)@ + int_chars(i as int));
        }
    } else {
        push_u64_dec(out, i as u64);
    }
}

/// Appends the escaped body of `s` as it stands inside a JSON string
/// literal.
fn push_escaped(out: &mut String, s: &str)
    ensures
        final(out)@ == old(out)@ + esc_chars(s@),
{
    let ghost orig: Seq<char> = out@;
    let len = s.unicode_len();
    let mut i: usize = 0;
    while i < len
        invariant
            i <= s@.len(),
            len as nat == s@.len(),
            out@ == orig + esc_chars(s@.take(i as int)),
        decreases len - i,
    {
        let c = s.get_char(i);
        if c == '"' {
            out.append("\\\"");
        } else if c == '\\' {
            out.append("\\\\");
        } else if c == '\n' {
            out.append("\\n");
        } else if c == '\r' {
            out.append("\\r");
        } else if c == '\t' {
            out.append("\\t");
        } else if (c as u32) < 32 {
            let cu = c as u32;
            out.append("\\u00");
            push_char(out, hex_digit_char(cu / 16));
            push_char(out, hex_digit_char(cu % 16));
        } else {
            push_char(out, c);
        }
        proof {
            assert(s@.take(i + 1).drop_last() =~= s@.take(i as int));
            assert(s@.take(i + 1).last() == s@[i as int]);
            assert(out@ =~= orig + esc_chars(s@.take(i + 1)));
        }
        i += 1;
    }
    proof {
        assert(s@.take(len as int) =~= s@);
    }
}

/// Whether a value holds no floating-point number anywhere.
pub fn is_float_free(v: &Value) -> (r: bool)
    ensures
        r == float_free(*v),
    decreases v,
{
    match v {
        Value::Null => true,
        Value::Bool(_) => true,
        Value::Num(Number::Int(_)) => true,
        Value::Num(Number::Float(_)) => false,
        Value::Str(_) => true,
        Value::Array(elems) => {
            let mut j: usize = 0;
            while j < elems.len()
                invariant
                    *v == Value::Array(*elems),
                    j <= elems@.len(),
                    forall|k: int| 0 <= k < j ==> float_free(#[trigger] elems@[k]),
                decreases elems@.len() - j,
            {
                proof {
                    assert(decreases_to!(*v => v->Array_0));
                    assert(decreases_to!(*elems => elems@[j as int]));
                }
                if !is_float_free(&elems[j]) {
                    return false;
                }
                j += 1;
            }
            true
        },
        Value::Object(entries) => {
            let mut j: usize = 0;
            while j < entries.len()
                invariant
                    *v == Value::Object(*entries),
                    j <= entries@.len(),
                    forall|k: int| 0 <= k < j ==> float_free(#[trigger] entries@[k].1),
                decreases entries@.len() - j,
            {
                proof {
                    assert(decreases_to!(*v => v->Object_0));
                    assert(decreases_to!(*entries => entries@[j as int]));
                    assert(decreases_to!(entries@[j as int] => entries@[j as int].1));
                }
                if !is_float_free(&entries[j].1) {
                    return false;
                }
                j += 1;
            }
            true
        },
    }
}

/// Appends the JSON text of a float-free value.
fn push_json(out: &mut String, v: &Value)
    requires
        float_free(*v),
    ensures
        final(out)@ == old(out)@ + json_chars(*v),
    decreases v,
{
    let ghost orig: Seq<char> = out@;
    match v {
        Value::Null => {
            out.append("null");
        },
        Value::Bool(b) => {
            if *b {
                out.append("true");
            } else {
                out.append("false");
            }
        },
        Value::Num(num) => {
            match num {
                Number::Int(i) => {
                    push_i64_dec(out, *i);
                },
                Number::Float(_) => {
                    proof {
                        assert(false);
                    }
                },
            }
        },
        Value::Str(s) => {
            out.append("\"");
            push_escaped(out, s.as_str());
            out.append("\"");
            proof {
                assert(out@ =~= orig + json_chars(*v));
            }
        },
        Value::Array(elems) => {
            out.append("[");
            let mut j: usize = 0;
            while j < elems.len()
                invariant
                    *v == Value::Array(*elems),
                    float_free(*v),
                    j <= elems@.len(),
                    out@ == orig + "["@ + arr_chars(elems@.take(j as int)),
                decreases elems@.len() - j,
            {
                proof {
                    assert(decreases_to!(*v => v->Array_0));
                    assert(decreases_to!(*elems => elems@[j as int]));
                    assert(float_free(elems@[j as int]));
                }
                if j > 0 {
                    out.append(",");
                }
                push_json(out, &elems[j]);
                proof {
                    assert(elems@.take(j + 1).drop_last() =~= elems@.take(j as int));
                    assert(elems@.take(j + 1).last() == elems@[j as int]);
                    assert(out@ =~= orig + "["@ + arr_chars(elems@.take(j + 1)));
                }
                j += 1;
            }
            out.append("]");
            proof {
                assert(elems@.take(elems@.len() as int) =~= elems@);
                assert(out@ =~= orig + json_chars(*v));
            }
        },
        Value::Object(entries) => {
            out.append("{");
            let mut j: usize = 0;
            while j < entries.len()
                invariant
                    *v == Value::Object(*entries),
                    float_free(*v),
                    j <= entries@.len(),
                    out@ == orig + "{"@ + obj_chars(entries@.take(j as int)),
                decreases entries@.len() - j,
            {
                proof {
                    assert(decreases_to!(*v => v->Object_0));
                    assert(decreases_to!(*entries => entries@[j as int]));
                    assert(decreases_to!(entries@[j as int] => entries@[j as int].1));
                    assert(float_free(entries@[j as int].1));
                }
                if j > 0 {
                    out.append(",");
                }
                let entry = &entries[j];
                out.append("\"");
                push_escaped(out, entry.0.as_str());
                out.append("\":");
                push_json(out, &entry.1);
                proof {
                    assert(entries@.take(j + 1).drop_last() =~= entries@.take(j as int));
                    assert(entries@.take(j + 1).last() == entries@[j as int]);
                    assert(obj_entry_chars(entries@[j as int]) =~= "\""@ + esc_chars(
                        entries@[j as int].0@,
                    ) + "\":"@ + json_chars(entries@[j as int].1));
                    assert(out@ =~= orig + "{"@ + obj_chars(entries@.take(j + 1)));
                }
                j += 1;
            }
            out.append("}");
            proof {
                assert(entries@.take(entries@.len() as int) =~= entries@);
                assert(out@ =~= orig + json_chars(*v));
            }
        },
    }
}

/// Serializes a value to JSON text. Returns the text exactly when the value
/// is float-free; a value holding a float has no pinned rendering here and is
/// refused.
pub fn json_to_string(v: &Value) -> (r: Option<String>)
    ensures
        r is Some <==> float_free(*v),
        r matches Some(s) ==> s@ == json_chars(*v),
{
    if is_float_free(v) {
        let mut out = String::new();
        push_json(&mut out, v);
        proof {
            assert(out@ =~= json_chars(*v));
        }
        Some(out)
    } else {
        None
    }
}

} // verus!
