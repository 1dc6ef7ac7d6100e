use vstd::prelude::*;

verus! {

pub open spec fn hex_char(d: int) -> char {
    if d == 0 {
        '0'
    } else if d == 1 {
        '1'
    } else if d == 2 {
        '2'
    } else if d == 3 {
        '3'
    } else if d == 4 {
        '4'
    } else if d == 5 {
        '5'
    } else if d == 6 {
        '6'
    } else if d == 7 {
        '7'
    } else if d == 8 {
        '8'
    } else if d == 9 {
        '9'
    } else if d == 10 {
        'a'
    } else if d == 11 {
        'b'
    } else if d == 12 {
        'c'
    } else if d == 13 {
        'd'
    } else if d == 14 {
        'e'
    } else {
        'f'
    }
}

/// The escape of one character inside a JSON string literal: quote and
/// backslash get a two-character escape, the named control characters
/// their short forms, any other control character a four-digit hexadecimal
/// escape, and everything else stands for itself.
pub open spec fn escape_char(c: char) -> Seq<char> {
    if c == '"' {
        seq!['\\', '"']
    } else if c == '\\' {
        seq!['\\', '\\']
    } else if c == '\u{8}' {
        seq!['\\', 'b']
    } else if c == '\u{c}' {
        seq!['\\', 'f']
    } else if c == '\n' {
        seq!['\\', 'n']
    } else if c == '\r' {
        seq!['\\', 'r']
    } else if c == '\t' {
        seq!['\\', 't']
    } else if (c as int) < 32 {
        seq!['\\', 'u', '0', '0', hex_char(c as int / 16), hex_char(c as int % 16)]
    } else {
        seq![c]
    }
}

/// A string's characters inside a JSON string literal.
pub open spec fn json_escaped(s: Seq<char>) -> Seq<char>
    decreases s.len(),
{
    if s.len() == 0 {
        Seq::<char>::empty()
    } else {
        escape_char(s[0]) + json_escaped(s.drop_first())
    }
}

fn hex_char_exec(d: u32) -> (c: char)
    requires
        d <= 15,
    ensures
        c == hex_char(d as int),
{
    match d {
        0 => '0',
        1 => '1',
        2 => '2',
        3 => '3',
        4 => '4',
        5 => '5',
        6 => '6',
        7 => '7',
        8 => '8',
        9 => '9',
        10 => 'a',
        11 => 'b',
        12 => 'c',
        13 => 'd',
        14 => 'e',
        _ => 'f',
    }
}

/// Appends the JSON escape of `s` to `out`.
fn append_escaped(out: &mut String, s: &str)
    ensures
        final(out)@ == old(out)@ + json_escaped(s@),
{
    let n = s.unicode_len();
    let mut i: usize = 0;
    proof {
        assert(s@.subrange(0, n as int) =~= s@);
        assert(out@ + json_escaped(s@.subrange(0, n as int)) =~= old(out)@ + json_escaped(s@));
    }
    while i < n
        invariant
            n == s@.len(),
            i <= n,
            out@ + json_escaped(s@.subrange(i as int, n as int)) == old(out)@ + json_escaped(s@),
        decreases n - i,
    {
        let ghost prev = out@;
        let ghost tail = s@.subrange(i as int, n as int);
        proof {
            assert(tail[0] == s@[i as int]);
            assert(tail.drop_first() =~= s@.subrange(i as int + 1, n as int));
        }
        let c = s.get_char(i);
        if c == '"' {
            out.append("\\\"");
            proof {
                reveal_strlit("\\\"");
                assert(out@ =~= prev + escape_char(c));
            }
        } else if c == '\\' {
            out.append("\\\\");
            proof {
                reveal_strlit("\\\\");
                assert(out@ =~= prev + escape_char(c));
            }
        } else if c == '\u{8}' {
            out.append("\\b");
            proof {
                reveal_strlit("\\b");
                assert(out@ =~= prev + escape_char(c));
            }
        } else if c == '\u{c}' {
            out.append("\\f");
            proof {
                reveal_strlit("\\f");
                assert(out@ =~= prev + escape_char(c));
            }
        } else if c == '\n' {
            out.append("\\n");
            proof {
                reveal_strlit("\\n");
                assert(out@ =~= prev + escape_char(c));
            }
        } else if c == '\r' {
            out.append("\\r");
            proof {
                reveal_strlit("\\r");
                assert(out@ =~= prev + escape_char(c));
            }
        } else if c == '\t' {
            out.append("\\t");
            proof {
                reveal_strlit("\\t");
                assert(out@ =~= prev + escape_char(c));
            }
        } else if (c as u32) < 32 {
            out.append("\\u00");
            let v: u32 = c as u32;
            crate::strutil::push_char(out, hex_char_exec(v / 16));
            crate::strutil::push_char(out, hex_char_exec(v % 16));
            proof {
                reveal_strlit("\\u00");
                assert(out@ =~= prev + escape_char(c));
            }
        } else {
            crate::strutil::push_char(out, c);
            proof {
                assert(out@ =~= prev + escape_char(c));
            }
        }
        proof {
            assert((prev + escape_char(c)) + json_escaped(tail.drop_first()) =~= prev + (
            escape_char(c) + json_escaped(tail.drop_first())));
        }
        i = i + 1;
    }
    proof {
        assert(json_escaped(s@.subrange(n as int, n as int)) =~= Seq::<char>::empty());
        assert(out@ + Seq::<char>::empty() =~= out@);
    }
}

/// One detail entry as a JSON object with its field and message.
pub open spec fn spec_detail_object(d: (Seq<char>, Seq<char>)) -> Seq<char> {
    "{\"field\":\""@ + json_escaped(d.0) + "\",\"message\":\""@ + json_escaped(d.1) + "\"}"@
}

/// A detail list as the comma-separated members of a JSON array.
pub open spec fn spec_details_array(ds: Seq<(Seq<char>, Seq<char>)>) -> Seq<char>
    decreases ds.len(),
{
    if ds.len() == 0 {
        Seq::<char>::empty()
    } else if ds.len() == 1 {
        spec_detail_object(ds[0])
    } else {
        spec_detail_object(ds[0]) + ","@ + spec_details_array(ds.drop_first())
    }
}

proof fn lemma_details_array_snoc(ds: Seq<(Seq<char>, Seq<char>)>, d: (Seq<char>, Seq<char>))
    requires
        ds.len() >= 1,
    ensures
        spec_details_array(ds.push(d)) == spec_details_array(ds) + ","@ + spec_detail_object(d),
    decreases ds.len(),
{
    if ds.len() == 1 {
        assert(ds.push(d).drop_first() =~= seq![d]);
        assert(spec_details_array(seq![d]) == spec_detail_object(d));
    } else {
        lemma_details_array_snoc(ds.drop_first(), d);
        assert(ds.push(d).drop_first() =~= ds.drop_first().push(d));
        assert(spec_details_array(ds) + ","@ + spec_detail_object(d) =~= spec_detail_object(ds[0])
            + ","@ + (spec_details_array(ds.drop_first()) + ","@ + spec_detail_object(d)));
    }
}

fn append_detail_object(out: &mut String, d: &crate::error::ErrorDetail)
    ensures
        final(out)@ == old(out)@ + spec_detail_object((d.field@, d.message@)),
{
    out.append("{\"field\":\"");
    append_escaped(out, d.field.as_str());
    out.append("\",\"message\":\"");
    append_escaped(out, d.message.as_str());
    out.append("\"}");
    proof {
        assert(out@ =~= old(out)@ + spec_detail_object((d.field@, d.message@)));
    }
}

/// The response document for an error value: a JSON object with the
/// numeric `code`, the `message` text, and `errors` — null when no details
/// were attached, else the array of per-field details.
pub open spec fn spec_document(
    code: u16,
    message: Seq<char>,
    details: Option<Seq<(Seq<char>, Seq<char>)>>,
) -> Seq<char> {
    "{\"code\":"@ + crate::numbers::dec_digits(code as int) + ",\"message\":\""@ + json_escaped(
        message,
    ) + "\",\"errors\":"@ + (match details {
        None => "null"@,
        Some(ds) => "["@ + spec_details_array(ds) + "]"@,
    }) + "}"@
}

/// Renders the response document for an error value.
pub fn render_document(value: &crate::error::ErrorValue) -> (r: String)
    ensures
        r@ == spec_document(
            value.code,
            value.message@,
            crate::error::details_view_opt(&value.details),
        ),
{
    let mut out: String = "{\"code\":".to_owned();
    let digits = crate::numbers::render_u16(value.code);
    out.append(digits.as_str());
    out.append(",\"message\":\"");
    append_escaped(&mut out, value.message.as_str());
    out.append("\",\"errors\":");
    match &value.details {
        None => {
            out.append("null");
        },
        Some(ds) => {
            out.append("[");
            let n = ds.len();
            let ghost dv = crate::error::detail_views(ds@);
            let ghost base = out@;
            if n > 0 {
                append_detail_object(&mut out, &ds[0]);
                proof {
                    assert(dv.subrange(0, 1) =~= seq![dv[0]]);
                    assert(spec_details_array(dv.subrange(0, 1)) == spec_detail_object(dv[0]));
                }
                let mut i: usize = 1;
                while i < n
                    invariant
                        1 <= i <= n,
                        n == ds@.len(),
                        dv == crate::error::detail_views(ds@),
                        out@ == base + spec_details_array(dv.subrange(0, i as int)),
                    decreases n - i,
                {
                    let ghost prefix = dv.subrange(0, i as int);
                    out.append(",");
                    append_detail_object(&mut out, &ds[i]);
                    proof {
                        lemma_details_array_snoc(prefix, dv[i as int]);
                        assert(dv.subrange(0, i as int + 1) =~= prefix.push(dv[i as int]));
                        assert((base + spec_details_array(prefix)) + ","@ + spec_detail_object(
                            dv[i as int],
                        ) =~= base + (spec_details_array(prefix) + ","@ + spec_detail_object(
                            dv[i as int],
                        )));
                    }
                    i = i + 1;
                }
                proof {
                    assert(dv.subrange(0, n as int) =~= dv);
                }
            } else {
                proof {
                    assert(spec_details_array(dv) == Seq::<char>::empty());
                }
            }
            out.append("]");
        },
    }
    out.append("}");
    proof {
        assert(out@ =~= spec_document(
            value.code,
            value.message@,
            crate::error::details_view_opt(&value.details),
        ));
    }
    out
}

} // verus!
