//! Verified emission of JSON strings and string arrays: the message
//! content bodies that the bot client sends are assembled from these.
//! The escaping follows the JSON specification: quote, backslash and the
//! control characters, the five common ones by their short escapes and
//! the rest as lowercase `\u00..` sequences.
use vstd::prelude::*;

verus! {

/// The lowercase hexadecimal digit for `v`, for `0 <= v < 16`.
pub open spec fn hex_digit(v: int) -> char {
    if v == 0 {
        '0'
    } else if v == 1 {
        '1'
    } else if v == 2 {
        '2'
    } else if v == 3 {
        '3'
    } else if v == 4 {
        '4'
    } else if v == 5 {
        '5'
    } else if v == 6 {
        '6'
    } else if v == 7 {
        '7'
    } else if v == 8 {
        '8'
    } else if v == 9 {
        '9'
    } else if v == 10 {
        'a'
    } else if v == 11 {
        'b'
    } else if v == 12 {
        'c'
    } else if v == 13 {
        'd'
    } else if v == 14 {
        'e'
    } else {
        'f'
    }
}

/// How one character appears inside a JSON string literal.
pub open spec fn json_escape_char(c: char) -> Seq<char> {
    if c == '"' {
        seq!['\\', '"']
    } else if c == '\\' {
        seq!['\\', '\\']
    } else if c == '\u{8}' {
        seq!['\\', 'b']
    } else if c == '\t' {
        seq!['\\', 't']
    } else if c == '\n' {
        seq!['\\', 'n']
    } else if c == '\u{c}' {
        seq!['\\', 'f']
    } else if c == '\r' {
        seq!['\\', 'r']
    } else if (c as u32) < 32 {
        seq!['\\', 'u', '0', '0', hex_digit(c as u32 as int / 16), hex_digit(c as u32 as int % 16)]
    } else {
        seq![c]
    }
}

/// The body of the JSON string literal for `s`.
pub open spec fn json_escape(s: Seq<char>) -> Seq<char>
    decreases s.len(),
{
    if s.len() == 0 {
        Seq::<char>::empty()
    } else {
        json_escape_char(s[0]) + json_escape(s.drop_first())
    }
}

/// The JSON string literal for `s`, quotes included.
pub open spec fn json_string(s: Seq<char>) -> Seq<char> {
    seq!['"'] + json_escape(s) + seq!['"']
}

pub proof fn lemma_json_escape_push(s: Seq<char>, c: char)
    ensures
        json_escape(s.push(c)) == json_escape(s) + json_escape_char(c),
    decreases s.len(),
{
    reveal_with_fuel(json_escape, 3);
    if s.len() == 0 {
        assert(s.push(c).drop_first() =~= Seq::<char>::empty());
        assert(json_escape(s.push(c)) =~= json_escape(s) + json_escape_char(c));
    } else {
        assert(s.push(c)[0] == s[0]);
        assert(s.push(c).drop_first() =~= s.drop_first().push(c));
        lemma_json_escape_push(s.drop_first(), c);
        assert(json_escape(s.push(c)) =~= json_escape(s) + json_escape_char(c));
    }
}

/// Append the escaped body of the JSON string literal for `s`.
pub fn append_json_escaped(out: &mut String, s: &str)
    ensures
        final(out)@ == old(out)@ + json_escape(s@),
{
    let n = s.unicode_len();
    let mut i: usize = 0;
    proof {
        assert(s@.subrange(0, 0) =~= Seq::<char>::empty());
    }
    while i < n
        invariant
            i <= n,
            n == s@.len(),
            out@ == old(out)@ + json_escape(s@.subrange(0, i as int)),
        decreases n - i,
    {
        let ghost pre = s@.subrange(0, i as int);
        proof {
            lemma_json_escape_push(pre, s@[i as int]);
            assert(s@.subrange(0, i as int + 1) =~= pre.push(s@[i as int]));
        }
        let c = s.get_char(i);
        if c == '"' {
            out.append("\\\"");
            proof {
                reveal_strlit("\\\"");
                assert("\\\""@ =~= json_escape_char(s@[i as int]));
            }
        } else if c == '\\' {
            out.append("\\\\");
            proof {
                reveal_strlit("\\\\");
                assert("\\\\"@ =~= json_escape_char(s@[i as int]));
            }
        } else if c == '\u{8}' {
            out.append("\\b");
            proof {
                reveal_strlit("\\b");
                assert("\\b"@ =~= json_escape_char(s@[i as int]));
            }
        } else if c == '\t' {
            out.append("\\t");
            proof {
                reveal_strlit("\\t");
                assert("\\t"@ =~= json_escape_char(s@[i as int]));
            }
        } else if c == '\n' {
            out.append("\\n");
            proof {
                reveal_strlit("\\n");
                assert("\\n"@ =~= json_escape_char(s@[i as int]));
            }
        } else if c == '\u{c}' {
            out.append("\\f");
            proof {
                reveal_strlit("\\f");
                assert("\\f"@ =~= json_escape_char(s@[i as int]));
            }
        } else if c == '\r' {
            out.append("\\r");
            proof {
                reveal_strlit("\\r");
                assert("\\r"@ =~= json_escape_char(s@[i as int]));
            }
        } else if (c as u32) < 32 {
            out.append("\\u00");
            let hx = "0123456789abcdef";
            let v: u32 = c as u32;
            let hi: usize = (v / 16) as usize;
            let lo: usize = (v % 16) as usize;
            proof {
                reveal_strlit("0123456789abcdef");
                assert(hx@.len() == 16);
                assert(hx@[hi as int] == hex_digit(v as int / 16));
                assert(hx@[lo as int] == hex_digit(v as int % 16));
            }
            let his = hx.substring_char(hi, hi + 1);
            out.append(his);
            let los = hx.substring_char(lo, lo + 1);
            out.append(los);
            proof {
                reveal_strlit("\\u00");
                assert(hx@.subrange(hi as int, hi as int + 1) =~= seq![hex_digit(v as int / 16)]);
                assert(hx@.subrange(lo as int, lo as int + 1) =~= seq![hex_digit(v as int % 16)]);
                assert("\\u00"@ + hx@.subrange(hi as int, hi as int + 1) + hx@.subrange(
                    lo as int,
                    lo as int + 1,
                ) =~= json_escape_char(s@[i as int]));
            }
        } else {
            let piece = s.substring_char(i, i + 1);
            out.append(piece);
            proof {
                assert(s@.subrange(i as int, i as int + 1) =~= json_escape_char(s@[i as int]));
            }
        }
        i += 1;
    }
    proof {
        assert(s@.subrange(0, n as int) =~= s@);
    }
}

/// Append the JSON string literal for `s`, quotes included.
pub fn append_json_string(out: &mut String, s: &str)
    ensures
        final(out)@ == old(out)@ + json_string(s@),
{
    out.append("\"");
    append_json_escaped(out, s);
    out.append("\"");
    proof {
        reveal_strlit("\"");
        assert(old(out)@ + "\""@ + json_escape(s@) + "\""@ =~= old(out)@ + json_string(s@));
    }
}

/// The elements joined by commas, without brackets.
pub open spec fn join_comma(items: Seq<Seq<char>>) -> Seq<char>
    decreases items.len(),
{
    if items.len() == 0 {
        Seq::<char>::empty()
    } else if items.len() == 1 {
        items[0]
    } else {
        join_comma(items.drop_last()) + seq![','] + items.last()
    }
}

pub proof fn lemma_join_comma_push(items: Seq<Seq<char>>, x: Seq<char>)
    ensures
        join_comma(items.push(x)) == if items.len() == 0 {
            x
        } else {
            join_comma(items) + seq![','] + x
        },
{
    assert(items.push(x).drop_last() =~~= items);
    assert(items.push(x).last() == x);
    if items.len() == 0 {
        assert(join_comma(items.push(x)) == items.push(x)[0]);
    }
}

/// The JSON array of string literals for `items`.
pub open spec fn string_array_json(items: Seq<Seq<char>>) -> Seq<char> {
    seq!['['] + join_comma(items.map_values(|s: Seq<char>| json_string(s))) + seq![']']
}

/// Append the JSON array of string literals for `items`.
pub fn append_string_array(out: &mut String, items: &Vec<String>)
    ensures
        final(out)@ == old(out)@ + string_array_json(items.deep_view()),
{
    let ghost base = out@;
    out.append("[");
    let n = items.len();
    let mut k: usize = 0;
    proof {
        reveal_strlit("[");
        assert(items.deep_view().subrange(0, 0).map_values(|s: Seq<char>| json_string(s))
            =~~= Seq::<Seq<char>>::empty());
    }
    while k < n
        invariant
            k <= n,
            n == items@.len(),
            items.deep_view().len() == n,
            out@ == base + seq!['['] + join_comma(
                items.deep_view().subrange(0, k as int).map_values(|s: Seq<char>| json_string(s)),
            ),
        decreases n - k,
    {
        if k > 0 {
            out.append(",");
            proof {
                reveal_strlit(",");
            }
        }
        append_json_string(out, items[k].as_str());
        proof {
            let m = items.deep_view().subrange(0, k as int).map_values(
                |s: Seq<char>| json_string(s),
            );
            lemma_join_comma_push(m, json_string(items@[k as int]@));
            assert(items.deep_view()[k as int] == items@[k as int]@);
            assert(items.deep_view().subrange(0, k as int + 1).map_values(
                |s: Seq<char>| json_string(s),
            ) =~~= m.push(json_string(items@[k as int]@)));
        }
        k += 1;
    }
    out.append("]");
    proof {
        reveal_strlit("]");
        assert(items.deep_view().subrange(0, n as int) =~~= items.deep_view());
        assert(out@ =~= base + string_array_json(items.deep_view()));
    }
}

} // verus!
