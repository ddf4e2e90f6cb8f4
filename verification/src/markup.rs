//! Text-level SVG edits: recoloring fill and stroke attributes.

use vstd::prelude::*;
use crate::text::{
    chars_of, empty_string, find_from, first_match_from, hex_byte, hex_char, lemma_first_match_from,
    lemma_first_match_is, lemma_first_match_shift, lemma_no_first_match, matches_at, push_char,
    push_hex_byte, push_range, push_str,
};

verus! {

/// The color written over an attribute value: `none` and `transparent` stay,
/// everything else becomes `color`.
pub open spec fn replacement_value(value: Seq<char>, color: Seq<char>) -> Seq<char> {
    if value == "none"@ || value == "transparent"@ {
        value
    } else {
        color
    }
}

/// The text that opens an attribute's quoted value: `attr="`.
pub open spec fn attr_opening(attr: Seq<char>) -> Seq<char> {
    attr.push('=').push('"')
}

/// The double-quote character as a one-character pattern.
pub open spec fn quote() -> Seq<char> {
    seq!['"']
}

/// The result of rewriting, from position `pos` on, every value that follows
/// an occurrence of `pat`: the value runs up to the next `"` and is replaced
/// by `replacement_value`. When no closing quote follows, scanning resumes
/// right after the occurrence.
pub open spec fn replace_attr_from(s: Seq<char>, pos: int, pat: Seq<char>, color: Seq<char>) -> Seq<
    char,
>
    decreases s.len() + 1 - pos,
{
    if !(0 <= pos <= s.len()) || pat.len() == 0 {
        Seq::empty()
    } else {
        match first_match_from(s, pat, pos) {
            None => s.subrange(pos, s.len() as int),
            Some(start) => {
                let vs = start + pat.len();
                if !(pos <= start && vs <= s.len()) {
                    Seq::empty()
                } else {
                    match first_match_from(s, quote(), vs) {
                        None => s.subrange(pos, vs) + replace_attr_from(s, vs, pat, color),
                        Some(end) => {
                            if !(vs <= end <= s.len()) {
                                Seq::empty()
                            } else {
                                s.subrange(pos, vs) + replacement_value(s.subrange(vs, end), color)
                                    + replace_attr_from(s, end, pat, color)
                            }
                        },
                    }
                }
            },
        }
    }
}

/// `v[from..to]` equals `lit`.
fn range_equals(v: &Vec<char>, from: usize, to: usize, lit: &Vec<char>) -> (r: bool)
    requires
        from <= to <= v.len(),
    ensures
        r == (v@.subrange(from as int, to as int) == lit@),
{
    if to - from != lit.len() {
        return false;
    }
    let mut k: usize = 0;
    while k < lit.len()
        invariant
            from <= to <= v.len(),
            to - from == lit.len(),
            k <= lit.len(),
            forall|m: int| 0 <= m < k ==> v@[from + m] == lit@[m],
        decreases lit.len() - k,
    {
        if v[from + k] != lit[k] {
            assert(v@.subrange(from as int, to as int)[k as int] != lit@[k as int]);
            return false;
        }
        k += 1;
    }
    assert(v@.subrange(from as int, to as int) =~= lit@);
    true
}

/// Replaces the value of every `attr="..."` occurrence with `new_color`,
/// keeping the values `none` and `transparent`.
pub fn replace_color_attr(svg: &str, attr: &str, new_color: &str) -> (r: String)
    ensures
        r@ == replace_attr_from(svg@, 0, attr_opening(attr@), new_color@),
{
    let s = chars_of(svg);
    let mut pat = chars_of(attr);
    pat.push('=');
    pat.push('"');
    let mut q: Vec<char> = Vec::new();
    q.push('"');
    assert(q@ == quote());
    let none_lit = chars_of("none");
    let transparent_lit = chars_of("transparent");
    let ghost p = attr_opening(attr@);
    let ghost c = new_color@;
    assert(pat@ == p);
    let mut result = empty_string();
    let mut pos: usize = 0;
    loop
        invariant
            s@ == svg@,
            pat@ == p,
            p == attr_opening(attr@),
            p.len() > 0,
            q@ == quote(),
            none_lit@ == "none"@,
            transparent_lit@ == "transparent"@,
            c == new_color@,
            pos <= s.len(),
            result@ + replace_attr_from(s@, pos as int, p, c) == replace_attr_from(
                s@,
                0,
                p,
                c,
            ),
        decreases s.len() + 1 - pos,
    {
        let found = find_from(&s, &pat, pos);
        proof {
            lemma_first_match_from(s@, p, pos as int);
        }
        match found {
            None => {
                assert(replace_attr_from(s@, pos as int, p, c) == s@.subrange(
                    pos as int,
                    s@.len() as int,
                ));
                push_range(&mut result, &s, pos, s.len());
                assert(result@ == replace_attr_from(s@, 0, p, c));
                return result;
            },
            Some(start) => {
                let vs: usize = start + pat.len();
                let close = find_from(&s, &q, vs);
                proof {
                    lemma_first_match_from(s@, quote(), vs as int);
                }
                match close {
                    None => {
                        push_range(&mut result, &s, pos, vs);
                        pos = vs;
                    },
                    Some(end) => {
                        push_range(&mut result, &s, pos, vs);
                        if range_equals(&s, vs, end, &none_lit) || range_equals(
                            &s,
                            vs,
                            end,
                            &transparent_lit,
                        ) {
                            push_range(&mut result, &s, vs, end);
                        } else {
                            push_str(&mut result, new_color);
                        }
                        pos = end;
                    },
                }
            },
        }
    }
}

/// The markup with every `fill` and then every `stroke` value recolored.
pub open spec fn recolored_svg(svg: Seq<char>, color: Seq<char>) -> Seq<char> {
    replace_attr_from(
        replace_attr_from(svg, 0, attr_opening("fill"@), color),
        0,
        attr_opening("stroke"@),
        color,
    )
}

/// A color as `#rrggbb` with lowercase hexadecimal digits.
pub open spec fn hex_color(r: u8, g: u8, b: u8) -> Seq<char> {
    seq!['#'] + hex_byte(r) + hex_byte(g) + hex_byte(b)
}

/// Formats a color as `#rrggbb`.
pub fn format_hex_color(r: u8, g: u8, b: u8) -> (s: String)
    ensures
        s@ == hex_color(r, g, b),
{
    let mut s = empty_string();
    push_char(&mut s, '#');
    push_hex_byte(&mut s, r);
    push_hex_byte(&mut s, g);
    push_hex_byte(&mut s, b);
    assert(s@ =~= hex_color(r, g, b));
    s
}

/// Replaces the fill and stroke colors of an SVG with `#rrggbb`, keeping
/// `none` and `transparent` values. A plain text rewrite for monochrome decals.
pub fn replace_svg_colors(svg_data: &str, r: u8, g: u8, b: u8) -> (out: String)
    ensures
        out@ == recolored_svg(svg_data@, hex_color(r, g, b)),
{
    let hex = format_hex_color(r, g, b);
    let filled = replace_color_attr(svg_data, "fill", hex.as_str());
    replace_color_attr(filled.as_str(), "stroke", hex.as_str())
}

/// The value of a lowercase hexadecimal digit, or -1 for any other
/// character.
pub open spec fn hex_digit_value(c: char) -> int {
    if '0' <= c && c <= '9' {
        c as int - '0' as int
    } else if 'a' <= c && c <= 'f' {
        c as int - 'a' as int + 10
    } else {
        -1
    }
}

proof fn lemma_hex_char_value(d: nat)
    requires
        d < 16,
    ensures
        hex_digit_value(hex_char(d)) == d,
{
}

/// The tint color is written as `#` and two lowercase hexadecimal digits
/// per channel that read back as that channel: red, green, then blue.
pub proof fn lemma_hex_color_reads_back(r: u8, g: u8, b: u8)
    ensures
        hex_color(r, g, b).len() == 7,
        hex_color(r, g, b)[0] == '#',
        16 * hex_digit_value(hex_color(r, g, b)[1]) + hex_digit_value(hex_color(r, g, b)[2]) == r,
        16 * hex_digit_value(hex_color(r, g, b)[3]) + hex_digit_value(hex_color(r, g, b)[4]) == g,
        16 * hex_digit_value(hex_color(r, g, b)[5]) + hex_digit_value(hex_color(r, g, b)[6]) == b,
        quote_free(hex_color(r, g, b)),
{
    lemma_hex_char_value(r as nat / 16);
    lemma_hex_char_value(r as nat % 16);
    lemma_hex_char_value(g as nat / 16);
    lemma_hex_char_value(g as nat % 16);
    lemma_hex_char_value(b as nat / 16);
    lemma_hex_char_value(b as nat % 16);
    let h = hex_color(r, g, b);
    assert(h[1] == hex_char(r as nat / 16));
    assert(h[2] == hex_char(r as nat % 16));
    assert(h[3] == hex_char(g as nat / 16));
    assert(h[4] == hex_char(g as nat % 16));
    assert(h[5] == hex_char(b as nat / 16));
    assert(h[6] == hex_char(b as nat % 16));
}

/// `none` and `transparent` survive recoloring; any other value becomes the
/// new color.
pub proof fn lemma_none_and_transparent_kept(value: Seq<char>, color: Seq<char>)
    ensures
        value == "none"@ ==> replacement_value(value, color) == value,
        value == "transparent"@ ==> replacement_value(value, color) == value,
        value != "none"@ && value != "transparent"@ ==> replacement_value(value, color) == color,
{
}

/// Whether the text holds no double quote.
pub open spec fn quote_free(s: Seq<char>) -> bool {
    forall|i: int| 0 <= i < s.len() ==> s[i] != '"'
}

/// A one-character window matches the quote exactly where the character is
/// a quote.
proof fn lemma_quote_at(s: Seq<char>, j: int)
    requires
        0 <= j < s.len(),
    ensures
        matches_at(s, j, quote()) <==> s[j] == '"',
{
    assert(s.subrange(j, j + 1) =~= seq![s[j]]);
    if s[j] == '"' {
        assert(s.subrange(j, j + 1) =~= quote());
    }
    if matches_at(s, j, quote()) {
        assert(s.subrange(j, j + 1)[0] == quote()[0]);
    }
}

/// Rewriting the tail of `a + b` is rewriting `b`.
proof fn lemma_replace_shift(a: Seq<char>, b: Seq<char>, i: int, pat: Seq<char>, color: Seq<char>)
    requires
        0 <= i <= b.len(),
        pat.len() > 0,
    ensures
        replace_attr_from(a + b, a.len() + i, pat, color) == replace_attr_from(b, i, pat, color),
    decreases b.len() + 1 - i,
{
    let t = a + b;
    let n = a.len();
    lemma_first_match_shift(a, b, pat, i);
    lemma_first_match_from(b, pat, i);
    match first_match_from(b, pat, i) {
        None => {
            assert(t.subrange(n + i, t.len() as int) =~= b.subrange(i, b.len() as int));
        },
        Some(start) => {
            let vs = start + pat.len();
            assert(t.subrange(n + i, n + vs) =~= b.subrange(i, vs));
            lemma_first_match_shift(a, b, quote(), vs);
            lemma_first_match_from(b, quote(), vs);
            match first_match_from(b, quote(), vs) {
                None => {
                    lemma_replace_shift(a, b, vs, pat, color);
                },
                Some(end) => {
                    assert(t.subrange(n + vs, n + end) =~= b.subrange(vs, end));
                    lemma_replace_shift(a, b, end, pat, color);
                },
            }
        },
    }
}

/// Text in which the attribute never occurs comes back unchanged.
pub proof fn lemma_unchanged_without_attr(svg: Seq<char>, attr: Seq<char>, color: Seq<char>)
    requires
        forall|j: int| !matches_at(svg, j, attr_opening(attr)),
    ensures
        replace_attr_from(svg, 0, attr_opening(attr), color) == svg,
{
    lemma_unchanged_without_match(svg, attr_opening(attr), color);
}

/// Text in which the pattern never occurs comes back unchanged.
proof fn lemma_unchanged_without_match(s: Seq<char>, pat: Seq<char>, color: Seq<char>)
    requires
        pat.len() > 0,
        forall|j: int| !matches_at(s, j, pat),
    ensures
        replace_attr_from(s, 0, pat, color) == s,
{
    lemma_no_first_match(s, pat, 0);
    assert(s.subrange(0, s.len() as int) =~= s);
}

/// The rewritten text from `pos` begins with the character at `pos`.
proof fn lemma_replace_starts(s: Seq<char>, pos: int, pat: Seq<char>, color: Seq<char>)
    requires
        0 <= pos < s.len(),
        pat.len() > 0,
    ensures
        replace_attr_from(s, pos, pat, color).len() > 0,
        replace_attr_from(s, pos, pat, color)[0] == s[pos],
{
    lemma_first_match_from(s, pat, pos);
    match first_match_from(s, pat, pos) {
        None => {},
        Some(start) => {
            let vs = start + pat.len();
            lemma_first_match_from(s, quote(), vs);
        },
    }
}

/// The rewritten text from any position is left as it is by a second
/// rewrite, when the new color holds no quote and the pattern ends with one.
proof fn lemma_replace_fixed(s: Seq<char>, pos: int, pat: Seq<char>, color: Seq<char>)
    requires
        0 <= pos <= s.len(),
        pat.len() > 0,
        pat.last() == '"',
        quote_free(color),
    ensures
        replace_attr_from(replace_attr_from(s, pos, pat, color), 0, pat, color) == replace_attr_from(
            s,
            pos,
            pat,
            color,
        ),
    decreases s.len() + 1 - pos,
{
    let r = replace_attr_from(s, pos, pat, color);
    let m = pat.len();
    lemma_first_match_from(s, pat, pos);
    match first_match_from(s, pat, pos) {
        None => {
            assert forall|j: int| !matches_at(r, j, pat) by {
                if matches_at(r, j, pat) {
                    assert(r.subrange(j, j + m) =~= s.subrange(pos + j, pos + j + m));
                    assert(matches_at(s, pos + j, pat));
                }
            }
            lemma_unchanged_without_match(r, pat, color);
        },
        Some(start) => {
            let vs = start + m;
            let a = s.subrange(pos, vs);
            let k = start - pos;
            assert(a.subrange(k, k + m) =~= s.subrange(start, vs));
            lemma_first_match_from(s, quote(), vs);
            match first_match_from(s, quote(), vs) {
                None => {
                    // No quote follows, so no later occurrence of the pattern either.
                    assert forall|j: int| vs <= j implies !matches_at(s, j, pat) by {
                        if matches_at(s, j, pat) {
                            assert(s.subrange(j, j + m)[m - 1] == '"');
                            lemma_quote_at(s, j + m - 1);
                        }
                    }
                    lemma_no_first_match(s, pat, vs);
                    let b = s.subrange(vs, s.len() as int);
                    assert(replace_attr_from(s, vs, pat, color) == b);
                    assert(r =~= a + b);
                    assert forall|j: int| 0 <= j < b.len() implies b[j] != '"' by {
                        lemma_quote_at(s, vs + j);
                    }
                    // The first occurrence in `r` is the one at `k`.
                    assert forall|j: int| 0 <= j < k implies !matches_at(r, j, pat) by {
                        if matches_at(r, j, pat) {
                            assert(r.subrange(j, j + m) =~= a.subrange(j, j + m));
                            assert(a.subrange(j, j + m) =~= s.subrange(pos + j, pos + j + m));
                            assert(matches_at(s, pos + j, pat));
                        }
                    }
                    assert(r.subrange(k, k + m) =~= a.subrange(k, k + m));
                    lemma_first_match_is(r, pat, 0, k);
                    assert forall|j: int| a.len() <= j implies !matches_at(r, j, quote()) by {
                        if matches_at(r, j, quote()) {
                            lemma_quote_at(r, j);
                            assert(r[j] == b[j - a.len()]);
                        }
                    }
                    lemma_no_first_match(r, quote(), a.len() as int);
                    lemma_replace_shift(a, b, 0, pat, color);
                    assert forall|j: int| !matches_at(b, j, pat) by {
                        if matches_at(b, j, pat) {
                            assert(b.subrange(j, j + m)[m - 1] == '"');
                        }
                    }
                    lemma_unchanged_without_match(b, pat, color);
                    assert(r.subrange(0, a.len() as int) =~= a);
                },
                Some(end) => {
                    let value = s.subrange(vs, end);
                    let val = replacement_value(value, color);
                    let b = replace_attr_from(s, end, pat, color);
                    assert(r == a + val + b);
                    lemma_replace_fixed(s, end, pat, color);
                    lemma_quote_at(s, end);
                    lemma_replace_starts(s, end, pat, color);
                    assert forall|j: int| 0 <= j < value.len() implies value[j] != '"' by {
                        lemma_quote_at(s, vs + j);
                    }
                    assert(quote_free(val));
                    assert(replacement_value(val, color) == val);
                    let av = a + val;
                    assert(r =~= av + b);
                    assert forall|j: int| 0 <= j < k implies !matches_at(r, j, pat) by {
                        if matches_at(r, j, pat) {
                            assert(r.subrange(j, j + m) =~= a.subrange(j, j + m));
                            assert(a.subrange(j, j + m) =~= s.subrange(pos + j, pos + j + m));
                            assert(matches_at(s, pos + j, pat));
                        }
                    }
                    assert(r.subrange(k, k + m) =~= a.subrange(k, k + m));
                    lemma_first_match_is(r, pat, 0, k);
                    let e = av.len() as int;
                    assert forall|j: int| a.len() <= j < e implies !matches_at(r, j, quote()) by {
                        lemma_quote_at(r, j);
                        assert(r[j] == val[j - a.len()]);
                    }
                    lemma_quote_at(r, e);
                    assert(r[e] == b[0]);
                    lemma_first_match_is(r, quote(), a.len() as int, e);
                    lemma_replace_shift(av, b, 0, pat, color);
                    assert(r.subrange(0, a.len() as int) =~= a);
                    assert(r.subrange(a.len() as int, e) =~= val);
                },
            }
        },
    }
}

/// The first value after the attribute is rewritten: text made of a prefix
/// in which the attribute does not open, the attribute, a quote-free value,
/// a closing quote and the rest comes back as the prefix, the attribute, the
/// value's replacement (the new color, unless the value is `none` or
/// `transparent`), and the rest rewritten from the closing quote on.
pub proof fn lemma_first_value_replaced(
    pre: Seq<char>,
    pat: Seq<char>,
    value: Seq<char>,
    post: Seq<char>,
    color: Seq<char>,
)
    requires
        pat.len() > 0,
        forall|j: int| 0 <= j < pre.len() ==> !matches_at(pre + pat, j, pat),
        quote_free(value),
    ensures
        replace_attr_from(pre + pat + value + quote() + post, 0, pat, color) == pre + pat
            + replacement_value(value, color) + replace_attr_from(quote() + post, 0, pat, color),
{
    let s = pre + pat + value + quote() + post;
    let m = pat.len() as int;
    let k = pre.len() as int;
    let vs = k + m;
    let e = vs + value.len();
    assert(s.subrange(k, vs) =~= pat);
    assert forall|j: int| 0 <= j < k implies !matches_at(s, j, pat) by {
        if matches_at(s, j, pat) {
            assert(s.subrange(j, j + m) =~= (pre + pat).subrange(j, j + m));
            assert(matches_at(pre + pat, j, pat));
        }
    }
    lemma_first_match_is(s, pat, 0, k);
    assert forall|j: int| vs <= j < e implies !matches_at(s, j, quote()) by {
        lemma_quote_at(s, j);
        assert(s[j] == value[j - vs]);
    }
    lemma_quote_at(s, e);
    lemma_first_match_is(s, quote(), vs, e);
    let head = pre + pat + value;
    assert(s =~= head + (quote() + post));
    lemma_replace_shift(head, quote() + post, 0, pat, color);
    assert(s.subrange(0, vs) =~= pre + pat);
    assert(s.subrange(vs, e) =~= value);
}

/// Where the fill pass leaves no `stroke` attribute, recoloring is exactly
/// the recoloring of every `fill` value.
pub proof fn lemma_recolor_rewrites_fill(svg: Seq<char>, color: Seq<char>)
    requires
        forall|j: int| !matches_at(replace_attr_from(svg, 0, attr_opening("fill"@), color), j, attr_opening("stroke"@)),
    ensures
        recolored_svg(svg, color) == replace_attr_from(svg, 0, attr_opening("fill"@), color),
{
    lemma_unchanged_without_attr(replace_attr_from(svg, 0, attr_opening("fill"@), color), "stroke"@, color);
}

/// A decal's fill takes the tint: in text that opens a `fill` attribute
/// after a prefix without one, and has no `stroke` attribute left after
/// the fill pass, recoloring writes the new color (or keeps `none` and
/// `transparent`) as that fill's value.
pub proof fn lemma_recolor_tints_first_fill(pre: Seq<char>, value: Seq<char>, post: Seq<char>, color: Seq<char>)
    requires
        forall|j: int| 0 <= j < pre.len() ==> !matches_at(pre + attr_opening("fill"@), j, attr_opening("fill"@)),
        quote_free(value),
        forall|j: int|
            !matches_at(
                replace_attr_from(pre + attr_opening("fill"@) + value + quote() + post, 0, attr_opening("fill"@), color),
                j,
                attr_opening("stroke"@),
            ),
    ensures
        recolored_svg(pre + attr_opening("fill"@) + value + quote() + post, color) == pre + attr_opening("fill"@)
            + replacement_value(value, color) + replace_attr_from(quote() + post, 0, attr_opening("fill"@), color),
{
    let svg = pre + attr_opening("fill"@) + value + quote() + post;
    lemma_recolor_rewrites_fill(svg, color);
    lemma_first_value_replaced(pre, attr_opening("fill"@), value, post, color);
}

/// Where the text has no `fill` attribute, recoloring is exactly the
/// recoloring of every `stroke` value.
pub proof fn lemma_recolor_rewrites_stroke(svg: Seq<char>, color: Seq<char>)
    requires
        forall|j: int| !matches_at(svg, j, attr_opening("fill"@)),
    ensures
        recolored_svg(svg, color) == replace_attr_from(svg, 0, attr_opening("stroke"@), color),
{
    lemma_unchanged_without_attr(svg, "fill"@, color);
}

/// Recoloring is idempotent: recoloring the recolored text again changes
/// nothing, when the new color holds no double quote.
pub proof fn lemma_recolor_idempotent(svg: Seq<char>, attr: Seq<char>, color: Seq<char>)
    requires
        quote_free(color),
    ensures
        replace_attr_from(replace_attr_from(svg, 0, attr_opening(attr), color), 0, attr_opening(attr), color)
            == replace_attr_from(svg, 0, attr_opening(attr), color),
{
    lemma_replace_fixed(svg, 0, attr_opening(attr), color);
}

} // verus!
