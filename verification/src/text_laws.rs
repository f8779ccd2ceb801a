//! What trimming, splitting, searching, ordering and the notations of numbers do, stated
//! by how their results relate to what goes in.

use vstd::prelude::*;

use crate::digest::hex;
use crate::text::{
    decimal, first_match, is_line_break, is_white, lemma_before_first_is, lemma_first_match,
    pieces, pieces_at_most, strings, text_before, texts, trimmed, trimmed_end, trimmed_start, Margin,
};

verus! {

/// Whether every character of the text is white space.
pub open spec fn blank(s: Seq<char>) -> bool {
    forall|i: int| 0 <= i < s.len() ==> is_white(#[trigger] s[i])
}

/// Whether every character of the text is a line break.
pub open spec fn only_breaks(s: Seq<char>) -> bool {
    forall|i: int| 0 <= i < s.len() ==> is_line_break(#[trigger] s[i])
}

/// Whether the text has no white space at its ends.
pub open spec fn bare_ends(s: Seq<char>) -> bool {
    s.len() > 0 ==> !is_white(s[0]) && !is_white(s.last())
}

/// A leading margin is taken off, and what it precedes is trimmed as if it were not there.
pub proof fn lemma_leading_margin(a: Seq<char>, s: Seq<char>, m: Margin)
    requires
        forall|i: int| 0 <= i < a.len() ==> m.holds(#[trigger] a[i]),
    ensures
        trimmed_start(a + s, m) == trimmed_start(s, m),
    decreases a.len(),
{
    let t = a + s;
    if a.len() == 0 {
        assert(t == s);
    } else {
        assert(t[0] == a[0]);
        assert(t.skip(1) == a.skip(1) + s);
        assert forall|i: int| 0 <= i < a.skip(1).len() implies m.holds(#[trigger] a.skip(1)[i]) by {
            assert(a.skip(1)[i] == a[i + 1]);
        }
        lemma_leading_margin(a.skip(1), s, m);
    }
}

/// A trailing margin is taken off, and what it follows is trimmed as if it were not there.
pub proof fn lemma_trailing_margin(s: Seq<char>, b: Seq<char>, m: Margin)
    requires
        forall|i: int| 0 <= i < b.len() ==> m.holds(#[trigger] b[i]),
    ensures
        trimmed_end(s + b, m) == trimmed_end(s, m),
    decreases b.len(),
{
    let t = s + b;
    if b.len() == 0 {
        assert(t == s);
    } else {
        assert(t.last() == b[b.len() - 1]);
        assert(t.drop_last() == s + b.drop_last());
        assert forall|i: int| 0 <= i < b.drop_last().len() implies m.holds(
            #[trigger] b.drop_last()[i],
        ) by {
            assert(b.drop_last()[i] == b[i]);
        }
        lemma_trailing_margin(s, b.drop_last(), m);
    }
}

/// A trim takes the margin off both ends and nothing else: whatever stands between two
/// margins, and has none at its own ends, comes out in full.
pub proof fn law_trim_keeps_what_is_between(
    a: Seq<char>,
    s: Seq<char>,
    b: Seq<char>,
    m: Margin,
)
    requires
        forall|i: int| 0 <= i < a.len() ==> m.holds(#[trigger] a[i]),
        forall|i: int| 0 <= i < b.len() ==> m.holds(#[trigger] b[i]),
        s.len() > 0 ==> !m.holds(s[0]) && !m.holds(s.last()),
    ensures
        trimmed(a + s + b, m) == s,
        trimmed_end(s + b, m) == s,
{
    assert(a + s + b == a + (s + b));
    lemma_leading_margin(a, s + b, m);
    lemma_trailing_margin(s, b, m);
    if s.len() > 0 {
        assert((s + b)[0] == s[0]);
    } else {
        let none = Seq::<char>::empty();
        assert(s + b == b + none);
        lemma_leading_margin(b, none, m);
        assert(trimmed_end(none, m) == none);
    }
}

/// A margin at either end makes no difference to a trim.
pub proof fn law_trim_ignores_margins(a: Seq<char>, s: Seq<char>, b: Seq<char>, m: Margin)
    requires
        forall|i: int| 0 <= i < a.len() ==> m.holds(#[trigger] a[i]),
        forall|i: int| 0 <= i < b.len() ==> m.holds(#[trigger] b[i]),
    ensures
        trimmed(a + s + b, m) == trimmed(s, m),
{
    assert(a + s + b == a + (s + b));
    lemma_leading_margin(a, s + b, m);
    lemma_start_then_end(s, b, m);
}

/// What stands behind a text does not change what a trim takes off its beginning, unless
/// all of it is taken.
proof fn lemma_start_then_end(s: Seq<char>, b: Seq<char>, m: Margin)
    requires
        forall|i: int| 0 <= i < b.len() ==> m.holds(#[trigger] b[i]),
    ensures
        trimmed(s + b, m) == trimmed(s, m),
    decreases s.len(),
{
    if s.len() == 0 {
        let none = Seq::<char>::empty();
        assert(s + b == b + none);
        lemma_leading_margin(b, none, m);
        assert(s == none);
    } else if m.holds(s[0]) {
        assert((s + b)[0] == s[0]);
        assert((s + b).skip(1) == s.skip(1) + b);
        lemma_start_then_end(s.skip(1), b, m);
    } else {
        assert((s + b)[0] == s[0]);
        lemma_trailing_margin(s, b, m);
    }
}

/// Every text is a margin, what the trim of it gives, and a margin; and what the trim
/// gives has no margin at its ends.
pub proof fn law_trim_takes_margins_only(s: Seq<char>, m: Margin) -> (ends: (Seq<char>, Seq<char>))
    ensures
        s == ends.0 + trimmed(s, m) + ends.1,
        forall|i: int| 0 <= i < ends.0.len() ==> m.holds(#[trigger] ends.0[i]),
        forall|i: int| 0 <= i < ends.1.len() ==> m.holds(#[trigger] ends.1[i]),
        trimmed(s, m).len() > 0 ==> !m.holds(trimmed(s, m)[0]) && !m.holds(trimmed(s, m).last()),
    decreases s.len(),
{
    let none = Seq::<char>::empty();
    if s.len() == 0 {
        assert(s == none + s + none);
        (none, none)
    } else if m.holds(s[0]) {
        let rest = law_trim_takes_margins_only(s.skip(1), m);
        assert(s == seq![s[0]] + s.skip(1));
        let left = seq![s[0]] + rest.0;
        assert(s == left + trimmed(s, m) + rest.1);
        (left, rest.1)
    } else if m.holds(s.last()) {
        assert(s.drop_last()[0] == s[0]);
        let rest = law_trim_takes_margins_only(s.drop_last(), m);
        let right = rest.1.push(s.last());
        assert(trimmed(s, m) == trimmed(s.drop_last(), m));
        assert(s == s.drop_last().push(s.last()));
        assert(s == rest.0 + trimmed(s, m) + right);
        (rest.0, right)
    } else {
        assert(s == none + s + none);
        (none, none)
    }
}

/// A text is cut at each separator: what stands before a separator and what stands behind
/// it are cut on their own.
pub proof fn law_split_at_a_separator(a: Seq<char>, b: Seq<char>, sep: char)
    ensures
        pieces(a + seq![sep] + b, sep) == pieces(a, sep) + pieces(b, sep),
    decreases a.len(),
{
    let t = a + seq![sep] + b;
    if a.contains(sep) {
        crate::text::lemma_before_first(a, sep);
        let n = crate::text::before_first(a, sep) as int;
        assert forall|i: int| 0 <= i < n implies t[i] != sep by {
            assert(t[i] == a[i]);
        }
        assert(t[n] == sep);
        lemma_before_first_is(t, sep, n);
        assert(t.take(n) == a.take(n));
        assert(t.skip(n + 1) == a.skip(n + 1) + seq![sep] + b);
        law_split_at_a_separator(a.skip(n + 1), b, sep);
        assert(seq![a.take(n)] + (pieces(a.skip(n + 1), sep) + pieces(b, sep)) == (seq![a.take(n)]
            + pieces(a.skip(n + 1), sep)) + pieces(b, sep));
    } else {
        let n = a.len() as int;
        assert forall|i: int| 0 <= i < n implies t[i] != sep by {
            assert(t[i] == a[i]);
        }
        assert(t[n] == sep);
        lemma_before_first_is(t, sep, n);
        assert(t.take(n) == a);
        assert(t.skip(n + 1) == b);
        law_text_without_separator_is_one_piece(a, sep);
    }
}

/// A text without a separator is one piece, whole.
pub proof fn law_text_without_separator_is_one_piece(s: Seq<char>, sep: char)
    requires
        !s.contains(sep),
    ensures
        pieces(s, sep) == seq![s],
{
    assert forall|i: int| 0 <= i < s.len() implies s[i] != sep by {
        assert(s.contains(s[i]));
    }
    lemma_before_first_is(s, sep, s.len() as int);
}

/// A bounded cut takes the pieces one by one from the front, as many as it may, and the
/// last one is whatever is left.
pub proof fn law_bounded_split(a: Seq<char>, b: Seq<char>, n: nat, sep: char)
    requires
        !a.contains(sep),
    ensures
        pieces_at_most(b, 0, sep).len() == 0,
        pieces_at_most(b, 1, sep) == seq![b],
        n > 0 ==> pieces_at_most(a, n, sep) == seq![a],
        n > 0 ==> pieces_at_most(a + seq![sep] + b, n + 1, sep) == seq![a] + pieces_at_most(
            b,
            n,
            sep,
        ),
{
    assert forall|i: int| 0 <= i < a.len() implies a[i] != sep by {
        assert(a.contains(a[i]));
    }
    lemma_before_first_is(a, sep, a.len() as int);
    let t = a + seq![sep] + b;
    let k = a.len() as int;
    assert forall|i: int| 0 <= i < k implies t[i] != sep by {
        assert(t[i] == a[i]);
    }
    assert(t[k] == sep);
    lemma_before_first_is(t, sep, k);
    assert(t.take(k) == a);
    assert(t.skip(k + 1) == b);
}

/// Whether `pat` stands in `s` at `at`.
pub open spec fn occurs_at(s: Seq<char>, pat: Seq<char>, at: int) -> bool {
    0 <= at && at + pat.len() <= s.len() && s.subrange(at, at + pat.len()) == pat
}

/// A search gives an index at which the pattern stands, and there is none before it; it
/// gives none only where the pattern stands nowhere.
pub proof fn law_search_gives_the_first(s: Seq<char>, pat: Seq<char>)
    ensures
        match first_match(s, pat) {
            Some(at) => occurs_at(s, pat, at as int) && forall|i: int|
                0 <= i < at ==> !#[trigger] occurs_at(s, pat, i),
            None => forall|i: int| !#[trigger] occurs_at(s, pat, i),
        },
    decreases s.len(),
{
    if pat.is_prefix_of(s) {
        assert(s.subrange(0, pat.len() as int) == pat);
    } else {
        assert(!occurs_at(s, pat, 0));
        if s.len() > 0 {
            let t = s.skip(1);
            law_search_gives_the_first(t, pat);
            lemma_first_match(t, pat);
            assert forall|i: int| i >= 1 implies #[trigger] occurs_at(s, pat, i) == occurs_at(
                t,
                pat,
                i - 1,
            ) by {
                if i + pat.len() <= s.len() {
                    assert(s.subrange(i, i + pat.len()) == t.subrange(i - 1, i - 1 + pat.len()));
                }
            }
            if let Some(at) = first_match(t, pat) {
                assert(occurs_at(s, pat, (at + 1) as int));
                assert forall|i: int| 0 <= i < at + 1 implies !#[trigger] occurs_at(s, pat, i) by {
                    if i > 0 {
                        assert(!occurs_at(t, pat, i - 1));
                    }
                }
            } else {
                assert forall|i: int| !#[trigger] occurs_at(s, pat, i) by {
                    if i >= 1 {
                        assert(!occurs_at(t, pat, i - 1));
                    }
                }
            }
        } else {
            assert forall|i: int| !#[trigger] occurs_at(s, pat, i) by {
                if occurs_at(s, pat, i) {
                    assert(i == 0);
                }
            }
        }
    }
}

/// Of two texts that go on differently behind a common beginning, the first difference
/// decides, and one that ends there comes first; no text comes before itself.
pub proof fn law_first_difference_decides(
    p: Seq<char>,
    x: char,
    a: Seq<char>,
    y: char,
    b: Seq<char>,
)
    ensures
        x != y ==> text_before(p + seq![x] + a, p + seq![y] + b) == (x < y),
        text_before(p, p + seq![y] + b),
        !text_before(p + seq![y] + b, p),
        !text_before(p, p),
    decreases p.len(),
{
    let s = p + seq![x] + a;
    let t = p + seq![y] + b;
    if p.len() == 0 {
        assert(s[0] == x);
        assert(t[0] == y);
    } else {
        let q = p.skip(1);
        law_first_difference_decides(q, x, a, y, b);
        assert(s[0] == p[0] && t[0] == p[0]);
        assert(s.skip(1) == q + seq![x] + a);
        assert(t.skip(1) == q + seq![y] + b);
    }
}

/// The number that a text of decimal digits stands for.
pub open spec fn value_of(digits: Seq<char>) -> int
    decreases digits.len(),
{
    if digits.len() == 0 {
        0
    } else {
        10 * value_of(digits.drop_last()) + (digits.last() as int - '0' as int)
    }
}

/// The decimal notation of a number holds digits alone, stands for that number, and begins
/// with a zero only where it is a single digit.
pub proof fn law_decimal_stands_for_the_number(n: nat)
    ensures
        value_of(decimal(n)) == n,
        decimal(n).len() > 0,
        forall|i: int| 0 <= i < decimal(n).len() ==> '0' <= #[trigger] decimal(n)[i] <= '9',
        decimal(n).len() > 1 ==> decimal(n)[0] != '0',
    decreases n,
{
    reveal_with_fuel(value_of, 2);
    if n >= 10 {
        law_decimal_stands_for_the_number(n / 10);
        let d = decimal(n / 10);
        assert(decimal(n).drop_last() == d);
        if d.len() == 1 {
            assert(value_of(d) == d[0] as int - '0' as int) by {
                assert(d.drop_last().len() == 0);
                reveal_with_fuel(value_of, 2);
            }
        }
    } else {
        assert(decimal(n).drop_last().len() == 0);
    }
}

/// The value of a lower-case hexadecimal digit.
pub open spec fn hex_value(c: char) -> int {
    if '0' <= c <= '9' {
        c as int - '0' as int
    } else {
        10 + (c as int - 'a' as int)
    }
}

/// Hexadecimal notation has two digits for each byte, the higher one first, all of them
/// lower-case digits; the digits give the byte back.
pub proof fn law_hex_gives_the_bytes_back(bytes: Seq<u8>)
    ensures
        hex(bytes).len() == 2 * bytes.len(),
        forall|i: int|
            0 <= i < hex(bytes).len() ==> ('0' <= #[trigger] hex(bytes)[i] <= '9' || 'a' <= hex(
                bytes,
            )[i] <= 'f'),
        forall|i: int|
            0 <= i < bytes.len() ==> 16 * hex_value(hex(bytes)[2 * i]) + hex_value(
                hex(bytes)[2 * i + 1],
            ) == #[trigger] bytes[i],
{
    assert forall|i: int| 0 <= i < hex(bytes).len() implies ('0' <= #[trigger] hex(bytes)[i] <= '9'
        || 'a' <= hex(bytes)[i] <= 'f') by {
        let b = bytes[i / 2] as int;
        assert(0 <= b / 16 < 16 && 0 <= b % 16 < 16);
    }
    assert forall|i: int| 0 <= i < bytes.len() implies 16 * hex_value(hex(bytes)[2 * i])
        + hex_value(hex(bytes)[2 * i + 1]) == #[trigger] bytes[i] by {
        let b = bytes[i] as int;
        assert(0 <= b / 16 < 16 && 0 <= b % 16 < 16);
        assert((2 * i) / 2 == i && (2 * i + 1) / 2 == i);
        assert(hex_value(hex(bytes)[2 * i]) == b / 16);
        assert(hex_value(hex(bytes)[2 * i + 1]) == b % 16);
    }
}

/// A list of strings, and one of character lists, holds each text in its place.
pub proof fn law_lists_hold_their_texts(v: Seq<String>, w: Seq<Vec<char>>)
    ensures
        strings(v).len() == v.len(),
        forall|i: int| 0 <= i < v.len() ==> strings(v)[i] == (#[trigger] v[i])@,
        texts(w).len() == w.len(),
        forall|i: int| 0 <= i < w.len() ==> texts(w)[i] == (#[trigger] w[i])@,
{
}

} // verus!
