//! Text as sequences of characters: trimming, splitting, searching, ordering and
//! decimal notation, each stated as a short function on `Seq<char>`.

use vstd::prelude::*;

verus! {

/// `String::push` of the standard library: appends the given character to the end
/// of the string and changes nothing else.
pub assume_specification[ String::push ](s: &mut String, c: char)
    ensures
        final(s)@ == old(s)@.push(c),
;

/// The characters of `s`, in order.
pub fn chars_of(s: &str) -> (r: Vec<char>)
    ensures
        r@ == s@,
{
    let mut out: Vec<char> = Vec::new();
    for c in it: s.chars()
        invariant
            out@ == it.seq().take(it.index() as int),
            it.seq() == s@,
    {
        out.push(c);
    }
    out
}

/// The string that holds exactly `chars`.
pub fn string_of(chars: &Vec<char>) -> (r: String)
    ensures
        r@ == chars@,
{
    let mut out = String::new();
    let mut i: usize = 0;
    while i < chars.len()
        invariant
            i <= chars@.len(),
            out@ == chars@.take(i as int),
        decreases chars@.len() - i,
    {
        out.push(chars[i]);
        i = i + 1;
    }
    out
}

/// The characters `from..to` of `chars`.
pub fn slice_of(chars: &Vec<char>, from: usize, to: usize) -> (r: Vec<char>)
    requires
        from <= to <= chars@.len(),
    ensures
        r@ == chars@.subrange(from as int, to as int),
{
    let mut out: Vec<char> = Vec::new();
    let mut i: usize = from;
    while i < to
        invariant
            from <= i <= to <= chars@.len(),
            out@ == chars@.subrange(from as int, i as int),
        decreases to - i,
    {
        out.push(chars[i]);
        i = i + 1;
    }
    out
}

/// Whether two character sequences are equal.
pub fn same_chars(a: &Vec<char>, b: &Vec<char>) -> (r: bool)
    ensures
        r == (a@ == b@),
{
    if a.len() != b.len() {
        return false;
    }
    let mut i: usize = 0;
    while i < a.len()
        invariant
            a@.len() == b@.len(),
            i <= a@.len(),
            a@.take(i as int) == b@.take(i as int),
        decreases a@.len() - i,
    {
        if a[i] != b[i] {
            assert(a@[i as int] != b@[i as int]);
            return false;
        }
        assert(a@.take(i + 1) == a@.take(i as int).push(a@[i as int]));
        assert(b@.take(i + 1) == b@.take(i as int).push(b@[i as int]));
        i = i + 1;
    }
    assert(a@.take(a@.len() as int) == a@);
    assert(b@.take(b@.len() as int) == b@);
    true
}

/// Whether two strings hold the same text.
pub fn same_text(a: &str, b: &str) -> (r: bool)
    ensures
        r == (a@ == b@),
{
    a.to_owned() == b.to_owned()
}

/// The white space of Unicode: the characters with the `White_Space` property.
pub open spec fn is_white(c: char) -> bool {
    ||| '\u{9}' <= c <= '\u{d}'
    ||| c == '\u{20}'
    ||| c == '\u{85}'
    ||| c == '\u{a0}'
    ||| c == '\u{1680}'
    ||| '\u{2000}' <= c <= '\u{200a}'
    ||| c == '\u{2028}'
    ||| c == '\u{2029}'
    ||| c == '\u{202f}'
    ||| c == '\u{205f}'
    ||| c == '\u{3000}'
}

/// A line feed or a carriage return.
pub open spec fn is_line_break(c: char) -> bool {
    c == '\n' || c == '\r'
}

/// What a trim takes off the ends of a text.
#[derive(Clone, Copy, Debug, PartialEq, Eq)]
pub enum Margin {
    WhiteSpace,
    LineBreaks,
}

impl Margin {
    /// Whether `c` belongs to the margin.
    pub open spec fn holds(self, c: char) -> bool {
        match self {
            Margin::WhiteSpace => is_white(c),
            Margin::LineBreaks => is_line_break(c),
        }
    }

    /// Whether `c` belongs to the margin.
    pub fn contains(self, c: char) -> (r: bool)
        ensures
            r == self.holds(c),
    {
        match self {
            Margin::WhiteSpace => ('\u{9}' <= c && c <= '\u{d}') || c == '\u{20}' || c == '\u{85}'
                || c == '\u{a0}' || c == '\u{1680}' || ('\u{2000}' <= c && c <= '\u{200a}') || c
                == '\u{2028}' || c == '\u{2029}' || c == '\u{202f}' || c == '\u{205f}' || c
                == '\u{3000}',
            Margin::LineBreaks => c == '\n' || c == '\r',
        }
    }
}

/// `s` without its leading margin.
pub open spec fn trimmed_start(s: Seq<char>, m: Margin) -> Seq<char>
    decreases s.len(),
{
    if s.len() > 0 && m.holds(s[0]) {
        trimmed_start(s.skip(1), m)
    } else {
        s
    }
}

/// `s` without its trailing margin.
pub open spec fn trimmed_end(s: Seq<char>, m: Margin) -> Seq<char>
    decreases s.len(),
{
    if s.len() > 0 && m.holds(s.last()) {
        trimmed_end(s.drop_last(), m)
    } else {
        s
    }
}

/// `s` without the margin at either end.
pub open spec fn trimmed(s: Seq<char>, m: Margin) -> Seq<char> {
    trimmed_end(trimmed_start(s, m), m)
}

/// `chars` without its trailing margin.
pub fn trim_end(chars: &Vec<char>, m: Margin) -> (r: Vec<char>)
    ensures
        r@ == trimmed_end(chars@, m),
{
    let mut to: usize = chars.len();
    assert(chars@.take(to as int) == chars@);
    while to > 0 && m.contains(chars[to - 1])
        invariant
            to <= chars@.len(),
            trimmed_end(chars@.take(to as int), m) == trimmed_end(chars@, m),
        decreases to,
    {
        assert(chars@.take(to as int).drop_last() == chars@.take(to - 1));
        to = to - 1;
    }
    slice_of(chars, 0, to)
}

/// `chars` without the margin at either end.
pub fn trim(chars: &Vec<char>, m: Margin) -> (r: Vec<char>)
    ensures
        r@ == trimmed(chars@, m),
{
    let mut from: usize = 0;
    assert(chars@.skip(0) == chars@);
    while from < chars.len() && m.contains(chars[from])
        invariant
            from <= chars@.len(),
            trimmed_start(chars@.skip(from as int), m) == trimmed_start(chars@, m),
        decreases chars@.len() - from,
    {
        assert(chars@.skip(from as int).skip(1) == chars@.skip(from + 1));
        from = from + 1;
    }
    let rest = slice_of(chars, from, chars.len());
    assert(rest@ == chars@.skip(from as int));
    trim_end(&rest, m)
}

/// `s` without the white space at either end.
pub fn trim_text(s: &str) -> (r: String)
    ensures
        r@ == trimmed(s@, Margin::WhiteSpace),
{
    string_of(&trim(&chars_of(s), Margin::WhiteSpace))
}

/// How many characters precede the first `c` in `s`; all of them where there is none.
pub open spec fn before_first(s: Seq<char>, c: char) -> nat
    decreases s.len(),
{
    if s.len() == 0 || s[0] == c {
        0
    } else {
        1 + before_first(s.skip(1), c)
    }
}

/// `before_first` is the least index of `c`, or the length.
pub proof fn lemma_before_first(s: Seq<char>, c: char)
    ensures
        before_first(s, c) <= s.len(),
        before_first(s, c) < s.len() ==> s[before_first(s, c) as int] == c,
        before_first(s, c) < s.len() <==> s.contains(c),
        forall|i: int| 0 <= i < before_first(s, c) ==> s[i] != c,
    decreases s.len(),
{
    if s.len() > 0 && s[0] != c {
        let t = s.skip(1);
        lemma_before_first(t, c);
        assert forall|i: int| 0 <= i < before_first(s, c) implies s[i] != c by {
            if i > 0 {
                assert(s[i] == t[i - 1]);
            }
        }
        if s.contains(c) {
            let i = choose|i: int| 0 <= i < s.len() && s[i] == c;
            assert(t[i - 1] == c);
        }
    } else if s.len() > 0 {
        assert(s[0] == c);
    }
}

/// The one index with `c` there and no `c` before it is `before_first`.
pub proof fn lemma_before_first_is(s: Seq<char>, c: char, n: int)
    requires
        0 <= n <= s.len(),
        n < s.len() ==> s[n] == c,
        forall|i: int| 0 <= i < n ==> s[i] != c,
    ensures
        before_first(s, c) == n,
{
    lemma_before_first(s, c);
    if before_first(s, c) < n {
        assert(s[before_first(s, c) as int] != c);
    }
}

/// `s` cut at every `sep`, which belongs to no piece.
pub open spec fn pieces(s: Seq<char>, sep: char) -> Seq<Seq<char>>
    decreases s.len(),
{
    let n = before_first(s, sep) as int;
    if n < s.len() {
        seq![s.take(n)] + pieces(s.skip(n + 1), sep)
    } else {
        seq![s]
    }
}

/// `s` cut at its first `sep`s into at most `n` pieces: the last one keeps whatever
/// separators are left.
pub open spec fn pieces_at_most(s: Seq<char>, n: nat, sep: char) -> Seq<Seq<char>>
    decreases n,
{
    let k = before_first(s, sep) as int;
    if n == 0 {
        seq![]
    } else if n > 1 && k < s.len() {
        seq![s.take(k)] + pieces_at_most(s.skip(k + 1), (n - 1) as nat, sep)
    } else {
        seq![s]
    }
}

/// The texts that a vector of character vectors holds.
pub open spec fn texts(v: Seq<Vec<char>>) -> Seq<Seq<char>> {
    v.map_values(|c: Vec<char>| c@)
}

/// The texts that a vector of strings holds.
pub open spec fn strings(v: Seq<String>) -> Seq<Seq<char>> {
    v.map_values(|s: String| s@)
}

/// The index of the first `c` at or after `from`, or the length.
fn find_from(chars: &Vec<char>, from: usize, c: char) -> (r: usize)
    requires
        from <= chars@.len(),
    ensures
        from <= r <= chars@.len(),
        r - from == before_first(chars@.skip(from as int), c),
{
    let mut i: usize = from;
    while i < chars.len() && chars[i] != c
        invariant
            from <= i <= chars@.len(),
            forall|j: int| from <= j < i ==> chars@[j] != c,
        decreases chars@.len() - i,
    {
        i = i + 1;
    }
    proof {
        let t = chars@.skip(from as int);
        assert forall|j: int| 0 <= j < i - from implies t[j] != c by {
            assert(t[j] == chars@[from + j]);
        }
        lemma_before_first_is(t, c, i - from);
    }
    i
}

/// `chars` cut at every `sep`.
pub fn split(chars: &Vec<char>, sep: char) -> (r: Vec<Vec<char>>)
    ensures
        texts(r@) == pieces(chars@, sep),
{
    let mut out: Vec<Vec<char>> = Vec::new();
    let mut from: usize = 0;
    assert(chars@.skip(0) == chars@);
    assert(texts(out@) + pieces(chars@.skip(0), sep) == pieces(chars@, sep));
    loop
        invariant
            from <= chars@.len(),
            texts(out@) + pieces(chars@.skip(from as int), sep) == pieces(chars@, sep),
        decreases chars@.len() - from,
    {
        let to = find_from(chars, from, sep);
        let piece = slice_of(chars, from, to);
        let ghost rest = chars@.skip(from as int);
        let ghost before = texts(out@);
        assert(piece@ == rest.take(to - from));
        out.push(piece);
        assert(texts(out@) == before.push(piece@));
        if to == chars.len() {
            assert(piece@ == rest);
            assert(before + seq![rest] == before.push(rest));
            return out;
        }
        proof {
            assert(rest.skip(to - from + 1) == chars@.skip(to + 1));
            assert(before + (seq![piece@] + pieces(chars@.skip(to + 1), sep)) == before.push(piece@)
                + pieces(chars@.skip(to + 1), sep));
        }
        from = to + 1;
    }
}

/// `chars` cut at its first `sep`s into at most `n` pieces.
pub fn split_at_most(chars: &Vec<char>, n: usize, sep: char) -> (r: Vec<Vec<char>>)
    ensures
        texts(r@) == pieces_at_most(chars@, n as nat, sep),
{
    let mut out: Vec<Vec<char>> = Vec::new();
    let mut from: usize = 0;
    let mut left: usize = n;
    assert(chars@.skip(0) == chars@);
    assert(texts(out@) + pieces_at_most(chars@.skip(0), n as nat, sep) == pieces_at_most(
        chars@,
        n as nat,
        sep,
    ));
    while left > 0
        invariant
            from <= chars@.len(),
            left <= n,
            texts(out@) + pieces_at_most(chars@.skip(from as int), left as nat, sep)
                == pieces_at_most(chars@, n as nat, sep),
        decreases left,
    {
        let end = find_from(chars, from, sep);
        let to = if left == 1 {
            chars.len()
        } else {
            end
        };
        let piece = slice_of(chars, from, to);
        let ghost rest = chars@.skip(from as int);
        let ghost before = texts(out@);
        assert(piece@ == rest.take(to - from));
        out.push(piece);
        assert(texts(out@) == before.push(piece@));
        if to == chars.len() {
            assert(piece@ == rest);
            assert(before + seq![rest] == before.push(rest));
            return out;
        }
        proof {
            assert(rest.skip(to - from + 1) == chars@.skip(to + 1));
            assert(before + (seq![piece@] + pieces_at_most(
                chars@.skip(to + 1),
                (left - 1) as nat,
                sep,
            )) == before.push(piece@) + pieces_at_most(
                chars@.skip(to + 1),
                (left - 1) as nat,
                sep,
            ));
        }
        from = to + 1;
        left = left - 1;
    }
    assert(texts(out@) + seq![] == texts(out@));
    out
}

/// The least index at which `pat` stands in `s`.
pub open spec fn first_match(s: Seq<char>, pat: Seq<char>) -> Option<nat>
    decreases s.len(),
{
    if pat.is_prefix_of(s) {
        Some(0)
    } else if s.len() == 0 {
        None
    } else {
        match first_match(s.skip(1), pat) {
            Some(i) => Some(i + 1),
            None => None,
        }
    }
}

/// Whether `pat` stands in `chars` at `at`.
fn matches_at(chars: &Vec<char>, at: usize, pat: &Vec<char>) -> (r: bool)
    requires
        at <= chars@.len(),
    ensures
        r == pat@.is_prefix_of(chars@.skip(at as int)),
{
    if pat.len() > chars.len() - at {
        return false;
    }
    let piece = slice_of(chars, at, at + pat.len());
    assert(chars@.skip(at as int).subrange(0, pat@.len() as int) == piece@);
    same_chars(&piece, pat)
}

/// Whether `chars` begins with `pat`.
pub fn starts_with(chars: &Vec<char>, pat: &Vec<char>) -> (r: bool)
    ensures
        r == pat@.is_prefix_of(chars@),
{
    assert(chars@.skip(0) == chars@);
    matches_at(chars, 0, pat)
}

/// A match lies within the text.
pub proof fn lemma_first_match(s: Seq<char>, pat: Seq<char>)
    ensures
        first_match(s, pat) matches Some(i) ==> i + pat.len() <= s.len(),
    decreases s.len(),
{
    if !pat.is_prefix_of(s) && s.len() > 0 {
        lemma_first_match(s.skip(1), pat);
    }
}

/// The least index at which `pat` stands in `chars`.
pub fn find(chars: &Vec<char>, pat: &Vec<char>) -> (r: Option<usize>)
    ensures
        match first_match(chars@, pat@) {
            Some(i) => r == Some(i as usize) && i + pat@.len() <= chars@.len(),
            None => r is None,
        },
{
    proof {
        lemma_first_match(chars@, pat@);
        assert(chars@.skip(0) == chars@);
    }
    let mut at: usize = 0;
    loop
        invariant
            at <= chars@.len(),
            match first_match(chars@.skip(at as int), pat@) {
                Some(i) => first_match(chars@, pat@) == Some((at + i) as nat),
                None => first_match(chars@, pat@) is None,
            },
            first_match(chars@, pat@) matches Some(i) ==> i + pat@.len() <= chars@.len(),
        decreases chars@.len() - at,
    {
        if matches_at(chars, at, pat) {
            return Some(at);
        }
        if at == chars.len() {
            return None;
        }
        assert(chars@.skip(at as int).skip(1) == chars@.skip(at + 1));
        at = at + 1;
    }
}

/// The order of strings: the first character in which they differ decides, and a
/// proper prefix comes first. Characters are ordered by code point.
pub open spec fn text_before(a: Seq<char>, b: Seq<char>) -> bool
    decreases a.len(),
{
    if b.len() == 0 {
        false
    } else if a.len() == 0 {
        true
    } else if a[0] != b[0] {
        a[0] < b[0]
    } else {
        text_before(a.skip(1), b.skip(1))
    }
}

/// Whether `a` comes before `b`.
pub fn comes_before(a: &str, b: &str) -> (r: bool)
    ensures
        r == text_before(a@, b@),
{
    let x = chars_of(a);
    let y = chars_of(b);
    let mut i: usize = 0;
    assert(x@.skip(0) == x@ && y@.skip(0) == y@);
    loop
        invariant
            x@ == a@,
            y@ == b@,
            i <= x@.len(),
            i <= y@.len(),
            text_before(x@.skip(i as int), y@.skip(i as int)) == text_before(x@, y@),
        decreases x@.len() - i,
    {
        if i == y.len() {
            return false;
        }
        if i == x.len() {
            return true;
        }
        if x[i] != y[i] {
            return x[i] < y[i];
        }
        assert(x@.skip(i as int).skip(1) == x@.skip(i + 1));
        assert(y@.skip(i as int).skip(1) == y@.skip(i + 1));
        i = i + 1;
    }
}

/// No text comes before itself.
pub proof fn lemma_text_before_irreflexive(a: Seq<char>)
    ensures
        !text_before(a, a),
    decreases a.len(),
{
    if a.len() > 0 {
        lemma_text_before_irreflexive(a.skip(1));
    }
}

/// The order is transitive.
pub proof fn lemma_text_before_transitive(a: Seq<char>, b: Seq<char>, c: Seq<char>)
    requires
        text_before(a, b),
        text_before(b, c),
    ensures
        text_before(a, c),
    decreases a.len(),
{
    if a.len() > 0 && a[0] == b[0] && b[0] == c[0] {
        lemma_text_before_transitive(a.skip(1), b.skip(1), c.skip(1));
    }
}

/// Of two different texts one comes before the other.
pub proof fn lemma_text_before_total(a: Seq<char>, b: Seq<char>)
    requires
        a != b,
    ensures
        text_before(a, b) || text_before(b, a),
    decreases a.len(),
{
    if a.len() == 0 && b.len() == 0 {
        assert(a == b);
    } else if a.len() > 0 && b.len() > 0 && a[0] == b[0] {
        if a.skip(1) == b.skip(1) {
            assert(a == seq![a[0]] + a.skip(1));
            assert(b == seq![b[0]] + b.skip(1));
        }
        lemma_text_before_total(a.skip(1), b.skip(1));
    }
}

/// The digit that stands for `d`.
pub open spec fn digit(d: nat) -> char {
    (48 + d) as char
}

/// `n` in decimal notation, without leading zeros.
pub open spec fn decimal(n: nat) -> Seq<char>
    decreases n,
{
    if n < 10 {
        seq![digit(n)]
    } else {
        decimal(n / 10).push(digit(n % 10))
    }
}

/// The digit that stands for `d`.
fn digit_char(d: usize) -> (r: char)
    requires
        d < 10,
    ensures
        r == digit(d as nat),
{
    (48 + d as u8) as char
}

/// `n` in decimal notation.
pub fn decimal_text(n: usize) -> (r: String)
    ensures
        r@ == decimal(n as nat),
    decreases n,
{
    let mut out = if n < 10 {
        String::new()
    } else {
        decimal_text(n / 10)
    };
    out.push(digit_char(n % 10));
    assert(n < 10 ==> out@ == seq![digit(n as nat)]);
    out
}

} // verus!
