//! What is read from the decorations of a commit: the names that `git` wrote there, each
//! in full and in order.

use vstd::prelude::*;

use crate::git_log::{refs_of, refs_of_part};
use crate::text::{first_match, is_white, pieces, trimmed, Margin};
use crate::text_laws::{
    bare_ends, blank, law_search_gives_the_first, law_split_at_a_separator,
    law_text_without_separator_is_one_piece, law_trim_ignores_margins,
    law_trim_keeps_what_is_between, occurs_at,
};

verus! {

/// Mapping and joining two sequences gives the one result and then the other.
proof fn lemma_flat_map_add(
    a: Seq<Seq<char>>,
    b: Seq<Seq<char>>,
    f: spec_fn(Seq<char>) -> Seq<Seq<char>>,
)
    ensures
        (a + b).flat_map(f) == a.flat_map(f) + b.flat_map(f),
    decreases b.len(),
{
    if b.len() == 0 {
        assert(a + b == a);
        assert(b.flat_map(f) == Seq::<Seq<char>>::empty());
    } else {
        let c = b.drop_last();
        lemma_flat_map_add(a, c, f);
        assert(b == c.push(b.last()));
        assert(a + b == (a + c).push(b.last()));
        c.lemma_flat_map_push(f, b.last());
        (a + c).lemma_flat_map_push(f, b.last());
    }
}

/// The parts on both sides of a comma are read on their own, one after the other.
pub proof fn law_comma_separates_parts(a: Seq<char>, b: Seq<char>)
    ensures
        refs_of(a + seq![','] + b) == refs_of(a) + refs_of(b),
{
    law_split_at_a_separator(a, b, ',');
    lemma_flat_map_add(pieces(a, ','), pieces(b, ','), |part: Seq<char>| refs_of_part(part));
}

/// A text without a comma is one part.
proof fn lemma_one_part(s: Seq<char>)
    requires
        !s.contains(','),
    ensures
        refs_of(s) == refs_of_part(s),
{
    law_text_without_separator_is_one_piece(s, ',');
    seq![s].lemma_flat_map_singleton(|part: Seq<char>| refs_of_part(part));
}

/// White space around a part makes no difference.
pub proof fn law_margins_of_a_part(a: Seq<char>, part: Seq<char>, b: Seq<char>)
    requires
        blank(a),
        blank(b),
        !part.contains(','),
    ensures
        refs_of(a + part + b) == refs_of(part),
{
    let t = a + part + b;
    assert(!t.contains(',')) by {
        if t.contains(',') {
            let i = choose|i: int| 0 <= i < t.len() && t[i] == ',';
            if i < a.len() {
                assert(is_white(a[i]));
            } else if i < a.len() + part.len() {
                assert(part[i - a.len()] == ',');
            } else {
                assert(is_white(b[i - a.len() - part.len()]));
            }
        }
    }
    lemma_one_part(t);
    lemma_one_part(part);
    law_trim_ignores_margins(a, part, b, Margin::WhiteSpace);
}

/// A part of white space alone holds no name.
pub proof fn law_blank_part_holds_no_name(s: Seq<char>)
    requires
        blank(s),
    ensures
        refs_of(s).len() == 0,
{
    let none = Seq::<char>::empty();
    assert(s + none + none == s);
    assert(!none.contains(','));
    law_margins_of_a_part(s, none, none);
    lemma_one_part(none);
    assert(none + none + none == none);
    law_trim_keeps_what_is_between(none, none, none, Margin::WhiteSpace);
}

/// An arrow names what is before it and what is behind it: both, in this order, each in
/// full but for white space at its ends. The first arrow counts.
pub proof fn law_arrow_gives_both_names(h: Seq<char>, b: Seq<char>)
    requires
        h.len() > 0 && !is_white(h[0]) && !h.contains(','),
        b.len() > 0 && !is_white(b.last()) && !b.contains(','),
        forall|i: int| 0 <= i < h.len() ==> !#[trigger] occurs_at(h + " -> "@, " -> "@, i),
    ensures
        refs_of(h + " -> "@ + b) == seq![
            trimmed(h, Margin::WhiteSpace),
            trimmed(b, Margin::WhiteSpace),
        ],
{
    reveal_strlit(" -> ");
    let arrow = " -> "@;
    let t = h + arrow + b;
    let n = h.len() as int;
    assert(!t.contains(',')) by {
        if t.contains(',') {
            let i = choose|i: int| 0 <= i < t.len() && t[i] == ',';
            if i < n {
                assert(h[i] == ',');
            } else if i >= n + 4 {
                assert(b[i - n - 4] == ',');
            } else {
                assert(t[i] == arrow[i - n]);
            }
        }
    }
    lemma_one_part(t);
    let none = Seq::<char>::empty();
    assert(none + t + none == t);
    assert(t[0] == h[0]);
    assert(t.last() == b.last());
    law_trim_keeps_what_is_between(none, t, none, Margin::WhiteSpace);
    law_search_gives_the_first(t, arrow);
    assert(t.subrange(n, n + 4) == arrow);
    assert(occurs_at(t, arrow, n));
    let at = first_match(t, arrow)->0 as int;
    if at < n {
        assert((h + arrow).subrange(at, at + 4) == t.subrange(at, at + 4));
        assert(occurs_at(h + arrow, arrow, at));
    }
    assert(at == n);
    assert(t.take(n) == h);
    assert(t.skip(n + 4) == b);
}

/// A tag is named without the word before it, in full but for white space at its ends.
pub proof fn law_tag_is_named_without_its_mark(t: Seq<char>)
    requires
        t.len() > 0 && !is_white(t.last()) && !t.contains(','),
        forall|i: int| !#[trigger] occurs_at("tag: "@ + t, " -> "@, i),
    ensures
        refs_of("tag: "@ + t) == seq![trimmed(t, Margin::WhiteSpace)],
{
    reveal_strlit("tag: ");
    reveal_strlit(" -> ");
    let mark = "tag: "@;
    let s = mark + t;
    assert(!s.contains(',')) by {
        if s.contains(',') {
            let i = choose|i: int| 0 <= i < s.len() && s[i] == ',';
            if i >= 5 {
                assert(t[i - 5] == ',');
            } else {
                assert(s[i] == mark[i]);
            }
        }
    }
    lemma_one_part(s);
    let none = Seq::<char>::empty();
    assert(none + s + none == s);
    assert(s[0] == 't');
    assert(s.last() == t.last());
    law_trim_keeps_what_is_between(none, s, none, Margin::WhiteSpace);
    law_search_gives_the_first(s, " -> "@);
    if let Some(at) = first_match(s, " -> "@) {
        assert(occurs_at(s, " -> "@, at as int));
    }
    assert(s.subrange(0, 5) == mark);
    assert(s.skip(5) == t);
}

/// Any other name is given in full.
pub proof fn law_plain_name_is_given_in_full(r: Seq<char>)
    requires
        r.len() > 0 && bare_ends(r) && !r.contains(','),
        forall|i: int| !#[trigger] occurs_at(r, " -> "@, i),
        !occurs_at(r, "tag: "@, 0),
    ensures
        refs_of(r) == seq![r],
{
    reveal_strlit("tag: ");
    lemma_one_part(r);
    let none = Seq::<char>::empty();
    assert(none + r + none == r);
    law_trim_keeps_what_is_between(none, r, none, Margin::WhiteSpace);
    law_search_gives_the_first(r, " -> "@);
    if let Some(at) = first_match(r, " -> "@) {
        assert(occurs_at(r, " -> "@, at as int));
    }
    if "tag: "@.is_prefix_of(r) {
        assert(r.subrange(0, 5) == "tag: "@);
    }
}

/// What `git` writes about one place in the decoration of a commit.
pub enum Decoration {
    /// The head, and the branch that it stands for.
    Points(Seq<char>, Seq<char>),
    /// A tag.
    Tag(Seq<char>),
    /// Any other name.
    Name(Seq<char>),
}

/// Whether a name can be told from what stands around it: it is not empty, holds no comma
/// and has no white space at its ends.
pub open spec fn is_name(t: Seq<char>) -> bool {
    t.len() > 0 && !t.contains(',') && bare_ends(t)
}

impl Decoration {
    /// The text that `git` writes.
    pub open spec fn written(self) -> Seq<char> {
        match self {
            Decoration::Points(head, branch) => head + " -> "@ + branch,
            Decoration::Tag(tag) => "tag: "@ + tag,
            Decoration::Name(name) => name,
        }
    }

    /// The names in it.
    pub open spec fn names(self) -> Seq<Seq<char>> {
        match self {
            Decoration::Points(head, branch) => seq![head, branch],
            Decoration::Tag(tag) => seq![tag],
            Decoration::Name(name) => seq![name],
        }
    }

    /// Whether its names can be told from each other: no arrow stands where none is meant.
    pub open spec fn readable(self) -> bool {
        match self {
            Decoration::Points(head, branch) => {
                &&& is_name(head)
                &&& is_name(branch)
                &&& forall|i: int|
                    0 <= i < head.len() ==> !#[trigger] occurs_at(head + " -> "@, " -> "@, i)
            },
            Decoration::Tag(tag) => {
                &&& is_name(tag)
                &&& forall|i: int| !#[trigger] occurs_at("tag: "@ + tag, " -> "@, i)
            },
            Decoration::Name(name) => {
                &&& is_name(name)
                &&& forall|i: int| !#[trigger] occurs_at(name, " -> "@, i)
                &&& !occurs_at(name, "tag: "@, 0)
            },
        }
    }
}

/// The decorations as `git` joins them.
pub open spec fn written_decorations(all: Seq<Decoration>) -> Seq<char>
    decreases all.len(),
{
    if all.len() == 0 {
        seq![]
    } else if all.len() == 1 {
        all[0].written()
    } else {
        all[0].written() + ", "@ + written_decorations(all.skip(1))
    }
}

/// The names of all decorations, in order.
pub open spec fn all_names(all: Seq<Decoration>) -> Seq<Seq<char>>
    decreases all.len(),
{
    if all.len() == 0 {
        seq![]
    } else {
        all[0].names() + all_names(all.skip(1))
    }
}

/// One decoration is read back, also behind a space.
proof fn lemma_one_decoration(d: Decoration)
    requires
        d.readable(),
    ensures
        refs_of(d.written()) == d.names(),
{
    let none = Seq::<char>::empty();
    match d {
        Decoration::Points(h, b) => {
            law_arrow_gives_both_names(h, b);
            law_trim_keeps_what_is_between(none, h, none, Margin::WhiteSpace);
            law_trim_keeps_what_is_between(none, b, none, Margin::WhiteSpace);
            assert(none + h + none == h);
            assert(none + b + none == b);
        },
        Decoration::Tag(t) => {
            law_tag_is_named_without_its_mark(t);
            law_trim_keeps_what_is_between(none, t, none, Margin::WhiteSpace);
            assert(none + t + none == t);
        },
        Decoration::Name(r) => {
            law_plain_name_is_given_in_full(r);
        },
    }
}

/// A space before a decoration makes no difference to what is read, whatever follows.
proof fn lemma_leading_space(s: Seq<char>)
    ensures
        refs_of(seq![' '] + s) == refs_of(s),
{
    let space = seq![' '];
    let none = Seq::<char>::empty();
    crate::text::lemma_before_first(s, ',');
    if s.contains(',') {
        let n = crate::text::before_first(s, ',') as int;
        let a = s.take(n);
        let b = s.skip(n + 1);
        assert(s == a + seq![','] + b);
        assert(space + s == (space + a) + seq![','] + b);
        assert(!a.contains(',')) by {
            if a.contains(',') {
                let i = choose|i: int| 0 <= i < a.len() && a[i] == ',';
                assert(s[i] == ',');
            }
        }
        law_comma_separates_parts(a, b);
        law_comma_separates_parts(space + a, b);
        assert(space + a + none == space + a);
        law_margins_of_a_part(space, a, none);
    } else {
        assert(space + s + none == space + s);
        law_margins_of_a_part(space, s, none);
    }
}

/// What `git` writes as decorations is read back: exactly the names, in order and each in
/// full.
pub proof fn law_decorations_are_read_back(all: Seq<Decoration>)
    requires
        forall|i: int| 0 <= i < all.len() ==> (#[trigger] all[i]).readable(),
    ensures
        refs_of(written_decorations(all)) == all_names(all),
    decreases all.len(),
{
    reveal_strlit(", ");
    reveal_with_fuel(all_names, 2);
    if all.len() == 0 {
        law_blank_part_holds_no_name(written_decorations(all));
    } else {
        assert(all[0].readable());
        lemma_one_decoration(all[0]);
        if all.len() > 1 {
            let rest = all.skip(1);
            assert forall|i: int| 0 <= i < rest.len() implies (#[trigger] rest[i]).readable() by {
                assert(rest[i] == all[i + 1]);
            }
            law_decorations_are_read_back(rest);
            let tail = written_decorations(rest);
            assert(", "@ == seq![','] + seq![' ']);
            assert(written_decorations(all) == all[0].written() + seq![','] + (seq![' '] + tail));
            law_comma_separates_parts(all[0].written(), seq![' '] + tail);
            lemma_leading_space(tail);
        } else {
            assert(all_names(all.skip(1)) == Seq::<Seq<char>>::empty());
            assert(all_names(all) == all[0].names());
        }
    }
}

} // verus!
