//! What the pages of the log promise: their bounds, their order, and that what `git`
//! writes in the format of the page is what is read.

use vstd::prelude::*;

use crate::git_log::{
    commit_of, commits_model, ends_inside_record, fields, is_commit_record, log_args, next_page_skip, page_limit,
    page_skip, read_page, record_texts, records, refs_of, GitCommit, GitCommitModel,
    GIT_LOG_RECORD_SEP, GIT_LOG_UNIT_SEP, MAX_GIT_LOG_LIMIT, MAX_GIT_LOG_SKIP,
};
use crate::text::{
    is_line_break, lemma_before_first_is, pieces, pieces_at_most, trimmed, trimmed_start, Margin,
};
use crate::text_laws::{
    law_decimal_stands_for_the_number, law_split_at_a_separator,
    law_text_without_separator_is_one_piece, law_trim_keeps_what_is_between, lemma_trailing_margin,
    only_breaks, value_of,
};

verus! {

/// A page holds at least one commit and at most the most, skips at most the most, and a
/// request that asks for exactly that gets it.
pub proof fn law_page_bounds(limit: Option<usize>, skip: Option<usize>)
    ensures
        1 <= page_limit(limit) <= MAX_GIT_LOG_LIMIT,
        page_skip(skip) <= MAX_GIT_LOG_SKIP,
        page_limit(Some(page_limit(limit))) == page_limit(limit),
        page_skip(Some(page_skip(skip))) == page_skip(skip),
{
}

/// The next page begins right behind this one, further on than this one, and a request
/// can ask for it.
pub proof fn law_paging_makes_progress(skip: nat, count: nat, truncated: bool)
    ensures
        next_page_skip(skip, count, truncated) matches Some(next) ==> {
            &&& next == skip + count
            &&& next > skip
            &&& truncated
            &&& page_skip(Some(next)) == next
        },
{
}

/// A request gets the page that it asks for: every size from 1 to 100 as it is, 100 for
/// more, and 20 where it asks for none; every beginning up to 10000 as it is, 10000 for
/// more, and the first commit where it asks for none.
pub proof fn law_requested_page_is_given(n: usize)
    ensures
        1 <= n <= 100 ==> page_limit(Some(n)) == n,
        n > 100 ==> page_limit(Some(n)) == 100,
        n == 0 ==> page_limit(Some(n)) == 20,
        page_limit(None) == 20,
        n <= 10_000 ==> page_skip(Some(n)) == n,
        n > 10_000 ==> page_skip(Some(n)) == 10_000,
        page_skip(None) == 0,
{
}

/// Where a page was cut off, held something, and the next beginning can be asked for, the
/// next page is named; else none is.
pub proof fn law_next_page_is_named(skip: nat, count: nat, truncated: bool)
    ensures
        next_page_skip(skip, count, truncated) is Some <==> truncated && count > 0 && skip + count
            <= 10_000,
        next_page_skip(skip, count, truncated) matches Some(next) ==> next == skip + count,
{
}

/// The command line asks `git` for one commit more than the page holds, behind those that
/// are skipped, from the given commit on, with seven fields for each: the hash, the short
/// hash, the decorations, the author's name, mail and date, and the subject. Only where one
/// more cannot be counted does it ask for as many as the page holds.
pub proof fn law_log_command(head: Seq<char>, limit: nat, skip: nat)
    ensures
        ({
            let args = log_args(head, limit, skip);
            &&& args.len() == 9
            &&& args[0] == "log"@
            &&& args[1] == "--decorate=short"@
            &&& args[2] == "--date=iso-strict"@
            &&& args[3] == "--pretty=format:%H%x1f%h%x1f%D%x1f%an%x1f%ae%x1f%aI%x1f%s%x1e"@
            &&& args[4] == "-n"@
            &&& limit < usize::MAX ==> value_of(args[5]) == limit + 1
            &&& limit < usize::MAX ==> args[5] == crate::text::decimal(limit + 1)
            &&& limit == usize::MAX ==> value_of(args[5]) == limit
            &&& args[6] == "--skip"@
            &&& value_of(args[7]) == skip
            &&& args[7] == crate::text::decimal(skip)
            &&& args[8] == head
        }),
{
    law_decimal_stands_for_the_number(limit);
    law_decimal_stands_for_the_number(limit + 1);
    law_decimal_stands_for_the_number(skip);
    lemma_pretty_argument();
}

/// The argument for the format, written out.
proof fn lemma_pretty_argument()
    ensures
        "--pretty=format:"@ + crate::git_log::pretty_format()
            == "--pretty=format:%H%x1f%h%x1f%D%x1f%an%x1f%ae%x1f%aI%x1f%s%x1e"@,
{
    reveal_strlit("--pretty=format:");
    reveal_strlit("%H%x1f%h%x1f%D%x1f%an%x1f%ae%x1f%aI%x1f%s%x1e");
    reveal_strlit("--pretty=format:%H%x1f%h%x1f%D%x1f%an%x1f%ae%x1f%aI%x1f%s%x1e");
}

/// A page that can be read holds at most its limit, and exactly that where there is
/// more; every commit of it begins with an object id.
pub proof fn law_page_is_within_its_limit(
    stdout: Seq<char>,
    limit: nat,
    is_object_id: spec_fn(Seq<char>) -> bool,
)
    ensures
        read_page(stdout, limit, is_object_id) matches Ok((commits, truncated)) ==> {
            &&& commits.len() <= limit
            &&& truncated ==> commits.len() == limit
            &&& truncated == (records(stdout).len() > limit)
            &&& forall|i: int|
                0 <= i < commits.len() ==> is_object_id((#[trigger] commits[i]).hash)
        },
{
    if let Ok((commits, truncated)) = read_page(stdout, limit, is_object_id) {
        let all = records(stdout);
        assert forall|i: int| 0 <= i < commits.len() implies is_object_id(
            (#[trigger] commits[i]).hash,
        ) by {
            assert(is_commit_record(all[i], is_object_id));
        }
    }
}

/// A larger limit gives the same commits and possibly more.
pub proof fn law_larger_page_extends(
    stdout: Seq<char>,
    limit: nat,
    larger: nat,
    is_object_id: spec_fn(Seq<char>) -> bool,
)
    requires
        limit <= larger,
        read_page(stdout, larger, is_object_id) is Ok,
    ensures
        read_page(stdout, limit, is_object_id) is Ok,
        read_page(stdout, limit, is_object_id)->Ok_0.0.is_prefix_of(
            read_page(stdout, larger, is_object_id)->Ok_0.0,
        ),
{
    let all = records(stdout);
    assert(!exists|i: int|
        0 <= i < all.len() && i <= limit && !is_commit_record(#[trigger] all[i], is_object_id)) by {
        if exists|i: int|
            0 <= i < all.len() && i <= limit && !is_commit_record(#[trigger] all[i], is_object_id) {
            let i = choose|i: int|
                0 <= i < all.len() && i <= limit && !is_commit_record(
                    #[trigger] all[i],
                    is_object_id,
                );
            assert(0 <= i < all.len() && i <= larger && !is_commit_record(all[i], is_object_id));
        }
    }
    let a = read_page(stdout, limit, is_object_id)->Ok_0.0;
    let b = read_page(stdout, larger, is_object_id)->Ok_0.0;
    assert(a == b.subrange(0, a.len() as int));
}

/// A record as the format writes it, without the record separator: the fields with a
/// unit separator between two of them.
pub open spec fn written_fields(f: Seq<Seq<char>>) -> Seq<char>
    decreases f.len(),
{
    if f.len() == 0 {
        seq![]
    } else if f.len() == 1 {
        f[0]
    } else {
        f[0] + seq![GIT_LOG_UNIT_SEP] + written_fields(f.skip(1))
    }
}

/// The records behind the first: each on a new line, with its separator.
pub open spec fn written_rest(commits: Seq<Seq<Seq<char>>>) -> Seq<char>
    decreases commits.len(),
{
    if commits.len() == 0 {
        seq![]
    } else {
        seq!['\n'] + written_fields(commits[0]) + seq![GIT_LOG_RECORD_SEP] + written_rest(
            commits.skip(1),
        )
    }
}

/// The log as `git` writes it: the records, each with its separator, and a line feed
/// between two of them.
pub open spec fn written_log(commits: Seq<Seq<Seq<char>>>) -> Seq<char> {
    if commits.len() == 0 {
        seq![]
    } else {
        written_fields(commits[0]) + seq![GIT_LOG_RECORD_SEP] + written_rest(commits.skip(1))
    }
}

/// Whether the fields can be told from each other and from what is around them: there are
/// at most seven, none holds a record separator, only a seventh may hold a unit separator,
/// and the record is not empty and neither begins nor ends with a line break.
pub open spec fn legible(f: Seq<Seq<char>>) -> bool {
    &&& 1 <= f.len() <= 7
    &&& forall|i: int| 0 <= i < f.len() ==> !(#[trigger] f[i]).contains(GIT_LOG_RECORD_SEP)
    &&& forall|i: int| 0 <= i < f.len() && i < 6 ==> !(#[trigger] f[i]).contains(GIT_LOG_UNIT_SEP)
    &&& written_fields(f).len() > 0
    &&& !is_line_break(written_fields(f)[0])
    &&& !is_line_break(written_fields(f).last())
}

/// Whether the format can carry these fields: all are there, none holds a record
/// separator, only the last may hold a unit separator, and the record neither begins
/// nor ends with a line break.
pub open spec fn writable(f: Seq<Seq<char>>) -> bool {
    &&& f.len() == 7
    &&& forall|i: int| 0 <= i < f.len() ==> !(#[trigger] f[i]).contains(GIT_LOG_RECORD_SEP)
    &&& forall|i: int| 0 <= i < f.len() - 1 ==> !(#[trigger] f[i]).contains(GIT_LOG_UNIT_SEP)
    &&& f[0].len() > 0 && !is_line_break(f[0][0])
    &&& f[6].len() > 0 ==> !is_line_break(f[6].last())
}

/// The commit that the fields stand for.
pub open spec fn commit_of_fields(f: Seq<Seq<char>>) -> GitCommitModel {
    GitCommitModel {
        hash: f[0],
        short_hash: f[1],
        subject: f[6],
        author_name: f[3],
        author_email: f[4],
        author_date: f[5],
        refs: refs_of(f[2]),
    }
}

/// Cutting a joined text gives back what was joined.
proof fn lemma_fields_of_written(f: Seq<Seq<char>>, n: nat)
    requires
        0 < f.len() <= n,
        forall|i: int| 0 <= i < f.len() - 1 ==> !(#[trigger] f[i]).contains(GIT_LOG_UNIT_SEP),
        f.len() < n ==> !f.last().contains(GIT_LOG_UNIT_SEP),
    ensures
        pieces_at_most(written_fields(f), n, GIT_LOG_UNIT_SEP) == f,
    decreases f.len(),
{
    if f.len() == 1 {
        assert(f == seq![f[0]]);
        if n > 1 {
            crate::text_laws::law_bounded_split(f[0], f[0], n, GIT_LOG_UNIT_SEP);
        }
    } else {
        let rest = f.skip(1);
        assert forall|i: int| 0 <= i < rest.len() - 1 implies !(#[trigger] rest[i]).contains(
            GIT_LOG_UNIT_SEP,
        ) by {
            assert(rest[i] == f[i + 1]);
        }
        assert(rest.last() == f.last());
        lemma_fields_of_written(rest, (n - 1) as nat);
        assert(!f[0].contains(GIT_LOG_UNIT_SEP));
        crate::text_laws::law_bounded_split(
            f[0],
            written_fields(rest),
            (n - 1) as nat,
            GIT_LOG_UNIT_SEP,
        );
        assert(f == seq![f[0]] + rest);
    }
}

/// The fields of a record are what was joined, up to seven of them.
pub proof fn law_fields_are_read_back(f: Seq<Seq<char>>)
    requires
        1 <= f.len() <= 7,
        forall|i: int| 0 <= i < f.len() && i < 6 ==> !(#[trigger] f[i]).contains(GIT_LOG_UNIT_SEP),
    ensures
        fields(written_fields(f)) == f,
{
    if f.len() < 7 {
        assert(!f[f.len() - 1].contains(GIT_LOG_UNIT_SEP));
    }
    lemma_fields_of_written(f, 7);
}

/// What stands before the first unit separator is the first field; what stands behind it
/// gives up to six more, of which the sixth keeps whatever separators are left.
pub proof fn law_unit_separator_ends_a_field(a: Seq<char>, b: Seq<char>)
    requires
        !a.contains('\u{1f}'),
    ensures
        fields(a) == seq![a],
        fields(a + seq!['\u{1f}'] + b) == seq![a] + pieces_at_most(b, 6, '\u{1f}'),
{
    crate::text_laws::law_bounded_split(a, b, 6, '\u{1f}');
    crate::text_laws::law_bounded_split(a, b, 7, '\u{1f}');
}

/// What the format can carry can be read.
proof fn lemma_writable_is_legible(f: Seq<Seq<char>>)
    requires
        writable(f),
    ensures
        legible(f),
{
    lemma_written_ends(f);
}

/// A joined text holds no record separator, where no field does; it begins as the first
/// field does and ends as the last.
proof fn lemma_written_ends(f: Seq<Seq<char>>)
    requires
        f.len() > 0,
        forall|i: int| 0 <= i < f.len() ==> !(#[trigger] f[i]).contains(GIT_LOG_RECORD_SEP),
    ensures
        !written_fields(f).contains(GIT_LOG_RECORD_SEP),
        f[0].len() > 0 ==> written_fields(f).len() > 0 && written_fields(f)[0] == f[0][0],
        f.last().len() > 0 ==> written_fields(f).len() > 0 && written_fields(f).last()
            == f.last().last(),
        f.last().len() == 0 && f.len() > 1 ==> written_fields(f).len() > 0 && written_fields(
            f,
        ).last() == GIT_LOG_UNIT_SEP,
    decreases f.len(),
{
    let t = written_fields(f);
    assert(!f[0].contains(GIT_LOG_RECORD_SEP));
    if f.len() > 1 {
        let rest = f.skip(1);
        assert forall|i: int| 0 <= i < rest.len() implies !(#[trigger] rest[i]).contains(
            GIT_LOG_RECORD_SEP,
        ) by {
            assert(rest[i] == f[i + 1]);
        }
        lemma_written_ends(rest);
        assert(rest.last() == f.last());
        let n = f[0].len() as int;
        if t.contains(GIT_LOG_RECORD_SEP) {
            let i = choose|i: int| 0 <= i < t.len() && t[i] == GIT_LOG_RECORD_SEP;
            if i < n {
                assert(f[0][i] == GIT_LOG_RECORD_SEP);
            } else if i > n {
                assert(written_fields(rest)[i - n - 1] == GIT_LOG_RECORD_SEP);
            }
        }
    }
}

/// A text that neither begins nor ends with a line break keeps all of itself, and loses
/// a line feed before it.
proof fn lemma_trimmed_record(w: Seq<char>)
    requires
        w.len() > 0,
        !is_line_break(w[0]),
        !is_line_break(w.last()),
    ensures
        trimmed(w, Margin::LineBreaks) == w,
        trimmed(seq!['\n'] + w, Margin::LineBreaks) == w,
{
    let t = seq!['\n'] + w;
    assert(t[0] == '\n');
    assert(t.skip(1) == w);
    reveal_with_fuel(trimmed_start, 2);
}

/// The first piece of a text that begins with a piece and its separator.
proof fn lemma_first_piece(w: Seq<char>, rest: Seq<char>, sep: char)
    requires
        !w.contains(sep),
    ensures
        pieces(w + seq![sep] + rest, sep) == seq![w] + pieces(rest, sep),
{
    let t = w + seq![sep] + rest;
    let n = w.len() as int;
    assert forall|i: int| 0 <= i < n implies t[i] != sep by {
        assert(t[i] == w[i]);
    }
    assert(t[n] == sep);
    lemma_before_first_is(t, sep, n);
    assert(t.take(n) == w);
    assert(t.skip(n + 1) == rest);
}

/// The texts of written commits.
pub open spec fn written_texts(commits: Seq<Seq<Seq<char>>>) -> Seq<Seq<char>> {
    commits.map_values(|f: Seq<Seq<char>>| written_fields(f))
}

/// A legible record holds no record separator.
proof fn lemma_no_record_separator(f: Seq<Seq<char>>)
    requires
        legible(f),
    ensures
        !written_fields(f).contains(GIT_LOG_RECORD_SEP),
{
    lemma_written_ends(f);
}

/// What is written behind the first record is read as those records.
proof fn lemma_records_of_rest(commits: Seq<Seq<Seq<char>>>)
    requires
        forall|i: int| 0 <= i < commits.len() ==> legible(#[trigger] commits[i]),
    ensures
        records(written_rest(commits)) == written_texts(commits),
    decreases commits.len(),
{
    let some = |record: Seq<char>| record.len() > 0;
    let trim = |piece: Seq<char>| trimmed(piece, Margin::LineBreaks);
    let text = written_rest(commits);
    reveal(Seq::filter);
    if commits.len() == 0 {
        assert(pieces(text, GIT_LOG_RECORD_SEP) == seq![text]);
        assert(record_texts(text) == seq![trimmed(text, Margin::LineBreaks)]);
        assert(trimmed(text, Margin::LineBreaks).len() == 0);
        let one = record_texts(text);
        assert(one.drop_last() == Seq::<Seq<char>>::empty());
        assert(one.drop_last().filter(some) == Seq::<Seq<char>>::empty());
        assert(one.filter(some) == Seq::<Seq<char>>::empty());
        assert(written_texts(commits) == Seq::<Seq<char>>::empty());
    } else {
        let rest = commits.skip(1);
        assert forall|i: int| 0 <= i < rest.len() implies legible(#[trigger] rest[i]) by {
            assert(rest[i] == commits[i + 1]);
        }
        lemma_records_of_rest(rest);
        assert(legible(commits[0]));
        let w = written_fields(commits[0]);
        lemma_no_record_separator(commits[0]);
        let first = seq!['\n'] + w;
        assert(!first.contains(GIT_LOG_RECORD_SEP)) by {
            if first.contains(GIT_LOG_RECORD_SEP) {
                let i = choose|i: int| 0 <= i < first.len() && first[i] == GIT_LOG_RECORD_SEP;
                assert(w[i - 1] == GIT_LOG_RECORD_SEP);
            }
        }
        lemma_first_piece(first, written_rest(rest), GIT_LOG_RECORD_SEP);
        lemma_trimmed_record(w);
        let head = seq![first];
        let tail = pieces(written_rest(rest), GIT_LOG_RECORD_SEP);
        assert((head + tail).map_values(trim) == seq![w] + tail.map_values(trim));
        Seq::filter_distributes_over_add(seq![w], tail.map_values(trim), some);
        assert(seq![w].drop_last() == Seq::<Seq<char>>::empty());
        assert(seq![w].filter(some) == seq![w]);
        assert(written_texts(commits) == seq![w] + written_texts(rest));
    }
}

/// What is written is read as those records, and does not end inside one.
proof fn lemma_records_of_log(commits: Seq<Seq<Seq<char>>>)
    requires
        forall|i: int| 0 <= i < commits.len() ==> legible(#[trigger] commits[i]),
    ensures
        records(written_log(commits)) == written_texts(commits),
        !ends_inside_record(written_log(commits)),
{
    let some = |record: Seq<char>| record.len() > 0;
    let trim = |piece: Seq<char>| trimmed(piece, Margin::LineBreaks);
    let text = written_log(commits);
    reveal(Seq::filter);
    if commits.len() == 0 {
        lemma_records_of_rest(commits);
        assert(text == written_rest(commits));
    } else {
        let rest = commits.skip(1);
        assert forall|i: int| 0 <= i < rest.len() implies legible(#[trigger] rest[i]) by {
            assert(rest[i] == commits[i + 1]);
        }
        lemma_records_of_rest(rest);
        assert(legible(commits[0]));
        let w = written_fields(commits[0]);
        lemma_no_record_separator(commits[0]);
        lemma_first_piece(w, written_rest(rest), GIT_LOG_RECORD_SEP);
        lemma_trimmed_record(w);
        let head = seq![w];
        let tail = pieces(written_rest(rest), GIT_LOG_RECORD_SEP);
        assert((head + tail).map_values(trim) == seq![w] + tail.map_values(trim));
        Seq::filter_distributes_over_add(seq![w], tail.map_values(trim), some);
        assert(seq![w].drop_last() == Seq::<Seq<char>>::empty());
        assert(seq![w].filter(some) == seq![w]);
        assert(written_texts(commits) == seq![w] + written_texts(rest));
        lemma_rest_ends_with_separator(rest);
        assert(text.last() == GIT_LOG_RECORD_SEP);
    }
}

/// What is written behind the first record ends with a record separator.
proof fn lemma_rest_ends_with_separator(commits: Seq<Seq<Seq<char>>>)
    ensures
        commits.len() == 0 ==> written_rest(commits).len() == 0,
        commits.len() > 0 ==> written_rest(commits).len() > 0 && written_rest(commits).last()
            == GIT_LOG_RECORD_SEP,
    decreases commits.len(),
{
    if commits.len() > 0 {
        lemma_rest_ends_with_separator(commits.skip(1));
    }
}

/// A log of legible records is read as they were written: as many commits as the page
/// holds, in order, and whether there are more. A record without all seven fields, or that
/// does not begin with an object id, makes the page unreadable, if it is one of the page or
/// the one behind it; further on it does not matter.
pub proof fn law_page_of_a_written_log(
    log: Seq<Seq<Seq<char>>>,
    limit: nat,
    is_object_id: spec_fn(Seq<char>) -> bool,
)
    requires
        forall|i: int| 0 <= i < log.len() ==> legible(#[trigger] log[i]),
    ensures
        read_page(written_log(log), limit, is_object_id) == if exists|i: int|
            0 <= i < log.len() && i <= limit && ((#[trigger] log[i]).len() < 7 || !is_object_id(
                log[i][0],
            )) {
            Err::<(Seq<GitCommitModel>, bool), Seq<char>>(
                "git log source is incomplete or malformed; retry with a smaller limit"@,
            )
        } else {
            Ok::<(Seq<GitCommitModel>, bool), Seq<char>>(
                (
                    commits_of(
                        if log.len() <= limit {
                            log
                        } else {
                            log.take(limit as int)
                        },
                    ),
                    log.len() > limit,
                ),
            )
        },
{
    let text = written_log(log);
    let all = records(text);
    lemma_records_of_log(log);
    assert forall|i: int| 0 <= i < all.len() implies fields(#[trigger] all[i]) == log[i] by {
        assert(legible(log[i]));
        law_fields_are_read_back(log[i]);
    }
    let bad = exists|i: int|
        0 <= i < log.len() && i <= limit && ((#[trigger] log[i]).len() < 7 || !is_object_id(
            log[i][0],
        ));
    if bad {
        let i = choose|i: int|
            0 <= i < log.len() && i <= limit && ((#[trigger] log[i]).len() < 7 || !is_object_id(
                log[i][0],
            ));
        assert(fields(all[i]) == log[i]);
        assert(!is_commit_record(all[i], is_object_id));
    } else {
        assert forall|i: int| 0 <= i < all.len() && i <= limit implies is_commit_record(
            #[trigger] all[i],
            is_object_id,
        ) by {
            assert(legible(log[i]));
            assert(fields(all[i]) == log[i]);
        }
        let page = if log.len() <= limit {
            log
        } else {
            log.take(limit as int)
        };
        let read = if all.len() <= limit {
            all
        } else {
            all.take(limit as int)
        };
        assert(read.map_values(|record: Seq<char>| commit_of(record)) == commits_of(page)) by {
            assert forall|i: int| 0 <= i < read.len() implies commit_of(read[i])
                == commit_of_fields(page[i]) by {
                assert(read[i] == all[i]);
                assert(fields(all[i]) == log[i]);
            }
        }
    }
}

/// What `git` writes in the format of the page is what is read: the commits in their
/// order, as many as the page holds, and whether there are more.
pub proof fn law_what_is_written_is_read(
    commits: Seq<Seq<Seq<char>>>,
    limit: nat,
    is_object_id: spec_fn(Seq<char>) -> bool,
)
    requires
        forall|i: int| 0 <= i < commits.len() ==> writable(#[trigger] commits[i]),
        forall|i: int| 0 <= i < commits.len() ==> is_object_id((#[trigger] commits[i])[0]),
    ensures
        read_page(written_log(commits), limit, is_object_id) == Ok::<
            (Seq<GitCommitModel>, bool),
            Seq<char>,
        >(
            (
                commits_of(
                    if commits.len() <= limit {
                        commits
                    } else {
                        commits.take(limit as int)
                    },
                ),
                commits.len() > limit,
            ),
        ),
{
    assert forall|i: int| 0 <= i < commits.len() implies legible(#[trigger] commits[i]) by {
        assert(writable(commits[i]));
        lemma_writable_is_legible(commits[i]);
    }
    law_page_of_a_written_log(commits, limit, is_object_id);
    assert forall|i: int| 0 <= i < commits.len() implies (#[trigger] commits[i]).len() == 7 by {
        assert(writable(commits[i]));
    }
}

/// The records on both sides of a record separator are read on their own, one after the
/// other.
pub proof fn law_separator_ends_a_record(a: Seq<char>, b: Seq<char>)
    ensures
        records(a + seq![GIT_LOG_RECORD_SEP] + b) == records(a) + records(b),
{
    let some = |record: Seq<char>| record.len() > 0;
    let trim = |piece: Seq<char>| trimmed(piece, Margin::LineBreaks);
    law_split_at_a_separator(a, b, GIT_LOG_RECORD_SEP);
    let x = pieces(a, GIT_LOG_RECORD_SEP);
    let y = pieces(b, GIT_LOG_RECORD_SEP);
    assert((x + y).map_values(trim) == x.map_values(trim) + y.map_values(trim));
    Seq::filter_distributes_over_add(x.map_values(trim), y.map_values(trim), some);
}

/// A text without a record separator is one record, in full but for line breaks at its
/// ends; line breaks alone are none.
pub proof fn law_line_breaks_around_a_record(a: Seq<char>, r: Seq<char>, b: Seq<char>)
    requires
        only_breaks(a),
        only_breaks(b),
        !r.contains(GIT_LOG_RECORD_SEP),
        r.len() > 0 ==> !is_line_break(r[0]) && !is_line_break(r.last()),
    ensures
        records(a + r + b) == if r.len() > 0 {
            seq![r]
        } else {
            seq![]
        },
{
    let some = |record: Seq<char>| record.len() > 0;
    let t = a + r + b;
    assert(!t.contains(GIT_LOG_RECORD_SEP)) by {
        if t.contains(GIT_LOG_RECORD_SEP) {
            let i = choose|i: int| 0 <= i < t.len() && t[i] == GIT_LOG_RECORD_SEP;
            if i < a.len() {
                assert(is_line_break(a[i]));
            } else if i < a.len() + r.len() {
                assert(r[i - a.len()] == GIT_LOG_RECORD_SEP);
            } else {
                assert(is_line_break(b[i - a.len() - r.len()]));
            }
        }
    }
    law_text_without_separator_is_one_piece(t, GIT_LOG_RECORD_SEP);
    law_trim_keeps_what_is_between(a, r, b, Margin::LineBreaks);
    reveal(Seq::filter);
    assert(record_texts(t) == seq![r]);
    assert(seq![r].drop_last() == Seq::<Seq<char>>::empty());
    assert(seq![r].drop_last().filter(some) == Seq::<Seq<char>>::empty());
}

/// A page that can be read shows its records, field by field, the first ones and as many
/// as it holds, and whether there are more.
pub proof fn law_page_shows_its_records(
    stdout: Seq<char>,
    limit: nat,
    is_object_id: spec_fn(Seq<char>) -> bool,
)
    ensures
        read_page(stdout, limit, is_object_id) matches Ok((commits, truncated)) ==> {
            let all = records(stdout);
            &&& truncated == (all.len() > limit)
            &&& commits.len() == if all.len() <= limit {
                all.len()
            } else {
                limit
            }
            &&& forall|i: int|
                0 <= i < commits.len() ==> {
                    let f = fields(all[i]);
                    &&& f.len() == 7
                    &&& is_object_id(f[0])
                    &&& (#[trigger] commits[i]).hash == f[0]
                    &&& commits[i].short_hash == f[1]
                    &&& commits[i].refs == refs_of(f[2])
                    &&& commits[i].author_name == f[3]
                    &&& commits[i].author_email == f[4]
                    &&& commits[i].author_date == f[5]
                    &&& commits[i].subject == f[6]
                }
        },
{
    if let Ok((commits, truncated)) = read_page(stdout, limit, is_object_id) {
        let all = records(stdout);
        assert forall|i: int| 0 <= i < commits.len() implies commits[i] == commit_of(all[i])
            && is_commit_record(all[i], is_object_id) by {}
    }
}

/// Output that ends inside a record cannot be read, whatever stands before: the last
/// character, but for line breaks at the end, has to end a record. Where it does, or where
/// there are line breaks alone, the output is not refused for that.
pub proof fn law_cut_off_output_is_refused(
    text: Seq<char>,
    breaks: Seq<char>,
    limit: nat,
    is_object_id: spec_fn(Seq<char>) -> bool,
)
    requires
        only_breaks(breaks),
        text.len() > 0 ==> !is_line_break(text.last()),
    ensures
        read_page(text + breaks, limit, is_object_id) == Err::<
            (Seq<GitCommitModel>, bool),
            Seq<char>,
        >("git log source ended inside a record; retry with a smaller limit"@) <==> text.len() > 0
            && text.last() != '\u{1e}',
{
    reveal_strlit("git log source ended inside a record; retry with a smaller limit");
    reveal_strlit("git log source is incomplete or malformed; retry with a smaller limit");
    assert("git log source ended inside a record; retry with a smaller limit"@.len() == 64);
    assert("git log source is incomplete or malformed; retry with a smaller limit"@.len() == 69);
    lemma_trailing_margin(text, breaks, Margin::LineBreaks);
}

/// A page can be read wherever its output does not end inside a record and each of its
/// records, and the one behind it, has seven fields and begins with an object id; one record
/// among these that does not makes it unreadable, and none further on does.
pub proof fn law_when_a_page_can_be_read(
    stdout: Seq<char>,
    limit: nat,
    is_object_id: spec_fn(Seq<char>) -> bool,
)
    ensures
        ({
            let all = records(stdout);
            let good = forall|i: int|
                0 <= i < all.len() && i <= limit ==> fields(#[trigger] all[i]).len() == 7
                    && is_object_id(fields(all[i])[0]);
            let read = read_page(stdout, limit, is_object_id);
            let cut_off = Err::<(Seq<GitCommitModel>, bool), Seq<char>>(
                "git log source ended inside a record; retry with a smaller limit"@,
            );
            &&& good && read != cut_off ==> read is Ok
            &&& !good && read != cut_off ==> read == Err::<(Seq<GitCommitModel>, bool), Seq<char>>(
                "git log source is incomplete or malformed; retry with a smaller limit"@,
            )
        }),
{
    let all = records(stdout);
    let good = forall|i: int|
        0 <= i < all.len() && i <= limit ==> fields(#[trigger] all[i]).len() == 7 && is_object_id(
            fields(all[i])[0],
        );
    if !good {
        let i = choose|i: int|
            0 <= i < all.len() && i <= limit && !(fields(#[trigger] all[i]).len() == 7
                && is_object_id(fields(all[i])[0]));
        assert(!is_commit_record(all[i], is_object_id));
    }
}

/// A commit holds its own texts, and a list of commits each of them in its place.
pub proof fn law_commit_holds_its_texts(c: GitCommit, v: Seq<GitCommit>)
    ensures
        commits_model(v).len() == v.len(),
        forall|i: int| 0 <= i < v.len() ==> commits_model(v)[i] == (#[trigger] v[i])@,
        c@.hash == c.hash@,
        c@.short_hash == c.short_hash@,
        c@.subject == c.subject@,
        c@.author_name == c.author_name@,
        c@.author_email == c.author_email@,
        c@.author_date == c.author_date@,
        c@.refs.len() == c.refs@.len(),
        forall|i: int| 0 <= i < c.refs@.len() ==> c@.refs[i] == (#[trigger] c.refs@[i])@,
{
}

/// What `git log -n count --skip skip` shows of a history: at most `count` commits
/// behind the first `skip`.
pub open spec fn excerpt(history: Seq<Seq<Seq<char>>>, skip: nat, count: nat) -> Seq<
    Seq<Seq<char>>,
> {
    if skip >= history.len() {
        seq![]
    } else if skip + count >= history.len() {
        history.skip(skip as int)
    } else {
        history.subrange(skip as int, (skip + count) as int)
    }
}

/// The commits that the fields stand for.
pub open spec fn commits_of(written: Seq<Seq<Seq<char>>>) -> Seq<GitCommitModel> {
    written.map_values(|f: Seq<Seq<char>>| commit_of_fields(f))
}

/// The page of a history at `skip`: what is read of one commit more than the page holds.
pub open spec fn page_at(
    history: Seq<Seq<Seq<char>>>,
    skip: nat,
    limit: nat,
    is_object_id: spec_fn(Seq<char>) -> bool,
) -> Result<(Seq<GitCommitModel>, bool), Seq<char>> {
    read_page(written_log(excerpt(history, skip, limit + 1)), limit, is_object_id)
}

/// A page shows the commits of the history from where it begins, as many as it holds;
/// whether there are more; and, where there are and they can be asked for, that the next
/// page begins right behind it.
pub proof fn law_page_shows_the_history(
    history: Seq<Seq<Seq<char>>>,
    skip: nat,
    limit: nat,
    is_object_id: spec_fn(Seq<char>) -> bool,
)
    requires
        limit > 0,
        forall|i: int| 0 <= i < history.len() ==> writable(#[trigger] history[i]),
        forall|i: int| 0 <= i < history.len() ==> is_object_id((#[trigger] history[i])[0]),
    ensures
        page_at(history, skip, limit, is_object_id) == Ok::<(Seq<GitCommitModel>, bool), Seq<char>>(
            (commits_of(excerpt(history, skip, limit)), history.len() > skip + limit),
        ),
        next_page_skip(
            skip,
            excerpt(history, skip, limit).len(),
            history.len() > skip + limit,
        ) == if history.len() > skip + limit && skip + limit <= MAX_GIT_LOG_SKIP {
            Some((skip + limit) as usize)
        } else {
            None
        },
{
    let shown = excerpt(history, skip, limit + 1);
    assert forall|i: int| 0 <= i < shown.len() implies writable(#[trigger] shown[i])
        && is_object_id(shown[i][0]) by {
        assert(shown[i] == history[skip + i]);
    }
    law_what_is_written_is_read(shown, limit, is_object_id);
    let page = if shown.len() <= limit {
        shown
    } else {
        shown.take(limit as int)
    };
    assert(page == excerpt(history, skip, limit));
}

/// All that is read by following the pages from `skip` on, each next page from where the
/// last one says that it begins.
pub open spec fn followed(
    history: Seq<Seq<Seq<char>>>,
    skip: nat,
    limit: nat,
    is_object_id: spec_fn(Seq<char>) -> bool,
) -> Seq<GitCommitModel>
    decreases MAX_GIT_LOG_SKIP - skip,
{
    match page_at(history, skip, limit, is_object_id) {
        Ok((commits, truncated)) => match next_page_skip(skip, commits.len(), truncated) {
            Some(next) => commits + followed(history, next as nat, limit, is_object_id),
            None => commits,
        },
        Err(_) => seq![],
    }
}

/// How far the pages from `skip` on reach: the last one begins where a request can still
/// ask for it.
pub open spec fn reach(skip: nat, limit: nat) -> nat
    decreases MAX_GIT_LOG_SKIP - skip,
{
    if limit == 0 || skip + limit > MAX_GIT_LOG_SKIP {
        skip + limit
    } else {
        reach(skip + limit, limit)
    }
}

/// Whoever follows the pages reads the commits of the history once and in order, as far
/// as the pages reach; that is every commit, where there are no more than can be skipped
/// and one.
pub proof fn law_pages_cover_the_history(
    history: Seq<Seq<Seq<char>>>,
    skip: nat,
    limit: nat,
    is_object_id: spec_fn(Seq<char>) -> bool,
)
    requires
        limit > 0,
        forall|i: int| 0 <= i < history.len() ==> writable(#[trigger] history[i]),
        forall|i: int| 0 <= i < history.len() ==> is_object_id((#[trigger] history[i])[0]),
    ensures
        reach(skip, limit) >= skip + limit,
        reach(skip, limit) > MAX_GIT_LOG_SKIP,
        followed(history, skip, limit, is_object_id) == commits_of(
            excerpt(history, skip, (reach(skip, limit) - skip) as nat),
        ),
        skip <= history.len() <= MAX_GIT_LOG_SKIP + 1 ==> followed(
            history,
            skip,
            limit,
            is_object_id,
        ) == commits_of(history.skip(skip as int)),
    decreases MAX_GIT_LOG_SKIP - skip,
{
    law_page_shows_the_history(history, skip, limit, is_object_id);
    let here = excerpt(history, skip, limit);
    let all = excerpt(history, skip, (reach(skip, limit) - skip) as nat);
    if skip + limit <= MAX_GIT_LOG_SKIP {
        law_pages_cover_the_history(history, skip + limit, limit, is_object_id);
        if history.len() > skip + limit {
            let rest = excerpt(
                history,
                skip + limit,
                (reach(skip + limit, limit) - (skip + limit)) as nat,
            );
            assert(commits_of(here) + commits_of(rest) == commits_of(all));
        } else {
            assert(here == all);
        }
    } else {
        assert(here == all);
    }
    if skip <= history.len() <= MAX_GIT_LOG_SKIP + 1 {
        assert(all == history.skip(skip as int));
    }
}

} // verus!
