//! One page of `git log`: its bounds, its command line, and the reading of its output.

use vstd::prelude::*;

use crate::rule::{accepted, is_rule};
use crate::text::{
    chars_of, decimal, decimal_text, find, first_match, pieces, pieces_at_most, slice_of, split,
    split_at_most, starts_with, string_of, strings, texts, trim, trim_end, trimmed, trimmed_end,
    Margin,
};

verus! {

/// How many commits a page holds where the request names no number.
pub const DEFAULT_GIT_LOG_LIMIT: usize = 20;

/// The most commits that a page holds.
pub const MAX_GIT_LOG_LIMIT: usize = 100;

/// The most commits that a page skips.
pub const MAX_GIT_LOG_SKIP: usize = 10_000;

/// What ends a record of the log.
pub const GIT_LOG_RECORD_SEP: char = '\u{1e}';

/// What stands between two fields of a record.
pub const GIT_LOG_UNIT_SEP: char = '\u{1f}';

/// How many fields a record has.
pub const GIT_LOG_FIELDS: usize = 7;

/// The page size for a request: its own where that is positive, else the default;
/// never more than the most.
pub fn normalize_git_log_limit(limit: Option<usize>) -> (r: usize)
    ensures
        r == page_limit(limit),
{
    let wanted: usize = match limit {
        Some(n) => if n > 0 {
            n
        } else {
            DEFAULT_GIT_LOG_LIMIT
        },
        None => DEFAULT_GIT_LOG_LIMIT,
    };
    if wanted < MAX_GIT_LOG_LIMIT {
        wanted
    } else {
        MAX_GIT_LOG_LIMIT
    }
}

/// The page size for a request.
pub open spec fn page_limit(limit: Option<usize>) -> usize {
    if limit is None || limit == Some(0usize) {
        DEFAULT_GIT_LOG_LIMIT
    } else if limit->0 <= MAX_GIT_LOG_LIMIT {
        limit->0
    } else {
        MAX_GIT_LOG_LIMIT
    }
}

/// How many commits a request skips: none where it names no number; never more than
/// the most.
pub fn normalize_git_log_skip(skip: Option<usize>) -> (r: usize)
    ensures
        r == page_skip(skip),
{
    let wanted: usize = match skip {
        Some(n) => n,
        None => 0,
    };
    if wanted < MAX_GIT_LOG_SKIP {
        wanted
    } else {
        MAX_GIT_LOG_SKIP
    }
}

/// How many commits a request skips.
pub open spec fn page_skip(skip: Option<usize>) -> usize {
    match skip {
        None => 0,
        Some(n) => if n <= MAX_GIT_LOG_SKIP {
            n
        } else {
            MAX_GIT_LOG_SKIP
        },
    }
}

/// Where the next page begins: behind this one, where this one was cut off, held
/// anything, and the next beginning can be asked for.
pub fn git_log_next_skip(skip: usize, returned_count: usize, truncated: bool) -> (r: Option<usize>)
    ensures
        r == next_page_skip(skip as nat, returned_count as nat, truncated),
{
    if !truncated || returned_count == 0 {
        return None;
    }
    match skip.checked_add(returned_count) {
        Some(next) => if next > skip && next <= MAX_GIT_LOG_SKIP {
            Some(next)
        } else {
            None
        },
        None => None,
    }
}

/// Where the next page begins.
pub open spec fn next_page_skip(skip: nat, returned_count: nat, truncated: bool) -> Option<usize> {
    if truncated && returned_count > 0 && skip + returned_count <= MAX_GIT_LOG_SKIP {
        Some((skip + returned_count) as usize)
    } else {
        None
    }
}

/// The format that `git log` writes each commit in: hash, short hash, decorations,
/// author name, author mail, author date and subject, with a unit separator between
/// two fields and a record separator at the end.
pub open spec fn pretty_format() -> Seq<char> {
    "%H%x1f%h%x1f%D%x1f%an%x1f%ae%x1f%aI%x1f%s%x1e"@
}

/// The arguments with which `git` writes the page: one commit more than the page
/// holds, so that a page that was cut off shows.
pub open spec fn log_args(head_commit: Seq<char>, limit: nat, skip: nat) -> Seq<Seq<char>> {
    seq![
        "log"@,
        "--decorate=short"@,
        "--date=iso-strict"@,
        "--pretty=format:"@ + pretty_format(),
        "-n"@,
        decimal(if limit < usize::MAX { limit + 1 } else { limit }),
        "--skip"@,
        decimal(skip),
        head_commit,
    ]
}

/// The arguments with which `git` writes the page.
pub fn git_log_args(head_commit: &str, limit: usize, skip: usize) -> (r: Vec<String>)
    ensures
        strings(r@) == log_args(head_commit@, limit as nat, skip as nat),
{
    let r = vec![
        "log".to_owned(),
        "--decorate=short".to_owned(),
        "--date=iso-strict".to_owned(),
        "--pretty=format:".to_owned().concat("%H%x1f%h%x1f%D%x1f%an%x1f%ae%x1f%aI%x1f%s%x1e"),
        "-n".to_owned(),
        decimal_text(limit.saturating_add(1)),
        "--skip".to_owned(),
        decimal_text(skip),
        head_commit.to_owned(),
    ];
    assert(strings(r@) == log_args(head_commit@, limit as nat, skip as nat));
    r
}

/// The names in one part of a decoration: none in an empty part, both sides of an
/// arrow, the bare name of a tag, else the part itself.
pub open spec fn refs_of_part(part: Seq<char>) -> Seq<Seq<char>> {
    let name = trimmed(part, Margin::WhiteSpace);
    if name.len() == 0 {
        seq![]
    } else if first_match(name, " -> "@) is Some {
        let at = first_match(name, " -> "@)->0 as int;
        seq![
            trimmed(name.take(at), Margin::WhiteSpace),
            trimmed(name.skip(at + 4), Margin::WhiteSpace),
        ]
    } else if "tag: "@.is_prefix_of(name) {
        seq![trimmed(name.skip(5), Margin::WhiteSpace)]
    } else {
        seq![name]
    }
}

/// The names in a decoration, whose parts stand between commas.
pub open spec fn refs_of(decorations: Seq<char>) -> Seq<Seq<char>> {
    pieces(decorations, ',').flat_map(|part: Seq<char>| refs_of_part(part))
}

/// Adds the names in one part of a decoration.
fn push_refs_of_part(out: &mut Vec<String>, part: &Vec<char>)
    ensures
        strings(final(out)@) == strings(old(out)@) + refs_of_part(part@),
{
    proof {
        reveal_strlit(" -> ");
        reveal_strlit("tag: ");
    }
    let ghost before = strings(out@);
    let name = trim(part, Margin::WhiteSpace);
    if name.len() == 0 {
        assert(before + seq![] == before);
        return;
    }
    match find(&name, &chars_of(" -> ")) {
        Some(at) => {
            let head = slice_of(&name, 0, at);
            let branch = slice_of(&name, at + 4, name.len());
            assert(head@ == name@.take(at as int));
            assert(branch@ == name@.skip(at + 4));
            out.push(string_of(&trim(&head, Margin::WhiteSpace)));
            out.push(string_of(&trim(&branch, Margin::WhiteSpace)));
        },
        None => {
            let tag = chars_of("tag: ");
            if starts_with(&name, &tag) {
                let rest = slice_of(&name, 5, name.len());
                assert(rest@ == name@.skip(5));
                out.push(string_of(&trim(&rest, Margin::WhiteSpace)));
            } else {
                out.push(string_of(&name));
            }
        },
    }
    assert(strings(out@) == before + refs_of_part(part@));
}

/// The names in a decoration.
pub fn parse_git_log_refs(decorations: &str) -> (r: Vec<String>)
    ensures
        strings(r@) == refs_of(decorations@),
{
    let parts = split(&chars_of(decorations), ',');
    let ghost all = pieces(decorations@, ',');
    let ghost f = |part: Seq<char>| refs_of_part(part);
    let mut out: Vec<String> = Vec::new();
    let mut i: usize = 0;
    assert(strings(out@) == all.take(0).flat_map(f));
    while i < parts.len()
        invariant
            i <= parts@.len(),
            all == texts(parts@),
            f == |part: Seq<char>| refs_of_part(part),
            strings(out@) == all.take(i as int).flat_map(f),
        decreases parts@.len() - i,
    {
        push_refs_of_part(&mut out, &parts[i]);
        proof {
            all.lemma_flat_map_take_append(f, i as int);
        }
        i = i + 1;
    }
    assert(all.take(all.len() as int) == all);
    out
}

/// One commit of the log.
#[derive(Debug, PartialEq, Eq)]
pub struct GitCommit {
    pub hash: String,
    pub short_hash: String,
    pub subject: String,
    pub author_name: String,
    pub author_email: String,
    pub author_date: String,
    pub refs: Vec<String>,
}

/// The texts that a commit holds.
#[verifier::ext_equal]
pub struct GitCommitModel {
    pub hash: Seq<char>,
    pub short_hash: Seq<char>,
    pub subject: Seq<char>,
    pub author_name: Seq<char>,
    pub author_email: Seq<char>,
    pub author_date: Seq<char>,
    pub refs: Seq<Seq<char>>,
}

impl View for GitCommit {
    type V = GitCommitModel;

    open spec fn view(&self) -> GitCommitModel {
        GitCommitModel {
            hash: self.hash@,
            short_hash: self.short_hash@,
            subject: self.subject@,
            author_name: self.author_name@,
            author_email: self.author_email@,
            author_date: self.author_date@,
            refs: strings(self.refs@),
        }
    }
}

/// The commits that a vector holds.
pub open spec fn commits_model(v: Seq<GitCommit>) -> Seq<GitCommitModel> {
    v.map_values(|c: GitCommit| c@)
}

/// The reply where the output ends before a record does.
pub open spec fn cut_off_message() -> Seq<char> {
    "git log source ended inside a record; retry with a smaller limit"@
}

/// The reply where a record is not one that the format gives.
pub open spec fn malformed_message() -> Seq<char> {
    "git log source is incomplete or malformed; retry with a smaller limit"@
}

/// Whether the output ends before a record does: it holds something besides line
/// breaks at the end, and the last of that is no record separator.
pub open spec fn ends_inside_record(stdout: Seq<char>) -> bool {
    let text = trimmed_end(stdout, Margin::LineBreaks);
    text.len() > 0 && text.last() != GIT_LOG_RECORD_SEP
}

/// What stands between two record separators, without line breaks at its ends.
pub open spec fn record_texts(stdout: Seq<char>) -> Seq<Seq<char>> {
    pieces(stdout, GIT_LOG_RECORD_SEP).map_values(
        |piece: Seq<char>| trimmed(piece, Margin::LineBreaks),
    )
}

/// The records of the output: what stands between two record separators, without line
/// breaks at its ends, where that is not empty.
pub open spec fn records(stdout: Seq<char>) -> Seq<Seq<char>> {
    record_texts(stdout).filter(|record: Seq<char>| record.len() > 0)
}

/// The fields of a record; the last one may hold unit separators.
pub open spec fn fields(record: Seq<char>) -> Seq<Seq<char>> {
    pieces_at_most(record, GIT_LOG_FIELDS as nat, GIT_LOG_UNIT_SEP)
}

/// Whether a record has all fields and begins with an object id.
pub open spec fn is_commit_record(record: Seq<char>, is_object_id: spec_fn(Seq<char>) -> bool) -> bool {
    fields(record).len() == GIT_LOG_FIELDS && is_object_id(fields(record)[0])
}

/// The commit that a record stands for.
pub open spec fn commit_of(record: Seq<char>) -> GitCommitModel {
    let f = fields(record);
    GitCommitModel {
        hash: f[0],
        short_hash: f[1],
        subject: f[6],
        author_name: f[3],
        author_email: f[4],
        author_date: f[5],
        refs: refs_of(f[2]),
    }
}

/// What the output says about a page of at most `limit` commits: the commits of the
/// first records and whether there are more; or why it cannot be read. One record
/// behind the page is looked at too, and no other.
pub open spec fn read_page(
    stdout: Seq<char>,
    limit: nat,
    is_object_id: spec_fn(Seq<char>) -> bool,
) -> Result<(Seq<GitCommitModel>, bool), Seq<char>> {
    let all = records(stdout);
    if ends_inside_record(stdout) {
        Err(cut_off_message())
    } else if exists|i: int|
        0 <= i < all.len() && i <= limit && !is_commit_record(#[trigger] all[i], is_object_id) {
        Err(malformed_message())
    } else {
        let page = if all.len() <= limit {
            all
        } else {
            all.take(limit as int)
        };
        Ok((page.map_values(|record: Seq<char>| commit_of(record)), all.len() > limit))
    }
}

/// The commit that a record with all fields stands for.
fn commit_from(fields_of_record: &Vec<Vec<char>>) -> (r: GitCommit)
    requires
        fields_of_record@.len() == GIT_LOG_FIELDS,
    ensures
        forall|record: Seq<char>| fields(record) == texts(fields_of_record@) ==> r@ == #[trigger] commit_of(record),
{
    GitCommit {
        hash: string_of(&fields_of_record[0]),
        short_hash: string_of(&fields_of_record[1]),
        subject: string_of(&fields_of_record[6]),
        author_name: string_of(&fields_of_record[3]),
        author_email: string_of(&fields_of_record[4]),
        author_date: string_of(&fields_of_record[5]),
        refs: parse_git_log_refs(string_of(&fields_of_record[2]).as_str()),
    }
}

/// Reads a page of at most `limit` commits from the output of `git log`.
///
/// `is_object_id` is the rule for the names of git objects that the git tools share.
pub fn parse_git_log_commits<F: Fn(&str) -> bool>(
    stdout: &str,
    limit: usize,
    is_object_id: F,
) -> (r: Result<(Vec<GitCommit>, bool), &'static str>)
    requires
        is_rule(is_object_id),
    ensures
        match r {
            Ok((commits, truncated)) => read_page(stdout@, limit as nat, accepted(is_object_id))
                == Ok::<(Seq<GitCommitModel>, bool), Seq<char>>((commits_model(commits@), truncated)),
            Err(reason) => read_page(stdout@, limit as nat, accepted(is_object_id)) == Err::<
                (Seq<GitCommitModel>, bool),
                Seq<char>,
            >(reason@),
        },
{
    let chars = chars_of(stdout);
    let text = trim_end(&chars, Margin::LineBreaks);
    if text.len() > 0 && text[text.len() - 1] != GIT_LOG_RECORD_SEP {
        return Err("git log source ended inside a record; retry with a smaller limit");
    }
    let parts = split(&chars, GIT_LOG_RECORD_SEP);
    let ghost pieces_seq = record_texts(stdout@);
    let ghost some = |record: Seq<char>| record.len() > 0;
    let ghost all = records(stdout@);
    let ghost ok = accepted(is_object_id);
    let mut commits: Vec<GitCommit> = Vec::new();
    let mut i: usize = 0;
    proof {
        reveal(Seq::filter);
        assert(pieces_seq.take(0).filter(some) == Seq::<Seq<char>>::empty());
        assert(all.take(0) == Seq::<Seq<char>>::empty());
    }
    while i < parts.len()
        invariant
            is_rule(is_object_id),
            ok == accepted(is_object_id),
            !ends_inside_record(stdout@),
            some == |record: Seq<char>| record.len() > 0,
            pieces_seq == record_texts(stdout@),
            all == pieces_seq.filter(some),
            all == records(stdout@),
            texts(parts@) == pieces(stdout@, GIT_LOG_RECORD_SEP),
            i <= parts@.len(),
            parts@.len() == pieces_seq.len(),
            commits@.len() <= limit,
            commits@.len() <= all.len(),
            pieces_seq.take(i as int).filter(some) == all.take(commits@.len() as int),
            forall|k: int| 0 <= k < commits@.len() ==> is_commit_record(#[trigger] all[k], ok),
            commits_model(commits@) == all.take(commits@.len() as int).map_values(
                |record: Seq<char>| commit_of(record),
            ),
        decreases parts@.len() - i,
    {
        let record = trim(&parts[i], Margin::LineBreaks);
        let ghost n = commits@.len() as int;
        proof {
            assert(texts(parts@)[i as int] == parts@[i as int]@);
            assert(record@ == pieces_seq[i as int]);
            assert(pieces_seq.take(i + 1) == pieces_seq.take(i as int).push(record@));
            pieces_seq.take(i as int).lemma_filter_push(record@, some);
        }
        if record.len() > 0 {
            proof {
                lemma_filter_prefix(pieces_seq, some, i + 1);
                assert(pieces_seq.take(i + 1).filter(some) == all.take(n).push(record@));
                assert(all.take(n + 1)[n] == record@);
                assert(all[n] == record@);
                assert(all.take(n + 1) == all.take(n).push(record@));
            }
            let parsed = split_at_most(&record, GIT_LOG_FIELDS, GIT_LOG_UNIT_SEP);
            assert(texts(parsed@) == fields(record@));
            assert(parsed@.len() == fields(record@).len());
            if parsed.len() != GIT_LOG_FIELDS {
                assert(!is_commit_record(all[n], ok));
                return Err("git log source is incomplete or malformed; retry with a smaller limit");
            }
            let hash = string_of(&parsed[0]);
            assert(hash@ == fields(record@)[0]);
            let known = is_object_id(hash.as_str());
            assert(known == ok(hash@));
            if !known {
                assert(!is_commit_record(all[n], ok));
                return Err("git log source is incomplete or malformed; retry with a smaller limit");
            }
            if commits.len() >= limit {
                return Ok((commits, true));
            }
            let ghost before = commits_model(commits@);
            commits.push(commit_from(&parsed));
            proof {
                let f = |record: Seq<char>| commit_of(record);
                assert(commits_model(commits@) == before.push(commit_of(record@)));
                assert(all.take(n + 1).map_values(f) == all.take(n).map_values(f).push(f(record@)));
            }
        }
        i = i + 1;
    }
    proof {
        assert(pieces_seq.take(parts@.len() as int) == pieces_seq);
        assert(all.take(all.len() as int) == all);
        assert(all.len() == commits@.len());
    }
    Ok((commits, false))
}

/// What a filter keeps of a prefix is a prefix of what it keeps of the whole.
proof fn lemma_filter_prefix(s: Seq<Seq<char>>, keep: spec_fn(Seq<char>) -> bool, n: int)
    requires
        0 <= n <= s.len(),
    ensures
        s.take(n).filter(keep).len() <= s.filter(keep).len(),
        s.filter(keep).take(s.take(n).filter(keep).len() as int) == s.take(n).filter(keep),
{
    Seq::filter_distributes_over_add(s.take(n), s.skip(n), keep);
    assert(s == s.take(n) + s.skip(n));
}

} // verus!
