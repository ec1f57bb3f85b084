//! Facts about the library as a whole, proved from the contracts of its
//! functions.
use crate::cli::HashType;
use crate::digest::{
    chars_eq_ignore_ascii_case, digest_of, eq_ignore_ascii_case, hash_line_of, is_lower_hex,
    is_lower_hex_char,
};
use crate::manifest::{
    digest_part, has_sep_at, is_entry, is_malformed, is_skipped, name_part, sep_from,
};
use crate::verification::{
    final_component, is_verified, lemma_match_from_bounds, match_index, outcome_of, planned, run_failed,
    target_of, unmatched, unmatched_upto, warned, FileRead, Outcome, Target,
};
use vstd::prelude::*;

verus! {

/// Digesting is deterministic: equal bytes give equal digests, under every
/// algorithm.
pub proof fn lemma_digest_deterministic(alg: HashType, a: Seq<u8>, b: Seq<u8>)
    requires
        a == b,
    ensures
        digest_of(alg, a) == digest_of(alg, b),
{
}

proof fn lemma_sep_after_digest(s: Seq<char>, i: int, n: int)
    requires
        0 <= i <= n,
        has_sep_at(s, n),
        forall|j: int| i <= j < n ==> s[j] != ' ',
    ensures
        sep_from(s, i) == n,
    decreases n - i,
{
    if i < n {
        lemma_sep_after_digest(s, i + 1, n);
    }
}

/// A `<digest>  <file>` line whose digest is lowercase hex parses back into
/// that digest and that file name.
pub proof fn lemma_hash_line_parses(digest: Seq<char>, file: Seq<char>)
    requires
        is_lower_hex(digest),
    ensures
        is_entry(hash_line_of(digest, file)),
        digest_part(hash_line_of(digest, file)) == digest,
        name_part(hash_line_of(digest, file)) == file,
{
    let s = hash_line_of(digest, file);
    let n = digest.len() as int;
    assert(s[n] == ' ' && s[n + 1] == ' ');
    assert forall|j: int| 0 <= j < n implies s[j] != ' ' by {
        assert(is_lower_hex_char(digest[j]));
    }
    lemma_sep_after_digest(s, 0, n);
    if n > 0 {
        assert(is_lower_hex_char(digest[0]));
    }
    assert(!is_skipped(s));
    assert(digest_part(s) =~= digest);
    assert(name_part(s) =~= file);
}

/// Round trip: the line that `hash` prints for a file, read back as a
/// one-line manifest with that same file requested, gives exactly one check,
/// of that file, with outcome `Passed`, and leaves no requested file
/// uncovered.
pub proof fn lemma_hash_then_verify_passes(
    alg: HashType,
    data: Seq<u8>,
    digest: Seq<char>,
    file: Seq<char>,
    read: FileRead,
    r: Outcome,
)
    requires
        digest == digest_of(alg, data),
        is_lower_hex(digest),
        read is Contents,
        read->Contents_0@ == data,
        outcome_of(read, digest, alg, r),
    ensures
        planned(seq![hash_line_of(digest, file)], seq![file]) == seq![
            (0usize, digest, file, Target::Requested(0)),
        ],
        unmatched(seq![hash_line_of(digest, file)], seq![file]).len() == 0,
        r is Passed,
{
    let lines = seq![hash_line_of(digest, file)];
    let files = seq![file];
    lemma_hash_line_parses(digest, file);
    assert(lines.drop_last() =~= Seq::<Seq<char>>::empty());
    assert(match_index(files, file) == 0);
    assert(target_of(files, file) == Some(Target::Requested(0)));
    assert(planned(lines.drop_last(), files) =~= Seq::empty());
    assert(lines.last() == hash_line_of(digest, file));
    let pl = planned(lines, files);
    assert(pl =~= seq![(0usize, digest, file, Target::Requested(0))]);
    assert(is_verified(pl, files, 0)) by {
        assert(pl[0].3 is Requested);
    }
    assert(unmatched_upto(pl, files, 0) =~= Seq::<usize>::empty());
}

/// `upper` is `s` with each ASCII lowercase letter turned uppercase.
pub open spec fn is_ascii_uppercase_of(upper: Seq<char>, s: Seq<char>) -> bool {
    &&& upper.len() == s.len()
    &&& forall|i: int|
        0 <= i < s.len() ==> if 97 <= #[trigger] s[i] as u32 && s[i] as u32 <= 122 {
            upper[i] as u32 + 32 == s[i] as u32
        } else {
            upper[i] == s[i]
        }
}

/// Case does not matter: an expected digest written in uppercase passes
/// against a file whose digest it is.
pub proof fn lemma_uppercase_digest_passes(
    alg: HashType,
    read: FileRead,
    expected: Seq<char>,
    r: Outcome,
)
    requires
        read is Contents,
        is_ascii_uppercase_of(expected, digest_of(alg, read->Contents_0@)),
        outcome_of(read, expected, alg, r),
    ensures
        r is Passed,
{
    let d = digest_of(alg, read->Contents_0@);
    assert forall|i: int| 0 <= i < d.len() implies #[trigger] chars_eq_ignore_ascii_case(
        d[i],
        expected[i],
    ) by {
    }
    assert(eq_ignore_ascii_case(d, expected));
}

/// A malformed line adds a warning and nothing else: appending one to a
/// manifest leaves the checks and the uncovered requested files as they were.
pub proof fn lemma_malformed_line_ignored(
    lines: Seq<Seq<char>>,
    files: Seq<Seq<char>>,
    bad: Seq<char>,
)
    requires
        is_malformed(bad),
    ensures
        planned(lines.push(bad), files) == planned(lines, files),
        unmatched(lines.push(bad), files) == unmatched(lines, files),
        warned(lines.push(bad)) == warned(lines).push(lines.len() as usize),
{
    assert(lines.push(bad).drop_last() =~= lines);
}

/// Each planned check stands for an entry line of the manifest, and a check
/// against a requested file shares that entry's final path component.
pub proof fn lemma_planned_from_entries(lines: Seq<Seq<char>>, files: Seq<Seq<char>>)
    requires
        lines.len() <= usize::MAX,
        files.len() <= usize::MAX,
    ensures
        forall|p: int|
            #![trigger planned(lines, files)[p]]
            0 <= p < planned(lines, files).len() ==> {
                let c = planned(lines, files)[p];
                &&& (c.0 as int) < lines.len()
                &&& is_entry(lines[c.0 as int])
                &&& c.2 == name_part(lines[c.0 as int])
                &&& (c.3 is Requested ==> (c.3->Requested_0 as int) < files.len()
                    && final_component(files[c.3->Requested_0 as int]) == final_component(c.2))
            },
    decreases lines.len(),
{
    if lines.len() > 0 {
        let prev = lines.drop_last();
        lemma_planned_from_entries(prev, files);
        let s = lines.last();
        if is_entry(s) && target_of(files, name_part(s)) is Some && files.len() > 0 {
            lemma_match_from_bounds(files, name_part(s), 0);
        }
        assert forall|p: int|
            #![trigger planned(lines, files)[p]]
            0 <= p < planned(lines, files).len() implies {
                let c = planned(lines, files)[p];
                &&& (c.0 as int) < lines.len()
                &&& is_entry(lines[c.0 as int])
                &&& c.2 == name_part(lines[c.0 as int])
                &&& (c.3 is Requested ==> (c.3->Requested_0 as int) < files.len()
                    && final_component(files[c.3->Requested_0 as int]) == final_component(c.2))
            } by {
            if p < planned(prev, files).len() {
                assert(planned(lines, files)[p] == planned(prev, files)[p]);
                assert(lines[planned(prev, files)[p].0 as int] == prev[planned(prev, files)[p].0 as int]);
            } else {
                assert(planned(lines, files)[p] == (
                    (lines.len() - 1) as usize,
                    digest_part(s),
                    name_part(s),
                    target_of(files, name_part(s))->Some_0,
                ));
            }
        }
    }
}

proof fn lemma_unmatched_contains(
    checks: Seq<(usize, Seq<char>, Seq<char>, Target)>,
    files: Seq<Seq<char>>,
    k: int,
    n: int,
)
    requires
        0 <= k < n,
        !is_verified(checks, files, k),
    ensures
        unmatched_upto(checks, files, n).contains(k as usize),
    decreases n,
{
    if n - 1 == k {
        assert(unmatched_upto(checks, files, n).last() == k as usize);
    } else {
        lemma_unmatched_contains(checks, files, k, n - 1);
        let prev = unmatched_upto(checks, files, n - 1);
        let i = choose|i: int| 0 <= i < prev.len() && prev[i] == k as usize;
        if !is_verified(checks, files, n - 1) {
            assert(unmatched_upto(checks, files, n)[i] == k as usize);
        }
    }
}

/// A requested file whose final path component no manifest entry declares
/// is reported as not in the manifest, and the run fails whatever the
/// outcomes of the checks.
pub proof fn lemma_uncovered_request_fails(
    lines: Seq<Seq<char>>,
    files: Seq<Seq<char>>,
    k: int,
    outcomes: Seq<Outcome>,
)
    requires
        lines.len() <= usize::MAX,
        files.len() <= usize::MAX,
        0 <= k < files.len(),
        forall|i: int|
            0 <= i < lines.len() && is_entry(#[trigger] lines[i]) ==> final_component(
                name_part(lines[i]),
            ) != final_component(files[k]),
    ensures
        unmatched(lines, files).contains(k as usize),
        run_failed(outcomes, unmatched(lines, files).len()),
{
    let pl = planned(lines, files);
    lemma_planned_from_entries(lines, files);
    if is_verified(pl, files, k) {
        let p = choose|p: int|
            #![trigger pl[p]]
            0 <= p < pl.len() && pl[p].3 is Requested && (pl[p].3->Requested_0 as int)
                < files.len() && files[pl[p].3->Requested_0 as int] == files[k];
        assert(is_entry(lines[pl[p].0 as int]));
    }
    lemma_unmatched_contains(pl, files, k, files.len() as int);
}

/// A file that is missing on disk has outcome `NotFound`, and the run fails.
pub proof fn lemma_missing_file_fails(
    expected: Seq<char>,
    alg: HashType,
    outcomes: Seq<Outcome>,
    i: int,
    uncovered: nat,
)
    requires
        0 <= i < outcomes.len(),
        outcome_of(FileRead::Missing, expected, alg, outcomes[i]),
    ensures
        outcomes[i] is NotFound,
        run_failed(outcomes, uncovered),
{
}

/// A file whose digest differs from the declared one has outcome `Failed`,
/// and the run fails.
pub proof fn lemma_mismatch_fails(
    read: FileRead,
    expected: Seq<char>,
    alg: HashType,
    outcomes: Seq<Outcome>,
    i: int,
    uncovered: nat,
)
    requires
        0 <= i < outcomes.len(),
        read is Contents,
        !eq_ignore_ascii_case(digest_of(alg, read->Contents_0@), expected),
        outcome_of(read, expected, alg, outcomes[i]),
    ensures
        outcomes[i] is Failed,
        run_failed(outcomes, uncovered),
{
}

/// When every check passes and every requested file is covered, the run
/// succeeds.
pub proof fn lemma_all_passing_succeeds(outcomes: Seq<Outcome>)
    requires
        forall|i: int| 0 <= i < outcomes.len() ==> #[trigger] outcomes[i] is Passed,
    ensures
        !run_failed(outcomes, 0),
{
}

} // verus!
