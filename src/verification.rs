use crate::cli::HashType;
use crate::digest::{digest_of, eq_ignore_ascii_case, verify_file};
use crate::manifest::{
    digest_part, is_entry, is_malformed, name_part, parse_line, ManifestEntry,
    ParsedLine,
};
use vstd::prelude::*;

verus! {

/// The position of the last `/` before position `i`, or -1.
pub open spec fn last_slash_before(s: Seq<char>, i: int) -> int
    decreases i,
{
    if i <= 0 || i > s.len() {
        -1
    } else if s[i - 1] == '/' {
        i - 1
    } else {
        last_slash_before(s, i - 1)
    }
}

/// The final component of a path: the text after its last `/`, or the whole
/// path where it has none. Only `/` separates components.
pub open spec fn final_component(s: Seq<char>) -> Seq<char> {
    s.subrange(last_slash_before(s, s.len() as int) + 1, s.len() as int)
}

pub proof fn lemma_last_slash_bounds(s: Seq<char>, i: int)
    requires
        0 <= i <= s.len(),
    ensures
        -1 <= last_slash_before(s, i) < i,
    decreases i,
{
    if i > 0 && s[i - 1] != '/' {
        lemma_last_slash_bounds(s, i - 1);
    }
}

/// The final component of `path`.
pub fn final_component_of(path: &str) -> (r: String)
    ensures
        r@ == final_component(path@),
{
    let n = path.unicode_len();
    let mut i: usize = n;
    while i > 0 && path.get_char(i - 1) != '/'
        invariant
            i <= n,
            n == path@.len(),
            last_slash_before(path@, n as int) == last_slash_before(path@, i as int),
        decreases i,
    {
        i = i - 1;
    }
    String::from_str(path.substring_char(i, n))
}

/// The label under which a requested file is reported: its final component,
/// or the whole path where that component is empty.
pub open spec fn requested_label(s: Seq<char>) -> Seq<char> {
    if final_component(s).len() > 0 {
        final_component(s)
    } else {
        s
    }
}

/// The label of a requested file.
pub fn unmatched_label(file: &str) -> (r: String)
    ensures
        r@ == requested_label(file@),
{
    let name = final_component_of(file);
    if name.as_str().unicode_len() > 0 {
        name
    } else {
        String::from_str(file)
    }
}

pub open spec fn views(v: Seq<String>) -> Seq<Seq<char>> {
    v.map_values(|s: String| s@)
}

/// The first requested file at or after `j` whose final component equals
/// that of `name`, or -1.
pub open spec fn match_from(files: Seq<Seq<char>>, name: Seq<char>, j: int) -> int
    decreases files.len() - j,
{
    if j < 0 || j >= files.len() {
        -1
    } else if final_component(files[j]) == final_component(name) {
        j
    } else {
        match_from(files, name, j + 1)
    }
}

pub open spec fn match_index(files: Seq<Seq<char>>, name: Seq<char>) -> int {
    match_from(files, name, 0)
}

pub proof fn lemma_match_from_bounds(files: Seq<Seq<char>>, name: Seq<char>, j: int)
    requires
        0 <= j,
    ensures
        match_from(files, name, j) == -1 || (j <= match_from(files, name, j) < files.len()
            && final_component(files[match_from(files, name, j)]) == final_component(name)),
    decreases files.len() - j,
{
    if j < files.len() && final_component(files[j]) != final_component(name) {
        lemma_match_from_bounds(files, name, j + 1);
    }
}

/// Which file a manifest entry is checked against.
#[derive(Clone, Copy, Debug, PartialEq, Eq, Structural)]
pub enum Target {
    /// The declared filename, relative to the manifest's directory.
    Declared,
    /// The requested file at this index.
    Requested(usize),
}

/// The target of an entry declaring `name`, or `None` where the entry is not
/// selected: with no requested files every entry is checked at its declared
/// path; otherwise against the first requested file with the same final
/// component.
pub open spec fn target_of(files: Seq<Seq<char>>, name: Seq<char>) -> Option<Target> {
    if files.len() == 0 {
        Some(Target::Declared)
    } else if match_index(files, name) >= 0 {
        Some(Target::Requested(match_index(files, name) as usize))
    } else {
        None
    }
}

/// Looks up the requested file that a manifest entry declaring `filename`
/// stands for.
pub fn find_requested(files: &Vec<String>, filename: &str) -> (r: Option<usize>)
    ensures
        match r {
            Some(j) => j < files.len() && match_index(views(files@), filename@) == j as int,
            None => match_index(views(files@), filename@) == -1,
        },
{
    let name = final_component_of(filename);
    let mut j: usize = 0;
    while j < files.len()
        invariant
            j <= files.len(),
            name@ == final_component(filename@),
            match_index(views(files@), filename@) == match_from(views(files@), filename@, j as int),
        decreases files.len() - j,
    {
        let candidate = final_component_of(files[j].as_str());
        if candidate == name {
            proof {
                lemma_match_from_bounds(views(files@), filename@, 0);
            }
            return Some(j);
        }
        j = j + 1;
    }
    None
}

/// A selected manifest entry: its line (counted from 0), the entry, and the
/// file that it is checked against.
#[derive(Debug)]
pub struct Check {
    pub line: usize,
    pub entry: ManifestEntry,
    pub target: Target,
}

impl View for Check {
    type V = (usize, Seq<char>, Seq<char>, Target);

    open spec fn view(&self) -> (usize, Seq<char>, Seq<char>, Target) {
        (self.line, self.entry.expected_digest@, self.entry.filename@, self.target)
    }
}

/// The checks that the manifest lines call for, in manifest order.
pub open spec fn planned(lines: Seq<Seq<char>>, files: Seq<Seq<char>>) -> Seq<
    (usize, Seq<char>, Seq<char>, Target),
>
    decreases lines.len(),
{
    if lines.len() == 0 {
        Seq::empty()
    } else {
        let prev = planned(lines.drop_last(), files);
        let s = lines.last();
        if is_entry(s) && target_of(files, name_part(s)) is Some {
            prev.push(
                (
                    (lines.len() - 1) as usize,
                    digest_part(s),
                    name_part(s),
                    target_of(files, name_part(s))->Some_0,
                ),
            )
        } else {
            prev
        }
    }
}

/// The indices of the malformed lines, in order.
pub open spec fn warned(lines: Seq<Seq<char>>) -> Seq<usize>
    decreases lines.len(),
{
    if lines.len() == 0 {
        Seq::empty()
    } else if is_malformed(lines.last()) {
        warned(lines.drop_last()).push((lines.len() - 1) as usize)
    } else {
        warned(lines.drop_last())
    }
}

/// Some check targets a requested file equal to the `k`-th one.
pub open spec fn is_verified(
    checks: Seq<(usize, Seq<char>, Seq<char>, Target)>,
    files: Seq<Seq<char>>,
    k: int,
) -> bool {
    exists|p: int|
        #![trigger checks[p]]
        0 <= p < checks.len() && checks[p].3 is Requested && (checks[p].3->Requested_0 as int)
            < files.len() && files[checks[p].3->Requested_0 as int] == files[k]
}

/// The indices below `n` of the requested files that no check covers.
pub open spec fn unmatched_upto(
    checks: Seq<(usize, Seq<char>, Seq<char>, Target)>,
    files: Seq<Seq<char>>,
    n: int,
) -> Seq<usize>
    decreases n,
{
    if n <= 0 {
        Seq::empty()
    } else if !is_verified(checks, files, n - 1) {
        unmatched_upto(checks, files, n - 1).push((n - 1) as usize)
    } else {
        unmatched_upto(checks, files, n - 1)
    }
}

/// The requested files that no manifest entry covers.
pub open spec fn unmatched(lines: Seq<Seq<char>>, files: Seq<Seq<char>>) -> Seq<usize> {
    unmatched_upto(planned(lines, files), files, files.len() as int)
}

/// What a manifest calls for: the checks to run, the malformed lines, and the
/// requested files that it does not cover.
#[derive(Debug)]
pub struct Plan {
    pub checks: Vec<Check>,
    pub warnings: Vec<usize>,
    pub unmatched: Vec<usize>,
}

/// Works out, from the manifest's lines and the requested files, which
/// entries to check and against which file, which lines are malformed, and
/// which requested files the manifest does not cover.
pub fn plan_checks(lines: &Vec<String>, files: &Vec<String>) -> (r: Plan)
    ensures
        r.checks@.map_values(|c: Check| c@) == planned(views(lines@), views(files@)),
        r.warnings@ == warned(views(lines@)),
        r.unmatched@ == unmatched(views(lines@), views(files@)),
{
    let ghost lv = views(lines@);
    let ghost fv = views(files@);
    let mut seen: Vec<bool> = Vec::new();
    let mut j: usize = 0;
    while j < files.len()
        invariant
            j <= files.len(),
            seen@.len() == j,
            forall|q: int| 0 <= q < j ==> !seen@[q],
        decreases files.len() - j,
    {
        seen.push(false);
        j = j + 1;
    }
    let mut checks: Vec<Check> = Vec::new();
    let mut warnings: Vec<usize> = Vec::new();
    let mut i: usize = 0;
    while i < lines.len()
        invariant
            i <= lines.len(),
            lv == views(lines@),
            fv == views(files@),
            seen@.len() == files.len(),
            checks@.map_values(|c: Check| c@) == planned(lv.take(i as int), fv),
            warnings@ == warned(lv.take(i as int)),
            forall|p: int|
                #![trigger checks@[p]]
                0 <= p < checks.len() && checks@[p].target is Requested ==> (
                checks@[p].target->Requested_0 as int) < files.len()
                    && seen@[checks@[p].target->Requested_0 as int],
            forall|q: int|
                #![trigger seen@[q]]
                0 <= q < seen.len() && seen@[q] ==> exists|p: int|
                    0 <= p < checks.len() && #[trigger] checks@[p].target == Target::Requested(
                        q as usize,
                    ),
        decreases lines.len() - i,
    {
        proof {
            assert(lv.take(i + 1).drop_last() =~= lv.take(i as int));
            assert(lv.take(i + 1).last() == lines@[i as int]@);
        }
        let ghost old_checks = checks@;
        let parsed = parse_line(lines[i].as_str());
        match parsed {
            ParsedLine::Skipped => {},
            ParsedLine::Malformed => {
                warnings.push(i);
            },
            ParsedLine::Entry(entry) => {
                if files.len() == 0 {
                    let c = Check { line: i, entry, target: Target::Declared };
                    checks.push(c);
                    proof {
                        assert(checks@.map_values(|c: Check| c@) =~= old_checks.map_values(
                            |c: Check| c@,
                        ).push(c@));
                    }
                } else {
                    match find_requested(files, entry.filename.as_str()) {
                        Some(j) => {
                            seen.set(j, true);
                            let c = Check { line: i, entry, target: Target::Requested(j) };
                            checks.push(c);
                            proof {
                                assert(checks@.map_values(|c: Check| c@) =~= old_checks.map_values(
                                    |c: Check| c@,
                                ).push(c@));
                                assert(checks@[checks.len() - 1].target == Target::Requested(j));
                                assert forall|q: int|
                                    #![trigger seen@[q]]
                                    0 <= q < seen.len() && seen@[q] implies exists|p: int|
                                        0 <= p < checks.len() && #[trigger] checks@[p].target
                                            == Target::Requested(q as usize) by {
                                    if q != j {
                                        let p = choose|p: int|
                                            0 <= p < old_checks.len() && #[trigger] old_checks[p].target
                                                == Target::Requested(q as usize);
                                        assert(checks@[p] == old_checks[p]);
                                    }
                                }
                            }
                        },
                        None => {},
                    }
                }
            },
        }
        i = i + 1;
    }
    proof {
        assert(lv.take(lines.len() as int) =~= lv);
    }
    let ghost pl = planned(lv, fv);
    let mut unmatched: Vec<usize> = Vec::new();
    let mut k: usize = 0;
    while k < files.len()
        invariant
            k <= files.len(),
            fv == views(files@),
            seen@.len() == files.len(),
            pl == checks@.map_values(|c: Check| c@),
            unmatched@ == unmatched_upto(pl, fv, k as int),
            forall|p: int|
                #![trigger checks@[p]]
                0 <= p < checks.len() && checks@[p].target is Requested ==> (
                checks@[p].target->Requested_0 as int) < files.len()
                    && seen@[checks@[p].target->Requested_0 as int],
            forall|q: int|
                #![trigger seen@[q]]
                0 <= q < seen.len() && seen@[q] ==> exists|p: int|
                    0 <= p < checks.len() && #[trigger] checks@[p].target == Target::Requested(
                        q as usize,
                    ),
        decreases files.len() - k,
    {
        let mut found = false;
        let mut q: usize = 0;
        while q < files.len()
            invariant
                q <= files.len(),
                k < files.len(),
                fv == views(files@),
                seen@.len() == files.len(),
                found <==> exists|qq: int| 0 <= qq < q && #[trigger] seen@[qq] && fv[qq] == fv[k as int],
            decreases files.len() - q,
        {
            if seen[q] && files[q] == files[k] {
                found = true;
            }
            q = q + 1;
        }
        proof {
            if found {
                let qq = choose|qq: int| 0 <= qq < q && #[trigger] seen@[qq] && fv[qq] == fv[k as int];
                let p = choose|p: int|
                    0 <= p < checks.len() && #[trigger] checks@[p].target == Target::Requested(
                        qq as usize,
                    );
                assert(pl[p] == checks@[p]@);
                assert(is_verified(pl, fv, k as int));
            }
            if is_verified(pl, fv, k as int) {
                let p = choose|p: int|
                    #![trigger pl[p]]
                    0 <= p < pl.len() && pl[p].3 is Requested && (pl[p].3->Requested_0 as int)
                        < fv.len() && fv[pl[p].3->Requested_0 as int] == fv[k as int];
                assert(pl[p] == checks@[p]@);
                assert(seen@[pl[p].3->Requested_0 as int]);
            }
        }
        if !found {
            unmatched.push(k);
        }
        k = k + 1;
    }
    Plan { checks, warnings, unmatched }
}

/// What reading a file to check gave.
#[derive(Debug)]
pub enum FileRead {
    Contents(Vec<u8>),
    /// The file does not exist.
    Missing,
    /// Any other failure to open or read it, with its description.
    Unreadable(String),
}

/// The result of checking one file.
#[derive(Debug)]
pub enum Outcome {
    /// The recomputed digest equals the declared one.
    Passed,
    /// The recomputed digest differs from the declared one.
    Failed,
    NotFound,
    ReadError(String),
}

/// `r` is the outcome of checking a file read as `read` against `expected`.
pub open spec fn outcome_of(read: FileRead, expected: Seq<char>, alg: HashType, r: Outcome) -> bool {
    match read {
        FileRead::Contents(data) => if eq_ignore_ascii_case(digest_of(alg, data@), expected) {
            r is Passed
        } else {
            r is Failed
        },
        FileRead::Missing => r is NotFound,
        FileRead::Unreadable(msg) => r is ReadError && r->ReadError_0@ == msg@,
    }
}

/// Judges one file: its digest against the expected one, or why it could not
/// be read.
pub fn check_outcome(read: &FileRead, expected_hash: &str, hash_type: &HashType) -> (r: Outcome)
    ensures
        outcome_of(*read, expected_hash@, *hash_type, r),
{
    match read {
        FileRead::Contents(data) => {
            if verify_file(data.as_slice(), expected_hash, hash_type) {
                Outcome::Passed
            } else {
                Outcome::Failed
            }
        },
        FileRead::Missing => Outcome::NotFound,
        FileRead::Unreadable(msg) => Outcome::ReadError(msg.clone()),
    }
}

/// The run failed: some outcome is not `Passed`, or some requested file was not
/// in the manifest.
pub open spec fn run_failed(outcomes: Seq<Outcome>, unmatched: nat) -> bool {
    unmatched > 0 || exists|i: int| 0 <= i < outcomes.len() && !(#[trigger] outcomes[i] is Passed)
}

/// Folds the outcomes and the count of uncovered requested files into the
/// aggregate failure flag.
pub fn had_failure(outcomes: &Vec<Outcome>, unmatched: usize) -> (r: bool)
    ensures
        r == run_failed(outcomes@, unmatched as nat),
{
    let mut failed = unmatched > 0;
    let mut i: usize = 0;
    while i < outcomes.len()
        invariant
            i <= outcomes.len(),
            failed == (unmatched > 0 || exists|j: int|
                0 <= j < i && !(#[trigger] outcomes@[j] is Passed)),
        decreases outcomes.len() - i,
    {
        match &outcomes[i] {
            Outcome::Passed => {},
            _ => {
                failed = true;
            },
        }
        i = i + 1;
    }
    failed
}

/// The status text that follows a label in the report.
pub open spec fn status_text(o: Outcome) -> Seq<char> {
    match o {
        Outcome::Passed => ":  OK"@,
        Outcome::Failed => ": FAILED"@,
        Outcome::NotFound => ": NOT FOUND"@,
        Outcome::ReadError(_) => ": FAILED open or read"@,
    }
}

/// The report line for a checked file: its label, then its status.
pub fn outcome_line(label: &str, outcome: &Outcome) -> (r: String)
    ensures
        r@ == label@ + status_text(*outcome),
{
    let mut line = String::from_str(label);
    match outcome {
        Outcome::Passed => {
            line.append(":  OK");
        },
        Outcome::Failed => {
            line.append(": FAILED");
        },
        Outcome::NotFound => {
            line.append(": NOT FOUND");
        },
        Outcome::ReadError(_) => {
            line.append(": FAILED open or read");
        },
    }
    line
}

/// The report line for a requested file that the manifest does not cover.
pub fn uncovered_line(file: &str) -> (r: String)
    ensures
        r@ == requested_label(file@) + ": NOT FOUND in checksum file"@,
{
    let mut line = unmatched_label(file);
    line.append(": NOT FOUND in checksum file");
    line
}

} // verus!
