use vstd::prelude::*;

verus! {

/// One `<digest>  <filename>` line of a checksum manifest.
#[derive(Debug)]
pub struct ManifestEntry {
    pub expected_digest: String,
    pub filename: String,
}

/// What a single manifest line amounts to.
#[derive(Debug)]
pub enum ParsedLine {
    /// An empty line or a `#` comment: no entry and no warning.
    Skipped,
    /// A line without the two-space separator: a warning, no entry.
    Malformed,
    Entry(ManifestEntry),
}

/// Empty lines and lines that start with `#` carry nothing.
pub open spec fn is_skipped(s: Seq<char>) -> bool {
    s.len() == 0 || s[0] == '#'
}

/// A two-space separator starts at `i`.
pub open spec fn has_sep_at(s: Seq<char>, i: int) -> bool {
    0 <= i && i + 1 < s.len() && s[i] == ' ' && s[i + 1] == ' '
}

/// The first separator at or after `i`, or -1.
pub open spec fn sep_from(s: Seq<char>, i: int) -> int
    decreases s.len() - i,
{
    if i < 0 || i + 1 >= s.len() {
        -1
    } else if has_sep_at(s, i) {
        i
    } else {
        sep_from(s, i + 1)
    }
}

/// The first separator of the line, or -1.
pub open spec fn sep_index(s: Seq<char>) -> int {
    sep_from(s, 0)
}

pub open spec fn is_malformed(s: Seq<char>) -> bool {
    !is_skipped(s) && sep_index(s) < 0
}

pub open spec fn is_entry(s: Seq<char>) -> bool {
    !is_skipped(s) && sep_index(s) >= 0
}

/// The text before the first separator.
pub open spec fn digest_part(s: Seq<char>) -> Seq<char> {
    s.subrange(0, sep_index(s))
}

/// The text after the first separator, taken literally.
pub open spec fn name_part(s: Seq<char>) -> Seq<char> {
    s.subrange(sep_index(s) + 2, s.len() as int)
}

/// `r` is what the line `s` parses to.
pub open spec fn parses_to(s: Seq<char>, r: ParsedLine) -> bool {
    if is_skipped(s) {
        r is Skipped
    } else if sep_index(s) < 0 {
        r is Malformed
    } else {
        &&& r is Entry
        &&& r->Entry_0.expected_digest@ == digest_part(s)
        &&& r->Entry_0.filename@ == name_part(s)
    }
}

/// Splits a manifest line at its first two-space separator.
pub fn parse_line(line: &str) -> (r: ParsedLine)
    ensures
        parses_to(line@, r),
{
    let n = line.unicode_len();
    if n == 0 {
        return ParsedLine::Skipped;
    }
    if line.get_char(0) == '#' {
        return ParsedLine::Skipped;
    }
    let mut i: usize = 0;
    while i + 1 < n
        invariant
            n == line@.len(),
            i < n,
            !is_skipped(line@),
            sep_index(line@) == sep_from(line@, i as int),
        decreases n - i,
    {
        if line.get_char(i) == ' ' && line.get_char(i + 1) == ' ' {
            assert(has_sep_at(line@, i as int));
            assert(sep_index(line@) == i);
            let digest = line.substring_char(0, i);
            let name = line.substring_char(i + 2, n);
            let r = ParsedLine::Entry(
                ManifestEntry {
                    expected_digest: String::from_str(digest),
                    filename: String::from_str(name),
                },
            );
            return r;
        }
        i = i + 1;
    }
    ParsedLine::Malformed
}

} // verus!
