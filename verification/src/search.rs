//! Line search: return every line of a text that contains a query string,
//! case-sensitively or case-insensitively.
//!
//! [`line_seq`] is the mathematical splitting of a text into lines — split
//! at `'\n'`, a `'\r'` directly before the split stripped, no empty line
//! after a final line ending — and [`has_sub`] is substring containment.
//! The two search functions return exactly the lines satisfying them.

use vstd::prelude::*;
use vstd::seq_lib::group_seq_lib_default;

verus! {

broadcast use group_seq_lib_default;

/// Program configuration for a line-search run: what to look for, where,
/// and whether case is ignored.
pub struct Config {
    /// The string to search for.
    pub query: String,
    /// The file whose contents are searched.
    pub file_path: String,
    /// Whether the search ignores case.
    pub ignore_case: bool,
}

impl Config {
    /// Build a configuration from command-line arguments: the first is the
    /// program name, the second the query, the third the file path. Fewer
    /// than three arguments are rejected. Whether case is ignored comes
    /// from the environment, so the caller reads it and passes it in.
    pub fn build(args: &[String], ignore_case: bool) -> (r: Result<Config, &'static str>)
        ensures
            r is Ok <==> args@.len() >= 3,
            r matches Ok(c) ==> c.query@ == args@[1]@ && c.file_path@ == args@[2]@
                && c.ignore_case == ignore_case,
            r matches Err(m) ==> m@ == "Not enough arguments."@,
    {
        if args.len() < 3 {
            return Err("Not enough arguments.");
        }
        let query = args[1].clone();
        let file_path = args[2].clone();
        Ok(Config { query, file_path, ignore_case })
    }
}

/// `needle` occurs contiguously somewhere in `hay`. The empty needle
/// occurs in everything.
pub open spec fn has_sub(hay: Seq<char>, needle: Seq<char>) -> bool {
    exists|k: int|
        0 <= k <= hay.len() - needle.len() && #[trigger] hay.subrange(k, k + needle.len() as int)
            == needle
}

/// Index of the first `'\n'` in `s`, or `s.len()` if there is none.
pub open spec fn first_newline(s: Seq<char>) -> int
    decreases s.len(),
{
    if s.len() == 0 {
        0
    } else if s[0] == '\n' {
        0
    } else {
        1 + first_newline(s.drop_first())
    }
}

/// A `'\r'` standing directly before a line split is not part of the line.
pub open spec fn strip_cr(line: Seq<char>) -> Seq<char> {
    if line.len() > 0 && line.last() == '\r' {
        line.drop_last()
    } else {
        line
    }
}

/// `first_newline` stays within the sequence.
pub proof fn lemma_first_newline_bounds(s: Seq<char>)
    ensures
        0 <= first_newline(s) <= s.len(),
    decreases s.len(),
{
    if s.len() != 0 && s[0] != '\n' {
        lemma_first_newline_bounds(s.drop_first());
    }
}

/// The lines of a text: split at every `'\n'`, strip a `'\r'` directly
/// before the split, and let a final line ending close the last line
/// rather than open an empty one. A final line without a line ending is
/// taken whole.
pub open spec fn line_seq(s: Seq<char>) -> Seq<Seq<char>>
    decreases s.len(),
    via line_seq_decreases
{
    if s.len() == 0 {
        Seq::empty()
    } else {
        let i = first_newline(s);
        if i == s.len() {
            seq![s]
        } else {
            seq![strip_cr(s.subrange(0, i))] + line_seq(s.subrange(i + 1, s.len() as int))
        }
    }
}

#[via_fn]
proof fn line_seq_decreases(s: Seq<char>) {
    if s.len() != 0 {
        lemma_first_newline_bounds(s);
    }
}

/// The character sequences behind a sequence of string slices.
pub open spec fn str_views(v: Seq<&str>) -> Seq<Seq<char>> {
    v.map_values(|s: &str| s@)
}

/// `first_newline` returns the scan position: the index of the newline
/// found, or the length when none was.
proof fn lemma_first_newline(s: Seq<char>, k: int)
    requires
        0 <= k <= s.len(),
        forall|j: int| 0 <= j < k ==> s[j] != '\n',
        k < s.len() ==> s[k] == '\n',
    ensures
        first_newline(s) == k,
    decreases k,
{
    if k == 0 {
    } else {
        lemma_first_newline(s.drop_first(), k - 1);
    }
}

/// The characters of a string, as a vector.
fn chars_vec(s: &str) -> (v: Vec<char>)
    ensures
        v@ =~= s@,
{
    let n = s.unicode_len();
    let mut v: Vec<char> = Vec::new();
    let mut i: usize = 0;
    while i < n
        invariant
            i <= n,
            n == s@.len(),
            v@ =~= s@.subrange(0, i as int),
        decreases n - i,
    {
        v.push(s.get_char(i));
        i = i + 1;
    }
    v
}

/// Whether `needle` occurs contiguously in `hay`.
fn contains_chars(hay: &Vec<char>, needle: &Vec<char>) -> (r: bool)
    ensures
        r == has_sub(hay@, needle@),
{
    let hlen = hay.len();
    let nlen = needle.len();
    if nlen > hlen {
        return false;
    }
    let mut k: usize = 0;
    while k <= hlen - nlen
        invariant
            nlen <= hlen,
            hlen == hay@.len(),
            nlen == needle@.len(),
            k <= hlen - nlen + 1,
            forall|kk: int|
                0 <= kk < k ==> #[trigger] hay@.subrange(kk, kk + nlen as int) != needle@,
        decreases hlen - nlen + 1 - k,
    {
        let mut j: usize = 0;
        while j < nlen && hay[k + j] == needle[j]
            invariant
                nlen <= hlen,
                hlen == hay@.len(),
                nlen == needle@.len(),
                k <= hlen - nlen,
                j <= nlen,
                forall|jj: int| 0 <= jj < j ==> hay@[k + jj] == needle@[jj],
            decreases nlen - j,
        {
            j = j + 1;
        }
        if j == nlen {
            proof {
                assert(hay@.subrange(k as int, k + nlen as int) =~= needle@);
            }
            return true;
        }
        proof {
            assert(hay@.subrange(k as int, k + nlen as int)[j as int] == hay@[k + j]);
        }
        k = k + 1;
    }
    proof {
        if has_sub(hay@, needle@) {
            let kk = choose|kk: int|
                0 <= kk <= hay@.len() - needle@.len() && #[trigger] hay@.subrange(
                    kk,
                    kk + needle@.len() as int,
                ) == needle@;
            assert(false);
        }
    }
    false
}

/// Whether `needle` occurs contiguously in `hay`.
fn str_contains(hay: &str, needle: &str) -> (r: bool)
    ensures
        r == has_sub(hay@, needle@),
{
    let hv = chars_vec(hay);
    let nv = chars_vec(needle);
    contains_chars(&hv, &nv)
}

/// The lowercase image of a character sequence, as `str::to_lowercase`
/// computes it: a function of the characters alone.
pub uninterp spec fn lower_of(s: Seq<char>) -> Seq<char>;

/// Relies on str::to_lowercase: returns the lowercase equivalent of the
/// string slice, determined by its characters alone.
#[verifier::external_body]
fn lowercase(s: &str) -> (r: String)
    ensures
        r@ == lower_of(s@),
{
    s.to_lowercase()
}

/// The lines of `contents`, as borrowed slices, in order.
fn line_slices<'a>(contents: &'a str) -> (slices: Vec<&'a str>)
    ensures
        str_views(slices@) =~= line_seq(contents@),
{
    let n = contents.unicode_len();
    let cv = chars_vec(contents);
    let mut slices: Vec<&'a str> = Vec::new();
    let mut start: usize = 0;
    proof {
        assert(contents@.subrange(0, n as int) =~= contents@);
        assert(str_views(slices@) =~= Seq::<Seq<char>>::empty());
    }
    while start < n
        invariant
            start <= n,
            n == contents@.len(),
            cv@ =~= contents@,
            line_seq(contents@) =~= str_views(slices@) + line_seq(
                contents@.subrange(start as int, n as int),
            ),
        decreases n - start,
    {
        let ghost suffix = contents@.subrange(start as int, n as int);
        let ghost old_slices = slices@;
        let mut end: usize = start;
        while end < n && cv[end] != '\n'
            invariant
                start <= end <= n,
                n == contents@.len(),
                cv@ =~= contents@,
                forall|j: int| start <= j < end ==> contents@[j] != '\n',
            decreases n - end,
        {
            end = end + 1;
        }
        proof {
            assert forall|j: int| 0 <= j < end - start implies suffix[j] != '\n' by {
                assert(suffix[j] == contents@[start + j]);
            }
            if end < n {
                assert(suffix[end - start] == contents@[end as int]);
            }
            lemma_first_newline(suffix, end - start);
        }
        if end == n {
            let line = contents.substring_char(start, n);
            slices.push(line);
            proof {
                assert(line@ =~= suffix);
                assert(line_seq(suffix) =~= seq![suffix]);
                assert(str_views(slices@) =~= str_views(old_slices).push(suffix));
                assert(line_seq(contents@.subrange(n as int, n as int)) =~= Seq::empty());
            }
            start = n;
        } else {
            let line_end = if end > start && cv[end - 1] == '\r' {
                end - 1
            } else {
                end
            };
            let line = contents.substring_char(start, line_end);
            slices.push(line);
            proof {
                let raw = suffix.subrange(0, end - start);
                assert(raw =~= contents@.subrange(start as int, end as int));
                assert(line@ =~= strip_cr(raw)) by {
                    if end > start && contents@[end - 1] == '\r' {
                        assert(raw.last() == contents@[end - 1]);
                        assert(strip_cr(raw) =~= contents@.subrange(start as int, end - 1));
                    } else {
                        if raw.len() > 0 {
                            assert(raw.last() == contents@[end - 1]);
                        }
                        assert(strip_cr(raw) =~= raw);
                    }
                };
                assert(suffix.subrange(end - start + 1, suffix.len() as int) =~= contents@.subrange(
                    end + 1,
                    n as int,
                ));
                assert(line_seq(suffix) =~= seq![strip_cr(raw)] + line_seq(
                    contents@.subrange(end + 1, n as int),
                ));
                assert(str_views(slices@) =~= str_views(old_slices).push(strip_cr(raw)));
            }
            start = end + 1;
        }
    }
    proof {
        assert(line_seq(contents@.subrange(n as int, n as int)) =~= Seq::empty());
    }
    slices
}

/// Every line of `contents` that contains `query`, in order.
#[verifier::loop_isolation(false)]
pub fn search<'a>(query: &str, contents: &'a str) -> (results: Vec<&'a str>)
    ensures
        str_views(results@) == line_seq(contents@).filter(
            |l: Seq<char>| has_sub(l, query@),
        ),
{
    let ghost pred = |l: Seq<char>| has_sub(l, query@);
    let lines = line_slices(contents);
    let mut results: Vec<&'a str> = Vec::new();
    let mut i: usize = 0;
    while i < lines.len()
        invariant
            i <= lines@.len(),
            str_views(lines@) =~= line_seq(contents@),
            str_views(results@) == str_views(lines@).take(i as int).filter(pred),
        decreases lines@.len() - i,
    {
        let ghost old_results = results@;
        let line = lines[i];
        if str_contains(line, query) {
            results.push(line);
        }
        proof {
            let prefix = str_views(lines@).take(i as int);
            assert(str_views(lines@).take(i + 1) =~~= prefix.push(line@));
            prefix.lemma_filter_push(line@, pred);
            if pred(line@) {
                assert(str_views(results@) =~~= str_views(old_results).push(line@));
            }
        }
        i = i + 1;
    }
    proof {
        assert(str_views(lines@).take(lines@.len() as int) =~~= str_views(lines@));
    }
    results
}

/// Every line of `contents` that contains `query` when both are folded to
/// lowercase, in order. The lines returned keep their original case.
#[verifier::loop_isolation(false)]
pub fn search_case_insensitive<'a>(query: &str, contents: &'a str) -> (results: Vec<&'a str>)
    ensures
        str_views(results@) == line_seq(contents@).filter(
            |l: Seq<char>| has_sub(lower_of(l), lower_of(query@)),
        ),
{
    let ghost pred = |l: Seq<char>| has_sub(lower_of(l), lower_of(query@));
    let lowered_query = lowercase(query);
    let lines = line_slices(contents);
    let mut results: Vec<&'a str> = Vec::new();
    let mut i: usize = 0;
    while i < lines.len()
        invariant
            i <= lines@.len(),
            str_views(lines@) =~= line_seq(contents@),
            lowered_query@ == lower_of(query@),
            str_views(results@) == str_views(lines@).take(i as int).filter(pred),
        decreases lines@.len() - i,
    {
        let ghost old_results = results@;
        let line = lines[i];
        let lowered_line = lowercase(line);
        if str_contains(lowered_line.as_str(), lowered_query.as_str()) {
            results.push(line);
        }
        proof {
            let prefix = str_views(lines@).take(i as int);
            assert(str_views(lines@).take(i + 1) =~~= prefix.push(line@));
            prefix.lemma_filter_push(line@, pred);
            if pred(line@) {
                assert(str_views(results@) =~~= str_views(old_results).push(line@));
            }
        }
        i = i + 1;
    }
    proof {
        assert(str_views(lines@).take(lines@.len() as int) =~~= str_views(lines@));
    }
    results
}

} // verus!
