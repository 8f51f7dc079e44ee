//! A small line-search utility: substring search, line splitting,
//! case-insensitive matching, and command-line parsing, each pinned
//! down by a contract.

use vstd::prelude::*;
use vstd::string::StrSliceExecFns;

use crate::push_char;

verus! {

/// Whether `needle` occurs in `hay` starting at position `i`.
pub open spec fn contains_at(hay: Seq<char>, needle: Seq<char>, i: int) -> bool {
    &&& 0 <= i
    &&& i + needle.len() <= hay.len()
    &&& hay.subrange(i, i + needle.len() as int) == needle
}

/// Whether `needle` occurs anywhere in `hay`.
pub open spec fn contains_seq(hay: Seq<char>, needle: Seq<char>) -> bool {
    exists|i: int| contains_at(hay, needle, i)
}

/// Linear substring search: whether `needle` occurs in `hay`.
pub fn contains_str(hay: &str, needle: &str) -> (b: bool)
    ensures
        b == contains_seq(hay@, needle@),
{
    let h = hay.unicode_len();
    let m = needle.unicode_len();
    if m > h {
        proof {
            assert forall|i: int| !contains_at(hay@, needle@, i) by {}
        }
        return false;
    }
    let mut i: usize = 0;
    while i <= h - m
        invariant
            h == hay@.len(),
            m == needle@.len(),
            m <= h,
            i <= h - m + 1,
            forall|k: int| 0 <= k < i ==> !contains_at(hay@, needle@, k),
        decreases h - m + 1 - i,
    {
        let mut j: usize = 0;
        let mut ok = true;
        while j < m && ok
            invariant
                h == hay@.len(),
                m == needle@.len(),
                m <= h,
                i <= h - m,
                j <= m,
                ok ==> forall|t: int| 0 <= t < j ==> hay@[i + t] == needle@[t],
                !ok ==> exists|t: int| 0 <= t < j && hay@[i + t] != needle@[t],
            decreases m - j,
        {
            if hay.get_char(i + j) != needle.get_char(j) {
                ok = false;
            }
            j += 1;
        }
        if ok {
            proof {
                assert(hay@.subrange(i as int, i + needle@.len() as int) =~= needle@);
                assert(contains_at(hay@, needle@, i as int));
            }
            return true;
        }
        proof {
            assert(!contains_at(hay@, needle@, i as int));
        }
        i += 1;
    }
    proof {
        assert forall|k: int| !contains_at(hay@, needle@, k) by {
            if 0 <= k < i {
            }
        }
    }
    false
}

/// The index of the first newline in `s`, if `s` has one.
pub open spec fn first_nl(s: Seq<char>) -> Option<int>
    decreases s.len(),
{
    if s.len() == 0 {
        None
    } else if s[0] == '\n' {
        Some(0)
    } else {
        match first_nl(s.skip(1)) {
            Some(j) => Some(j + 1),
            None => None,
        }
    }
}

/// `first_nl` finds exactly the first newline: when it returns an index,
/// that index holds a newline and nothing before it does; when it returns
/// nothing, `s` has no newline at all.
pub proof fn lemma_first_nl(s: Seq<char>)
    ensures
        first_nl(s) matches Some(j) ==> 0 <= j < s.len() && s[j] == '\n' && (forall|k: int|
            0 <= k < j ==> s[k] != '\n'),
        first_nl(s) is None ==> forall|k: int| 0 <= k < s.len() ==> s[k] != '\n',
    decreases s.len(),
{
    if s.len() > 0 && s[0] != '\n' {
        lemma_first_nl(s.skip(1));
        match first_nl(s.skip(1)) {
            Some(j1) => {
                assert(first_nl(s) == Some(j1 + 1));
                assert(s[j1 + 1] == s.skip(1)[j1]);
                assert forall|k: int| 0 <= k < j1 + 1 implies s[k] != '\n' by {
                    if k >= 1 {
                        assert(s[k] == s.skip(1)[k - 1]);
                    }
                }
            },
            None => {
                assert forall|k: int| 0 <= k < s.len() implies s[k] != '\n' by {
                    if k >= 1 {
                        assert(s[k] == s.skip(1)[k - 1]);
                    }
                }
            },
        }
    }
}

/// The first newline of a string known to have its first newline at `j`.
pub proof fn lemma_first_nl_at(s: Seq<char>, j: int)
    requires
        0 <= j < s.len(),
        s[j] == '\n',
        forall|k: int| 0 <= k < j ==> s[k] != '\n',
    ensures
        first_nl(s) == Some(j),
    decreases j,
{
    if j > 0 {
        assert(forall|k: int| 0 <= k < j - 1 ==> s.skip(1)[k] != '\n');
        lemma_first_nl_at(s.skip(1), j - 1);
    }
}

/// A line with its trailing carriage return removed, if it has one.
pub open spec fn drop_last_cr(t: Seq<char>) -> Seq<char> {
    if t.len() > 0 && t[t.len() - 1] == '\r' {
        t.drop_last()
    } else {
        t
    }
}

/// The lines of `s`: pieces separated by newlines, each stripped of one
/// trailing carriage return; a final newline ends the last line rather
/// than opening an empty one.
pub open spec fn split_lines(s: Seq<char>) -> Seq<Seq<char>>
    decreases s.len(),
{
    if s.len() == 0 {
        Seq::empty()
    } else {
        match first_nl(s) {
            Some(j) => if 0 <= j < s.len() {
                seq![drop_last_cr(s.take(j))] + split_lines(s.skip(j + 1))
            } else {
                seq![s]
            },
            None => seq![s],
        }
    }
}

/// The lines of `contents`, as slices of it, in order.
pub fn lines_of<'a>(contents: &'a str) -> (r: Vec<&'a str>)
    ensures
        r.deep_view() == split_lines(contents@),
{
    let ghost chars = contents@;
    let n = contents.unicode_len();
    let mut r: Vec<&'a str> = Vec::new();
    let mut start: usize = 0;
    let mut i: usize = 0;
    proof {
        assert(chars.skip(0) =~= chars);
        assert(r.deep_view() + split_lines(chars) =~~= split_lines(chars));
    }
    while i < n
        invariant
            n == chars.len(),
            contents@ == chars,
            start <= i <= n,
            forall|k: int| start <= k < i ==> chars[k] != '\n',
            split_lines(chars) == r.deep_view() + split_lines(chars.skip(start as int)),
        decreases n - i,
    {
        if contents.get_char(i) == '\n' {
            let end: usize = if i > start && contents.get_char(i - 1) == '\r' {
                i - 1
            } else {
                i
            };
            let line = contents.substring_char(start, end);
            proof {
                let suffix = chars.skip(start as int);
                assert(forall|k: int| 0 <= k < i - start ==> suffix[k] != '\n');
                lemma_first_nl_at(suffix, i - start);
                assert(suffix.take(i - start) =~= chars.subrange(start as int, i as int));
                assert(drop_last_cr(suffix.take(i - start)) =~= line@);
                assert(suffix.skip(i - start + 1) =~= chars.skip(i + 1));
                assert(split_lines(suffix) == seq![line@] + split_lines(chars.skip(i + 1)));
                assert(r.deep_view().push(line@) + split_lines(chars.skip(i + 1))
                    =~= r.deep_view() + split_lines(suffix));
            }
            r.push(line);
            start = i + 1;
        }
        i += 1;
    }
    if start < n {
        let line = contents.substring_char(start, n);
        proof {
            let suffix = chars.skip(start as int);
            lemma_first_nl(suffix);
            assert(suffix =~= line@);
            assert(split_lines(suffix) == seq![line@]);
            assert(r.deep_view().push(line@) =~= r.deep_view() + split_lines(suffix));
        }
        r.push(line);
    } else {
        proof {
            assert(chars.skip(start as int) =~= Seq::<char>::empty());
            assert(r.deep_view() + split_lines(chars.skip(start as int)) =~= r.deep_view());
        }
    }
    r
}

/// The lines of `contents` that contain `query`, in order.
pub fn search<'a>(query: &str, contents: &'a str) -> (r: Vec<&'a str>)
    ensures
        r.deep_view() == split_lines(contents@).filter(
            |l: Seq<char>| contains_seq(l, query@),
        ),
{
    let ghost pred = |l: Seq<char>| contains_seq(l, query@);
    let lines = lines_of(contents);
    let mut r: Vec<&'a str> = Vec::new();
    let mut k: usize = 0;
    while k < lines.len()
        invariant
            k <= lines.len(),
            lines.deep_view() == split_lines(contents@),
            lines.deep_view().len() == lines.len(),
            r.deep_view() == lines.deep_view().take(k as int).filter(pred),
            pred == (|l: Seq<char>| contains_seq(l, query@)),
        decreases lines.len() - k,
    {
        let line = lines[k];
        proof {
            assert(lines.deep_view()[k as int] == line@);
            assert(lines.deep_view().take(k + 1) =~= lines.deep_view().take(k as int).push(
                line@,
            ));
            lines.deep_view().take(k as int).lemma_filter_push(line@, pred);
            assert(pred(line@) == contains_seq(line@, query@));
        }
        if contains_str(line, query) {
            let ghost r_before = r.deep_view();
            r.push(line);
            proof {
                assert(r.deep_view() =~~= r_before.push(line@));
            }
        }
        k += 1;
    }
    proof {
        assert(lines.deep_view().take(lines.len() as int) =~= lines.deep_view());
    }
    r
}

/// The lowercase form of a sequence of characters, as Unicode defines it.
pub uninterp spec fn lower_of(s: Seq<char>) -> Seq<char>;

/// Relies on str::to_lowercase: the result depends on the characters alone.
#[verifier::external_body]
fn to_lowercase_str(s: &str) -> (r: String)
    ensures
        r@ == lower_of(s@),
{
    s.to_lowercase()
}

/// The lines of `contents` whose lowercase form contains the lowercase
/// form of `query`, in order.
pub fn search_case_insensitive<'a>(query: &str, contents: &'a str) -> (r: Vec<&'a str>)
    ensures
        r.deep_view() == split_lines(contents@).filter(
            |l: Seq<char>| contains_seq(lower_of(l), lower_of(query@)),
        ),
{
    let ghost pred = |l: Seq<char>| contains_seq(lower_of(l), lower_of(query@));
    let query_lower = to_lowercase_str(query);
    let lines = lines_of(contents);
    let mut r: Vec<&'a str> = Vec::new();
    let mut k: usize = 0;
    while k < lines.len()
        invariant
            k <= lines.len(),
            lines.deep_view() == split_lines(contents@),
            lines.deep_view().len() == lines.len(),
            query_lower@ == lower_of(query@),
            r.deep_view() == lines.deep_view().take(k as int).filter(pred),
            pred == (|l: Seq<char>| contains_seq(lower_of(l), lower_of(query@))),
        decreases lines.len() - k,
    {
        let line = lines[k];
        let line_lower = to_lowercase_str(line);
        proof {
            assert(lines.deep_view()[k as int] == line@);
            assert(lines.deep_view().take(k + 1) =~= lines.deep_view().take(k as int).push(
                line@,
            ));
            lines.deep_view().take(k as int).lemma_filter_push(line@, pred);
            assert(pred(line@) == contains_seq(lower_of(line@), lower_of(query@)));
        }
        if contains_str(line_lower.as_str(), query_lower.as_str()) {
            let ghost r_before = r.deep_view();
            r.push(line);
            proof {
                assert(r.deep_view() =~~= r_before.push(line@));
            }
        }
        k += 1;
    }
    proof {
        assert(lines.deep_view().take(lines.len() as int) =~= lines.deep_view());
    }
    r
}

/// How a search run is configured: what to look for, where, and whether
/// case matters.
pub struct Config {
    pub query: String,
    pub filename: String,
    pub case_sensitive: bool,
}

/// Whether every flag character (everything after the leading dash) is
/// the case-insensitivity flag `i`.
pub open spec fn flags_ok(t: Seq<char>) -> bool {
    forall|k: int| 0 <= k < t.len() ==> t[k] == 'i'
}

/// Whether `j` is the position of the first flag character that is not
/// the recognized `i`.
pub open spec fn first_bad_flag_at(t: Seq<char>, j: int) -> bool {
    &&& 0 <= j < t.len()
    &&& t[j] != 'i'
    &&& forall|k: int| 0 <= k < j ==> t[k] == 'i'
}

impl Config {
    /// Parses a command line. `args` holds the arguments as given,
    /// program name first; `env_case_insensitive` says whether the
    /// environment asks for case-insensitive searching. The second
    /// argument is the query; an argument holding a dash may follow,
    /// whose characters after the first each must be the flag `i`
    /// (forcing a case-insensitive search); the next argument is the
    /// file name. Extra arguments are ignored.
    #[verifier::loop_isolation(false)]
    pub fn new(args: &Vec<String>, env_case_insensitive: bool) -> (r: Result<Config, String>)
        ensures
            args.deep_view().len() <= 1 ==> (r matches Err(e) && e@
                == "Didn't get a query string."@),
            args.deep_view().len() == 2 ==> (r matches Err(e) && e@
                == "Didn't get a file name or argument list."@),
            args.deep_view().len() >= 3 && !contains_seq(args.deep_view()[2], "-"@) ==> (
            r matches Ok(c) && c.query@ == args.deep_view()[1] && c.filename@
                == args.deep_view()[2] && c.case_sensitive == !env_case_insensitive),
            args.deep_view().len() == 3 && contains_seq(args.deep_view()[2], "-"@) ==> (
            r matches Err(e) && e@ == "Didn't get a file name."@),
            args.deep_view().len() >= 4 && contains_seq(args.deep_view()[2], "-"@) && !flags_ok(
                args.deep_view()[2].skip(1),
            ) ==> (r matches Err(e) && exists|j: int|
                first_bad_flag_at(args.deep_view()[2].skip(1), j) && e@
                    == "Invalid argument: "@.push(args.deep_view()[2].skip(1)[j])),
            args.deep_view().len() >= 4 && contains_seq(args.deep_view()[2], "-"@) && flags_ok(
                args.deep_view()[2].skip(1),
            ) ==> (r matches Ok(c) && c.query@ == args.deep_view()[1] && c.filename@
                == args.deep_view()[3] && c.case_sensitive == (if args.deep_view()[2].len() > 1 {
                false
            } else {
                !env_case_insensitive
            })),
    {
        let ghost a = args.deep_view();
        proof {
            reveal_strlit("-");
            assert(forall|i: int| 0 <= i < args@.len() ==> a[i] == args@[i]@);
        }
        if args.len() <= 1 {
            return Err(String::from_str("Didn't get a query string."));
        }
        if args.len() == 2 {
            return Err(String::from_str("Didn't get a file name or argument list."));
        }
        let query = args[1].clone();
        let arg2 = &args[2];
        if !contains_str(arg2.as_str(), "-") {
            return Ok(
                Config {
                    query,
                    filename: arg2.clone(),
                    case_sensitive: !env_case_insensitive,
                },
            );
        }
        if args.len() == 3 {
            return Err(String::from_str("Didn't get a file name."));
        }
        let ghost t = a[2].skip(1);
        let flags = arg2.as_str();
        let n2 = flags.unicode_len();
        let mut idx: usize = 1;
        while idx < n2
            invariant
                1 <= idx <= n2,
                n2 == flags@.len(),
                flags@ == a[2],
                t == a[2].skip(1),
                forall|k: int| 0 <= k < idx - 1 ==> t[k] == 'i',
            decreases n2 - idx,
        {
            let c = flags.get_char(idx);
            proof {
                assert(t[idx - 1] == flags@[idx as int]);
            }
            if c != 'i' {
                let mut e = String::from_str("Invalid argument: ");
                push_char(&mut e, c);
                proof {
                    assert(first_bad_flag_at(t, idx - 1));
                }
                return Err(e);
            }
            idx += 1;
        }
        proof {
            assert(forall|k: int| 0 <= k < t.len() ==> t[k] == flags@[k + 1]);
            assert(flags_ok(t));
        }
        let case_sensitive = if n2 > 1 {
            false
        } else {
            !env_case_insensitive
        };
        Ok(Config { query, filename: args[3].clone(), case_sensitive })
    }
}

} // verus!
