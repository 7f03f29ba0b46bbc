//! Line search: the lines of a text that hold a given query.
//!
//! A text is cut into lines at each line feed. A carriage return that stands
//! directly before a line feed belongs to the line ending; any other stays in
//! the line. A last line needs no line feed after it.

use vstd::prelude::*;
use vstd::string::StrSliceExecFns;

verus! {

/// What to search for, where, and how.
pub struct Config {
    /// The text to look for.
    pub query: String,
    /// The name of the file to search.
    pub file_name: String,
    /// Whether upper and lower case count as different.
    pub sensitive: bool,
}

/// Whether `needle` stands in `hay` at position `i`.
pub open spec fn occurs_at(hay: Seq<char>, needle: Seq<char>, i: int) -> bool {
    &&& 0 <= i
    &&& i + needle.len() <= hay.len()
    &&& hay.subrange(i, i + needle.len()) == needle
}

/// Whether `needle` stands somewhere in `hay`, as one unbroken piece. The
/// empty needle stands in every text.
pub open spec fn occurs(hay: Seq<char>, needle: Seq<char>) -> bool {
    exists|i: int| occurs_at(hay, needle, i)
}

/// The position of the first line feed in `s`, or the length of `s` where it
/// holds none.
pub open spec fn line_end(s: Seq<char>) -> int
    decreases s.len(),
{
    if s.len() == 0 || s[0] == '\n' {
        0
    } else {
        1 + line_end(s.skip(1))
    }
}

/// `line` without the carriage return at its end, if it ends in one.
pub open spec fn without_return(line: Seq<char>) -> Seq<char> {
    if line.len() > 0 && line.last() == '\r' {
        line.drop_last()
    } else {
        line
    }
}

/// The lines of `s`, without their line endings. A line ends at a line feed,
/// or at a carriage return directly followed by one. What follows the last
/// line feed is a line too, unless it is empty.
pub open spec fn lines(s: Seq<char>) -> Seq<Seq<char>>
    decreases s.len(),
{
    let n = line_end(s);
    if s.len() == 0 {
        Seq::empty()
    } else if n < 0 || n >= s.len() {
        seq![s]
    } else {
        seq![without_return(s.take(n))] + lines(s.skip(n + 1))
    }
}

/// The lower-case form of a text, as Unicode defines it.
pub uninterp spec fn lowercase(s: Seq<char>) -> Seq<char>;

/// Whether a line counts as a match for `query`: the query stands in the
/// line, or, where `fold` is set, in the line's lower-case form.
pub open spec fn hit(line: Seq<char>, query: Seq<char>, fold: bool) -> bool {
    if fold {
        occurs(lowercase(line), query)
    } else {
        occurs(line, query)
    }
}

/// The test that picks the lines matching `query`.
pub open spec fn picks(query: Seq<char>, fold: bool) -> spec_fn(Seq<char>) -> bool {
    |line: Seq<char>| hit(line, query, fold)
}

/// What each of the given string slices holds.
pub open spec fn texts(v: Seq<&str>) -> Seq<Seq<char>> {
    Seq::new(v.len(), |i: int| v[i]@)
}

/// `str::to_lowercase` of the standard library: the lower-case form of `s`.
/// Which characters it maps to which is left to the name `lowercase`.
#[verifier::external_body]
fn to_lowercase(s: &str) -> (r: String)
    ensures
        r@ == lowercase(s@),
{
    s.to_lowercase()
}

/// The characters of `s`, one by one.
fn chars_of(s: &str) -> (v: Vec<char>)
    ensures
        v@ == s@,
{
    let mut v: Vec<char> = Vec::new();
    for c in it: s.chars()
        invariant
            it.seq() == s@,
            v@ == it.seq().take(it.index() as int),
    {
        v.push(c);
        assert(it.seq().take(it.index() as int).push(c) =~= it.seq().take(it.index() + 1));
    }
    assert(v@ =~= s@);
    v
}

/// Whether `needle` stands somewhere in the part of `text` from `from` up
/// to, not including, `to`.
fn occurs_within(text: &Vec<char>, from: usize, to: usize, needle: &Vec<char>) -> (r: bool)
    requires
        from <= to <= text@.len(),
    ensures
        r == occurs(text@.subrange(from as int, to as int), needle@),
{
    let ghost hay = text@.subrange(from as int, to as int);
    let m = needle.len();
    let span = to - from;
    if m > span {
        assert forall|i: int| !occurs_at(hay, needle@, i) by {}
        return false;
    }
    let mut i: usize = 0;
    while i <= span - m
        invariant
            from <= to <= text@.len(),
            hay == text@.subrange(from as int, to as int),
            m == needle@.len(),
            span == to - from,
            m <= span,
            i <= span - m + 1,
            forall|j: int| 0 <= j < i ==> !occurs_at(hay, needle@, j),
        decreases span - m + 1 - i,
    {
        let mut k: usize = 0;
        while k < m && text[from + i + k] == needle[k]
            invariant
                from <= to <= text@.len(),
                hay == text@.subrange(from as int, to as int),
                m == needle@.len(),
                span == to - from,
                i + m <= span,
                k <= m,
                forall|t: int| 0 <= t < k ==> hay[i + t] == needle@[t],
            decreases m - k,
        {
            k += 1;
        }
        if k == m {
            assert(hay.subrange(i as int, i + m) =~= needle@);
            assert(occurs_at(hay, needle@, i as int));
            return true;
        }
        assert(!occurs_at(hay, needle@, i as int)) by {
            assert(hay[i + k] != needle@[k as int]);
            assert(hay.subrange(i as int, i + m)[k as int] == hay[i + k]);
        }
        i += 1;
    }
    assert forall|j: int| !occurs_at(hay, needle@, j) by {}
    false
}

/// Whether `needle` stands somewhere in `hay`.
pub fn contains(hay: &str, needle: &str) -> (r: bool)
    ensures
        r == occurs(hay@, needle@),
{
    let text = chars_of(hay);
    let looked_for = chars_of(needle);
    assert(text@.subrange(0, text@.len() as int) =~= text@);
    occurs_within(&text, 0, text.len(), &looked_for)
}

/// Where the first `k` characters of `s` are no line feed, and `s` stops
/// there or holds a line feed there, its first line ends at `k`.
proof fn lemma_line_end(s: Seq<char>, k: int)
    requires
        0 <= k <= s.len(),
        forall|j: int| 0 <= j < k ==> s[j] != '\n',
        k == s.len() || s[k] == '\n',
    ensures
        line_end(s) == k,
    decreases k,
{
    if k > 0 {
        let rest = s.skip(1);
        assert forall|j: int| 0 <= j < k - 1 implies rest[j] != '\n' by {
            assert(rest[j] == s[j + 1]);
        }
        lemma_line_end(rest, k - 1);
    }
}

/// The lines of `contents` that match `query`, in their order.
fn select<'a>(query: &Vec<char>, contents: &'a str, fold: bool) -> (r: Vec<&'a str>)
    ensures
        texts(r@) == lines(contents@).filter(picks(query@, fold)),
{
    let ghost p = picks(query@, fold);
    let text = chars_of(contents);
    let n = text.len();
    let mut out: Vec<&'a str> = Vec::new();
    let mut start: usize = 0;
    assert(text@.skip(0) =~= text@);
    assert(texts(out@) =~= Seq::<Seq<char>>::empty());
    assert(texts(out@) + lines(text@.skip(0)).filter(p) =~= lines(text@).filter(p));
    while start < n
        invariant
            n == text@.len(),
            text@ == contents@,
            start <= n,
            p == picks(query@, fold),
            texts(out@) + lines(text@.skip(start as int)).filter(p) == lines(text@).filter(p),
        decreases n - start,
    {
        let ghost rest = text@.skip(start as int);
        let mut end: usize = start;
        while end < n && text[end] != '\n'
            invariant
                n == text@.len(),
                start <= end <= n,
                forall|j: int| start <= j < end ==> text@[j] != '\n',
            decreases n - end,
        {
            end += 1;
        }
        proof {
            assert forall|j: int| 0 <= j < end - start implies rest[j] != '\n' by {
                assert(rest[j] == text@[start + j]);
            }
            lemma_line_end(rest, end - start);
        }
        let terminated = end < n;
        let stop = if terminated && end > start && text[end - 1] == '\r' {
            end - 1
        } else {
            end
        };
        let line: &'a str = contents.substring_char(start, stop);
        let ghost next: int = if terminated {
            end + 1
        } else {
            end as int
        };
        proof {
            if terminated {
                let whole = rest.take(end - start);
                assert(whole =~= text@.subrange(start as int, end as int));
                assert(line@ =~= without_return(whole));
                assert(rest.skip(end - start + 1) =~= text@.skip(next));
                assert(lines(rest) == seq![line@] + lines(text@.skip(next)));
            } else {
                assert(line@ =~= rest);
                assert(text@.skip(next).len() == 0);
                assert(lines(text@.skip(next)) =~= Seq::<Seq<char>>::empty());
                assert(lines(rest) =~= seq![line@] + lines(text@.skip(next)));
            }
            Seq::filter_distributes_over_add(seq![line@], lines(text@.skip(next)), p);
            assert(seq![line@] =~= Seq::<Seq<char>>::empty().push(line@));
            Seq::<Seq<char>>::empty().lemma_filter_push(line@, p);
            assert(Seq::<Seq<char>>::empty().filter(p) =~= Seq::<Seq<char>>::empty());
        }
        let found = if fold {
            let low = to_lowercase(line);
            contains_chars(low.as_str(), query)
        } else {
            assert(text@.subrange(start as int, stop as int) =~= line@);
            occurs_within(&text, start, stop, query)
        };
        assert(found == p(line@));
        if found {
            let ghost before = out@;
            out.push(line);
            assert(texts(out@) =~= texts(before).push(line@));
            assert(seq![line@].filter(p) =~= seq![line@]);
            assert(texts(out@) + lines(text@.skip(next)).filter(p) =~= texts(before) + (seq![
                line@,
            ] + lines(text@.skip(next)).filter(p)));
        } else {
            assert(seq![line@].filter(p) =~= Seq::<Seq<char>>::empty());
            assert(texts(out@) + lines(text@.skip(next)).filter(p) =~= texts(out@) + (
            Seq::<Seq<char>>::empty() + lines(text@.skip(next)).filter(p)));
        }
        start = if terminated {
            end + 1
        } else {
            end
        };
    }
    assert(lines(text@.skip(start as int)) =~= Seq::<Seq<char>>::empty());
    assert(texts(out@) + Seq::<Seq<char>>::empty().filter(p) =~= texts(out@));
    out
}

/// Whether `needle` stands somewhere in `hay`.
fn contains_chars(hay: &str, needle: &Vec<char>) -> (r: bool)
    ensures
        r == occurs(hay@, needle@),
{
    let text = chars_of(hay);
    assert(text@.subrange(0, text@.len() as int) =~= text@);
    occurs_within(&text, 0, text.len(), needle)
}

/// The lines of `contents` that hold `query`, in their order. Upper and
/// lower case count as different.
pub fn search<'a>(query: String, contents: &'a str) -> (r: Vec<&'a str>)
    ensures
        texts(r@) == lines(contents@).filter(picks(query@, false)),
{
    let looked_for = chars_of(query.as_str());
    select(&looked_for, contents, false)
}

/// The lines of `contents` whose lower-case form holds the lower-case form
/// of `query`, in their order. The lines come back as they stand in
/// `contents`.
pub fn search_case_insensitive<'a>(query: String, contents: &'a str) -> (r: Vec<&'a str>)
    ensures
        texts(r@) == lines(contents@).filter(picks(lowercase(query@), true)),
{
    let low = to_lowercase(query.as_str());
    let looked_for = chars_of(low.as_str());
    select(&looked_for, contents, true)
}

impl Config {
    /// A configuration from the arguments of a command line, taken in their
    /// order: first the query, then the file's name. `sensitive` says
    /// whether case counts. Fails with a message where one of the two
    /// arguments is missing.
    pub fn new(args: Vec<String>, sensitive: bool) -> (r: Result<Config, &'static str>)
        ensures
            match r {
                Ok(config) => {
                    &&& args@.len() >= 2
                    &&& config.query@ == args@[0]@
                    &&& config.file_name@ == args@[1]@
                    &&& config.sensitive == sensitive
                },
                Err(message) => {
                    &&& args@.len() < 2
                    &&& message@ == (if args@.len() == 0 {
                        "Didn't get a query string"@
                    } else {
                        "Didn't get a file name"@
                    })
                },
            },
    {
        if args.len() == 0 {
            return Err("Didn't get a query string");
        }
        if args.len() == 1 {
            return Err("Didn't get a file name");
        }
        Ok(Config { query: args[0].clone(), file_name: args[1].clone(), sensitive })
    }
}

/// The lines of `contents` that match the query of `config`: with case
/// counting where `config.sensitive` is set, without it otherwise.
pub fn run<'a>(config: &Config, contents: &'a str) -> (r: Vec<&'a str>)
    ensures
        config.sensitive ==> texts(r@) == lines(contents@).filter(picks(config.query@, false)),
        !config.sensitive ==> texts(r@) == lines(contents@).filter(
            picks(lowercase(config.query@), true),
        ),
{
    if config.sensitive {
        search(config.query.clone(), contents)
    } else {
        search_case_insensitive(config.query.clone(), contents)
    }
}

} // verus!
