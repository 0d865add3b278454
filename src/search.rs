//! Line search: the lines of a text that contain a query, with or without
//! regard to case.
use vstd::prelude::*;
use vstd::string::*;

verus! {

/// What a search is asked to do.
pub struct Config {
    pub query: String,
    pub file_path: String,
    pub case_sensitive: bool,
}

impl Config {
    /// Reads a query and a file path from the command-line arguments, the
    /// first of which is the program's name. `case_sensitive` tells whether
    /// the search must respect case.
    pub fn build(args: Vec<String>, case_sensitive: bool) -> (r: Result<Config, &'static str>)
        ensures
            args@.len() >= 3 <==> r is Ok,
            r matches Ok(c) ==> c.query@ == args@[1]@ && c.file_path@ == args@[2]@
                && c.case_sensitive == case_sensitive,
            args@.len() < 2 ==> r == Err::<Config, &'static str>("Didn't get a query string"),
            args@.len() == 2 ==> r == Err::<Config, &'static str>("Didn't get a file path"),
    {
        if args.len() < 2 {
            return Err("Didn't get a query string");
        }
        if args.len() < 3 {
            return Err("Didn't get a file path");
        }
        let query = args[1].clone();
        let file_path = args[2].clone();
        Ok(Config { query, file_path, case_sensitive })
    }
}

/// Whether `needle` occurs in `hay` as a contiguous run of characters.
pub open spec fn contains_seq(hay: Seq<char>, needle: Seq<char>) -> bool {
    exists|i: int| 0 <= i <= hay.len() - needle.len() && #[trigger] hay.subrange(i, i + needle.len()) == needle
}

/// Index of the first line feed in `s`, or its length when it holds none.
pub open spec fn line_end(s: Seq<char>) -> nat
    decreases s.len(),
{
    if s.len() == 0 {
        0
    } else if s[0] == '\n' {
        0
    } else {
        1 + line_end(s.drop_first())
    }
}

/// A line's text without its terminator: a line that ended with a line
/// feed also loses a carriage return right before it.
pub open spec fn strip_line(s: Seq<char>, terminated: bool) -> Seq<char> {
    if terminated && s.len() > 0 && s.last() == '\r' {
        s.drop_last()
    } else {
        s
    }
}

/// The lines of `s`: split at each line feed, a final line feed being
/// optional, each line without its terminator.
pub open spec fn lines_of(s: Seq<char>) -> Seq<Seq<char>>
    decreases s.len(),
{
    if s.len() == 0 {
        Seq::empty()
    } else {
        let e = line_end(s);
        if e < s.len() {
            seq![strip_line(s.subrange(0, e as int), true)] + lines_of(s.subrange((e + 1) as int, s.len() as int))
        } else {
            seq![strip_line(s, false)]
        }
    }
}

/// Lowercase mapping of a string, as std's `str::to_lowercase` computes it.
pub uninterp spec fn lower_of(s: Seq<char>) -> Seq<char>;

/// Relies on `str::to_lowercase`: the result depends on the characters alone.
#[verifier::external_body]
fn lowercase(s: &str) -> (r: String)
    ensures
        r@ == lower_of(s@),
{
    s.to_lowercase()
}

proof fn lemma_line_end(s: Seq<char>, j: int)
    requires
        0 <= j <= s.len(),
        forall|k: int| 0 <= k < j ==> s[k] != '\n',
        j == s.len() || s[j] == '\n',
    ensures
        line_end(s) == j,
    decreases j,
{
    if j > 0 {
        assert(s[0] != '\n');
        lemma_line_end(s.drop_first(), j - 1);
    }
}

/// The characters of `s`, in order.
pub(crate) fn chars_of(s: &str) -> (r: Vec<char>)
    ensures
        r@ == s@,
{
    let mut r: Vec<char> = Vec::new();
    for c in it: s.chars()
        invariant
            it.seq() == s@,
            r@ == it.seq().subrange(0, it.index() as int),
    {
        r.push(c);
    }
    r
}

/// Whether `needle` occurs in `hay` starting at `i`.
fn matches_at(hay: &Vec<char>, lo: usize, hi: usize, needle: &Vec<char>, i: usize) -> (r: bool)
    requires
        lo <= i,
        i + needle@.len() <= hi <= hay@.len(),
    ensures
        r == (hay@.subrange(i as int, i + needle@.len()) == needle@),
{
    let mut k: usize = 0;
    while k < needle.len()
        invariant
            k <= needle@.len(),
            i + needle@.len() <= hi <= hay@.len(),
            forall|x: int| 0 <= x < k ==> hay@[i + x] == needle@[x],
        decreases needle@.len() - k,
    {
        if hay[i + k] != needle[k] {
            assert(hay@.subrange(i as int, i + needle@.len())[k as int] != needle@[k as int]);
            return false;
        }
        k = k + 1;
    }
    assert(hay@.subrange(i as int, i + needle@.len()) =~= needle@);
    true
}

/// Whether `needle` occurs in `hay[lo..hi]`.
fn contains_in(hay: &Vec<char>, lo: usize, hi: usize, needle: &Vec<char>) -> (r: bool)
    requires
        lo <= hi <= hay@.len(),
    ensures
        r == contains_seq(hay@.subrange(lo as int, hi as int), needle@),
{
    let ghost h = hay@.subrange(lo as int, hi as int);
    if needle.len() > hi - lo {
        return false;
    }
    let last = hi - needle.len();
    let mut i: usize = lo;
    while i <= last
        invariant
            lo <= i,
            last + needle@.len() == hi,
            hi <= hay@.len(),
            h == hay@.subrange(lo as int, hi as int),
            forall|x: int| 0 <= x < i - lo ==> #[trigger] h.subrange(x, x + needle@.len()) != needle@,
        decreases last + 1 - i,
    {
        if matches_at(hay, lo, hi, needle, i) {
            assert(h.subrange(i - lo, i - lo + needle@.len()) =~= hay@.subrange(i as int, i + needle@.len()));
            return true;
        }
        assert(h.subrange(i - lo, i - lo + needle@.len()) =~= hay@.subrange(i as int, i + needle@.len()));
        if i == last {
            return false;
        }
        i = i + 1;
    }
    false
}

/// Whether `needle` occurs in `haystack`.
pub fn contains(haystack: &str, needle: &str) -> (r: bool)
    ensures
        r == contains_seq(haystack@, needle@),
{
    let h = chars_of(haystack);
    let n = chars_of(needle);
    assert(h@.subrange(0, h@.len() as int) =~= h@);
    contains_in(&h, 0, h.len(), &n)
}

/// The texts of a sequence of string slices.
pub open spec fn texts(v: Seq<&str>) -> Seq<Seq<char>> {
    v.map_values(|l: &str| l@)
}

/// The lines of `contents`, as slices of it.
fn split_lines<'a>(contents: &'a str) -> (r: Vec<&'a str>)
    ensures
        texts(r@) == lines_of(contents@),
{
    let cs = chars_of(contents);
    let n = cs.len();
    let mut r: Vec<&'a str> = Vec::new();
    let mut start: usize = 0;
    assert(cs@.subrange(0, n as int) =~= cs@);
    while start < n
        invariant
            start <= n,
            n == cs@.len(),
            cs@ == contents@,
            lines_of(contents@) == texts(r@) + lines_of(cs@.subrange(start as int, n as int)),
        decreases n - start,
    {
        let mut j: usize = start;
        while j < n && cs[j] != '\n'
            invariant
                start <= j <= n,
                n == cs@.len(),
                forall|k: int| start <= k < j ==> cs@[k] != '\n',
            decreases n - j,
        {
            j = j + 1;
        }
        let mut end: usize = j;
        if j < n && j > start && cs[j - 1] == '\r' {
            end = j - 1;
        }
        let line = contents.substring_char(start, end);
        let ghost before = r@;
        r.push(line);
        proof {
            let sub = cs@.subrange(start as int, n as int);
            lemma_line_end(sub, j - start);
            assert(sub.subrange(0, j - start) =~= cs@.subrange(start as int, j as int));
            assert(texts(r@) =~= texts(before).push(line@));
            if j < n {
                assert(sub.subrange(j - start + 1, sub.len() as int) =~= cs@.subrange(j + 1, n as int));
                assert(line@ =~= strip_line(sub.subrange(0, j - start), true));
            } else {
                assert(line@ =~= strip_line(sub, false));
                assert(cs@.subrange(n as int, n as int) =~= Seq::<char>::empty());
            }
        }
        if j < n {
            start = j + 1;
        } else {
            start = n;
        }
    }
    assert(texts(r@) + lines_of(cs@.subrange(n as int, n as int)) =~= texts(r@));
    r
}

/// The lines of `contents` that contain `query`, in order.
pub fn search<'a>(query: &str, contents: &'a str) -> (r: Vec<&'a str>)
    ensures
        texts(r@) == lines_of(contents@).filter(|l: Seq<char>| contains_seq(l, query@)),
{
    let lines = split_lines(contents);
    let mut r: Vec<&'a str> = Vec::new();
    let mut i: usize = 0;
    while i < lines.len()
        invariant
            i <= lines@.len(),
            texts(lines@) == lines_of(contents@),
            texts(r@) == texts(lines@).subrange(0, i as int).filter(
                |l: Seq<char>| contains_seq(l, query@),
            ),
        decreases lines@.len() - i,
    {
        let ghost before = r@;
        let line = lines[i];
        if contains(line, query) {
            r.push(line);
        }
        proof {
            reveal(Seq::filter);
            let all = texts(lines@);
            assert(all.subrange(0, i + 1).drop_last() =~= all.subrange(0, i as int));
            assert(all.subrange(0, i + 1).last() == line@);
            assert(texts(before.push(line)) =~= texts(before).push(line@));
        }
        i = i + 1;
    }
    assert(texts(lines@).subrange(0, lines@.len() as int) =~= texts(lines@));
    r
}

/// The texts of a sequence of strings.
pub open spec fn string_texts(v: Seq<String>) -> Seq<Seq<char>> {
    v.map_values(|s: String| s@)
}

/// The lines kept by a folded query: each line whose folded text, the entry
/// at the same position of `folded`, contains `q`, in order.
pub open spec fn kept(lines: Seq<Seq<char>>, folded: Seq<Seq<char>>, q: Seq<char>) -> Seq<Seq<char>>
    decreases lines.len(),
{
    if lines.len() == 0 {
        Seq::empty()
    } else {
        let prev = kept(lines.drop_last(), folded.drop_last(), q);
        if contains_seq(folded.last(), q) {
            prev.push(lines.last())
        } else {
            prev
        }
    }
}

/// Keeping the lines whose lowercased text holds the lowercased query is
/// filtering by that same test.
proof fn lemma_kept_is_filter(lines: Seq<Seq<char>>, folded: Seq<Seq<char>>, q: Seq<char>)
    requires
        lines.len() == folded.len(),
        forall|i: int| 0 <= i < lines.len() ==> folded[i] == lower_of(lines[i]),
    ensures
        kept(lines, folded, lower_of(q)) == lines.filter(
            |l: Seq<char>| contains_seq(lower_of(l), lower_of(q)),
        ),
    decreases lines.len(),
{
    reveal(Seq::filter);
    if lines.len() > 0 {
        let n = lines.len() - 1;
        assert(folded.last() == lower_of(lines.last()));
        assert forall|i: int| 0 <= i < lines.drop_last().len() implies folded.drop_last()[i]
            == lower_of(lines.drop_last()[i]) by {
            assert(folded.drop_last()[i] == folded[i]);
            assert(lines.drop_last()[i] == lines[i]);
        }
        lemma_kept_is_filter(lines.drop_last(), folded.drop_last(), q);
    }
}

/// The lines whose folded text contains `folded_query`, in order: line `i`
/// is kept when `folded[i]` contains it.
pub fn select_lines<'a>(lines: &Vec<&'a str>, folded: &Vec<String>, folded_query: &str) -> (r: Vec<&'a str>)
    requires
        lines@.len() == folded@.len(),
    ensures
        texts(r@) == kept(texts(lines@), string_texts(folded@), folded_query@),
{
    let mut r: Vec<&'a str> = Vec::new();
    let mut i: usize = 0;
    while i < lines.len()
        invariant
            i <= lines@.len(),
            lines@.len() == folded@.len(),
            texts(r@) == kept(
                texts(lines@).subrange(0, i as int),
                string_texts(folded@).subrange(0, i as int),
                folded_query@,
            ),
        decreases lines@.len() - i,
    {
        let ghost before = r@;
        let line = lines[i];
        if contains(folded[i].as_str(), folded_query) {
            r.push(line);
        }
        proof {
            let all = texts(lines@);
            let fs = string_texts(folded@);
            assert(all.subrange(0, i + 1).drop_last() =~= all.subrange(0, i as int));
            assert(fs.subrange(0, i + 1).drop_last() =~= fs.subrange(0, i as int));
            assert(all.subrange(0, i + 1).last() == line@);
            assert(fs.subrange(0, i + 1).last() == folded@[i as int]@);
            assert(texts(before.push(line)) =~= texts(before).push(line@));
        }
        i = i + 1;
    }
    assert(texts(lines@).subrange(0, lines@.len() as int) =~= texts(lines@));
    assert(string_texts(folded@).subrange(0, lines@.len() as int) =~= string_texts(folded@));
    r
}

/// The lines of `contents` that contain `query` once both are lowercased,
/// in order.
pub fn search_case_insensitive<'a>(query: &str, contents: &'a str) -> (r: Vec<&'a str>)
    ensures
        texts(r@) == lines_of(contents@).filter(
            |l: Seq<char>| contains_seq(lower_of(l), lower_of(query@)),
        ),
{
    let folded_query = lowercase(query);
    let lines = split_lines(contents);
    let mut folded: Vec<String> = Vec::new();
    let mut i: usize = 0;
    while i < lines.len()
        invariant
            i <= lines@.len(),
            folded@.len() == i,
            forall|k: int| 0 <= k < i ==> folded@[k]@ == lower_of(texts(lines@)[k]),
        decreases lines@.len() - i,
    {
        folded.push(lowercase(lines[i]));
        i = i + 1;
    }
    let r = select_lines(&lines, &folded, folded_query.as_str());
    proof {
        lemma_kept_is_filter(texts(lines@), string_texts(folded@), query@);
    }
    r
}

/// The lines of `contents` that the search `config` asks for: those
/// containing its query, respecting case or not as it says.
pub fn search_with<'a>(config: &Config, contents: &'a str) -> (r: Vec<&'a str>)
    ensures
        config.case_sensitive ==> texts(r@) == lines_of(contents@).filter(
            |l: Seq<char>| contains_seq(l, config.query@),
        ),
        !config.case_sensitive ==> texts(r@) == lines_of(contents@).filter(
            |l: Seq<char>| contains_seq(lower_of(l), lower_of(config.query@)),
        ),
{
    if config.case_sensitive {
        search(config.query.as_str(), contents)
    } else {
        search_case_insensitive(config.query.as_str(), contents)
    }
}

} // verus!
