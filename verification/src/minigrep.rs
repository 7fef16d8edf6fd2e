//! Line search: splitting a text into lines the way the standard
//! library does and keeping the lines that contain a query, with or
//! without case folding.

use vstd::prelude::*;
use vstd::seq_lib::group_seq_properties;
use vstd::string::StrSliceExecFns;

verus! {

/// The characters a query or a line is folded to when the search
/// ignores case. Relied on below through `str::to_lowercase`.
pub uninterp spec fn lower_of(s: Seq<char>) -> Seq<char>;

/// Relies on `str::to_lowercase`: the result depends on the
/// characters alone.
#[verifier::external_body]
fn lowercase(s: &str) -> (r: String)
    ensures
        r@ == lower_of(s@),
{
    s.to_lowercase()
}

/// Collects the characters of a string.
pub fn chars_vec(s: &str) -> (r: Vec<char>)
    ensures
        r@ == s@,
{
    let n = s.unicode_len();
    let mut r: Vec<char> = Vec::new();
    let mut i: usize = 0;
    while i < n
        invariant
            i <= n,
            n == s@.len(),
            r@ == s@.take(i as int),
        decreases n - i,
    {
        r.push(s.get_char(i));
        proof {
            assert(r@ =~= s@.take(i as int + 1));
        }
        i = i + 1;
    }
    proof {
        assert(s@.take(n as int) =~= s@);
    }
    r
}

/// The needle sits in the haystack starting at position `k`.
pub open spec fn matches_at(hay: Seq<char>, needle: Seq<char>, k: int) -> bool {
    0 <= k && k + needle.len() <= hay.len() && hay.subrange(k, k + needle.len()) == needle
}

/// The needle sits somewhere in the haystack.
pub open spec fn is_substring(hay: Seq<char>, needle: Seq<char>) -> bool {
    exists|k: int| matches_at(hay, needle, k)
}

/// Whether the needle sits in the haystack at exactly position `k`.
fn match_at(hay: &Vec<char>, needle: &Vec<char>, k: usize) -> (r: bool)
    requires
        k + needle@.len() <= hay@.len(),
        hay@.len() <= usize::MAX,
    ensures
        r == matches_at(hay@, needle@, k as int),
{
    let m = needle.len();
    let mut j: usize = 0;
    while j < m
        invariant
            j <= m,
            m == needle@.len(),
            k + m <= hay@.len(),
            hay@.len() <= usize::MAX,
            forall|j2: int| 0 <= j2 < j ==> hay@[k + j2] == needle@[j2],
        decreases m - j,
    {
        if hay[k + j] != needle[j] {
            proof {
                assert(hay@.subrange(k as int, k + needle@.len())[j as int] == hay@[k + j]);
            }
            return false;
        }
        j = j + 1;
    }
    proof {
        assert(hay@.subrange(k as int, k + needle@.len()) =~= needle@);
    }
    true
}

/// Whether the needle sits anywhere in the haystack.
pub fn contains_chars(hay: &Vec<char>, needle: &Vec<char>) -> (r: bool)
    ensures
        r == is_substring(hay@, needle@),
{
    if needle.len() > hay.len() {
        proof {
            assert(forall|k: int| !matches_at(hay@, needle@, k));
        }
        return false;
    }
    let last = hay.len() - needle.len();
    let mut k: usize = 0;
    loop
        invariant
            k <= last,
            last == hay@.len() - needle@.len(),
            hay@.len() <= usize::MAX,
            forall|k2: int| 0 <= k2 < k ==> !matches_at(hay@, needle@, k2),
        decreases last - k,
    {
        if match_at(hay, needle, k) {
            return true;
        }
        if k == last {
            proof {
                assert(forall|k2: int| !matches_at(hay@, needle@, k2));
            }
            return false;
        }
        k = k + 1;
    }
}

/// A line's trailing carriage return is dropped when the line was
/// ended by a line feed.
pub open spec fn strip_cr(l: Seq<char>) -> Seq<char> {
    if l.len() > 0 && l.last() == '\r' {
        l.drop_last()
    } else {
        l
    }
}

/// The lines of a text, walked with the line read so far: a line
/// feed closes the current line, dropping a carriage return just
/// before it; a last line without terminator is kept whole, and a
/// trailing terminator opens no empty line.
pub open spec fn spec_lines_loop(s: Seq<char>, cur: Seq<char>) -> Seq<Seq<char>>
    decreases s.len(),
{
    if s.len() == 0 {
        if cur.len() == 0 {
            seq![]
        } else {
            seq![cur]
        }
    } else if s[0] == '\n' {
        seq![strip_cr(cur)] + spec_lines_loop(s.skip(1), seq![])
    } else {
        spec_lines_loop(s.skip(1), cur.push(s[0]))
    }
}

/// The lines of a text.
pub open spec fn lines_of(s: Seq<char>) -> Seq<Seq<char>> {
    spec_lines_loop(s, seq![])
}

/// Whether a line is kept: plain containment, or containment of the
/// folded line when the search ignores case.
pub open spec fn line_matches(l: Seq<char>, needle: Seq<char>, fold: bool) -> bool {
    if fold {
        is_substring(lower_of(l), needle)
    } else {
        is_substring(l, needle)
    }
}

/// The kept lines among what remains of the walk.
pub open spec fn matching_rest(s: Seq<char>, cur: Seq<char>, needle: Seq<char>, fold: bool) -> Seq<
    Seq<char>,
> {
    spec_lines_loop(s, cur).filter(|l: Seq<char>| line_matches(l, needle, fold))
}

/// The kept lines of a whole text.
pub open spec fn matching_lines(contents: Seq<char>, needle: Seq<char>, fold: bool) -> Seq<
    Seq<char>,
> {
    matching_rest(contents, seq![], needle, fold)
}

proof fn lemma_matching_rest_end(cur: Seq<char>, needle: Seq<char>, fold: bool)
    ensures
        matching_rest(Seq::<char>::empty(), cur, needle, fold) == (if cur.len() > 0
            && line_matches(cur, needle, fold) {
            seq![cur]
        } else {
            Seq::<Seq<char>>::empty()
        }),
{
    reveal_with_fuel(Seq::filter, 2);
    if cur.len() > 0 {
        assert(seq![cur].drop_last() =~= Seq::<Seq<char>>::empty());
    }
    assert(matching_rest(Seq::<char>::empty(), cur, needle, fold) =~= (if cur.len() > 0
        && line_matches(cur, needle, fold) {
        seq![cur]
    } else {
        Seq::<Seq<char>>::empty()
    }));
}

proof fn lemma_matching_rest_newline(s: Seq<char>, cur: Seq<char>, needle: Seq<char>, fold: bool)
    requires
        s.len() > 0,
        s[0] == '\n',
    ensures
        matching_rest(s, cur, needle, fold) == (if line_matches(strip_cr(cur), needle, fold) {
            seq![strip_cr(cur)]
        } else {
            Seq::<Seq<char>>::empty()
        }) + matching_rest(s.skip(1), seq![], needle, fold),
{
    broadcast use group_seq_properties;

    reveal_with_fuel(Seq::filter, 2);
    let line = strip_cr(cur);
    let pred = |l: Seq<char>| line_matches(l, needle, fold);
    assert(spec_lines_loop(s, cur) == seq![line] + spec_lines_loop(s.skip(1), seq![]));
    Seq::filter_distributes_over_add(seq![line], spec_lines_loop(s.skip(1), seq![]), pred);
    assert(seq![line].drop_last() =~= Seq::<Seq<char>>::empty());
    assert(seq![line].filter(pred) == (if line_matches(line, needle, fold) {
        seq![line]
    } else {
        Seq::<Seq<char>>::empty()
    }));
}

/// The lines, from character `i` on with the current line begun at
/// `line_start`, that contain the needle.
fn search_lines<'a>(
    needle: &Vec<char>,
    contents: &'a str,
    i: usize,
    line_start: usize,
    n: usize,
    fold: bool,
) -> (r: Vec<&'a str>)
    requires
        n == contents@.len(),
        line_start <= i <= n,
    ensures
        r.deep_view() == matching_rest(
            contents@.skip(i as int),
            contents@.subrange(line_start as int, i as int),
            needle@,
            fold,
        ),
    decreases n - i,
{
    let ghost cur = contents@.subrange(line_start as int, i as int);
    if i == n {
        proof {
            assert(contents@.skip(i as int) =~= Seq::<char>::empty());
            lemma_matching_rest_end(cur, needle@, fold);
        }
        if line_start == i {
            let r: Vec<&'a str> = Vec::new();
            proof {
                assert(r.deep_view() =~= Seq::<Seq<char>>::empty());
            }
            return r;
        }
        let line = contents.substring_char(line_start, i);
        let keep = line_matches_exec(line, needle, fold);
        let mut r: Vec<&'a str> = Vec::new();
        if keep {
            r.push(line);
            proof {
                assert(r.deep_view() =~= seq![cur]);
            }
        } else {
            proof {
                assert(r.deep_view() =~= Seq::<Seq<char>>::empty());
            }
        }
        return r;
    }
    let c = contents.get_char(i);
    proof {
        assert(contents@.skip(i as int)[0] == contents@[i as int]);
        assert(contents@.skip(i as int).skip(1) =~= contents@.skip(i as int + 1));
    }
    if c == '\n' {
        let line_end = if i > line_start && contents.get_char(i - 1) == '\r' {
            i - 1
        } else {
            i
        };
        let line = contents.substring_char(line_start, line_end);
        proof {
            if line_end < i {
                assert(cur.last() == contents@[i as int - 1]);
                assert(line@ =~= cur.drop_last());
            } else {
                assert(cur.len() > 0 ==> cur.last() == contents@[i as int - 1]);
                assert(line@ =~= cur);
            }
            assert(line@ == strip_cr(cur));
        }
        let keep = line_matches_exec(line, needle, fold);
        let mut r: Vec<&'a str> = Vec::new();
        if keep {
            r.push(line);
        }
        let mut rest = search_lines(needle, contents, i + 1, i + 1, n, fold);
        proof {
            lemma_matching_rest_newline(contents@.skip(i as int), cur, needle@, fold);
            assert(contents@.subrange(i as int + 1, i as int + 1) =~= Seq::<char>::empty());
        }
        let ghost r_before = r.deep_view();
        let ghost rest_view = rest.deep_view();
        r.append(&mut rest);
        proof {
            assert(r.deep_view() =~= r_before + rest_view);
            if keep {
                assert(r_before =~= seq![strip_cr(cur)]);
            } else {
                assert(r_before =~= Seq::<Seq<char>>::empty());
            }
        }
        r
    } else {
        proof {
            assert(contents@.subrange(line_start as int, i as int + 1) =~= cur.push(
                contents@[i as int],
            ));
        }
        search_lines(needle, contents, i + 1, line_start, n, fold)
    }
}

/// Whether one line is kept.
fn line_matches_exec(line: &str, needle: &Vec<char>, fold: bool) -> (r: bool)
    ensures
        r == line_matches(line@, needle@, fold),
{
    if fold {
        let lowered = lowercase(line);
        let hay = chars_vec(lowered.as_str());
        contains_chars(&hay, needle)
    } else {
        let hay = chars_vec(line);
        contains_chars(&hay, needle)
    }
}

/// The lines of `file_contents` that contain `query`, in order.
pub fn search<'a>(query: &str, file_contents: &'a str) -> (r: Vec<&'a str>)
    ensures
        r.deep_view() == matching_lines(file_contents@, query@, false),
{
    let needle = chars_vec(query);
    let n = file_contents.unicode_len();
    let r = search_lines(&needle, file_contents, 0, 0, n, false);
    proof {
        assert(file_contents@.skip(0) =~= file_contents@);
        assert(file_contents@.subrange(0, 0) =~= Seq::<char>::empty());
    }
    r
}

/// The lines of `file_contents` that contain `query` once both are
/// folded to lower case, in order.
pub fn isearch<'a>(query: &str, file_contents: &'a str) -> (r: Vec<&'a str>)
    ensures
        r.deep_view() == matching_lines(file_contents@, lower_of(query@), true),
{
    let lowered_query = lowercase(query);
    let needle = chars_vec(lowered_query.as_str());
    let n = file_contents.unicode_len();
    let r = search_lines(&needle, file_contents, 0, 0, n, true);
    proof {
        assert(file_contents@.skip(0) =~= file_contents@);
        assert(file_contents@.subrange(0, 0) =~= Seq::<char>::empty());
    }
    r
}

/// How the search command is configured.
pub struct Config {
    pub search_for: String,
    pub fname: String,
    pub case_sensitive: bool,
}

impl Config {
    /// The query and the file name, in that order, after the program
    /// name; whether case matters is the caller's choice.
    pub fn new(args: &[String], case_sensitive: bool) -> (r: Result<Config, &'static str>)
        ensures
            args@.len() < 3 ==> (r matches Err(m) && m@ == "Not enough args"@),
            args@.len() >= 3 ==> (r matches Ok(c) && {
                &&& c.search_for@ == args@[1]@
                &&& c.fname@ == args@[2]@
                &&& c.case_sensitive == case_sensitive
            }),
    {
        if args.len() < 3 {
            return Err("Not enough args");
        }
        Ok(
            Config {
                search_for: args[1].clone(),
                fname: args[2].clone(),
                case_sensitive,
            },
        )
    }
}

} // verus!
