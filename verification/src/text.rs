//! Character-sequence utilities shared by the parser and the resource builders.
//!
//! Text is handled as a `Vec<char>` together with a window `[lo, hi)`; every
//! operation is specified over the `Seq<char>` that the window denotes.

use vstd::prelude::*;

verus! {

/// Unicode `White_Space` code points (the characters `char::is_whitespace` accepts).
pub open spec fn is_white_space(c: char) -> bool {
    let n = c as u32;
    ||| 9 <= n <= 13
    ||| n == 32
    ||| n == 0x85
    ||| n == 0xA0
    ||| n == 0x1680
    ||| 0x2000 <= n <= 0x200A
    ||| n == 0x2028
    ||| n == 0x2029
    ||| n == 0x202F
    ||| n == 0x205F
    ||| n == 0x3000
}

/// `s` with its leading white space removed.
pub open spec fn trim_start(s: Seq<char>) -> Seq<char>
    decreases s.len(),
{
    if s.len() > 0 && is_white_space(s[0]) {
        trim_start(s.drop_first())
    } else {
        s
    }
}

/// `s` with its trailing white space removed.
pub open spec fn trim_end(s: Seq<char>) -> Seq<char>
    decreases s.len(),
{
    if s.len() > 0 && is_white_space(s.last()) {
        trim_end(s.drop_last())
    } else {
        s
    }
}

/// `s` with leading and trailing white space removed (`str::trim`).
pub open spec fn trim(s: Seq<char>) -> Seq<char> {
    trim_end(trim_start(s))
}

/// `p` is a prefix of `s` (`str::starts_with`).
pub open spec fn starts_with(s: Seq<char>, p: Seq<char>) -> bool {
    p.len() <= s.len() && s.take(p.len() as int) == p
}

/// `p` occurs in `s` at position `i`.
pub open spec fn occurs_at(s: Seq<char>, p: Seq<char>, i: int) -> bool {
    0 <= i && i + p.len() <= s.len() && s.subrange(i, i + p.len()) == p
}

/// The first position at or after `i` where `p` occurs in `s`.
pub open spec fn find_from(s: Seq<char>, p: Seq<char>, i: int) -> Option<int>
    decreases s.len() + 1 - i,
{
    if i < 0 || i + p.len() > s.len() {
        None
    } else if occurs_at(s, p, i) {
        Some(i)
    } else {
        find_from(s, p, i + 1)
    }
}

/// The first position where `p` occurs in `s` (`str::find`).
pub open spec fn find(s: Seq<char>, p: Seq<char>) -> Option<int> {
    find_from(s, p, 0)
}

/// Left-to-right scan behind `words`: the words completed so far and the word in progress.
pub open spec fn word_scan(s: Seq<char>) -> (Seq<Seq<char>>, Seq<char>)
    decreases s.len(),
{
    if s.len() == 0 {
        (Seq::empty(), Seq::empty())
    } else {
        let (done, cur) = word_scan(s.drop_last());
        let c = s.last();
        if is_white_space(c) {
            if cur.len() > 0 {
                (done.push(cur), Seq::empty())
            } else {
                (done, Seq::empty())
            }
        } else {
            (done, cur.push(c))
        }
    }
}

/// The maximal runs of non-white-space characters of `s` (`str::split_whitespace`).
pub open spec fn words(s: Seq<char>) -> Seq<Seq<char>> {
    let (done, cur) = word_scan(s);
    if cur.len() > 0 {
        done.push(cur)
    } else {
        done
    }
}

/// `l` without one trailing carriage return.
pub open spec fn strip_cr(l: Seq<char>) -> Seq<char> {
    if l.len() > 0 && l.last() == '\r' {
        l.drop_last()
    } else {
        l
    }
}

/// Left-to-right scan behind `lines`: the finished lines and the line in progress.
pub open spec fn line_scan(s: Seq<char>) -> (Seq<Seq<char>>, Seq<char>)
    decreases s.len(),
{
    if s.len() == 0 {
        (Seq::empty(), Seq::empty())
    } else {
        let (done, cur) = line_scan(s.drop_last());
        let c = s.last();
        if c == '\n' {
            (done.push(strip_cr(cur)), Seq::empty())
        } else {
            (done, cur.push(c))
        }
    }
}

/// The lines of `s` (`str::lines`): split at `\n`, a `\r` before the `\n`
/// removed, and no empty line after a final `\n`.
pub open spec fn lines(s: Seq<char>) -> Seq<Seq<char>> {
    let (done, cur) = line_scan(s);
    if cur.len() > 0 {
        done.push(cur)
    } else {
        done
    }
}

/// Left-to-right scan behind `split`.
pub open spec fn split_scan(s: Seq<char>, sep: char) -> (Seq<Seq<char>>, Seq<char>)
    decreases s.len(),
{
    if s.len() == 0 {
        (Seq::empty(), Seq::empty())
    } else {
        let (done, cur) = split_scan(s.drop_last(), sep);
        let c = s.last();
        if c == sep {
            (done.push(cur), Seq::empty())
        } else {
            (done, cur.push(c))
        }
    }
}

/// The pieces of `s` between occurrences of `sep` (`str::split` with a `char`).
pub open spec fn split(s: Seq<char>, sep: char) -> Seq<Seq<char>> {
    let (done, cur) = split_scan(s, sep);
    done.push(cur)
}

/// The elements of `parts` joined with `sep` between them (`[T]::join`).
pub open spec fn join(parts: Seq<Seq<char>>, sep: Seq<char>) -> Seq<char>
    decreases parts.len(),
{
    if parts.len() == 0 {
        Seq::empty()
    } else if parts.len() == 1 {
        parts[0]
    } else {
        join(parts.drop_last(), sep) + sep + parts.last()
    }
}

/// The views of a vector of strings.
pub open spec fn string_views(v: Seq<String>) -> Seq<Seq<char>> {
    v.map_values(|s: String| s@)
}

/// Appends one character to a `String` (`String::push`).
#[verifier::external_body]
pub(crate) fn push_char(s: &mut String, c: char)
    ensures
        final(s)@ == old(s)@.push(c),
{
    s.push(c);
}

/// The characters of `s`, in order.
pub fn chars_of(s: &str) -> (v: Vec<char>)
    ensures
        v@ == s@,
{
    let mut v: Vec<char> = Vec::new();
    for c in it: s.chars()
        invariant
            v@ == it.seq().take(it.index() as int),
            it.seq() == s@,
    {
        v.push(c);
    }
    v
}

/// The `String` holding the characters `cs[lo..hi]`.
pub fn string_from_window(cs: &Vec<char>, lo: usize, hi: usize) -> (s: String)
    requires
        lo <= hi <= cs.len(),
    ensures
        s@ == cs@.subrange(lo as int, hi as int),
{
    let mut s = String::new();
    let mut i: usize = lo;
    while i < hi
        invariant
            lo <= i <= hi <= cs.len(),
            s@ == cs@.subrange(lo as int, i as int),
        decreases hi - i,
    {
        push_char(&mut s, cs[i]);
        assert(cs@.subrange(lo as int, i as int + 1) == cs@.subrange(lo as int, i as int).push(
            cs@[i as int],
        ));
        i = i + 1;
    }
    s
}

/// The `String` holding exactly the characters of `cs`.
pub fn string_from_chars(cs: &Vec<char>) -> (s: String)
    ensures
        s@ == cs@,
{
    let s = string_from_window(cs, 0, cs.len());
    assert(cs@.subrange(0, cs.len() as int) == cs@);
    s
}

/// `char::is_whitespace`.
pub fn is_whitespace(c: char) -> (b: bool)
    ensures
        b == is_white_space(c),
{
    let n = c as u32;
    (9 <= n && n <= 13) || n == 32 || n == 0x85 || n == 0xA0 || n == 0x1680 || (0x2000 <= n && n
        <= 0x200A) || n == 0x2028 || n == 0x2029 || n == 0x202F || n == 0x205F || n == 0x3000
}

proof fn lemma_trim_start_skip(s: Seq<char>, k: int)
    requires
        0 <= k <= s.len(),
        forall|j: int| 0 <= j < k ==> is_white_space(#[trigger] s[j]),
    ensures
        trim_start(s) == trim_start(s.skip(k)),
    decreases k,
{
    if k == 0 {
        assert(s.skip(0) == s);
    } else {
        let t = s.drop_first();
        assert forall|j: int| 0 <= j < k - 1 implies is_white_space(#[trigger] t[j]) by {
            assert(t[j] == s[j + 1]);
        }
        lemma_trim_start_skip(t, k - 1);
        assert(t.skip(k - 1) == s.skip(k));
    }
}

proof fn lemma_trim_end_take(s: Seq<char>, k: int)
    requires
        0 <= k <= s.len(),
        forall|j: int| k <= j < s.len() ==> is_white_space(#[trigger] s[j]),
    ensures
        trim_end(s) == trim_end(s.take(k)),
    decreases s.len() - k,
{
    if k == s.len() {
        assert(s.take(k) == s);
    } else {
        let t = s.drop_last();
        assert(is_white_space(s.last()));
        lemma_trim_end_take(t, k);
        assert(t.take(k) == s.take(k));
    }
}

/// The window of `cs[lo..hi]` that remains after trimming white space.
pub fn trim_window(cs: &Vec<char>, lo: usize, hi: usize) -> (r: (usize, usize))
    requires
        lo <= hi <= cs.len(),
    ensures
        lo <= r.0 <= r.1 <= hi,
        cs@.subrange(r.0 as int, r.1 as int) == trim(cs@.subrange(lo as int, hi as int)),
{
    let ghost w = cs@.subrange(lo as int, hi as int);
    let mut a: usize = lo;
    while a < hi && is_whitespace(cs[a])
        invariant
            lo <= a <= hi <= cs.len(),
            w == cs@.subrange(lo as int, hi as int),
            forall|j: int| lo <= j < a ==> is_white_space(#[trigger] cs@[j]),
        decreases hi - a,
    {
        a = a + 1;
    }
    proof {
        assert forall|j: int| 0 <= j < a - lo implies is_white_space(#[trigger] w[j]) by {
            assert(w[j] == cs@[lo + j]);
        }
        lemma_trim_start_skip(w, a - lo);
        assert(w.skip(a - lo) == cs@.subrange(a as int, hi as int));
    }
    let mut b: usize = hi;
    while b > a && is_whitespace(cs[b - 1])
        invariant
            lo <= a <= b <= hi <= cs.len(),
            forall|j: int| b <= j < hi ==> is_white_space(#[trigger] cs@[j]),
        decreases b - a,
    {
        b = b - 1;
    }
    proof {
        let t = cs@.subrange(a as int, hi as int);
        assert forall|j: int| b - a <= j < t.len() implies is_white_space(#[trigger] t[j]) by {
            assert(t[j] == cs@[a + j]);
        }
        lemma_trim_end_take(t, b - a);
        assert(t.take(b - a) == cs@.subrange(a as int, b as int));
    }
    (a, b)
}

/// The texts that a list of windows `[a, b)` select from `cs`.
pub open spec fn windows_of(cs: Seq<char>, ws: Seq<(usize, usize)>) -> Seq<Seq<char>> {
    ws.map_values(|w: (usize, usize)| cs.subrange(w.0 as int, w.1 as int))
}

/// Every window of `ws` lies inside `[lo, hi)`.
pub open spec fn windows_within(ws: Seq<(usize, usize)>, lo: int, hi: int) -> bool {
    forall|k: int| 0 <= k < ws.len() ==> lo <= (#[trigger] ws[k]).0 <= ws[k].1 <= hi
}

pub proof fn lemma_windows_push(cs: Seq<char>, ws: Seq<(usize, usize)>, w: (usize, usize))
    ensures
        windows_of(cs, ws.push(w)) == windows_of(cs, ws).push(cs.subrange(w.0 as int, w.1 as int)),
{
    assert(windows_of(cs, ws.push(w)) =~= windows_of(cs, ws).push(
        cs.subrange(w.0 as int, w.1 as int),
    ));
}

/// The windows of the words of `cs[lo..hi]` (`str::split_whitespace`).
pub fn words_window(cs: &Vec<char>, lo: usize, hi: usize) -> (r: Vec<(usize, usize)>)
    requires
        lo <= hi <= cs.len(),
    ensures
        windows_within(r@, lo as int, hi as int),
        windows_of(cs@, r@) == words(cs@.subrange(lo as int, hi as int)),
{
    let mut done: Vec<(usize, usize)> = Vec::new();
    let mut st: usize = lo;
    let mut i: usize = lo;
    while i < hi
        invariant
            lo <= st <= i <= hi <= cs.len(),
            windows_within(done@, lo as int, hi as int),
            word_scan(cs@.subrange(lo as int, i as int)) == (
                windows_of(cs@, done@),
                cs@.subrange(st as int, i as int),
            ),
        decreases hi - i,
    {
        let ghost pre = cs@.subrange(lo as int, i as int + 1);
        assert(pre.drop_last() == cs@.subrange(lo as int, i as int));
        assert(pre.last() == cs@[i as int]);
        if is_whitespace(cs[i]) {
            if st < i {
                proof {
                    lemma_windows_push(cs@, done@, (st, i));
                }
                done.push((st, i));
            }
            st = i + 1;
        } else {
            assert(cs@.subrange(st as int, i as int + 1) == cs@.subrange(st as int, i as int).push(
                cs@[i as int],
            ));
        }
        i = i + 1;
    }
    if st < i {
        proof {
            lemma_windows_push(cs@, done@, (st, i));
        }
        done.push((st, i));
    }
    done
}

/// The windows of the lines of `cs[lo..hi]` (`str::lines`).
pub fn lines_window(cs: &Vec<char>, lo: usize, hi: usize) -> (r: Vec<(usize, usize)>)
    requires
        lo <= hi <= cs.len(),
    ensures
        windows_within(r@, lo as int, hi as int),
        windows_of(cs@, r@) == lines(cs@.subrange(lo as int, hi as int)),
{
    let mut done: Vec<(usize, usize)> = Vec::new();
    let mut st: usize = lo;
    let mut i: usize = lo;
    while i < hi
        invariant
            lo <= st <= i <= hi <= cs.len(),
            windows_within(done@, lo as int, hi as int),
            line_scan(cs@.subrange(lo as int, i as int)) == (
                windows_of(cs@, done@),
                cs@.subrange(st as int, i as int),
            ),
        decreases hi - i,
    {
        let ghost pre = cs@.subrange(lo as int, i as int + 1);
        assert(pre.drop_last() == cs@.subrange(lo as int, i as int));
        assert(pre.last() == cs@[i as int]);
        if cs[i] == '\n' {
            let ghost cur = cs@.subrange(st as int, i as int);
            let end = if st < i && cs[i - 1] == '\r' {
                assert(cur.drop_last() == cs@.subrange(st as int, i - 1));
                i - 1
            } else {
                i
            };
            assert(strip_cr(cur) == cs@.subrange(st as int, end as int));
            proof {
                lemma_windows_push(cs@, done@, (st, end));
            }
            done.push((st, end));
            st = i + 1;
        } else {
            assert(cs@.subrange(st as int, i as int + 1) == cs@.subrange(st as int, i as int).push(
                cs@[i as int],
            ));
        }
        i = i + 1;
    }
    if st < i {
        proof {
            lemma_windows_push(cs@, done@, (st, i));
        }
        done.push((st, i));
    }
    done
}

/// The windows of the pieces of `cs[lo..hi]` between occurrences of `sep` (`str::split`).
pub fn split_window(cs: &Vec<char>, lo: usize, hi: usize, sep: char) -> (r: Vec<(usize, usize)>)
    requires
        lo <= hi <= cs.len(),
    ensures
        windows_within(r@, lo as int, hi as int),
        windows_of(cs@, r@) == split(cs@.subrange(lo as int, hi as int), sep),
{
    let mut done: Vec<(usize, usize)> = Vec::new();
    let mut st: usize = lo;
    let mut i: usize = lo;
    while i < hi
        invariant
            lo <= st <= i <= hi <= cs.len(),
            windows_within(done@, lo as int, hi as int),
            split_scan(cs@.subrange(lo as int, i as int), sep) == (
                windows_of(cs@, done@),
                cs@.subrange(st as int, i as int),
            ),
        decreases hi - i,
    {
        let ghost pre = cs@.subrange(lo as int, i as int + 1);
        assert(pre.drop_last() == cs@.subrange(lo as int, i as int));
        assert(pre.last() == cs@[i as int]);
        if cs[i] == sep {
            proof {
                lemma_windows_push(cs@, done@, (st, i));
            }
            done.push((st, i));
            st = i + 1;
        } else {
            assert(cs@.subrange(st as int, i as int + 1) == cs@.subrange(st as int, i as int).push(
                cs@[i as int],
            ));
        }
        i = i + 1;
    }
    proof {
        lemma_windows_push(cs@, done@, (st, i));
    }
    done.push((st, i));
    done
}

/// Whether `cs[lo..hi]` is exactly the text `p`.
pub fn window_eq(cs: &Vec<char>, lo: usize, hi: usize, p: &Vec<char>) -> (b: bool)
    requires
        lo <= hi <= cs.len(),
    ensures
        b == (cs@.subrange(lo as int, hi as int) == p@),
{
    if hi - lo != p.len() {
        return false;
    }
    let mut k: usize = 0;
    while k < p.len()
        invariant
            hi - lo == p.len(),
            lo <= hi <= cs.len(),
            k <= p.len(),
            forall|j: int| 0 <= j < k ==> cs@[lo + j] == p@[j],
        decreases p.len() - k,
    {
        if cs[lo + k] != p[k] {
            assert(cs@.subrange(lo as int, hi as int)[k as int] != p@[k as int]);
            return false;
        }
        k = k + 1;
    }
    assert(cs@.subrange(lo as int, hi as int) =~= p@);
    true
}

/// Whether `cs[lo..hi]` starts with the text `p` (`str::starts_with`).
pub fn window_starts_with(cs: &Vec<char>, lo: usize, hi: usize, p: &Vec<char>) -> (b: bool)
    requires
        lo <= hi <= cs.len(),
    ensures
        b == starts_with(cs@.subrange(lo as int, hi as int), p@),
{
    if p.len() > hi - lo {
        return false;
    }
    let r = window_eq(cs, lo, lo + p.len(), p);
    assert(cs@.subrange(lo as int, hi as int).take(p.len() as int) == cs@.subrange(
        lo as int,
        lo + p.len(),
    ));
    r
}

/// The first position `k` in `[lo, hi)` where `p` occurs inside `cs[lo..hi]` (`str::find`).
pub fn find_in_window(cs: &Vec<char>, lo: usize, hi: usize, p: &Vec<char>) -> (r: Option<usize>)
    requires
        lo <= hi <= cs.len(),
    ensures
        match r {
            Some(k) => lo <= k && k + p.len() <= hi && find(cs@.subrange(lo as int, hi as int), p@)
                == Some(k - lo),
            None => find(cs@.subrange(lo as int, hi as int), p@) is None,
        },
{
    let ghost w = cs@.subrange(lo as int, hi as int);
    if p.len() == 0 {
        assert(w.subrange(0, 0) =~= p@);
        return Some(lo);
    }
    let mut i: usize = 0;
    while i <= hi - lo && p.len() <= hi - lo - i
        invariant
            lo <= hi <= cs.len(),
            p.len() > 0,
            w == cs@.subrange(lo as int, hi as int),
            i <= hi - lo + 1,
            find(w, p@) == find_from(w, p@, i as int),
        decreases hi - lo + 1 - i,
    {
        let hit = window_eq(cs, lo + i, lo + i + p.len(), p);
        assert(w.subrange(i as int, i + p.len()) == cs@.subrange(lo + i, lo + i + p.len()));
        if hit {
            return Some(lo + i);
        }
        i = i + 1;
    }
    None
}

/// `s` contains the text `p` as one of its elements.
pub fn contains_text(s: &Vec<String>, p: &str) -> (b: bool)
    ensures
        b == string_views(s@).contains(p@),
{
    let mut k: usize = 0;
    while k < s.len()
        invariant
            k <= s.len(),
            forall|j: int| 0 <= j < k ==> s@[j]@ != p@,
        decreases s.len() - k,
    {
        let a = chars_of(s[k].as_str());
        let b = chars_of(p);
        if window_eq(&a, 0, a.len(), &b) {
            assert(a@.subrange(0, a.len() as int) == a@);
            assert(string_views(s@)[k as int] == p@);
            return true;
        }
        assert(a@.subrange(0, a.len() as int) == a@);
        k = k + 1;
    }
    assert forall|j: int| 0 <= j < string_views(s@).len() implies string_views(s@)[j] != p@ by {
        assert(string_views(s@)[j] == s@[j]@);
    }
    false
}

/// Whether `c` has the Unicode `Uppercase` property: what `char::is_uppercase` returns.
pub uninterp spec fn char_uppercase(c: char) -> bool;

/// Whether `c` has the Unicode `Lowercase` property: what `char::is_lowercase` returns.
pub uninterp spec fn char_lowercase(c: char) -> bool;

/// The first character of the lowercase mapping of `c`: what
/// `c.to_lowercase().next()` yields.
pub uninterp spec fn lowercase_head(c: char) -> char;

/// `c` is an ASCII character.
pub open spec fn is_ascii_char(c: char) -> bool {
    (c as u32) < 128
}

/// `c` is uppercase: among ASCII characters exactly `A` to `Z`.
pub open spec fn case_upper(c: char) -> bool {
    if is_ascii_char(c) {
        65 <= c as u32 <= 90
    } else {
        char_uppercase(c)
    }
}

/// `c` is lowercase: among ASCII characters exactly `a` to `z`.
pub open spec fn case_lower(c: char) -> bool {
    if is_ascii_char(c) {
        97 <= c as u32 <= 122
    } else {
        char_lowercase(c)
    }
}

/// The first character of the lowercase mapping of `c`: an ASCII uppercase
/// letter maps to its lowercase letter, another ASCII character to itself.
pub open spec fn case_lower_head(c: char) -> char {
    if is_ascii_char(c) {
        if 65 <= c as u32 <= 90 {
            ((c as u32) + 32) as char
        } else {
            c
        }
    } else {
        lowercase_head(c)
    }
}

/// `char::is_uppercase`. The contract names the result and states it for
/// ASCII characters, of which only `A` to `Z` have the `Uppercase` property.
#[verifier::external_body]
pub(crate) fn is_uppercase(c: char) -> (b: bool)
    ensures
        b == char_uppercase(c),
        (c as u32) < 128 ==> (b <==> (65 <= c as u32 && c as u32 <= 90)),
{
    c.is_uppercase()
}

/// `char::is_lowercase`. The contract names the result and states it for
/// ASCII characters, of which only `a` to `z` have the `Lowercase` property.
#[verifier::external_body]
pub(crate) fn is_lowercase(c: char) -> (b: bool)
    ensures
        b == char_lowercase(c),
        (c as u32) < 128 ==> (b <==> (97 <= c as u32 && c as u32 <= 122)),
{
    c.is_lowercase()
}

/// The first character of `char::to_lowercase`, which by its documentation
/// yields one or more characters (the character itself when it has no
/// lowercase mapping). The contract names the result and states it for ASCII
/// characters: `A` to `Z` map to `a` to `z`, the others to themselves.
#[verifier::external_body]
pub(crate) fn to_lowercase_head(c: char) -> (r: char)
    ensures
        r == lowercase_head(c),
        (c as u32) < 128 && 65 <= c as u32 && c as u32 <= 90 ==> r as u32 == c as u32 + 32,
        (c as u32) < 128 && !(65 <= c as u32 && c as u32 <= 90) ==> r == c,
{
    c.to_lowercase().next().unwrap()
}

/// Pushing onto a vector of strings pushes the view.
pub proof fn lemma_string_views_push(v: Seq<String>, s: String)
    ensures
        string_views(v.push(s)) == string_views(v).push(s@),
{
    assert(string_views(v.push(s)) =~= string_views(v).push(s@));
}

/// The texts of the windows `ws[from..]` joined with `sep` between them.
pub fn join_windows(cs: &Vec<char>, ws: &Vec<(usize, usize)>, from: usize, sep: char) -> (r: Vec<
    char,
>)
    requires
        from <= ws.len(),
        forall|k: int| 0 <= k < ws.len() ==> (#[trigger] ws@[k]).0 <= ws@[k].1 <= cs.len(),
    ensures
        r@ == join(windows_of(cs@, ws@).skip(from as int), seq![sep]),
{
    let ghost all = windows_of(cs@, ws@);
    let mut r: Vec<char> = Vec::new();
    let mut k: usize = from;
    while k < ws.len()
        invariant
            from <= k <= ws.len(),
            all == windows_of(cs@, ws@),
            forall|j: int| 0 <= j < ws.len() ==> (#[trigger] ws@[j]).0 <= ws@[j].1 <= cs.len(),
            r@ == join(all.subrange(from as int, k as int), seq![sep]),
        decreases ws.len() - k,
    {
        let ghost before = r@;
        let ghost parts = all.subrange(from as int, k + 1);
        assert(parts.drop_last() == all.subrange(from as int, k as int));
        assert(parts.last() == all[k as int]);
        let w = ws[k];
        assert(all[k as int] == cs@.subrange(w.0 as int, w.1 as int));
        if k > from {
            r.push(sep);
        }
        let mut j: usize = w.0;
        while j < w.1
            invariant
                w.0 <= j <= w.1 <= cs.len(),
                r@ == (if k > from { before.push(sep) } else { before }) + cs@.subrange(
                    w.0 as int,
                    j as int,
                ),
            decreases w.1 - j,
        {
            r.push(cs[j]);
            assert(cs@.subrange(w.0 as int, j + 1) == cs@.subrange(w.0 as int, j as int).push(
                cs@[j as int],
            ));
            j = j + 1;
        }
        proof {
            if k > from {
                assert(before.push(sep) == before + seq![sep]);
            } else {
                assert(before == Seq::<char>::empty());
            }
        }
        k = k + 1;
    }
    assert(all.subrange(from as int, ws.len() as int) == all.skip(from as int));
    r
}

/// The decimal digit for `d` (0 to 9).
pub open spec fn digit_char(d: nat) -> char {
    if d == 0 {
        '0'
    } else if d == 1 {
        '1'
    } else if d == 2 {
        '2'
    } else if d == 3 {
        '3'
    } else if d == 4 {
        '4'
    } else if d == 5 {
        '5'
    } else if d == 6 {
        '6'
    } else if d == 7 {
        '7'
    } else if d == 8 {
        '8'
    } else {
        '9'
    }
}

/// The decimal representation of `n`, without leading zeros.
pub open spec fn decimal(n: nat) -> Seq<char>
    decreases n,
{
    if n < 10 {
        seq![digit_char(n)]
    } else {
        decimal(n / 10).push(digit_char(n % 10))
    }
}

fn digit(d: usize) -> (c: char)
    requires
        d < 10,
    ensures
        c == digit_char(d as nat),
{
    if d == 0 {
        '0'
    } else if d == 1 {
        '1'
    } else if d == 2 {
        '2'
    } else if d == 3 {
        '3'
    } else if d == 4 {
        '4'
    } else if d == 5 {
        '5'
    } else if d == 6 {
        '6'
    } else if d == 7 {
        '7'
    } else if d == 8 {
        '8'
    } else {
        '9'
    }
}

/// Appends the decimal representation of `n` to `s` (as `write!(s, "{n}")` does).
pub fn push_decimal(s: &mut String, n: usize)
    ensures
        final(s)@ == old(s)@ + decimal(n as nat),
    decreases n,
{
    if n >= 10 {
        push_decimal(s, n / 10);
    }
    push_char(s, digit(n % 10));
    proof {
        if n < 10 {
            assert(old(s)@.push(digit_char(n as nat)) == old(s)@ + seq![digit_char(n as nat)]);
        } else {
            assert(old(s)@ + decimal((n / 10) as nat) + seq![digit_char((n % 10) as nat)] == old(
                s,
            )@ + decimal((n / 10) as nat).push(digit_char((n % 10) as nat)));
        }
    }
}

proof fn lemma_decimal_nonempty(n: nat)
    ensures
        decimal(n).len() >= 1,
        n >= 10 ==> decimal(n).len() >= 2,
    decreases n,
{
    if n >= 10 {
        lemma_decimal_nonempty(n / 10);
    }
}

/// Different numbers have different decimal representations.
pub proof fn lemma_decimal_injective(a: nat, b: nat)
    requires
        decimal(a) == decimal(b),
    ensures
        a == b,
    decreases a,
{
    lemma_decimal_nonempty(a);
    lemma_decimal_nonempty(b);
    if a < 10 && b < 10 {
        assert(decimal(a)[0] == digit_char(a));
        assert(decimal(b)[0] == digit_char(b));
    } else if a >= 10 && b >= 10 {
        assert(decimal(a).last() == digit_char(a % 10));
        assert(decimal(b).last() == digit_char(b % 10));
        assert(decimal(a).drop_last() == decimal(a / 10));
        assert(decimal(b).drop_last() == decimal(b / 10));
        lemma_decimal_injective(a / 10, b / 10);
    } else {
        lemma_decimal_nonempty(a / 10);
        lemma_decimal_nonempty(b / 10);
    }
}

} // verus!
