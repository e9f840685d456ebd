//! Character-level text operations, each stated over `Seq<char>` and implemented on strings.
use vstd::prelude::*;

verus! {

pub assume_specification[ String::push ](s: &mut String, ch: char)
    ensures
        final(s)@ == old(s)@.push(ch),
;

/// Unicode `White_Space`, the set that `char::is_whitespace` tests.
pub open spec fn is_ws(c: char) -> bool {
    ('\u{9}' <= c && c <= '\u{d}') || c == ' ' || c == '\u{85}' || c == '\u{a0}' || c
        == '\u{1680}' || ('\u{2000}' <= c && c <= '\u{200a}') || c == '\u{2028}' || c
        == '\u{2029}' || c == '\u{202f}' || c == '\u{205f}' || c == '\u{3000}'
}

pub open spec fn trim_start_ws(s: Seq<char>) -> Seq<char>
    decreases s.len(),
{
    if s.len() > 0 && is_ws(s[0]) {
        trim_start_ws(s.drop_first())
    } else {
        s
    }
}

pub open spec fn trim_end_ws(s: Seq<char>) -> Seq<char>
    decreases s.len(),
{
    if s.len() > 0 && is_ws(s.last()) {
        trim_end_ws(s.drop_last())
    } else {
        s
    }
}

/// `s` without leading and trailing whitespace (`str::trim`).
pub open spec fn trim_ws(s: Seq<char>) -> Seq<char> {
    trim_end_ws(trim_start_ws(s))
}

/// `s` with every trailing `c` removed (`str::trim_end_matches` with a `char`).
pub open spec fn trim_end_char(s: Seq<char>, c: char) -> Seq<char>
    decreases s.len(),
{
    if s.len() > 0 && s.last() == c {
        trim_end_char(s.drop_last(), c)
    } else {
        s
    }
}

/// `s` with every leading copy of `p` removed (`str::trim_start_matches` with a `&str`).
pub open spec fn trim_start_seq(s: Seq<char>, p: Seq<char>) -> Seq<char>
    decreases s.len(),
{
    if p.len() > 0 && starts_with(s, p) {
        trim_start_seq(s.skip(p.len() as int), p)
    } else {
        s
    }
}

pub open spec fn starts_with(s: Seq<char>, p: Seq<char>) -> bool {
    p.len() <= s.len() && s.take(p.len() as int) == p
}

pub open spec fn ends_with(s: Seq<char>, p: Seq<char>) -> bool {
    p.len() <= s.len() && s.skip(s.len() - p.len()) == p
}

pub open spec fn occurs_at(s: Seq<char>, p: Seq<char>, i: int) -> bool {
    0 <= i && i + p.len() <= s.len() && s.subrange(i, i + p.len()) == p
}

pub open spec fn contains(s: Seq<char>, p: Seq<char>) -> bool {
    exists|i: int| occurs_at(s, p, i)
}

pub open spec fn ascii_lower(c: char) -> char {
    if 'A' <= c && c <= 'Z' {
        ((c as u32) + 32) as char
    } else {
        c
    }
}

/// ASCII case-insensitive equality (`str::eq_ignore_ascii_case`).
pub open spec fn eq_ignore_ascii_case(a: Seq<char>, b: Seq<char>) -> bool {
    a.len() == b.len() && forall|i: int| 0 <= i < a.len() ==> ascii_lower(a[i]) == ascii_lower(b[i])
}

/// Index of the first `c` in `s`.
pub open spec fn find_char(s: Seq<char>, c: char) -> Option<int>
    decreases s.len(),
{
    if s.len() == 0 {
        None
    } else if s[0] == c {
        Some(0)
    } else {
        match find_char(s.drop_first(), c) {
            Some(i) => Some(i + 1),
            None => None,
        }
    }
}

/// The pieces of `s` between the occurrences of `c` (`str::split` with a `char`).
pub open spec fn split_char(s: Seq<char>, c: char) -> Seq<Seq<char>>
    decreases s.len(),
{
    match find_char(s, c) {
        Some(i) => {
            if 0 <= i < s.len() {
                seq![s.take(i)] + split_char(s.skip(i + 1), c)
            } else {
                seq![s]
            }
        },
        None => seq![s],
    }
}

/// `str::split_once` with a `char`.
pub open spec fn split_once_char(s: Seq<char>, c: char) -> Option<(Seq<char>, Seq<char>)> {
    match find_char(s, c) {
        Some(i) => Some((s.take(i), s.skip(i + 1))),
        None => None,
    }
}

/// `str::lines`: pieces ended by `\n` (a `\r` before it dropped), no empty last piece.
pub open spec fn lines(s: Seq<char>) -> Seq<Seq<char>>
    decreases s.len(),
{
    if s.len() == 0 {
        seq![]
    } else {
        match find_char(s, '\n') {
            Some(i) => {
                if 0 <= i < s.len() {
                    let line = s.take(i);
                    let line = if line.len() > 0 && line.last() == '\r' {
                        line.drop_last()
                    } else {
                        line
                    };
                    seq![line] + lines(s.skip(i + 1))
                } else {
                    seq![s]
                }
            },
            None => seq![s],
        }
    }
}

/// Length of the longest prefix of `s` without whitespace.
pub open spec fn word_len(s: Seq<char>) -> nat
    decreases s.len(),
{
    if s.len() == 0 || is_ws(s[0]) {
        0
    } else {
        1 + word_len(s.drop_first())
    }
}

/// `str::split_whitespace`: the maximal runs of non-whitespace characters.
pub open spec fn words(s: Seq<char>) -> Seq<Seq<char>>
    decreases s.len(),
{
    let t = trim_start_ws(s);
    if t.len() == 0 {
        seq![]
    } else {
        let n = word_len(t);
        if 0 < n <= t.len() && t.len() <= s.len() {
            seq![t.take(n as int)] + words(t.skip(n as int))
        } else {
            seq![]
        }
    }
}

/// The pieces joined with `sep` between them.
pub open spec fn join(parts: Seq<Seq<char>>, sep: Seq<char>) -> Seq<char>
    decreases parts.len(),
{
    if parts.len() == 0 {
        seq![]
    } else if parts.len() == 1 {
        parts[0]
    } else {
        join(parts.drop_last(), sep) + sep + parts.last()
    }
}

/// The first `n` characters of `s`, or all of them (`chars().take(n)`).
pub open spec fn take_chars(s: Seq<char>, n: nat) -> Seq<char> {
    if n < s.len() {
        s.take(n as int)
    } else {
        s
    }
}

pub open spec fn digit_char(d: nat) -> char {
    ((48 + d) as u32) as char
}

/// Decimal digits of `n`, as `Display` for an unsigned integer writes them.
pub open spec fn decimal(n: nat) -> Seq<char>
    decreases n,
{
    if n < 10 {
        seq![digit_char(n)]
    } else {
        decimal(n / 10).push(digit_char(n % 10))
    }
}

pub proof fn lemma_find_char(s: Seq<char>, c: char)
    ensures
        match find_char(s, c) {
            Some(i) => 0 <= i < s.len() && s[i] == c && forall|j: int| 0 <= j < i ==> s[j] != c,
            None => forall|j: int| 0 <= j < s.len() ==> s[j] != c,
        },
    decreases s.len(),
{
    if s.len() > 0 && s[0] != c {
        lemma_find_char(s.drop_first(), c);
        match find_char(s.drop_first(), c) {
            Some(i) => {
                assert forall|j: int| 0 <= j < i + 1 implies s[j] != c by {
                    if j > 0 {
                        assert(s[j] == s.drop_first()[j - 1]);
                    }
                }
            },
            None => {
                assert forall|j: int| 0 <= j < s.len() implies s[j] != c by {
                    if j > 0 {
                        assert(s[j] == s.drop_first()[j - 1]);
                    }
                }
            },
        }
    }
}

/// `find_char` is the first index holding `c`.
pub proof fn lemma_find_char_at(s: Seq<char>, c: char, i: int)
    requires
        0 <= i <= s.len(),
        forall|j: int| 0 <= j < i ==> s[j] != c,
        i == s.len() || s[i] == c,
    ensures
        find_char(s, c) == (if i < s.len() {
            Some(i)
        } else {
            None::<int>
        }),
{
    lemma_find_char(s, c);
}

pub proof fn lemma_trim_end_char_absent(s: Seq<char>, c: char)
    requires
        forall|i: int| 0 <= i < s.len() ==> s[i] != c,
    ensures
        trim_end_char(s, c) == s,
{
    if s.len() > 0 {
        assert(s.last() == s[s.len() - 1]);
    }
}

/// Splitting at a separator placed between two texts splits each of them.
pub proof fn lemma_split_char_concat(x: Seq<char>, y: Seq<char>, c: char)
    ensures
        split_char(x + seq![c] + y, c) == split_char(x, c) + split_char(y, c),
    decreases x.len(),
{
    let s = x + seq![c] + y;
    lemma_find_char(x, c);
    match find_char(x, c) {
        Some(i) => {
            lemma_find_char_at(s, c, i);
            assert(s.take(i) =~= x.take(i));
            assert(s.skip(i + 1) =~= x.skip(i + 1) + seq![c] + y);
            lemma_split_char_concat(x.skip(i + 1), y, c);
        },
        None => {
            lemma_find_char_at(s, c, x.len() as int);
            assert(s.take(x.len() as int) =~= x);
            assert(s.skip(x.len() as int + 1) =~= y);
        },
    }
}

/// Pieces without the separator, joined by it, split back into the same pieces.
pub proof fn lemma_split_join(parts: Seq<Seq<char>>, c: char)
    requires
        parts.len() > 0,
        forall|k: int, j: int|
            0 <= k < parts.len() && 0 <= j < parts[k].len() ==> #[trigger] parts[k][j] != c,
    ensures
        split_char(join(parts, seq![c]), c) == parts,
    decreases parts.len(),
{
    let last = parts.last();
    assert(forall|j: int| 0 <= j < last.len() ==> last[j] != c);
    lemma_find_char(last, c);
    if parts.len() == 1 {
        assert(parts =~= seq![last]);
    } else {
        let front = parts.drop_last();
        assert forall|k: int, j: int| 0 <= k < front.len() && 0 <= j < front[k].len() implies
            #[trigger] front[k][j] != c by {
            assert(front[k] == parts[k]);
        }
        lemma_split_join(front, c);
        lemma_split_char_concat(join(front, seq![c]), last, c);
        assert(parts =~= front + seq![last]);
    }
}

/// The characters of a string, in order.
pub fn chars_of(s: &str) -> (v: Vec<char>)
    ensures
        v@ == s@,
{
    let mut v: Vec<char> = Vec::new();
    for c in it: s.chars()
        invariant
            v@ == it.seq().take(it.index() as int),
            it.seq() == s@,
    {
        v.push(c);
    }
    v
}

/// A string holding `v[lo..hi]`.
pub fn string_of_range(v: &Vec<char>, lo: usize, hi: usize) -> (s: String)
    requires
        lo <= hi <= v@.len(),
    ensures
        s@ == v@.subrange(lo as int, hi as int),
{
    let mut s = String::new();
    let mut i: usize = lo;
    while i < hi
        invariant
            lo <= i <= hi <= v@.len(),
            s@ == v@.subrange(lo as int, i as int),
        decreases hi - i,
    {
        s.push(v[i]);
        i += 1;
        assert(s@ == v@.subrange(lo as int, i as int));
    }
    s
}

/// A string holding the characters of `v`.
pub fn string_of(v: &Vec<char>) -> (s: String)
    ensures
        s@ == v@,
{
    let s = string_of_range(v, 0, v.len());
    assert(v@.subrange(0, v@.len() as int) == v@);
    s
}

/// A copy of `s`.
pub fn copy_str(s: &str) -> (r: String)
    ensures
        r@ == s@,
{
    s.to_owned()
}

/// `a` followed by `b`.
pub fn concat2(a: &str, b: &str) -> (r: String)
    ensures
        r@ == a@ + b@,
{
    let mut r = a.to_owned();
    r.append(b);
    r
}

/// `a`, `b`, `c` in a row.
pub fn concat3(a: &str, b: &str, c: &str) -> (r: String)
    ensures
        r@ == a@ + b@ + c@,
{
    let mut r = a.to_owned();
    r.append(b);
    r.append(c);
    r
}

pub fn is_ws_char(c: char) -> (b: bool)
    ensures
        b == is_ws(c),
{
    ('\u{9}' <= c && c <= '\u{d}') || c == ' ' || c == '\u{85}' || c == '\u{a0}' || c
        == '\u{1680}' || ('\u{2000}' <= c && c <= '\u{200a}') || c == '\u{2028}' || c
        == '\u{2029}' || c == '\u{202f}' || c == '\u{205f}' || c == '\u{3000}'
}

/// Bounds `(lo, hi)` of `trim_ws(v)` within `v`.
fn trim_bounds(v: &Vec<char>) -> (r: (usize, usize))
    ensures
        r.0 <= r.1 <= v@.len(),
        v@.subrange(r.0 as int, r.1 as int) == trim_ws(v@),
{
    let n = v.len();
    let mut lo: usize = 0;
    assert(v@.subrange(0, n as int) == v@);
    while lo < n && is_ws_char(v[lo])
        invariant
            lo <= n == v@.len(),
            trim_start_ws(v@.subrange(lo as int, n as int)) == trim_start_ws(v@),
        decreases n - lo,
    {
        assert(v@.subrange(lo as int, n as int).drop_first() == v@.subrange(lo + 1, n as int));
        lo += 1;
    }
    assert(v@.subrange(0, n as int) == v@);
    assert(trim_start_ws(v@.subrange(lo as int, n as int)) == v@.subrange(lo as int, n as int));
    let mut hi: usize = n;
    while hi > lo && is_ws_char(v[hi - 1])
        invariant
            lo <= hi <= n == v@.len(),
            trim_end_ws(v@.subrange(lo as int, hi as int)) == trim_ws(v@),
        decreases hi,
    {
        assert(v@.subrange(lo as int, hi as int).drop_last() == v@.subrange(
            lo as int,
            hi - 1,
        ));
        hi -= 1;
    }
    (lo, hi)
}

/// `str::trim`.
pub fn trim(s: &str) -> (r: String)
    ensures
        r@ == trim_ws(s@),
{
    let v = chars_of(s);
    let (lo, hi) = trim_bounds(&v);
    string_of_range(&v, lo, hi)
}

/// `s` without its trailing `c` characters.
pub fn trim_end_matches_char(s: &str, c: char) -> (r: String)
    ensures
        r@ == trim_end_char(s@, c),
{
    let v = chars_of(s);
    let mut end: usize = v.len();
    assert(v@.take(v@.len() as int) == v@);
    while end > 0 && v[end - 1] == c
        invariant
            end <= v@.len(),
            trim_end_char(v@.take(end as int), c) == trim_end_char(s@, c),
            v@ == s@,
        decreases end,
    {
        assert(v@.take(end as int).drop_last() == v@.take(end - 1));
        end -= 1;
    }
    assert(trim_end_char(v@.take(end as int), c) == v@.take(end as int));
    assert(v@.take(end as int) == v@.subrange(0, end as int));
    string_of_range(&v, 0, end)
}

/// Whether `p` occurs in `v` at index `i`.
fn occurs_at_vec(v: &Vec<char>, p: &Vec<char>, i: usize) -> (b: bool)
    ensures
        b == occurs_at(v@, p@, i as int),
{
    let n = v.len();
    if i > n || p.len() > n - i {
        return false;
    }
    let mut j: usize = 0;
    while j < p.len()
        invariant
            n == v@.len(),
            i + p@.len() <= v@.len(),
            j <= p@.len(),
            forall|k: int| 0 <= k < j ==> v@[i + k] == p@[k],
        decreases p.len() - j,
    {
        if v[i + j] != p[j] {
            assert(v@.subrange(i as int, i + p@.len())[j as int] != p@[j as int]);
            return false;
        }
        j += 1;
    }
    assert(v@.subrange(i as int, i + p@.len()) == p@);
    true
}

/// `str::starts_with`.
pub fn starts_with_str(s: &str, p: &str) -> (b: bool)
    ensures
        b == starts_with(s@, p@),
{
    let v = chars_of(s);
    let q = chars_of(p);
    let b = occurs_at_vec(&v, &q, 0);
    assert(v@.take(q@.len() as int) == v@.subrange(0, q@.len() as int));
    b
}

/// `str::ends_with`.
pub fn ends_with_str(s: &str, p: &str) -> (b: bool)
    ensures
        b == ends_with(s@, p@),
{
    let v = chars_of(s);
    let q = chars_of(p);
    if q.len() > v.len() {
        return false;
    }
    let b = occurs_at_vec(&v, &q, v.len() - q.len());
    assert(v@.skip(v@.len() - q@.len()) == v@.subrange(v@.len() - q@.len(), v@.len() as int));
    b
}

/// `str::contains` with a `&str` pattern.
pub fn contains_str(s: &str, p: &str) -> (b: bool)
    ensures
        b == contains(s@, p@),
{
    let v = chars_of(s);
    let q = chars_of(p);
    if q.len() > v.len() {
        assert forall|i: int| !occurs_at(s@, p@, i) by {}
        return false;
    }
    let last = v.len() - q.len();
    let mut i: usize = 0;
    loop
        invariant
            i <= last,
            last + q@.len() == v@.len(),
            v@ == s@,
            q@ == p@,
            forall|k: int| 0 <= k < i ==> !occurs_at(s@, p@, k),
        ensures
            forall|k: int| 0 <= k <= last ==> !occurs_at(s@, p@, k),
        decreases last - i,
    {
        if occurs_at_vec(&v, &q, i) {
            return true;
        }
        if i == last {
            break;
        }
        i += 1;
    }
    assert forall|k: int| !occurs_at(s@, p@, k) by {
        if 0 <= k <= last {
        }
    }
    false
}

/// `a == b` on string slices.
pub fn str_eq(a: &str, b: &str) -> (r: bool)
    ensures
        r == (a@ == b@),
{
    let x = chars_of(a);
    let y = chars_of(b);
    if x.len() != y.len() {
        return false;
    }
    let mut i: usize = 0;
    while i < x.len()
        invariant
            x@ == a@,
            y@ == b@,
            x@.len() == y@.len(),
            i <= x@.len(),
            forall|k: int| 0 <= k < i ==> x@[k] == y@[k],
        decreases x.len() - i,
    {
        if x[i] != y[i] {
            return false;
        }
        i += 1;
    }
    assert(x@ == y@);
    true
}

pub fn ascii_lower_char(c: char) -> (r: char)
    ensures
        r == ascii_lower(c),
{
    if 'A' <= c && c <= 'Z' {
        let u: u8 = (c as u8) + 32;
        u as char
    } else {
        c
    }
}

/// `str::eq_ignore_ascii_case`.
pub fn eq_ignore_ascii_case_str(a: &str, b: &str) -> (r: bool)
    ensures
        r == eq_ignore_ascii_case(a@, b@),
{
    let x = chars_of(a);
    let y = chars_of(b);
    if x.len() != y.len() {
        return false;
    }
    let mut i: usize = 0;
    while i < x.len()
        invariant
            x@ == a@,
            y@ == b@,
            x@.len() == y@.len(),
            i <= x@.len(),
            forall|k: int| 0 <= k < i ==> ascii_lower(x@[k]) == ascii_lower(y@[k]),
        decreases x.len() - i,
    {
        if ascii_lower_char(x[i]) != ascii_lower_char(y[i]) {
            return false;
        }
        i += 1;
    }
    true
}

/// Index of the first `c` in `v[from..]`, counted from the start of `v`.
pub fn find_char_from(v: &Vec<char>, from: usize, c: char) -> (r: Option<usize>)
    requires
        from <= v@.len(),
    ensures
        match r {
            Some(i) => from <= i < v@.len() && find_char(v@.skip(from as int), c) == Some(
                i - from,
            ),
            None => find_char(v@.skip(from as int), c) is None,
        },
{
    let mut i: usize = from;
    while i < v.len()
        invariant
            from <= i <= v@.len(),
            forall|k: int| from <= k < i ==> v@[k] != c,
        decreases v.len() - i,
    {
        if v[i] == c {
            proof {
                lemma_find_char_at(v@.skip(from as int), c, i - from);
            }
            return Some(i);
        }
        i += 1;
    }
    proof {
        lemma_find_char_at(v@.skip(from as int), c, v@.len() - from);
    }
    None
}

/// `str::split` with a `char` pattern.
pub fn split_on_char(s: &str, c: char) -> (parts: Vec<String>)
    ensures
        parts@.map_values(|p: String| p@) == split_char(s@, c),
{
    let v = chars_of(s);
    let mut parts: Vec<String> = Vec::new();
    let mut start: usize = 0;
    let n = v.len();
    assert(v@.skip(0) == v@);
    assert(parts@.map_values(|p: String| p@) + split_char(v@.skip(0), c) == split_char(s@, c));
    loop
        invariant
            v@ == s@,
            n == v@.len(),
            start <= v@.len(),
            parts@.map_values(|p: String| p@) + split_char(v@.skip(start as int), c)
                == split_char(s@, c),
        decreases v@.len() - start,
    {
        let rest = Ghost(v@.skip(start as int));
        match find_char_from(&v, start, c) {
            Some(i) => {
                let piece = string_of_range(&v, start, i);
                assert(rest@.take(i - start) == v@.subrange(start as int, i as int));
                assert(rest@.skip(i - start + 1) == v@.skip(i + 1));
                assert(split_char(rest@, c) == seq![rest@.take(i - start)] + split_char(
                    rest@.skip(i - start + 1),
                    c,
                ));
                let ghost old_parts = parts@.map_values(|p: String| p@);
                parts.push(piece);
                assert(parts@.map_values(|p: String| p@) == old_parts.push(piece@));
                start = i + 1;
            },
            None => {
                let piece = string_of_range(&v, start, v.len());
                assert(rest@ == v@.subrange(start as int, v@.len() as int));
                let ghost old_parts = parts@.map_values(|p: String| p@);
                parts.push(piece);
                assert(parts@.map_values(|p: String| p@) == old_parts.push(piece@));
                return parts;
            },
        }
    }
}

/// `str::split_once` with a `char` pattern.
pub fn split_once_on_char(s: &str, c: char) -> (r: Option<(String, String)>)
    ensures
        match r {
            Some(p) => split_once_char(s@, c) == Some((p.0@, p.1@)),
            None => split_once_char(s@, c) is None,
        },
{
    let v = chars_of(s);
    let n = v.len();
    assert(v@.skip(0) == v@);
    match find_char_from(&v, 0, c) {
        Some(i) => {
            let a = string_of_range(&v, 0, i);
            let b = string_of_range(&v, i + 1, v.len());
            assert(v@.take(i as int) == v@.subrange(0, i as int));
            assert(v@.skip(i + 1) == v@.subrange(i + 1, v@.len() as int));
            Some((a, b))
        },
        None => None,
    }
}

/// The first `n` characters of `s`, or all of it.
pub fn take_chars_str(s: &str, n: usize) -> (r: String)
    ensures
        r@ == take_chars(s@, n as nat),
{
    let v = chars_of(s);
    if n < v.len() {
        let r = string_of_range(&v, 0, n);
        assert(v@.take(n as int) == v@.subrange(0, n as int));
        r
    } else {
        s.to_owned()
    }
}

/// The pieces joined with `sep` between them (`[String]::join`).
pub fn join_strings(parts: &Vec<String>, sep: &str) -> (r: String)
    ensures
        r@ == join(parts@.map_values(|p: String| p@), sep@),
{
    let ghost views = parts@.map_values(|p: String| p@);
    let mut r = String::new();
    let mut i: usize = 0;
    while i < parts.len()
        invariant
            i <= parts@.len(),
            views == parts@.map_values(|p: String| p@),
            r@ == join(views.take(i as int), sep@),
        decreases parts.len() - i,
    {
        assert(views.take(i + 1).drop_last() == views.take(i as int));
        assert(views.take(i + 1).last() == parts@[i as int]@);
        if i > 0 {
            r.append(sep);
        } else {
            assert(views.take(1) == seq![views[0]]);
        }
        r.append(parts[i].as_str());
        i += 1;
    }
    assert(views.take(parts@.len() as int) == views);
    r
}

/// Decimal text of an unsigned integer.
pub fn decimal_string(n: u64) -> (r: String)
    ensures
        r@ == decimal(n as nat),
    decreases n,
{
    let d: u8 = (n % 10) as u8;
    let c = (48 + d) as char;
    if n < 10 {
        let mut r = String::new();
        r.push(c);
        r
    } else {
        let mut r = decimal_string(n / 10);
        r.push(c);
        r
    }
}

/// `str::lines`.
pub fn lines_of(s: &str) -> (out: Vec<String>)
    ensures
        out@.map_values(|p: String| p@) == lines(s@),
{
    let v = chars_of(s);
    let n = v.len();
    let mut out: Vec<String> = Vec::new();
    let mut start: usize = 0;
    assert(v@.skip(0) == v@);
    assert(out@.map_values(|p: String| p@) + lines(v@.skip(0)) == lines(s@));
    while start < n
        invariant
            v@ == s@,
            n == v@.len(),
            start <= n,
            out@.map_values(|p: String| p@) + lines(v@.skip(start as int)) == lines(s@),
        decreases n - start,
    {
        let ghost rest = v@.skip(start as int);
        let ghost old_out = out@.map_values(|p: String| p@);
        match find_char_from(&v, start, '\n') {
            Some(i) => {
                let end = if i > start && v[i - 1] == '\r' {
                    i - 1
                } else {
                    i
                };
                let piece = string_of_range(&v, start, end);
                proof {
                    let line = rest.take(i - start);
                    assert(line == v@.subrange(start as int, i as int));
                    if i > start && v@[i - 1] == '\r' {
                        assert(line.len() > 0 && line.last() == '\r');
                        assert(line.drop_last() == v@.subrange(start as int, end as int));
                    }
                    assert(rest.skip(i - start + 1) == v@.skip(i + 1));
                }
                out.push(piece);
                assert(out@.map_values(|p: String| p@) == old_out.push(piece@));
                start = i + 1;
            },
            None => {
                let piece = string_of_range(&v, start, n);
                assert(rest == v@.subrange(start as int, n as int));
                out.push(piece);
                assert(out@.map_values(|p: String| p@) == old_out.push(piece@));
                assert(v@.skip(n as int).len() == 0);
                start = n;
            },
        }
    }
    assert(v@.skip(start as int).len() == 0);
    assert(lines(v@.skip(start as int)) == Seq::<Seq<char>>::empty());
    assert(out@.map_values(|p: String| p@) + Seq::<Seq<char>>::empty() == out@.map_values(
        |p: String| p@,
    ));
    out
}

/// `str::trim_start_matches` with a `&str` pattern.
pub fn trim_start_matches_str(s: &str, p: &str) -> (r: String)
    ensures
        r@ == trim_start_seq(s@, p@),
{
    let v = chars_of(s);
    let q = chars_of(p);
    let n = v.len();
    let mut start: usize = 0;
    assert(v@.skip(0) == v@);
    if q.len() == 0 {
        return s.to_owned();
    }
    while occurs_at_vec(&v, &q, start)
        invariant
            v@ == s@,
            q@ == p@,
            q@.len() > 0,
            n == v@.len(),
            start <= n,
            trim_start_seq(v@.skip(start as int), q@) == trim_start_seq(s@, p@),
        decreases n - start,
    {
        assert(v@.skip(start as int).take(q@.len() as int) == v@.subrange(
            start as int,
            start + q@.len(),
        ));
        assert(v@.skip(start as int).skip(q@.len() as int) == v@.skip(start + q@.len()));
        start = start + q.len();
    }
    assert(v@.skip(start as int).take(q@.len() as int) =~= v@.subrange(
        start as int,
        start + q@.len(),
    ) || q@.len() > v@.skip(start as int).len());
    assert(!starts_with(v@.skip(start as int), q@));
    assert(v@.skip(start as int) == v@.subrange(start as int, n as int));
    string_of_range(&v, start, n)
}

/// Skipping a run of whitespace does not change `trim_start_ws`.
proof fn lemma_trim_start_skip(v: Seq<char>, p: int, q: int)
    requires
        0 <= p <= q <= v.len(),
        forall|k: int| p <= k < q ==> is_ws(v[k]),
    ensures
        trim_start_ws(v.skip(p)) == trim_start_ws(v.skip(q)),
    decreases q - p,
{
    if p < q {
        assert(v.skip(p).drop_first() == v.skip(p + 1));
        lemma_trim_start_skip(v, p + 1, q);
    }
}

/// `word_len` of `v.skip(q)` is the length of its leading non-whitespace run.
proof fn lemma_word_len(v: Seq<char>, q: int, r: int)
    requires
        0 <= q <= r <= v.len(),
        forall|k: int| q <= k < r ==> !is_ws(v[k]),
        r == v.len() || is_ws(v[r]),
    ensures
        word_len(v.skip(q)) == r - q,
    decreases r - q,
{
    if q < r {
        assert(v.skip(q).drop_first() == v.skip(q + 1));
        lemma_word_len(v, q + 1, r);
    } else {
        if r < v.len() {
            assert(v.skip(q)[0] == v[r]);
        }
    }
}

/// `str::split_whitespace`.
pub fn words_of(s: &str) -> (out: Vec<String>)
    ensures
        out@.map_values(|p: String| p@) == words(s@),
{
    let v = chars_of(s);
    let n = v.len();
    let mut out: Vec<String> = Vec::new();
    let mut pos: usize = 0;
    assert(v@.skip(0) == v@);
    assert(out@.map_values(|p: String| p@) + words(v@.skip(0)) == words(s@));
    loop
        invariant
            v@ == s@,
            n == v@.len(),
            pos <= n,
            out@.map_values(|p: String| p@) + words(v@.skip(pos as int)) == words(s@),
        decreases n - pos,
    {
        let start_pos = pos;
        let mut q = pos;
        while q < n && is_ws_char(v[q])
            invariant
                start_pos <= q <= n == v@.len(),
                forall|k: int| start_pos <= k < q ==> is_ws(v@[k]),
            decreases n - q,
        {
            q += 1;
        }
        proof {
            lemma_trim_start_skip(v@, start_pos as int, q as int);
            if q < n {
                assert(v@.skip(q as int)[0] == v@[q as int]);
            }
            assert(trim_start_ws(v@.skip(q as int)) == v@.skip(q as int));
        }
        if q == n {
            assert(v@.skip(q as int).len() == 0);
            assert(words(v@.skip(start_pos as int)) == Seq::<Seq<char>>::empty());
            assert(out@.map_values(|p: String| p@) + Seq::<Seq<char>>::empty() == out@.map_values(
                |p: String| p@,
            ));
            return out;
        }
        let mut r = q;
        while r < n && !is_ws_char(v[r])
            invariant
                q <= r <= n == v@.len(),
                forall|k: int| q <= k < r ==> !is_ws(v@[k]),
            decreases n - r,
        {
            r += 1;
        }
        proof {
            lemma_word_len(v@, q as int, r as int);
            let t = v@.skip(q as int);
            assert(t.take(r - q) == v@.subrange(q as int, r as int));
            assert(t.skip(r - q) == v@.skip(r as int));
            assert(words(v@.skip(start_pos as int)) == seq![t.take(r - q)] + words(
                t.skip(r - q),
            ));
        }
        let ghost before = out@.map_values(|p: String| p@);
        let w = string_of_range(&v, q, r);
        out.push(w);
        assert(out@.map_values(|p: String| p@) == before.push(w@));
        pos = r;
    }
}

} // verus!
