//! Character-level text handling: the views of `str`/`String` are `Seq<char>`,
//! and every routine here is specified over those sequences.
use vstd::prelude::*;

verus! {

broadcast use vstd::string::group_string_axioms;

/// `String::push` appends one character; the contract claims exactly that of
/// the string's characters, as the standard library documents it.
pub assume_specification[ String::push ](s: &mut String, ch: char)
    ensures
        final(s)@ == old(s)@.push(ch),
;

/// The characters of `s`, in order.
pub fn chars_of(s: &str) -> (out: Vec<char>)
    ensures
        out@ == s@,
{
    let mut out: Vec<char> = Vec::new();
    for c in it: s.chars()
        invariant
            it.seq() == s@,
            out@ == it.seq().take(it.index() as int),
    {
        out.push(c);
    }
    out
}

/// A `String` holding exactly the characters of `cs`.
pub fn string_of(cs: &Vec<char>) -> (out: String)
    ensures
        out@ == cs@,
{
    let mut out = String::new();
    let mut i: usize = 0;
    while i < cs.len()
        invariant
            i <= cs.len(),
            out@ == cs@.take(i as int),
        decreases cs.len() - i,
    {
        out.push(cs[i]);
        i = i + 1;
    }
    out
}

/// The character sequences held by a list of strings.
pub open spec fn views(v: Seq<String>) -> Seq<Seq<char>> {
    v.map_values(|x: String| x@)
}

/// Appends a copy of `s` to `v`.
pub fn push_str(v: &mut Vec<String>, s: &str)
    ensures
        views(final(v)@) == views(old(v)@).push(s@),
{
    let ghost before = views(v@);
    v.push(s.to_string());
    assert(views(v@) =~= before.push(s@));
}

/// Appends `s` to `v`.
pub fn push_string(v: &mut Vec<String>, s: String)
    ensures
        views(final(v)@) == views(old(v)@).push(s@),
{
    let ghost before = views(v@);
    let ghost sv = s@;
    v.push(s);
    assert(views(v@) =~= before.push(sv));
}

/// `a` followed by `b`, as a new `String`.
pub fn concat(a: &str, b: &str) -> (out: String)
    ensures
        out@ == a@ + b@,
{
    let mut out = a.to_string();
    out.append(b);
    out
}

/// `a`, `b` and `c` joined, as a new `String`.
pub fn concat3(a: &str, b: &str, c: &str) -> (out: String)
    ensures
        out@ == a@ + b@ + c@,
{
    let mut out = a.to_string();
    out.append(b);
    out.append(c);
    out
}

// ------------------------------------------------------------------
// Whitespace (the Unicode `White_Space` property, as `char::is_whitespace`).

pub open spec fn is_ws(c: char) -> bool {
    ||| c == '\t' || c == '\n' || c == '\u{0B}' || c == '\u{0C}' || c == '\r' || c == ' '
    ||| c == '\u{85}' || c == '\u{A0}' || c == '\u{1680}'
    ||| ('\u{2000}' <= c && c <= '\u{200A}')
    ||| c == '\u{2028}' || c == '\u{2029}' || c == '\u{202F}' || c == '\u{205F}' || c == '\u{3000}'
}

pub fn is_whitespace(c: char) -> (b: bool)
    ensures
        b == is_ws(c),
{
    c == '\t' || c == '\n' || c == '\u{0B}' || c == '\u{0C}' || c == '\r' || c == ' ' || c
        == '\u{85}' || c == '\u{A0}' || c == '\u{1680}' || ('\u{2000}' <= c && c <= '\u{200A}')
        || c == '\u{2028}' || c == '\u{2029}' || c == '\u{202F}' || c == '\u{205F}' || c
        == '\u{3000}'
}

// ------------------------------------------------------------------
// Substring search.

/// `needle` occurs in `hay` starting at position `i`.
pub open spec fn occurs_at(hay: Seq<char>, needle: Seq<char>, i: int) -> bool {
    &&& 0 <= i
    &&& i + needle.len() <= hay.len()
    &&& hay.subrange(i, i + needle.len()) == needle
}

/// `needle` is a contiguous part of `hay` (what `str::contains` tests).
pub open spec fn has_sub(hay: Seq<char>, needle: Seq<char>) -> bool {
    exists|i: int| occurs_at(hay, needle, i)
}

/// Whether `needle` occurs in `hay` at position `i`.
pub fn matches_at(hay: &Vec<char>, needle: &Vec<char>, i: usize) -> (b: bool)
    requires
        i + needle@.len() <= hay@.len(),
    ensures
        b == occurs_at(hay@, needle@, i as int),
{
    let hay_len = hay.len();
    let mut k: usize = 0;
    while k < needle.len()
        invariant
            hay_len == hay@.len(),
            k <= needle@.len(),
            i + needle@.len() <= hay@.len(),
            forall|j: int| 0 <= j < k ==> hay@[i + j] == needle@[j],
        decreases needle.len() - k,
    {
        assert(i + k < hay_len);
        if hay[i + k] != needle[k] {
            assert(hay@.subrange(i as int, i + needle@.len())[k as int] != needle@[k as int]);
            return false;
        }
        k = k + 1;
    }
    assert(hay@.subrange(i as int, i + needle@.len()) =~= needle@);
    true
}

/// Whether `needle` occurs in `hay`.
pub fn contains(hay: &Vec<char>, needle: &Vec<char>) -> (b: bool)
    ensures
        b == has_sub(hay@, needle@),
{
    if needle.len() > hay.len() {
        return false;
    }
    let last = hay.len() - needle.len();
    let mut i: usize = 0;
    while i <= last
        invariant
            last == hay@.len() - needle@.len(),
            needle@.len() <= hay@.len(),
            forall|j: int| 0 <= j < i ==> !occurs_at(hay@, needle@, j),
        decreases last + 1 - i,
    {
        if matches_at(hay, needle, i) {
            return true;
        }
        if i == last {
            assert forall|j: int| !occurs_at(hay@, needle@, j) by {
                if occurs_at(hay@, needle@, j) {
                    assert(j <= i);
                }
            }
            return false;
        }
        i = i + 1;
    }
    false
}

/// `hay` ends with `suffix`.
pub open spec fn ends_with(hay: Seq<char>, suffix: Seq<char>) -> bool {
    suffix.len() <= hay.len() && hay.skip(hay.len() - suffix.len()) == suffix
}

/// Whether `hay` ends with `suffix`.
pub fn ends_with_vec(hay: &Vec<char>, suffix: &Vec<char>) -> (b: bool)
    ensures
        b == ends_with(hay@, suffix@),
{
    if suffix.len() > hay.len() {
        return false;
    }
    let start = hay.len() - suffix.len();
    let b = matches_at(hay, suffix, start);
    assert(hay@.skip(start as int) =~= hay@.subrange(start as int, start + suffix@.len()));
    b
}

/// The first `n` characters of `v`.
pub fn prefix_of(v: &Vec<char>, n: usize) -> (out: Vec<char>)
    requires
        n <= v@.len(),
    ensures
        out@ == v@.take(n as int),
{
    let mut out: Vec<char> = Vec::new();
    let mut i: usize = 0;
    while i < n
        invariant
            i <= n,
            n <= v@.len(),
            out@ == v@.take(i as int),
        decreases n - i,
    {
        out.push(v[i]);
        assert(out@ =~= v@.take(i + 1));
        i = i + 1;
    }
    out
}

/// Whether `needle` occurs in `hay` (`str::contains` with a string pattern).
pub fn str_contains(hay: &str, needle: &str) -> (b: bool)
    ensures
        b == has_sub(hay@, needle@),
{
    let h = chars_of(hay);
    let n = chars_of(needle);
    contains(&h, &n)
}


// ------------------------------------------------------------------
// Lines (as `str::lines`): split at '\n', a '\r' just before a '\n' is
// dropped, and a final line ending is optional.

/// The pieces of `s` between '\n' characters (one more than there are '\n's).
pub open spec fn split_nl(s: Seq<char>) -> Seq<Seq<char>>
    decreases s.len(),
{
    if s.len() == 0 {
        seq![Seq::<char>::empty()]
    } else {
        let p = split_nl(s.drop_last());
        if s.last() == '\n' {
            p.push(Seq::<char>::empty())
        } else {
            p.update(p.len() - 1, p.last().push(s.last()))
        }
    }
}

pub proof fn lemma_split_nl_nonempty(s: Seq<char>)
    ensures
        split_nl(s).len() >= 1,
    decreases s.len(),
{
    if s.len() > 0 {
        lemma_split_nl_nonempty(s.drop_last());
    }
}

pub open spec fn strip_cr(line: Seq<char>) -> Seq<char> {
    if line.len() > 0 && line.last() == '\r' {
        line.drop_last()
    } else {
        line
    }
}

/// The lines of `s`, as `str::lines` yields them.
pub open spec fn lines(s: Seq<char>) -> Seq<Seq<char>> {
    let p = split_nl(s);
    let done = p.drop_last().map_values(|q: Seq<char>| strip_cr(q));
    if p.last().len() == 0 {
        done
    } else {
        done.push(p.last())
    }
}

fn strip_cr_vec(line: Vec<char>) -> (out: Vec<char>)
    ensures
        out@ == strip_cr(line@),
{
    let mut line = line;
    if line.len() > 0 && line[line.len() - 1] == '\r' {
        line.pop();
    }
    line
}

pub proof fn lemma_split_nl_last(s: Seq<char>)
    requires
        s.len() > 0,
        s.last() != '\n',
    ensures
        split_nl(s).len() >= 1,
        split_nl(s).last().len() > 0,
        split_nl(s).last().last() == s.last(),
        split_nl(s).drop_last() == split_nl(s.drop_last()).drop_last(),
{
    lemma_split_nl_nonempty(s.drop_last());
    let p = split_nl(s.drop_last());
    assert(split_nl(s).drop_last() =~= p.drop_last());
}

/// A final line ending is optional: adding "\n" (or "\r\n") after a last
/// line does not change the lines (when the text does not already end with a
/// line break or a carriage return).
pub proof fn lemma_final_line_ending_optional(s: Seq<char>)
    requires
        s.len() > 0,
        s.last() != '\n',
        s.last() != '\r',
    ensures
        lines(s.push('\n')) == lines(s),
        lines(s.push('\r').push('\n')) == lines(s),
{
    lemma_split_nl_last(s);
    let p = split_nl(s);
    assert(s.push('\n').drop_last() =~= s);
    let q = split_nl(s.push('\n'));
    assert(q == p.push(Seq::<char>::empty()));
    assert(q.drop_last() =~= p);
    assert(strip_cr(p.last()) == p.last());
    assert(lines(s.push('\n')) =~= lines(s));
    let sr = s.push('\r');
    assert(sr.drop_last() =~= s);
    assert(sr.push('\n').drop_last() =~= sr);
    lemma_split_nl_last(sr);
    let pr = split_nl(sr);
    assert(pr == p.update(p.len() - 1, p.last().push('\r')));
    assert(strip_cr(pr.last()) =~= p.last());
    assert(lines(sr.push('\n')) =~= lines(s));
}

/// The character sequences held by a list of character vectors.
pub open spec fn view_all(v: Seq<Vec<char>>) -> Seq<Seq<char>> {
    v.map_values(|x: Vec<char>| x@)
}

/// The lines of `s`, as `str::lines` yields them.
pub fn lines_of(s: &Vec<char>) -> (out: Vec<Vec<char>>)
    ensures
        view_all(out@) == lines(s@),
{
    let mut out: Vec<Vec<char>> = Vec::new();
    let mut cur: Vec<char> = Vec::new();
    let n = s.len();
    let mut i: usize = 0;
    proof {
        assert(s@.take(0) =~= Seq::<char>::empty());
    }
    while i < n
        invariant
            n == s@.len(),
            i <= n,
            split_nl(s@.take(i as int)).len() >= 1,
            view_all(out@) == split_nl(s@.take(i as int)).drop_last().map_values(
                |q: Seq<char>| strip_cr(q),
            ),
            cur@ == split_nl(s@.take(i as int)).last(),
        decreases n - i,
    {
        let c = s[i];
        let ghost prev = s@.take(i as int);
        assert(s@.take(i + 1).drop_last() =~= prev);
        assert(s@.take(i + 1).last() == c);
        proof {
            lemma_split_nl_nonempty(prev);
        }
        if c == '\n' {
            let done = strip_cr_vec(cur);
            let ghost old_dv = view_all(out@);
            let ghost done_v = done@;
            out.push(done);
            assert(view_all(out@) =~= old_dv.push(done_v));
            cur = Vec::new();
            assert(split_nl(s@.take(i + 1)).drop_last() =~= split_nl(prev));
            assert(view_all(out@) =~= split_nl(s@.take(i + 1)).drop_last().map_values(
                |q: Seq<char>| strip_cr(q),
            ));
        } else {
            cur.push(c);
            assert(split_nl(s@.take(i + 1)).drop_last() =~= split_nl(prev).drop_last());
        }
        i = i + 1;
    }
    assert(s@.take(n as int) =~= s@);
    if cur.len() > 0 {
        let ghost old_dv = view_all(out@);
        let ghost cur_v = cur@;
        out.push(cur);
        assert(view_all(out@) =~= old_dv.push(cur_v));
        assert(view_all(out@) =~= lines(s@));
    }
    out
}

// ------------------------------------------------------------------
// Whitespace-delimited tokens and trimming.

/// The longest prefix of `s` free of whitespace.
pub open spec fn leading_run(s: Seq<char>) -> Seq<char>
    decreases s.len(),
{
    if s.len() == 0 || is_ws(s[0]) {
        Seq::<char>::empty()
    } else {
        seq![s[0]] + leading_run(s.drop_first())
    }
}

/// The first whitespace-delimited token of `s` (`split_whitespace().next()`).
pub open spec fn first_token(s: Seq<char>) -> Option<Seq<char>>
    decreases s.len(),
{
    if s.len() == 0 {
        None
    } else if is_ws(s[0]) {
        first_token(s.drop_first())
    } else {
        Some(leading_run(s))
    }
}

/// `s` without its leading whitespace.
pub open spec fn trim_start(s: Seq<char>) -> Seq<char>
    decreases s.len(),
{
    if s.len() > 0 && is_ws(s[0]) {
        trim_start(s.drop_first())
    } else {
        s
    }
}

/// `s` without its trailing whitespace (`str::trim_end`).
pub open spec fn trim_end(s: Seq<char>) -> Seq<char>
    decreases s.len(),
{
    if s.len() > 0 && is_ws(s.last()) {
        trim_end(s.drop_last())
    } else {
        s
    }
}

/// `s` without leading or trailing whitespace (`str::trim`).
pub open spec fn trim(s: Seq<char>) -> Seq<char> {
    trim_end(trim_start(s))
}

/// The first whitespace-delimited token of `s`, if it has one.
pub fn first_token_of(s: &Vec<char>) -> (out: Option<Vec<char>>)
    ensures
        match out {
            Some(t) => first_token(s@) == Some(t@),
            None => first_token(s@) is None,
        },
{
    let n = s.len();
    let mut i: usize = 0;
    assert(s@.skip(0) =~= s@);
    while i < n && is_whitespace(s[i])
        invariant
            n == s@.len(),
            i <= n,
            first_token(s@) == first_token(s@.skip(i as int)),
        decreases n - i,
    {
        assert(s@.skip(i as int).drop_first() =~= s@.skip(i + 1));
        i = i + 1;
    }
    if i == n {
        assert(s@.skip(i as int).len() == 0);
        return None;
    }
    let start = i;
    let mut tok: Vec<char> = Vec::new();
    while i < n && !is_whitespace(s[i])
        invariant
            n == s@.len(),
            start < n,
            start <= i <= n,
            !is_ws(s@[start as int]),
            tok@ == s@.subrange(start as int, i as int),
            leading_run(s@.skip(start as int)) == tok@ + leading_run(s@.skip(i as int)),
        decreases n - i,
    {
        assert(s@.skip(i as int).drop_first() =~= s@.skip(i + 1));
        tok.push(s[i]);
        assert(tok@ =~= s@.subrange(start as int, i + 1));
        assert(seq![s@[i as int]] + leading_run(s@.skip(i + 1)) == leading_run(s@.skip(i as int)));
        assert(tok@ + leading_run(s@.skip(i + 1)) =~= s@.subrange(start as int, i as int) + (seq![s@[i as int]] + leading_run(s@.skip(i + 1))));
        i = i + 1;
    }
    assert(leading_run(s@.skip(i as int)) =~= Seq::<char>::empty());
    assert(tok@ + Seq::<char>::empty() =~= tok@);
    Some(tok)
}

/// `s` without leading or trailing whitespace.
pub fn trim_of(s: &Vec<char>) -> (out: Vec<char>)
    ensures
        out@ == trim(s@),
{
    let n = s.len();
    let mut i: usize = 0;
    assert(s@.skip(0) =~= s@);
    while i < n && is_whitespace(s[i])
        invariant
            n == s@.len(),
            i <= n,
            trim_start(s@) == trim_start(s@.skip(i as int)),
        decreases n - i,
    {
        assert(s@.skip(i as int).drop_first() =~= s@.skip(i + 1));
        i = i + 1;
    }
    let ghost t = s@.skip(i as int);
    assert(trim_start(s@) == t);
    let mut j: usize = n;
    assert(t.take((j - i) as int) =~= t);
    while j > i && is_whitespace(s[j - 1])
        invariant
            n == s@.len(),
            i <= j <= n,
            t == s@.skip(i as int),
            trim_end(t) == trim_end(t.take((j - i) as int)),
        decreases j,
    {
        assert(t.take((j - i) as int).drop_last() =~= t.take((j - 1 - i) as int));
        j = j - 1;
    }
    assert(trim_end(t.take((j - i) as int)) == t.take((j - i) as int));
    let mut out: Vec<char> = Vec::new();
    let mut k: usize = i;
    while k < j
        invariant
            i <= k <= j <= n,
            n == s@.len(),
            out@ == s@.subrange(i as int, k as int),
        decreases j - k,
    {
        out.push(s[k]);
        assert(out@ =~= s@.subrange(i as int, k + 1));
        k = k + 1;
    }
    assert(out@ =~= t.take((j - i) as int));
    out
}

/// `s` without trailing whitespace.
pub fn trim_end_of(s: &Vec<char>) -> (out: Vec<char>)
    ensures
        out@ == trim_end(s@),
{
    let n = s.len();
    let mut j: usize = n;
    assert(s@.take(n as int) =~= s@);
    while j > 0 && is_whitespace(s[j - 1])
        invariant
            n == s@.len(),
            j <= n,
            trim_end(s@) == trim_end(s@.take(j as int)),
        decreases j,
    {
        assert(s@.take(j as int).drop_last() =~= s@.take(j - 1));
        j = j - 1;
    }
    let mut out: Vec<char> = Vec::new();
    let mut k: usize = 0;
    while k < j
        invariant
            k <= j <= n,
            n == s@.len(),
            out@ == s@.take(k as int),
        decreases j - k,
    {
        out.push(s[k]);
        assert(out@ =~= s@.take(k + 1));
        k = k + 1;
    }
    out
}

// ------------------------------------------------------------------
// Decimal numerals.

pub open spec fn digit_char(d: nat) -> char {
    (48 + d) as char
}

/// The decimal numeral of `n`, as `Display` writes an unsigned integer.
pub open spec fn decimal(n: nat) -> Seq<char>
    decreases n,
{
    if n < 10 {
        seq![digit_char(n)]
    } else {
        decimal(n / 10).push(digit_char(n % 10))
    }
}

fn digit(d: u64) -> (c: char)
    requires
        d < 10,
    ensures
        c == digit_char(d as nat),
{
    if d == 0 {
        '0'
    } else if d == 1 {
        '1'
    } else if d == 2 {
        '2'
    } else if d == 3 {
        '3'
    } else if d == 4 {
        '4'
    } else if d == 5 {
        '5'
    } else if d == 6 {
        '6'
    } else if d == 7 {
        '7'
    } else if d == 8 {
        '8'
    } else {
        '9'
    }
}

/// The decimal numeral of `n`.
pub fn decimal_of(n: u64) -> (out: Vec<char>)
    ensures
        out@ == decimal(n as nat),
    decreases n,
{
    if n < 10 {
        let mut v: Vec<char> = Vec::new();
        v.push(digit(n));
        assert(v@ =~= seq![digit_char(n as nat)]);
        v
    } else {
        let mut v = decimal_of(n / 10);
        v.push(digit(n % 10));
        v
    }
}

/// The decimal numeral of `n`, as a `String`.
pub fn decimal_string(n: u64) -> (out: String)
    ensures
        out@ == decimal(n as nat),
{
    let v = decimal_of(n);
    string_of(&v)
}

pub open spec fn is_digit(c: char) -> bool {
    '0' <= c && c <= '9'
}

pub open spec fn all_digits(s: Seq<char>) -> bool {
    forall|i: int| 0 <= i < s.len() ==> is_digit(#[trigger] s[i])
}

/// The number a run of decimal digits denotes.
pub open spec fn digits_value(s: Seq<char>) -> nat
    decreases s.len(),
{
    if s.len() == 0 {
        0
    } else {
        digits_value(s.drop_last()) * 10 + ((s.last() as nat) - 48) as nat
    }
}

/// The integer `s` denotes under `str::parse` for a signed integer type,
/// before the range of that type is checked: an optional '+' or '-', then at
/// least one ASCII digit, and nothing else.
pub open spec fn parse_int(s: Seq<char>) -> Option<int> {
    if s.len() > 0 && (s[0] == '-' || s[0] == '+') {
        let r = s.drop_first();
        if r.len() > 0 && all_digits(r) {
            if s[0] == '-' {
                Some(-(digits_value(r) as int))
            } else {
                Some(digits_value(r) as int)
            }
        } else {
            None
        }
    } else if s.len() > 0 && all_digits(s) {
        Some(digits_value(s) as int)
    } else {
        None
    }
}

/// What `s.parse::<i32>()` gives, `None` standing for its error.
pub open spec fn parse_i32(s: Seq<char>) -> Option<i32> {
    match parse_int(s) {
        Some(v) => if i32::MIN <= v && v <= i32::MAX {
            Some(v as i32)
        } else {
            None
        },
        None => None,
    }
}

/// Parses `s` as a decimal `i32` exactly as `str::parse::<i32>` does.
pub fn parse_i32_of(s: &Vec<char>) -> (out: Option<i32>)
    ensures
        out == parse_i32(s@),
{
    let n = s.len();
    if n == 0 {
        return None;
    }
    let neg = s[0] == '-';
    let start: usize = if s[0] == '-' || s[0] == '+' { 1 } else { 0 };
    if start == n {
        return None;
    }
    let ghost r = s@.skip(start as int);
    assert(start == 1 ==> r =~= s@.drop_first());
    assert(start == 0 ==> r =~= s@);
    // magnitudes above this bound are out of range for either sign
    let bound: i64 = 2147483648;
    let mut acc: i64 = 0;
    let mut over = false;
    let mut k: usize = start;
    while k < n
        invariant
            n == s@.len(),
            start <= k <= n,
            start <= 1,
            r == s@.skip(start as int),
            start == 1 <==> (s@[0] == '-' || s@[0] == '+'),
            neg <==> s@[0] == '-',
            bound == 2147483648,
            0 <= acc,
            all_digits(r.take(k - start)),
            !over ==> acc == digits_value(r.take(k - start)) && acc <= bound,
            over ==> digits_value(r.take(k - start)) > bound,
        decreases n - k,
    {
        let c = s[k];
        assert(r.take(k + 1 - start).drop_last() =~= r.take(k - start));
        assert(r.take(k + 1 - start).last() == c);
        if !('0' <= c && c <= '9') {
            assert(!all_digits(r)) by {
                assert(r[k - start] == c);
            }
            return None;
        }
        let d: i64 = (c as u32 - 48) as i64;
        if !over {
            let next = acc * 10 + d;
            if next > bound {
                over = true;
            } else {
                acc = next;
            }
        }
        assert(all_digits(r.take(k + 1 - start)));
        k = k + 1;
    }
    assert(r.take(n - start) =~= r);
    if over {
        return None;
    }
    if neg {
        Some((0 - acc) as i32)
    } else if acc > 2147483647 {
        None
    } else {
        Some(acc as i32)
    }
}

/// The number written by the digits `s[from..to]`, if they are all digits
/// and the number fits in a `u32`.
pub fn digits_u32(s: &Vec<char>, from: usize, to: usize) -> (out: Option<u32>)
    requires
        from <= to <= s@.len(),
    ensures
        ({
            let d = s@.subrange(from as int, to as int);
            match out {
                Some(v) => all_digits(d) && digits_value(d) == v,
                None => !all_digits(d) || digits_value(d) > u32::MAX,
            }
        }),
{
    let ghost d = s@.subrange(from as int, to as int);
    let mut acc: u64 = 0;
    let mut over = false;
    let mut k: usize = from;
    assert(d.take(0) =~= Seq::<char>::empty());
    while k < to
        invariant
            from <= k <= to <= s@.len(),
            d == s@.subrange(from as int, to as int),
            all_digits(d.take(k - from)),
            !over ==> acc == digits_value(d.take(k - from)) && acc <= u32::MAX,
            over ==> digits_value(d.take(k - from)) > u32::MAX,
        decreases to - k,
    {
        let c = s[k];
        assert(d.take(k + 1 - from).drop_last() =~= d.take(k - from));
        assert(d.take(k + 1 - from).last() == c);
        if !('0' <= c && c <= '9') {
            assert(!all_digits(d)) by {
                assert(d[k - from] == c);
            }
            return None;
        }
        let v: u64 = (c as u32 - 48) as u64;
        if !over {
            let next = acc * 10 + v;
            if next > 4294967295 {
                over = true;
            } else {
                acc = next;
            }
        }
        assert(all_digits(d.take(k + 1 - from)));
        k = k + 1;
    }
    assert(d.take(to - from) =~= d);
    if over {
        None
    } else {
        Some(acc as u32)
    }
}

/// Parses `s` as a decimal `i32` (`str::parse::<i32>`).
pub fn parse_i32_str(s: &str) -> (out: Option<i32>)
    ensures
        out == parse_i32(s@),
{
    let v = chars_of(s);
    parse_i32_of(&v)
}

pub proof fn lemma_decimal_digits(n: nat)
    ensures
        decimal(n).len() > 0,
        all_digits(decimal(n)),
        digits_value(decimal(n)) == n,
    decreases n,
{
    if n < 10 {
        assert(decimal(n).drop_last() =~= Seq::<char>::empty());
        assert((digit_char(n) as nat) - 48 == n);
        assert(decimal(n).last() == digit_char(n));
        assert(digits_value(Seq::<char>::empty()) == 0);
        assert(digits_value(decimal(n)) == digits_value(decimal(n).drop_last()) * 10 + n);
    } else {
        lemma_decimal_digits(n / 10);
        assert((digit_char(n % 10) as nat) - 48 == n % 10);
        assert(decimal(n).last() == digit_char(n % 10));
        let d = decimal(n / 10);
        assert(decimal(n).drop_last() =~= d);
        assert(digits_value(decimal(n)) == digits_value(d) * 10 + n % 10);
        assert forall|i: int| 0 <= i < decimal(n).len() implies is_digit(#[trigger] decimal(n)[i]) by {
            if i < d.len() {
                assert(decimal(n)[i] == d[i]);
            }
        }
    }
}

/// Reading back what `decimal` writes gives the number again, for every
/// number in the range of `i32`.
pub proof fn lemma_parse_decimal_roundtrip(n: nat)
    requires
        n <= i32::MAX,
    ensures
        parse_i32(decimal(n)) == Some(n as i32),
{
    lemma_decimal_digits(n);
    assert(is_digit(decimal(n)[0]));
}

// ------------------------------------------------------------------
// Lower-case hexadecimal.

pub open spec fn hex_char(v: nat) -> char {
    if v < 10 {
        (48 + v) as char
    } else {
        (87 + v) as char
    }
}

/// The two lower-case hex digits of a byte, as `{:02x}` writes them.
pub open spec fn hex_byte(b: u8) -> Seq<char> {
    seq![hex_char((b / 16) as nat), hex_char((b % 16) as nat)]
}

/// The lower-case hex rendering of a byte string, two digits per byte.
pub open spec fn hex_string(bytes: Seq<u8>) -> Seq<char>
    decreases bytes.len(),
{
    if bytes.len() == 0 {
        Seq::<char>::empty()
    } else {
        hex_string(bytes.drop_last()) + hex_byte(bytes.last())
    }
}

fn hex_digit(v: u8) -> (c: char)
    requires
        v < 16,
    ensures
        c == hex_char(v as nat),
{
    if v < 10 {
        digit(v as u64)
    } else if v == 10 {
        'a'
    } else if v == 11 {
        'b'
    } else if v == 12 {
        'c'
    } else if v == 13 {
        'd'
    } else if v == 14 {
        'e'
    } else {
        'f'
    }
}

/// The lower-case hex rendering of `bytes`.
pub fn hex_of(bytes: &[u8]) -> (out: Vec<char>)
    ensures
        out@ == hex_string(bytes@),
{
    let mut out: Vec<char> = Vec::new();
    let n = bytes.len();
    let mut i: usize = 0;
    assert(bytes@.take(0) =~= Seq::<u8>::empty());
    while i < n
        invariant
            n == bytes@.len(),
            i <= n,
            out@ == hex_string(bytes@.take(i as int)),
        decreases n - i,
    {
        let b = bytes[i];
        out.push(hex_digit(b / 16));
        out.push(hex_digit(b % 16));
        assert(bytes@.take(i + 1).drop_last() =~= bytes@.take(i as int));
        assert(out@ =~= hex_string(bytes@.take(i + 1)));
        i = i + 1;
    }
    assert(bytes@.take(n as int) =~= bytes@);
    out
}

} // verus!
