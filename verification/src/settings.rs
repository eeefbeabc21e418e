//! The saved audio state (mute and volume), and its text in `config.json`.
use vstd::prelude::*;
use crate::text::{
    all_digits, chars_of, decimal, decimal_string, digits_u32, digits_value, ends_with, ends_with_vec,
    is_digit, is_ws, matches_at, prefix_of, string_of, occurs_at, trim, trim_end, trim_of, trim_start, lemma_decimal_digits,
};

verus! {

broadcast use vstd::string::group_string_axioms;

/// The microphone's mute state and volume percentage, kept across runs.
#[derive(PartialEq, Eq, Structural, Clone, Copy, Debug)]
pub struct AudioState {
    pub muted: bool,
    pub volume: u32,
}

pub open spec fn bool_text(b: bool) -> Seq<char> {
    if b {
        "true"@
    } else {
        "false"@
    }
}

/// The opening of the saved text, up to the mute state.
pub open spec fn head_text() -> Seq<char> {
    "{\"muted\": "@
}

/// What stands between the mute state and the volume.
pub open spec fn mid_text() -> Seq<char> {
    ", \"volume\": "@
}

/// The saved text: `{"muted": <true|false>, "volume": <percent>}`.
pub open spec fn state_text(st: AudioState) -> Seq<char> {
    head_text() + bool_text(st.muted) + mid_text() + decimal(st.volume as nat) + "}"@
}

/// The volume part of a saved text `t` whose mute state ends at `p`.
pub open spec fn volume_part(t: Seq<char>, p: int, muted: bool) -> Option<AudioState> {
    let n = t.len() as int;
    if occurs_at(t, mid_text(), p) && p + mid_text().len() < n - 1 {
        let d = t.subrange(p + mid_text().len(), n - 1);
        if all_digits(d) && digits_value(d) <= u32::MAX {
            Some(AudioState { muted, volume: digits_value(d) as u32 })
        } else {
            None
        }
    } else {
        None
    }
}

/// The audio state a saved text holds: the text, without surrounding
/// whitespace, must be `{"muted": <true|false>, "volume": <digits>}` with a
/// volume that fits in a `u32`; anything else holds none.
pub open spec fn parse_state(s: Seq<char>) -> Option<AudioState> {
    let t = trim(s);
    let h = head_text().len() as int;
    if h + 1 <= t.len() && occurs_at(t, head_text(), 0) && t.last() == '}' {
        if occurs_at(t, "true"@, h) {
            volume_part(t, h + 4, true)
        } else if occurs_at(t, "false"@, h) {
            volume_part(t, h + 5, false)
        } else {
            None
        }
    } else {
        None
    }
}

/// The text to save for `st`.
pub fn state_to_text(st: AudioState) -> (out: String)
    ensures
        out@ == state_text(st),
{
    let mut out = "{\"muted\": ".to_string();
    if st.muted {
        out.append("true");
    } else {
        out.append("false");
    }
    out.append(", \"volume\": ");
    let d = decimal_string(st.volume as u64);
    out.append(d.as_str());
    out.append("}");
    out
}

fn volume_part_of(t: &Vec<char>, p: usize, muted: bool, mid: &Vec<char>) -> (out: Option<AudioState>)
    requires
        mid@ == mid_text(),
        p <= t@.len(),
    ensures
        out == volume_part(t@, p as int, muted),
{
    proof {
        reveal_strlit(", \"volume\": ");
    }
    let n = t.len();
    if mid.len() <= n - p && matches_at(t, mid, p) && mid.len() + 1 < n - p {
        match digits_u32(t, p + mid.len(), n - 1) {
            Some(v) => Some(AudioState { muted, volume: v }),
            None => None,
        }
    } else {
        None
    }
}

/// Reads a saved text back, as `parse_state` says.
pub fn parse_state_text(s: &str) -> (out: Option<AudioState>)
    ensures
        out == parse_state(s@),
{
    proof {
        reveal_strlit("{\"muted\": ");
        reveal_strlit("true");
        reveal_strlit("false");
    }
    let raw = chars_of(s);
    let t = trim_of(&raw);
    let head = chars_of("{\"muted\": ");
    let yes = chars_of("true");
    let no = chars_of("false");
    let mid = chars_of(", \"volume\": ");
    let n = t.len();
    let h = head.len();
    if !(h + 1 <= n && matches_at(&t, &head, 0) && t[n - 1] == '}') {
        return None;
    }
    if h + 4 <= n && matches_at(&t, &yes, h) {
        volume_part_of(&t, h + 4, true, &mid)
    } else if h + 5 <= n && matches_at(&t, &no, h) {
        volume_part_of(&t, h + 5, false, &mid)
    } else {
        None
    }
}

pub proof fn lemma_trim_identity(s: Seq<char>)
    requires
        s.len() > 0,
        !is_ws(s[0]),
        !is_ws(s.last()),
    ensures
        trim(s) == s,
{
    assert(trim_start(s) == s);
    assert(trim_end(s) == s);
}

/// Reading back a saved text gives the saved state again.
pub proof fn lemma_state_roundtrip(st: AudioState)
    ensures
        parse_state(state_text(st)) == Some(st),
{
    reveal_strlit("{\"muted\": ");
    reveal_strlit("true");
    reveal_strlit("false");
    reveal_strlit(", \"volume\": ");
    reveal_strlit("}");
    let b = bool_text(st.muted);
    let d = decimal(st.volume as nat);
    lemma_decimal_digits(st.volume as nat);
    let t = state_text(st);
    let h = head_text().len() as int;
    let p = h + b.len();
    let k = mid_text().len() as int;
    let n = t.len() as int;
    assert(n == h + b.len() + k + d.len() + 1);
    assert(t[0] == '{');
    assert(t.last() == '}');
    lemma_trim_identity(t);
    assert(t.subrange(0, h) =~= head_text());
    assert(t.subrange(h, h + b.len()) =~= b);
    assert(t.subrange(p, p + k) =~= mid_text());
    assert(t.subrange(p + k, n - 1) =~= d);
    if st.muted {
        assert(occurs_at(t, "true"@, h));
    } else {
        assert(t[h] == b[0]);
        assert(t[h] == 'f');
        assert(!occurs_at(t, "true"@, h)) by {
            if occurs_at(t, "true"@, h) {
                assert(t.subrange(h, h + 4)[0] == "true"@[0]);
            }
        }
        assert(occurs_at(t, "false"@, h));
    }
}


// ------------------------------------------------------------------
// The art text, quoted in `config.json`.

/// A character as it stands inside the quoted art: backslash, quote and
/// line feed are escaped, everything else stands as it is.
pub open spec fn escape_char(c: char) -> Seq<char> {
    if c == '\\' {
        seq!['\\', '\\']
    } else if c == '"' {
        seq!['\\', '"']
    } else if c == '\n' {
        seq!['\\', 'n']
    } else {
        seq![c]
    }
}

/// The quoted form of `s`, without the quotes.
pub open spec fn escape(s: Seq<char>) -> Seq<char>
    decreases s.len(),
{
    if s.len() == 0 {
        Seq::<char>::empty()
    } else {
        escape_char(s[0]) + escape(s.drop_first())
    }
}

/// The character an escape `\c` stands for.
pub open spec fn unescaped_char(c: char) -> char {
    if c == 'n' {
        '\n'
    } else {
        c
    }
}

/// `o` in front of the text `r`, when there is one.
pub open spec fn prefixed(o: Seq<char>, r: Option<Seq<char>>) -> Option<Seq<char>> {
    match r {
        Some(x) => Some(o + x),
        None => None,
    }
}

/// The text a quoted form stands for: `\\`, `\"` and `\n` are escapes; any
/// other backslash, or a bare quote, makes it unreadable.
pub open spec fn unescape(s: Seq<char>) -> Option<Seq<char>>
    decreases s.len(),
{
    if s.len() == 0 {
        Some(Seq::<char>::empty())
    } else if s[0] == '\\' {
        if s.len() >= 2 && (s[1] == '\\' || s[1] == '"' || s[1] == 'n') {
            prefixed(seq![unescaped_char(s[1])], unescape(s.skip(2)))
        } else {
            None
        }
    } else if s[0] == '"' {
        None
    } else {
        prefixed(seq![s[0]], unescape(s.skip(1)))
    }
}

pub proof fn lemma_escape_concat(a: Seq<char>, b: Seq<char>)
    ensures
        escape(a + b) == escape(a) + escape(b),
    decreases a.len(),
{
    if a.len() == 0 {
        assert(a + b =~= b);
    } else {
        lemma_escape_concat(a.drop_first(), b);
        assert((a + b).drop_first() =~= a.drop_first() + b);
        assert((a + b)[0] == a[0]);
        assert(escape_char(a[0]) + (escape(a.drop_first()) + escape(b)) =~= (escape_char(a[0])
            + escape(a.drop_first())) + escape(b));
    }
}

/// Reading the quoted form back gives the text again.
pub proof fn lemma_unescape_escape(s: Seq<char>)
    ensures
        unescape(escape(s)) == Some(s),
    decreases s.len(),
{
    if s.len() > 0 {
        let c = s[0];
        let rest = escape(s.drop_first());
        lemma_unescape_escape(s.drop_first());
        let e = escape(s);
        assert(e == escape_char(c) + rest);
        assert(seq![c] + s.drop_first() =~= s);
        if c == '\\' || c == '"' || c == '\n' {
            assert(e.skip(2) =~= rest);
            assert(e[0] == '\\');
        } else {
            assert(e.skip(1) =~= rest);
            assert(e[0] == c);
        }
    }
}

/// The quoted form of `s`.
pub fn escape_of(s: &Vec<char>) -> (out: Vec<char>)
    ensures
        out@ == escape(s@),
{
    let mut out: Vec<char> = Vec::new();
    let mut i: usize = 0;
    assert(s@.take(0) =~= Seq::<char>::empty());
    while i < s.len()
        invariant
            i <= s@.len(),
            out@ == escape(s@.take(i as int)),
        decreases s.len() - i,
    {
        let c = s[i];
        proof {
            lemma_escape_concat(s@.take(i as int), seq![c]);
            assert(s@.take(i + 1) =~= s@.take(i as int) + seq![c]);
            assert(seq![c].drop_first() =~= Seq::<char>::empty());
            assert(seq![c][0] == c);
            assert(escape(Seq::<char>::empty()) == Seq::<char>::empty());
            assert(escape(seq![c]) =~= escape_char(c) + escape(Seq::<char>::empty()));
            assert(escape(seq![c]) =~= escape_char(c));
        }
        if c == '\\' {
            out.push('\\');
            out.push('\\');
        } else if c == '"' {
            out.push('\\');
            out.push('"');
        } else if c == '\n' {
            out.push('\\');
            out.push('n');
        } else {
            out.push(c);
        }
        assert(out@ =~= escape(s@.take(i as int)) + escape_char(c));
        i = i + 1;
    }
    assert(s@.take(s@.len() as int) =~= s@);
    out
}

/// The text that the quoted form `t[from..to]` stands for, as `unescape` says.
pub fn unescape_range(t: &Vec<char>, from: usize, to: usize) -> (out: Option<Vec<char>>)
    requires
        from <= to <= t@.len(),
    ensures
        match out {
            Some(v) => unescape(t@.subrange(from as int, to as int)) == Some(v@),
            None => unescape(t@.subrange(from as int, to as int)) is None,
        },
{
    let mut out: Vec<char> = Vec::new();
    let mut i: usize = from;
    assert(Seq::<char>::empty() + t@.subrange(from as int, to as int) =~= t@.subrange(
        from as int,
        to as int,
    ));
    while i < to
        invariant
            from <= i <= to <= t@.len(),
            unescape(t@.subrange(from as int, to as int)) == prefixed(
                out@,
                unescape(t@.subrange(i as int, to as int)),
            ),
        decreases to - i,
    {
        let ghost u = t@.subrange(i as int, to as int);
        let c = t[i];
        assert(u[0] == c);
        if c == '\\' {
            if i + 1 < to && (t[i + 1] == '\\' || t[i + 1] == '"' || t[i + 1] == 'n') {
                let d = if t[i + 1] == 'n' {
                    '\n'
                } else {
                    t[i + 1]
                };
                assert(u[1] == t@[i + 1]);
                assert(u.skip(2) =~= t@.subrange(i + 2, to as int));
                proof {
                    let r = unescape(t@.subrange(i + 2, to as int));
                    if r is Some {
                        assert(out@ + (seq![d] + r->0) =~= out@.push(d) + r->0);
                    }
                }
                out.push(d);
                i = i + 2;
            } else {
                if i + 1 < to {
                    assert(u[1] == t@[i + 1]);
                }
                return None;
            }
        } else if c == '"' {
            return None;
        } else {
            assert(u.skip(1) =~= t@.subrange(i + 1, to as int));
            proof {
                let r = unescape(t@.subrange(i + 1, to as int));
                if r is Some {
                    assert(out@ + (seq![c] + r->0) =~= out@.push(c) + r->0);
                }
            }
            out.push(c);
            i = i + 1;
        }
    }
    assert(t@.subrange(i as int, to as int) =~= Seq::<char>::empty());
    assert(out@ + Seq::<char>::empty() =~= out@);
    Some(out)
}


// ------------------------------------------------------------------
// The whole of `config.json`: the audio state, and custom art if any.

/// What stands between the volume and the quoted art.
pub open spec fn art_key() -> Seq<char> {
    ", \"ascii_art\": \""@
}

/// What ends a text that holds art.
pub open spec fn art_end() -> Seq<char> {
    "\"}"@
}

/// The first position at or after `j` where `needle` occurs in `hay`.
pub open spec fn first_occurrence(hay: Seq<char>, needle: Seq<char>, j: int) -> Option<int>
    decreases hay.len() + 1 - j,
{
    if j < 0 || j + needle.len() > hay.len() {
        None
    } else if occurs_at(hay, needle, j) {
        Some(j)
    } else {
        first_occurrence(hay, needle, j + 1)
    }
}

/// A trimmed config text split into its state text and, when it holds art,
/// the quoted art: the art starts after the first `, "ascii_art": "` and runs
/// up to the closing `"}`.
pub open spec fn config_parts(t: Seq<char>) -> (Seq<char>, Option<Seq<char>>) {
    match first_occurrence(t, art_key(), 0) {
        Some(i) => if i + art_key().len() + art_end().len() <= t.len() && ends_with(t, art_end()) {
            (t.subrange(0, i).push('}'), Some(t.subrange(i + art_key().len(), t.len() - 2)))
        } else {
            (t, None)
        },
        None => (t, None),
    }
}

/// What `config.json` holds: the audio state, as `parse_state` reads it, and
/// the custom art when the text has a readable one.
pub open spec fn parse_config(s: Seq<char>) -> (Option<AudioState>, Option<Seq<char>>) {
    let (st, art) = config_parts(trim(s));
    (
        parse_state(st),
        match art {
            Some(e) => unescape(e),
            None => None,
        },
    )
}

/// The text of `config.json` for an audio state and, when there is one, the
/// custom art: `{"muted": <b>, "volume": <v>, "ascii_art": "<quoted art>"}`.
pub open spec fn config_text(st: AudioState, art: Option<Seq<char>>) -> Seq<char> {
    match art {
        None => state_text(st),
        Some(a) => state_text(st).drop_last() + art_key() + escape(a) + art_end(),
    }
}

proof fn lemma_first_occurrence_at(hay: Seq<char>, needle: Seq<char>, j: int, i: int)
    requires
        0 <= j <= i,
        occurs_at(hay, needle, i),
        forall|k: int| j <= k < i ==> !occurs_at(hay, needle, k),
    ensures
        first_occurrence(hay, needle, j) == Some(i),
    decreases i - j,
{
    if j < i {
        lemma_first_occurrence_at(hay, needle, j + 1, i);
    }
}

proof fn lemma_no_occurrence(hay: Seq<char>, needle: Seq<char>, j: int)
    requires
        0 <= j,
        forall|k: int| j <= k ==> !occurs_at(hay, needle, k),
    ensures
        first_occurrence(hay, needle, j) is None,
    decreases hay.len() + 1 - j,
{
    if j + needle.len() <= hay.len() {
        lemma_no_occurrence(hay, needle, j + 1);
    }
}

/// The only comma of a state text is the one after the mute state, and a
/// 'v' stands three places after it.
proof fn lemma_state_commas(st: AudioState, j: int)
    requires
        0 <= j < state_text(st).len(),
        state_text(st)[j] == ',',
    ensures
        j == head_text().len() + bool_text(st.muted).len(),
        j + 3 < state_text(st).len() - 1,
        state_text(st)[j + 3] == 'v',
{
    reveal_strlit("{\"muted\": ");
    reveal_strlit("true");
    reveal_strlit("false");
    reveal_strlit(", \"volume\": ");
    reveal_strlit("}");
    lemma_decimal_digits(st.volume as nat);
    let h = head_text().len() as int;
    let b = bool_text(st.muted);
    let k = mid_text().len() as int;
    let d = decimal(st.volume as nat);
    let t = state_text(st);
    assert(t == head_text() + b + mid_text() + d + "}"@);
    if j < h {
        assert(t[j] == head_text()[j]);
    } else if j < h + b.len() {
        assert(t[j] == b[j - h]);
    } else if j < h + b.len() + k {
        assert(t[j] == mid_text()[j - h - b.len()]);
        assert(t[j + 3] == mid_text()[j + 3 - h - b.len()]);
    } else if j < h + b.len() + k + d.len() {
        assert(t[j] == d[j - h - b.len() - k]);
        assert(is_digit(d[j - h - b.len() - k]));
    } else {
        assert(t[j] == '}');
    }
}

/// Reading back a saved config text gives the saved state and art again.
pub proof fn lemma_config_roundtrip(st: AudioState, art: Option<Seq<char>>)
    ensures
        parse_config(config_text(st, art)) == (Some(st), art),
{
    reveal_strlit(", \"ascii_art\": \"");
    reveal_strlit("\"}");
    reveal_strlit("{\"muted\": ");
    reveal_strlit("}");
    lemma_state_roundtrip(st);
    let s = state_text(st);
    let key = art_key();
    assert(s[0] == '{');
    assert(s.last() == '}');
    let t = config_text(st, art);
    assert(key[0] == ',');
    assert(key[3] == 'a');
    match art {
        None => {
            lemma_trim_identity(s);
            assert forall|k: int| 0 <= k implies !occurs_at(s, key, k) by {
                if occurs_at(s, key, k) {
                    assert(s.subrange(k, k + key.len())[0] == key[0]);
                    lemma_state_commas(st, k);
                    assert(s.subrange(k, k + key.len())[3] == key[3]);
                }
            }
            lemma_no_occurrence(s, key, 0);
        },
        Some(a) => {
            let p = s.drop_last();
            let e = escape(a);
            let i = p.len() as int;
            assert(t == p + key + e + art_end());
            assert(t[0] == '{');
            assert(t.last() == '}');
            lemma_trim_identity(t);
            assert(t.subrange(i, i + key.len()) =~= key);
            assert forall|k: int| 0 <= k < i implies !occurs_at(t, key, k) by {
                if occurs_at(t, key, k) {
                    assert(t.subrange(k, k + key.len())[0] == key[0]);
                    assert(t[k] == s[k]);
                    lemma_state_commas(st, k);
                    assert(t.subrange(k, k + key.len())[3] == key[3]);
                    assert(t[k + 3] == s[k + 3]);
                }
            }
            lemma_first_occurrence_at(t, key, 0, i);
            assert(t.skip(t.len() - 2) =~= art_end());
            assert(t.subrange(0, i).push('}') =~= s);
            assert(t.subrange(i + key.len(), t.len() - 2) =~= e);
            lemma_unescape_escape(a);
        },
    }
}


/// A text that may be missing, as characters.
pub open spec fn text_view(o: Option<String>) -> Option<Seq<char>> {
    match o {
        Some(x) => Some(x@),
        None => None,
    }
}

/// The first position where `needle` occurs in `hay`.
fn find_first(hay: &Vec<char>, needle: &Vec<char>) -> (out: Option<usize>)
    ensures
        match out {
            Some(i) => first_occurrence(hay@, needle@, 0) == Some(i as int) && occurs_at(
                hay@,
                needle@,
                i as int,
            ),
            None => first_occurrence(hay@, needle@, 0) is None,
        },
{
    if needle.len() > hay.len() {
        return None;
    }
    let last = hay.len() - needle.len();
    let mut j: usize = 0;
    while j <= last
        invariant
            last == hay@.len() - needle@.len(),
            j <= last,
            first_occurrence(hay@, needle@, 0) == first_occurrence(hay@, needle@, j as int),
        decreases last - j,
    {
        if matches_at(hay, needle, j) {
            return Some(j);
        }
        if j == last {
            return None;
        }
        j = j + 1;
    }
    None
}

/// Reads `config.json`, as `parse_config` says.
pub fn parse_config_text(s: &str) -> (out: (Option<AudioState>, Option<String>))
    ensures
        (out.0, text_view(out.1)) == parse_config(s@),
{
    proof {
        reveal_strlit(", \"ascii_art\": \"");
        reveal_strlit("\"}");
    }
    let raw = chars_of(s);
    let t = trim_of(&raw);
    let key = chars_of(", \"ascii_art\": \"");
    let end = chars_of("\"}");
    let n = t.len();
    let found = find_first(&t, &key);
    let (st_text, art) = match found {
        Some(i) => {
            if end.len() <= n - (i + key.len()) && ends_with_vec(&t, &end) {
                let mut head = prefix_of(&t, i);
                head.push('}');
                (head, unescape_range(&t, i + key.len(), n - 2))
            } else {
                (t, None)
            }
        },
        None => (t, None),
    };
    let st_string = string_of(&st_text);
    let st = parse_state_text(st_string.as_str());
    match art {
        Some(a) => (st, Some(string_of(&a))),
        None => {
            proof {
                let (_, e) = config_parts(trim(s@));
                if e is Some {
                    assert(unescape(e->0) is None);
                }
            }
            (st, None)
        },
    }
}

/// The text of `config.json` for `st` and the custom art, as `config_text`
/// says.
pub fn config_to_text(st: AudioState, art: &Option<String>) -> (out: String)
    ensures
        out@ == config_text(st, text_view(*art)),
{
    match art {
        None => state_to_text(st),
        Some(a) => {
            let s = chars_of(state_to_text(st).as_str());
            let mut out = prefix_of(&s, s.len() - 1);
            let key = chars_of(", \"ascii_art\": \"");
            let e = escape_of(&chars_of(a.as_str()));
            let end = chars_of("\"}");
            let ghost p = out@;
            out.extend_from_slice(key.as_slice());
            out.extend_from_slice(e.as_slice());
            out.extend_from_slice(end.as_slice());
            assert(out@ =~= p + art_key() + escape(a@) + art_end());
            string_of(&out)
        },
    }
}

} // verus!
