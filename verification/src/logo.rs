//! The art above the log: the user's own (from `config.json` or
//! `ascii.txt`) or the default logo, shaped so that centring keeps its
//! columns together, and cut to the space the console leaves for it.
use vstd::prelude::*;
use crate::settings::text_view;
use crate::text::{
    chars_of, lines, lines_of, push_string, string_of, trim, trim_end, trim_end_of, trim_of, view_all,
    views,
};

verus! {

broadcast use vstd::string::group_string_axioms;

/// The default logo.
pub open spec fn default_logo() -> Seq<char> {
    "                   ___                                  \n  ____ ___  ______/ (_)___  _________  __  _______________\n / __ `/ / / / __  / / __ \\/ ___/ __ \\/ / / / ___/ ___/ _ \\\n/ /_/ / /_/ / /_/ / / /_/ (__  ) /_/ / /_/ / /  / /__/  __/\n\\__,_/\\__,_/\\__,_/_/\\____/____/\\____/\\__,_/_/   \\___/\\___/"@
}

/// The default logo's text.
pub fn default_logo_text() -> (s: &'static str)
    ensures
        s@ == default_logo(),
{
    "                   ___                                  \n  ____ ___  ______/ (_)___  _________  __  _______________\n / __ `/ / / / __  / / __ \\/ ___/ __ \\/ / / / ___/ ___/ _ \\\n/ /_/ / /_/ / /_/ / / /_/ (__  ) /_/ / /_/ / /  / /__/  __/\n\\__,_/\\__,_/\\__,_/_/\\____/____/\\____/\\__,_/_/   \\___/\\___/"
}

/// A text with nothing but whitespace in it.
pub open spec fn blank(s: Seq<char>) -> bool {
    trim(s).len() == 0
}

/// The art to show: the one in `config.json` if it has any, else the one in
/// `ascii.txt` if it has any, else the default logo.
pub open spec fn art_text(config_art: Option<Seq<char>>, file_art: Option<Seq<char>>) -> Seq<char> {
    if config_art is Some && !blank(config_art->0) {
        config_art->0
    } else if file_art is Some && !blank(file_art->0) {
        file_art->0
    } else {
        default_logo()
    }
}

/// The length of the longest line.
pub open spec fn widest(ls: Seq<Seq<char>>) -> nat
    decreases ls.len(),
{
    if ls.len() == 0 {
        0
    } else {
        let w = widest(ls.drop_last());
        if ls.last().len() > w {
            ls.last().len()
        } else {
            w
        }
    }
}

/// `l` filled up with spaces to `w` characters.
pub open spec fn pad_to(l: Seq<char>, w: nat) -> Seq<char> {
    if l.len() >= w {
        l
    } else {
        l + Seq::new((w - l.len()) as nat, |i: int| ' ')
    }
}

/// The lines of the art without their trailing whitespace.
pub open spec fn trimmed_lines(text: Seq<char>) -> Seq<Seq<char>> {
    lines(text).map_values(|l: Seq<char>| trim_end(l))
}

/// The art's lines, without trailing whitespace and all filled up to the
/// longest, so that centring moves them all alike.
pub open spec fn shaped(text: Seq<char>) -> Seq<Seq<char>> {
    let ls = trimmed_lines(text);
    ls.map_values(|l: Seq<char>| pad_to(l, widest(ls)))
}

pub open spec fn at_most(a: nat, b: nat) -> nat {
    if a < b {
        a
    } else {
        b
    }
}

/// The lines cut to the space there is: the first `height` lines, each cut
/// to its first `width` characters.
pub open spec fn fit(ls: Seq<Seq<char>>, width: nat, height: nat) -> Seq<Seq<char>> {
    ls.take(at_most(height, ls.len()) as int).map_values(
        |l: Seq<char>| l.take(at_most(width, l.len()) as int),
    )
}

proof fn lemma_widest_bounds(ls: Seq<Seq<char>>, i: int)
    requires
        0 <= i < ls.len(),
    ensures
        ls[i].len() <= widest(ls),
    decreases ls.len(),
{
    if i < ls.len() - 1 {
        lemma_widest_bounds(ls.drop_last(), i);
    }
}

/// The art drawn always fits the space: no more than `height` lines, and all
/// of its lines equally long and no longer than `width`, so that centring
/// keeps its columns together.
pub proof fn lemma_logo_fits(text: Seq<char>, width: nat, height: nat)
    ensures
        ({
            let out = fit(shaped(text), width, height);
            &&& out.len() <= height
            &&& forall|i: int| 0 <= i < out.len() ==> #[trigger] out[i].len() <= width
            &&& forall|i: int, j: int|
                0 <= i < out.len() && 0 <= j < out.len() ==> #[trigger] out[i].len()
                    == #[trigger] out[j].len()
        }),
{
    let ls = trimmed_lines(text);
    let w = widest(ls);
    let sh = shaped(text);
    assert forall|i: int| 0 <= i < sh.len() implies #[trigger] sh[i].len() == w by {
        lemma_widest_bounds(ls, i);
    }
}

proof fn lemma_widest_attained(ls: Seq<Seq<char>>)
    requires
        ls.len() > 0,
    ensures
        exists|j: int| 0 <= j < ls.len() && #[trigger] ls[j].len() == widest(ls),
    decreases ls.len(),
{
    if ls.last().len() > widest(ls.drop_last()) || ls.len() == 1 {
        assert(ls[ls.len() - 1].len() == widest(ls));
    } else {
        lemma_widest_attained(ls.drop_last());
        let j = choose|j: int| 0 <= j < ls.drop_last().len() && #[trigger] ls.drop_last()[j].len() == widest(ls.drop_last());
        assert(ls[j].len() == widest(ls));
    }
}

/// Given room enough, every line of the art becomes one row, in order,
/// blank lines included: row `i` is line `i` without its trailing
/// whitespace, followed by spaces only, and all rows are as long as the
/// longest of those lines.
pub proof fn lemma_every_line_is_a_row(text: Seq<char>, width: nat, height: nat)
    requires
        height >= lines(text).len(),
        forall|i: int| 0 <= i < lines(text).len() ==> #[trigger] trim_end(lines(text)[i]).len() <= width,
    ensures
        ({
            let out = fit(shaped(text), width, height);
            let ls = lines(text);
            &&& out.len() == ls.len()
            &&& forall|i: int|
                0 <= i < ls.len() ==> #[trigger] out[i].take(trim_end(ls[i]).len() as int) == trim_end(
                    ls[i],
                )
            &&& forall|i: int, k: int|
                0 <= i < ls.len() && trim_end(ls[i]).len() <= k < out[i].len() ==> #[trigger] out[i][k]
                    == ' '
            &&& forall|i: int, j: int|
                0 <= i < ls.len() && 0 <= j < ls.len() ==> #[trigger] trim_end(ls[j]).len() <= #[trigger] out[i].len()
            &&& forall|i: int|
                0 <= i < ls.len() ==> exists|j: int|
                    0 <= j < ls.len() && #[trigger] out[i].len() == trim_end(ls[j]).len()
        }),
{
    let ls = lines(text);
    let tl = trimmed_lines(text);
    let w = widest(tl);
    let sh = shaped(text);
    let out = fit(sh, width, height);
    assert forall|i: int| 0 <= i < tl.len() implies #[trigger] sh[i] == pad_to(tl[i], w) && sh[i].len()
        == w by {
        lemma_widest_bounds(tl, i);
    }
    if tl.len() > 0 {
        lemma_widest_attained(tl);
    }
    let j0 = choose|j: int| 0 <= j < tl.len() && #[trigger] tl[j].len() == w;
    assert(w <= width) by {
        if tl.len() > 0 {
            assert(tl[j0] == trim_end(ls[j0]));
        }
    }
    assert forall|i: int| 0 <= i < ls.len() implies #[trigger] out[i] == sh[i] by {
        assert(sh[i].take(sh[i].len() as int) =~= sh[i]);
    }
    assert forall|i: int| 0 <= i < ls.len() implies #[trigger] out[i].take(trim_end(ls[i]).len() as int)
        == trim_end(ls[i]) by {
        assert(tl[i] == trim_end(ls[i]));
        assert(out[i].take(tl[i].len() as int) =~= tl[i]);
    }
    assert forall|i: int, k: int|
        0 <= i < ls.len() && trim_end(ls[i]).len() <= k < out[i].len() implies #[trigger] out[i][k]
            == ' ' by {
        assert(tl[i] == trim_end(ls[i]));
    }
    assert forall|i: int, j: int|
        0 <= i < ls.len() && 0 <= j < ls.len() implies #[trigger] trim_end(ls[j]).len() <= #[trigger] out[i].len() by {
        assert(tl[j] == trim_end(ls[j]));
        lemma_widest_bounds(tl, j);
    }
    assert forall|i: int| 0 <= i < ls.len() implies exists|j: int|
        0 <= j < ls.len() && #[trigger] out[i].len() == trim_end(ls[j]).len() by {
        assert(tl[j0] == trim_end(ls[j0]));
    }
}

fn is_blank(s: &str) -> (b: bool)
    ensures
        b == blank(s@),
{
    let cs = chars_of(s);
    trim_of(&cs).len() == 0
}

/// The lines of the art to draw in a space `width` wide and `height` high,
/// chosen and shaped as `art_text`, `shaped` and `fit` say.
pub fn logo_lines(config_art: &Option<String>, file_art: &Option<String>, width: usize, height: usize) -> (out: Vec<String>)
    ensures
        views(out@) == fit(
            shaped(art_text(text_view(*config_art), text_view(*file_art))),
            width as nat,
            height as nat,
        ),
{
    let text: &str = match config_art {
        Some(a) if !is_blank(a.as_str()) => a.as_str(),
        _ => match file_art {
            Some(f) if !is_blank(f.as_str()) => f.as_str(),
            _ => default_logo_text(),
        },
    };
    let ghost t = art_text(text_view(*config_art), text_view(*file_art));
    assert(text@ == t);
    let cs = chars_of(text);
    let ls = lines_of(&cs);
    // the lines without trailing whitespace, and the widest of them
    let mut tr: Vec<Vec<char>> = Vec::new();
    let mut w: usize = 0;
    let mut i: usize = 0;
    while i < ls.len()
        invariant
            i <= ls@.len(),
            view_all(ls@) == lines(t),
            view_all(tr@) == trimmed_lines(t).take(i as int),
            w == widest(view_all(tr@)),
        decreases ls.len() - i,
    {
        let l = trim_end_of(&ls[i]);
        let ghost before = view_all(tr@);
        if l.len() > w {
            w = l.len();
        }
        tr.push(l);
        assert(view_all(tr@).drop_last() =~= before);
        assert(view_all(tr@) =~= trimmed_lines(t).take(i + 1));
        i = i + 1;
    }
    assert(view_all(tr@) =~= trimmed_lines(t));
    let ghost sh = shaped(t);
    let rows = if height < tr.len() {
        height
    } else {
        tr.len()
    };
    let mut out: Vec<String> = Vec::new();
    let mut r: usize = 0;
    while r < rows
        invariant
            rows == at_most(height as nat, tr@.len()),
            rows <= tr@.len(),
            view_all(tr@) == trimmed_lines(t),
            w == widest(trimmed_lines(t)),
            sh == shaped(t),
            sh.len() == tr@.len(),
            r <= rows,
            views(out@) == fit(sh, width as nat, height as nat).take(r as int),
        decreases rows - r,
    {
        let l = &tr[r];
        let ghost p = pad_to(l@, w as nat);
        proof {
            lemma_widest_bounds(trimmed_lines(t), r as int);
            assert(sh[r as int] == p);
        }
        let cols = if width < w {
            width
        } else {
            w
        };
        let mut line: Vec<char> = Vec::new();
        let mut k: usize = 0;
        while k < cols
            invariant
                cols == at_most(width as nat, p.len()),
                p.len() == w,
                p == pad_to(l@, w as nat),
                l@.len() <= w,
                k <= cols,
                line@ == p.take(k as int),
            decreases cols - k,
        {
            if k < l.len() {
                line.push(l[k]);
            } else {
                line.push(' ');
            }
            assert(line@ =~= p.take(k + 1));
            k = k + 1;
        }
        let ghost before = views(out@);
        push_string(&mut out, string_of(&line));
        assert(views(out@) =~= fit(sh, width as nat, height as nat).take(r + 1));
        r = r + 1;
    }
    assert(fit(sh, width as nat, height as nat).take(rows as int) =~= fit(
        sh,
        width as nat,
        height as nat,
    ));
    out
}

} // verus!
