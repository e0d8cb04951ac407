use vstd::prelude::*;
use crate::text::{chars_of, is_whitespace, is_ws, lines_of, segments, strip_cr, trim_end, trim_start};

verus! {

/// A progress reading taken from a job's logs: `percentage` is the whole
/// percent that the log line shows (the fraction done is `percentage / 100`),
/// `current` and `total` are the counts after it.
#[derive(Debug, Clone, Copy, PartialEq, Eq, Structural)]
pub struct PredictionProgress {
    pub percentage: i32,
    pub current: i32,
    pub total: i32,
}

pub open spec fn is_digit(c: char) -> bool {
    '0' <= c <= '9'
}

/// End of the run of whitespace in `s` that starts at `i`.
pub open spec fn ws_end(s: Seq<char>, i: int) -> int
    decreases s.len() - i,
{
    if 0 <= i < s.len() && is_ws(s[i]) {
        ws_end(s, i + 1)
    } else {
        i
    }
}

/// End of the run of ASCII digits in `s` that starts at `i`.
pub open spec fn digit_end(s: Seq<char>, i: int) -> int
    decreases s.len() - i,
{
    if 0 <= i < s.len() && is_digit(s[i]) {
        digit_end(s, i + 1)
    } else {
        i
    }
}

/// The decimal value of the digits `s[i..j]`.
pub open spec fn value(s: Seq<char>, i: int, j: int) -> nat
    decreases j - i,
{
    if j <= i {
        0
    } else {
        value(s, i, j - 1) * 10 + ((s[j - 1] as nat) - ('0' as nat)) as nat
    }
}

/// `current/total` at `i`, after optional whitespace.
pub open spec fn tail_at(s: Seq<char>, i: int) -> Option<(nat, nat)> {
    let a = ws_end(s, i);
    let b = digit_end(s, a);
    let c = digit_end(s, b + 1);
    if b == a || b >= s.len() || s[b] != '/' || c == b + 1 {
        None
    } else {
        Some((value(s, a, b), value(s, b + 1, c)))
    }
}

/// The counts after the first `|` at or after `j` that is followed by them.
pub open spec fn close_at(s: Seq<char>, j: int) -> Option<(nat, nat)>
    decreases s.len() - j,
{
    if j < 0 || j >= s.len() {
        None
    } else if s[j] == '|' && tail_at(s, j + 1) is Some {
        tail_at(s, j + 1)
    } else {
        close_at(s, j + 1)
    }
}

/// The reading in a progress line `NN% |bar| C/T`: digits and `%`, optional
/// whitespace, a `|`, at least one character of bar, the `|` that ends it,
/// optional whitespace, then `C/T`; anything may follow. The bar ends at the
/// first `|` after which the counts follow.
pub open spec fn line_reading(s: Seq<char>) -> Option<(nat, nat, nat)> {
    let a = ws_end(s, 0);
    let b = digit_end(s, a);
    let c = ws_end(s, b + 1);
    if b == a || b >= s.len() || s[b] != '%' || c >= s.len() || s[c] != '|' {
        None
    } else {
        match close_at(s, c + 2) {
            Some(t) => Some((value(s, a, b), t.0, t.1)),
            None => None,
        }
    }
}

/// The reading of one log line, trimmed; a reading whose numbers do not fit
/// in an `i32` does not count.
pub open spec fn spec_reading(line: Seq<char>) -> Option<(int, int, int)> {
    match line_reading(trim_end(trim_start(line))) {
        Some(r) => if r.0 <= i32::MAX && r.1 <= i32::MAX && r.2 <= i32::MAX {
            Some((r.0 as int, r.1 as int, r.2 as int))
        } else {
            None
        },
        None => None,
    }
}

/// The reading of the last line of `ls` that holds one.
pub open spec fn last_reading(ls: Seq<Seq<char>>) -> Option<(int, int, int)>
    decreases ls.len(),
{
    if ls.len() == 0 {
        None
    } else {
        match spec_reading(ls.last()) {
            Some(r) => Some(r),
            None => last_reading(ls.drop_last()),
        }
    }
}

pub open spec fn spec_progress(logs: Seq<char>) -> Option<(int, int, int)> {
    last_reading(lines_of(logs))
}

impl PredictionProgress {
    pub open spec fn spec_triple(&self) -> (int, int, int) {
        (self.percentage as int, self.current as int, self.total as int)
    }
}

/// The latest progress reading in `logs`: the lines are scanned from the
/// last one back, and the first that holds a reading gives it.
pub fn progress_of(logs: &str) -> (r: Option<PredictionProgress>)
    ensures
        match r {
            Some(p) => spec_progress(logs@) == Some(p.spec_triple()),
            None => spec_progress(logs@) is None,
        },
{
    let ls = split_lines(logs);
    let mut k: usize = ls.len();
    assert(views(ls@).take(k as int) =~= views(ls@));
    while k > 0
        invariant
            k <= ls.len(),
            views(ls@) == lines_of(logs@),
            last_reading(views(ls@)) == last_reading(views(ls@).take(k as int)),
        decreases k,
    {
        let ghost pre = views(ls@).take(k as int);
        assert(pre.drop_last() =~= views(ls@).take(k - 1));
        assert(pre.last() == ls@[k - 1]@);
        match reading(&ls[k - 1]) {
            Some(p) => {
                return Some(p);
            },
            None => {},
        }
        k = k - 1;
    }
    assert(views(ls@).take(0) =~= Seq::<Seq<char>>::empty());
    None
}

/// The contents of each character vector of `v`.
pub open spec fn views(v: Seq<Vec<char>>) -> Seq<Seq<char>> {
    v.map_values(|l: Vec<char>| l@)
}

/// The lines of `s`, as `str::lines` yields them.
pub fn split_lines(s: &str) -> (r: Vec<Vec<char>>)
    ensures
        views(r@) == lines_of(s@),
{
    let cs = chars_of(s);
    let mut out: Vec<Vec<char>> = Vec::new();
    let mut cur: Vec<char> = Vec::new();
    let mut i: usize = 0;
    assert(cs@.take(0) =~= Seq::<char>::empty());
    assert(views(out@) =~= segments(cs@.take(0)).drop_last().map_values(|l: Seq<char>| strip_cr(l)));
    while i < cs.len()
        invariant
            i <= cs.len(),
            segments(cs@.take(i as int)).len() >= 1,
            views(out@) == segments(cs@.take(i as int)).drop_last().map_values(
                |l: Seq<char>| strip_cr(l),
            ),
            cur@ == segments(cs@.take(i as int)).last(),
        decreases cs.len() - i,
    {
        let ghost pre = cs@.take(i as int);
        assert(cs@.take(i + 1).drop_last() =~= pre);
        proof {
            crate::text::lemma_segments_len(cs@.take(i + 1));
        }
        let c = cs[i];
        if c == '\n' {
            let ghost l = strip_cr(cur@);
            let ghost before = views(out@);
            if cur.len() > 0 && cur[cur.len() - 1] == '\r' {
                cur.pop();
            }
            assert(cur@ =~= l);
            out.push(cur);
            proof {
                let g = segments(cs@.take(i + 1));
                assert(g.drop_last() =~= segments(pre));
                assert(views(out@) =~= before.push(l));
                assert(g.drop_last().map_values(|l: Seq<char>| strip_cr(l)) =~= before.push(l));
            }
            cur = Vec::new();
            assert(cur@ =~= segments(cs@.take(i + 1)).last());
        } else {
            cur.push(c);
            proof {
                let g = segments(cs@.take(i + 1));
                assert(g.drop_last() =~= segments(pre).drop_last());
            }
        }
        i = i + 1;
    }
    assert(cs@.take(cs.len() as int) =~= cs@);
    if cur.len() > 0 {
        let ghost before = views(out@);
        let ghost last = cur@;
        out.push(cur);
        assert(views(out@) =~= before.push(last));
    }
    out
}

/// The reading of one line, where it holds one whose numbers fit.
fn reading(line: &Vec<char>) -> (r: Option<PredictionProgress>)
    ensures
        match r {
            Some(p) => spec_reading(line@) == Some(p.spec_triple()),
            None => spec_reading(line@) is None,
        },
{
    let t = trim(line);
    let s = &t;
    let a = ws_run(s, 0);
    let (b, pct) = digit_run(s, a);
    if b == a || b >= s.len() || s[b] != '%' {
        return None;
    }
    let c = ws_run(s, b + 1);
    if c >= s.len() || s[c] != '|' {
        return None;
    }
    if c + 1 >= s.len() {
        return None;
    }
    match find_close(s, c + 2) {
        Some((cur, tot)) => match (pct, cur, tot) {
            (Some(p), Some(x), Some(y)) => Some(PredictionProgress { percentage: p, current: x, total: y }),
            _ => None,
        },
        None => None,
    }
}

/// `v` without whitespace at either end.
fn trim(v: &Vec<char>) -> (r: Vec<char>)
    ensures
        r@ == trim_end(trim_start(v@)),
{
    let start = crate::text::skip_ws(v, 0);
    assert(v@.skip(0) =~= v@);
    let mut end: usize = v.len();
    assert(v@.subrange(start as int, end as int) =~= v@.skip(start as int));
    while end > start && is_whitespace(v[end - 1])
        invariant
            start <= end <= v.len(),
            trim_end(v@.skip(start as int)) == trim_end(v@.subrange(start as int, end as int)),
        decreases end,
    {
        assert(v@.subrange(start as int, end as int).drop_last() =~= v@.subrange(
            start as int,
            end - 1,
        ));
        end = end - 1;
    }
    crate::text::sub_chars(v, start, end)
}

/// End of the whitespace run of `v` from `i`.
fn ws_run(v: &Vec<char>, i: usize) -> (r: usize)
    requires
        i <= v.len(),
    ensures
        r == ws_end(v@, i as int),
        i <= r <= v.len(),
{
    let mut j: usize = i;
    while j < v.len() && is_whitespace(v[j])
        invariant
            i <= j <= v.len(),
            ws_end(v@, i as int) == ws_end(v@, j as int),
        decreases v.len() - j,
    {
        j = j + 1;
    }
    j
}

/// End of the digit run of `v` from `i`, with its value where that fits
/// in an `i32`.
fn digit_run(v: &Vec<char>, i: usize) -> (r: (usize, Option<i32>))
    requires
        i <= v.len(),
    ensures
        r.0 == digit_end(v@, i as int),
        i <= r.0 <= v.len(),
        match r.1 {
            Some(x) => x == value(v@, i as int, r.0 as int),
            None => value(v@, i as int, r.0 as int) > i32::MAX,
        },
{
    let mut j: usize = i;
    let mut val: i32 = 0;
    let mut big = false;
    while j < v.len() && '0' <= v[j] && v[j] <= '9'
        invariant
            i <= j <= v.len(),
            digit_end(v@, i as int) == digit_end(v@, j as int),
            big ==> value(v@, i as int, j as int) > i32::MAX,
            !big ==> val == value(v@, i as int, j as int),
            val >= 0,
        decreases v.len() - j,
    {
        let d = (v[j] as u32 - '0' as u32) as i32;
        if !big {
            if val <= (i32::MAX - d) / 10 {
                val = val * 10 + d;
            } else {
                big = true;
            }
        }
        j = j + 1;
    }
    if big {
        (j, None)
    } else {
        (j, Some(val))
    }
}

/// `current/total` at `i` of `v`, after optional whitespace.
fn tail(v: &Vec<char>, i: usize) -> (r: Option<(Option<i32>, Option<i32>)>)
    requires
        i <= v.len(),
    ensures
        match r {
            Some(p) => tail_at(v@, i as int) is Some && fits(p.0, (tail_at(v@, i as int)->0).0)
                && fits(p.1, (tail_at(v@, i as int)->0).1),
            None => tail_at(v@, i as int) is None,
        },
{
    let a = ws_run(v, i);
    let (b, x) = digit_run(v, a);
    if b == a || b >= v.len() || v[b] != '/' {
        return None;
    }
    let (c, y) = digit_run(v, b + 1);
    if c == b + 1 {
        return None;
    }
    Some((x, y))
}

/// `o` holds `n` where `n` fits in an `i32`, and nothing otherwise.
pub open spec fn fits(o: Option<i32>, n: nat) -> bool {
    match o {
        Some(x) => x == n,
        None => n > i32::MAX,
    }
}

/// The counts after the first `|` from `j` on that is followed by them.
fn find_close(v: &Vec<char>, j: usize) -> (r: Option<(Option<i32>, Option<i32>)>)
    ensures
        match r {
            Some(p) => close_at(v@, j as int) is Some && fits(p.0, (close_at(v@, j as int)->0).0)
                && fits(p.1, (close_at(v@, j as int)->0).1),
            None => close_at(v@, j as int) is None,
        },
{
    let mut k: usize = j;
    while k < v.len()
        invariant
            j <= k,
            close_at(v@, j as int) == close_at(v@, k as int),
        decreases v.len() - k,
    {
        if v[k] == '|' {
            match tail(v, k + 1) {
                Some(p) => {
                    return Some(p);
                },
                None => {},
            }
        }
        k = k + 1;
    }
    None
}

} // verus!
