//! Character-level utilities for the directive argument grammar.
//!
//! Annotation argument text is a token text: delimiters nest, and double
//! quotes open string literals in which delimiters and commas are inert.
//! The directive grammar splits such a text at top-level commas; the pieces
//! are then either the partial type's identifier, a strategy name, or an
//! opaque pass-through annotation copied verbatim.
//!
//! The scanner tracks nesting depth and string state only; it assumes the
//! host tokenizer already matched delimiter kinds, and it treats a single
//! quote as ordinary punctuation (a lifetime marker, not a character
//! literal).

use vstd::prelude::*;
use vstd::string::StrSliceExecFns;
use vstd::string::StringExecFns;

verus! {

/// The scanner's state after reading a prefix of the text: the delimiter
/// nesting depth (negative once an unmatched closing delimiter was seen) and
/// the string-literal mode (0 = outside, 1 = inside, 2 = inside after a
/// backslash).
pub ghost struct ScanState {
    pub depth: int,
    pub mode: int,
}

pub open spec fn scan_init() -> ScanState {
    ScanState { depth: 0, mode: 0 }
}

pub open spec fn is_open_delim(c: char) -> bool {
    c == '(' || c == '[' || c == '{'
}

pub open spec fn is_close_delim(c: char) -> bool {
    c == ')' || c == ']' || c == '}'
}

/// One step of the scanner. A negative depth is latched: once the text is
/// known to be unbalanced it stays so.
pub open spec fn scan_step(st: ScanState, c: char) -> ScanState {
    if st.depth < 0 {
        st
    } else if st.mode == 2 {
        ScanState { depth: st.depth, mode: 1 }
    } else if st.mode == 1 {
        if c == '\\' {
            ScanState { depth: st.depth, mode: 2 }
        } else if c == '"' {
            ScanState { depth: st.depth, mode: 0 }
        } else {
            st
        }
    } else {
        if c == '"' {
            ScanState { depth: st.depth, mode: 1 }
        } else if is_open_delim(c) {
            ScanState { depth: st.depth + 1, mode: 0 }
        } else if is_close_delim(c) {
            if st.depth == 0 {
                ScanState { depth: -1, mode: 0 }
            } else {
                ScanState { depth: st.depth - 1, mode: 0 }
            }
        } else {
            st
        }
    }
}

/// The scanner's state after the first `n` characters of `s`.
pub open spec fn scan(s: Seq<char>, n: int) -> ScanState
    decreases n,
{
    if n <= 0 {
        scan_init()
    } else {
        scan_step(scan(s, n - 1), s[n - 1])
    }
}

/// The whole text is balanced and ends outside any string literal.
pub open spec fn scan_ok(s: Seq<char>) -> bool {
    scan(s, s.len() as int) == scan_init()
}

/// Position `i` is outside every delimiter pair and string literal.
pub open spec fn at_top_level(s: Seq<char>, i: int) -> bool {
    scan(s, i) == scan_init()
}

/// The character at `i` is a comma that separates top-level pieces.
pub open spec fn is_top_comma(s: Seq<char>, i: int) -> bool {
    0 <= i < s.len() && s[i] == ',' && at_top_level(s, i)
}

/// The positions of all top-level commas among the first `n` characters, in
/// order.
pub open spec fn comma_positions(s: Seq<char>, n: int) -> Seq<int>
    decreases n,
{
    if n <= 0 {
        Seq::empty()
    } else if is_top_comma(s, n - 1) {
        comma_positions(s, n - 1).push(n - 1)
    } else {
        comma_positions(s, n - 1)
    }
}

pub proof fn lemma_comma_positions_bounds(s: Seq<char>, n: int)
    requires
        n <= s.len(),
    ensures
        forall|k: int|
            0 <= k < comma_positions(s, n).len() ==> 0 <= #[trigger] comma_positions(s, n)[k]
                < n,
        forall|k: int|
            0 <= k && k + 1 < comma_positions(s, n).len() ==> #[trigger] comma_positions(s, n)[k]
                < comma_positions(s, n)[k + 1],
    decreases n,
{
    if n > 0 {
        lemma_comma_positions_bounds(s, n - 1);
        let prev = comma_positions(s, n - 1);
        let cur = comma_positions(s, n);
        if is_top_comma(s, n - 1) {
            assert(cur == prev.push(n - 1));
            assert forall|k: int| 0 <= k < cur.len() implies 0 <= #[trigger] cur[k] < n by {
                if k < prev.len() {
                    assert(cur[k] == prev[k]);
                    assert(0 <= prev[k] < n - 1);
                } else {
                    assert(cur[k] == n - 1);
                }
            }
            assert forall|k: int| 0 <= k && k + 1 < cur.len() implies #[trigger] cur[k] < cur[k
                + 1] by {
                if k + 1 < prev.len() {
                    assert(cur[k] == prev[k] && cur[k + 1] == prev[k + 1]);
                    assert(prev[k] < prev[k + 1]);
                } else {
                    assert(cur[k] == prev[k] && cur[k + 1] == n - 1);
                    assert(prev[k] < n - 1);
                }
            }
        } else {
            assert(cur == prev);
            assert forall|k: int| 0 <= k < cur.len() implies 0 <= #[trigger] cur[k] < n by {
                assert(cur[k] == prev[k]);
                assert(0 <= prev[k] < n - 1);
            }
            assert forall|k: int| 0 <= k && k + 1 < cur.len() implies #[trigger] cur[k] < cur[k
                + 1] by {
                assert(cur[k] == prev[k] && cur[k + 1] == prev[k + 1]);
                assert(prev[k] < prev[k + 1]);
            }
        }
    }
}

/// The half-open ranges between consecutive top-level commas: the pieces the
/// text splits into. There is always at least one piece.
pub open spec fn piece_bounds(s: Seq<char>) -> Seq<(int, int)> {
    let cs = comma_positions(s, s.len() as int);
    Seq::new(
        (cs.len() + 1) as nat,
        |k: int|
            (
                if k == 0 {
                    0int
                } else {
                    cs[k - 1] + 1
                },
                if k == cs.len() as int {
                    s.len() as int
                } else {
                    cs[k]
                },
            ),
    )
}

pub proof fn lemma_piece_bounds_wf(s: Seq<char>)
    ensures
        piece_bounds(s).len() >= 1,
        forall|k: int|
            0 <= k < piece_bounds(s).len() ==> 0 <= (#[trigger] piece_bounds(s)[k]).0
                <= piece_bounds(s)[k].1 <= s.len(),
{
    lemma_comma_positions_bounds(s, s.len() as int);
}

/// Runs the scanner over the whole text, returning the positions of its
/// top-level commas; `None` when the text is unbalanced or ends inside a
/// string literal.
fn scan_commas(s: &str) -> (r: Option<Vec<usize>>)
    ensures
        match r {
            None => !scan_ok(s@),
            Some(cs) => {
                &&& scan_ok(s@)
                &&& cs@.len() == comma_positions(s@, s@.len() as int).len()
                &&& forall|k: int|
                    0 <= k < cs@.len() ==> (#[trigger] cs@[k]) as int == comma_positions(
                        s@,
                        s@.len() as int,
                    )[k]
            },
        },
{
    let n = s.unicode_len();
    let mut commas: Vec<usize> = Vec::new();
    let mut depth: usize = 0;
    let mut mode: u8 = 0;
    let mut bad: bool = false;
    let mut i: usize = 0;
    while i < n
        invariant
            n == s@.len(),
            i <= n,
            depth <= i,
            mode == 0 || mode == 1 || mode == 2,
            if bad {
                scan(s@, i as int).depth < 0
            } else {
                scan(s@, i as int) == (ScanState { depth: depth as int, mode: mode as int })
            },
            commas@.len() == comma_positions(s@, i as int).len(),
            forall|k: int|
                0 <= k < commas@.len() ==> commas@[k] as int == #[trigger] comma_positions(
                    s@,
                    i as int,
                )[k],
        decreases n - i,
    {
        let c = s.get_char(i);
        if !bad && depth == 0 && mode == 0 && c == ',' {
            commas.push(i);
        }
        if !bad {
            if mode == 2 {
                mode = 1;
            } else if mode == 1 {
                if c == '\\' {
                    mode = 2;
                } else if c == '"' {
                    mode = 0;
                }
            } else {
                if c == '"' {
                    mode = 1;
                } else if c == '(' || c == '[' || c == '{' {
                    depth = depth + 1;
                } else if c == ')' || c == ']' || c == '}' {
                    if depth == 0 {
                        bad = true;
                    } else {
                        depth = depth - 1;
                    }
                }
            }
        }
        i = i + 1;
    }
    if bad || depth != 0 || mode != 0 {
        return None;
    }
    Some(commas)
}

/// Splits a balanced text at its top-level commas, returning the piece
/// ranges; `None` when the text is unbalanced or ends inside a string
/// literal.
pub fn split_top_level(s: &str) -> (r: Option<Vec<(usize, usize)>>)
    ensures
        match r {
            None => !scan_ok(s@),
            Some(ps) => {
                &&& scan_ok(s@)
                &&& ps@.len() == piece_bounds(s@).len()
                &&& forall|k: int|
                    0 <= k < ps@.len() ==> ((#[trigger] ps@[k]).0 as int, ps@[k].1 as int)
                        == piece_bounds(s@)[k]
            },
        },
{
    let n = s.unicode_len();
    let commas = match scan_commas(s) {
        None => {
            return None;
        },
        Some(cs) => cs,
    };
    proof {
        lemma_comma_positions_bounds(s@, n as int);
    }
    let m = commas.len();
    let mut pieces: Vec<(usize, usize)> = Vec::new();
    let mut k: usize = 0;
    while k < m
        invariant
            n == s@.len(),
            scan_ok(s@),
            m == commas@.len(),
            commas@.len() == comma_positions(s@, n as int).len(),
            forall|j: int|
                0 <= j < commas@.len() ==> commas@[j] as int == #[trigger] comma_positions(
                    s@,
                    n as int,
                )[j],
            forall|j: int|
                0 <= j < comma_positions(s@, n as int).len() ==> 0 <= #[trigger] comma_positions(
                    s@,
                    n as int,
                )[j] < n,
            k <= m,
            pieces@.len() == k as int,
            forall|j: int|
                0 <= j < k as int ==> ((#[trigger] pieces@[j]).0 as int, pieces@[j].1 as int)
                    == piece_bounds(s@)[j],
        decreases m - k,
    {
        let lo: usize = if k == 0 {
            0
        } else {
            proof {
                assert(commas@[k - 1] as int == comma_positions(s@, n as int)[k as int - 1]);
                assert(comma_positions(s@, n as int)[k as int - 1] < n);
            }
            commas[k - 1] + 1
        };
        let hi: usize = commas[k];
        pieces.push((lo, hi));
        k = k + 1;
    }
    let last_lo: usize = if m == 0 {
        0
    } else {
        proof {
            assert(commas@[m - 1] as int == comma_positions(s@, n as int)[m as int - 1]);
            assert(comma_positions(s@, n as int)[m as int - 1] < n);
        }
        commas[m - 1] + 1
    };
    pieces.push((last_lo, n));
    Some(pieces)
}

/// A whitespace character of the token text.
pub open spec fn is_ws(c: char) -> bool {
    c == ' ' || c == '\t' || c == '\n' || c == '\r'
}

/// The start of the range after leading whitespace.
pub open spec fn trim_lo(s: Seq<char>, lo: int, hi: int) -> int
    decreases hi - lo,
{
    if lo >= hi {
        lo
    } else if is_ws(s[lo]) {
        trim_lo(s, lo + 1, hi)
    } else {
        lo
    }
}

/// The end of the range before trailing whitespace.
pub open spec fn trim_hi(s: Seq<char>, lo: int, hi: int) -> int
    decreases hi - lo,
{
    if hi <= lo {
        hi
    } else if is_ws(s[hi - 1]) {
        trim_hi(s, lo, hi - 1)
    } else {
        hi
    }
}

/// The range with surrounding whitespace removed.
pub open spec fn trimmed(s: Seq<char>, b: (int, int)) -> (int, int) {
    (trim_lo(s, b.0, b.1), trim_hi(s, trim_lo(s, b.0, b.1), b.1))
}

/// Removes surrounding whitespace from a range of the text.
pub fn trim_range(s: &str, lo: usize, hi: usize) -> (r: (usize, usize))
    requires
        lo <= hi,
        hi as int <= s@.len(),
    ensures
        (r.0 as int, r.1 as int) == trimmed(s@, (lo as int, hi as int)),
        lo <= r.0 <= r.1 <= hi,
{
    let mut a: usize = lo;
    loop
        invariant
            lo <= a <= hi,
            hi as int <= s@.len(),
            trim_lo(s@, lo as int, hi as int) == trim_lo(s@, a as int, hi as int),
        ensures
            lo <= a <= hi,
            a as int == trim_lo(s@, lo as int, hi as int),
        decreases hi - a,
    {
        if a >= hi {
            break ;
        }
        let c = s.get_char(a);
        if !(c == ' ' || c == '\t' || c == '\n' || c == '\r') {
            break ;
        }
        a = a + 1;
    }
    let mut b: usize = hi;
    loop
        invariant
            a <= b <= hi,
            hi as int <= s@.len(),
            trim_hi(s@, a as int, hi as int) == trim_hi(s@, a as int, b as int),
        ensures
            a <= b <= hi,
            b as int == trim_hi(s@, a as int, hi as int),
        decreases b,
    {
        if b <= a {
            break ;
        }
        let c = s.get_char(b - 1);
        if !(c == ' ' || c == '\t' || c == '\n' || c == '\r') {
            break ;
        }
        b = b - 1;
    }
    (a, b)
}

/// The first character of an identifier: an ASCII letter or an underscore.
pub open spec fn is_ident_start(c: char) -> bool {
    (('a' as u32) <= (c as u32) && (c as u32) <= ('z' as u32)) || (('A' as u32) <= (c as u32) && (c
        as u32) <= ('Z' as u32)) || c == '_'
}

/// A later character of an identifier: a start character or an ASCII digit.
pub open spec fn is_ident_cont(c: char) -> bool {
    is_ident_start(c) || (('0' as u32) <= (c as u32) && (c as u32) <= ('9' as u32))
}

/// The range holds exactly one bare identifier.
pub open spec fn is_ident_range(s: Seq<char>, lo: int, hi: int) -> bool {
    lo < hi && is_ident_start(s[lo]) && forall|j: int| lo < j < hi ==> is_ident_cont(#[trigger] s[j])
}

/// Decides whether the range holds exactly one bare identifier.
pub fn check_ident_range(s: &str, lo: usize, hi: usize) -> (r: bool)
    requires
        lo <= hi,
        hi as int <= s@.len(),
    ensures
        r == is_ident_range(s@, lo as int, hi as int),
{
    if lo >= hi {
        return false;
    }
    let c0 = s.get_char(lo);
    let u0 = c0 as u32;
    if !((97 <= u0 && u0 <= 122) || (65 <= u0 && u0 <= 90) || c0 == '_') {
        return false;
    }
    let mut j: usize = lo + 1;
    while j < hi
        invariant
            lo < j <= hi,
            hi as int <= s@.len(),
            is_ident_start(s@[lo as int]),
            forall|m: int| (lo as int) < m < (j as int) ==> is_ident_cont(#[trigger] s@[m]),
        decreases hi - j,
    {
        let c = s.get_char(j);
        let u = c as u32;
        if !((97 <= u && u <= 122) || (65 <= u && u <= 90) || c == '_' || (48 <= u && u <= 57)) {
            return false;
        }
        j = j + 1;
    }
    true
}

/// Decides whether a range of `s` equals the text `t`.
pub fn range_eq(s: &str, lo: usize, hi: usize, t: &str) -> (r: bool)
    requires
        lo <= hi,
        hi as int <= s@.len(),
    ensures
        r == (s@.subrange(lo as int, hi as int) == t@),
{
    let tn = t.unicode_len();
    if hi - lo != tn {
        assert(s@.subrange(lo as int, hi as int).len() != t@.len());
        return false;
    }
    let mut j: usize = 0;
    while j < tn
        invariant
            tn == t@.len(),
            hi - lo == tn,
            lo <= hi,
            hi as int <= s@.len(),
            j <= tn,
            forall|m: int| 0 <= m < j as int ==> s@[lo + m] == #[trigger] t@[m],
        decreases tn - j,
    {
        let a = s.get_char(lo + j);
        let b = t.get_char(j);
        if a != b {
            assert(s@.subrange(lo as int, hi as int)[j as int] != t@[j as int]);
            return false;
        }
        j = j + 1;
    }
    assert(s@.subrange(lo as int, hi as int) =~= t@);
    true
}

/// Decides whether two texts are equal.
pub fn str_eq(a: &str, b: &str) -> (r: bool)
    ensures
        r == (a@ == b@),
{
    let n = a.unicode_len();
    let r = range_eq(a, 0, n, b);
    proof {
        assert(a@.subrange(0, n as int) =~= a@);
    }
    r
}

/// The pass-through annotations among the pieces from index `k` on: each
/// trimmed piece verbatim, where only the last piece may be empty (a
/// trailing comma) and is then dropped. A non-final empty piece is a
/// malformed argument list.
pub open spec fn spec_meta_pieces(s: Seq<char>, k: int) -> Result<Seq<Seq<char>>, ()>
    decreases piece_bounds(s).len() - k,
{
    let bs = piece_bounds(s);
    if k < 0 || k >= bs.len() {
        Ok(Seq::empty())
    } else {
        let t = trimmed(s, bs[k]);
        if t.0 >= t.1 {
            if k == bs.len() - 1 {
                Ok(Seq::empty())
            } else {
                Err(())
            }
        } else {
            match spec_meta_pieces(s, k + 1) {
                Ok(rest) => Ok(seq![s.subrange(t.0, t.1)] + rest),
                Err(e) => Err(e),
            }
        }
    }
}

/// Collects the pass-through annotations among the pieces from index `start`
/// on, as [`spec_meta_pieces`] describes them.
pub fn collect_metas(s: &str, pieces: &Vec<(usize, usize)>, start: usize) -> (r: Result<
    Vec<String>,
    (),
>)
    requires
        pieces@.len() == piece_bounds(s@).len(),
        forall|k: int|
            0 <= k < pieces@.len() ==> ((#[trigger] pieces@[k]).0 as int, pieces@[k].1 as int)
                == piece_bounds(s@)[k],
    ensures
        match spec_meta_pieces(s@, start as int) {
            Ok(ms) => r is Ok && r->Ok_0.deep_view() == ms,
            Err(_) => r is Err,
        },
{
    proof {
        lemma_piece_bounds_wf(s@);
    }
    let n = pieces.len();
    let mut metas: Vec<String> = Vec::new();
    let mut k: usize = start;
    while k < n
        invariant
            n == pieces@.len(),
            pieces@.len() == piece_bounds(s@).len(),
            forall|j: int|
                0 <= j < pieces@.len() ==> ((#[trigger] pieces@[j]).0 as int, pieces@[j].1 as int)
                    == piece_bounds(s@)[j],
            forall|j: int|
                0 <= j < piece_bounds(s@).len() ==> 0 <= (#[trigger] piece_bounds(s@)[j]).0
                    <= piece_bounds(s@)[j].1 <= s@.len(),
            start <= k,
            k <= n || k == start,
            match spec_meta_pieces(s@, start as int) {
                Ok(all) => spec_meta_pieces(s@, k as int) is Ok && all == metas.deep_view()
                    + spec_meta_pieces(s@, k as int)->Ok_0,
                Err(e) => spec_meta_pieces(s@, k as int) is Err,
            },
        decreases n - k,
    {
        let (plo, phi) = pieces[k];
        let (tlo, thi) = trim_range(s, plo, phi);
        if tlo >= thi {
            if k + 1 != n {
                return Err(());
            }
        } else {
            let text = extract(s, tlo, thi);
            let ghost before = metas.deep_view();
            metas.push(text);
            proof {
                assert(metas.deep_view() =~~= before + seq![s@.subrange(tlo as int, thi as int)]);
                if spec_meta_pieces(s@, start as int) is Ok {
                    assert(before + (seq![s@.subrange(tlo as int, thi as int)]
                        + spec_meta_pieces(s@, k as int + 1)->Ok_0) =~~= (before + seq![
                        s@.subrange(tlo as int, thi as int),
                    ]) + spec_meta_pieces(s@, k as int + 1)->Ok_0);
                }
            }
        }
        k = k + 1;
    }
    proof {
        if spec_meta_pieces(s@, start as int) is Ok {
            assert(metas.deep_view() + spec_meta_pieces(s@, k as int)->Ok_0 =~~= metas.deep_view());
        }
    }
    Ok(metas)
}

/// Copies a range of `s` into a fresh string.
pub fn extract(s: &str, lo: usize, hi: usize) -> (r: String)
    requires
        lo <= hi,
        hi as int <= s@.len(),
    ensures
        r@ == s@.subrange(lo as int, hi as int),
{
    let sub = s.substring_char(lo, hi);
    String::from_str(sub)
}

} // verus!
