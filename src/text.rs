//! Character-level helpers shared by the protocol decoders: trimming,
//! splitting on separators, and comparing pieces of text with literals.
use vstd::prelude::*;
use vstd::string::*;

verus! {

/// The characters that `str::trim` removes (Unicode `White_Space`).
pub open spec fn is_whitespace(c: char) -> bool {
    let v = c as u32;
    ||| 9 <= v <= 13
    ||| v == 32
    ||| v == 0x85
    ||| v == 0xA0
    ||| v == 0x1680
    ||| 0x2000 <= v <= 0x200A
    ||| v == 0x2028
    ||| v == 0x2029
    ||| v == 0x202F
    ||| v == 0x205F
    ||| v == 0x3000
}

/// `s` without its leading whitespace.
pub open spec fn trim_start(s: Seq<char>) -> Seq<char>
    decreases s.len(),
{
    if s.len() > 0 && is_whitespace(s[0]) {
        trim_start(s.drop_first())
    } else {
        s
    }
}

/// `s` without its trailing whitespace.
pub open spec fn trim_end(s: Seq<char>) -> Seq<char>
    decreases s.len(),
{
    if s.len() > 0 && is_whitespace(s.last()) {
        trim_end(s.drop_last())
    } else {
        s
    }
}

/// `s` without whitespace at either end.
pub open spec fn trim(s: Seq<char>) -> Seq<char> {
    trim_end(trim_start(s))
}

/// The pieces of `s` between the characters equal to `a` or `b`, in order:
/// `k` separators give `k + 1` pieces, empty ones included (as `str::split`).
pub open spec fn split(s: Seq<char>, a: char, b: char) -> Seq<Seq<char>>
    decreases s.len(),
{
    if s.len() == 0 {
        seq![Seq::<char>::empty()]
    } else {
        let init = split(s.drop_last(), a, b);
        if s.last() == a || s.last() == b {
            init.push(Seq::<char>::empty())
        } else {
            init.update(init.len() - 1, init.last().push(s.last()))
        }
    }
}

pub proof fn lemma_split_not_empty(s: Seq<char>, a: char, b: char)
    ensures
        split(s, a, b).len() >= 1,
    decreases s.len(),
{
    if s.len() > 0 {
        lemma_split_not_empty(s.drop_last(), a, b);
    }
}

/// The texts that the spans `sp` cut out of `cs`.
pub open spec fn pieces(cs: Seq<char>, sp: Seq<(usize, usize)>) -> Seq<Seq<char>> {
    Seq::new(sp.len(), |i: int| cs.subrange(sp[i].0 as int, sp[i].1 as int))
}

/// Every span of `sp` lies in `lo..hi`, which lies in `cs`.
pub open spec fn spans_within(cs: Seq<char>, sp: Seq<(usize, usize)>, lo: int, hi: int) -> bool {
    &&& 0 <= lo <= hi <= cs.len()
    &&& forall|i: int| 0 <= i < sp.len() ==> lo <= #[trigger] sp[i].0 <= sp[i].1 <= hi
}

/// The characters of `s`, one by one.
pub fn chars_of(s: &str) -> (r: Vec<char>)
    ensures
        r@ == s@,
{
    let n = s.unicode_len();
    let mut r: Vec<char> = Vec::new();
    let mut i: usize = 0;
    while i < n
        invariant
            n == s@.len(),
            i <= n,
            r@ == s@.subrange(0, i as int),
        decreases n - i,
    {
        r.push(s.get_char(i));
        i += 1;
    }
    assert(r@ =~= s@);
    r
}

proof fn lemma_trim_start_step(cs: Seq<char>, lo: int)
    requires
        0 <= lo < cs.len(),
        is_whitespace(cs[lo]),
    ensures
        trim_start(cs.subrange(lo, cs.len() as int)) == trim_start(cs.subrange(lo + 1, cs.len() as int)),
{
    assert(cs.subrange(lo, cs.len() as int).drop_first() =~= cs.subrange(lo + 1, cs.len() as int));
}

proof fn lemma_trim_end_step(cs: Seq<char>, lo: int, hi: int)
    requires
        0 <= lo < hi <= cs.len(),
        is_whitespace(cs[hi - 1]),
    ensures
        trim_end(cs.subrange(lo, hi)) == trim_end(cs.subrange(lo, hi - 1)),
{
    assert(cs.subrange(lo, hi).drop_last() =~= cs.subrange(lo, hi - 1));
}

/// The bounds of `cs` once the whitespace at both ends is cut off.
pub fn trimmed_bounds(cs: &Vec<char>) -> (r: (usize, usize))
    ensures
        r.0 <= r.1 <= cs.len(),
        cs@.subrange(r.0 as int, r.1 as int) == trim(cs@),
{
    let n = cs.len();
    let mut lo: usize = 0;
    proof {
        assert(cs@.subrange(0, n as int) =~= cs@);
    }
    while lo < n && is_space(cs[lo])
        invariant
            n == cs.len(),
            lo <= n,
            trim_start(cs@) == trim_start(cs@.subrange(lo as int, n as int)),
        decreases n - lo,
    {
        proof {
            lemma_trim_start_step(cs@, lo as int);
        }
        lo += 1;
    }
    let mut hi: usize = n;
    while hi > lo && is_space(cs[hi - 1])
        invariant
            n == cs.len(),
            lo <= hi <= n,
            trim_start(cs@) == cs@.subrange(lo as int, n as int),
            trim(cs@) == trim_end(cs@.subrange(lo as int, hi as int)),
        decreases hi,
    {
        proof {
            lemma_trim_end_step(cs@, lo as int, hi as int);
        }
        hi -= 1;
    }
    (lo, hi)
}

/// Whether `c` is whitespace in the sense of `str::trim`.
pub fn is_space(c: char) -> (r: bool)
    ensures
        r == is_whitespace(c),
{
    let v = c as u32;
    (9 <= v && v <= 13) || v == 32 || v == 0x85 || v == 0xA0 || v == 0x1680 || (0x2000 <= v
        && v <= 0x200A) || v == 0x2028 || v == 0x2029 || v == 0x202F || v == 0x205F || v == 0x3000
}

proof fn lemma_split_step(cs: Seq<char>, lo: int, i: int, a: char, b: char)
    requires
        0 <= lo <= i < cs.len(),
    ensures
        split(cs.subrange(lo, i + 1), a, b) == ({
            let init = split(cs.subrange(lo, i), a, b);
            if cs[i] == a || cs[i] == b {
                init.push(Seq::<char>::empty())
            } else {
                init.update(init.len() - 1, init.last().push(cs[i]))
            }
        }),
{
    assert(cs.subrange(lo, i + 1).drop_last() =~= cs.subrange(lo, i));
}

/// Cuts `cs[lo..hi]` at every character equal to `a` or `b`; each span of
/// the result is one piece, as `split` describes.
pub fn split_spans(cs: &Vec<char>, lo: usize, hi: usize, a: char, b: char) -> (r: Vec<(usize, usize)>)
    requires
        lo <= hi <= cs.len(),
    ensures
        pieces(cs@, r@) == split(cs@.subrange(lo as int, hi as int), a, b),
        spans_within(cs@, r@, lo as int, hi as int),
{
    let mut r: Vec<(usize, usize)> = Vec::new();
    let mut start: usize = lo;
    let mut i: usize = lo;
    proof {
        assert(pieces(cs@, r@.push((start, i))) =~~= split(cs@.subrange(lo as int, i as int), a, b));
    }
    while i < hi
        invariant
            lo <= start <= i <= hi <= cs.len(),
            spans_within(cs@, r@, lo as int, hi as int),
            pieces(cs@, r@.push((start, i))) == split(cs@.subrange(lo as int, i as int), a, b),
        decreases hi - i,
    {
        proof {
            lemma_split_step(cs@, lo as int, i as int, a, b);
            lemma_split_not_empty(cs@.subrange(lo as int, i as int), a, b);
        }
        let c = cs[i];
        if c == a || c == b {
            proof {
                let old_r = r@;
                assert(pieces(cs@, old_r.push((start, i)).push(((i + 1) as usize, (i + 1) as usize))) =~~= pieces(cs@, old_r.push((start, i))).push(Seq::<char>::empty()));
            }
            r.push((start, i));
            start = i + 1;
        } else {
            proof {
                let old_r = r@;
                let init = pieces(cs@, old_r.push((start, i)));
                assert(cs@.subrange(start as int, i + 1) =~= cs@.subrange(start as int, i as int).push(cs@[i as int]));
                assert(pieces(cs@, old_r.push((start, (i + 1) as usize))) =~= init.update(init.len() - 1, init.last().push(cs@[i as int])));
            }
        }
        i += 1;
    }
    r.push((start, hi));
    r
}

/// Whether `cs[lo..hi]` is the text `lit`.
pub fn span_is(cs: &Vec<char>, lo: usize, hi: usize, lit: &str) -> (r: bool)
    requires
        lo <= hi <= cs.len(),
    ensures
        r == (cs@.subrange(lo as int, hi as int) == lit@),
{
    let n = lit.unicode_len();
    if hi - lo != n {
        return false;
    }
    let mut i: usize = 0;
    while i < n
        invariant
            n == lit@.len(),
            hi - lo == n,
            lo <= hi <= cs.len(),
            i <= n,
            forall|j: int| 0 <= j < i ==> cs@[lo + j] == lit@[j],
        decreases n - i,
    {
        if cs[lo + i] != lit.get_char(i) {
            assert(cs@.subrange(lo as int, hi as int)[i as int] != lit@[i as int]);
            return false;
        }
        i += 1;
    }
    assert(cs@.subrange(lo as int, hi as int) =~= lit@);
    true
}

/// A token as the window manager writes one: not empty, no whitespace.
pub open spec fn plain(tok: Seq<char>) -> bool {
    &&& tok.len() > 0
    &&& forall|i: int| 0 <= i < tok.len() ==> !is_whitespace(#[trigger] tok[i])
}

/// Tokens joined by single spaces.
pub open spec fn join(ts: Seq<Seq<char>>) -> Seq<char>
    decreases ts.len(),
{
    if ts.len() == 0 {
        Seq::empty()
    } else if ts.len() == 1 {
        ts[0]
    } else {
        join(ts.drop_last()) + seq![' '] + ts.last()
    }
}

/// Cutting at a separator splits the pieces of what stands on either side.
pub proof fn lemma_split_concat(s: Seq<char>, c: char, t: Seq<char>, a: char, b: char)
    requires
        c == a || c == b,
    ensures
        split(s + seq![c] + t, a, b) == split(s, a, b) + split(t, a, b),
    decreases t.len(),
{
    let st = s + seq![c] + t;
    if t.len() == 0 {
        assert(st.drop_last() =~= s);
        assert(split(t, a, b) =~= seq![Seq::<char>::empty()]);
    } else {
        let t0 = t.drop_last();
        lemma_split_concat(s, c, t0, a, b);
        assert(st.drop_last() =~= s + seq![c] + t0);
        lemma_split_not_empty(t0, a, b);
        lemma_split_not_empty(s, a, b);
        let x = split(s, a, b);
        let y = split(t0, a, b);
        if t.last() == a || t.last() == b {
            assert((x + y).push(Seq::<char>::empty()) =~= x + y.push(Seq::<char>::empty()));
        } else {
            let xy = x + y;
            assert(xy.update(xy.len() - 1, xy.last().push(t.last())) =~= x + y.update(
                y.len() - 1,
                y.last().push(t.last()),
            ));
        }
    }
}

/// A text without separators is one piece.
pub proof fn lemma_split_none(t: Seq<char>, a: char, b: char)
    requires
        forall|i: int| 0 <= i < t.len() ==> #[trigger] t[i] != a && t[i] != b,
    ensures
        split(t, a, b) == seq![t],
    decreases t.len(),
{
    if t.len() > 0 {
        let t0 = t.drop_last();
        assert forall|i: int| 0 <= i < t0.len() implies #[trigger] t0[i] != a && t0[i] != b by {
            assert(t0[i] == t[i]);
        }
        lemma_split_none(t0, a, b);
        assert(t0.push(t.last()) =~= t);
        assert(seq![t0].update(0, t0.push(t.last())) =~= seq![t]);
    } else {
        assert(t =~= Seq::<char>::empty());
    }
}

proof fn lemma_join_ends(ts: Seq<Seq<char>>)
    requires
        ts.len() >= 1,
        forall|i: int| 0 <= i < ts.len() ==> plain(#[trigger] ts[i]),
    ensures
        join(ts).len() > 0,
        join(ts)[0] == ts[0][0],
        join(ts).last() == ts.last().last(),
    decreases ts.len(),
{
    if ts.len() > 1 {
        let init = ts.drop_last();
        assert forall|i: int| 0 <= i < init.len() implies plain(#[trigger] init[i]) by {
            assert(init[i] == ts[i]);
        }
        lemma_join_ends(init);
        assert(plain(ts[ts.len() - 1]));
    } else {
        assert(plain(ts[0]));
    }
}

/// Plain tokens joined by spaces cut back into the same tokens.
pub proof fn lemma_tokens_of_join(ts: Seq<Seq<char>>)
    requires
        ts.len() >= 1,
        forall|i: int| 0 <= i < ts.len() ==> plain(#[trigger] ts[i]),
    ensures
        split(trim(join(ts)), ' ', ' ') == ts,
{
    lemma_join_ends(ts);
    let j = join(ts);
    assert(plain(ts[0]));
    assert(plain(ts.last()));
    assert(!is_whitespace(j[0]));
    assert(!is_whitespace(j.last()));
    assert(trim_start(j) == j);
    assert(trim_end(j) == j);
    lemma_split_join(ts);
}

proof fn lemma_split_join(ts: Seq<Seq<char>>)
    requires
        ts.len() >= 1,
        forall|i: int| 0 <= i < ts.len() ==> plain(#[trigger] ts[i]),
    ensures
        split(join(ts), ' ', ' ') == ts,
    decreases ts.len(),
{
    let last = ts.last();
    assert(plain(ts[ts.len() - 1]));
    assert forall|i: int| 0 <= i < last.len() implies #[trigger] last[i] != ' ' && last[i] != ' ' by {
        assert(!is_whitespace(last[i]));
    }
    lemma_split_none(last, ' ', ' ');
    if ts.len() == 1 {
        assert(seq![ts[0]] =~= ts);
    } else {
        let init = ts.drop_last();
        assert forall|i: int| 0 <= i < init.len() implies plain(#[trigger] init[i]) by {
            assert(init[i] == ts[i]);
        }
        lemma_split_join(init);
        lemma_split_concat(join(init), ' ', last, ' ', ' ');
        assert(init + seq![last] =~= ts);
    }
}

/// Two plain texts with a character other than whitespace between them make
/// a plain text.
pub proof fn lemma_plain_concat(a: Seq<char>, c: char, b: Seq<char>)
    requires
        plain(a),
        plain(b),
        !is_whitespace(c),
    ensures
        plain(a + seq![c] + b),
{
    let s = a + seq![c] + b;
    assert forall|i: int| 0 <= i < s.len() implies !is_whitespace(#[trigger] s[i]) by {
        if i < a.len() {
            assert(s[i] == a[i]);
        } else if i > a.len() {
            assert(s[i] == b[i - a.len() - 1]);
        }
    }
}

} // verus!
