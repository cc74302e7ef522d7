//! Natural ordering of device paths: runs of ASCII digits compare by numeric
//! value, everything else compares character by character, so `ttyUSB2`
//! sorts before `ttyUSB10` and `COM9` before `COM10`.

use vstd::prelude::*;

verus! {

/// Outcome of comparing two paths.
#[derive(Clone, Copy, Debug, PartialEq, Eq, Structural)]
pub enum PathOrder {
    Less,
    Equal,
    Greater,
}

/// The same comparison seen from the other side.
pub open spec fn flipped(o: PathOrder) -> PathOrder {
    match o {
        PathOrder::Less => PathOrder::Greater,
        PathOrder::Equal => PathOrder::Equal,
        PathOrder::Greater => PathOrder::Less,
    }
}

pub open spec fn is_digit(c: char) -> bool {
    '0' <= c && c <= '9'
}

/// Number of leading ASCII digits.
pub open spec fn digit_run(s: Seq<char>) -> nat
    decreases s.len(),
{
    if s.len() > 0 && is_digit(s[0]) {
        1 + digit_run(s.drop_first())
    } else {
        0
    }
}

/// Number of leading `'0'` characters.
pub open spec fn zero_run(s: Seq<char>) -> nat
    decreases s.len(),
{
    if s.len() > 0 && s[0] == '0' {
        1 + zero_run(s.drop_first())
    } else {
        0
    }
}

/// Plain lexicographic order of character sequences.
pub open spec fn lex_order(x: Seq<char>, y: Seq<char>) -> PathOrder
    decreases x.len(),
{
    if x.len() == 0 && y.len() == 0 {
        PathOrder::Equal
    } else if x.len() == 0 {
        PathOrder::Less
    } else if y.len() == 0 {
        PathOrder::Greater
    } else if x[0] < y[0] {
        PathOrder::Less
    } else if x[0] > y[0] {
        PathOrder::Greater
    } else {
        lex_order(x.drop_first(), y.drop_first())
    }
}

/// Numeric order of two digit runs: leading zeros are ignored, more
/// significant digits mean a larger number, equal lengths compare digit-wise.
pub open spec fn number_order(x: Seq<char>, y: Seq<char>) -> PathOrder {
    let xv = x.skip(zero_run(x) as int);
    let yv = y.skip(zero_run(y) as int);
    if xv.len() < yv.len() {
        PathOrder::Less
    } else if xv.len() > yv.len() {
        PathOrder::Greater
    } else {
        lex_order(xv, yv)
    }
}

pub proof fn lemma_digit_run_bound(s: Seq<char>)
    ensures
        digit_run(s) <= s.len(),
        s.len() > 0 && is_digit(s[0]) ==> digit_run(s) >= 1,
    decreases s.len(),
{
    if s.len() > 0 && is_digit(s[0]) {
        lemma_digit_run_bound(s.drop_first());
    }
}

pub proof fn lemma_zero_run_bound(s: Seq<char>)
    ensures
        zero_run(s) <= s.len(),
    decreases s.len(),
{
    if s.len() > 0 && s[0] == '0' {
        lemma_zero_run_bound(s.drop_first());
    }
}

/// Natural path order: a digit run facing a digit run compares numerically,
/// any other pair of characters by code point, a proper prefix comes first.
pub open spec fn natural_order(a: Seq<char>, b: Seq<char>) -> PathOrder
    decreases a.len() + b.len(),
{
    if a.len() == 0 && b.len() == 0 {
        PathOrder::Equal
    } else if a.len() == 0 {
        PathOrder::Less
    } else if b.len() == 0 {
        PathOrder::Greater
    } else if is_digit(a[0]) && is_digit(b[0]) {
        let n = digit_run(a);
        let m = digit_run(b);
        proof {
            lemma_digit_run_bound(a);
            lemma_digit_run_bound(b);
        }
        match number_order(a.take(n as int), b.take(m as int)) {
            PathOrder::Equal => natural_order(a.skip(n as int), b.skip(m as int)),
            other => other,
        }
    } else if a[0] < b[0] {
        PathOrder::Less
    } else if a[0] > b[0] {
        PathOrder::Greater
    } else {
        natural_order(a.drop_first(), b.drop_first())
    }
}

/// The characters of a string, one by one.
pub fn chars_of(s: &str) -> (r: Vec<char>)
    ensures
        r@ == s@,
{
    let n = s.unicode_len();
    let mut r: Vec<char> = Vec::new();
    let mut i: usize = 0;
    while i < n
        invariant
            n == s@.len(),
            i <= n,
            r@ == s@.subrange(0, i as int),
        decreases n - i,
    {
        r.push(s.get_char(i));
        i = i + 1;
    }
    r
}

/// End of the digit run that starts at `start`.
fn digit_run_end(s: &Vec<char>, start: usize) -> (e: usize)
    requires
        start <= s@.len(),
    ensures
        e == start + digit_run(s@.skip(start as int)),
        e <= s@.len(),
        forall|k: int| start <= k < e ==> is_digit(#[trigger] s@[k]),
{
    let mut k = start;
    while k < s.len() && '0' <= s[k] && s[k] <= '9'
        invariant
            start <= k <= s@.len(),
            digit_run(s@.skip(start as int)) == (k - start) + digit_run(s@.skip(k as int)),
            forall|t: int| start <= t < k ==> is_digit(#[trigger] s@[t]),
        decreases s@.len() - k,
    {
        assert(s@.skip(k as int).drop_first() =~= s@.skip(k + 1));
        k = k + 1;
    }
    k
}

/// End of the run of `'0'` inside `[start, end)`.
fn zero_run_end(s: &Vec<char>, start: usize, end: usize) -> (e: usize)
    requires
        start <= end <= s@.len(),
    ensures
        e == start + zero_run(s@.subrange(start as int, end as int)),
        e <= end,
{
    let mut k = start;
    while k < end && s[k] == '0'
        invariant
            start <= k <= end,
            end <= s@.len(),
            zero_run(s@.subrange(start as int, end as int)) == (k - start) + zero_run(
                s@.subrange(k as int, end as int),
            ),
        decreases end - k,
    {
        assert(s@.subrange(k as int, end as int).drop_first() =~= s@.subrange(k + 1, end as int));
        k = k + 1;
    }
    k
}

/// Lexicographic order of `a[p..p+len]` and `b[q..q+len]`.
fn lex_same_len(a: &Vec<char>, p: usize, b: &Vec<char>, q: usize, len: usize) -> (r: PathOrder)
    requires
        p + len <= a@.len(),
        q + len <= b@.len(),
    ensures
        r == lex_order(a@.subrange(p as int, p + len), b@.subrange(q as int, q + len)),
{
    let alen = a.len();
    let blen = b.len();
    let mut t: usize = 0;
    while t < len
        invariant
            alen == a@.len(),
            blen == b@.len(),
            t <= len,
            p + len <= a@.len(),
            q + len <= b@.len(),
            lex_order(a@.subrange(p as int, p + len), b@.subrange(q as int, q + len)) == lex_order(
                a@.subrange(p + t, p + len),
                b@.subrange(q + t, q + len),
            ),
        decreases len - t,
    {
        let x = a[p + t];
        let y = b[q + t];
        if x < y {
            return PathOrder::Less;
        }
        if x > y {
            return PathOrder::Greater;
        }
        assert(a@.subrange(p + t, p + len).drop_first() =~= a@.subrange(p + t + 1, p + len));
        assert(b@.subrange(q + t, q + len).drop_first() =~= b@.subrange(q + t + 1, q + len));
        t = t + 1;
    }
    PathOrder::Equal
}

/// Natural order of two device paths (see [`natural_order`]).
pub fn natural_path_order(left: &str, right: &str) -> (r: PathOrder)
    ensures
        r == natural_order(left@, right@),
{
    let a = chars_of(left);
    let b = chars_of(right);
    let mut i: usize = 0;
    let mut j: usize = 0;
    assert(a@.skip(0) =~= a@);
    assert(b@.skip(0) =~= b@);
    loop
        invariant
            a@ == left@,
            b@ == right@,
            i <= a@.len(),
            j <= b@.len(),
            natural_order(left@, right@) == natural_order(a@.skip(i as int), b@.skip(j as int)),
        decreases a@.len() - i + b@.len() - j,
    {
        let ghost sa = a@.skip(i as int);
        let ghost sb = b@.skip(j as int);
        if i == a.len() && j == b.len() {
            return PathOrder::Equal;
        }
        if i == a.len() {
            return PathOrder::Less;
        }
        if j == b.len() {
            return PathOrder::Greater;
        }
        let ca = a[i];
        let cb = b[j];
        assert(sa[0] == ca && sb[0] == cb);
        if '0' <= ca && ca <= '9' && '0' <= cb && cb <= '9' {
            let ie = digit_run_end(&a, i);
            let je = digit_run_end(&b, j);
            proof {
                lemma_digit_run_bound(sa);
                lemma_digit_run_bound(sb);
                assert(sa.take(digit_run(sa) as int) =~= a@.subrange(i as int, ie as int));
                assert(sb.take(digit_run(sb) as int) =~= b@.subrange(j as int, je as int));
            }
            let iz = zero_run_end(&a, i, ie);
            let jz = zero_run_end(&b, j, je);
            let ghost xv = a@.subrange(i as int, ie as int).skip(zero_run(a@.subrange(i as int, ie as int)) as int);
            let ghost yv = b@.subrange(j as int, je as int).skip(zero_run(b@.subrange(j as int, je as int)) as int);
            proof {
                assert(xv =~= a@.subrange(iz as int, ie as int));
                assert(yv =~= b@.subrange(jz as int, je as int));
            }
            let la = ie - iz;
            let lb = je - jz;
            if la < lb {
                return PathOrder::Less;
            }
            if la > lb {
                return PathOrder::Greater;
            }
            let o = lex_same_len(&a, iz, &b, jz, la);
            match o {
                PathOrder::Equal => {
                    proof {
                        assert(sa.skip(digit_run(sa) as int) =~= a@.skip(ie as int));
                        assert(sb.skip(digit_run(sb) as int) =~= b@.skip(je as int));
                    }
                    i = ie;
                    j = je;
                },
                other => {
                    return other;
                },
            }
        } else {
            if ca < cb {
                return PathOrder::Less;
            }
            if ca > cb {
                return PathOrder::Greater;
            }
            assert(sa.drop_first() =~= a@.skip(i + 1));
            assert(sb.drop_first() =~= b@.skip(j + 1));
            i = i + 1;
            j = j + 1;
        }
    }
}

/// Comparing the other way round flips the outcome.
pub proof fn lemma_lex_order_flip(x: Seq<char>, y: Seq<char>)
    ensures
        lex_order(y, x) == flipped(lex_order(x, y)),
    decreases x.len(),
{
    if x.len() > 0 && y.len() > 0 && x[0] == y[0] {
        lemma_lex_order_flip(x.drop_first(), y.drop_first());
    }
}

/// A sequence is lexicographically equal to itself.
pub proof fn lemma_lex_order_refl(x: Seq<char>)
    ensures
        lex_order(x, x) == PathOrder::Equal,
    decreases x.len(),
{
    if x.len() > 0 {
        lemma_lex_order_refl(x.drop_first());
    }
}

/// Swapping the two paths flips the outcome of the natural order: `a` sorts
/// before `b` exactly when `b` sorts after `a`.
pub proof fn lemma_natural_order_flip(a: Seq<char>, b: Seq<char>)
    ensures
        natural_order(b, a) == flipped(natural_order(a, b)),
    decreases a.len() + b.len(),
{
    if a.len() > 0 && b.len() > 0 {
        if is_digit(a[0]) && is_digit(b[0]) {
            let n = digit_run(a);
            let m = digit_run(b);
            lemma_digit_run_bound(a);
            lemma_digit_run_bound(b);
            let x = a.take(n as int);
            let y = b.take(m as int);
            lemma_lex_order_flip(x.skip(zero_run(x) as int), y.skip(zero_run(y) as int));
            lemma_natural_order_flip(a.skip(n as int), b.skip(m as int));
        } else if a[0] == b[0] {
            lemma_natural_order_flip(a.drop_first(), b.drop_first());
        }
    }
}

/// Every path is naturally equal to itself.
pub proof fn lemma_natural_order_refl(a: Seq<char>)
    ensures
        natural_order(a, a) == PathOrder::Equal,
    decreases a.len(),
{
    if a.len() > 0 {
        if is_digit(a[0]) {
            let n = digit_run(a);
            lemma_digit_run_bound(a);
            let x = a.take(n as int);
            lemma_lex_order_refl(x.skip(zero_run(x) as int));
            lemma_natural_order_refl(a.skip(n as int));
        } else {
            lemma_natural_order_refl(a.drop_first());
        }
    }
}

/// `o` is "less or equal".
pub open spec fn not_greater(o: PathOrder) -> bool {
    o != PathOrder::Greater
}

/// Chaining two comparisons that are not "greater" gives one that is not
/// "greater", and a strict step anywhere makes the result strict.
pub open spec fn chains(first: PathOrder, second: PathOrder, result: PathOrder) -> bool {
    (not_greater(first) && not_greater(second)) ==> (not_greater(result) && ((first
        == PathOrder::Less || second == PathOrder::Less) ==> result == PathOrder::Less))
}

proof fn lemma_lex_order_trans(x: Seq<char>, y: Seq<char>, z: Seq<char>)
    ensures
        chains(lex_order(x, y), lex_order(y, z), lex_order(x, z)),
        (lex_order(x, y) == PathOrder::Equal && lex_order(y, z) == PathOrder::Equal) ==> lex_order(
            x,
            z,
        ) == PathOrder::Equal,
    decreases x.len(),
{
    if x.len() > 0 && y.len() > 0 && z.len() > 0 && x[0] == y[0] && y[0] == z[0] {
        lemma_lex_order_trans(x.drop_first(), y.drop_first(), z.drop_first());
    }
}

proof fn lemma_number_order_trans(x: Seq<char>, y: Seq<char>, z: Seq<char>)
    ensures
        chains(number_order(x, y), number_order(y, z), number_order(x, z)),
        (number_order(x, y) == PathOrder::Equal && number_order(y, z) == PathOrder::Equal)
            ==> number_order(x, z) == PathOrder::Equal,
{
    let xv = x.skip(zero_run(x) as int);
    let yv = y.skip(zero_run(y) as int);
    let zv = z.skip(zero_run(z) as int);
    lemma_lex_order_trans(xv, yv, zv);
}

/// The natural order is transitive: `a` before or equal to `b` and `b`
/// before or equal to `c` puts `a` before or equal to `c`, strictly before
/// when either step was strict. With its flip and reflexivity it makes the
/// natural order a total preorder, so a list sorted pairwise is sorted
/// throughout.
pub proof fn lemma_natural_order_trans(a: Seq<char>, b: Seq<char>, c: Seq<char>)
    ensures
        chains(natural_order(a, b), natural_order(b, c), natural_order(a, c)),
    decreases a.len() + b.len() + c.len(),
{
    if a.len() > 0 && b.len() > 0 && c.len() > 0 {
        let da = is_digit(a[0]);
        let db = is_digit(b[0]);
        let dc = is_digit(c[0]);
        if da && db && dc {
            let n = digit_run(a);
            let m = digit_run(b);
            let l = digit_run(c);
            lemma_digit_run_bound(a);
            lemma_digit_run_bound(b);
            lemma_digit_run_bound(c);
            lemma_number_order_trans(a.take(n as int), b.take(m as int), c.take(l as int));
            lemma_natural_order_trans(a.skip(n as int), b.skip(m as int), c.skip(l as int));
        } else if !da && !db && !dc && a[0] == b[0] && b[0] == c[0] {
            lemma_natural_order_trans(a.drop_first(), b.drop_first(), c.drop_first());
        } else if da && db && !dc {
        } else if !da && !db && dc {
        } else {
        }
    }
}

} // verus!
