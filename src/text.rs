use vstd::prelude::*;

verus! {

/// Relies on `str::chars`: the characters of `s`, in order.
#[verifier::external_body]
pub(crate) fn chars_of(s: &str) -> (r: Vec<char>)
    ensures
        r@ == s@,
{
    s.chars().collect()
}

/// Relies on `String::from_iter` over characters: the string of `v`.
#[verifier::external_body]
pub(crate) fn string_of(v: &[char]) -> (r: String)
    ensures
        r@ == v@,
{
    String::from_iter(v.iter())
}


/// Unicode White_Space, the property `char::is_whitespace` reports.
pub open spec fn is_white_space(c: char) -> bool {
    let n = c as u32;
    (0x9 <= n && n <= 0xD) || n == 0x20 || n == 0x85 || n == 0xA0 || n == 0x1680 || (0x2000 <= n
        && n <= 0x200A) || n == 0x2028 || n == 0x2029 || n == 0x202F || n == 0x205F || n == 0x3000
}

/// First position at or after `i` that is not white space (`s.len()` if
/// none).
pub open spec fn lead_end(s: Seq<char>, i: int) -> int
    decreases s.len() - i,
{
    if i < 0 || i >= s.len() {
        s.len() as int
    } else if is_white_space(s[i]) {
        lead_end(s, i + 1)
    } else {
        i
    }
}

/// One past the last position before `j` that is not white space (0 if
/// none).
pub open spec fn trail_start(s: Seq<char>, j: int) -> int
    decreases j,
{
    if j <= 0 || j > s.len() {
        0
    } else if is_white_space(s[j - 1]) {
        trail_start(s, j - 1)
    } else {
        j
    }
}

/// `s` without leading and trailing white space, as `str::trim` does.
pub open spec fn trimmed(s: Seq<char>) -> Seq<char> {
    let a = lead_end(s, 0);
    let b = trail_start(s, s.len() as int);
    if a >= b {
        Seq::empty()
    } else {
        s.subrange(a, b)
    }
}

fn is_white_space_char(c: char) -> (r: bool)
    ensures
        r == is_white_space(c),
{
    let n = c as u32;
    (0x9 <= n && n <= 0xD) || n == 0x20 || n == 0x85 || n == 0xA0 || n == 0x1680 || (0x2000 <= n
        && n <= 0x200A) || n == 0x2028 || n == 0x2029 || n == 0x202F || n == 0x205F || n == 0x3000
}

proof fn lemma_trail_start_bounds(s: Seq<char>, j: int)
    requires
        0 <= j <= s.len(),
    ensures
        0 <= trail_start(s, j) <= j,
    decreases j,
{
    if j > 0 && is_white_space(s[j - 1]) {
        lemma_trail_start_bounds(s, j - 1);
    }
}

proof fn lemma_lead_end_bounds(s: Seq<char>, i: int)
    requires
        0 <= i <= s.len(),
    ensures
        i <= lead_end(s, i) <= s.len(),
    decreases s.len() - i,
{
    if i < s.len() && is_white_space(s[i]) {
        lemma_lead_end_bounds(s, i + 1);
    }
}

/// Removes leading and trailing white space.
pub fn trim_str(s: &str) -> (r: String)
    ensures
        r@ == trimmed(s@),
{
    let cs = chars_of(s);
    let n = cs.len();
    let mut a: usize = 0;
    while a < n && is_white_space_char(cs[a])
        invariant
            a <= n,
            n == cs@.len(),
            cs@ == s@,
            lead_end(cs@, a as int) == lead_end(cs@, 0),
        decreases n - a,
    {
        a = a + 1;
    }
    let mut b: usize = n;
    while b > 0 && is_white_space_char(cs[b - 1])
        invariant
            b <= n,
            n == cs@.len(),
            cs@ == s@,
            trail_start(cs@, b as int) == trail_start(cs@, n as int),
        decreases b,
    {
        b = b - 1;
    }
    proof {
        lemma_lead_end_bounds(cs@, 0);
        lemma_trail_start_bounds(cs@, n as int);
    }
    let mut out: Vec<char> = Vec::new();
    if a < b {
        copy_range(&mut out, &cs, a, b);
        assert(out@ =~= trimmed(s@));
    } else {
        assert(out@ =~= trimmed(s@));
    }
    string_of(out.as_slice())
}

/// `p` occurs in `s` at position `i`.
pub open spec fn occurs_at(s: Seq<char>, p: Seq<char>, i: int) -> bool {
    0 <= i && i + p.len() <= s.len() && s.subrange(i, i + p.len()) == p
}

pub open spec fn contains(s: Seq<char>, p: Seq<char>) -> bool {
    exists|i: int| occurs_at(s, p, i)
}

/// Position of the first occurrence of `p` in `s`.
pub open spec fn first_occurrence(s: Seq<char>, p: Seq<char>) -> Option<int> {
    if contains(s, p) {
        Some(choose|i: int| occurs_at(s, p, i) && forall|j: int| 0 <= j < i ==> !occurs_at(s, p, j))
    } else {
        None
    }
}

/// `s` with its first occurrence of `p` replaced by `t`.
pub open spec fn replace_first(s: Seq<char>, p: Seq<char>, t: Seq<char>) -> Seq<char> {
    match first_occurrence(s, p) {
        Some(i) => s.subrange(0, i) + t + s.subrange(i + p.len(), s.len() as int),
        None => s,
    }
}

/// `s` with every occurrence of `p` replaced by `t`, scanning left to
/// right without overlaps.
#[verifier::opaque]
pub open spec fn replace_all(s: Seq<char>, p: Seq<char>, t: Seq<char>) -> Seq<char>
    decreases s.len(),
{
    if p.len() == 0 {
        s
    } else {
        match first_occurrence(s, p) {
            Some(i) => if 0 <= i && i + p.len() <= s.len() {
                s.subrange(0, i) + t + replace_all(s.subrange(i + p.len(), s.len() as int), p, t)
            } else {
                s
            },
            None => s,
        }
    }
}

/// When `p` occurs in `s`, its first occurrence is a real, leftmost one.
pub proof fn lemma_first_occurrence_exists(s: Seq<char>, p: Seq<char>, i: int)
    requires
        occurs_at(s, p, i),
    ensures
        first_occurrence(s, p) is Some,
        occurs_at(s, p, first_occurrence(s, p)->Some_0),
        forall|j: int| 0 <= j < first_occurrence(s, p)->Some_0 ==> !occurs_at(s, p, j),
    decreases i,
{
    if exists|j: int| 0 <= j < i && occurs_at(s, p, j) {
        let j = choose|j: int| 0 <= j < i && occurs_at(s, p, j);
        lemma_first_occurrence_exists(s, p, j);
    } else {
        lemma_first_occurrence(s, p, i);
    }
}

pub proof fn lemma_first_occurrence(s: Seq<char>, p: Seq<char>, i: int)
    requires
        occurs_at(s, p, i),
        forall|j: int| 0 <= j < i ==> !occurs_at(s, p, j),
    ensures
        first_occurrence(s, p) == Some(i),
{
    assert(contains(s, p));
    let k = choose|k: int| occurs_at(s, p, k) && forall|j: int| 0 <= j < k ==> !occurs_at(s, p, j);
    if k < i {
        assert(!occurs_at(s, p, k));
    } else if k > i {
        assert(!occurs_at(s, p, i));
    }
}

/// Whether `p` occurs in `s` at `i`.
fn matches_at(s: &Vec<char>, p: &Vec<char>, i: usize) -> (r: bool)
    requires
        i + p@.len() <= s@.len(),
    ensures
        r == occurs_at(s@, p@, i as int),
{
    let n = s.len();
    let mut k: usize = 0;
    while k < p.len()
        invariant
            k <= p@.len(),
            n == s@.len(),
            i + p@.len() <= s@.len(),
            forall|m: int| 0 <= m < k ==> s@[i + m] == p@[m],
        decreases p.len() - k,
    {
        if s[i + k] != p[k] {
            assert(s@.subrange(i as int, i + p@.len())[k as int] != p@[k as int]);
            return false;
        }
        k = k + 1;
    }
    assert(s@.subrange(i as int, i + p@.len()) =~= p@);
    true
}

/// First position at or after `from` where `p` occurs in `s`.
pub(crate) fn find_from(s: &Vec<char>, p: &Vec<char>, from: usize) -> (r: Option<usize>)
    requires
        from <= s@.len(),
    ensures
        match r {
            Some(i) => from <= i && occurs_at(s@, p@, i as int) && forall|j: int|
                from <= j < i ==> !occurs_at(s@, p@, j),
            None => forall|j: int| from <= j ==> !occurs_at(s@, p@, j),
        },
{
    if p.len() > s.len() {
        return None;
    }
    let last = s.len() - p.len();
    let mut i: usize = from;
    while i <= last
        invariant
            from <= i,
            last + p@.len() == s@.len(),
            forall|j: int| from <= j < i ==> !occurs_at(s@, p@, j),
        decreases last + 1 - i,
    {
        if matches_at(s, p, i) {
            return Some(i);
        }
        if i == last {
            return None;
        }
        i = i + 1;
    }
    None
}

/// Whether `p` occurs anywhere in `s`.
pub fn contains_chars(s: &Vec<char>, p: &Vec<char>) -> (r: bool)
    ensures
        r == contains(s@, p@),
{
    match find_from(s, p, 0) {
        Some(i) => true,
        None => {
            assert forall|j: int| !occurs_at(s@, p@, j) by {
                if j < 0 {
                }
            }
            false
        },
    }
}

pub(crate) fn copy_range(out: &mut Vec<char>, s: &Vec<char>, from: usize, to: usize)
    requires
        from <= to <= s@.len(),
    ensures
        final(out)@ == old(out)@ + s@.subrange(from as int, to as int),
{
    let mut k: usize = from;
    while k < to
        invariant
            from <= k <= to,
            to <= s@.len(),
            out@ == old(out)@ + s@.subrange(from as int, k as int),
        decreases to - k,
    {
        out.push(s[k]);
        proof {
            assert(s@.subrange(from as int, k + 1) == s@.subrange(from as int, k as int).push(s@[k as int]));
        }
        k = k + 1;
    }
}

fn append_all(out: &mut Vec<char>, t: &Vec<char>)
    ensures
        final(out)@ == old(out)@ + t@,
{
    copy_range(out, t, 0, t.len());
    proof {
        assert(t@.subrange(0, t@.len() as int) == t@);
    }
}

/// Replaces the first occurrence of `p` in `s` by `t`.
pub fn replace_first_chars(s: &Vec<char>, p: &Vec<char>, t: &Vec<char>) -> (r: Vec<char>)
    ensures
        r@ == replace_first(s@, p@, t@),
{
    match find_from(s, p, 0) {
        Some(i) => {
            proof {
                lemma_first_occurrence(s@, p@, i as int);
            }
            assert(s@.len() == s.len());
            let mut out: Vec<char> = Vec::new();
            copy_range(&mut out, s, 0, i);
            append_all(&mut out, t);
            copy_range(&mut out, s, i + p.len(), s.len());
            out
        },
        None => {
            assert(!contains(s@, p@));
            s.clone()
        },
    }
}

/// Replaces every occurrence of a non-empty `p` in `s` by `t`, left to
/// right without overlaps.
pub fn replace_all_chars(s: &Vec<char>, p: &Vec<char>, t: &Vec<char>) -> (r: Vec<char>)
    requires
        p@.len() > 0,
    ensures
        r@ == replace_all(s@, p@, t@),
{
    let mut out: Vec<char> = Vec::new();
    let mut pos: usize = 0;
    let mut done = false;
    assert(s@.subrange(0, s@.len() as int) == s@);
    assert(out@ + replace_all(s@, p@, t@) =~= replace_all(s@, p@, t@));
    while !done
        invariant
            pos <= s@.len(),
            p@.len() > 0,
            !done ==> out@ + replace_all(s@.subrange(pos as int, s@.len() as int), p@, t@)
                == replace_all(s@, p@, t@),
            done ==> out@ == replace_all(s@, p@, t@),
        decreases (if done { 0 } else { s@.len() + 1 - pos }),
    {
        let ghost rest = s@.subrange(pos as int, s@.len() as int);
        let ghost out0 = out@;
        match find_from(s, p, pos) {
            Some(i) => {
                proof {
                    lemma_replace_all_found(s@, p@, t@, pos as int, i as int);
                }
                assert(s@.len() == s.len());
                copy_range(&mut out, s, pos, i);
                append_all(&mut out, t);
                pos = i + p.len();
                assert(out0 + replace_all(rest, p@, t@) =~= out@ + replace_all(
                    s@.subrange(pos as int, s@.len() as int),
                    p@,
                    t@,
                ));
            },
            None => {
                proof {
                    lemma_replace_all_absent(s@, p@, t@, pos as int);
                }
                copy_range(&mut out, s, pos, s.len());
                done = true;
                assert(out@ == out0 + replace_all(rest, p@, t@));
            },
        }
    }
    out
}

pub proof fn lemma_replace_all_found(s: Seq<char>, p: Seq<char>, t: Seq<char>, pos: int, i: int)
    requires
        0 <= pos <= i,
        p.len() > 0,
        occurs_at(s, p, i),
        forall|j: int| pos <= j < i ==> !occurs_at(s, p, j),
    ensures
        replace_all(s.subrange(pos, s.len() as int), p, t) == s.subrange(pos, i) + t + replace_all(
            s.subrange(i + p.len(), s.len() as int),
            p,
            t,
        ),
{
    reveal(replace_all);
    let rest = s.subrange(pos, s.len() as int);
    assert forall|j: int| 0 <= j < i - pos implies !occurs_at(rest, p, j) by {
        if j + p.len() <= rest.len() {
            assert(rest.subrange(j, j + p.len()) =~= s.subrange(pos + j, pos + j + p.len()));
            assert(!occurs_at(s, p, pos + j));
        }
    }
    assert(rest.subrange(i - pos, i - pos + p.len()) =~= s.subrange(i, i + p.len()));
    lemma_first_occurrence(rest, p, i - pos);
    assert(rest.subrange(0, i - pos) =~= s.subrange(pos, i));
    assert(rest.subrange(i - pos + p.len(), rest.len() as int) =~= s.subrange(
        i + p.len(),
        s.len() as int,
    ));
}

pub proof fn lemma_replace_all_absent(s: Seq<char>, p: Seq<char>, t: Seq<char>, pos: int)
    requires
        0 <= pos <= s.len(),
        p.len() > 0,
        forall|j: int| pos <= j ==> !occurs_at(s, p, j),
    ensures
        replace_all(s.subrange(pos, s.len() as int), p, t) == s.subrange(pos, s.len() as int),
{
    reveal(replace_all);
    let rest = s.subrange(pos, s.len() as int);
    assert forall|j: int| !occurs_at(rest, p, j) by {
        if 0 <= j && j + p.len() <= rest.len() {
            assert(rest.subrange(j, j + p.len()) =~= s.subrange(pos + j, pos + j + p.len()));
            assert(!occurs_at(s, p, pos + j));
        }
    }
    assert(!contains(rest, p));
}

pub open spec fn digit_char(d: nat) -> char {
    if d == 0 {
        '0'
    } else if d == 1 {
        '1'
    } else if d == 2 {
        '2'
    } else if d == 3 {
        '3'
    } else if d == 4 {
        '4'
    } else if d == 5 {
        '5'
    } else if d == 6 {
        '6'
    } else if d == 7 {
        '7'
    } else if d == 8 {
        '8'
    } else {
        '9'
    }
}

/// Decimal digits of `n`.
pub open spec fn decimal(n: nat) -> Seq<char>
    decreases n,
{
    if n < 10 {
        seq![digit_char(n)]
    } else {
        decimal(n / 10).push(digit_char(n % 10))
    }
}

pub(crate) fn digit_of(d: u64) -> (r: char)
    requires
        d < 10,
    ensures
        r == digit_char(d as nat),
{
    if d == 0 {
        '0'
    } else if d == 1 {
        '1'
    } else if d == 2 {
        '2'
    } else if d == 3 {
        '3'
    } else if d == 4 {
        '4'
    } else if d == 5 {
        '5'
    } else if d == 6 {
        '6'
    } else if d == 7 {
        '7'
    } else if d == 8 {
        '8'
    } else {
        '9'
    }
}

pub(crate) fn push_decimal(out: &mut Vec<char>, n: u64)
    ensures
        final(out)@ == old(out)@ + decimal(n as nat),
    decreases n,
{
    if n >= 10 {
        push_decimal(out, n / 10);
    }
    out.push(digit_of(n % 10));
    proof {
        if n < 10 {
            assert(n % 10 == n);
        }
        assert(decimal(n as nat) == if n < 10 {
            seq![digit_char(n as nat)]
        } else {
            decimal((n / 10) as nat).push(digit_char((n % 10) as nat))
        });
    }
    assert(out@ =~= old(out)@ + decimal(n as nat));
}

/// Whether two character sequences are equal.
pub(crate) fn seq_eq(a: &Vec<char>, b: &Vec<char>) -> (r: bool)
    ensures
        r == (a@ == b@),
{
    if a.len() != b.len() {
        return false;
    }
    let mut i: usize = 0;
    while i < a.len()
        invariant
            i <= a@.len(),
            a@.len() == b@.len(),
            forall|k: int| 0 <= k < i ==> a@[k] == b@[k],
        decreases a.len() - i,
    {
        if a[i] != b[i] {
            assert(a@[i as int] != b@[i as int]);
            return false;
        }
        i = i + 1;
    }
    assert(a@ =~= b@);
    true
}

} // verus!
