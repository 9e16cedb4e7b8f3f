//! Verified string utilities: equality, substring search, splitting at a
//! character, and decimal rendering of integers. The selector builders, header
//! generators and error messages of the crate are specified in terms of the
//! spec functions defined here.

use vstd::prelude::*;

verus! {

/// Relies on `str`'s `==` operator (`core::cmp::PartialEq`): two string
/// slices compare equal exactly when they consist of the same characters.
#[verifier::external_body]
pub fn str_eq(a: &str, b: &str) -> (r: bool)
    ensures
        r == (a@ == b@),
{
    a == b
}

/// `t` occurs in `s` starting at position `i`.
pub open spec fn seq_contains_at(s: Seq<char>, t: Seq<char>, i: int) -> bool {
    0 <= i && i + t.len() <= s.len() && s.subrange(i, i + t.len()) == t
}

/// `t` occurs somewhere in `s`.
pub open spec fn seq_contains(s: Seq<char>, t: Seq<char>) -> bool {
    exists|i: int| seq_contains_at(s, t, i)
}

/// Whether the characters of `t` match `s` at offset `i`.
fn matches_at(s: &str, t: &str, i: usize, n: usize, m: usize) -> (r: bool)
    requires
        n == s@.len(),
        m == t@.len(),
        i + m <= n,
    ensures
        r == seq_contains_at(s@, t@, i as int),
{
    let mut j: usize = 0;
    while j < m
        invariant
            n == s@.len(),
            m == t@.len(),
            i + m <= n,
            j <= m,
            forall|l: int| 0 <= l < j ==> s@[i + l] == t@[l],
        decreases m - j,
    {
        if s.get_char(i + j) != t.get_char(j) {
            assert(s@.subrange(i as int, i + m) != t@) by {
                assert(s@.subrange(i as int, i + m)[j as int] == s@[i + j]);
            }
            return false;
        }
        j = j + 1;
    }
    assert(s@.subrange(i as int, i + m) =~= t@);
    true
}

/// Substring search: whether `t` occurs anywhere in `s`.
pub fn contains_substr(s: &str, t: &str) -> (r: bool)
    ensures
        r == seq_contains(s@, t@),
{
    let n = s.unicode_len();
    let m = t.unicode_len();
    if m > n {
        assert(!seq_contains(s@, t@)) by {
            assert(forall|i: int| !#[trigger] seq_contains_at(s@, t@, i));
        }
        return false;
    }
    if m == 0 {
        assert(seq_contains_at(s@, t@, 0)) by {
            assert(s@.subrange(0, 0) =~= t@);
        }
        return true;
    }
    let mut i: usize = 0;
    while i <= n - m
        invariant
            n == s@.len(),
            m == t@.len(),
            1 <= m <= n,
            i <= n - m + 1,
            forall|k: int| 0 <= k < i ==> !#[trigger] seq_contains_at(s@, t@, k),
        decreases n + 1 - m - i,
    {
        if matches_at(s, t, i, n, m) {
            assert(seq_contains(s@, t@));
            return true;
        }
        i = i + 1;
    }
    assert(!seq_contains(s@, t@)) by {
        assert(forall|k: int| seq_contains_at(s@, t@, k) ==> 0 <= k <= n - m);
        assert(forall|k: int| 0 <= k < i ==> !#[trigger] seq_contains_at(s@, t@, k));
    }
    false
}

/// The position of the first occurrence of `t` in `s`, as a partial spec
/// value.
pub open spec fn spec_first_occurrence(s: Seq<char>, t: Seq<char>) -> Option<int> {
    if seq_contains(s, t) {
        Some(
            choose|i: int|
                seq_contains_at(s, t, i) && forall|k: int| 0 <= k < i ==> !seq_contains_at(s, t, k),
        )
    } else {
        None
    }
}

/// Find the first occurrence of `t` in `s`.
pub fn find_substr(s: &str, t: &str) -> (r: Option<usize>)
    ensures
        match r {
            Some(i) => spec_first_occurrence(s@, t@) == Some(i as int) && seq_contains_at(
                s@,
                t@,
                i as int,
            ),
            None => !seq_contains(s@, t@),
        },
{
    let n = s.unicode_len();
    let m = t.unicode_len();
    if m > n {
        assert(!seq_contains(s@, t@)) by {
            assert(forall|i: int| !#[trigger] seq_contains_at(s@, t@, i));
        }
        return None;
    }
    if m == 0 {
        assert(seq_contains_at(s@, t@, 0)) by {
            assert(s@.subrange(0, 0) =~= t@);
        }
        proof {
            lemma_first_occurrence_at(s@, t@, 0);
        }
        return Some(0);
    }
    let mut i: usize = 0;
    while i <= n - m
        invariant
            n == s@.len(),
            m == t@.len(),
            1 <= m <= n,
            i <= n - m + 1,
            forall|k: int| 0 <= k < i ==> !#[trigger] seq_contains_at(s@, t@, k),
        decreases n + 1 - m - i,
    {
        if matches_at(s, t, i, n, m) {
            proof {
                lemma_first_occurrence_at(s@, t@, i as int);
            }
            return Some(i);
        }
        i = i + 1;
    }
    assert(!seq_contains(s@, t@)) by {
        assert(forall|k: int| seq_contains_at(s@, t@, k) ==> 0 <= k <= n - m);
        assert(forall|k: int| 0 <= k < i ==> !#[trigger] seq_contains_at(s@, t@, k));
    }
    None
}

proof fn lemma_first_occurrence_at(s: Seq<char>, t: Seq<char>, i: int)
    requires
        seq_contains_at(s, t, i),
        forall|k: int| 0 <= k < i ==> !seq_contains_at(s, t, k),
    ensures
        spec_first_occurrence(s, t) == Some(i),
{
    assert(seq_contains(s, t));
    let w = choose|w: int|
        seq_contains_at(s, t, w) && forall|k: int| 0 <= k < w ==> !seq_contains_at(s, t, k);
    if w < i {
        assert(!seq_contains_at(s, t, w));
    }
    if i < w {
        assert(!seq_contains_at(s, t, i));
    }
}

/// The prefix of `s` before the first occurrence of `c` (all of `s` when
/// `c` does not occur), as a spec value.
pub open spec fn spec_until_char(s: Seq<char>, c: char) -> Seq<char> {
    match spec_first_split(s, c) {
        Some(i) => s.take(i),
        None => s,
    }
}

/// Find the first occurrence of character `c` in `s`.
pub fn find_char(s: &str, c: char) -> (r: Option<usize>)
    ensures
        match r {
            Some(i) => i < s@.len() && s@[i as int] == c && forall|k: int| 0 <= k < i ==> s@[k] != c,
            None => forall|k: int| 0 <= k < s@.len() ==> s@[k] != c,
        },
{
    let n = s.unicode_len();
    let mut i: usize = 0;
    while i < n
        invariant
            n == s@.len(),
            i <= n,
            forall|k: int| 0 <= k < i ==> s@[k] != c,
        decreases n - i,
    {
        if s.get_char(i) == c {
            return Some(i);
        }
        i = i + 1;
    }
    None
}

/// The prefix of `s` before the first occurrence of `c` (all of `s` when `c`
/// does not occur).
pub fn prefix_before_char<'a>(s: &'a str, c: char) -> (r: &'a str)
    ensures
        match spec_first_split(s@, c) {
            Some(i) => r@ == s@.subrange(0, i),
            None => r@ == s@,
        },
{
    match find_char(s, c) {
        Some(i) => {
            proof {
                lemma_first_split_some(s@, c, i as int);
            }
            s.substring_char(0, i)
        },
        None => {
            proof {
                lemma_first_split_none(s@, c);
            }
            proof {
                assert(s@.subrange(0, s@.len() as int) =~= s@);
            }
            let n = s.unicode_len();
            s.substring_char(0, n)
        },
    }
}

/// The index of the first occurrence of `c` in `s`, as a partial spec value.
pub open spec fn spec_first_split(s: Seq<char>, c: char) -> Option<int> {
    if exists|i: int| 0 <= i < s.len() && s[i] == c {
        Some(choose|i: int| 0 <= i < s.len() && s[i] == c && forall|k: int| 0 <= k < i ==> s[k] != c)
    } else {
        None
    }
}

pub proof fn lemma_first_split_some(s: Seq<char>, c: char, i: int)
    requires
        0 <= i < s.len(),
        s[i] == c,
        forall|k: int| 0 <= k < i ==> s[k] != c,
    ensures
        spec_first_split(s, c) == Some(i),
{
    assert(exists|j: int| 0 <= j < s.len() && s[j] == c);
    let w = choose|j: int|
        0 <= j < s.len() && s[j] == c && forall|k: int| 0 <= k < j ==> s[k] != c;
    if w < i {
        assert(s[w] != c);
    }
    if i < w {
        assert(s[i] != c);
    }
}

pub proof fn lemma_first_split_none(s: Seq<char>, c: char)
    requires
        forall|k: int| 0 <= k < s.len() ==> s[k] != c,
    ensures
        spec_first_split(s, c) == None::<int>,
{
    if exists|i: int| 0 <= i < s.len() && s[i] == c {
        let i = choose|i: int| 0 <= i < s.len() && s[i] == c;
        assert(s[i] != c);
    }
}

/// Lexicographic order on character sequences, by code point.
pub open spec fn spec_lex_lt(a: Seq<char>, b: Seq<char>) -> bool
    decreases a.len(), b.len(),
{
    if b.len() == 0 {
        false
    } else if a.len() == 0 {
        true
    } else if a[0] != b[0] {
        (a[0] as int) < (b[0] as int)
    } else {
        spec_lex_lt(a.drop_first(), b.drop_first())
    }
}

/// Reflexive closure of the lexicographic order.
pub open spec fn spec_lex_le(a: Seq<char>, b: Seq<char>) -> bool {
    spec_lex_lt(a, b) || a == b
}

/// The lexicographic order is connex: of two sequences, one is at most the
/// other.
pub proof fn lemma_lex_connex(a: Seq<char>, b: Seq<char>)
    ensures
        spec_lex_lt(a, b) || spec_lex_lt(b, a) || a == b,
    decreases a.len(),
{
    if b.len() == 0 {
        if a.len() == 0 {
            assert(a =~= b);
        }
    } else if a.len() == 0 {
    } else if a[0] != b[0] {
        assert((a[0] as int) != (b[0] as int));
    } else {
        lemma_lex_connex(a.drop_first(), b.drop_first());
        if !spec_lex_lt(a, b) && !spec_lex_lt(b, a) {
            assert(a.drop_first() == b.drop_first());
            assert(a =~= b) by {
                assert(forall|i: int|
                    1 <= i < a.len() ==> a[i] == a.drop_first()[i - 1] && b[i] == b.drop_first()[i
                        - 1]);
            }
        }
    }
}

/// The lexicographic order is transitive, also across its reflexive
/// closure.
pub proof fn lemma_lex_trans(a: Seq<char>, b: Seq<char>, c: Seq<char>)
    requires
        spec_lex_lt(a, b),
        spec_lex_lt(b, c),
    ensures
        spec_lex_lt(a, c),
    decreases a.len(), b.len(), c.len(),
{
    if c.len() == 0 {
    } else if b.len() == 0 {
    } else if a.len() == 0 {
    } else if a[0] == b[0] && b[0] == c[0] {
        lemma_lex_trans(a.drop_first(), b.drop_first(), c.drop_first());
    }
}

/// Compare two strings in lexicographic code-point order.
pub fn lex_lt(a: &str, b: &str) -> (r: bool)
    ensures
        r == spec_lex_lt(a@, b@),
{
    let an = a.unicode_len();
    let bn = b.unicode_len();
    let mut i: usize = 0;
    proof {
        assert(a@.skip(0) =~= a@);
        assert(b@.skip(0) =~= b@);
    }
    while i < an && i < bn
        invariant
            an == a@.len(),
            bn == b@.len(),
            i <= an,
            i <= bn,
            spec_lex_lt(a@, b@) == spec_lex_lt(a@.skip(i as int), b@.skip(i as int)),
            forall|k: int| 0 <= k < i ==> a@[k] == b@[k],
        decreases an - i,
    {
        let ac = a.get_char(i);
        let bc = b.get_char(i);
        proof {
            assert(a@.skip(i as int)[0] == a@[i as int]);
            assert(b@.skip(i as int)[0] == b@[i as int]);
            assert(a@.skip(i as int).drop_first() =~= a@.skip(i + 1));
            assert(b@.skip(i as int).drop_first() =~= b@.skip(i + 1));
        }
        if ac != bc {
            return (ac as u32) < (bc as u32);
        }

        i = i + 1;
    }
    proof {
        if i >= bn {
            assert(b@.skip(i as int).len() == 0);
        } else {
            assert(a@.skip(i as int).len() == 0);
            assert(b@.skip(i as int).len() > 0);
        }
    }
    i < bn
}

/// The character for one decimal digit.
pub open spec fn spec_digit_char(d: nat) -> char {
    if d == 0 {
        '0'
    } else if d == 1 {
        '1'
    } else if d == 2 {
        '2'
    } else if d == 3 {
        '3'
    } else if d == 4 {
        '4'
    } else if d == 5 {
        '5'
    } else if d == 6 {
        '6'
    } else if d == 7 {
        '7'
    } else if d == 8 {
        '8'
    } else {
        '9'
    }
}

/// The decimal rendering of `n`, most significant digit first.
pub open spec fn spec_decimal(n: nat) -> Seq<char>
    decreases n,
{
    if n < 10 {
        seq![spec_digit_char(n)]
    } else {
        spec_decimal(n / 10).push(spec_digit_char(n % 10))
    }
}

fn digit_str(d: u64) -> (r: &'static str)
    requires
        d < 10,
    ensures
        r@ =~= seq![spec_digit_char(d as nat)],
{
    proof {
        reveal_strlit("0");
        reveal_strlit("1");
        reveal_strlit("2");
        reveal_strlit("3");
        reveal_strlit("4");
        reveal_strlit("5");
        reveal_strlit("6");
        reveal_strlit("7");
        reveal_strlit("8");
        reveal_strlit("9");
    }
    match d {
        0 => "0",
        1 => "1",
        2 => "2",
        3 => "3",
        4 => "4",
        5 => "5",
        6 => "6",
        7 => "7",
        8 => "8",
        _ => "9",
    }
}

/// Render `n` in decimal.
pub fn u64_to_string(n: u64) -> (r: String)
    ensures
        r@ == spec_decimal(n as nat),
    decreases n,
{
    if n < 10 {
        let r = String::from_str(digit_str(n));
        proof {
            assert(r@ =~= spec_decimal(n as nat));
        }
        r
    } else {
        let prefix = u64_to_string(n / 10);
        let r = prefix.concat(digit_str(n % 10));
        proof {
            assert(r@ =~= spec_decimal(n as nat));
        }
        r
    }
}

/// Render a `usize` in decimal.
pub fn usize_to_string(n: usize) -> (r: String)
    ensures
        r@ == spec_decimal(n as nat),
{
    u64_to_string(n as u64)
}

} // verus!
