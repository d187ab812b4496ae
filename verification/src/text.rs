//! Lexicographic ordering of strings, by Unicode scalar value.
//!
//! Rust orders `str` by its UTF-8 bytes, which agrees with ordering the
//! characters by their scalar values; both are captured by [`seq_lt`].
use vstd::prelude::*;

verus! {

/// Three-way comparison outcome.
#[derive(Debug, Clone, Copy, PartialEq, Eq, Structural)]
pub enum Order {
    /// The left operand is smaller.
    Less,
    /// Both operands are equal.
    Equal,
    /// The left operand is greater.
    Greater,
}

impl Order {
    /// The outcome with both operands swapped.
    pub open spec fn spec_reverse(self) -> Order {
        match self {
            Order::Less => Order::Greater,
            Order::Equal => Order::Equal,
            Order::Greater => Order::Less,
        }
    }

    /// Returns the outcome with both operands swapped.
    pub fn reverse(self) -> (r: Order)
        ensures
            r == self.spec_reverse(),
    {
        match self {
            Order::Less => Order::Greater,
            Order::Equal => Order::Equal,
            Order::Greater => Order::Less,
        }
    }
}

/// Compares two mathematical integers.
pub open spec fn int_order(x: int, y: int) -> Order {
    if x < y {
        Order::Less
    } else if x == y {
        Order::Equal
    } else {
        Order::Greater
    }
}

/// Strict lexicographic order on character sequences.
pub open spec fn seq_lt(a: Seq<char>, b: Seq<char>) -> bool
    decreases a.len(),
{
    if a.len() == 0 {
        b.len() > 0
    } else if b.len() == 0 {
        false
    } else if (a[0] as int) < (b[0] as int) {
        true
    } else if a[0] == b[0] {
        seq_lt(a.drop_first(), b.drop_first())
    } else {
        false
    }
}

/// Lexicographic comparison of two character sequences.
pub open spec fn seq_order(a: Seq<char>, b: Seq<char>) -> Order {
    if seq_lt(a, b) {
        Order::Less
    } else if a == b {
        Order::Equal
    } else {
        Order::Greater
    }
}

/// No sequence precedes itself.
pub proof fn lemma_seq_lt_irreflexive(a: Seq<char>)
    ensures
        !seq_lt(a, a),
    decreases a.len(),
{
    if a.len() > 0 {
        lemma_seq_lt_irreflexive(a.drop_first());
    }
}

/// The lexicographic order is transitive.
pub proof fn lemma_seq_lt_transitive(a: Seq<char>, b: Seq<char>, c: Seq<char>)
    requires
        seq_lt(a, b),
        seq_lt(b, c),
    ensures
        seq_lt(a, c),
    decreases a.len(),
{
    if a.len() > 0 && b.len() > 0 && c.len() > 0 {
        if a[0] == b[0] && b[0] == c[0] {
            lemma_seq_lt_transitive(a.drop_first(), b.drop_first(), c.drop_first());
        }
    }
}

/// Two distinct sequences are ordered one way or the other.
pub proof fn lemma_seq_lt_total(a: Seq<char>, b: Seq<char>)
    ensures
        a == b || seq_lt(a, b) || seq_lt(b, a),
    decreases a.len(),
{
    if a.len() > 0 && b.len() > 0 {
        if a[0] == b[0] {
            lemma_seq_lt_total(a.drop_first(), b.drop_first());
            if a.drop_first() == b.drop_first() {
                assert(a =~= seq![a[0]] + a.drop_first());
                assert(b =~= seq![b[0]] + b.drop_first());
            }
        } else {
            assert((a[0] as int) != (b[0] as int));
        }
    } else if a.len() == 0 && b.len() == 0 {
        assert(a =~= b);
    }
}

/// A common prefix does not change the order of two sequences.
proof fn lemma_seq_lt_skip(a: Seq<char>, b: Seq<char>, i: int)
    requires
        0 <= i <= a.len(),
        i <= b.len(),
        a.take(i) == b.take(i),
    ensures
        seq_lt(a, b) == seq_lt(a.skip(i), b.skip(i)),
    decreases i,
{
    if i > 0 {
        assert(a[0] == a.take(i)[0]);
        assert(b[0] == b.take(i)[0]);
        assert(a.drop_first().take(i - 1) =~= a.take(i).drop_first());
        assert(b.drop_first().take(i - 1) =~= b.take(i).drop_first());
        lemma_seq_lt_skip(a.drop_first(), b.drop_first(), i - 1);
        assert(a.drop_first().skip(i - 1) =~= a.skip(i));
        assert(b.drop_first().skip(i - 1) =~= b.skip(i));
    } else {
        assert(a.skip(0) =~= a);
        assert(b.skip(0) =~= b);
    }
}

/// Copies the characters of `s` into a vector.
fn chars_of(s: &str) -> (r: Vec<char>)
    ensures
        r@ == s@,
{
    let n = s.unicode_len();
    let mut r: Vec<char> = Vec::new();
    let mut i: usize = 0;
    while i < n
        invariant
            n == s@.len(),
            i <= n,
            r@ == s@.take(i as int),
        decreases n - i,
    {
        let c = s.get_char(i);
        r.push(c);
        assert(r@ =~= s@.take(i + 1));
        i = i + 1;
    }
    assert(r@ =~= s@);
    r
}

/// Compares two strings lexicographically by character.
pub fn str_order(a: &str, b: &str) -> (r: Order)
    ensures
        r == seq_order(a@, b@),
{
    let x = chars_of(a);
    let y = chars_of(b);
    let mut i: usize = 0;
    while i < x.len() && i < y.len() && x[i] == y[i]
        invariant
            x@ == a@,
            y@ == b@,
            i <= x.len(),
            i <= y.len(),
            x@.take(i as int) == y@.take(i as int),
        decreases x.len() - i,
    {
        assert(x@.take(i + 1) =~= x@.take(i as int).push(x@[i as int]));
        assert(y@.take(i + 1) =~= y@.take(i as int).push(y@[i as int]));
        i = i + 1;
    }
    proof {
        lemma_seq_lt_skip(x@, y@, i as int);
    }
    if i == x.len() && i == y.len() {
        proof {
            assert(x@ =~= x@.take(i as int));
            assert(y@ =~= y@.take(i as int));
            lemma_seq_lt_irreflexive(x@);
        }
        Order::Equal
    } else if i == x.len() {
        Order::Less
    } else if i == y.len() {
        proof {
            lemma_seq_lt_total(x@, y@);
            assert(x@.skip(i as int).len() > 0);
            if x@ == y@ {
                assert(false);
            }
        }
        Order::Greater
    } else {
        let cx = x[i];
        let cy = y[i];
        proof {
            assert(x@.skip(i as int)[0] == cx);
            assert(y@.skip(i as int)[0] == cy);
        }
        if cx < cy {
            Order::Less
        } else {
            proof {
                assert(x@[i as int] != y@[i as int]);
                if x@ == y@ {
                    assert(false);
                }
            }
            Order::Greater
        }
    }
}

/// Returns `true` when both strings hold the same characters.
pub fn str_eq(a: &str, b: &str) -> (r: bool)
    ensures
        r == (a@ == b@),
{
    proof {
        lemma_seq_lt_irreflexive(a@);
    }
    match str_order(a, b) {
        Order::Equal => true,
        _ => false,
    }
}

/// Two characters are equal ignoring case, as a case-insensitive regular
/// expression compares them against the lower-case character `l`: ASCII
/// letters in either case, and the long s `ſ` as `s`.
pub open spec fn char_matches_ignoring_case(c: char, l: char) -> bool {
    c == l || ('a' <= l <= 'z' && c as int == l as int - 32) || (l == 's' && c == '\u{17f}')
}

/// A string equals a lower-case word ignoring case.
pub open spec fn matches_ignoring_case(s: Seq<char>, word: Seq<char>) -> bool {
    s.len() == word.len() && forall|i: int|
        0 <= i < s.len() ==> char_matches_ignoring_case(#[trigger] s[i], word[i])
}

/// Returns `true` when `s` equals the lower-case `word` ignoring case.
pub fn eq_ignoring_case(s: &str, word: &str) -> (r: bool)
    ensures
        r == matches_ignoring_case(s@, word@),
{
    let n = s.unicode_len();
    if n != word.unicode_len() {
        return false;
    }
    let mut i: usize = 0;
    while i < n
        invariant
            n == s@.len(),
            n == word@.len(),
            i <= n,
            forall|j: int| 0 <= j < i ==> char_matches_ignoring_case(#[trigger] s@[j], word@[j]),
        decreases n - i,
    {
        let c = s.get_char(i);
        let l = word.get_char(i);
        let ok = c == l || ('a' <= l && l <= 'z' && (c as u32) + 32 == (l as u32)) || (l == 's' && c
            == '\u{17f}');
        if !ok {
            return false;
        }
        i = i + 1;
    }
    true
}

} // verus!
