//! The order in which the locks of two vaults are taken. An operation on two
//! vaults holds both locks; taking them in one fixed order, whichever vault
//! is the source, keeps two such operations from waiting for each other.

use vstd::prelude::*;

verus! {

/// `a` comes no later than `b` in the order of texts: character by
/// character, by the characters' code points, a prefix before what it is a
/// prefix of.
pub open spec fn precedes(a: Seq<char>, b: Seq<char>) -> bool
    decreases a.len(),
{
    if a.len() == 0 {
        true
    } else if b.len() == 0 {
        false
    } else if a[0] != b[0] {
        a[0] < b[0]
    } else {
        precedes(a.skip(1), b.skip(1))
    }
}

/// The two texts, the one that comes first in front.
pub open spec fn ordered(a: Seq<char>, b: Seq<char>) -> (Seq<char>, Seq<char>) {
    if precedes(a, b) {
        (a, b)
    } else {
        (b, a)
    }
}

/// Of two texts, one comes no later than the other.
pub proof fn lemma_precedes_total(a: Seq<char>, b: Seq<char>)
    ensures
        precedes(a, b) || precedes(b, a),
    decreases a.len(),
{
    if a.len() > 0 && b.len() > 0 {
        if a[0] == b[0] {
            lemma_precedes_total(a.skip(1), b.skip(1));
        }
    }
}

/// Two texts that each come no later than the other are the same text.
pub proof fn lemma_precedes_antisymmetric(a: Seq<char>, b: Seq<char>)
    requires
        precedes(a, b),
        precedes(b, a),
    ensures
        a == b,
    decreases a.len(),
{
    if a.len() == 0 {
        assert(a =~= b);
    } else {
        lemma_precedes_antisymmetric(a.skip(1), b.skip(1));
        assert(a =~= seq![a[0]] + a.skip(1));
        assert(b =~= seq![b[0]] + b.skip(1));
    }
}

/// The order of two locks does not depend on which vault is named first.
pub proof fn law_lock_order_is_fixed(a: Seq<char>, b: Seq<char>)
    ensures
        ordered(a, b) == ordered(b, a),
{
    lemma_precedes_total(a, b);
    if precedes(a, b) && precedes(b, a) {
        lemma_precedes_antisymmetric(a, b);
    }
}

/// Skipping the first `i` characters of two texts that agree on them does not
/// change which comes first.
proof fn lemma_precedes_after_prefix(a: Seq<char>, b: Seq<char>, i: int)
    requires
        0 <= i <= a.len(),
        i <= b.len(),
        a.take(i) == b.take(i),
    ensures
        precedes(a, b) == precedes(a.skip(i), b.skip(i)),
    decreases i,
{
    if i == 0 {
        assert(a.skip(0) =~= a);
        assert(b.skip(0) =~= b);
    } else {
        assert(a.take(i - 1) =~= a.take(i).take(i - 1));
        assert(b.take(i - 1) =~= b.take(i).take(i - 1));
        lemma_precedes_after_prefix(a, b, i - 1);
        let x = a.skip(i - 1);
        let y = b.skip(i - 1);
        assert(x.len() > 0 && y.len() > 0);
        assert(x[0] == a.take(i)[i - 1]);
        assert(y[0] == b.take(i)[i - 1]);
        assert(x.skip(1) =~= a.skip(i));
        assert(y.skip(1) =~= b.skip(i));
        assert(precedes(x, y) == precedes(x.skip(1), y.skip(1)));
    }
}

/// Whether `a` comes no later than `b` in the order of texts.
pub fn comes_first(a: &str, b: &str) -> (r: bool)
    ensures
        r == precedes(a@, b@),
{
    let a_len = a.unicode_len();
    let b_len = b.unicode_len();
    let mut i: usize = 0;
    loop
        invariant
            a_len == a@.len(),
            b_len == b@.len(),
            i <= a_len,
            i <= b_len,
            a@.take(i as int) == b@.take(i as int),
        decreases a_len - i,
    {
        proof {
            lemma_precedes_after_prefix(a@, b@, i as int);
        }
        if i == a_len {
            return true;
        }
        if i == b_len {
            return false;
        }
        let x = a.get_char(i);
        let y = b.get_char(i);
        if x != y {
            return x < y;
        }
        assert(a@.take(i + 1) =~= a@.take(i as int).push(x));
        assert(b@.take(i + 1) =~= b@.take(i as int).push(y));
        i += 1;
    }
}

/// The addresses of two vaults in the order in which their locks are taken:
/// the one that comes first in the order of texts, then the other.
pub fn lock_order<'a>(from: &'a str, to: &'a str) -> (r: (&'a str, &'a str))
    ensures
        (r.0@, r.1@) == ordered(from@, to@),
{
    if comes_first(from, to) {
        (from, to)
    } else {
        (to, from)
    }
}

} // verus!
