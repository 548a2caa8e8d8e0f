use vstd::prelude::*;

verus! {

/// Where one byte string stands relative to another in lexicographic order.
#[derive(Debug, Clone, Copy, PartialEq, Eq, Structural)]
pub enum Precedence {
    Before,
    Same,
    After,
}

/// Lexicographic order on byte strings: the first differing byte decides, and
/// a proper prefix comes before the longer string.
pub open spec fn lex_precedence(a: Seq<u8>, b: Seq<u8>) -> Precedence
    decreases a.len(),
{
    if a.len() == 0 {
        if b.len() == 0 {
            Precedence::Same
        } else {
            Precedence::Before
        }
    } else if b.len() == 0 {
        Precedence::After
    } else if a[0] < b[0] {
        Precedence::Before
    } else if a[0] > b[0] {
        Precedence::After
    } else {
        lex_precedence(a.drop_first(), b.drop_first())
    }
}

/// Compares two byte strings lexicographically.
pub fn compare_bytes(a: &[u8], b: &[u8]) -> (r: Precedence)
    ensures
        r == lex_precedence(a@, b@),
{
    let mut i: usize = 0;
    assert(a@.skip(0) =~= a@);
    assert(b@.skip(0) =~= b@);
    while i < a.len() && i < b.len()
        invariant
            i <= a.len(),
            i <= b.len(),
            lex_precedence(a@, b@) == lex_precedence(a@.skip(i as int), b@.skip(i as int)),
        decreases a.len() - i,
    {
        assert(a@.skip(i as int).drop_first() =~= a@.skip(i + 1));
        assert(b@.skip(i as int).drop_first() =~= b@.skip(i + 1));
        if a[i] < b[i] {
            return Precedence::Before;
        } else if a[i] > b[i] {
            return Precedence::After;
        }
        i = i + 1;
    }
    if i < a.len() {
        Precedence::After
    } else if i < b.len() {
        Precedence::Before
    } else {
        Precedence::Same
    }
}

/// Every byte string stands level with itself.
pub proof fn lemma_lex_reflexive(a: Seq<u8>)
    ensures
        lex_precedence(a, a) == Precedence::Same,
    decreases a.len(),
{
    if a.len() > 0 {
        lemma_lex_reflexive(a.drop_first());
    }
}

/// Only equal byte strings stand level with each other.
pub proof fn lemma_lex_same_is_equal(a: Seq<u8>, b: Seq<u8>)
    requires
        lex_precedence(a, b) == Precedence::Same,
    ensures
        a == b,
    decreases a.len(),
{
    if a.len() > 0 {
        lemma_lex_same_is_equal(a.drop_first(), b.drop_first());
        assert(a =~= seq![a[0]] + a.drop_first());
        assert(b =~= seq![b[0]] + b.drop_first());
    }
}

/// Swapping the two byte strings swaps the outcome.
pub proof fn lemma_lex_antisymmetric(a: Seq<u8>, b: Seq<u8>)
    ensures
        lex_precedence(a, b) == Precedence::Before <==> lex_precedence(b, a) == Precedence::After,
        lex_precedence(a, b) == Precedence::Same <==> lex_precedence(b, a) == Precedence::Same,
    decreases a.len(),
{
    if a.len() > 0 && b.len() > 0 && a[0] == b[0] {
        lemma_lex_antisymmetric(a.drop_first(), b.drop_first());
    }
}

/// Lexicographic order is transitive.
pub proof fn lemma_lex_transitive(a: Seq<u8>, b: Seq<u8>, c: Seq<u8>)
    requires
        lex_precedence(a, b) == Precedence::Before,
        lex_precedence(b, c) == Precedence::Before,
    ensures
        lex_precedence(a, c) == Precedence::Before,
    decreases a.len(),
{
    if a.len() > 0 && b.len() > 0 && c.len() > 0 && a[0] == b[0] && b[0] == c[0] {
        lemma_lex_transitive(a.drop_first(), b.drop_first(), c.drop_first());
    }
}

/// The first differing byte decides: if two byte strings agree on their first
/// `i` bytes and byte `i` of `a` is numerically smaller than byte `i` of `b`,
/// then `a` comes before `b`.
pub proof fn lemma_lex_first_difference_decides(a: Seq<u8>, b: Seq<u8>, i: int)
    requires
        0 <= i < a.len(),
        i < b.len(),
        forall|k: int| 0 <= k < i ==> a[k] == b[k],
        a[i] < b[i],
    ensures
        lex_precedence(a, b) == Precedence::Before,
        lex_precedence(b, a) == Precedence::After,
    decreases i,
{
    if i > 0 {
        assert(a[0] == b[0]);
        assert forall|k: int| 0 <= k < i - 1 implies a.drop_first()[k] == b.drop_first()[k] by {
            assert(a.drop_first()[k] == a[k + 1]);
            assert(b.drop_first()[k] == b[k + 1]);
        }
        lemma_lex_first_difference_decides(a.drop_first(), b.drop_first(), i - 1);
    }
}

/// A proper prefix comes before the longer byte string.
pub proof fn lemma_lex_proper_prefix_first(a: Seq<u8>, b: Seq<u8>)
    requires
        a.len() < b.len(),
        forall|k: int| 0 <= k < a.len() ==> a[k] == b[k],
    ensures
        lex_precedence(a, b) == Precedence::Before,
        lex_precedence(b, a) == Precedence::After,
    decreases a.len(),
{
    if a.len() > 0 {
        assert(a[0] == b[0]);
        assert forall|k: int| 0 <= k < a.len() - 1 implies a.drop_first()[k] == b.drop_first()[k] by {
            assert(a.drop_first()[k] == a[k + 1]);
            assert(b.drop_first()[k] == b[k + 1]);
        }
        lemma_lex_proper_prefix_first(a.drop_first(), b.drop_first());
    }
}

} // verus!
