use vstd::prelude::*;

use crate::error::DuelError;

verus! {

/// Number of entries in the table of position weights: the longest move set
/// that can be scored.
pub const WEIGHT_COUNT: usize = 5;

/// Weight of position `n` in the score.
pub open spec fn weight(n: int) -> int {
    if n == 0 {
        78
    } else if n == 1 {
        79
    } else if n == 2 {
        81
    } else if n == 3 {
        86
    } else {
        100
    }
}

/// A byte read as a two's-complement signed 8-bit value.
pub open spec fn signed_byte(b: u8) -> int {
    if b < 128 {
        b as int
    } else {
        b as int - 256
    }
}

/// Division rounding toward zero, as Rust's `/` on signed integers does.
pub open spec fn trunc_div(a: int, b: int) -> int {
    if a >= 0 {
        a / b
    } else {
        -((-a) / b)
    }
}

/// The critical rule: a difference of exactly two is halved and negated.
pub open spec fn critical(d: int) -> int {
    if d == 2 {
        -1
    } else if d == -2 {
        1
    } else {
        d
    }
}

/// The 1.3x affinity bonus, applied when `hit` holds.
pub open spec fn bonus(d: int, hit: bool) -> int {
    if hit {
        trunc_div(d * 130, 100)
    } else {
        d
    }
}

/// Contribution of one position before weighting. The bonus applies once
/// when the first player's move equals either affinity; the second player's
/// move is never compared with them.
pub open spec fn position_value(a: u8, b: u8, af1: u8, af2: u8) -> int {
    bonus(critical(signed_byte(a) - signed_byte(b)) * 100, a == af1 || a == af2)
}

/// Weighted sum of the first `n` positions.
pub open spec fn raw_sum(m1: Seq<u8>, m2: Seq<u8>, af1: u8, af2: u8, n: nat) -> int
    decreases n,
{
    if n == 0 {
        0
    } else {
        raw_sum(m1, m2, af1, af2, (n - 1) as nat) + position_value(
            m1[n - 1],
            m2[n - 1],
            af1,
            af2,
        ) * weight(n - 1)
    }
}

/// The duel score of two move sets of equal length: the weighted sum over
/// all positions, divided by 100 and rounded toward zero.
pub open spec fn score_of(m1: Seq<u8>, m2: Seq<u8>, af1: u8, af2: u8) -> int {
    trunc_div(raw_sum(m1, m2, af1, af2, m1.len()), 100)
}

/// What scoring two move sets yields: the length check first, then the
/// weight-table bound, then the score.
pub open spec fn score_outcome(m1: Seq<u8>, m2: Seq<u8>, af1: u8, af2: u8) -> Result<
    int,
    DuelError,
> {
    if m1.len() != m2.len() {
        Err(DuelError::MoveSetLengthMismatch)
    } else if m1.len() > WEIGHT_COUNT {
        Err(DuelError::WeightTableOverflow)
    } else {
        Ok(score_of(m1, m2, af1, af2))
    }
}

/// Whether every move lies in the range 0..=2.
pub open spec fn all_moves_basic(a: Seq<u8>) -> bool {
    forall|i: int| 0 <= i < a.len() ==> a[i] <= 2
}

fn weight_at(n: usize) -> (r: i128)
    requires
        n < WEIGHT_COUNT,
    ensures
        r == weight(n as int),
{
    let table: [i128; 5] = [78, 79, 81, 86, 100];
    table[n]
}

fn signed_value(b: u8) -> (r: i128)
    ensures
        r == signed_byte(b),
{
    if b < 128 {
        b as i128
    } else {
        b as i128 - 256
    }
}

fn div_toward_zero_100(x: i128) -> (r: i128)
    requires
        -1_000_000_000 <= x <= 1_000_000_000,
    ensures
        r == trunc_div(x as int, 100),
{
    if x >= 0 {
        let u: u128 = x as u128;
        (u / 100) as i128
    } else {
        let u: u128 = (-x) as u128;
        -((u / 100) as i128)
    }
}

proof fn lemma_bonus_bound(d: int, hit: bool, k: int)
    requires
        0 <= k <= 1_000_000,
        -k <= d <= k,
    ensures
        -(k * 130 / 100) <= bonus(d, hit) <= k * 130 / 100,
        k <= k * 130 / 100,
{
    assert(k <= k * 130 / 100) by (nonlinear_arith)
        requires
            0 <= k,
    ;
    if hit {
        if d >= 0 {
            assert(d * 130 / 100 <= k * 130 / 100) by (nonlinear_arith)
                requires
                    0 <= d <= k,
            ;
            assert(d * 130 / 100 >= 0) by (nonlinear_arith)
                requires
                    0 <= d,
            ;
        } else {
            assert((-(d * 130)) / 100 <= k * 130 / 100) by (nonlinear_arith)
                requires
                    0 < -d <= k,
            ;
            assert((-(d * 130)) / 100 >= 0) by (nonlinear_arith)
                requires
                    0 < -d,
            ;
        }
    }
}

proof fn lemma_position_bound(a: u8, b: u8, af1: u8, af2: u8)
    ensures
        -50_000 <= position_value(a, b, af1, af2) <= 50_000,
{
    let c = critical(signed_byte(a) - signed_byte(b)) * 100;
    assert(-25_500 <= c <= 25_500);
    lemma_bonus_bound(c, a == af1 || a == af2, 25_500);
}

fn position_score(a: u8, b: u8, af1: u8, af2: u8) -> (r: i128)
    ensures
        r == position_value(a, b, af1, af2),
{
    proof {
        lemma_bonus_bound(
            critical(signed_byte(a) - signed_byte(b)) * 100,
            a == af1 || a == af2,
            25_500,
        );
    }
    let mut diff: i128 = signed_value(a) - signed_value(b);
    if diff == 2 {
        diff = -1;
    } else if diff == -2 {
        diff = 1;
    }
    diff = diff * 100;
    if a == af1 || a == af2 {
        diff = div_toward_zero_100(diff * 130);
    }
    diff
}

/// Scores a duel. The score is positive in the first player's favour.
///
/// Fails with `MoveSetLengthMismatch` when the move sets differ in length,
/// and with `WeightTableOverflow` when they are longer than the weight table.
pub fn duel_score(m1: &Vec<u8>, m2: &Vec<u8>, af1: u8, af2: u8) -> (r: Result<i128, DuelError>)
    ensures
        r matches Ok(s) ==> score_outcome(m1@, m2@, af1, af2) == Ok::<int, DuelError>(s as int),
        r matches Err(e) ==> score_outcome(m1@, m2@, af1, af2) == Err::<int, DuelError>(e),
{
    if m1.len() != m2.len() {
        return Err(DuelError::MoveSetLengthMismatch);
    }
    if m1.len() > WEIGHT_COUNT {
        return Err(DuelError::WeightTableOverflow);
    }
    let mut score: i128 = 0;
    let mut n: usize = 0;
    while n < m1.len()
        invariant
            m1.len() == m2.len() <= WEIGHT_COUNT,
            n <= m1.len(),
            score == raw_sum(m1@, m2@, af1, af2, n as nat),
            -5_000_000 * n <= score <= 5_000_000 * n,
        decreases m1.len() - n,
    {
        let v = position_score(m1[n], m2[n], af1, af2);
        let w = weight_at(n);
        proof {
            lemma_position_bound(m1@[n as int], m2@[n as int], af1, af2);
            assert(-5_000_000 <= v * w <= 5_000_000) by (nonlinear_arith)
                requires
                    -50_000 <= v <= 50_000,
                    0 <= w <= 100,
            ;
        }
        score = score + v * w;
        n = n + 1;
    }
    Ok(div_toward_zero_100(score))
}

/// Whether every move of `a` lies in the range 0..=2.
pub fn valid_array(a: &Vec<u8>) -> (r: bool)
    ensures
        r == all_moves_basic(a@),
{
    let mut i: usize = 0;
    while i < a.len()
        invariant
            i <= a.len(),
            forall|j: int| 0 <= j < i ==> a@[j] <= 2,
        decreases a.len() - i,
    {
        if a[i] > 2 {
            return false;
        }
        i = i + 1;
    }
    true
}

proof fn lemma_trunc_div_neg(x: int)
    ensures
        trunc_div(-x, 100) == -trunc_div(x, 100),
{
    if x == 0 {
        assert(0int / 100 == 0);
    }
}

proof fn lemma_raw_sum_antisymmetric(m1: Seq<u8>, m2: Seq<u8>, a: u8, b: u8, n: nat)
    requires
        n <= m1.len() == m2.len(),
        forall|i: int|
            0 <= i < m1.len() ==> m1[i] != a && m1[i] != b && m2[i] != a && m2[i] != b,
    ensures
        raw_sum(m1, m2, a, b, n) == -raw_sum(m2, m1, a, b, n),
    decreases n,
{
    if n > 0 {
        lemma_raw_sum_antisymmetric(m1, m2, a, b, (n - 1) as nat);
        let d = signed_byte(m1[n - 1]) - signed_byte(m2[n - 1]);
        assert(critical(-d) == -critical(d));
        let w = weight(n - 1);
        let c = critical(d) * 100;
        assert((-c) * w == -(c * w)) by (nonlinear_arith);
    }
}

/// Swapping the players negates the score, provided no move of either
/// player equals an affinity (the bonus reads the first player's moves only,
/// so it is the one asymmetric part of the score).
pub proof fn lemma_score_antisymmetric(m1: Seq<u8>, m2: Seq<u8>, a: u8, b: u8)
    requires
        m1.len() == m2.len(),
        forall|i: int|
            0 <= i < m1.len() ==> m1[i] != a && m1[i] != b && m2[i] != a && m2[i] != b,
    ensures
        score_of(m1, m2, a, b) == -score_of(m2, m1, a, b),
        score_outcome(m1, m2, a, b) matches Ok(s) ==> score_outcome(m2, m1, a, b) == Ok::<
            int,
            DuelError,
        >(-s),
{
    lemma_raw_sum_antisymmetric(m1, m2, a, b, m1.len());
    lemma_trunc_div_neg(raw_sum(m2, m1, a, b, m1.len()));
}

proof fn lemma_raw_sum_self(m: Seq<u8>, a: u8, b: u8, n: nat)
    requires
        n <= m.len(),
    ensures
        raw_sum(m, m, a, b, n) == 0,
    decreases n,
{
    if n > 0 {
        lemma_raw_sum_self(m, a, b, (n - 1) as nat);
        assert(0int * 130 / 100 == 0);
    }
}

/// A move set played against itself scores zero, whatever the affinities.
pub proof fn lemma_score_self_zero(m: Seq<u8>, a: u8, b: u8)
    ensures
        score_of(m, m, a, b) == 0,
        m.len() <= WEIGHT_COUNT ==> score_outcome(m, m, a, b) == Ok::<int, DuelError>(0),
{
    lemma_raw_sum_self(m, a, b, m.len());
    assert(0int / 100 == 0);
}

proof fn lemma_raw_sum_same_hits(
    m1: Seq<u8>,
    m2: Seq<u8>,
    a: u8,
    b: u8,
    a2: u8,
    b2: u8,
    n: nat,
)
    requires
        n <= m1.len(),
        forall|i: int| 0 <= i < m1.len() ==> ((m1[i] == a || m1[i] == b) <==> (m1[i] == a2 || m1[i] == b2)),
    ensures
        raw_sum(m1, m2, a, b, n) == raw_sum(m1, m2, a2, b2, n),
    decreases n,
{
    if n > 0 {
        lemma_raw_sum_same_hits(m1, m2, a, b, a2, b2, (n - 1) as nat);
        assert((m1[n - 1] == a || m1[n - 1] == b) <==> (m1[n - 1] == a2 || m1[n - 1] == b2));
    }
}

/// Affinities count only through which of the first player's moves match
/// them: two affinity pairs that match the same moves give the same score.
pub proof fn lemma_score_depends_on_hits_only(
    m1: Seq<u8>,
    m2: Seq<u8>,
    a: u8,
    b: u8,
    a2: u8,
    b2: u8,
)
    requires
        forall|i: int| 0 <= i < m1.len() ==> ((m1[i] == a || m1[i] == b) <==> (m1[i] == a2 || m1[i] == b2)),
    ensures
        score_of(m1, m2, a, b) == score_of(m1, m2, a2, b2),
        score_outcome(m1, m2, a, b) == score_outcome(m1, m2, a2, b2),
{
    lemma_raw_sum_same_hits(m1, m2, a, b, a2, b2, m1.len());
}

} // verus!
