//! The order in which test cases are run: every configuration in turn, and
//! within each its test cases in order, as one flattened sequence.

use vstd::prelude::*;
use crate::model::Config;

verus! {

/// The number of test cases over all configurations.
pub open spec fn case_total(sizes: Seq<usize>) -> nat
    decreases sizes.len(),
{
    if sizes.len() == 0 {
        0
    } else {
        (case_total(sizes.drop_last()) + sizes.last()) as nat
    }
}

/// The configuration and the test case at position `k` of the flattened
/// sequence, where `sizes` gives the number of test cases of each
/// configuration.
pub open spec fn case_at(sizes: Seq<usize>, k: nat) -> (nat, nat)
    decreases sizes.len(),
{
    if sizes.len() == 0 {
        (0, 0)
    } else if k < sizes[0] {
        (0, k)
    } else {
        let rest = case_at(sizes.drop_first(), (k - sizes[0]) as nat);
        (rest.0 + 1, rest.1)
    }
}

proof fn lemma_case_total_first(sizes: Seq<usize>)
    requires
        sizes.len() > 0,
    ensures
        case_total(sizes) == sizes[0] + case_total(sizes.drop_first()),
    decreases sizes.len(),
{
    if sizes.len() > 1 {
        lemma_case_total_first(sizes.drop_last());
        assert(sizes.drop_last().drop_first() =~= sizes.drop_first().drop_last());
        assert(case_total(sizes.drop_first()) == case_total(sizes.drop_first().drop_last())
            + sizes.drop_first().last());
    } else {
        assert(sizes.drop_first().len() == 0);
        assert(sizes.drop_last().len() == 0);
        assert(case_total(sizes.drop_last()) == 0);
        assert(case_total(sizes.drop_first()) == 0);
    }
}

/// A position inside the sequence names an existing configuration and one of
/// its test cases.
pub proof fn lemma_case_at_in_bounds(sizes: Seq<usize>, k: nat)
    requires
        k < case_total(sizes),
    ensures
        case_at(sizes, k).0 < sizes.len(),
        case_at(sizes, k).1 < sizes[case_at(sizes, k).0 as int],
    decreases sizes.len(),
{
    lemma_case_total_first(sizes);
    if k >= sizes[0] {
        lemma_case_at_in_bounds(sizes.drop_first(), (k - sizes[0]) as nat);
    }
}

/// The number of test cases of each configuration.
pub fn test_counts(configs: &Vec<Config>) -> (r: Vec<usize>)
    ensures
        r@.len() == configs@.len(),
        forall|i: int| 0 <= i < r@.len() ==> r@[i] == configs@[i].tests@.len(),
{
    let mut out: Vec<usize> = Vec::new();
    let mut i: usize = 0;
    while i < configs.len()
        invariant
            i <= configs@.len(),
            out@.len() == i,
            forall|j: int| 0 <= j < i ==> out@[j] == configs@[j].tests@.len(),
        decreases configs@.len() - i,
    {
        out.push(configs[i].tests.len());
        i += 1;
    }
    out
}

/// Counts the test cases over all configurations.
pub fn count_cases(sizes: &Vec<usize>) -> (r: u128)
    ensures
        r == case_total(sizes@),
{
    let mut total: u128 = 0;
    let mut i: usize = 0;
    while i < sizes.len()
        invariant
            i <= sizes@.len(),
            total == case_total(sizes@.subrange(0, i as int)),
            total <= i * (usize::MAX as int),
        decreases sizes@.len() - i,
    {
        assert(sizes@.subrange(0, i + 1).drop_last() =~= sizes@.subrange(0, i as int));
        proof {
            assert((i + 1) * (usize::MAX as int) == i * (usize::MAX as int) + usize::MAX)
                by (nonlinear_arith);
            assert((i + 1) * (usize::MAX as int) <= (usize::MAX as int) * (usize::MAX as int))
                by (nonlinear_arith)
                requires
                    i + 1 <= usize::MAX,
            ;
            let m = usize::MAX as int;
            assert(m * m < u128::MAX) by (nonlinear_arith)
                requires
                    0 <= m <= 0xffff_ffff_ffff_ffff,
            ;
        }
        total = total + sizes[i] as u128;
        i += 1;
    }
    assert(sizes@.subrange(0, sizes@.len() as int) =~= sizes@);
    total
}

/// Finds the configuration and the test case at a position of the sequence.
pub fn locate_case(sizes: &Vec<usize>, k: u128) -> (r: (usize, usize))
    requires
        k < case_total(sizes@),
    ensures
        r.0 as nat == case_at(sizes@, k as nat).0,
        r.1 as nat == case_at(sizes@, k as nat).1,
        r.0 < sizes@.len(),
        r.1 < sizes@[r.0 as int],
{
    proof {
        lemma_case_at_in_bounds(sizes@, k as nat);
    }
    let n = sizes.len();
    let mut i: usize = 0;
    let mut rem: u128 = k;
    assert(sizes@.subrange(0, n as int) =~= sizes@);
    while rem >= sizes[i] as u128
        invariant
            n == sizes@.len(),
            i < n,
            rem < case_total(sizes@.subrange(i as int, sizes@.len() as int)),
            case_at(sizes@, k as nat).0 == i + case_at(
                sizes@.subrange(i as int, sizes@.len() as int),
                rem as nat,
            ).0,
            case_at(sizes@, k as nat).1 == case_at(
                sizes@.subrange(i as int, sizes@.len() as int),
                rem as nat,
            ).1,
        decreases sizes@.len() - i,
    {
        let tail = Ghost(sizes@.subrange(i as int, sizes@.len() as int));
        proof {
            lemma_case_total_first(tail@);
            assert(tail@.drop_first() =~= sizes@.subrange(i + 1, sizes@.len() as int));
        }
        rem = rem - sizes[i] as u128;
        i = i + 1;
        proof {
            if i == n {
                assert(sizes@.subrange(i as int, n as int).len() == 0);
                assert(case_total(sizes@.subrange(i as int, n as int)) == 0);
            }
        }
    }
    (i, rem as usize)
}

} // verus!
