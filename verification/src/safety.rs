//! Agreement: any two threshold quorum certificates for the same view bind
//! the same leaf commitment, as long as fewer than one third of the
//! committee is faulty. Two supermajorities of the committee intersect in
//! more members than there are faulty ones, so an honest member — one that
//! signs at most one leaf per view — signed both certificates.

use vstd::prelude::*;

use vstd::set_lib::{lemma_len_subset, lemma_len_union};

use crate::data::Commit;
use crate::membership::spec_success_threshold;

verus! {

/// Inclusion–exclusion for finite sets: the sizes of two sets add up to
/// the sizes of their union and their intersection.
pub proof fn lemma_inclusion_exclusion<A>(s1: Set<A>, s2: Set<A>)
    requires
        s1.finite(),
        s2.finite(),
    ensures
        s1.len() + s2.len() == s1.union(s2).len() + s1.intersect(s2).len(),
        s1.union(s2).finite(),
        s1.intersect(s2).finite(),
    decreases s1.len(),
{
    broadcast use vstd::set_lib::group_set_properties;

    if s1.is_empty() {
        assert(s1.union(s2) =~= s2);
        assert(s1.intersect(s2) =~= Set::<A>::empty());
    } else {
        let a = s1.choose();
        assert(s1.contains(a));
        lemma_inclusion_exclusion(s1.remove(a), s2);
        if s2.contains(a) {
            assert(s1.union(s2) =~= s1.remove(a).union(s2));
            assert(s1.intersect(s2) =~= s1.remove(a).intersect(s2).insert(a));
            assert(!s1.remove(a).intersect(s2).contains(a));
        } else {
            assert(s1.union(s2) =~= s1.remove(a).union(s2).insert(a));
            assert(!s1.remove(a).union(s2).contains(a));
            assert(s1.intersect(s2) =~= s1.remove(a).intersect(s2));
        }
    }
}

/// Agreement across quorums. Fix one view. `signed(m, c)` says that member
/// `m` signed a quorum vote binding leaf commitment `c` at that view; a
/// certificate is backed by the set of members whose signature shares were
/// combined into it. Honest members — all but the faulty set — sign at most
/// one commitment per view. If two certificate signer sets each hold a
/// success threshold of the committee, and the faulty members are fewer
/// than a third of it, the two certificates bind the same commitment: the
/// leaves decided at one view agree on every honest node.
pub proof fn lemma_quorum_agreement(
    committee: Set<u64>,
    faulty: Set<u64>,
    signed: spec_fn(u64, Commit) -> bool,
    signers1: Set<u64>,
    signers2: Set<u64>,
    c1: Commit,
    c2: Commit,
)
    requires
        committee.finite(),
        faulty.finite(),
        faulty.subset_of(committee),
        3 * faulty.len() < committee.len(),
        signers1.subset_of(committee),
        signers2.subset_of(committee),
        signers1.len() >= spec_success_threshold(committee.len()),
        signers2.len() >= spec_success_threshold(committee.len()),
        forall|m: u64| signers1.contains(m) ==> #[trigger] signed(m, c1),
        forall|m: u64| signers2.contains(m) ==> #[trigger] signed(m, c2),
        forall|m: u64, a: Commit, b: Commit|
            committee.contains(m) && !faulty.contains(m) && #[trigger] signed(m, a)
                && #[trigger] signed(m, b) ==> a == b,
    ensures
        c1 == c2,
{
    let n = committee.len() as int;
    let f = faulty.len() as int;
    lemma_len_subset(signers1, committee);
    lemma_len_subset(signers2, committee);
    lemma_inclusion_exclusion(signers1, signers2);
    lemma_len_subset(signers1.union(signers2), committee);
    let inter = signers1.intersect(signers2);
    // each signer set holds a strict two-thirds supermajority, so the
    // intersection holds more members than a third of the committee
    assert(inter.len() as int >= 2 * ((2 * n) / 3 + 1) - n);
    assert(2 * ((2 * n) / 3 + 1) - n > n / 3) by (nonlinear_arith)
        requires
            n >= 0,
    ;
    assert(inter.len() as int > f) by {
        assert(3 * f < n);
        assert(f <= n / 3) by (nonlinear_arith)
            requires
                3 * f < n,
                f >= 0,
        ;
    }
    // the intersection cannot consist of faulty members alone
    assert(!inter.subset_of(faulty)) by {
        if inter.subset_of(faulty) {
            lemma_len_subset(inter, faulty);
        }
    }
    let honest = choose|m: u64| inter.contains(m) && !faulty.contains(m);
    assert(inter.contains(honest) && !faulty.contains(honest)) by {
        assert(exists|m: u64| inter.contains(m) && !faulty.contains(m)) by {
            if forall|m: u64| inter.contains(m) ==> #[trigger] faulty.contains(m) {
                assert(inter.subset_of(faulty));
            }
        }
    }
    assert(signed(honest, c1));
    assert(signed(honest, c2));
    assert(committee.contains(honest));
}

} // verus!
