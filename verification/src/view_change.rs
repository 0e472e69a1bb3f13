//! View-change machinery: the per-view timeout with its exponential
//! backoff, timeout votes and certificates, and the three-phase view-sync
//! exchange driven when consecutive views keep failing.

use vstd::prelude::*;

use crate::accumulator::{AccumulateResult, VoteAccumulator};
use crate::crypto::sign_share;
use crate::data::{
    TimeoutCertificate, TimeoutVote, ViewSyncCommitCertificate,
    ViewSyncCommitVote, ViewSyncFinalizeCertificate, ViewSyncFinalizeVote,
    ViewSyncPreCommitCertificate, ViewSyncPreCommitVote, TAG_TIMEOUT, TAG_VIEW_SYNC_COMMIT,
    TAG_VIEW_SYNC_FINALIZE, TAG_VIEW_SYNC_PRE_COMMIT,
};
use crate::da::spec_collector_view;
use crate::data::spec_zero_commit;
use crate::membership::{spec_success_threshold, Membership};

verus! {

/// The next per-view timeout after one expiry: the current timeout scaled
/// by the backoff ratio `mul / div`, saturating at the largest value.
pub fn next_timeout(timeout_ms: u64, mul: u64, div: u64) -> (r: u64)
    requires
        div > 0,
    ensures
        ((timeout_ms as int) * (mul as int)) / (div as int) <= u64::MAX ==> r == ((
        timeout_ms as int) * (mul as int)) / (div as int),
        ((timeout_ms as int) * (mul as int)) / (div as int) > u64::MAX ==> r == u64::MAX,
{
    proof {
        assert((timeout_ms as int) * (mul as int) <= (u64::MAX as int) * (u64::MAX as int))
            by (nonlinear_arith)
            requires
                timeout_ms <= u64::MAX,
                mul <= u64::MAX,
        ;
    }
    let wide = (timeout_ms as u128) * (mul as u128) / (div as u128);
    if wide > u64::MAX as u128 {
        u64::MAX
    } else {
        wide as u64
    }
}

/// Sign a timeout vote for a view.
pub fn make_timeout_vote(
    private_key: &threshold_crypto::SecretKeyShare,
    public_key: u64,
    view: u64,
) -> (r: TimeoutVote)
    ensures
        r.view_number == view,
        r.signer == public_key,
{
    let zero = crate::data::zero_commit();
    let payload = crate::data::vote_payload(TAG_TIMEOUT, &zero, view);
    let signature = sign_share(private_key, &payload);
    TimeoutVote { view_number: view, signer: public_key, signature }
}

/// The timeout task's own state: an accumulator for the view being timed
/// out, if this node leads its successor.
pub struct TimeoutTaskState {
    pub public_key: u64,
    pub vote_collector: Option<VoteAccumulator>,
}

impl TimeoutTaskState {
    pub open spec fn wf(self) -> bool {
        match self.vote_collector {
            Some(acc) => acc.wf() && acc.spec_tag() == TAG_TIMEOUT,
            None => true,
        }
    }

    /// Accumulate a timeout vote: a strictly newer vote starts a fresh
    /// accumulator; the timeout certificate forms exactly through the
    /// accumulator, whose threshold of recorded shares backs it.
    pub fn handle_timeout_vote_recv(
        &mut self,
        membership: &Membership,
        vote: &TimeoutVote,
    ) -> (r: Option<TimeoutCertificate>)
        requires
            old(self).wf(),
            membership.wf(),
            membership@.len() <= usize::MAX / 2,
        ensures
            final(self).wf(),
            final(self).public_key == old(self).public_key,
            r matches Some(cert) ==> {
                &&& cert.view_number == vote.view_number
                &&& cert.signature is Some
                &&& final(self).vote_collector is None
                &&& exists|a: VoteAccumulator|
                    a.wf() && #[trigger] a.spec_share_count(spec_zero_commit())
                        >= spec_success_threshold(membership@.len()) && a.spec_view_number()
                        == vote.view_number && a.spec_tag() == TAG_TIMEOUT
            },
            r is None ==> (final(self).vote_collector matches Some(a) && (a.spec_tag()
                == TAG_TIMEOUT && a.spec_view_number() == spec_collector_view(
                old(self).vote_collector,
                vote.view_number,
            ))),
    {
        let view = vote.view_number;
        let need_new = match &self.vote_collector {
            Some(acc) => view > acc.view_number(),
            None => true,
        };
        let mut acc: VoteAccumulator = if need_new {
            VoteAccumulator::new(TAG_TIMEOUT, view)
        } else {
            match self.vote_collector.take() {
                Some(a) => a,
                None => VoteAccumulator::new(TAG_TIMEOUT, view),
            }
        };
        let zero = crate::data::zero_commit();
        let outcome = acc.accumulate(membership, &zero, view, vote.signer, &vote.signature);
        match outcome {
            AccumulateResult::Formed(signature) => {
                proof {
                    assert(acc.spec_share_count(spec_zero_commit()) >= spec_success_threshold(
                        membership@.len(),
                    ));
                }
                self.vote_collector = None;
                Some(TimeoutCertificate { view_number: view, signature: Some(signature) })
            },
            _ => {
                self.vote_collector = Some(acc);
                None
            },
        }
    }
}

/// The view-sync phases a replica walks through.
#[derive(Clone, Copy, Debug, PartialEq, Eq, Structural)]
pub enum ViewSyncPhase {
    Idle,
    PreCommit,
    Commit,
    Finalize,
}

/// The view-sync relay's state: one accumulator per phase, all for one
/// round.
pub struct ViewSyncRelayState {
    pub round: u64,
    pub public_key: u64,
    pub pre_commit_collector: VoteAccumulator,
    pub commit_collector: VoteAccumulator,
    pub finalize_collector: VoteAccumulator,
}

impl ViewSyncRelayState {
    pub open spec fn wf(self) -> bool {
        &&& self.pre_commit_collector.wf()
        &&& self.pre_commit_collector.spec_tag() == TAG_VIEW_SYNC_PRE_COMMIT
        &&& self.commit_collector.wf()
        &&& self.commit_collector.spec_tag() == TAG_VIEW_SYNC_COMMIT
        &&& self.finalize_collector.wf()
        &&& self.finalize_collector.spec_tag() == TAG_VIEW_SYNC_FINALIZE
    }

    /// A relay for one view-sync round.
    pub fn new(round: u64, public_key: u64) -> (r: Self)
        ensures
            r.wf(),
            r.round == round,
    {
        ViewSyncRelayState {
            round,
            public_key,
            pre_commit_collector: VoteAccumulator::new(TAG_VIEW_SYNC_PRE_COMMIT, round),
            commit_collector: VoteAccumulator::new(TAG_VIEW_SYNC_COMMIT, round),
            finalize_collector: VoteAccumulator::new(TAG_VIEW_SYNC_FINALIZE, round),
        }
    }

    /// Accumulate a pre-commit vote; at threshold the pre-commit
    /// certificate forms.
    pub fn handle_pre_commit_vote(
        &mut self,
        membership: &Membership,
        vote: &ViewSyncPreCommitVote,
    ) -> (r: Option<ViewSyncPreCommitCertificate>)
        requires
            old(self).wf(),
            membership@.len() <= usize::MAX / 2,
        ensures
            final(self).wf(),
            final(self).round == old(self).round,
            final(self).public_key == old(self).public_key,
            r matches Some(cert) ==> {
                &&& cert.view_number == vote.view_number
                &&& cert.relay == vote.relay
                &&& cert.signature is Some
                &&& final(self).pre_commit_collector.spec_share_count(spec_zero_commit())
                    >= spec_success_threshold(membership@.len())
            },
    {
        let zero = crate::data::zero_commit();
        let outcome = self.pre_commit_collector.accumulate(
            membership,
            &zero,
            vote.view_number,
            vote.signer,
            &vote.signature,
        );
        match outcome {
            AccumulateResult::Formed(signature) => Some(
                ViewSyncPreCommitCertificate {
                    view_number: vote.view_number,
                    relay: vote.relay,
                    signature: Some(signature),
                },
            ),
            _ => None,
        }
    }

    /// Accumulate a commit vote; at threshold the commit certificate forms.
    pub fn handle_commit_vote(
        &mut self,
        membership: &Membership,
        vote: &ViewSyncCommitVote,
    ) -> (r: Option<ViewSyncCommitCertificate>)
        requires
            old(self).wf(),
            membership@.len() <= usize::MAX / 2,
        ensures
            final(self).wf(),
            final(self).round == old(self).round,
            final(self).public_key == old(self).public_key,
            r matches Some(cert) ==> {
                &&& cert.view_number == vote.view_number
                &&& cert.relay == vote.relay
                &&& cert.signature is Some
                &&& final(self).commit_collector.spec_share_count(spec_zero_commit())
                    >= spec_success_threshold(membership@.len())
            },
    {
        let zero = crate::data::zero_commit();
        let outcome = self.commit_collector.accumulate(
            membership,
            &zero,
            vote.view_number,
            vote.signer,
            &vote.signature,
        );
        match outcome {
            AccumulateResult::Formed(signature) => Some(
                ViewSyncCommitCertificate {
                    view_number: vote.view_number,
                    relay: vote.relay,
                    signature: Some(signature),
                },
            ),
            _ => None,
        }
    }

    /// Accumulate a finalize vote; at threshold the finalize certificate
    /// forms and unblocks the next leader's proposal dependency.
    pub fn handle_finalize_vote(
        &mut self,
        membership: &Membership,
        vote: &ViewSyncFinalizeVote,
    ) -> (r: Option<ViewSyncFinalizeCertificate>)
        requires
            old(self).wf(),
            membership@.len() <= usize::MAX / 2,
        ensures
            final(self).wf(),
            final(self).round == old(self).round,
            final(self).public_key == old(self).public_key,
            r matches Some(cert) ==> {
                &&& cert.view_number == vote.view_number
                &&& cert.relay == vote.relay
                &&& cert.signature is Some
                &&& final(self).finalize_collector.spec_share_count(spec_zero_commit())
                    >= spec_success_threshold(membership@.len())
            },
    {
        let zero = crate::data::zero_commit();
        let outcome = self.finalize_collector.accumulate(
            membership,
            &zero,
            vote.view_number,
            vote.signer,
            &vote.signature,
        );
        match outcome {
            AccumulateResult::Formed(signature) => Some(
                ViewSyncFinalizeCertificate {
                    view_number: vote.view_number,
                    relay: vote.relay,
                    signature: Some(signature),
                },
            ),
            _ => None,
        }
    }
}

/// Sign the view-sync vote of a phase for a round.
pub fn make_view_sync_vote(
    private_key: &threshold_crypto::SecretKeyShare,
    public_key: u64,
    phase: ViewSyncPhase,
    round: u64,
    relay: u64,
) -> (r: Option<(u64, u64, u64, crate::data::Signature)>)
    ensures
        r matches Some((v, rel, signer, _)) ==> v == round && rel == relay && signer
            == public_key,
        phase == ViewSyncPhase::Idle <==> r is None,
{
    let tag: u8 = match phase {
        ViewSyncPhase::PreCommit => TAG_VIEW_SYNC_PRE_COMMIT,
        ViewSyncPhase::Commit => TAG_VIEW_SYNC_COMMIT,
        ViewSyncPhase::Finalize => TAG_VIEW_SYNC_FINALIZE,
        ViewSyncPhase::Idle => {
            return None;
        },
    };
    let zero = crate::data::zero_commit();
    let payload = crate::data::vote_payload(tag, &zero, round);
    let signature = sign_share(private_key, &payload);
    Some((round, relay, public_key, signature))
}

} // verus!
