//! Durable storage for consensus data: an append-only, in-memory store.
//! Tasks persist a DA proposal before voting, their own dispersal share
//! before dispersing, and each strictly-higher quorum certificate before
//! voting, and checkpoint the undecided state to survive a restart.

use vstd::prelude::*;

use crate::data::{DaProposal, DaProposalV, Proposal, ProposalV, QuorumCertificate,
    VidDisperseShare, VidDisperseShareV};

verus! {

/// An in-memory append-only store.
pub struct MemoryStorage {
    da_proposals: Vec<Proposal<DaProposal>>,
    vid_shares: Vec<Proposal<VidDisperseShare>>,
    high_qcs: Vec<QuorumCertificate>,
    /// How many undecided-state checkpoints were taken.
    checkpoints: u64,
}

impl MemoryStorage {
    /// The DA proposals appended so far.
    pub closed spec fn spec_da_proposals(self) -> Seq<ProposalV<DaProposalV>> {
        self.da_proposals@.map_values(|p: Proposal<DaProposal>| p@)
    }

    /// The dispersal shares appended so far.
    pub closed spec fn spec_vid_shares(self) -> Seq<ProposalV<VidDisperseShareV>> {
        self.vid_shares@.map_values(|p: Proposal<VidDisperseShare>| p@)
    }

    /// The high certificates persisted so far.
    pub closed spec fn spec_high_qcs(self) -> Seq<QuorumCertificate> {
        self.high_qcs@
    }

    /// How many undecided-state checkpoints were taken.
    pub closed spec fn spec_checkpoints(self) -> u64 {
        self.checkpoints
    }

    /// An empty store.
    pub fn new() -> (r: Self)
        ensures
            r.spec_da_proposals() == Seq::<ProposalV<DaProposalV>>::empty(),
            r.spec_vid_shares() == Seq::<ProposalV<VidDisperseShareV>>::empty(),
            r.spec_high_qcs() == Seq::<QuorumCertificate>::empty(),
            r.spec_checkpoints() == 0,
    {
        let r = MemoryStorage {
            da_proposals: Vec::new(),
            vid_shares: Vec::new(),
            high_qcs: Vec::new(),
            checkpoints: 0,
        };
        proof {
            assert(r.spec_da_proposals() =~= Seq::<ProposalV<DaProposalV>>::empty());
            assert(r.spec_vid_shares() =~= Seq::<ProposalV<VidDisperseShareV>>::empty());
        }
        r
    }

    /// Persist a DA proposal before voting on it.
    pub fn append_da(&mut self, proposal: Proposal<DaProposal>) -> (r: Result<(), ()>)
        ensures
            r is Ok,
            final(self).spec_da_proposals() == old(self).spec_da_proposals().push(proposal@),
            final(self).spec_vid_shares() == old(self).spec_vid_shares(),
            final(self).spec_high_qcs() == old(self).spec_high_qcs(),
            final(self).spec_checkpoints() == old(self).spec_checkpoints(),
    {
        let ghost pv = proposal@;
        self.da_proposals.push(proposal);
        proof {
            assert(self.spec_da_proposals() =~= old(self).spec_da_proposals().push(pv));
        }
        Ok(())
    }

    /// Persist one's own dispersal share before dispersing it.
    pub fn append_vid(&mut self, share: Proposal<VidDisperseShare>) -> (r: Result<(), ()>)
        ensures
            r is Ok,
            final(self).spec_vid_shares() == old(self).spec_vid_shares().push(share@),
            final(self).spec_da_proposals() == old(self).spec_da_proposals(),
            final(self).spec_high_qcs() == old(self).spec_high_qcs(),
            final(self).spec_checkpoints() == old(self).spec_checkpoints(),
    {
        let ghost sv = share@;
        self.vid_shares.push(share);
        proof {
            assert(self.spec_vid_shares() =~= old(self).spec_vid_shares().push(sv));
        }
        Ok(())
    }

    /// Persist an observed strictly-higher quorum certificate before voting.
    pub fn update_high_qc(&mut self, qc: QuorumCertificate) -> (r: Result<(), ()>)
        ensures
            r is Ok,
            final(self).spec_high_qcs() == old(self).spec_high_qcs().push(qc),
            final(self).spec_da_proposals() == old(self).spec_da_proposals(),
            final(self).spec_vid_shares() == old(self).spec_vid_shares(),
            final(self).spec_checkpoints() == old(self).spec_checkpoints(),
    {
        self.high_qcs.push(qc);
        Ok(())
    }

    /// Checkpoint the undecided state so a restarting node can vote and
    /// propose right away.
    pub fn update_undecided_state(&mut self) -> (r: Result<(), ()>)
        requires
            old(self).spec_checkpoints() < u64::MAX,
        ensures
            r is Ok,
            final(self).spec_checkpoints() == old(self).spec_checkpoints() + 1,
            final(self).spec_da_proposals() == old(self).spec_da_proposals(),
            final(self).spec_vid_shares() == old(self).spec_vid_shares(),
            final(self).spec_high_qcs() == old(self).spec_high_qcs(),
    {
        self.checkpoints = self.checkpoints + 1;
        Ok(())
    }
}

} // verus!
