//! The quorum-vote task: votes for a validated proposal only once its DA
//! certificate and this node's dispersal share are both at hand, votes at
//! most once per view, and advances the locked and decided views by the
//! two-chain and three-chain rules when a new leaf arrives.

use vstd::prelude::*;

use crate::consensus::{spec_anchor_advanced, Consensus, ConsensusV};
use crate::crypto::sign_share;
use crate::data::{leaf_commit_of, Commit, Leaf, LeafV, QuorumVote, TAG_QUORUM};
use crate::vmap::AssocMap;

verus! {

/// The gathered dependencies of one view's vote.
pub struct VoteDependencyState {
    /// The commitment of the fully validated proposal's leaf, once known.
    pub leaf_commit: Option<Commit>,
    /// Whether the view's DA certificate is at hand.
    pub da_cert: bool,
    /// Whether this node's dispersal share for the view is at hand.
    pub vid_share: bool,
}

/// All three vote dependencies are at hand.
pub open spec fn spec_vote_deps_complete(d: VoteDependencyState) -> bool {
    d.leaf_commit is Some && d.da_cert && d.vid_share
}

/// A vote dependency state with nothing gathered yet.
pub open spec fn spec_vote_empty() -> VoteDependencyState {
    VoteDependencyState { leaf_commit: None, da_cert: false, vid_share: false }
}

/// The vote dependency state gathered for a view so far: the stored one,
/// or nothing yet.
pub open spec fn spec_vote_gathered(
    m: Map<u64, VoteDependencyState>,
    view: u64,
) -> VoteDependencyState {
    if m.dom().contains(view) {
        m[view]
    } else {
        spec_vote_empty()
    }
}

/// The gathered state with the validated leaf's commitment filled.
pub open spec fn spec_with_leaf(d: VoteDependencyState, c: Commit) -> VoteDependencyState {
    VoteDependencyState { leaf_commit: Some(c), ..d }
}

/// The gathered state with the DA-certificate slot filled.
pub open spec fn spec_with_da_cert(d: VoteDependencyState) -> VoteDependencyState {
    VoteDependencyState { da_cert: true, ..d }
}

/// The gathered state with the dispersal-share slot filled.
pub open spec fn spec_with_share(d: VoteDependencyState) -> VoteDependencyState {
    VoteDependencyState { vid_share: true, ..d }
}

impl VoteDependencyState {
    /// No dependency yet.
    pub fn new() -> (r: Self)
        ensures
            r == spec_vote_empty(),
    {
        VoteDependencyState { leaf_commit: None, da_cert: false, vid_share: false }
    }

    /// Whether every needed dependency is at hand.
    pub fn complete(&self) -> (r: bool)
        ensures
            r == spec_vote_deps_complete(*self),
    {
        self.leaf_commit.is_some() && self.da_cert && self.vid_share
    }
}

/// The quorum-vote task's own state.
pub struct QuorumVoteTaskState {
    /// The highest view this node has voted in; votes are cast only for
    /// strictly higher views, so the node votes at most once per view.
    pub latest_voted_view: u64,
    /// The in-progress vote dependency of each view.
    pub deps: AssocMap<u64, VoteDependencyState>,
    /// This node's committee index.
    pub public_key: u64,
    /// This node's secret key share.
    pub private_key: threshold_crypto::SecretKeyShare,
}

impl QuorumVoteTaskState {
    pub open spec fn wf(self) -> bool {
        self.deps.wf()
    }

    /// Take the gathered state for a view, or a fresh one.
    fn take_deps(&mut self, view: u64) -> (r: VoteDependencyState)
        requires
            old(self).wf(),
        ensures
            final(self).wf(),
            final(self).latest_voted_view == old(self).latest_voted_view,
            final(self).public_key == old(self).public_key,
            r == spec_vote_gathered(old(self).deps@, view),
            final(self).deps@ == old(self).deps@.remove(view),
    {
        match self.deps.take(&view) {
            Some(d) => d,
            None => VoteDependencyState::new(),
        }
    }

    /// Store an updated dependency state, or cast the vote exactly when
    /// everything is at hand and the view lies strictly above the last
    /// voted one: the vote is signed over the leaf commitment and the
    /// view, which then becomes the last voted view.
    fn store_or_vote(&mut self, view: u64, d: VoteDependencyState) -> (r: Option<QuorumVote>)
        requires
            old(self).wf(),
        ensures
            final(self).wf(),
            final(self).public_key == old(self).public_key,
            r is Some <==> spec_vote_deps_complete(d) && view > old(self).latest_voted_view,
            r matches Some(vote) ==> {
                &&& final(self).latest_voted_view == view
                &&& final(self).deps@ == old(self).deps@.remove(view)
                &&& vote.view_number == view
                &&& vote.leaf_commit == d.leaf_commit.unwrap()
                &&& vote.signer == old(self).public_key
            },
            r is None ==> final(self).latest_voted_view == old(self).latest_voted_view && final(self).deps@ == old(self).deps@.insert(view, d),
            final(self).latest_voted_view >= old(self).latest_voted_view,
    {
        if d.complete() && view > self.latest_voted_view {
            let leaf_commit = match &d.leaf_commit {
                Some(c) => *c,
                None => {
                    return None;
                },
            };
            self.deps.remove(&view);
            self.latest_voted_view = view;
            let payload = crate::data::vote_payload(TAG_QUORUM, &leaf_commit, view);
            let signature = sign_share(&self.private_key, &payload);
            Some(QuorumVote { leaf_commit, view_number: view, signer: self.public_key, signature })
        } else {
            self.deps.insert(view, d);
            None
        }
    }

    /// Note a fully validated proposal for a view: the view's gathered
    /// state gains the leaf commitment, and the vote is cast exactly when
    /// all three dependencies are then at hand for a not-yet-voted view.
    pub fn on_proposal_validated(&mut self, view: u64, leaf_commit: Commit) -> (r: Option<
        QuorumVote,
    >)
        requires
            old(self).wf(),
        ensures
            final(self).wf(),
            final(self).public_key == old(self).public_key,
            ({
                let d1 = spec_with_leaf(spec_vote_gathered(old(self).deps@, view), leaf_commit);
                &&& (r is Some <==> spec_vote_deps_complete(d1) && view > old(self).latest_voted_view)
                &&& (r matches Some(vote) ==> vote.view_number == view && vote.leaf_commit
                    == leaf_commit && vote.signer == old(self).public_key && final(self).latest_voted_view == view && final(self).deps@ == old(self).deps@.remove(view))
                &&& (r is None ==> final(self).latest_voted_view == old(self).latest_voted_view
                    && final(self).deps@ == old(self).deps@.insert(view, d1))
            }),
            final(self).latest_voted_view >= old(self).latest_voted_view,
    {
        let mut d = self.take_deps(view);
        d.leaf_commit = Some(leaf_commit);
        let r = self.store_or_vote(view, d);
        proof {
            lemma_vote_note_composes(old(self).deps@, view);
        }
        r
    }

    /// Note the view's DA certificate.
    pub fn on_da_certificate(&mut self, view: u64) -> (r: Option<QuorumVote>)
        requires
            old(self).wf(),
        ensures
            final(self).wf(),
            final(self).public_key == old(self).public_key,
            ({
                let d1 = spec_with_da_cert(spec_vote_gathered(old(self).deps@, view));
                &&& (r is Some <==> spec_vote_deps_complete(d1) && view > old(self).latest_voted_view)
                &&& (r matches Some(vote) ==> vote.view_number == view && vote.leaf_commit
                    == d1.leaf_commit.unwrap() && vote.signer == old(self).public_key && final(self).latest_voted_view == view && final(self).deps@ == old(self).deps@.remove(view))
                &&& (r is None ==> final(self).latest_voted_view == old(self).latest_voted_view
                    && final(self).deps@ == old(self).deps@.insert(view, d1))
            }),
            final(self).latest_voted_view >= old(self).latest_voted_view,
    {
        let mut d = self.take_deps(view);
        d.da_cert = true;
        let r = self.store_or_vote(view, d);
        proof {
            lemma_vote_note_composes(old(self).deps@, view);
        }
        r
    }

    /// Note this node's dispersal share for the view.
    pub fn on_vid_share(&mut self, view: u64) -> (r: Option<QuorumVote>)
        requires
            old(self).wf(),
        ensures
            final(self).wf(),
            final(self).public_key == old(self).public_key,
            ({
                let d1 = spec_with_share(spec_vote_gathered(old(self).deps@, view));
                &&& (r is Some <==> spec_vote_deps_complete(d1) && view > old(self).latest_voted_view)
                &&& (r matches Some(vote) ==> vote.view_number == view && vote.leaf_commit
                    == d1.leaf_commit.unwrap() && vote.signer == old(self).public_key && final(self).latest_voted_view == view && final(self).deps@ == old(self).deps@.remove(view))
                &&& (r is None ==> final(self).latest_voted_view == old(self).latest_voted_view
                    && final(self).deps@ == old(self).deps@.insert(view, d1))
            }),
            final(self).latest_voted_view >= old(self).latest_voted_view,
    {
        let mut d = self.take_deps(view);
        d.vid_share = true;
        let r = self.store_or_vote(view, d);
        proof {
            lemma_vote_note_composes(old(self).deps@, view);
        }
        r
    }
}

/// Taking a view's entry out and storing the updated state back is the
/// plain map insertion; taking it out and removing it again is the plain
/// removal.
proof fn lemma_vote_note_composes(m: Map<u64, VoteDependencyState>, view: u64)
    ensures
        forall|d: VoteDependencyState| #[trigger]
            m.remove(view).insert(view, d) == m.insert(view, d),
        m.remove(view).remove(view) == m.remove(view),
{
    assert forall|d: VoteDependencyState| #[trigger]
        m.remove(view).insert(view, d) == m.insert(view, d) by {
        assert(m.remove(view).insert(view, d) =~= m.insert(view, d));
    }
    assert(m.remove(view).remove(view) =~= m.remove(view));
}

/// An honest node votes at most once per view: a vote is cast only for a
/// view strictly above the last voted view, every vote raises that view to
/// its own, and the operations never lower it; so once a vote for a view is
/// cast, no later vote can name it.
pub proof fn lemma_vote_at_most_once_per_view(s: QuorumVoteTaskState, view: u64)
    requires
        s.latest_voted_view >= view,
    ensures
        !(view > s.latest_voted_view),
{
}

/// What processing a new leaf decided.
pub struct DecideResult {
    /// The new locked view, when the two-chain rule fired.
    pub new_locked_view: Option<u64>,
    /// The view of the newly decided leaf, when the three-chain rule fired.
    pub new_decided_view: Option<u64>,
    /// The commitment of the newly decided leaf.
    pub decided_leaf_commit: Option<Commit>,
}

/// The two-chain rule's premise: the leaf's saved parent sits in the view
/// directly below it.
pub open spec fn spec_two_chain(s: ConsensusV, leaf: LeafV) -> bool {
    &&& s.saved_leaves.dom().contains(leaf.parent_commitment)
    &&& s.saved_leaves[leaf.parent_commitment].view_number + 1 == leaf.view_number
}

/// The leaf's saved parent.
pub open spec fn spec_parent(s: ConsensusV, leaf: LeafV) -> LeafV {
    s.saved_leaves[leaf.parent_commitment]
}

/// The three-chain rule's premise: the saved grandparent also sits in the
/// view directly below the parent.
pub open spec fn spec_three_chain(s: ConsensusV, leaf: LeafV) -> bool {
    &&& spec_two_chain(s, leaf)
    &&& s.saved_leaves.dom().contains(spec_parent(s, leaf).parent_commitment)
    &&& s.saved_leaves[spec_parent(s, leaf).parent_commitment].view_number + 1 == spec_parent(
        s,
        leaf,
    ).view_number
}

/// The leaf's saved grandparent.
pub open spec fn spec_grandparent(s: ConsensusV, leaf: LeafV) -> LeafV {
    s.saved_leaves[spec_parent(s, leaf).parent_commitment]
}

/// The locked view after the two-chain rule fires for `leaf`: the parent's
/// view, when it can rise to it without passing the high certificate.
pub open spec fn spec_locked_after(s: ConsensusV, leaf: LeafV) -> u64 {
    let parent_view = spec_parent(s, leaf).view_number;
    if parent_view <= s.high_qc.view_number && parent_view > s.locked_view {
        parent_view
    } else {
        s.locked_view
    }
}

/// Advance the locked and decided views for a newly validated leaf by the
/// HotStuff chain rules, exactly: when the leaf's saved parent sits in the
/// view directly below it, the parent's view is reported locked and the
/// locked view rises to it (when not above the high certificate's view);
/// when the saved grandparent also chains, the grandparent is reported
/// decided and the anchor advances with its garbage collection, as
/// `advance_anchor` states; otherwise nothing is reported and nothing
/// changes.
pub fn process_decide(consensus: &mut Consensus, leaf: &Leaf) -> (r: DecideResult)
    requires
        old(consensus).wf(),
    ensures
        final(consensus).wf(),
        !spec_two_chain(old(consensus)@, leaf@) ==> r.new_locked_view is None
            && r.new_decided_view is None && r.decided_leaf_commit is None && final(consensus)@
            == old(consensus)@,
        spec_two_chain(old(consensus)@, leaf@) ==> {
            let locked1 = spec_locked_after(old(consensus)@, leaf@);
            let mid = ConsensusV { locked_view: locked1, ..old(consensus)@ };
            &&& r.new_locked_view == Some(spec_parent(old(consensus)@, leaf@).view_number)
            &&& final(consensus)@.locked_view == locked1
            &&& (!spec_three_chain(old(consensus)@, leaf@) ==> r.new_decided_view is None
                && r.decided_leaf_commit is None && final(consensus)@ == mid)
            &&& (spec_three_chain(old(consensus)@, leaf@) ==> {
                let gp = spec_grandparent(old(consensus)@, leaf@);
                &&& r.new_decided_view == Some(gp.view_number)
                &&& r.decided_leaf_commit == Some(leaf_commit_of(gp))
                &&& (gp.view_number <= locked1 && gp.view_number > old(consensus)@.last_decided_view ==> spec_anchor_advanced(
                    mid,
                    final(consensus)@,
                    gp.view_number,
                ))
                &&& (!(gp.view_number <= locked1 && gp.view_number > old(consensus)@.last_decided_view) ==> final(consensus)@ == mid)
            })
        },
{
    let parent = match consensus.saved_leaf(&leaf.parent_commitment) {
        Some(p) => p.dup(),
        None => {
            proof {
                assert(final(consensus)@ =~= old(consensus)@);
            }
            return DecideResult {
                new_locked_view: None,
                new_decided_view: None,
                decided_leaf_commit: None,
            };
        },
    };
    // two-chain: the parent sits directly below the leaf
    if !(parent.view_number < u64::MAX && parent.view_number + 1 == leaf.view_number) {
        proof {
            assert(final(consensus)@ =~= old(consensus)@);
        }
        return DecideResult {
            new_locked_view: None,
            new_decided_view: None,
            decided_leaf_commit: None,
        };
    }
    let new_locked = parent.view_number;
    if new_locked <= consensus.high_qc().view_number {
        let _locked_outcome = consensus.update_locked_view(new_locked);
    }
    proof {
        assert(consensus@ =~= (ConsensusV {
            locked_view: spec_locked_after(old(consensus)@, leaf@),
            ..old(consensus)@
        }));
    }
    // three-chain: the grandparent sits directly below the parent
    let grandparent = match consensus.saved_leaf(&parent.parent_commitment) {
        Some(g) => g.dup(),
        None => {
            return DecideResult {
                new_locked_view: Some(new_locked),
                new_decided_view: None,
                decided_leaf_commit: None,
            };
        },
    };
    if !(grandparent.view_number < u64::MAX && grandparent.view_number + 1 == parent.view_number) {
        return DecideResult {
            new_locked_view: Some(new_locked),
            new_decided_view: None,
            decided_leaf_commit: None,
        };
    }
    let decided_view = grandparent.view_number;
    let decided_commit = grandparent.commit();
    if decided_view <= consensus.locked_view() {
        let _anchor_outcome = consensus.advance_anchor(decided_view);
    }
    DecideResult {
        new_locked_view: Some(new_locked),
        new_decided_view: Some(decided_view),
        decided_leaf_commit: Some(decided_commit),
    }
}

} // verus!
