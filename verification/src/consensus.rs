//! The shared consensus state: the view map, saved leaves, payloads,
//! dispersal shares, certificates, and the locked / high-certificate views.
//! Every task reads and writes this structure under its owner's lock; its
//! well-formedness invariant orders the four distinguished views:
//! `last_decided_view <= locked_view <= high_qc.view_number <= cur_view`.

use vstd::prelude::*;

use crate::data::{
    Commit, DaCertificate, Leaf, LeafV, Proposal, ProposalV, QuorumCertificate, QuorumProposal,
    QuorumProposalV, VidDisperseShare, VidDisperseShareV, commit_of, leaf_commit_of,
};
use crate::vmap::{AssocMap, KeyAtLeast, MapKey};
use crate::bytes::{bytes_dup, bytes_eq};

verus! {

/// What a view resolved to in the validated state map.
#[derive(Clone, Copy, Debug, PartialEq, Eq)]
pub enum ViewEntry {
    /// The DA committee certified a payload for this view.
    Da { payload_commitment: Commit },
    /// A leaf was validated for this view.
    Leaf { leaf_commit: Commit },
    /// The view ended without a leaf.
    Failed,
}

/// Outcome of a conditional state update.
#[derive(Clone, Copy, Debug, PartialEq, Eq, Structural)]
pub enum UpdateOutcome {
    /// The update was applied.
    Applied,
    /// The update was refused as stale; nothing changed.
    Stale,
    /// The update would overwrite a validated leaf entry; nothing changed.
    Conflict,
}

/// Key of one recipient's dispersal share: the view and the recipient.
#[derive(Clone, Copy, Debug, PartialEq, Eq, Structural)]
pub struct ShareKey {
    pub view: u64,
    pub recipient: u64,
}

impl MapKey for ShareKey {
    fn key_eq(&self, other: &Self) -> (r: bool)
        ensures
            r == (*self == *other),
    {
        self.view == other.view && self.recipient == other.recipient
    }
}

impl KeyAtLeast for ShareKey {
    open spec fn at_least_spec(self, bound: u64) -> bool {
        self.view >= bound
    }

    fn at_least_exec(&self, bound: u64) -> (r: bool)
        ensures
            r == self.at_least_spec(bound),
    {
        self.view >= bound
    }
}

/// Mathematical view of the consensus state.
#[verifier::ext_equal]
pub struct ConsensusV {
    pub validated_state_map: Map<u64, ViewEntry>,
    pub saved_leaves: Map<Commit, LeafV>,
    pub saved_payloads: Map<u64, Seq<u8>>,
    pub saved_da_certs: Map<u64, DaCertificate>,
    pub vid_shares: Map<ShareKey, ProposalV<VidDisperseShareV>>,
    pub last_proposals: Map<u64, ProposalV<QuorumProposalV>>,
    pub cur_view: u64,
    pub last_decided_view: u64,
    pub locked_view: u64,
    pub last_proposed_view: u64,
    pub high_qc: QuorumCertificate,
}

/// The shared consensus state.
pub struct Consensus {
    validated_state_map: AssocMap<u64, ViewEntry>,
    saved_leaves: AssocMap<Commit, Leaf>,
    saved_payloads: AssocMap<u64, Vec<u8>>,
    saved_da_certs: AssocMap<u64, DaCertificate>,
    vid_shares: AssocMap<ShareKey, Proposal<VidDisperseShare>>,
    last_proposals: AssocMap<u64, Proposal<QuorumProposal>>,
    cur_view: u64,
    last_decided_view: u64,
    locked_view: u64,
    last_proposed_view: u64,
    high_qc: QuorumCertificate,
}

impl View for Consensus {
    type V = ConsensusV;

    closed spec fn view(&self) -> ConsensusV {
        ConsensusV {
            validated_state_map: self.validated_state_map@,
            saved_leaves: self.saved_leaves@.map_values(|l: Leaf| l@),
            saved_payloads: self.saved_payloads@.map_values(|p: Vec<u8>| p@),
            saved_da_certs: self.saved_da_certs@,
            vid_shares: self.vid_shares@.map_values(|p: Proposal<VidDisperseShare>| p@),
            last_proposals: self.last_proposals@.map_values(|p: Proposal<QuorumProposal>| p@),
            cur_view: self.cur_view,
            last_decided_view: self.last_decided_view,
            locked_view: self.locked_view,
            last_proposed_view: self.last_proposed_view,
            high_qc: self.high_qc,
        }
    }
}

/// Mapping values commutes with inserting a binding.
proof fn lemma_map_values_insert<K, V, W>(m: Map<K, V>, f: spec_fn(V) -> W, k: K, v: V)
    ensures
        m.insert(k, v).map_values(f) == m.map_values(f).insert(k, f(v)),
{
    assert(m.insert(k, v).map_values(f) =~= m.map_values(f).insert(k, f(v)));
}

/// Mapping values commutes with restricting the domain.
proof fn lemma_map_values_restrict<K, V, W>(m: Map<K, V>, f: spec_fn(V) -> W, s: Set<K>)
    ensures
        m.restrict(s).map_values(f) == m.map_values(f).restrict(s),
{
    assert(m.restrict(s).map_values(f) =~= m.map_values(f).restrict(s));
}

/// The ordering of the four distinguished views that holds at every
/// observable point.
pub open spec fn view_order_wf(s: ConsensusV) -> bool {
    &&& s.last_decided_view <= s.locked_view
    &&& s.locked_view <= s.high_qc.view_number
    &&& s.high_qc.view_number <= s.cur_view
}

impl Consensus {
    /// Distinct keys inside the maps.
    pub closed spec fn maps_wf(self) -> bool {
        &&& self.validated_state_map.wf()
        &&& self.saved_leaves.wf()
        &&& self.saved_payloads.wf()
        &&& self.saved_da_certs.wf()
        &&& self.vid_shares.wf()
        &&& self.last_proposals.wf()
    }

    /// Distinct keys inside the maps, and the ordering of the distinguished
    /// views.
    pub open spec fn wf(self) -> bool {
        &&& self.maps_wf()
        &&& view_order_wf(self@)
    }

    /// Create the state for a node anchored at `anchor`: the current view is
    /// `start_view`, the locked view is the high certificate's view, and the
    /// last decided view is the anchor's.
    pub fn new(anchor: Leaf, high_qc: QuorumCertificate, start_view: u64) -> (r: Self)
        requires
            anchor.view_number <= high_qc.view_number,
            high_qc.view_number <= start_view,
        ensures
            r.wf(),
            r@.cur_view == start_view,
            r@.last_decided_view == anchor.view_number,
            r@.locked_view == high_qc.view_number,
            r@.last_proposed_view == 0,
            r@.high_qc == high_qc,
            r@.validated_state_map == Map::<u64, ViewEntry>::empty().insert(
                anchor.view_number,
                ViewEntry::Leaf { leaf_commit: leaf_commit_of(anchor@) },
            ),
            r@.saved_leaves == Map::<Commit, LeafV>::empty().insert(
                leaf_commit_of(anchor@),
                anchor@,
            ),
            r@.saved_payloads == Map::<u64, Seq<u8>>::empty(),
            r@.saved_da_certs == Map::<u64, DaCertificate>::empty(),
            r@.vid_shares == Map::<ShareKey, ProposalV<VidDisperseShareV>>::empty(),
            r@.last_proposals == Map::<u64, ProposalV<QuorumProposalV>>::empty(),
    {
        let anchor_view = anchor.view_number;
        let anchor_commit = anchor.commit();
        let mut validated_state_map: AssocMap<u64, ViewEntry> = AssocMap::new();
        validated_state_map.insert(anchor_view, ViewEntry::Leaf { leaf_commit: anchor_commit });
        let mut saved_leaves: AssocMap<Commit, Leaf> = AssocMap::new();
        saved_leaves.insert(anchor_commit, anchor);
        let r = Consensus {
            validated_state_map,
            saved_leaves,
            saved_payloads: AssocMap::new(),
            saved_da_certs: AssocMap::new(),
            vid_shares: AssocMap::new(),
            last_proposals: AssocMap::new(),
            cur_view: start_view,
            last_decided_view: anchor_view,
            locked_view: high_qc.view_number,
            last_proposed_view: 0,
            high_qc,
        };
        proof {
            assert(r@.saved_leaves =~= Map::<Commit, LeafV>::empty().insert(
                leaf_commit_of(anchor@),
                anchor@,
            ));
            assert(r@.saved_payloads =~= Map::<u64, Seq<u8>>::empty());
            assert(r@.vid_shares =~= Map::<ShareKey, ProposalV<VidDisperseShareV>>::empty());
            assert(r@.last_proposals =~= Map::<u64, ProposalV<QuorumProposalV>>::empty());
        }
        r
    }

    /// The current view.
    pub fn cur_view(&self) -> (r: u64)
        ensures
            r == self@.cur_view,
    {
        self.cur_view
    }

    /// The last decided view.
    pub fn last_decided_view(&self) -> (r: u64)
        ensures
            r == self@.last_decided_view,
    {
        self.last_decided_view
    }

    /// The locked view.
    pub fn locked_view(&self) -> (r: u64)
        ensures
            r == self@.locked_view,
    {
        self.locked_view
    }

    /// The highest-view quorum certificate observed.
    pub fn high_qc(&self) -> (r: QuorumCertificate)
        ensures
            r == self@.high_qc,
    {
        self.high_qc
    }

    /// The highest view proposed for by this node.
    pub fn last_proposed_view(&self) -> (r: u64)
        ensures
            r == self@.last_proposed_view,
    {
        self.last_proposed_view
    }

    /// Enter a strictly higher view; a non-increasing view is stale.
    pub fn update_view(&mut self, new_view: u64) -> (r: UpdateOutcome)
        requires
            old(self).wf(),
        ensures
            final(self).wf(),
            r == UpdateOutcome::Applied <==> new_view > old(self)@.cur_view,
            r == UpdateOutcome::Applied ==> final(self)@ == (ConsensusV {
                cur_view: new_view,
                ..old(self)@
            }),
            r == UpdateOutcome::Stale ==> final(self)@ == old(self)@,
            r != UpdateOutcome::Conflict,
    {
        if new_view > self.cur_view {
            self.cur_view = new_view;
            proof {
                assert(self@ =~= (ConsensusV { cur_view: new_view, ..old(self)@ }));
            }
            UpdateOutcome::Applied
        } else {
            proof {
                assert(self@ =~= old(self)@);
            }
            UpdateOutcome::Stale
        }
    }

    /// Adopt a strictly higher quorum certificate; repeating the same
    /// certificate, or any not above the held one, is a stale no-op. The
    /// current view is raised to the certificate's view where it lies ahead,
    /// so the view ordering invariant is kept.
    pub fn update_high_qc(&mut self, qc: QuorumCertificate) -> (r: UpdateOutcome)
        requires
            old(self).wf(),
            old(self)@.locked_view <= qc.view_number || qc.view_number
                <= old(self)@.high_qc.view_number,
        ensures
            final(self).wf(),
            r == UpdateOutcome::Applied <==> qc.view_number > old(self)@.high_qc.view_number,
            r == UpdateOutcome::Applied ==> final(self)@ == (ConsensusV {
                high_qc: qc,
                cur_view: if qc.view_number > old(self)@.cur_view {
                    qc.view_number
                } else {
                    old(self)@.cur_view
                },
                ..old(self)@
            }),
            r == UpdateOutcome::Stale ==> final(self)@ == old(self)@,
            r != UpdateOutcome::Conflict,
    {
        if qc.view_number > self.high_qc.view_number {
            let new_cur = if qc.view_number > self.cur_view {
                qc.view_number
            } else {
                self.cur_view
            };
            self.high_qc = qc;
            self.cur_view = new_cur;
            proof {
                assert(self@ =~= (ConsensusV {
                    high_qc: qc,
                    cur_view: if qc.view_number > old(self)@.cur_view {
                        qc.view_number
                    } else {
                        old(self)@.cur_view
                    },
                    ..old(self)@
                }));
            }
            UpdateOutcome::Applied
        } else {
            proof {
                assert(self@ =~= old(self)@);
            }
            UpdateOutcome::Stale
        }
    }

    /// Raise the locked view. The caller names a view no higher than the
    /// high certificate's, as the view ordering invariant demands.
    pub fn update_locked_view(&mut self, v: u64) -> (r: UpdateOutcome)
        requires
            old(self).wf(),
            v <= old(self)@.high_qc.view_number,
        ensures
            final(self).wf(),
            r == UpdateOutcome::Applied <==> v > old(self)@.locked_view,
            r == UpdateOutcome::Applied ==> final(self)@ == (ConsensusV {
                locked_view: v,
                ..old(self)@
            }),
            r == UpdateOutcome::Stale ==> final(self)@ == old(self)@,
            r != UpdateOutcome::Conflict,
    {
        if v > self.locked_view {
            self.locked_view = v;
            proof {
                assert(self@ =~= (ConsensusV { locked_view: v, ..old(self)@ }));
            }
            UpdateOutcome::Applied
        } else {
            proof {
                assert(self@ =~= old(self)@);
            }
            UpdateOutcome::Stale
        }
    }

    /// Record an entry for a view. A validated leaf entry is never
    /// overwritten by a different kind of entry: that is a conflict and
    /// nothing changes; otherwise the last writer wins.
    pub fn update_validated_state_map(&mut self, view: u64, entry: ViewEntry) -> (r:
        UpdateOutcome)
        requires
            old(self).wf(),
        ensures
            final(self).wf(),
            r == UpdateOutcome::Conflict <==> (old(self)@.validated_state_map.dom().contains(view)
                && old(self)@.validated_state_map[view] is Leaf && !(entry is Leaf)),
            r == UpdateOutcome::Applied ==> final(self)@ == (ConsensusV {
                validated_state_map: old(self)@.validated_state_map.insert(view, entry),
                ..old(self)@
            }),
            r == UpdateOutcome::Conflict ==> final(self)@ == old(self)@,
            r != UpdateOutcome::Stale,
    {
        let is_conflict = match self.validated_state_map.get(&view) {
            Some(existing) => match existing {
                ViewEntry::Leaf { .. } => !matches!(entry, ViewEntry::Leaf { .. }),
                _ => false,
            },
            None => false,
        };
        if is_conflict {
            proof {
                assert(self@ =~= old(self)@);
            }
            UpdateOutcome::Conflict
        } else {
            self.validated_state_map.insert(view, entry);
            proof {
                assert(self@ =~= (ConsensusV {
                    validated_state_map: old(self)@.validated_state_map.insert(view, entry),
                    ..old(self)@
                }));
            }
            UpdateOutcome::Applied
        }
    }

    /// Look up the entry recorded for a view.
    pub fn validated_state_entry(&self, view: u64) -> (r: Option<&ViewEntry>)
        requires
            self.wf(),
        ensures
            match r {
                Some(e) => self@.validated_state_map.dom().contains(view)
                    && self@.validated_state_map[view] == *e,
                None => !self@.validated_state_map.dom().contains(view),
            },
    {
        self.validated_state_map.get(&view)
    }

    /// Store a leaf under its commitment; inserting the same leaf again
    /// changes nothing.
    pub fn update_saved_leaves(&mut self, leaf: Leaf)
        requires
            old(self).wf(),
        ensures
            final(self).wf(),
            final(self)@ == (ConsensusV {
                saved_leaves: old(self)@.saved_leaves.insert(leaf_commit_of(leaf@), leaf@),
                ..old(self)@
            }),
    {
        let c = leaf.commit();
        let ghost m = self.saved_leaves@;
        self.saved_leaves.insert(c, leaf);
        proof {
            lemma_map_values_insert(m, |l: Leaf| l@, c, leaf);
            assert(self@ =~= (ConsensusV {
                saved_leaves: old(self)@.saved_leaves.insert(leaf_commit_of(leaf@), leaf@),
                ..old(self)@
            }));
        }
    }

    /// Look up a saved leaf by its commitment.
    pub fn saved_leaf(&self, c: &Commit) -> (r: Option<&Leaf>)
        requires
            self.wf(),
        ensures
            match r {
                Some(l) => self@.saved_leaves.dom().contains(*c) && self@.saved_leaves[*c] == l@,
                None => !self@.saved_leaves.dom().contains(*c),
            },
    {
        proof {
            self.saved_leaves.lemma_entries_are_bindings();
        }
        match self.saved_leaves.get(c) {
            Some(l) => Some(l),
            None => {
                proof {
                    assert(!self@.saved_leaves.dom().contains(*c));
                }
                None
            },
        }
    }

    /// Record the payload promised for a view. An absent view is filled; an
    /// equal re-insert is a no-op; different bytes for the same view are an
    /// invariant breach and are refused as a conflict.
    pub fn update_saved_payloads(&mut self, view: u64, payload: Vec<u8>) -> (r: UpdateOutcome)
        requires
            old(self).wf(),
        ensures
            final(self).wf(),
            r == UpdateOutcome::Applied <==> !old(self)@.saved_payloads.dom().contains(view),
            r == UpdateOutcome::Applied ==> final(self)@ == (ConsensusV {
                saved_payloads: old(self)@.saved_payloads.insert(view, payload@),
                ..old(self)@
            }),
            r == UpdateOutcome::Stale <==> (old(self)@.saved_payloads.dom().contains(view) && old(
                self,
            )@.saved_payloads[view] == payload@),
            r == UpdateOutcome::Stale || r == UpdateOutcome::Conflict ==> final(self)@ == old(
                self,
            )@,
            r == UpdateOutcome::Conflict <==> (old(self)@.saved_payloads.dom().contains(view)
                && old(self)@.saved_payloads[view] != payload@),
    {
        match self.saved_payloads.get(&view) {
            Some(existing) => {
                let same = bytes_eq(existing, &payload);
                proof {
                    assert(self@ =~= old(self)@);
                }
                if same {
                    UpdateOutcome::Stale
                } else {
                    UpdateOutcome::Conflict
                }
            },
            None => {
                let ghost m = self.saved_payloads@;
                let ghost pv = payload@;
                self.saved_payloads.insert(view, payload);
                proof {
                    lemma_map_values_insert(m, |p: Vec<u8>| p@, view, old(self).saved_payloads@[
                        view
                    ]);
                    assert(self@ =~= (ConsensusV {
                        saved_payloads: old(self)@.saved_payloads.insert(view, pv),
                        ..old(self)@
                    }));
                }
                UpdateOutcome::Applied
            },
        }
    }

    /// Whether a payload is recorded for a view.
    pub fn has_payload(&self, view: u64) -> (r: bool)
        requires
            self.wf(),
        ensures
            r == self@.saved_payloads.dom().contains(view),
    {
        self.saved_payloads.contains_key(&view)
    }

    /// A copy of the payload recorded for a view.
    pub fn saved_payload(&self, view: u64) -> (r: Option<Vec<u8>>)
        requires
            self.wf(),
        ensures
            match r {
                Some(p) => self@.saved_payloads.dom().contains(view)
                    && self@.saved_payloads[view] == p@,
                None => !self@.saved_payloads.dom().contains(view),
            },
    {
        match self.saved_payloads.get(&view) {
            Some(p) => Some(bytes_dup(p)),
            None => None,
        }
    }

    /// Record the DA certificate for its view; certificates are canonical,
    /// so the last writer wins.
    pub fn update_saved_da_certs(&mut self, cert: DaCertificate)
        requires
            old(self).wf(),
        ensures
            final(self).wf(),
            final(self)@ == (ConsensusV {
                saved_da_certs: old(self)@.saved_da_certs.insert(cert.view_number, cert),
                ..old(self)@
            }),
    {
        self.saved_da_certs.insert(cert.view_number, cert);
        proof {
            assert(self@ =~= (ConsensusV {
                saved_da_certs: old(self)@.saved_da_certs.insert(cert.view_number, cert),
                ..old(self)@
            }));
        }
    }

    /// The DA certificate recorded for a view.
    pub fn saved_da_cert(&self, view: u64) -> (r: Option<&DaCertificate>)
        requires
            self.wf(),
        ensures
            match r {
                Some(c) => self@.saved_da_certs.dom().contains(view) && self@.saved_da_certs[view]
                    == *c,
                None => !self@.saved_da_certs.dom().contains(view),
            },
    {
        self.saved_da_certs.get(&view)
    }

    /// Record one recipient's dispersal share.
    pub fn update_vid_shares(&mut self, share: Proposal<VidDisperseShare>)
        requires
            old(self).wf(),
        ensures
            final(self).wf(),
            final(self)@ == (ConsensusV {
                vid_shares: old(self)@.vid_shares.insert(
                    ShareKey {
                        view: share.data.view_number,
                        recipient: share.data.recipient_key,
                    },
                    share@,
                ),
                ..old(self)@
            }),
    {
        let key = ShareKey { view: share.data.view_number, recipient: share.data.recipient_key };
        let ghost m = self.vid_shares@;
        let ghost sv = share@;
        self.vid_shares.insert(key, share);
        proof {
            lemma_map_values_insert(m, |p: Proposal<VidDisperseShare>| p@, key, old(
                self,
            ).vid_shares@[key]);
            assert(self@ =~= (ConsensusV {
                vid_shares: old(self)@.vid_shares.insert(key, sv),
                ..old(self)@
            }));
        }
    }

    /// The dispersal share stored for a view and recipient.
    pub fn vid_share(&self, view: u64, recipient: u64) -> (r: Option<
        &Proposal<VidDisperseShare>,
    >)
        requires
            self.wf(),
        ensures
            match r {
                Some(p) => self@.vid_shares.dom().contains(
                    ShareKey { view, recipient },
                ) && self@.vid_shares[ShareKey { view, recipient }] == p@,
                None => !self@.vid_shares.dom().contains(ShareKey { view, recipient }),
            },
    {
        proof {
            self.vid_shares.lemma_entries_are_bindings();
        }
        self.vid_shares.get(&ShareKey { view, recipient })
    }

    /// Whether any recipient's share is stored for a view.
    pub fn has_vid_shares_for_view(&self, view: u64) -> (r: bool)
        requires
            self.wf(),
        ensures
            r == exists|rec: u64|
                self@.vid_shares.dom().contains(ShareKey { view, recipient: rec }),
    {
        proof {
            self.vid_shares.lemma_entries_are_bindings();
        }
        let n = self.vid_shares.len();
        let mut i: usize = 0;
        while i < n
            invariant
                self.wf(),
                n == self.vid_shares.entries_seq().len(),
                0 <= i <= n,
                forall|j: int|
                    0 <= j < i ==> (#[trigger] self.vid_shares.entries_seq()[j]).0.view != view,
            decreases n - i,
        {
            let (k, _v) = self.vid_shares.entry_at(i);
            if k.view == view {
                proof {
                    assert(self@.vid_shares.dom().contains(ShareKey {
                        view,
                        recipient: k.recipient,
                    }));
                }
                return true;
            }
            i += 1;
        }
        proof {
            self.vid_shares.lemma_entries_are_bindings();
            assert forall|rec: u64|
                !self@.vid_shares.dom().contains(ShareKey { view, recipient: rec }) by {
                if self@.vid_shares.dom().contains(ShareKey { view, recipient: rec }) {
                    let j = choose|j: int|
                        0 <= j < self.vid_shares.entries_seq().len() && (
                        #[trigger] self.vid_shares.entries_seq()[j]).0 == ShareKey {
                            view,
                            recipient: rec,
                        };
                }
            }
        }
        false
    }

    /// If the payload for `view` is present and this node's own share is
    /// not, derive the share and memoize it; a second call changes nothing.
    /// Returns nothing when the payload is not yet available. The share of a
    /// replication dispersal is the payload itself, and its commitment is
    /// the payload's.
    pub fn calculate_and_update_vid(&mut self, view: u64, self_key: u64) -> (r: Option<()>)
        requires
            old(self).wf(),
        ensures
            final(self).wf(),
            r is Some <==> old(self)@.saved_payloads.dom().contains(view),
            r is None ==> final(self)@ == old(self)@,
            r is Some ==> vid_calc_post(old(self)@, final(self)@, view, self_key),
    {
        if self.vid_share(view, self_key).is_some() {
            proof {
                assert(self@ =~= old(self)@);
            }
            return if self.has_payload(view) {
                Some(())
            } else {
                None
            };
        }
        let payload = match self.saved_payload(view) {
            Some(p) => p,
            None => {
                proof {
                    assert(self@ =~= old(self)@);
                }
                return None;
            },
        };
        let commitment = crate::data::compute_commit(&payload);
        let share = VidDisperseShare {
            view_number: view,
            payload_commitment: commitment,
            share: payload,
            recipient_key: self_key,
        };
        let signed = Proposal { data: share, signature: [0u8; 96] };
        let ghost pv = signed@;
        self.update_vid_shares(signed);
        proof {
            assert(pv.data.share == old(self)@.saved_payloads[view]);
        }
        Some(())
    }

    /// Record a proposal this node published, monotonically by view: a
    /// proposal whose view is not strictly above every previously recorded
    /// one is stale and nothing changes. At most one proposal is therefore
    /// accepted per view.
    pub fn update_last_proposed_view(&mut self, proposal: Proposal<QuorumProposal>) -> (r:
        UpdateOutcome)
        requires
            old(self).wf(),
        ensures
            final(self).wf(),
            r == UpdateOutcome::Applied <==> proposal.data.view_number > old(
                self,
            )@.last_proposed_view,
            r == UpdateOutcome::Applied ==> final(self)@ == (ConsensusV {
                last_proposals: old(self)@.last_proposals.insert(
                    proposal.data.view_number,
                    proposal@,
                ),
                last_proposed_view: proposal.data.view_number,
                ..old(self)@
            }),
            r == UpdateOutcome::Stale ==> final(self)@ == old(self)@,
            r != UpdateOutcome::Conflict,
    {
        if proposal.data.view_number > self.last_proposed_view {
            let view = proposal.data.view_number;
            let ghost m = self.last_proposals@;
            let ghost pv = proposal@;
            self.last_proposed_view = view;
            self.last_proposals.insert(view, proposal);
            proof {
                lemma_map_values_insert(m, |p: Proposal<QuorumProposal>| p@, view, old(
                    self,
                ).last_proposals@[view]);
                assert(self@ =~= (ConsensusV {
                    last_proposals: old(self)@.last_proposals.insert(view, pv),
                    last_proposed_view: view,
                    ..old(self)@
                }));
            }
            UpdateOutcome::Applied
        } else {
            proof {
                assert(self@ =~= old(self)@);
            }
            UpdateOutcome::Stale
        }
    }

    /// The proposal this node published for a view, for catch-up.
    pub fn last_proposal(&self, view: u64) -> (r: Option<&Proposal<QuorumProposal>>)
        requires
            self.wf(),
        ensures
            match r {
                Some(p) => self@.last_proposals.dom().contains(view)
                    && self@.last_proposals[view] == p@,
                None => !self@.last_proposals.dom().contains(view),
            },
    {
        proof {
            self.last_proposals.lemma_entries_are_bindings();
        }
        self.last_proposals.get(&view)
    }

    /// The last decided leaf, when the anchor chain is intact: the entry at
    /// the last decided view is a leaf entry whose commitment is saved.
    pub fn decided_leaf(&self) -> (r: Option<&Leaf>)
        requires
            self.wf(),
        ensures
            r is Some <==> anchor_intact(self@),
            r matches Some(l) ==> l@ == self@.saved_leaves[anchor_commit(self@)],
    {
        match self.validated_state_map.get(&self.last_decided_view) {
            Some(entry) => match entry {
                ViewEntry::Leaf { leaf_commit } => {
                    let c = *leaf_commit;
                    self.saved_leaf(&c)
                },
                _ => None,
            },
            None => None,
        }
    }

    /// Advance the decided anchor and garbage-collect everything strictly
    /// below it: entries, payloads, certificates, shares and catch-up
    /// proposals of views below the new anchor are dropped atomically, and
    /// leaves unreferenced by the kept entries are dropped with them.
    pub fn advance_anchor(&mut self, new_decided: u64) -> (r: UpdateOutcome)
        requires
            old(self).wf(),
            new_decided <= old(self)@.locked_view,
        ensures
            final(self).wf(),
            r == UpdateOutcome::Applied <==> new_decided > old(self)@.last_decided_view,
            r == UpdateOutcome::Stale ==> final(self)@ == old(self)@,
            r == UpdateOutcome::Applied ==> spec_anchor_advanced(
                old(self)@,
                final(self)@,
                new_decided,
            ),
            r != UpdateOutcome::Conflict,
    {
        if new_decided <= self.last_decided_view {
            proof {
                assert(self@ =~= old(self)@);
            }
            return UpdateOutcome::Stale;
        }
        self.last_decided_view = new_decided;
        let removed_entries = self.validated_state_map.retain_at_least(new_decided);
        let _removed_payloads = self.saved_payloads.retain_at_least(new_decided);
        let _removed_certs = self.saved_da_certs.retain_at_least(new_decided);
        let _removed_shares = self.vid_shares.retain_at_least(new_decided);
        let _removed_proposals = self.last_proposals.retain_at_least(new_decided);
        let ghost leaves0 = self.saved_leaves@;
        let ghost pre = *self;
        let n = removed_entries.len();
        let mut i: usize = 0;
        while i < n
            invariant
                n == removed_entries@.len(),
                0 <= i <= n,
                self.saved_leaves.wf(),
                self.validated_state_map == pre.validated_state_map,
                self.saved_payloads == pre.saved_payloads,
                self.saved_da_certs == pre.saved_da_certs,
                self.vid_shares == pre.vid_shares,
                self.last_proposals == pre.last_proposals,
                self.cur_view == pre.cur_view,
                self.last_decided_view == pre.last_decided_view,
                self.locked_view == pre.locked_view,
                self.last_proposed_view == pre.last_proposed_view,
                self.high_qc == pre.high_qc,
                forall|c: Commit| #[trigger]
                    self.saved_leaves@.dom().contains(c) ==> leaves0.dom().contains(c)
                        && self.saved_leaves@[c] == leaves0[c],
            decreases n - i,
        {
            match &removed_entries[i].1 {
                ViewEntry::Leaf { leaf_commit } => {
                    let c = *leaf_commit;
                    self.saved_leaves.remove(&c);
                },
                _ => {},
            }
            i += 1;
        }
        proof {
            assert(forall|k: u64|
                #[trigger] k.at_least_spec(new_decided) <==> k >= new_decided);
            assert(forall|k: ShareKey|
                #[trigger] k.at_least_spec(new_decided) <==> k.view >= new_decided);
            lemma_map_values_restrict(
                old(self).saved_payloads@,
                |p: Vec<u8>| p@,
                Set::new(|k: u64| k.at_least_spec(new_decided)),
            );
            lemma_map_values_restrict(
                old(self).vid_shares@,
                |p: Proposal<VidDisperseShare>| p@,
                Set::new(|k: ShareKey| k.at_least_spec(new_decided)),
            );
            lemma_map_values_restrict(
                old(self).last_proposals@,
                |p: Proposal<QuorumProposal>| p@,
                Set::new(|k: u64| k.at_least_spec(new_decided)),
            );
            assert(self@.saved_payloads =~= old(self)@.saved_payloads.restrict(
                Set::new(|k: u64| k >= new_decided),
            ));
            assert(self@.vid_shares =~= old(self)@.vid_shares.restrict(
                Set::new(|k: ShareKey| k.view >= new_decided),
            ));
            assert(self@.last_proposals =~= old(self)@.last_proposals.restrict(
                Set::new(|k: u64| k >= new_decided),
            ));
            assert(self@.validated_state_map =~= old(self)@.validated_state_map.restrict(
                Set::new(|k: u64| k >= new_decided),
            ));
            assert(self@.saved_da_certs =~= old(self)@.saved_da_certs.restrict(
                Set::new(|k: u64| k >= new_decided),
            ));
            assert forall|c: Commit| #[trigger] self@.saved_leaves.dom().contains(c) implies old(
                self,
            )@.saved_leaves.dom().contains(c) && self@.saved_leaves[c] == old(
                self,
            )@.saved_leaves[c] by {
                assert(self.saved_leaves@.dom().contains(c));
            }
        }
        UpdateOutcome::Applied
    }
}

/// What deriving one's own share does to the state: a no-op when the share
/// is already memoized, else exactly one new share binding whose bytes are
/// the saved payload and whose commitment is the payload's.
pub open spec fn vid_calc_post(pre: ConsensusV, post: ConsensusV, view: u64, self_key: u64) -> bool {
    let key = ShareKey { view, recipient: self_key };
    if pre.vid_shares.dom().contains(key) {
        post == pre
    } else {
        exists|p: ProposalV<VidDisperseShareV>|
            {
                &&& post == (ConsensusV { vid_shares: pre.vid_shares.insert(key, p), ..pre })
                &&& (#[trigger] p.data.share) == pre.saved_payloads[view]
                &&& p.data.view_number == view
                &&& p.data.recipient_key == self_key
                &&& p.data.payload_commitment == commit_of(pre.saved_payloads[view])
            }
    }
}

/// What advancing the anchor to `new_decided` does: the anchor moves, the
/// other distinguished views and the high certificate stay, every
/// view-keyed map is restricted to views at or above the new anchor, and
/// the saved leaves only shrink, each retained binding unchanged.
pub open spec fn spec_anchor_advanced(pre: ConsensusV, post: ConsensusV, new_decided: u64) -> bool {
    &&& post.last_decided_view == new_decided
    &&& post.cur_view == pre.cur_view
    &&& post.locked_view == pre.locked_view
    &&& post.high_qc == pre.high_qc
    &&& post.last_proposed_view == pre.last_proposed_view
    &&& post.validated_state_map == pre.validated_state_map.restrict(
        Set::new(|k: u64| k >= new_decided),
    )
    &&& post.saved_payloads == pre.saved_payloads.restrict(Set::new(|k: u64| k >= new_decided))
    &&& post.saved_da_certs == pre.saved_da_certs.restrict(Set::new(|k: u64| k >= new_decided))
    &&& post.vid_shares == pre.vid_shares.restrict(
        Set::new(|k: ShareKey| k.view >= new_decided),
    )
    &&& post.last_proposals == pre.last_proposals.restrict(Set::new(|k: u64| k >= new_decided))
    &&& forall|c: Commit| #[trigger]
        post.saved_leaves.dom().contains(c) ==> pre.saved_leaves.dom().contains(c)
            && post.saved_leaves[c] == pre.saved_leaves[c]
}

/// The anchor chain is intact: the validated state map holds a leaf entry
/// at the last decided view, and the leaf it names is saved.
pub open spec fn anchor_intact(s: ConsensusV) -> bool {
    &&& s.validated_state_map.dom().contains(s.last_decided_view)
    &&& s.validated_state_map[s.last_decided_view] is Leaf
    &&& s.saved_leaves.dom().contains(anchor_commit(s))
}

/// The commitment named by the leaf entry at the last decided view.
pub open spec fn anchor_commit(s: ConsensusV) -> Commit
    recommends
        s.validated_state_map[s.last_decided_view] is Leaf,
{
    match s.validated_state_map[s.last_decided_view] {
        ViewEntry::Leaf { leaf_commit } => leaf_commit,
        _ => crate::data::spec_zero_commit(),
    }
}

/// Once a proposal for a view has been accepted, the last-proposed view is
/// at least that view, every operation keeps it so, and acceptance demands a
/// strictly higher view: at most one proposal is ever accepted per view.
pub proof fn lemma_propose_at_most_once_per_view(s: ConsensusV, v: u64)
    requires
        s.last_proposed_view >= v,
    ensures
        !(v > s.last_proposed_view),
{
}

/// The view ordering invariant, stated as a law: every well-formed state
/// satisfies `last_decided_view <= locked_view <= high_qc.view_number <=
/// cur_view`, and every operation of [`Consensus`] ensures well-formedness
/// back, so the ordering holds at every observable point.
pub proof fn lemma_view_ordering(c: Consensus)
    requires
        c.wf(),
    ensures
        c@.last_decided_view <= c@.locked_view,
        c@.locked_view <= c@.high_qc.view_number,
        c@.high_qc.view_number <= c@.cur_view,
{
}

/// Adopting the held high certificate again is a no-op: acceptance demands
/// a view strictly above the held one, which the held certificate cannot
/// meet.
pub proof fn lemma_high_qc_idempotent(s: ConsensusV, qc: QuorumCertificate)
    requires
        s.high_qc == qc,
    ensures
        !(qc.view_number > s.high_qc.view_number),
{
}

/// Re-recording the payload already held for a view changes nothing: the
/// update applies only to a view without a payload, equal bytes are
/// reported stale with the state unchanged, and even the map insertion of
/// the identical binding is the identity.
pub proof fn lemma_saved_payload_idempotent(s: ConsensusV, view: u64, payload: Seq<u8>)
    requires
        s.saved_payloads.dom().contains(view),
        s.saved_payloads[view] == payload,
    ensures
        s.saved_payloads.insert(view, payload) == s.saved_payloads,
{
    assert(s.saved_payloads.insert(view, payload) =~= s.saved_payloads);
}

} // verus!
