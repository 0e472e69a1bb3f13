//! End-to-end scenarios over an in-memory network of validators: the happy
//! path, a timeout view, the liveness-only path, dispersal-share catch-up,
//! request authentication, and version rejection.

use hotshot_core::consensus::{Consensus, UpdateOutcome};

use hotshot_core::da::{DaProposalRecvOutcome, DaTaskState, DaValidatedOutcome};
use hotshot_core::data::{
    genesis_leaf,
    BlockHeader, Commit, DaCertificate, Leaf, Proposal, QuorumCertificate, QuorumProposal,
    QuorumVote, TAG_QUORUM,
};
use hotshot_core::accumulator::{AccumulateResult, VoteAccumulator};
use hotshot_core::membership::Membership;
use hotshot_core::quorum_proposal::{CommitmentAndMetadata, QuorumProposalTaskState};
use hotshot_core::quorum_proposal_recv::{QuorumProposalRecvTaskState, QuorumProposalValidity};
use hotshot_core::quorum_vote::{process_decide, QuorumVoteTaskState};
use hotshot_core::storage::MemoryStorage;
use hotshot_core::view_change::{make_timeout_vote, TimeoutTaskState};

struct Node {
    id: u64,
    consensus: Consensus,
    storage: MemoryStorage,
    da: DaTaskState,
    proposal: QuorumProposalTaskState,
    recv: QuorumProposalRecvTaskState,
    vote: QuorumVoteTaskState,
    timeout: TimeoutTaskState,
    /// Decide events observed: the decided view and the decided leaf's
    /// commitment, in the order they fired.
    decided: Vec<(u64, Commit)>,
}

struct Net {
    nodes: Vec<Node>,
    membership: Membership,
    sk_set: threshold_crypto::SecretKeySet,
    /// Every published proposal's view and leaf commitment, for reading the
    /// decided chain off the anchor.
    proposed: Vec<(u64, Commit)>,
}

fn zero_commit() -> Commit {
    Commit { w0: 0, w1: 0, w2: 0, w3: 0 }
}

fn setup(n: u64) -> Net {
    // any threshold + 1 shares combine; align it with the success threshold
    let success = 2 * (n as usize) / 3 + 1;
    let sk_set = threshold_crypto::SecretKeySet::random(success - 1, &mut rand::thread_rng());
    let pk_set = sk_set.public_keys();
    let members: Vec<u64> = (0..n).collect();
    let membership = Membership::new(members.clone(), pk_set);
    let anchor = genesis_leaf();
    let genesis_qc = QuorumCertificate {
        leaf_commit: anchor.commit(),
        view_number: 0,
        signature: None,
        is_genesis: true,
    };
    let mut nodes = Vec::new();
    for id in 0..n {
        let sk = sk_set.secret_key_share(id);
        nodes.push(Node {
            id,
            consensus: Consensus::new(genesis_leaf(), genesis_qc, 0),
            storage: MemoryStorage::new(),
            da: DaTaskState {
                cur_view: 0,
                public_key: id,
                private_key: sk_set.secret_key_share(id),
                vote_collector: None,
            },
            proposal: QuorumProposalTaskState {
                latest_proposed_view: 0,
                deps: hotshot_core::vmap::AssocMap::new(),
                public_key: id,
                private_key: sk_set.secret_key_share(id),
                round_start_delay: 1,
            },
            recv: QuorumProposalRecvTaskState { cur_view: 0, public_key: id },
            vote: QuorumVoteTaskState {
                latest_voted_view: 0,
                deps: hotshot_core::vmap::AssocMap::new(),
                public_key: id,
                private_key: sk,
            },
            timeout: TimeoutTaskState { public_key: id, vote_collector: None },
            decided: Vec::new(),
        });
    }
    Net { nodes, membership, sk_set, proposed: Vec::new() }
}

/// Run the data-availability and dispersal phase of one view: the DA leader
/// proposes the payload, every node validates, votes and derives its share,
/// and the DA certificate forms and spreads.
fn run_da_phase(net: &mut Net, view: u64, txns: &[u8]) -> DaCertificate {
    let n = net.nodes.len();
    let da_leader = net.membership.leader(view) as usize;
    let txns_vec: Vec<u8> = txns.to_vec();
    let metadata: Vec<u8> = Vec::new();
    let da_proposal = net.nodes[da_leader].da.handle_block_recv(&txns_vec, &metadata, view);
    // every node validates and votes
    let mut votes = Vec::new();
    for i in 0..n {
        let node = &mut net.nodes[i];
        let outcome = node.da.handle_da_proposal_recv(
            &node.consensus,
            &net.membership,
            &da_proposal,
            da_leader as u64,
        );
        assert_eq!(outcome, DaProposalRecvOutcome::Validated);
        let acted = node.da.handle_da_proposal_validated(
            &mut node.consensus,
            &mut node.storage,
            &net.membership,
            &net.membership,
            &da_proposal,
        );
        match acted {
            DaValidatedOutcome::Vote(vote) => votes.push(vote),
            other => panic!("expected a DA vote, got {:?}", other),
        }
        // derive this node's dispersal share from the payload
        assert!(node.consensus.calculate_and_update_vid(view, node.id).is_some());
    }
    // the DA leader accumulates the votes into a certificate
    let mut cert = None;
    for vote in &votes {
        let formed = {
            let node = &mut net.nodes[da_leader];
            node.da.handle_da_vote_recv(&net.membership, vote)
        };
        if let Some(c) = formed {
            cert = Some(c);
            break;
        }
    }
    let cert = cert.expect("the DA votes of the whole committee must form a certificate");
    assert_eq!(cert.view_number, view);
    // the certificate spreads; every node records it and notes it for its vote
    for i in 0..n {
        let node = &mut net.nodes[i];
        node.consensus.update_saved_da_certs(cert);
        assert!(node.vote.on_da_certificate(view).is_none());
        assert!(node.vote.on_vid_share(view).is_none());
    }
    cert
}

/// Deliver a quorum proposal to every node; each validates it, votes, and
/// advances its decided chain, recording every newly decided view.
fn deliver_proposal(net: &mut Net, signed: &Proposal<QuorumProposal>, sender: u64) -> Vec<QuorumVote> {
    let n = net.nodes.len();
    let view = signed.data.view_number;
    let mut votes = Vec::new();
    for i in 0..n {
        let node = &mut net.nodes[i];
        let validity = node
            .recv
            .handle_quorum_proposal_recv(
                &mut node.consensus,
                &mut node.storage,
                &net.membership,
                &net.membership,
                signed,
                sender,
            )
            .expect("a well-formed proposal validates");
        assert_eq!(validity, QuorumProposalValidity::Fully);
        node.da.handle_view_change(view);
        let leaf = signed.data.to_leaf();
        let prev_anchor = node.consensus.last_decided_view();
        let _decide = process_decide(&mut node.consensus, &leaf);
        let new_anchor = node.consensus.last_decided_view();
        if new_anchor > prev_anchor {
            for (v, c) in net.proposed.iter() {
                if *v > prev_anchor && *v <= new_anchor {
                    node.decided.push((*v, *c));
                }
            }
        }
        if let Some(vote) = node.vote.on_proposal_validated(view, leaf.commit()) {
            votes.push(vote);
        }
    }
    votes
}

/// Form the quorum certificate for a view from its votes, at the next
/// view's leader, and announce it to everyone.
fn form_and_spread_qc(net: &mut Net, view: u64, votes: &[QuorumVote]) -> QuorumCertificate {
    let mut acc = VoteAccumulator::new(TAG_QUORUM, view);
    let mut formed = None;
    for vote in votes {
        match acc.accumulate(&net.membership, &vote.leaf_commit, view, vote.signer, &vote.signature)
        {
            AccumulateResult::Formed(sig) => {
                formed = Some(QuorumCertificate {
                    leaf_commit: vote.leaf_commit,
                    view_number: view,
                    signature: Some(sig),
                    is_genesis: false,
                });
                break;
            }
            AccumulateResult::Accepted | AccumulateResult::Duplicate => {}
            other => panic!("unexpected accumulation outcome {:?}", other),
        }
    }
    let qc = formed.expect("the quorum votes must form a certificate");
    for node in net.nodes.iter_mut() {
        let outcome = node.consensus.update_high_qc(qc);
        assert!(outcome == UpdateOutcome::Applied || outcome == UpdateOutcome::Stale);
    }
    qc
}

/// Let the leader of `view` gather its dependencies and publish.
fn publish_at_leader(
    net: &mut Net,
    view: u64,
    payload_commitment: Commit,
    qc_seed: &QuorumCertificate,
    witness_view: Option<u64>,
    timeout_cert: Option<hotshot_core::data::TimeoutCertificate>,
) -> Proposal<QuorumProposal> {
    let leader = net.membership.leader(view) as usize;
    let membership = &net.membership;
    let mut completed = None;
    {
        let node = &mut net.nodes[leader];
        if let Some(tc) = &timeout_cert {
            if let Some((v, d)) = node.proposal.on_timeout_cert(membership, tc) {
                assert_eq!(v, view);
                completed = Some(d);
            }
        } else {
            if let Some((v, d)) = node.proposal.on_update_high_qc(membership, qc_seed) {
                assert_eq!(v, view);
                completed = Some(d);
            }
        }
        if let Some(w) = witness_view {
            if let Some((v, d)) = node.proposal.on_quorum_proposal_recv(membership, w) {
                assert_eq!(v, view);
                completed = Some(d);
            }
        }
        let payload = CommitmentAndMetadata {
            commitment: payload_commitment,
            builder_commitment: zero_commit(),
            metadata: Vec::new(),
            fee: 0,
            block_view: view,
        };
        if let Some(d) = node.proposal.on_payload_commitment(membership, payload) {
            completed = Some(d);
        }
        if let Some(d) = node.proposal.on_vid_share_send(membership, view) {
            completed = Some(d);
        }
    }
    let deps = completed.expect("the dependency must complete once everything arrived");
    let node = &mut net.nodes[leader];
    let signed = node
        .proposal
        .publish_proposal(&mut node.consensus, view, &deps)
        .expect("publishing must succeed with the parent at hand");
    assert!(node.proposal.update_latest_proposed_view(view));
    let commit = signed.data.to_leaf().commit();
    net.proposed.push((view, commit));
    signed
}

#[test]
fn happy_path_four_nodes_decides_every_view() {
    let mut net = setup(4);
    assert_eq!(net.membership.success_threshold(), 3);
    let mut qc = QuorumCertificate {
        leaf_commit: genesis_leaf().commit(),
        view_number: 0,
        signature: None,
        is_genesis: true,
    };
    // the threshold arithmetic dominates the run; the horizon is chosen so
    // the whole exchange fits the test budget
    let horizon = 5u64;
    for view in 1..=horizon {
        let tx = vec![view as u8];
        let _da_cert = run_da_phase(&mut net, view, &tx);
        let payload_commitment = hotshot_core::data::compute_commit(&tx);
        let witness = if view >= 2 { Some(view - 1) } else { None };
        let signed = publish_at_leader(&mut net, view, payload_commitment, &qc, witness, None);
        let sender = net.membership.leader(view);
        let votes = deliver_proposal(&mut net, &signed, sender);
        assert_eq!(votes.len(), 4, "every node votes in a happy view");
        qc = form_and_spread_qc(&mut net, view, &votes);
    }
    // every view up to the horizon's three-chain tail decides at every
    // node, in ascending view order, and the chains agree across nodes
    let expected: Vec<u64> = (1..=horizon - 2).collect();
    let reference: Vec<(u64, Commit)> = net.nodes[0].decided.clone();
    assert_eq!(reference.iter().map(|d| d.0).collect::<Vec<_>>(), expected);
    for node in &net.nodes {
        assert_eq!(node.decided, reference, "decided leaves must match across nodes");
        assert_eq!(node.consensus.last_decided_view(), horizon - 2);
        let anchor = node.consensus.decided_leaf().expect("the anchor chain is intact");
        assert_eq!(anchor.view_number, horizon - 2);
    }
}

#[test]
fn timeout_view_then_resume() {
    let mut net = setup(4);
    // view 1 proceeds normally
    let tx1 = vec![1u8];
    run_da_phase(&mut net, 1, &tx1);
    let genesis_qc = QuorumCertificate {
        leaf_commit: genesis_leaf().commit(),
        view_number: 0,
        signature: None,
        is_genesis: true,
    };
    let c1 = hotshot_core::data::compute_commit(&tx1);
    let signed1 = publish_at_leader(&mut net, 1, c1, &genesis_qc, None, None);
    let sender1 = net.membership.leader(1);
    let votes1 = deliver_proposal(&mut net, &signed1, sender1);
    let qc1 = form_and_spread_qc(&mut net, 1, &votes1);

    // the view-2 proposal is suppressed: every node times out of view 2 and
    // a timeout certificate forms at the next leader
    let relay = net.membership.leader(3) as usize;
    let mut tc = None;
    for i in 0..4usize {
        let vote = make_timeout_vote(&net.nodes[i].vote.private_key, i as u64, 2);
        let formed = net.nodes[relay].timeout.handle_timeout_vote_recv(&net.membership, &vote);
        if let Some(c) = formed {
            tc = Some(c);
        }
    }
    let tc = tc.expect("the timeout votes must form a certificate");
    assert_eq!(tc.view_number, 2);

    // view 3 runs on the timeout evidence; its parent is the view-1 leaf
    let tx3 = vec![3u8];
    run_da_phase(&mut net, 3, &tx3);
    let c3 = hotshot_core::data::compute_commit(&tx3);
    let signed3 = publish_at_leader(&mut net, 3, c3, &qc1, None, Some(tc));
    assert!(signed3.data.proposal_certificate.is_some());
    let sender3 = net.membership.leader(3);
    let votes3 = deliver_proposal(&mut net, &signed3, sender3);
    let mut qc = form_and_spread_qc(&mut net, 3, &votes3);

    // later views decide normally again
    for view in 4..=5u64 {
        let tx = vec![view as u8];
        run_da_phase(&mut net, view, &tx);
        let c = hotshot_core::data::compute_commit(&tx);
        let signed = publish_at_leader(&mut net, view, c, &qc, Some(view - 1), None);
        let sender = net.membership.leader(view);
        let votes = deliver_proposal(&mut net, &signed, sender);
        qc = form_and_spread_qc(&mut net, view, &votes);
    }
    // view 2 is the one failed view: it never appears among the decides,
    // while the views around it do
    for node in &net.nodes {
        let decided: Vec<u64> = node.decided.iter().map(|d| d.0).collect();
        assert!(!decided.contains(&2), "the timed-out view must not decide");
        assert_eq!(decided, vec![1, 3]);
    }
}
