//! Unit tests for the consensus state, the accumulator, the DA task, the
//! wire codec, and the supporting types.

use hotshot_core::accumulator::{AccumulateResult, VoteAccumulator};
use hotshot_core::codec::{deserialize_message, serialize_message, CodecError};
use hotshot_core::consensus::{Consensus, UpdateOutcome, ViewEntry};
use hotshot_core::crypto::shuffle_ids;
use hotshot_core::da::{DaProposalRecvOutcome, DaTaskState};
use hotshot_core::data::{
    genesis_leaf,
    compute_commit, vote_payload, BlockHeader, Commit, DaProposal, DaVote, Leaf, Proposal,
    QuorumCertificate, QuorumProposal, QuorumVote, TimeoutVote, UpgradeCertificate, Version,
    VidDisperseShare, ViewChangeEvidence, TimeoutCertificate, TAG_DA, TAG_QUORUM,
};
use hotshot_core::membership::Membership;
use hotshot_core::message::{
    DaConsensusMessage, DataMessage, DataRequest, GeneralConsensusMessage, Message, MessageKind,
    MessagePurpose, RequestKind, ResponseMessage, SequencingMessage,
};
use hotshot_core::network::{
    AsynchronousNetwork, PartiallySynchronousNetwork, SynchronousNetwork,
};
use hotshot_core::node_types::OverallSafetyPropertiesDescription;
use hotshot_core::storage::MemoryStorage;
use hotshot_core::channel::{BroadcastBuffer, BusCursor, BusPoll};
use hotshot_core::quorum_proposal::{CommitmentAndMetadata, QuorumProposalTaskState};
use hotshot_core::quorum_proposal_recv::{ProposalRecvError, QuorumProposalRecvTaskState};
use hotshot_core::quorum_vote::process_decide;
use hotshot_core::view_change::next_timeout;

fn zero_commit() -> Commit {
    Commit { w0: 0, w1: 0, w2: 0, w3: 0 }
}

fn some_commit(x: u64) -> Commit {
    Commit { w0: x, w1: x + 1, w2: x + 2, w3: x + 3 }
}


fn fresh_consensus() -> Consensus {
    let anchor = genesis_leaf();
    let qc = QuorumCertificate {
        leaf_commit: anchor.commit(),
        view_number: 0,
        signature: None,
        is_genesis: true,
    };
    Consensus::new(anchor, qc, 0)
}

fn membership4() -> (Membership, threshold_crypto::SecretKeySet) {
    let sk_set = threshold_crypto::SecretKeySet::random(2, &mut rand::thread_rng());
    let pk_set = sk_set.public_keys();
    (Membership::new(vec![0, 1, 2, 3], pk_set), sk_set)
}

#[test]
fn success_threshold_is_two_thirds_plus_one() {
    let (m, _) = membership4();
    assert_eq!(m.total_nodes(), 4);
    assert_eq!(m.success_threshold(), 2 * 4 / 3 + 1);
    assert_eq!(m.success_threshold(), 3);
}

#[test]
fn leader_rotates_round_robin() {
    let (m, _) = membership4();
    assert_eq!(m.leader(0), 0);
    assert_eq!(m.leader(1), 1);
    assert_eq!(m.leader(4), 0);
    assert_eq!(m.leader(7), 3);
    assert!(m.has_stake(2));
    assert!(!m.has_stake(4));
}

#[test]
fn view_ordering_invariant_holds() {
    let mut c = fresh_consensus();
    assert_eq!(c.cur_view(), 0);
    assert_eq!(c.locked_view(), 0);
    assert_eq!(c.last_decided_view(), 0);
    assert_eq!(c.update_view(3), UpdateOutcome::Applied);
    let qc = QuorumCertificate {
        leaf_commit: some_commit(9),
        view_number: 2,
        signature: None,
        is_genesis: false,
    };
    assert_eq!(c.update_high_qc(qc), UpdateOutcome::Applied);
    assert_eq!(c.update_locked_view(1), UpdateOutcome::Applied);
    // locked <= high <= cur at every observable point
    assert!(c.locked_view() <= c.high_qc().view_number);
    assert!(c.high_qc().view_number <= c.cur_view());
}

#[test]
fn repeated_high_qc_update_is_a_no_op() {
    let mut c = fresh_consensus();
    let qc = QuorumCertificate {
        leaf_commit: some_commit(1),
        view_number: 4,
        signature: None,
        is_genesis: false,
    };
    assert_eq!(c.update_high_qc(qc), UpdateOutcome::Applied);
    let high = c.high_qc();
    assert_eq!(c.update_high_qc(qc), UpdateOutcome::Stale);
    assert_eq!(c.high_qc(), high);
    // a lower certificate is stale too
    let lower = QuorumCertificate {
        leaf_commit: some_commit(2),
        view_number: 3,
        signature: None,
        is_genesis: false,
    };
    assert_eq!(c.update_high_qc(lower), UpdateOutcome::Stale);
    assert_eq!(c.high_qc(), high);
}

#[test]
fn repeated_equal_payload_is_a_no_op_and_conflicts_are_refused() {
    let mut c = fresh_consensus();
    assert_eq!(c.update_saved_payloads(5, vec![1, 2, 3]), UpdateOutcome::Applied);
    assert_eq!(c.update_saved_payloads(5, vec![1, 2, 3]), UpdateOutcome::Stale);
    assert_eq!(c.update_saved_payloads(5, vec![9, 9]), UpdateOutcome::Conflict);
    assert_eq!(c.saved_payload(5).unwrap(), vec![1, 2, 3]);
}

#[test]
fn at_most_one_proposal_accepted_per_view() {
    let mut c = fresh_consensus();
    let make = |tag: u8| Proposal {
        data: QuorumProposal {
            block_header: BlockHeader {
                block_number: 1,
                payload_commitment: some_commit(tag as u64),
                builder_commitment: zero_commit(),
                metadata: Vec::new(),
            },
            view_number: 3,
            justify_qc: QuorumCertificate {
                leaf_commit: zero_commit(),
                view_number: 2,
                signature: None,
                is_genesis: false,
            },
            upgrade_certificate: None,
            proposal_certificate: None,
        },
        signature: [0u8; 96],
    };
    assert_eq!(c.update_last_proposed_view(make(1)), UpdateOutcome::Applied);
    // a second proposal for the same view is stale, whatever it holds
    assert_eq!(c.update_last_proposed_view(make(2)), UpdateOutcome::Stale);
    // and so is one for a lower view
    let mut lower = make(3);
    lower.data.view_number = 2;
    assert_eq!(c.update_last_proposed_view(lower), UpdateOutcome::Stale);
    let held = c.last_proposal(3).unwrap();
    assert_eq!(held.data.block_header.payload_commitment, some_commit(1));
}

#[test]
fn leaf_entry_is_not_overwritten_by_failure() {
    let mut c = fresh_consensus();
    let entry = ViewEntry::Leaf { leaf_commit: some_commit(4) };
    assert_eq!(c.update_validated_state_map(2, entry), UpdateOutcome::Applied);
    assert_eq!(c.update_validated_state_map(2, ViewEntry::Failed), UpdateOutcome::Conflict);
    match c.validated_state_entry(2) {
        Some(ViewEntry::Leaf { leaf_commit }) => assert_eq!(*leaf_commit, some_commit(4)),
        other => panic!("expected the leaf entry to survive, got {:?}", other),
    }
    // another leaf entry is the last writer and wins
    let newer = ViewEntry::Leaf { leaf_commit: some_commit(5) };
    assert_eq!(c.update_validated_state_map(2, newer), UpdateOutcome::Applied);
}

#[test]
fn vid_share_derivation_is_memoized() {
    let mut c = fresh_consensus();
    assert!(c.calculate_and_update_vid(3, 0).is_none(), "no payload yet");
    assert_eq!(c.update_saved_payloads(3, b"payload".to_vec()), UpdateOutcome::Applied);
    assert!(c.calculate_and_update_vid(3, 0).is_some());
    let first = c.vid_share(3, 0).unwrap().data.share.clone();
    assert_eq!(first, b"payload".to_vec());
    // a second derivation is a no-op
    assert!(c.calculate_and_update_vid(3, 0).is_some());
    assert_eq!(c.vid_share(3, 0).unwrap().data.share, first);
    assert_eq!(
        c.vid_share(3, 0).unwrap().data.payload_commitment,
        compute_commit(&b"payload".to_vec())
    );
}

#[test]
fn garbage_collection_drops_views_below_the_anchor() {
    let mut c = fresh_consensus();
    c.update_saved_payloads(1, vec![1]);
    c.update_saved_payloads(2, vec![2]);
    c.update_saved_payloads(3, vec![3]);
    let qc = QuorumCertificate {
        leaf_commit: some_commit(1),
        view_number: 3,
        signature: None,
        is_genesis: false,
    };
    assert_eq!(c.update_high_qc(qc), UpdateOutcome::Applied);
    assert_eq!(c.update_locked_view(2), UpdateOutcome::Applied);
    assert_eq!(c.advance_anchor(2), UpdateOutcome::Applied);
    assert_eq!(c.last_decided_view(), 2);
    assert!(!c.has_payload(1));
    assert!(c.has_payload(2));
    assert!(c.has_payload(3));
    // a non-increasing anchor is stale
    assert_eq!(c.advance_anchor(2), UpdateOutcome::Stale);
}

#[test]
fn accumulator_enforces_committee_and_uniqueness() {
    let (m, sk_set) = membership4();
    let commit = some_commit(7);
    let view = 6u64;
    let sign = |i: u64| {
        let payload = vote_payload(TAG_DA, &commit, view);
        hotshot_core::crypto::sign_share(&sk_set.secret_key_share(i), &payload)
    };
    let mut acc = VoteAccumulator::new(TAG_DA, view);
    assert!(matches!(
        acc.accumulate(&m, &commit, 5, 0, &sign(0)),
        AccumulateResult::WrongView
    ));
    assert!(matches!(
        acc.accumulate(&m, &commit, view, 11, &sign(11)),
        AccumulateResult::NotInCommittee
    ));
    assert!(matches!(acc.accumulate(&m, &commit, view, 0, &sign(0)), AccumulateResult::Accepted));
    assert!(matches!(
        acc.accumulate(&m, &commit, view, 0, &sign(0)),
        AccumulateResult::Duplicate
    ));
    // a share by the wrong key is an invalid signature
    assert!(matches!(
        acc.accumulate(&m, &commit, view, 1, &sign(2)),
        AccumulateResult::InvalidSignature
    ));
    assert!(matches!(acc.accumulate(&m, &commit, view, 1, &sign(1)), AccumulateResult::Accepted));
    // the third distinct valid share reaches the threshold of three
    let formed = acc.accumulate(&m, &commit, view, 2, &sign(2));
    let signature = match formed {
        AccumulateResult::Formed(s) => s,
        other => panic!("expected the certificate to form, got {:?}", other),
    };
    assert!(m.check_certificate_signature(TAG_DA, &commit, view, &signature));
    // the combined signature does not verify against another view
    assert!(!m.check_certificate_signature(TAG_DA, &commit, view + 1, &signature));
}

#[test]
fn da_proposal_validation_rejects_what_it_must() {
    let (m, sk_set) = membership4();
    let consensus = fresh_consensus();
    let da = DaTaskState {
        cur_view: 5,
        public_key: 0,
        private_key: sk_set.secret_key_share(0),
        vote_collector: None,
    };
    let leader = m.leader(5);
    let proposer = DaTaskState {
        cur_view: 5,
        public_key: leader,
        private_key: sk_set.secret_key_share(leader),
        vote_collector: None,
    };
    let proposal = proposer.handle_block_recv(&b"txns".to_vec(), &Vec::new(), 5);
    // an old proposal is dropped
    let old = proposer.handle_block_recv(&b"txns".to_vec(), &Vec::new(), 3);
    assert_eq!(
        da.handle_da_proposal_recv(&consensus, &m, &old, leader),
        DaProposalRecvOutcome::TooOld
    );
    // the wrong sender is dropped
    let not_leader = (leader + 1) % 4;
    assert_eq!(
        da.handle_da_proposal_recv(&consensus, &m, &proposal, not_leader),
        DaProposalRecvOutcome::WrongLeader
    );
    // a corrupted signature is dropped
    let mut corrupted = proposal.dup();
    corrupted.signature[0] ^= 0x01;
    assert_eq!(
        da.handle_da_proposal_recv(&consensus, &m, &corrupted, leader),
        DaProposalRecvOutcome::InvalidSignature
    );
    // the well-formed proposal from the leader validates
    assert_eq!(
        da.handle_da_proposal_recv(&consensus, &m, &proposal, leader),
        DaProposalRecvOutcome::Validated
    );
}

#[test]
fn codec_round_trips_every_message_kind() {
    let qc = QuorumCertificate {
        leaf_commit: some_commit(1),
        view_number: 4,
        signature: Some([7u8; 96]),
        is_genesis: false,
    };
    let proposal = Proposal {
        data: QuorumProposal {
            block_header: BlockHeader {
                block_number: 5,
                payload_commitment: some_commit(2),
                builder_commitment: some_commit(3),
                metadata: vec![1, 2, 3],
            },
            view_number: 5,
            justify_qc: qc,
            upgrade_certificate: Some(UpgradeCertificate {
                old_version: Version { major: 0, minor: 1 },
                new_version: Version { major: 0, minor: 2 },
                new_version_first_view: 9,
                view_number: 5,
                signature: Some([9u8; 96]),
            }),
            proposal_certificate: Some(ViewChangeEvidence::Timeout(TimeoutCertificate {
                view_number: 4,
                signature: Some([8u8; 96]),
            })),
        },
        signature: [1u8; 96],
    };
    let messages = vec![
        Message {
            sender: 2,
            kind: MessageKind::Consensus(SequencingMessage::General(
                GeneralConsensusMessage::Proposal(proposal),
            )),
        },
        Message {
            sender: 0,
            kind: MessageKind::Consensus(SequencingMessage::General(
                GeneralConsensusMessage::Vote(QuorumVote {
                    leaf_commit: some_commit(4),
                    view_number: 5,
                    signer: 0,
                    signature: [2u8; 96],
                }),
            )),
        },
        Message {
            sender: 1,
            kind: MessageKind::Consensus(SequencingMessage::General(
                GeneralConsensusMessage::TimeoutVote(TimeoutVote {
                    view_number: 6,
                    signer: 1,
                    signature: [3u8; 96],
                }),
            )),
        },
        Message {
            sender: 3,
            kind: MessageKind::Consensus(SequencingMessage::Da(DaConsensusMessage::DaProposal(
                Proposal {
                    data: DaProposal {
                        encoded_transactions: vec![9, 8, 7],
                        metadata: vec![6],
                        view_number: 7,
                    },
                    signature: [4u8; 96],
                },
            ))),
        },
        Message {
            sender: 3,
            kind: MessageKind::Consensus(SequencingMessage::Da(
                DaConsensusMessage::VidDisperseMsg(Proposal {
                    data: VidDisperseShare {
                        view_number: 8,
                        payload_commitment: some_commit(5),
                        share: vec![1, 1, 2, 3, 5],
                        recipient_key: 2,
                    },
                    signature: [5u8; 96],
                }),
            )),
        },
        Message {
            sender: 2,
            kind: MessageKind::Data(DataMessage::SubmitTransaction(vec![42], 9)),
        },
        Message {
            sender: 2,
            kind: MessageKind::Data(DataMessage::RequestData(DataRequest {
                request: RequestKind::Vid(9, 2),
                view: 9,
                signature: [6u8; 96],
            })),
        },
        Message {
            sender: 2,
            kind: MessageKind::Data(DataMessage::DataResponse(ResponseMessage::NotFound)),
        },
        Message {
            sender: 2,
            kind: MessageKind::Data(DataMessage::DataResponse(ResponseMessage::Denied)),
        },
    ];
    for message in messages {
        let bytes = serialize_message(&message, &None).expect("the base version always encodes");
        let back = deserialize_message(&bytes, &None).expect("the encoding decodes");
        assert_eq!(back, message, "the round trip must return the same message");
    }
}

#[test]
fn truncated_and_trailing_bytes_are_malformed() {
    let message = Message {
        sender: 2,
        kind: MessageKind::Data(DataMessage::SubmitTransaction(vec![42], 9)),
    };
    let bytes = serialize_message(&message, &None).unwrap();
    let truncated: Vec<u8> = bytes[..bytes.len() - 1].to_vec();
    assert_eq!(deserialize_message(&truncated, &None).unwrap_err(), CodecError::MalformedMessage);
    let mut trailing = bytes.clone();
    trailing.push(0);
    assert_eq!(deserialize_message(&trailing, &None).unwrap_err(), CodecError::MalformedMessage);
    let mut unknown_version = bytes;
    unknown_version[1] = 9;
    assert_eq!(
        deserialize_message(&unknown_version, &None).unwrap_err(),
        CodecError::UnsupportedVersion
    );
}

#[test]
fn message_views_and_purposes() {
    let vote = Message {
        sender: 0,
        kind: MessageKind::Consensus(SequencingMessage::General(GeneralConsensusMessage::Vote(
            QuorumVote {
                leaf_commit: zero_commit(),
                view_number: 12,
                signer: 0,
                signature: [0u8; 96],
            },
        ))),
    };
    assert_eq!(vote.view_number(), 12);
    assert_eq!(vote.kind.purpose(), MessagePurpose::Vote);
    let not_found = Message {
        sender: 0,
        kind: MessageKind::Data(DataMessage::DataResponse(ResponseMessage::NotFound)),
    };
    // a response that found nothing has no view of its own and reports one
    assert_eq!(not_found.view_number(), 1);
    assert_eq!(not_found.kind.purpose(), MessagePurpose::Data);
    let da_vote = Message {
        sender: 0,
        kind: MessageKind::Consensus(SequencingMessage::Da(DaConsensusMessage::DaVote(DaVote {
            payload_commit: zero_commit(),
            view_number: 3,
            signer: 1,
            signature: [0u8; 96],
        }))),
    };
    assert_eq!(da_vote.view_number(), 3);
    assert_eq!(da_vote.kind.purpose(), MessagePurpose::Vote);
}

#[test]
fn timeout_backoff_scales_and_saturates() {
    assert_eq!(next_timeout(10_000, 11, 10), 11_000);
    assert_eq!(next_timeout(9, 2, 3), 6);
    assert_eq!(next_timeout(u64::MAX, 3, 1), u64::MAX);
    assert_eq!(next_timeout(0, 5, 2), 0);
}

#[test]
fn leaf_commitments_are_deterministic_and_content_bound() {
    let a = genesis_leaf();
    let b = genesis_leaf();
    assert_eq!(a.commit(), b.commit());
    let mut c = genesis_leaf();
    c.view_number = 1;
    assert_ne!(a.commit(), c.commit());
    let mut d = genesis_leaf();
    d.block_header.metadata = vec![1];
    assert_ne!(a.commit(), d.commit());
}

#[test]
fn network_constructors_hold_their_fields() {
    let synchronous = SynchronousNetwork::new(20, 5);
    assert_eq!(synchronous.delay_high_ms, 20);
    assert_eq!(synchronous.delay_low_ms, 5);
    let asynchronous = AsynchronousNetwork::new(3, 4, 1, 9);
    assert_eq!(asynchronous.keep_numerator, 3);
    assert_eq!(asynchronous.keep_denominator, 4);
    let partial = PartiallySynchronousNetwork::new(asynchronous, synchronous, 1000);
    assert_eq!(partial.gst_ms, 1000);
    let d = synchronous.sample_delay_ms();
    assert!((5..=20).contains(&d));
    let p = partial.sample_delay_ms(2000);
    assert!(p <= 20);
}

#[test]
fn shuffling_keeps_the_committee() {
    let mut ids: Vec<u64> = (0..10).collect();
    shuffle_ids(&mut ids);
    let mut sorted = ids.clone();
    sorted.sort_unstable();
    assert_eq!(sorted, (0..10).collect::<Vec<u64>>());
}

#[test]
fn overall_safety_defaults_are_strict() {
    let d = OverallSafetyPropertiesDescription::default();
    assert_eq!(d.num_successful_views, 50);
    assert!(!d.check_leaf);
    assert!(d.check_block);
    assert_eq!(d.transaction_threshold, 0);
    assert_eq!(d.num_failed_views, 0);
}

#[test]
fn storage_appends_in_order() {
    let mut s = MemoryStorage::new();
    let p = Proposal {
        data: DaProposal {
            encoded_transactions: vec![1],
            metadata: vec![],
            view_number: 1,
        },
        signature: [0u8; 96],
    };
    assert!(s.append_da(p).is_ok());
    let qc = QuorumCertificate {
        leaf_commit: zero_commit(),
        view_number: 1,
        signature: None,
        is_genesis: false,
    };
    assert!(s.update_high_qc(qc).is_ok());
    assert!(s.update_undecided_state().is_ok());
}

#[test]
fn broadcast_buffer_keeps_order_and_detects_loss() {
    let mut bus: BroadcastBuffer<u64> = BroadcastBuffer::new(3);
    let mut cursor = BusCursor::new(&bus);
    assert_eq!(bus.publish(10), 0);
    assert_eq!(bus.publish(11), 1);
    // the consumer reads in publication order
    match cursor.poll(&bus) {
        BusPoll::Item(v) => assert_eq!(*v, 10),
        _ => panic!("expected the first entry"),
    }
    match cursor.poll(&bus) {
        BusPoll::Item(v) => assert_eq!(*v, 11),
        _ => panic!("expected the second entry"),
    }
    assert!(matches!(cursor.poll(&bus), BusPoll::Empty));
    // the producer is never blocked: beyond the bound the oldest entry is
    // discarded and the loss is reported to the lagging consumer
    let mut lagging = BusCursor::new(&bus);
    assert_eq!(lagging.next, 2);
    for x in 12..17u64 {
        bus.publish(x);
    }
    assert_eq!(bus.len(), 3);
    assert_eq!(bus.first_seq(), 4);
    match lagging.poll(&bus) {
        BusPoll::Lagged(missed) => assert_eq!(missed, 2),
        _ => panic!("expected the loss to be detected"),
    }
    match lagging.poll(&bus) {
        BusPoll::Item(v) => assert_eq!(*v, 14),
        _ => panic!("expected the oldest retained entry"),
    }
}

#[test]
fn duplicate_payload_and_committee_gates() {
    let (m, sk_set) = membership4();
    let mut consensus = fresh_consensus();
    let leader = m.leader(5);
    let proposer = DaTaskState {
        cur_view: 5,
        public_key: leader,
        private_key: sk_set.secret_key_share(leader),
        vote_collector: None,
    };
    let proposal = proposer.handle_block_recv(&b"txns".to_vec(), &Vec::new(), 5);
    // once a payload is recorded for the view, a second proposal is dropped,
    // so the node votes at most once per view on the DA path
    assert_eq!(consensus.update_saved_payloads(5, b"txns".to_vec()), UpdateOutcome::Applied);
    assert_eq!(
        proposer.handle_da_proposal_recv(&consensus, &m, &proposal, leader),
        DaProposalRecvOutcome::DuplicatePayload
    );
    // a node without stake observes a validated proposal but does not vote
    let outsider = DaTaskState {
        cur_view: 5,
        public_key: 9,
        private_key: sk_set.secret_key_share(9u64),
        vote_collector: None,
    };
    let mut fresh = fresh_consensus();
    let mut storage = MemoryStorage::new();
    let acted = outsider.handle_da_proposal_validated(
        &mut fresh,
        &mut storage,
        &m,
        &m,
        &proposal,
    );
    assert!(matches!(acted, hotshot_core::da::DaValidatedOutcome::NotInCommittee));
    // a proposal two views behind the current one is dropped outright
    let mut lagging = fresh_consensus();
    assert_eq!(lagging.update_view(9), UpdateOutcome::Applied);
    let late = DaTaskState {
        cur_view: 9,
        public_key: 0,
        private_key: sk_set.secret_key_share(0u64),
        vote_collector: None,
    };
    let acted_late = late.handle_da_proposal_validated(
        &mut lagging,
        &mut storage,
        &m,
        &m,
        &proposal,
    );
    assert!(matches!(acted_late, hotshot_core::da::DaValidatedOutcome::TooOld));
}

#[test]
fn proposal_view_and_cert_gates() {
    let (m, _sk_set) = membership4();
    let recv = QuorumProposalRecvTaskState { cur_view: 4, public_key: 0 };
    let make = |view: u64, justify_view: u64| Proposal {
        data: QuorumProposal {
            block_header: BlockHeader {
                block_number: 1,
                payload_commitment: zero_commit(),
                builder_commitment: zero_commit(),
                metadata: Vec::new(),
            },
            view_number: view,
            justify_qc: QuorumCertificate {
                leaf_commit: zero_commit(),
                view_number: justify_view,
                signature: None,
                is_genesis: false,
            },
            upgrade_certificate: None,
            proposal_certificate: None,
        },
        signature: [0u8; 96],
    };
    // not from the view's leader
    let p = make(5, 4);
    let not_leader = (m.leader(5) + 1) % 4;
    assert_eq!(
        recv.validate_proposal_view_and_certs(&m, &m, &p, not_leader),
        Err(ProposalRecvError::WrongLeader)
    );
    // behind the current view
    let stale = make(3, 2);
    assert_eq!(
        recv.validate_proposal_view_and_certs(&m, &m, &stale, m.leader(3)),
        Err(ProposalRecvError::StaleView)
    );
    // a gap to the justifying certificate without any evidence
    let gap = make(6, 3);
    assert_eq!(
        recv.validate_proposal_view_and_certs(&m, &m, &gap, m.leader(6)),
        Err(ProposalRecvError::BadJustifyView)
    );
    // timeout evidence for the wrong view does not bridge the gap
    let mut wrong_evidence = make(6, 3);
    wrong_evidence.data.proposal_certificate =
        Some(ViewChangeEvidence::Timeout(TimeoutCertificate {
            view_number: 3,
            signature: Some([0u8; 96]),
        }));
    assert_eq!(
        recv.validate_proposal_view_and_certs(&m, &m, &wrong_evidence, m.leader(6)),
        Err(ProposalRecvError::BadJustifyView)
    );
    // a consecutive justifying certificate passes the structural checks
    let fine = make(5, 4);
    assert_eq!(recv.validate_proposal_view_and_certs(&m, &m, &fine, m.leader(5)), Ok(()));
}

#[test]
fn chain_rules_lock_and_decide() {
    let mut c = fresh_consensus();
    let anchor = genesis_leaf();
    let make_leaf = |view: u64, parent: &Leaf| Leaf {
        view_number: view,
        justify_qc: QuorumCertificate {
            leaf_commit: parent.commit(),
            view_number: view - 1,
            signature: None,
            is_genesis: false,
        },
        parent_commitment: parent.commit(),
        block_header: BlockHeader {
            block_number: view,
            payload_commitment: some_commit(view),
            builder_commitment: zero_commit(),
            metadata: Vec::new(),
        },
        block_payload: None,
        upgrade_certificate: None,
    };
    let l1 = make_leaf(1, &anchor);
    let l2 = make_leaf(2, &l1);
    let l3 = make_leaf(3, &l2);
    c.update_saved_leaves(l1.dup());
    c.update_saved_leaves(l2.dup());
    let qc2 = QuorumCertificate {
        leaf_commit: l1.commit(),
        view_number: 2,
        signature: None,
        is_genesis: false,
    };
    assert_eq!(c.update_high_qc(qc2), UpdateOutcome::Applied);
    // a leaf with an unknown parent advances nothing
    let orphan = make_leaf(9, &l3);
    let none = process_decide(&mut c, &orphan);
    assert!(none.new_locked_view.is_none() && none.new_decided_view.is_none());
    // the two-chain on leaf 2 locks view 1; its three-chain ends at the
    // genesis anchor, which cannot advance further
    let d2 = process_decide(&mut c, &l2);
    assert_eq!(d2.new_locked_view, Some(1));
    assert_eq!(d2.new_decided_view, Some(0));
    assert_eq!(c.locked_view(), 1);
    assert_eq!(c.last_decided_view(), 0);
    // the two-chain on leaf 3 locks view 2 and its three-chain decides
    // view 1, advancing the anchor
    c.update_saved_leaves(l3.dup());
    let d3 = process_decide(&mut c, &l3);
    assert_eq!(d3.new_locked_view, Some(2));
    assert_eq!(d3.new_decided_view, Some(1));
    assert_eq!(d3.decided_leaf_commit, Some(l1.commit()));
    assert_eq!(c.locked_view(), 2);
    assert_eq!(c.last_decided_view(), 1);
}

#[test]
fn timeout_certificate_seeds_the_next_proposal_dependency() {
    let (m, sk_set) = membership4();
    let leader3 = m.leader(3);
    let mut task = QuorumProposalTaskState {
        latest_proposed_view: 0,
        deps: hotshot_core::vmap::AssocMap::new(),
        public_key: leader3,
        private_key: sk_set.secret_key_share(leader3),
        round_start_delay: 1,
    };
    let tc = TimeoutCertificate { view_number: 2, signature: Some([0u8; 96]) };
    // the certificate alone does not complete the dependency, but it is
    // retained for the view after the timed-out one
    assert!(task.on_timeout_cert(&m, &tc).is_none());
    let payload = CommitmentAndMetadata {
        commitment: some_commit(3),
        builder_commitment: zero_commit(),
        metadata: Vec::new(),
        fee: 0,
        block_view: 3,
    };
    assert!(task.on_payload_commitment(&m, payload).is_none());
    // the dispersal share completes it: the handed-out state carries the
    // retained timeout certificate
    let deps = task
        .on_vid_share_send(&m, 3)
        .expect("the gathered dependency must complete");
    assert_eq!(deps.timeout_cert, Some(tc));
    assert!(deps.vid_share);
    assert!(deps.payload.is_some());
    // a node that does not lead the view gathers nothing
    let other = (leader3 + 1) % 4;
    let mut bystander = QuorumProposalTaskState {
        latest_proposed_view: 0,
        deps: hotshot_core::vmap::AssocMap::new(),
        public_key: other,
        private_key: sk_set.secret_key_share(other),
        round_start_delay: 1,
    };
    assert!(bystander.on_timeout_cert(&m, &tc).is_none());
    assert!(bystander.on_vid_share_send(&m, 3).is_none());
}
