//! Catch-up and request/response scenarios: the liveness-only path for an
//! orphan proposal, dispersal-share catch-up, request authentication, and
//! version rejection on the wire.

use hotshot_core::codec::{deserialize_message, serialize_message, CodecError};
use hotshot_core::consensus::Consensus;

use hotshot_core::data::{
    genesis_leaf,
    compute_commit, BlockHeader, Commit, Leaf, Proposal, QuorumCertificate, QuorumProposal,
    UpgradeCertificate, Version, VidDisperseShare,
};
use hotshot_core::membership::Membership;
use hotshot_core::message::{
    DaConsensusMessage, DataMessage, GeneralConsensusMessage, Message, MessageKind, RequestKind,
    ResponseMessage, SequencingMessage,
};
use hotshot_core::accumulator::{AccumulateResult, VoteAccumulator};
use hotshot_core::quorum_proposal_recv::{QuorumProposalRecvTaskState, QuorumProposalValidity};
use hotshot_core::request::{
    build_requests, make_vid_request, serialize_and_sign, should_cancel_vid_request,
};
use hotshot_core::response::handle_message;
use hotshot_core::storage::MemoryStorage;

fn zero_commit() -> Commit {
    Commit { w0: 0, w1: 0, w2: 0, w3: 0 }
}

fn fresh_consensus() -> Consensus {
    let anchor = genesis_leaf();
    let qc = QuorumCertificate {
        leaf_commit: anchor.commit(),
        view_number: 0,
        signature: None,
        is_genesis: true,
    };
    Consensus::new(anchor, qc, 0)
}

struct Keys {
    membership: Membership,
    sk_set: threshold_crypto::SecretKeySet,
}

fn keys(n: u64) -> Keys {
    let success = 2 * (n as usize) / 3 + 1;
    let sk_set = threshold_crypto::SecretKeySet::random(success - 1, &mut rand::thread_rng());
    let pk_set = sk_set.public_keys();
    let members: Vec<u64> = (0..n).collect();
    Keys { membership: Membership::new(members, pk_set), sk_set }
}

/// Sign a quorum proposal the way a leader does: over its leaf commitment.
fn sign_proposal(
    sk_set: &threshold_crypto::SecretKeySet,
    leader: u64,
    data: QuorumProposal,
) -> Proposal<QuorumProposal> {
    let commit = data.to_leaf().commit();
    let mut msg: Vec<u8> = Vec::new();
    hotshot_core::data::push_commit(&mut msg, &commit);
    let signature =
        hotshot_core::crypto::sign_share(&sk_set.secret_key_share(leader), &msg);
    Proposal { data, signature }
}

fn combine_qc(
    keys: &Keys,
    leaf_commit: Commit,
    view: u64,
) -> QuorumCertificate {
    let mut acc = VoteAccumulator::new(hotshot_core::data::TAG_QUORUM, view);
    let mut formed = None;
    for signer in 0..4u64 {
        let payload =
            hotshot_core::data::vote_payload(hotshot_core::data::TAG_QUORUM, &leaf_commit, view);
        let sig = hotshot_core::crypto::sign_share(&keys.sk_set.secret_key_share(signer), &payload);
        if let AccumulateResult::Formed(s) =
            acc.accumulate(&keys.membership, &leaf_commit, view, signer, &sig)
        {
            formed = Some(s);
        }
    }
    QuorumCertificate {
        leaf_commit,
        view_number: view,
        signature: Some(formed.expect("four shares form the certificate")),
        is_genesis: false,
    }
}

fn header_for(tx: &[u8], block_number: u64) -> BlockHeader {
    BlockHeader {
        block_number,
        payload_commitment: compute_commit(&tx.to_vec()),
        builder_commitment: zero_commit(),
        metadata: Vec::new(),
    }
}

/// A proposal delivered before its parent takes the liveness-only path,
/// records the state, and upgrades to full validity once the parent
/// arrives by catch-up.
#[test]
fn liveness_only_path_then_catch_up() {
    let keys = keys(4);
    let mut consensus = fresh_consensus();
    let mut storage = MemoryStorage::new();
    let mut recv = QuorumProposalRecvTaskState { cur_view: 0, public_key: 0 };

    // the chain: leaf 1 on genesis, leaf 2 on leaf 1, leaf 3 on leaf 2
    let genesis_qc = QuorumCertificate {
        leaf_commit: genesis_leaf().commit(),
        view_number: 0,
        signature: None,
        is_genesis: true,
    };
    let p1 = QuorumProposal {
        block_header: header_for(b"one", 1),
        view_number: 1,
        justify_qc: genesis_qc,
        upgrade_certificate: None,
        proposal_certificate: None,
    };
    let signed1 = sign_proposal(&keys.sk_set, keys.membership.leader(1), p1);
    let qc1 = combine_qc(&keys, signed1.data.to_leaf().commit(), 1);
    let p2 = QuorumProposal {
        block_header: header_for(b"two", 2),
        view_number: 2,
        justify_qc: qc1,
        upgrade_certificate: None,
        proposal_certificate: None,
    };
    let signed2 = sign_proposal(&keys.sk_set, keys.membership.leader(2), p2);
    let qc2 = combine_qc(&keys, signed2.data.to_leaf().commit(), 2);
    let p3 = QuorumProposal {
        block_header: header_for(b"three", 3),
        view_number: 3,
        justify_qc: qc2,
        upgrade_certificate: None,
        proposal_certificate: None,
    };
    let signed3 = sign_proposal(&keys.sk_set, keys.membership.leader(3), p3);

    // deliver the view-1 proposal, then the view-3 proposal before view 2:
    // the parent is missing, so only liveness can be checked
    let v1 = recv
        .handle_quorum_proposal_recv(
            &mut consensus,
            &mut storage,
            &keys.membership,
            &keys.membership,
            &signed1,
            keys.membership.leader(1),
        )
        .unwrap();
    assert_eq!(v1, QuorumProposalValidity::Fully);
    let v3 = recv
        .handle_quorum_proposal_recv(
            &mut consensus,
            &mut storage,
            &keys.membership,
            &keys.membership,
            &signed3,
            keys.membership.leader(3),
        )
        .unwrap();
    assert_eq!(v3, QuorumProposalValidity::Liveness);

    // the missing parent is fetched from a peer that proposed it
    let mut peer = fresh_consensus();
    assert_eq!(
        peer.update_last_proposed_view(signed2.dup()),
        hotshot_core::consensus::UpdateOutcome::Applied
    );
    let sk0 = keys.sk_set.secret_key_share(0);
    let signature = serialize_and_sign(&sk0, &RequestKind::Proposal(2));
    let request = hotshot_core::request::make_proposal_request(2, 0, signature);
    let raw = serialize_message(&request, &None).unwrap();
    let reply = handle_message(&mut peer, &keys.membership, &raw, 1, &None)
        .expect("a well-formed request draws a reply");
    let fetched = match reply.kind {
        MessageKind::Data(DataMessage::DataResponse(ResponseMessage::Found(
            SequencingMessage::General(GeneralConsensusMessage::Proposal(p)),
        ))) => p,
        other => panic!("expected the proposal, got {:?}", other),
    };
    assert_eq!(fetched, signed2);

    // with the parent recorded, re-processing the orphan validates fully;
    // the stale-view check is bypassed by processing the parent first
    let mut recv_fresh = QuorumProposalRecvTaskState { cur_view: 2, public_key: 0 };
    let v2 = recv_fresh
        .handle_quorum_proposal_recv(
            &mut consensus,
            &mut storage,
            &keys.membership,
            &keys.membership,
            &fetched,
            keys.membership.leader(2),
        )
        .unwrap();
    assert_eq!(v2, QuorumProposalValidity::Fully);
    let v3_again = recv_fresh
        .handle_quorum_proposal_recv(
            &mut consensus,
            &mut storage,
            &keys.membership,
            &keys.membership,
            &signed3,
            keys.membership.leader(3),
        )
        .unwrap();
    assert_eq!(v3_again, QuorumProposalValidity::Fully);
}

/// A node whose dispersal share was dropped requests it and receives it
/// from a peer that holds the payload.
#[test]
fn vid_catch_up() {
    let keys = keys(5);
    let view = 5u64;
    let me = 3u64;
    let payload = b"dispersed payload".to_vec();

    // this node misses the share, so it builds a request
    let mut mine = fresh_consensus();
    let reqs = build_requests(&mine, view, me);
    assert_eq!(reqs.len(), 1);
    assert_eq!(reqs[0], RequestKind::Vid(view, me));
    assert!(!should_cancel_vid_request(&mine, view, false));

    let sk_me = keys.sk_set.secret_key_share(me);
    let signature = serialize_and_sign(&sk_me, &reqs[0]);
    let request = make_vid_request(view, me, signature);
    let raw = serialize_message(&request, &None).unwrap();

    // the peer holds the payload for the view and serves the share
    let mut peer = fresh_consensus();
    assert_eq!(
        peer.update_saved_payloads(view, payload.clone()),
        hotshot_core::consensus::UpdateOutcome::Applied
    );
    let reply = handle_message(&mut peer, &keys.membership, &raw, me, &None)
        .expect("a well-formed request draws a reply");
    let share: Proposal<VidDisperseShare> = match reply.kind {
        MessageKind::Data(DataMessage::DataResponse(ResponseMessage::Found(
            SequencingMessage::Da(DaConsensusMessage::VidDisperseMsg(p)),
        ))) => p,
        other => panic!("expected the share, got {:?}", other),
    };
    assert_eq!(share.data.view_number, view);
    assert_eq!(share.data.recipient_key, me);
    assert_eq!(share.data.share, payload);
    assert_eq!(share.data.payload_commitment, compute_commit(&payload));

    // the requester stores it and the request stops
    mine.update_vid_shares(share);
    assert!(should_cancel_vid_request(&mine, view, false));
}

/// A data request with a corrupted signature byte is denied, and the
/// responder's state is untouched.
#[test]
fn corrupted_request_signature_is_denied() {
    let keys = keys(4);
    let view = 7u64;
    let sk0 = keys.sk_set.secret_key_share(0);
    let kind = RequestKind::Vid(view, 0);
    let mut signature = serialize_and_sign(&sk0, &kind);
    signature[17] ^= 0x01;
    let request = make_vid_request(view, 0, signature);
    let raw = serialize_message(&request, &None).unwrap();

    let mut responder = fresh_consensus();
    responder.update_saved_payloads(view, b"payload".to_vec());
    let reply = handle_message(&mut responder, &keys.membership, &raw, 1, &None)
        .expect("even a denied request draws a reply");
    match reply.kind {
        MessageKind::Data(DataMessage::DataResponse(ResponseMessage::Denied)) => {}
        other => panic!("expected a denial, got {:?}", other),
    }
    // the state is untouched: no share was derived for the view
    assert!(responder.vid_share(view, 0).is_none());
    assert_eq!(responder.cur_view(), 0);
}

/// A sender without stake is denied even with a well-formed signature.
#[test]
fn stakeless_sender_is_denied() {
    let keys = keys(4);
    let outsider = 9u64;
    let sk = keys.sk_set.secret_key_share(outsider);
    let kind = RequestKind::Proposal(1);
    let signature = serialize_and_sign(&sk, &kind);
    let request = hotshot_core::request::make_proposal_request(1, outsider, signature);
    let raw = serialize_message(&request, &None).unwrap();
    let mut responder = fresh_consensus();
    let reply = handle_message(&mut responder, &keys.membership, &raw, 1, &None).unwrap();
    match reply.kind {
        MessageKind::Data(DataMessage::DataResponse(ResponseMessage::Denied)) => {}
        other => panic!("expected a denial, got {:?}", other),
    }
}

/// A quorum proposal serialized under the base version is rejected once an
/// upgrade certificate mandates the new version for its view.
#[test]
fn version_rejection_after_upgrade() {
    let keys = keys(4);
    let genesis_qc = QuorumCertificate {
        leaf_commit: genesis_leaf().commit(),
        view_number: 0,
        signature: None,
        is_genesis: true,
    };
    let proposal = QuorumProposal {
        block_header: header_for(b"upgraded", 1),
        view_number: 10,
        justify_qc: genesis_qc,
        upgrade_certificate: None,
        proposal_certificate: None,
    };
    let signed = sign_proposal(&keys.sk_set, keys.membership.leader(10), proposal);
    let message = Message {
        sender: keys.membership.leader(10),
        kind: MessageKind::Consensus(SequencingMessage::General(
            GeneralConsensusMessage::Proposal(signed),
        )),
    };
    // serialized under the base version, with no decided certificate
    let bytes = serialize_message(&message, &None).unwrap();
    assert_eq!(bytes[0], 0);
    assert_eq!(bytes[1], 1);
    // the receiver has decided an upgrade whose first new view precedes the
    // message's view
    let cert = UpgradeCertificate {
        old_version: Version { major: 0, minor: 1 },
        new_version: Version { major: 0, minor: 2 },
        new_version_first_view: 5,
        view_number: 4,
        signature: None,
    };
    let err = deserialize_message(&bytes, &Some(cert)).unwrap_err();
    assert_eq!(err, CodecError::VersionMismatch);
    // under the mandated version the same message goes through
    let bytes_up = serialize_message(&message, &Some(cert)).unwrap();
    assert_eq!(bytes_up[0], 0);
    assert_eq!(bytes_up[1], 2);
    let back = deserialize_message(&bytes_up, &Some(cert)).unwrap();
    assert_eq!(back, message);
}

/// An upgrade certificate naming a version this node does not know refuses
/// both serialization and deserialization.
#[test]
fn unknown_upgrade_version_is_refused() {
    let keys = keys(4);
    let message = Message {
        sender: 0,
        kind: MessageKind::Data(DataMessage::SubmitTransaction(vec![1, 2, 3], 9)),
    };
    let cert = UpgradeCertificate {
        old_version: Version { major: 0, minor: 1 },
        new_version: Version { major: 0, minor: 7 },
        new_version_first_view: 5,
        view_number: 4,
        signature: None,
    };
    assert_eq!(
        serialize_message(&message, &Some(cert)).unwrap_err(),
        CodecError::UnsupportedUpgrade
    );
    let bytes = serialize_message(&message, &None).unwrap();
    assert_eq!(
        deserialize_message(&bytes, &Some(cert)).unwrap_err(),
        CodecError::UnsupportedUpgrade
    );
    let _ = keys;
}

/// A proposal's own signature binds its leader to the proposed leaf.
#[test]
fn proposal_signature_binds_the_leader() {
    let keys = keys(4);
    let genesis_qc = QuorumCertificate {
        leaf_commit: genesis_leaf().commit(),
        view_number: 0,
        signature: None,
        is_genesis: true,
    };
    let p = QuorumProposal {
        block_header: header_for(b"signed", 1),
        view_number: 1,
        justify_qc: genesis_qc,
        upgrade_certificate: None,
        proposal_certificate: None,
    };
    let signed = sign_proposal(&keys.sk_set, keys.membership.leader(1), p);
    assert!(signed.validate_signature(&keys.membership));
    let mut corrupted = signed.dup();
    corrupted.signature[5] ^= 0x01;
    assert!(!corrupted.validate_signature(&keys.membership));
    // a proposal signed by anyone but the view's leader does not validate
    let other = QuorumProposal {
        block_header: header_for(b"signed", 1),
        view_number: 1,
        justify_qc: QuorumCertificate {
            leaf_commit: genesis_leaf().commit(),
            view_number: 0,
            signature: None,
            is_genesis: true,
        },
        upgrade_certificate: None,
        proposal_certificate: None,
    };
    let wrong_signer = sign_proposal(&keys.sk_set, 2, other);
    assert!(!wrong_signer.validate_signature(&keys.membership));
}
