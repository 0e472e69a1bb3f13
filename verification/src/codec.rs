//! The wire codec: a deterministic byte encoding of every message, with a
//! two-byte version prefix. Encoding and decoding are exact inverses, and
//! the version a message must carry is decided by its view together with any
//! decided upgrade certificate.

use vstd::prelude::*;

use crate::bytes::{
    lemma_u64_le_roundtrip, push_u64_le, read_bytes, read_u64_le, u64_from_le, u64_le_bytes,
};
use crate::message::{
    DaConsensusMessage, DaConsensusMessageV, DataMessage, DataMessageV, DataRequest, GeneralConsensusMessage, GeneralConsensusMessageV,
    Message, MessageKind, MessageKindV, MessageV, RequestKind, ResponseMessage, ResponseMessageV,
    SequencingMessage, SequencingMessageV,
};
use crate::data::{
    base_version, spec_base_version, spec_upgrade_version, upgrade_version,
    commit_bytes, push_commit, BlockHeader, BlockHeaderV, Commit, DaCertificate, DaProposal,
    DaProposalV, DaVote, Proposal, ProposalV, QuorumCertificate, QuorumProposal, QuorumProposalV,
    QuorumVote, Signature, TimeoutCertificate, TimeoutVote, UpgradeCertificate, UpgradeProposal,
    UpgradeVote, Version, VidDisperseShare, VidDisperseShareV, ViewChangeEvidence,
    ViewSyncCommitCertificate, ViewSyncCommitVote, ViewSyncFinalizeCertificate,
    ViewSyncFinalizeVote, ViewSyncPreCommitCertificate, ViewSyncPreCommitVote,
};

verus! {

// ---------------------------------------------------------------------
// Primitives
// ---------------------------------------------------------------------

/// Decode one byte.
pub open spec fn dec_u8_s(s: Seq<u8>) -> Option<(u8, Seq<u8>)> {
    if s.len() >= 1 {
        Some((s[0], s.skip(1)))
    } else {
        None
    }
}

/// Decode a 64-bit little-endian word.
pub open spec fn dec_u64_s(s: Seq<u8>) -> Option<(u64, Seq<u8>)> {
    if s.len() >= 8 {
        Some((u64_from_le(s.take(8)), s.skip(8)))
    } else {
        None
    }
}

/// Encoding of a boolean: one byte, zero or one.
pub open spec fn enc_bool(b: bool) -> Seq<u8> {
    if b {
        seq![1u8]
    } else {
        seq![0u8]
    }
}

/// Decode a boolean; any byte but zero or one is malformed.
pub open spec fn dec_bool_s(s: Seq<u8>) -> Option<(bool, Seq<u8>)> {
    match dec_u8_s(s) {
        Some((t, r)) => if t == 1 {
            Some((true, r))
        } else if t == 0 {
            Some((false, r))
        } else {
            None
        },
        None => None,
    }
}

/// Encoding of a byte string: its length, then its bytes.
pub open spec fn enc_bytes(b: Seq<u8>) -> Seq<u8> {
    u64_le_bytes(b.len() as u64) + b
}

/// Decode a length-prefixed byte string.
pub open spec fn dec_bytes_s(s: Seq<u8>) -> Option<(Seq<u8>, Seq<u8>)> {
    match dec_u64_s(s) {
        Some((n, s1)) => if s1.len() >= n {
            Some((s1.take(n as int), s1.skip(n as int)))
        } else {
            None
        },
        None => None,
    }
}

/// Decode a 32-byte commitment.
pub open spec fn dec_commit_s(s: Seq<u8>) -> Option<(Commit, Seq<u8>)> {
    if s.len() >= 32 {
        Some((crate::data::commit_from_digest(s.take(32)), s.skip(32)))
    } else {
        None
    }
}

/// The unique 96-byte array whose view is `s`.
pub open spec fn seq_to_sig(s: Seq<u8>) -> Signature {
    choose|a: Signature| a@ == s
}

/// Every 96-byte array is recovered from its view.
pub proof fn lemma_seq_to_sig(a: Signature)
    ensures
        seq_to_sig(a@) == a,
{
    broadcast use vstd::array::group_array_axioms;

    assert(exists|x: Signature| x@ == a@) by {
        assert(a@ == a@);
    }
    let b = choose|x: Signature| x@ == a@;
    assert(b@ =~= a@);
    assert(b == a);
}

/// Decode a 96-byte signature.
pub open spec fn dec_sig_s(s: Seq<u8>) -> Option<(Signature, Seq<u8>)> {
    if s.len() >= 96 {
        Some((seq_to_sig(s.take(96)), s.skip(96)))
    } else {
        None
    }
}

/// Encoding of an optional signature: a presence byte, then the bytes.
pub open spec fn enc_opt_sig(o: Option<Signature>) -> Seq<u8> {
    match o {
        None => seq![0u8],
        Some(sg) => seq![1u8] + sg@,
    }
}

/// Decode an optional signature.
pub open spec fn dec_opt_sig_s(s: Seq<u8>) -> Option<(Option<Signature>, Seq<u8>)> {
    match dec_u8_s(s) {
        Some((t, r)) => if t == 0 {
            Some((None, r))
        } else if t == 1 {
            match dec_sig_s(r) {
                Some((sg, r2)) => Some((Some(sg), r2)),
                None => None,
            }
        } else {
            None
        },
        None => None,
    }
}

/// Reading a word back from its encoding.
pub proof fn lemma_dec_u64_enc(x: u64, rest: Seq<u8>)
    ensures
        dec_u64_s(u64_le_bytes(x) + rest) == Some((x, rest)),
{
    lemma_u64_le_roundtrip(x);
    let s = u64_le_bytes(x) + rest;
    assert(s.take(8) =~= u64_le_bytes(x));
    assert(s.skip(8) =~= rest);
}

/// Reading a byte back from its encoding.
pub proof fn lemma_dec_u8_enc(x: u8, rest: Seq<u8>)
    ensures
        dec_u8_s(seq![x] + rest) == Some((x, rest)),
{
    let s = seq![x] + rest;
    assert(s[0] == x);
    assert(s.skip(1) =~= rest);
}

/// Reading a boolean back from its encoding.
pub proof fn lemma_dec_bool_enc(b: bool, rest: Seq<u8>)
    ensures
        dec_bool_s(enc_bool(b) + rest) == Some((b, rest)),
{
    if b {
        lemma_dec_u8_enc(1u8, rest);
    } else {
        lemma_dec_u8_enc(0u8, rest);
    }
}

/// Reading a byte string back from its encoding.
pub proof fn lemma_dec_bytes_enc(b: Seq<u8>, rest: Seq<u8>)
    requires
        b.len() <= u64::MAX,
    ensures
        dec_bytes_s(enc_bytes(b) + rest) == Some((b, rest)),
{
    let s = enc_bytes(b) + rest;
    assert(s =~= u64_le_bytes(b.len() as u64) + (b + rest));
    lemma_dec_u64_enc(b.len() as u64, b + rest);
    assert((b + rest).take(b.len() as int) =~= b);
    assert((b + rest).skip(b.len() as int) =~= rest);
}

/// Reading a commitment back from its encoding.
pub proof fn lemma_dec_commit_enc(c: Commit, rest: Seq<u8>)
    ensures
        dec_commit_s(commit_bytes(c) + rest) == Some((c, rest)),
{
    let s = commit_bytes(c) + rest;
    assert(s.len() >= 32);
    let t = s.take(32);
    assert(t =~= commit_bytes(c));
    lemma_u64_le_roundtrip(c.w0);
    lemma_u64_le_roundtrip(c.w1);
    lemma_u64_le_roundtrip(c.w2);
    lemma_u64_le_roundtrip(c.w3);
    assert(t.subrange(0, 8) =~= u64_le_bytes(c.w0));
    assert(t.subrange(8, 16) =~= u64_le_bytes(c.w1));
    assert(t.subrange(16, 24) =~= u64_le_bytes(c.w2));
    assert(t.subrange(24, 32) =~= u64_le_bytes(c.w3));
    assert(s.skip(32) =~= rest);
}

/// Reading a signature back from its encoding.
pub proof fn lemma_dec_sig_enc(sg: Signature, rest: Seq<u8>)
    ensures
        dec_sig_s(sg@ + rest) == Some((sg, rest)),
{
    broadcast use vstd::array::group_array_axioms;

    let s = sg@ + rest;
    assert(sg@.len() == 96);
    assert(s.take(96) =~= sg@);
    lemma_seq_to_sig(sg);
    assert(s.skip(96) =~= rest);
}

/// Reading an optional signature back from its encoding.
pub proof fn lemma_dec_opt_sig_enc(o: Option<Signature>, rest: Seq<u8>)
    ensures
        dec_opt_sig_s(enc_opt_sig(o) + rest) == Some((o, rest)),
{
    match o {
        None => {
            lemma_dec_u8_enc(0u8, rest);
            assert(enc_opt_sig(o) + rest =~= seq![0u8] + rest);
        },
        Some(sg) => {
            assert(enc_opt_sig(o) + rest =~= seq![1u8] + (sg@ + rest));
            lemma_dec_u8_enc(1u8, sg@ + rest);
            lemma_dec_sig_enc(sg, rest);
        },
    }
}

// ---------------------------------------------------------------------
// Executable primitive decoders
// ---------------------------------------------------------------------

/// Decode one byte at `pos`.
fn dec_u8_e(buf: &Vec<u8>, pos: usize) -> (r: Option<(u8, usize)>)
    requires
        pos <= buf@.len(),
    ensures
        r is Some <==> dec_u8_s(buf@.skip(pos as int)) is Some,
        r matches Some((x, end)) ==> pos <= end <= buf@.len() && dec_u8_s(buf@.skip(pos as int))
            == Some((x, buf@.skip(end as int))),
    decreases 0int,
{
    let len = buf.len();
    if len - pos >= 1 {
        let x = buf[pos];
        proof {
            assert(buf@.skip(pos as int)[0] == buf@[pos as int]);
            assert(buf@.skip(pos as int).skip(1) =~= buf@.skip(pos + 1));
        }
        Some((x, pos + 1))
    } else {
        None
    }
}

/// Decode a 64-bit word at `pos`.
fn dec_u64_e(buf: &Vec<u8>, pos: usize) -> (r: Option<(u64, usize)>)
    requires
        pos <= buf@.len(),
    ensures
        r is Some <==> dec_u64_s(buf@.skip(pos as int)) is Some,
        r matches Some((x, end)) ==> pos <= end <= buf@.len() && dec_u64_s(buf@.skip(pos as int))
            == Some((x, buf@.skip(end as int))),
    decreases 0int,
{
    let len = buf.len();
    if len - pos >= 8 {
        let x = read_u64_le(buf, pos);
        proof {
            assert(buf@.skip(pos as int).take(8) =~= buf@.subrange(pos as int, pos + 8));
            assert(buf@.skip(pos as int).skip(8) =~= buf@.skip(pos + 8));
        }
        Some((x, pos + 8))
    } else {
        None
    }
}

/// Decode a boolean at `pos`.
fn dec_bool_e(buf: &Vec<u8>, pos: usize) -> (r: Option<(bool, usize)>)
    requires
        pos <= buf@.len(),
    ensures
        r is Some <==> dec_bool_s(buf@.skip(pos as int)) is Some,
        r matches Some((x, end)) ==> pos <= end <= buf@.len() && dec_bool_s(buf@.skip(pos as int))
            == Some((x, buf@.skip(end as int))),
    decreases 0int,
{
    match dec_u8_e(buf, pos) {
        Some((t, end)) => {
            if t == 1 {
                Some((true, end))
            } else if t == 0 {
                Some((false, end))
            } else {
                None
            }
        },
        None => None,
    }
}

/// Decode a length-prefixed byte string at `pos`.
fn dec_bytes_e(buf: &Vec<u8>, pos: usize) -> (r: Option<(Vec<u8>, usize)>)
    requires
        pos <= buf@.len(),
    ensures
        r is Some <==> dec_bytes_s(buf@.skip(pos as int)) is Some,
        r matches Some((x, end)) ==> pos <= end <= buf@.len() && dec_bytes_s(buf@.skip(pos as int))
            == Some((x@, buf@.skip(end as int))),
    decreases 0int,
{
    let len = buf.len();
    match dec_u64_e(buf, pos) {
        Some((n, end1)) => {
            if n <= (len - end1) as u64 {
                let n_us = n as usize;
                let data = read_bytes(buf, end1, n_us);
                proof {
                    assert(buf@.skip(end1 as int).take(n as int) =~= buf@.subrange(
                        end1 as int,
                        end1 + n_us,
                    ));
                    assert(buf@.skip(end1 as int).skip(n as int) =~= buf@.skip(end1 + n_us));
                }
                Some((data, end1 + n_us))
            } else {
                proof {
                    assert(buf@.skip(end1 as int).len() < n);
                }
                None
            }
        },
        None => None,
    }
}

/// Decode a commitment at `pos`.
fn dec_commit_e(buf: &Vec<u8>, pos: usize) -> (r: Option<(Commit, usize)>)
    requires
        pos <= buf@.len(),
    ensures
        r is Some <==> dec_commit_s(buf@.skip(pos as int)) is Some,
        r matches Some((x, end)) ==> pos <= end <= buf@.len() && dec_commit_s(
            buf@.skip(pos as int),
        ) == Some((x, buf@.skip(end as int))),
    decreases 0int,
{
    let len = buf.len();
    if len - pos >= 32 {
        let c = Commit {
            w0: read_u64_le(buf, pos),
            w1: read_u64_le(buf, pos + 8),
            w2: read_u64_le(buf, pos + 16),
            w3: read_u64_le(buf, pos + 24),
        };
        proof {
            let t = buf@.skip(pos as int).take(32);
            assert(t.subrange(0, 8) =~= buf@.subrange(pos as int, pos + 8));
            assert(t.subrange(8, 16) =~= buf@.subrange(pos + 8, pos + 16));
            assert(t.subrange(16, 24) =~= buf@.subrange(pos + 16, pos + 24));
            assert(t.subrange(24, 32) =~= buf@.subrange(pos + 24, pos + 32));
            assert(buf@.skip(pos as int).skip(32) =~= buf@.skip(pos + 32));
        }
        Some((c, pos + 32))
    } else {
        None
    }
}

/// Append a 96-byte signature.
fn push_sig(out: &mut Vec<u8>, sg: &Signature)
    ensures
        final(out)@ == old(out)@ + sg@,
{
    broadcast use vstd::array::group_array_axioms;

    let mut i: usize = 0;
    while i < 96
        invariant
            0 <= i <= 96,
            sg@.len() == 96,
            out@ == old(out)@ + sg@.take(i as int),
        decreases 96 - i,
    {
        out.push(sg[i]);
        assert(out@ =~= old(out)@ + sg@.take(i + 1 as int));
        i += 1;
    }
    proof {
        assert(sg@.take(96) =~= sg@);
    }
}

/// Decode a 96-byte signature at `pos`.
fn dec_sig_e(buf: &Vec<u8>, pos: usize) -> (r: Option<(Signature, usize)>)
    requires
        pos <= buf@.len(),
    ensures
        r is Some <==> dec_sig_s(buf@.skip(pos as int)) is Some,
        r matches Some((x, end)) ==> pos <= end <= buf@.len() && dec_sig_s(buf@.skip(pos as int))
            == Some((x, buf@.skip(end as int))),
    decreases 0int,
{
    broadcast use vstd::array::group_array_axioms;

    let len = buf.len();
    if len - pos >= 96 {
        let mut arr: [u8; 96] = [0u8; 96];
        let mut i: usize = 0;
        while i < 96
            invariant
                pos + 96 <= len == buf@.len(),
                0 <= i <= 96,
                arr@.len() == 96,
                forall|j: int| 0 <= j < i ==> arr@[j] == buf@[pos + j],
            decreases 96 - i,
        {
            arr[i] = buf[pos + i];
            i += 1;
        }
        proof {
            assert(arr@ =~= buf@.skip(pos as int).take(96));
            lemma_seq_to_sig(arr);
            assert(buf@.skip(pos as int).skip(96) =~= buf@.skip(pos + 96));
        }
        Some((arr, pos + 96))
    } else {
        None
    }
}

/// Append an optional signature.
fn push_opt_sig(out: &mut Vec<u8>, o: &Option<Signature>)
    ensures
        final(out)@ == old(out)@ + enc_opt_sig(*o),
{
    match o {
        None => {
            out.push(0u8);
            proof {
                assert(out@ =~= old(out)@ + enc_opt_sig(*o));
            }
        },
        Some(sg) => {
            out.push(1u8);
            push_sig(out, sg);
            proof {
                assert(out@ =~= old(out)@ + enc_opt_sig(*o));
            }
        },
    }
}

/// Decode an optional signature at `pos`.
fn dec_opt_sig_e(buf: &Vec<u8>, pos: usize) -> (r: Option<(Option<Signature>, usize)>)
    requires
        pos <= buf@.len(),
    ensures
        r is Some <==> dec_opt_sig_s(buf@.skip(pos as int)) is Some,
        r matches Some((x, end)) ==> pos <= end <= buf@.len() && dec_opt_sig_s(
            buf@.skip(pos as int),
        ) == Some((x, buf@.skip(end as int))),
    decreases 0int,
{
    match dec_u8_e(buf, pos) {
        Some((t, end1)) => {
            if t == 0 {
                Some((None, end1))
            } else if t == 1 {
                match dec_sig_e(buf, end1) {
                    Some((sg, end2)) => Some((Some(sg), end2)),
                    None => None,
                }
            } else {
                None
            }
        },
        None => None,
    }
}


/// Encoding of a version: its two bytes.
pub open spec fn enc_version(v: Version) -> Seq<u8> {
    seq![v.major, v.minor]
}

/// Decode a version.
pub open spec fn dec_version_s(s: Seq<u8>) -> Option<(Version, Seq<u8>)> {
    if s.len() >= 2 {
        Some((Version { major: s[0], minor: s[1] }, s.skip(2)))
    } else {
        None
    }
}

/// Reading a version back from its encoding.
pub proof fn lemma_dec_version_enc(v: Version, rest: Seq<u8>)
    ensures
        dec_version_s(enc_version(v) + rest) == Some((v, rest)),
{
    let s = enc_version(v) + rest;
    assert(s[0] == v.major);
    assert(s[1] == v.minor);
    assert(s.skip(2) =~= rest);
}

/// Append a version.
pub fn push_version(out: &mut Vec<u8>, v: &Version)
    ensures
        final(out)@ == old(out)@ + enc_version(*v),
{
    out.push(v.major);
    out.push(v.minor);
    proof {
        assert(out@ =~= old(out)@ + enc_version(*v));
    }
}

/// Decode a version at `pos`.
pub fn dec_version_e(buf: &Vec<u8>, pos: usize) -> (r: Option<(Version, usize)>)
    requires
        pos <= buf@.len(),
    ensures
        r is Some <==> dec_version_s(buf@.skip(pos as int)) is Some,
        r matches Some((x, end)) ==> pos <= end <= buf@.len() && dec_version_s(
            buf@.skip(pos as int),
        ) == Some((x, buf@.skip(end as int))),
{
    let len = buf.len();
    if len - pos >= 2 {
        let v = Version { major: buf[pos], minor: buf[pos + 1] };
        proof {
            assert(buf@.skip(pos as int)[0] == buf@[pos as int]);
            assert(buf@.skip(pos as int)[1] == buf@[pos + 1]);
            assert(buf@.skip(pos as int).skip(2) =~= buf@.skip(pos + 2));
        }
        Some((v, pos + 2))
    } else {
        None
    }
}

/// Append a boolean.
pub fn push_bool(out: &mut Vec<u8>, b: bool)
    ensures
        final(out)@ == old(out)@ + enc_bool(b),
{
    if b {
        out.push(1u8);
    } else {
        out.push(0u8);
    }
    proof {
        assert(out@ =~= old(out)@ + enc_bool(b));
    }
}

/// Append a length-prefixed byte string.
pub fn push_len_bytes(out: &mut Vec<u8>, b: &Vec<u8>)
    ensures
        final(out)@ == old(out)@ + enc_bytes(b@),
{
    push_u64_le(out, b.len() as u64);
    crate::bytes::push_bytes(out, b);
    proof {
        assert(out@ =~= old(out)@ + enc_bytes(b@));
    }
}

// ---------------------------------------------------------------------
// Certificates, votes, proposals
// ---------------------------------------------------------------------

/// Wire format of a quorum certificate.
#[verifier::opaque]
pub open spec fn enc_quorum_certificate(x: QuorumCertificate) -> Seq<u8> {
    commit_bytes(x.leaf_commit) + u64_le_bytes(x.view_number) + enc_opt_sig(x.signature) + enc_bool(x.is_genesis)
}

/// Decode: the inverse of the encoding.
#[verifier::opaque]
pub open spec fn dec_quorum_certificate_s(s: Seq<u8>) -> Option<(QuorumCertificate, Seq<u8>)> {
    match dec_commit_s(s) {
        Some((f_leaf_commit, s_1)) => {
            match dec_u64_s(s_1) {
                Some((f_view_number, s_2)) => {
                    match dec_opt_sig_s(s_2) {
                        Some((f_signature, s_3)) => {
                            match dec_bool_s(s_3) {
                                Some((f_is_genesis, s_4)) => {
                                    Some((QuorumCertificate { leaf_commit: f_leaf_commit, view_number: f_view_number, signature: f_signature, is_genesis: f_is_genesis }, s_4))
                                },
                                None => None,
                            }
                        },
                        None => None,
                    }
                },
                None => None,
            }
        },
        None => None,
    }
}

/// Append the encoding.
pub fn push_quorum_certificate(out: &mut Vec<u8>, x: &QuorumCertificate)
    ensures
        final(out)@ == old(out)@ + enc_quorum_certificate(*x),
{
    push_commit(out, &x.leaf_commit);
    push_u64_le(out, x.view_number);
    push_opt_sig(out, &x.signature);
    push_bool(out, x.is_genesis);
    proof {
        reveal(enc_quorum_certificate);
        assert(out@ =~= old(out)@ + enc_quorum_certificate(*x));
    }
}

/// Decode at `pos`.
pub fn dec_quorum_certificate_e(buf: &Vec<u8>, pos: usize) -> (r: Option<(QuorumCertificate, usize)>)
    requires
        pos <= buf@.len(),
    ensures
        r is Some <==> dec_quorum_certificate_s(buf@.skip(pos as int)) is Some,
        r matches Some((x, end)) ==> pos <= end <= buf@.len() && dec_quorum_certificate_s(
            buf@.skip(pos as int),
        ) == Some((x, buf@.skip(end as int))),
{
    proof {
        reveal(dec_quorum_certificate_s);
    }
    let (f_leaf_commit, p_1) = match dec_commit_e(buf, pos) {
        Some(v) => v,
        None => {
            return None;
        },
    };
    let (f_view_number, p_2) = match dec_u64_e(buf, p_1) {
        Some(v) => v,
        None => {
            return None;
        },
    };
    let (f_signature, p_3) = match dec_opt_sig_e(buf, p_2) {
        Some(v) => v,
        None => {
            return None;
        },
    };
    let (f_is_genesis, p_4) = match dec_bool_e(buf, p_3) {
        Some(v) => v,
        None => {
            return None;
        },
    };
    Some((QuorumCertificate { leaf_commit: f_leaf_commit, view_number: f_view_number, signature: f_signature, is_genesis: f_is_genesis }, p_4))
}

/// Reading the value back from its encoding.
#[verifier::spinoff_prover]
pub proof fn lemma_dec_quorum_certificate_enc(x: QuorumCertificate, rest: Seq<u8>)
    ensures
        dec_quorum_certificate_s(enc_quorum_certificate(x) + rest) == Some((x, rest)),
{
    reveal(enc_quorum_certificate);
    reveal(dec_quorum_certificate_s);
    let t_1 = u64_le_bytes(x.view_number) + (enc_opt_sig(x.signature) + (enc_bool(x.is_genesis) + (rest)));
    assert(enc_quorum_certificate(x) + rest =~= commit_bytes(x.leaf_commit) + t_1);
    lemma_dec_commit_enc(x.leaf_commit, t_1);
    let t_2 = enc_opt_sig(x.signature) + (enc_bool(x.is_genesis) + (rest));
    assert(t_1 =~= u64_le_bytes(x.view_number) + t_2);
    lemma_dec_u64_enc(x.view_number, t_2);
    let t_3 = enc_bool(x.is_genesis) + (rest);
    assert(t_2 =~= enc_opt_sig(x.signature) + t_3);
    lemma_dec_opt_sig_enc(x.signature, t_3);
    let t_4 = rest;
    assert(t_3 =~= enc_bool(x.is_genesis) + t_4);
    lemma_dec_bool_enc(x.is_genesis, t_4);
}

/// Wire format of a da certificate.
#[verifier::opaque]
pub open spec fn enc_da_certificate(x: DaCertificate) -> Seq<u8> {
    commit_bytes(x.payload_commitment) + u64_le_bytes(x.view_number) + enc_opt_sig(x.signature)
}

/// Decode: the inverse of the encoding.
#[verifier::opaque]
pub open spec fn dec_da_certificate_s(s: Seq<u8>) -> Option<(DaCertificate, Seq<u8>)> {
    match dec_commit_s(s) {
        Some((f_payload_commitment, s_1)) => {
            match dec_u64_s(s_1) {
                Some((f_view_number, s_2)) => {
                    match dec_opt_sig_s(s_2) {
                        Some((f_signature, s_3)) => {
                            Some((DaCertificate { payload_commitment: f_payload_commitment, view_number: f_view_number, signature: f_signature }, s_3))
                        },
                        None => None,
                    }
                },
                None => None,
            }
        },
        None => None,
    }
}

/// Append the encoding.
pub fn push_da_certificate(out: &mut Vec<u8>, x: &DaCertificate)
    ensures
        final(out)@ == old(out)@ + enc_da_certificate(*x),
{
    push_commit(out, &x.payload_commitment);
    push_u64_le(out, x.view_number);
    push_opt_sig(out, &x.signature);
    proof {
        reveal(enc_da_certificate);
        assert(out@ =~= old(out)@ + enc_da_certificate(*x));
    }
}

/// Decode at `pos`.
pub fn dec_da_certificate_e(buf: &Vec<u8>, pos: usize) -> (r: Option<(DaCertificate, usize)>)
    requires
        pos <= buf@.len(),
    ensures
        r is Some <==> dec_da_certificate_s(buf@.skip(pos as int)) is Some,
        r matches Some((x, end)) ==> pos <= end <= buf@.len() && dec_da_certificate_s(
            buf@.skip(pos as int),
        ) == Some((x, buf@.skip(end as int))),
{
    proof {
        reveal(dec_da_certificate_s);
    }
    let (f_payload_commitment, p_1) = match dec_commit_e(buf, pos) {
        Some(v) => v,
        None => {
            return None;
        },
    };
    let (f_view_number, p_2) = match dec_u64_e(buf, p_1) {
        Some(v) => v,
        None => {
            return None;
        },
    };
    let (f_signature, p_3) = match dec_opt_sig_e(buf, p_2) {
        Some(v) => v,
        None => {
            return None;
        },
    };
    Some((DaCertificate { payload_commitment: f_payload_commitment, view_number: f_view_number, signature: f_signature }, p_3))
}

/// Reading the value back from its encoding.
#[verifier::spinoff_prover]
pub proof fn lemma_dec_da_certificate_enc(x: DaCertificate, rest: Seq<u8>)
    ensures
        dec_da_certificate_s(enc_da_certificate(x) + rest) == Some((x, rest)),
{
    reveal(enc_da_certificate);
    reveal(dec_da_certificate_s);
    let t_1 = u64_le_bytes(x.view_number) + (enc_opt_sig(x.signature) + (rest));
    assert(enc_da_certificate(x) + rest =~= commit_bytes(x.payload_commitment) + t_1);
    lemma_dec_commit_enc(x.payload_commitment, t_1);
    let t_2 = enc_opt_sig(x.signature) + (rest);
    assert(t_1 =~= u64_le_bytes(x.view_number) + t_2);
    lemma_dec_u64_enc(x.view_number, t_2);
    let t_3 = rest;
    assert(t_2 =~= enc_opt_sig(x.signature) + t_3);
    lemma_dec_opt_sig_enc(x.signature, t_3);
}

/// Wire format of a timeout certificate.
#[verifier::opaque]
pub open spec fn enc_timeout_certificate(x: TimeoutCertificate) -> Seq<u8> {
    u64_le_bytes(x.view_number) + enc_opt_sig(x.signature)
}

/// Decode: the inverse of the encoding.
#[verifier::opaque]
pub open spec fn dec_timeout_certificate_s(s: Seq<u8>) -> Option<(TimeoutCertificate, Seq<u8>)> {
    match dec_u64_s(s) {
        Some((f_view_number, s_1)) => {
            match dec_opt_sig_s(s_1) {
                Some((f_signature, s_2)) => {
                    Some((TimeoutCertificate { view_number: f_view_number, signature: f_signature }, s_2))
                },
                None => None,
            }
        },
        None => None,
    }
}

/// Append the encoding.
pub fn push_timeout_certificate(out: &mut Vec<u8>, x: &TimeoutCertificate)
    ensures
        final(out)@ == old(out)@ + enc_timeout_certificate(*x),
{
    push_u64_le(out, x.view_number);
    push_opt_sig(out, &x.signature);
    proof {
        reveal(enc_timeout_certificate);
        assert(out@ =~= old(out)@ + enc_timeout_certificate(*x));
    }
}

/// Decode at `pos`.
pub fn dec_timeout_certificate_e(buf: &Vec<u8>, pos: usize) -> (r: Option<(TimeoutCertificate, usize)>)
    requires
        pos <= buf@.len(),
    ensures
        r is Some <==> dec_timeout_certificate_s(buf@.skip(pos as int)) is Some,
        r matches Some((x, end)) ==> pos <= end <= buf@.len() && dec_timeout_certificate_s(
            buf@.skip(pos as int),
        ) == Some((x, buf@.skip(end as int))),
{
    proof {
        reveal(dec_timeout_certificate_s);
    }
    let (f_view_number, p_1) = match dec_u64_e(buf, pos) {
        Some(v) => v,
        None => {
            return None;
        },
    };
    let (f_signature, p_2) = match dec_opt_sig_e(buf, p_1) {
        Some(v) => v,
        None => {
            return None;
        },
    };
    Some((TimeoutCertificate { view_number: f_view_number, signature: f_signature }, p_2))
}

/// Reading the value back from its encoding.
#[verifier::spinoff_prover]
pub proof fn lemma_dec_timeout_certificate_enc(x: TimeoutCertificate, rest: Seq<u8>)
    ensures
        dec_timeout_certificate_s(enc_timeout_certificate(x) + rest) == Some((x, rest)),
{
    reveal(enc_timeout_certificate);
    reveal(dec_timeout_certificate_s);
    let t_1 = enc_opt_sig(x.signature) + (rest);
    assert(enc_timeout_certificate(x) + rest =~= u64_le_bytes(x.view_number) + t_1);
    lemma_dec_u64_enc(x.view_number, t_1);
    let t_2 = rest;
    assert(t_1 =~= enc_opt_sig(x.signature) + t_2);
    lemma_dec_opt_sig_enc(x.signature, t_2);
}

/// Wire format of a view sync pre commit certificate.
#[verifier::opaque]
pub open spec fn enc_view_sync_pre_commit_certificate(x: ViewSyncPreCommitCertificate) -> Seq<u8> {
    u64_le_bytes(x.view_number) + u64_le_bytes(x.relay) + enc_opt_sig(x.signature)
}

/// Decode: the inverse of the encoding.
#[verifier::opaque]
pub open spec fn dec_view_sync_pre_commit_certificate_s(s: Seq<u8>) -> Option<(ViewSyncPreCommitCertificate, Seq<u8>)> {
    match dec_u64_s(s) {
        Some((f_view_number, s_1)) => {
            match dec_u64_s(s_1) {
                Some((f_relay, s_2)) => {
                    match dec_opt_sig_s(s_2) {
                        Some((f_signature, s_3)) => {
                            Some((ViewSyncPreCommitCertificate { view_number: f_view_number, relay: f_relay, signature: f_signature }, s_3))
                        },
                        None => None,
                    }
                },
                None => None,
            }
        },
        None => None,
    }
}

/// Append the encoding.
pub fn push_view_sync_pre_commit_certificate(out: &mut Vec<u8>, x: &ViewSyncPreCommitCertificate)
    ensures
        final(out)@ == old(out)@ + enc_view_sync_pre_commit_certificate(*x),
{
    push_u64_le(out, x.view_number);
    push_u64_le(out, x.relay);
    push_opt_sig(out, &x.signature);
    proof {
        reveal(enc_view_sync_pre_commit_certificate);
        assert(out@ =~= old(out)@ + enc_view_sync_pre_commit_certificate(*x));
    }
}

/// Decode at `pos`.
pub fn dec_view_sync_pre_commit_certificate_e(buf: &Vec<u8>, pos: usize) -> (r: Option<(ViewSyncPreCommitCertificate, usize)>)
    requires
        pos <= buf@.len(),
    ensures
        r is Some <==> dec_view_sync_pre_commit_certificate_s(buf@.skip(pos as int)) is Some,
        r matches Some((x, end)) ==> pos <= end <= buf@.len() && dec_view_sync_pre_commit_certificate_s(
            buf@.skip(pos as int),
        ) == Some((x, buf@.skip(end as int))),
{
    proof {
        reveal(dec_view_sync_pre_commit_certificate_s);
    }
    let (f_view_number, p_1) = match dec_u64_e(buf, pos) {
        Some(v) => v,
        None => {
            return None;
        },
    };
    let (f_relay, p_2) = match dec_u64_e(buf, p_1) {
        Some(v) => v,
        None => {
            return None;
        },
    };
    let (f_signature, p_3) = match dec_opt_sig_e(buf, p_2) {
        Some(v) => v,
        None => {
            return None;
        },
    };
    Some((ViewSyncPreCommitCertificate { view_number: f_view_number, relay: f_relay, signature: f_signature }, p_3))
}

/// Reading the value back from its encoding.
#[verifier::spinoff_prover]
pub proof fn lemma_dec_view_sync_pre_commit_certificate_enc(x: ViewSyncPreCommitCertificate, rest: Seq<u8>)
    ensures
        dec_view_sync_pre_commit_certificate_s(enc_view_sync_pre_commit_certificate(x) + rest) == Some((x, rest)),
{
    reveal(enc_view_sync_pre_commit_certificate);
    reveal(dec_view_sync_pre_commit_certificate_s);
    let t_1 = u64_le_bytes(x.relay) + (enc_opt_sig(x.signature) + (rest));
    assert(enc_view_sync_pre_commit_certificate(x) + rest =~= u64_le_bytes(x.view_number) + t_1);
    lemma_dec_u64_enc(x.view_number, t_1);
    let t_2 = enc_opt_sig(x.signature) + (rest);
    assert(t_1 =~= u64_le_bytes(x.relay) + t_2);
    lemma_dec_u64_enc(x.relay, t_2);
    let t_3 = rest;
    assert(t_2 =~= enc_opt_sig(x.signature) + t_3);
    lemma_dec_opt_sig_enc(x.signature, t_3);
}

/// Wire format of a view sync commit certificate.
#[verifier::opaque]
pub open spec fn enc_view_sync_commit_certificate(x: ViewSyncCommitCertificate) -> Seq<u8> {
    u64_le_bytes(x.view_number) + u64_le_bytes(x.relay) + enc_opt_sig(x.signature)
}

/// Decode: the inverse of the encoding.
#[verifier::opaque]
pub open spec fn dec_view_sync_commit_certificate_s(s: Seq<u8>) -> Option<(ViewSyncCommitCertificate, Seq<u8>)> {
    match dec_u64_s(s) {
        Some((f_view_number, s_1)) => {
            match dec_u64_s(s_1) {
                Some((f_relay, s_2)) => {
                    match dec_opt_sig_s(s_2) {
                        Some((f_signature, s_3)) => {
                            Some((ViewSyncCommitCertificate { view_number: f_view_number, relay: f_relay, signature: f_signature }, s_3))
                        },
                        None => None,
                    }
                },
                None => None,
            }
        },
        None => None,
    }
}

/// Append the encoding.
pub fn push_view_sync_commit_certificate(out: &mut Vec<u8>, x: &ViewSyncCommitCertificate)
    ensures
        final(out)@ == old(out)@ + enc_view_sync_commit_certificate(*x),
{
    push_u64_le(out, x.view_number);
    push_u64_le(out, x.relay);
    push_opt_sig(out, &x.signature);
    proof {
        reveal(enc_view_sync_commit_certificate);
        assert(out@ =~= old(out)@ + enc_view_sync_commit_certificate(*x));
    }
}

/// Decode at `pos`.
pub fn dec_view_sync_commit_certificate_e(buf: &Vec<u8>, pos: usize) -> (r: Option<(ViewSyncCommitCertificate, usize)>)
    requires
        pos <= buf@.len(),
    ensures
        r is Some <==> dec_view_sync_commit_certificate_s(buf@.skip(pos as int)) is Some,
        r matches Some((x, end)) ==> pos <= end <= buf@.len() && dec_view_sync_commit_certificate_s(
            buf@.skip(pos as int),
        ) == Some((x, buf@.skip(end as int))),
{
    proof {
        reveal(dec_view_sync_commit_certificate_s);
    }
    let (f_view_number, p_1) = match dec_u64_e(buf, pos) {
        Some(v) => v,
        None => {
            return None;
        },
    };
    let (f_relay, p_2) = match dec_u64_e(buf, p_1) {
        Some(v) => v,
        None => {
            return None;
        },
    };
    let (f_signature, p_3) = match dec_opt_sig_e(buf, p_2) {
        Some(v) => v,
        None => {
            return None;
        },
    };
    Some((ViewSyncCommitCertificate { view_number: f_view_number, relay: f_relay, signature: f_signature }, p_3))
}

/// Reading the value back from its encoding.
#[verifier::spinoff_prover]
pub proof fn lemma_dec_view_sync_commit_certificate_enc(x: ViewSyncCommitCertificate, rest: Seq<u8>)
    ensures
        dec_view_sync_commit_certificate_s(enc_view_sync_commit_certificate(x) + rest) == Some((x, rest)),
{
    reveal(enc_view_sync_commit_certificate);
    reveal(dec_view_sync_commit_certificate_s);
    let t_1 = u64_le_bytes(x.relay) + (enc_opt_sig(x.signature) + (rest));
    assert(enc_view_sync_commit_certificate(x) + rest =~= u64_le_bytes(x.view_number) + t_1);
    lemma_dec_u64_enc(x.view_number, t_1);
    let t_2 = enc_opt_sig(x.signature) + (rest);
    assert(t_1 =~= u64_le_bytes(x.relay) + t_2);
    lemma_dec_u64_enc(x.relay, t_2);
    let t_3 = rest;
    assert(t_2 =~= enc_opt_sig(x.signature) + t_3);
    lemma_dec_opt_sig_enc(x.signature, t_3);
}

/// Wire format of a view sync finalize certificate.
#[verifier::opaque]
pub open spec fn enc_view_sync_finalize_certificate(x: ViewSyncFinalizeCertificate) -> Seq<u8> {
    u64_le_bytes(x.view_number) + u64_le_bytes(x.relay) + enc_opt_sig(x.signature)
}

/// Decode: the inverse of the encoding.
#[verifier::opaque]
pub open spec fn dec_view_sync_finalize_certificate_s(s: Seq<u8>) -> Option<(ViewSyncFinalizeCertificate, Seq<u8>)> {
    match dec_u64_s(s) {
        Some((f_view_number, s_1)) => {
            match dec_u64_s(s_1) {
                Some((f_relay, s_2)) => {
                    match dec_opt_sig_s(s_2) {
                        Some((f_signature, s_3)) => {
                            Some((ViewSyncFinalizeCertificate { view_number: f_view_number, relay: f_relay, signature: f_signature }, s_3))
                        },
                        None => None,
                    }
                },
                None => None,
            }
        },
        None => None,
    }
}

/// Append the encoding.
pub fn push_view_sync_finalize_certificate(out: &mut Vec<u8>, x: &ViewSyncFinalizeCertificate)
    ensures
        final(out)@ == old(out)@ + enc_view_sync_finalize_certificate(*x),
{
    push_u64_le(out, x.view_number);
    push_u64_le(out, x.relay);
    push_opt_sig(out, &x.signature);
    proof {
        reveal(enc_view_sync_finalize_certificate);
        assert(out@ =~= old(out)@ + enc_view_sync_finalize_certificate(*x));
    }
}

/// Decode at `pos`.
pub fn dec_view_sync_finalize_certificate_e(buf: &Vec<u8>, pos: usize) -> (r: Option<(ViewSyncFinalizeCertificate, usize)>)
    requires
        pos <= buf@.len(),
    ensures
        r is Some <==> dec_view_sync_finalize_certificate_s(buf@.skip(pos as int)) is Some,
        r matches Some((x, end)) ==> pos <= end <= buf@.len() && dec_view_sync_finalize_certificate_s(
            buf@.skip(pos as int),
        ) == Some((x, buf@.skip(end as int))),
{
    proof {
        reveal(dec_view_sync_finalize_certificate_s);
    }
    let (f_view_number, p_1) = match dec_u64_e(buf, pos) {
        Some(v) => v,
        None => {
            return None;
        },
    };
    let (f_relay, p_2) = match dec_u64_e(buf, p_1) {
        Some(v) => v,
        None => {
            return None;
        },
    };
    let (f_signature, p_3) = match dec_opt_sig_e(buf, p_2) {
        Some(v) => v,
        None => {
            return None;
        },
    };
    Some((ViewSyncFinalizeCertificate { view_number: f_view_number, relay: f_relay, signature: f_signature }, p_3))
}

/// Reading the value back from its encoding.
#[verifier::spinoff_prover]
pub proof fn lemma_dec_view_sync_finalize_certificate_enc(x: ViewSyncFinalizeCertificate, rest: Seq<u8>)
    ensures
        dec_view_sync_finalize_certificate_s(enc_view_sync_finalize_certificate(x) + rest) == Some((x, rest)),
{
    reveal(enc_view_sync_finalize_certificate);
    reveal(dec_view_sync_finalize_certificate_s);
    let t_1 = u64_le_bytes(x.relay) + (enc_opt_sig(x.signature) + (rest));
    assert(enc_view_sync_finalize_certificate(x) + rest =~= u64_le_bytes(x.view_number) + t_1);
    lemma_dec_u64_enc(x.view_number, t_1);
    let t_2 = enc_opt_sig(x.signature) + (rest);
    assert(t_1 =~= u64_le_bytes(x.relay) + t_2);
    lemma_dec_u64_enc(x.relay, t_2);
    let t_3 = rest;
    assert(t_2 =~= enc_opt_sig(x.signature) + t_3);
    lemma_dec_opt_sig_enc(x.signature, t_3);
}

/// Wire format of a upgrade certificate.
#[verifier::opaque]
pub open spec fn enc_upgrade_certificate(x: UpgradeCertificate) -> Seq<u8> {
    enc_version(x.old_version) + enc_version(x.new_version) + u64_le_bytes(x.new_version_first_view) + u64_le_bytes(x.view_number) + enc_opt_sig(x.signature)
}

/// Decode: the inverse of the encoding.
#[verifier::opaque]
pub open spec fn dec_upgrade_certificate_s(s: Seq<u8>) -> Option<(UpgradeCertificate, Seq<u8>)> {
    match dec_version_s(s) {
        Some((f_old_version, s_1)) => {
            match dec_version_s(s_1) {
                Some((f_new_version, s_2)) => {
                    match dec_u64_s(s_2) {
                        Some((f_new_version_first_view, s_3)) => {
                            match dec_u64_s(s_3) {
                                Some((f_view_number, s_4)) => {
                                    match dec_opt_sig_s(s_4) {
                                        Some((f_signature, s_5)) => {
                                            Some((UpgradeCertificate { old_version: f_old_version, new_version: f_new_version, new_version_first_view: f_new_version_first_view, view_number: f_view_number, signature: f_signature }, s_5))
                                        },
                                        None => None,
                                    }
                                },
                                None => None,
                            }
                        },
                        None => None,
                    }
                },
                None => None,
            }
        },
        None => None,
    }
}

/// Append the encoding.
pub fn push_upgrade_certificate(out: &mut Vec<u8>, x: &UpgradeCertificate)
    ensures
        final(out)@ == old(out)@ + enc_upgrade_certificate(*x),
{
    push_version(out, &x.old_version);
    push_version(out, &x.new_version);
    push_u64_le(out, x.new_version_first_view);
    push_u64_le(out, x.view_number);
    push_opt_sig(out, &x.signature);
    proof {
        reveal(enc_upgrade_certificate);
        assert(out@ =~= old(out)@ + enc_upgrade_certificate(*x));
    }
}

/// Decode at `pos`.
pub fn dec_upgrade_certificate_e(buf: &Vec<u8>, pos: usize) -> (r: Option<(UpgradeCertificate, usize)>)
    requires
        pos <= buf@.len(),
    ensures
        r is Some <==> dec_upgrade_certificate_s(buf@.skip(pos as int)) is Some,
        r matches Some((x, end)) ==> pos <= end <= buf@.len() && dec_upgrade_certificate_s(
            buf@.skip(pos as int),
        ) == Some((x, buf@.skip(end as int))),
{
    proof {
        reveal(dec_upgrade_certificate_s);
    }
    let (f_old_version, p_1) = match dec_version_e(buf, pos) {
        Some(v) => v,
        None => {
            return None;
        },
    };
    let (f_new_version, p_2) = match dec_version_e(buf, p_1) {
        Some(v) => v,
        None => {
            return None;
        },
    };
    let (f_new_version_first_view, p_3) = match dec_u64_e(buf, p_2) {
        Some(v) => v,
        None => {
            return None;
        },
    };
    let (f_view_number, p_4) = match dec_u64_e(buf, p_3) {
        Some(v) => v,
        None => {
            return None;
        },
    };
    let (f_signature, p_5) = match dec_opt_sig_e(buf, p_4) {
        Some(v) => v,
        None => {
            return None;
        },
    };
    Some((UpgradeCertificate { old_version: f_old_version, new_version: f_new_version, new_version_first_view: f_new_version_first_view, view_number: f_view_number, signature: f_signature }, p_5))
}

/// Reading the value back from its encoding.
#[verifier::spinoff_prover]
pub proof fn lemma_dec_upgrade_certificate_enc(x: UpgradeCertificate, rest: Seq<u8>)
    ensures
        dec_upgrade_certificate_s(enc_upgrade_certificate(x) + rest) == Some((x, rest)),
{
    reveal(enc_upgrade_certificate);
    reveal(dec_upgrade_certificate_s);
    let t_1 = enc_version(x.new_version) + (u64_le_bytes(x.new_version_first_view) + (u64_le_bytes(x.view_number) + (enc_opt_sig(x.signature) + (rest))));
    assert(enc_upgrade_certificate(x) + rest =~= enc_version(x.old_version) + t_1);
    lemma_dec_version_enc(x.old_version, t_1);
    let t_2 = u64_le_bytes(x.new_version_first_view) + (u64_le_bytes(x.view_number) + (enc_opt_sig(x.signature) + (rest)));
    assert(t_1 =~= enc_version(x.new_version) + t_2);
    lemma_dec_version_enc(x.new_version, t_2);
    let t_3 = u64_le_bytes(x.view_number) + (enc_opt_sig(x.signature) + (rest));
    assert(t_2 =~= u64_le_bytes(x.new_version_first_view) + t_3);
    lemma_dec_u64_enc(x.new_version_first_view, t_3);
    let t_4 = enc_opt_sig(x.signature) + (rest);
    assert(t_3 =~= u64_le_bytes(x.view_number) + t_4);
    lemma_dec_u64_enc(x.view_number, t_4);
    let t_5 = rest;
    assert(t_4 =~= enc_opt_sig(x.signature) + t_5);
    lemma_dec_opt_sig_enc(x.signature, t_5);
}

/// Wire format of a block header.
#[verifier::opaque]
pub open spec fn enc_block_header(x: BlockHeaderV) -> Seq<u8> {
    u64_le_bytes(x.block_number) + commit_bytes(x.payload_commitment) + commit_bytes(x.builder_commitment) + enc_bytes(x.metadata)
}

/// Byte fields fit their length prefixes.
pub open spec fn bounded_block_header(x: BlockHeaderV) -> bool {
    x.metadata.len() <= u64::MAX
}

/// Decode: the inverse of the encoding.
#[verifier::opaque]
pub open spec fn dec_block_header_s(s: Seq<u8>) -> Option<(BlockHeaderV, Seq<u8>)> {
    match dec_u64_s(s) {
        Some((f_block_number, s_1)) => {
            match dec_commit_s(s_1) {
                Some((f_payload_commitment, s_2)) => {
                    match dec_commit_s(s_2) {
                        Some((f_builder_commitment, s_3)) => {
                            match dec_bytes_s(s_3) {
                                Some((f_metadata, s_4)) => {
                                    Some((BlockHeaderV { block_number: f_block_number, payload_commitment: f_payload_commitment, builder_commitment: f_builder_commitment, metadata: f_metadata }, s_4))
                                },
                                None => None,
                            }
                        },
                        None => None,
                    }
                },
                None => None,
            }
        },
        None => None,
    }
}

/// Append the encoding.
pub fn push_block_header(out: &mut Vec<u8>, x: &BlockHeader)
    ensures
        final(out)@ == old(out)@ + enc_block_header(x@),
{
    push_u64_le(out, x.block_number);
    push_commit(out, &x.payload_commitment);
    push_commit(out, &x.builder_commitment);
    push_len_bytes(out, &x.metadata);
    proof {
        reveal(enc_block_header);
        assert(out@ =~= old(out)@ + enc_block_header(x@));
    }
}

/// Decode at `pos`.
pub fn dec_block_header_e(buf: &Vec<u8>, pos: usize) -> (r: Option<(BlockHeader, usize)>)
    requires
        pos <= buf@.len(),
    ensures
        r is Some <==> dec_block_header_s(buf@.skip(pos as int)) is Some,
        r matches Some((x, end)) ==> pos <= end <= buf@.len() && dec_block_header_s(
            buf@.skip(pos as int),
        ) == Some((x@, buf@.skip(end as int))),
{
    proof {
        reveal(dec_block_header_s);
    }
    let (f_block_number, p_1) = match dec_u64_e(buf, pos) {
        Some(v) => v,
        None => {
            return None;
        },
    };
    let (f_payload_commitment, p_2) = match dec_commit_e(buf, p_1) {
        Some(v) => v,
        None => {
            return None;
        },
    };
    let (f_builder_commitment, p_3) = match dec_commit_e(buf, p_2) {
        Some(v) => v,
        None => {
            return None;
        },
    };
    let (f_metadata, p_4) = match dec_bytes_e(buf, p_3) {
        Some(v) => v,
        None => {
            return None;
        },
    };
    Some((BlockHeader { block_number: f_block_number, payload_commitment: f_payload_commitment, builder_commitment: f_builder_commitment, metadata: f_metadata }, p_4))
}

/// Reading the value back from its encoding.
#[verifier::spinoff_prover]
pub proof fn lemma_dec_block_header_enc(x: BlockHeaderV, rest: Seq<u8>)
    requires
        bounded_block_header(x),
    ensures
        dec_block_header_s(enc_block_header(x) + rest) == Some((x, rest)),
{
    reveal(enc_block_header);
    reveal(dec_block_header_s);
    let t_1 = commit_bytes(x.payload_commitment) + (commit_bytes(x.builder_commitment) + (enc_bytes(x.metadata) + (rest)));
    assert(enc_block_header(x) + rest =~= u64_le_bytes(x.block_number) + t_1);
    lemma_dec_u64_enc(x.block_number, t_1);
    let t_2 = commit_bytes(x.builder_commitment) + (enc_bytes(x.metadata) + (rest));
    assert(t_1 =~= commit_bytes(x.payload_commitment) + t_2);
    lemma_dec_commit_enc(x.payload_commitment, t_2);
    let t_3 = enc_bytes(x.metadata) + (rest);
    assert(t_2 =~= commit_bytes(x.builder_commitment) + t_3);
    lemma_dec_commit_enc(x.builder_commitment, t_3);
    let t_4 = rest;
    assert(t_3 =~= enc_bytes(x.metadata) + t_4);
    lemma_dec_bytes_enc(x.metadata, t_4);
}

/// Wire format of a upgrade proposal.
#[verifier::opaque]
pub open spec fn enc_upgrade_proposal(x: UpgradeProposal) -> Seq<u8> {
    enc_version(x.old_version) + enc_version(x.new_version) + u64_le_bytes(x.new_version_first_view) + u64_le_bytes(x.view_number)
}

/// Decode: the inverse of the encoding.
#[verifier::opaque]
pub open spec fn dec_upgrade_proposal_s(s: Seq<u8>) -> Option<(UpgradeProposal, Seq<u8>)> {
    match dec_version_s(s) {
        Some((f_old_version, s_1)) => {
            match dec_version_s(s_1) {
                Some((f_new_version, s_2)) => {
                    match dec_u64_s(s_2) {
                        Some((f_new_version_first_view, s_3)) => {
                            match dec_u64_s(s_3) {
                                Some((f_view_number, s_4)) => {
                                    Some((UpgradeProposal { old_version: f_old_version, new_version: f_new_version, new_version_first_view: f_new_version_first_view, view_number: f_view_number }, s_4))
                                },
                                None => None,
                            }
                        },
                        None => None,
                    }
                },
                None => None,
            }
        },
        None => None,
    }
}

/// Append the encoding.
pub fn push_upgrade_proposal(out: &mut Vec<u8>, x: &UpgradeProposal)
    ensures
        final(out)@ == old(out)@ + enc_upgrade_proposal(*x),
{
    push_version(out, &x.old_version);
    push_version(out, &x.new_version);
    push_u64_le(out, x.new_version_first_view);
    push_u64_le(out, x.view_number);
    proof {
        reveal(enc_upgrade_proposal);
        assert(out@ =~= old(out)@ + enc_upgrade_proposal(*x));
    }
}

/// Decode at `pos`.
pub fn dec_upgrade_proposal_e(buf: &Vec<u8>, pos: usize) -> (r: Option<(UpgradeProposal, usize)>)
    requires
        pos <= buf@.len(),
    ensures
        r is Some <==> dec_upgrade_proposal_s(buf@.skip(pos as int)) is Some,
        r matches Some((x, end)) ==> pos <= end <= buf@.len() && dec_upgrade_proposal_s(
            buf@.skip(pos as int),
        ) == Some((x, buf@.skip(end as int))),
{
    proof {
        reveal(dec_upgrade_proposal_s);
    }
    let (f_old_version, p_1) = match dec_version_e(buf, pos) {
        Some(v) => v,
        None => {
            return None;
        },
    };
    let (f_new_version, p_2) = match dec_version_e(buf, p_1) {
        Some(v) => v,
        None => {
            return None;
        },
    };
    let (f_new_version_first_view, p_3) = match dec_u64_e(buf, p_2) {
        Some(v) => v,
        None => {
            return None;
        },
    };
    let (f_view_number, p_4) = match dec_u64_e(buf, p_3) {
        Some(v) => v,
        None => {
            return None;
        },
    };
    Some((UpgradeProposal { old_version: f_old_version, new_version: f_new_version, new_version_first_view: f_new_version_first_view, view_number: f_view_number }, p_4))
}

/// Reading the value back from its encoding.
#[verifier::spinoff_prover]
pub proof fn lemma_dec_upgrade_proposal_enc(x: UpgradeProposal, rest: Seq<u8>)
    ensures
        dec_upgrade_proposal_s(enc_upgrade_proposal(x) + rest) == Some((x, rest)),
{
    reveal(enc_upgrade_proposal);
    reveal(dec_upgrade_proposal_s);
    let t_1 = enc_version(x.new_version) + (u64_le_bytes(x.new_version_first_view) + (u64_le_bytes(x.view_number) + (rest)));
    assert(enc_upgrade_proposal(x) + rest =~= enc_version(x.old_version) + t_1);
    lemma_dec_version_enc(x.old_version, t_1);
    let t_2 = u64_le_bytes(x.new_version_first_view) + (u64_le_bytes(x.view_number) + (rest));
    assert(t_1 =~= enc_version(x.new_version) + t_2);
    lemma_dec_version_enc(x.new_version, t_2);
    let t_3 = u64_le_bytes(x.view_number) + (rest);
    assert(t_2 =~= u64_le_bytes(x.new_version_first_view) + t_3);
    lemma_dec_u64_enc(x.new_version_first_view, t_3);
    let t_4 = rest;
    assert(t_3 =~= u64_le_bytes(x.view_number) + t_4);
    lemma_dec_u64_enc(x.view_number, t_4);
}

/// Wire format of a quorum vote.
#[verifier::opaque]
pub open spec fn enc_quorum_vote(x: QuorumVote) -> Seq<u8> {
    commit_bytes(x.leaf_commit) + u64_le_bytes(x.view_number) + u64_le_bytes(x.signer) + x.signature@
}

/// Decode: the inverse of the encoding.
#[verifier::opaque]
pub open spec fn dec_quorum_vote_s(s: Seq<u8>) -> Option<(QuorumVote, Seq<u8>)> {
    match dec_commit_s(s) {
        Some((f_leaf_commit, s_1)) => {
            match dec_u64_s(s_1) {
                Some((f_view_number, s_2)) => {
                    match dec_u64_s(s_2) {
                        Some((f_signer, s_3)) => {
                            match dec_sig_s(s_3) {
                                Some((f_signature, s_4)) => {
                                    Some((QuorumVote { leaf_commit: f_leaf_commit, view_number: f_view_number, signer: f_signer, signature: f_signature }, s_4))
                                },
                                None => None,
                            }
                        },
                        None => None,
                    }
                },
                None => None,
            }
        },
        None => None,
    }
}

/// Append the encoding.
pub fn push_quorum_vote(out: &mut Vec<u8>, x: &QuorumVote)
    ensures
        final(out)@ == old(out)@ + enc_quorum_vote(*x),
{
    push_commit(out, &x.leaf_commit);
    push_u64_le(out, x.view_number);
    push_u64_le(out, x.signer);
    push_sig(out, &x.signature);
    proof {
        reveal(enc_quorum_vote);
        assert(out@ =~= old(out)@ + enc_quorum_vote(*x));
    }
}

/// Decode at `pos`.
pub fn dec_quorum_vote_e(buf: &Vec<u8>, pos: usize) -> (r: Option<(QuorumVote, usize)>)
    requires
        pos <= buf@.len(),
    ensures
        r is Some <==> dec_quorum_vote_s(buf@.skip(pos as int)) is Some,
        r matches Some((x, end)) ==> pos <= end <= buf@.len() && dec_quorum_vote_s(
            buf@.skip(pos as int),
        ) == Some((x, buf@.skip(end as int))),
{
    proof {
        reveal(dec_quorum_vote_s);
    }
    let (f_leaf_commit, p_1) = match dec_commit_e(buf, pos) {
        Some(v) => v,
        None => {
            return None;
        },
    };
    let (f_view_number, p_2) = match dec_u64_e(buf, p_1) {
        Some(v) => v,
        None => {
            return None;
        },
    };
    let (f_signer, p_3) = match dec_u64_e(buf, p_2) {
        Some(v) => v,
        None => {
            return None;
        },
    };
    let (f_signature, p_4) = match dec_sig_e(buf, p_3) {
        Some(v) => v,
        None => {
            return None;
        },
    };
    Some((QuorumVote { leaf_commit: f_leaf_commit, view_number: f_view_number, signer: f_signer, signature: f_signature }, p_4))
}

/// Reading the value back from its encoding.
#[verifier::spinoff_prover]
pub proof fn lemma_dec_quorum_vote_enc(x: QuorumVote, rest: Seq<u8>)
    ensures
        dec_quorum_vote_s(enc_quorum_vote(x) + rest) == Some((x, rest)),
{
    reveal(enc_quorum_vote);
    reveal(dec_quorum_vote_s);
    let t_1 = u64_le_bytes(x.view_number) + (u64_le_bytes(x.signer) + (x.signature@ + (rest)));
    assert(enc_quorum_vote(x) + rest =~= commit_bytes(x.leaf_commit) + t_1);
    lemma_dec_commit_enc(x.leaf_commit, t_1);
    let t_2 = u64_le_bytes(x.signer) + (x.signature@ + (rest));
    assert(t_1 =~= u64_le_bytes(x.view_number) + t_2);
    lemma_dec_u64_enc(x.view_number, t_2);
    let t_3 = x.signature@ + (rest);
    assert(t_2 =~= u64_le_bytes(x.signer) + t_3);
    lemma_dec_u64_enc(x.signer, t_3);
    let t_4 = rest;
    assert(t_3 =~= x.signature@ + t_4);
    lemma_dec_sig_enc(x.signature, t_4);
}

/// Wire format of a da vote.
#[verifier::opaque]
pub open spec fn enc_da_vote(x: DaVote) -> Seq<u8> {
    commit_bytes(x.payload_commit) + u64_le_bytes(x.view_number) + u64_le_bytes(x.signer) + x.signature@
}

/// Decode: the inverse of the encoding.
#[verifier::opaque]
pub open spec fn dec_da_vote_s(s: Seq<u8>) -> Option<(DaVote, Seq<u8>)> {
    match dec_commit_s(s) {
        Some((f_payload_commit, s_1)) => {
            match dec_u64_s(s_1) {
                Some((f_view_number, s_2)) => {
                    match dec_u64_s(s_2) {
                        Some((f_signer, s_3)) => {
                            match dec_sig_s(s_3) {
                                Some((f_signature, s_4)) => {
                                    Some((DaVote { payload_commit: f_payload_commit, view_number: f_view_number, signer: f_signer, signature: f_signature }, s_4))
                                },
                                None => None,
                            }
                        },
                        None => None,
                    }
                },
                None => None,
            }
        },
        None => None,
    }
}

/// Append the encoding.
pub fn push_da_vote(out: &mut Vec<u8>, x: &DaVote)
    ensures
        final(out)@ == old(out)@ + enc_da_vote(*x),
{
    push_commit(out, &x.payload_commit);
    push_u64_le(out, x.view_number);
    push_u64_le(out, x.signer);
    push_sig(out, &x.signature);
    proof {
        reveal(enc_da_vote);
        assert(out@ =~= old(out)@ + enc_da_vote(*x));
    }
}

/// Decode at `pos`.
pub fn dec_da_vote_e(buf: &Vec<u8>, pos: usize) -> (r: Option<(DaVote, usize)>)
    requires
        pos <= buf@.len(),
    ensures
        r is Some <==> dec_da_vote_s(buf@.skip(pos as int)) is Some,
        r matches Some((x, end)) ==> pos <= end <= buf@.len() && dec_da_vote_s(
            buf@.skip(pos as int),
        ) == Some((x, buf@.skip(end as int))),
{
    proof {
        reveal(dec_da_vote_s);
    }
    let (f_payload_commit, p_1) = match dec_commit_e(buf, pos) {
        Some(v) => v,
        None => {
            return None;
        },
    };
    let (f_view_number, p_2) = match dec_u64_e(buf, p_1) {
        Some(v) => v,
        None => {
            return None;
        },
    };
    let (f_signer, p_3) = match dec_u64_e(buf, p_2) {
        Some(v) => v,
        None => {
            return None;
        },
    };
    let (f_signature, p_4) = match dec_sig_e(buf, p_3) {
        Some(v) => v,
        None => {
            return None;
        },
    };
    Some((DaVote { payload_commit: f_payload_commit, view_number: f_view_number, signer: f_signer, signature: f_signature }, p_4))
}

/// Reading the value back from its encoding.
#[verifier::spinoff_prover]
pub proof fn lemma_dec_da_vote_enc(x: DaVote, rest: Seq<u8>)
    ensures
        dec_da_vote_s(enc_da_vote(x) + rest) == Some((x, rest)),
{
    reveal(enc_da_vote);
    reveal(dec_da_vote_s);
    let t_1 = u64_le_bytes(x.view_number) + (u64_le_bytes(x.signer) + (x.signature@ + (rest)));
    assert(enc_da_vote(x) + rest =~= commit_bytes(x.payload_commit) + t_1);
    lemma_dec_commit_enc(x.payload_commit, t_1);
    let t_2 = u64_le_bytes(x.signer) + (x.signature@ + (rest));
    assert(t_1 =~= u64_le_bytes(x.view_number) + t_2);
    lemma_dec_u64_enc(x.view_number, t_2);
    let t_3 = x.signature@ + (rest);
    assert(t_2 =~= u64_le_bytes(x.signer) + t_3);
    lemma_dec_u64_enc(x.signer, t_3);
    let t_4 = rest;
    assert(t_3 =~= x.signature@ + t_4);
    lemma_dec_sig_enc(x.signature, t_4);
}

/// Wire format of a timeout vote.
#[verifier::opaque]
pub open spec fn enc_timeout_vote(x: TimeoutVote) -> Seq<u8> {
    u64_le_bytes(x.view_number) + u64_le_bytes(x.signer) + x.signature@
}

/// Decode: the inverse of the encoding.
#[verifier::opaque]
pub open spec fn dec_timeout_vote_s(s: Seq<u8>) -> Option<(TimeoutVote, Seq<u8>)> {
    match dec_u64_s(s) {
        Some((f_view_number, s_1)) => {
            match dec_u64_s(s_1) {
                Some((f_signer, s_2)) => {
                    match dec_sig_s(s_2) {
                        Some((f_signature, s_3)) => {
                            Some((TimeoutVote { view_number: f_view_number, signer: f_signer, signature: f_signature }, s_3))
                        },
                        None => None,
                    }
                },
                None => None,
            }
        },
        None => None,
    }
}

/// Append the encoding.
pub fn push_timeout_vote(out: &mut Vec<u8>, x: &TimeoutVote)
    ensures
        final(out)@ == old(out)@ + enc_timeout_vote(*x),
{
    push_u64_le(out, x.view_number);
    push_u64_le(out, x.signer);
    push_sig(out, &x.signature);
    proof {
        reveal(enc_timeout_vote);
        assert(out@ =~= old(out)@ + enc_timeout_vote(*x));
    }
}

/// Decode at `pos`.
pub fn dec_timeout_vote_e(buf: &Vec<u8>, pos: usize) -> (r: Option<(TimeoutVote, usize)>)
    requires
        pos <= buf@.len(),
    ensures
        r is Some <==> dec_timeout_vote_s(buf@.skip(pos as int)) is Some,
        r matches Some((x, end)) ==> pos <= end <= buf@.len() && dec_timeout_vote_s(
            buf@.skip(pos as int),
        ) == Some((x, buf@.skip(end as int))),
{
    proof {
        reveal(dec_timeout_vote_s);
    }
    let (f_view_number, p_1) = match dec_u64_e(buf, pos) {
        Some(v) => v,
        None => {
            return None;
        },
    };
    let (f_signer, p_2) = match dec_u64_e(buf, p_1) {
        Some(v) => v,
        None => {
            return None;
        },
    };
    let (f_signature, p_3) = match dec_sig_e(buf, p_2) {
        Some(v) => v,
        None => {
            return None;
        },
    };
    Some((TimeoutVote { view_number: f_view_number, signer: f_signer, signature: f_signature }, p_3))
}

/// Reading the value back from its encoding.
#[verifier::spinoff_prover]
pub proof fn lemma_dec_timeout_vote_enc(x: TimeoutVote, rest: Seq<u8>)
    ensures
        dec_timeout_vote_s(enc_timeout_vote(x) + rest) == Some((x, rest)),
{
    reveal(enc_timeout_vote);
    reveal(dec_timeout_vote_s);
    let t_1 = u64_le_bytes(x.signer) + (x.signature@ + (rest));
    assert(enc_timeout_vote(x) + rest =~= u64_le_bytes(x.view_number) + t_1);
    lemma_dec_u64_enc(x.view_number, t_1);
    let t_2 = x.signature@ + (rest);
    assert(t_1 =~= u64_le_bytes(x.signer) + t_2);
    lemma_dec_u64_enc(x.signer, t_2);
    let t_3 = rest;
    assert(t_2 =~= x.signature@ + t_3);
    lemma_dec_sig_enc(x.signature, t_3);
}

/// Wire format of a view sync pre commit vote.
#[verifier::opaque]
pub open spec fn enc_view_sync_pre_commit_vote(x: ViewSyncPreCommitVote) -> Seq<u8> {
    u64_le_bytes(x.view_number) + u64_le_bytes(x.relay) + u64_le_bytes(x.signer) + x.signature@
}

/// Decode: the inverse of the encoding.
#[verifier::opaque]
pub open spec fn dec_view_sync_pre_commit_vote_s(s: Seq<u8>) -> Option<(ViewSyncPreCommitVote, Seq<u8>)> {
    match dec_u64_s(s) {
        Some((f_view_number, s_1)) => {
            match dec_u64_s(s_1) {
                Some((f_relay, s_2)) => {
                    match dec_u64_s(s_2) {
                        Some((f_signer, s_3)) => {
                            match dec_sig_s(s_3) {
                                Some((f_signature, s_4)) => {
                                    Some((ViewSyncPreCommitVote { view_number: f_view_number, relay: f_relay, signer: f_signer, signature: f_signature }, s_4))
                                },
                                None => None,
                            }
                        },
                        None => None,
                    }
                },
                None => None,
            }
        },
        None => None,
    }
}

/// Append the encoding.
pub fn push_view_sync_pre_commit_vote(out: &mut Vec<u8>, x: &ViewSyncPreCommitVote)
    ensures
        final(out)@ == old(out)@ + enc_view_sync_pre_commit_vote(*x),
{
    push_u64_le(out, x.view_number);
    push_u64_le(out, x.relay);
    push_u64_le(out, x.signer);
    push_sig(out, &x.signature);
    proof {
        reveal(enc_view_sync_pre_commit_vote);
        assert(out@ =~= old(out)@ + enc_view_sync_pre_commit_vote(*x));
    }
}

/// Decode at `pos`.
pub fn dec_view_sync_pre_commit_vote_e(buf: &Vec<u8>, pos: usize) -> (r: Option<(ViewSyncPreCommitVote, usize)>)
    requires
        pos <= buf@.len(),
    ensures
        r is Some <==> dec_view_sync_pre_commit_vote_s(buf@.skip(pos as int)) is Some,
        r matches Some((x, end)) ==> pos <= end <= buf@.len() && dec_view_sync_pre_commit_vote_s(
            buf@.skip(pos as int),
        ) == Some((x, buf@.skip(end as int))),
{
    proof {
        reveal(dec_view_sync_pre_commit_vote_s);
    }
    let (f_view_number, p_1) = match dec_u64_e(buf, pos) {
        Some(v) => v,
        None => {
            return None;
        },
    };
    let (f_relay, p_2) = match dec_u64_e(buf, p_1) {
        Some(v) => v,
        None => {
            return None;
        },
    };
    let (f_signer, p_3) = match dec_u64_e(buf, p_2) {
        Some(v) => v,
        None => {
            return None;
        },
    };
    let (f_signature, p_4) = match dec_sig_e(buf, p_3) {
        Some(v) => v,
        None => {
            return None;
        },
    };
    Some((ViewSyncPreCommitVote { view_number: f_view_number, relay: f_relay, signer: f_signer, signature: f_signature }, p_4))
}

/// Reading the value back from its encoding.
#[verifier::spinoff_prover]
pub proof fn lemma_dec_view_sync_pre_commit_vote_enc(x: ViewSyncPreCommitVote, rest: Seq<u8>)
    ensures
        dec_view_sync_pre_commit_vote_s(enc_view_sync_pre_commit_vote(x) + rest) == Some((x, rest)),
{
    reveal(enc_view_sync_pre_commit_vote);
    reveal(dec_view_sync_pre_commit_vote_s);
    let t_1 = u64_le_bytes(x.relay) + (u64_le_bytes(x.signer) + (x.signature@ + (rest)));
    assert(enc_view_sync_pre_commit_vote(x) + rest =~= u64_le_bytes(x.view_number) + t_1);
    lemma_dec_u64_enc(x.view_number, t_1);
    let t_2 = u64_le_bytes(x.signer) + (x.signature@ + (rest));
    assert(t_1 =~= u64_le_bytes(x.relay) + t_2);
    lemma_dec_u64_enc(x.relay, t_2);
    let t_3 = x.signature@ + (rest);
    assert(t_2 =~= u64_le_bytes(x.signer) + t_3);
    lemma_dec_u64_enc(x.signer, t_3);
    let t_4 = rest;
    assert(t_3 =~= x.signature@ + t_4);
    lemma_dec_sig_enc(x.signature, t_4);
}

/// Wire format of a view sync commit vote.
#[verifier::opaque]
pub open spec fn enc_view_sync_commit_vote(x: ViewSyncCommitVote) -> Seq<u8> {
    u64_le_bytes(x.view_number) + u64_le_bytes(x.relay) + u64_le_bytes(x.signer) + x.signature@
}

/// Decode: the inverse of the encoding.
#[verifier::opaque]
pub open spec fn dec_view_sync_commit_vote_s(s: Seq<u8>) -> Option<(ViewSyncCommitVote, Seq<u8>)> {
    match dec_u64_s(s) {
        Some((f_view_number, s_1)) => {
            match dec_u64_s(s_1) {
                Some((f_relay, s_2)) => {
                    match dec_u64_s(s_2) {
                        Some((f_signer, s_3)) => {
                            match dec_sig_s(s_3) {
                                Some((f_signature, s_4)) => {
                                    Some((ViewSyncCommitVote { view_number: f_view_number, relay: f_relay, signer: f_signer, signature: f_signature }, s_4))
                                },
                                None => None,
                            }
                        },
                        None => None,
                    }
                },
                None => None,
            }
        },
        None => None,
    }
}

/// Append the encoding.
pub fn push_view_sync_commit_vote(out: &mut Vec<u8>, x: &ViewSyncCommitVote)
    ensures
        final(out)@ == old(out)@ + enc_view_sync_commit_vote(*x),
{
    push_u64_le(out, x.view_number);
    push_u64_le(out, x.relay);
    push_u64_le(out, x.signer);
    push_sig(out, &x.signature);
    proof {
        reveal(enc_view_sync_commit_vote);
        assert(out@ =~= old(out)@ + enc_view_sync_commit_vote(*x));
    }
}

/// Decode at `pos`.
pub fn dec_view_sync_commit_vote_e(buf: &Vec<u8>, pos: usize) -> (r: Option<(ViewSyncCommitVote, usize)>)
    requires
        pos <= buf@.len(),
    ensures
        r is Some <==> dec_view_sync_commit_vote_s(buf@.skip(pos as int)) is Some,
        r matches Some((x, end)) ==> pos <= end <= buf@.len() && dec_view_sync_commit_vote_s(
            buf@.skip(pos as int),
        ) == Some((x, buf@.skip(end as int))),
{
    proof {
        reveal(dec_view_sync_commit_vote_s);
    }
    let (f_view_number, p_1) = match dec_u64_e(buf, pos) {
        Some(v) => v,
        None => {
            return None;
        },
    };
    let (f_relay, p_2) = match dec_u64_e(buf, p_1) {
        Some(v) => v,
        None => {
            return None;
        },
    };
    let (f_signer, p_3) = match dec_u64_e(buf, p_2) {
        Some(v) => v,
        None => {
            return None;
        },
    };
    let (f_signature, p_4) = match dec_sig_e(buf, p_3) {
        Some(v) => v,
        None => {
            return None;
        },
    };
    Some((ViewSyncCommitVote { view_number: f_view_number, relay: f_relay, signer: f_signer, signature: f_signature }, p_4))
}

/// Reading the value back from its encoding.
#[verifier::spinoff_prover]
pub proof fn lemma_dec_view_sync_commit_vote_enc(x: ViewSyncCommitVote, rest: Seq<u8>)
    ensures
        dec_view_sync_commit_vote_s(enc_view_sync_commit_vote(x) + rest) == Some((x, rest)),
{
    reveal(enc_view_sync_commit_vote);
    reveal(dec_view_sync_commit_vote_s);
    let t_1 = u64_le_bytes(x.relay) + (u64_le_bytes(x.signer) + (x.signature@ + (rest)));
    assert(enc_view_sync_commit_vote(x) + rest =~= u64_le_bytes(x.view_number) + t_1);
    lemma_dec_u64_enc(x.view_number, t_1);
    let t_2 = u64_le_bytes(x.signer) + (x.signature@ + (rest));
    assert(t_1 =~= u64_le_bytes(x.relay) + t_2);
    lemma_dec_u64_enc(x.relay, t_2);
    let t_3 = x.signature@ + (rest);
    assert(t_2 =~= u64_le_bytes(x.signer) + t_3);
    lemma_dec_u64_enc(x.signer, t_3);
    let t_4 = rest;
    assert(t_3 =~= x.signature@ + t_4);
    lemma_dec_sig_enc(x.signature, t_4);
}

/// Wire format of a view sync finalize vote.
#[verifier::opaque]
pub open spec fn enc_view_sync_finalize_vote(x: ViewSyncFinalizeVote) -> Seq<u8> {
    u64_le_bytes(x.view_number) + u64_le_bytes(x.relay) + u64_le_bytes(x.signer) + x.signature@
}

/// Decode: the inverse of the encoding.
#[verifier::opaque]
pub open spec fn dec_view_sync_finalize_vote_s(s: Seq<u8>) -> Option<(ViewSyncFinalizeVote, Seq<u8>)> {
    match dec_u64_s(s) {
        Some((f_view_number, s_1)) => {
            match dec_u64_s(s_1) {
                Some((f_relay, s_2)) => {
                    match dec_u64_s(s_2) {
                        Some((f_signer, s_3)) => {
                            match dec_sig_s(s_3) {
                                Some((f_signature, s_4)) => {
                                    Some((ViewSyncFinalizeVote { view_number: f_view_number, relay: f_relay, signer: f_signer, signature: f_signature }, s_4))
                                },
                                None => None,
                            }
                        },
                        None => None,
                    }
                },
                None => None,
            }
        },
        None => None,
    }
}

/// Append the encoding.
pub fn push_view_sync_finalize_vote(out: &mut Vec<u8>, x: &ViewSyncFinalizeVote)
    ensures
        final(out)@ == old(out)@ + enc_view_sync_finalize_vote(*x),
{
    push_u64_le(out, x.view_number);
    push_u64_le(out, x.relay);
    push_u64_le(out, x.signer);
    push_sig(out, &x.signature);
    proof {
        reveal(enc_view_sync_finalize_vote);
        assert(out@ =~= old(out)@ + enc_view_sync_finalize_vote(*x));
    }
}

/// Decode at `pos`.
pub fn dec_view_sync_finalize_vote_e(buf: &Vec<u8>, pos: usize) -> (r: Option<(ViewSyncFinalizeVote, usize)>)
    requires
        pos <= buf@.len(),
    ensures
        r is Some <==> dec_view_sync_finalize_vote_s(buf@.skip(pos as int)) is Some,
        r matches Some((x, end)) ==> pos <= end <= buf@.len() && dec_view_sync_finalize_vote_s(
            buf@.skip(pos as int),
        ) == Some((x, buf@.skip(end as int))),
{
    proof {
        reveal(dec_view_sync_finalize_vote_s);
    }
    let (f_view_number, p_1) = match dec_u64_e(buf, pos) {
        Some(v) => v,
        None => {
            return None;
        },
    };
    let (f_relay, p_2) = match dec_u64_e(buf, p_1) {
        Some(v) => v,
        None => {
            return None;
        },
    };
    let (f_signer, p_3) = match dec_u64_e(buf, p_2) {
        Some(v) => v,
        None => {
            return None;
        },
    };
    let (f_signature, p_4) = match dec_sig_e(buf, p_3) {
        Some(v) => v,
        None => {
            return None;
        },
    };
    Some((ViewSyncFinalizeVote { view_number: f_view_number, relay: f_relay, signer: f_signer, signature: f_signature }, p_4))
}

/// Reading the value back from its encoding.
#[verifier::spinoff_prover]
pub proof fn lemma_dec_view_sync_finalize_vote_enc(x: ViewSyncFinalizeVote, rest: Seq<u8>)
    ensures
        dec_view_sync_finalize_vote_s(enc_view_sync_finalize_vote(x) + rest) == Some((x, rest)),
{
    reveal(enc_view_sync_finalize_vote);
    reveal(dec_view_sync_finalize_vote_s);
    let t_1 = u64_le_bytes(x.relay) + (u64_le_bytes(x.signer) + (x.signature@ + (rest)));
    assert(enc_view_sync_finalize_vote(x) + rest =~= u64_le_bytes(x.view_number) + t_1);
    lemma_dec_u64_enc(x.view_number, t_1);
    let t_2 = u64_le_bytes(x.signer) + (x.signature@ + (rest));
    assert(t_1 =~= u64_le_bytes(x.relay) + t_2);
    lemma_dec_u64_enc(x.relay, t_2);
    let t_3 = x.signature@ + (rest);
    assert(t_2 =~= u64_le_bytes(x.signer) + t_3);
    lemma_dec_u64_enc(x.signer, t_3);
    let t_4 = rest;
    assert(t_3 =~= x.signature@ + t_4);
    lemma_dec_sig_enc(x.signature, t_4);
}

/// Wire format of a upgrade vote.
#[verifier::opaque]
pub open spec fn enc_upgrade_vote(x: UpgradeVote) -> Seq<u8> {
    u64_le_bytes(x.view_number) + u64_le_bytes(x.signer) + x.signature@
}

/// Decode: the inverse of the encoding.
#[verifier::opaque]
pub open spec fn dec_upgrade_vote_s(s: Seq<u8>) -> Option<(UpgradeVote, Seq<u8>)> {
    match dec_u64_s(s) {
        Some((f_view_number, s_1)) => {
            match dec_u64_s(s_1) {
                Some((f_signer, s_2)) => {
                    match dec_sig_s(s_2) {
                        Some((f_signature, s_3)) => {
                            Some((UpgradeVote { view_number: f_view_number, signer: f_signer, signature: f_signature }, s_3))
                        },
                        None => None,
                    }
                },
                None => None,
            }
        },
        None => None,
    }
}

/// Append the encoding.
pub fn push_upgrade_vote(out: &mut Vec<u8>, x: &UpgradeVote)
    ensures
        final(out)@ == old(out)@ + enc_upgrade_vote(*x),
{
    push_u64_le(out, x.view_number);
    push_u64_le(out, x.signer);
    push_sig(out, &x.signature);
    proof {
        reveal(enc_upgrade_vote);
        assert(out@ =~= old(out)@ + enc_upgrade_vote(*x));
    }
}

/// Decode at `pos`.
pub fn dec_upgrade_vote_e(buf: &Vec<u8>, pos: usize) -> (r: Option<(UpgradeVote, usize)>)
    requires
        pos <= buf@.len(),
    ensures
        r is Some <==> dec_upgrade_vote_s(buf@.skip(pos as int)) is Some,
        r matches Some((x, end)) ==> pos <= end <= buf@.len() && dec_upgrade_vote_s(
            buf@.skip(pos as int),
        ) == Some((x, buf@.skip(end as int))),
{
    proof {
        reveal(dec_upgrade_vote_s);
    }
    let (f_view_number, p_1) = match dec_u64_e(buf, pos) {
        Some(v) => v,
        None => {
            return None;
        },
    };
    let (f_signer, p_2) = match dec_u64_e(buf, p_1) {
        Some(v) => v,
        None => {
            return None;
        },
    };
    let (f_signature, p_3) = match dec_sig_e(buf, p_2) {
        Some(v) => v,
        None => {
            return None;
        },
    };
    Some((UpgradeVote { view_number: f_view_number, signer: f_signer, signature: f_signature }, p_3))
}

/// Reading the value back from its encoding.
#[verifier::spinoff_prover]
pub proof fn lemma_dec_upgrade_vote_enc(x: UpgradeVote, rest: Seq<u8>)
    ensures
        dec_upgrade_vote_s(enc_upgrade_vote(x) + rest) == Some((x, rest)),
{
    reveal(enc_upgrade_vote);
    reveal(dec_upgrade_vote_s);
    let t_1 = u64_le_bytes(x.signer) + (x.signature@ + (rest));
    assert(enc_upgrade_vote(x) + rest =~= u64_le_bytes(x.view_number) + t_1);
    lemma_dec_u64_enc(x.view_number, t_1);
    let t_2 = x.signature@ + (rest);
    assert(t_1 =~= u64_le_bytes(x.signer) + t_2);
    lemma_dec_u64_enc(x.signer, t_2);
    let t_3 = rest;
    assert(t_2 =~= x.signature@ + t_3);
    lemma_dec_sig_enc(x.signature, t_3);
}

/// Wire format of a da proposal.
#[verifier::opaque]
pub open spec fn enc_da_proposal(x: DaProposalV) -> Seq<u8> {
    enc_bytes(x.encoded_transactions) + enc_bytes(x.metadata) + u64_le_bytes(x.view_number)
}

/// Byte fields fit their length prefixes.
pub open spec fn bounded_da_proposal(x: DaProposalV) -> bool {
    x.encoded_transactions.len() <= u64::MAX && x.metadata.len() <= u64::MAX
}

/// Decode: the inverse of the encoding.
#[verifier::opaque]
pub open spec fn dec_da_proposal_s(s: Seq<u8>) -> Option<(DaProposalV, Seq<u8>)> {
    match dec_bytes_s(s) {
        Some((f_encoded_transactions, s_1)) => {
            match dec_bytes_s(s_1) {
                Some((f_metadata, s_2)) => {
                    match dec_u64_s(s_2) {
                        Some((f_view_number, s_3)) => {
                            Some((DaProposalV { encoded_transactions: f_encoded_transactions, metadata: f_metadata, view_number: f_view_number }, s_3))
                        },
                        None => None,
                    }
                },
                None => None,
            }
        },
        None => None,
    }
}

/// Append the encoding.
pub fn push_da_proposal(out: &mut Vec<u8>, x: &DaProposal)
    ensures
        final(out)@ == old(out)@ + enc_da_proposal(x@),
{
    push_len_bytes(out, &x.encoded_transactions);
    push_len_bytes(out, &x.metadata);
    push_u64_le(out, x.view_number);
    proof {
        reveal(enc_da_proposal);
        assert(out@ =~= old(out)@ + enc_da_proposal(x@));
    }
}

/// Decode at `pos`.
pub fn dec_da_proposal_e(buf: &Vec<u8>, pos: usize) -> (r: Option<(DaProposal, usize)>)
    requires
        pos <= buf@.len(),
    ensures
        r is Some <==> dec_da_proposal_s(buf@.skip(pos as int)) is Some,
        r matches Some((x, end)) ==> pos <= end <= buf@.len() && dec_da_proposal_s(
            buf@.skip(pos as int),
        ) == Some((x@, buf@.skip(end as int))),
{
    proof {
        reveal(dec_da_proposal_s);
    }
    let (f_encoded_transactions, p_1) = match dec_bytes_e(buf, pos) {
        Some(v) => v,
        None => {
            return None;
        },
    };
    let (f_metadata, p_2) = match dec_bytes_e(buf, p_1) {
        Some(v) => v,
        None => {
            return None;
        },
    };
    let (f_view_number, p_3) = match dec_u64_e(buf, p_2) {
        Some(v) => v,
        None => {
            return None;
        },
    };
    Some((DaProposal { encoded_transactions: f_encoded_transactions, metadata: f_metadata, view_number: f_view_number }, p_3))
}

/// Reading the value back from its encoding.
#[verifier::spinoff_prover]
pub proof fn lemma_dec_da_proposal_enc(x: DaProposalV, rest: Seq<u8>)
    requires
        bounded_da_proposal(x),
    ensures
        dec_da_proposal_s(enc_da_proposal(x) + rest) == Some((x, rest)),
{
    reveal(enc_da_proposal);
    reveal(dec_da_proposal_s);
    let t_1 = enc_bytes(x.metadata) + (u64_le_bytes(x.view_number) + (rest));
    assert(enc_da_proposal(x) + rest =~= enc_bytes(x.encoded_transactions) + t_1);
    lemma_dec_bytes_enc(x.encoded_transactions, t_1);
    let t_2 = u64_le_bytes(x.view_number) + (rest);
    assert(t_1 =~= enc_bytes(x.metadata) + t_2);
    lemma_dec_bytes_enc(x.metadata, t_2);
    let t_3 = rest;
    assert(t_2 =~= u64_le_bytes(x.view_number) + t_3);
    lemma_dec_u64_enc(x.view_number, t_3);
}

/// Wire format of a vid disperse share.
#[verifier::opaque]
pub open spec fn enc_vid_disperse_share(x: VidDisperseShareV) -> Seq<u8> {
    u64_le_bytes(x.view_number) + commit_bytes(x.payload_commitment) + enc_bytes(x.share) + u64_le_bytes(x.recipient_key)
}

/// Byte fields fit their length prefixes.
pub open spec fn bounded_vid_disperse_share(x: VidDisperseShareV) -> bool {
    x.share.len() <= u64::MAX
}

/// Decode: the inverse of the encoding.
#[verifier::opaque]
pub open spec fn dec_vid_disperse_share_s(s: Seq<u8>) -> Option<(VidDisperseShareV, Seq<u8>)> {
    match dec_u64_s(s) {
        Some((f_view_number, s_1)) => {
            match dec_commit_s(s_1) {
                Some((f_payload_commitment, s_2)) => {
                    match dec_bytes_s(s_2) {
                        Some((f_share, s_3)) => {
                            match dec_u64_s(s_3) {
                                Some((f_recipient_key, s_4)) => {
                                    Some((VidDisperseShareV { view_number: f_view_number, payload_commitment: f_payload_commitment, share: f_share, recipient_key: f_recipient_key }, s_4))
                                },
                                None => None,
                            }
                        },
                        None => None,
                    }
                },
                None => None,
            }
        },
        None => None,
    }
}

/// Append the encoding.
pub fn push_vid_disperse_share(out: &mut Vec<u8>, x: &VidDisperseShare)
    ensures
        final(out)@ == old(out)@ + enc_vid_disperse_share(x@),
{
    push_u64_le(out, x.view_number);
    push_commit(out, &x.payload_commitment);
    push_len_bytes(out, &x.share);
    push_u64_le(out, x.recipient_key);
    proof {
        reveal(enc_vid_disperse_share);
        assert(out@ =~= old(out)@ + enc_vid_disperse_share(x@));
    }
}

/// Decode at `pos`.
pub fn dec_vid_disperse_share_e(buf: &Vec<u8>, pos: usize) -> (r: Option<(VidDisperseShare, usize)>)
    requires
        pos <= buf@.len(),
    ensures
        r is Some <==> dec_vid_disperse_share_s(buf@.skip(pos as int)) is Some,
        r matches Some((x, end)) ==> pos <= end <= buf@.len() && dec_vid_disperse_share_s(
            buf@.skip(pos as int),
        ) == Some((x@, buf@.skip(end as int))),
{
    proof {
        reveal(dec_vid_disperse_share_s);
    }
    let (f_view_number, p_1) = match dec_u64_e(buf, pos) {
        Some(v) => v,
        None => {
            return None;
        },
    };
    let (f_payload_commitment, p_2) = match dec_commit_e(buf, p_1) {
        Some(v) => v,
        None => {
            return None;
        },
    };
    let (f_share, p_3) = match dec_bytes_e(buf, p_2) {
        Some(v) => v,
        None => {
            return None;
        },
    };
    let (f_recipient_key, p_4) = match dec_u64_e(buf, p_3) {
        Some(v) => v,
        None => {
            return None;
        },
    };
    Some((VidDisperseShare { view_number: f_view_number, payload_commitment: f_payload_commitment, share: f_share, recipient_key: f_recipient_key }, p_4))
}

/// Reading the value back from its encoding.
#[verifier::spinoff_prover]
pub proof fn lemma_dec_vid_disperse_share_enc(x: VidDisperseShareV, rest: Seq<u8>)
    requires
        bounded_vid_disperse_share(x),
    ensures
        dec_vid_disperse_share_s(enc_vid_disperse_share(x) + rest) == Some((x, rest)),
{
    reveal(enc_vid_disperse_share);
    reveal(dec_vid_disperse_share_s);
    let t_1 = commit_bytes(x.payload_commitment) + (enc_bytes(x.share) + (u64_le_bytes(x.recipient_key) + (rest)));
    assert(enc_vid_disperse_share(x) + rest =~= u64_le_bytes(x.view_number) + t_1);
    lemma_dec_u64_enc(x.view_number, t_1);
    let t_2 = enc_bytes(x.share) + (u64_le_bytes(x.recipient_key) + (rest));
    assert(t_1 =~= commit_bytes(x.payload_commitment) + t_2);
    lemma_dec_commit_enc(x.payload_commitment, t_2);
    let t_3 = u64_le_bytes(x.recipient_key) + (rest);
    assert(t_2 =~= enc_bytes(x.share) + t_3);
    lemma_dec_bytes_enc(x.share, t_3);
    let t_4 = rest;
    assert(t_3 =~= u64_le_bytes(x.recipient_key) + t_4);
    lemma_dec_u64_enc(x.recipient_key, t_4);
}

/// Wire format of a view change evidence: a variant tag, then the payload.
#[verifier::opaque]
pub open spec fn enc_view_change_evidence(x: ViewChangeEvidence) -> Seq<u8> {
    match x {
        ViewChangeEvidence::Timeout(p0) => seq![1u8] + enc_timeout_certificate(p0),
        ViewChangeEvidence::ViewSync(p0) => seq![2u8] + enc_view_sync_finalize_certificate(p0),
    }
}

/// Decode: the inverse of the encoding.
#[verifier::opaque]
pub open spec fn dec_view_change_evidence_s(s: Seq<u8>) -> Option<(ViewChangeEvidence, Seq<u8>)> {
    match dec_u8_s(s) {
        Some((tag, s0)) => {
            if tag == 1 {
                match dec_timeout_certificate_s(s0) {
                    Some((q0, s1)) => {
                        Some((ViewChangeEvidence::Timeout(q0), s1))
                    },
                    None => None,
                }
            } else if tag == 2 {
                match dec_view_sync_finalize_certificate_s(s0) {
                    Some((q0, s1)) => {
                        Some((ViewChangeEvidence::ViewSync(q0), s1))
                    },
                    None => None,
                }
            } else {
                None
            }
        },
        None => None,
    }
}

/// Append the encoding.
pub fn push_view_change_evidence(out: &mut Vec<u8>, x: &ViewChangeEvidence)
    ensures
        final(out)@ == old(out)@ + enc_view_change_evidence(*x),
{
    match x {
        ViewChangeEvidence::Timeout(p0) => {
            out.push(1u8);
            push_timeout_certificate(out, p0);
        },
        ViewChangeEvidence::ViewSync(p0) => {
            out.push(2u8);
            push_view_sync_finalize_certificate(out, p0);
        },
    }
    proof {
        reveal(enc_view_change_evidence);
        assert(out@ =~= old(out)@ + enc_view_change_evidence(*x));
    }
}

/// Decode at `pos`.
pub fn dec_view_change_evidence_e(buf: &Vec<u8>, pos: usize) -> (r: Option<(ViewChangeEvidence, usize)>)
    requires
        pos <= buf@.len(),
    ensures
        r is Some <==> dec_view_change_evidence_s(buf@.skip(pos as int)) is Some,
        r matches Some((x, end)) ==> pos <= end <= buf@.len() && dec_view_change_evidence_s(
            buf@.skip(pos as int),
        ) == Some((x, buf@.skip(end as int))),
{
    proof {
        reveal(dec_view_change_evidence_s);
    }
    let (tag, p_t) = match dec_u8_e(buf, pos) {
        Some(v) => v,
        None => {
            return None;
        },
    };
    if tag == 1 {
        let (q0, e1) = match dec_timeout_certificate_e(buf, p_t) {
            Some(v) => v,
            None => {
                return None;
            },
        };
        Some((ViewChangeEvidence::Timeout(q0), e1))
    } else if tag == 2 {
        let (q0, e1) = match dec_view_sync_finalize_certificate_e(buf, p_t) {
            Some(v) => v,
            None => {
                return None;
            },
        };
        Some((ViewChangeEvidence::ViewSync(q0), e1))
    } else {
        None
    }
}

/// Reading the value back from its encoding.
#[verifier::spinoff_prover]
pub proof fn lemma_dec_view_change_evidence_enc(x: ViewChangeEvidence, rest: Seq<u8>)
    ensures
        dec_view_change_evidence_s(enc_view_change_evidence(x) + rest) == Some((x, rest)),
{
    reveal(enc_view_change_evidence);
    reveal(dec_view_change_evidence_s);
    match x {
        ViewChangeEvidence::Timeout(p0) => {
            assert(enc_view_change_evidence(x) + rest =~= seq![1u8] + (enc_timeout_certificate(p0) + (rest)));
            lemma_dec_u8_enc(1u8, enc_timeout_certificate(p0) + (rest));
            lemma_dec_timeout_certificate_enc(p0, (rest));
        },
        ViewChangeEvidence::ViewSync(p0) => {
            assert(enc_view_change_evidence(x) + rest =~= seq![2u8] + (enc_view_sync_finalize_certificate(p0) + (rest)));
            lemma_dec_u8_enc(2u8, enc_view_sync_finalize_certificate(p0) + (rest));
            lemma_dec_view_sync_finalize_certificate_enc(p0, (rest));
        },
    }
}

/// Wire format of an optional value: a presence byte, then the value.
#[verifier::opaque]
pub open spec fn enc_opt_upgrade_certificate(x: Option<UpgradeCertificate>) -> Seq<u8> {
    match x {
        None => seq![0u8],
        Some(p) => seq![1u8] + enc_upgrade_certificate(p),
    }
}

/// Decode: the inverse of the encoding.
#[verifier::opaque]
pub open spec fn dec_opt_upgrade_certificate_s(s: Seq<u8>) -> Option<(Option<UpgradeCertificate>, Seq<u8>)> {
    match dec_u8_s(s) {
        Some((tag, s1)) => {
            if tag == 0 {
                Some((None, s1))
            } else if tag == 1 {
                match dec_upgrade_certificate_s(s1) {
                    Some((p, s2)) => Some((Some(p), s2)),
                    None => None,
                }
            } else {
                None
            }
        },
        None => None,
    }
}

/// Append the encoding.
pub fn push_opt_upgrade_certificate(out: &mut Vec<u8>, x: &Option<UpgradeCertificate>)
    ensures
        final(out)@ == old(out)@ + enc_opt_upgrade_certificate(*x),
{
    match x {
        None => {
            out.push(0u8);
        },
        Some(p) => {
            out.push(1u8);
            push_upgrade_certificate(out, p);
        },
    }
    proof {
        reveal(enc_opt_upgrade_certificate);
        assert(out@ =~= old(out)@ + enc_opt_upgrade_certificate(*x));
    }
}

/// Decode at `pos`.
pub fn dec_opt_upgrade_certificate_e(buf: &Vec<u8>, pos: usize) -> (r: Option<(Option<UpgradeCertificate>, usize)>)
    requires
        pos <= buf@.len(),
    ensures
        r is Some <==> dec_opt_upgrade_certificate_s(buf@.skip(pos as int)) is Some,
        r matches Some((x, end)) ==> pos <= end <= buf@.len() && dec_opt_upgrade_certificate_s(
            buf@.skip(pos as int),
        ) == Some((x, buf@.skip(end as int))),
{
    proof {
        reveal(dec_opt_upgrade_certificate_s);
    }
    let (tag, p1) = match dec_u8_e(buf, pos) {
        Some(v) => v,
        None => {
            return None;
        },
    };
    if tag == 0 {
        Some((None, p1))
    } else if tag == 1 {
        match dec_upgrade_certificate_e(buf, p1) {
            Some((p, p2)) => Some((Some(p), p2)),
            None => None,
        }
    } else {
        None
    }
}

/// Reading the value back from its encoding.
#[verifier::spinoff_prover]
pub proof fn lemma_dec_opt_upgrade_certificate_enc(x: Option<UpgradeCertificate>, rest: Seq<u8>)
    ensures
        dec_opt_upgrade_certificate_s(enc_opt_upgrade_certificate(x) + rest) == Some((x, rest)),
{
    reveal(enc_opt_upgrade_certificate);
    reveal(dec_opt_upgrade_certificate_s);
    match x {
        None => {
            assert(enc_opt_upgrade_certificate(x) + rest =~= seq![0u8] + rest);
            lemma_dec_u8_enc(0u8, rest);
        },
        Some(p) => {
            assert(enc_opt_upgrade_certificate(x) + rest =~= seq![1u8] + (enc_upgrade_certificate(p) + rest));
            lemma_dec_u8_enc(1u8, enc_upgrade_certificate(p) + rest);
            lemma_dec_upgrade_certificate_enc(p, rest);
        },
    }
}

/// Wire format of an optional value: a presence byte, then the value.
#[verifier::opaque]
pub open spec fn enc_opt_view_change_evidence(x: Option<ViewChangeEvidence>) -> Seq<u8> {
    match x {
        None => seq![0u8],
        Some(p) => seq![1u8] + enc_view_change_evidence(p),
    }
}

/// Decode: the inverse of the encoding.
#[verifier::opaque]
pub open spec fn dec_opt_view_change_evidence_s(s: Seq<u8>) -> Option<(Option<ViewChangeEvidence>, Seq<u8>)> {
    match dec_u8_s(s) {
        Some((tag, s1)) => {
            if tag == 0 {
                Some((None, s1))
            } else if tag == 1 {
                match dec_view_change_evidence_s(s1) {
                    Some((p, s2)) => Some((Some(p), s2)),
                    None => None,
                }
            } else {
                None
            }
        },
        None => None,
    }
}

/// Append the encoding.
pub fn push_opt_view_change_evidence(out: &mut Vec<u8>, x: &Option<ViewChangeEvidence>)
    ensures
        final(out)@ == old(out)@ + enc_opt_view_change_evidence(*x),
{
    match x {
        None => {
            out.push(0u8);
        },
        Some(p) => {
            out.push(1u8);
            push_view_change_evidence(out, p);
        },
    }
    proof {
        reveal(enc_opt_view_change_evidence);
        assert(out@ =~= old(out)@ + enc_opt_view_change_evidence(*x));
    }
}

/// Decode at `pos`.
pub fn dec_opt_view_change_evidence_e(buf: &Vec<u8>, pos: usize) -> (r: Option<(Option<ViewChangeEvidence>, usize)>)
    requires
        pos <= buf@.len(),
    ensures
        r is Some <==> dec_opt_view_change_evidence_s(buf@.skip(pos as int)) is Some,
        r matches Some((x, end)) ==> pos <= end <= buf@.len() && dec_opt_view_change_evidence_s(
            buf@.skip(pos as int),
        ) == Some((x, buf@.skip(end as int))),
{
    proof {
        reveal(dec_opt_view_change_evidence_s);
    }
    let (tag, p1) = match dec_u8_e(buf, pos) {
        Some(v) => v,
        None => {
            return None;
        },
    };
    if tag == 0 {
        Some((None, p1))
    } else if tag == 1 {
        match dec_view_change_evidence_e(buf, p1) {
            Some((p, p2)) => Some((Some(p), p2)),
            None => None,
        }
    } else {
        None
    }
}

/// Reading the value back from its encoding.
#[verifier::spinoff_prover]
pub proof fn lemma_dec_opt_view_change_evidence_enc(x: Option<ViewChangeEvidence>, rest: Seq<u8>)
    ensures
        dec_opt_view_change_evidence_s(enc_opt_view_change_evidence(x) + rest) == Some((x, rest)),
{
    reveal(enc_opt_view_change_evidence);
    reveal(dec_opt_view_change_evidence_s);
    match x {
        None => {
            assert(enc_opt_view_change_evidence(x) + rest =~= seq![0u8] + rest);
            lemma_dec_u8_enc(0u8, rest);
        },
        Some(p) => {
            assert(enc_opt_view_change_evidence(x) + rest =~= seq![1u8] + (enc_view_change_evidence(p) + rest));
            lemma_dec_u8_enc(1u8, enc_view_change_evidence(p) + rest);
            lemma_dec_view_change_evidence_enc(p, rest);
        },
    }
}

/// Wire format of a quorum proposal data.
#[verifier::opaque]
pub open spec fn enc_quorum_proposal_data(x: QuorumProposalV) -> Seq<u8> {
    enc_block_header(x.block_header) + u64_le_bytes(x.view_number) + enc_quorum_certificate(x.justify_qc) + enc_opt_upgrade_certificate(x.upgrade_certificate) + enc_opt_view_change_evidence(x.proposal_certificate)
}

/// Byte fields fit their length prefixes.
pub open spec fn bounded_quorum_proposal_data(x: QuorumProposalV) -> bool {
    bounded_block_header(x.block_header)
}

/// Decode: the inverse of the encoding.
#[verifier::opaque]
pub open spec fn dec_quorum_proposal_data_s(s: Seq<u8>) -> Option<(QuorumProposalV, Seq<u8>)> {
    match dec_block_header_s(s) {
        Some((f_block_header, s_1)) => {
            match dec_u64_s(s_1) {
                Some((f_view_number, s_2)) => {
                    match dec_quorum_certificate_s(s_2) {
                        Some((f_justify_qc, s_3)) => {
                            match dec_opt_upgrade_certificate_s(s_3) {
                                Some((f_upgrade_certificate, s_4)) => {
                                    match dec_opt_view_change_evidence_s(s_4) {
                                        Some((f_proposal_certificate, s_5)) => {
                                            Some((QuorumProposalV { block_header: f_block_header, view_number: f_view_number, justify_qc: f_justify_qc, upgrade_certificate: f_upgrade_certificate, proposal_certificate: f_proposal_certificate }, s_5))
                                        },
                                        None => None,
                                    }
                                },
                                None => None,
                            }
                        },
                        None => None,
                    }
                },
                None => None,
            }
        },
        None => None,
    }
}

/// Append the encoding.
pub fn push_quorum_proposal_data(out: &mut Vec<u8>, x: &QuorumProposal)
    ensures
        final(out)@ == old(out)@ + enc_quorum_proposal_data(x@),
{
    push_block_header(out, &x.block_header);
    push_u64_le(out, x.view_number);
    push_quorum_certificate(out, &x.justify_qc);
    push_opt_upgrade_certificate(out, &x.upgrade_certificate);
    push_opt_view_change_evidence(out, &x.proposal_certificate);
    proof {
        reveal(enc_quorum_proposal_data);
        assert(out@ =~= old(out)@ + enc_quorum_proposal_data(x@));
    }
}

/// Decode at `pos`.
pub fn dec_quorum_proposal_data_e(buf: &Vec<u8>, pos: usize) -> (r: Option<(QuorumProposal, usize)>)
    requires
        pos <= buf@.len(),
    ensures
        r is Some <==> dec_quorum_proposal_data_s(buf@.skip(pos as int)) is Some,
        r matches Some((x, end)) ==> pos <= end <= buf@.len() && dec_quorum_proposal_data_s(
            buf@.skip(pos as int),
        ) == Some((x@, buf@.skip(end as int))),
{
    proof {
        reveal(dec_quorum_proposal_data_s);
    }
    let (f_block_header, p_1) = match dec_block_header_e(buf, pos) {
        Some(v) => v,
        None => {
            return None;
        },
    };
    let (f_view_number, p_2) = match dec_u64_e(buf, p_1) {
        Some(v) => v,
        None => {
            return None;
        },
    };
    let (f_justify_qc, p_3) = match dec_quorum_certificate_e(buf, p_2) {
        Some(v) => v,
        None => {
            return None;
        },
    };
    let (f_upgrade_certificate, p_4) = match dec_opt_upgrade_certificate_e(buf, p_3) {
        Some(v) => v,
        None => {
            return None;
        },
    };
    let (f_proposal_certificate, p_5) = match dec_opt_view_change_evidence_e(buf, p_4) {
        Some(v) => v,
        None => {
            return None;
        },
    };
    Some((QuorumProposal { block_header: f_block_header, view_number: f_view_number, justify_qc: f_justify_qc, upgrade_certificate: f_upgrade_certificate, proposal_certificate: f_proposal_certificate }, p_5))
}

/// Reading the value back from its encoding.
#[verifier::spinoff_prover]
pub proof fn lemma_dec_quorum_proposal_data_enc(x: QuorumProposalV, rest: Seq<u8>)
    requires
        bounded_quorum_proposal_data(x),
    ensures
        dec_quorum_proposal_data_s(enc_quorum_proposal_data(x) + rest) == Some((x, rest)),
{
    reveal(enc_quorum_proposal_data);
    reveal(dec_quorum_proposal_data_s);
    let t_1 = u64_le_bytes(x.view_number) + (enc_quorum_certificate(x.justify_qc) + (enc_opt_upgrade_certificate(x.upgrade_certificate) + (enc_opt_view_change_evidence(x.proposal_certificate) + (rest))));
    assert(enc_quorum_proposal_data(x) + rest =~= enc_block_header(x.block_header) + t_1);
    lemma_dec_block_header_enc(x.block_header, t_1);
    let t_2 = enc_quorum_certificate(x.justify_qc) + (enc_opt_upgrade_certificate(x.upgrade_certificate) + (enc_opt_view_change_evidence(x.proposal_certificate) + (rest)));
    assert(t_1 =~= u64_le_bytes(x.view_number) + t_2);
    lemma_dec_u64_enc(x.view_number, t_2);
    let t_3 = enc_opt_upgrade_certificate(x.upgrade_certificate) + (enc_opt_view_change_evidence(x.proposal_certificate) + (rest));
    assert(t_2 =~= enc_quorum_certificate(x.justify_qc) + t_3);
    lemma_dec_quorum_certificate_enc(x.justify_qc, t_3);
    let t_4 = enc_opt_view_change_evidence(x.proposal_certificate) + (rest);
    assert(t_3 =~= enc_opt_upgrade_certificate(x.upgrade_certificate) + t_4);
    lemma_dec_opt_upgrade_certificate_enc(x.upgrade_certificate, t_4);
    let t_5 = rest;
    assert(t_4 =~= enc_opt_view_change_evidence(x.proposal_certificate) + t_5);
    lemma_dec_opt_view_change_evidence_enc(x.proposal_certificate, t_5);
}

/// Wire format of a signed quorum proposal.
#[verifier::opaque]
pub open spec fn enc_signed_quorum_proposal(x: ProposalV<QuorumProposalV>) -> Seq<u8> {
    enc_quorum_proposal_data(x.data) + x.signature@
}

/// Byte fields fit their length prefixes.
pub open spec fn bounded_signed_quorum_proposal(x: ProposalV<QuorumProposalV>) -> bool {
    bounded_quorum_proposal_data(x.data)
}

/// Decode: the inverse of the encoding.
#[verifier::opaque]
pub open spec fn dec_signed_quorum_proposal_s(s: Seq<u8>) -> Option<(ProposalV<QuorumProposalV>, Seq<u8>)> {
    match dec_quorum_proposal_data_s(s) {
        Some((f_data, s_1)) => {
            match dec_sig_s(s_1) {
                Some((f_signature, s_2)) => {
                    Some((ProposalV { data: f_data, signature: f_signature }, s_2))
                },
                None => None,
            }
        },
        None => None,
    }
}

/// Append the encoding.
pub fn push_signed_quorum_proposal(out: &mut Vec<u8>, x: &Proposal<QuorumProposal>)
    ensures
        final(out)@ == old(out)@ + enc_signed_quorum_proposal(x@),
{
    push_quorum_proposal_data(out, &x.data);
    push_sig(out, &x.signature);
    proof {
        reveal(enc_signed_quorum_proposal);
        assert(out@ =~= old(out)@ + enc_signed_quorum_proposal(x@));
    }
}

/// Decode at `pos`.
pub fn dec_signed_quorum_proposal_e(buf: &Vec<u8>, pos: usize) -> (r: Option<(Proposal<QuorumProposal>, usize)>)
    requires
        pos <= buf@.len(),
    ensures
        r is Some <==> dec_signed_quorum_proposal_s(buf@.skip(pos as int)) is Some,
        r matches Some((x, end)) ==> pos <= end <= buf@.len() && dec_signed_quorum_proposal_s(
            buf@.skip(pos as int),
        ) == Some((x@, buf@.skip(end as int))),
{
    proof {
        reveal(dec_signed_quorum_proposal_s);
    }
    let (f_data, p_1) = match dec_quorum_proposal_data_e(buf, pos) {
        Some(v) => v,
        None => {
            return None;
        },
    };
    let (f_signature, p_2) = match dec_sig_e(buf, p_1) {
        Some(v) => v,
        None => {
            return None;
        },
    };
    Some((Proposal { data: f_data, signature: f_signature }, p_2))
}

/// Reading the value back from its encoding.
#[verifier::spinoff_prover]
pub proof fn lemma_dec_signed_quorum_proposal_enc(x: ProposalV<QuorumProposalV>, rest: Seq<u8>)
    requires
        bounded_signed_quorum_proposal(x),
    ensures
        dec_signed_quorum_proposal_s(enc_signed_quorum_proposal(x) + rest) == Some((x, rest)),
{
    reveal(enc_signed_quorum_proposal);
    reveal(dec_signed_quorum_proposal_s);
    let t_1 = x.signature@ + (rest);
    assert(enc_signed_quorum_proposal(x) + rest =~= enc_quorum_proposal_data(x.data) + t_1);
    lemma_dec_quorum_proposal_data_enc(x.data, t_1);
    let t_2 = rest;
    assert(t_1 =~= x.signature@ + t_2);
    lemma_dec_sig_enc(x.signature, t_2);
}

/// Wire format of a signed da proposal.
#[verifier::opaque]
pub open spec fn enc_signed_da_proposal(x: ProposalV<DaProposalV>) -> Seq<u8> {
    enc_da_proposal(x.data) + x.signature@
}

/// Byte fields fit their length prefixes.
pub open spec fn bounded_signed_da_proposal(x: ProposalV<DaProposalV>) -> bool {
    bounded_da_proposal(x.data)
}

/// Decode: the inverse of the encoding.
#[verifier::opaque]
pub open spec fn dec_signed_da_proposal_s(s: Seq<u8>) -> Option<(ProposalV<DaProposalV>, Seq<u8>)> {
    match dec_da_proposal_s(s) {
        Some((f_data, s_1)) => {
            match dec_sig_s(s_1) {
                Some((f_signature, s_2)) => {
                    Some((ProposalV { data: f_data, signature: f_signature }, s_2))
                },
                None => None,
            }
        },
        None => None,
    }
}

/// Append the encoding.
pub fn push_signed_da_proposal(out: &mut Vec<u8>, x: &Proposal<DaProposal>)
    ensures
        final(out)@ == old(out)@ + enc_signed_da_proposal(x@),
{
    push_da_proposal(out, &x.data);
    push_sig(out, &x.signature);
    proof {
        reveal(enc_signed_da_proposal);
        assert(out@ =~= old(out)@ + enc_signed_da_proposal(x@));
    }
}

/// Decode at `pos`.
pub fn dec_signed_da_proposal_e(buf: &Vec<u8>, pos: usize) -> (r: Option<(Proposal<DaProposal>, usize)>)
    requires
        pos <= buf@.len(),
    ensures
        r is Some <==> dec_signed_da_proposal_s(buf@.skip(pos as int)) is Some,
        r matches Some((x, end)) ==> pos <= end <= buf@.len() && dec_signed_da_proposal_s(
            buf@.skip(pos as int),
        ) == Some((x@, buf@.skip(end as int))),
{
    proof {
        reveal(dec_signed_da_proposal_s);
    }
    let (f_data, p_1) = match dec_da_proposal_e(buf, pos) {
        Some(v) => v,
        None => {
            return None;
        },
    };
    let (f_signature, p_2) = match dec_sig_e(buf, p_1) {
        Some(v) => v,
        None => {
            return None;
        },
    };
    Some((Proposal { data: f_data, signature: f_signature }, p_2))
}

/// Reading the value back from its encoding.
#[verifier::spinoff_prover]
pub proof fn lemma_dec_signed_da_proposal_enc(x: ProposalV<DaProposalV>, rest: Seq<u8>)
    requires
        bounded_signed_da_proposal(x),
    ensures
        dec_signed_da_proposal_s(enc_signed_da_proposal(x) + rest) == Some((x, rest)),
{
    reveal(enc_signed_da_proposal);
    reveal(dec_signed_da_proposal_s);
    let t_1 = x.signature@ + (rest);
    assert(enc_signed_da_proposal(x) + rest =~= enc_da_proposal(x.data) + t_1);
    lemma_dec_da_proposal_enc(x.data, t_1);
    let t_2 = rest;
    assert(t_1 =~= x.signature@ + t_2);
    lemma_dec_sig_enc(x.signature, t_2);
}

/// Wire format of a signed vid share.
#[verifier::opaque]
pub open spec fn enc_signed_vid_share(x: ProposalV<VidDisperseShareV>) -> Seq<u8> {
    enc_vid_disperse_share(x.data) + x.signature@
}

/// Byte fields fit their length prefixes.
pub open spec fn bounded_signed_vid_share(x: ProposalV<VidDisperseShareV>) -> bool {
    bounded_vid_disperse_share(x.data)
}

/// Decode: the inverse of the encoding.
#[verifier::opaque]
pub open spec fn dec_signed_vid_share_s(s: Seq<u8>) -> Option<(ProposalV<VidDisperseShareV>, Seq<u8>)> {
    match dec_vid_disperse_share_s(s) {
        Some((f_data, s_1)) => {
            match dec_sig_s(s_1) {
                Some((f_signature, s_2)) => {
                    Some((ProposalV { data: f_data, signature: f_signature }, s_2))
                },
                None => None,
            }
        },
        None => None,
    }
}

/// Append the encoding.
pub fn push_signed_vid_share(out: &mut Vec<u8>, x: &Proposal<VidDisperseShare>)
    ensures
        final(out)@ == old(out)@ + enc_signed_vid_share(x@),
{
    push_vid_disperse_share(out, &x.data);
    push_sig(out, &x.signature);
    proof {
        reveal(enc_signed_vid_share);
        assert(out@ =~= old(out)@ + enc_signed_vid_share(x@));
    }
}

/// Decode at `pos`.
pub fn dec_signed_vid_share_e(buf: &Vec<u8>, pos: usize) -> (r: Option<(Proposal<VidDisperseShare>, usize)>)
    requires
        pos <= buf@.len(),
    ensures
        r is Some <==> dec_signed_vid_share_s(buf@.skip(pos as int)) is Some,
        r matches Some((x, end)) ==> pos <= end <= buf@.len() && dec_signed_vid_share_s(
            buf@.skip(pos as int),
        ) == Some((x@, buf@.skip(end as int))),
{
    proof {
        reveal(dec_signed_vid_share_s);
    }
    let (f_data, p_1) = match dec_vid_disperse_share_e(buf, pos) {
        Some(v) => v,
        None => {
            return None;
        },
    };
    let (f_signature, p_2) = match dec_sig_e(buf, p_1) {
        Some(v) => v,
        None => {
            return None;
        },
    };
    Some((Proposal { data: f_data, signature: f_signature }, p_2))
}

/// Reading the value back from its encoding.
#[verifier::spinoff_prover]
pub proof fn lemma_dec_signed_vid_share_enc(x: ProposalV<VidDisperseShareV>, rest: Seq<u8>)
    requires
        bounded_signed_vid_share(x),
    ensures
        dec_signed_vid_share_s(enc_signed_vid_share(x) + rest) == Some((x, rest)),
{
    reveal(enc_signed_vid_share);
    reveal(dec_signed_vid_share_s);
    let t_1 = x.signature@ + (rest);
    assert(enc_signed_vid_share(x) + rest =~= enc_vid_disperse_share(x.data) + t_1);
    lemma_dec_vid_disperse_share_enc(x.data, t_1);
    let t_2 = rest;
    assert(t_1 =~= x.signature@ + t_2);
    lemma_dec_sig_enc(x.signature, t_2);
}

/// Wire format of a signed upgrade proposal.
#[verifier::opaque]
pub open spec fn enc_signed_upgrade_proposal(x: ProposalV<UpgradeProposal>) -> Seq<u8> {
    enc_upgrade_proposal(x.data) + x.signature@
}

/// Decode: the inverse of the encoding.
#[verifier::opaque]
pub open spec fn dec_signed_upgrade_proposal_s(s: Seq<u8>) -> Option<(ProposalV<UpgradeProposal>, Seq<u8>)> {
    match dec_upgrade_proposal_s(s) {
        Some((f_data, s_1)) => {
            match dec_sig_s(s_1) {
                Some((f_signature, s_2)) => {
                    Some((ProposalV { data: f_data, signature: f_signature }, s_2))
                },
                None => None,
            }
        },
        None => None,
    }
}

/// Append the encoding.
pub fn push_signed_upgrade_proposal(out: &mut Vec<u8>, x: &Proposal<UpgradeProposal>)
    ensures
        final(out)@ == old(out)@ + enc_signed_upgrade_proposal(x@),
{
    push_upgrade_proposal(out, &x.data);
    push_sig(out, &x.signature);
    proof {
        reveal(enc_signed_upgrade_proposal);
        assert(out@ =~= old(out)@ + enc_signed_upgrade_proposal(x@));
    }
}

/// Decode at `pos`.
pub fn dec_signed_upgrade_proposal_e(buf: &Vec<u8>, pos: usize) -> (r: Option<(Proposal<UpgradeProposal>, usize)>)
    requires
        pos <= buf@.len(),
    ensures
        r is Some <==> dec_signed_upgrade_proposal_s(buf@.skip(pos as int)) is Some,
        r matches Some((x, end)) ==> pos <= end <= buf@.len() && dec_signed_upgrade_proposal_s(
            buf@.skip(pos as int),
        ) == Some((x@, buf@.skip(end as int))),
{
    proof {
        reveal(dec_signed_upgrade_proposal_s);
    }
    let (f_data, p_1) = match dec_upgrade_proposal_e(buf, pos) {
        Some(v) => v,
        None => {
            return None;
        },
    };
    let (f_signature, p_2) = match dec_sig_e(buf, p_1) {
        Some(v) => v,
        None => {
            return None;
        },
    };
    Some((Proposal { data: f_data, signature: f_signature }, p_2))
}

/// Reading the value back from its encoding.
#[verifier::spinoff_prover]
pub proof fn lemma_dec_signed_upgrade_proposal_enc(x: ProposalV<UpgradeProposal>, rest: Seq<u8>)
    ensures
        dec_signed_upgrade_proposal_s(enc_signed_upgrade_proposal(x) + rest) == Some((x, rest)),
{
    reveal(enc_signed_upgrade_proposal);
    reveal(dec_signed_upgrade_proposal_s);
    let t_1 = x.signature@ + (rest);
    assert(enc_signed_upgrade_proposal(x) + rest =~= enc_upgrade_proposal(x.data) + t_1);
    lemma_dec_upgrade_proposal_enc(x.data, t_1);
    let t_2 = rest;
    assert(t_1 =~= x.signature@ + t_2);
    lemma_dec_sig_enc(x.signature, t_2);
}

/// Wire format of a request kind: a variant tag, then the payload.
#[verifier::opaque]
pub open spec fn enc_request_kind(x: RequestKind) -> Seq<u8> {
    match x {
        RequestKind::Vid(p0, p1) => seq![0u8] + u64_le_bytes(p0) + u64_le_bytes(p1),
        RequestKind::DaProposal(p0) => seq![1u8] + u64_le_bytes(p0),
        RequestKind::Proposal(p0) => seq![2u8] + u64_le_bytes(p0),
    }
}

/// Decode: the inverse of the encoding.
#[verifier::opaque]
pub open spec fn dec_request_kind_s(s: Seq<u8>) -> Option<(RequestKind, Seq<u8>)> {
    match dec_u8_s(s) {
        Some((tag, s0)) => {
            if tag == 0 {
                match dec_u64_s(s0) {
                    Some((q0, s1)) => {
                        match dec_u64_s(s1) {
                            Some((q1, s2)) => {
                                Some((RequestKind::Vid(q0, q1), s2))
                            },
                            None => None,
                        }
                    },
                    None => None,
                }
            } else if tag == 1 {
                match dec_u64_s(s0) {
                    Some((q0, s1)) => {
                        Some((RequestKind::DaProposal(q0), s1))
                    },
                    None => None,
                }
            } else if tag == 2 {
                match dec_u64_s(s0) {
                    Some((q0, s1)) => {
                        Some((RequestKind::Proposal(q0), s1))
                    },
                    None => None,
                }
            } else {
                None
            }
        },
        None => None,
    }
}

/// Append the encoding.
pub fn push_request_kind(out: &mut Vec<u8>, x: &RequestKind)
    ensures
        final(out)@ == old(out)@ + enc_request_kind(*x),
{
    match x {
        RequestKind::Vid(p0, p1) => {
            out.push(0u8);
            push_u64_le(out, (*p0));
            push_u64_le(out, (*p1));
        },
        RequestKind::DaProposal(p0) => {
            out.push(1u8);
            push_u64_le(out, (*p0));
        },
        RequestKind::Proposal(p0) => {
            out.push(2u8);
            push_u64_le(out, (*p0));
        },
    }
    proof {
        reveal(enc_request_kind);
        assert(out@ =~= old(out)@ + enc_request_kind(*x));
    }
}

/// Decode at `pos`.
pub fn dec_request_kind_e(buf: &Vec<u8>, pos: usize) -> (r: Option<(RequestKind, usize)>)
    requires
        pos <= buf@.len(),
    ensures
        r is Some <==> dec_request_kind_s(buf@.skip(pos as int)) is Some,
        r matches Some((x, end)) ==> pos <= end <= buf@.len() && dec_request_kind_s(
            buf@.skip(pos as int),
        ) == Some((x, buf@.skip(end as int))),
{
    proof {
        reveal(dec_request_kind_s);
    }
    let (tag, p_t) = match dec_u8_e(buf, pos) {
        Some(v) => v,
        None => {
            return None;
        },
    };
    if tag == 0 {
        let (q0, e1) = match dec_u64_e(buf, p_t) {
            Some(v) => v,
            None => {
                return None;
            },
        };
        let (q1, e2) = match dec_u64_e(buf, e1) {
            Some(v) => v,
            None => {
                return None;
            },
        };
        Some((RequestKind::Vid(q0, q1), e2))
    } else if tag == 1 {
        let (q0, e1) = match dec_u64_e(buf, p_t) {
            Some(v) => v,
            None => {
                return None;
            },
        };
        Some((RequestKind::DaProposal(q0), e1))
    } else if tag == 2 {
        let (q0, e1) = match dec_u64_e(buf, p_t) {
            Some(v) => v,
            None => {
                return None;
            },
        };
        Some((RequestKind::Proposal(q0), e1))
    } else {
        None
    }
}

/// Reading the value back from its encoding.
#[verifier::spinoff_prover]
pub proof fn lemma_dec_request_kind_enc(x: RequestKind, rest: Seq<u8>)
    ensures
        dec_request_kind_s(enc_request_kind(x) + rest) == Some((x, rest)),
{
    reveal(enc_request_kind);
    reveal(dec_request_kind_s);
    match x {
        RequestKind::Vid(p0, p1) => {
            assert(enc_request_kind(x) + rest =~= seq![0u8] + (u64_le_bytes(p0) + (u64_le_bytes(p1) + (rest))));
            lemma_dec_u8_enc(0u8, u64_le_bytes(p0) + (u64_le_bytes(p1) + (rest)));
            lemma_dec_u64_enc(p0, (u64_le_bytes(p1) + (rest)));
            assert(u64_le_bytes(p1) + (rest) =~= u64_le_bytes(p1) + (rest));
            lemma_dec_u64_enc(p1, (rest));
        },
        RequestKind::DaProposal(p0) => {
            assert(enc_request_kind(x) + rest =~= seq![1u8] + (u64_le_bytes(p0) + (rest)));
            lemma_dec_u8_enc(1u8, u64_le_bytes(p0) + (rest));
            lemma_dec_u64_enc(p0, (rest));
        },
        RequestKind::Proposal(p0) => {
            assert(enc_request_kind(x) + rest =~= seq![2u8] + (u64_le_bytes(p0) + (rest)));
            lemma_dec_u8_enc(2u8, u64_le_bytes(p0) + (rest));
            lemma_dec_u64_enc(p0, (rest));
        },
    }
}

/// Wire format of a data request.
#[verifier::opaque]
pub open spec fn enc_data_request(x: DataRequest) -> Seq<u8> {
    enc_request_kind(x.request) + u64_le_bytes(x.view) + x.signature@
}

/// Decode: the inverse of the encoding.
#[verifier::opaque]
pub open spec fn dec_data_request_s(s: Seq<u8>) -> Option<(DataRequest, Seq<u8>)> {
    match dec_request_kind_s(s) {
        Some((f_request, s_1)) => {
            match dec_u64_s(s_1) {
                Some((f_view, s_2)) => {
                    match dec_sig_s(s_2) {
                        Some((f_signature, s_3)) => {
                            Some((DataRequest { request: f_request, view: f_view, signature: f_signature }, s_3))
                        },
                        None => None,
                    }
                },
                None => None,
            }
        },
        None => None,
    }
}

/// Append the encoding.
pub fn push_data_request(out: &mut Vec<u8>, x: &DataRequest)
    ensures
        final(out)@ == old(out)@ + enc_data_request(*x),
{
    push_request_kind(out, &x.request);
    push_u64_le(out, x.view);
    push_sig(out, &x.signature);
    proof {
        reveal(enc_data_request);
        assert(out@ =~= old(out)@ + enc_data_request(*x));
    }
}

/// Decode at `pos`.
pub fn dec_data_request_e(buf: &Vec<u8>, pos: usize) -> (r: Option<(DataRequest, usize)>)
    requires
        pos <= buf@.len(),
    ensures
        r is Some <==> dec_data_request_s(buf@.skip(pos as int)) is Some,
        r matches Some((x, end)) ==> pos <= end <= buf@.len() && dec_data_request_s(
            buf@.skip(pos as int),
        ) == Some((x, buf@.skip(end as int))),
{
    proof {
        reveal(dec_data_request_s);
    }
    let (f_request, p_1) = match dec_request_kind_e(buf, pos) {
        Some(v) => v,
        None => {
            return None;
        },
    };
    let (f_view, p_2) = match dec_u64_e(buf, p_1) {
        Some(v) => v,
        None => {
            return None;
        },
    };
    let (f_signature, p_3) = match dec_sig_e(buf, p_2) {
        Some(v) => v,
        None => {
            return None;
        },
    };
    Some((DataRequest { request: f_request, view: f_view, signature: f_signature }, p_3))
}

/// Reading the value back from its encoding.
#[verifier::spinoff_prover]
pub proof fn lemma_dec_data_request_enc(x: DataRequest, rest: Seq<u8>)
    ensures
        dec_data_request_s(enc_data_request(x) + rest) == Some((x, rest)),
{
    reveal(enc_data_request);
    reveal(dec_data_request_s);
    let t_1 = u64_le_bytes(x.view) + (x.signature@ + (rest));
    assert(enc_data_request(x) + rest =~= enc_request_kind(x.request) + t_1);
    lemma_dec_request_kind_enc(x.request, t_1);
    let t_2 = x.signature@ + (rest);
    assert(t_1 =~= u64_le_bytes(x.view) + t_2);
    lemma_dec_u64_enc(x.view, t_2);
    let t_3 = rest;
    assert(t_2 =~= x.signature@ + t_3);
    lemma_dec_sig_enc(x.signature, t_3);
}

/// Wire format of a general message: a variant tag, then the payload.
#[verifier::opaque]
pub open spec fn enc_general_message(x: GeneralConsensusMessageV) -> Seq<u8> {
    match x {
        GeneralConsensusMessageV::Proposal(p0) => seq![0u8] + enc_signed_quorum_proposal(p0),
        GeneralConsensusMessageV::Vote(p0) => seq![1u8] + enc_quorum_vote(p0),
        GeneralConsensusMessageV::ViewSyncPreCommitVote(p0) => seq![2u8] + enc_view_sync_pre_commit_vote(p0),
        GeneralConsensusMessageV::ViewSyncCommitVote(p0) => seq![3u8] + enc_view_sync_commit_vote(p0),
        GeneralConsensusMessageV::ViewSyncFinalizeVote(p0) => seq![4u8] + enc_view_sync_finalize_vote(p0),
        GeneralConsensusMessageV::ViewSyncPreCommitCertificate(p0) => seq![5u8] + enc_view_sync_pre_commit_certificate(p0),
        GeneralConsensusMessageV::ViewSyncCommitCertificate(p0) => seq![6u8] + enc_view_sync_commit_certificate(p0),
        GeneralConsensusMessageV::ViewSyncFinalizeCertificate(p0) => seq![7u8] + enc_view_sync_finalize_certificate(p0),
        GeneralConsensusMessageV::TimeoutVote(p0) => seq![8u8] + enc_timeout_vote(p0),
        GeneralConsensusMessageV::UpgradeProposal(p0) => seq![9u8] + enc_signed_upgrade_proposal(p0),
        GeneralConsensusMessageV::UpgradeVote(p0) => seq![10u8] + enc_upgrade_vote(p0),
    }
}

/// Byte fields fit their length prefixes.
pub open spec fn bounded_general_message(x: GeneralConsensusMessageV) -> bool {
    match x {
        GeneralConsensusMessageV::Proposal(p0) => bounded_signed_quorum_proposal(p0),
        GeneralConsensusMessageV::Vote(p0) => true,
        GeneralConsensusMessageV::ViewSyncPreCommitVote(p0) => true,
        GeneralConsensusMessageV::ViewSyncCommitVote(p0) => true,
        GeneralConsensusMessageV::ViewSyncFinalizeVote(p0) => true,
        GeneralConsensusMessageV::ViewSyncPreCommitCertificate(p0) => true,
        GeneralConsensusMessageV::ViewSyncCommitCertificate(p0) => true,
        GeneralConsensusMessageV::ViewSyncFinalizeCertificate(p0) => true,
        GeneralConsensusMessageV::TimeoutVote(p0) => true,
        GeneralConsensusMessageV::UpgradeProposal(p0) => true,
        GeneralConsensusMessageV::UpgradeVote(p0) => true,
    }
}

/// Decode: the inverse of the encoding.
#[verifier::opaque]
pub open spec fn dec_general_message_s(s: Seq<u8>) -> Option<(GeneralConsensusMessageV, Seq<u8>)> {
    match dec_u8_s(s) {
        Some((tag, s0)) => {
            if tag == 0 {
                match dec_signed_quorum_proposal_s(s0) {
                    Some((q0, s1)) => {
                        Some((GeneralConsensusMessageV::Proposal(q0), s1))
                    },
                    None => None,
                }
            } else if tag == 1 {
                match dec_quorum_vote_s(s0) {
                    Some((q0, s1)) => {
                        Some((GeneralConsensusMessageV::Vote(q0), s1))
                    },
                    None => None,
                }
            } else if tag == 2 {
                match dec_view_sync_pre_commit_vote_s(s0) {
                    Some((q0, s1)) => {
                        Some((GeneralConsensusMessageV::ViewSyncPreCommitVote(q0), s1))
                    },
                    None => None,
                }
            } else if tag == 3 {
                match dec_view_sync_commit_vote_s(s0) {
                    Some((q0, s1)) => {
                        Some((GeneralConsensusMessageV::ViewSyncCommitVote(q0), s1))
                    },
                    None => None,
                }
            } else if tag == 4 {
                match dec_view_sync_finalize_vote_s(s0) {
                    Some((q0, s1)) => {
                        Some((GeneralConsensusMessageV::ViewSyncFinalizeVote(q0), s1))
                    },
                    None => None,
                }
            } else if tag == 5 {
                match dec_view_sync_pre_commit_certificate_s(s0) {
                    Some((q0, s1)) => {
                        Some((GeneralConsensusMessageV::ViewSyncPreCommitCertificate(q0), s1))
                    },
                    None => None,
                }
            } else if tag == 6 {
                match dec_view_sync_commit_certificate_s(s0) {
                    Some((q0, s1)) => {
                        Some((GeneralConsensusMessageV::ViewSyncCommitCertificate(q0), s1))
                    },
                    None => None,
                }
            } else if tag == 7 {
                match dec_view_sync_finalize_certificate_s(s0) {
                    Some((q0, s1)) => {
                        Some((GeneralConsensusMessageV::ViewSyncFinalizeCertificate(q0), s1))
                    },
                    None => None,
                }
            } else if tag == 8 {
                match dec_timeout_vote_s(s0) {
                    Some((q0, s1)) => {
                        Some((GeneralConsensusMessageV::TimeoutVote(q0), s1))
                    },
                    None => None,
                }
            } else if tag == 9 {
                match dec_signed_upgrade_proposal_s(s0) {
                    Some((q0, s1)) => {
                        Some((GeneralConsensusMessageV::UpgradeProposal(q0), s1))
                    },
                    None => None,
                }
            } else if tag == 10 {
                match dec_upgrade_vote_s(s0) {
                    Some((q0, s1)) => {
                        Some((GeneralConsensusMessageV::UpgradeVote(q0), s1))
                    },
                    None => None,
                }
            } else {
                None
            }
        },
        None => None,
    }
}

/// Append the encoding.
pub fn push_general_message(out: &mut Vec<u8>, x: &GeneralConsensusMessage)
    ensures
        final(out)@ == old(out)@ + enc_general_message(x@),
{
    match x {
        GeneralConsensusMessage::Proposal(p0) => {
            out.push(0u8);
            push_signed_quorum_proposal(out, p0);
        },
        GeneralConsensusMessage::Vote(p0) => {
            out.push(1u8);
            push_quorum_vote(out, p0);
        },
        GeneralConsensusMessage::ViewSyncPreCommitVote(p0) => {
            out.push(2u8);
            push_view_sync_pre_commit_vote(out, p0);
        },
        GeneralConsensusMessage::ViewSyncCommitVote(p0) => {
            out.push(3u8);
            push_view_sync_commit_vote(out, p0);
        },
        GeneralConsensusMessage::ViewSyncFinalizeVote(p0) => {
            out.push(4u8);
            push_view_sync_finalize_vote(out, p0);
        },
        GeneralConsensusMessage::ViewSyncPreCommitCertificate(p0) => {
            out.push(5u8);
            push_view_sync_pre_commit_certificate(out, p0);
        },
        GeneralConsensusMessage::ViewSyncCommitCertificate(p0) => {
            out.push(6u8);
            push_view_sync_commit_certificate(out, p0);
        },
        GeneralConsensusMessage::ViewSyncFinalizeCertificate(p0) => {
            out.push(7u8);
            push_view_sync_finalize_certificate(out, p0);
        },
        GeneralConsensusMessage::TimeoutVote(p0) => {
            out.push(8u8);
            push_timeout_vote(out, p0);
        },
        GeneralConsensusMessage::UpgradeProposal(p0) => {
            out.push(9u8);
            push_signed_upgrade_proposal(out, p0);
        },
        GeneralConsensusMessage::UpgradeVote(p0) => {
            out.push(10u8);
            push_upgrade_vote(out, p0);
        },
    }
    proof {
        reveal(enc_general_message);
        assert(out@ =~= old(out)@ + enc_general_message(x@));
    }
}

/// Decode at `pos`.
pub fn dec_general_message_e(buf: &Vec<u8>, pos: usize) -> (r: Option<(GeneralConsensusMessage, usize)>)
    requires
        pos <= buf@.len(),
    ensures
        r is Some <==> dec_general_message_s(buf@.skip(pos as int)) is Some,
        r matches Some((x, end)) ==> pos <= end <= buf@.len() && dec_general_message_s(
            buf@.skip(pos as int),
        ) == Some((x@, buf@.skip(end as int))),
{
    proof {
        reveal(dec_general_message_s);
    }
    let (tag, p_t) = match dec_u8_e(buf, pos) {
        Some(v) => v,
        None => {
            return None;
        },
    };
    if tag == 0 {
        let (q0, e1) = match dec_signed_quorum_proposal_e(buf, p_t) {
            Some(v) => v,
            None => {
                return None;
            },
        };
        Some((GeneralConsensusMessage::Proposal(q0), e1))
    } else if tag == 1 {
        let (q0, e1) = match dec_quorum_vote_e(buf, p_t) {
            Some(v) => v,
            None => {
                return None;
            },
        };
        Some((GeneralConsensusMessage::Vote(q0), e1))
    } else if tag == 2 {
        let (q0, e1) = match dec_view_sync_pre_commit_vote_e(buf, p_t) {
            Some(v) => v,
            None => {
                return None;
            },
        };
        Some((GeneralConsensusMessage::ViewSyncPreCommitVote(q0), e1))
    } else if tag == 3 {
        let (q0, e1) = match dec_view_sync_commit_vote_e(buf, p_t) {
            Some(v) => v,
            None => {
                return None;
            },
        };
        Some((GeneralConsensusMessage::ViewSyncCommitVote(q0), e1))
    } else if tag == 4 {
        let (q0, e1) = match dec_view_sync_finalize_vote_e(buf, p_t) {
            Some(v) => v,
            None => {
                return None;
            },
        };
        Some((GeneralConsensusMessage::ViewSyncFinalizeVote(q0), e1))
    } else if tag == 5 {
        let (q0, e1) = match dec_view_sync_pre_commit_certificate_e(buf, p_t) {
            Some(v) => v,
            None => {
                return None;
            },
        };
        Some((GeneralConsensusMessage::ViewSyncPreCommitCertificate(q0), e1))
    } else if tag == 6 {
        let (q0, e1) = match dec_view_sync_commit_certificate_e(buf, p_t) {
            Some(v) => v,
            None => {
                return None;
            },
        };
        Some((GeneralConsensusMessage::ViewSyncCommitCertificate(q0), e1))
    } else if tag == 7 {
        let (q0, e1) = match dec_view_sync_finalize_certificate_e(buf, p_t) {
            Some(v) => v,
            None => {
                return None;
            },
        };
        Some((GeneralConsensusMessage::ViewSyncFinalizeCertificate(q0), e1))
    } else if tag == 8 {
        let (q0, e1) = match dec_timeout_vote_e(buf, p_t) {
            Some(v) => v,
            None => {
                return None;
            },
        };
        Some((GeneralConsensusMessage::TimeoutVote(q0), e1))
    } else if tag == 9 {
        let (q0, e1) = match dec_signed_upgrade_proposal_e(buf, p_t) {
            Some(v) => v,
            None => {
                return None;
            },
        };
        Some((GeneralConsensusMessage::UpgradeProposal(q0), e1))
    } else if tag == 10 {
        let (q0, e1) = match dec_upgrade_vote_e(buf, p_t) {
            Some(v) => v,
            None => {
                return None;
            },
        };
        Some((GeneralConsensusMessage::UpgradeVote(q0), e1))
    } else {
        None
    }
}

/// Reading the value back from its encoding.
#[verifier::spinoff_prover]
#[verifier::rlimit(100)]
pub proof fn lemma_dec_general_message_enc(x: GeneralConsensusMessageV, rest: Seq<u8>)
    requires
        bounded_general_message(x),
    ensures
        dec_general_message_s(enc_general_message(x) + rest) == Some((x, rest)),
{
    reveal(enc_general_message);
    reveal(dec_general_message_s);
    match x {
        GeneralConsensusMessageV::Proposal(p0) => {
            assert(enc_general_message(x) + rest =~= seq![0u8] + (enc_signed_quorum_proposal(p0) + (rest)));
            lemma_dec_u8_enc(0u8, enc_signed_quorum_proposal(p0) + (rest));
            lemma_dec_signed_quorum_proposal_enc(p0, (rest));
        },
        GeneralConsensusMessageV::Vote(p0) => {
            assert(enc_general_message(x) + rest =~= seq![1u8] + (enc_quorum_vote(p0) + (rest)));
            lemma_dec_u8_enc(1u8, enc_quorum_vote(p0) + (rest));
            lemma_dec_quorum_vote_enc(p0, (rest));
        },
        GeneralConsensusMessageV::ViewSyncPreCommitVote(p0) => {
            assert(enc_general_message(x) + rest =~= seq![2u8] + (enc_view_sync_pre_commit_vote(p0) + (rest)));
            lemma_dec_u8_enc(2u8, enc_view_sync_pre_commit_vote(p0) + (rest));
            lemma_dec_view_sync_pre_commit_vote_enc(p0, (rest));
        },
        GeneralConsensusMessageV::ViewSyncCommitVote(p0) => {
            assert(enc_general_message(x) + rest =~= seq![3u8] + (enc_view_sync_commit_vote(p0) + (rest)));
            lemma_dec_u8_enc(3u8, enc_view_sync_commit_vote(p0) + (rest));
            lemma_dec_view_sync_commit_vote_enc(p0, (rest));
        },
        GeneralConsensusMessageV::ViewSyncFinalizeVote(p0) => {
            assert(enc_general_message(x) + rest =~= seq![4u8] + (enc_view_sync_finalize_vote(p0) + (rest)));
            lemma_dec_u8_enc(4u8, enc_view_sync_finalize_vote(p0) + (rest));
            lemma_dec_view_sync_finalize_vote_enc(p0, (rest));
        },
        GeneralConsensusMessageV::ViewSyncPreCommitCertificate(p0) => {
            assert(enc_general_message(x) + rest =~= seq![5u8] + (enc_view_sync_pre_commit_certificate(p0) + (rest)));
            lemma_dec_u8_enc(5u8, enc_view_sync_pre_commit_certificate(p0) + (rest));
            lemma_dec_view_sync_pre_commit_certificate_enc(p0, (rest));
        },
        GeneralConsensusMessageV::ViewSyncCommitCertificate(p0) => {
            assert(enc_general_message(x) + rest =~= seq![6u8] + (enc_view_sync_commit_certificate(p0) + (rest)));
            lemma_dec_u8_enc(6u8, enc_view_sync_commit_certificate(p0) + (rest));
            lemma_dec_view_sync_commit_certificate_enc(p0, (rest));
        },
        GeneralConsensusMessageV::ViewSyncFinalizeCertificate(p0) => {
            assert(enc_general_message(x) + rest =~= seq![7u8] + (enc_view_sync_finalize_certificate(p0) + (rest)));
            lemma_dec_u8_enc(7u8, enc_view_sync_finalize_certificate(p0) + (rest));
            lemma_dec_view_sync_finalize_certificate_enc(p0, (rest));
        },
        GeneralConsensusMessageV::TimeoutVote(p0) => {
            assert(enc_general_message(x) + rest =~= seq![8u8] + (enc_timeout_vote(p0) + (rest)));
            lemma_dec_u8_enc(8u8, enc_timeout_vote(p0) + (rest));
            lemma_dec_timeout_vote_enc(p0, (rest));
        },
        GeneralConsensusMessageV::UpgradeProposal(p0) => {
            assert(enc_general_message(x) + rest =~= seq![9u8] + (enc_signed_upgrade_proposal(p0) + (rest)));
            lemma_dec_u8_enc(9u8, enc_signed_upgrade_proposal(p0) + (rest));
            lemma_dec_signed_upgrade_proposal_enc(p0, (rest));
        },
        GeneralConsensusMessageV::UpgradeVote(p0) => {
            assert(enc_general_message(x) + rest =~= seq![10u8] + (enc_upgrade_vote(p0) + (rest)));
            lemma_dec_u8_enc(10u8, enc_upgrade_vote(p0) + (rest));
            lemma_dec_upgrade_vote_enc(p0, (rest));
        },
    }
}

/// Wire format of a da message: a variant tag, then the payload.
#[verifier::opaque]
pub open spec fn enc_da_message(x: DaConsensusMessageV) -> Seq<u8> {
    match x {
        DaConsensusMessageV::DaProposal(p0) => seq![0u8] + enc_signed_da_proposal(p0),
        DaConsensusMessageV::DaVote(p0) => seq![1u8] + enc_da_vote(p0),
        DaConsensusMessageV::DaCertificate(p0) => seq![2u8] + enc_da_certificate(p0),
        DaConsensusMessageV::VidDisperseMsg(p0) => seq![3u8] + enc_signed_vid_share(p0),
    }
}

/// Byte fields fit their length prefixes.
pub open spec fn bounded_da_message(x: DaConsensusMessageV) -> bool {
    match x {
        DaConsensusMessageV::DaProposal(p0) => bounded_signed_da_proposal(p0),
        DaConsensusMessageV::DaVote(p0) => true,
        DaConsensusMessageV::DaCertificate(p0) => true,
        DaConsensusMessageV::VidDisperseMsg(p0) => bounded_signed_vid_share(p0),
    }
}

/// Decode: the inverse of the encoding.
#[verifier::opaque]
pub open spec fn dec_da_message_s(s: Seq<u8>) -> Option<(DaConsensusMessageV, Seq<u8>)> {
    match dec_u8_s(s) {
        Some((tag, s0)) => {
            if tag == 0 {
                match dec_signed_da_proposal_s(s0) {
                    Some((q0, s1)) => {
                        Some((DaConsensusMessageV::DaProposal(q0), s1))
                    },
                    None => None,
                }
            } else if tag == 1 {
                match dec_da_vote_s(s0) {
                    Some((q0, s1)) => {
                        Some((DaConsensusMessageV::DaVote(q0), s1))
                    },
                    None => None,
                }
            } else if tag == 2 {
                match dec_da_certificate_s(s0) {
                    Some((q0, s1)) => {
                        Some((DaConsensusMessageV::DaCertificate(q0), s1))
                    },
                    None => None,
                }
            } else if tag == 3 {
                match dec_signed_vid_share_s(s0) {
                    Some((q0, s1)) => {
                        Some((DaConsensusMessageV::VidDisperseMsg(q0), s1))
                    },
                    None => None,
                }
            } else {
                None
            }
        },
        None => None,
    }
}

/// Append the encoding.
pub fn push_da_message(out: &mut Vec<u8>, x: &DaConsensusMessage)
    ensures
        final(out)@ == old(out)@ + enc_da_message(x@),
{
    match x {
        DaConsensusMessage::DaProposal(p0) => {
            out.push(0u8);
            push_signed_da_proposal(out, p0);
        },
        DaConsensusMessage::DaVote(p0) => {
            out.push(1u8);
            push_da_vote(out, p0);
        },
        DaConsensusMessage::DaCertificate(p0) => {
            out.push(2u8);
            push_da_certificate(out, p0);
        },
        DaConsensusMessage::VidDisperseMsg(p0) => {
            out.push(3u8);
            push_signed_vid_share(out, p0);
        },
    }
    proof {
        reveal(enc_da_message);
        assert(out@ =~= old(out)@ + enc_da_message(x@));
    }
}

/// Decode at `pos`.
pub fn dec_da_message_e(buf: &Vec<u8>, pos: usize) -> (r: Option<(DaConsensusMessage, usize)>)
    requires
        pos <= buf@.len(),
    ensures
        r is Some <==> dec_da_message_s(buf@.skip(pos as int)) is Some,
        r matches Some((x, end)) ==> pos <= end <= buf@.len() && dec_da_message_s(
            buf@.skip(pos as int),
        ) == Some((x@, buf@.skip(end as int))),
{
    proof {
        reveal(dec_da_message_s);
    }
    let (tag, p_t) = match dec_u8_e(buf, pos) {
        Some(v) => v,
        None => {
            return None;
        },
    };
    if tag == 0 {
        let (q0, e1) = match dec_signed_da_proposal_e(buf, p_t) {
            Some(v) => v,
            None => {
                return None;
            },
        };
        Some((DaConsensusMessage::DaProposal(q0), e1))
    } else if tag == 1 {
        let (q0, e1) = match dec_da_vote_e(buf, p_t) {
            Some(v) => v,
            None => {
                return None;
            },
        };
        Some((DaConsensusMessage::DaVote(q0), e1))
    } else if tag == 2 {
        let (q0, e1) = match dec_da_certificate_e(buf, p_t) {
            Some(v) => v,
            None => {
                return None;
            },
        };
        Some((DaConsensusMessage::DaCertificate(q0), e1))
    } else if tag == 3 {
        let (q0, e1) = match dec_signed_vid_share_e(buf, p_t) {
            Some(v) => v,
            None => {
                return None;
            },
        };
        Some((DaConsensusMessage::VidDisperseMsg(q0), e1))
    } else {
        None
    }
}

/// Reading the value back from its encoding.
#[verifier::spinoff_prover]
#[verifier::rlimit(100)]
pub proof fn lemma_dec_da_message_enc(x: DaConsensusMessageV, rest: Seq<u8>)
    requires
        bounded_da_message(x),
    ensures
        dec_da_message_s(enc_da_message(x) + rest) == Some((x, rest)),
{
    reveal(enc_da_message);
    reveal(dec_da_message_s);
    match x {
        DaConsensusMessageV::DaProposal(p0) => {
            assert(enc_da_message(x) + rest =~= seq![0u8] + (enc_signed_da_proposal(p0) + (rest)));
            lemma_dec_u8_enc(0u8, enc_signed_da_proposal(p0) + (rest));
            lemma_dec_signed_da_proposal_enc(p0, (rest));
        },
        DaConsensusMessageV::DaVote(p0) => {
            assert(enc_da_message(x) + rest =~= seq![1u8] + (enc_da_vote(p0) + (rest)));
            lemma_dec_u8_enc(1u8, enc_da_vote(p0) + (rest));
            lemma_dec_da_vote_enc(p0, (rest));
        },
        DaConsensusMessageV::DaCertificate(p0) => {
            assert(enc_da_message(x) + rest =~= seq![2u8] + (enc_da_certificate(p0) + (rest)));
            lemma_dec_u8_enc(2u8, enc_da_certificate(p0) + (rest));
            lemma_dec_da_certificate_enc(p0, (rest));
        },
        DaConsensusMessageV::VidDisperseMsg(p0) => {
            assert(enc_da_message(x) + rest =~= seq![3u8] + (enc_signed_vid_share(p0) + (rest)));
            lemma_dec_u8_enc(3u8, enc_signed_vid_share(p0) + (rest));
            lemma_dec_signed_vid_share_enc(p0, (rest));
        },
    }
}

/// Wire format of a sequencing message: a variant tag, then the payload.
#[verifier::opaque]
pub open spec fn enc_sequencing_message(x: SequencingMessageV) -> Seq<u8> {
    match x {
        SequencingMessageV::General(p0) => seq![0u8] + enc_general_message(p0),
        SequencingMessageV::Da(p0) => seq![1u8] + enc_da_message(p0),
    }
}

/// Byte fields fit their length prefixes.
pub open spec fn bounded_sequencing_message(x: SequencingMessageV) -> bool {
    match x {
        SequencingMessageV::General(p0) => bounded_general_message(p0),
        SequencingMessageV::Da(p0) => bounded_da_message(p0),
    }
}

/// Decode: the inverse of the encoding.
#[verifier::opaque]
pub open spec fn dec_sequencing_message_s(s: Seq<u8>) -> Option<(SequencingMessageV, Seq<u8>)> {
    match dec_u8_s(s) {
        Some((tag, s0)) => {
            if tag == 0 {
                match dec_general_message_s(s0) {
                    Some((q0, s1)) => {
                        Some((SequencingMessageV::General(q0), s1))
                    },
                    None => None,
                }
            } else if tag == 1 {
                match dec_da_message_s(s0) {
                    Some((q0, s1)) => {
                        Some((SequencingMessageV::Da(q0), s1))
                    },
                    None => None,
                }
            } else {
                None
            }
        },
        None => None,
    }
}

/// Append the encoding.
pub fn push_sequencing_message(out: &mut Vec<u8>, x: &SequencingMessage)
    ensures
        final(out)@ == old(out)@ + enc_sequencing_message(x@),
{
    match x {
        SequencingMessage::General(p0) => {
            out.push(0u8);
            push_general_message(out, p0);
        },
        SequencingMessage::Da(p0) => {
            out.push(1u8);
            push_da_message(out, p0);
        },
    }
    proof {
        reveal(enc_sequencing_message);
        assert(out@ =~= old(out)@ + enc_sequencing_message(x@));
    }
}

/// Decode at `pos`.
pub fn dec_sequencing_message_e(buf: &Vec<u8>, pos: usize) -> (r: Option<(SequencingMessage, usize)>)
    requires
        pos <= buf@.len(),
    ensures
        r is Some <==> dec_sequencing_message_s(buf@.skip(pos as int)) is Some,
        r matches Some((x, end)) ==> pos <= end <= buf@.len() && dec_sequencing_message_s(
            buf@.skip(pos as int),
        ) == Some((x@, buf@.skip(end as int))),
{
    proof {
        reveal(dec_sequencing_message_s);
    }
    let (tag, p_t) = match dec_u8_e(buf, pos) {
        Some(v) => v,
        None => {
            return None;
        },
    };
    if tag == 0 {
        let (q0, e1) = match dec_general_message_e(buf, p_t) {
            Some(v) => v,
            None => {
                return None;
            },
        };
        Some((SequencingMessage::General(q0), e1))
    } else if tag == 1 {
        let (q0, e1) = match dec_da_message_e(buf, p_t) {
            Some(v) => v,
            None => {
                return None;
            },
        };
        Some((SequencingMessage::Da(q0), e1))
    } else {
        None
    }
}

/// Reading the value back from its encoding.
#[verifier::spinoff_prover]
pub proof fn lemma_dec_sequencing_message_enc(x: SequencingMessageV, rest: Seq<u8>)
    requires
        bounded_sequencing_message(x),
    ensures
        dec_sequencing_message_s(enc_sequencing_message(x) + rest) == Some((x, rest)),
{
    reveal(enc_sequencing_message);
    reveal(dec_sequencing_message_s);
    match x {
        SequencingMessageV::General(p0) => {
            assert(enc_sequencing_message(x) + rest =~= seq![0u8] + (enc_general_message(p0) + (rest)));
            lemma_dec_u8_enc(0u8, enc_general_message(p0) + (rest));
            lemma_dec_general_message_enc(p0, (rest));
        },
        SequencingMessageV::Da(p0) => {
            assert(enc_sequencing_message(x) + rest =~= seq![1u8] + (enc_da_message(p0) + (rest)));
            lemma_dec_u8_enc(1u8, enc_da_message(p0) + (rest));
            lemma_dec_da_message_enc(p0, (rest));
        },
    }
}

/// Wire format of a response message: a variant tag, then the payload.
#[verifier::opaque]
pub open spec fn enc_response_message(x: ResponseMessageV) -> Seq<u8> {
    match x {
        ResponseMessageV::Found(p0) => seq![0u8] + enc_sequencing_message(p0),
        ResponseMessageV::NotFound => seq![1u8],
        ResponseMessageV::Denied => seq![2u8],
    }
}

/// Byte fields fit their length prefixes.
pub open spec fn bounded_response_message(x: ResponseMessageV) -> bool {
    match x {
        ResponseMessageV::Found(p0) => bounded_sequencing_message(p0),
        ResponseMessageV::NotFound => true,
        ResponseMessageV::Denied => true,
    }
}

/// Decode: the inverse of the encoding.
#[verifier::opaque]
pub open spec fn dec_response_message_s(s: Seq<u8>) -> Option<(ResponseMessageV, Seq<u8>)> {
    match dec_u8_s(s) {
        Some((tag, s0)) => {
            if tag == 0 {
                match dec_sequencing_message_s(s0) {
                    Some((q0, s1)) => {
                        Some((ResponseMessageV::Found(q0), s1))
                    },
                    None => None,
                }
            } else if tag == 1 {
                Some((ResponseMessageV::NotFound, s0))
            } else if tag == 2 {
                Some((ResponseMessageV::Denied, s0))
            } else {
                None
            }
        },
        None => None,
    }
}

/// Append the encoding.
pub fn push_response_message(out: &mut Vec<u8>, x: &ResponseMessage)
    ensures
        final(out)@ == old(out)@ + enc_response_message(x@),
{
    match x {
        ResponseMessage::Found(p0) => {
            out.push(0u8);
            push_sequencing_message(out, p0);
        },
        ResponseMessage::NotFound => {
            out.push(1u8);
        },
        ResponseMessage::Denied => {
            out.push(2u8);
        },
    }
    proof {
        reveal(enc_response_message);
        assert(out@ =~= old(out)@ + enc_response_message(x@));
    }
}

/// Decode at `pos`.
pub fn dec_response_message_e(buf: &Vec<u8>, pos: usize) -> (r: Option<(ResponseMessage, usize)>)
    requires
        pos <= buf@.len(),
    ensures
        r is Some <==> dec_response_message_s(buf@.skip(pos as int)) is Some,
        r matches Some((x, end)) ==> pos <= end <= buf@.len() && dec_response_message_s(
            buf@.skip(pos as int),
        ) == Some((x@, buf@.skip(end as int))),
{
    proof {
        reveal(dec_response_message_s);
    }
    let (tag, p_t) = match dec_u8_e(buf, pos) {
        Some(v) => v,
        None => {
            return None;
        },
    };
    if tag == 0 {
        let (q0, e1) = match dec_sequencing_message_e(buf, p_t) {
            Some(v) => v,
            None => {
                return None;
            },
        };
        Some((ResponseMessage::Found(q0), e1))
    } else if tag == 1 {
        Some((ResponseMessage::NotFound, p_t))
    } else if tag == 2 {
        Some((ResponseMessage::Denied, p_t))
    } else {
        None
    }
}

/// Reading the value back from its encoding.
#[verifier::spinoff_prover]
pub proof fn lemma_dec_response_message_enc(x: ResponseMessageV, rest: Seq<u8>)
    requires
        bounded_response_message(x),
    ensures
        dec_response_message_s(enc_response_message(x) + rest) == Some((x, rest)),
{
    reveal(enc_response_message);
    reveal(dec_response_message_s);
    match x {
        ResponseMessageV::Found(p0) => {
            assert(enc_response_message(x) + rest =~= seq![0u8] + (enc_sequencing_message(p0) + (rest)));
            lemma_dec_u8_enc(0u8, enc_sequencing_message(p0) + (rest));
            lemma_dec_sequencing_message_enc(p0, (rest));
        },
        ResponseMessageV::NotFound => {
            assert(enc_response_message(x) + rest =~= seq![1u8] + rest);
            lemma_dec_u8_enc(1u8, rest);
        },
        ResponseMessageV::Denied => {
            assert(enc_response_message(x) + rest =~= seq![2u8] + rest);
            lemma_dec_u8_enc(2u8, rest);
        },
    }
}

/// Wire format of a data message: a variant tag, then the payload.
#[verifier::opaque]
pub open spec fn enc_data_message(x: DataMessageV) -> Seq<u8> {
    match x {
        DataMessageV::SubmitTransaction(p0, p1) => seq![0u8] + enc_bytes(p0) + u64_le_bytes(p1),
        DataMessageV::RequestData(p0) => seq![1u8] + enc_data_request(p0),
        DataMessageV::DataResponse(p0) => seq![2u8] + enc_response_message(p0),
    }
}

/// Byte fields fit their length prefixes.
pub open spec fn bounded_data_message(x: DataMessageV) -> bool {
    match x {
        DataMessageV::SubmitTransaction(p0, p1) => p0.len() <= u64::MAX,
        DataMessageV::RequestData(p0) => true,
        DataMessageV::DataResponse(p0) => bounded_response_message(p0),
    }
}

/// Decode: the inverse of the encoding.
#[verifier::opaque]
pub open spec fn dec_data_message_s(s: Seq<u8>) -> Option<(DataMessageV, Seq<u8>)> {
    match dec_u8_s(s) {
        Some((tag, s0)) => {
            if tag == 0 {
                match dec_bytes_s(s0) {
                    Some((q0, s1)) => {
                        match dec_u64_s(s1) {
                            Some((q1, s2)) => {
                                Some((DataMessageV::SubmitTransaction(q0, q1), s2))
                            },
                            None => None,
                        }
                    },
                    None => None,
                }
            } else if tag == 1 {
                match dec_data_request_s(s0) {
                    Some((q0, s1)) => {
                        Some((DataMessageV::RequestData(q0), s1))
                    },
                    None => None,
                }
            } else if tag == 2 {
                match dec_response_message_s(s0) {
                    Some((q0, s1)) => {
                        Some((DataMessageV::DataResponse(q0), s1))
                    },
                    None => None,
                }
            } else {
                None
            }
        },
        None => None,
    }
}

/// Append the encoding.
pub fn push_data_message(out: &mut Vec<u8>, x: &DataMessage)
    ensures
        final(out)@ == old(out)@ + enc_data_message(x@),
{
    match x {
        DataMessage::SubmitTransaction(p0, p1) => {
            out.push(0u8);
            push_len_bytes(out, &(*p0));
            push_u64_le(out, (*p1));
        },
        DataMessage::RequestData(p0) => {
            out.push(1u8);
            push_data_request(out, p0);
        },
        DataMessage::DataResponse(p0) => {
            out.push(2u8);
            push_response_message(out, p0);
        },
    }
    proof {
        reveal(enc_data_message);
        assert(out@ =~= old(out)@ + enc_data_message(x@));
    }
}

/// Decode at `pos`.
pub fn dec_data_message_e(buf: &Vec<u8>, pos: usize) -> (r: Option<(DataMessage, usize)>)
    requires
        pos <= buf@.len(),
    ensures
        r is Some <==> dec_data_message_s(buf@.skip(pos as int)) is Some,
        r matches Some((x, end)) ==> pos <= end <= buf@.len() && dec_data_message_s(
            buf@.skip(pos as int),
        ) == Some((x@, buf@.skip(end as int))),
{
    proof {
        reveal(dec_data_message_s);
    }
    let (tag, p_t) = match dec_u8_e(buf, pos) {
        Some(v) => v,
        None => {
            return None;
        },
    };
    if tag == 0 {
        let (q0, e1) = match dec_bytes_e(buf, p_t) {
            Some(v) => v,
            None => {
                return None;
            },
        };
        let (q1, e2) = match dec_u64_e(buf, e1) {
            Some(v) => v,
            None => {
                return None;
            },
        };
        Some((DataMessage::SubmitTransaction(q0, q1), e2))
    } else if tag == 1 {
        let (q0, e1) = match dec_data_request_e(buf, p_t) {
            Some(v) => v,
            None => {
                return None;
            },
        };
        Some((DataMessage::RequestData(q0), e1))
    } else if tag == 2 {
        let (q0, e1) = match dec_response_message_e(buf, p_t) {
            Some(v) => v,
            None => {
                return None;
            },
        };
        Some((DataMessage::DataResponse(q0), e1))
    } else {
        None
    }
}

/// Reading the value back from its encoding.
#[verifier::spinoff_prover]
pub proof fn lemma_dec_data_message_enc(x: DataMessageV, rest: Seq<u8>)
    requires
        bounded_data_message(x),
    ensures
        dec_data_message_s(enc_data_message(x) + rest) == Some((x, rest)),
{
    reveal(enc_data_message);
    reveal(dec_data_message_s);
    match x {
        DataMessageV::SubmitTransaction(p0, p1) => {
            assert(enc_data_message(x) + rest =~= seq![0u8] + (enc_bytes(p0) + (u64_le_bytes(p1) + (rest))));
            lemma_dec_u8_enc(0u8, enc_bytes(p0) + (u64_le_bytes(p1) + (rest)));
            lemma_dec_bytes_enc(p0, (u64_le_bytes(p1) + (rest)));
            assert(u64_le_bytes(p1) + (rest) =~= u64_le_bytes(p1) + (rest));
            lemma_dec_u64_enc(p1, (rest));
        },
        DataMessageV::RequestData(p0) => {
            assert(enc_data_message(x) + rest =~= seq![1u8] + (enc_data_request(p0) + (rest)));
            lemma_dec_u8_enc(1u8, enc_data_request(p0) + (rest));
            lemma_dec_data_request_enc(p0, (rest));
        },
        DataMessageV::DataResponse(p0) => {
            assert(enc_data_message(x) + rest =~= seq![2u8] + (enc_response_message(p0) + (rest)));
            lemma_dec_u8_enc(2u8, enc_response_message(p0) + (rest));
            lemma_dec_response_message_enc(p0, (rest));
        },
    }
}

/// Wire format of a message kind: a variant tag, then the payload.
#[verifier::opaque]
pub open spec fn enc_message_kind(x: MessageKindV) -> Seq<u8> {
    match x {
        MessageKindV::Consensus(p0) => seq![0u8] + enc_sequencing_message(p0),
        MessageKindV::Data(p0) => seq![1u8] + enc_data_message(p0),
    }
}

/// Byte fields fit their length prefixes.
pub open spec fn bounded_message_kind(x: MessageKindV) -> bool {
    match x {
        MessageKindV::Consensus(p0) => bounded_sequencing_message(p0),
        MessageKindV::Data(p0) => bounded_data_message(p0),
    }
}

/// Decode: the inverse of the encoding.
#[verifier::opaque]
pub open spec fn dec_message_kind_s(s: Seq<u8>) -> Option<(MessageKindV, Seq<u8>)> {
    match dec_u8_s(s) {
        Some((tag, s0)) => {
            if tag == 0 {
                match dec_sequencing_message_s(s0) {
                    Some((q0, s1)) => {
                        Some((MessageKindV::Consensus(q0), s1))
                    },
                    None => None,
                }
            } else if tag == 1 {
                match dec_data_message_s(s0) {
                    Some((q0, s1)) => {
                        Some((MessageKindV::Data(q0), s1))
                    },
                    None => None,
                }
            } else {
                None
            }
        },
        None => None,
    }
}

/// Append the encoding.
pub fn push_message_kind(out: &mut Vec<u8>, x: &MessageKind)
    ensures
        final(out)@ == old(out)@ + enc_message_kind(x@),
{
    match x {
        MessageKind::Consensus(p0) => {
            out.push(0u8);
            push_sequencing_message(out, p0);
        },
        MessageKind::Data(p0) => {
            out.push(1u8);
            push_data_message(out, p0);
        },
    }
    proof {
        reveal(enc_message_kind);
        assert(out@ =~= old(out)@ + enc_message_kind(x@));
    }
}

/// Decode at `pos`.
pub fn dec_message_kind_e(buf: &Vec<u8>, pos: usize) -> (r: Option<(MessageKind, usize)>)
    requires
        pos <= buf@.len(),
    ensures
        r is Some <==> dec_message_kind_s(buf@.skip(pos as int)) is Some,
        r matches Some((x, end)) ==> pos <= end <= buf@.len() && dec_message_kind_s(
            buf@.skip(pos as int),
        ) == Some((x@, buf@.skip(end as int))),
{
    proof {
        reveal(dec_message_kind_s);
    }
    let (tag, p_t) = match dec_u8_e(buf, pos) {
        Some(v) => v,
        None => {
            return None;
        },
    };
    if tag == 0 {
        let (q0, e1) = match dec_sequencing_message_e(buf, p_t) {
            Some(v) => v,
            None => {
                return None;
            },
        };
        Some((MessageKind::Consensus(q0), e1))
    } else if tag == 1 {
        let (q0, e1) = match dec_data_message_e(buf, p_t) {
            Some(v) => v,
            None => {
                return None;
            },
        };
        Some((MessageKind::Data(q0), e1))
    } else {
        None
    }
}

/// Reading the value back from its encoding.
#[verifier::spinoff_prover]
pub proof fn lemma_dec_message_kind_enc(x: MessageKindV, rest: Seq<u8>)
    requires
        bounded_message_kind(x),
    ensures
        dec_message_kind_s(enc_message_kind(x) + rest) == Some((x, rest)),
{
    reveal(enc_message_kind);
    reveal(dec_message_kind_s);
    match x {
        MessageKindV::Consensus(p0) => {
            assert(enc_message_kind(x) + rest =~= seq![0u8] + (enc_sequencing_message(p0) + (rest)));
            lemma_dec_u8_enc(0u8, enc_sequencing_message(p0) + (rest));
            lemma_dec_sequencing_message_enc(p0, (rest));
        },
        MessageKindV::Data(p0) => {
            assert(enc_message_kind(x) + rest =~= seq![1u8] + (enc_data_message(p0) + (rest)));
            lemma_dec_u8_enc(1u8, enc_data_message(p0) + (rest));
            lemma_dec_data_message_enc(p0, (rest));
        },
    }
}

/// Wire format of a message.
#[verifier::opaque]
pub open spec fn enc_message(x: MessageV) -> Seq<u8> {
    u64_le_bytes(x.sender) + enc_message_kind(x.kind)
}

/// Byte fields fit their length prefixes.
pub open spec fn bounded_message(x: MessageV) -> bool {
    bounded_message_kind(x.kind)
}

/// Decode: the inverse of the encoding.
#[verifier::opaque]
pub open spec fn dec_message_s(s: Seq<u8>) -> Option<(MessageV, Seq<u8>)> {
    match dec_u64_s(s) {
        Some((f_sender, s_1)) => {
            match dec_message_kind_s(s_1) {
                Some((f_kind, s_2)) => {
                    Some((MessageV { sender: f_sender, kind: f_kind }, s_2))
                },
                None => None,
            }
        },
        None => None,
    }
}

/// Append the encoding.
pub fn push_message(out: &mut Vec<u8>, x: &Message)
    ensures
        final(out)@ == old(out)@ + enc_message(x@),
{
    push_u64_le(out, x.sender);
    push_message_kind(out, &x.kind);
    proof {
        reveal(enc_message);
        assert(out@ =~= old(out)@ + enc_message(x@));
    }
}

/// Decode at `pos`.
pub fn dec_message_e(buf: &Vec<u8>, pos: usize) -> (r: Option<(Message, usize)>)
    requires
        pos <= buf@.len(),
    ensures
        r is Some <==> dec_message_s(buf@.skip(pos as int)) is Some,
        r matches Some((x, end)) ==> pos <= end <= buf@.len() && dec_message_s(
            buf@.skip(pos as int),
        ) == Some((x@, buf@.skip(end as int))),
{
    proof {
        reveal(dec_message_s);
    }
    let (f_sender, p_1) = match dec_u64_e(buf, pos) {
        Some(v) => v,
        None => {
            return None;
        },
    };
    let (f_kind, p_2) = match dec_message_kind_e(buf, p_1) {
        Some(v) => v,
        None => {
            return None;
        },
    };
    Some((Message { sender: f_sender, kind: f_kind }, p_2))
}

/// Reading the value back from its encoding.
#[verifier::spinoff_prover]
pub proof fn lemma_dec_message_enc(x: MessageV, rest: Seq<u8>)
    requires
        bounded_message(x),
    ensures
        dec_message_s(enc_message(x) + rest) == Some((x, rest)),
{
    reveal(enc_message);
    reveal(dec_message_s);
    let t_1 = enc_message_kind(x.kind) + (rest);
    assert(enc_message(x) + rest =~= u64_le_bytes(x.sender) + t_1);
    lemma_dec_u64_enc(x.sender, t_1);
    let t_2 = rest;
    assert(t_1 =~= enc_message_kind(x.kind) + t_2);
    lemma_dec_message_kind_enc(x.kind, t_2);
}

// ---------------------------------------------------------------------
// Versioned serialization
// ---------------------------------------------------------------------

/// Why encoding or decoding a message failed.
#[derive(Clone, Copy, Debug, PartialEq, Eq, Structural)]
pub enum CodecError {
    /// The decided upgrade certificate mandates a version this node does
    /// not know; such a message is refused in both directions.
    UnsupportedUpgrade,
    /// The two-byte version prefix names no known version.
    UnsupportedVersion,
    /// The message carries a version prefix other than the one its view
    /// mandates.
    VersionMismatch,
    /// The bytes are not one whole, well-formed message.
    MalformedMessage,
}

/// The version a message at `view` must carry, given the decided upgrade
/// certificate: the upgraded version from the certificate's first new view
/// on, the base version before it or with no certificate, and nothing when
/// the certificate names a version this node does not support.
pub open spec fn spec_version_for_view(view: u64, cert: Option<UpgradeCertificate>) -> Option<
    Version,
> {
    match cert {
        Some(c) => if view >= c.new_version_first_view {
            if c.new_version == spec_upgrade_version() {
                Some(spec_upgrade_version())
            } else {
                None
            }
        } else {
            Some(spec_base_version())
        },
        None => Some(spec_base_version()),
    }
}

/// Decide the version a message at `view` must carry.
pub fn version_for_view(view: u64, cert: &Option<UpgradeCertificate>) -> (r: Option<Version>)
    ensures
        r == spec_version_for_view(view, *cert),
{
    match cert {
        Some(c) => {
            if view >= c.new_version_first_view {
                let up = upgrade_version();
                if c.new_version == up {
                    Some(up)
                } else {
                    None
                }
            } else {
                Some(base_version())
            }
        },
        None => Some(base_version()),
    }
}

/// The whole wire encoding of a message under a version: the two version
/// bytes, then the message.
pub open spec fn enc_versioned(m: MessageV, v: Version) -> Seq<u8> {
    enc_version(v) + enc_message(m)
}

/// What deserializing a byte string yields: the version prefix must be a
/// known version, the remainder must be exactly one well-formed message,
/// and the prefix must equal the version the message's view mandates.
pub open spec fn spec_deserialize(s: Seq<u8>, cert: Option<UpgradeCertificate>) -> Result<
    MessageV,
    CodecError,
> {
    match dec_version_s(s) {
        Some((ver, s1)) => if ver != spec_base_version() && ver != spec_upgrade_version() {
            Err(CodecError::UnsupportedVersion)
        } else {
            match dec_message_s(s1) {
                Some((m, rest)) => if rest.len() != 0 {
                    Err(CodecError::MalformedMessage)
                } else {
                    match spec_version_for_view(
                        crate::message::spec_message_view_number(m),
                        cert,
                    ) {
                        Some(expected) => if ver == expected {
                            Ok(m)
                        } else {
                            Err(CodecError::VersionMismatch)
                        },
                        None => Err(CodecError::UnsupportedUpgrade),
                    }
                },
                None => Err(CodecError::MalformedMessage),
            }
        },
        None => Err(CodecError::MalformedMessage),
    }
}

/// Serialize a message under the version its view mandates; fails exactly
/// when the decided upgrade certificate mandates an unsupported version.
pub fn serialize_message(m: &Message, cert: &Option<UpgradeCertificate>) -> (r: Result<
    Vec<u8>,
    CodecError,
>)
    ensures
        r is Ok <==> spec_version_for_view(
            crate::message::spec_message_view_number(m@),
            *cert,
        ) is Some,
        r matches Ok(bytes) ==> bytes@ == enc_versioned(
            m@,
            spec_version_for_view(crate::message::spec_message_view_number(m@), *cert).unwrap(),
        ),
        r is Err ==> r == Err::<Vec<u8>, CodecError>(CodecError::UnsupportedUpgrade),
{
    let view = m.view_number();
    let ver = match version_for_view(view, cert) {
        Some(v) => v,
        None => {
            return Err(CodecError::UnsupportedUpgrade);
        },
    };
    let mut out: Vec<u8> = Vec::new();
    push_version(&mut out, &ver);
    push_message(&mut out, m);
    proof {
        assert(out@ =~= enc_versioned(m@, ver));
    }
    Ok(out)
}

/// Deserialize a byte string, holding its version prefix against the
/// version its view mandates; the result is exactly what the mathematical
/// decoder says.
pub fn deserialize_message(bytes: &Vec<u8>, cert: &Option<UpgradeCertificate>) -> (r: Result<
    Message,
    CodecError,
>)
    ensures
        r matches Ok(m) ==> spec_deserialize(bytes@, *cert) == Ok::<MessageV, CodecError>(m@),
        r matches Err(e) ==> spec_deserialize(bytes@, *cert) == Err::<MessageV, CodecError>(e),
{
    proof {
        assert(bytes@.skip(0) =~= bytes@);
    }
    let (ver, p1) = match dec_version_e(bytes, 0) {
        Some(v) => v,
        None => {
            return Err(CodecError::MalformedMessage);
        },
    };
    let base = base_version();
    let up = upgrade_version();
    if !(ver == base) && !(ver == up) {
        return Err(CodecError::UnsupportedVersion);
    }
    let (m, end) = match dec_message_e(bytes, p1) {
        Some(v) => v,
        None => {
            return Err(CodecError::MalformedMessage);
        },
    };
    if end != bytes.len() {
        proof {
            assert(bytes@.skip(end as int).len() != 0);
        }
        return Err(CodecError::MalformedMessage);
    }
    proof {
        assert(bytes@.skip(end as int).len() == 0);
    }
    let view = m.view_number();
    match version_for_view(view, cert) {
        Some(expected) => {
            if ver == expected {
                Ok(m)
            } else {
                Err(CodecError::VersionMismatch)
            }
        },
        None => Err(CodecError::UnsupportedUpgrade),
    }
}

/// Round trip: a message whose view admits a supported version, encoded
/// under that version, deserializes to the very same message.
pub proof fn lemma_codec_round_trip(m: MessageV, cert: Option<UpgradeCertificate>)
    requires
        bounded_message(m),
        spec_version_for_view(crate::message::spec_message_view_number(m), cert) is Some,
    ensures
        spec_deserialize(
            enc_versioned(
                m,
                spec_version_for_view(
                    crate::message::spec_message_view_number(m),
                    cert,
                ).unwrap(),
            ),
            cert,
        ) == Ok::<MessageV, CodecError>(m),
{
    let v = spec_version_for_view(crate::message::spec_message_view_number(m), cert).unwrap();
    let body = enc_message(m);
    lemma_dec_version_enc(v, body);
    assert(enc_versioned(m, v) == enc_version(v) + body);
    lemma_dec_message_enc(m, Seq::<u8>::empty());
    assert(body + Seq::<u8>::empty() =~= body);
    assert(dec_message_s(body) == Some((m, Seq::<u8>::empty())));
}

/// A message encoded under any known version other than the one its view
/// mandates is rejected as a version mismatch.
pub proof fn lemma_codec_rejects_wrong_version(
    m: MessageV,
    cert: Option<UpgradeCertificate>,
    v: Version,
)
    requires
        bounded_message(m),
        spec_version_for_view(crate::message::spec_message_view_number(m), cert) is Some,
        v != spec_version_for_view(crate::message::spec_message_view_number(m), cert).unwrap(),
        v == spec_base_version() || v == spec_upgrade_version(),
    ensures
        spec_deserialize(enc_versioned(m, v), cert) == Err::<MessageV, CodecError>(
            CodecError::VersionMismatch,
        ),
{
    let body = enc_message(m);
    lemma_dec_version_enc(v, body);
    assert(enc_versioned(m, v) == enc_version(v) + body);
    lemma_dec_message_enc(m, Seq::<u8>::empty());
    assert(body + Seq::<u8>::empty() =~= body);
    assert(dec_message_s(body) == Some((m, Seq::<u8>::empty())));
}

/// Every message held in executable form is bounded: its byte fields fit
/// their length prefixes.
pub proof fn lemma_exec_message_bounded(m: &Message)
    ensures
        bounded_message(m@),
{
    broadcast use vstd::std_specs::vec::axiom_spec_len;

    match &m.kind {
        MessageKind::Consensus(c) => lemma_exec_sequencing_bounded(c),
        MessageKind::Data(d) => match d {
            DataMessage::SubmitTransaction(tx, _) => {
                assert(tx.len() == tx@.len());
            },
            DataMessage::RequestData(_) => {},
            DataMessage::DataResponse(rm) => match rm {
                ResponseMessage::Found(c) => lemma_exec_sequencing_bounded(c),
                ResponseMessage::NotFound => {},
                ResponseMessage::Denied => {},
            },
        },
    }
}

/// Every consensus message held in executable form is bounded.
pub proof fn lemma_exec_sequencing_bounded(m: &SequencingMessage)
    ensures
        bounded_sequencing_message(m@),
{
    broadcast use vstd::std_specs::vec::axiom_spec_len;

    match m {
        SequencingMessage::General(g) => match g {
            GeneralConsensusMessage::Proposal(p) => {
                assert(p.data.block_header.metadata.len() == p.data.block_header.metadata@.len());
            },
            _ => {},
        },
        SequencingMessage::Da(d) => match d {
            DaConsensusMessage::DaProposal(p) => {
                assert(p.data.encoded_transactions.len() == p.data.encoded_transactions@.len());
                assert(p.data.metadata.len() == p.data.metadata@.len());
            },
            DaConsensusMessage::VidDisperseMsg(p) => {
                assert(p.data.share.len() == p.data.share@.len());
            },
            _ => {},
        },
    }
}

} // verus!
