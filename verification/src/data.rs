//! The protocol's data model: views, commitments, certificates, votes,
//! leaves and proposals. Nodes are identified by their committee index; a
//! commitment is a 256-bit content hash held as four 64-bit words.
//!
//! Types that carry byte payloads have a mathematical view (`@`) in which
//! those payloads are sequences; contracts speak of the views.

use vstd::prelude::*;

use crate::bytes::{u64_from_le, u64_le_bytes, push_u64_le, bytes_dup};
use crate::crypto::sha256;
use crate::crypto::sha256_of;
use crate::vmap::MapKey;

verus! {

/// A protocol version carried on every wire message as a two-byte prefix.
#[derive(Clone, Copy, Debug, PartialEq, Eq, Structural)]
pub struct Version {
    pub major: u8,
    pub minor: u8,
}

/// The base protocol version, 0.1.
pub fn base_version() -> (v: Version)
    ensures
        v == spec_base_version(),
{
    Version { major: 0, minor: 1 }
}

/// The upgraded protocol version, 0.2.
pub fn upgrade_version() -> (v: Version)
    ensures
        v == spec_upgrade_version(),
{
    Version { major: 0, minor: 2 }
}

pub open spec fn spec_base_version() -> Version {
    Version { major: 0, minor: 1 }
}

pub open spec fn spec_upgrade_version() -> Version {
    Version { major: 0, minor: 2 }
}

/// A 256-bit content hash, the identity of a leaf or payload.
#[derive(Clone, Copy, Debug, PartialEq, Eq, Structural)]
pub struct Commit {
    pub w0: u64,
    pub w1: u64,
    pub w2: u64,
    pub w3: u64,
}

impl MapKey for Commit {
    fn key_eq(&self, other: &Self) -> (r: bool)
        ensures
            r == (*self == *other),
    {
        self.w0 == other.w0 && self.w1 == other.w1 && self.w2 == other.w2 && self.w3 == other.w3
    }
}

/// The 32 bytes of a commitment, little-endian word by word.
pub open spec fn commit_bytes(c: Commit) -> Seq<u8> {
    u64_le_bytes(c.w0) + u64_le_bytes(c.w1) + u64_le_bytes(c.w2) + u64_le_bytes(c.w3)
}

/// Append the 32 bytes of a commitment.
pub fn push_commit(out: &mut Vec<u8>, c: &Commit)
    ensures
        final(out)@ == old(out)@ + commit_bytes(*c),
{
    push_u64_le(out, c.w0);
    push_u64_le(out, c.w1);
    push_u64_le(out, c.w2);
    push_u64_le(out, c.w3);
    proof {
        assert(out@ =~= old(out)@ + commit_bytes(*c));
    }
}

/// The commitment whose words are read from a 32-byte digest.
pub open spec fn commit_from_digest(d: Seq<u8>) -> Commit {
    Commit {
        w0: u64_from_le(d.subrange(0, 8)),
        w1: u64_from_le(d.subrange(8, 16)),
        w2: u64_from_le(d.subrange(16, 24)),
        w3: u64_from_le(d.subrange(24, 32)),
    }
}

/// The commitment of a byte string: its SHA-256 digest, packed into words.
pub open spec fn commit_of(data: Seq<u8>) -> Commit {
    commit_from_digest(sha256_of(data))
}

/// Compute the commitment of a byte string.
pub fn compute_commit(data: &Vec<u8>) -> (r: Commit)
    ensures
        r == commit_of(data@),
{
    let d = sha256(data);
    Commit {
        w0: crate::bytes::read_u64_le(&d, 0),
        w1: crate::bytes::read_u64_le(&d, 8),
        w2: crate::bytes::read_u64_le(&d, 16),
        w3: crate::bytes::read_u64_le(&d, 24),
    }
}

/// A threshold signature as it travels on the wire.
pub type Signature = [u8; 96];

/// A certificate that a quorum voted for a leaf at a view.
#[derive(Clone, Copy, Debug, PartialEq, Eq)]
pub struct QuorumCertificate {
    /// Commitment of the leaf the quorum voted for.
    pub leaf_commit: Commit,
    /// The view the vote took place in.
    pub view_number: u64,
    /// Combined signature over the vote payload; absent only for genesis.
    pub signature: Option<Signature>,
    /// Whether this is the distinguished genesis certificate.
    pub is_genesis: bool,
}

/// A certificate that a DA quorum certified a payload for a view.
#[derive(Clone, Copy, Debug, PartialEq, Eq)]
pub struct DaCertificate {
    pub payload_commitment: Commit,
    pub view_number: u64,
    pub signature: Option<Signature>,
}

/// A certificate that a quorum timed out of a view.
#[derive(Clone, Copy, Debug, PartialEq, Eq)]
pub struct TimeoutCertificate {
    pub view_number: u64,
    pub signature: Option<Signature>,
}

/// A view-sync certificate of the pre-commit phase.
#[derive(Clone, Copy, Debug, PartialEq, Eq)]
pub struct ViewSyncPreCommitCertificate {
    pub view_number: u64,
    pub relay: u64,
    pub signature: Option<Signature>,
}

/// A view-sync certificate of the commit phase.
#[derive(Clone, Copy, Debug, PartialEq, Eq)]
pub struct ViewSyncCommitCertificate {
    pub view_number: u64,
    pub relay: u64,
    pub signature: Option<Signature>,
}

/// A view-sync certificate of the finalize phase.
#[derive(Clone, Copy, Debug, PartialEq, Eq)]
pub struct ViewSyncFinalizeCertificate {
    pub view_number: u64,
    pub relay: u64,
    pub signature: Option<Signature>,
}

/// A certificate that a quorum agreed to upgrade the protocol version.
#[derive(Clone, Copy, Debug, PartialEq, Eq)]
pub struct UpgradeCertificate {
    pub old_version: Version,
    pub new_version: Version,
    /// First view at which messages must use the new version.
    pub new_version_first_view: u64,
    pub view_number: u64,
    pub signature: Option<Signature>,
}

/// Evidence that justifies proposing without a quorum certificate for the
/// immediately preceding view.
#[derive(Clone, Copy, Debug, PartialEq, Eq)]
pub enum ViewChangeEvidence {
    Timeout(TimeoutCertificate),
    ViewSync(ViewSyncFinalizeCertificate),
}

/// A block header: the part of a block that consensus orders.
#[derive(Debug, PartialEq, Eq)]
pub struct BlockHeader {
    pub block_number: u64,
    pub payload_commitment: Commit,
    pub builder_commitment: Commit,
    pub metadata: Vec<u8>,
}

/// Mathematical view of a block header.
#[verifier::ext_equal]
pub struct BlockHeaderV {
    pub block_number: u64,
    pub payload_commitment: Commit,
    pub builder_commitment: Commit,
    pub metadata: Seq<u8>,
}

impl View for BlockHeader {
    type V = BlockHeaderV;

    open spec fn view(&self) -> BlockHeaderV {
        BlockHeaderV {
            block_number: self.block_number,
            payload_commitment: self.payload_commitment,
            builder_commitment: self.builder_commitment,
            metadata: self.metadata@,
        }
    }
}

impl BlockHeader {
    /// An exact copy.
    pub fn dup(&self) -> (r: Self)
        ensures
            r@ == self@,
    {
        let r = BlockHeader {
            block_number: self.block_number,
            payload_commitment: self.payload_commitment,
            builder_commitment: self.builder_commitment,
            metadata: bytes_dup(&self.metadata),
        };
        proof {
            assert(r@ =~= self@);
        }
        r
    }
}

/// A leaf: a block header with its justifying certificate and parent link;
/// the unit of decision.
#[derive(Debug, PartialEq, Eq)]
pub struct Leaf {
    pub view_number: u64,
    pub justify_qc: QuorumCertificate,
    pub parent_commitment: Commit,
    pub block_header: BlockHeader,
    /// The full payload, if this node holds it.
    pub block_payload: Option<Vec<u8>>,
    pub upgrade_certificate: Option<UpgradeCertificate>,
}

/// Mathematical view of a leaf.
#[verifier::ext_equal]
pub struct LeafV {
    pub view_number: u64,
    pub justify_qc: QuorumCertificate,
    pub parent_commitment: Commit,
    pub block_header: BlockHeaderV,
    pub block_payload: Option<Seq<u8>>,
    pub upgrade_certificate: Option<UpgradeCertificate>,
}

impl View for Leaf {
    type V = LeafV;

    open spec fn view(&self) -> LeafV {
        LeafV {
            view_number: self.view_number,
            justify_qc: self.justify_qc,
            parent_commitment: self.parent_commitment,
            block_header: self.block_header@,
            block_payload: match self.block_payload {
                Some(p) => Some(p@),
                None => None,
            },
            upgrade_certificate: self.upgrade_certificate,
        }
    }
}

/// The bytes a leaf's commitment is computed over. The payload is excluded:
/// a leaf's identity is its header, view and ancestry.
pub open spec fn leaf_commit_preimage(leaf: LeafV) -> Seq<u8> {
    u64_le_bytes(leaf.view_number) + commit_bytes(leaf.parent_commitment) + commit_bytes(
        leaf.justify_qc.leaf_commit,
    ) + u64_le_bytes(leaf.justify_qc.view_number) + u64_le_bytes(leaf.block_header.block_number)
        + commit_bytes(leaf.block_header.payload_commitment) + commit_bytes(
        leaf.block_header.builder_commitment,
    ) + u64_le_bytes(leaf.block_header.metadata.len() as u64) + leaf.block_header.metadata
}

/// The commitment that identifies a leaf.
pub open spec fn leaf_commit_of(leaf: LeafV) -> Commit {
    commit_of(leaf_commit_preimage(leaf))
}

impl Leaf {
    /// Compute this leaf's commitment.
    pub fn commit(&self) -> (r: Commit)
        ensures
            r == leaf_commit_of(self@),
    {
        let mut pre: Vec<u8> = Vec::new();
        push_u64_le(&mut pre, self.view_number);
        push_commit(&mut pre, &self.parent_commitment);
        push_commit(&mut pre, &self.justify_qc.leaf_commit);
        push_u64_le(&mut pre, self.justify_qc.view_number);
        push_u64_le(&mut pre, self.block_header.block_number);
        push_commit(&mut pre, &self.block_header.payload_commitment);
        push_commit(&mut pre, &self.block_header.builder_commitment);
        push_u64_le(&mut pre, self.block_header.metadata.len() as u64);
        crate::bytes::push_bytes(&mut pre, &self.block_header.metadata);
        proof {
            assert(pre@ =~= leaf_commit_preimage(self@));
        }
        compute_commit(&pre)
    }

    /// An exact copy.
    pub fn dup(&self) -> (r: Self)
        ensures
            r@ == self@,
    {
        let payload = match &self.block_payload {
            Some(p) => Some(bytes_dup(p)),
            None => None,
        };
        let r = Leaf {
            view_number: self.view_number,
            justify_qc: self.justify_qc,
            parent_commitment: self.parent_commitment,
            block_header: self.block_header.dup(),
            block_payload: payload,
            upgrade_certificate: self.upgrade_certificate,
        };
        proof {
            assert(r@ =~= self@);
        }
        r
    }
}

/// A proposal to append a leaf at a view.
#[derive(Debug, PartialEq, Eq)]
pub struct QuorumProposal {
    pub block_header: BlockHeader,
    pub view_number: u64,
    /// The certificate that justifies this proposal's parent.
    pub justify_qc: QuorumCertificate,
    pub upgrade_certificate: Option<UpgradeCertificate>,
    /// Timeout or view-sync evidence, when the previous view formed no
    /// quorum certificate.
    pub proposal_certificate: Option<ViewChangeEvidence>,
}

/// Mathematical view of a quorum proposal.
#[verifier::ext_equal]
pub struct QuorumProposalV {
    pub block_header: BlockHeaderV,
    pub view_number: u64,
    pub justify_qc: QuorumCertificate,
    pub upgrade_certificate: Option<UpgradeCertificate>,
    pub proposal_certificate: Option<ViewChangeEvidence>,
}

impl View for QuorumProposal {
    type V = QuorumProposalV;

    open spec fn view(&self) -> QuorumProposalV {
        QuorumProposalV {
            block_header: self.block_header@,
            view_number: self.view_number,
            justify_qc: self.justify_qc,
            upgrade_certificate: self.upgrade_certificate,
            proposal_certificate: self.proposal_certificate,
        }
    }
}

/// The leaf a quorum proposal describes.
pub open spec fn leaf_from_quorum_proposal(p: QuorumProposalV) -> LeafV {
    LeafV {
        view_number: p.view_number,
        justify_qc: p.justify_qc,
        parent_commitment: p.justify_qc.leaf_commit,
        block_header: p.block_header,
        block_payload: None,
        upgrade_certificate: p.upgrade_certificate,
    }
}

impl QuorumProposal {
    /// The leaf this proposal describes; its parent is the leaf the justify
    /// certificate binds.
    pub fn to_leaf(&self) -> (r: Leaf)
        ensures
            r@ == leaf_from_quorum_proposal(self@),
    {
        let r = Leaf {
            view_number: self.view_number,
            justify_qc: self.justify_qc,
            parent_commitment: self.justify_qc.leaf_commit,
            block_header: self.block_header.dup(),
            block_payload: None,
            upgrade_certificate: self.upgrade_certificate,
        };
        proof {
            assert(r@ =~= leaf_from_quorum_proposal(self@));
        }
        r
    }

    /// An exact copy.
    pub fn dup(&self) -> (r: Self)
        ensures
            r@ == self@,
    {
        let r = QuorumProposal {
            block_header: self.block_header.dup(),
            view_number: self.view_number,
            justify_qc: self.justify_qc,
            upgrade_certificate: self.upgrade_certificate,
            proposal_certificate: self.proposal_certificate,
        };
        proof {
            assert(r@ =~= self@);
        }
        r
    }
}

/// A proposal of a payload to the DA committee.
#[derive(Debug, PartialEq, Eq)]
pub struct DaProposal {
    pub encoded_transactions: Vec<u8>,
    pub metadata: Vec<u8>,
    pub view_number: u64,
}

/// Mathematical view of a DA proposal.
#[verifier::ext_equal]
pub struct DaProposalV {
    pub encoded_transactions: Seq<u8>,
    pub metadata: Seq<u8>,
    pub view_number: u64,
}

impl View for DaProposal {
    type V = DaProposalV;

    open spec fn view(&self) -> DaProposalV {
        DaProposalV {
            encoded_transactions: self.encoded_transactions@,
            metadata: self.metadata@,
            view_number: self.view_number,
        }
    }
}

impl DaProposal {
    /// An exact copy.
    pub fn dup(&self) -> (r: Self)
        ensures
            r@ == self@,
    {
        let r = DaProposal {
            encoded_transactions: bytes_dup(&self.encoded_transactions),
            metadata: bytes_dup(&self.metadata),
            view_number: self.view_number,
        };
        proof {
            assert(r@ =~= self@);
        }
        r
    }
}

/// One recipient's share of a dispersed payload.
#[derive(Debug, PartialEq, Eq)]
pub struct VidDisperseShare {
    pub view_number: u64,
    /// Commitment of the payload the share belongs to.
    pub payload_commitment: Commit,
    pub share: Vec<u8>,
    /// The committee index of the intended recipient.
    pub recipient_key: u64,
}

/// Mathematical view of a dispersal share.
#[verifier::ext_equal]
pub struct VidDisperseShareV {
    pub view_number: u64,
    pub payload_commitment: Commit,
    pub share: Seq<u8>,
    pub recipient_key: u64,
}

impl View for VidDisperseShare {
    type V = VidDisperseShareV;

    open spec fn view(&self) -> VidDisperseShareV {
        VidDisperseShareV {
            view_number: self.view_number,
            payload_commitment: self.payload_commitment,
            share: self.share@,
            recipient_key: self.recipient_key,
        }
    }
}

impl VidDisperseShare {
    /// An exact copy.
    pub fn dup(&self) -> (r: Self)
        ensures
            r@ == self@,
    {
        let r = VidDisperseShare {
            view_number: self.view_number,
            payload_commitment: self.payload_commitment,
            share: bytes_dup(&self.share),
            recipient_key: self.recipient_key,
        };
        proof {
            assert(r@ =~= self@);
        }
        r
    }
}

/// A signed proposal: the data together with the proposer's signature share.
#[derive(Debug, PartialEq, Eq)]
pub struct Proposal<D> {
    pub data: D,
    pub signature: Signature,
}

/// Mathematical view of a signed proposal.
#[verifier::ext_equal]
pub struct ProposalV<DV> {
    pub data: DV,
    pub signature: Signature,
}

impl<D: View> View for Proposal<D> {
    type V = ProposalV<D::V>;

    open spec fn view(&self) -> ProposalV<D::V> {
        ProposalV { data: self.data@, signature: self.signature }
    }
}

impl Proposal<DaProposal> {
    /// An exact copy.
    pub fn dup(&self) -> (r: Self)
        ensures
            r@ == self@,
    {
        let r = Proposal { data: self.data.dup(), signature: self.signature };
        proof {
            assert(r@ =~= self@);
        }
        r
    }
}

impl Proposal<QuorumProposal> {
    /// An exact copy.
    pub fn dup(&self) -> (r: Self)
        ensures
            r@ == self@,
    {
        let r = Proposal { data: self.data.dup(), signature: self.signature };
        proof {
            assert(r@ =~= self@);
        }
        r
    }
}

impl Proposal<VidDisperseShare> {
    /// An exact copy.
    pub fn dup(&self) -> (r: Self)
        ensures
            r@ == self@,
    {
        let r = Proposal { data: self.data.dup(), signature: self.signature };
        proof {
            assert(r@ =~= self@);
        }
        r
    }
}

/// A proposal to upgrade the protocol version.
#[derive(Clone, Copy, Debug, PartialEq, Eq)]
pub struct UpgradeProposal {
    pub old_version: Version,
    pub new_version: Version,
    pub new_version_first_view: u64,
    pub view_number: u64,
}

impl View for UpgradeProposal {
    type V = UpgradeProposal;

    open spec fn view(&self) -> UpgradeProposal {
        *self
    }
}

/// A vote for a leaf at a view.
#[derive(Clone, Copy, Debug, PartialEq, Eq)]
pub struct QuorumVote {
    pub leaf_commit: Commit,
    pub view_number: u64,
    /// Committee index of the voter.
    pub signer: u64,
    pub signature: Signature,
}

/// A vote that a payload is available for a view.
#[derive(Clone, Copy, Debug, PartialEq, Eq)]
pub struct DaVote {
    pub payload_commit: Commit,
    pub view_number: u64,
    pub signer: u64,
    pub signature: Signature,
}

/// A vote that a view has timed out.
#[derive(Clone, Copy, Debug, PartialEq, Eq)]
pub struct TimeoutVote {
    pub view_number: u64,
    pub signer: u64,
    pub signature: Signature,
}

/// A view-sync vote of the pre-commit phase.
#[derive(Clone, Copy, Debug, PartialEq, Eq)]
pub struct ViewSyncPreCommitVote {
    pub view_number: u64,
    pub relay: u64,
    pub signer: u64,
    pub signature: Signature,
}

/// A view-sync vote of the commit phase.
#[derive(Clone, Copy, Debug, PartialEq, Eq)]
pub struct ViewSyncCommitVote {
    pub view_number: u64,
    pub relay: u64,
    pub signer: u64,
    pub signature: Signature,
}

/// A view-sync vote of the finalize phase.
#[derive(Clone, Copy, Debug, PartialEq, Eq)]
pub struct ViewSyncFinalizeVote {
    pub view_number: u64,
    pub relay: u64,
    pub signer: u64,
    pub signature: Signature,
}

/// A vote for an upgrade proposal.
#[derive(Clone, Copy, Debug, PartialEq, Eq)]
pub struct UpgradeVote {
    pub view_number: u64,
    pub signer: u64,
    pub signature: Signature,
}

/// The bytes a vote signature covers: a tag, the commitment voted for, and
/// the view. Distinct vote kinds carry distinct tags so their signatures
/// cannot be replayed across kinds.
pub open spec fn vote_payload_bytes(tag: u8, c: Commit, view: u64) -> Seq<u8> {
    seq![tag] + commit_bytes(c) + u64_le_bytes(view)
}

/// Tag of quorum votes.
pub const TAG_QUORUM: u8 = 1;

/// Tag of DA votes.
pub const TAG_DA: u8 = 2;

/// Tag of timeout votes.
pub const TAG_TIMEOUT: u8 = 3;

/// Tag of view-sync pre-commit votes.
pub const TAG_VIEW_SYNC_PRE_COMMIT: u8 = 4;

/// Tag of view-sync commit votes.
pub const TAG_VIEW_SYNC_COMMIT: u8 = 5;

/// Tag of view-sync finalize votes.
pub const TAG_VIEW_SYNC_FINALIZE: u8 = 6;

/// Tag of upgrade votes.
pub const TAG_UPGRADE: u8 = 7;

/// The zero commitment, used where a vote kind has no commitment of its own.
pub fn zero_commit() -> (r: Commit)
    ensures
        r == spec_zero_commit(),
{
    Commit { w0: 0, w1: 0, w2: 0, w3: 0 }
}

pub open spec fn spec_zero_commit() -> Commit {
    Commit { w0: 0, w1: 0, w2: 0, w3: 0 }
}

/// Mathematical view of the genesis leaf: view zero, the genesis
/// certificate over the zero commitment, no payload and no upgrade.
pub open spec fn spec_genesis_leaf() -> LeafV {
    LeafV {
        view_number: 0,
        justify_qc: QuorumCertificate {
            leaf_commit: spec_zero_commit(),
            view_number: 0,
            signature: None,
            is_genesis: true,
        },
        parent_commitment: spec_zero_commit(),
        block_header: BlockHeaderV {
            block_number: 0,
            payload_commitment: spec_zero_commit(),
            builder_commitment: spec_zero_commit(),
            metadata: Seq::empty(),
        },
        block_payload: None,
        upgrade_certificate: None,
    }
}

/// Build the genesis leaf every node is anchored at.
pub fn genesis_leaf() -> (r: Leaf)
    ensures
        r@ == spec_genesis_leaf(),
{
    let r = Leaf {
        view_number: 0,
        justify_qc: QuorumCertificate {
            leaf_commit: zero_commit(),
            view_number: 0,
            signature: None,
            is_genesis: true,
        },
        parent_commitment: zero_commit(),
        block_header: BlockHeader {
            block_number: 0,
            payload_commitment: zero_commit(),
            builder_commitment: zero_commit(),
            metadata: Vec::new(),
        },
        block_payload: None,
        upgrade_certificate: None,
    };
    proof {
        assert(r@ =~= spec_genesis_leaf());
    }
    r
}

/// Build the distinguished genesis certificate: it binds the genesis leaf
/// at view zero and carries no signature.
pub fn genesis_qc() -> (r: QuorumCertificate)
    ensures
        r.leaf_commit == leaf_commit_of(spec_genesis_leaf()),
        r.view_number == 0,
        r.signature is None,
        r.is_genesis,
{
    let leaf = genesis_leaf();
    QuorumCertificate {
        leaf_commit: leaf.commit(),
        view_number: 0,
        signature: None,
        is_genesis: true,
    }
}

/// Build the bytes a vote signature covers.
pub fn vote_payload(tag: u8, c: &Commit, view: u64) -> (r: Vec<u8>)
    ensures
        r@ == vote_payload_bytes(tag, *c, view),
{
    let mut out: Vec<u8> = Vec::new();
    out.push(tag);
    push_commit(&mut out, c);
    push_u64_le(&mut out, view);
    proof {
        assert(out@ =~= vote_payload_bytes(tag, *c, view));
    }
    out
}

} // verus!
