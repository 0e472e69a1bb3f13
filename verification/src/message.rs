//! The wire message taxonomy: everything nodes send one another, with each
//! message's view and purpose.

use vstd::prelude::*;

use crate::data::{
    DaCertificate, DaProposal, DaProposalV, DaVote, Proposal, ProposalV, QuorumProposal,
    QuorumProposalV, QuorumVote, Signature, TimeoutVote, UpgradeProposal, UpgradeVote,
    VidDisperseShare, VidDisperseShareV, ViewSyncCommitCertificate, ViewSyncCommitVote,
    ViewSyncFinalizeCertificate, ViewSyncFinalizeVote, ViewSyncPreCommitCertificate,
    ViewSyncPreCommitVote,
};

verus! {

/// A message type agnostic description of a message's purpose.
#[derive(Clone, Copy, Debug, PartialEq, Eq, Structural)]
pub enum MessagePurpose {
    /// A quorum or DA proposal.
    Proposal,
    /// The most recent quorum or DA proposal a server has.
    LatestProposal,
    /// The most recent view sync certificate a server has.
    LatestViewSyncCertificate,
    /// A quorum or timeout vote.
    Vote,
    /// A view sync vote.
    ViewSyncVote,
    /// A view sync certificate.
    ViewSyncCertificate,
    /// A DA certificate.
    DaCertificate,
    /// Internal use.
    Internal,
    /// A data message.
    Data,
    /// A dispersal share.
    VidDisperse,
    /// An upgrade proposal.
    UpgradeProposal,
    /// An upgrade vote.
    UpgradeVote,
}

/// Messages of the general consensus exchange.
#[derive(Debug, PartialEq, Eq)]
pub enum GeneralConsensusMessage {
    Proposal(Proposal<QuorumProposal>),
    Vote(QuorumVote),
    ViewSyncPreCommitVote(ViewSyncPreCommitVote),
    ViewSyncCommitVote(ViewSyncCommitVote),
    ViewSyncFinalizeVote(ViewSyncFinalizeVote),
    ViewSyncPreCommitCertificate(ViewSyncPreCommitCertificate),
    ViewSyncCommitCertificate(ViewSyncCommitCertificate),
    ViewSyncFinalizeCertificate(ViewSyncFinalizeCertificate),
    TimeoutVote(TimeoutVote),
    UpgradeProposal(Proposal<UpgradeProposal>),
    UpgradeVote(UpgradeVote),
}

/// Mathematical view of a general consensus message.
#[verifier::ext_equal]
pub enum GeneralConsensusMessageV {
    Proposal(ProposalV<QuorumProposalV>),
    Vote(QuorumVote),
    ViewSyncPreCommitVote(ViewSyncPreCommitVote),
    ViewSyncCommitVote(ViewSyncCommitVote),
    ViewSyncFinalizeVote(ViewSyncFinalizeVote),
    ViewSyncPreCommitCertificate(ViewSyncPreCommitCertificate),
    ViewSyncCommitCertificate(ViewSyncCommitCertificate),
    ViewSyncFinalizeCertificate(ViewSyncFinalizeCertificate),
    TimeoutVote(TimeoutVote),
    UpgradeProposal(ProposalV<UpgradeProposal>),
    UpgradeVote(UpgradeVote),
}

impl View for GeneralConsensusMessage {
    type V = GeneralConsensusMessageV;

    open spec fn view(&self) -> GeneralConsensusMessageV {
        match self {
            GeneralConsensusMessage::Proposal(p) => GeneralConsensusMessageV::Proposal(p@),
            GeneralConsensusMessage::Vote(v) => GeneralConsensusMessageV::Vote(*v),
            GeneralConsensusMessage::ViewSyncPreCommitVote(v) =>
                GeneralConsensusMessageV::ViewSyncPreCommitVote(*v),
            GeneralConsensusMessage::ViewSyncCommitVote(v) =>
                GeneralConsensusMessageV::ViewSyncCommitVote(*v),
            GeneralConsensusMessage::ViewSyncFinalizeVote(v) =>
                GeneralConsensusMessageV::ViewSyncFinalizeVote(*v),
            GeneralConsensusMessage::ViewSyncPreCommitCertificate(c) =>
                GeneralConsensusMessageV::ViewSyncPreCommitCertificate(*c),
            GeneralConsensusMessage::ViewSyncCommitCertificate(c) =>
                GeneralConsensusMessageV::ViewSyncCommitCertificate(*c),
            GeneralConsensusMessage::ViewSyncFinalizeCertificate(c) =>
                GeneralConsensusMessageV::ViewSyncFinalizeCertificate(*c),
            GeneralConsensusMessage::TimeoutVote(v) => GeneralConsensusMessageV::TimeoutVote(*v),
            GeneralConsensusMessage::UpgradeProposal(p) =>
                GeneralConsensusMessageV::UpgradeProposal(p@),
            GeneralConsensusMessage::UpgradeVote(v) => GeneralConsensusMessageV::UpgradeVote(*v),
        }
    }
}

/// Messages of the DA committee's exchange.
#[derive(Debug, PartialEq, Eq)]
pub enum DaConsensusMessage {
    DaProposal(Proposal<DaProposal>),
    DaVote(DaVote),
    DaCertificate(DaCertificate),
    VidDisperseMsg(Proposal<VidDisperseShare>),
}

/// Mathematical view of a DA message.
#[verifier::ext_equal]
pub enum DaConsensusMessageV {
    DaProposal(ProposalV<DaProposalV>),
    DaVote(DaVote),
    DaCertificate(DaCertificate),
    VidDisperseMsg(ProposalV<VidDisperseShareV>),
}

impl View for DaConsensusMessage {
    type V = DaConsensusMessageV;

    open spec fn view(&self) -> DaConsensusMessageV {
        match self {
            DaConsensusMessage::DaProposal(p) => DaConsensusMessageV::DaProposal(p@),
            DaConsensusMessage::DaVote(v) => DaConsensusMessageV::DaVote(*v),
            DaConsensusMessage::DaCertificate(c) => DaConsensusMessageV::DaCertificate(*c),
            DaConsensusMessage::VidDisperseMsg(p) => DaConsensusMessageV::VidDisperseMsg(p@),
        }
    }
}

/// A consensus message: general or DA.
#[derive(Debug, PartialEq, Eq)]
pub enum SequencingMessage {
    General(GeneralConsensusMessage),
    Da(DaConsensusMessage),
}

/// Mathematical view of a consensus message.
#[verifier::ext_equal]
pub enum SequencingMessageV {
    General(GeneralConsensusMessageV),
    Da(DaConsensusMessageV),
}

impl View for SequencingMessage {
    type V = SequencingMessageV;

    open spec fn view(&self) -> SequencingMessageV {
        match self {
            SequencingMessage::General(m) => SequencingMessageV::General(m@),
            SequencingMessage::Da(m) => SequencingMessageV::Da(m@),
        }
    }
}

/// What a data request asks for.
#[derive(Clone, Copy, Debug, PartialEq, Eq, Structural)]
pub enum RequestKind {
    /// A dispersal share of a view, for a recipient.
    Vid(u64, u64),
    /// The DA proposal of a view.
    DaProposal(u64),
    /// The quorum proposal of a view.
    Proposal(u64),
}

/// A signed request for data the consensus layer is missing.
#[derive(Clone, Copy, Debug, PartialEq, Eq)]
pub struct DataRequest {
    pub request: RequestKind,
    pub view: u64,
    /// Signature over the digest of the encoded request kind, so that only
    /// known staked keys can query.
    pub signature: Signature,
}

/// A response to a data request.
#[derive(Debug, PartialEq, Eq)]
pub enum ResponseMessage {
    /// The peer had the data.
    Found(SequencingMessage),
    /// The peer could not find the data.
    NotFound,
    /// The request was denied.
    Denied,
}

/// Mathematical view of a response.
#[verifier::ext_equal]
pub enum ResponseMessageV {
    Found(SequencingMessageV),
    NotFound,
    Denied,
}

impl View for ResponseMessage {
    type V = ResponseMessageV;

    open spec fn view(&self) -> ResponseMessageV {
        match self {
            ResponseMessage::Found(m) => ResponseMessageV::Found(m@),
            ResponseMessage::NotFound => ResponseMessageV::NotFound,
            ResponseMessage::Denied => ResponseMessageV::Denied,
        }
    }
}

/// Messages that carry data between nodes.
#[derive(Debug, PartialEq, Eq)]
pub enum DataMessage {
    /// A transaction submitted for inclusion, with the view it was sent in.
    SubmitTransaction(Vec<u8>, u64),
    /// A request for data.
    RequestData(DataRequest),
    /// A response to a data request.
    DataResponse(ResponseMessage),
}

/// Mathematical view of a data message.
#[verifier::ext_equal]
pub enum DataMessageV {
    SubmitTransaction(Seq<u8>, u64),
    RequestData(DataRequest),
    DataResponse(ResponseMessageV),
}

impl View for DataMessage {
    type V = DataMessageV;

    open spec fn view(&self) -> DataMessageV {
        match self {
            DataMessage::SubmitTransaction(tx, v) => DataMessageV::SubmitTransaction(tx@, *v),
            DataMessage::RequestData(r) => DataMessageV::RequestData(*r),
            DataMessage::DataResponse(r) => DataMessageV::DataResponse(r@),
        }
    }
}

/// The two kinds of message.
#[derive(Debug, PartialEq, Eq)]
pub enum MessageKind {
    /// Messages of the consensus protocol.
    Consensus(SequencingMessage),
    /// Messages sharing data between nodes.
    Data(DataMessage),
}

/// Mathematical view of a message kind.
#[verifier::ext_equal]
pub enum MessageKindV {
    Consensus(SequencingMessageV),
    Data(DataMessageV),
}

impl View for MessageKind {
    type V = MessageKindV;

    open spec fn view(&self) -> MessageKindV {
        match self {
            MessageKind::Consensus(m) => MessageKindV::Consensus(m@),
            MessageKind::Data(m) => MessageKindV::Data(m@),
        }
    }
}

impl MessageKind {
    /// Wrap a consensus message.
    pub fn from_consensus_message(m: SequencingMessage) -> (r: Self)
        ensures
            r@ == MessageKindV::Consensus(m@),
    {
        MessageKind::Consensus(m)
    }
}

/// A message on the wire: its sender and its kind.
#[derive(Debug, PartialEq, Eq)]
pub struct Message {
    /// Committee index of the sender.
    pub sender: u64,
    pub kind: MessageKind,
}

/// Mathematical view of a message.
#[verifier::ext_equal]
pub struct MessageV {
    pub sender: u64,
    pub kind: MessageKindV,
}

impl View for Message {
    type V = MessageV;

    open spec fn view(&self) -> MessageV {
        MessageV { sender: self.sender, kind: self.kind@ }
    }
}

/// The view a general consensus message speaks about.
pub open spec fn spec_general_view_number(m: GeneralConsensusMessageV) -> u64 {
    match m {
        GeneralConsensusMessageV::Proposal(p) => p.data.view_number,
        GeneralConsensusMessageV::Vote(v) => v.view_number,
        GeneralConsensusMessageV::ViewSyncPreCommitVote(v) => v.view_number,
        GeneralConsensusMessageV::ViewSyncCommitVote(v) => v.view_number,
        GeneralConsensusMessageV::ViewSyncFinalizeVote(v) => v.view_number,
        GeneralConsensusMessageV::ViewSyncPreCommitCertificate(c) => c.view_number,
        GeneralConsensusMessageV::ViewSyncCommitCertificate(c) => c.view_number,
        GeneralConsensusMessageV::ViewSyncFinalizeCertificate(c) => c.view_number,
        GeneralConsensusMessageV::TimeoutVote(v) => v.view_number,
        GeneralConsensusMessageV::UpgradeProposal(p) => p.data.view_number,
        GeneralConsensusMessageV::UpgradeVote(v) => v.view_number,
    }
}

/// The view a DA message speaks about.
pub open spec fn spec_da_view_number(m: DaConsensusMessageV) -> u64 {
    match m {
        DaConsensusMessageV::DaProposal(p) => p.data.view_number,
        DaConsensusMessageV::DaVote(v) => v.view_number,
        DaConsensusMessageV::DaCertificate(c) => c.view_number,
        DaConsensusMessageV::VidDisperseMsg(p) => p.data.view_number,
    }
}

/// The view a consensus message speaks about.
pub open spec fn spec_sequencing_view_number(m: SequencingMessageV) -> u64 {
    match m {
        SequencingMessageV::General(g) => spec_general_view_number(g),
        SequencingMessageV::Da(d) => spec_da_view_number(d),
    }
}

/// The view a message speaks about. A response that found nothing has no
/// view of its own and reports view one.
pub open spec fn spec_message_view_number(m: MessageV) -> u64 {
    match m.kind {
        MessageKindV::Consensus(c) => spec_sequencing_view_number(c),
        MessageKindV::Data(DataMessageV::SubmitTransaction(_, v)) => v,
        MessageKindV::Data(DataMessageV::RequestData(r)) => r.view,
        MessageKindV::Data(DataMessageV::DataResponse(r)) => match r {
            ResponseMessageV::Found(c) => spec_sequencing_view_number(c),
            ResponseMessageV::NotFound => 1,
            ResponseMessageV::Denied => 1,
        },
    }
}

impl SequencingMessage {
    /// The view this message relates to.
    pub fn view_number(&self) -> (r: u64)
        ensures
            r == spec_sequencing_view_number(self@),
    {
        match self {
            SequencingMessage::General(g) => match g {
                GeneralConsensusMessage::Proposal(p) => p.data.view_number,
                GeneralConsensusMessage::Vote(v) => v.view_number,
                GeneralConsensusMessage::ViewSyncPreCommitVote(v) => v.view_number,
                GeneralConsensusMessage::ViewSyncCommitVote(v) => v.view_number,
                GeneralConsensusMessage::ViewSyncFinalizeVote(v) => v.view_number,
                GeneralConsensusMessage::ViewSyncPreCommitCertificate(c) => c.view_number,
                GeneralConsensusMessage::ViewSyncCommitCertificate(c) => c.view_number,
                GeneralConsensusMessage::ViewSyncFinalizeCertificate(c) => c.view_number,
                GeneralConsensusMessage::TimeoutVote(v) => v.view_number,
                GeneralConsensusMessage::UpgradeProposal(p) => p.data.view_number,
                GeneralConsensusMessage::UpgradeVote(v) => v.view_number,
            },
            SequencingMessage::Da(d) => match d {
                DaConsensusMessage::DaProposal(p) => p.data.view_number,
                DaConsensusMessage::DaVote(v) => v.view_number,
                DaConsensusMessage::DaCertificate(c) => c.view_number,
                DaConsensusMessage::VidDisperseMsg(p) => p.data.view_number,
            },
        }
    }

    /// The purpose of this message.
    pub fn purpose(&self) -> (r: MessagePurpose)
        ensures
            r == spec_sequencing_purpose(self@),
    {
        match self {
            SequencingMessage::General(g) => match g {
                GeneralConsensusMessage::Proposal(_) => MessagePurpose::Proposal,
                GeneralConsensusMessage::Vote(_) => MessagePurpose::Vote,
                GeneralConsensusMessage::TimeoutVote(_) => MessagePurpose::Vote,
                GeneralConsensusMessage::ViewSyncPreCommitVote(_) => MessagePurpose::ViewSyncVote,
                GeneralConsensusMessage::ViewSyncCommitVote(_) => MessagePurpose::ViewSyncVote,
                GeneralConsensusMessage::ViewSyncFinalizeVote(_) => MessagePurpose::ViewSyncVote,
                GeneralConsensusMessage::ViewSyncPreCommitCertificate(_) =>
                    MessagePurpose::ViewSyncCertificate,
                GeneralConsensusMessage::ViewSyncCommitCertificate(_) =>
                    MessagePurpose::ViewSyncCertificate,
                GeneralConsensusMessage::ViewSyncFinalizeCertificate(_) =>
                    MessagePurpose::ViewSyncCertificate,
                GeneralConsensusMessage::UpgradeProposal(_) => MessagePurpose::UpgradeProposal,
                GeneralConsensusMessage::UpgradeVote(_) => MessagePurpose::UpgradeVote,
            },
            SequencingMessage::Da(d) => match d {
                DaConsensusMessage::DaProposal(_) => MessagePurpose::Proposal,
                DaConsensusMessage::DaVote(_) => MessagePurpose::Vote,
                DaConsensusMessage::DaCertificate(_) => MessagePurpose::DaCertificate,
                DaConsensusMessage::VidDisperseMsg(_) => MessagePurpose::VidDisperse,
            },
        }
    }
}

/// The purpose of a consensus message.
pub open spec fn spec_sequencing_purpose(m: SequencingMessageV) -> MessagePurpose {
    match m {
        SequencingMessageV::General(g) => match g {
            GeneralConsensusMessageV::Proposal(_) => MessagePurpose::Proposal,
            GeneralConsensusMessageV::Vote(_) => MessagePurpose::Vote,
            GeneralConsensusMessageV::TimeoutVote(_) => MessagePurpose::Vote,
            GeneralConsensusMessageV::ViewSyncPreCommitVote(_) => MessagePurpose::ViewSyncVote,
            GeneralConsensusMessageV::ViewSyncCommitVote(_) => MessagePurpose::ViewSyncVote,
            GeneralConsensusMessageV::ViewSyncFinalizeVote(_) => MessagePurpose::ViewSyncVote,
            GeneralConsensusMessageV::ViewSyncPreCommitCertificate(_) =>
                MessagePurpose::ViewSyncCertificate,
            GeneralConsensusMessageV::ViewSyncCommitCertificate(_) =>
                MessagePurpose::ViewSyncCertificate,
            GeneralConsensusMessageV::ViewSyncFinalizeCertificate(_) =>
                MessagePurpose::ViewSyncCertificate,
            GeneralConsensusMessageV::UpgradeProposal(_) => MessagePurpose::UpgradeProposal,
            GeneralConsensusMessageV::UpgradeVote(_) => MessagePurpose::UpgradeVote,
        },
        SequencingMessageV::Da(d) => match d {
            DaConsensusMessageV::DaProposal(_) => MessagePurpose::Proposal,
            DaConsensusMessageV::DaVote(_) => MessagePurpose::Vote,
            DaConsensusMessageV::DaCertificate(_) => MessagePurpose::DaCertificate,
            DaConsensusMessageV::VidDisperseMsg(_) => MessagePurpose::VidDisperse,
        },
    }
}

impl MessageKind {
    /// The view this kind speaks about.
    pub fn view_number(&self) -> (r: u64)
        ensures
            r == spec_message_view_number(MessageV { sender: 0, kind: self@ }),
    {
        match self {
            MessageKind::Consensus(m) => m.view_number(),
            MessageKind::Data(DataMessage::SubmitTransaction(_, v)) => *v,
            MessageKind::Data(DataMessage::RequestData(r)) => r.view,
            MessageKind::Data(DataMessage::DataResponse(r)) => match r {
                ResponseMessage::Found(m) => m.view_number(),
                ResponseMessage::NotFound => 1,
                ResponseMessage::Denied => 1,
            },
        }
    }

    /// The purpose of this kind.
    pub fn purpose(&self) -> (r: MessagePurpose)
        ensures
            (self@ matches MessageKindV::Consensus(c) ==> r == spec_sequencing_purpose(c)),
            (self@ is Data ==> r == MessagePurpose::Data),
    {
        match self {
            MessageKind::Consensus(m) => m.purpose(),
            MessageKind::Data(_) => MessagePurpose::Data,
        }
    }
}

impl Message {
    /// The view this message speaks about.
    pub fn view_number(&self) -> (r: u64)
        ensures
            r == spec_message_view_number(self@),
    {
        self.kind.view_number()
    }
}

} // verus!
