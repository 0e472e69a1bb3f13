//! The response task: serves data requests from the shared consensus
//! state. A request is answered only when its sender holds stake and its
//! signature over the digest of the encoded request kind verifies;
//! otherwise the reply is a denial and the state is untouched.

use vstd::prelude::*;

use crate::codec::push_request_kind;
use crate::consensus::{Consensus, ConsensusV, ShareKey};
use crate::crypto::sha256;
use crate::membership::Membership;
use crate::message::{
    DaConsensusMessage, DaConsensusMessageV, DataMessage, DataRequest, GeneralConsensusMessage,
    GeneralConsensusMessageV, Message, MessageKind, RequestKind, ResponseMessage,
    ResponseMessageV, SequencingMessage, SequencingMessageV,
};

verus! {

/// How long the responder waits for the payload before giving up on a
/// dispersal-share request, in milliseconds.
pub const TXNS_TIMEOUT_MS: u64 = 100;

/// What serving a data request yields and does: a dispersal-share request
/// is answered from the stored shares — deriving this node's own share
/// from the payload when needed, which is the only state change any
/// request can cause; a proposal request is answered from the catch-up
/// proposals; a DA-proposal request finds nothing; a served request is
/// never denied.
pub open spec fn spec_request_served(
    pre: ConsensusV,
    post: ConsensusV,
    request: DataRequest,
    self_key: u64,
    r: ResponseMessageV,
) -> bool {
    &&& (request.request matches RequestKind::Vid(view, key) ==> {
        &&& (match r {
            ResponseMessageV::Found(m) => {
                &&& post.vid_shares.dom().contains(ShareKey { view, recipient: key })
                &&& m == SequencingMessageV::Da(
                    DaConsensusMessageV::VidDisperseMsg(
                        post.vid_shares[ShareKey { view, recipient: key }],
                    ),
                )
            },
            ResponseMessageV::NotFound => !post.vid_shares.dom().contains(
                ShareKey { view, recipient: key },
            ),
            ResponseMessageV::Denied => false,
        })
        &&& (key != self_key ==> post == pre)
        &&& (key == self_key ==> post == pre || crate::consensus::vid_calc_post(
            pre,
            post,
            view,
            self_key,
        ))
    })
    &&& (request.request matches RequestKind::DaProposal(_) ==> r is NotFound && post == pre)
    &&& (request.request matches RequestKind::Proposal(view) ==> post == pre && (match r {
        ResponseMessageV::Found(m) => pre.last_proposals.dom().contains(view) && m
            == SequencingMessageV::General(
            GeneralConsensusMessageV::Proposal(pre.last_proposals[view]),
        ),
        ResponseMessageV::NotFound => !pre.last_proposals.dom().contains(view),
        ResponseMessageV::Denied => false,
    }))
}

/// Whether the sender is allowed to request data: it must hold stake in the
/// quorum.
pub fn valid_sender(quorum_membership: &Membership, sender: u64) -> (r: bool)
    ensures
        r == quorum_membership@.contains(sender),
{
    quorum_membership.has_stake(sender)
}

/// Whether the request's signature over the digest of its encoded kind
/// verifies under the sender's key share; the verdict is the outside
/// scheme's.
pub fn valid_request_signature(
    quorum_membership: &Membership,
    request: &DataRequest,
    sender: u64,
) -> bool {
    let mut encoded: Vec<u8> = Vec::new();
    push_request_kind(&mut encoded, &request.request);
    let digest = sha256(&encoded);
    quorum_membership.check_signature(sender, &digest, &request.signature)
}

/// Serve one request from the consensus state: a dispersal-share request is
/// answered from the stored shares, deriving this node's own share from the
/// payload when needed; a proposal request is answered from the catch-up
/// proposals; a DA-proposal request finds nothing.
pub fn handle_request(consensus: &mut Consensus, request: &DataRequest, self_key: u64) -> (r:
    ResponseMessage)
    requires
        old(consensus).wf(),
    ensures
        final(consensus).wf(),
        spec_request_served(old(consensus)@, final(consensus)@, *request, self_key, r@),
{
    match &request.request {
        RequestKind::Vid(view, key) => {
            let view = *view;
            let key = *key;
            if consensus.vid_share(view, key).is_none() && key == self_key {
                let _derived = consensus.calculate_and_update_vid(view, self_key);
            }
            match consensus.vid_share(view, key) {
                Some(share) => ResponseMessage::Found(
                    SequencingMessage::Da(DaConsensusMessage::VidDisperseMsg(share.dup())),
                ),
                None => ResponseMessage::NotFound,
            }
        },
        RequestKind::DaProposal(_) => ResponseMessage::NotFound,
        RequestKind::Proposal(view) => {
            match consensus.last_proposal(*view) {
                Some(p) => ResponseMessage::Found(
                    SequencingMessage::General(GeneralConsensusMessage::Proposal(p.dup())),
                ),
                None => ResponseMessage::NotFound,
            }
        },
    }
}

/// Handle one raw request message: decode it, reject anything that is not a
/// data request, deny a sender without stake or with a bad signature, and
/// serve the rest; the reply names this node as its sender.
pub fn handle_message(
    consensus: &mut Consensus,
    quorum_membership: &Membership,
    raw: &Vec<u8>,
    self_key: u64,
    upgrade_certificate: &Option<crate::data::UpgradeCertificate>,
) -> (r: Option<Message>)
    requires
        old(consensus).wf(),
    ensures
        final(consensus).wf(),
        r matches Some(m) ==> m.sender == self_key && m.kind is Data,
        r matches Some(m) ==> (m.kind matches MessageKind::Data(dm) ==> dm is DataResponse),
        // undecodable bytes, and anything but a data request, draw no reply
        // and change nothing
        crate::codec::spec_deserialize(raw@, *upgrade_certificate) is Err ==> r is None && final(consensus)@ == old(consensus)@,
        crate::codec::spec_deserialize(raw@, *upgrade_certificate) matches Ok(mv) ==> (!(mv.kind
            matches crate::message::MessageKindV::Data(
            crate::message::DataMessageV::RequestData(_),
        )) ==> r is None && final(consensus)@ == old(consensus)@),
        // a decodable data request always draws exactly one reply: a denial
        // with nothing changed, or the exact served answer
        crate::codec::spec_deserialize(raw@, *upgrade_certificate) matches Ok(mv) ==> (mv.kind
            matches crate::message::MessageKindV::Data(dm) ==> (dm matches
            crate::message::DataMessageV::RequestData(req) ==> (r matches Some(reply) && (
        reply.kind matches MessageKind::Data(dm2) && (dm2 matches DataMessage::DataResponse(resp)
            && ((resp@ == ResponseMessageV::Denied && final(consensus)@ == old(consensus)@)
            || spec_request_served(old(consensus)@, final(consensus)@, req, self_key, resp@))))))),
        // a sender without stake is always denied
        crate::codec::spec_deserialize(raw@, *upgrade_certificate) matches Ok(mv) ==> (mv.kind
            matches crate::message::MessageKindV::Data(dm) ==> (dm matches
            crate::message::DataMessageV::RequestData(_) ==> (!quorum_membership@.contains(
            mv.sender,
        ) ==> (r matches Some(reply) && reply.kind == MessageKind::Data(
            DataMessage::DataResponse(ResponseMessage::Denied),
        ))))),
{
    let msg = match crate::codec::deserialize_message(raw, upgrade_certificate) {
        Ok(m) => m,
        Err(_) => {
            return None;
        },
    };
    let sender = msg.sender;
    let request = match msg.kind {
        MessageKind::Data(DataMessage::RequestData(req)) => req,
        _ => {
            return None;
        },
    };
    if !valid_sender(quorum_membership, sender) || !valid_request_signature(
        quorum_membership,
        &request,
        sender,
    ) {
        return Some(
            Message {
                sender: self_key,
                kind: MessageKind::Data(DataMessage::DataResponse(ResponseMessage::Denied)),
            },
        );
    }
    let response = handle_request(consensus, &request, self_key);
    Some(
        Message {
            sender: self_key,
            kind: MessageKind::Data(DataMessage::DataResponse(response)),
        },
    )
}

} // verus!
