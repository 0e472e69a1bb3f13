//! The request task's decisions: which data to solicit after a proposal,
//! how a request is built and signed, whom to ask, and when to stop asking.
//! Sending the requests and waiting on timers stays outside the library.

use vstd::prelude::*;

use crate::codec::push_request_kind;
use crate::consensus::{Consensus, ShareKey};
use crate::crypto::{sha256, shuffle_ids, sign_share};
use crate::data::Signature;
use crate::membership::Membership;
use crate::message::{DataMessage, DataRequest, Message, MessageKind, RequestKind};

verus! {

/// How long one peer is tried before moving on, in milliseconds.
pub const REQUEST_TIMEOUT_MS: u64 = 500;

/// Build the requests needed for a view: a dispersal-share request when no
/// share for the view is held yet.
pub fn build_requests(consensus: &Consensus, view: u64, public_key: u64) -> (r: Vec<RequestKind>)
    requires
        consensus.wf(),
    ensures
        (exists|rec: u64| consensus@.vid_shares.dom().contains(ShareKey { view, recipient: rec }))
            ==> r@ == Seq::<RequestKind>::empty(),
        !(exists|rec: u64| consensus@.vid_shares.dom().contains(ShareKey { view, recipient: rec }))
            ==> r@ == Seq::<RequestKind>::empty().push(RequestKind::Vid(view, public_key)),
{
    let mut reqs: Vec<RequestKind> = Vec::new();
    if !consensus.has_vid_shares_for_view(view) {
        reqs.push(RequestKind::Vid(view, public_key));
    }
    reqs
}

/// Sign a request: the signature covers the digest of the encoded request
/// kind, so only known staked keys can query.
pub fn serialize_and_sign(
    private_key: &threshold_crypto::SecretKeyShare,
    request: &RequestKind,
) -> (r: Signature) {
    let mut encoded: Vec<u8> = Vec::new();
    push_request_kind(&mut encoded, request);
    let digest = sha256(&encoded);
    sign_share(private_key, &digest)
}

/// The recipients to try for a request: the whole DA committee of the view,
/// in a fresh random order so replicas spread their load.
pub fn request_recipients(da_membership: &Membership) -> (r: Vec<u64>)
    ensures
        r@.to_multiset() == da_membership@.to_multiset(),
        r@.len() == da_membership@.len(),
{
    let mut recipients = da_membership.whole_committee();
    proof {
        vstd::seq_lib::lemma_multiset_commutative(da_membership@, Seq::<u64>::empty());
    }
    shuffle_ids(&mut recipients);
    recipients
}

/// The message that requests a dispersal share for a view and recipient.
pub fn make_vid_request(view: u64, public_key: u64, signature: Signature) -> (r: Message)
    ensures
        r@.sender == public_key,
        r@.kind == crate::message::MessageKindV::Data(
            crate::message::DataMessageV::RequestData(
                DataRequest { request: RequestKind::Vid(view, public_key), view, signature },
            ),
        ),
{
    let kind = RequestKind::Vid(view, public_key);
    let data_request = DataRequest { request: kind, view, signature };
    Message { sender: public_key, kind: MessageKind::Data(DataMessage::RequestData(data_request)) }
}

/// The message that requests the quorum proposal of a view, addressed by
/// the caller to the view's leader alone.
pub fn make_proposal_request(view: u64, public_key: u64, signature: Signature) -> (r: Message)
    ensures
        r@.sender == public_key,
        r@.kind == crate::message::MessageKindV::Data(
            crate::message::DataMessageV::RequestData(
                DataRequest { request: RequestKind::Proposal(view), view, signature },
            ),
        ),
{
    let kind = RequestKind::Proposal(view);
    let data_request = DataRequest { request: kind, view, signature };
    Message { sender: public_key, kind: MessageKind::Data(DataMessage::RequestData(data_request)) }
}

/// Whether a running dispersal-share request should stop: on shutdown, once
/// any share for the view is held, or once the current view has moved past
/// the requested one.
pub fn should_cancel_vid_request(consensus: &Consensus, view: u64, shutdown: bool) -> (r: bool)
    requires
        consensus.wf(),
    ensures
        r == (shutdown || (exists|rec: u64|
            consensus@.vid_shares.dom().contains(ShareKey { view, recipient: rec }))
            || consensus@.cur_view > view),
{
    shutdown || consensus.has_vid_shares_for_view(view) || consensus.cur_view() > view
}

} // verus!
