//! The decisions of WebRTC signaling on the server's side: which remote descriptions are taken
//! and what follows from them, by the "perfect negotiation" pattern with this side impolite.
use vstd::prelude::*;

verus! {

/// This side gives way when both sides offer at once: it does not.
pub const POLITE: bool = false;

/// The type of a session description.
#[derive(Debug, Clone, Copy, PartialEq, Eq, Structural)]
pub enum SdpType {
    Offer,
    Pranswer,
    Answer,
    Rollback,
}

/// What the peer connection is doing when a remote description arrives.
#[derive(Debug, Clone, Copy, PartialEq, Eq, Structural)]
pub struct NegotiationState {
    /// This side is making an offer of its own.
    pub making_offer: bool,
    /// The signaling state is stable.
    pub stable: bool,
    /// A remote answer is being set.
    pub setting_remote_answer_pending: bool,
}

/// What to do with a remote description.
#[derive(Debug, Clone, Copy, PartialEq, Eq, Structural)]
pub enum RemoteDescriptionAction {
    /// An offer that collides with this side's own is dropped.
    Ignore,
    /// A description of a type that cannot be set is dropped.
    Reject,
    /// The description is set: while it is, a remote answer is pending exactly when it is an
    /// answer; an offer is then answered with a local description.
    Apply { answer_pending: bool, send_answer: bool },
}

/// This side is ready for an offer: it makes none of its own, and it is stable or about to be.
pub open spec fn ready_for_offer(state: NegotiationState) -> bool {
    !state.making_offer && (state.stable || state.setting_remote_answer_pending)
}

/// What is done with a remote description of type `ty` in `state`.
pub open spec fn spec_remote_description_action(state: NegotiationState, ty: SdpType) -> RemoteDescriptionAction {
    if !POLITE && ty == SdpType::Offer && !ready_for_offer(state) {
        RemoteDescriptionAction::Ignore
    } else if ty == SdpType::Rollback {
        RemoteDescriptionAction::Reject
    } else {
        RemoteDescriptionAction::Apply { answer_pending: ty == SdpType::Answer, send_answer: ty == SdpType::Offer }
    }
}

/// Decides what to do with a remote description of type `ty`.
pub fn on_remote_description(state: NegotiationState, ty: SdpType) -> (res: RemoteDescriptionAction)
    ensures
        res == spec_remote_description_action(state, ty),
{
    let ready = !state.making_offer && (state.stable || state.setting_remote_answer_pending);
    let offer_collision = ty == SdpType::Offer && !ready;
    if !POLITE && offer_collision {
        return RemoteDescriptionAction::Ignore;
    }
    match ty {
        SdpType::Offer => RemoteDescriptionAction::Apply { answer_pending: false, send_answer: true },
        SdpType::Answer => RemoteDescriptionAction::Apply { answer_pending: true, send_answer: false },
        SdpType::Pranswer => RemoteDescriptionAction::Apply { answer_pending: false, send_answer: false },
        SdpType::Rollback => RemoteDescriptionAction::Reject,
    }
}

/// An answer is never ignored, and an offer is taken exactly when this side is ready for it.
pub proof fn law_only_colliding_offers_ignored(state: NegotiationState, ty: SdpType)
    ensures
        spec_remote_description_action(state, ty) == RemoteDescriptionAction::Ignore <==> (ty
            == SdpType::Offer && !ready_for_offer(state)),
{
}

} // verus!
