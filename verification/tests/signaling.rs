use moonlight_web::signaling::{on_remote_description, NegotiationState, RemoteDescriptionAction, SdpType};

fn state(making_offer: bool, stable: bool, pending: bool) -> NegotiationState {
    NegotiationState { making_offer, stable, setting_remote_answer_pending: pending }
}

#[test]
fn offers_are_answered_when_ready() {
    assert_eq!(
        on_remote_description(state(false, true, false), SdpType::Offer),
        RemoteDescriptionAction::Apply { answer_pending: false, send_answer: true }
    );
    assert_eq!(
        on_remote_description(state(false, false, true), SdpType::Offer),
        RemoteDescriptionAction::Apply { answer_pending: false, send_answer: true }
    );
}

#[test]
fn colliding_offers_are_ignored() {
    assert_eq!(on_remote_description(state(true, true, false), SdpType::Offer), RemoteDescriptionAction::Ignore);
    assert_eq!(on_remote_description(state(false, false, false), SdpType::Offer), RemoteDescriptionAction::Ignore);
}

#[test]
fn answers_and_other_types() {
    assert_eq!(
        on_remote_description(state(true, false, false), SdpType::Answer),
        RemoteDescriptionAction::Apply { answer_pending: true, send_answer: false }
    );
    assert_eq!(
        on_remote_description(state(false, true, false), SdpType::Pranswer),
        RemoteDescriptionAction::Apply { answer_pending: false, send_answer: false }
    );
    assert_eq!(on_remote_description(state(false, true, false), SdpType::Rollback), RemoteDescriptionAction::Reject);
}
