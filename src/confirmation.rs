//! The confirmation state machine: a confirmation token moves its subscriber
//! from `PendingConfirmation` to `Confirmed`.
use crate::subscriber::{
    SubscriberId, SubscriberStore, SubscriberView, SubscriptionStatus, with_status,
};
use crate::token::TokenStore;
use vstd::prelude::*;

verus! {

/// Query parameters of a confirmation request.
#[derive(Debug)]
pub struct Parameters {
    pub subscription_token: String,
}

/// A failure of the persistence layer, with its cause for operators.
#[derive(Debug)]
pub struct StoreError {
    pub cause: String,
}

/// The store operation during which an infrastructure failure occurred.
#[derive(Clone, Copy, Debug, PartialEq, Eq, Structural)]
pub enum ConfirmationStep {
    /// Looking up the subscriber of a token.
    LookUpToken,
    /// Marking the subscriber as confirmed.
    MarkConfirmed,
}

/// Why a confirmation request failed.
#[derive(Debug)]
pub enum ConfirmationLinkError {
    /// No subscriber is registered under the given token (client error).
    UserNotFound(String),
    /// The store failed during the given step (server error).
    UnexpectedError(ConfirmationStep, StoreError),
}

impl ConfirmationLinkError {
    pub open spec fn spec_status_code(&self) -> u16 {
        match self {
            ConfirmationLinkError::UserNotFound(_) => 400,
            ConfirmationLinkError::UnexpectedError(..) => 500,
        }
    }

    /// HTTP status of the failure: 400 for an unknown token, 500 for a store
    /// failure.
    #[verifier::when_used_as_spec(spec_status_code)]
    pub fn status_code(&self) -> (r: u16)
        ensures
            r == self.spec_status_code(),
    {
        match self {
            ConfirmationLinkError::UserNotFound(_) => 400,
            ConfirmationLinkError::UnexpectedError(..) => 500,
        }
    }
}

impl ConfirmationStep {
    /// What was being done when the store failed.
    pub fn context(&self) -> (r: &'static str)
        ensures
            *self == ConfirmationStep::LookUpToken ==> r@ == "failed to get subscriber id"@,
            *self == ConfirmationStep::MarkConfirmed ==> r@ == "could not confirm subscriber"@,
    {
        match self {
            ConfirmationStep::LookUpToken => "failed to get subscriber id",
            ConfirmationStep::MarkConfirmed => "could not confirm subscriber",
        }
    }
}

/// The store after confirming with token `t`, or `None` when `t` is not
/// registered.
pub open spec fn confirm_spec(
    subs: Seq<SubscriberView>,
    tokens: Map<Seq<char>, SubscriberId>,
    t: Seq<char>,
) -> Option<Seq<SubscriberView>> {
    if tokens.contains_key(t) {
        Some(with_status(subs, tokens[t], SubscriptionStatus::Confirmed))
    } else {
        None
    }
}

/// Decides the outcome of a token lookup: the subscriber to confirm, or the
/// error to report.
pub fn lookup_outcome(token: &str, lookup: Result<Option<SubscriberId>, StoreError>) -> (r: Result<
    SubscriberId,
    ConfirmationLinkError,
>)
    ensures
        lookup matches Ok(Some(id)) ==> r == Ok::<SubscriberId, ConfirmationLinkError>(id),
        lookup matches Ok(None) ==> (r matches Err(ConfirmationLinkError::UserNotFound(t)) && t@
            == token@),
        lookup matches Err(e) ==> (r matches Err(
            ConfirmationLinkError::UnexpectedError(ConfirmationStep::LookUpToken, e2),
        ) && e2 == e),
{
    match lookup {
        Ok(Some(id)) => Ok(id),
        Ok(None) => Err(ConfirmationLinkError::UserNotFound(token.to_owned())),
        Err(e) => Err(ConfirmationLinkError::UnexpectedError(ConfirmationStep::LookUpToken, e)),
    }
}

/// Decides the outcome of the status update of a confirmation.
pub fn update_outcome(update: Result<(), StoreError>) -> (r: Result<(), ConfirmationLinkError>)
    ensures
        update is Ok ==> r is Ok,
        update matches Err(e) ==> (r matches Err(
            ConfirmationLinkError::UnexpectedError(ConfirmationStep::MarkConfirmed, e2),
        ) && e2 == e),
{
    match update {
        Ok(()) => Ok(()),
        Err(e) => Err(ConfirmationLinkError::UnexpectedError(ConfirmationStep::MarkConfirmed, e)),
    }
}

/// HTTP status answering a confirmation request: 200 on success (also a
/// repeated one), else the status of the error.
pub fn confirmation_status(r: &Result<(), ConfirmationLinkError>) -> (s: u16)
    ensures
        r is Ok ==> s == 200,
        r matches Err(e) ==> s == e.spec_status_code(),
{
    match r {
        Ok(()) => 200,
        Err(e) => e.status_code(),
    }
}

/// The subscriber that `subscription_token` is bound to, if any.
pub fn get_subscriber_id(tokens: &TokenStore, subscription_token: &str) -> (r: Option<
    SubscriberId,
>)
    requires
        tokens.wf(),
    ensures
        r == (if tokens@.contains_key(subscription_token@) {
            Some(tokens@[subscription_token@])
        } else {
            None
        }),
{
    tokens.resolve(subscription_token)
}

/// Marks the subscriber `subscriber_id` as confirmed, unconditionally.
pub fn confirm_subscriber(subscribers: &mut SubscriberStore, subscriber_id: SubscriberId)
    requires
        old(subscribers).wf(),
    ensures
        final(subscribers).wf(),
        final(subscribers)@ == with_status(
            old(subscribers)@,
            subscriber_id,
            SubscriptionStatus::Confirmed,
        ),
{
    subscribers.set_status(subscriber_id, SubscriptionStatus::Confirmed);
}

/// Confirms the subscriber that the request's token is bound to. An unknown
/// token fails with `UserNotFound` and changes nothing; confirming an
/// already confirmed subscriber succeeds again.
pub fn confirm(
    subscribers: &mut SubscriberStore,
    tokens: &TokenStore,
    parameters: &Parameters,
) -> (r: Result<(), ConfirmationLinkError>)
    requires
        old(subscribers).wf(),
        tokens.wf(),
    ensures
        final(subscribers).wf(),
        confirm_spec(old(subscribers)@, tokens@, parameters.subscription_token@) matches Some(next)
            ==> (r is Ok && final(subscribers)@ == next),
        confirm_spec(old(subscribers)@, tokens@, parameters.subscription_token@) is None ==> (r matches Err(
            ConfirmationLinkError::UserNotFound(t),
        ) && t@ == parameters.subscription_token@),
        confirm_spec(old(subscribers)@, tokens@, parameters.subscription_token@) is None ==> final(subscribers)@
            == old(subscribers)@,
{
    let token = parameters.subscription_token.as_str();
    let id = match lookup_outcome(token, Ok(get_subscriber_id(tokens, token))) {
        Ok(id) => id,
        Err(e) => return Err(e),
    };
    confirm_subscriber(subscribers, id);
    Ok(())
}

/// Confirming with a registered token marks every subscriber bound to it as
/// confirmed, and confirming again with the same token succeeds and leaves
/// the store as the first confirmation left it.
pub proof fn lemma_confirm_is_idempotent(
    subs: Seq<SubscriberView>,
    tokens: Map<Seq<char>, SubscriberId>,
    t: Seq<char>,
)
    requires
        tokens.contains_key(t),
    ensures
        confirm_spec(subs, tokens, t) is Some,
        forall|i: int|
            0 <= i < subs.len() && subs[i].id == tokens[t] ==> (#[trigger] confirm_spec(
                subs,
                tokens,
                t,
            )->0[i]).status == SubscriptionStatus::Confirmed,
        confirm_spec(confirm_spec(subs, tokens, t)->0, tokens, t) == confirm_spec(subs, tokens, t),
{
    let once = with_status(subs, tokens[t], SubscriptionStatus::Confirmed);
    assert(with_status(once, tokens[t], SubscriptionStatus::Confirmed) =~= once);
}

/// Confirmation never leaves `Confirmed`: a confirmed subscriber stays
/// confirmed whatever token is confirmed.
pub proof fn lemma_confirmed_is_absorbing(
    subs: Seq<SubscriberView>,
    tokens: Map<Seq<char>, SubscriberId>,
    t: Seq<char>,
    i: int,
)
    requires
        0 <= i < subs.len(),
        subs[i].status == SubscriptionStatus::Confirmed,
    ensures
        confirm_spec(subs, tokens, t) matches Some(next) ==> next[i] == subs[i],
{
}

} // verus!
