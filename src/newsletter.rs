//! The newsletter pipeline: payload validation, one delivery per confirmed
//! subscriber, and aggregation of per-recipient outcomes.
use crate::subscriber::{
    SubscriberStore, SubscriberView, SubscriptionStatus, confirmed_emails, confirmed_pred,
    is_confirmed,
};
use vstd::prelude::*;

verus! {

/// A field of a submitted JSON document, as far as validation reads it.
#[derive(Debug)]
pub enum JsonField {
    Missing,
    Text(String),
    /// Present, but not a string (a number, an object, ...).
    NonText,
}

/// The `content` object of a submitted newsletter.
#[derive(Debug)]
pub struct ContentPayload {
    pub text: JsonField,
    pub html: JsonField,
}

/// The `content` field of a submitted newsletter.
#[derive(Debug)]
pub enum ContentField {
    Missing,
    Object(ContentPayload),
    /// Present, but not an object.
    NonObject,
}

/// A newsletter as submitted, before validation.
#[derive(Debug)]
pub struct NewsletterPayload {
    pub title: JsonField,
    pub content: ContentField,
}

/// The field that made a payload invalid.
#[derive(Clone, Copy, Debug, PartialEq, Eq, Structural)]
pub enum PayloadField {
    Title,
    Content,
    ContentText,
    ContentHtml,
}

/// Why a publish request failed.
#[derive(Debug)]
pub enum PublishError {
    /// The payload failed validation at the given field; nothing was sent.
    InvalidPayload(PayloadField),
    /// Every one of the given number of delivery attempts failed.
    AllDeliveriesFailed(usize),
}

impl PublishError {
    pub open spec fn spec_status_code(&self) -> u16 {
        match self {
            PublishError::InvalidPayload(_) => 400,
            PublishError::AllDeliveriesFailed(_) => 500,
        }
    }

    /// HTTP status of the failure: 400 for an invalid payload, 500 when no
    /// delivery succeeded.
    #[verifier::when_used_as_spec(spec_status_code)]
    pub fn status_code(&self) -> (r: u16)
        ensures
            r == self.spec_status_code(),
    {
        match self {
            PublishError::InvalidPayload(_) => 400,
            PublishError::AllDeliveriesFailed(_) => 500,
        }
    }
}

/// Model of a validated newsletter.
pub struct NewsletterView {
    pub title: Seq<char>,
    pub text: Seq<char>,
    pub html: Seq<char>,
}

/// A validated newsletter.
#[derive(Debug)]
pub struct Newsletter {
    pub title: String,
    pub text: String,
    pub html: String,
}

impl View for Newsletter {
    type V = NewsletterView;

    open spec fn view(&self) -> NewsletterView {
        NewsletterView { title: self.title@, text: self.text@, html: self.html@ }
    }
}

/// Model of one delivery attempt.
pub struct DeliveryView {
    pub recipient: Seq<char>,
    pub subject: Seq<char>,
    pub text_body: Seq<char>,
    pub html_body: Seq<char>,
}

/// One delivery attempt to hand to the e-mail transport.
#[derive(Debug)]
pub struct Delivery {
    pub recipient: String,
    pub subject: String,
    pub text_body: String,
    pub html_body: String,
}

impl View for Delivery {
    type V = DeliveryView;

    open spec fn view(&self) -> DeliveryView {
        DeliveryView {
            recipient: self.recipient@,
            subject: self.subject@,
            text_body: self.text_body@,
            html_body: self.html_body@,
        }
    }
}

/// Is `f` a present string value?
pub open spec fn is_text(f: JsonField) -> bool {
    f is Text
}

/// The string value of `f` (empty unless it is a string).
pub open spec fn text_of(f: JsonField) -> Seq<char> {
    match f {
        JsonField::Text(s) => s@,
        _ => Seq::empty(),
    }
}

/// The first field, in the order title, content, text, html, that fails
/// validation; `None` when the payload is valid.
pub open spec fn first_invalid_field(p: NewsletterPayload) -> Option<PayloadField> {
    if !is_text(p.title) || text_of(p.title).len() == 0 {
        Some(PayloadField::Title)
    } else {
        match p.content {
            ContentField::Object(c) => if !is_text(c.text) {
                Some(PayloadField::ContentText)
            } else if !is_text(c.html) {
                Some(PayloadField::ContentHtml)
            } else {
                None
            },
            _ => Some(PayloadField::Content),
        }
    }
}

/// The newsletter that a valid payload describes.
pub open spec fn newsletter_of(p: NewsletterPayload) -> NewsletterView {
    match p.content {
        ContentField::Object(c) => NewsletterView {
            title: text_of(p.title),
            text: text_of(c.text),
            html: text_of(c.html),
        },
        _ => NewsletterView { title: text_of(p.title), text: Seq::empty(), html: Seq::empty() },
    }
}

/// The delivery of newsletter `n` to `recipient`.
pub open spec fn delivery_to(recipient: Seq<char>, n: NewsletterView) -> DeliveryView {
    DeliveryView { recipient, subject: n.title, text_body: n.text, html_body: n.html }
}

/// One delivery of `n` per address of `recipients`, in the same order.
pub open spec fn deliveries_for(recipients: Seq<Seq<char>>, n: NewsletterView) -> Seq<DeliveryView> {
    recipients.map_values(|e: Seq<char>| delivery_to(e, n))
}

/// The deliveries that publishing `n` makes for the subscribers `subs`.
pub open spec fn publish_spec(subs: Seq<SubscriberView>, n: NewsletterView) -> Seq<DeliveryView> {
    deliveries_for(confirmed_emails(subs), n)
}

/// Validates a submitted newsletter: the title must be a non-empty string
/// and the content an object whose `text` and `html` are strings.
pub fn validate_newsletter(payload: NewsletterPayload) -> (r: Result<Newsletter, PublishError>)
    ensures
        first_invalid_field(payload) matches Some(f) ==> (r matches Err(
            PublishError::InvalidPayload(g),
        ) && g == f),
        first_invalid_field(payload) is None ==> (r matches Ok(n) && n@ == newsletter_of(payload)),
{
    let title = match payload.title {
        JsonField::Text(t) => t,
        _ => return Err(PublishError::InvalidPayload(PayloadField::Title)),
    };
    if title.as_str().is_empty() {
        return Err(PublishError::InvalidPayload(PayloadField::Title));
    }
    let content = match payload.content {
        ContentField::Object(c) => c,
        _ => return Err(PublishError::InvalidPayload(PayloadField::Content)),
    };
    let text = match content.text {
        JsonField::Text(t) => t,
        _ => return Err(PublishError::InvalidPayload(PayloadField::ContentText)),
    };
    let html = match content.html {
        JsonField::Text(t) => t,
        _ => return Err(PublishError::InvalidPayload(PayloadField::ContentHtml)),
    };
    Ok(Newsletter { title, text, html })
}

/// One delivery of `newsletter` to each address of `recipients`, in order:
/// exactly one attempt per address, no filtering, no deduplication.
pub fn plan_deliveries(recipients: &Vec<String>, newsletter: &Newsletter) -> (r: Vec<Delivery>)
    ensures
        r@.map_values(|d: Delivery| d@) == deliveries_for(
            recipients@.map_values(|e: String| e@),
            newsletter@,
        ),
{
    let mut out: Vec<Delivery> = Vec::new();
    let mut i: usize = 0;
    while i < recipients.len()
        invariant
            0 <= i <= recipients.len(),
            out@.len() == i,
            forall|k: int|
                0 <= k < i ==> #[trigger] out@[k]@ == delivery_to(recipients@[k]@, newsletter@),
        decreases recipients.len() - i,
    {
        out.push(
            Delivery {
                recipient: recipients[i].clone(),
                subject: newsletter.title.clone(),
                text_body: newsletter.text.clone(),
                html_body: newsletter.html.clone(),
            },
        );
        i += 1;
    }
    assert(out@.map_values(|d: Delivery| d@) =~= deliveries_for(
        recipients@.map_values(|e: String| e@),
        newsletter@,
    ));
    out
}

/// Validates `payload` and, when it is valid, plans one delivery to each
/// confirmed subscriber of `subscribers`. Pending subscribers are never
/// addressed; an invalid payload fails before any subscriber is read.
pub fn publish(subscribers: &SubscriberStore, payload: NewsletterPayload) -> (r: Result<
    Vec<Delivery>,
    PublishError,
>)
    ensures
        first_invalid_field(payload) matches Some(f) ==> (r matches Err(
            PublishError::InvalidPayload(g),
        ) && g == f),
        first_invalid_field(payload) is None ==> (r matches Ok(d) && d@.map_values(
            |x: Delivery| x@,
        ) == publish_spec(subscribers@, newsletter_of(payload))),
{
    let newsletter = match validate_newsletter(payload) {
        Ok(n) => n,
        Err(e) => return Err(e),
    };
    let recipients = subscribers.find_confirmed();
    Ok(plan_deliveries(&recipients, &newsletter))
}

/// What a publish run achieved.
#[derive(Debug)]
pub struct PublishOutcome {
    /// Attempts that the transport accepted.
    pub delivered: usize,
    /// Recipients whose attempt failed, in delivery order.
    pub failed: Vec<String>,
    /// Planned deliveries never attempted (the run was cut short).
    pub abandoned: usize,
}

/// The number of successful attempts among `outcomes`.
pub open spec fn count_delivered(outcomes: Seq<bool>) -> nat
    decreases outcomes.len(),
{
    if outcomes.len() == 0 {
        0
    } else {
        count_delivered(outcomes.drop_last()) + if outcomes.last() {
            1nat
        } else {
            0nat
        }
    }
}

/// The recipients of the failed attempts: attempt `i` went to
/// `deliveries[i]` and succeeded when `outcomes[i]` holds.
pub open spec fn failed_recipients(deliveries: Seq<DeliveryView>, outcomes: Seq<bool>) -> Seq<
    Seq<char>,
>
    decreases outcomes.len(),
{
    if outcomes.len() == 0 {
        Seq::empty()
    } else {
        let prev = failed_recipients(deliveries, outcomes.drop_last());
        if outcomes.last() {
            prev
        } else {
            prev.push(deliveries[outcomes.len() - 1].recipient)
        }
    }
}

proof fn lemma_count_delivered_bound(outcomes: Seq<bool>)
    ensures
        count_delivered(outcomes) <= outcomes.len(),
    decreases outcomes.len(),
{
    if outcomes.len() > 0 {
        lemma_count_delivered_bound(outcomes.drop_last());
    }
}

/// Aggregates the outcomes of a run: `outcomes[i]` tells whether the attempt
/// of `deliveries[i]` succeeded; deliveries past the outcomes were never
/// attempted. Failed recipients are reported, not raised; the run fails as a
/// whole only when attempts were made and all of them failed.
pub fn finish_publish(deliveries: &Vec<Delivery>, outcomes: &Vec<bool>) -> (r: Result<
    PublishOutcome,
    PublishError,
>)
    requires
        outcomes.len() <= deliveries.len(),
    ensures
        outcomes.len() > 0 && count_delivered(outcomes@) == 0 ==> (r matches Err(
            PublishError::AllDeliveriesFailed(n),
        ) && n == outcomes.len()),
        outcomes.len() == 0 || count_delivered(outcomes@) > 0 ==> (r matches Ok(o)
            && o.delivered == count_delivered(outcomes@) && o.failed@.map_values(|e: String| e@)
            == failed_recipients(deliveries@.map_values(|d: Delivery| d@), outcomes@)
            && o.abandoned == deliveries.len() - outcomes.len()),
{
    let ghost dv = deliveries@.map_values(|d: Delivery| d@);
    let mut delivered: usize = 0;
    let mut failed: Vec<String> = Vec::new();
    let mut i: usize = 0;
    while i < outcomes.len()
        invariant
            0 <= i <= outcomes.len() <= deliveries.len(),
            dv == deliveries@.map_values(|d: Delivery| d@),
            delivered == count_delivered(outcomes@.subrange(0, i as int)),
            failed@.map_values(|e: String| e@) == failed_recipients(
                dv,
                outcomes@.subrange(0, i as int),
            ),
        decreases outcomes.len() - i,
    {
        let ghost pre = outcomes@.subrange(0, i as int);
        let ghost next = outcomes@.subrange(0, i + 1);
        assert(next.drop_last() =~= pre);
        proof {
            lemma_count_delivered_bound(pre);
        }
        let ghost before = failed@;
        if outcomes[i] {
            delivered += 1;
        } else {
            failed.push(deliveries[i].recipient.clone());
            assert(failed@.map_values(|e: String| e@) =~= before.map_values(|e: String| e@).push(
                dv[i as int].recipient,
            ));
        }
        i += 1;
    }
    assert(outcomes@.subrange(0, outcomes.len() as int) =~= outcomes@);
    if i > 0 && delivered == 0 {
        return Err(PublishError::AllDeliveriesFailed(i));
    }
    Ok(PublishOutcome { delivered, failed, abandoned: deliveries.len() - outcomes.len() })
}

/// Is `email` the address of a confirmed subscriber of `subs`?
pub open spec fn is_confirmed_address(subs: Seq<SubscriberView>, email: Seq<char>) -> bool {
    exists|i: int| 0 <= i < subs.len() && is_confirmed(subs[i]) && #[trigger] subs[i].email == email
}

/// Every planned delivery is addressed to a confirmed subscriber: publishing
/// never reaches a pending address.
pub proof fn lemma_deliveries_reach_only_confirmed(subs: Seq<SubscriberView>, n: NewsletterView)
    ensures
        forall|j: int|
            0 <= j < publish_spec(subs, n).len() ==> is_confirmed_address(
                subs,
                #[trigger] publish_spec(subs, n)[j].recipient,
            ),
{
    let f = subs.filter(confirmed_pred());
    assert forall|j: int| 0 <= j < publish_spec(subs, n).len() implies is_confirmed_address(
        subs,
        #[trigger] publish_spec(subs, n)[j].recipient,
    ) by {
        subs.lemma_filter_pred(confirmed_pred(), j);
        assert(f.contains(f[j]));
        subs.lemma_filter_contains_rev(confirmed_pred(), f[j]);
        let i = choose|i: int| 0 <= i < subs.len() && subs[i] == f[j];
        assert(subs[i].email == publish_spec(subs, n)[j].recipient);
    }
}

/// Publishing makes exactly one attempt per confirmed subscriber: the
/// `i`-th attempt goes to the `i`-th confirmed subscriber, in store order.
pub proof fn lemma_one_attempt_per_confirmed(subs: Seq<SubscriberView>, n: NewsletterView)
    ensures
        publish_spec(subs, n).len() == subs.filter(confirmed_pred()).len(),
        forall|i: int|
            0 <= i < publish_spec(subs, n).len() ==> #[trigger] publish_spec(subs, n)[i]
                == delivery_to(subs.filter(confirmed_pred())[i].email, n),
{
}

/// With no confirmed subscriber, publishing makes no delivery attempt.
pub proof fn lemma_no_confirmed_no_deliveries(subs: Seq<SubscriberView>, n: NewsletterView)
    requires
        forall|i: int| 0 <= i < subs.len() ==> #[trigger] subs[i].status != SubscriptionStatus::Confirmed,
    ensures
        publish_spec(subs, n).len() == 0,
    decreases subs.len(),
{
    reveal(Seq::filter);
    if subs.len() > 0 {
        let rest = subs.drop_last();
        assert forall|i: int| 0 <= i < rest.len() implies #[trigger] rest[i].status
            != SubscriptionStatus::Confirmed by {
            assert(rest[i] == subs[i]);
        }
        lemma_no_confirmed_no_deliveries(rest, n);
        assert(subs.last() == subs[subs.len() - 1]);
    }
}

/// With one confirmed and one pending subscriber, publishing makes exactly
/// one delivery attempt, addressed to the confirmed subscriber.
pub proof fn lemma_one_confirmed_one_delivery(subs: Seq<SubscriberView>, n: NewsletterView)
    requires
        subs.len() == 2,
        subs[0].status != subs[1].status,
    ensures
        forall|c: int|
            0 <= c < 2 && subs[c].status == SubscriptionStatus::Confirmed ==> publish_spec(subs, n)
                == seq![delivery_to(#[trigger] subs[c].email, n)],
{
    reveal_with_fuel(Seq::filter, 3);
    assert(subs.drop_last().drop_last() =~= Seq::<SubscriberView>::empty());
    assert(subs.drop_last() =~= seq![subs[0]]);
    if subs[0].status == SubscriptionStatus::Confirmed {
        assert(subs.filter(confirmed_pred()) =~= seq![subs[0]]);
        assert(publish_spec(subs, n) =~= seq![delivery_to(subs[0].email, n)]);
    } else {
        assert(subs.filter(confirmed_pred()) =~= seq![subs[1]]);
        assert(publish_spec(subs, n) =~= seq![delivery_to(subs[1].email, n)]);
    }
}

} // verus!
