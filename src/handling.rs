//! What to do with one received envelope: the message to log, its log line,
//! and whether to post its card, and where.

use vstd::prelude::*;

use crate::attributes::{is_node_pool_offer, log_message_of};
use crate::message::{
    is_invalid_message, log_entry_of, message_with_project_name_of, Message, MessageView,
    PubSubMessage,
};
use crate::slack::{webhook_json, webhook_message_of, WebhookMessage};

verus! {

/// A card to post: the webhook to post it to and the JSON body.
#[derive(Debug, Clone)]
pub struct Delivery {
    pub webhook: String,
    pub body: String,
}

/// What to do with one received envelope.
#[derive(Debug, Clone)]
pub struct Handling {
    /// The message, with the project name laid over it if one is configured.
    pub message: Message,
    pub subscription: String,
    /// The line to log.
    pub log_entry: String,
    /// The message carries no data or no payload: it is logged as an error
    /// and nothing is posted.
    pub invalid: bool,
    /// The one post to make, if any.
    pub delivery: Option<Delivery>,
}

/// `m` with the configured project name, if any, laid over it.
pub open spec fn configured_message(m: MessageView, project_name: Option<Seq<char>>) -> MessageView {
    match project_name {
        Some(n) => message_with_project_name_of(m, n),
        None => m,
    }
}

/// Whether the card for `m` is posted: a webhook is configured, the message
/// is valid, and it does not announce a new version for a node pool.
pub open spec fn delivery_due(m: MessageView, has_webhook: bool) -> bool {
    has_webhook && !is_invalid_message(m) && !is_node_pool_offer(m.attributes.payload)
}

/// Decides what to do with `envelope`, given the configured project name
/// and webhook.
pub fn handle(envelope: PubSubMessage, project_name: Option<String>, webhook: Option<String>) -> (r: Handling)
    ensures
        r.message@ == configured_message(envelope.message@, project_name.deep_view()),
        r.subscription@ == envelope.subscription@,
        r.log_entry@ == log_entry_of(r.message@),
        r.invalid == is_invalid_message(r.message@),
        r.delivery.is_some() == delivery_due(r.message@, webhook.is_some()),
        r.delivery matches Some(d) ==> webhook matches Some(w) && d.webhook@ == w@ && d.body@
            == webhook_json(webhook_message_of(r.message@)),
{
    let message = match project_name {
        Some(name) => envelope.message.with_project_name(name),
        None => envelope.message,
    };
    let log_entry = message.log_entry();
    let invalid = message.is_invalid();
    let delivery = if invalid || message.attributes.is_node_pool_upgrade_available_event() {
        None
    } else {
        match webhook {
            Some(w) => {
                let body = WebhookMessage::from_message(&message).to_json();
                Some(Delivery { webhook: w, body })
            },
            None => None,
        }
    };
    Handling { message, subscription: envelope.subscription, log_entry, invalid, delivery }
}

/// A message that announces a new version for a node pool is never posted,
/// whether or not a webhook is configured, and its summary is still logged.
pub proof fn lemma_node_pool_offer_never_delivered(m: MessageView, has_webhook: bool)
    requires
        is_node_pool_offer(m.attributes.payload),
    ensures
        !delivery_due(m, has_webhook),
        log_message_of(m.attributes) matches Ok(s) && log_entry_of(m) == s,
{
}

} // verus!
