//! The chat card posted to an incoming webhook: its blocks, its JSON body,
//! and how the webhook's answer is read.

use vstd::prelude::*;

use crate::attributes::{project_name_of, resource_uri_of, resource_url_of};
use crate::json::{json_quoted, quote_json};
use crate::message::{markdown_of, plain_text_of, Message, MessageView};
use crate::payload::{affected_label, channel_name, yes_no, Payload, PayloadView};
use crate::text::{join, joined};

verus! {

/// One content block of a card; each text is markdown.
#[derive(Debug, Clone)]
pub enum Block {
    /// A section holding one text.
    Section(String),
    /// A section holding texts laid out as fields.
    Fields(Vec<String>),
    /// A context line holding texts.
    Context(Vec<String>),
}

pub enum BlockView {
    Section(Seq<char>),
    Fields(Seq<Seq<char>>),
    Context(Seq<Seq<char>>),
}

impl View for Block {
    type V = BlockView;

    open spec fn view(&self) -> BlockView {
        match self {
            Block::Section(t) => BlockView::Section(t@),
            Block::Fields(ts) => BlockView::Fields(ts.deep_view()),
            Block::Context(ts) => BlockView::Context(ts.deep_view()),
        }
    }
}

/// A card for an incoming webhook: a plain-text fallback and its blocks.
#[derive(Debug, Clone)]
pub struct WebhookMessage {
    pub text: String,
    pub blocks: Vec<Block>,
}

pub struct WebhookMessageView {
    pub text: Seq<char>,
    pub blocks: Seq<BlockView>,
}

impl View for WebhookMessage {
    type V = WebhookMessageView;

    open spec fn view(&self) -> WebhookMessageView {
        WebhookMessageView { text: self.text@, blocks: self.blocks@.map_values(|b: Block| b@) }
    }
}

/// A field block of two texts.
pub open spec fn pair(a: Seq<char>, b: Seq<char>) -> BlockView {
    BlockView::Fields(seq![a, b])
}

/// A console link with its label.
pub open spec fn console_link(url: Seq<char>) -> Seq<char> {
    "*Resource*\n<"@ + url + "|View in Console>"@
}

/// The blocks between the headline and the context line of the card for
/// `m`.
pub open spec fn detail_blocks(m: MessageView) -> Seq<BlockView> {
    let a = m.attributes;
    let project = "*Project*\n"@ + project_name_of(a);
    let url = resource_url_of(a);
    match a.payload {
        PayloadView::SecurityBulletinEvent(e) => {
            let first = seq![
                BlockView::Section("*Brief Description*\n"@ + e.brief_description),
                pair(
                    "*Affected Resource Type*\n"@ + affected_label(e.resource_type_affected),
                    "*Manual Steps Required*\n"@ + yes_no(e.manual_steps_required),
                ),
                pair(project, "*Severity*\n"@ + e.severity),
            ];
            let patched = if e.patched_versions.len() > 0 || e.suggested_upgrade_target.len() > 0 {
                seq![
                    pair(
                        "*Patched Versions*\n"@ + joined(e.patched_versions, "\n"@),
                        "*Suggested Upgrade Target*\n"@ + e.suggested_upgrade_target,
                    ),
                ]
            } else {
                Seq::empty()
            };
            first + patched + seq![
                pair(
                    "*Cluster*\n"@ + url,
                    "*Security Bulletin*\n<"@ + e.bulletin_uri + "|View Details>"@,
                ),
            ]
        },
        PayloadView::UpgradeAvailableEvent(e) => seq![
            pair(project, "*Version*\n"@ + e.version),
            pair(console_link(url), "*Release Channel*\n"@ + channel_name(e.release_channel)),
        ],
        PayloadView::UpgradeEvent(e) => seq![
            pair(project, "*Current Version*\n"@ + e.current_version),
            pair(console_link(url), "*Target Version*\n"@ + e.target_version),
        ],
        _ => seq![
            pair(project, "*Message*\n"@ + m.data),
            pair(console_link(url), "*TypeUrl*\n"@ + a.type_url),
        ],
    }
}

/// The blocks of the card for `m`: a headline, the details, and a context
/// line with the resource URI.
pub open spec fn blocks_of(m: MessageView) -> Seq<BlockView> {
    seq![BlockView::Section(":gear: "@ + markdown_of(m))] + detail_blocks(m) + seq![
        BlockView::Context(seq![resource_uri_of(m.attributes)]),
    ]
}

/// The card for `m`.
pub open spec fn webhook_message_of(m: MessageView) -> WebhookMessageView {
    WebhookMessageView { text: ":gear: "@ + plain_text_of(m), blocks: blocks_of(m) }
}

/// The JSON text of a markdown text object.
pub open spec fn mrkdwn_json(t: Seq<char>) -> Seq<char> {
    "{\"text\":"@ + json_quoted(t) + ",\"type\":\"mrkdwn\"}"@
}

/// The JSON texts of markdown text objects, separated by commas.
pub open spec fn mrkdwn_list_json(ts: Seq<Seq<char>>) -> Seq<char> {
    joined(ts.map_values(|t: Seq<char>| mrkdwn_json(t)), ","@)
}

/// The JSON text of a block.
pub open spec fn block_json(b: BlockView) -> Seq<char> {
    match b {
        BlockView::Section(t) => "{\"text\":"@ + mrkdwn_json(t) + ",\"type\":\"section\"}"@,
        BlockView::Fields(ts) => "{\"fields\":["@ + mrkdwn_list_json(ts) + "],\"type\":\"section\"}"@,
        BlockView::Context(ts) => "{\"elements\":["@ + mrkdwn_list_json(ts) + "],\"type\":\"context\"}"@,
    }
}

/// The JSON body that posts a card.
pub open spec fn webhook_json(w: WebhookMessageView) -> Seq<char> {
    "{\"text\":"@ + json_quoted(w.text) + ",\"blocks\":["@ + joined(
        w.blocks.map_values(|b: BlockView| block_json(b)),
        ","@,
    ) + "]}"@
}

/// What a delivery attempt gives: the answer's body, as a success when the
/// status is a 2xx one and as an error otherwise.
pub open spec fn delivery_outcome(status: u16, body: Seq<char>) -> Result<Seq<char>, Seq<char>> {
    if 200 <= status < 300 {
        Ok(body)
    } else {
        Err(body)
    }
}

fn field_pair(a: String, b: String) -> (r: Block)
    ensures
        r@ == pair(a@, b@),
{
    let mut v: Vec<String> = Vec::new();
    v.push(a);
    v.push(b);
    assert(v.deep_view() =~= seq![a@, b@]);
    Block::Fields(v)
}

fn labelled(label: &str, value: &str) -> (r: String)
    ensures
        r@ == label@ + value@,
{
    let mut s = String::from_str(label);
    s.append(value);
    s
}

fn resource_link(url: &String) -> (r: String)
    ensures
        r@ == console_link(url@),
{
    let mut s = String::from_str("*Resource*\n<");
    s.append(url.as_str());
    s.append("|View in Console>");
    s
}

fn mrkdwn_object(t: &String) -> (r: String)
    ensures
        r@ == mrkdwn_json(t@),
{
    let mut s = String::from_str("{\"text\":");
    s.append(quote_json(t.as_str()).as_str());
    s.append(",\"type\":\"mrkdwn\"}");
    s
}

fn mrkdwn_list(ts: &Vec<String>) -> (r: String)
    ensures
        r@ == mrkdwn_list_json(ts.deep_view()),
{
    let ghost all = ts.deep_view();
    let mut parts: Vec<String> = Vec::new();
    let mut i: usize = 0;
    while i < ts.len()
        invariant
            i <= ts.len(),
            all == ts.deep_view(),
            parts.deep_view() =~= all.take(i as int).map_values(|t: Seq<char>| mrkdwn_json(t)),
        decreases ts.len() - i,
    {
        let obj = mrkdwn_object(&ts[i]);
        let ghost prev = parts.deep_view();
        let ghost obj_view = obj@;
        parts.push(obj);
        assert(parts.deep_view() =~= prev.push(obj_view));
        assert(all.take(i + 1).map_values(|t: Seq<char>| mrkdwn_json(t)) =~= all.take(i as int).map_values(
            |t: Seq<char>| mrkdwn_json(t),
        ).push(mrkdwn_json(all[i as int])));
        i += 1;
    }
    assert(all.take(i as int) =~= all);
    join(&parts, ",")
}

fn block_text(b: &Block) -> (r: String)
    ensures
        r@ == block_json(b@),
{
    match b {
        Block::Section(t) => {
            let mut s = String::from_str("{\"text\":");
            s.append(mrkdwn_object(t).as_str());
            s.append(",\"type\":\"section\"}");
            s
        },
        Block::Fields(ts) => {
            let mut s = String::from_str("{\"fields\":[");
            s.append(mrkdwn_list(ts).as_str());
            s.append("],\"type\":\"section\"}");
            s
        },
        Block::Context(ts) => {
            let mut s = String::from_str("{\"elements\":[");
            s.append(mrkdwn_list(ts).as_str());
            s.append("],\"type\":\"context\"}");
            s
        },
    }
}

impl WebhookMessage {
    /// The JSON body that posts this card to an incoming webhook.
    pub fn to_json(&self) -> (r: String)
        ensures
            r@ == webhook_json(self@),
    {
        let ghost all = self@.blocks;
        let mut parts: Vec<String> = Vec::new();
        let mut i: usize = 0;
        while i < self.blocks.len()
            invariant
                i <= self.blocks.len(),
                all == self@.blocks,
                parts.deep_view() =~= all.take(i as int).map_values(|b: BlockView| block_json(b)),
            decreases self.blocks.len() - i,
        {
            let part = block_text(&self.blocks[i]);
            let ghost prev = parts.deep_view();
            let ghost part_view = part@;
            parts.push(part);
            assert(parts.deep_view() =~= prev.push(part_view));
            assert(all.take(i + 1).map_values(|b: BlockView| block_json(b)) =~= all.take(i as int).map_values(
                |b: BlockView| block_json(b),
            ).push(block_json(all[i as int])));
            i += 1;
        }
        assert(all.take(i as int) =~= all);
        let mut s = String::from_str("{\"text\":");
        s.append(quote_json(self.text.as_str()).as_str());
        s.append(",\"blocks\":[");
        s.append(join(&parts, ",").as_str());
        s.append("]}");
        s
    }

    /// The outcome of one delivery attempt from the status and body of the
    /// webhook's answer: the body, as a success for a 2xx status and as an
    /// error otherwise.
    pub fn delivery_result(status: u16, body: String) -> (r: Result<String, String>)
        ensures
            crate::text_result_view(r) == delivery_outcome(status, body@),
    {
        if 200 <= status && status < 300 {
            Ok(body)
        } else {
            Err(body)
        }
    }
}

fn bulletin_link(uri: &String) -> (r: String)
    ensures
        r@ == "*Security Bulletin*\n<"@ + uri@ + "|View Details>"@,
{
    let mut s = String::from_str("*Security Bulletin*\n<");
    s.append(uri.as_str());
    s.append("|View Details>");
    s
}

impl WebhookMessage {
    /// The blocks of the card for `message`: a headline, the fields of its
    /// event, and a context line with the resource URI. The patched versions
    /// of a bulletin appear only when there are some or there is a suggested
    /// upgrade target.
    pub fn blocks(message: &Message) -> (r: Vec<Block>)
        ensures
            r@.map_values(|b: Block| b@) == blocks_of(message@),
    {
        let attr = &message.attributes;
        let mut result: Vec<Block> = Vec::new();
        result.push(Block::Section(labelled(":gear: ", message.markdown().as_str())));
        match &attr.payload {
            Payload::SecurityBulletinEvent(p) => {
                result.push(Block::Section(labelled("*Brief Description*\n", p.brief_description.as_str())));
                result.push(
                    field_pair(
                        labelled("*Affected Resource Type*\n", p.resource_type_affected().as_str()),
                        labelled("*Manual Steps Required*\n", p.manual_steps_required()),
                    ),
                );
                result.push(
                    field_pair(
                        labelled("*Project*\n", attr.project_name().as_str()),
                        labelled("*Severity*\n", p.severity.as_str()),
                    ),
                );
                if p.patched_versions.len() > 0 || !p.suggested_upgrade_target.as_str().is_empty() {
                    result.push(
                        field_pair(
                            labelled("*Patched Versions*\n", join(&p.patched_versions, "\n").as_str()),
                            labelled("*Suggested Upgrade Target*\n", p.suggested_upgrade_target.as_str()),
                        ),
                    );
                }
                result.push(
                    field_pair(
                        labelled("*Cluster*\n", attr.resource_url().as_str()),
                        bulletin_link(&p.bulletin_uri),
                    ),
                );
            },
            Payload::UpgradeAvailableEvent(p) => {
                result.push(
                    field_pair(
                        labelled("*Project*\n", attr.project_name().as_str()),
                        labelled("*Version*\n", p.version.as_str()),
                    ),
                );
                result.push(
                    field_pair(
                        resource_link(&attr.resource_url()),
                        labelled("*Release Channel*\n", p.release_channel.name()),
                    ),
                );
            },
            Payload::UpgradeEvent(p) => {
                result.push(
                    field_pair(
                        labelled("*Project*\n", attr.project_name().as_str()),
                        labelled("*Current Version*\n", p.current_version.as_str()),
                    ),
                );
                result.push(
                    field_pair(
                        resource_link(&attr.resource_url()),
                        labelled("*Target Version*\n", p.target_version.as_str()),
                    ),
                );
            },
            _ => {
                result.push(
                    field_pair(
                        labelled("*Project*\n", attr.project_name().as_str()),
                        labelled("*Message*\n", message.data.as_str()),
                    ),
                );
                result.push(
                    field_pair(
                        resource_link(&attr.resource_url()),
                        labelled("*TypeUrl*\n", attr.type_url.as_str()),
                    ),
                );
            },
        }
        let mut context: Vec<String> = Vec::new();
        context.push(attr.resource_uri());
        proof {
            assert(context.deep_view() =~= seq![resource_uri_of(message@.attributes)]);
        }
        result.push(Block::Context(context));
        assert(result@.map_values(|b: Block| b@) =~= blocks_of(message@));
        result
    }

    /// The card for `message`: its plain text as the fallback text, and its
    /// blocks.
    pub fn from_message(message: &Message) -> (r: WebhookMessage)
        ensures
            r@ == webhook_message_of(message@),
    {
        WebhookMessage {
            text: labelled(":gear: ", message.plain_text().as_str()),
            blocks: WebhookMessage::blocks(message),
        }
    }
}

} // verus!
