//! The message envelope: how it is decoded, and its three renderings (a
//! log line, a plain-text summary and a markdown headline).

use vstd::prelude::*;
use vstd::utf8::{decode_utf8, valid_utf8};

use crate::attributes::{
    attributes_from_members, default_attributes, log_message_of, log_message_with, project_name_of,
    with_project_name_of, Attributes, AttributesView, EMPTY_PAYLOAD_MESSAGE,
};
use crate::json::{find_member, lenient_text, member_text, read_lenient_text, read_string, string_in};
use crate::text::{contains_text, occurs_at};
use crate::payload::{node_pool_of, payload_kind_name, read_object, object_members, Payload, PayloadView, ResourceType, ResourceTypeView};

verus! {

/// Why an envelope could not be decoded.
#[derive(Debug, Clone, Copy, PartialEq, Eq, Structural)]
pub enum DecodeError {
    /// The text is not a JSON object.
    MalformedJson,
    /// `data` is not a base64 string.
    InvalidBase64,
    /// `data` does not decode to UTF-8 text.
    InvalidUtf8,
    /// The payload of a known type does not fit that type's schema.
    InvalidPayload,
}

impl DecodeError {
    /// A short description of the error.
    pub fn description(&self) -> (r: &'static str)
        ensures
            r@ == decode_error_description(*self),
    {
        match self {
            DecodeError::MalformedJson => "the message is not a JSON object",
            DecodeError::InvalidBase64 => "the message data is not valid base64",
            DecodeError::InvalidUtf8 => "the message data is not valid UTF-8",
            DecodeError::InvalidPayload => "the payload does not fit the schema of its type",
        }
    }
}

/// A short description of an error.
pub open spec fn decode_error_description(e: DecodeError) -> Seq<char> {
    match e {
        DecodeError::MalformedJson => "the message is not a JSON object"@,
        DecodeError::InvalidBase64 => "the message data is not valid base64"@,
        DecodeError::InvalidUtf8 => "the message data is not valid UTF-8"@,
        DecodeError::InvalidPayload => "the payload does not fit the schema of its type"@,
    }
}

/// A decoded notification.
#[derive(Debug, Clone)]
pub struct Message {
    pub attributes: Attributes,
    pub message_id: String,
    pub publish_time: String,
    /// The text carried base64-encoded in the envelope's `data`.
    pub data: String,
}

pub struct MessageView {
    pub attributes: AttributesView,
    pub message_id: Seq<char>,
    pub publish_time: Seq<char>,
    pub data: Seq<char>,
}

impl View for Message {
    type V = MessageView;

    open spec fn view(&self) -> MessageView {
        MessageView {
            attributes: self.attributes@,
            message_id: self.message_id@,
            publish_time: self.publish_time@,
            data: self.data@,
        }
    }
}

/// The envelope as the push subscription delivers it.
#[derive(Debug, Clone)]
pub struct PubSubMessage {
    pub message: Message,
    pub subscription: String,
}

pub struct PubSubMessageView {
    pub message: MessageView,
    pub subscription: Seq<char>,
}

impl View for PubSubMessage {
    type V = PubSubMessageView;

    open spec fn view(&self) -> PubSubMessageView {
        PubSubMessageView { message: self.message@, subscription: self.subscription@ }
    }
}

// ---------------------------------------------------------------------------
// Decoding

/// The bytes that base64 text decodes to, with the standard alphabet and
/// padding; `None` when it is not such text.
pub uninterp spec fn base64_decoded(s: Seq<char>) -> Option<Seq<u8>>;

/// Relies on `base64::engine::general_purpose::STANDARD.decode`: the
/// bytes that the text encodes, or an error when it is not valid base64 with
/// the standard alphabet and padding.
#[verifier::external_body]
fn decode_base64(s: &str) -> (r: Option<Vec<u8>>)
    ensures
        r.deep_view() == base64_decoded(s@),
{
    base64::Engine::decode(&base64::engine::general_purpose::STANDARD, s).ok()
}

/// Relies on `String::from_utf8`: the text that the bytes encode when they
/// are valid UTF-8, else an error.
#[verifier::external_body]
fn utf8_text(bytes: Vec<u8>) -> (r: Option<String>)
    ensures
        r.is_some() == valid_utf8(bytes@),
        r matches Some(s) ==> s@ == decode_utf8(bytes@),
{
    String::from_utf8(bytes).ok()
}

/// The text that the envelope's `data` carries: empty when missing.
pub open spec fn data_from_members(m: Seq<(Seq<char>, Seq<char>)>) -> Result<Seq<char>, DecodeError> {
    match member_text(m, "data"@) {
        None => Ok(Seq::empty()),
        Some(t) => match string_in(t) {
            None => Err(DecodeError::InvalidBase64),
            Some(s) => match base64_decoded(s) {
                None => Err(DecodeError::InvalidBase64),
                Some(bytes) => if valid_utf8(bytes) {
                    Ok(decode_utf8(bytes))
                } else {
                    Err(DecodeError::InvalidUtf8)
                },
            },
        },
    }
}

/// The envelope's attributes: the defaults when they are missing or are
/// not an object, `None` when their payload does not fit its schema.
pub open spec fn attributes_member(m: Seq<(Seq<char>, Seq<char>)>) -> Option<AttributesView> {
    match member_text(m, "attributes"@) {
        Some(t) => match object_members(t) {
            Some(am) => attributes_from_members(am),
            None => Some(default_attributes()),
        },
        None => Some(default_attributes()),
    }
}

/// The message that the members of an envelope describe.
pub open spec fn message_from_members(m: Seq<(Seq<char>, Seq<char>)>) -> Result<MessageView, DecodeError> {
    match data_from_members(m) {
        Err(e) => Err(e),
        Ok(data) => match attributes_member(m) {
            None => Err(DecodeError::InvalidPayload),
            Some(a) => Ok(
                MessageView {
                    attributes: a,
                    message_id: lenient_text(m, "message_id"@),
                    publish_time: lenient_text(m, "publish_time"@),
                    data,
                },
            ),
        },
    }
}

/// The message that the JSON text `text` describes.
pub open spec fn message_decoded(text: Seq<char>) -> Result<MessageView, DecodeError> {
    match object_members(text) {
        Some(m) => message_from_members(m),
        None => Err(DecodeError::MalformedJson),
    }
}

/// A message with default attributes and every text empty.
pub open spec fn default_message() -> MessageView {
    MessageView {
        attributes: default_attributes(),
        message_id: Seq::empty(),
        publish_time: Seq::empty(),
        data: Seq::empty(),
    }
}

/// The envelope that the JSON text `text` describes; a `message` that is
/// missing or is not an object reads as the default message.
pub open spec fn pubsub_decoded(text: Seq<char>) -> Result<PubSubMessageView, DecodeError> {
    match object_members(text) {
        Some(m) => {
            let subscription = lenient_text(m, "subscription"@);
            let message = match member_text(m, "message"@) {
                Some(t) => match object_members(t) {
                    Some(mm) => message_from_members(mm),
                    None => Ok(default_message()),
                },
                None => Ok(default_message()),
            };
            match message {
                Ok(msg) => Ok(PubSubMessageView { message: msg, subscription }),
                Err(e) => Err(e),
            }
        },
        None => Err(DecodeError::MalformedJson),
    }
}

fn read_data(m: &Vec<(String, String)>) -> (r: Result<String, DecodeError>)
    ensures
        match r {
            Ok(s) => data_from_members(m.deep_view()) == Ok::<Seq<char>, DecodeError>(s@),
            Err(e) => data_from_members(m.deep_view()) == Err::<Seq<char>, DecodeError>(e),
        },
{
    match find_member(m, "data") {
        None => Ok(String::new()),
        Some(t) => match read_string(t.as_str()) {
            None => Err(DecodeError::InvalidBase64),
            Some(s) => match decode_base64(s.as_str()) {
                None => Err(DecodeError::InvalidBase64),
                Some(bytes) => match {
                    assert(bytes.deep_view() =~= bytes@);
                    utf8_text(bytes)
                } {
                    Some(text) => Ok(text),
                    None => Err(DecodeError::InvalidUtf8),
                },
            },
        },
    }
}

fn read_attributes(m: &Vec<(String, String)>) -> (r: Option<Attributes>)
    ensures
        crate::option_view(r) == attributes_member(m.deep_view()),
{
    match find_member(m, "attributes") {
        Some(t) => match read_object(t.as_str()) {
            Some(am) => Attributes::from_members(&am),
            None => Some(Attributes::default()),
        },
        None => Some(Attributes::default()),
    }
}

impl Message {
    /// The message that the members of an envelope describe: `data` is
    /// decoded from base64 and then UTF-8, and the attributes are decoded as
    /// [`Attributes::from_members`] does.
    pub fn from_members(m: &Vec<(String, String)>) -> (r: Result<Message, DecodeError>)
        ensures
            match r {
                Ok(msg) => message_from_members(m.deep_view()) == Ok::<MessageView, DecodeError>(msg@),
                Err(e) => message_from_members(m.deep_view()) == Err::<MessageView, DecodeError>(e),
            },
    {
        let data = match read_data(m) {
            Ok(d) => d,
            Err(e) => return Err(e),
        };
        match read_attributes(m) {
            None => Err(DecodeError::InvalidPayload),
            Some(attributes) => Ok(
                Message {
                    attributes,
                    message_id: read_lenient_text(m, "message_id"),
                    publish_time: read_lenient_text(m, "publish_time"),
                    data,
                },
            ),
        }
    }

    /// The message that the JSON text `text` describes.
    pub fn from_json(text: &str) -> (r: Result<Message, DecodeError>)
        ensures
            match r {
                Ok(msg) => message_decoded(text@) == Ok::<MessageView, DecodeError>(msg@),
                Err(e) => message_decoded(text@) == Err::<MessageView, DecodeError>(e),
            },
    {
        match read_object(text) {
            Some(m) => Message::from_members(&m),
            None => Err(DecodeError::MalformedJson),
        }
    }
}

impl Default for Message {
    fn default() -> (r: Message)
        ensures
            r@ == default_message(),
    {
        Message {
            attributes: Attributes::default(),
            message_id: String::new(),
            publish_time: String::new(),
            data: String::new(),
        }
    }
}

impl PubSubMessage {
    /// The envelope that the JSON text `text` describes.
    pub fn from_json(text: &str) -> (r: Result<PubSubMessage, DecodeError>)
        ensures
            match r {
                Ok(p) => pubsub_decoded(text@) == Ok::<PubSubMessageView, DecodeError>(p@),
                Err(e) => pubsub_decoded(text@) == Err::<PubSubMessageView, DecodeError>(e),
            },
    {
        match read_object(text) {
            Some(m) => {
                let subscription = read_lenient_text(&m, "subscription");
                let message = match find_member(&m, "message") {
                    Some(t) => match read_object(t.as_str()) {
                        Some(mm) => match Message::from_members(&mm) {
                            Ok(msg) => msg,
                            Err(e) => return Err(e),
                        },
                        None => Message::default(),
                    },
                    None => Message::default(),
                };
                Ok(PubSubMessage { message, subscription })
            },
            None => Err(DecodeError::MalformedJson),
        }
    }
}

// ---------------------------------------------------------------------------
// Rendering

/// The log line of `m` when its project is named `project`: the summary,
/// or else the reason there is none followed by the data, if any.
pub open spec fn log_entry_with(m: MessageView, project: Seq<char>) -> Seq<char> {
    match log_message_with(m.attributes, project) {
        Ok(s) => s,
        Err(e) => if m.data.len() == 0 {
            e
        } else {
            e + ": "@ + m.data
        },
    }
}

/// The log line of `m`.
pub open spec fn log_entry_of(m: MessageView) -> Seq<char> {
    log_entry_with(m, project_name_of(m.attributes))
}

/// The node pool that an event names, or the empty text.
pub open spec fn pool_or_empty(resource: Option<Seq<char>>) -> Seq<char> {
    match node_pool_of(resource) {
        Some(n) => n,
        None => Seq::empty(),
    }
}

/// The markdown headline for a message without a payload.
pub const EMPTY_HEADLINE: &'static str = "empty or invalid payload";

/// The plain-text summary of `m`; it always names the cluster.
pub open spec fn plain_text_of(m: MessageView) -> Seq<char> {
    let c = m.attributes.cluster_name;
    match m.attributes.payload {
        PayloadView::SecurityBulletinEvent(e) => "Security bulletin "@ + e.bulletin_id + " affecting "@
            + c + " has been issued"@,
        PayloadView::UpgradeAvailableEvent(e) => match e.resource_type {
            ResourceTypeView::ControlPlane => c + " control plane has new version available "@ + e.version,
            ResourceTypeView::NodePool => c + " node pool "@ + pool_or_empty(e.resource)
                + " has new version available "@ + e.version,
            ResourceTypeView::Unknown(t) => c + " unknown resource type "@ + t,
        },
        PayloadView::UpgradeEvent(e) => match e.resource_type {
            ResourceTypeView::ControlPlane => c + " control plane is upgrading to version "@
                + e.target_version,
            ResourceTypeView::NodePool => c + " node pool "@ + pool_or_empty(e.resource)
                + " is upgrading to version "@ + e.target_version,
            ResourceTypeView::Unknown(t) => c + " unknown resource type "@ + t,
        },
        PayloadView::UnknownType(_) => c + " received event of unknown type"@,
        PayloadView::Empty => c + " received an empty or invalid payload"@,
    }
}

/// The markdown line for an upgrade of a resource type that is not known.
pub open spec fn unknown_resource_markdown(c: Seq<char>, t: Seq<char>, p: PayloadView) -> Seq<char> {
    "*`"@ + c + "`* unknown resource type `"@ + t + "` encountered on `"@ + payload_kind_name(p) + "`"@
}

/// The markdown headline of `m`.
pub open spec fn markdown_of(m: MessageView) -> Seq<char> {
    let c = m.attributes.cluster_name;
    let p = m.attributes.payload;
    match p {
        PayloadView::SecurityBulletinEvent(e) => "Security bulletin `"@ + e.bulletin_id
            + "` affecting `"@ + c + "` has been issued"@,
        PayloadView::UpgradeAvailableEvent(e) => match e.resource_type {
            ResourceTypeView::ControlPlane => "*`"@ + c + "`* control plane has new version available"@,
            ResourceTypeView::NodePool => "*`"@ + c + "`* node pool `"@ + pool_or_empty(e.resource)
                + "` has new version available"@,
            ResourceTypeView::Unknown(t) => unknown_resource_markdown(c, t, p),
        },
        PayloadView::UpgradeEvent(e) => match e.resource_type {
            ResourceTypeView::ControlPlane => "*`"@ + c + "`* control plane is upgrading"@,
            ResourceTypeView::NodePool => "*`"@ + c + "`* node pool `"@ + pool_or_empty(e.resource)
                + "` is upgrading"@,
            ResourceTypeView::Unknown(t) => unknown_resource_markdown(c, t, p),
        },
        PayloadView::UnknownType(_) => "`"@ + c + "` received event of unknown type"@,
        PayloadView::Empty => EMPTY_HEADLINE@,
    }
}

/// Whether `m` carries no data or no payload.
pub open spec fn is_invalid_message(m: MessageView) -> bool {
    m.data.len() == 0 || m.attributes.payload is Empty
}

/// `m` with the project name `name` laid over its attributes.
pub open spec fn message_with_project_name_of(m: MessageView, name: Seq<char>) -> MessageView {
    MessageView { attributes: with_project_name_of(m.attributes, name), ..m }
}

fn pool_name_or_empty(name: Option<String>) -> (r: String)
    ensures
        r@ == match name.deep_view() {
            Some(n) => n,
            None => Seq::empty(),
        },
{
    match name {
        Some(n) => n,
        None => String::new(),
    }
}

fn unknown_resource_headline(c: &String, t: &String, p: &Payload) -> (r: String)
    ensures
        r@ == unknown_resource_markdown(c@, t@, p@),
{
    let mut s = String::from_str("*`");
    s.append(c.as_str());
    s.append("`* unknown resource type `");
    s.append(t.as_str());
    s.append("` encountered on `");
    s.append(p.kind_name());
    s.append("`");
    s
}

impl Message {
    /// This message with the project name `project_name` laid over its
    /// attributes.
    pub fn with_project_name(self, project_name: String) -> (r: Message)
        ensures
            r@ == message_with_project_name_of(self@, project_name@),
    {
        Message { attributes: self.attributes.with_project_name(project_name), ..self }
    }

    /// Whether the message carries no data or no payload.
    pub fn is_invalid(&self) -> (r: bool)
        ensures
            r == is_invalid_message(self@),
    {
        self.data.as_str().is_empty() || self.attributes.is_invalid()
    }

    /// The log line: the summary of the attributes, or else the reason
    /// there is none, followed by `": "` and the data when there is data.
    pub fn log_entry(&self) -> (r: String)
        ensures
            r@ == log_entry_of(self@),
    {
        match self.attributes.log_message() {
            Ok(msg) => msg,
            Err(err) => if self.data.as_str().is_empty() {
                err
            } else {
                let mut s = err;
                s.append(": ");
                s.append(self.data.as_str());
                s
            },
        }
    }

    /// A one-sentence plain-text summary; it always names the cluster.
    pub fn plain_text(&self) -> (r: String)
        ensures
            r@ == plain_text_of(self@),
    {
        let attr = &self.attributes;
        let c = attr.cluster_name.as_str();
        match &attr.payload {
            Payload::SecurityBulletinEvent(e) => {
                let mut s = String::from_str("Security bulletin ");
                s.append(e.bulletin_id.as_str());
                s.append(" affecting ");
                s.append(c);
                s.append(" has been issued");
                s
            },
            Payload::UpgradeAvailableEvent(e) => match &e.resource_type {
                ResourceType::ControlPlane => {
                    let mut s = String::from_str(c);
                    s.append(" control plane has new version available ");
                    s.append(e.version.as_str());
                    s
                },
                ResourceType::NodePool => {
                    let mut s = String::from_str(c);
                    s.append(" node pool ");
                    s.append(pool_name_or_empty(e.node_pool_name()).as_str());
                    s.append(" has new version available ");
                    s.append(e.version.as_str());
                    s
                },
                ResourceType::Unknown(t) => {
                    let mut s = String::from_str(c);
                    s.append(" unknown resource type ");
                    s.append(t.as_str());
                    s
                },
            },
            Payload::UpgradeEvent(e) => match &e.resource_type {
                ResourceType::ControlPlane => {
                    let mut s = String::from_str(c);
                    s.append(" control plane is upgrading to version ");
                    s.append(e.target_version.as_str());
                    s
                },
                ResourceType::NodePool => {
                    let mut s = String::from_str(c);
                    s.append(" node pool ");
                    s.append(pool_name_or_empty(e.node_pool_name()).as_str());
                    s.append(" is upgrading to version ");
                    s.append(e.target_version.as_str());
                    s
                },
                ResourceType::Unknown(t) => {
                    let mut s = String::from_str(c);
                    s.append(" unknown resource type ");
                    s.append(t.as_str());
                    s
                },
            },
            Payload::UnknownType(_) => {
                let mut s = String::from_str(c);
                s.append(" received event of unknown type");
                s
            },
            Payload::Empty => {
                let mut s = String::from_str(c);
                s.append(" received an empty or invalid payload");
                s
            },
        }
    }

    /// A one-line markdown headline naming the cluster.
    pub fn markdown(&self) -> (r: String)
        ensures
            r@ == markdown_of(self@),
    {
        let attr = &self.attributes;
        let c = attr.cluster_name.as_str();
        match &attr.payload {
            Payload::SecurityBulletinEvent(e) => {
                let mut s = String::from_str("Security bulletin `");
                s.append(e.bulletin_id.as_str());
                s.append("` affecting `");
                s.append(c);
                s.append("` has been issued");
                s
            },
            Payload::UpgradeAvailableEvent(e) => match &e.resource_type {
                ResourceType::ControlPlane => {
                    let mut s = String::from_str("*`");
                    s.append(c);
                    s.append("`* control plane has new version available");
                    s
                },
                ResourceType::NodePool => {
                    let mut s = String::from_str("*`");
                    s.append(c);
                    s.append("`* node pool `");
                    s.append(pool_name_or_empty(e.node_pool_name()).as_str());
                    s.append("` has new version available");
                    s
                },
                ResourceType::Unknown(t) => unknown_resource_headline(&attr.cluster_name, t, &attr.payload),
            },
            Payload::UpgradeEvent(e) => match &e.resource_type {
                ResourceType::ControlPlane => {
                    let mut s = String::from_str("*`");
                    s.append(c);
                    s.append("`* control plane is upgrading");
                    s
                },
                ResourceType::NodePool => {
                    let mut s = String::from_str("*`");
                    s.append(c);
                    s.append("`* node pool `");
                    s.append(pool_name_or_empty(e.node_pool_name()).as_str());
                    s.append("` is upgrading");
                    s
                },
                ResourceType::Unknown(t) => unknown_resource_headline(&attr.cluster_name, t, &attr.payload),
            },
            Payload::UnknownType(_) => {
                let mut s = String::from_str("`");
                s.append(c);
                s.append("` received event of unknown type");
                s
            },
            Payload::Empty => String::from_str(EMPTY_HEADLINE),
        }
    }
}

/// A message without a payload (which is what missing attributes decode
/// to) logs "Empty or invalid payload", followed by `": "` and the data
/// when there is data.
pub proof fn lemma_empty_payload_log_entry(m: MessageView)
    requires
        m.attributes.payload is Empty,
    ensures
        m.data.len() == 0 ==> log_entry_of(m) == EMPTY_PAYLOAD_MESSAGE@,
        m.data.len() > 0 ==> log_entry_of(m) == EMPTY_PAYLOAD_MESSAGE@ + ": "@ + m.data,
{
}

/// An envelope without attributes decodes, when it decodes, to a message
/// without a payload.
pub proof fn lemma_missing_attributes_decode_empty(m: Seq<(Seq<char>, Seq<char>)>)
    requires
        member_text(m, "attributes"@) is None,
    ensures
        message_from_members(m) matches Ok(msg) ==> msg.attributes == default_attributes()
            && msg.attributes.payload is Empty,
{
}

/// Laying a project name over a message changes its project name alone:
/// the plain text and the markdown, which do not name the project, stay as
/// they are, and the log line names the override in place of the project
/// ID.
pub proof fn lemma_message_project_name_overlay(m: MessageView, name: Seq<char>)
    ensures
        message_with_project_name_of(m, name).message_id == m.message_id,
        message_with_project_name_of(m, name).publish_time == m.publish_time,
        message_with_project_name_of(m, name).data == m.data,
        message_with_project_name_of(m, name).attributes == with_project_name_of(m.attributes, name),
        plain_text_of(message_with_project_name_of(m, name)) == plain_text_of(m),
        markdown_of(message_with_project_name_of(m, name)) == markdown_of(m),
        log_entry_of(message_with_project_name_of(m, name)) == log_entry_with(m, name),
        is_invalid_message(message_with_project_name_of(m, name)) == is_invalid_message(m),
{
}

/// The plain-text summary of every message names its cluster, whatever
/// the payload, including an unknown or missing one.
pub proof fn lemma_plain_text_names_cluster(m: MessageView)
    ensures
        contains_text(plain_text_of(m), m.attributes.cluster_name),
{
    let c = m.attributes.cluster_name;
    let s = plain_text_of(m);
    match m.attributes.payload {
        PayloadView::SecurityBulletinEvent(e) => {
            let k = ("Security bulletin "@ + e.bulletin_id + " affecting "@).len() as int;
            assert(s.subrange(k, k + c.len()) =~= c);
            assert(occurs_at(s, c, k));
        },
        _ => {
            assert(s.subrange(0, c.len() as int) =~= c);
            assert(occurs_at(s, c, 0));
        },
    }
}

} // verus!
