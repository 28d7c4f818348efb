//! The typed events that a notification can carry, and how each is decoded
//! from the JSON text embedded in the message attributes.

use vstd::prelude::*;

use crate::json::{
    strings_in, JsonShape, JsonValue, json_parsed, lenient_text, member_text, parse_json, read_lenient_text,
    read_schema_bool, read_schema_optional_text, read_schema_text, read_schema_text_list,
    find_member, read_string, schema_bool, schema_optional_text, schema_text, schema_text_list,
    string_in,
};
use crate::option_view;
use crate::text::{lowercase_of, same_text, strip_leading, strip_prefixes, text_after, text_after_spec, to_lowercase};

verus! {

/// The `type_url` of a security bulletin.
pub const SECURITY_BULLETIN_TYPE_URL: &'static str = "type.googleapis.com/google.container.v1beta1.SecurityBulletinEvent";

/// The `type_url` of an available upgrade.
pub const UPGRADE_AVAILABLE_TYPE_URL: &'static str = "type.googleapis.com/google.container.v1beta1.UpgradeAvailableEvent";

/// The `type_url` of an upgrade in progress.
pub const UPGRADE_TYPE_URL: &'static str = "type.googleapis.com/google.container.v1beta1.UpgradeEvent";

/// The part of a node pool's resource path that precedes its name.
pub const NODE_POOLS_MARKER: &'static str = "nodePools/";

// ---------------------------------------------------------------------------
// Resource type

/// The kind of resource that an upgrade concerns.
#[derive(Debug, Clone)]
pub enum ResourceType {
    /// Wire value `MASTER`.
    ControlPlane,
    /// Wire value `NODE_POOL`.
    NodePool,
    /// Any other wire value, kept verbatim.
    Unknown(String),
}

pub enum ResourceTypeView {
    ControlPlane,
    NodePool,
    Unknown(Seq<char>),
}

impl View for ResourceType {
    type V = ResourceTypeView;

    open spec fn view(&self) -> ResourceTypeView {
        match self {
            ResourceType::ControlPlane => ResourceTypeView::ControlPlane,
            ResourceType::NodePool => ResourceTypeView::NodePool,
            ResourceType::Unknown(s) => ResourceTypeView::Unknown(s@),
        }
    }
}

/// The resource type that a wire value names.
pub open spec fn resource_type_of_wire(s: Seq<char>) -> ResourceTypeView {
    if s == "MASTER"@ {
        ResourceTypeView::ControlPlane
    } else if s == "NODE_POOL"@ {
        ResourceTypeView::NodePool
    } else {
        ResourceTypeView::Unknown(s)
    }
}

/// The resource type of an event that names none.
pub open spec fn unspecified_resource_type() -> ResourceTypeView {
    ResourceTypeView::Unknown("UPGRADE_RESOURCE_TYPE_UNSPECIFIED"@)
}

impl ResourceType {
    /// The resource type that the wire value `s` names.
    pub fn from_wire(s: &str) -> (r: ResourceType)
        ensures
            r@ == resource_type_of_wire(s@),
    {
        if same_text(s, "MASTER") {
            ResourceType::ControlPlane
        } else if same_text(s, "NODE_POOL") {
            ResourceType::NodePool
        } else {
            ResourceType::Unknown(String::from_str(s))
        }
    }
}

impl Default for ResourceType {
    fn default() -> (r: ResourceType)
        ensures
            r@ == unspecified_resource_type(),
    {
        ResourceType::Unknown(String::from_str("UPGRADE_RESOURCE_TYPE_UNSPECIFIED"))
    }
}

// ---------------------------------------------------------------------------
// Release channel

/// The release channel that a cluster is subscribed to.
#[derive(Debug, Clone, Copy, PartialEq, Eq, Structural)]
pub enum ReleaseChannel {
    Unspecified,
    Rapid,
    Regular,
    Stable,
}

/// The release channel that `name` names; unknown names give `Unspecified`.
pub open spec fn channel_of_name(name: Seq<char>) -> ReleaseChannel {
    if name == "RAPID"@ {
        ReleaseChannel::Rapid
    } else if name == "REGULAR"@ {
        ReleaseChannel::Regular
    } else if name == "STABLE"@ {
        ReleaseChannel::Stable
    } else {
        ReleaseChannel::Unspecified
    }
}

/// The name of a release channel.
pub open spec fn channel_name(c: ReleaseChannel) -> Seq<char> {
    match c {
        ReleaseChannel::Unspecified => "UNSPECIFIED"@,
        ReleaseChannel::Rapid => "RAPID"@,
        ReleaseChannel::Regular => "REGULAR"@,
        ReleaseChannel::Stable => "STABLE"@,
    }
}

impl ReleaseChannel {
    /// The release channel that `name` names.
    pub fn from_name(name: &str) -> (r: ReleaseChannel)
        ensures
            r == channel_of_name(name@),
    {
        if same_text(name, "RAPID") {
            ReleaseChannel::Rapid
        } else if same_text(name, "REGULAR") {
            ReleaseChannel::Regular
        } else if same_text(name, "STABLE") {
            ReleaseChannel::Stable
        } else {
            ReleaseChannel::Unspecified
        }
    }

    /// The channel's name, as the wire format writes it.
    pub fn name(&self) -> (r: &'static str)
        ensures
            r@ == channel_name(*self),
    {
        match self {
            ReleaseChannel::Unspecified => "UNSPECIFIED",
            ReleaseChannel::Rapid => "RAPID",
            ReleaseChannel::Regular => "REGULAR",
            ReleaseChannel::Stable => "STABLE",
        }
    }
}

impl Default for ReleaseChannel {
    fn default() -> (r: ReleaseChannel)
        ensures
            r == ReleaseChannel::Unspecified,
    {
        ReleaseChannel::Unspecified
    }
}

// ---------------------------------------------------------------------------
// Security bulletin

/// Sent when a security bulletin has been posted that a cluster is
/// vulnerable to.
#[derive(Debug, Clone)]
pub struct SecurityBulletinEvent {
    /// The minor versions affected by the vulnerability.
    pub affected_supported_minors: Vec<String>,
    /// A brief description of the bulletin.
    pub brief_description: String,
    /// The ID of the bulletin.
    pub bulletin_id: String,
    /// A link to the bulletin.
    pub bulletin_uri: String,
    /// The CVEs associated with the bulletin.
    pub cve_ids: Vec<String>,
    /// Whether the user must take manual steps to make the cluster safe.
    pub manual_steps_required: bool,
    /// The versions in which the vulnerability is patched.
    pub patched_versions: Vec<String>,
    /// The resource type that has the vulnerability.
    pub resource_type_affected: String,
    /// The severity of the bulletin.
    pub severity: String,
    /// The patched version that the cluster should most likely upgrade to.
    pub suggested_upgrade_target: String,
}

pub struct SecurityBulletinView {
    pub affected_supported_minors: Seq<Seq<char>>,
    pub brief_description: Seq<char>,
    pub bulletin_id: Seq<char>,
    pub bulletin_uri: Seq<char>,
    pub cve_ids: Seq<Seq<char>>,
    pub manual_steps_required: bool,
    pub patched_versions: Seq<Seq<char>>,
    pub resource_type_affected: Seq<char>,
    pub severity: Seq<char>,
    pub suggested_upgrade_target: Seq<char>,
}

impl View for SecurityBulletinEvent {
    type V = SecurityBulletinView;

    open spec fn view(&self) -> SecurityBulletinView {
        SecurityBulletinView {
            affected_supported_minors: self.affected_supported_minors.deep_view(),
            brief_description: self.brief_description@,
            bulletin_id: self.bulletin_id@,
            bulletin_uri: self.bulletin_uri@,
            cve_ids: self.cve_ids.deep_view(),
            manual_steps_required: self.manual_steps_required,
            patched_versions: self.patched_versions.deep_view(),
            resource_type_affected: self.resource_type_affected@,
            severity: self.severity@,
            suggested_upgrade_target: self.suggested_upgrade_target@,
        }
    }
}

/// A readable label for an affected resource type `raw`, given its
/// lowercase form `lowered`.
pub open spec fn affected_label_of(raw: Seq<char>, lowered: Seq<char>) -> Seq<char> {
    if raw == "RESOURCE_TYPE_CONTROLPLANE"@ {
        "Control Plane"@
    } else if raw == "RESOURCE_TYPE_NODE"@ {
        "Node"@
    } else {
        strip_prefixes(lowered, "resource_type_"@)
    }
}

/// A readable label for the affected resource type `raw`.
pub open spec fn affected_label(raw: Seq<char>) -> Seq<char> {
    affected_label_of(raw, lowercase_of(raw))
}

/// "Yes" or "No".
pub open spec fn yes_no(b: bool) -> Seq<char> {
    if b {
        "Yes"@
    } else {
        "No"@
    }
}

/// A readable label for the affected resource type `raw`, where `lowered`
/// is its lowercase form.
pub fn affected_label_from(raw: &str, lowered: &str) -> (r: String)
    ensures
        r@ == affected_label_of(raw@, lowered@),
{
    if same_text(raw, "RESOURCE_TYPE_CONTROLPLANE") {
        String::from_str("Control Plane")
    } else if same_text(raw, "RESOURCE_TYPE_NODE") {
        String::from_str("Node")
    } else {
        strip_leading(lowered, "resource_type_")
    }
}

impl SecurityBulletinEvent {
    /// A readable label for the affected resource type.
    pub fn resource_type_affected(&self) -> (r: String)
        ensures
            r@ == affected_label(self.resource_type_affected@),
    {
        let lowered = to_lowercase(self.resource_type_affected.as_str());
        affected_label_from(self.resource_type_affected.as_str(), lowered.as_str())
    }

    /// "Yes" when manual steps are required, else "No".
    pub fn manual_steps_required(&self) -> (r: &'static str)
        ensures
            r@ == yes_no(self.manual_steps_required),
    {
        if self.manual_steps_required {
            "Yes"
        } else {
            "No"
        }
    }
}

// ---------------------------------------------------------------------------
// Upgrade events

/// The name of the node pool in a resource path: what follows the first
/// `nodePools/`.
pub open spec fn node_pool_of(resource: Option<Seq<char>>) -> Option<Seq<char>> {
    match resource {
        Some(r) => text_after_spec(r, NODE_POOLS_MARKER@),
        None => None,
    }
}

fn node_pool_in(resource: &Option<String>) -> (r: Option<String>)
    ensures
        r.deep_view() == node_pool_of(resource.deep_view()),
{
    match resource {
        Some(path) => text_after(path.as_str(), NODE_POOLS_MARKER),
        None => None,
    }
}

/// Sent when a new version is released.
#[derive(Debug, Clone)]
pub struct UpgradeAvailableEvent {
    /// The release channel of the version.
    pub release_channel: ReleaseChannel,
    /// Relative path to the resource, such as a node pool.
    pub resource: Option<String>,
    /// The resource type of the release version.
    pub resource_type: ResourceType,
    /// The version available for upgrade.
    pub version: String,
}

pub struct UpgradeAvailableView {
    pub release_channel: ReleaseChannel,
    pub resource: Option<Seq<char>>,
    pub resource_type: ResourceTypeView,
    pub version: Seq<char>,
}

impl View for UpgradeAvailableEvent {
    type V = UpgradeAvailableView;

    open spec fn view(&self) -> UpgradeAvailableView {
        UpgradeAvailableView {
            release_channel: self.release_channel,
            resource: self.resource.deep_view(),
            resource_type: self.resource_type@,
            version: self.version@,
        }
    }
}

impl UpgradeAvailableEvent {
    /// The name of the node pool that the resource path names.
    pub fn node_pool_name(&self) -> (r: Option<String>)
        ensures
            r.deep_view() == node_pool_of(self@.resource),
    {
        node_pool_in(&self.resource)
    }
}

/// Sent when a resource is upgrading.
#[derive(Debug, Clone)]
pub struct UpgradeEvent {
    /// The version before the upgrade.
    pub current_version: String,
    /// The operation that performs the upgrade.
    pub operation: String,
    /// When the operation started.
    pub operation_start_time: String,
    /// Relative path to the resource, such as a node pool.
    pub resource: Option<String>,
    /// The resource type that is upgrading.
    pub resource_type: ResourceType,
    /// The version after the upgrade.
    pub target_version: String,
}

pub struct UpgradeView {
    pub current_version: Seq<char>,
    pub operation: Seq<char>,
    pub operation_start_time: Seq<char>,
    pub resource: Option<Seq<char>>,
    pub resource_type: ResourceTypeView,
    pub target_version: Seq<char>,
}

impl View for UpgradeEvent {
    type V = UpgradeView;

    open spec fn view(&self) -> UpgradeView {
        UpgradeView {
            current_version: self.current_version@,
            operation: self.operation@,
            operation_start_time: self.operation_start_time@,
            resource: self.resource.deep_view(),
            resource_type: self.resource_type@,
            target_version: self.target_version@,
        }
    }
}

impl UpgradeEvent {
    /// The name of the node pool that the resource path names.
    pub fn node_pool_name(&self) -> (r: Option<String>)
        ensures
            r.deep_view() == node_pool_of(self@.resource),
    {
        node_pool_in(&self.resource)
    }
}

// ---------------------------------------------------------------------------
// Payload

/// The event that a notification carries.
#[derive(Debug, Clone)]
pub enum Payload {
    SecurityBulletinEvent(SecurityBulletinEvent),
    UpgradeAvailableEvent(UpgradeAvailableEvent),
    UpgradeEvent(UpgradeEvent),
    /// The verbatim payload of an event whose type is not known.
    UnknownType(String),
    /// No payload was present.
    Empty,
}

pub enum PayloadView {
    SecurityBulletinEvent(SecurityBulletinView),
    UpgradeAvailableEvent(UpgradeAvailableView),
    UpgradeEvent(UpgradeView),
    UnknownType(Seq<char>),
    Empty,
}

impl View for Payload {
    type V = PayloadView;

    open spec fn view(&self) -> PayloadView {
        match self {
            Payload::SecurityBulletinEvent(e) => PayloadView::SecurityBulletinEvent(e@),
            Payload::UpgradeAvailableEvent(e) => PayloadView::UpgradeAvailableEvent(e@),
            Payload::UpgradeEvent(e) => PayloadView::UpgradeEvent(e@),
            Payload::UnknownType(s) => PayloadView::UnknownType(s@),
            Payload::Empty => PayloadView::Empty,
        }
    }
}

/// The name of a payload's kind.
pub open spec fn payload_kind_name(p: PayloadView) -> Seq<char> {
    match p {
        PayloadView::SecurityBulletinEvent(_) => "SecurityBulletinEvent"@,
        PayloadView::UpgradeAvailableEvent(_) => "UpgradeAvailableEvent"@,
        PayloadView::UpgradeEvent(_) => "UpgradeEvent"@,
        PayloadView::UnknownType(_) => "UnknownType"@,
        PayloadView::Empty => "Empty"@,
    }
}

impl Payload {
    /// The available upgrade that the payload carries, if it carries one.
    pub fn as_upgrade_available_event(&self) -> (r: Option<&UpgradeAvailableEvent>)
        ensures
            match self@ {
                PayloadView::UpgradeAvailableEvent(e) => r matches Some(x) && x@ == e,
                _ => r is None,
            },
    {
        match self {
            Payload::UpgradeAvailableEvent(e) => Some(e),
            _ => None,
        }
    }

    /// The name of the payload's kind.
    pub fn kind_name(&self) -> (r: &'static str)
        ensures
            r@ == payload_kind_name(self@),
    {
        match self {
            Payload::SecurityBulletinEvent(_) => "SecurityBulletinEvent",
            Payload::UpgradeAvailableEvent(_) => "UpgradeAvailableEvent",
            Payload::UpgradeEvent(_) => "UpgradeEvent",
            Payload::UnknownType(_) => "UnknownType",
            Payload::Empty => "Empty",
        }
    }
}

impl Default for Payload {
    fn default() -> (r: Payload)
        ensures
            r@ == PayloadView::Empty,
    {
        Payload::Empty
    }
}

// ---------------------------------------------------------------------------
// Decoding

/// The members of the JSON object that `text` holds.
pub open spec fn object_members(text: Seq<char>) -> Option<Seq<(Seq<char>, Seq<char>)>> {
    match json_parsed(text) {
        Some(JsonShape::Object(m)) => Some(m),
        _ => None,
    }
}

/// A release-channel member of a schema: `Unspecified` when missing,
/// otherwise an object whose `channel` names the channel (`None` when the
/// member is not an object).
pub open spec fn schema_channel(m: Seq<(Seq<char>, Seq<char>)>, key: Seq<char>) -> Option<ReleaseChannel> {
    match member_text(m, key) {
        Some(t) => match object_members(t) {
            Some(inner) => Some(channel_of_name(lenient_text(inner, "channel"@))),
            None => None,
        },
        None => Some(ReleaseChannel::Unspecified),
    }
}

/// A resource-type member of a schema: the unspecified type when missing,
/// otherwise a string naming the type (`None` when it is not a string).
pub open spec fn schema_resource_type(m: Seq<(Seq<char>, Seq<char>)>, key: Seq<char>) -> Option<ResourceTypeView> {
    match member_text(m, key) {
        Some(t) => match string_in(t) {
            Some(s) => Some(resource_type_of_wire(s)),
            None => None,
        },
        None => Some(unspecified_resource_type()),
    }
}

/// The security bulletin that the members of an object describe; `None`
/// when a member holds a value of the wrong kind.
pub open spec fn bulletin_from_members(m: Seq<(Seq<char>, Seq<char>)>) -> Option<SecurityBulletinView> {
    let minors = schema_text_list(m, "affectedSupportedMinors"@);
    let brief = schema_text(m, "briefDescription"@);
    let id = schema_text(m, "bulletinId"@);
    let uri = schema_text(m, "bulletinUri"@);
    let cves = schema_text_list(m, "cveIds"@);
    let manual = schema_bool(m, "manualStepsRequired"@);
    let patched = schema_text_list(m, "patchedVersions"@);
    let affected = schema_text(m, "resourceTypeAffected"@);
    let severity = schema_text(m, "severity"@);
    let target = schema_text(m, "suggestedUpgradeTarget"@);
    if minors.is_some() && brief.is_some() && id.is_some() && uri.is_some() && cves.is_some()
        && manual.is_some() && patched.is_some() && affected.is_some() && severity.is_some()
        && target.is_some() {
        Some(SecurityBulletinView {
            affected_supported_minors: minors.unwrap(),
            brief_description: brief.unwrap(),
            bulletin_id: id.unwrap(),
            bulletin_uri: uri.unwrap(),
            cve_ids: cves.unwrap(),
            manual_steps_required: manual.unwrap(),
            patched_versions: patched.unwrap(),
            resource_type_affected: affected.unwrap(),
            severity: severity.unwrap(),
            suggested_upgrade_target: target.unwrap(),
        })
    } else {
        None
    }
}

/// The available upgrade that the members of an object describe.
pub open spec fn upgrade_available_from_members(m: Seq<(Seq<char>, Seq<char>)>) -> Option<UpgradeAvailableView> {
    let channel = schema_channel(m, "releaseChannel"@);
    let resource = schema_optional_text(m, "resource"@);
    let resource_type = schema_resource_type(m, "resourceType"@);
    let version = schema_text(m, "version"@);
    if channel.is_some() && resource.is_some() && resource_type.is_some() && version.is_some() {
        Some(UpgradeAvailableView {
            release_channel: channel.unwrap(),
            resource: resource.unwrap(),
            resource_type: resource_type.unwrap(),
            version: version.unwrap(),
        })
    } else {
        None
    }
}

/// The upgrade that the members of an object describe.
pub open spec fn upgrade_from_members(m: Seq<(Seq<char>, Seq<char>)>) -> Option<UpgradeView> {
    let current = schema_text(m, "currentVersion"@);
    let operation = schema_text(m, "operation"@);
    let start = schema_text(m, "operationStartTime"@);
    let resource = schema_optional_text(m, "resource"@);
    let resource_type = schema_resource_type(m, "resourceType"@);
    let target = schema_text(m, "targetVersion"@);
    if current.is_some() && operation.is_some() && start.is_some() && resource.is_some()
        && resource_type.is_some() && target.is_some() {
        Some(UpgradeView {
            current_version: current.unwrap(),
            operation: operation.unwrap(),
            operation_start_time: start.unwrap(),
            resource: resource.unwrap(),
            resource_type: resource_type.unwrap(),
            target_version: target.unwrap(),
        })
    } else {
        None
    }
}

/// The payload that `type_url` and the embedded JSON text `payload`
/// decode to; `None` when the type is known and the text does not fit its
/// schema.
pub open spec fn payload_decoded(type_url: Seq<char>, payload: Seq<char>) -> Option<PayloadView> {
    if type_url == SECURITY_BULLETIN_TYPE_URL@ {
        match object_members(payload) {
            Some(m) => match bulletin_from_members(m) {
                Some(e) => Some(PayloadView::SecurityBulletinEvent(e)),
                None => None,
            },
            None => None,
        }
    } else if type_url == UPGRADE_AVAILABLE_TYPE_URL@ {
        match object_members(payload) {
            Some(m) => match upgrade_available_from_members(m) {
                Some(e) => Some(PayloadView::UpgradeAvailableEvent(e)),
                None => None,
            },
            None => None,
        }
    } else if type_url == UPGRADE_TYPE_URL@ {
        match object_members(payload) {
            Some(m) => match upgrade_from_members(m) {
                Some(e) => Some(PayloadView::UpgradeEvent(e)),
                None => None,
            },
            None => None,
        }
    } else if payload.len() == 0 {
        Some(PayloadView::Empty)
    } else {
        Some(PayloadView::UnknownType(payload))
    }
}

/// The members of the JSON object that `text` holds.
pub fn read_object(text: &str) -> (r: Option<Vec<(String, String)>>)
    ensures
        r.deep_view() == object_members(text@),
{
    match parse_json(text) {
        Some(JsonValue::Object(m)) => Some(m),
        _ => None,
    }
}

fn read_schema_channel(m: &Vec<(String, String)>, key: &str) -> (r: Option<ReleaseChannel>)
    ensures
        r == schema_channel(m.deep_view(), key@),
{
    match find_member(m, key) {
        Some(t) => match read_object(t.as_str()) {
            Some(inner) => {
                let name = read_lenient_text(&inner, "channel");
                Some(ReleaseChannel::from_name(name.as_str()))
            },
            None => None,
        },
        None => Some(ReleaseChannel::Unspecified),
    }
}

fn read_schema_resource_type(m: &Vec<(String, String)>, key: &str) -> (r: Option<ResourceType>)
    ensures
        option_view(r) == schema_resource_type(m.deep_view(), key@),
{
    match find_member(m, key) {
        Some(t) => match read_string(t.as_str()) {
            Some(s) => Some(ResourceType::from_wire(s.as_str())),
            None => None,
        },
        None => Some(ResourceType::default()),
    }
}

impl SecurityBulletinEvent {
    /// The security bulletin that the members of a JSON object describe.
    pub fn from_members(m: &Vec<(String, String)>) -> (r: Option<SecurityBulletinEvent>)
        ensures
            option_view(r) == bulletin_from_members(m.deep_view()),
    {
        let affected_supported_minors = match read_schema_text_list(m, "affectedSupportedMinors") {
            Some(v) => v,
            None => return None,
        };
        let brief_description = match read_schema_text(m, "briefDescription") {
            Some(v) => v,
            None => return None,
        };
        let bulletin_id = match read_schema_text(m, "bulletinId") {
            Some(v) => v,
            None => return None,
        };
        let bulletin_uri = match read_schema_text(m, "bulletinUri") {
            Some(v) => v,
            None => return None,
        };
        let cve_ids = match read_schema_text_list(m, "cveIds") {
            Some(v) => v,
            None => return None,
        };
        let manual_steps_required = match read_schema_bool(m, "manualStepsRequired") {
            Some(v) => v,
            None => return None,
        };
        let patched_versions = match read_schema_text_list(m, "patchedVersions") {
            Some(v) => v,
            None => return None,
        };
        let resource_type_affected = match read_schema_text(m, "resourceTypeAffected") {
            Some(v) => v,
            None => return None,
        };
        let severity = match read_schema_text(m, "severity") {
            Some(v) => v,
            None => return None,
        };
        let suggested_upgrade_target = match read_schema_text(m, "suggestedUpgradeTarget") {
            Some(v) => v,
            None => return None,
        };
        Some(SecurityBulletinEvent {
            affected_supported_minors,
            brief_description,
            bulletin_id,
            bulletin_uri,
            cve_ids,
            manual_steps_required,
            patched_versions,
            resource_type_affected,
            severity,
            suggested_upgrade_target,
        })
    }
}

impl UpgradeAvailableEvent {
    /// The available upgrade that the members of a JSON object describe.
    pub fn from_members(m: &Vec<(String, String)>) -> (r: Option<UpgradeAvailableEvent>)
        ensures
            option_view(r) == upgrade_available_from_members(m.deep_view()),
    {
        let release_channel = match read_schema_channel(m, "releaseChannel") {
            Some(v) => v,
            None => return None,
        };
        let resource = match read_schema_optional_text(m, "resource") {
            Some(v) => v,
            None => return None,
        };
        let resource_type = match read_schema_resource_type(m, "resourceType") {
            Some(v) => v,
            None => return None,
        };
        let version = match read_schema_text(m, "version") {
            Some(v) => v,
            None => return None,
        };
        Some(UpgradeAvailableEvent { release_channel, resource, resource_type, version })
    }
}

impl UpgradeEvent {
    /// The upgrade that the members of a JSON object describe.
    pub fn from_members(m: &Vec<(String, String)>) -> (r: Option<UpgradeEvent>)
        ensures
            option_view(r) == upgrade_from_members(m.deep_view()),
    {
        let current_version = match read_schema_text(m, "currentVersion") {
            Some(v) => v,
            None => return None,
        };
        let operation = match read_schema_text(m, "operation") {
            Some(v) => v,
            None => return None,
        };
        let operation_start_time = match read_schema_text(m, "operationStartTime") {
            Some(v) => v,
            None => return None,
        };
        let resource = match read_schema_optional_text(m, "resource") {
            Some(v) => v,
            None => return None,
        };
        let resource_type = match read_schema_resource_type(m, "resourceType") {
            Some(v) => v,
            None => return None,
        };
        let target_version = match read_schema_text(m, "targetVersion") {
            Some(v) => v,
            None => return None,
        };
        Some(UpgradeEvent {
            current_version,
            operation,
            operation_start_time,
            resource,
            resource_type,
            target_version,
        })
    }
}

impl Payload {
    /// The payload selected by `type_url`, decoded from the embedded JSON
    /// text `payload`. A known type whose text does not fit its schema gives
    /// `None`; an unknown type gives `UnknownType` with the text verbatim, or
    /// `Empty` when the text is empty.
    pub fn decode(type_url: &str, payload: String) -> (r: Option<Payload>)
        ensures
            option_view(r) == payload_decoded(type_url@, payload@),
    {
        if same_text(type_url, SECURITY_BULLETIN_TYPE_URL) {
            match read_object(payload.as_str()) {
                Some(m) => match SecurityBulletinEvent::from_members(&m) {
                    Some(e) => Some(Payload::SecurityBulletinEvent(e)),
                    None => None,
                },
                None => None,
            }
        } else if same_text(type_url, UPGRADE_AVAILABLE_TYPE_URL) {
            match read_object(payload.as_str()) {
                Some(m) => match UpgradeAvailableEvent::from_members(&m) {
                    Some(e) => Some(Payload::UpgradeAvailableEvent(e)),
                    None => None,
                },
                None => None,
            }
        } else if same_text(type_url, UPGRADE_TYPE_URL) {
            match read_object(payload.as_str()) {
                Some(m) => match UpgradeEvent::from_members(&m) {
                    Some(e) => Some(Payload::UpgradeEvent(e)),
                    None => None,
                },
                None => None,
            }
        } else if payload.as_str().is_empty() {
            Some(Payload::Empty)
        } else {
            Some(Payload::UnknownType(payload))
        }
    }
}

// ---------------------------------------------------------------------------
// Defaults and the decoding laws

/// A bulletin with every field at its default.
pub open spec fn default_bulletin() -> SecurityBulletinView {
    SecurityBulletinView {
        affected_supported_minors: Seq::empty(),
        brief_description: Seq::empty(),
        bulletin_id: Seq::empty(),
        bulletin_uri: Seq::empty(),
        cve_ids: Seq::empty(),
        manual_steps_required: false,
        patched_versions: Seq::empty(),
        resource_type_affected: Seq::empty(),
        severity: Seq::empty(),
        suggested_upgrade_target: Seq::empty(),
    }
}

/// An available upgrade with every field at its default.
pub open spec fn default_upgrade_available() -> UpgradeAvailableView {
    UpgradeAvailableView {
        release_channel: ReleaseChannel::Unspecified,
        resource: None,
        resource_type: unspecified_resource_type(),
        version: Seq::empty(),
    }
}

/// An upgrade with every field at its default.
pub open spec fn default_upgrade() -> UpgradeView {
    UpgradeView {
        current_version: Seq::empty(),
        operation: Seq::empty(),
        operation_start_time: Seq::empty(),
        resource: None,
        resource_type: unspecified_resource_type(),
        target_version: Seq::empty(),
    }
}

impl Default for SecurityBulletinEvent {
    fn default() -> (r: SecurityBulletinEvent)
        ensures
            r@ == default_bulletin(),
    {
        let r = SecurityBulletinEvent {
            affected_supported_minors: Vec::new(),
            brief_description: String::new(),
            bulletin_id: String::new(),
            bulletin_uri: String::new(),
            cve_ids: Vec::new(),
            manual_steps_required: false,
            patched_versions: Vec::new(),
            resource_type_affected: String::new(),
            severity: String::new(),
            suggested_upgrade_target: String::new(),
        };
        assert(r.affected_supported_minors.deep_view() =~= Seq::<Seq<char>>::empty());
        assert(r.cve_ids.deep_view() =~= Seq::<Seq<char>>::empty());
        assert(r.patched_versions.deep_view() =~= Seq::<Seq<char>>::empty());
        r
    }
}

impl Default for UpgradeAvailableEvent {
    fn default() -> (r: UpgradeAvailableEvent)
        ensures
            r@ == default_upgrade_available(),
    {
        UpgradeAvailableEvent {
            release_channel: ReleaseChannel::Unspecified,
            resource: None,
            resource_type: ResourceType::default(),
            version: String::new(),
        }
    }
}

impl Default for UpgradeEvent {
    fn default() -> (r: UpgradeEvent)
        ensures
            r@ == default_upgrade(),
    {
        UpgradeEvent {
            current_version: String::new(),
            operation: String::new(),
            operation_start_time: String::new(),
            resource: None,
            resource_type: ResourceType::default(),
            target_version: String::new(),
        }
    }
}

/// The member `key`, if present, holds a string.
pub open spec fn holds_string(m: Seq<(Seq<char>, Seq<char>)>, key: Seq<char>) -> bool {
    member_text(m, key) matches Some(t) ==> string_in(t) is Some
}

/// The member `key`, if present, holds an array of strings.
pub open spec fn holds_strings(m: Seq<(Seq<char>, Seq<char>)>, key: Seq<char>) -> bool {
    member_text(m, key) matches Some(t) ==> (json_parsed(t) matches Some(JsonShape::Array(items))
        && strings_in(items) is Some)
}

/// The member `key`, if present, holds a boolean.
pub open spec fn holds_bool(m: Seq<(Seq<char>, Seq<char>)>, key: Seq<char>) -> bool {
    member_text(m, key) matches Some(t) ==> json_parsed(t) matches Some(JsonShape::Bool(_))
}

/// The member `key`, if present, holds a string or `null`.
pub open spec fn holds_optional_string(m: Seq<(Seq<char>, Seq<char>)>, key: Seq<char>) -> bool {
    member_text(m, key) matches Some(t) ==> (json_parsed(t) matches Some(JsonShape::Text(_))
        || json_parsed(t) matches Some(JsonShape::Null))
}

/// The member `key`, if present, holds an object.
pub open spec fn holds_object(m: Seq<(Seq<char>, Seq<char>)>, key: Seq<char>) -> bool {
    member_text(m, key) matches Some(t) ==> object_members(t) is Some
}

/// Every member that the bulletin schema names holds a value of its
/// declared kind.
pub open spec fn fits_bulletin_schema(m: Seq<(Seq<char>, Seq<char>)>) -> bool {
    &&& holds_strings(m, "affectedSupportedMinors"@)
    &&& holds_string(m, "briefDescription"@)
    &&& holds_string(m, "bulletinId"@)
    &&& holds_string(m, "bulletinUri"@)
    &&& holds_strings(m, "cveIds"@)
    &&& holds_bool(m, "manualStepsRequired"@)
    &&& holds_strings(m, "patchedVersions"@)
    &&& holds_string(m, "resourceTypeAffected"@)
    &&& holds_string(m, "severity"@)
    &&& holds_string(m, "suggestedUpgradeTarget"@)
}

/// Every member that the available-upgrade schema names holds a value of
/// its declared kind.
pub open spec fn fits_upgrade_available_schema(m: Seq<(Seq<char>, Seq<char>)>) -> bool {
    &&& holds_object(m, "releaseChannel"@)
    &&& holds_optional_string(m, "resource"@)
    &&& holds_string(m, "resourceType"@)
    &&& holds_string(m, "version"@)
}

/// Every member that the upgrade schema names holds a value of its
/// declared kind.
pub open spec fn fits_upgrade_schema(m: Seq<(Seq<char>, Seq<char>)>) -> bool {
    &&& holds_string(m, "currentVersion"@)
    &&& holds_string(m, "operation"@)
    &&& holds_string(m, "operationStartTime"@)
    &&& holds_optional_string(m, "resource"@)
    &&& holds_string(m, "resourceType"@)
    &&& holds_string(m, "targetVersion"@)
}

/// Each known `type_url` selects its own variant whatever the payload
/// holds: a payload whose members `m` fit the type's schema decodes to that variant with
/// every field taken from its member (or its default where the member is
/// missing), and an empty object decodes to that variant with every field at
/// its default.
pub proof fn lemma_known_types_decode(payload: Seq<char>, m: Seq<(Seq<char>, Seq<char>)>)
    ensures
        payload_decoded(SECURITY_BULLETIN_TYPE_URL@, payload) matches Some(p) ==> p is SecurityBulletinEvent,
        payload_decoded(UPGRADE_AVAILABLE_TYPE_URL@, payload) matches Some(p) ==> p is UpgradeAvailableEvent,
        payload_decoded(UPGRADE_TYPE_URL@, payload) matches Some(p) ==> p is UpgradeEvent,
        object_members(payload) == Some(m) && fits_bulletin_schema(m) ==> payload_decoded(
            SECURITY_BULLETIN_TYPE_URL@,
            payload,
        ) == Some(
            PayloadView::SecurityBulletinEvent(
                SecurityBulletinView {
                    affected_supported_minors: schema_text_list(m, "affectedSupportedMinors"@).unwrap(),
                    brief_description: schema_text(m, "briefDescription"@).unwrap(),
                    bulletin_id: schema_text(m, "bulletinId"@).unwrap(),
                    bulletin_uri: schema_text(m, "bulletinUri"@).unwrap(),
                    cve_ids: schema_text_list(m, "cveIds"@).unwrap(),
                    manual_steps_required: schema_bool(m, "manualStepsRequired"@).unwrap(),
                    patched_versions: schema_text_list(m, "patchedVersions"@).unwrap(),
                    resource_type_affected: schema_text(m, "resourceTypeAffected"@).unwrap(),
                    severity: schema_text(m, "severity"@).unwrap(),
                    suggested_upgrade_target: schema_text(m, "suggestedUpgradeTarget"@).unwrap(),
                },
            ),
        ),
        object_members(payload) == Some(m) && fits_upgrade_available_schema(m) ==> payload_decoded(
            UPGRADE_AVAILABLE_TYPE_URL@,
            payload,
        ) == Some(
            PayloadView::UpgradeAvailableEvent(
                UpgradeAvailableView {
                    release_channel: schema_channel(m, "releaseChannel"@).unwrap(),
                    resource: schema_optional_text(m, "resource"@).unwrap(),
                    resource_type: schema_resource_type(m, "resourceType"@).unwrap(),
                    version: schema_text(m, "version"@).unwrap(),
                },
            ),
        ),
        object_members(payload) == Some(m) && fits_upgrade_schema(m) ==> payload_decoded(
            UPGRADE_TYPE_URL@,
            payload,
        ) == Some(
            PayloadView::UpgradeEvent(
                UpgradeView {
                    current_version: schema_text(m, "currentVersion"@).unwrap(),
                    operation: schema_text(m, "operation"@).unwrap(),
                    operation_start_time: schema_text(m, "operationStartTime"@).unwrap(),
                    resource: schema_optional_text(m, "resource"@).unwrap(),
                    resource_type: schema_resource_type(m, "resourceType"@).unwrap(),
                    target_version: schema_text(m, "targetVersion"@).unwrap(),
                },
            ),
        ),
        object_members(payload) == Some(Seq::<(Seq<char>, Seq<char>)>::empty()) ==> payload_decoded(
            SECURITY_BULLETIN_TYPE_URL@,
            payload,
        ) == Some(PayloadView::SecurityBulletinEvent(default_bulletin())) && payload_decoded(
            UPGRADE_AVAILABLE_TYPE_URL@,
            payload,
        ) == Some(PayloadView::UpgradeAvailableEvent(default_upgrade_available()))
            && payload_decoded(UPGRADE_TYPE_URL@, payload) == Some(
            PayloadView::UpgradeEvent(default_upgrade()),
        ),
{
    proof_known_type_urls_differ();
}

/// The three known type URLs are distinct.
proof fn proof_known_type_urls_differ()
    ensures
        SECURITY_BULLETIN_TYPE_URL@ != UPGRADE_AVAILABLE_TYPE_URL@,
        SECURITY_BULLETIN_TYPE_URL@ != UPGRADE_TYPE_URL@,
        UPGRADE_AVAILABLE_TYPE_URL@ != UPGRADE_TYPE_URL@,
{
    reveal_strlit("type.googleapis.com/google.container.v1beta1.SecurityBulletinEvent");
    reveal_strlit("type.googleapis.com/google.container.v1beta1.UpgradeAvailableEvent");
    reveal_strlit("type.googleapis.com/google.container.v1beta1.UpgradeEvent");
    assert(SECURITY_BULLETIN_TYPE_URL@[45] != UPGRADE_AVAILABLE_TYPE_URL@[45]);
    assert(SECURITY_BULLETIN_TYPE_URL@[45] != UPGRADE_TYPE_URL@[45]);
    assert(UPGRADE_AVAILABLE_TYPE_URL@.len() != UPGRADE_TYPE_URL@.len());
}

} // verus!
