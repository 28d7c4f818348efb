//! Cluster and project identity around a payload, and the identifiers and
//! log line derived from them.

use vstd::prelude::*;

use crate::json::{lenient_text, read_lenient_text};
use crate::option_view;
use crate::payload::{
    channel_name, node_pool_of, payload_decoded, Payload, PayloadView, ResourceType,
    ResourceTypeView,
};
use crate::text_result_view;

verus! {

/// The identity of the cluster that a notification concerns, and its
/// payload.
#[derive(Debug, Clone)]
pub struct Attributes {
    pub project_id: String,
    /// A human-readable project name that replaces `project_id` in every
    /// derived identifier; it is never part of the message itself.
    pub project_name: Option<String>,
    pub cluster_name: String,
    pub cluster_location: String,
    /// Names the kind of the payload.
    pub type_url: String,
    pub payload: Payload,
}

pub struct AttributesView {
    pub project_id: Seq<char>,
    pub project_name: Option<Seq<char>>,
    pub cluster_name: Seq<char>,
    pub cluster_location: Seq<char>,
    pub type_url: Seq<char>,
    pub payload: PayloadView,
}

impl View for Attributes {
    type V = AttributesView;

    open spec fn view(&self) -> AttributesView {
        AttributesView {
            project_id: self.project_id@,
            project_name: self.project_name.deep_view(),
            cluster_name: self.cluster_name@,
            cluster_location: self.cluster_location@,
            type_url: self.type_url@,
            payload: self.payload@,
        }
    }
}

/// Attributes with every field empty and no payload.
pub open spec fn default_attributes() -> AttributesView {
    AttributesView {
        project_id: Seq::empty(),
        project_name: None,
        cluster_name: Seq::empty(),
        cluster_location: Seq::empty(),
        type_url: Seq::empty(),
        payload: PayloadView::Empty,
    }
}

/// `a` with the project name `name` laid over it.
pub open spec fn with_project_name_of(a: AttributesView, name: Seq<char>) -> AttributesView {
    AttributesView { project_name: Some(name), ..a }
}

/// The project name: the override if there is one, else the project ID.
pub open spec fn project_name_of(a: AttributesView) -> Seq<char> {
    match a.project_name {
        Some(n) => n,
        None => a.project_id,
    }
}

/// The resource path that an upgrade of a node pool carries, if it carries
/// a non-empty one.
pub open spec fn node_pool_resource(p: PayloadView) -> Option<Seq<char>> {
    match p {
        PayloadView::UpgradeAvailableEvent(e) => resource_of_node_pool(e.resource_type, e.resource),
        PayloadView::UpgradeEvent(e) => resource_of_node_pool(e.resource_type, e.resource),
        _ => None,
    }
}

pub open spec fn resource_of_node_pool(t: ResourceTypeView, resource: Option<Seq<char>>) -> Option<Seq<char>> {
    match (t, resource) {
        (ResourceTypeView::NodePool, Some(r)) => if r.len() > 0 {
            Some(r)
        } else {
            None
        },
        _ => None,
    }
}

/// The name of the node pool that an upgrade of a node pool names.
pub open spec fn node_pool_name_of(p: PayloadView) -> Option<Seq<char>> {
    match p {
        PayloadView::UpgradeAvailableEvent(e) => match e.resource_type {
            ResourceTypeView::NodePool => node_pool_of(e.resource),
            _ => None,
        },
        PayloadView::UpgradeEvent(e) => match e.resource_type {
            ResourceTypeView::NodePool => node_pool_of(e.resource),
            _ => None,
        },
        _ => None,
    }
}

/// The path of a cluster.
pub open spec fn cluster_path(project: Seq<char>, location: Seq<char>, cluster: Seq<char>) -> Seq<char> {
    "projects/"@ + project + "/locations/"@ + location + "/clusters/"@ + cluster
}

/// The resource URI of `a` when its project is named `project`.
pub open spec fn resource_uri_with(a: AttributesView, project: Seq<char>) -> Seq<char> {
    match node_pool_resource(a.payload) {
        Some(r) => r,
        None => cluster_path(project, a.cluster_location, a.cluster_name),
    }
}

/// The resource URI of `a`.
pub open spec fn resource_uri_of(a: AttributesView) -> Seq<char> {
    resource_uri_with(a, project_name_of(a))
}

/// The console link for `a` when its project is named `project`.
pub open spec fn resource_url_with(a: AttributesView, project: Seq<char>) -> Seq<char> {
    match node_pool_name_of(a.payload) {
        Some(pool) => "https://console.cloud.google.com/kubernetes/nodepool/"@ + a.cluster_location
            + "/"@ + a.cluster_name + "/"@ + pool + "?project="@ + project,
        None => "https://console.cloud.google.com/kubernetes/clusters/details/"@ + a.cluster_location
            + "/"@ + a.cluster_name + "?project="@ + project,
    }
}

/// The console link for `a`.
pub open spec fn resource_url_of(a: AttributesView) -> Seq<char> {
    resource_url_with(a, project_name_of(a))
}

/// Whether `p` announces a new version for a node pool.
pub open spec fn is_node_pool_offer(p: PayloadView) -> bool {
    match p {
        PayloadView::UpgradeAvailableEvent(e) => e.resource_type is NodePool,
        _ => false,
    }
}

/// The one-line summary of `a`, when its project is named `project`, or
/// why there is none.
pub open spec fn log_message_with(a: AttributesView, project: Seq<char>) -> Result<Seq<char>, Seq<char>> {
    let uri = resource_uri_with(a, project);
    match a.payload {
        PayloadView::SecurityBulletinEvent(e) => Ok(
            "Security bulletin "@ + e.bulletin_id + " affecting "@ + uri + " has been issued"@,
        ),
        PayloadView::UpgradeAvailableEvent(e) => match e.resource_type {
            ResourceTypeView::ControlPlane => Ok(
                "Control plane "@ + uri + " has new version "@ + e.version
                    + " available for upgrade in the "@ + channel_name(e.release_channel)
                    + " channel"@,
            ),
            ResourceTypeView::NodePool => Ok(
                "Node pool "@ + uri + " has new version "@ + e.version
                    + " available for upgrade in the "@ + channel_name(e.release_channel)
                    + " channel"@,
            ),
            ResourceTypeView::Unknown(t) => Ok(unknown_resource_message(t)),
        },
        PayloadView::UpgradeEvent(e) => match e.resource_type {
            ResourceTypeView::ControlPlane => Ok(
                "Control plane "@ + uri + " is upgrading from version "@ + e.current_version
                    + " to "@ + e.target_version,
            ),
            ResourceTypeView::NodePool => Ok(
                "Node pool "@ + uri + " is upgrading from "@ + e.current_version + " to "@
                    + e.target_version,
            ),
            ResourceTypeView::Unknown(t) => Ok(unknown_resource_message(t)),
        },
        PayloadView::UnknownType(_) => Err(
            "Unknown message type `"@ + a.type_url + "` encountered"@,
        ),
        PayloadView::Empty => Err(EMPTY_PAYLOAD_MESSAGE@),
    }
}

/// The one-line summary of `a`, or why there is none.
pub open spec fn log_message_of(a: AttributesView) -> Result<Seq<char>, Seq<char>> {
    log_message_with(a, project_name_of(a))
}

/// The line for an upgrade of a resource type that is not known.
pub open spec fn unknown_resource_message(t: Seq<char>) -> Seq<char> {
    "Unknown resource type `"@ + t + "` encountered"@
}

/// Why a message without a payload has no summary.
pub const EMPTY_PAYLOAD_MESSAGE: &'static str = "Empty or invalid payload";

/// The attributes that the members of a JSON object describe; `None` when
/// the payload is of a known type and does not fit its schema.
pub open spec fn attributes_from_members(m: Seq<(Seq<char>, Seq<char>)>) -> Option<AttributesView> {
    let type_url = lenient_text(m, "type_url"@);
    match payload_decoded(type_url, lenient_text(m, "payload"@)) {
        Some(p) => Some(
            AttributesView {
                project_id: lenient_text(m, "project_id"@),
                project_name: None,
                cluster_name: lenient_text(m, "cluster_name"@),
                cluster_location: lenient_text(m, "cluster_location"@),
                type_url,
                payload: p,
            },
        ),
        None => None,
    }
}

fn resource_if_node_pool(t: &ResourceType, resource: &Option<String>) -> (r: Option<String>)
    ensures
        r.deep_view() == resource_of_node_pool(t@, resource.deep_view()),
{
    match (t, resource) {
        (ResourceType::NodePool, Some(path)) => if path.as_str().is_empty() {
            None
        } else {
            Some(path.clone())
        },
        _ => None,
    }
}

fn unknown_resource_line(t: &String) -> (r: String)
    ensures
        r@ == unknown_resource_message(t@),
{
    let mut s = String::from_str("Unknown resource type `");
    s.append(t.as_str());
    s.append("` encountered");
    s
}

impl Attributes {
    /// These attributes with the project name `project_name` laid over them.
    pub fn with_project_name(self, project_name: String) -> (r: Attributes)
        ensures
            r@ == with_project_name_of(self@, project_name@),
    {
        Attributes { project_name: Some(project_name), ..self }
    }

    /// Whether there is no payload.
    pub fn is_invalid(&self) -> (r: bool)
        ensures
            r == (self@.payload is Empty),
    {
        match self.payload {
            Payload::Empty => true,
            _ => false,
        }
    }

    /// The project name: the override if there is one, else the project ID.
    pub fn project_name(&self) -> (r: String)
        ensures
            r@ == project_name_of(self@),
    {
        match &self.project_name {
            Some(n) => n.clone(),
            None => self.project_id.clone(),
        }
    }

    fn node_pool_resource(&self) -> (r: Option<String>)
        ensures
            r.deep_view() == node_pool_resource(self@.payload),
    {
        match &self.payload {
            Payload::UpgradeAvailableEvent(e) => resource_if_node_pool(&e.resource_type, &e.resource),
            Payload::UpgradeEvent(e) => resource_if_node_pool(&e.resource_type, &e.resource),
            _ => None,
        }
    }

    fn node_pool_name(&self) -> (r: Option<String>)
        ensures
            r.deep_view() == node_pool_name_of(self@.payload),
    {
        match &self.payload {
            Payload::UpgradeAvailableEvent(e) => match e.resource_type {
                ResourceType::NodePool => e.node_pool_name(),
                _ => None,
            },
            Payload::UpgradeEvent(e) => match e.resource_type {
                ResourceType::NodePool => e.node_pool_name(),
                _ => None,
            },
            _ => None,
        }
    }

    /// The path of the resource concerned: the node pool's own path for an
    /// upgrade of a node pool that carries one, else the cluster's path.
    pub fn resource_uri(&self) -> (r: String)
        ensures
            r@ == resource_uri_of(self@),
    {
        match self.node_pool_resource() {
            Some(path) => path,
            None => {
                let mut s = String::from_str("projects/");
                s.append(self.project_name().as_str());
                s.append("/locations/");
                s.append(self.cluster_location.as_str());
                s.append("/clusters/");
                s.append(self.cluster_name.as_str());
                s
            },
        }
    }

    /// A console link to the node pool concerned, or else to the cluster.
    pub fn resource_url(&self) -> (r: String)
        ensures
            r@ == resource_url_of(self@),
    {
        let project = self.project_name();
        match self.node_pool_name() {
            Some(pool) => {
                let mut s = String::from_str("https://console.cloud.google.com/kubernetes/nodepool/");
                s.append(self.cluster_location.as_str());
                s.append("/");
                s.append(self.cluster_name.as_str());
                s.append("/");
                s.append(pool.as_str());
                s.append("?project=");
                s.append(project.as_str());
                s
            },
            None => {
                let mut s = String::from_str("https://console.cloud.google.com/kubernetes/clusters/details/");
                s.append(self.cluster_location.as_str());
                s.append("/");
                s.append(self.cluster_name.as_str());
                s.append("?project=");
                s.append(project.as_str());
                s
            },
        }
    }

    /// Whether the payload announces a new version for a node pool.
    pub fn is_node_pool_upgrade_available_event(&self) -> (r: bool)
        ensures
            r == is_node_pool_offer(self@.payload),
    {
        match self.payload.as_upgrade_available_event() {
            Some(e) => match e.resource_type {
                ResourceType::NodePool => true,
                _ => false,
            },
            None => false,
        }
    }

    /// A one-line summary for the known event kinds; for an unknown type or
    /// a missing payload, the reason there is none.
    pub fn log_message(&self) -> (r: Result<String, String>)
        ensures
            text_result_view(r) == log_message_of(self@),
    {
        match &self.payload {
            Payload::SecurityBulletinEvent(e) => {
                let mut s = String::from_str("Security bulletin ");
                s.append(e.bulletin_id.as_str());
                s.append(" affecting ");
                s.append(self.resource_uri().as_str());
                s.append(" has been issued");
                Ok(s)
            },
            Payload::UpgradeAvailableEvent(e) => match &e.resource_type {
                ResourceType::ControlPlane => {
                    let mut s = String::from_str("Control plane ");
                    s.append(self.resource_uri().as_str());
                    s.append(" has new version ");
                    s.append(e.version.as_str());
                    s.append(" available for upgrade in the ");
                    s.append(e.release_channel.name());
                    s.append(" channel");
                    Ok(s)
                },
                ResourceType::NodePool => {
                    let mut s = String::from_str("Node pool ");
                    s.append(self.resource_uri().as_str());
                    s.append(" has new version ");
                    s.append(e.version.as_str());
                    s.append(" available for upgrade in the ");
                    s.append(e.release_channel.name());
                    s.append(" channel");
                    Ok(s)
                },
                ResourceType::Unknown(t) => Ok(unknown_resource_line(t)),
            },
            Payload::UpgradeEvent(e) => match &e.resource_type {
                ResourceType::ControlPlane => {
                    let mut s = String::from_str("Control plane ");
                    s.append(self.resource_uri().as_str());
                    s.append(" is upgrading from version ");
                    s.append(e.current_version.as_str());
                    s.append(" to ");
                    s.append(e.target_version.as_str());
                    Ok(s)
                },
                ResourceType::NodePool => {
                    let mut s = String::from_str("Node pool ");
                    s.append(self.resource_uri().as_str());
                    s.append(" is upgrading from ");
                    s.append(e.current_version.as_str());
                    s.append(" to ");
                    s.append(e.target_version.as_str());
                    Ok(s)
                },
                ResourceType::Unknown(t) => Ok(unknown_resource_line(t)),
            },
            Payload::UnknownType(_) => {
                let mut s = String::from_str("Unknown message type `");
                s.append(self.type_url.as_str());
                s.append("` encountered");
                Err(s)
            },
            Payload::Empty => Err(String::from_str(EMPTY_PAYLOAD_MESSAGE)),
        }
    }

    /// The attributes that the members of a JSON object describe. Members
    /// that are missing or are not strings read as empty; the payload is
    /// decoded by its `type_url` (see [`Payload::decode`]).
    pub fn from_members(m: &Vec<(String, String)>) -> (r: Option<Attributes>)
        ensures
            option_view(r) == attributes_from_members(m.deep_view()),
    {
        let type_url = read_lenient_text(m, "type_url");
        let payload_text = read_lenient_text(m, "payload");
        match Payload::decode(type_url.as_str(), payload_text) {
            Some(payload) => Some(
                Attributes {
                    project_id: read_lenient_text(m, "project_id"),
                    project_name: None,
                    cluster_name: read_lenient_text(m, "cluster_name"),
                    cluster_location: read_lenient_text(m, "cluster_location"),
                    type_url,
                    payload,
                },
            ),
            None => None,
        }
    }
}

impl Default for Attributes {
    fn default() -> (r: Attributes)
        ensures
            r@ == default_attributes(),
    {
        Attributes {
            project_id: String::new(),
            project_name: None,
            cluster_name: String::new(),
            cluster_location: String::new(),
            type_url: String::new(),
            payload: Payload::Empty,
        }
    }
}

/// Laying a project name over attributes changes the project name alone;
/// every identifier derived from the project name then uses the override in
/// place of the project ID, and nothing else in it changes.
pub proof fn lemma_project_name_overlay(a: AttributesView, name: Seq<char>)
    ensures
        with_project_name_of(a, name).project_id == a.project_id,
        with_project_name_of(a, name).cluster_name == a.cluster_name,
        with_project_name_of(a, name).cluster_location == a.cluster_location,
        with_project_name_of(a, name).type_url == a.type_url,
        with_project_name_of(a, name).payload == a.payload,
        project_name_of(with_project_name_of(a, name)) == name,
        resource_uri_of(with_project_name_of(a, name)) == resource_uri_with(a, name),
        resource_url_of(with_project_name_of(a, name)) == resource_url_with(a, name),
        log_message_of(with_project_name_of(a, name)) == log_message_with(a, name),
        a.project_name is None ==> project_name_of(a) == a.project_id,
{
}

/// Whether `p` is an upgrade of a node pool whose resource path is `path`.
pub open spec fn names_node_pool_path(p: PayloadView, path: Seq<char>) -> bool {
    match p {
        PayloadView::UpgradeAvailableEvent(e) => e.resource_type is NodePool && e.resource == Some(path),
        PayloadView::UpgradeEvent(e) => e.resource_type is NodePool && e.resource == Some(path),
        _ => false,
    }
}

/// The resource URI of an upgrade of a node pool that carries a non-empty
/// resource path is that path verbatim; in every other case it is the
/// cluster's path, built from the project name.
pub proof fn lemma_resource_uri_choice(a: AttributesView)
    ensures
        forall|path: Seq<char>|
            path.len() > 0 && #[trigger] names_node_pool_path(a.payload, path) ==> resource_uri_of(a)
                == path,
        (forall|path: Seq<char>|
            path.len() > 0 ==> !#[trigger] names_node_pool_path(a.payload, path)) ==> resource_uri_of(a)
            == cluster_path(project_name_of(a), a.cluster_location, a.cluster_name),
{
    match node_pool_resource(a.payload) {
        Some(r) => {
            assert(names_node_pool_path(a.payload, r));
        },
        None => {},
    }
}

} // verus!
