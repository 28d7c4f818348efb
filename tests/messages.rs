use cluster_notifications::attributes::Attributes;
use cluster_notifications::handling::handle;
use cluster_notifications::message::{DecodeError, Message, PubSubMessage};
use cluster_notifications::payload::{
    Payload, ReleaseChannel, ResourceType, SecurityBulletinEvent, UpgradeAvailableEvent,
    UpgradeEvent,
};
use cluster_notifications::slack::{Block, WebhookMessage};

const UPGRADE_TYPE: &str = "type.googleapis.com/google.container.v1beta1.UpgradeEvent";
const UPGRADE_AVAILABLE_TYPE: &str =
    "type.googleapis.com/google.container.v1beta1.UpgradeAvailableEvent";
const BULLETIN_TYPE: &str = "type.googleapis.com/google.container.v1beta1.SecurityBulletinEvent";

const CONTROL_PLANE_UPGRADE: &str = r#"{"attributes":{"project_id":"0123456789","cluster_name":"test-cluster","cluster_location":"us-central1","type_url":"type.googleapis.com/google.container.v1beta1.UpgradeEvent","payload":"{\"currentVersion\":\"1.22.4-gke.1501\",\"resourceType\":\"MASTER\",\"targetVersion\":\"1.22.6-gke.300\"}"},"message_id":"x","publish_time":"y","data":"TWFzdGVyIGlzIHVwZ3JhZGluZy4="}"#;

/// A message envelope whose attributes carry `payload` (a JSON text) under
/// `type_url`, for cluster `c` at location `l` in project `p`.
fn envelope(type_url: &str, payload: &str, data: &str) -> String {
    let payload_literal = serde_json::to_string(payload).unwrap();
    format!(
        r#"{{"attributes":{{"project_id":"p","cluster_name":"c","cluster_location":"l","type_url":"{type_url}","payload":{payload_literal}}},"message_id":"1","publish_time":"2022-01-01T00:00:00Z","data":"{data}"}}"#
    )
}

fn node_pool_offer() -> Message {
    let payload = r#"{"releaseChannel":{"channel":"REGULAR"},"resource":"projects/p/locations/l/clusters/c/nodePools/pool-1","resourceType":"NODE_POOL","version":"1.23.5-gke.100"}"#;
    Message::from_json(&envelope(UPGRADE_AVAILABLE_TYPE, payload, "aGVsbG8gd29ybGQ=")).unwrap()
}

fn bulletin() -> Message {
    let payload = r#"{"affectedSupportedMinors":["1.20","1.21"],"briefDescription":"A vulnerability was found.","bulletinId":"GCP-2022-001","bulletinUri":"https://cloud.google.com/anthos/clusters/docs/security-bulletins#gcp-2022-001","cveIds":["CVE-2021-4154"],"manualStepsRequired":true,"patchedVersions":["1.20.15-gke.300","1.21.9-gke.300"],"resourceTypeAffected":"RESOURCE_TYPE_CONTROLPLANE","severity":"HIGH","suggestedUpgradeTarget":"1.21.9-gke.300"}"#;
    Message::from_json(&envelope(BULLETIN_TYPE, payload, "aGVsbG8gd29ybGQ=")).unwrap()
}

#[test]
fn messages() {
    let cases = [
        CONTROL_PLANE_UPGRADE.to_string(),
        envelope(UPGRADE_AVAILABLE_TYPE, "{}", ""),
        envelope(BULLETIN_TYPE, "{}", ""),
        envelope("type.googleapis.com/Other", r#"{"a":1}"#, "aGVsbG8gd29ybGQ="),
        "{}".to_string(),
    ];
    for case in cases.iter() {
        let message = Message::from_json(case).unwrap();
        println!("{:#?}", message);
    }
}

#[test]
fn log_entry() {
    let message = Message::from_json(CONTROL_PLANE_UPGRADE).unwrap();
    let log_entry = message.log_entry();
    println!("{log_entry}");
    assert_eq!(
        log_entry,
        "Control plane projects/0123456789/locations/us-central1/clusters/test-cluster is upgrading from version 1.22.4-gke.1501 to 1.22.6-gke.300"
    );
    assert_eq!(message.data, "Master is upgrading.");
    assert_eq!(message.message_id, "x");
    assert_eq!(message.publish_time, "y");

    assert_eq!(
        node_pool_offer().log_entry(),
        "Node pool projects/p/locations/l/clusters/c/nodePools/pool-1 has new version 1.23.5-gke.100 available for upgrade in the REGULAR channel"
    );
    assert_eq!(
        bulletin().log_entry(),
        "Security bulletin GCP-2022-001 affecting projects/p/locations/l/clusters/c has been issued"
    );
    let unknown =
        Message::from_json(&envelope("type.googleapis.com/Other", r#"{"a":1}"#, "aGVsbG8gd29ybGQ="))
            .unwrap();
    assert_eq!(
        unknown.log_entry(),
        "Unknown message type `type.googleapis.com/Other` encountered: hello world"
    );
    let available_control_plane = Message::from_json(&envelope(
        UPGRADE_AVAILABLE_TYPE,
        r#"{"releaseChannel":{"channel":"STABLE"},"resourceType":"MASTER","version":"1.24.1"}"#,
        "",
    ))
    .unwrap();
    assert_eq!(
        available_control_plane.log_entry(),
        "Control plane projects/p/locations/l/clusters/c has new version 1.24.1 available for upgrade in the STABLE channel"
    );
    let node_pool_upgrade = Message::from_json(&envelope(
        UPGRADE_TYPE,
        r#"{"currentVersion":"1.22.4","resource":"projects/p/locations/l/clusters/c/nodePools/default","resourceType":"NODE_POOL","targetVersion":"1.22.6"}"#,
        "",
    ))
    .unwrap();
    assert_eq!(
        node_pool_upgrade.log_entry(),
        "Node pool projects/p/locations/l/clusters/c/nodePools/default is upgrading from 1.22.4 to 1.22.6"
    );
}

#[test]
fn plain_text() {
    let message = Message::from_json(CONTROL_PLANE_UPGRADE).unwrap();
    let plain_text = message.plain_text();
    println!("{plain_text}");
    assert_eq!(plain_text, "test-cluster control plane is upgrading to version 1.22.6-gke.300");
    assert_eq!(node_pool_offer().plain_text(), "c node pool pool-1 has new version available 1.23.5-gke.100");
    assert_eq!(bulletin().plain_text(), "Security bulletin GCP-2022-001 affecting c has been issued");
    let unknown =
        Message::from_json(&envelope("type.googleapis.com/Other", r#"{"a":1}"#, "aGVsbG8gd29ybGQ="))
            .unwrap();
    assert_eq!(unknown.plain_text(), "c received event of unknown type");
    assert_eq!(Message::from_json("{}").unwrap().plain_text(), " received an empty or invalid payload");
    let no_payload = Message::from_json(&envelope("type.googleapis.com/Other", "", "")).unwrap();
    assert_eq!(no_payload.plain_text(), "c received an empty or invalid payload");
}

#[test]
fn markdown() {
    let message = Message::from_json(CONTROL_PLANE_UPGRADE).unwrap();
    let markdown = message.markdown();
    println!("{markdown}");
    assert_eq!(markdown, "*`test-cluster`* control plane is upgrading");
    assert_eq!(node_pool_offer().markdown(), "*`c`* node pool `pool-1` has new version available");
    assert_eq!(bulletin().markdown(), "Security bulletin `GCP-2022-001` affecting `c` has been issued");
    let unknown_resource =
        Message::from_json(&envelope(UPGRADE_TYPE, r#"{"resourceType":"SOME_TYPE"}"#, "")).unwrap();
    assert_eq!(
        unknown_resource.markdown(),
        "*`c`* unknown resource type `SOME_TYPE` encountered on `UpgradeEvent`"
    );
    let unknown =
        Message::from_json(&envelope("type.googleapis.com/Other", r#"{"a":1}"#, "")).unwrap();
    assert_eq!(unknown.markdown(), "`c` received event of unknown type");
}

#[test]
fn empty_object() {
    let envelope = PubSubMessage::from_json("{}").unwrap();
    assert_eq!(envelope.subscription, "");
    let handling = handle(envelope, None, Some("https://hooks.example/T".to_string()));
    assert!(handling.invalid);
    assert!(handling.delivery.is_none());
    assert_eq!(handling.log_entry, "Empty or invalid payload");
}

#[test]
fn known_types_decode_every_field() {
    match bulletin().attributes.payload {
        Payload::SecurityBulletinEvent(e) => {
            assert_eq!(e.affected_supported_minors, vec!["1.20".to_string(), "1.21".to_string()]);
            assert_eq!(e.brief_description, "A vulnerability was found.");
            assert_eq!(e.bulletin_id, "GCP-2022-001");
            assert_eq!(
                e.bulletin_uri,
                "https://cloud.google.com/anthos/clusters/docs/security-bulletins#gcp-2022-001"
            );
            assert_eq!(e.cve_ids, vec!["CVE-2021-4154".to_string()]);
            assert!(e.manual_steps_required);
            assert_eq!(
                e.patched_versions,
                vec!["1.20.15-gke.300".to_string(), "1.21.9-gke.300".to_string()]
            );
            assert_eq!(e.resource_type_affected, "RESOURCE_TYPE_CONTROLPLANE");
            assert_eq!(e.severity, "HIGH");
            assert_eq!(e.suggested_upgrade_target, "1.21.9-gke.300");
            assert_eq!(e.resource_type_affected(), "Control Plane");
            assert_eq!(e.manual_steps_required(), "Yes");
        }
        other => panic!("unexpected payload {other:?}"),
    }
    match node_pool_offer().attributes.payload {
        Payload::UpgradeAvailableEvent(e) => {
            assert_eq!(e.release_channel, ReleaseChannel::Regular);
            assert_eq!(
                e.resource.as_deref(),
                Some("projects/p/locations/l/clusters/c/nodePools/pool-1")
            );
            assert!(matches!(e.resource_type, ResourceType::NodePool));
            assert_eq!(e.version, "1.23.5-gke.100");
            assert_eq!(e.node_pool_name().as_deref(), Some("pool-1"));
        }
        other => panic!("unexpected payload {other:?}"),
    }
    let upgrade = Message::from_json(&envelope(
        UPGRADE_TYPE,
        r#"{"currentVersion":"1.22.4","operation":"operation-1","operationStartTime":"2022-02-01T10:00:00Z","resource":null,"resourceType":"MASTER","targetVersion":"1.22.6","extra":[1,2]}"#,
        "",
    ))
    .unwrap();
    match upgrade.attributes.payload {
        Payload::UpgradeEvent(e) => {
            assert_eq!(e.current_version, "1.22.4");
            assert_eq!(e.operation, "operation-1");
            assert_eq!(e.operation_start_time, "2022-02-01T10:00:00Z");
            assert_eq!(e.resource, None);
            assert!(matches!(e.resource_type, ResourceType::ControlPlane));
            assert_eq!(e.target_version, "1.22.6");
            assert_eq!(e.node_pool_name(), None);
        }
        other => panic!("unexpected payload {other:?}"),
    }
}

#[test]
fn empty_object_payloads_decode_to_defaults() {
    match Message::from_json(&envelope(BULLETIN_TYPE, "{}", "")).unwrap().attributes.payload {
        Payload::SecurityBulletinEvent(e) => {
            assert!(e.affected_supported_minors.is_empty());
            assert_eq!(e.brief_description, "");
            assert_eq!(e.bulletin_id, "");
            assert_eq!(e.bulletin_uri, "");
            assert!(e.cve_ids.is_empty());
            assert!(!e.manual_steps_required);
            assert!(e.patched_versions.is_empty());
            assert_eq!(e.resource_type_affected, "");
            assert_eq!(e.severity, "");
            assert_eq!(e.suggested_upgrade_target, "");
            assert_eq!(e.manual_steps_required(), "No");
        }
        other => panic!("unexpected payload {other:?}"),
    }
    match Message::from_json(&envelope(UPGRADE_AVAILABLE_TYPE, "{}", "")).unwrap().attributes.payload {
        Payload::UpgradeAvailableEvent(e) => {
            assert_eq!(e.release_channel, ReleaseChannel::Unspecified);
            assert_eq!(e.resource, None);
            assert!(
                matches!(&e.resource_type, ResourceType::Unknown(s) if s == "UPGRADE_RESOURCE_TYPE_UNSPECIFIED")
            );
            assert_eq!(e.version, "");
        }
        other => panic!("unexpected payload {other:?}"),
    }
    match Message::from_json(&envelope(UPGRADE_TYPE, "{}", "")).unwrap().attributes.payload {
        Payload::UpgradeEvent(e) => {
            assert_eq!(e.current_version, "");
            assert_eq!(e.operation, "");
            assert_eq!(e.operation_start_time, "");
            assert_eq!(e.resource, None);
            assert!(
                matches!(&e.resource_type, ResourceType::Unknown(s) if s == "UPGRADE_RESOURCE_TYPE_UNSPECIFIED")
            );
            assert_eq!(e.target_version, "");
        }
        other => panic!("unexpected payload {other:?}"),
    }
}

#[test]
fn unknown_and_empty_payloads() {
    let unknown = Message::from_json(&envelope("type.googleapis.com/Other", r#"{"a":1}"#, "")).unwrap();
    assert!(matches!(&unknown.attributes.payload, Payload::UnknownType(s) if s == r#"{"a":1}"#));
    let empty = Message::from_json(&envelope("type.googleapis.com/Other", "", "")).unwrap();
    assert!(matches!(empty.attributes.payload, Payload::Empty));
    assert_eq!(Payload::decode("anything", String::new()).map(|p| p.kind_name()), Some("Empty"));
}

#[test]
fn empty_payload_log_entry() {
    let no_attributes = Message::from_json(r#"{"data":"aGVsbG8gd29ybGQ="}"#).unwrap();
    assert!(no_attributes.is_invalid());
    assert_eq!(no_attributes.log_entry(), "Empty or invalid payload: hello world");
    let nothing = Message::from_json("{}").unwrap();
    assert!(nothing.is_invalid());
    assert_eq!(nothing.log_entry(), "Empty or invalid payload");
    let no_payload = Message::from_json(&envelope("type.googleapis.com/Other", "", "")).unwrap();
    assert_eq!(no_payload.log_entry(), "Empty or invalid payload");
}

#[test]
fn resource_uri_of_node_pools() {
    let offer = node_pool_offer();
    assert_eq!(
        offer.attributes.resource_uri(),
        "projects/p/locations/l/clusters/c/nodePools/pool-1"
    );
    assert_eq!(
        offer.attributes.resource_url(),
        "https://console.cloud.google.com/kubernetes/nodepool/l/c/pool-1?project=p"
    );
    let empty_resource = Message::from_json(&envelope(
        UPGRADE_TYPE,
        r#"{"resource":"","resourceType":"NODE_POOL"}"#,
        "",
    ))
    .unwrap();
    assert_eq!(empty_resource.attributes.resource_uri(), "projects/p/locations/l/clusters/c");
    let control_plane_with_resource = Message::from_json(&envelope(
        UPGRADE_TYPE,
        r#"{"resource":"projects/p/locations/l/clusters/c","resourceType":"MASTER"}"#,
        "",
    ))
    .unwrap();
    assert_eq!(
        control_plane_with_resource.attributes.resource_uri(),
        "projects/p/locations/l/clusters/c"
    );
    assert_eq!(
        bulletin().attributes.resource_url(),
        "https://console.cloud.google.com/kubernetes/clusters/details/l/c?project=p"
    );
}

#[test]
fn project_name_overlay() {
    let message = Message::from_json(CONTROL_PLANE_UPGRADE).unwrap();
    let plain_before = message.plain_text();
    let markdown_before = message.markdown();
    let renamed = message.with_project_name("my-project".to_string());
    assert_eq!(renamed.attributes.project_id, "0123456789");
    assert_eq!(renamed.attributes.project_name.as_deref(), Some("my-project"));
    assert_eq!(renamed.attributes.project_name(), "my-project");
    assert_eq!(renamed.attributes.cluster_name, "test-cluster");
    assert_eq!(renamed.data, "Master is upgrading.");
    assert_eq!(renamed.plain_text(), plain_before);
    assert_eq!(renamed.markdown(), markdown_before);
    assert_eq!(
        renamed.log_entry(),
        "Control plane projects/my-project/locations/us-central1/clusters/test-cluster is upgrading from version 1.22.4-gke.1501 to 1.22.6-gke.300"
    );
    assert_eq!(
        renamed.attributes.resource_url(),
        "https://console.cloud.google.com/kubernetes/clusters/details/us-central1/test-cluster?project=my-project"
    );
    let attributes = Attributes::default().with_project_name("n".to_string());
    assert_eq!(attributes.resource_uri(), "projects/n/locations//clusters/");
}

#[test]
fn node_pool_offers_are_not_posted() {
    let offer = node_pool_offer();
    assert!(offer.attributes.is_node_pool_upgrade_available_event());
    let envelope = PubSubMessage { message: offer, subscription: "s".to_string() };
    let handling = handle(envelope.clone(), None, Some("https://hooks.example/T".to_string()));
    assert!(handling.delivery.is_none());
    assert!(!handling.invalid);
    assert_eq!(
        handling.log_entry,
        "Node pool projects/p/locations/l/clusters/c/nodePools/pool-1 has new version 1.23.5-gke.100 available for upgrade in the REGULAR channel"
    );
    let without_webhook = handle(envelope, None, None);
    assert!(without_webhook.delivery.is_none());
    assert_eq!(without_webhook.log_entry, handling.log_entry);
}

#[test]
fn other_messages_are_posted() {
    let message = Message::from_json(CONTROL_PLANE_UPGRADE).unwrap();
    assert!(!message.attributes.is_node_pool_upgrade_available_event());
    let envelope = PubSubMessage { message, subscription: "projects/p/subscriptions/s".to_string() };
    let handling = handle(
        envelope.clone(),
        Some("my-project".to_string()),
        Some("https://hooks.example/T".to_string()),
    );
    let delivery = handling.delivery.expect("a delivery");
    assert_eq!(delivery.webhook, "https://hooks.example/T");
    assert_eq!(handling.subscription, "projects/p/subscriptions/s");
    assert_eq!(handling.message.attributes.project_name(), "my-project");
    let body: serde_json::Value = serde_json::from_str(&delivery.body).unwrap();
    assert_eq!(body["blocks"][1]["fields"][0]["text"], "*Project*\nmy-project");
    assert!(handle(envelope, None, None).delivery.is_none());
}

#[test]
fn unknown_resource_type() {
    let message =
        Message::from_json(&envelope(UPGRADE_TYPE, r#"{"resourceType":"SOME_TYPE"}"#, "")).unwrap();
    assert_eq!(message.attributes.log_message(), Ok("Unknown resource type `SOME_TYPE` encountered".to_string()));
    assert_eq!(message.log_entry(), "Unknown resource type `SOME_TYPE` encountered");
    assert_eq!(message.plain_text(), "c unknown resource type SOME_TYPE");
    let available =
        Message::from_json(&envelope(UPGRADE_AVAILABLE_TYPE, r#"{"resourceType":"SOME_TYPE"}"#, ""))
            .unwrap();
    assert_eq!(available.log_entry(), "Unknown resource type `SOME_TYPE` encountered");
}

#[test]
fn decode_errors() {
    assert_eq!(Message::from_json("not json").unwrap_err(), DecodeError::MalformedJson);
    assert_eq!(Message::from_json("[1,2]").unwrap_err(), DecodeError::MalformedJson);
    assert_eq!(Message::from_json(r#"{"data":"%%%"}"#).unwrap_err(), DecodeError::InvalidBase64);
    assert_eq!(Message::from_json(r#"{"data":5}"#).unwrap_err(), DecodeError::InvalidBase64);
    assert_eq!(Message::from_json(r#"{"data":"//4="}"#).unwrap_err(), DecodeError::InvalidUtf8);
    assert_eq!(
        Message::from_json(&envelope(UPGRADE_TYPE, "not json", "")).unwrap_err(),
        DecodeError::InvalidPayload
    );
    assert_eq!(
        Message::from_json(&envelope(UPGRADE_TYPE, "", "")).unwrap_err(),
        DecodeError::InvalidPayload
    );
    assert_eq!(
        Message::from_json(&envelope(BULLETIN_TYPE, r#"{"manualStepsRequired":"yes"}"#, ""))
            .unwrap_err(),
        DecodeError::InvalidPayload
    );
    assert_eq!(
        Message::from_json(&envelope(BULLETIN_TYPE, r#"{"cveIds":["a",1]}"#, "")).unwrap_err(),
        DecodeError::InvalidPayload
    );
    assert_eq!(
        Message::from_json(&envelope(UPGRADE_AVAILABLE_TYPE, r#"{"releaseChannel":"RAPID"}"#, ""))
            .unwrap_err(),
        DecodeError::InvalidPayload
    );
    assert_eq!(
        PubSubMessage::from_json(r#"{"message":{"data":"%%%"}}"#).unwrap_err(),
        DecodeError::InvalidBase64
    );
    assert_eq!(DecodeError::InvalidUtf8.description(), "the message data is not valid UTF-8");
}

#[test]
fn lenient_envelope_fields() {
    let message = Message::from_json(
        r#"{"attributes":{"project_id":7,"cluster_name":"c","extra":"x"},"message_id":null,"publish_time":"t"}"#,
    )
    .unwrap();
    assert_eq!(message.attributes.project_id, "");
    assert_eq!(message.attributes.cluster_name, "c");
    assert_eq!(message.message_id, "");
    assert_eq!(message.publish_time, "t");
    assert!(matches!(message.attributes.payload, Payload::Empty));
    let envelope = PubSubMessage::from_json(&format!(
        r#"{{"message":{CONTROL_PLANE_UPGRADE},"subscription":"projects/p/subscriptions/s"}}"#
    ))
    .unwrap();
    assert_eq!(envelope.subscription, "projects/p/subscriptions/s");
    assert_eq!(envelope.message.attributes.cluster_name, "test-cluster");
}

#[test]
fn release_channels() {
    let channel = |payload: &str| match Message::from_json(&envelope(UPGRADE_AVAILABLE_TYPE, payload, ""))
        .unwrap()
        .attributes
        .payload
    {
        Payload::UpgradeAvailableEvent(e) => e.release_channel,
        other => panic!("unexpected payload {other:?}"),
    };
    assert_eq!(channel(r#"{"releaseChannel":{"channel":"RAPID"}}"#), ReleaseChannel::Rapid);
    assert_eq!(channel(r#"{"releaseChannel":{"channel":"STABLE"}}"#), ReleaseChannel::Stable);
    assert_eq!(channel(r#"{"releaseChannel":{"channel":"NIGHTLY"}}"#), ReleaseChannel::Unspecified);
    assert_eq!(channel(r#"{"releaseChannel":{}}"#), ReleaseChannel::Unspecified);
    assert_eq!(ReleaseChannel::Regular.name(), "REGULAR");
    assert_eq!(ReleaseChannel::from_name("STABLE"), ReleaseChannel::Stable);
}

#[test]
fn resource_type_labels() {
    let mut event = SecurityBulletinEvent::default();
    event.resource_type_affected = "RESOURCE_TYPE_NODE".to_string();
    assert_eq!(event.resource_type_affected(), "Node");
    event.resource_type_affected = "RESOURCE_TYPE_WORKLOAD_IDENTITY".to_string();
    assert_eq!(event.resource_type_affected(), "workload_identity");
    event.resource_type_affected = "Resource_Type_resource_type_ÄB".to_string();
    assert_eq!(event.resource_type_affected(), "äb");
    assert!(matches!(ResourceType::from_wire("MASTER"), ResourceType::ControlPlane));
    assert!(matches!(ResourceType::from_wire("NODE_POOL"), ResourceType::NodePool));
    assert!(matches!(ResourceType::from_wire("X"), ResourceType::Unknown(s) if s == "X"));
}

#[test]
fn node_pool_names() {
    let mut available = UpgradeAvailableEvent::default();
    assert_eq!(available.node_pool_name(), None);
    available.resource = Some("projects/p/nodePools/a/nodePools/b".to_string());
    assert_eq!(available.node_pool_name().as_deref(), Some("a/nodePools/b"));
    let mut upgrade = UpgradeEvent::default();
    upgrade.resource = Some("projects/p/clusters/c".to_string());
    assert_eq!(upgrade.node_pool_name(), None);
    upgrade.resource = Some("nodePools/".to_string());
    assert_eq!(upgrade.node_pool_name().as_deref(), Some(""));
}

#[test]
fn card_blocks() {
    let card = WebhookMessage::from_message(&bulletin());
    assert_eq!(card.text, ":gear: Security bulletin GCP-2022-001 affecting c has been issued");
    assert_eq!(card.blocks.len(), 7);
    assert!(matches!(&card.blocks[0], Block::Section(t) if t == ":gear: Security bulletin `GCP-2022-001` affecting `c` has been issued"));
    assert!(matches!(&card.blocks[1], Block::Section(t) if t == "*Brief Description*\nA vulnerability was found."));
    assert!(matches!(&card.blocks[4], Block::Fields(f) if f[0] == "*Patched Versions*\n1.20.15-gke.300\n1.21.9-gke.300" && f[1] == "*Suggested Upgrade Target*\n1.21.9-gke.300"));
    assert!(matches!(&card.blocks[6], Block::Context(e) if e.len() == 1 && e[0] == "projects/p/locations/l/clusters/c"));

    let bare = Message::from_json(&envelope(BULLETIN_TYPE, "{}", "")).unwrap();
    assert_eq!(WebhookMessage::blocks(&bare).len(), 6);

    let offer = WebhookMessage::from_message(&node_pool_offer());
    assert!(matches!(&offer.blocks[2], Block::Fields(f) if f[0] == "*Resource*\n<https://console.cloud.google.com/kubernetes/nodepool/l/c/pool-1?project=p|View in Console>" && f[1] == "*Release Channel*\nREGULAR"));
}

#[test]
fn card_json() {
    let card = WebhookMessage::from_message(&Message::from_json(CONTROL_PLANE_UPGRADE).unwrap());
    let body: serde_json::Value = serde_json::from_str(&card.to_json()).unwrap();
    let expected: serde_json::Value = serde_json::from_str(
        r#"{"text":":gear: test-cluster control plane is upgrading to version 1.22.6-gke.300","blocks":[
            {"type":"section","text":{"type":"mrkdwn","text":":gear: *`test-cluster`* control plane is upgrading"}},
            {"type":"section","fields":[{"type":"mrkdwn","text":"*Project*\n0123456789"},{"type":"mrkdwn","text":"*Current Version*\n1.22.4-gke.1501"}]},
            {"type":"section","fields":[{"type":"mrkdwn","text":"*Resource*\n<https://console.cloud.google.com/kubernetes/clusters/details/us-central1/test-cluster?project=0123456789|View in Console>"},{"type":"mrkdwn","text":"*Target Version*\n1.22.6-gke.300"}]},
            {"type":"context","elements":[{"type":"mrkdwn","text":"projects/0123456789/locations/us-central1/clusters/test-cluster"}]}
        ]}"#,
    )
    .unwrap();
    assert_eq!(body, expected);
    assert!(card.to_json().starts_with(r#"{"text":":gear: test-cluster"#));
    let quoted = WebhookMessage { text: "a \"b\"\n".to_string(), blocks: vec![] };
    assert_eq!(quoted.to_json(), r#"{"text":"a \"b\"\n","blocks":[]}"#);
    let controls = WebhookMessage { text: "\u{1}\u{8}\u{c}\r\t\\/é\u{7f}".to_string(), blocks: vec![] };
    assert_eq!(controls.to_json(), "{\"text\":\"\\u0001\\b\\f\\r\\t\\\\/é\u{7f}\",\"blocks\":[]}");
}

#[test]
fn delivery_results() {
    assert_eq!(WebhookMessage::delivery_result(200, "ok".to_string()), Ok("ok".to_string()));
    assert_eq!(WebhookMessage::delivery_result(204, String::new()), Ok(String::new()));
    assert_eq!(
        WebhookMessage::delivery_result(404, "no_service".to_string()),
        Err("no_service".to_string())
    );
    assert_eq!(
        WebhookMessage::delivery_result(500, "error".to_string()),
        Err("error".to_string())
    );
}
