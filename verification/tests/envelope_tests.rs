use latticeclient::envelope::CloudEvent;
use latticeclient::errors::LatticeError;
use latticeclient::events::BusEvent;

fn all_variants() -> Vec<BusEvent> {
    vec![
        BusEvent::HostStarted(String::from("N1")),
        BusEvent::HostStopped(String::from("N2")),
        BusEvent::ActorStarting { actor: String::from("M1"), host: String::from("N1") },
        BusEvent::ActorStarted { actor: String::from("M1"), host: String::from("N1") },
        BusEvent::ActorStopped { actor: String::from("M2"), host: String::from("N3") },
        BusEvent::ActorUpdating { actor: String::from("M1"), host: String::from("N1") },
        BusEvent::ActorUpdateComplete {
            actor: String::from("M1"),
            success: true,
            host: String::from("N1"),
        },
        BusEvent::ActorUpdateComplete {
            actor: String::from("M1"),
            success: false,
            host: String::from("N1"),
        },
        BusEvent::ProviderLoaded {
            capid: String::from("wascc:messaging"),
            instance_name: String::from("default"),
            host: String::from("N1"),
        },
        BusEvent::ProviderRemoved {
            capid: String::from("wascc:keyvalue"),
            instance_name: String::from("backup"),
            host: String::from("N2"),
        },
        BusEvent::ActorBindingCreated {
            host: String::from("N1"),
            actor: String::from("M1"),
            capid: String::from("wascc:messaging"),
            instance_name: String::from("default"),
        },
        BusEvent::ActorBindingRemoved {
            host: String::from("N1"),
            actor: String::from("M1"),
            capid: String::from("wascc:messaging"),
            instance_name: String::from("default"),
        },
        BusEvent::ActorBecameHealthy { actor: String::from("M9"), host: String::from("N9") },
        BusEvent::ActorBecameUnhealthy { actor: String::from("M9"), host: String::from("N9") },
    ]
}

#[test]
fn envelope_round_trip_every_variant() {
    for event in all_variants() {
        let envelope = CloudEvent::wrap(&event);
        assert_eq!(envelope.unwrap(), Ok(event));
    }
}

#[test]
fn envelope_round_trip_hostile_field_values() {
    let event = BusEvent::ActorStarted {
        actor: String::from("a;b\\c;;\\\\"),
        host: String::from(";\\;"),
    };
    let envelope = CloudEvent::wrap(&event);
    assert_eq!(envelope.unwrap(), Ok(event));

    let empty = BusEvent::ActorStarted { actor: String::new(), host: String::new() };
    assert_eq!(CloudEvent::wrap(&empty).unwrap(), Ok(empty));
}

#[test]
fn encode_has_exact_frame() {
    let event = BusEvent::HostStarted(String::from("N1"));
    assert_eq!(event.encode(), "host_started;N1;");

    let escaped = BusEvent::HostStarted(String::from("a;b\\c"));
    assert_eq!(escaped.encode(), "host_started;a\\;b\\\\c;");

    let update = BusEvent::ActorUpdateComplete {
        actor: String::from("M1"),
        success: true,
        host: String::from("N1"),
    };
    assert_eq!(update.encode(), "actor_update_complete;M1;true;N1;");
}

#[test]
fn event_type_names() {
    let event = BusEvent::ActorStarted { actor: String::from("M1"), host: String::from("N1") };
    assert_eq!(event.event_type(), "wasmbus.events.actor_started");
    assert_eq!(
        BusEvent::HostStopped(String::from("N1")).event_type(),
        "wasmbus.events.host_stopped"
    );
    assert_eq!(
        BusEvent::ActorBindingRemoved {
            host: String::from("N1"),
            actor: String::from("M1"),
            capid: String::from("c"),
            instance_name: String::from("i"),
        }
        .event_type(),
        "wasmbus.events.actor_binding_removed"
    );
}

#[test]
fn routing_subject_by_variant() {
    assert_eq!(BusEvent::HostStarted(String::from("N1")).subject(), "N1");
    assert_eq!(
        BusEvent::ActorStopped { actor: String::from("M1"), host: String::from("N1") }.subject(),
        "M1"
    );
    assert_eq!(
        BusEvent::ProviderLoaded {
            capid: String::from("wascc:messaging"),
            instance_name: String::from("default"),
            host: String::from("N1"),
        }
        .subject(),
        "wascc:messaging.default"
    );
    assert_eq!(
        BusEvent::ActorBindingCreated {
            host: String::from("N1"),
            actor: String::from("M1"),
            capid: String::from("wascc:keyvalue"),
            instance_name: String::from("kv"),
        }
        .subject(),
        "M1.wascc:keyvalue.kv"
    );
    assert_eq!(
        BusEvent::ActorBecameUnhealthy { actor: String::from("M7"), host: String::from("N1") }
            .subject(),
        "M7"
    );
}

#[test]
fn envelope_metadata_is_stamped() {
    let event = BusEvent::ActorStarted { actor: String::from("M1"), host: String::from("N1") };
    let envelope = CloudEvent::wrap(&event);
    assert_eq!(envelope.cloud_events_version, "1.0");
    assert_eq!(envelope.event_type, "wasmbus.events.actor_started");
    assert_eq!(envelope.event_type_version, "0.1");
    assert_eq!(envelope.source, "https://wascc.dev/lattice/events");
    assert_eq!(envelope.content_type, "application/vnd.wasmbus.event");
    assert_eq!(envelope.subject, Some(String::from("M1")));
    assert_eq!(envelope.event_id.len(), 36);
    // A fresh globally unique id per envelope.
    let other = CloudEvent::wrap(&event);
    assert_ne!(envelope.event_id, other.event_id);
}

#[test]
fn unwrap_rejects_unknown_content_type() {
    let event = BusEvent::HostStarted(String::from("N1"));
    let mut envelope = CloudEvent::wrap(&event);
    envelope.content_type = String::from("application/octet-stream");
    assert!(matches!(envelope.unwrap(), Err(LatticeError::Decode(_))));
}

#[test]
fn unwrap_rejects_malformed_payload() {
    let event = BusEvent::HostStarted(String::from("N1"));
    let mut envelope = CloudEvent::wrap(&event);
    envelope.data = String::from("no terminator at all");
    assert!(matches!(envelope.unwrap(), Err(LatticeError::Decode(_))));
    // A known tag with a missing field is malformed, not unknown.
    envelope.data = String::from("actor_started;onlyone;");
    assert!(matches!(envelope.unwrap(), Err(LatticeError::Decode(_))));
    // A known tag with trailing leftovers is malformed too.
    envelope.data = String::from("host_started;N1;extra;");
    assert!(matches!(envelope.unwrap(), Err(LatticeError::Decode(_))));
}

#[test]
fn unknown_tag_is_kept_whole() {
    let raw = String::from("host_migrated;N1;N2;");
    let decoded = BusEvent::decode(&raw);
    assert_eq!(decoded, Ok(BusEvent::UnknownEvent(raw.clone())));
    // An unknown event survives a further wrap/unwrap trip unchanged.
    let event = BusEvent::UnknownEvent(raw.clone());
    assert_eq!(event.encode(), raw);
    assert_eq!(CloudEvent::wrap(&event).unwrap(), Ok(event));
}

#[test]
fn watch_feed_delivers_decoded_event() {
    // One envelope arrives on the feed; the watcher decodes exactly the
    // event that was published, and the envelope routes by the actor id.
    let published = BusEvent::ActorStarted { actor: String::from("M1"), host: String::from("N1") };
    let envelope = CloudEvent::wrap(&published);
    assert_eq!(envelope.subject, Some(String::from("M1")));
    let delivered = envelope.unwrap();
    assert_eq!(delivered, Ok(published));
}
