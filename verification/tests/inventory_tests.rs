use latticeclient::inventory::{
    aggregate_actors, aggregate_bindings, aggregate_capabilities, collect_host_profiles,
    ActorClaims, Binding, CapabilityDescriptor, HostProfile, HostedCapability, InventoryResponse,
};

fn profile(id: &str, uptime_ms: u128) -> HostProfile {
    HostProfile { id: String::from(id), labels: Vec::new(), uptime_ms }
}

fn binding(actor: &str, capid: &str, name: &str) -> Binding {
    Binding {
        actor: String::from(actor),
        capability_id: String::from(capid),
        binding_name: String::from(name),
        configuration: Vec::new(),
    }
}

fn claims(subject: &str) -> ActorClaims {
    ActorClaims {
        subject: String::from(subject),
        issuer: String::from("Axxxx"),
        name: Some(String::from("demo")),
        version: None,
        revision: Some(1),
    }
}

fn capability(capid: &str, binding_name: &str) -> HostedCapability {
    HostedCapability {
        binding_name: String::from(binding_name),
        descriptor: CapabilityDescriptor {
            id: String::from(capid),
            name: String::from("demo provider"),
            supported_operations: vec![String::from("Request")],
        },
    }
}

#[test]
fn probe_merge_concatenates_repeated_host_replies() {
    // Two replies from the same host for a list-valued kind concatenate into
    // one list under that host id: no loss, no duplication beyond what was
    // sent.
    let replies = vec![
        InventoryResponse::Bindings {
            host: String::from("N1"),
            bindings: vec![binding("M1", "wascc:messaging", "default")],
        },
        InventoryResponse::Bindings {
            host: String::from("N1"),
            bindings: vec![binding("M2", "wascc:keyvalue", "kv")],
        },
    ];
    let grouped = aggregate_bindings(replies);
    assert_eq!(grouped.len(), 1);
    assert_eq!(grouped[0].0, "N1");
    assert_eq!(
        grouped[0].1,
        vec![binding("M1", "wascc:messaging", "default"), binding("M2", "wascc:keyvalue", "kv")]
    );
}

#[test]
fn probe_groups_by_replying_host() {
    let replies = vec![
        InventoryResponse::Actors { host: String::from("N1"), actors: vec![claims("M1")] },
        InventoryResponse::Actors { host: String::from("N2"), actors: vec![claims("M2")] },
        InventoryResponse::Actors { host: String::from("N1"), actors: vec![claims("M3")] },
    ];
    let grouped = aggregate_actors(replies);
    assert_eq!(grouped.len(), 2);
    assert_eq!(grouped[0].0, "N1");
    assert_eq!(grouped[0].1, vec![claims("M1"), claims("M3")]);
    assert_eq!(grouped[1].0, "N2");
    assert_eq!(grouped[1].1, vec![claims("M2")]);
}

#[test]
fn probe_ignores_replies_of_other_kinds() {
    let replies = vec![
        InventoryResponse::Host(profile("N1", 12000)),
        InventoryResponse::Capabilities {
            host: String::from("N1"),
            capabilities: vec![capability("wascc:messaging", "default")],
        },
    ];
    let grouped = aggregate_capabilities(replies);
    assert_eq!(grouped.len(), 1);
    assert_eq!(grouped[0].0, "N1");
    assert_eq!(grouped[0].1, vec![capability("wascc:messaging", "default")]);
    // A silent host is absent, not an error: nothing for N2 here.
    assert!(grouped.iter().all(|g| g.0 != "N2"));
}

#[test]
fn host_probe_collects_profiles_in_arrival_order() {
    let replies = vec![
        InventoryResponse::Host(profile("N2", 5)),
        InventoryResponse::Actors { host: String::from("N9"), actors: Vec::new() },
        InventoryResponse::Host(profile("N1", 9)),
    ];
    let profiles = collect_host_profiles(replies);
    assert_eq!(profiles, vec![profile("N2", 5), profile("N1", 9)]);
}

#[test]
fn empty_probe_yields_empty_result() {
    assert!(collect_host_profiles(Vec::new()).is_empty());
    assert!(aggregate_actors(Vec::new()).is_empty());
    assert!(aggregate_bindings(Vec::new()).is_empty());
    assert!(aggregate_capabilities(Vec::new()).is_empty());
}
