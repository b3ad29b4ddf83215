use latticeclient::subject::{
    gen_auction_subject, gen_events_subject, gen_inventory_subject, gen_launch_actor_subject,
    gen_launch_provider_subject, gen_provider_auction_subject, gen_subject,
    gen_terminate_actor_subject, gen_terminate_provider_subject, subject,
};

#[test]
fn subject_without_namespace() {
    assert_eq!(gen_subject(&None, "inventory.hosts"), "wasmbus.inventory.hosts");
}

#[test]
fn subject_with_namespace() {
    let ns = Some(String::from("myns"));
    assert_eq!(gen_subject(&ns, "inventory.hosts"), "myns.wasmbus.inventory.hosts");
}

#[test]
fn general_namer_joins_segments() {
    let parts = vec![
        String::from("control"),
        String::from("Nxxxx"),
        String::from("actor"),
        String::from("launch"),
    ];
    assert_eq!(subject(&None, &parts), "wasmbus.control.Nxxxx.actor.launch");
    let ns = Some(String::from("prod"));
    assert_eq!(subject(&ns, &parts), "prod.wasmbus.control.Nxxxx.actor.launch");
}

#[test]
fn addressed_command_subjects() {
    assert_eq!(gen_launch_actor_subject(&None, "Nxxxx"), "wasmbus.control.Nxxxx.actor.launch");
    assert_eq!(
        gen_terminate_actor_subject(&None, "Nxxxx"),
        "wasmbus.control.Nxxxx.actor.terminate"
    );
    assert_eq!(
        gen_launch_provider_subject(&None, "Nxxxx"),
        "wasmbus.control.Nxxxx.provider.launch"
    );
    assert_eq!(
        gen_terminate_provider_subject(&None, "Nxxxx"),
        "wasmbus.control.Nxxxx.provider.terminate"
    );
}

#[test]
fn auction_and_feed_subjects() {
    assert_eq!(gen_auction_subject(&None), "wasmbus.control.auction.request");
    assert_eq!(gen_provider_auction_subject(&None), "wasmbus.control.provauction.request");
    assert_eq!(gen_events_subject(&None), "wasmbus.events");
    assert_eq!(gen_inventory_subject(&None, "hosts"), "wasmbus.inventory.hosts");
    assert_eq!(gen_inventory_subject(&None, "actors"), "wasmbus.inventory.actors");
    assert_eq!(gen_inventory_subject(&None, "bindings"), "wasmbus.inventory.bindings");
    assert_eq!(gen_inventory_subject(&None, "capabilities"), "wasmbus.inventory.capabilities");
}

#[test]
fn distinct_operations_never_collide() {
    // Distinct (root, parts) pairs produce distinct subjects, with and
    // without a namespace.
    let ns = Some(String::from("n"));
    assert_ne!(gen_launch_actor_subject(&None, "NA"), gen_terminate_actor_subject(&None, "NA"));
    assert_ne!(gen_launch_actor_subject(&ns, "NA"), gen_terminate_actor_subject(&ns, "NA"));
    assert_ne!(gen_launch_actor_subject(&None, "NA"), gen_launch_actor_subject(&None, "NB"));
    assert_ne!(gen_launch_actor_subject(&None, "NA"), gen_launch_provider_subject(&None, "NA"));
    assert_ne!(gen_auction_subject(&None), gen_provider_auction_subject(&None));
    assert_ne!(gen_inventory_subject(&None, "hosts"), gen_inventory_subject(&None, "actors"));
}
