use latticeclient::controlplane::{
    launch_outcome, AuctionCollector, LaunchAck, LaunchAuctionRequest, LaunchAuctionResponse,
    ProviderAuctionRequest,
};
use latticeclient::constraints::{constraints_to_hashmap, parse_key_val};
use latticeclient::errors::LatticeError;

#[test]
fn launch_auction_request_fields() {
    let constraints = vec![(String::from("arch"), String::from("x86_64"))];
    let req = LaunchAuctionRequest::new("Mxxxx", 3, constraints.clone());
    assert_eq!(req.actor_id, "Mxxxx");
    assert_eq!(req.revision, 3);
    assert_eq!(req.constraints, constraints);
}

#[test]
fn provider_auction_request_fields() {
    let req = ProviderAuctionRequest::new("wascc:messaging", "default", Vec::new());
    assert_eq!(req.provider_ref, "wascc:messaging");
    assert_eq!(req.binding_name, "default");
    assert!(req.constraints.is_empty());
}

#[test]
fn auction_scenario_two_of_three_hosts_reply() {
    // An auction for actor "Mxxxx" revision 3 with one constraint goes out to
    // three hosts; A and B reply within the window, C stays silent.
    let constraints =
        constraints_to_hashmap(vec![(String::from("arch"), String::from("x86_64"))]);
    let _req = LaunchAuctionRequest::new("Mxxxx", 3, constraints);
    let mut collector: AuctionCollector<LaunchAuctionResponse> = AuctionCollector::new();
    collector.on_reply(LaunchAuctionResponse { host_id: String::from("NA") });
    collector.on_reply(LaunchAuctionResponse { host_id: String::from("NB") });
    collector.on_deadline();
    let results = collector.into_responses();
    assert_eq!(results.len(), 2);
    assert_eq!(results[0].host_id, "NA");
    assert_eq!(results[1].host_id, "NB");
    assert!(results.iter().all(|r| r.host_id != "NC"));
    // Each replying host is present exactly once.
    assert_eq!(results.iter().filter(|r| r.host_id == "NA").count(), 1);
    assert_eq!(results.iter().filter(|r| r.host_id == "NB").count(), 1);
}

#[test]
fn empty_auction_window_yields_empty_result() {
    let mut collector: AuctionCollector<LaunchAuctionResponse> = AuctionCollector::new();
    collector.on_deadline();
    assert!(collector.into_responses().is_empty());
}

#[test]
fn launch_ack_correlation() {
    let good = LaunchAck { actor_id: String::from("M1"), host: String::from("N1") };
    assert_eq!(launch_outcome("M1", "N1", Some(good.clone())), Ok(good));

    let wrong_host = LaunchAck { actor_id: String::from("M1"), host: String::from("N2") };
    assert_eq!(
        launch_outcome("M1", "N1", Some(wrong_host.clone())),
        Err(LatticeError::AckMismatch(wrong_host))
    );

    let wrong_actor = LaunchAck { actor_id: String::from("M2"), host: String::from("N1") };
    assert_eq!(
        launch_outcome("M1", "N1", Some(wrong_actor.clone())),
        Err(LatticeError::AckMismatch(wrong_actor))
    );
}

#[test]
fn launch_without_reply_times_out() {
    assert_eq!(launch_outcome("M1", "N1", None), Err(LatticeError::Timeout));
}

#[test]
fn parse_key_val_splits_on_first_separator() {
    assert_eq!(
        parse_key_val("arch=x86_64"),
        Ok((String::from("arch"), String::from("x86_64")))
    );
    assert_eq!(parse_key_val("a=b=c"), Ok((String::from("a"), String::from("b=c"))));
    assert_eq!(parse_key_val("=v"), Ok((String::new(), String::from("v"))));
    assert!(matches!(parse_key_val("no separator"), Err(LatticeError::Decode(_))));
}

#[test]
fn constraints_keep_last_value_per_key() {
    let pairs = vec![
        (String::from("arch"), String::from("arm")),
        (String::from("os"), String::from("linux")),
        (String::from("arch"), String::from("x86_64")),
    ];
    let map = constraints_to_hashmap(pairs);
    assert_eq!(map.len(), 2);
    assert_eq!(map[0], (String::from("arch"), String::from("x86_64")));
    assert_eq!(map[1], (String::from("os"), String::from("linux")));
    assert!(constraints_to_hashmap(Vec::new()).is_empty());
}
