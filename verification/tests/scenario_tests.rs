use content_subscription::Contract;
use content_subscription::DenialReason;
use content_subscription::Error;
use content_subscription::Profile;
use content_subscription::ProfileType;
use content_subscription::SubscriptionStatus;
use content_subscription::TransferOutcome;

/// A creator with a three-item payment window and a price of one display
/// unit. A consumer subscribes at counter one and stays entitled until the
/// counter passes four, then lapses.
#[test]
fn window_lapses_as_counter_advances() {
    let mut contract = Contract::new();
    contract
        .add_profile(
            "creator_c".to_owned(),
            "creator".to_owned(),
            "1".to_owned(),
            "3".to_owned(),
        )
        .unwrap();
    contract
        .add_content("creator_c", "1".to_owned(), "content 1".to_owned())
        .unwrap();

    let request = contract.subscribe_request("consumer_d", "creator_c").unwrap();
    assert_eq!(request.payee, "creator_c");
    assert_eq!(request.amount, 10u128.pow(24));
    contract
        .subscribe("consumer_d".to_owned(), "creator_c", TransferOutcome::Completed)
        .unwrap();
    let profile = contract.get_profile("creator_c").unwrap();
    assert_eq!(profile.subscribers.get("consumer_d").copied(), Some(1));
    assert_eq!(
        contract.get_content("creator_c", "1", "consumer_d").unwrap(),
        "content 1"
    );

    for item in ["2", "3", "4"] {
        contract
            .add_content("creator_c", item.to_owned(), format!("content {}", item))
            .unwrap();
    }
    // The counter is now 4 == 1 + 3: the boundary is inclusive.
    assert_eq!(
        contract.get_content("creator_c", "4", "consumer_d").unwrap(),
        "content 4"
    );
    assert_eq!(
        contract.get_profile("creator_c").unwrap().subscription_status("consumer_d"),
        SubscriptionStatus::Active
    );

    contract
        .add_content("creator_c", "5".to_owned(), "content 5".to_owned())
        .unwrap();
    // The counter is now 5 > 1 + 3: the subscription has lapsed.
    assert_eq!(
        contract.get_content("creator_c", "5", "consumer_d"),
        Err(Error::Unauthorized(DenialReason::Lapsed))
    );
    assert_eq!(
        contract.get_profile("creator_c").unwrap().subscription_status("consumer_d"),
        SubscriptionStatus::Lapsed
    );
    // The owner still reads everything.
    assert_eq!(
        contract.get_content("creator_c", "5", "creator_c").unwrap(),
        "content 5"
    );
}

#[test]
fn owner_reads_without_subscribing() {
    let contract = Contract::default();
    assert_eq!(
        contract.get_content("bob_near", "date", "bob_near").unwrap(),
        "content test"
    );
    let profile = contract.get_profile("bob_near").unwrap();
    assert!(profile.access_allowed("bob_near"));
    assert!(!profile.access_allowed("someone_else"));
}

#[test]
fn subscribe_while_entitled_is_rejected_without_transfer() {
    let mut contract = Contract::default();
    contract
        .subscribe("dan.testnet".to_owned(), "bob_near", TransferOutcome::Completed)
        .unwrap();
    // Still entitled: no payment request is issued...
    assert_eq!(
        contract.subscribe_request("dan.testnet", "bob_near").err(),
        Some(Error::AlreadySubscribed)
    );
    // ...and a commit attempt changes nothing.
    let before = contract
        .get_profile("bob_near")
        .unwrap()
        .subscribers
        .get("dan.testnet")
        .copied();
    assert_eq!(
        contract.subscribe("dan.testnet".to_owned(), "bob_near", TransferOutcome::Completed),
        Err(Error::AlreadySubscribed)
    );
    let after = contract
        .get_profile("bob_near")
        .unwrap()
        .subscribers
        .get("dan.testnet")
        .copied();
    assert_eq!(before, after);
}

#[test]
fn rejected_transfer_leaves_ledger_unchanged() {
    let mut contract = Contract::new();
    contract
        .add_profile(
            "creator_c".to_owned(),
            "creator".to_owned(),
            "5".to_owned(),
            "2".to_owned(),
        )
        .unwrap();
    assert_eq!(
        contract.subscribe("poor_consumer".to_owned(), "creator_c", TransferOutcome::Rejected),
        Err(Error::InsufficientFunds)
    );
    let profile = contract.get_profile("creator_c").unwrap();
    assert!(!profile.subscribers.contains_key("poor_consumer"));
}

#[test]
fn update_cost_changes_cost_only() {
    let mut contract = Contract::default();
    contract
        .subscribe("dan.testnet".to_owned(), "bob_near", TransferOutcome::Completed)
        .unwrap();
    let (count_before, snapshot_before, payload_before) = {
        let p = contract.get_profile("bob_near").unwrap();
        (
            p.content_count,
            p.subscribers.get("dan.testnet").copied(),
            p.content.get("date").cloned(),
        )
    };
    contract.update_cost("bob_near", "42".to_owned()).unwrap();
    let p = contract.get_profile("bob_near").unwrap();
    assert_eq!(contract.get_cost("bob_near").unwrap(), "42");
    assert_eq!(p.content_count, count_before);
    assert_eq!(p.subscribers.get("dan.testnet").copied(), snapshot_before);
    assert_eq!(p.content.get("date").cloned(), payload_before);
}

#[test]
fn add_profile_rejects_malformed_input() {
    let mut contract = Contract::new();
    assert_eq!(
        contract.add_profile(
            "a".to_owned(),
            "Creator".to_owned(),
            "1".to_owned(),
            "1".to_owned()
        ),
        Err(Error::InvalidInput)
    );
    assert_eq!(
        contract.add_profile(
            "a".to_owned(),
            "creator".to_owned(),
            "1x".to_owned(),
            "1".to_owned()
        ),
        Err(Error::InvalidInput)
    );
    assert_eq!(
        contract.add_profile(
            "a".to_owned(),
            "creator".to_owned(),
            "1".to_owned(),
            "".to_owned()
        ),
        Err(Error::InvalidInput)
    );
    // A cost whose scaled amount cannot fit the currency type.
    assert_eq!(
        contract.add_profile(
            "a".to_owned(),
            "creator".to_owned(),
            "1000000000000000".to_owned(),
            "1".to_owned()
        ),
        Err(Error::InvalidInput)
    );
    // Nothing was registered by any of the rejected calls.
    assert!(contract.get_profile("a").is_none());
}

#[test]
fn missing_profiles_are_not_found() {
    let mut contract = Contract::new();
    assert_eq!(
        contract.get_content("ghost", "1", "anyone"),
        Err(Error::NotFound)
    );
    assert_eq!(
        contract.subscribe_request("anyone", "ghost").err(),
        Some(Error::NotFound)
    );
    assert_eq!(
        contract.subscribe("anyone".to_owned(), "ghost", TransferOutcome::Completed),
        Err(Error::NotFound)
    );
    assert_eq!(
        contract.add_content("ghost", "1".to_owned(), "x".to_owned()),
        Err(Error::NotFound)
    );
    assert_eq!(contract.get_cost("ghost"), Err(Error::NotFound));
    assert_eq!(
        contract.update_cost("ghost", "1".to_owned()),
        Err(Error::NotFound)
    );
}

#[test]
fn default_cost_displays_as_ten() {
    let contract = Contract::default();
    // The seeded profile charges ten display units per payment.
    assert_eq!(contract.get_cost("bob_near").unwrap(), "10");
}

#[test]
fn status_of_a_stranger_is_never_subscribed() {
    let contract = Contract::default();
    let profile = contract.get_profile("bob_near").unwrap();
    assert_eq!(
        profile.subscription_status("stranger"),
        SubscriptionStatus::NeverSubscribed
    );
}

#[test]
fn owner_gets_content_not_found_for_unknown_id() {
    let contract = Contract::default();
    assert_eq!(
        contract.get_content("bob_near", "missing", "bob_near"),
        Err(Error::ContentNotFound)
    );
}

#[test]
fn readding_an_id_overwrites_payload_and_advances_counter() {
    let mut contract = Contract::new();
    contract
        .add_profile(
            "creator_c".to_owned(),
            "creator".to_owned(),
            "1".to_owned(),
            "9".to_owned(),
        )
        .unwrap();
    contract
        .add_content("creator_c", "id".to_owned(), "first".to_owned())
        .unwrap();
    contract
        .add_content("creator_c", "id".to_owned(), "second".to_owned())
        .unwrap();
    let p = contract.get_profile("creator_c").unwrap();
    assert_eq!(p.content_count, 2);
    assert_eq!(p.content.get("id").cloned(), Some("second".to_owned()));
}

#[test]
fn profile_type_parsing() {
    assert_eq!(ProfileType::parse("creator"), Some(ProfileType::Creator));
    assert_eq!(ProfileType::parse("consumer"), Some(ProfileType::Consumer));
    assert_eq!(ProfileType::parse("other"), None);
    assert_eq!(ProfileType::new("creator"), ProfileType::Creator);
    assert_eq!(ProfileType::new("consumer"), ProfileType::Consumer);
}

#[test]
fn fresh_profile_is_empty() {
    let profile = Profile::new("alice".to_owned(), ProfileType::Creator, 7, 3);
    assert_eq!(profile.content_count, 0);
    assert_eq!(profile.cost, 7);
    assert_eq!(profile.payment_interval, 3);
    assert!(!profile.content.contains_key("anything"));
    assert!(!profile.subscribers.contains_key("anyone"));
    assert_eq!(profile.profile_type, ProfileType::Creator);
}

#[test]
fn reregistration_replaces_the_profile_wholesale() {
    let mut contract = Contract::new();
    contract
        .add_profile(
            "creator_c".to_owned(),
            "creator".to_owned(),
            "1".to_owned(),
            "3".to_owned(),
        )
        .unwrap();
    contract
        .add_content("creator_c", "1".to_owned(), "content 1".to_owned())
        .unwrap();
    contract
        .subscribe("consumer_d".to_owned(), "creator_c", TransferOutcome::Completed)
        .unwrap();
    contract
        .add_profile(
            "creator_c".to_owned(),
            "creator".to_owned(),
            "2".to_owned(),
            "3".to_owned(),
        )
        .unwrap();
    let p = contract.get_profile("creator_c").unwrap();
    assert_eq!(p.content_count, 0);
    assert!(!p.content.contains_key("1"));
    assert!(!p.subscribers.contains_key("consumer_d"));
    assert_eq!(contract.get_cost("creator_c").unwrap(), "2");
}
