use sequoia::ValidationError;
use sequoia::client::Client;
use sequoia::client::ClientRef;
use sequoia::client::Group;
use sequoia::mailer::Receiver;
use sequoia::mailer::send_outcome;

#[test]
fn client_create_validates_the_address() {
    let c = Client::create("person@example.com").unwrap();
    assert_eq!(c.adresse(), "person@example.com");
    assert_eq!(c.id().len(), 24);

    let err = Client::create("no at sign").unwrap_err();
    assert_eq!(err, ValidationError::MalformedAddress);
}

#[test]
fn client_rebuilds_from_columns() {
    let c = Client::from_sql("row-id".to_string(), "person@example.com").unwrap();
    assert_eq!(c.id(), "row-id");
    assert_eq!(c.adresse(), "person@example.com");
    assert!(Client::from_sql("row-id".to_string(), "broken").is_err());
}

#[test]
fn client_ref_hands_the_client_back() {
    let c = Client::create("person@example.com").unwrap();
    let id = c.id().to_string();
    let r = ClientRef::from(c);
    assert_eq!(r.as_ref().id(), id);
}

#[test]
fn group_starts_empty_and_caches_fetched_members() {
    let mut g = Group::create("Golems".to_string());
    assert_eq!(g.name(), "Golems");
    assert_eq!(g.id().len(), 24);
    assert_eq!(g.clients().map(|v| v.len()), Some(0));

    let members = vec![
        Client::create("a@example.com").unwrap(),
        Client::create("b@example.com").unwrap(),
    ];
    g.set_clients(members);
    let cached = g.clients().unwrap();
    assert_eq!(cached.len(), 2);
    assert_eq!(cached[0].adresse(), "a@example.com");
    assert_eq!(cached[1].adresse(), "b@example.com");
}

#[test]
fn group_rebuilds_from_columns_without_members() {
    let g = Group::from_sql("gid".to_string(), "Golems".to_string());
    assert_eq!(g.id(), "gid");
    assert!(g.clients().is_none());
}

#[test]
fn receiver_wraps_either_recipient_kind() {
    let c = Client::create("person@example.com").unwrap();
    assert!(matches!(Receiver::from(c), Receiver::Client(_)));
    let g = Group::create("Golems".to_string());
    assert!(matches!(Receiver::from(g), Receiver::Group(_)));
}

#[test]
fn a_group_send_succeeds_exactly_when_every_recipient_send_did() {
    assert!(send_outcome(&vec![]));
    assert!(send_outcome(&vec![true, true, true]));
    assert!(!send_outcome(&vec![true, false, true]));
    assert!(!send_outcome(&vec![false]));
}
