use iaqualink::{
    from_text, Connection, DecodeError, DecodeFailure, Event, Instant, LoginResponse, MessageKind, MqttResponse,
    Note, Phase, Rejected, ShadowTopic, Step, Strictness, Subscription, System,
};
use iaqualink::subscription::SigningFailure;

const LOGIN: &str = "{\"id\":1234567,\"created_at\":\"2020-05-01T10:20:30.000Z\",\
    \"updated_at\":\"2023-06-11T19:21:46.500+02:00\",\"email\":\"user@example.com\",\"username\":\"user\",\
    \"first_name\":\"Ada\",\"last_name\":null,\"address\":null,\"address_1\":null,\"address_2\":null,\
    \"postal_code\":\"1000\",\"city\":null,\"country\":\"BE\",\"opt_in_1\":\"0\",\"opt_in_2\":\"1\",\
    \"phone\":\"\",\"role\":\"customer\",\"state\":\"\",\"time_zone\":null,\"session_id\":\"SESSION\",\
    \"cognitoPool\":{\"appClientId\":\"client123\",\"region\":\"us-east-1\",\"domain\":\"pool.example\",\
    \"poolId\":\"us-east-1_abc\"},\"authentication_token\":\"TOKEN\",\
    \"credentials\":{\"AccessKeyId\":\"AKIA\",\"Expiration\":\"2023-06-11T19:21:46Z\",\"IdentityId\":\"id-1\",\
    \"SecretKey\":\"secret\",\"SessionToken\":\"session\"},\
    \"userPoolOAuth\":{\"AccessToken\":\"access\",\"ExpiresIn\":3600,\"TokenType\":\"Bearer\",\
    \"RefreshToken\":\"refresh\",\"IdToken\":\"idtoken\"}}";

const SYSTEM: &str = "{\"id\":42,\"name\":\"Pool\",\"created_at\":\"2020-05-01T10:20:30.000Z\",\
    \"updated_at\":\"2020-05-02T10:20:30.000Z\",\"device_type\":\"exo\",\"firmware_version\":\"V85W4\",\
    \"last_activity_at\":null,\"owner_id\":1234567,\"serial_number\":\"SN1\",\
    \"target_firmware_version\":null,\"update_firmware_start_at\":null,\"updating\":false}";

const REJECTED: &str = "{\"code\":404,\"message\":\"No shadow exists\"}";

fn publish(topic: &str, payload: &str) -> Event {
    Event::Publish { topic: topic.to_string(), payload: payload.as_bytes().to_vec() }
}

fn rejected() -> MqttResponse {
    MqttResponse::Error(Rejected { client_token: None, code: 404, message: "No shadow exists".to_string(), extra: vec![] })
}

#[test]
fn the_six_topics_are_named_for_the_device() {
    let names: Vec<String> = ShadowTopic::all().into_iter().map(|topic| topic.name("SN1")).collect();
    assert_eq!(
        names,
        vec![
            "$aws/things/SN1/shadow/get/accepted",
            "$aws/things/SN1/shadow/get/rejected",
            "$aws/things/SN1/shadow/update/delta",
            "$aws/things/SN1/shadow/update/accepted",
            "$aws/things/SN1/shadow/update/documents",
            "$aws/things/SN1/shadow/update/rejected",
        ]
    );
    assert_eq!(ShadowTopic::UpdateDelta.suffix(), "/update/delta");
}

#[test]
fn a_topic_is_told_from_its_name() {
    for topic in ShadowTopic::all() {
        assert_eq!(ShadowTopic::parse(&topic.name("SN1"), "SN1"), Some(topic));
        assert_eq!(ShadowTopic::parse(&topic.name("SN1"), "SN2"), None);
    }
    assert_eq!(ShadowTopic::parse("$aws/things/SN1/shadow/get/delta", "SN1"), None);
    assert_eq!(ShadowTopic::parse("$aws/things/SN1/shadow/update/accepted/", "SN1"), None);
    assert_eq!(ShadowTopic::parse("", "SN1"), None);
}

#[test]
fn each_topic_announces_a_variant() {
    assert_eq!(ShadowTopic::GetAccepted.announces(), MessageKind::UpdateAccepted);
    assert_eq!(ShadowTopic::GetRejected.announces(), MessageKind::Error);
    assert_eq!(ShadowTopic::UpdateDelta.announces(), MessageKind::UpdateDelta);
    assert_eq!(ShadowTopic::UpdateAccepted.announces(), MessageKind::UpdateAccepted);
    assert_eq!(ShadowTopic::UpdateDocuments.announces(), MessageKind::UpdateDocuments);
    assert_eq!(ShadowTopic::UpdateRejected.announces(), MessageKind::Error);
}

#[test]
fn the_connection_is_planned_from_the_login() {
    let login = from_text::<LoginResponse>(LOGIN.as_bytes(), Strictness::Strict).unwrap();
    let system = from_text::<System>(SYSTEM.as_bytes(), Strictness::Strict).unwrap();
    let expiration = Instant { seconds: 1686511306, nanos: 0 };
    let before = Instant { seconds: 1686511305, nanos: 999999999 };
    for now in [before, expiration] {
        assert!(system.subscribe(&login, &now).is_ok());
    }
    assert_eq!(
        system.subscribe(&login, &before),
        Ok(Connection {
            client_id: "client123_rust".to_string(),
            broker_url: "wss://a1zi08qpbrtjyq-ats.iot.us-east-1.amazonaws.com/mqtt".to_string(),
            port: 443,
            max_packet_size: 16 * 1024,
            capacity: 10,
            topics: vec![
                "$aws/things/SN1/shadow/get/accepted".to_string(),
                "$aws/things/SN1/shadow/get/rejected".to_string(),
                "$aws/things/SN1/shadow/update/delta".to_string(),
                "$aws/things/SN1/shadow/update/accepted".to_string(),
                "$aws/things/SN1/shadow/update/documents".to_string(),
                "$aws/things/SN1/shadow/update/rejected".to_string(),
            ],
            access_key_id: "AKIA".to_string(),
            secret_key: "secret".to_string(),
            session_token: "session".to_string(),
            expiration: Instant { seconds: 1686511306, nanos: 0 },
            region: "us-east-1".to_string(),
            service: "iotdata".to_string(),
        })
    );
}

#[test]
fn expired_credentials_are_a_signing_failure() {
    let login = from_text::<LoginResponse>(LOGIN.as_bytes(), Strictness::Strict).unwrap();
    let system = from_text::<System>(SYSTEM.as_bytes(), Strictness::Strict).unwrap();
    let expiration = Instant { seconds: 1686511306, nanos: 0 };
    for now in [Instant { seconds: 1686511306, nanos: 1 }, Instant { seconds: 1700000000, nanos: 0 }] {
        assert_eq!(system.subscribe(&login, &now), Err(SigningFailure::Expired { expiration, now }));
    }
}

#[test]
fn a_subscription_starts_connecting() {
    let subscription = Subscription::new(Strictness::Lenient);
    assert_eq!(subscription.phase, Phase::Connecting);
    assert_eq!(subscription.mode, Strictness::Lenient);
}

#[test]
fn the_acknowledged_connection_ends_the_handshake() {
    let mut subscription = Subscription::new(Strictness::Strict);
    assert_eq!(subscription.recv(Event::Subscribe(1)), Step::Continue(Note::Subscribing(1)));
    assert_eq!(subscription.phase, Phase::Connecting);
    assert_eq!(subscription.recv(Event::ConnAck), Step::Continue(Note::ConnectionAcknowledged));
    assert_eq!(subscription.phase, Phase::Subscribed);
    assert_eq!(subscription.recv(Event::SubAck(1)), Step::Continue(Note::SubscriptionAcknowledged(1)));
    assert_eq!(subscription.phase, Phase::Subscribed);
}

#[test]
fn a_message_is_delivered_with_its_topic() {
    let mut subscription = Subscription::new(Strictness::Strict);
    subscription.recv(Event::ConnAck);
    let topic = "$aws/things/SN1/shadow/get/rejected";
    assert_eq!(subscription.recv(publish(topic, REJECTED)), Step::Deliver(topic.to_string(), rejected()));
    assert_eq!(subscription.phase, Phase::Receiving);
    assert_eq!(subscription.recv(Event::ConnAck), Step::Continue(Note::ConnectionAcknowledged));
    assert_eq!(subscription.phase, Phase::Receiving);
}

#[test]
fn a_message_is_read_whatever_its_topic() {
    let mut subscription = Subscription::new(Strictness::Strict);
    let topic = "$aws/things/SN1/shadow/update/delta";
    assert_eq!(subscription.recv(publish(topic, REJECTED)), Step::Deliver(topic.to_string(), rejected()));
    assert_eq!(subscription.recv(publish("", REJECTED)), Step::Deliver(String::new(), rejected()));
}

#[test]
fn a_message_that_cannot_be_read_is_handed_over_as_it_came() {
    let mut subscription = Subscription::new(Strictness::Strict);
    let step = subscription.recv(publish("t", "{\"code\":"));
    assert_eq!(
        step,
        Step::Invalid(DecodeFailure { topic: "t".to_string(), payload: b"{\"code\":".to_vec(), cause: DecodeError::Syntax })
    );
    assert_eq!(subscription.phase, Phase::Receiving);
    match subscription.recv(publish("t", "{\"code\":\"x\"}")) {
        Step::Invalid(failure) => {
            assert_eq!(failure.topic, "t");
            assert_eq!(failure.payload, b"{\"code\":\"x\"}".to_vec());
            match failure.cause {
                DecodeError::SchemaMismatch(attempts) => {
                    let names: Vec<&str> = attempts.iter().map(|(name, _)| name.as_str()).collect();
                    assert_eq!(names, vec!["UpdateDocuments", "UpdateAccepted", "UpdateDelta", "Error"]);
                },
                other => panic!("not a mismatch: {:?}", other),
            }
        },
        other => panic!("not invalid: {:?}", other),
    }
    assert_eq!(subscription.recv(publish("t", REJECTED)), Step::Deliver("t".to_string(), rejected()));
}

#[test]
fn a_payload_that_is_no_text_is_handed_over_as_it_came() {
    let mut subscription = Subscription::new(Strictness::Lenient);
    let payload = vec![0x7b, 0x22, 0xff, 0xfe, 0x22, 0x3a, 0x31, 0x7d];
    assert_eq!(
        subscription.recv(Event::Publish { topic: "t".to_string(), payload: payload.clone() }),
        Step::Invalid(DecodeFailure { topic: "t".to_string(), payload, cause: DecodeError::Syntax })
    );
    assert_eq!(subscription.phase, Phase::Receiving);
}

#[test]
fn the_mode_of_the_subscription_decides_on_unknown_keys() {
    let payload = "{\"code\":404,\"message\":\"No shadow exists\",\"hint\":1}";
    let mut strict = Subscription::new(Strictness::Strict);
    assert!(matches!(strict.recv(publish("t", payload)), Step::Invalid(_)));
    let mut lenient = Subscription::new(Strictness::Lenient);
    match lenient.recv(publish("t", payload)) {
        Step::Deliver(_, MqttResponse::Error(message)) => {
            assert_eq!(message.code, 404);
            assert_eq!(message.extra.len(), 1);
            assert_eq!(message.extra[0].0, "hint");
        },
        other => panic!("not delivered: {:?}", other),
    }
}

#[test]
fn other_events_are_noted_and_move_nothing() {
    let mut subscription = Subscription::new(Strictness::Strict);
    subscription.recv(publish("t", REJECTED));
    for (event, note) in [
        (Event::SubAck(7), Note::SubscriptionAcknowledged(7)),
        (Event::PingResp, Note::Pong),
        (Event::OtherIncoming, Note::UnexpectedIncoming),
        (Event::PubAck(8), Note::PublicationAcknowledged(8)),
        (Event::Subscribe(9), Note::Subscribing(9)),
        (Event::PingReq, Note::Ping),
        (Event::OtherOutgoing, Note::UnexpectedOutgoing),
    ] {
        assert_eq!(subscription.recv(event), Step::Continue(note));
        assert_eq!(subscription.phase, Phase::Receiving);
    }
}

#[test]
fn a_failure_of_the_transport_ends_the_subscription_for_good() {
    for before in [Event::Subscribe(1), Event::ConnAck, publish("t", REJECTED)] {
        let mut subscription = Subscription::new(Strictness::Strict);
        subscription.recv(before);
        assert_eq!(subscription.recv(Event::Failure), Step::Closed);
        assert_eq!(subscription.phase, Phase::Failed);
        assert_eq!(subscription.recv(publish("t", REJECTED)), Step::Closed);
        assert_eq!(subscription.recv(Event::ConnAck), Step::Closed);
        assert_eq!(subscription.recv(Event::Failure), Step::Closed);
        assert_eq!(subscription.phase, Phase::Failed);
    }
}

#[test]
fn a_closed_subscription_receives_nothing_more() {
    let mut subscription = Subscription::new(Strictness::Strict);
    subscription.recv(Event::ConnAck);
    assert!(!subscription.ended());
    subscription.close();
    assert_eq!(subscription.phase, Phase::Closed);
    assert!(subscription.ended());
    assert_eq!(subscription.recv(publish("t", REJECTED)), Step::Closed);
    assert_eq!(subscription.recv(Event::Failure), Step::Closed);
    assert_eq!(subscription.phase, Phase::Closed);
    let mut failed = Subscription::new(Strictness::Strict);
    failed.recv(Event::Failure);
    failed.close();
    assert_eq!(failed.phase, Phase::Failed);
    assert!(failed.ended());
}

#[test]
fn what_a_message_was_read_as_decides_the_step() {
    assert_eq!(
        Subscription::publish("t".to_string(), b"p".to_vec(), Ok(rejected())),
        Step::Deliver("t".to_string(), rejected())
    );
    assert_eq!(
        Subscription::publish("t".to_string(), b"p".to_vec(), Err(DecodeError::Syntax)),
        Step::Invalid(DecodeFailure { topic: "t".to_string(), payload: b"p".to_vec(), cause: DecodeError::Syntax })
    );
}
