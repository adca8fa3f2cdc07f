use serde_json::Value;
use whistle::event::InboundEvent;
use whistle::payload::transform;
use whistle::relay::{after_post, health_reply, next_step, not_found_reply, plan, Delivery, Reply, Step, STATUS_NOT_FOUND, STATUS_OK};
use whistle::routing::RoutingTable;

const TABLE: &str = r#"[{"path":"alpha","url":"https://example/hook"}]"#;

fn json(text: &str) -> Value {
    serde_json::from_str(text).unwrap()
}

fn body(close: &str, open: &str) -> Value {
    json(&format!(
        r#"{{"exchange":"X","ticker":"BTC","close":"{close}","open":"{open}","volume":"1","event":"tick","interval":"1m"}}"#
    ))
}

fn not_found() -> Reply {
    Reply { status: 404, body: "Not found".to_string() }
}

#[test]
fn statuses_are_200_and_404() {
    assert_eq!(STATUS_OK, 200);
    assert_eq!(STATUS_NOT_FOUND, 404);
}

#[test]
fn health_is_200_healthy() {
    assert_eq!(health_reply(), Reply { status: 200, body: "Healthy".to_string() });
}

#[test]
fn not_found_is_404() {
    assert_eq!(not_found_reply(), not_found());
}

#[test]
fn after_a_response_the_answer_is_success() {
    assert_eq!(after_post(Delivery::Responded), Reply { status: 200, body: "Content sent to Discord".to_string() });
}

#[test]
fn after_a_transport_error_the_answer_is_not_found() {
    assert_eq!(after_post(Delivery::TransportError), not_found());
}

#[test]
fn happy_structured_path() {
    match plan(Some(TABLE), "alpha", &body("9", "10")) {
        Step::Post { url, payload } => {
            assert_eq!(url, "https://example/hook");
            assert_eq!(payload.embeds.len(), 1);
            assert!(payload.embeds[0].description.contains("Open: 10\nClose: 9\nInterval: 1m\nVolume: 1\n"));
            assert_eq!(payload.embeds[0].author.name, "Whistle: BTC tick at X");
            // "9" does not come before "10" in the order of strings.
            assert_eq!(payload.embeds[0].color, 65280);
        }
        Step::Answer(reply) => panic!("answered {reply:?}"),
    }
    assert_eq!(after_post(Delivery::Responded).status, 200);
}

#[test]
fn red_path() {
    match plan(Some(TABLE), "alpha", &body("10", "9")) {
        Step::Post { url, payload } => {
            assert_eq!(url, "https://example/hook");
            assert_eq!(payload.embeds[0].color, 16711680);
        }
        Step::Answer(reply) => panic!("answered {reply:?}"),
    }
}

#[test]
fn green_path() {
    match plan(Some(TABLE), "alpha", &body("11", "10")) {
        Step::Post { url, payload } => {
            assert_eq!(url, "https://example/hook");
            assert_eq!(payload.embeds[0].color, 65280);
        }
        Step::Answer(reply) => panic!("answered {reply:?}"),
    }
}

#[test]
fn equal_prices() {
    match plan(Some(TABLE), "alpha", &body("10", "10")) {
        Step::Post { payload, .. } => assert_eq!(payload.embeds[0].color, 65280),
        Step::Answer(reply) => panic!("answered {reply:?}"),
    }
}

#[test]
fn unknown_path() {
    for b in [body("9", "10"), json("\"hello\""), json("null"), json("{}")] {
        assert_eq!(plan(Some(TABLE), "beta", &b), Step::Answer(not_found()));
    }
}

#[test]
fn unstructured_payload() {
    match plan(Some(TABLE), "alpha", &json("\"hello\"")) {
        Step::Post { url, payload } => {
            assert_eq!(url, "https://example/hook");
            assert_eq!(payload.embeds[0].color, 16761035);
            assert_eq!(payload.embeds[0].description, "Event: \"hello\"");
        }
        Step::Answer(reply) => panic!("answered {reply:?}"),
    }
}

#[test]
fn url_encoded_configuration() {
    let raw = "%5B%7B%22path%22%3A%22a%22%2C%22url%22%3A%22https%3A%2F%2Fe%2Fh%22%7D%5D";
    match plan(Some(raw), "a", &json("1")) {
        Step::Post { url, payload } => {
            assert_eq!(url, "https://e/h");
            assert_eq!(payload.embeds[0].description, "Event: 1");
        }
        Step::Answer(reply) => panic!("answered {reply:?}"),
    }
}

#[test]
fn unset_or_unreadable_configuration_answers_not_found() {
    let b = body("1", "2");
    for config in [None, Some(""), Some("%FF"), Some("oops"), Some("{}"), Some("[]"), Some("\"alpha\"")] {
        assert_eq!(plan(config, "alpha", &b), Step::Answer(not_found()), "{config:?}");
    }
}

#[test]
fn entry_without_an_address_answers_not_found() {
    let config = r#"[{"path":"alpha"},{"path":"alpha","url":"https://late"}]"#;
    assert_eq!(plan(Some(config), "alpha", &json("{}")), Step::Answer(not_found()));
}

#[test]
fn each_request_sees_the_configuration_given_with_it() {
    let b = json("{}");
    let first = r#"[{"path":"alpha","url":"https://one"}]"#;
    let second = r#"[{"path":"alpha","url":"https://two"},{"path":"beta","url":"https://three"}]"#;
    let url_of = |step: Step| match step {
        Step::Post { url, .. } => Some(url),
        Step::Answer(_) => None,
    };
    assert_eq!(url_of(plan(Some(first), "alpha", &b)), Some("https://one".to_string()));
    assert_eq!(url_of(plan(Some(first), "beta", &b)), None);
    assert_eq!(url_of(plan(Some(second), "alpha", &b)), Some("https://two".to_string()));
    assert_eq!(url_of(plan(Some(second), "beta", &b)), Some("https://three".to_string()));
    assert_eq!(url_of(plan(None, "alpha", &b)), None);
    assert_eq!(url_of(plan(Some(first), "alpha", &b)), Some("https://one".to_string()));
}

#[test]
fn next_step_posts_the_transformed_event_to_the_resolved_address() {
    let table = RoutingTable::parse(TABLE).unwrap();
    let event = InboundEvent::from_json(&body("1", "2"));
    assert_eq!(
        next_step(&table, "alpha", &event),
        Step::Post { url: table.resolve("alpha").unwrap(), payload: transform(&event) }
    );
    assert_eq!(next_step(&table, "gamma", &event), Step::Answer(not_found()));
    assert_eq!(next_step(&RoutingTable::empty(), "alpha", &event), Step::Answer(not_found()));
}

#[test]
fn plan_agrees_with_its_parts() {
    let b = body("5", "6");
    assert_eq!(
        plan(Some(TABLE), "alpha", &b),
        next_step(&RoutingTable::from_config(Some(TABLE)), "alpha", &InboundEvent::from_json(&b))
    );
}
