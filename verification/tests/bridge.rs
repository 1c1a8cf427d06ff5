use rabbit_bridge::config::{AmqpConfig, ExchangeKind};
use rabbit_bridge::dispatch::{
    BrokerEvent, DispatchAction, Dispatcher, Disposition, HandlerOutcome, LoopState,
    disposition_for, run_consumer,
};
use rabbit_bridge::routing::RoutingKey;
use rabbit_bridge::topology::{TopologyAction, setup_plan};

fn orders_config() -> AmqpConfig {
    AmqpConfig {
        queue_name: "orders".to_string(),
        exchange_name: "events".to_string(),
        exchange_type: ExchangeKind::Topic,
        routing_keys: vec!["order.created".to_string()],
    }
}

#[test]
fn setup_plan_orders_scenario() {
    let plan = setup_plan(&orders_config());
    assert_eq!(plan.len(), 4);
    assert_eq!(
        plan[0],
        TopologyAction::DeclareQueue {
            name: "orders".to_string(),
            durable: true,
            auto_delete: false,
            exclusive: false,
        }
    );
    assert_eq!(
        plan[1],
        TopologyAction::DeclareExchange {
            name: "events".to_string(),
            kind: ExchangeKind::Topic,
            durable: true,
            auto_delete: false,
            internal: false,
        }
    );
    assert_eq!(
        plan[2],
        TopologyAction::Bind {
            queue: "orders".to_string(),
            exchange: "events".to_string(),
            routing_key: "order.created".to_string(),
        }
    );
    assert_eq!(plan[3], TopologyAction::StartConsume { queue: "orders".to_string() });
}

#[test]
fn setup_plan_binds_every_key_in_order() {
    let cfg = AmqpConfig {
        queue_name: "q".to_string(),
        exchange_name: "x".to_string(),
        exchange_type: ExchangeKind::Direct,
        routing_keys: vec![
            "order.created".to_string(),
            "order.updated".to_string(),
            "order.deleted".to_string(),
        ],
    };
    let plan = setup_plan(&cfg);
    assert_eq!(plan.len(), 6);
    for (i, key) in ["order.created", "order.updated", "order.deleted"].iter().enumerate() {
        assert_eq!(
            plan[2 + i],
            TopologyAction::Bind {
                queue: "q".to_string(),
                exchange: "x".to_string(),
                routing_key: key.to_string(),
            }
        );
    }
    assert_eq!(plan[5], TopologyAction::StartConsume { queue: "q".to_string() });
}

#[test]
fn setup_plan_with_no_keys_has_no_binds() {
    let cfg = AmqpConfig {
        queue_name: "q".to_string(),
        exchange_name: "x".to_string(),
        exchange_type: ExchangeKind::Fanout,
        routing_keys: vec![],
    };
    let plan = setup_plan(&cfg);
    assert_eq!(plan.len(), 3);
    assert!(matches!(plan[0], TopologyAction::DeclareQueue { .. }));
    assert!(matches!(plan[1], TopologyAction::DeclareExchange { .. }));
    assert_eq!(plan[2], TopologyAction::StartConsume { queue: "q".to_string() });
}

#[test]
fn decode_recognizes_every_wire_string() {
    assert_eq!(RoutingKey::from_str("order.created"), Ok(RoutingKey::OrderCreated));
    assert_eq!(RoutingKey::from_str("order.updated"), Ok(RoutingKey::OrderUpdated));
    assert_eq!(RoutingKey::from_str("order.deleted"), Ok(RoutingKey::OrderDeleted));
}

#[test]
fn decode_fails_outside_the_recognized_set() {
    assert!(RoutingKey::from_str("unknown.key").is_err());
    assert!(RoutingKey::from_str("").is_err());
    assert!(RoutingKey::from_str("order.create").is_err());
    assert!(RoutingKey::from_str("order.created ").is_err());
    // Deterministic: the same string fails the same way every time.
    assert_eq!(RoutingKey::from_str("unknown.key"), RoutingKey::from_str("unknown.key"));
}

#[test]
fn success_is_acked() {
    assert_eq!(disposition_for(HandlerOutcome::Success), Disposition::Ack);
}

#[test]
fn failure_is_nacked_with_requeue() {
    assert_eq!(disposition_for(HandlerOutcome::Failure), Disposition::Nack { requeue: true });
}

#[test]
fn delivery_hello_is_handed_to_the_handler() {
    let mut dispatcher = Dispatcher::new();
    let event = BrokerEvent::Delivery {
        body: b"hello".to_vec(),
        routing_key: "order.created".to_string(),
    };
    match dispatcher.handle_event(&event) {
        DispatchAction::Deliver { message } => {
            assert_eq!(message.body, "hello");
            assert_eq!(message.routing_key, RoutingKey::OrderCreated);
        },
        _ => panic!("a decodable delivery must reach the handler"),
    }
    assert_eq!(dispatcher.state, LoopState::Consuming);
}

#[test]
fn lossy_body_decoding_replaces_invalid_bytes() {
    let mut dispatcher = Dispatcher::new();
    let event = BrokerEvent::Delivery {
        body: vec![0xff, b'h', b'i'],
        routing_key: "order.created".to_string(),
    };
    match dispatcher.handle_event(&event) {
        DispatchAction::Deliver { message } => {
            assert_eq!(message.body, "\u{FFFD}hi");
        },
        _ => panic!("a decodable delivery must reach the handler"),
    }
}

#[test]
fn empty_body_decodes_to_the_empty_string() {
    let mut dispatcher = Dispatcher::new();
    let event = BrokerEvent::Delivery {
        body: vec![],
        routing_key: "order.deleted".to_string(),
    };
    match dispatcher.handle_event(&event) {
        DispatchAction::Deliver { message } => {
            assert_eq!(message.body, "");
            assert_eq!(message.routing_key, RoutingKey::OrderDeleted);
        },
        _ => panic!("a decodable delivery must reach the handler"),
    }
}

#[test]
fn unrecognized_key_is_nacked_without_requeue() {
    let mut dispatcher = Dispatcher::new();
    let event = BrokerEvent::Delivery {
        body: b"hello".to_vec(),
        routing_key: "unknown.key".to_string(),
    };
    match dispatcher.handle_event(&event) {
        DispatchAction::Dispose { disposition } => {
            assert_eq!(disposition, Disposition::Nack { requeue: false });
        },
        _ => panic!("an undecodable delivery must be disposed of without the handler"),
    }
    // The loop continues: the dispatcher still consumes.
    assert_eq!(dispatcher.state, LoopState::Consuming);
}

#[test]
fn non_delivery_event_stops_the_loop() {
    let mut dispatcher = Dispatcher::new();
    match dispatcher.handle_event(&BrokerEvent::Other) {
        DispatchAction::Stop => {},
        _ => panic!("a non-delivery event must stop the loop"),
    }
    assert_eq!(dispatcher.state, LoopState::Stopped);
}

#[test]
fn dispositions_come_in_receipt_order_and_stop_at_the_first_non_delivery() {
    let events = vec![
        BrokerEvent::Delivery {
            body: b"a".to_vec(),
            routing_key: "order.created".to_string(),
        },
        BrokerEvent::Delivery {
            body: b"b".to_vec(),
            routing_key: "order.updated".to_string(),
        },
        BrokerEvent::Delivery {
            body: b"c".to_vec(),
            routing_key: "unknown.key".to_string(),
        },
        BrokerEvent::Other,
        BrokerEvent::Delivery {
            body: b"d".to_vec(),
            routing_key: "order.created".to_string(),
        },
    ];
    let outcomes = vec![
        HandlerOutcome::Success,
        HandlerOutcome::Failure,
        HandlerOutcome::Success,
        HandlerOutcome::Success,
        HandlerOutcome::Success,
    ];
    let dispositions = run_consumer(&events, &outcomes);
    // One disposition per delivery before the stop, in receipt order; the
    // non-delivery event and everything after it get none.
    assert_eq!(
        dispositions,
        vec![
            Disposition::Ack,
            Disposition::Nack { requeue: true },
            Disposition::Nack { requeue: false },
        ]
    );
}
