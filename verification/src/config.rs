//! The broker-side topology configuration: one queue, one exchange, and an
//! ordered list of routing keys to bind the queue under.

use vstd::prelude::*;

verus! {

/// The kind of exchange the topology declares.
#[derive(Clone, Copy, Debug, PartialEq, Eq, Structural)]
pub enum ExchangeKind {
    Direct,
    Fanout,
    Topic,
    Headers,
}

/// Topology parameters, supplied once at startup and read-only afterward:
/// the queue to consume from, the exchange it is bound to, the exchange's
/// kind, and the ordered routing keys under which the queue is bound.
pub struct AmqpConfig {
    pub queue_name: String,
    pub exchange_name: String,
    pub exchange_type: ExchangeKind,
    pub routing_keys: Vec<String>,
}

/// Mathematical model of an `AmqpConfig`: every string as a character
/// sequence.
pub ghost struct ConfigModel {
    pub queue_name: Seq<char>,
    pub exchange_name: Seq<char>,
    pub exchange_type: ExchangeKind,
    pub routing_keys: Seq<Seq<char>>,
}

impl View for AmqpConfig {
    type V = ConfigModel;

    open spec fn view(&self) -> ConfigModel {
        ConfigModel {
            queue_name: self.queue_name@,
            exchange_name: self.exchange_name@,
            exchange_type: self.exchange_type,
            routing_keys: self.routing_keys@.map_values(|k: String| k@),
        }
    }
}

} // verus!
