//! The topology configurator: computes the exact ordered sequence of broker
//! calls that establishes the queue, the exchange and the bindings, with the
//! consume call last. Executing the actions in order against an open channel
//! (and aborting on the first failure) is the caller's side; the sequence
//! itself, and that every bind precedes the consume call, is decided and
//! proved here.

use vstd::prelude::*;
use crate::config::{AmqpConfig, ConfigModel, ExchangeKind};

verus! {

/// One step of broker-side topology setup. The queue is always declared
/// durable, non-exclusive, non-auto-delete; the exchange durable,
/// non-internal, non-auto-delete.
#[derive(Debug, PartialEq, Eq)]
pub enum TopologyAction {
    DeclareQueue { name: String, durable: bool, auto_delete: bool, exclusive: bool },
    DeclareExchange { name: String, kind: ExchangeKind, durable: bool, auto_delete: bool, internal: bool },
    Bind { queue: String, exchange: String, routing_key: String },
    StartConsume { queue: String },
}

/// Model of a topology action: every string as a character sequence.
pub ghost enum ActionModel {
    DeclareQueue { name: Seq<char>, durable: bool, auto_delete: bool, exclusive: bool },
    DeclareExchange { name: Seq<char>, kind: ExchangeKind, durable: bool, auto_delete: bool, internal: bool },
    Bind { queue: Seq<char>, exchange: Seq<char>, routing_key: Seq<char> },
    StartConsume { queue: Seq<char> },
}

impl View for TopologyAction {
    type V = ActionModel;

    open spec fn view(&self) -> ActionModel {
        match self {
            TopologyAction::DeclareQueue { name, durable, auto_delete, exclusive } => {
                ActionModel::DeclareQueue {
                    name: name@,
                    durable: *durable,
                    auto_delete: *auto_delete,
                    exclusive: *exclusive,
                }
            },
            TopologyAction::DeclareExchange { name, kind, durable, auto_delete, internal } => {
                ActionModel::DeclareExchange {
                    name: name@,
                    kind: *kind,
                    durable: *durable,
                    auto_delete: *auto_delete,
                    internal: *internal,
                }
            },
            TopologyAction::Bind { queue, exchange, routing_key } => {
                ActionModel::Bind { queue: queue@, exchange: exchange@, routing_key: routing_key@ }
            },
            TopologyAction::StartConsume { queue } => {
                ActionModel::StartConsume { queue: queue@ }
            },
        }
    }
}

/// The model of a whole plan: each action's model, in order.
pub open spec fn plan_model(plan: Seq<TopologyAction>) -> Seq<ActionModel> {
    plan.map_values(|a: TopologyAction| a@)
}

/// The exact sequence of broker calls that sets up the topology: declare the
/// durable queue, declare the durable exchange, bind the queue once per
/// routing key in configuration order, then start consuming.
pub open spec fn plan_of(cfg: ConfigModel) -> Seq<ActionModel> {
    seq![
        ActionModel::DeclareQueue {
            name: cfg.queue_name,
            durable: true,
            auto_delete: false,
            exclusive: false,
        },
        ActionModel::DeclareExchange {
            name: cfg.exchange_name,
            kind: cfg.exchange_type,
            durable: true,
            auto_delete: false,
            internal: false,
        },
    ] + cfg.routing_keys.map_values(
        |k: Seq<char>| ActionModel::Bind {
            queue: cfg.queue_name,
            exchange: cfg.exchange_name,
            routing_key: k,
        },
    ) + seq![ActionModel::StartConsume { queue: cfg.queue_name }]
}

/// Compute the setup plan for a configuration. Setup is all-or-nothing: the
/// caller runs the actions in order against one channel and aborts the whole
/// setup on the first failure, so consumption never starts before every
/// declare and bind has completed.
pub fn setup_plan(cfg: &AmqpConfig) -> (plan: Vec<TopologyAction>)
    ensures
        plan_model(plan@) == plan_of(cfg@),
{
    let mut plan: Vec<TopologyAction> = Vec::new();
    plan.push(TopologyAction::DeclareQueue {
        name: cfg.queue_name.clone(),
        durable: true,
        auto_delete: false,
        exclusive: false,
    });
    plan.push(TopologyAction::DeclareExchange {
        name: cfg.exchange_name.clone(),
        kind: cfg.exchange_type,
        durable: true,
        auto_delete: false,
        internal: false,
    });
    let mut i: usize = 0;
    while i < cfg.routing_keys.len()
        invariant
            i <= cfg.routing_keys@.len(),
            plan@.len() == 2 + i,
            plan_model(plan@) == plan_of(cfg@).take(2 + i as int),
        decreases cfg.routing_keys@.len() - i,
    {
        plan.push(TopologyAction::Bind {
            queue: cfg.queue_name.clone(),
            exchange: cfg.exchange_name.clone(),
            routing_key: cfg.routing_keys[i].clone(),
        });
        i = i + 1;
        proof {
            assert(plan_model(plan@) =~= plan_of(cfg@).take(2 + i as int));
        }
    }
    let ghost pre = plan@;
    plan.push(TopologyAction::StartConsume { queue: cfg.queue_name.clone() });
    proof {
        assert(forall|j: int| 0 <= j < pre.len()
            ==> plan_model(pre)[j] == plan_of(cfg@).take(pre.len() as int)[j]);
        assert(forall|j: int| 0 <= j < pre.len()
            ==> plan_of(cfg@).take(pre.len() as int)[j] == plan_of(cfg@)[j]);
        assert(plan_model(plan@) =~= plan_of(cfg@));
    }
    plan
}

/// Law: for a configuration with N routing keys the plan performs exactly
/// N binds — the i-th bind carrying the i-th key — and every bind stands
/// after both declares and before the consume action, which is last.
pub proof fn lemma_binds_precede_consume(cfg: ConfigModel)
    ensures
        plan_of(cfg).len() == cfg.routing_keys.len() + 3,
        forall|i: int| 0 <= i < cfg.routing_keys.len() ==> plan_of(cfg)[2 + i]
            == (ActionModel::Bind {
                queue: cfg.queue_name,
                exchange: cfg.exchange_name,
                routing_key: cfg.routing_keys[i],
            }),
        forall|j: int| 0 <= j < plan_of(cfg).len() && plan_of(cfg)[j] is Bind
            ==> 2 <= j < plan_of(cfg).len() - 1,
        plan_of(cfg)[0] == (ActionModel::DeclareQueue {
            name: cfg.queue_name,
            durable: true,
            auto_delete: false,
            exclusive: false,
        }),
        plan_of(cfg)[1] == (ActionModel::DeclareExchange {
            name: cfg.exchange_name,
            kind: cfg.exchange_type,
            durable: true,
            auto_delete: false,
            internal: false,
        }),
        plan_of(cfg).last() == (ActionModel::StartConsume { queue: cfg.queue_name }),
{
}

} // verus!
