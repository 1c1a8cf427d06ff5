//! The routing-key decoder: a pure, total mapping from the closed set of
//! recognized wire strings to typed routing keys, failing deterministically
//! on every string outside that set.

use vstd::prelude::*;

verus! {

/// A decoded routing key. The set of variants is closed and fixed at build
/// time; every value in circulation comes from a successful decode of
/// exactly one recognized wire string.
#[derive(Clone, Copy, Debug, PartialEq, Eq, Structural)]
pub enum RoutingKey {
    OrderCreated,
    OrderUpdated,
    OrderDeleted,
}

/// The error a wire string outside the recognized set decodes to.
#[derive(Clone, Copy, Debug, PartialEq, Eq, Structural)]
pub struct DecodeError;

/// The wire string that each routing key stands for.
pub open spec fn wire_of(k: RoutingKey) -> Seq<char> {
    match k {
        RoutingKey::OrderCreated => "order.created"@,
        RoutingKey::OrderUpdated => "order.updated"@,
        RoutingKey::OrderDeleted => "order.deleted"@,
    }
}

/// What decoding a wire string yields: the recognized key it spells, or
/// nothing for a string outside the recognized set.
pub open spec fn decode_of(s: Seq<char>) -> Option<RoutingKey> {
    if s == wire_of(RoutingKey::OrderCreated) {
        Some(RoutingKey::OrderCreated)
    } else if s == wire_of(RoutingKey::OrderUpdated) {
        Some(RoutingKey::OrderUpdated)
    } else if s == wire_of(RoutingKey::OrderDeleted) {
        Some(RoutingKey::OrderDeleted)
    } else {
        None
    }
}

/// String equality on character sequences, built from `to_owned` and
/// `String` equality, both specified by vstd.
fn str_eq(a: &str, b: &str) -> (r: bool)
    ensures
        r == (a@ == b@),
{
    let sa: String = a.to_owned();
    let sb: String = b.to_owned();
    sa == sb
}

impl RoutingKey {
    /// Decode a wire routing-key string. Succeeds exactly on the recognized
    /// set, and returns `DecodeError` for every other string.
    pub fn from_str(s: &str) -> (r: Result<RoutingKey, DecodeError>)
        ensures
            match r {
                Ok(k) => decode_of(s@) == Some(k),
                Err(_) => decode_of(s@) is None,
            },
    {
        if str_eq(s, "order.created") {
            Ok(RoutingKey::OrderCreated)
        } else if str_eq(s, "order.updated") {
            Ok(RoutingKey::OrderUpdated)
        } else if str_eq(s, "order.deleted") {
            Ok(RoutingKey::OrderDeleted)
        } else {
            Err(DecodeError)
        }
    }
}

/// Law: the decoder is total on the recognized set — the wire string of
/// every routing key decodes back to exactly that key.
pub proof fn lemma_decode_total(k: RoutingKey)
    ensures
        decode_of(wire_of(k)) == Some(k),
{
    reveal_strlit("order.created");
    reveal_strlit("order.updated");
    reveal_strlit("order.deleted");
    assert("order.created"@[6] == 'c');
    assert("order.updated"@[6] == 'u');
    assert("order.deleted"@[6] == 'd');
}

/// Law: decoding succeeds exactly on the recognized set, and a successful
/// decode identifies the one wire string it came from.
pub proof fn lemma_decode_sound(s: Seq<char>)
    ensures
        decode_of(s) matches Some(k) ==> wire_of(k) == s,
        decode_of(s) is Some <==> (exists|k: RoutingKey| wire_of(k) == s),
{
    if decode_of(s) is Some {
        let k = decode_of(s)->Some_0;
        assert(wire_of(k) == s);
    }
    if exists|k: RoutingKey| wire_of(k) == s {
        let k = choose|k: RoutingKey| wire_of(k) == s;
        match k {
            RoutingKey::OrderCreated => assert(decode_of(s) is Some),
            RoutingKey::OrderUpdated => assert(decode_of(s) is Some),
            RoutingKey::OrderDeleted => assert(decode_of(s) is Some),
        }
    }
}

} // verus!
