//! The laws the descriptor obeys, stated over [`MethodView`].
//!
//! Each proof function below states one behavioural guarantee over the
//! same views and state transformers that the contracts in
//! [`crate::method`] use, so the guarantee composes with any chain of
//! calls a caller makes.

use vstd::prelude::*;

use crate::model::{
    fresh_view, set_slot, slot_of, valid_name, with_app_data, with_flags, with_name, MethodView,
};
use crate::slots::SlotId;

verus! {

/// Construction reflects its arguments: a freshly constructed
/// descriptor reports exactly the supplied name and flags, a null
/// application-data word, and no registration in any slot.
pub proof fn lemma_new_reflects_arguments(
    name: Seq<char>,
    flags: i32,
    multi_prime_supported: bool,
)
    ensures
        fresh_view(name, flags, multi_prime_supported).name == name,
        fresh_view(name, flags, multi_prime_supported).flags == flags,
        fresh_view(name, flags, multi_prime_supported).app_data == 0,
        forall|s: SlotId| slot_of(fresh_view(name, flags, multi_prime_supported), s) is None,
{
}

/// Name round trip: after replacing the name with `x`, the descriptor
/// reports exactly `x`, and nothing else has moved.
pub proof fn lemma_set_name_round_trip(v: MethodView, x: Seq<char>)
    ensures
        with_name(v, x).name == x,
        with_name(v, x) == (MethodView { name: x, ..v }),
{
}

/// Flags round trip: after replacing the flag bits with `x`, the
/// descriptor reports exactly `x`, for any bit pattern, and nothing
/// else has moved.
pub proof fn lemma_set_flags_round_trip(v: MethodView, x: i32)
    ensures
        with_flags(v, x).flags == x,
        with_flags(v, x) == (MethodView { flags: x, ..v }),
{
}

/// Application-data identity: after storing the word `p`, the
/// descriptor reports `p` bit for bit — null and sentinel values
/// included, since the word is never read through or checked — and
/// nothing else has moved.
pub proof fn lemma_set_app_data_round_trip(v: MethodView, p: usize)
    ensures
        with_app_data(v, p).app_data == p,
        with_app_data(v, p) == (MethodView { app_data: p, ..v }),
{
}

/// Slot isolation: registering a function in one slot records exactly
/// that function there, leaves every other slot's registration as it
/// was, and leaves the name, flags, application-data word and library
/// capability untouched.
pub proof fn lemma_slot_isolation(v: MethodView, s: SlotId, token: usize)
    ensures
        slot_of(set_slot(v, s, token), s) == Some(token),
        forall|other: SlotId| other != s ==> slot_of(set_slot(v, s, token), other) == slot_of(
            v,
            other,
        ),
        set_slot(v, s, token).name == v.name,
        set_slot(v, s, token).flags == v.flags,
        set_slot(v, s, token).app_data == v.app_data,
        set_slot(v, s, token).multi_prime_supported == v.multi_prime_supported,
{
}

/// Registration preserves well-formedness: a descriptor whose name is
/// representable keeps a representable name through any slot
/// registration.
pub proof fn lemma_set_slot_preserves_valid_name(v: MethodView, s: SlotId, token: usize)
    requires
        valid_name(v.name),
    ensures
        valid_name(set_slot(v, s, token).name),
{
}

} // verus!
