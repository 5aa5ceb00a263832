//! The mathematical view of a descriptor.
//!
//! A [`MethodView`] is everything the host library's structure holds, as
//! plain values: the name as a sequence of characters, the flag bits,
//! the application-data word, the twelve callback slots, and whether the
//! loaded library accepts a multi-prime key-generation registration.
//! Every contract in [`crate::method`] pins the descriptor's behaviour
//! down to a function on these views.

use vstd::prelude::*;

use crate::slots::{
    BnModExpFn, FinishFn, InitFn, KeygenFn, ModExpFn, MultiPrimeKeygenFn, PrivDecFn, PrivEncFn,
    PubDecFn, PubEncFn, SignFn, SlotId, VerifyFn,
};

verus! {

/// The full state of one descriptor.
pub ghost struct MethodView {
    /// The human-readable identifier, one character per element.
    pub name: Seq<char>,
    /// The behavioural flag bits; their meaning belongs to the host
    /// library.
    pub flags: i32,
    /// The opaque caller-owned word; `0` stands for the null address.
    pub app_data: usize,
    pub pub_enc: Option<PubEncFn>,
    pub pub_dec: Option<PubDecFn>,
    pub priv_enc: Option<PrivEncFn>,
    pub priv_dec: Option<PrivDecFn>,
    pub mod_exp: Option<ModExpFn>,
    pub bn_mod_exp: Option<BnModExpFn>,
    pub init: Option<InitFn>,
    pub finish: Option<FinishFn>,
    pub sign: Option<SignFn>,
    pub verify: Option<VerifyFn>,
    pub keygen: Option<KeygenFn>,
    pub multi_prime_keygen: Option<MultiPrimeKeygenFn>,
    /// Whether the loaded host library accepts a multi-prime
    /// key-generation registration.
    pub multi_prime_supported: bool,
}

/// A name the host library's terminated string representation can
/// carry: no embedded terminator character.
pub open spec fn valid_name(name: Seq<char>) -> bool {
    forall|i: int| 0 <= i < name.len() ==> name[i] != '\0'
}

/// The state of a freshly constructed descriptor: the given name and
/// flags, a null application-data word, every slot empty, and the
/// capability of the loaded library.
pub open spec fn fresh_view(name: Seq<char>, flags: i32, multi_prime_supported: bool) -> MethodView {
    MethodView {
        name,
        flags,
        app_data: 0,
        pub_enc: None,
        pub_dec: None,
        priv_enc: None,
        priv_dec: None,
        mod_exp: None,
        bn_mod_exp: None,
        init: None,
        finish: None,
        sign: None,
        verify: None,
        keygen: None,
        multi_prime_keygen: None,
        multi_prime_supported,
    }
}

/// The state after replacing the name.
pub open spec fn with_name(v: MethodView, name: Seq<char>) -> MethodView {
    MethodView { name, ..v }
}

/// The state after replacing the flag bits.
pub open spec fn with_flags(v: MethodView, flags: i32) -> MethodView {
    MethodView { flags, ..v }
}

/// The state after replacing the application-data word.
pub open spec fn with_app_data(v: MethodView, app_data: usize) -> MethodView {
    MethodView { app_data, ..v }
}

/// The registration currently held by one slot: the address-sized word
/// that names the registered function, or `None` for an empty slot.
pub open spec fn slot_of(v: MethodView, s: SlotId) -> Option<usize> {
    match s {
        SlotId::PubEnc => match v.pub_enc {
            Some(f) => Some(f.0),
            None => None,
        },
        SlotId::PubDec => match v.pub_dec {
            Some(f) => Some(f.0),
            None => None,
        },
        SlotId::PrivEnc => match v.priv_enc {
            Some(f) => Some(f.0),
            None => None,
        },
        SlotId::PrivDec => match v.priv_dec {
            Some(f) => Some(f.0),
            None => None,
        },
        SlotId::ModExp => match v.mod_exp {
            Some(f) => Some(f.0),
            None => None,
        },
        SlotId::BnModExp => match v.bn_mod_exp {
            Some(f) => Some(f.0),
            None => None,
        },
        SlotId::Init => match v.init {
            Some(f) => Some(f.0),
            None => None,
        },
        SlotId::Finish => match v.finish {
            Some(f) => Some(f.0),
            None => None,
        },
        SlotId::Sign => match v.sign {
            Some(f) => Some(f.0),
            None => None,
        },
        SlotId::Verify => match v.verify {
            Some(f) => Some(f.0),
            None => None,
        },
        SlotId::Keygen => match v.keygen {
            Some(f) => Some(f.0),
            None => None,
        },
        SlotId::MultiPrimeKeygen => match v.multi_prime_keygen {
            Some(f) => Some(f.0),
            None => None,
        },
    }
}

/// The state after registering the function named `token` in slot `s`:
/// the previous registration of that one slot is replaced, and nothing
/// else moves.
pub open spec fn set_slot(v: MethodView, s: SlotId, token: usize) -> MethodView {
    match s {
        SlotId::PubEnc => MethodView { pub_enc: Some(PubEncFn(token)), ..v },
        SlotId::PubDec => MethodView { pub_dec: Some(PubDecFn(token)), ..v },
        SlotId::PrivEnc => MethodView { priv_enc: Some(PrivEncFn(token)), ..v },
        SlotId::PrivDec => MethodView { priv_dec: Some(PrivDecFn(token)), ..v },
        SlotId::ModExp => MethodView { mod_exp: Some(ModExpFn(token)), ..v },
        SlotId::BnModExp => MethodView { bn_mod_exp: Some(BnModExpFn(token)), ..v },
        SlotId::Init => MethodView { init: Some(InitFn(token)), ..v },
        SlotId::Finish => MethodView { finish: Some(FinishFn(token)), ..v },
        SlotId::Sign => MethodView { sign: Some(SignFn(token)), ..v },
        SlotId::Verify => MethodView { verify: Some(VerifyFn(token)), ..v },
        SlotId::Keygen => MethodView { keygen: Some(KeygenFn(token)), ..v },
        SlotId::MultiPrimeKeygen => (MethodView {
            multi_prime_keygen: Some(MultiPrimeKeygenFn(token)),
            ..v
        }),
    }
}

} // verus!
