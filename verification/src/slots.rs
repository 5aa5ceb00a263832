//! The twelve callback slots of a descriptor.
//!
//! Each slot accepts a function of a fixed, operation-specific shape.
//! The descriptor never invokes a registered function itself: it only
//! records which function the host library must call for the
//! corresponding RSA sub-operation. A registered function is therefore
//! modelled by its identity alone: the address-sized word that names it.
//! One distinct wrapper type per slot keeps a registration for one
//! operation from being handed to a setter for another.

use vstd::prelude::*;

verus! {

/// Names one of the twelve callback slots.
#[derive(Clone, Copy, Debug, PartialEq, Eq, Structural)]
pub enum SlotId {
    PubEnc,
    PubDec,
    PrivEnc,
    PrivDec,
    ModExp,
    BnModExp,
    Init,
    Finish,
    Sign,
    Verify,
    Keygen,
    MultiPrimeKeygen,
}

/// A public-encrypt function: (length, input, output, descriptor
/// reference, padding mode) -> result code.
#[derive(Clone, Copy, Debug, PartialEq, Eq, Structural)]
pub struct PubEncFn(pub usize);

/// A public-decrypt function: (length, input, output, descriptor
/// reference, padding mode) -> result code.
#[derive(Clone, Copy, Debug, PartialEq, Eq, Structural)]
pub struct PubDecFn(pub usize);

/// A private-encrypt function: (length, input, output, descriptor
/// reference, padding mode) -> result code.
#[derive(Clone, Copy, Debug, PartialEq, Eq, Structural)]
pub struct PrivEncFn(pub usize);

/// A private-decrypt function: (length, input, output, descriptor
/// reference, padding mode) -> result code.
#[derive(Clone, Copy, Debug, PartialEq, Eq, Structural)]
pub struct PrivDecFn(pub usize);

/// A modular-exponentiation function: (output big integer, input big
/// integer, descriptor reference, scratch context) -> result code.
#[derive(Clone, Copy, Debug, PartialEq, Eq, Structural)]
pub struct ModExpFn(pub usize);

/// A big-number modular-exponentiation function: (output, base,
/// exponent, modulus, scratch context, Montgomery context) -> result
/// code.
#[derive(Clone, Copy, Debug, PartialEq, Eq, Structural)]
pub struct BnModExpFn(pub usize);

/// An initialisation hook, invoked when the host library constructs an
/// RSA object over this descriptor: (descriptor reference) -> result
/// code.
#[derive(Clone, Copy, Debug, PartialEq, Eq, Structural)]
pub struct InitFn(pub usize);

/// A finalisation hook, invoked when the host library destroys an RSA
/// object over this descriptor: (descriptor reference) -> result code.
#[derive(Clone, Copy, Debug, PartialEq, Eq, Structural)]
pub struct FinishFn(pub usize);

/// A signing function: (digest type tag, digest, digest length,
/// signature output, signature length output, descriptor reference) ->
/// result code.
#[derive(Clone, Copy, Debug, PartialEq, Eq, Structural)]
pub struct SignFn(pub usize);

/// A verification function: (digest type tag, digest, digest length,
/// signature, signature length, descriptor reference) -> result code.
#[derive(Clone, Copy, Debug, PartialEq, Eq, Structural)]
pub struct VerifyFn(pub usize);

/// A key-generation function: (descriptor reference, bit length, public
/// exponent, progress callback) -> result code.
#[derive(Clone, Copy, Debug, PartialEq, Eq, Structural)]
pub struct KeygenFn(pub usize);

/// A multi-prime key-generation function: (descriptor reference, bit
/// length, prime count, public exponent, progress callback) -> result
/// code. Only a sufficiently recent host library accepts it.
#[derive(Clone, Copy, Debug, PartialEq, Eq, Structural)]
pub struct MultiPrimeKeygenFn(pub usize);

} // verus!
