//! The owned descriptor handle.
//!
//! An [`RsaMethod`] is the single owner of one descriptor's state. The
//! host library's structure lives behind an opaque foreign handle at
//! the process boundary; this type carries the same state as plain
//! values, so that every mutation and every query can be given an exact
//! contract over [`MethodView`]. Destruction needs no bookkeeping here:
//! the descriptor is a plain owned value, dropped exactly once when the
//! owner goes out of scope, and duplication builds an independent copy
//! rather than a second reference.

use vstd::prelude::*;

use crate::error::MethodError;
use crate::model::{
    fresh_view, set_slot, valid_name, with_app_data, with_flags, with_name, MethodView,
};
use crate::slots::{
    BnModExpFn, FinishFn, InitFn, KeygenFn, ModExpFn, MultiPrimeKeygenFn, PrivDecFn, PrivEncFn,
    PubDecFn, PubEncFn, SignFn, SlotId, VerifyFn,
};

verus! {

/// An owned RSA algorithm descriptor.
///
/// All state is mediated through the methods below; a failed operation
/// leaves the descriptor exactly as it was.
#[derive(Clone, Debug)]
pub struct RsaMethod {
    name: String,
    flags: i32,
    app_data: usize,
    pub_enc: Option<PubEncFn>,
    pub_dec: Option<PubDecFn>,
    priv_enc: Option<PrivEncFn>,
    priv_dec: Option<PrivDecFn>,
    mod_exp: Option<ModExpFn>,
    bn_mod_exp: Option<BnModExpFn>,
    init: Option<InitFn>,
    finish: Option<FinishFn>,
    sign: Option<SignFn>,
    verify: Option<VerifyFn>,
    keygen: Option<KeygenFn>,
    multi_prime_keygen: Option<MultiPrimeKeygenFn>,
    multi_prime_supported: bool,
}

impl View for RsaMethod {
    type V = MethodView;

    closed spec fn view(&self) -> MethodView {
        MethodView {
            name: self.name@,
            flags: self.flags,
            app_data: self.app_data,
            pub_enc: self.pub_enc,
            pub_dec: self.pub_dec,
            priv_enc: self.priv_enc,
            priv_dec: self.priv_dec,
            mod_exp: self.mod_exp,
            bn_mod_exp: self.bn_mod_exp,
            init: self.init,
            finish: self.finish,
            sign: self.sign,
            verify: self.verify,
            keygen: self.keygen,
            multi_prime_keygen: self.multi_prime_keygen,
            multi_prime_supported: self.multi_prime_supported,
        }
    }
}

/// Whether `name` can be carried by the host library's terminated
/// string representation, that is, holds no embedded terminator.
fn name_is_representable(name: &str) -> (r: bool)
    ensures
        r == valid_name(name@),
{
    let n = name.unicode_len();
    let mut i: usize = 0;
    while i < n
        invariant
            n == name@.len(),
            i <= n,
            forall|j: int| 0 <= j < i ==> name@[j] != '\0',
        decreases n - i,
    {
        if name.get_char(i) == '\0' {
            return false;
        }
        i += 1;
    }
    true
}

impl RsaMethod {
    /// A descriptor holds only state the host library can represent:
    /// its name carries no embedded terminator.
    pub open spec fn wf(&self) -> bool {
        valid_name(self@.name)
    }

    /// Creates a descriptor for a host library of the given capability:
    /// `multi_prime_supported` says whether the loaded library accepts
    /// a multi-prime key-generation registration.
    ///
    /// Succeeds exactly when `name` is representable; every slot starts
    /// empty and the application-data word starts null.
    pub fn new_with_capability(name: &str, flags: i32, multi_prime_supported: bool) -> (r: Result<
        RsaMethod,
        MethodError,
    >)
        ensures
            r is Ok <==> valid_name(name@),
            r matches Ok(m) ==> m@ == fresh_view(name@, flags, multi_prime_supported) && m.wf(),
            r matches Err(e) ==> e == MethodError::Encoding,
    {
        if !name_is_representable(name) {
            return Err(MethodError::Encoding);
        }
        Ok(RsaMethod {
            name: name.to_owned(),
            flags,
            app_data: 0,
            pub_enc: None,
            pub_dec: None,
            priv_enc: None,
            priv_dec: None,
            mod_exp: None,
            bn_mod_exp: None,
            init: None,
            finish: None,
            sign: None,
            verify: None,
            keygen: None,
            multi_prime_keygen: None,
            multi_prime_supported,
        })
    }

    /// Creates a descriptor with the given name and flag bits, for the
    /// currently loaded host library, which accepts every slot.
    ///
    /// Succeeds exactly when `name` is representable.
    pub fn new(name: &str, flags: i32) -> (r: Result<RsaMethod, MethodError>)
        ensures
            r is Ok <==> valid_name(name@),
            r matches Ok(m) ==> m@ == fresh_view(name@, flags, true) && m.wf(),
            r matches Err(e) ==> e == MethodError::Encoding,
    {
        RsaMethod::new_with_capability(name, flags, true)
    }

    /// Produces an independently owned deep copy: the duplicate carries
    /// the descriptor's entire state at this moment — name, flags,
    /// application-data word and every slot — and afterwards neither
    /// copy's mutations can reach the other.
    pub fn duplicate(&self) -> (r: Result<RsaMethod, MethodError>)
        ensures
            r matches Ok(m) && m@ == self@,
    {
        Ok(RsaMethod { name: self.name.clone(), ..*self })
    }

    /// Returns the descriptor's name.
    pub fn get_name(&self) -> (r: Result<String, MethodError>)
        ensures
            r matches Ok(s) && s@ == self@.name,
    {
        Ok(self.name.clone())
    }

    /// Replaces the descriptor's name.
    ///
    /// Succeeds exactly when `name` is representable; on failure the
    /// prior name stands.
    pub fn set_name(&mut self, name: &str) -> (r: Result<(), MethodError>)
        ensures
            r is Ok <==> valid_name(name@),
            r is Ok ==> final(self)@ == with_name(old(self)@, name@) && final(self).wf(),
            r matches Err(e) ==> e == MethodError::Encoding && final(self)@ == old(self)@,
    {
        if !name_is_representable(name) {
            return Err(MethodError::Encoding);
        }
        self.name = name.to_owned();
        Ok(())
    }

    /// Returns the descriptor's flag bits.
    pub fn get_flags(&self) -> (r: Result<i32, MethodError>)
        ensures
            r == Ok::<i32, MethodError>(self@.flags),
    {
        Ok(self.flags)
    }

    /// Replaces the descriptor's flag bits.
    pub fn set_flags(&mut self, flags: i32) -> (r: Result<(), MethodError>)
        ensures
            r is Ok,
            final(self)@ == with_flags(old(self)@, flags),
    {
        self.flags = flags;
        Ok(())
    }

    /// Returns the application-data word, bit for bit as it was last
    /// set; `0` stands for the null address.
    pub fn get_app_data(&self) -> (r: Result<usize, MethodError>)
        ensures
            r == Ok::<usize, MethodError>(self@.app_data),
    {
        Ok(self.app_data)
    }

    /// Replaces the application-data word.
    ///
    /// The word is an opaque address-sized value: the descriptor never
    /// reads through it, never frees it, and never checks it — whatever
    /// it designates remains entirely the caller's responsibility.
    pub fn set_app_data(&mut self, app_data: usize) -> (r: Result<(), MethodError>)
        ensures
            r is Ok,
            final(self)@ == with_app_data(old(self)@, app_data),
    {
        self.app_data = app_data;
        Ok(())
    }

    /// Whether the loaded host library accepts a multi-prime
    /// key-generation registration.
    pub fn multi_prime_keygen_supported(&self) -> (r: bool)
        ensures
            r == self@.multi_prime_supported,
    {
        self.multi_prime_supported
    }

    /// Registers the public-encrypt function, replacing any previous
    /// registration of that slot and touching nothing else.
    pub fn set_pub_enc(&mut self, pub_enc: PubEncFn) -> (r: Result<(), MethodError>)
        ensures
            r is Ok,
            final(self)@ == set_slot(old(self)@, SlotId::PubEnc, pub_enc.0),
    {
        self.pub_enc = Some(pub_enc);
        Ok(())
    }

    /// Registers the public-decrypt function, replacing any previous
    /// registration of that slot and touching nothing else.
    pub fn set_pub_dec(&mut self, pub_dec: PubDecFn) -> (r: Result<(), MethodError>)
        ensures
            r is Ok,
            final(self)@ == set_slot(old(self)@, SlotId::PubDec, pub_dec.0),
    {
        self.pub_dec = Some(pub_dec);
        Ok(())
    }

    /// Registers the private-encrypt function, replacing any previous
    /// registration of that slot and touching nothing else.
    pub fn set_priv_enc(&mut self, priv_enc: PrivEncFn) -> (r: Result<(), MethodError>)
        ensures
            r is Ok,
            final(self)@ == set_slot(old(self)@, SlotId::PrivEnc, priv_enc.0),
    {
        self.priv_enc = Some(priv_enc);
        Ok(())
    }

    /// Registers the private-decrypt function, replacing any previous
    /// registration of that slot and touching nothing else.
    pub fn set_priv_dec(&mut self, priv_dec: PrivDecFn) -> (r: Result<(), MethodError>)
        ensures
            r is Ok,
            final(self)@ == set_slot(old(self)@, SlotId::PrivDec, priv_dec.0),
    {
        self.priv_dec = Some(priv_dec);
        Ok(())
    }

    /// Registers the modular-exponentiation function, replacing any
    /// previous registration of that slot and touching nothing else.
    pub fn set_mod_exp(&mut self, mod_exp: ModExpFn) -> (r: Result<(), MethodError>)
        ensures
            r is Ok,
            final(self)@ == set_slot(old(self)@, SlotId::ModExp, mod_exp.0),
    {
        self.mod_exp = Some(mod_exp);
        Ok(())
    }

    /// Registers the big-number modular-exponentiation function,
    /// replacing any previous registration of that slot and touching
    /// nothing else.
    pub fn set_bn_mod_exp(&mut self, bn_mod_exp: BnModExpFn) -> (r: Result<(), MethodError>)
        ensures
            r is Ok,
            final(self)@ == set_slot(old(self)@, SlotId::BnModExp, bn_mod_exp.0),
    {
        self.bn_mod_exp = Some(bn_mod_exp);
        Ok(())
    }

    /// Registers the initialisation hook, replacing any previous
    /// registration of that slot and touching nothing else.
    pub fn set_init(&mut self, init: InitFn) -> (r: Result<(), MethodError>)
        ensures
            r is Ok,
            final(self)@ == set_slot(old(self)@, SlotId::Init, init.0),
    {
        self.init = Some(init);
        Ok(())
    }

    /// Registers the finalisation hook, replacing any previous
    /// registration of that slot and touching nothing else.
    pub fn set_finish(&mut self, finish: FinishFn) -> (r: Result<(), MethodError>)
        ensures
            r is Ok,
            final(self)@ == set_slot(old(self)@, SlotId::Finish, finish.0),
    {
        self.finish = Some(finish);
        Ok(())
    }

    /// Registers the signing function, replacing any previous
    /// registration of that slot and touching nothing else.
    pub fn set_sign(&mut self, sign: SignFn) -> (r: Result<(), MethodError>)
        ensures
            r is Ok,
            final(self)@ == set_slot(old(self)@, SlotId::Sign, sign.0),
    {
        self.sign = Some(sign);
        Ok(())
    }

    /// Registers the verification function, replacing any previous
    /// registration of that slot and touching nothing else.
    pub fn set_verify(&mut self, verify: VerifyFn) -> (r: Result<(), MethodError>)
        ensures
            r is Ok,
            final(self)@ == set_slot(old(self)@, SlotId::Verify, verify.0),
    {
        self.verify = Some(verify);
        Ok(())
    }

    /// Registers the key-generation function, replacing any previous
    /// registration of that slot and touching nothing else.
    pub fn set_keygen(&mut self, keygen: KeygenFn) -> (r: Result<(), MethodError>)
        ensures
            r is Ok,
            final(self)@ == set_slot(old(self)@, SlotId::Keygen, keygen.0),
    {
        self.keygen = Some(keygen);
        Ok(())
    }

    /// Registers the multi-prime key-generation function, replacing any
    /// previous registration of that slot and touching nothing else.
    ///
    /// Succeeds exactly when the loaded host library supports the slot;
    /// on an unsupported library the registration is rejected and the
    /// descriptor stands unchanged.
    pub fn set_multi_prime_keygen(&mut self, keygen: MultiPrimeKeygenFn) -> (r: Result<
        (),
        MethodError,
    >)
        ensures
            r is Ok <==> old(self)@.multi_prime_supported,
            r is Ok ==> final(self)@ == set_slot(old(self)@, SlotId::MultiPrimeKeygen, keygen.0),
            r matches Err(e) ==> e == MethodError::Unsupported && final(self)@ == old(self)@,
    {
        if !self.multi_prime_supported {
            return Err(MethodError::Unsupported);
        }
        self.multi_prime_keygen = Some(keygen);
        Ok(())
    }
}

} // verus!
