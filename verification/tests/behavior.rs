use rsa_method::slots::{InitFn, KeygenFn, MultiPrimeKeygenFn, PubEncFn, SignFn};
use rsa_method::{MethodError, RsaMethod};

#[test]
fn construction_reflects_arguments() {
    let method = RsaMethod::new("TEST", 0).unwrap();
    assert_eq!(method.get_name().unwrap(), "TEST");
    assert_eq!(method.get_flags().unwrap(), 0);
    assert_eq!(method.get_app_data().unwrap(), 0);
    assert!(method.multi_prime_keygen_supported());
}

#[test]
fn scenario_update_name_and_flags() {
    let mut method = RsaMethod::new("TEST", 0).unwrap();
    assert_eq!(method.get_name().unwrap(), "TEST");
    assert_eq!(method.get_flags().unwrap(), 0);

    assert!(method.set_name("UPDATED").is_ok());
    assert_eq!(method.get_name().unwrap(), "UPDATED");

    assert!(method.set_flags(0xa8a8).is_ok());
    assert_eq!(method.get_flags().unwrap(), 0xa8a8);
}

#[test]
fn app_data_identity_including_null() {
    let mut method = RsaMethod::new("TEST", 0).unwrap();
    assert_eq!(method.get_app_data().unwrap(), 0);

    assert!(method.set_app_data(usize::MAX).is_ok());
    assert_eq!(method.get_app_data().unwrap(), usize::MAX);

    assert!(method.set_app_data(0).is_ok());
    assert_eq!(method.get_app_data().unwrap(), 0);
}

#[test]
fn duplicate_matches_original() {
    let mut method = RsaMethod::new("ORIGINAL", 0x0101).unwrap();
    assert!(method.set_app_data(0xbeef).is_ok());
    assert!(method.set_pub_enc(PubEncFn(0x2000)).is_ok());

    let duplicate = method.duplicate().unwrap();
    assert_eq!(duplicate.get_name().unwrap(), "ORIGINAL");
    assert_eq!(duplicate.get_flags().unwrap(), 0x0101);
    assert_eq!(duplicate.get_app_data().unwrap(), 0xbeef);
    assert!(duplicate.multi_prime_keygen_supported());
}

#[test]
fn duplicate_is_independent() {
    let mut original = RsaMethod::new("ORIGINAL", 1).unwrap();
    let mut duplicate = original.duplicate().unwrap();

    assert!(duplicate.set_name("CHANGED COPY").is_ok());
    assert!(duplicate.set_flags(2).is_ok());
    assert!(duplicate.set_app_data(0x77).is_ok());
    assert_eq!(original.get_name().unwrap(), "ORIGINAL");
    assert_eq!(original.get_flags().unwrap(), 1);
    assert_eq!(original.get_app_data().unwrap(), 0);

    assert!(original.set_flags(3).is_ok());
    assert_eq!(duplicate.get_flags().unwrap(), 2);
}

#[test]
fn registration_leaves_scalars_alone() {
    let mut method = RsaMethod::new("STABLE", 0x4242).unwrap();
    assert!(method.set_app_data(0x99).is_ok());

    assert!(method.set_pub_enc(PubEncFn(0x2100)).is_ok());
    assert!(method.set_init(InitFn(0x2110)).is_ok());
    assert!(method.set_sign(SignFn(0x2120)).is_ok());
    assert!(method.set_keygen(KeygenFn(0x2130)).is_ok());

    assert_eq!(method.get_name().unwrap(), "STABLE");
    assert_eq!(method.get_flags().unwrap(), 0x4242);
    assert_eq!(method.get_app_data().unwrap(), 0x99);
}

#[test]
fn embedded_terminator_is_rejected() {
    assert_eq!(
        RsaMethod::new("BAD\0NAME", 0).unwrap_err(),
        MethodError::Encoding
    );

    let mut method = RsaMethod::new("GOOD NAME", 0).unwrap();
    assert_eq!(
        method.set_name("ALSO\0BAD").unwrap_err(),
        MethodError::Encoding
    );
    // A rejected mutation leaves the prior state standing.
    assert_eq!(method.get_name().unwrap(), "GOOD NAME");
}

#[test]
fn multi_prime_keygen_needs_library_support() {
    let mut old_library = RsaMethod::new_with_capability("OLD", 0, false).unwrap();
    assert!(!old_library.multi_prime_keygen_supported());
    assert_eq!(
        old_library
            .set_multi_prime_keygen(MultiPrimeKeygenFn(0x2200))
            .unwrap_err(),
        MethodError::Unsupported
    );

    let mut new_library = RsaMethod::new_with_capability("NEW", 0, true).unwrap();
    assert!(new_library.multi_prime_keygen_supported());
    assert!(new_library
        .set_multi_prime_keygen(MultiPrimeKeygenFn(0x2200))
        .is_ok());
}

#[test]
fn uninstalled_descriptor_drops_cleanly() {
    {
        let mut method = RsaMethod::new("SHORT LIVED", 0).unwrap();
        assert!(method.set_pub_enc(PubEncFn(0x2300)).is_ok());
        let duplicate = method.duplicate().unwrap();
        drop(duplicate);
    }
    // Both owners went out of scope; each carried its own state and was
    // destroyed exactly once by ownership.
}
