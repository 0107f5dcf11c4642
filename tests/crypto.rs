use rpm_crypto::{
    check_policy, AllowWeakHashes, DigestCtx, Error, Fatal, InitGate, InitPlan, InitReport, InitToken,
    NativeReport, NativeSlot, RawSignature, SigInfo, Signature,
};

const RSA: u8 = 1;
const SHA256: u8 = 8;

fn ok_report(with_path: bool) -> InitReport {
    InitReport {
        config_status: 0,
        dbpath_status: if with_path { Some(0) } else { None },
        exit_hook_status: 0,
    }
}

fn token() -> InitToken {
    let mut gate = InitGate::new();
    gate.complete(ok_report(false)).unwrap()
}

fn good_report() -> NativeReport {
    NativeReport { status: 0, non_null: true, hash_alg: SHA256 as u32, pkey_alg: RSA as u32 }
}

fn good_info() -> SigInfo {
    SigInfo { hash_alg: SHA256, pkey_alg: RSA }
}

fn good_raw() -> RawSignature {
    let v = RawSignature::prevalidate(Ok(good_info()), token()).unwrap();
    RawSignature::parse(v, good_report()).unwrap()
}

#[test]
fn first_init_plans_whole_setup() {
    let gate = InitGate::new();
    assert_eq!(
        gate.plan(true),
        InitPlan { load_config: true, push_dbpath: true, register_exit_hook: true }
    );
    assert_eq!(
        gate.plan(false),
        InitPlan { load_config: true, push_dbpath: false, register_exit_hook: true }
    );
    assert!(gate.token().is_none());
}

#[test]
fn repeated_init_loads_config_once() {
    let mut gate = InitGate::new();
    let mut loads = 0;
    let mut tokens = 0;
    for _ in 0..8 {
        if gate.plan(true).load_config {
            loads += 1;
        }
        if gate.complete(ok_report(true)).is_ok() {
            tokens += 1;
        }
    }
    assert_eq!(loads, 1);
    assert_eq!(tokens, 8);
    assert_eq!(
        gate.plan(true),
        InitPlan { load_config: false, push_dbpath: false, register_exit_hook: false }
    );
    assert!(gate.token().is_some());
}

#[test]
fn failed_setup_is_never_retried() {
    let bad_reports = [
        (InitReport { config_status: -1, dbpath_status: None, exit_hook_status: 0 },
         Fatal::ConfigLoadFailed),
        (InitReport { config_status: 0, dbpath_status: Some(1), exit_hook_status: 0 },
         Fatal::ConfigOverrideFailed),
        (InitReport { config_status: 0, dbpath_status: Some(0), exit_hook_status: 3 },
         Fatal::ExitHookFailed),
    ];
    let nothing = InitPlan { load_config: false, push_dbpath: false, register_exit_hook: false };
    for (bad, fatal) in bad_reports {
        let mut gate = InitGate::new();
        assert!(gate.plan(true).load_config);
        assert_eq!(gate.complete(bad), Err(fatal));
        assert!(gate.token().is_none());
        assert_eq!(gate.plan(true), nothing);
        assert_eq!(gate.complete(ok_report(true)), Err(Fatal::SetupFailed));
        assert_eq!(gate.complete(ok_report(false)), Err(Fatal::SetupFailed));
        assert!(gate.token().is_none());
    }
}

#[test]
fn malformed_verdict_is_passed_on() {
    let r = RawSignature::prevalidate(Err(Error::Malformed), token());
    assert!(matches!(r, Err(Error::Malformed)));
}

#[test]
fn not_yet_valid_verdict_is_passed_on() {
    let r = RawSignature::prevalidate(Err(Error::NotYetValid), token());
    assert!(matches!(r, Err(Error::NotYetValid)));
}

#[test]
fn every_rejection_is_passed_on() {
    for e in [Error::Malformed, Error::WeakHash, Error::Expired, Error::NotYetValid,
              Error::UnknownAlgorithm] {
        let r = RawSignature::prevalidate(Err(e), token());
        assert!(matches!(r, Err(x) if x == e));
    }
}

#[test]
fn accepted_signature_reports_parser_algorithms() {
    let v = RawSignature::prevalidate(Ok(good_info()), token()).unwrap();
    assert_eq!(v.info(), good_info());
    let raw = RawSignature::parse(v, good_report()).unwrap();
    assert_eq!(raw.hash_algorithm(), SHA256);
    assert_eq!(raw.public_key_algorithm(), RSA);
}

#[test]
fn native_disagreements_are_fatal() {
    let cases = [
        (NativeReport { status: 1, ..good_report() }, Fatal::NativeRejected),
        (NativeReport { non_null: false, ..good_report() }, Fatal::NullHandle),
        (NativeReport { hash_alg: 2, ..good_report() }, Fatal::HashMismatch),
        (NativeReport { hash_alg: 256 + SHA256 as u32, ..good_report() }, Fatal::HashMismatch),
        (NativeReport { pkey_alg: 17, ..good_report() }, Fatal::PublicKeyMismatch),
    ];
    for (report, fatal) in cases {
        let v = RawSignature::prevalidate(Ok(good_info()), token()).unwrap();
        assert!(matches!(RawSignature::parse(v, report), Err(f) if f == fatal));
    }
}

#[test]
fn digest_init_follows_native_outcome() {
    let c = DigestCtx::init(SHA256, AllowWeakHashes::No, true, token()).unwrap();
    assert_eq!(c.algorithm(), SHA256);
    assert_eq!(c.allow_weak(), AllowWeakHashes::No);
    let r = DigestCtx::init(100, AllowWeakHashes::Yes, false, token());
    assert!(matches!(r, Err(Error::UnknownAlgorithm)));
}

#[test]
fn weak_hash_follows_policy() {
    for weak in [1u8, 2, 3] {
        assert_eq!(check_policy(weak, AllowWeakHashes::No), Err(Error::WeakHash));
        assert_eq!(check_policy(weak, AllowWeakHashes::Yes), Ok(()));
        let r = DigestCtx::init(weak, AllowWeakHashes::No, true, token());
        assert!(matches!(r, Err(Error::WeakHash)));
        let c = DigestCtx::init(weak, AllowWeakHashes::Yes, true, token()).unwrap();
        assert_eq!(c.algorithm(), weak);
        assert_eq!(c.allow_weak(), AllowWeakHashes::Yes);
    }
    for strong in [SHA256, 9, 10, 11] {
        assert_eq!(check_policy(strong, AllowWeakHashes::No), Ok(()));
    }
    let r = DigestCtx::init(2, AllowWeakHashes::No, false, token());
    assert!(matches!(r, Err(Error::WeakHash)));
}

#[test]
fn chunked_updates_equal_one_update() {
    let data: Vec<u8> = (0u8..50).collect();
    let mut whole = DigestCtx::init(SHA256, AllowWeakHashes::No, true, token()).unwrap();
    whole.update(&data);
    let mut split = DigestCtx::init(SHA256, AllowWeakHashes::No, true, token()).unwrap();
    split.update(&data[..7]);
    split.update(&[]);
    let mut fed = split.take_pending();
    split.update(&data[7..31]);
    split.update(&data[31..]);
    fed.extend(split.take_pending());
    assert_eq!(whole.take_pending(), data);
    assert_eq!(fed, data);
    assert!(split.take_pending().is_empty());
}

#[test]
fn facade_joins_matching_digest() {
    let ctx = DigestCtx::init(SHA256, AllowWeakHashes::No, true, token());
    let mut sig = Signature::parse(good_raw(), ctx).unwrap();
    assert_eq!(sig.public_key_algorithm(), RSA);
    assert_eq!(sig.hash_algorithm(), SHA256);
    sig.update(b"abc");
    sig.update(b"de");
    assert_eq!(sig.take_pending(), b"abcde".to_vec());
    assert!(sig.take_pending().is_empty());
}

#[test]
fn facade_rejects_mismatched_digest() {
    let ctx = DigestCtx::init(2, AllowWeakHashes::Yes, true, token());
    assert!(matches!(Signature::parse(good_raw(), ctx), Err(Fatal::DigestRejected)));
    let ctx = DigestCtx::init(SHA256, AllowWeakHashes::No, false, token());
    assert!(matches!(Signature::parse(good_raw(), ctx), Err(Fatal::DigestRejected)));
}

#[test]
fn slot_frees_once() {
    let mut s = NativeSlot::new(true);
    assert!(s.release());
    assert!(!s.release());
    assert!(!s.release());
    let mut empty = NativeSlot::new(false);
    assert!(!empty.release());
    assert!(!empty.release());
}
