use crypto_layer_node::dispatch::{
    checked_random, Access, Arg, ArgKind, Dispatcher, DomainObject, Operation,
};
use crypto_layer_node::error::{to_caller_error, Error, ErrorCategory};
use crypto_layer_node::handle::{refusal_error, AccessControl, Grant};
use crypto_layer_node::lifecycle::{DeleteAction, KeyLifecycle};
use crypto_layer_node::pending::PendingResult;
use crypto_layer_node::value::{Kdf, Number, Value};

fn s(x: &str) -> String {
    x.to_string()
}

fn key_spec() -> Value {
    Value::Object(vec![
        (s("cipher"), Value::Str(s("AesGcm256"))),
        (s("signing_hash"), Value::Str(s("Sha2_256"))),
        (s("ephemeral"), Value::Bool(false)),
        (s("non_exportable"), Value::Bool(true)),
    ])
}

fn names() -> Vec<String> {
    vec![s("Sha2_256"), s("Sha2_512")]
}

#[test]
fn caller_errors_have_distinct_categories() {
    let poisoned = to_caller_error(&Error::PoisonedLock);
    assert_eq!(poisoned.category, ErrorCategory::InternalStateCorrupted);
    assert_eq!(poisoned.message, "internal state corrupted: the object's lock is poisoned");
    let bad = to_caller_error(&Error::BadParameter);
    assert_eq!(bad.category, ErrorCategory::BadParameter);
    assert_ne!(bad.category, poisoned.category);
    let failed = to_caller_error(&Error::OperationFailed(s("bad key")));
    assert_eq!(failed.category, ErrorCategory::OperationFailed);
    assert_eq!(failed.message, "operation failed: bad key");
    assert_eq!(to_caller_error(&Error::EnumVariantNotFound).category, ErrorCategory::ConversionFailed);
    assert_eq!(to_caller_error(&Error::ConversionFailed).message, "conversion failed");
}

#[test]
fn readers_share_and_writers_exclude() {
    let mut a = AccessControl::new(1);
    let r1 = a.acquire_read().unwrap();
    let r2 = a.acquire_read().unwrap();
    assert_eq!(a.acquire_write().err(), Some(Grant::WouldBlock));
    a.release_read(r1);
    assert_eq!(a.acquire_write().err(), Some(Grant::WouldBlock));
    a.release_read(r2);
    let w = a.acquire_write().unwrap();
    assert_eq!(a.acquire_write().err(), Some(Grant::WouldBlock));
    assert_eq!(a.acquire_read().err(), Some(Grant::WouldBlock));
    a.release_write(w);
    let w2 = a.acquire_write().unwrap();
    a.release_write(w2);
    assert!(!a.is_poisoned());
}

#[test]
fn poisoning_is_permanent() {
    let mut a = AccessControl::new(2);
    let w = a.acquire_write().unwrap();
    a.abandon_write(w);
    assert!(a.is_poisoned());
    for _ in 0..3 {
        assert_eq!(a.acquire_read().err(), Some(Grant::Poisoned));
        assert_eq!(a.acquire_write().err(), Some(Grant::Poisoned));
    }
    assert_eq!(refusal_error(Grant::Poisoned), Some(Error::PoisonedLock));
    assert_eq!(refusal_error(Grant::WouldBlock), None);
}

#[test]
fn pending_result_settles_once() {
    let (mut p, resolver) = PendingResult::<Vec<u8>>::new(4);
    assert!(p.is_pending());
    resolver.settle(&mut p, Ok(vec![1, 2, 3]));
    assert!(!p.is_pending());
    assert_eq!(p.into_outcome(), Some(Ok(vec![1, 2, 3])));

    let (mut q, resolver) = PendingResult::<Vec<u8>>::new(5);
    resolver.settle(&mut q, Err(Error::PoisonedLock));
    let outcome = q.into_outcome().unwrap().unwrap_err();
    assert_eq!(outcome.category, ErrorCategory::InternalStateCorrupted);

    let (r, _resolver) = PendingResult::<u8>::new(6);
    assert_eq!(r.into_outcome(), None);
}

#[test]
fn operation_table() {
    assert_eq!(Operation::Delete.access(), Access::Exclusive);
    assert_eq!(Operation::DeriveClientSessionKeys.access(), Access::Exclusive);
    assert_eq!(Operation::CreateKey.access(), Access::Exclusive);
    assert_eq!(Operation::EncryptWithIv.access(), Access::Shared);
    assert_eq!(Operation::DecryptData.access(), Access::Shared);
    assert_eq!(Operation::GetRandom.access(), Access::Shared);
    assert_eq!(Operation::GetPublicKey.owner(), DomainObject::DhExchange);
    assert_eq!(Operation::Id.owner(), DomainObject::KeyHandle);
    assert_eq!(Operation::Hash.owner(), DomainObject::Provider);
    assert!(!Operation::ProviderName.is_dispatched());
    assert!(Operation::GetRandom.is_dispatched());
    assert_eq!(
        Operation::DeriveKeyFromBase.arg_kinds(),
        vec![ArgKind::Bytes, ArgKind::KeyId, ArgKind::Text, ArgKind::KeySpec]
    );
    assert_eq!(
        Operation::ImportKeyPair.arg_kinds(),
        vec![ArgKind::KeyPairSpec, ArgKind::Bytes, ArgKind::Bytes]
    );
    assert!(Operation::Id.arg_kinds().is_empty());
}

#[test]
fn bad_parameters_are_reported_before_submission() {
    let mut d = Dispatcher::new();
    let bad_len = vec![Value::Number(Number::Integral(-3))];
    assert!(d.dispatch::<Vec<u8>>(Operation::GetRandom, &bad_len, &names()).is_err());
    let missing = vec![Value::Bytes(vec![1])];
    assert_eq!(
        d.dispatch::<Vec<u8>>(Operation::EncryptWithIv, &missing, &names()).err(),
        Some(Error::BadParameter)
    );
    let bad_kdf = vec![
        Value::Str(s("pw")),
        Value::Bytes(vec![]),
        key_spec(),
        Value::Object(vec![(s("Argon2d"), Value::Null)]),
    ];
    assert_eq!(
        d.dispatch::<Vec<u8>>(Operation::DeriveKeyFromPassword, &bad_kdf, &names()).err(),
        Some(Error::BadParameter)
    );
    let bad_spec = vec![Value::Object(vec![(s("cipher"), Value::Str(s("AesGcm256")))])];
    assert_eq!(
        d.dispatch::<u8>(Operation::CreateKey, &bad_spec, &names()).err(),
        Some(Error::BadParameter)
    );
    let bad_hash = vec![Value::Bytes(vec![1]), Value::Str(s("Md5"))];
    assert_eq!(
        d.dispatch::<Vec<u8>>(Operation::Hash, &bad_hash, &names()).err(),
        Some(Error::EnumVariantNotFound)
    );
    assert_eq!(d.submitted(), 0);
}

#[test]
fn valid_calls_are_submitted_with_their_access() {
    let mut d = Dispatcher::new();
    let zero = vec![Value::Number(Number::Integral(0))];
    let (job, p) = d.dispatch::<Vec<u8>>(Operation::GetRandom, &zero, &names()).unwrap();
    assert_eq!(d.submitted(), 1);
    assert_eq!(job.access, Access::Shared);
    assert!(matches!(job.args.as_slice(), [Arg::Length(0)]));
    assert!(p.is_pending());

    let args = vec![Value::Bytes(vec![]), Value::Bytes(vec![9; 12]), Value::Null];
    let (job, mut p) = d.dispatch::<Vec<u8>>(Operation::EncryptWithIv, &args, &names()).unwrap();
    assert_eq!(d.submitted(), 2);
    match job.args.as_slice() {
        [Arg::Bytes(data), Arg::Bytes(iv)] => {
            assert!(data.is_empty());
            assert_eq!(iv, &vec![9; 12]);
        }
        _ => panic!("unexpected arguments"),
    }
    job.resolver.settle(&mut p, Ok(vec![7]));
    assert_eq!(p.into_outcome(), Some(Ok(vec![7])));

    let del = d.dispatch::<()>(Operation::Delete, &vec![], &names()).unwrap().0;
    assert_eq!(del.access, Access::Exclusive);
    assert_eq!(d.submitted(), 3);
}

#[test]
fn decoded_arguments_of_a_password_derivation() {
    let mut d = Dispatcher::new();
    let argon = Value::Object(vec![
        (s("memory"), Value::Number(Number::Integral(1024))),
        (s("iterations"), Value::Number(Number::Integral(2))),
        (s("parallelism"), Value::Number(Number::Integral(1))),
    ]);
    let args = vec![
        Value::Str(s("secret")),
        Value::Bytes(vec![1, 2]),
        key_spec(),
        Value::Object(vec![(s("Argon2id"), argon)]),
    ];
    let (job, _p) = d.dispatch::<u8>(Operation::DeriveKeyFromPassword, &args, &names()).unwrap();
    match job.args.as_slice() {
        [Arg::Text(pw), Arg::Bytes(salt), Arg::KeySpec(spec), Arg::Kdf(Kdf::Argon2id(o))] => {
            assert_eq!(spec.cipher, "AesGcm256");
            assert_eq!(pw, "secret");
            assert_eq!(salt, &vec![1, 2]);
            assert_eq!((o.memory, o.iterations, o.parallelism), (1024, 2, 1));
        }
        _ => panic!("unexpected arguments"),
    }
    let base = vec![
        Value::Bytes(vec![3]),
        Value::Number(Number::Integral(18446744073709551615)),
        Value::Str(s("ctx")),
        key_spec(),
    ];
    let (job, _p) = d.dispatch::<u8>(Operation::DeriveKeyFromBase, &base, &names()).unwrap();
    assert!(matches!(job.args[1], Arg::KeyId(u64::MAX)));
    let hash = vec![Value::Bytes(vec![]), Value::Str(s("Sha2_512"))];
    let (job, _p) = d.dispatch::<u8>(Operation::Hash, &hash, &names()).unwrap();
    assert!(matches!(job.args[1], Arg::Algorithm(1)));
}

#[test]
fn delete_twice_is_idempotent() {
    let mut k = KeyLifecycle::new();
    assert_eq!(k.delete_action(), DeleteAction::Forward);
    assert_eq!(k.complete_delete(Err(Error::OperationFailed(s("busy")))), Err(Error::OperationFailed(s("busy"))));
    assert!(!k.deleted());
    assert_eq!(k.complete_delete(Ok(())), Ok(()));
    assert!(k.deleted());
    assert_eq!(k.delete_action(), DeleteAction::AlreadyDeleted);
    assert_eq!(k.complete_delete(Err(Error::OperationFailed(s("gone")))), Ok(()));
    assert!(k.deleted());
}

#[test]
fn random_bytes_are_delivered_in_the_requested_count() {
    assert_eq!(checked_random(0, vec![]), Ok(vec![]));
    let bytes: Vec<u8> = (0..32).collect();
    assert_eq!(checked_random(32, bytes.clone()).map(|b| b.len()), Ok(32));
    assert_eq!(checked_random(32, vec![1; 31]), Err(Error::ConversionFailed));
    assert_eq!(checked_random(0, vec![1]), Err(Error::ConversionFailed));
}
