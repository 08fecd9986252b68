use crypto_layer_node::error::Error;
use crypto_layer_node::keyspec::{key_pair_spec_from_object, key_spec_from_object};
use crypto_layer_node::value::{
    argon_options_from_object, decimal_string, from_wrapped_enum, from_wrapped_simple_enum,
    from_wrapped_string_vec, get_field, int_from_js_number, int_from_object, kdf_from_object,
    object_keys, random_length, uint_8_array_tuple_from_vec_u8_tuple, wrap_string_array,
    wrapped_array_to_hash_set, ArgonOptions, EnumData, Kdf, Number, Value,
};

fn s(x: &str) -> String {
    x.to_string()
}

fn num(v: i128) -> Value {
    Value::Number(Number::Integral(v))
}

fn argon(memory: i128, iterations: i128, parallelism: i128) -> Value {
    Value::Object(vec![
        (s("memory"), num(memory)),
        (s("iterations"), num(iterations)),
        (s("parallelism"), num(parallelism)),
    ])
}

fn entries(v: Value) -> Vec<(String, Value)> {
    match v {
        Value::Object(e) => e,
        _ => panic!("not an object"),
    }
}

fn hash_names() -> Vec<String> {
    vec![s("Sha2_256"), s("Sha2_512"), s("Blake2b")]
}

#[test]
fn get_field_takes_the_first_of_a_name() {
    let e = vec![(s("a"), num(1)), (s("b"), num(2)), (s("a"), num(3))];
    assert_eq!(get_field(&e, "a"), Some(&num(1)));
    assert_eq!(get_field(&e, "b"), Some(&num(2)));
    assert_eq!(get_field(&e, "c"), None);
}

#[test]
fn int_from_js_number_checks_the_range() {
    assert_eq!(int_from_js_number(Number::Integral(7), 0, 10), Ok(7));
    assert_eq!(int_from_js_number(Number::Integral(0), 0, 10), Ok(0));
    assert_eq!(int_from_js_number(Number::Integral(10), 0, 10), Ok(10));
    assert_eq!(int_from_js_number(Number::Integral(11), 0, 10), Err(Error::BadParameter));
    assert_eq!(int_from_js_number(Number::Integral(-1), 0, 10), Err(Error::BadParameter));
    assert_eq!(int_from_js_number(Number::NotANumber, 0, 10), Err(Error::BadParameter));
    assert_eq!(int_from_js_number(Number::AboveRange, 0, 10), Err(Error::BadParameter));
    assert_eq!(int_from_js_number(Number::BelowRange, -5, 10), Err(Error::BadParameter));
}

#[test]
fn int_from_object_reports_missing_and_mistyped_fields() {
    let e = vec![(s("n"), num(5)), (s("t"), Value::Str(s("5")))];
    assert_eq!(int_from_object(&e, "n", 0, 9), Ok(5));
    assert_eq!(int_from_object(&e, "t", 0, 9), Err(Error::BadParameter));
    assert_eq!(int_from_object(&e, "missing", 0, 9), Err(Error::BadParameter));
    assert_eq!(int_from_object(&e, "n", 6, 9), Err(Error::BadParameter));
}

#[test]
fn argon_options_are_read_field_by_field() {
    let ok = entries(argon(65536, 3, 4));
    assert_eq!(
        argon_options_from_object(&ok),
        Ok(ArgonOptions { memory: 65536, iterations: 3, parallelism: 4 })
    );
    let too_big = entries(argon(4294967296, 3, 4));
    assert_eq!(argon_options_from_object(&too_big), Err(Error::BadParameter));
    let largest = entries(argon(4294967295, 1, 1));
    assert_eq!(
        argon_options_from_object(&largest),
        Ok(ArgonOptions { memory: u32::MAX, iterations: 1, parallelism: 1 })
    );
    let missing = vec![(s("memory"), num(1)), (s("iterations"), num(1))];
    assert_eq!(argon_options_from_object(&missing), Err(Error::BadParameter));
}

#[test]
fn kdf_prefers_argon2d_then_argon2id() {
    let d = vec![(s("Argon2d"), argon(8, 2, 1))];
    let opts = ArgonOptions { memory: 8, iterations: 2, parallelism: 1 };
    assert_eq!(kdf_from_object(&d), Ok(Kdf::Argon2d(opts)));
    let id = vec![(s("Argon2d"), Value::Undefined), (s("Argon2id"), argon(8, 2, 1))];
    assert_eq!(kdf_from_object(&id), Ok(Kdf::Argon2id(opts)));
    let both = vec![(s("Argon2id"), argon(9, 9, 9)), (s("Argon2d"), argon(8, 2, 1))];
    assert_eq!(kdf_from_object(&both), Ok(Kdf::Argon2d(opts)));
}

#[test]
fn kdf_errors() {
    assert_eq!(kdf_from_object(&vec![]), Err(Error::BadParameter));
    let null = vec![(s("Argon2d"), Value::Null)];
    assert_eq!(kdf_from_object(&null), Err(Error::BadParameter));
    let bad_id = vec![(s("Argon2id"), num(3))];
    assert_eq!(kdf_from_object(&bad_id), Err(Error::BadParameter));
    let bad_d_good_id = vec![(s("Argon2d"), num(1)), (s("Argon2id"), argon(8, 2, 1))];
    assert_eq!(kdf_from_object(&bad_d_good_id), Err(Error::BadParameter));
    let bad_inner = vec![(s("Argon2id"), argon(-1, 2, 1))];
    assert_eq!(kdf_from_object(&bad_inner), Err(Error::BadParameter));
}

#[test]
fn string_vec_keeps_strings_in_order() {
    let items = vec![Value::Str(s("x")), num(1), Value::Null, Value::Str(s("")), Value::Str(s("y"))];
    assert_eq!(from_wrapped_string_vec(&items), vec![s("x"), s(""), s("y")]);
    assert_eq!(from_wrapped_string_vec(&vec![]), Vec::<String>::new());
}

#[test]
fn object_keys_in_order() {
    let e = vec![(s("b"), num(1)), (s("a"), Value::Null)];
    assert_eq!(object_keys(&e), vec![s("b"), s("a")]);
}

#[test]
fn simple_enum_decoding() {
    let names = hash_names();
    assert_eq!(from_wrapped_simple_enum(&Value::Str(s("Sha2_512")), &names), Ok(1));
    assert_eq!(
        from_wrapped_simple_enum(&Value::Str(s("Md5")), &names),
        Err(Error::EnumVariantNotFound)
    );
    assert_eq!(from_wrapped_simple_enum(&num(1), &names), Err(Error::ConversionFailed));
}

#[test]
fn enum_decoding_from_string_or_object() {
    let names = hash_names();
    assert_eq!(from_wrapped_enum(&Value::Str(s("Blake2b")), &names), Ok((2, None)));
    let o = Value::Object(vec![(s("Unknown"), num(0)), (s("Sha2_256"), num(5)), (s("Blake2b"), num(6))]);
    assert_eq!(from_wrapped_enum(&o, &names), Ok((0, Some(EnumData::Value(&num(5))))));
    let none = Value::Object(vec![(s("Unknown"), num(0))]);
    assert_eq!(from_wrapped_enum(&none, &names), Err(Error::EnumVariantNotFound));
    assert_eq!(
        from_wrapped_enum(&Value::Str(s("Md5")), &names),
        Err(Error::EnumVariantNotFound)
    );
    assert_eq!(from_wrapped_enum(&num(3), &names), Err(Error::BadParameter));
    assert_eq!(from_wrapped_enum(&Value::Null, &names), Err(Error::BadParameter));
}

#[test]
fn enum_decoding_treats_arrays_as_objects() {
    let names = hash_names();
    let arr = Value::Array(vec![Value::Str(s("Sha2_256")), num(4)]);
    assert_eq!(from_wrapped_enum(&arr, &names), Err(Error::EnumVariantNotFound));
    let bytes = Value::Bytes(vec![7, 8]);
    assert_eq!(from_wrapped_enum(&bytes, &names), Err(Error::EnumVariantNotFound));
    assert_eq!(from_wrapped_enum(&Value::Bytes(vec![]), &names), Err(Error::EnumVariantNotFound));

    let index_names = vec![s("x"), s("1"), s("length"), s("0")];
    assert_eq!(from_wrapped_enum(&arr, &index_names), Ok((3, Some(EnumData::Value(&Value::Str(s("Sha2_256")))))));
    assert_eq!(from_wrapped_enum(&bytes, &index_names), Ok((3, Some(EnumData::Number(7)))));
    let one = Value::Array(vec![]);
    assert_eq!(from_wrapped_enum(&one, &index_names), Ok((2, Some(EnumData::Number(0)))));
    let only_one = vec![s("1")];
    assert_eq!(from_wrapped_enum(&bytes, &only_one), Ok((0, Some(EnumData::Number(8)))));
}

#[test]
fn decimal_numerals() {
    assert_eq!(decimal_string(0), "0");
    assert_eq!(decimal_string(7), "7");
    assert_eq!(decimal_string(10), "10");
    assert_eq!(decimal_string(1234567890), "1234567890");
    assert_eq!(decimal_string(usize::MAX), usize::MAX.to_string());
}

#[test]
fn random_length_validation() {
    assert_eq!(random_length(Number::Integral(0)), Ok(0));
    assert_eq!(random_length(Number::Integral(32)), Ok(32));
    assert_eq!(random_length(Number::Integral(-1)), Err(Error::BadParameter));
    assert_eq!(random_length(Number::BelowRange), Err(Error::BadParameter));
    assert_eq!(random_length(Number::NotANumber), Err(Error::BadParameter));
    assert_eq!(random_length(Number::AboveRange), Err(Error::BadParameter));
    assert_eq!(random_length(Number::Integral(i128::MAX)), Err(Error::BadParameter));
    assert_eq!(random_length(Number::Integral(usize::MAX as i128)), Ok(usize::MAX));
}

#[test]
fn hash_set_of_enum_names() {
    let names = hash_names();
    let items = vec![Value::Str(s("Blake2b")), Value::Str(s("Sha2_256")), Value::Str(s("Blake2b"))];
    let set = wrapped_array_to_hash_set(&items, &names).unwrap();
    assert_eq!(set.len(), 2);
    assert!(set.contains(&0) && set.contains(&2));
    let bad = vec![Value::Str(s("Sha2_256")), Value::Str(s("Md5")), num(1)];
    assert_eq!(wrapped_array_to_hash_set(&bad, &names), Err(Error::EnumVariantNotFound));
    assert!(wrapped_array_to_hash_set(&vec![], &names).unwrap().is_empty());
}

#[test]
fn wrapping_outputs() {
    assert_eq!(
        wrap_string_array(&vec![s("a"), s("b")]),
        Value::Array(vec![Value::Str(s("a")), Value::Str(s("b"))])
    );
    assert_eq!(
        uint_8_array_tuple_from_vec_u8_tuple((vec![1, 2], vec![])),
        Value::Array(vec![Value::Bytes(vec![1, 2]), Value::Bytes(vec![])])
    );
}

fn key_spec(cipher: &str, hash: &str) -> Vec<(String, Value)> {
    vec![
        (s("cipher"), Value::Str(s(cipher))),
        (s("signing_hash"), Value::Str(s(hash))),
        (s("ephemeral"), Value::Bool(true)),
        (s("non_exportable"), Value::Bool(false)),
    ]
}

#[test]
fn key_spec_fields_are_checked_one_by_one() {
    let k = key_spec_from_object(&key_spec("AesGcm256", "Sha2_256")).unwrap();
    assert_eq!((k.cipher.as_str(), k.signing_hash.as_str()), ("AesGcm256", "Sha2_256"));
    assert!(k.ephemeral && !k.non_exportable);
    let mut missing = key_spec("AesGcm256", "Sha2_256");
    missing.pop();
    assert_eq!(key_spec_from_object(&missing).err().map(|_| ()), Some(()));
    let mut wrong = key_spec("AesGcm256", "Sha2_256");
    wrong[2].1 = num(1);
    assert!(matches!(key_spec_from_object(&wrong), Err(Error::BadParameter)));
    assert!(matches!(key_spec_from_object(&vec![]), Err(Error::BadParameter)));
}

#[test]
fn key_pair_spec_cipher_is_optional() {
    let mut e = vec![
        (s("asym_spec"), Value::Str(s("P256"))),
        (s("signing_hash"), Value::Str(s("Sha2_256"))),
        (s("ephemeral"), Value::Bool(false)),
        (s("non_exportable"), Value::Bool(true)),
    ];
    let k = key_pair_spec_from_object(&e).unwrap();
    assert_eq!(k.cipher, None);
    assert_eq!(k.asym_spec, "P256");
    e.push((s("cipher"), Value::Str(s("AesGcm128"))));
    assert_eq!(key_pair_spec_from_object(&e).unwrap().cipher, Some(s("AesGcm128")));
    e.pop();
    e.push((s("cipher"), num(3)));
    assert!(matches!(key_pair_spec_from_object(&e), Err(Error::BadParameter)));
}
