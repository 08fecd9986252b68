use vstd::prelude::*;

use crate::error::Error;
use crate::value::{field_of, get_field, Value};

verus! {

/// The fields of a key spec, with its enums still as their names.
#[derive(Debug)]
pub struct KeySpecFields {
    pub cipher: String,
    pub signing_hash: String,
    pub ephemeral: bool,
    pub non_exportable: bool,
}

/// The fields of a key-pair spec, with its enums still as their names.
#[derive(Debug)]
pub struct KeyPairSpecFields {
    pub asym_spec: String,
    pub cipher: Option<String>,
    pub signing_hash: String,
    pub ephemeral: bool,
    pub non_exportable: bool,
}

pub struct KeySpecView {
    pub cipher: Seq<char>,
    pub signing_hash: Seq<char>,
    pub ephemeral: bool,
    pub non_exportable: bool,
}

pub struct KeyPairSpecView {
    pub asym_spec: Seq<char>,
    pub cipher: Option<Seq<char>>,
    pub signing_hash: Seq<char>,
    pub ephemeral: bool,
    pub non_exportable: bool,
}

impl View for KeySpecFields {
    type V = KeySpecView;

    open spec fn view(&self) -> KeySpecView {
        KeySpecView {
            cipher: self.cipher@,
            signing_hash: self.signing_hash@,
            ephemeral: self.ephemeral,
            non_exportable: self.non_exportable,
        }
    }
}

pub open spec fn opt_view(s: Option<String>) -> Option<Seq<char>> {
    match s {
        Some(x) => Some(x@),
        None => None,
    }
}

impl View for KeyPairSpecFields {
    type V = KeyPairSpecView;

    open spec fn view(&self) -> KeyPairSpecView {
        KeyPairSpecView {
            asym_spec: self.asym_spec@,
            cipher: opt_view(self.cipher),
            signing_hash: self.signing_hash@,
            ephemeral: self.ephemeral,
            non_exportable: self.non_exportable,
        }
    }
}

/// The string held by the property `key`; anything else is a bad parameter.
pub open spec fn str_field(entries: Seq<(String, Value)>, key: Seq<char>) -> Result<Seq<char>, Error> {
    match field_of(entries, key) {
        Some(Value::Str(s)) => Ok(s@),
        _ => Err(Error::BadParameter),
    }
}

/// The string held by the optional property `key`: missing, undefined and
/// null mean none; a value of another type is a bad parameter.
pub open spec fn opt_str_field(entries: Seq<(String, Value)>, key: Seq<char>) -> Result<
    Option<Seq<char>>,
    Error,
> {
    match field_of(entries, key) {
        None => Ok(None),
        Some(Value::Undefined) => Ok(None),
        Some(Value::Null) => Ok(None),
        Some(Value::Str(s)) => Ok(Some(s@)),
        _ => Err(Error::BadParameter),
    }
}

/// The boolean held by the property `key`; anything else is a bad parameter.
pub open spec fn bool_field(entries: Seq<(String, Value)>, key: Seq<char>) -> Result<bool, Error> {
    match field_of(entries, key) {
        Some(Value::Bool(b)) => Ok(b),
        _ => Err(Error::BadParameter),
    }
}

/// The key spec that an object states: `cipher` and `signing_hash` are
/// names, `ephemeral` and `non_exportable` booleans, checked in that order.
pub open spec fn key_spec_of(entries: Seq<(String, Value)>) -> Result<KeySpecView, Error> {
    match str_field(entries, "cipher"@) {
        Err(e) => Err(e),
        Ok(cipher) => match str_field(entries, "signing_hash"@) {
            Err(e) => Err(e),
            Ok(signing_hash) => match bool_field(entries, "ephemeral"@) {
                Err(e) => Err(e),
                Ok(ephemeral) => match bool_field(entries, "non_exportable"@) {
                    Err(e) => Err(e),
                    Ok(non_exportable) => Ok(
                        KeySpecView { cipher, signing_hash, ephemeral, non_exportable },
                    ),
                },
            },
        },
    }
}

/// The key-pair spec that an object states: `asym_spec` is a name,
/// `cipher` an optional name, `signing_hash` a name, `ephemeral` and
/// `non_exportable` booleans, checked in that order.
pub open spec fn key_pair_spec_of(entries: Seq<(String, Value)>) -> Result<KeyPairSpecView, Error> {
    match str_field(entries, "asym_spec"@) {
        Err(e) => Err(e),
        Ok(asym_spec) => match opt_str_field(entries, "cipher"@) {
            Err(e) => Err(e),
            Ok(cipher) => match str_field(entries, "signing_hash"@) {
                Err(e) => Err(e),
                Ok(signing_hash) => match bool_field(entries, "ephemeral"@) {
                    Err(e) => Err(e),
                    Ok(ephemeral) => match bool_field(entries, "non_exportable"@) {
                        Err(e) => Err(e),
                        Ok(non_exportable) => Ok(
                            KeyPairSpecView {
                                asym_spec,
                                cipher,
                                signing_hash,
                                ephemeral,
                                non_exportable,
                            },
                        ),
                    },
                },
            },
        },
    }
}

fn string_from_object(entries: &Vec<(String, Value)>, key: &str) -> (r: Result<String, Error>)
    ensures
        r matches Ok(s) ==> str_field(entries@, key@) == Ok::<Seq<char>, Error>(s@),
        r matches Err(e) ==> str_field(entries@, key@) == Err::<Seq<char>, Error>(e),
{
    match get_field(entries, key) {
        Some(Value::Str(s)) => Ok(s.clone()),
        _ => Err(Error::BadParameter),
    }
}

fn optional_string_from_object(entries: &Vec<(String, Value)>, key: &str) -> (r: Result<
    Option<String>,
    Error,
>)
    ensures
        r matches Ok(s) ==> opt_str_field(entries@, key@) == Ok::<Option<Seq<char>>, Error>(
            opt_view(s),
        ),
        r matches Err(e) ==> opt_str_field(entries@, key@) == Err::<Option<Seq<char>>, Error>(e),
{
    match get_field(entries, key) {
        None => Ok(None),
        Some(Value::Undefined) => Ok(None),
        Some(Value::Null) => Ok(None),
        Some(Value::Str(s)) => Ok(Some(s.clone())),
        _ => Err(Error::BadParameter),
    }
}

fn bool_from_object(entries: &Vec<(String, Value)>, key: &str) -> (r: Result<bool, Error>)
    ensures
        r == bool_field(entries@, key@),
{
    match get_field(entries, key) {
        Some(Value::Bool(b)) => Ok(*b),
        _ => Err(Error::BadParameter),
    }
}

/// Checks a key spec object field by field.
pub fn key_spec_from_object(entries: &Vec<(String, Value)>) -> (r: Result<KeySpecFields, Error>)
    ensures
        r matches Ok(k) ==> key_spec_of(entries@) == Ok::<KeySpecView, Error>(k@),
        r matches Err(e) ==> key_spec_of(entries@) == Err::<KeySpecView, Error>(e),
{
    proof {
        reveal_strlit("cipher");
        reveal_strlit("signing_hash");
        reveal_strlit("ephemeral");
        reveal_strlit("non_exportable");
    }
    let cipher = string_from_object(entries, "cipher")?;
    let signing_hash = string_from_object(entries, "signing_hash")?;
    let ephemeral = bool_from_object(entries, "ephemeral")?;
    let non_exportable = bool_from_object(entries, "non_exportable")?;
    Ok(KeySpecFields { cipher, signing_hash, ephemeral, non_exportable })
}

/// Checks a key-pair spec object field by field.
pub fn key_pair_spec_from_object(entries: &Vec<(String, Value)>) -> (r: Result<
    KeyPairSpecFields,
    Error,
>)
    ensures
        r matches Ok(k) ==> key_pair_spec_of(entries@) == Ok::<KeyPairSpecView, Error>(k@),
        r matches Err(e) ==> key_pair_spec_of(entries@) == Err::<KeyPairSpecView, Error>(e),
{
    proof {
        reveal_strlit("asym_spec");
        reveal_strlit("cipher");
        reveal_strlit("signing_hash");
        reveal_strlit("ephemeral");
        reveal_strlit("non_exportable");
    }
    let asym_spec = string_from_object(entries, "asym_spec")?;
    let cipher = optional_string_from_object(entries, "cipher")?;
    let signing_hash = string_from_object(entries, "signing_hash")?;
    let ephemeral = bool_from_object(entries, "ephemeral")?;
    let non_exportable = bool_from_object(entries, "non_exportable")?;
    Ok(KeyPairSpecFields { asym_spec, cipher, signing_hash, ephemeral, non_exportable })
}

} // verus!
