use vstd::prelude::*;
use vstd::string::*;

use std::collections::HashSet;

use crate::error::Error;

verus! {

/// A host number after truncation toward zero.
///
/// The host's numbers are binary floating point; what decoding needs of one
/// is its integral part, when that part is a finite `i128`, or else on which
/// side of that range it lies.
#[derive(Clone, Copy, Debug, PartialEq, Eq, Structural)]
pub enum Number {
    /// The truncated value.
    Integral(i128),
    /// Greater than `i128::MAX`, positive infinity included.
    AboveRange,
    /// Less than `i128::MIN`, negative infinity included.
    BelowRange,
    /// Not a number.
    NotANumber,
}

/// A structured value as it crosses the boundary from the host caller.
#[derive(Debug, PartialEq, Eq)]
pub enum Value {
    Undefined,
    Null,
    Bool(bool),
    Number(Number),
    Str(String),
    /// A byte array; an empty one is a value of its own, distinct from
    /// `Undefined`.
    Bytes(Vec<u8>),
    Array(Vec<Value>),
    /// An object's own properties, in the host's enumeration order.
    Object(Vec<(String, Value)>),
}

/// Is a property named `key`?
pub open spec fn has_key(key: Seq<char>) -> spec_fn((String, Value)) -> bool {
    |e: (String, Value)| e.0@ == key
}

/// The value of the property `key`, the first one of that name.
pub open spec fn field_of(entries: Seq<(String, Value)>, key: Seq<char>) -> Option<Value> {
    match first(entries, has_key(key)) {
        Some(i) => Some(entries[i].1),
        None => None,
    }
}

/// Looks up the property `key` of an object.
pub fn get_field<'a>(entries: &'a Vec<(String, Value)>, key: &str) -> (r: Option<&'a Value>)
    ensures
        r.is_some() == field_of(entries@, key@).is_some(),
        r.is_some() ==> field_of(entries@, key@) == Some(*r.unwrap()),
{
    let k = key.to_owned();
    let mut i: usize = 0;
    while i < entries.len()
        invariant
            k@ == key@,
            0 <= i <= entries.len(),
            forall|j: int| 0 <= j < i ==> !has_key(key@)(#[trigger] entries@[j]),
        decreases entries.len() - i,
    {
        if entries[i].0 == k {
            proof {
                lemma_first_at(entries@, has_key(key@), i as int);
            }
            return Some(&entries[i].1);
        }
        i = i + 1;
    }
    proof {
        lemma_first_none(entries@, has_key(key@));
    }
    None
}


/// The integral value of `n` when it lies in `[min, max]`.
pub open spec fn number_in_range(n: Number, min: i128, max: i128) -> Result<i128, Error> {
    match n {
        Number::Integral(v) => if min <= v && v <= max {
            Ok(v)
        } else {
            Err(Error::BadParameter)
        },
        _ => Err(Error::BadParameter),
    }
}

/// Reads a truncated host number as an integer of the range `[min, max]`,
/// the range of the integer type that the caller wants.
pub fn int_from_js_number(n: Number, min: i128, max: i128) -> (r: Result<i128, Error>)
    ensures
        r == number_in_range(n, min, max),
{
    match n {
        Number::Integral(v) => if min <= v && v <= max {
            Ok(v)
        } else {
            Err(Error::BadParameter)
        },
        _ => Err(Error::BadParameter),
    }
}

/// The integer held by the numeric property `key`.
pub open spec fn int_field(entries: Seq<(String, Value)>, key: Seq<char>, min: i128, max: i128) -> Result<i128, Error> {
    match field_of(entries, key) {
        Some(Value::Number(n)) => number_in_range(n, min, max),
        _ => Err(Error::BadParameter),
    }
}

/// Reads the numeric property `key` of an object as an integer of the range
/// `[min, max]`. A missing property, one of another type and one out of
/// range are all bad parameters.
pub fn int_from_object(entries: &Vec<(String, Value)>, key: &str, min: i128, max: i128) -> (r: Result<i128, Error>)
    ensures
        r == int_field(entries@, key@, min, max),
{
    match get_field(entries, key) {
        Some(Value::Number(n)) => int_from_js_number(*n, min, max),
        _ => Err(Error::BadParameter),
    }
}

/// Cost parameters of the Argon2 key derivation functions.
#[derive(Clone, Copy, Debug, PartialEq, Eq, Structural)]
pub struct ArgonOptions {
    pub memory: u32,
    pub iterations: u32,
    pub parallelism: u32,
}

/// A key derivation function with its parameters.
#[derive(Clone, Copy, Debug, PartialEq, Eq, Structural)]
pub enum Kdf {
    Argon2d(ArgonOptions),
    Argon2id(ArgonOptions),
}

pub open spec fn u32_field(entries: Seq<(String, Value)>, key: Seq<char>) -> Result<i128, Error> {
    int_field(entries, key, 0, u32::MAX as i128)
}

/// The Argon2 options that an object states: the properties `memory`,
/// `iterations` and `parallelism`, each a `u32`, checked in that order.
pub open spec fn argon_options_of(entries: Seq<(String, Value)>) -> Result<ArgonOptions, Error> {
    match u32_field(entries, "memory"@) {
        Err(e) => Err(e),
        Ok(memory) => match u32_field(entries, "iterations"@) {
            Err(e) => Err(e),
            Ok(iterations) => match u32_field(entries, "parallelism"@) {
                Err(e) => Err(e),
                Ok(parallelism) => Ok(
                    ArgonOptions {
                        memory: memory as u32,
                        iterations: iterations as u32,
                        parallelism: parallelism as u32,
                    },
                ),
            },
        },
    }
}

/// Decodes Argon2 options from an object.
pub fn argon_options_from_object(entries: &Vec<(String, Value)>) -> (r: Result<ArgonOptions, Error>)
    ensures
        r == argon_options_of(entries@),
{
    let max: i128 = 0xffff_ffff;
    proof {
        reveal_strlit("memory");
        reveal_strlit("iterations");
        reveal_strlit("parallelism");
    }
    let memory = int_from_object(entries, "memory", 0, max)?;
    let iterations = int_from_object(entries, "iterations", 0, max)?;
    let parallelism = int_from_object(entries, "parallelism", 0, max)?;
    Ok(
        ArgonOptions {
            memory: memory as u32,
            iterations: iterations as u32,
            parallelism: parallelism as u32,
        },
    )
}

/// An optional property counts as absent when it is missing or undefined.
pub open spec fn is_absent(v: Option<Value>) -> bool {
    match v {
        None => true,
        Some(Value::Undefined) => true,
        _ => false,
    }
}

/// The key derivation function that an object names: the property
/// `Argon2d` is looked at first, then `Argon2id`; each must hold an object of
/// Argon2 options when present. A property of another type, or no property
/// at all, is a bad parameter.
pub open spec fn kdf_of(entries: Seq<(String, Value)>) -> Result<Kdf, Error> {
    let d = field_of(entries, "Argon2d"@);
    let id = field_of(entries, "Argon2id"@);
    if !is_absent(d) {
        match d {
            Some(Value::Object(o)) => match argon_options_of(o@) {
                Ok(a) => Ok(Kdf::Argon2d(a)),
                Err(e) => Err(e),
            },
            _ => Err(Error::BadParameter),
        }
    } else if !is_absent(id) {
        match id {
            Some(Value::Object(o)) => match argon_options_of(o@) {
                Ok(a) => Ok(Kdf::Argon2id(a)),
                Err(e) => Err(e),
            },
            _ => Err(Error::BadParameter),
        }
    } else {
        Err(Error::BadParameter)
    }
}

/// Decodes a key derivation function from an object.
pub fn kdf_from_object(entries: &Vec<(String, Value)>) -> (r: Result<Kdf, Error>)
    ensures
        r == kdf_of(entries@),
{
    match get_field(entries, "Argon2d") {
        Some(Value::Object(o)) => {
            let a = argon_options_from_object(o)?;
            return Ok(Kdf::Argon2d(a));
        },
        Some(Value::Undefined) | None => {},
        Some(_) => {
            return Err(Error::BadParameter);
        },
    }
    match get_field(entries, "Argon2id") {
        Some(Value::Object(o)) => {
            let a = argon_options_from_object(o)?;
            Ok(Kdf::Argon2id(a))
        },
        Some(Value::Undefined) | None => Err(Error::BadParameter),
        Some(_) => Err(Error::BadParameter),
    }
}


/// The string elements of an array, in order; elements of other types are
/// left out.
pub open spec fn strings_of(items: Seq<Value>) -> Seq<Seq<char>>
    decreases items.len(),
{
    if items.len() == 0 {
        Seq::empty()
    } else {
        let rest = strings_of(items.drop_last());
        match items.last() {
            Value::Str(s) => rest.push(s@),
            _ => rest,
        }
    }
}

pub open spec fn views_of(v: Seq<String>) -> Seq<Seq<char>> {
    v.map_values(|s: String| s@)
}

/// Collects the string elements of an array, ignoring all others.
pub fn from_wrapped_string_vec(items: &Vec<Value>) -> (r: Vec<String>)
    ensures
        views_of(r@) == strings_of(items@),
{
    let mut r: Vec<String> = Vec::new();
    let mut i: usize = 0;
    while i < items.len()
        invariant
            0 <= i <= items.len(),
            views_of(r@) == strings_of(items@.subrange(0, i as int)),
        decreases items.len() - i,
    {
        proof {
            assert(items@.subrange(0, i + 1).drop_last() =~= items@.subrange(0, i as int));
        }
        match &items[i] {
            Value::Str(s) => {
                let ghost before = r@;
                r.push(s.clone());
                proof {
                    assert(views_of(r@) =~= views_of(before).push(s@));
                }
            },
            _ => {},
        }
        i = i + 1;
    }
    proof {
        assert(items@.subrange(0, items@.len() as int) =~= items@);
    }
    r
}

/// The names of an object's properties, in order.
pub open spec fn keys_of(entries: Seq<(String, Value)>) -> Seq<Seq<char>> {
    entries.map_values(|e: (String, Value)| e.0@)
}

/// Returns the names of an object's own properties.
pub fn object_keys(entries: &Vec<(String, Value)>) -> (r: Vec<String>)
    ensures
        views_of(r@) == keys_of(entries@),
{
    let mut r: Vec<String> = Vec::new();
    let mut i: usize = 0;
    while i < entries.len()
        invariant
            0 <= i <= entries.len(),
            views_of(r@) =~= keys_of(entries@.subrange(0, i as int)),
        decreases entries.len() - i,
    {
        r.push(entries[i].0.clone());
        proof {
            assert(keys_of(entries@.subrange(0, i + 1)) =~= keys_of(entries@.subrange(0, i as int)).push(entries@[i as int].0@));
        }
        i = i + 1;
    }
    proof {
        assert(entries@.subrange(0, entries@.len() as int) =~= entries@);
    }
    r
}

/// `i` is the first position of `s` whose element satisfies `p`.
pub open spec fn is_first<A>(s: Seq<A>, p: spec_fn(A) -> bool, i: int) -> bool {
    &&& 0 <= i < s.len()
    &&& p(s[i])
    &&& forall|j: int| 0 <= j < i ==> !p(#[trigger] s[j])
}

/// The first position of `s` whose element satisfies `p`, if there is one.
pub open spec fn first<A>(s: Seq<A>, p: spec_fn(A) -> bool) -> Option<int> {
    if exists|i: int| is_first(s, p, i) {
        Some(choose|i: int| is_first(s, p, i))
    } else {
        None
    }
}

/// The first position that satisfies `p` is the one that [`first`] gives.
pub proof fn lemma_first_at<A>(s: Seq<A>, p: spec_fn(A) -> bool, i: int)
    requires
        is_first(s, p, i),
    ensures
        first(s, p) == Some(i),
{
    let c = choose|c: int| is_first(s, p, c);
    if c < i {
        assert(!p(s[c]));
    } else if i < c {
        assert(!p(s[i]));
    }
}

/// Where no position satisfies `p`, [`first`] gives none.
pub proof fn lemma_first_none<A>(s: Seq<A>, p: spec_fn(A) -> bool)
    requires
        forall|j: int| 0 <= j < s.len() ==> !p(#[trigger] s[j]),
    ensures
        first(s, p) is None,
{
    assert forall|c: int| !is_first(s, p, c) by {
        if 0 <= c < s.len() {
            assert(!p(s[c]));
        }
    }
}

/// Is a name equal to `name`?
pub open spec fn named(name: Seq<char>) -> spec_fn(String) -> bool {
    |n: String| n@ == name
}

/// Does `name` name one of the variants `names`?
pub open spec fn names_variant(names: Seq<String>, name: Seq<char>) -> bool {
    first(names, named(name)) is Some
}

/// The position of the variant that `name` names, the first of that name.
pub fn variant_index(names: &Vec<String>, name: &String) -> (r: Option<usize>)
    ensures
        r matches Some(i) ==> first(names@, named(name@)) == Some(i as int),
        r is None ==> first(names@, named(name@)) is None,
{
    let mut i: usize = 0;
    while i < names.len()
        invariant
            0 <= i <= names.len(),
            forall|j: int| 0 <= j < i ==> !named(name@)(#[trigger] names@[j]),
        decreases names.len() - i,
    {
        if names[i] == *name {
            proof {
                lemma_first_at(names@, named(name@), i as int);
            }
            return Some(i);
        }
        i = i + 1;
    }
    proof {
        lemma_first_none(names@, named(name@));
    }
    None
}

/// What a simple enum value decodes to: a string that names one of the
/// variants `names`.
pub open spec fn simple_enum_of(v: Value, names: Seq<String>) -> Result<int, Error> {
    match v {
        Value::Str(s) => match first(names, named(s@)) {
            Some(i) => Ok(i),
            None => Err(Error::EnumVariantNotFound),
        },
        _ => Err(Error::ConversionFailed),
    }
}

/// Decodes a value that must be a string naming one of the variants `names`;
/// returns the variant's position.
pub fn from_wrapped_simple_enum(v: &Value, names: &Vec<String>) -> (r: Result<usize, Error>)
    ensures
        r matches Ok(i) ==> simple_enum_of(*v, names@) == Ok::<int, Error>(i as int),
        r matches Err(e) ==> simple_enum_of(*v, names@) == Err::<int, Error>(e),
{
    match v {
        Value::Str(s) => match variant_index(names, s) {
            Some(i) => Ok(i),
            None => Err(Error::EnumVariantNotFound),
        },
        _ => Err(Error::ConversionFailed),
    }
}

/// Does a property's name name one of the variants `names`?
pub open spec fn entry_names_variant(names: Seq<String>) -> spec_fn((String, Value)) -> bool {
    |e: (String, Value)| names_variant(names, e.0@)
}

/// The character of a decimal digit.
pub open spec fn digit_char(d: nat) -> char {
    if d == 0 {
        '0'
    } else if d == 1 {
        '1'
    } else if d == 2 {
        '2'
    } else if d == 3 {
        '3'
    } else if d == 4 {
        '4'
    } else if d == 5 {
        '5'
    } else if d == 6 {
        '6'
    } else if d == 7 {
        '7'
    } else if d == 8 {
        '8'
    } else {
        '9'
    }
}

/// The decimal numeral of `n`, without leading zeros.
pub open spec fn decimal(n: nat) -> Seq<char>
    decreases n,
{
    if n < 10 {
        seq![digit_char(n)]
    } else {
        decimal(n / 10).push(digit_char(n % 10))
    }
}

fn digit_str(d: usize) -> (r: &'static str)
    requires
        d < 10,
    ensures
        r@ == seq![digit_char(d as nat)],
{
    proof {
        reveal_strlit("0");
        reveal_strlit("1");
        reveal_strlit("2");
        reveal_strlit("3");
        reveal_strlit("4");
        reveal_strlit("5");
        reveal_strlit("6");
        reveal_strlit("7");
        reveal_strlit("8");
        reveal_strlit("9");
    }
    if d == 0 {
        "0"
    } else if d == 1 {
        "1"
    } else if d == 2 {
        "2"
    } else if d == 3 {
        "3"
    } else if d == 4 {
        "4"
    } else if d == 5 {
        "5"
    } else if d == 6 {
        "6"
    } else if d == 7 {
        "7"
    } else if d == 8 {
        "8"
    } else {
        "9"
    }
}

/// Writes `n` as a decimal numeral.
pub fn decimal_string(n: usize) -> (r: String)
    ensures
        r@ == decimal(n as nat),
    decreases n,
{
    if n < 10 {
        digit_str(n).to_owned()
    } else {
        let mut r = decimal_string(n / 10);
        r.append(digit_str(n % 10));
        r
    }
}

/// The property names of the indices of an array of `n` elements.
pub open spec fn index_keys(n: nat) -> Seq<Seq<char>> {
    Seq::new(n, |i: int| decimal(i as nat))
}

/// Does a property name name one of the variants `names`?
pub open spec fn key_names_variant(names: Seq<String>) -> spec_fn(Seq<char>) -> bool {
    |k: Seq<char>| names_variant(names, k)
}

/// The data of an enum variant that an object selected.
pub enum EnumDataView {
    /// The value of the selecting property.
    Value(Value),
    /// A number the property held (an array's length, a byte).
    Number(i128),
}

/// The data of an enum variant, as [`from_wrapped_enum`] returns it.
#[derive(Debug, PartialEq)]
pub enum EnumData<'a> {
    Value(&'a Value),
    Number(i128),
}

impl<'a> View for EnumData<'a> {
    type V = EnumDataView;

    open spec fn view(&self) -> EnumDataView {
        match self {
            EnumData::Value(v) => EnumDataView::Value(**v),
            EnumData::Number(n) => EnumDataView::Number(*n),
        }
    }
}

pub open spec fn data_view(d: Option<EnumData>) -> Option<EnumDataView> {
    match d {
        Some(x) => Some(x@),
        None => None,
    }
}

/// What an enum value decodes to: a string naming a variant, which carries
/// no data; or an object, whose first property (in order) that names a
/// variant selects it, and whose value is the variant's data. Arrays and
/// byte arrays are objects too: their properties are their indices, in
/// order, and for an array then `length`.
pub open spec fn enum_of(v: Value, names: Seq<String>) -> Result<(int, Option<EnumDataView>), Error> {
    match v {
        Value::Str(s) => match first(names, named(s@)) {
            Some(i) => Ok((i, None)),
            None => Err(Error::EnumVariantNotFound),
        },
        Value::Object(entries) => match first(entries@, entry_names_variant(names)) {
            Some(k) => Ok(
                (
                    first(names, named(entries@[k].0@))->Some_0,
                    Some(EnumDataView::Value(entries@[k].1)),
                ),
            ),
            None => Err(Error::EnumVariantNotFound),
        },
        Value::Array(items) => {
            let keys = index_keys(items@.len()).push("length"@);
            match first(keys, key_names_variant(names)) {
                Some(k) => Ok(
                    (
                        first(names, named(keys[k]))->Some_0,
                        Some(
                            if k < items@.len() {
                                EnumDataView::Value(items@[k])
                            } else {
                                EnumDataView::Number(items@.len() as i128)
                            },
                        ),
                    ),
                ),
                None => Err(Error::EnumVariantNotFound),
            }
        },
        Value::Bytes(b) => {
            let keys = index_keys(b@.len());
            match first(keys, key_names_variant(names)) {
                Some(k) => Ok(
                    (
                        first(names, named(keys[k]))->Some_0,
                        Some(EnumDataView::Number(b@[k] as i128)),
                    ),
                ),
                None => Err(Error::EnumVariantNotFound),
            }
        },
        _ => Err(Error::BadParameter),
    }
}

/// The first index below `len` whose name names a variant, with that
/// variant's position.
fn first_indexed_variant(len: usize, names: &Vec<String>) -> (r: Option<(usize, usize)>)
    ensures
        r matches Some((i, k)) ==> is_first(index_keys(len as nat), key_names_variant(names@), k as int)
            && first(names@, named(decimal(k as nat))) == Some(i as int),
        r is None ==> forall|j: int|
            0 <= j < len ==> !key_names_variant(names@)(#[trigger] index_keys(len as nat)[j]),
{
    let mut k: usize = 0;
    while k < len
        invariant
            0 <= k <= len,
            forall|j: int|
                0 <= j < k ==> !key_names_variant(names@)(#[trigger] index_keys(len as nat)[j]),
        decreases len - k,
    {
        let key = decimal_string(k);
        match variant_index(names, &key) {
            Some(i) => {
                return Some((i, k));
            },
            None => {},
        }
        k = k + 1;
    }
    None
}

/// Decodes an enum value that is either a string or an object (see
/// [`enum_of`]); returns the variant's position and, for an object, its data.
pub fn from_wrapped_enum<'a>(v: &'a Value, names: &Vec<String>) -> (r: Result<
    (usize, Option<EnumData<'a>>),
    Error,
>)
    ensures
        r matches Ok((i, d)) ==> enum_of(*v, names@) == Ok::<(int, Option<EnumDataView>), Error>(
            (i as int, data_view(d)),
        ),
        r matches Err(x) ==> enum_of(*v, names@) == Err::<(int, Option<EnumDataView>), Error>(x),
{
    match v {
        Value::Str(s) => match variant_index(names, s) {
            Some(i) => Ok((i, None)),
            None => Err(Error::EnumVariantNotFound),
        },
        Value::Object(entries) => {
            let mut k: usize = 0;
            while k < entries.len()
                invariant
                    *v == Value::Object(*entries),
                    0 <= k <= entries.len(),
                    forall|j: int|
                        0 <= j < k ==> !entry_names_variant(names@)(#[trigger] entries@[j]),
                decreases entries.len() - k,
            {
                match variant_index(names, &entries[k].0) {
                    Some(i) => {
                        proof {
                            lemma_first_at(entries@, entry_names_variant(names@), k as int);
                        }
                        return Ok((i, Some(EnumData::Value(&entries[k].1))));
                    },
                    None => {},
                }
                k = k + 1;
            }
            proof {
                lemma_first_none(entries@, entry_names_variant(names@));
            }
            Err(Error::EnumVariantNotFound)
        },
        Value::Array(items) => {
            let ghost keys = index_keys(items@.len()).push("length"@);
            let ghost p = key_names_variant(names@);
            match first_indexed_variant(items.len(), names) {
                Some((i, k)) => {
                    proof {
                        assert(is_first(keys, p, k as int));
                        lemma_first_at(keys, p, k as int);
                    }
                    Ok((i, Some(EnumData::Value(&items[k]))))
                },
                None => {
                    let length = "length".to_owned();
                    proof {
                        reveal_strlit("length");
                    }
                    match variant_index(names, &length) {
                        Some(i) => {
                            proof {
                                assert(is_first(keys, p, items@.len() as int));
                                lemma_first_at(keys, p, items@.len() as int);
                            }
                            Ok((i, Some(EnumData::Number(items.len() as i128))))
                        },
                        None => {
                            proof {
                                assert forall|j: int| 0 <= j < keys.len() implies !p(
                                    #[trigger] keys[j],
                                ) by {
                                    if j < items@.len() {
                                        assert(keys[j] == index_keys(items@.len())[j]);
                                    }
                                }
                                lemma_first_none(keys, p);
                            }
                            Err(Error::EnumVariantNotFound)
                        },
                    }
                },
            }
        },
        Value::Bytes(b) => {
            let ghost keys = index_keys(b@.len());
            let ghost p = key_names_variant(names@);
            match first_indexed_variant(b.len(), names) {
                Some((i, k)) => {
                    proof {
                        lemma_first_at(keys, p, k as int);
                    }
                    Ok((i, Some(EnumData::Number(b[k] as i128))))
                },
                None => {
                    proof {
                        lemma_first_none(keys, p);
                    }
                    Err(Error::EnumVariantNotFound)
                },
            }
        },
        _ => Err(Error::BadParameter),
    }
}

/// The length that a request for random bytes asks for: a whole number
/// from zero up to `usize::MAX`. Anything else (negative, too large, not a
/// number) is a bad parameter.
pub open spec fn random_length_of(n: Number) -> Result<usize, Error> {
    match number_in_range(n, 0, usize::MAX as i128) {
        Ok(v) => Ok(v as usize),
        Err(e) => Err(e),
    }
}

/// Validates the length argument of a request for random bytes.
pub fn random_length(n: Number) -> (r: Result<usize, Error>)
    ensures
        r == random_length_of(n),
{
    let v = int_from_js_number(n, 0, usize::MAX as i128)?;
    Ok(v as usize)
}

/// The variants that the first `n` elements of an array name, each element
/// decoded as a simple enum (see [`simple_enum_of`]); the first error among
/// them, in order, if any.
pub open spec fn enum_set_of(items: Seq<Value>, names: Seq<String>, n: nat) -> Result<Set<usize>, Error>
    decreases n,
{
    if n == 0 {
        Ok(Set::empty())
    } else {
        match enum_set_of(items, names, (n - 1) as nat) {
            Err(e) => Err(e),
            Ok(done) => match simple_enum_of(items[n - 1], names) {
                Err(e) => Err(e),
                Ok(i) => Ok(done.insert(i as usize)),
            },
        }
    }
}

proof fn lemma_enum_set_error_stays(items: Seq<Value>, names: Seq<String>, k: nat, m: nat)
    requires
        k <= m,
        enum_set_of(items, names, k) is Err,
    ensures
        enum_set_of(items, names, m) == enum_set_of(items, names, k),
    decreases m - k,
{
    if k < m {
        lemma_enum_set_error_stays(items, names, k, (m - 1) as nat);
    }
}

/// Decodes every element of an array as a simple enum over `names` and
/// collects the variants into a set.
pub fn wrapped_array_to_hash_set(items: &Vec<Value>, names: &Vec<String>) -> (r: Result<
    HashSet<usize>,
    Error,
>)
    ensures
        r matches Ok(s) ==> enum_set_of(items@, names@, items@.len()) == Ok::<Set<usize>, Error>(
            s@,
        ),
        r matches Err(e) ==> enum_set_of(items@, names@, items@.len()) == Err::<Set<usize>, Error>(
            e,
        ),
{
    broadcast use vstd::std_specs::hash::group_hash_axioms;

    let mut r: HashSet<usize> = HashSet::new();
    let mut i: usize = 0;
    while i < items.len()
        invariant
            0 <= i <= items@.len(),
            enum_set_of(items@, names@, i as nat) == Ok::<Set<usize>, Error>(r@),
        decreases items@.len() - i,
    {
        match from_wrapped_simple_enum(&items[i], names) {
            Ok(v) => {
                r.insert(v);
            },
            Err(e) => {
                proof {
                    lemma_enum_set_error_stays(items@, names@, (i + 1) as nat, items@.len());
                }
                return Err(e);
            },
        }
        i = i + 1;
    }
    Ok(r)
}

/// Wraps strings as an array of string values, in order.
pub fn wrap_string_array(arr: &Vec<String>) -> (r: Value)
    ensures
        r matches Value::Array(items) && items@.len() == arr@.len() && forall|i: int|
            0 <= i < arr@.len() ==> #[trigger] items@[i] == Value::Str(arr@[i]),
{
    let mut items: Vec<Value> = Vec::new();
    let mut i: usize = 0;
    while i < arr.len()
        invariant
            0 <= i <= arr@.len(),
            items@.len() == i,
            forall|j: int| 0 <= j < i ==> #[trigger] items@[j] == Value::Str(arr@[j]),
        decreases arr@.len() - i,
    {
        items.push(Value::Str(arr[i].clone()));
        i = i + 1;
    }
    Value::Array(items)
}

/// Wraps a pair of byte sequences (two session keys, say) as an array of
/// two byte arrays, in order; empty sequences stay empty byte arrays.
pub fn uint_8_array_tuple_from_vec_u8_tuple(value: (Vec<u8>, Vec<u8>)) -> (r: Value)
    ensures
        r matches Value::Array(items) && items@ == seq![
            Value::Bytes(value.0),
            Value::Bytes(value.1),
        ],
{
    let (first, second) = value;
    let mut items: Vec<Value> = Vec::new();
    items.push(Value::Bytes(first));
    items.push(Value::Bytes(second));
    proof {
        assert(items@ =~= seq![Value::Bytes(value.0), Value::Bytes(value.1)]);
    }
    Value::Array(items)
}

} // verus!
