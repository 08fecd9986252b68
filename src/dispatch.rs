use vstd::prelude::*;

use crate::error::Error;
use crate::keyspec::{
    key_pair_spec_from_object, key_pair_spec_of, key_spec_from_object, key_spec_of,
    KeyPairSpecFields, KeyPairSpecView, KeySpecFields, KeySpecView,
};
use crate::pending::{PendingResult, Resolver};
use crate::value::{
    from_wrapped_simple_enum, int_from_js_number, kdf_from_object, kdf_of, number_in_range,
    random_length, random_length_of, simple_enum_of, Kdf, Value,
};

verus! {

/// The stateful objects that the bridge shares with its workers.
#[derive(Clone, Copy, Debug, PartialEq, Eq, Structural)]
pub enum DomainObject {
    Provider,
    KeyHandle,
    KeyPairHandle,
    DhExchange,
}

/// The operations of the domain objects.
#[derive(Clone, Copy, Debug, PartialEq, Eq, Structural)]
pub enum Operation {
    CreateKey,
    CreateKeyPair,
    ProviderName,
    LoadKey,
    LoadKeyPair,
    ImportKey,
    ImportKeyPair,
    ImportPublicKey,
    GetCapabilities,
    StartEphemeralDhExchange,
    DeriveKeyFromPassword,
    DeriveKeyFromBase,
    GetRandom,
    Hash,
    Id,
    Delete,
    EncryptData,
    Encrypt,
    EncryptWithIv,
    DecryptData,
    ExtractKey,
    Spec,
    DeriveKey,
    GetPublicKey,
    DeriveClientSessionKeys,
    DeriveServerSessionKeys,
    DeriveClientKeyHandles,
    DeriveServerKeyHandles,
}

/// How an operation holds its object while it runs.
#[derive(Clone, Copy, Debug, PartialEq, Eq, Structural)]
pub enum Access {
    Shared,
    Exclusive,
}

/// The object that an operation belongs to.
pub open spec fn owner_of(op: Operation) -> DomainObject {
    match op {
        Operation::CreateKey | Operation::CreateKeyPair | Operation::ProviderName
        | Operation::LoadKey | Operation::LoadKeyPair | Operation::ImportKey
        | Operation::ImportKeyPair | Operation::ImportPublicKey | Operation::GetCapabilities
        | Operation::StartEphemeralDhExchange | Operation::DeriveKeyFromPassword
        | Operation::DeriveKeyFromBase | Operation::GetRandom | Operation::Hash =>
            DomainObject::Provider,
        Operation::Id | Operation::Delete | Operation::EncryptData | Operation::Encrypt
        | Operation::EncryptWithIv | Operation::DecryptData | Operation::ExtractKey
        | Operation::Spec | Operation::DeriveKey => DomainObject::KeyHandle,
        Operation::GetPublicKey | Operation::DeriveClientSessionKeys
        | Operation::DeriveServerSessionKeys | Operation::DeriveClientKeyHandles
        | Operation::DeriveServerKeyHandles => DomainObject::DhExchange,
    }
}

/// The access that an operation needs: exclusive for whatever changes the
/// object (creating, loading or importing through the provider, starting an
/// exchange, deleting a key, deriving from an exchange), shared for the
/// rest.
pub open spec fn access_of(op: Operation) -> Access {
    match op {
        Operation::CreateKey | Operation::CreateKeyPair | Operation::LoadKey
        | Operation::LoadKeyPair | Operation::ImportKey | Operation::ImportKeyPair
        | Operation::ImportPublicKey | Operation::StartEphemeralDhExchange | Operation::Delete
        | Operation::DeriveClientSessionKeys | Operation::DeriveServerSessionKeys
        | Operation::DeriveClientKeyHandles | Operation::DeriveServerKeyHandles =>
            Access::Exclusive,
        _ => Access::Shared,
    }
}

/// Whether an operation goes to the worker pool. Reading the provider's
/// name is immediate and the one exception.
pub open spec fn is_dispatched(op: Operation) -> bool {
    op != Operation::ProviderName
}

impl Operation {
    /// The object that this operation belongs to.
    pub fn owner(&self) -> (r: DomainObject)
        ensures
            r == owner_of(*self),
    {
        match self {
            Operation::CreateKey | Operation::CreateKeyPair | Operation::ProviderName
            | Operation::LoadKey | Operation::LoadKeyPair | Operation::ImportKey
            | Operation::ImportKeyPair | Operation::ImportPublicKey | Operation::GetCapabilities
            | Operation::StartEphemeralDhExchange | Operation::DeriveKeyFromPassword
            | Operation::DeriveKeyFromBase | Operation::GetRandom | Operation::Hash =>
                DomainObject::Provider,
            Operation::Id | Operation::Delete | Operation::EncryptData | Operation::Encrypt
            | Operation::EncryptWithIv | Operation::DecryptData | Operation::ExtractKey
            | Operation::Spec | Operation::DeriveKey => DomainObject::KeyHandle,
            Operation::GetPublicKey | Operation::DeriveClientSessionKeys
            | Operation::DeriveServerSessionKeys | Operation::DeriveClientKeyHandles
            | Operation::DeriveServerKeyHandles => DomainObject::DhExchange,
        }
    }

    /// The access that this operation needs.
    pub fn access(&self) -> (r: Access)
        ensures
            r == access_of(*self),
    {
        match self {
            Operation::CreateKey | Operation::CreateKeyPair | Operation::LoadKey
            | Operation::LoadKeyPair | Operation::ImportKey | Operation::ImportKeyPair
            | Operation::ImportPublicKey | Operation::StartEphemeralDhExchange
            | Operation::Delete | Operation::DeriveClientSessionKeys
            | Operation::DeriveServerSessionKeys | Operation::DeriveClientKeyHandles
            | Operation::DeriveServerKeyHandles => Access::Exclusive,
            _ => Access::Shared,
        }
    }

    pub fn is_dispatched(&self) -> (r: bool)
        ensures
            r == is_dispatched(*self),
    {
        match self {
            Operation::ProviderName => false,
            _ => true,
        }
    }
}


/// What an argument of an operation must be.
#[derive(Clone, Copy, Debug, PartialEq, Eq, Structural)]
pub enum ArgKind {
    /// A byte array (data, an iv, a nonce, key material).
    Bytes,
    /// A string (an id, a password, a context).
    Text,
    /// A key spec object.
    KeySpec,
    /// A key-pair spec object.
    KeyPairSpec,
    /// A key derivation function with its parameters.
    Kdf,
    /// A numeric key id, a `u64`.
    KeyId,
    /// The length of a request for random bytes.
    Length,
    /// The name of a hash algorithm.
    Algorithm,
}

/// A decoded argument.
#[derive(Debug)]
pub enum Arg {
    Bytes(Vec<u8>),
    Text(String),
    KeySpec(KeySpecFields),
    KeyPairSpec(KeyPairSpecFields),
    Kdf(Kdf),
    KeyId(u64),
    Length(usize),
    /// The position of the algorithm among the names it was decoded against.
    Algorithm(usize),
}

/// A decoded argument, as a mathematical value.
pub enum ArgView {
    Bytes(Seq<u8>),
    Text(Seq<char>),
    KeySpec(KeySpecView),
    KeyPairSpec(KeyPairSpecView),
    Kdf(Kdf),
    KeyId(u64),
    Length(usize),
    Algorithm(int),
}

impl View for Arg {
    type V = ArgView;

    open spec fn view(&self) -> ArgView {
        match self {
            Arg::Bytes(b) => ArgView::Bytes(b@),
            Arg::Text(t) => ArgView::Text(t@),
            Arg::KeySpec(k) => ArgView::KeySpec(k@),
            Arg::KeyPairSpec(k) => ArgView::KeyPairSpec(k@),
            Arg::Kdf(k) => ArgView::Kdf(*k),
            Arg::KeyId(i) => ArgView::KeyId(*i),
            Arg::Length(n) => ArgView::Length(*n),
            Arg::Algorithm(i) => ArgView::Algorithm(*i as int),
        }
    }
}

/// The arguments that an operation takes, in order.
pub open spec fn arg_kinds(op: Operation) -> Seq<ArgKind> {
    match op {
        Operation::CreateKey => seq![ArgKind::KeySpec],
        Operation::CreateKeyPair | Operation::StartEphemeralDhExchange => seq![
            ArgKind::KeyPairSpec,
        ],
        Operation::LoadKey | Operation::LoadKeyPair => seq![ArgKind::Text],
        Operation::ImportKey => seq![ArgKind::KeySpec, ArgKind::Bytes],
        Operation::ImportPublicKey => seq![ArgKind::KeyPairSpec, ArgKind::Bytes],
        Operation::ImportKeyPair => seq![ArgKind::KeyPairSpec, ArgKind::Bytes, ArgKind::Bytes],
        Operation::DeriveKeyFromPassword => seq![
            ArgKind::Text,
            ArgKind::Bytes,
            ArgKind::KeySpec,
            ArgKind::Kdf,
        ],
        Operation::DeriveKeyFromBase => seq![
            ArgKind::Bytes,
            ArgKind::KeyId,
            ArgKind::Text,
            ArgKind::KeySpec,
        ],
        Operation::GetRandom => seq![ArgKind::Length],
        Operation::Hash => seq![ArgKind::Bytes, ArgKind::Algorithm],
        Operation::EncryptData | Operation::EncryptWithIv | Operation::DecryptData => seq![
            ArgKind::Bytes,
            ArgKind::Bytes,
        ],
        Operation::Encrypt | Operation::DeriveKey | Operation::DeriveClientSessionKeys
        | Operation::DeriveServerSessionKeys | Operation::DeriveClientKeyHandles
        | Operation::DeriveServerKeyHandles => seq![ArgKind::Bytes],
        Operation::ProviderName | Operation::GetCapabilities | Operation::Id | Operation::Delete
        | Operation::ExtractKey | Operation::Spec | Operation::GetPublicKey => seq![],
    }
}

fn kinds(a: &[ArgKind]) -> (r: Vec<ArgKind>)
    ensures
        r@ == a@,
{
    let mut r: Vec<ArgKind> = Vec::new();
    let mut i: usize = 0;
    while i < a.len()
        invariant
            0 <= i <= a@.len(),
            r@ == a@.subrange(0, i as int),
        decreases a@.len() - i,
    {
        r.push(a[i]);
        proof {
            assert(a@.subrange(0, i + 1) =~= a@.subrange(0, i as int).push(a@[i as int]));
        }
        i = i + 1;
    }
    proof {
        assert(a@.subrange(0, a@.len() as int) =~= a@);
    }
    r
}

impl Operation {
    /// The arguments that this operation takes, in order.
    pub fn arg_kinds(&self) -> (r: Vec<ArgKind>)
        ensures
            r@ == arg_kinds(*self),
    {
        let r = match self {
            Operation::CreateKey => kinds(&[ArgKind::KeySpec]),
            Operation::CreateKeyPair | Operation::StartEphemeralDhExchange => kinds(
                &[ArgKind::KeyPairSpec],
            ),
            Operation::LoadKey | Operation::LoadKeyPair => kinds(&[ArgKind::Text]),
            Operation::ImportKey => kinds(&[ArgKind::KeySpec, ArgKind::Bytes]),
            Operation::ImportPublicKey => kinds(&[ArgKind::KeyPairSpec, ArgKind::Bytes]),
            Operation::ImportKeyPair => kinds(
                &[ArgKind::KeyPairSpec, ArgKind::Bytes, ArgKind::Bytes],
            ),
            Operation::DeriveKeyFromPassword => kinds(
                &[ArgKind::Text, ArgKind::Bytes, ArgKind::KeySpec, ArgKind::Kdf],
            ),
            Operation::DeriveKeyFromBase => kinds(
                &[ArgKind::Bytes, ArgKind::KeyId, ArgKind::Text, ArgKind::KeySpec],
            ),
            Operation::GetRandom => kinds(&[ArgKind::Length]),
            Operation::Hash => kinds(&[ArgKind::Bytes, ArgKind::Algorithm]),
            Operation::EncryptData | Operation::EncryptWithIv | Operation::DecryptData => kinds(
                &[ArgKind::Bytes, ArgKind::Bytes],
            ),
            Operation::Encrypt | Operation::DeriveKey | Operation::DeriveClientSessionKeys
            | Operation::DeriveServerSessionKeys | Operation::DeriveClientKeyHandles
            | Operation::DeriveServerKeyHandles => kinds(&[ArgKind::Bytes]),
            Operation::ProviderName | Operation::GetCapabilities | Operation::Id
            | Operation::Delete | Operation::ExtractKey | Operation::Spec
            | Operation::GetPublicKey => Vec::new(),
        };
        proof {
            assert(r@ =~= arg_kinds(*self));
        }
        r
    }
}

/// What the value `v` decodes to as an argument of kind `kind`; `names` are
/// the names of the hash algorithms. A value of the wrong type is a bad
/// parameter; the decoders of structured values give their own errors.
pub open spec fn arg_of(kind: ArgKind, v: Value, names: Seq<String>) -> Result<ArgView, Error> {
    match kind {
        ArgKind::Bytes => match v {
            Value::Bytes(b) => Ok(ArgView::Bytes(b@)),
            _ => Err(Error::BadParameter),
        },
        ArgKind::Text => match v {
            Value::Str(t) => Ok(ArgView::Text(t@)),
            _ => Err(Error::BadParameter),
        },
        ArgKind::KeySpec => match v {
            Value::Object(e) => match key_spec_of(e@) {
                Ok(k) => Ok(ArgView::KeySpec(k)),
                Err(x) => Err(x),
            },
            _ => Err(Error::BadParameter),
        },
        ArgKind::KeyPairSpec => match v {
            Value::Object(e) => match key_pair_spec_of(e@) {
                Ok(k) => Ok(ArgView::KeyPairSpec(k)),
                Err(x) => Err(x),
            },
            _ => Err(Error::BadParameter),
        },
        ArgKind::Kdf => match v {
            Value::Object(e) => match kdf_of(e@) {
                Ok(k) => Ok(ArgView::Kdf(k)),
                Err(x) => Err(x),
            },
            _ => Err(Error::BadParameter),
        },
        ArgKind::KeyId => match v {
            Value::Number(n) => match number_in_range(n, 0, u64::MAX as i128) {
                Ok(i) => Ok(ArgView::KeyId(i as u64)),
                Err(x) => Err(x),
            },
            _ => Err(Error::BadParameter),
        },
        ArgKind::Length => match v {
            Value::Number(n) => match random_length_of(n) {
                Ok(l) => Ok(ArgView::Length(l)),
                Err(x) => Err(x),
            },
            _ => Err(Error::BadParameter),
        },
        ArgKind::Algorithm => match simple_enum_of(v, names) {
            Ok(i) => Ok(ArgView::Algorithm(i)),
            Err(x) => Err(x),
        },
    }
}

/// Decodes one argument.
pub fn decode_arg(kind: ArgKind, v: &Value, names: &Vec<String>) -> (r: Result<Arg, Error>)
    ensures
        r matches Ok(a) ==> arg_of(kind, *v, names@) == Ok::<ArgView, Error>(a@),
        r matches Err(x) ==> arg_of(kind, *v, names@) == Err::<ArgView, Error>(x),
{
    match kind {
        ArgKind::Bytes => match v {
            Value::Bytes(b) => {
                let c = b.clone();
                proof {
                    assert(c@ =~= b@);
                }
                Ok(Arg::Bytes(c))
            },
            _ => Err(Error::BadParameter),
        },
        ArgKind::Text => match v {
            Value::Str(t) => Ok(Arg::Text(t.clone())),
            _ => Err(Error::BadParameter),
        },
        ArgKind::KeySpec => match v {
            Value::Object(e) => match key_spec_from_object(e) {
                Ok(k) => Ok(Arg::KeySpec(k)),
                Err(x) => Err(x),
            },
            _ => Err(Error::BadParameter),
        },
        ArgKind::KeyPairSpec => match v {
            Value::Object(e) => match key_pair_spec_from_object(e) {
                Ok(k) => Ok(Arg::KeyPairSpec(k)),
                Err(x) => Err(x),
            },
            _ => Err(Error::BadParameter),
        },
        ArgKind::Kdf => match v {
            Value::Object(e) => match kdf_from_object(e) {
                Ok(k) => Ok(Arg::Kdf(k)),
                Err(x) => Err(x),
            },
            _ => Err(Error::BadParameter),
        },
        ArgKind::KeyId => match v {
            Value::Number(n) => match int_from_js_number(*n, 0, 0xffff_ffff_ffff_ffff) {
                Ok(i) => Ok(Arg::KeyId(i as u64)),
                Err(x) => Err(x),
            },
            _ => Err(Error::BadParameter),
        },
        ArgKind::Length => match v {
            Value::Number(n) => match random_length(*n) {
                Ok(l) => Ok(Arg::Length(l)),
                Err(x) => Err(x),
            },
            _ => Err(Error::BadParameter),
        },
        ArgKind::Algorithm => match from_wrapped_simple_enum(v, names) {
            Ok(i) => Ok(Arg::Algorithm(i)),
            Err(x) => Err(x),
        },
    }
}

/// What the first `n` arguments decode to: the first error among them, in
/// order, or all of them decoded.
pub open spec fn args_of(kinds: Seq<ArgKind>, args: Seq<Value>, names: Seq<String>, n: nat) -> Result<
    Seq<ArgView>,
    Error,
>
    decreases n,
{
    if n == 0 {
        Ok(Seq::empty())
    } else {
        match args_of(kinds, args, names, (n - 1) as nat) {
            Err(x) => Err(x),
            Ok(done) => match arg_of(kinds[n - 1], args[n - 1], names) {
                Err(x) => Err(x),
                Ok(a) => Ok(done.push(a)),
            },
        }
    }
}

/// What the arguments of a call of `op` decode to. A missing argument is a
/// bad parameter; arguments beyond those that `op` takes are ignored.
pub open spec fn call_args_of(op: Operation, args: Seq<Value>, names: Seq<String>) -> Result<
    Seq<ArgView>,
    Error,
> {
    if args.len() < arg_kinds(op).len() {
        Err(Error::BadParameter)
    } else {
        args_of(arg_kinds(op), args, names, arg_kinds(op).len())
    }
}

proof fn lemma_args_error_stays(
    kinds: Seq<ArgKind>,
    args: Seq<Value>,
    names: Seq<String>,
    k: nat,
    m: nat,
)
    requires
        k <= m,
        args_of(kinds, args, names, k) is Err,
    ensures
        args_of(kinds, args, names, m) == args_of(kinds, args, names, k),
    decreases m - k,
{
    if k < m {
        lemma_args_error_stays(kinds, args, names, k, (m - 1) as nat);
    }
}

pub open spec fn arg_views(args: Seq<Arg>) -> Seq<ArgView> {
    args.map_values(|a: Arg| a@)
}

/// Decodes the arguments of a call of `op`.
pub fn decode_args(op: Operation, args: &Vec<Value>, names: &Vec<String>) -> (r: Result<
    Vec<Arg>,
    Error,
>)
    ensures
        r matches Ok(a) ==> call_args_of(op, args@, names@) == Ok::<Seq<ArgView>, Error>(
            arg_views(a@),
        ),
        r matches Err(x) ==> call_args_of(op, args@, names@) == Err::<Seq<ArgView>, Error>(x),
{
    let kinds = op.arg_kinds();
    if args.len() < kinds.len() {
        return Err(Error::BadParameter);
    }
    let mut r: Vec<Arg> = Vec::new();
    let mut i: usize = 0;
    proof {
        assert(arg_views(r@) =~= Seq::<ArgView>::empty());
    }
    while i < kinds.len()
        invariant
            kinds@ == arg_kinds(op),
            kinds@.len() <= args@.len(),
            0 <= i <= kinds@.len(),
            args_of(kinds@, args@, names@, i as nat) == Ok::<Seq<ArgView>, Error>(arg_views(r@)),
        decreases kinds@.len() - i,
    {
        match decode_arg(kinds[i], &args[i], names) {
            Ok(a) => {
                let ghost before = r@;
                r.push(a);
                proof {
                    assert(arg_views(r@) =~= arg_views(before).push(a@));
                }
            },
            Err(x) => {
                proof {
                    lemma_args_error_stays(kinds@, args@, names@, (i + 1) as nat, kinds@.len());
                }
                return Err(x);
            },
        }
        i = i + 1;
    }
    Ok(r)
}

/// Work that passed validation and is ready for a worker: the operation, the
/// access it takes, its decoded arguments, and the resolver of the caller's
/// pending result.
pub struct Job {
    pub op: Operation,
    pub access: Access,
    pub args: Vec<Arg>,
    pub resolver: Resolver,
}

/// Hands validated work to the worker pool and counts what it handed out.
pub struct Dispatcher {
    submitted: u64,
}

impl Dispatcher {
    /// How many jobs have been handed to the worker pool.
    pub closed spec fn submitted_spec(&self) -> u64 {
        self.submitted
    }

    pub fn new() -> (r: Dispatcher)
        ensures
            r.submitted_spec() == 0,
    {
        Dispatcher { submitted: 0 }
    }

    pub fn submitted(&self) -> (r: u64)
        ensures
            r == self.submitted_spec(),
    {
        self.submitted
    }

    /// Validates a call of `op` and, only if its arguments decode, makes a
    /// job of it with a fresh pending result. A validation error is returned
    /// at once and nothing is submitted; otherwise the job is counted, takes
    /// the access that `op` needs, and its resolver settles exactly the
    /// pending result returned beside it.
    pub fn dispatch<V>(&mut self, op: Operation, args: &Vec<Value>, names: &Vec<String>) -> (r:
        Result<(Job, PendingResult<V>), Error>)
        requires
            is_dispatched(op),
            old(self).submitted_spec() < u64::MAX,
        ensures
            r matches Err(x) ==> call_args_of(op, args@, names@) == Err::<Seq<ArgView>, Error>(x)
                && final(self).submitted_spec() == old(self).submitted_spec(),
            r matches Ok((job, p)) ==> call_args_of(op, args@, names@) == Ok::<
                Seq<ArgView>,
                Error,
            >(arg_views(job.args@)) && final(self).submitted_spec() == old(self).submitted_spec()
                + 1 && job.op == op && job.access == access_of(op) && p.state() is Pending
                && p.id_spec() == job.resolver.id_spec() && p.id_spec()
                == old(self).submitted_spec(),
    {
        let decoded = decode_args(op, args, names)?;
        let id = self.submitted;
        let (p, resolver) = PendingResult::new(id);
        self.submitted = self.submitted + 1;
        Ok((Job { op, access: op.access(), args: decoded, resolver }, p))
    }
}

/// Checks the bytes that the capability produced for a request of `len`
/// random bytes: exactly `len` of them are delivered (none for a request of
/// zero), and any other count is a failed conversion.
pub fn checked_random(len: usize, produced: Vec<u8>) -> (r: Result<Vec<u8>, Error>)
    ensures
        produced@.len() == len ==> r == Ok::<Vec<u8>, Error>(produced),
        produced@.len() != len ==> r == Err::<Vec<u8>, Error>(Error::ConversionFailed),
        r matches Ok(b) ==> b@.len() == len,
{
    if produced.len() == len {
        Ok(produced)
    } else {
        Err(Error::ConversionFailed)
    }
}

} // verus!
