//! Signing-key selectors and the requests sent to the threshold-signing
//! service.

use vstd::prelude::*;
use crate::principal::PrincipalId;
use crate::text::str_eq;

verus! {

/// The cycles charged for one threshold signature with the production key.
pub const ECDSA_SIGN_COST: u128 = 26_153_846_153;

/// The method of the signing service that answers a request for a public
/// key.
pub const PUBLIC_KEY_METHOD: &'static str = "schnorr_public_key";

/// The method of the signing service that answers a request for a
/// signature.
pub const SIGN_METHOD: &'static str = "sign_with_ecdsa";

/// The name of the key used by a local development replica.
pub open spec fn local_key_name() -> Seq<char> {
    "dfx_test_key"@
}

/// The name of the shared test key.
pub open spec fn test_key_name() -> Seq<char> {
    "test_key_1"@
}

/// The name of the production key.
pub open spec fn production_key_name() -> Seq<char> {
    "key_1"@
}

/// Whether `name` is the name of one of the three well-known keys.
pub open spec fn is_known_key_name(name: Seq<char>) -> bool {
    name == local_key_name() || name == test_key_name() || name == production_key_name()
}

/// Which signing key the wallet asks the signing service to use.
#[derive(Debug, PartialEq, Eq)]
pub enum EcdsaKey {
    TestKeyLocalDevelopment,
    TestKey1,
    ProductionKey1,
    Custom(String),
}

/// The mathematical value of an [`EcdsaKey`].
pub enum EcdsaKeyView {
    TestKeyLocalDevelopment,
    TestKey1,
    ProductionKey1,
    Custom(Seq<char>),
}

impl View for EcdsaKey {
    type V = EcdsaKeyView;

    open spec fn view(&self) -> EcdsaKeyView {
        match self {
            EcdsaKey::TestKeyLocalDevelopment => EcdsaKeyView::TestKeyLocalDevelopment,
            EcdsaKey::TestKey1 => EcdsaKeyView::TestKey1,
            EcdsaKey::ProductionKey1 => EcdsaKeyView::ProductionKey1,
            EcdsaKey::Custom(s) => EcdsaKeyView::Custom(s@),
        }
    }
}

impl EcdsaKeyView {
    /// The name under which the signing service knows this key.
    pub open spec fn name(self) -> Seq<char> {
        match self {
            EcdsaKeyView::TestKeyLocalDevelopment => local_key_name(),
            EcdsaKeyView::TestKey1 => test_key_name(),
            EcdsaKeyView::ProductionKey1 => production_key_name(),
            EcdsaKeyView::Custom(s) => s,
        }
    }

    /// The key that a name selects: a well-known key for its own name, a
    /// custom key holding the name for every other string.
    pub open spec fn from_name(name: Seq<char>) -> EcdsaKeyView {
        if name == local_key_name() {
            EcdsaKeyView::TestKeyLocalDevelopment
        } else if name == test_key_name() {
            EcdsaKeyView::TestKey1
        } else if name == production_key_name() {
            EcdsaKeyView::ProductionKey1
        } else {
            EcdsaKeyView::Custom(name)
        }
    }

    /// A key is canonical unless it is a custom key that carries the name of
    /// a well-known key.
    pub open spec fn is_canonical(self) -> bool {
        self matches EcdsaKeyView::Custom(s) ==> !is_known_key_name(s)
    }
}

/// The three well-known key names differ from one another.
pub proof fn lemma_key_names_distinct()
    ensures
        local_key_name() != test_key_name(),
        local_key_name() != production_key_name(),
        test_key_name() != production_key_name(),
{
    reveal_strlit("dfx_test_key");
    reveal_strlit("test_key_1");
    reveal_strlit("key_1");
    assert(local_key_name().len() == 12);
    assert(test_key_name().len() == 10);
    assert(production_key_name().len() == 5);
}

/// Reading back the name of a key gives the key again, for each well-known
/// key and for each custom key whose string is not a well-known name.
pub proof fn lemma_from_name_of_name(key: EcdsaKeyView)
    requires
        key.is_canonical(),
    ensures
        EcdsaKeyView::from_name(key.name()) == key,
{
    lemma_key_names_distinct();
}

/// Every string is the name of the key it selects: no string is lost or
/// altered by decoding and encoding again.
pub proof fn lemma_name_of_from_name(name: Seq<char>)
    ensures
        EcdsaKeyView::from_name(name).name() == name,
        EcdsaKeyView::from_name(name).is_canonical(),
{
}

impl Clone for EcdsaKey {
    fn clone(&self) -> (r: Self)
        ensures
            r@ == self@,
    {
        match self {
            EcdsaKey::TestKeyLocalDevelopment => EcdsaKey::TestKeyLocalDevelopment,
            EcdsaKey::TestKey1 => EcdsaKey::TestKey1,
            EcdsaKey::ProductionKey1 => EcdsaKey::ProductionKey1,
            EcdsaKey::Custom(s) => EcdsaKey::Custom(s.clone()),
        }
    }
}

impl EcdsaKey {
    /// The name under which the signing service knows this key.
    pub fn to_string(&self) -> (r: String)
        ensures
            r@ == self@.name(),
    {
        match self {
            EcdsaKey::TestKeyLocalDevelopment => "dfx_test_key".to_owned(),
            EcdsaKey::TestKey1 => "test_key_1".to_owned(),
            EcdsaKey::ProductionKey1 => "key_1".to_owned(),
            EcdsaKey::Custom(s) => s.clone(),
        }
    }

    /// The key that `s` selects. Every string selects a key, so the result
    /// is always `Ok`.
    pub fn from_str(s: &str) -> (r: Result<EcdsaKey, String>)
        ensures
            r matches Ok(key) && key@ == EcdsaKeyView::from_name(s@),
    {
        if str_eq(s, "dfx_test_key") {
            Ok(EcdsaKey::TestKeyLocalDevelopment)
        } else if str_eq(s, "test_key_1") {
            Ok(EcdsaKey::TestKey1)
        } else if str_eq(s, "key_1") {
            Ok(EcdsaKey::ProductionKey1)
        } else {
            Ok(EcdsaKey::Custom(s.to_owned()))
        }
    }
}

/// The curve of a signing key.
#[derive(Clone, Copy, Debug, PartialEq, Eq)]
pub enum EcdsaCurve {
    Secp256k1,
    Secp256r1,
}

/// The identifier of a signing key as the signing service takes it.
#[derive(Debug, PartialEq, Eq)]
pub struct EcdsaKeyId {
    pub curve: EcdsaCurve,
    pub name: String,
}

/// The mathematical value of an [`EcdsaKeyId`].
pub struct EcdsaKeyIdView {
    pub curve: EcdsaCurve,
    pub name: Seq<char>,
}

impl View for EcdsaKeyId {
    type V = EcdsaKeyIdView;

    open spec fn view(&self) -> EcdsaKeyIdView {
        EcdsaKeyIdView { curve: self.curve, name: self.name@ }
    }
}

/// The argument of a request for a derived public key.
#[derive(Debug, PartialEq, Eq)]
pub struct EcdsaPublicKeyArgs {
    /// The canister whose key is asked for; `None` stands for the canister
    /// that makes the request.
    pub canister_id: Option<PrincipalId>,
    pub derivation_path: Vec<Vec<u8>>,
    pub key_id: EcdsaKeyId,
}

/// The mathematical value of an [`EcdsaPublicKeyArgs`].
pub struct EcdsaPublicKeyArgsView {
    pub canister_id: Option<Seq<u8>>,
    pub derivation_path: Seq<Seq<u8>>,
    pub key_id: EcdsaKeyIdView,
}

impl View for EcdsaPublicKeyArgs {
    type V = EcdsaPublicKeyArgsView;

    open spec fn view(&self) -> EcdsaPublicKeyArgsView {
        EcdsaPublicKeyArgsView {
            canister_id: match self.canister_id {
                Some(id) => Some(id@),
                None => None,
            },
            derivation_path: self.derivation_path.deep_view(),
            key_id: self.key_id@,
        }
    }
}

/// The argument of a request for a signature over a 32-byte digest.
#[derive(Debug, PartialEq, Eq)]
pub struct SignWithEcdsaArgs {
    pub message_hash: [u8; 32],
    pub derivation_path: Vec<Vec<u8>>,
    pub key_id: EcdsaKeyId,
}

/// The mathematical value of a [`SignWithEcdsaArgs`].
pub struct SignWithEcdsaArgsView {
    pub message_hash: Seq<u8>,
    pub derivation_path: Seq<Seq<u8>>,
    pub key_id: EcdsaKeyIdView,
}

impl View for SignWithEcdsaArgs {
    type V = SignWithEcdsaArgsView;

    open spec fn view(&self) -> SignWithEcdsaArgsView {
        SignWithEcdsaArgsView {
            message_hash: self.message_hash@,
            derivation_path: self.derivation_path.deep_view(),
            key_id: self.key_id@,
        }
    }
}

/// A signing request together with what it costs: `fee` cycles are taken
/// from the caller before the request is sent, and `payment` cycles travel
/// with the request.
#[derive(Debug, PartialEq, Eq)]
pub struct SignRequest {
    pub fee: u128,
    pub payment: u64,
    pub args: SignWithEcdsaArgs,
}

/// The mathematical value of a [`SignRequest`].
pub struct SignRequestView {
    pub fee: u128,
    pub payment: u64,
    pub args: SignWithEcdsaArgsView,
}

impl View for SignRequest {
    type V = SignRequestView;

    open spec fn view(&self) -> SignRequestView {
        SignRequestView { fee: self.fee, payment: self.payment, args: self.args@ }
    }
}

/// The identifier under which the signing service finds `key`: always on
/// the curve secp256k1, under the key's name.
pub open spec fn key_id_of(key: EcdsaKeyView) -> EcdsaKeyIdView {
    EcdsaKeyIdView { curve: EcdsaCurve::Secp256k1, name: key.name() }
}

/// The request for the public key that `key` yields along `derivation_path`,
/// asked on behalf of the requesting canister itself.
pub open spec fn public_key_request(
    key: EcdsaKeyView,
    derivation_path: Seq<Seq<u8>>,
) -> EcdsaPublicKeyArgsView {
    EcdsaPublicKeyArgsView { canister_id: None, derivation_path, key_id: key_id_of(key) }
}

/// The request for a signature over `message_hash` with the key that `key`
/// yields along `derivation_path`, at the fixed price of one signature.
pub open spec fn sign_request(
    key: EcdsaKeyView,
    derivation_path: Seq<Seq<u8>>,
    message_hash: Seq<u8>,
) -> SignRequestView {
    SignRequestView {
        fee: ECDSA_SIGN_COST,
        payment: ECDSA_SIGN_COST as u64,
        args: SignWithEcdsaArgsView { message_hash, derivation_path, key_id: key_id_of(key) },
    }
}

fn key_id(key: &EcdsaKey) -> (r: EcdsaKeyId)
    ensures
        r@ == key_id_of(key@),
{
    EcdsaKeyId { curve: EcdsaCurve::Secp256k1, name: key.to_string() }
}

/// Builds the request for the public key derived from `key` along
/// `derivation_path`.
pub fn ecdsa_public_key(key: EcdsaKey, derivation_path: Vec<Vec<u8>>) -> (r: EcdsaPublicKeyArgs)
    ensures
        r@ == public_key_request(key@, derivation_path.deep_view()),
{
    EcdsaPublicKeyArgs { canister_id: None, derivation_path, key_id: key_id(&key) }
}

/// Builds the request for a signature over `message_hash` with the key
/// derived from `key` along `derivation_path`, priced at
/// [`ECDSA_SIGN_COST`].
pub fn sign_with_ecdsa(
    key: EcdsaKey,
    derivation_path: Vec<Vec<u8>>,
    message_hash: [u8; 32],
) -> (r: SignRequest)
    ensures
        r@ == sign_request(key@, derivation_path.deep_view(), message_hash@),
        r@.payment == r@.fee,
{
    SignRequest {
        fee: ECDSA_SIGN_COST,
        payment: ECDSA_SIGN_COST as u64,
        args: SignWithEcdsaArgs { message_hash, derivation_path, key_id: key_id(&key) },
    }
}

} // verus!
