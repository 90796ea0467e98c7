//! The wallet's three operations as one machine: each step takes what the
//! host observed and says what the host has to do next.

use vstd::prelude::*;
use vstd::slice::slice_to_vec;
use vstd::string::StringSliceAdditionalSpecFns;
use crate::ecdsa::{
    ecdsa_public_key, public_key_request, sign_request, sign_with_ecdsa, EcdsaPublicKeyArgs,
    EcdsaPublicKeyArgsView, SignRequest, SignRequestView, SignWithEcdsaArgs,
    SignWithEcdsaArgsView, ECDSA_SIGN_COST,
};
use crate::principal::{is_anonymous_bytes, PrincipalId};
use crate::state::{StateHandle, StateView};
use crate::transaction::{
    empty_hash, to_hash_bytes, BlockHash, Message, MessageView, Signature, Transaction,
    TransactionView, HASH_BYTES, SIGNATURE_BYTES,
};

verus! {

/// Why an operation of the wallet was abandoned.
#[derive(Clone, Copy, Debug, PartialEq, Eq)]
pub enum WalletError {
    /// The caller is the anonymous identity.
    AnonymousCaller,
    /// The wallet holds no state.
    StateNotInitialized,
    /// What was to be signed is not exactly 32 bytes long.
    InvalidMessageLength,
    /// The transaction text could not be decoded.
    InvalidTransaction,
    /// The block hash that the service reported could not be decoded.
    InvalidBlockhash,
    /// The signing service gave no public key.
    PublicKeyUnavailable,
    /// The signing service gave no signature.
    SigningFailed,
    /// The signing service gave something that is not 64 bytes long.
    InvalidSignature,
    /// An event arrived that the operation was not waiting for.
    UnexpectedEvent,
}

/// The method of the configured service that reports the latest block hash.
pub const LATEST_BLOCKHASH_METHOD: &'static str = "cos_getLatestBlockhash";

/// The method of the configured service that broadcasts a transaction.
pub const SEND_TRANSACTION_METHOD: &'static str = "cos_sendTransaction";

impl WalletError {
    /// The words under which the error is reported to the caller.
    pub fn message(&self) -> (r: &'static str)
        ensures
            r@ == match self {
                WalletError::AnonymousCaller => "Anonymous caller is not allowed"@,
                WalletError::StateNotInitialized => "State not initialized!"@,
                WalletError::InvalidMessageLength => "Failed to convert message to 32 bytes"@,
                WalletError::InvalidTransaction => "Invalid transaction"@,
                WalletError::InvalidBlockhash => "Invalid recent blockhash"@,
                WalletError::PublicKeyUnavailable => "Failed to fetch ed25519 public key"@,
                WalletError::SigningFailed => "Failed to sign with ed25519"@,
                WalletError::InvalidSignature => "Invalid signature"@,
                WalletError::UnexpectedEvent => "Unexpected event"@,
            },
    {
        match self {
            WalletError::AnonymousCaller => "Anonymous caller is not allowed",
            WalletError::StateNotInitialized => "State not initialized!",
            WalletError::InvalidMessageLength => "Failed to convert message to 32 bytes",
            WalletError::InvalidTransaction => "Invalid transaction",
            WalletError::InvalidBlockhash => "Invalid recent blockhash",
            WalletError::PublicKeyUnavailable => "Failed to fetch ed25519 public key",
            WalletError::SigningFailed => "Failed to sign with ed25519",
            WalletError::InvalidSignature => "Invalid signature",
            WalletError::UnexpectedEvent => "Unexpected event",
        }
    }
}

/// The derivation path of a caller: one segment, the caller's raw bytes.
pub open spec fn derivation_path_of(caller: Seq<u8>) -> Seq<Seq<u8>> {
    seq![caller]
}

/// Callers with different bytes have different derivation paths, and one
/// caller has one path.
pub proof fn lemma_derivation_path_injective(a: Seq<u8>, b: Seq<u8>)
    ensures
        a != b ==> derivation_path_of(a) != derivation_path_of(b),
        a == b ==> derivation_path_of(a) == derivation_path_of(b),
{
    if a != b {
        assert(derivation_path_of(a)[0] == a);
        assert(derivation_path_of(b)[0] == b);
    }
}

/// The derivation path under which the signing service keeps the key of
/// `caller`.
pub fn derivation_path(caller: &PrincipalId) -> (r: Vec<Vec<u8>>)
    ensures
        r.deep_view() == derivation_path_of(caller@),
{
    let segment = slice_to_vec(caller.as_slice());
    let mut path: Vec<Vec<u8>> = Vec::new();
    path.push(segment);
    assert(path.deep_view() =~~= derivation_path_of(caller@));
    path
}

/// Rejects the anonymous identity and hands every other caller back.
pub fn validate_caller_not_anonymous(caller: &PrincipalId) -> (r: Result<
    &PrincipalId,
    WalletError,
>)
    ensures
        match r {
            Ok(c) => !is_anonymous_bytes(caller@) && c@ == caller@,
            Err(e) => is_anonymous_bytes(caller@) && e == WalletError::AnonymousCaller,
        },
{
    if caller.is_anonymous() {
        Err(WalletError::AnonymousCaller)
    } else {
        Ok(caller)
    }
}

/// What a signature is wanted for.
#[derive(Debug, PartialEq, Eq)]
pub enum Purpose {
    /// The signature itself is the answer to the caller.
    Message,
    /// The signature completes a transaction that is then sent to a service.
    Transaction { cos_canister: PrincipalId, transaction: Transaction },
}

/// The mathematical value of a [`Purpose`].
pub enum PurposeView {
    Message,
    Transaction { cos_canister: Seq<u8>, transaction: TransactionView },
}

impl View for Purpose {
    type V = PurposeView;

    open spec fn view(&self) -> PurposeView {
        match self {
            Purpose::Message => PurposeView::Message,
            Purpose::Transaction { cos_canister, transaction } => PurposeView::Transaction {
                cos_canister: cos_canister@,
                transaction: transaction@,
            },
        }
    }
}

/// Where an operation stands: what it is waiting for, and what it has to
/// remember until then.
#[derive(Debug, PartialEq, Eq)]
pub enum Phase {
    /// The signing service has been asked for the caller's public key.
    AwaitingPublicKey,
    /// The service has been asked for the latest block hash.
    AwaitingBlockhash { caller: PrincipalId, cos_canister: PrincipalId, transaction: Transaction },
    /// The host has been asked for the bytes of the message to sign.
    AwaitingMessageData {
        caller: PrincipalId,
        cos_canister: PrincipalId,
        transaction: Transaction,
    },
    /// The host has been asked to take the signing fee from the caller.
    AwaitingFee { request: SignRequest, purpose: Purpose },
    /// The signing service has been asked for a signature.
    AwaitingSignature { purpose: Purpose },
    /// The service has been asked to broadcast the signed transaction.
    AwaitingBroadcast,
    /// The operation is over.
    Finished,
}

/// The mathematical value of a [`Phase`].
pub enum PhaseView {
    AwaitingPublicKey,
    AwaitingBlockhash { caller: Seq<u8>, cos_canister: Seq<u8>, transaction: TransactionView },
    AwaitingMessageData { caller: Seq<u8>, cos_canister: Seq<u8>, transaction: TransactionView },
    AwaitingFee { request: SignRequestView, purpose: PurposeView },
    AwaitingSignature { purpose: PurposeView },
    AwaitingBroadcast,
    Finished,
}

impl View for Phase {
    type V = PhaseView;

    open spec fn view(&self) -> PhaseView {
        match self {
            Phase::AwaitingPublicKey => PhaseView::AwaitingPublicKey,
            Phase::AwaitingBlockhash { caller, cos_canister, transaction } => {
                PhaseView::AwaitingBlockhash {
                    caller: caller@,
                    cos_canister: cos_canister@,
                    transaction: transaction@,
                }
            },
            Phase::AwaitingMessageData { caller, cos_canister, transaction } => {
                PhaseView::AwaitingMessageData {
                    caller: caller@,
                    cos_canister: cos_canister@,
                    transaction: transaction@,
                }
            },
            Phase::AwaitingFee { request, purpose } => PhaseView::AwaitingFee {
                request: request@,
                purpose: purpose@,
            },
            Phase::AwaitingSignature { purpose } => PhaseView::AwaitingSignature {
                purpose: purpose@,
            },
            Phase::AwaitingBroadcast => PhaseView::AwaitingBroadcast,
            Phase::Finished => PhaseView::Finished,
        }
    }
}

/// What the host has to do next. `E` is the error type of the service that
/// answers block queries and broadcasts transactions; the wallet passes
/// such errors on without looking into them.
#[derive(Debug, PartialEq, Eq)]
pub enum Action<E> {
    /// Ask the signing service for a public key.
    FetchPublicKey(EcdsaPublicKeyArgs),
    /// Take this many cycles from what the caller attached.
    AcceptCycles(u128),
    /// Ask the signing service for a signature, with `payment` cycles
    /// attached to the request.
    SignWithEcdsa { args: SignWithEcdsaArgs, payment: u64 },
    /// Ask the service for the latest block hash.
    GetLatestBlockhash { cos_canister: PrincipalId },
    /// Encode this message and report its bytes.
    SerializeMessage(Message),
    /// Encode this transaction and ask the service to broadcast it.
    SendTransaction { cos_canister: PrincipalId, transaction: Transaction },
    /// Answer the caller with the public key.
    ReturnPublicKey(Vec<u8>),
    /// Answer the caller with the signature.
    ReturnSignature(Vec<u8>),
    /// Answer the caller with what the service said.
    ReturnBroadcast(Result<String, E>),
    /// Abandon the operation.
    Fail(WalletError),
}

/// The mathematical value of an [`Action`].
pub enum ActionView<E> {
    FetchPublicKey(EcdsaPublicKeyArgsView),
    AcceptCycles(u128),
    SignWithEcdsa { args: SignWithEcdsaArgsView, payment: u64 },
    GetLatestBlockhash { cos_canister: Seq<u8> },
    SerializeMessage(MessageView),
    SendTransaction { cos_canister: Seq<u8>, transaction: TransactionView },
    ReturnPublicKey(Seq<u8>),
    ReturnSignature(Seq<u8>),
    ReturnBroadcast(Result<Seq<char>, E>),
    Fail(WalletError),
}

/// The mathematical value of what a service call gave.
pub open spec fn reply_view<E>(reply: Result<String, E>) -> Result<Seq<char>, E> {
    match reply {
        Ok(text) => Ok(text@),
        Err(e) => Err(e),
    }
}

impl<E> View for Action<E> {
    type V = ActionView<E>;

    open spec fn view(&self) -> ActionView<E> {
        match self {
            Action::FetchPublicKey(args) => ActionView::FetchPublicKey(args@),
            Action::AcceptCycles(cycles) => ActionView::AcceptCycles(*cycles),
            Action::SignWithEcdsa { args, payment } => ActionView::SignWithEcdsa {
                args: args@,
                payment: *payment,
            },
            Action::GetLatestBlockhash { cos_canister } => ActionView::GetLatestBlockhash {
                cos_canister: cos_canister@,
            },
            Action::SerializeMessage(message) => ActionView::SerializeMessage(message@),
            Action::SendTransaction { cos_canister, transaction } => ActionView::SendTransaction {
                cos_canister: cos_canister@,
                transaction: transaction@,
            },
            Action::ReturnPublicKey(key) => ActionView::ReturnPublicKey(key@),
            Action::ReturnSignature(signature) => ActionView::ReturnSignature(signature@),
            Action::ReturnBroadcast(reply) => ActionView::ReturnBroadcast(reply_view(*reply)),
            Action::Fail(error) => ActionView::Fail(*error),
        }
    }
}

/// What the host observed after it did what the last action asked for.
#[derive(Debug, PartialEq, Eq)]
pub enum Event<E> {
    /// The signing service answered the request for a public key; `None`
    /// when the call failed.
    PublicKey(Option<Vec<u8>>),
    /// The fee has been taken from the caller.
    CyclesAccepted,
    /// The signing service answered the request for a signature; `None`
    /// when the call failed.
    Signature(Option<Vec<u8>>),
    /// The service answered the block query: an error of its own, or the
    /// hash, which is `None` when its text could not be decoded.
    LatestBlockhash(Result<Option<BlockHash>, E>),
    /// The bytes of the message that was to be encoded.
    MessageData(Vec<u8>),
    /// The service answered the broadcast.
    Broadcast(Result<String, E>),
}

/// The mathematical value of an [`Event`].
pub enum EventView<E> {
    PublicKey(Option<Seq<u8>>),
    CyclesAccepted,
    Signature(Option<Seq<u8>>),
    LatestBlockhash(Result<Option<Seq<u8>>, E>),
    MessageData(Seq<u8>),
    Broadcast(Result<Seq<char>, E>),
}

/// The mathematical value of bytes that may be missing.
pub open spec fn bytes_view(bytes: Option<Vec<u8>>) -> Option<Seq<u8>> {
    match bytes {
        Some(b) => Some(b@),
        None => None,
    }
}

/// The mathematical value of what a block query gave.
pub open spec fn blockhash_view<E>(reply: Result<Option<BlockHash>, E>) -> Result<
    Option<Seq<u8>>,
    E,
> {
    match reply {
        Ok(Some(hash)) => Ok(Some(hash@)),
        Ok(None) => Ok(None),
        Err(e) => Err(e),
    }
}

impl<E> View for Event<E> {
    type V = EventView<E>;

    open spec fn view(&self) -> EventView<E> {
        match self {
            Event::PublicKey(key) => EventView::PublicKey(bytes_view(*key)),
            Event::CyclesAccepted => EventView::CyclesAccepted,
            Event::Signature(signature) => EventView::Signature(bytes_view(*signature)),
            Event::LatestBlockhash(reply) => EventView::LatestBlockhash(blockhash_view(*reply)),
            Event::MessageData(data) => EventView::MessageData(data@),
            Event::Broadcast(reply) => EventView::Broadcast(reply_view(*reply)),
        }
    }
}

/// The step that abandons an operation.
pub open spec fn failed<E>(error: WalletError) -> (PhaseView, ActionView<E>) {
    (PhaseView::Finished, ActionView::Fail(error))
}

/// The step that starts the signing of `digest` on behalf of `caller`: the
/// key is read from the state as it is now, the digest must be 32 bytes
/// long, and the first thing asked of the host is to take the fee.
pub open spec fn signing_step<E>(
    state: Option<StateView>,
    caller: Seq<u8>,
    digest: Seq<u8>,
    purpose: PurposeView,
) -> (PhaseView, ActionView<E>) {
    match state {
        None => failed(WalletError::StateNotInitialized),
        Some(s) => if digest.len() != HASH_BYTES {
            failed(WalletError::InvalidMessageLength)
        } else {
            (
                PhaseView::AwaitingFee {
                    request: sign_request(s.ecdsa_key, derivation_path_of(caller), digest),
                    purpose,
                },
                ActionView::AcceptCycles(ECDSA_SIGN_COST),
            )
        },
    }
}

/// The first step of the operation that tells a caller its public key.
pub open spec fn address_step<E>(state: Option<StateView>, caller: Seq<u8>) -> (
    PhaseView,
    ActionView<E>,
) {
    if is_anonymous_bytes(caller) {
        failed(WalletError::AnonymousCaller)
    } else {
        match state {
            None => failed(WalletError::StateNotInitialized),
            Some(s) => (
                PhaseView::AwaitingPublicKey,
                ActionView::FetchPublicKey(
                    public_key_request(s.ecdsa_key, derivation_path_of(caller)),
                ),
            ),
        }
    }
}

/// The first step of the operation that signs a message of 32 bytes.
pub open spec fn sign_message_step<E>(
    state: Option<StateView>,
    caller: Seq<u8>,
    message: Seq<u8>,
) -> (PhaseView, ActionView<E>) {
    if is_anonymous_bytes(caller) {
        failed(WalletError::AnonymousCaller)
    } else {
        signing_step(state, caller, message, PurposeView::Message)
    }
}

/// The first step of the operation that signs and sends a transaction;
/// `transaction` is `None` when the caller's text could not be decoded.
/// Only a transaction that names no block yet makes the wallet ask for one.
pub open spec fn send_transaction_step<E>(
    state: Option<StateView>,
    caller: Seq<u8>,
    transaction: Option<TransactionView>,
) -> (PhaseView, ActionView<E>) {
    if is_anonymous_bytes(caller) {
        failed(WalletError::AnonymousCaller)
    } else {
        match state {
            None => failed(WalletError::StateNotInitialized),
            Some(s) => match transaction {
                None => failed(WalletError::InvalidTransaction),
                Some(tx) => if tx.message.recent_blockhash == empty_hash() {
                    (
                        PhaseView::AwaitingBlockhash {
                            caller,
                            cos_canister: s.cos_canister,
                            transaction: tx,
                        },
                        ActionView::GetLatestBlockhash { cos_canister: s.cos_canister },
                    )
                } else {
                    (
                        PhaseView::AwaitingMessageData {
                            caller,
                            cos_canister: s.cos_canister,
                            transaction: tx,
                        },
                        ActionView::SerializeMessage(tx.message),
                    )
                },
            },
        }
    }
}

/// The step that an operation in `phase` takes when the host reports
/// `event` while the wallet's state is `state`.
pub open spec fn next_step<E>(phase: PhaseView, event: EventView<E>, state: Option<StateView>) -> (
    PhaseView,
    ActionView<E>,
) {
    match (phase, event) {
        (PhaseView::AwaitingPublicKey, EventView::PublicKey(Some(key))) => (
            PhaseView::Finished,
            ActionView::ReturnPublicKey(key),
        ),
        (PhaseView::AwaitingPublicKey, EventView::PublicKey(None)) => failed(
            WalletError::PublicKeyUnavailable,
        ),
        (
            PhaseView::AwaitingBlockhash { caller, cos_canister, transaction },
            EventView::LatestBlockhash(reply),
        ) => match reply {
            Err(e) => (PhaseView::Finished, ActionView::ReturnBroadcast(Err(e))),
            Ok(None) => failed(WalletError::InvalidBlockhash),
            Ok(Some(hash)) => (
                PhaseView::AwaitingMessageData {
                    caller,
                    cos_canister,
                    transaction: transaction.with_blockhash(hash),
                },
                ActionView::SerializeMessage(transaction.with_blockhash(hash).message),
            ),
        },
        (
            PhaseView::AwaitingMessageData { caller, cos_canister, transaction },
            EventView::MessageData(data),
        ) => signing_step(
            state,
            caller,
            data,
            PurposeView::Transaction { cos_canister, transaction },
        ),
        (PhaseView::AwaitingFee { request, purpose }, EventView::CyclesAccepted) => (
            PhaseView::AwaitingSignature { purpose },
            ActionView::SignWithEcdsa { args: request.args, payment: request.payment },
        ),
        (PhaseView::AwaitingSignature { purpose }, EventView::Signature(None)) => failed(
            WalletError::SigningFailed,
        ),
        (PhaseView::AwaitingSignature { purpose }, EventView::Signature(Some(signature))) => {
            match purpose {
                PurposeView::Message => (
                    PhaseView::Finished,
                    ActionView::ReturnSignature(signature),
                ),
                PurposeView::Transaction { cos_canister, transaction } => if signature.len()
                    != SIGNATURE_BYTES {
                    failed(WalletError::InvalidSignature)
                } else {
                    (
                        PhaseView::AwaitingBroadcast,
                        ActionView::SendTransaction {
                            cos_canister,
                            transaction: transaction.with_signature(signature),
                        },
                    )
                },
            }
        },
        (PhaseView::AwaitingBroadcast, EventView::Broadcast(reply)) => (
            PhaseView::Finished,
            ActionView::ReturnBroadcast(reply),
        ),
        _ => failed(WalletError::UnexpectedEvent),
    }
}

fn fail<E>(error: WalletError) -> (r: (Phase, Action<E>))
    ensures
        (r.0@, r.1@) == failed::<E>(error),
{
    (Phase::Finished, Action::Fail(error))
}

fn begin_signing<E>(handle: &StateHandle, caller: &PrincipalId, digest: &[u8], purpose: Purpose) -> (r:
    (Phase, Action<E>))
    ensures
        (r.0@, r.1@) == signing_step::<E>(handle@, caller@, digest@, purpose@),
{
    match &handle.state {
        None => fail(WalletError::StateNotInitialized),
        Some(state) => {
            let key = state.ecdsa_key.clone();
            let path = derivation_path(caller);
            match to_hash_bytes(digest) {
                None => fail(WalletError::InvalidMessageLength),
                Some(hash) => {
                    let request = sign_with_ecdsa(key, path, hash);
                    (Phase::AwaitingFee { request, purpose }, Action::AcceptCycles(ECDSA_SIGN_COST))
                },
            }
        },
    }
}

/// Starts the operation that tells `caller` its public key: unless the
/// caller is anonymous or the wallet has no state, the signing service is
/// to be asked for the key that the configured key yields along the
/// caller's derivation path.
pub fn address<E>(handle: &StateHandle, caller: &PrincipalId) -> (r: (Phase, Action<E>))
    ensures
        (r.0@, r.1@) == address_step::<E>(handle@, caller@),
{
    let caller = match validate_caller_not_anonymous(caller) {
        Ok(caller) => caller,
        Err(error) => {
            return fail(error);
        },
    };
    match &handle.state {
        None => fail(WalletError::StateNotInitialized),
        Some(state) => {
            let key = state.ecdsa_key.clone();
            let path = derivation_path(caller);
            (Phase::AwaitingPublicKey, Action::FetchPublicKey(ecdsa_public_key(key, path)))
        },
    }
}

/// Starts the operation that signs `message`, whose bytes are taken as the
/// digest: they must be exactly 32.
pub fn sign_message<E>(handle: &StateHandle, caller: &PrincipalId, message: &str) -> (r: (
    Phase,
    Action<E>,
))
    ensures
        (r.0@, r.1@) == sign_message_step::<E>(handle@, caller@, message.spec_bytes()),
{
    let caller = match validate_caller_not_anonymous(caller) {
        Ok(caller) => caller,
        Err(error) => {
            return fail(error);
        },
    };
    begin_signing(handle, caller, message.as_bytes(), Purpose::Message)
}

/// Starts the operation that signs `transaction` and sends it to the
/// configured service; `transaction` is `None` when the caller's text could
/// not be decoded.
pub fn send_transaction<E>(
    handle: &StateHandle,
    caller: &PrincipalId,
    transaction: Option<Transaction>,
) -> (r: (Phase, Action<E>))
    ensures
        (r.0@, r.1@) == send_transaction_step::<E>(
            handle@,
            caller@,
            match transaction {
                Some(tx) => Some(tx@),
                None => None,
            },
        ),
{
    let caller = match validate_caller_not_anonymous(caller) {
        Ok(caller) => caller,
        Err(error) => {
            return fail(error);
        },
    };
    match &handle.state {
        None => fail(WalletError::StateNotInitialized),
        Some(state) => match transaction {
            None => fail(WalletError::InvalidTransaction),
            Some(tx) => {
                let cos_canister = state.cos_canister.clone();
                if tx.message.recent_blockhash.is_default() {
                    let target = cos_canister.clone();
                    (
                        Phase::AwaitingBlockhash {
                            caller: caller.clone(),
                            cos_canister,
                            transaction: tx,
                        },
                        Action::GetLatestBlockhash { cos_canister: target },
                    )
                } else {
                    let message = tx.message.clone();
                    (
                        Phase::AwaitingMessageData {
                            caller: caller.clone(),
                            cos_canister,
                            transaction: tx,
                        },
                        Action::SerializeMessage(message),
                    )
                }
            },
        },
    }
}

/// Takes an operation one step further: from where it stands and what the
/// host observed to where it stands next and what the host has to do.
pub fn step<E>(phase: Phase, event: Event<E>, handle: &StateHandle) -> (r: (Phase, Action<E>))
    ensures
        (r.0@, r.1@) == next_step::<E>(phase@, event@, handle@),
{
    match phase {
        Phase::AwaitingPublicKey => match event {
            Event::PublicKey(Some(key)) => (Phase::Finished, Action::ReturnPublicKey(key)),
            Event::PublicKey(None) => fail(WalletError::PublicKeyUnavailable),
            _ => fail(WalletError::UnexpectedEvent),
        },
        Phase::AwaitingBlockhash { caller, cos_canister, transaction } => match event {
            Event::LatestBlockhash(Err(e)) => (Phase::Finished, Action::ReturnBroadcast(Err(e))),
            Event::LatestBlockhash(Ok(None)) => fail(WalletError::InvalidBlockhash),
            Event::LatestBlockhash(Ok(Some(hash))) => {
                let mut transaction = transaction;
                transaction.set_recent_blockhash(hash);
                let message = transaction.message.clone();
                (
                    Phase::AwaitingMessageData { caller, cos_canister, transaction },
                    Action::SerializeMessage(message),
                )
            },
            _ => fail(WalletError::UnexpectedEvent),
        },
        Phase::AwaitingMessageData { caller, cos_canister, transaction } => match event {
            Event::MessageData(data) => begin_signing(
                handle,
                &caller,
                data.as_slice(),
                Purpose::Transaction { cos_canister, transaction },
            ),
            _ => fail(WalletError::UnexpectedEvent),
        },
        Phase::AwaitingFee { request, purpose } => match event {
            Event::CyclesAccepted => (
                Phase::AwaitingSignature { purpose },
                Action::SignWithEcdsa { args: request.args, payment: request.payment },
            ),
            _ => fail(WalletError::UnexpectedEvent),
        },
        Phase::AwaitingSignature { purpose } => match event {
            Event::Signature(None) => fail(WalletError::SigningFailed),
            Event::Signature(Some(signature)) => match purpose {
                Purpose::Message => (Phase::Finished, Action::ReturnSignature(signature)),
                Purpose::Transaction { cos_canister, transaction } => {
                    match Signature::try_from_slice(signature.as_slice()) {
                        None => fail(WalletError::InvalidSignature),
                        Some(sig) => {
                            let mut transaction = transaction;
                            transaction.add_signature(sig);
                            (
                                Phase::AwaitingBroadcast,
                                Action::SendTransaction { cos_canister, transaction },
                            )
                        },
                    }
                },
            },
            _ => fail(WalletError::UnexpectedEvent),
        },
        Phase::AwaitingBroadcast => match event {
            Event::Broadcast(reply) => (Phase::Finished, Action::ReturnBroadcast(reply)),
            _ => fail(WalletError::UnexpectedEvent),
        },
        Phase::Finished => fail(WalletError::UnexpectedEvent),
    }
}

/// What the host is asked to do, in order, while an operation that stands
/// in `phase` is fed `inputs`: each input is an event together with the
/// wallet's state at the moment the event arrives. Nothing is asked once
/// the operation is over.
pub open spec fn actions_after<E>(
    phase: PhaseView,
    inputs: Seq<(EventView<E>, Option<StateView>)>,
) -> Seq<ActionView<E>>
    decreases inputs.len(),
{
    if inputs.len() == 0 || phase is Finished {
        Seq::empty()
    } else {
        let taken = next_step(phase, inputs[0].0, inputs[0].1);
        seq![taken.1] + actions_after(taken.0, inputs.drop_first())
    }
}

/// Whether an action reaches out to a remote service.
pub open spec fn is_remote_call<E>(action: ActionView<E>) -> bool {
    action is FetchPublicKey || action is SignWithEcdsa || action is GetLatestBlockhash
        || action is SendTransaction
}

/// No step of a running operation asks for the latest block hash: only the
/// first step of sending a transaction can.
pub proof fn lemma_step_asks_no_blockhash<E>(
    phase: PhaseView,
    event: EventView<E>,
    state: Option<StateView>,
)
    ensures
        !(next_step(phase, event, state).1 is GetLatestBlockhash),
{
}

/// However an operation goes on, it never asks for the latest block hash
/// after its first step.
pub proof fn lemma_no_blockhash_query_later<E>(
    phase: PhaseView,
    inputs: Seq<(EventView<E>, Option<StateView>)>,
)
    ensures
        forall|i: int|
            0 <= i < actions_after(phase, inputs).len() ==> !(#[trigger] actions_after(
                phase,
                inputs,
            )[i] is GetLatestBlockhash),
    decreases inputs.len(),
{
    if inputs.len() == 0 || phase is Finished {
    } else {
        let taken = next_step(phase, inputs[0].0, inputs[0].1);
        lemma_step_asks_no_blockhash(phase, inputs[0].0, inputs[0].1);
        lemma_no_blockhash_query_later(taken.0, inputs.drop_first());
    }
}

/// An anonymous caller is turned away by each of the three operations
/// whatever the wallet's state is, initialized or not, and whatever else
/// was passed; the operation is over at once, so nothing is asked of any
/// service.
pub proof fn lemma_anonymous_caller_rejected<E>(
    state: Option<StateView>,
    caller: Seq<u8>,
    message: Seq<u8>,
    transaction: Option<TransactionView>,
    inputs: Seq<(EventView<E>, Option<StateView>)>,
)
    requires
        is_anonymous_bytes(caller),
    ensures
        address_step::<E>(state, caller) == failed::<E>(WalletError::AnonymousCaller),
        sign_message_step::<E>(state, caller, message) == failed::<E>(
            WalletError::AnonymousCaller,
        ),
        send_transaction_step::<E>(state, caller, transaction) == failed::<E>(
            WalletError::AnonymousCaller,
        ),
        actions_after(failed::<E>(WalletError::AnonymousCaller).0, inputs).len() == 0,
{
}

/// The request that the address operation sends depends on the caller and
/// on the configured key alone: with the same caller and the same key, two
/// calls ask the signing service for the same thing.
pub proof fn lemma_address_request_stable<E>(first: StateView, second: StateView, caller: Seq<u8>)
    requires
        first.ecdsa_key == second.ecdsa_key,
    ensures
        address_step::<E>(Some(first), caller) == address_step::<E>(Some(second), caller),
{
}

/// A message that is not 32 bytes long is refused at once: the operation is
/// over with its first step, which is no call to a service.
pub proof fn lemma_sign_message_wrong_length<E>(
    state: Option<StateView>,
    caller: Seq<u8>,
    message: Seq<u8>,
)
    requires
        message.len() != HASH_BYTES,
    ensures
        sign_message_step::<E>(state, caller, message).0 is Finished,
        sign_message_step::<E>(state, caller, message).1 is Fail,
        !is_anonymous_bytes(caller) && state is Some ==> sign_message_step::<E>(
            state,
            caller,
            message,
        ) == failed::<E>(WalletError::InvalidMessageLength),
{
}

/// A message of 32 bytes from a caller that is not anonymous, on an
/// initialized wallet, is signed: the fee is taken first, then the signing
/// service is asked to sign exactly the message's bytes with the configured
/// key along the caller's path, with the fee attached, and what it answers
/// is handed to the caller unchanged.
pub proof fn lemma_sign_message_run<E>(
    state: StateView,
    caller: Seq<u8>,
    message: Seq<u8>,
    later: Option<StateView>,
    signature: Seq<u8>,
)
    requires
        !is_anonymous_bytes(caller),
        message.len() == HASH_BYTES,
    ensures
        ({
            let first = sign_message_step::<E>(Some(state), caller, message);
            let second = next_step::<E>(first.0, EventView::CyclesAccepted, later);
            let third = next_step::<E>(second.0, EventView::Signature(Some(signature)), later);
            &&& first.1 == ActionView::<E>::AcceptCycles(ECDSA_SIGN_COST)
            &&& second.1 == ActionView::<E>::SignWithEcdsa {
                args: sign_request(state.ecdsa_key, derivation_path_of(caller), message).args,
                payment: ECDSA_SIGN_COST as u64,
            }
            &&& third == (PhaseView::Finished, ActionView::<E>::ReturnSignature(signature))
        }),
{
}

/// A transaction that already names a block is never given another: the
/// first step asks for the bytes of its message as it stands, and no step
/// of the operation, whatever happens, asks for the latest block hash.
pub proof fn lemma_pinned_blockhash_not_resolved<E>(
    state: StateView,
    caller: Seq<u8>,
    transaction: TransactionView,
    inputs: Seq<(EventView<E>, Option<StateView>)>,
)
    requires
        !is_anonymous_bytes(caller),
        transaction.message.recent_blockhash != empty_hash(),
    ensures
        ({
            let first = send_transaction_step::<E>(Some(state), caller, Some(transaction));
            &&& first.1 == ActionView::<E>::SerializeMessage(transaction.message)
            &&& forall|i: int|
                0 <= i < actions_after(first.0, inputs).len() ==> !(#[trigger] actions_after(
                    first.0,
                    inputs,
                )[i] is GetLatestBlockhash)
        }),
{
    let first = send_transaction_step::<E>(Some(state), caller, Some(transaction));
    lemma_no_blockhash_query_later(first.0, inputs);
}

/// A transaction that names no block makes the wallet ask the configured
/// service for the latest block hash exactly once: with its first step, and
/// with no later one. Once a hash arrives, the message whose bytes are
/// signed carries it, the digest handed to the signing service is the bytes
/// reported for that message, and the transaction that is sent carries the
/// hash and, in its first slot, the signature.
pub proof fn lemma_empty_blockhash_resolved_once<E>(
    state: StateView,
    caller: Seq<u8>,
    transaction: TransactionView,
    inputs: Seq<(EventView<E>, Option<StateView>)>,
    hash: Seq<u8>,
    data: Seq<u8>,
    later: StateView,
    signature: Seq<u8>,
)
    requires
        !is_anonymous_bytes(caller),
        transaction.message.recent_blockhash == empty_hash(),
        data.len() == HASH_BYTES,
        signature.len() == SIGNATURE_BYTES,
    ensures
        ({
            let first = send_transaction_step::<E>(Some(state), caller, Some(transaction));
            let resolved = transaction.with_blockhash(hash);
            let second = next_step::<E>(
                first.0,
                EventView::LatestBlockhash(Ok(Some(hash))),
                Some(later),
            );
            let third = next_step::<E>(second.0, EventView::MessageData(data), Some(later));
            let fourth = next_step::<E>(third.0, EventView::CyclesAccepted, Some(later));
            let fifth = next_step::<E>(
                fourth.0,
                EventView::Signature(Some(signature)),
                Some(later),
            );
            &&& first.1 == ActionView::<E>::GetLatestBlockhash { cos_canister: state.cos_canister }
            &&& forall|i: int|
                0 <= i < actions_after(first.0, inputs).len() ==> !(#[trigger] actions_after(
                    first.0,
                    inputs,
                )[i] is GetLatestBlockhash)
            &&& second.1 == ActionView::<E>::SerializeMessage(resolved.message)
            &&& resolved.message.recent_blockhash == hash
            &&& third.1 == ActionView::<E>::AcceptCycles(ECDSA_SIGN_COST)
            &&& fourth.1 == ActionView::<E>::SignWithEcdsa {
                args: sign_request(later.ecdsa_key, derivation_path_of(caller), data).args,
                payment: ECDSA_SIGN_COST as u64,
            }
            &&& fifth.1 == ActionView::<E>::SendTransaction {
                cos_canister: state.cos_canister,
                transaction: resolved.with_signature(signature),
            }
            &&& resolved.with_signature(signature).signatures[0] == signature
            &&& resolved.with_signature(signature).message.recent_blockhash == hash
        }),
{
    let first = send_transaction_step::<E>(Some(state), caller, Some(transaction));
    lemma_no_blockhash_query_later(first.0, inputs);
}

/// The signing service is asked for a signature only in answer to the
/// report that the fee has been taken.
pub proof fn lemma_fee_before_signature<E>(
    phase: PhaseView,
    event: EventView<E>,
    state: Option<StateView>,
)
    requires
        next_step(phase, event, state).1 is SignWithEcdsa,
    ensures
        phase is AwaitingFee,
        event is CyclesAccepted,
{
}

/// What the service answers to a broadcast is handed to the caller
/// unchanged, and ends the operation.
pub proof fn lemma_broadcast_reply_passed_on<E>(
    reply: Result<Seq<char>, E>,
    state: Option<StateView>,
)
    ensures
        next_step::<E>(PhaseView::AwaitingBroadcast, EventView::Broadcast(reply), state) == (
            PhaseView::Finished,
            ActionView::ReturnBroadcast(reply),
        ),
{
}

} // verus!
