use ic_cosmos_wallet::ecdsa::{EcdsaCurve, EcdsaKey};
use ic_cosmos_wallet::principal::PrincipalId;
use ic_cosmos_wallet::state::{replace_state, State, StateHandle};
use ic_cosmos_wallet::transaction::{BlockHash, Message, Signature, Transaction};
use ic_cosmos_wallet::wallet::{
    address, derivation_path, send_transaction, sign_message, step, validate_caller_not_anonymous,
    Action, Event, Phase, Purpose, WalletError,
};

type Step = (Phase, Action<String>);

fn id(bytes: &[u8]) -> PrincipalId {
    PrincipalId::try_from_slice(bytes).unwrap()
}

fn wallet(key: EcdsaKey) -> StateHandle {
    let mut handle = StateHandle::new();
    replace_state(
        &mut handle,
        State {
            cos_canister: id(&[0xC0, 0x05]),
            ecdsa_key: key,
        },
    );
    handle
}

fn tx(hash: [u8; 32], signatures: Vec<Signature>) -> Transaction {
    Transaction {
        signatures,
        message: Message {
            recent_blockhash: BlockHash { bytes: hash },
            body: vec![0xAA, 0xBB],
        },
    }
}

fn failed(error: WalletError) -> Step {
    (Phase::Finished, Action::Fail(error))
}

fn count_blockhash_queries(actions: &[Action<String>]) -> usize {
    actions
        .iter()
        .filter(|a| matches!(a, Action::GetLatestBlockhash { .. }))
        .count()
}

#[test]
fn derivation_path_is_the_callers_bytes() {
    assert_eq!(derivation_path(&id(&[1, 2, 3])), vec![vec![1u8, 2, 3]]);
    assert_eq!(derivation_path(&id(&[])), vec![Vec::<u8>::new()]);
}

#[test]
fn derivation_paths_differ_between_callers_and_repeat_for_one() {
    let a = id(&[1, 2, 3]);
    let b = id(&[1, 2, 4]);
    let c = id(&[1, 2]);
    assert_ne!(derivation_path(&a), derivation_path(&b));
    assert_ne!(derivation_path(&a), derivation_path(&c));
    assert_eq!(derivation_path(&a), derivation_path(&a));
    assert_eq!(derivation_path(&a), derivation_path(&a.clone()));
}

#[test]
fn anonymous_caller_is_not_validated() {
    assert_eq!(
        validate_caller_not_anonymous(&PrincipalId::anonymous()),
        Err(WalletError::AnonymousCaller)
    );
    assert_eq!(validate_caller_not_anonymous(&id(&[1])), Ok(&id(&[1])));
    assert_eq!(validate_caller_not_anonymous(&id(&[])), Ok(&id(&[])));
}

#[test]
fn anonymous_caller_fails_every_operation_first() {
    let anonymous = PrincipalId::anonymous();
    for handle in [StateHandle::new(), wallet(EcdsaKey::TestKey1)] {
        let r: Step = address(&handle, &anonymous);
        assert_eq!(r, failed(WalletError::AnonymousCaller));
        let r: Step = sign_message(&handle, &anonymous, &"x".repeat(32));
        assert_eq!(r, failed(WalletError::AnonymousCaller));
        let r: Step = sign_message(&handle, &anonymous, "short");
        assert_eq!(r, failed(WalletError::AnonymousCaller));
        let r: Step = send_transaction(&handle, &anonymous, Some(tx([1; 32], vec![])));
        assert_eq!(r, failed(WalletError::AnonymousCaller));
        let r: Step = send_transaction(&handle, &anonymous, None);
        assert_eq!(r, failed(WalletError::AnonymousCaller));
    }
}

#[test]
fn operations_need_a_state() {
    let handle = StateHandle::new();
    let caller = id(&[1]);
    let r: Step = address(&handle, &caller);
    assert_eq!(r, failed(WalletError::StateNotInitialized));
    let r: Step = sign_message(&handle, &caller, &"x".repeat(32));
    assert_eq!(r, failed(WalletError::StateNotInitialized));
    let r: Step = sign_message(&handle, &caller, "short");
    assert_eq!(r, failed(WalletError::StateNotInitialized));
    let r: Step = send_transaction(&handle, &caller, None);
    assert_eq!(r, failed(WalletError::StateNotInitialized));
}

#[test]
fn address_asks_for_the_callers_key() {
    let handle = wallet(EcdsaKey::TestKey1);
    let caller = id(&[1, 2, 3]);
    let (phase, action): Step = address(&handle, &caller);
    assert_eq!(phase, Phase::AwaitingPublicKey);
    match action {
        Action::FetchPublicKey(args) => {
            assert_eq!(args.canister_id, None);
            assert_eq!(args.derivation_path, vec![vec![1u8, 2, 3]]);
            assert_eq!(args.key_id.curve, EcdsaCurve::Secp256k1);
            assert_eq!(args.key_id.name, "test_key_1");
        }
        other => panic!("unexpected action {:?}", other),
    }
    let r: Step = step(phase, Event::PublicKey(Some(vec![2u8; 33])), &handle);
    assert_eq!(r, (Phase::Finished, Action::ReturnPublicKey(vec![2u8; 33])));
}

#[test]
fn address_twice_asks_the_same() {
    let caller = id(&[1, 2, 3]);
    let first: Step = address(&wallet(EcdsaKey::TestKey1), &caller);
    let second: Step = address(&wallet(EcdsaKey::TestKey1), &caller);
    assert_eq!(first, second);
    let other_key: Step = address(&wallet(EcdsaKey::ProductionKey1), &caller);
    assert_ne!(first, other_key);
    let other_caller: Step = address(&wallet(EcdsaKey::TestKey1), &id(&[3, 2, 1]));
    assert_ne!(first, other_caller);
}

#[test]
fn address_fails_without_a_public_key() {
    let handle = wallet(EcdsaKey::TestKey1);
    let (phase, _): Step = address(&handle, &id(&[1]));
    let r: Step = step(phase, Event::PublicKey(None), &handle);
    assert_eq!(r, failed(WalletError::PublicKeyUnavailable));
}

#[test]
fn sign_message_of_32_bytes_is_signed() {
    let handle = wallet(EcdsaKey::TestKey1);
    let caller = id(&[1, 2, 3]);
    let message = "x".repeat(32);
    let (phase, action): Step = sign_message(&handle, &caller, &message);
    assert_eq!(action, Action::AcceptCycles(26_153_846_153));
    let (phase, action): Step = step(phase, Event::CyclesAccepted, &handle);
    assert_eq!(
        phase,
        Phase::AwaitingSignature {
            purpose: Purpose::Message
        }
    );
    match action {
        Action::SignWithEcdsa { args, payment } => {
            assert_eq!(payment, 26_153_846_153);
            assert_eq!(args.message_hash, [b'x'; 32]);
            assert_eq!(args.derivation_path, vec![vec![1u8, 2, 3]]);
            assert_eq!(args.key_id.curve, EcdsaCurve::Secp256k1);
            assert_eq!(args.key_id.name, "test_key_1");
        }
        other => panic!("unexpected action {:?}", other),
    }
    let signature = vec![5u8; 64];
    let r: Step = step(phase, Event::Signature(Some(signature.clone())), &handle);
    match &r.1 {
        Action::ReturnSignature(bytes) => assert_eq!(bytes.len(), 64),
        other => panic!("unexpected action {:?}", other),
    }
    assert_eq!(r, (Phase::Finished, Action::ReturnSignature(signature)));
}

#[test]
fn sign_message_of_another_length_fails_at_once() {
    let handle = wallet(EcdsaKey::TestKey1);
    let caller = id(&[1, 2, 3]);
    for message in ["", "short", &"x".repeat(31), &"x".repeat(33), &"é".repeat(32)] {
        let r: Step = sign_message(&handle, &caller, message);
        assert_eq!(r, failed(WalletError::InvalidMessageLength));
    }
    // Sixteen characters of two bytes each are 32 bytes.
    let r: Step = sign_message(&handle, &caller, &"é".repeat(16));
    assert_eq!(r.1, Action::AcceptCycles(26_153_846_153));
}

#[test]
fn sign_message_fails_without_a_signature() {
    let handle = wallet(EcdsaKey::TestKey1);
    let (phase, _): Step = sign_message(&handle, &id(&[1]), &"x".repeat(32));
    let (phase, _): Step = step(phase, Event::CyclesAccepted, &handle);
    let r: Step = step(phase, Event::Signature(None), &handle);
    assert_eq!(r, failed(WalletError::SigningFailed));
}

#[test]
fn send_transaction_needs_a_decoded_transaction() {
    let handle = wallet(EcdsaKey::TestKey1);
    let r: Step = send_transaction(&handle, &id(&[1]), None);
    assert_eq!(r, failed(WalletError::InvalidTransaction));
}

#[test]
fn send_transaction_with_a_blockhash_asks_for_none() {
    let handle = wallet(EcdsaKey::ProductionKey1);
    let caller = id(&[1, 2, 3]);
    let service = id(&[0xC0, 0x05]);
    let unsigned = tx([7u8; 32], vec![]);
    let mut actions: Vec<Action<String>> = Vec::new();

    let (phase, action): Step = send_transaction(&handle, &caller, Some(unsigned.clone()));
    assert_eq!(action, Action::SerializeMessage(unsigned.message.clone()));
    actions.push(action);

    let digest = vec![3u8; 32];
    let (phase, action): Step = step(phase, Event::MessageData(digest), &handle);
    assert_eq!(action, Action::AcceptCycles(26_153_846_153));
    actions.push(action);

    let (phase, action): Step = step(phase, Event::CyclesAccepted, &handle);
    match &action {
        Action::SignWithEcdsa { args, payment } => {
            assert_eq!(*payment, 26_153_846_153);
            assert_eq!(args.message_hash, [3u8; 32]);
            assert_eq!(args.derivation_path, vec![vec![1u8, 2, 3]]);
            assert_eq!(args.key_id.name, "key_1");
        }
        other => panic!("unexpected action {:?}", other),
    }
    actions.push(action);

    let (phase, action): Step = step(phase, Event::Signature(Some(vec![6u8; 64])), &handle);
    assert_eq!(phase, Phase::AwaitingBroadcast);
    assert_eq!(
        action,
        Action::SendTransaction {
            cos_canister: service,
            transaction: tx([7u8; 32], vec![Signature { bytes: [6u8; 64] }]),
        }
    );
    actions.push(action);

    let r: Step = step(phase, Event::Broadcast(Ok("txhash".to_string())), &handle);
    assert_eq!(
        r,
        (
            Phase::Finished,
            Action::ReturnBroadcast(Ok("txhash".to_string()))
        )
    );
    actions.push(r.1);
    assert_eq!(count_blockhash_queries(&actions), 0);
}

#[test]
fn send_transaction_without_a_blockhash_asks_for_one_once() {
    let handle = wallet(EcdsaKey::TestKey1);
    let caller = id(&[9]);
    let service = id(&[0xC0, 0x05]);
    let unsigned = tx([0u8; 32], vec![Signature { bytes: [0u8; 64] }]);
    let mut actions: Vec<Action<String>> = Vec::new();

    let (phase, action): Step = send_transaction(&handle, &caller, Some(unsigned));
    assert_eq!(
        action,
        Action::GetLatestBlockhash {
            cos_canister: service.clone()
        }
    );
    actions.push(action);

    let latest = BlockHash { bytes: [0x11; 32] };
    let (phase, action): Step = step(phase, Event::LatestBlockhash(Ok(Some(latest))), &handle);
    assert_eq!(
        action,
        Action::SerializeMessage(Message {
            recent_blockhash: latest,
            body: vec![0xAA, 0xBB],
        })
    );
    actions.push(action);

    let (phase, action): Step = step(phase, Event::MessageData(vec![4u8; 32]), &handle);
    assert_eq!(action, Action::AcceptCycles(26_153_846_153));
    actions.push(action);

    let (phase, action): Step = step(phase, Event::CyclesAccepted, &handle);
    match &action {
        Action::SignWithEcdsa { args, .. } => {
            assert_eq!(args.message_hash, [4u8; 32]);
            assert_eq!(args.derivation_path, vec![vec![9u8]]);
            assert_eq!(args.key_id.name, "test_key_1");
        }
        other => panic!("unexpected action {:?}", other),
    }
    actions.push(action);

    let (phase, action): Step = step(phase, Event::Signature(Some(vec![6u8; 64])), &handle);
    assert_eq!(
        action,
        Action::SendTransaction {
            cos_canister: service,
            transaction: tx([0x11; 32], vec![Signature { bytes: [6u8; 64] }]),
        }
    );
    actions.push(action);

    let r: Step = step(phase, Event::Broadcast(Err("rejected".to_string())), &handle);
    assert_eq!(
        r,
        (
            Phase::Finished,
            Action::ReturnBroadcast(Err("rejected".to_string()))
        )
    );
    actions.push(r.1);
    assert_eq!(count_blockhash_queries(&actions), 1);
}

#[test]
fn send_transaction_passes_a_failed_block_query_on() {
    let handle = wallet(EcdsaKey::TestKey1);
    let (phase, _): Step = send_transaction(&handle, &id(&[9]), Some(tx([0u8; 32], vec![])));
    let r: Step = step(
        phase,
        Event::LatestBlockhash(Err("unavailable".to_string())),
        &handle,
    );
    assert_eq!(
        r,
        (
            Phase::Finished,
            Action::ReturnBroadcast(Err("unavailable".to_string()))
        )
    );
}

#[test]
fn send_transaction_fails_on_an_undecodable_blockhash() {
    let handle = wallet(EcdsaKey::TestKey1);
    let (phase, _): Step = send_transaction(&handle, &id(&[9]), Some(tx([0u8; 32], vec![])));
    let r: Step = step(phase, Event::LatestBlockhash(Ok(None)), &handle);
    assert_eq!(r, failed(WalletError::InvalidBlockhash));
}

#[test]
fn send_transaction_fails_on_message_data_of_another_length() {
    let handle = wallet(EcdsaKey::TestKey1);
    let (phase, _): Step = send_transaction(&handle, &id(&[9]), Some(tx([1u8; 32], vec![])));
    let r: Step = step(phase, Event::MessageData(vec![4u8; 40]), &handle);
    assert_eq!(r, failed(WalletError::InvalidMessageLength));
}

#[test]
fn send_transaction_reads_the_key_when_it_signs() {
    let before = wallet(EcdsaKey::TestKey1);
    let (phase, _): Step = send_transaction(&before, &id(&[9]), Some(tx([0u8; 32], vec![])));
    let (phase, _): Step = step(
        phase,
        Event::LatestBlockhash(Ok(Some(BlockHash { bytes: [1; 32] }))),
        &before,
    );
    // The state changed while the block query was under way.
    let mut after = StateHandle::new();
    replace_state(
        &mut after,
        State {
            cos_canister: id(&[0xFF]),
            ecdsa_key: EcdsaKey::ProductionKey1,
        },
    );
    let (phase, _): Step = step(phase, Event::MessageData(vec![4u8; 32]), &after);
    let (phase, action): Step = step(phase, Event::CyclesAccepted, &after);
    match action {
        Action::SignWithEcdsa { args, .. } => assert_eq!(args.key_id.name, "key_1"),
        other => panic!("unexpected action {:?}", other),
    }
    // The service is the one that was configured when the operation began.
    let (_, action): Step = step(phase, Event::Signature(Some(vec![6u8; 64])), &after);
    match action {
        Action::SendTransaction { cos_canister, .. } => {
            assert_eq!(cos_canister, id(&[0xC0, 0x05]))
        }
        other => panic!("unexpected action {:?}", other),
    }
}

#[test]
fn send_transaction_fails_when_the_state_is_gone_at_signing() {
    let handle = wallet(EcdsaKey::TestKey1);
    let (phase, _): Step = send_transaction(&handle, &id(&[9]), Some(tx([1u8; 32], vec![])));
    let r: Step = step(phase, Event::MessageData(vec![4u8; 32]), &StateHandle::new());
    assert_eq!(r, failed(WalletError::StateNotInitialized));
}

#[test]
fn send_transaction_fails_without_a_signature() {
    let handle = wallet(EcdsaKey::TestKey1);
    let (phase, _): Step = send_transaction(&handle, &id(&[9]), Some(tx([1u8; 32], vec![])));
    let (phase, _): Step = step(phase, Event::MessageData(vec![4u8; 32]), &handle);
    let (phase, _): Step = step(phase, Event::CyclesAccepted, &handle);
    let r: Step = step(phase, Event::Signature(None), &handle);
    assert_eq!(r, failed(WalletError::SigningFailed));
}

#[test]
fn send_transaction_fails_on_a_signature_of_another_length() {
    let handle = wallet(EcdsaKey::TestKey1);
    for length in [0usize, 63, 65] {
        let (phase, _): Step =
            send_transaction(&handle, &id(&[9]), Some(tx([1u8; 32], vec![])));
        let (phase, _): Step = step(phase, Event::MessageData(vec![4u8; 32]), &handle);
        let (phase, _): Step = step(phase, Event::CyclesAccepted, &handle);
        let r: Step = step(phase, Event::Signature(Some(vec![1u8; length])), &handle);
        assert_eq!(r, failed(WalletError::InvalidSignature));
    }
}

#[test]
fn an_event_nobody_waits_for_ends_the_operation() {
    let handle = wallet(EcdsaKey::TestKey1);
    let (phase, _): Step = address(&handle, &id(&[1]));
    let r: Step = step(phase, Event::CyclesAccepted, &handle);
    assert_eq!(r, failed(WalletError::UnexpectedEvent));
    let r: Step = step(Phase::Finished, Event::PublicKey(Some(vec![1])), &handle);
    assert_eq!(r, failed(WalletError::UnexpectedEvent));
    let r: Step = step(Phase::AwaitingBroadcast, Event::Signature(None), &handle);
    assert_eq!(r, failed(WalletError::UnexpectedEvent));
    let (phase, _): Step = sign_message(&handle, &id(&[1]), &"x".repeat(32));
    let r: Step = step(phase, Event::Signature(Some(vec![1u8; 64])), &handle);
    assert_eq!(r, failed(WalletError::UnexpectedEvent));
}

#[test]
fn wallet_error_messages() {
    assert_eq!(
        WalletError::AnonymousCaller.message(),
        "Anonymous caller is not allowed"
    );
    assert_eq!(
        WalletError::StateNotInitialized.message(),
        "State not initialized!"
    );
    assert_eq!(
        WalletError::InvalidMessageLength.message(),
        "Failed to convert message to 32 bytes"
    );
    assert_eq!(
        WalletError::InvalidTransaction.message(),
        "Invalid transaction"
    );
    assert_eq!(
        WalletError::InvalidBlockhash.message(),
        "Invalid recent blockhash"
    );
    assert_eq!(
        WalletError::PublicKeyUnavailable.message(),
        "Failed to fetch ed25519 public key"
    );
    assert_eq!(
        WalletError::SigningFailed.message(),
        "Failed to sign with ed25519"
    );
    assert_eq!(WalletError::InvalidSignature.message(), "Invalid signature");
    assert_eq!(WalletError::UnexpectedEvent.message(), "Unexpected event");
}

#[test]
fn service_method_names() {
    assert_eq!(
        ic_cosmos_wallet::wallet::LATEST_BLOCKHASH_METHOD,
        "cos_getLatestBlockhash"
    );
    assert_eq!(
        ic_cosmos_wallet::wallet::SEND_TRANSACTION_METHOD,
        "cos_sendTransaction"
    );
    assert_eq!(
        ic_cosmos_wallet::ecdsa::PUBLIC_KEY_METHOD,
        "schnorr_public_key"
    );
    assert_eq!(ic_cosmos_wallet::ecdsa::SIGN_METHOD, "sign_with_ecdsa");
}
