use ic_cosmos_wallet::ecdsa::EcdsaKey;
use ic_cosmos_wallet::principal::PrincipalId;
use ic_cosmos_wallet::state::{
    mutate_state, read_state, replace_state, take_state, InitArgs, State, StateError, StateHandle,
};

fn id(bytes: &[u8]) -> PrincipalId {
    PrincipalId::try_from_slice(bytes).unwrap()
}

fn some_state() -> State {
    State {
        cos_canister: id(&[1, 2, 3]),
        ecdsa_key: EcdsaKey::ProductionKey1,
    }
}

#[test]
fn init_needs_a_service() {
    let mut handle = StateHandle::new();
    let r = State::init(
        &mut handle,
        InitArgs {
            cos_canister: None,
            ecdsa_key: Some("key_1".to_string()),
        },
    );
    assert_eq!(r, Err(StateError::MissingCosCanister));
    assert_eq!(handle.state, None);
}

#[test]
fn init_failure_keeps_the_old_state() {
    let mut handle = StateHandle::new();
    replace_state(&mut handle, some_state());
    let r = State::init(
        &mut handle,
        InitArgs {
            cos_canister: None,
            ecdsa_key: None,
        },
    );
    assert_eq!(r, Err(StateError::MissingCosCanister));
    assert_eq!(handle.state, Some(some_state()));
}

#[test]
fn init_defaults_to_the_test_key() {
    let mut handle = StateHandle::new();
    let r = State::init(
        &mut handle,
        InitArgs {
            cos_canister: Some(id(&[7])),
            ecdsa_key: None,
        },
    );
    assert_eq!(r, Ok(()));
    assert_eq!(
        handle.state,
        Some(State {
            cos_canister: id(&[7]),
            ecdsa_key: EcdsaKey::TestKey1
        })
    );
}

#[test]
fn init_reads_the_key_name() {
    let mut handle = StateHandle::new();
    State::init(
        &mut handle,
        InitArgs {
            cos_canister: Some(id(&[7])),
            ecdsa_key: Some("dfx_test_key".to_string()),
        },
    )
    .unwrap();
    assert_eq!(
        handle.state.as_ref().unwrap().ecdsa_key,
        EcdsaKey::TestKeyLocalDevelopment
    );
    State::init(
        &mut handle,
        InitArgs {
            cos_canister: Some(id(&[8])),
            ecdsa_key: Some("own".to_string()),
        },
    )
    .unwrap();
    assert_eq!(
        handle.state,
        Some(State {
            cos_canister: id(&[8]),
            ecdsa_key: EcdsaKey::Custom("own".to_string())
        })
    );
}

#[test]
fn state_round_trips_through_an_upgrade() {
    let mut handle = StateHandle::new();
    replace_state(&mut handle, some_state());
    let saved = State::pre_upgrade(&handle).unwrap();
    assert_eq!(saved, some_state());
    // Saving leaves the wallet as it was.
    assert_eq!(handle.state, Some(some_state()));
    assert_eq!(State::pre_upgrade(&handle), Ok(some_state()));
    let mut restored = StateHandle::new();
    State::post_upgrade(&mut restored, saved, None);
    assert_eq!(restored.state, Some(some_state()));
}

#[test]
fn pre_upgrade_needs_a_state() {
    let handle = StateHandle::new();
    assert_eq!(
        State::pre_upgrade(&handle),
        Err(StateError::NotInitialized)
    );
    assert_eq!(handle.state, None);
}

#[test]
fn upgrade_with_empty_overrides_changes_nothing() {
    let mut handle = StateHandle::new();
    State::post_upgrade(
        &mut handle,
        some_state(),
        Some(InitArgs {
            cos_canister: None,
            ecdsa_key: None,
        }),
    );
    assert_eq!(handle.state, Some(some_state()));
}

#[test]
fn upgrade_overrides_the_service_only() {
    let mut handle = StateHandle::new();
    State::post_upgrade(
        &mut handle,
        some_state(),
        Some(InitArgs {
            cos_canister: Some(id(&[9, 9])),
            ecdsa_key: None,
        }),
    );
    assert_eq!(
        handle.state,
        Some(State {
            cos_canister: id(&[9, 9]),
            ecdsa_key: EcdsaKey::ProductionKey1
        })
    );
}

#[test]
fn upgrade_overrides_the_key_only() {
    let mut handle = StateHandle::new();
    State::post_upgrade(
        &mut handle,
        some_state(),
        Some(InitArgs {
            cos_canister: None,
            ecdsa_key: Some("test_key_1".to_string()),
        }),
    );
    assert_eq!(
        handle.state,
        Some(State {
            cos_canister: id(&[1, 2, 3]),
            ecdsa_key: EcdsaKey::TestKey1
        })
    );
}

#[test]
fn upgrade_overrides_both() {
    let mut handle = StateHandle::new();
    replace_state(&mut handle, some_state());
    State::post_upgrade(
        &mut handle,
        some_state(),
        Some(InitArgs {
            cos_canister: Some(id(&[])),
            ecdsa_key: Some("zzz".to_string()),
        }),
    );
    assert_eq!(
        handle.state,
        Some(State {
            cos_canister: id(&[]),
            ecdsa_key: EcdsaKey::Custom("zzz".to_string())
        })
    );
}

#[test]
fn read_state_hands_the_state_to_the_reader() {
    let mut handle = StateHandle::new();
    assert_eq!(
        read_state(&handle, |s| s.ecdsa_key.clone()),
        Err(StateError::NotInitialized)
    );
    replace_state(&mut handle, some_state());
    assert_eq!(
        read_state(&handle, |s| s.ecdsa_key.clone()),
        Ok(EcdsaKey::ProductionKey1)
    );
    assert_eq!(
        read_state(&handle, |s| s.cos_canister.clone()),
        Ok(id(&[1, 2, 3]))
    );
    assert_eq!(handle.state, Some(some_state()));
}

#[test]
fn mutate_state_changes_the_state_in_place() {
    let mut handle = StateHandle::new();
    assert_eq!(
        mutate_state(&mut handle, |s| {
            s.ecdsa_key = EcdsaKey::TestKey1;
            1
        }),
        Err(StateError::NotInitialized)
    );
    assert_eq!(handle.state, None);
    replace_state(&mut handle, some_state());
    let r = mutate_state(&mut handle, |s| {
        s.ecdsa_key = EcdsaKey::TestKey1;
        42
    });
    assert_eq!(r, Ok(42));
    assert_eq!(
        handle.state,
        Some(State {
            cos_canister: id(&[1, 2, 3]),
            ecdsa_key: EcdsaKey::TestKey1
        })
    );
}

#[test]
fn take_state_empties_the_handle() {
    let mut handle = StateHandle::new();
    assert_eq!(
        take_state(&mut handle, |s| s),
        Err(StateError::NotInitialized)
    );
    replace_state(&mut handle, some_state());
    assert_eq!(take_state(&mut handle, |s| s), Ok(some_state()));
    assert_eq!(handle.state, None);
    assert_eq!(
        read_state(&handle, |_| ()),
        Err(StateError::NotInitialized)
    );
}

#[test]
fn replace_state_overwrites() {
    let mut handle = StateHandle::new();
    replace_state(&mut handle, some_state());
    let other = State {
        cos_canister: id(&[5]),
        ecdsa_key: EcdsaKey::TestKeyLocalDevelopment,
    };
    replace_state(&mut handle, other.clone());
    assert_eq!(handle.state, Some(other));
}

#[test]
fn state_error_messages() {
    assert_eq!(
        StateError::MissingCosCanister.message(),
        "Missing cos_canister"
    );
    assert_eq!(StateError::NotInitialized.message(), "State not initialized!");
}

#[test]
fn state_clone_is_equal() {
    assert_eq!(some_state().clone(), some_state());
}
