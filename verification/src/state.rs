//! The wallet's configuration and the handle that owns it.

use vstd::prelude::*;
use crate::ecdsa::{EcdsaKey, EcdsaKeyView};
use crate::principal::PrincipalId;

verus! {

/// What an installation or an upgrade may set.
#[derive(Debug, PartialEq, Eq)]
pub struct InitArgs {
    /// The service that answers block queries and broadcasts transactions.
    pub cos_canister: Option<PrincipalId>,
    /// The name of the signing key.
    pub ecdsa_key: Option<String>,
}

/// The mathematical value of an [`InitArgs`].
pub struct InitArgsView {
    pub cos_canister: Option<Seq<u8>>,
    pub ecdsa_key: Option<Seq<char>>,
}

impl View for InitArgs {
    type V = InitArgsView;

    open spec fn view(&self) -> InitArgsView {
        InitArgsView {
            cos_canister: match self.cos_canister {
                Some(id) => Some(id@),
                None => None,
            },
            ecdsa_key: match self.ecdsa_key {
                Some(name) => Some(name@),
                None => None,
            },
        }
    }
}

/// The wallet's configuration.
#[derive(Debug, PartialEq, Eq)]
pub struct State {
    /// The service that answers block queries and broadcasts transactions.
    pub cos_canister: PrincipalId,
    /// The signing key in use.
    pub ecdsa_key: EcdsaKey,
}

/// The mathematical value of a [`State`].
pub struct StateView {
    pub cos_canister: Seq<u8>,
    pub ecdsa_key: EcdsaKeyView,
}

impl View for State {
    type V = StateView;

    open spec fn view(&self) -> StateView {
        StateView { cos_canister: self.cos_canister@, ecdsa_key: self.ecdsa_key@ }
    }
}

impl Clone for State {
    fn clone(&self) -> (r: Self)
        ensures
            r@ == self@,
    {
        State { cos_canister: self.cos_canister.clone(), ecdsa_key: self.ecdsa_key.clone() }
    }
}

/// Why an operation on the state failed.
#[derive(Clone, Copy, Debug, PartialEq, Eq)]
pub enum StateError {
    /// The installation arguments name no service.
    MissingCosCanister,
    /// The handle holds no state.
    NotInitialized,
}

impl StateError {
    /// The words under which the error is reported.
    pub fn message(&self) -> (r: &'static str)
        ensures
            r@ == match self {
                StateError::MissingCosCanister => "Missing cos_canister"@,
                StateError::NotInitialized => "State not initialized!"@,
            },
    {
        match self {
            StateError::MissingCosCanister => "Missing cos_canister",
            StateError::NotInitialized => "State not initialized!",
        }
    }
}

/// The owner of the wallet's state: empty until the wallet is initialized,
/// and empty again once the state has been taken out.
#[derive(Debug)]
pub struct StateHandle {
    pub state: Option<State>,
}

impl View for StateHandle {
    type V = Option<StateView>;

    open spec fn view(&self) -> Option<StateView> {
        match self.state {
            Some(s) => Some(s@),
            None => None,
        }
    }
}

/// The mathematical value of the overrides that an upgrade was given.
pub open spec fn overrides_view(args: Option<InitArgs>) -> Option<InitArgsView> {
    match args {
        Some(a) => Some(a@),
        None => None,
    }
}

/// The state that installation arguments describe, if they name a service:
/// the key is the one the given name selects, and the shared test key when
/// no name is given.
pub open spec fn initial_state(args: InitArgsView) -> Option<StateView> {
    match args.cos_canister {
        Some(id) => Some(
            StateView {
                cos_canister: id,
                ecdsa_key: match args.ecdsa_key {
                    Some(name) => EcdsaKeyView::from_name(name),
                    None => EcdsaKeyView::TestKey1,
                },
            },
        ),
        None => None,
    }
}

/// A restored state after the overrides of an upgrade: each field that the
/// arguments give replaces the restored one, every other field is kept.
pub open spec fn upgraded_state(restored: StateView, args: Option<InitArgsView>) -> StateView {
    match args {
        Some(a) => StateView {
            cos_canister: match a.cos_canister {
                Some(id) => id,
                None => restored.cos_canister,
            },
            ecdsa_key: match a.ecdsa_key {
                Some(name) => EcdsaKeyView::from_name(name),
                None => restored.ecdsa_key,
            },
        },
        None => restored,
    }
}

/// A state that is restored without overrides is the state that was saved.
pub proof fn lemma_restore_without_overrides(saved: StateView)
    ensures
        upgraded_state(saved, None) == saved,
        upgraded_state(saved, Some(InitArgsView { cos_canister: None, ecdsa_key: None }))
            == saved,
{
}

/// A state that is restored with a service as its only override names that
/// service and keeps every other field of the state that was saved.
pub proof fn lemma_restore_with_service(saved: StateView, service: Seq<u8>)
    ensures
        upgraded_state(
            saved,
            Some(InitArgsView { cos_canister: Some(service), ecdsa_key: None }),
        ) == (StateView { cos_canister: service, ecdsa_key: saved.ecdsa_key }),
{
}

/// A state that is restored with a key name as its only override uses the
/// key of that name and keeps every other field of the state that was saved.
pub proof fn lemma_restore_with_key(saved: StateView, name: Seq<char>)
    ensures
        upgraded_state(
            saved,
            Some(InitArgsView { cos_canister: None, ecdsa_key: Some(name) }),
        ) == (StateView {
            cos_canister: saved.cos_canister,
            ecdsa_key: EcdsaKeyView::from_name(name),
        }),
{
}

impl StateHandle {
    /// A handle that holds no state yet.
    pub fn new() -> (r: StateHandle)
        ensures
            r@ is None,
    {
        StateHandle { state: None }
    }
}

impl State {
    /// Puts the state that `args` describe into `handle`, replacing what was
    /// there. Without a service in `args` nothing changes and the call
    /// fails.
    pub fn init(handle: &mut StateHandle, args: InitArgs) -> (r: Result<(), StateError>)
        ensures
            match initial_state(args@) {
                Some(s) => r == Ok::<(), StateError>(()) && final(handle)@ == Some(s),
                None => r == Err::<(), StateError>(StateError::MissingCosCanister)
                    && *final(handle) == *old(handle),
            },
    {
        match args.cos_canister {
            Some(cos_canister) => {
                let ecdsa_key = match args.ecdsa_key {
                    Some(name) => match EcdsaKey::from_str(name.as_str()) {
                        Ok(key) => key,
                        Err(_) => EcdsaKey::TestKey1,
                    },
                    None => EcdsaKey::TestKey1,
                };
                replace_state(handle, State { cos_canister, ecdsa_key });
                Ok(())
            },
            None => Err(StateError::MissingCosCanister),
        }
    }

    /// Hands out a copy of the state in `handle` so that it can be stored
    /// across an upgrade. The handle keeps its state.
    pub fn pre_upgrade(handle: &StateHandle) -> (r: Result<State, StateError>)
        ensures
            match handle@ {
                Some(s) => r matches Ok(saved) && saved@ == s,
                None => r == Err::<State, StateError>(StateError::NotInitialized),
            },
    {
        match &handle.state {
            Some(s) => Ok(s.clone()),
            None => Err(StateError::NotInitialized),
        }
    }

    /// Puts `restored`, patched with the overrides in `args`, into `handle`.
    pub fn post_upgrade(handle: &mut StateHandle, restored: State, args: Option<InitArgs>)
        ensures
            final(handle)@ == Some(upgraded_state(restored@, overrides_view(args))),
    {
        let mut state = restored;
        if let Some(args) = args {
            if let Some(cos_canister) = args.cos_canister {
                state.cos_canister = cos_canister;
            }
            if let Some(name) = args.ecdsa_key {
                match EcdsaKey::from_str(name.as_str()) {
                    Ok(key) => {
                        state.ecdsa_key = key;
                    },
                    Err(_) => {},
                }
            }
        }
        replace_state(handle, state);
    }
}

/// Takes the state out of `handle` and hands it to `f`. Afterwards the
/// handle is empty.
pub fn take_state<F, R>(handle: &mut StateHandle, f: F) -> (r: Result<R, StateError>) where
    F: FnOnce(State) -> R,

    requires
        old(handle).state matches Some(s) ==> f.requires((s,)),
    ensures
        final(handle)@ is None,
        match old(handle).state {
            Some(s) => r matches Ok(v) && f.ensures((s,), v),
            None => r matches Err(e) && e == StateError::NotInitialized,
        },
{
    match handle.state.take() {
        Some(s) => Ok(f(s)),
        None => Err(StateError::NotInitialized),
    }
}

/// Hands the state in `handle` to `f` for reading.
pub fn read_state<F, R>(handle: &StateHandle, f: F) -> (r: Result<R, StateError>) where
    F: FnOnce(&State) -> R,

    requires
        handle.state matches Some(s) ==> f.requires((&s,)),
    ensures
        match handle.state {
            Some(s) => r matches Ok(v) && f.ensures((&s,), v),
            None => r matches Err(e) && e == StateError::NotInitialized,
        },
{
    match &handle.state {
        Some(s) => Ok(f(s)),
        None => Err(StateError::NotInitialized),
    }
}

/// Hands the state in `handle` to `f`, which may change it.
pub fn mutate_state<F, R>(handle: &mut StateHandle, f: F) -> (r: Result<R, StateError>) where
    F: FnOnce(&mut State) -> R,

    requires
        old(handle).state matches Some(s) ==> forall|m: &mut State| *m == s ==> f.requires((m,)),
    ensures
        match old(handle).state {
            Some(s) => r matches Ok(v) && final(handle).state matches Some(t) && exists|
                m: &mut State,
            |
                *m == s && *final(m) == t && f.ensures((m,), v),
            None => r matches Err(e) && e == StateError::NotInitialized && final(handle)@ is None,
        },
{
    match &mut handle.state {
        Some(s) => Ok(f(s)),
        None => Err(StateError::NotInitialized),
    }
}

/// Replaces the state in `handle`.
pub fn replace_state(handle: &mut StateHandle, state: State)
    ensures
        final(handle).state == Some(state),
{
    handle.state = Some(state);
}

} // verus!
