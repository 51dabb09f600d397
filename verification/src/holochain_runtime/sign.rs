//! Signing a zome call.
//!
//! The call and the signed call are carried through as they are, so they are type parameters: `Z`
//! the call, `T` the signed call.
use super::HolochainRuntime;
use crate::error::Error;
use crate::keystore::ConductorLairClient;
use vstd::pervasive::cloned;
use vstd::prelude::*;

verus! {

/// Where signing is: the call to make next, or how it ended.
#[derive(Debug, PartialEq)]
pub enum SignZomeCall<C, Z, T> {
    /// Have the client sign the zome call.
    Sign { zome_call: Z, client: ConductorLairClient<C> },
    /// It is over.
    Done(Result<T, Error>),
}

/// What came of signing the zome call.
#[derive(Debug, PartialEq)]
pub enum SignEvent<T> {
    Signed(Result<T, Error>),
}

/// Where signing begins: the zome call goes, as it is, to the Lair client of the keystore of the
/// conductor of the runtime.
pub open spec fn sign_begins<P, K, S, C: Clone, Z, T>(
    sign: SignZomeCall<C, Z, T>,
    runtime: HolochainRuntime<P, K, S, C>,
    zome_call_unsigned: Z,
) -> bool {
    &&& sign matches SignZomeCall::Sign { zome_call, client }
    &&& zome_call == zome_call_unsigned
    &&& cloned(runtime.conductor_handle, client.conductor)
}

/// Where signing is after the event: what came of it is how it ends, once.
pub open spec fn sign_next<C, Z, T>(
    sign: SignZomeCall<C, Z, T>,
    event: SignEvent<T>,
) -> SignZomeCall<C, Z, T> {
    match (sign, event) {
        (SignZomeCall::Sign { .. }, SignEvent::Signed(signed)) => SignZomeCall::Done(signed),
        _ => sign,
    }
}

impl<C, Z, T> SignZomeCall<C, Z, T> {
    /// Takes what came of the call that it is at, and gives where it is then.
    pub fn advance(self, event: SignEvent<T>) -> (next: SignZomeCall<C, Z, T>)
        ensures
            next == sign_next(self, event),
    {
        match (self, event) {
            (SignZomeCall::Sign { .. }, SignEvent::Signed(signed)) => SignZomeCall::Done(signed),
            (sign, _) => sign,
        }
    }
}

impl<P, K, S, C: Clone> HolochainRuntime<P, K, S, C> {
    /// Begins to sign a zome call.
    pub fn sign_zome_call<Z, T>(&self, zome_call_unsigned: Z) -> (sign: SignZomeCall<C, Z, T>)
        ensures
            sign_begins(sign, *self, zome_call_unsigned),
    {
        SignZomeCall::Sign {
            zome_call: zome_call_unsigned,
            client: ConductorLairClient { conductor: self.conductor_handle.clone() },
        }
    }
}

/// The states that signing goes through, and the events that take it from each to the next.
pub open spec fn is_run<C, Z, T>(
    states: Seq<SignZomeCall<C, Z, T>>,
    events: Seq<SignEvent<T>>,
) -> bool {
    &&& states.len() == events.len() + 1
    &&& forall|i: int|
        0 <= i < events.len() ==> states[i + 1] == sign_next(states[i], #[trigger] events[i])
}

/// The zome call that was given, and no other, goes to the keystore of the conductor of the
/// runtime; what the first answer holds, the signed call or the error, is what signing ends with,
/// and later events do not change it.
pub proof fn law_first_answer_is_what_signing_gives<P, K, S, C: Clone, Z, T>(
    runtime: HolochainRuntime<P, K, S, C>,
    zome_call_unsigned: Z,
    states: Seq<SignZomeCall<C, Z, T>>,
    events: Seq<SignEvent<T>>,
    i: int,
)
    requires
        is_run(states, events),
        sign_begins(states[0], runtime, zome_call_unsigned),
        0 <= i < states.len(),
    ensures
        match states[i] {
            SignZomeCall::Sign { zome_call, client } => i == 0 && zome_call == zome_call_unsigned
                && cloned(runtime.conductor_handle, client.conductor),
            SignZomeCall::Done(result) => i > 0 && events[0] == SignEvent::Signed(result),
        },
    decreases i,
{
    if i > 0 {
        law_first_answer_is_what_signing_gives(runtime, zome_call_unsigned, states, events, i - 1);
        assert(states[i] == sign_next(states[i - 1], events[i - 1]));
    }
}

} // verus!
