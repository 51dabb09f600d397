//! The handles of a keystore and of the conductor that uses it.
//!
//! They are carried through as they are, so their types are parameters, by these letters throughout
//! the library: `P` the passphrase, `K` the client of the keystore, `S` the keystore that runs in
//! this process, `C` the conductor.
use vstd::pervasive::cloned;
use vstd::prelude::*;

verus! {

/// The handles of a keystore, and the passphrase that unlocks it.
#[derive(Debug, PartialEq, Eq)]
pub struct Lair<P, K, S> {
    pub passphrase: P,
    pub lair_client: K,
    pub in_proc_keystore: S,
}

/// The handles of a keystore that was spawned.
#[derive(Debug, PartialEq, Eq)]
pub struct SpawnedKeystore<K, S> {
    pub lair_client: K,
    pub in_proc_keystore: S,
}

/// The Lair client of the keystore of the conductor.
#[derive(Debug, PartialEq, Eq)]
pub struct ConductorLairClient<C> {
    pub conductor: C,
}

/// The handles are clones of those of `lair`.
pub open spec fn is_copy<P: Clone, K: Clone, S: Clone>(
    copy: Lair<P, K, S>,
    lair: Lair<P, K, S>,
) -> bool {
    &&& cloned(lair.passphrase, copy.passphrase)
    &&& cloned(lair.lair_client, copy.lair_client)
    &&& cloned(lair.in_proc_keystore, copy.in_proc_keystore)
}

impl<P: Clone, K: Clone, S: Clone> Clone for Lair<P, K, S> {
    fn clone(&self) -> (copy: Lair<P, K, S>)
        ensures
            is_copy(copy, *self),
    {
        Lair {
            passphrase: self.passphrase.clone(),
            lair_client: self.lair_client.clone(),
            in_proc_keystore: self.in_proc_keystore.clone(),
        }
    }
}

/// A copy of the handles is one of each: of the passphrase, of the client and of the keystore.
pub proof fn law_copy_is_of_every_handle<P: Clone, K: Clone, S: Clone>(
    copy: Lair<P, K, S>,
    lair: Lair<P, K, S>,
)
    requires
        is_copy(copy, lair),
    ensures
        cloned(lair.passphrase, copy.passphrase),
        cloned(lair.lair_client, copy.lair_client),
        cloned(lair.in_proc_keystore, copy.in_proc_keystore),
{
}

} // verus!
