//! Exporting the seed of the agent key.
use super::HolochainRuntime;
use crate::agent_key::{key_read, readable, AgentPubKey};
use crate::config::HolochainRuntimeConfig;
use crate::error::{Error, ErrorView};
use crate::launch::laws::{
    inserts, is_run, law_launch_keeps_to_its_directories, law_launch_obeys_its_configuration,
};
use crate::launch::{beginning, LaunchEvent, LaunchRuntime, AGENT_KEY_FILE, SEED_LEN};
use crate::paths::FileName;
use crate::text::{
    is_white_space, lemma_trimmed_is_identity, lemma_trimmed_takes_padding_off, trim, trimmed,
};
use vstd::pervasive::cloned;
use vstd::prelude::*;

verus! {

/// What kind of entry a keystore holds under a key.
#[derive(Clone, Copy, Debug, PartialEq, Eq)]
pub enum LairEntryKind {
    /// A seed that the passphrase of the keystore unlocks.
    Seed,
    /// A seed with a passphrase of its own.
    DeepLockedSeed,
    /// A certificate.
    WkaTlsCert,
    /// Anything else.
    Other,
}

/// Where an export is: the call to make next, or how it ended.
#[derive(Debug, PartialEq)]
pub enum ExportSeed<S> {
    /// Read the file that holds the text of the agent key.
    ReadKeyFile { file: FileName, in_proc_keystore: S },
    /// Open the store of the keystore that runs in this process.
    OpenStore { in_proc_keystore: S, public_key: [u8; 32] },
    /// Look up the entry with the Ed25519 public key in the store.
    FindEntry { public_key: [u8; 32] },
    /// Decrypt the seed of the entry that was found under the Ed25519 public key.
    DecryptSeed { public_key: [u8; 32] },
    /// The export is over.
    Done(Result<Vec<u8>, Error>),
}

/// What came of a call. A failure is told by its text.
#[derive(Debug, PartialEq)]
pub enum ExportEvent {
    KeyFileRead(Result<String, String>),
    StoreOpened(Result<(), String>),
    EntryFound(Result<LairEntryKind, String>),
    SeedDecrypted(Result<[u8; 32], String>),
}

impl<S> ExportSeed<S> {
    /// The export has failed with the fault of the agent seed.
    pub open spec fn failed_with(self, reason: Seq<char>) -> bool {
        self matches ExportSeed::Done(Err(e)) && e@ == ErrorView::AgentSeedError(reason)
    }

    /// The export opens the store of the keystore, for the entry with the public key.
    pub open spec fn looks_for(self, in_proc_keystore: S, public_key: Seq<u8>) -> bool {
        &&& self matches ExportSeed::OpenStore { in_proc_keystore: opened, public_key: wanted }
        &&& opened == in_proc_keystore
        &&& wanted@ == public_key
    }
}

/// Where an export of the runtime begins: with the key file in the data directory.
pub open spec fn is_beginning<P, K, S: Clone, C>(
    export: ExportSeed<S>,
    runtime: HolochainRuntime<P, K, S, C>,
) -> bool {
    &&& export matches ExportSeed::ReadKeyFile { file, in_proc_keystore }
    &&& file == (FileName { dir: runtime.filesystem.app_data_dir, name: AGENT_KEY_FILE })
    &&& cloned(runtime.lair.in_proc_keystore, in_proc_keystore)
}

/// The event can be taken: where it is the text of the key file, a key can be read from the text
/// at all once it is trimmed.
pub open spec fn can_take<S>(export: ExportSeed<S>, event: ExportEvent) -> bool {
    export is ReadKeyFile ==> (event matches ExportEvent::KeyFileRead(Ok(text)) ==> readable(
        trimmed(text@),
    ))
}

/// `next` is where the export is after the event. An event that does not answer the call that the
/// export is at leaves it there.
pub open spec fn steps<S>(export: ExportSeed<S>, event: ExportEvent, next: ExportSeed<S>) -> bool {
    match (export, event) {
        (
            ExportSeed::ReadKeyFile { in_proc_keystore, .. },
            ExportEvent::KeyFileRead(read),
        ) => match read {
            Ok(text) => match key_read(trimmed(text@)) {
                Ok(bytes) => next.looks_for(in_proc_keystore, bytes.subrange(3, 35)),
                Err(why) => next.failed_with("Invalid agent key in file: "@ + why),
            },
            Err(cause) => next.failed_with("No agent key file found: "@ + cause@),
        },
        (
            ExportSeed::OpenStore { public_key, .. },
            ExportEvent::StoreOpened(opened),
        ) => match opened {
            Ok(()) => next == (ExportSeed::<S>::FindEntry { public_key }),
            Err(cause) => next.failed_with("Failed to get Lair store: "@ + cause@),
        },
        (ExportSeed::FindEntry { public_key }, ExportEvent::EntryFound(found)) => match found {
            Ok(LairEntryKind::Seed) => next == (ExportSeed::<S>::DecryptSeed { public_key }),
            Ok(_) => next.failed_with("Agent key entry is not a standard Seed"@),
            Err(cause) => next.failed_with("Failed to find seed entry: "@ + cause@),
        },
        (ExportSeed::DecryptSeed { .. }, ExportEvent::SeedDecrypted(decrypted)) => match decrypted {
            Ok(seed) => next matches ExportSeed::Done(Ok(bytes)) && bytes@ == seed@,
            Err(cause) => next.failed_with("Failed to decrypt seed: "@ + cause@),
        },
        _ => next == export,
    }
}

impl<S> ExportSeed<S> {
    /// Goes on with what was read from the key file.
    pub fn with_key(
        in_proc_keystore: S,
        read: Result<AgentPubKey, String>,
    ) -> (next: ExportSeed<S>)
        ensures
            match read {
                Ok(key) => next.looks_for(in_proc_keystore, key.raw_32()),
                Err(why) => next.failed_with("Invalid agent key in file: "@ + why@),
            },
    {
        match read {
            Ok(key) => ExportSeed::OpenStore { in_proc_keystore, public_key: key.get_raw_32() },
            Err(why) => ExportSeed::Done(
                Err(Error::agent_seed("Invalid agent key in file: ", why.as_str())),
            ),
        }
    }

    /// Takes what came of the call that the export is at, and gives where it is then.
    pub fn advance(self, event: ExportEvent) -> (next: ExportSeed<S>)
        requires
            can_take(self, event),
        ensures
            steps(self, event, next),
    {
        match (self, event) {
            (
                ExportSeed::ReadKeyFile { in_proc_keystore, .. },
                ExportEvent::KeyFileRead(read),
            ) => match read {
                Ok(text) => ExportSeed::with_key(
                    in_proc_keystore,
                    AgentPubKey::from_text(trim(text.as_str())),
                ),
                Err(cause) => ExportSeed::Done(
                    Err(Error::agent_seed("No agent key file found: ", cause.as_str())),
                ),
            },
            (
                ExportSeed::OpenStore { public_key, .. },
                ExportEvent::StoreOpened(opened),
            ) => match opened {
                Ok(()) => ExportSeed::FindEntry { public_key },
                Err(cause) => ExportSeed::Done(
                    Err(Error::agent_seed("Failed to get Lair store: ", cause.as_str())),
                ),
            },
            (
                ExportSeed::FindEntry { public_key },
                ExportEvent::EntryFound(found),
            ) => match found {
                Ok(LairEntryKind::Seed) => ExportSeed::DecryptSeed { public_key },
                Ok(_) => {
                    let reason = "Agent key entry is not a standard Seed".to_owned();
                    ExportSeed::Done(Err(Error::AgentSeedError(reason)))
                },
                Err(cause) => ExportSeed::Done(
                    Err(Error::agent_seed("Failed to find seed entry: ", cause.as_str())),
                ),
            },
            (
                ExportSeed::DecryptSeed { .. },
                ExportEvent::SeedDecrypted(decrypted),
            ) => match decrypted {
                Ok(seed) => ExportSeed::Done(Ok(bytes_of(&seed))),
                Err(cause) => ExportSeed::Done(
                    Err(Error::agent_seed("Failed to decrypt seed: ", cause.as_str())),
                ),
            },
            (export, _) => export,
        }
    }
}

fn bytes_of(seed: &[u8; 32]) -> (bytes: Vec<u8>)
    ensures
        bytes@ == seed@,
{
    let mut bytes: Vec<u8> = Vec::new();
    let mut i: usize = 0;
    while i < 32
        invariant
            i <= 32,
            bytes@ == seed@.take(i as int),
        decreases 32 - i,
    {
        bytes.push(seed[i]);
        assert(bytes@ =~= seed@.take(i + 1));
        i = i + 1;
    }
    assert(bytes@ =~= seed@);
    bytes
}

impl<P, K, S: Clone, C> HolochainRuntime<P, K, S, C> {
    /// Begins to export the seed of the agent key.
    pub fn export_agent_seed(&self) -> (export: ExportSeed<S>)
        ensures
            is_beginning(export, *self),
    {
        ExportSeed::ReadKeyFile {
            file: FileName { dir: self.filesystem.app_data_dir.clone(), name: AGENT_KEY_FILE },
            in_proc_keystore: self.lair.in_proc_keystore.clone(),
        }
    }
}

/// What an import wrote, an export finds: on a runtime whose launch imported a seed, the export
/// reads the file that the launch wrote, and from its text it looks in the keystore for the very
/// key of the imported seed.
pub proof fn law_export_looks_for_the_imported_seed<P, K, S: Clone, C>(
    states: Seq<LaunchRuntime<P, K, S, C>>,
    events: Seq<LaunchEvent<K, S, C>>,
    j: int,
    public_key: [u8; 32],
    runtime: HolochainRuntime<P, K, S, C>,
    export: ExportSeed<S>,
    text: String,
    next: ExportSeed<S>,
)
    requires
        is_run(states, events),
        0 <= j < events.len(),
        states[j] is InsertSeed,
        events[j] == LaunchEvent::<K, S, C>::SeedInserted(Ok(public_key)),
        states.last() == LaunchRuntime::<P, K, S, C>::Done(Ok(runtime)),
        is_beginning(export, runtime),
        text@ == states[j + 1]->contents@,
        steps(export, ExportEvent::KeyFileRead(Ok(text)), next),
    ensures
        states[j + 1] is WriteKeyFile,
        export->file == states[j + 1]->file,
        can_take(export, ExportEvent::KeyFileRead(Ok(text))),
        next.looks_for(export->ReadKeyFile_in_proc_keystore, public_key@),
{
    assert(crate::launch::steps(states[j], events[j], states[j + 1]));
    law_launch_keeps_to_its_directories(states, events, j + 1, states.len() - 1);
}

/// The states that an export goes through, and the events that take it from each to the next.
pub open spec fn is_export_run<S>(states: Seq<ExportSeed<S>>, events: Seq<ExportEvent>) -> bool {
    &&& states.len() == events.len() + 1
    &&& forall|i: int|
        0 <= i < events.len() ==> steps(states[i], #[trigger] events[i], states[i + 1])
}

/// The event tells what came of the call that the export is at.
pub open spec fn answers<S>(export: ExportSeed<S>, event: ExportEvent) -> bool {
    match export {
        ExportSeed::ReadKeyFile { .. } => event is KeyFileRead,
        ExportSeed::OpenStore { .. } => event is StoreOpened,
        ExportSeed::FindEntry { .. } => event is EntryFound,
        ExportSeed::DecryptSeed { .. } => event is SeedDecrypted,
        ExportSeed::Done(_) => false,
    }
}

/// How far an export is.
pub open spec fn stage<S>(export: ExportSeed<S>) -> nat {
    match export {
        ExportSeed::ReadKeyFile { .. } => 0,
        ExportSeed::OpenStore { .. } => 1,
        ExportSeed::FindEntry { .. } => 2,
        ExportSeed::DecryptSeed { .. } => 3,
        ExportSeed::Done(_) => 4,
    }
}

/// The event is what comes of a call where the key file holds `key_file`, and the keystore opens
/// and holds the seed under the public key.
pub open spec fn finds_seed<S>(
    export: ExportSeed<S>,
    event: ExportEvent,
    key_file: Seq<char>,
    public_key: Seq<u8>,
    seed: Seq<u8>,
) -> bool {
    match (export, event) {
        (ExportSeed::ReadKeyFile { .. }, ExportEvent::KeyFileRead(read)) => read matches Ok(text)
            && text@ == key_file,
        (ExportSeed::OpenStore { .. }, ExportEvent::StoreOpened(opened)) => opened is Ok,
        (ExportSeed::FindEntry { public_key: wanted }, ExportEvent::EntryFound(found)) => wanted@
            == public_key ==> found matches Ok(LairEntryKind::Seed),
        (
            ExportSeed::DecryptSeed { public_key: wanted },
            ExportEvent::SeedDecrypted(decrypted),
        ) => wanted@ == public_key ==> (decrypted matches Ok(bytes) && bytes@ == seed),
        _ => true,
    }
}

/// A seed that a launch imported comes back from an export on its runtime, byte for byte: where the
/// key file still holds what the launch wrote, and the keystore holds the imported seed under the
/// public key that it gave for it, the export does not fail, and what it ends with is the seed. It
/// is over after at most four calls.
pub proof fn law_export_gives_the_imported_seed_back<P, K, S: Clone, C>(
    passphrase: P,
    config: HolochainRuntimeConfig,
    seed: Vec<u8>,
    states: Seq<LaunchRuntime<P, K, S, C>>,
    events: Seq<LaunchEvent<K, S, C>>,
    j: int,
    public_key: [u8; 32],
    runtime: HolochainRuntime<P, K, S, C>,
    exports: Seq<ExportSeed<S>>,
    replies: Seq<ExportEvent>,
    i: int,
)
    requires
        config.pending_import_seed == Some(seed),
        is_run(states, events),
        states[0] == beginning::<P, K, S, C>(passphrase, config),
        states.last() == LaunchRuntime::<P, K, S, C>::Done(Ok(runtime)),
        inserts(states, events, j, seed, public_key),
        is_export_run(exports, replies),
        is_beginning(exports[0], runtime),
        forall|k: int|
            0 <= k < replies.len() ==> finds_seed(
                exports[k],
                #[trigger] replies[k],
                states[j + 1]->contents@,
                public_key@,
                seed@,
            ),
        0 <= i < exports.len(),
    ensures
        seed@.len() == SEED_LEN,
        match exports[i] {
            ExportSeed::ReadKeyFile { file, in_proc_keystore } => file == states[j + 1]->file
                && cloned(runtime.lair.in_proc_keystore, in_proc_keystore),
            ExportSeed::OpenStore { in_proc_keystore, public_key: wanted } => cloned(
                runtime.lair.in_proc_keystore,
                in_proc_keystore,
            ) && wanted@ == public_key@,
            ExportSeed::FindEntry { public_key: wanted } => wanted@ == public_key@,
            ExportSeed::DecryptSeed { public_key: wanted } => wanted@ == public_key@,
            ExportSeed::Done(Ok(bytes)) => bytes@ == seed@,
            ExportSeed::Done(Err(_)) => false,
        },
        i < replies.len() ==> can_take(exports[i], replies[i]),
        (forall|k: int| 0 <= k < replies.len() ==> answers(exports[k], #[trigger] replies[k]))
            ==> i <= stage(exports[i]) <= 4,
    decreases i,
{
    law_launch_obeys_its_configuration(passphrase, config, states, events, j);
    assert(crate::launch::steps(states[j], events[j], states[j + 1]));
    law_launch_keeps_to_its_directories(states, events, j + 1, states.len() - 1);
    if i > 0 {
        law_export_gives_the_imported_seed_back(
            passphrase,
            config,
            seed,
            states,
            events,
            j,
            public_key,
            runtime,
            exports,
            replies,
            i - 1,
        );
        assert(steps(exports[i - 1], replies[i - 1], exports[i]));
        assert(finds_seed(
            exports[i - 1],
            replies[i - 1],
            states[j + 1]->contents@,
            public_key@,
            seed@,
        ));
    }
}

/// White space around the key in the key file does not matter.
pub proof fn law_white_space_around_the_key_does_not_matter<S>(
    export: ExportSeed<S>,
    key: String,
    before: Seq<char>,
    after: Seq<char>,
    padded: String,
    next: ExportSeed<S>,
    next_padded: ExportSeed<S>,
)
    requires
        export is ReadKeyFile,
        key@.len() > 0,
        !is_white_space(key@[0]),
        !is_white_space(key@.last()),
        forall|i: int| 0 <= i < before.len() ==> is_white_space(#[trigger] before[i]),
        forall|i: int| 0 <= i < after.len() ==> is_white_space(#[trigger] after[i]),
        padded@ == before + key@ + after,
        steps(export, ExportEvent::KeyFileRead(Ok(key)), next),
        steps(export, ExportEvent::KeyFileRead(Ok(padded)), next_padded),
    ensures
        forall|in_proc_keystore: S, public_key: Seq<u8>|
            next.looks_for(in_proc_keystore, public_key) == next_padded.looks_for(
                in_proc_keystore,
                public_key,
            ),
        forall|reason: Seq<char>| next.failed_with(reason) == next_padded.failed_with(reason),
{
    lemma_trimmed_is_identity(key@);
    lemma_trimmed_takes_padding_off(before, key@, after);
}

/// An export works the same whatever the runtime knows of authentication: it depends on where the
/// runtime keeps its files and on its keystore alone.
pub proof fn law_export_does_not_depend_on_authentication<P, K, S: Clone, C>(
    these: HolochainRuntime<P, K, S, C>,
    those: HolochainRuntime<P, K, S, C>,
    this: ExportSeed<S>,
)
    requires
        these.filesystem == those.filesystem,
        these.lair.in_proc_keystore == those.lair.in_proc_keystore,
    ensures
        is_beginning(this, these) == is_beginning(this, those),
{
}

/// What an export ends with is a seed of 32 bytes.
pub proof fn law_exported_seed_is_of_32_bytes<P, K, S: Clone, C>(
    runtime: HolochainRuntime<P, K, S, C>,
    states: Seq<ExportSeed<S>>,
    events: Seq<ExportEvent>,
    i: int,
)
    requires
        is_export_run(states, events),
        is_beginning(states[0], runtime),
        0 <= i < states.len(),
    ensures
        states[i] matches ExportSeed::Done(Ok(bytes)) ==> bytes@.len() == SEED_LEN,
    decreases i,
{
    if i > 0 {
        law_exported_seed_is_of_32_bytes(runtime, states, events, i - 1);
        assert(steps(states[i - 1], events[i - 1], states[i]));
    }
}

/// An event that answers no call of an export changes nothing.
pub proof fn law_stray_event_does_not_change_an_export<S>(
    export: ExportSeed<S>,
    event: ExportEvent,
    next: ExportSeed<S>,
)
    requires
        steps(export, event, next),
        !answers(export, event),
    ensures
        next == export,
{
}

/// The error is a fault with the agent seed, told by this text.
pub open spec fn is_seed_fault(error: Error, text: Seq<char>) -> bool {
    error matches Error::AgentSeedError(told) && told@ == text
}

/// An export is over after four calls, or with the first that fails: the key file is read; the
/// store of the keystore of the runtime is opened; the entry is looked up by the Ed25519 public key
/// that the key of the file holds; and its seed is decrypted, where the entry is a seed that the
/// passphrase unlocks. The export ends with exactly the bytes that were decrypted, or with what
/// went wrong and why.
pub proof fn law_export_is_over_after_four_calls<P, K, S: Clone, C>(
    runtime: HolochainRuntime<P, K, S, C>,
    states: Seq<ExportSeed<S>>,
    events: Seq<ExportEvent>,
    i: int,
)
    requires
        is_export_run(states, events),
        is_beginning(states[0], runtime),
        forall|j: int| 0 <= j < events.len() ==> answers(states[j], #[trigger] events[j]),
        0 <= i < states.len(),
    ensures
        i <= 4,
        match states[i] {
            ExportSeed::ReadKeyFile { file, in_proc_keystore } => i == 0 && file.dir
                == runtime.filesystem.app_data_dir && file.name@ == "hc-auth-agent-key"@ && cloned(
                runtime.lair.in_proc_keystore,
                in_proc_keystore,
            ),
            ExportSeed::OpenStore { in_proc_keystore, public_key } => i == 1 && cloned(
                runtime.lair.in_proc_keystore,
                in_proc_keystore,
            ) && names_key(events[0], public_key@),
            ExportSeed::FindEntry { public_key } => i == 2 && names_key(events[0], public_key@) && (
            events[1] matches ExportEvent::StoreOpened(Ok(_))),
            ExportSeed::DecryptSeed { public_key } => i == 3 && names_key(events[0], public_key@)
                && events[2] == ExportEvent::EntryFound(Ok(LairEntryKind::Seed)),
            ExportSeed::Done(Ok(bytes)) => i == 4 && (events[3] matches ExportEvent::SeedDecrypted(
                Ok(seed),
            ) && bytes@ == seed@),
            ExportSeed::Done(Err(error)) => i > 0 && match events[i - 1] {
                ExportEvent::KeyFileRead(Err(cause)) => is_seed_fault(
                    error,
                    "No agent key file found: "@ + cause@,
                ),
                ExportEvent::KeyFileRead(Ok(text)) => key_read(trimmed(text@)) matches Err(why)
                    && is_seed_fault(error, "Invalid agent key in file: "@ + why),
                ExportEvent::StoreOpened(Err(cause)) => is_seed_fault(
                    error,
                    "Failed to get Lair store: "@ + cause@,
                ),
                ExportEvent::EntryFound(Err(cause)) => is_seed_fault(
                    error,
                    "Failed to find seed entry: "@ + cause@,
                ),
                ExportEvent::EntryFound(Ok(kind)) => !(kind is Seed) && is_seed_fault(
                    error,
                    "Agent key entry is not a standard Seed"@,
                ),
                ExportEvent::SeedDecrypted(Err(cause)) => is_seed_fault(
                    error,
                    "Failed to decrypt seed: "@ + cause@,
                ),
                _ => false,
            },
        },
    decreases i,
{
    if i > 0 {
        law_export_is_over_after_four_calls(runtime, states, events, i - 1);
        assert(steps(states[i - 1], events[i - 1], states[i]));
        assert(answers(states[i - 1], events[i - 1]));
    }
}

/// The text that was read from the key file names, white space aside, a key whose Ed25519 public
/// key is this.
pub open spec fn names_key(event: ExportEvent, public_key: Seq<u8>) -> bool {
    &&& event matches ExportEvent::KeyFileRead(Ok(text))
    &&& key_read(trimmed(text@)) matches Ok(bytes)
    &&& public_key == bytes.subrange(3, 35)
}

} // verus!
