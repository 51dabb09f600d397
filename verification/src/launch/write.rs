//! Writing the configuration of the conductor to disk, for other tools to find its layout there.
//!
//! The error of writing a file is carried through as it is, so it is a type parameter, `E`.
use super::config::CONDUCTOR_CONFIG_FILE;
use crate::paths::FileName;
use std::path::PathBuf;
use vstd::prelude::*;

verus! {

/// Why the configuration could not be written.
#[derive(Debug, PartialEq, Eq)]
pub enum WriteError<E> {
    /// It could not be put into YAML: an I/O error of the kind `Other`, with the text of its cause.
    Other(String),
    /// The file could not be written.
    Io(E),
}

/// Where writing the configuration is: the call to make next, or how it ended.
#[derive(Debug, PartialEq, Eq)]
pub enum WriteConductorConfig<E> {
    /// Write the file, with exactly these contents.
    Write { file: FileName, contents: String },
    /// It is over.
    Done(Result<(), WriteError<E>>),
}

/// What came of writing the file.
#[derive(Debug, PartialEq, Eq)]
pub enum WriteEvent<E> {
    Written(Result<(), E>),
}

/// Where writing begins, with the configuration in YAML; where it could not be put into YAML, it is
/// over, and no file is written.
pub open spec fn write_begins<E>(
    write: WriteConductorConfig<E>,
    app_data_dir: PathBuf,
    yaml: Result<String, String>,
) -> bool {
    match yaml {
        Ok(contents) => write == (WriteConductorConfig::<E>::Write {
            file: FileName { dir: app_data_dir, name: CONDUCTOR_CONFIG_FILE },
            contents,
        }),
        Err(cause) => write == WriteConductorConfig::<E>::Done(Err(WriteError::Other(cause))),
    }
}

/// Where writing is after the event: how the file was written is how it ends, once.
pub open spec fn write_next<E>(
    write: WriteConductorConfig<E>,
    event: WriteEvent<E>,
) -> WriteConductorConfig<E> {
    match (write, event) {
        (WriteConductorConfig::Write { .. }, WriteEvent::Written(Ok(()))) =>
        WriteConductorConfig::Done(Ok(())),
        (WriteConductorConfig::Write { .. }, WriteEvent::Written(Err(error))) =>
        WriteConductorConfig::Done(Err(WriteError::Io(error))),
        _ => write,
    }
}

/// Begins to write the configuration of the conductor, in YAML, into the data directory.
pub fn write_conductor_config<E>(
    app_data_dir: &PathBuf,
    yaml: Result<String, String>,
) -> (write: WriteConductorConfig<E>)
    ensures
        write_begins(write, *app_data_dir, yaml),
{
    match yaml {
        Ok(contents) => {
            let file = FileName { dir: app_data_dir.clone(), name: CONDUCTOR_CONFIG_FILE };
            WriteConductorConfig::Write { file, contents }
        },
        Err(cause) => WriteConductorConfig::Done(Err(WriteError::Other(cause))),
    }
}

impl<E> WriteConductorConfig<E> {
    /// Takes what came of the call that it is at, and gives where it is then.
    pub fn advance(self, event: WriteEvent<E>) -> (next: WriteConductorConfig<E>)
        ensures
            next == write_next(self, event),
    {
        match (self, event) {
            (WriteConductorConfig::Write { .. }, WriteEvent::Written(written)) => match written {
                Ok(done) => WriteConductorConfig::Done(Ok(done)),
                Err(error) => WriteConductorConfig::Done(Err(WriteError::Io(error))),
            },
            (write, _) => write,
        }
    }
}

/// The states that writing goes through, and the events that take it from each to the next.
pub open spec fn is_run<E>(
    states: Seq<WriteConductorConfig<E>>,
    events: Seq<WriteEvent<E>>,
) -> bool {
    &&& states.len() == events.len() + 1
    &&& forall|i: int|
        0 <= i < events.len() ==> states[i + 1] == write_next(states[i], #[trigger] events[i])
}

/// Writing ends with success only once the configuration file, and no other, was written with
/// exactly the configuration in YAML. It fails with an error of the kind `Other` exactly where
/// there is no YAML, and then no file is written; and else with the error of writing the file.
pub proof fn law_config_file_holds_the_yaml<E>(
    app_data_dir: PathBuf,
    yaml: Result<String, String>,
    states: Seq<WriteConductorConfig<E>>,
    events: Seq<WriteEvent<E>>,
    i: int,
)
    requires
        is_run(states, events),
        write_begins(states[0], app_data_dir, yaml),
        0 <= i < states.len(),
    ensures
        match states[i] {
            WriteConductorConfig::Write { file, contents } => yaml == Ok::<String, String>(contents)
                && file == (FileName { dir: app_data_dir, name: CONDUCTOR_CONFIG_FILE }),
            WriteConductorConfig::Done(Ok(_)) => yaml is Ok && exists|j: int|
                0 <= j < i && states[j] is Write && (#[trigger] events[j] matches
                    WriteEvent::Written(Ok(_))),
            WriteConductorConfig::Done(Err(WriteError::Other(cause))) => yaml == Err::<
                String,
                String,
            >(cause) && states[i] == states[0],
            WriteConductorConfig::Done(Err(WriteError::Io(error))) => yaml is Ok && exists|j: int|
                0 <= j < i && states[j] is Write && #[trigger] events[j] == WriteEvent::Written(
                    Err::<(), E>(error),
                ),
        },
    decreases i,
{
    if i > 0 {
        law_config_file_holds_the_yaml(app_data_dir, yaml, states, events, i - 1);
        assert(states[i] == write_next(states[i - 1], events[i - 1]));
    }
}

/// Writing takes one call where there is YAML, and none where there is not: how the first write of
/// the file went, with success or with its error, is how writing ends, and later events do not
/// change it.
pub proof fn law_first_write_is_how_writing_ends<E>(
    app_data_dir: PathBuf,
    yaml: Result<String, String>,
    states: Seq<WriteConductorConfig<E>>,
    events: Seq<WriteEvent<E>>,
    i: int,
)
    requires
        is_run(states, events),
        write_begins(states[0], app_data_dir, yaml),
        0 <= i < states.len(),
    ensures
        match states[i] {
            WriteConductorConfig::Write { file, contents } => i == 0 && yaml == Ok::<
                String,
                String,
            >(contents) && file.dir == app_data_dir && file.name@ == "conductor-config.yaml"@,
            WriteConductorConfig::Done(result) => match yaml {
                Ok(_) => i > 0 && match events[0] {
                    WriteEvent::Written(Ok(_)) => result is Ok,
                    WriteEvent::Written(Err(error)) => result == Err::<(), WriteError<E>>(
                        WriteError::Io(error),
                    ),
                },
                Err(cause) => result == Err::<(), WriteError<E>>(WriteError::Other(cause)),
            },
        },
    decreases i,
{
    if i > 0 {
        law_first_write_is_how_writing_ends(app_data_dir, yaml, states, events, i - 1);
        assert(states[i] == write_next(states[i - 1], events[i - 1]));
    }
}

} // verus!
