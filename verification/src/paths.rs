//! The directories of the runtime, and the files it writes into them.
use std::path::PathBuf;
use vstd::prelude::*;

verus! {

/// `std::path::PathBuf`, carried through as it is.
#[verifier::external_type_specification]
#[verifier::external_body]
pub struct ExPathBuf(std::path::PathBuf);

/// `Clone` of `std::path::PathBuf`: the copy is the same path.
pub assume_specification[ <std::path::PathBuf as Clone>::clone ](
    path: &std::path::PathBuf,
) -> (copy: std::path::PathBuf)
    ensures
        copy == *path,
;

/// Where the runtime keeps its files.
#[derive(Debug, PartialEq, Eq)]
pub struct FileSystem {
    /// The directory that everything else is in.
    pub app_data_dir: PathBuf,
    /// The directory of the conductor's databases.
    pub conductor_dir: PathBuf,
    /// The directory of the keystore.
    pub keystore_dir: PathBuf,
    /// The configuration file of the keystore.
    pub keystore_config_path: PathBuf,
}

impl Clone for FileSystem {
    fn clone(&self) -> (copy: FileSystem)
        ensures
            copy == *self,
    {
        FileSystem {
            app_data_dir: self.app_data_dir.clone(),
            conductor_dir: self.conductor_dir.clone(),
            keystore_dir: self.keystore_dir.clone(),
            keystore_config_path: self.keystore_config_path.clone(),
        }
    }
}

/// A file by its directory and its name in it.
#[derive(Debug, PartialEq, Eq)]
pub struct FileName {
    pub dir: PathBuf,
    pub name: &'static str,
}

} // verus!
