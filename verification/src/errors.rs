//! Errors raised by the launcher's logic.

use vstd::prelude::*;

verus! {

/// An error raised by the launcher, with its human-readable message.
pub enum LauncherError {
    Config(String),
    Instance(String),
    Minecraft(String),
    NotFound(String),
    Java(String),
    Download(String),
    Asset(String),
    Process(String),
    Zip(String),
}

impl LauncherError {
    /// The human-readable message carried by the error.
    pub fn message(&self) -> (r: &String)
        ensures
            r == match self {
                LauncherError::Config(m) => m,
                LauncherError::Instance(m) => m,
                LauncherError::Minecraft(m) => m,
                LauncherError::NotFound(m) => m,
                LauncherError::Java(m) => m,
                LauncherError::Download(m) => m,
                LauncherError::Asset(m) => m,
                LauncherError::Process(m) => m,
                LauncherError::Zip(m) => m,
            },
    {
        match self {
            LauncherError::Config(m) => m,
            LauncherError::Instance(m) => m,
            LauncherError::Minecraft(m) => m,
            LauncherError::NotFound(m) => m,
            LauncherError::Java(m) => m,
            LauncherError::Download(m) => m,
            LauncherError::Asset(m) => m,
            LauncherError::Process(m) => m,
            LauncherError::Zip(m) => m,
        }
    }
}

} // verus!
