//! The messages between the game and the engine: which driver a car gets,
//! and what the player asks of the artifact server.

use vstd::prelude::*;
use vstd::string::StringExecFns;
use crate::text::{append_decimal, decimal};

verus! {

/// Who drives a car.
#[derive(Clone, Copy, Debug, PartialEq, Eq, Structural)]
pub enum DriverType {
    /// The program image that the artifact server keeps under `id`.
    RemoteArtifact { id: i64 },
}

impl DriverType {
    /// The text of the label: `Artifact: #` and the identifier in decimal.
    pub open spec fn spec_label(&self) -> Seq<char> {
        match self {
            DriverType::RemoteArtifact { id } => "Artifact: #"@ + decimal(*id as int),
        }
    }

    /// The label that the player sees for this driver.
    pub fn label(&self) -> (text: String)
        ensures
            text@ == self.spec_label(),
    {
        match self {
            DriverType::RemoteArtifact { id } => {
                let mut text: String = String::from_str("Artifact: #");
                append_decimal(&mut text, *id);
                text
            },
        }
    }
}

/// The player asks for a car with the given driver.
#[derive(Clone, Copy, Debug, PartialEq, Eq, Structural)]
pub struct SpawnCarRequest {
    /// Who is to drive.
    pub driver: DriverType,
}

/// A car can be spawned: the image of its driver has arrived.
#[derive(Debug)]
pub struct SpawnResolvedCarRequest {
    /// Who is to drive.
    pub driver: DriverType,
    /// The program image of the driver.
    pub elf_bytes: Vec<u8>,
    /// The name under which the image was fetched.
    pub binary_name: String,
}

/// What the player asks of the artifact server.
#[derive(Clone, Copy, Debug, PartialEq, Eq, Structural)]
pub enum WebApiCommand {
    /// Ask the server what it requires of its clients.
    RefreshCapabilities,
    /// Fetch the list of artifacts.
    LoadArtifacts,
    /// Pick a file and upload it.
    UploadArtifact,
    /// Delete the artifact `id`.
    DeleteArtifact { id: i64 },
    /// Make the artifact `id` public or private.
    SetArtifactVisibility { id: i64, is_public: bool },
}

} // verus!
