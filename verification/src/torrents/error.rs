//! Failures of adding a torrent.

use vstd::prelude::*;

verus! {

/// Why a torrent could not be added or used.
#[derive(Clone, Copy, Debug, PartialEq, Eq, Structural)]
pub enum TorrentError {
    AddTorrentError,
    TorrentAlreadyAdded,
    TorrentInitializationFailed,
    FailedToAcquireStream,
}

impl TorrentError {
    /// The HTTP status that goes with the failure.
    pub open spec fn spec_status(self) -> u16 {
        match self {
            TorrentError::TorrentAlreadyAdded => 409,
            _ => 500,
        }
    }

    /// The stable machine-readable code of the failure.
    pub open spec fn spec_code(self) -> Seq<char> {
        match self {
            TorrentError::AddTorrentError => "add_torrent_error"@,
            TorrentError::TorrentAlreadyAdded => "torrent_already_added"@,
            TorrentError::TorrentInitializationFailed => "torrent_initialization_failed"@,
            TorrentError::FailedToAcquireStream => "failed_to_acquire_stream"@,
        }
    }

    /// The human-readable message of the failure.
    pub open spec fn spec_message(self) -> Seq<char> {
        match self {
            TorrentError::AddTorrentError => "Error adding torrents"@,
            TorrentError::TorrentAlreadyAdded => "Torrent already added"@,
            TorrentError::TorrentInitializationFailed => "Failed to initialize torrents"@,
            TorrentError::FailedToAcquireStream => "Failed to acquire stream"@,
        }
    }

    /// The HTTP status and the machine-readable code of the failure.
    pub fn get_codes(&self) -> (r: (u16, &'static str))
        ensures
            r.0 == self.spec_status(),
            r.1@ == self.spec_code(),
    {
        match self {
            TorrentError::AddTorrentError => (500, "add_torrent_error"),
            TorrentError::TorrentAlreadyAdded => (409, "torrent_already_added"),
            TorrentError::TorrentInitializationFailed => (500, "torrent_initialization_failed"),
            TorrentError::FailedToAcquireStream => (500, "failed_to_acquire_stream"),
        }
    }

    /// The human-readable message of the failure.
    pub fn message(&self) -> (r: &'static str)
        ensures
            r@ == self.spec_message(),
    {
        match self {
            TorrentError::AddTorrentError => "Error adding torrents",
            TorrentError::TorrentAlreadyAdded => "Torrent already added",
            TorrentError::TorrentInitializationFailed => "Failed to initialize torrents",
            TorrentError::FailedToAcquireStream => "Failed to acquire stream",
        }
    }
}

/// What the engine answered when asked to add a torrent.
#[derive(Clone, Copy, Debug, PartialEq, Eq, Structural)]
pub enum AddOutcome {
    /// The torrent was added.
    Added,
    /// The engine already manages the torrent.
    AlreadyManaged,
    /// The engine only listed the torrent's files.
    ListOnly,
    /// The engine failed.
    Failed,
}

/// The answer to a request to add a torrent, given what the engine answered.
pub open spec fn add_torrent_answer(outcome: AddOutcome) -> Result<(), TorrentError> {
    match outcome {
        AddOutcome::Added => Ok(()),
        AddOutcome::AlreadyManaged => Err(TorrentError::TorrentAlreadyAdded),
        AddOutcome::ListOnly => Err(TorrentError::AddTorrentError),
        AddOutcome::Failed => Err(TorrentError::AddTorrentError),
    }
}

/// Answers a request to add a torrent from what the engine answered.
pub fn add_torrent_with_magnet(outcome: AddOutcome) -> (answer: Result<(), TorrentError>)
    ensures
        answer == add_torrent_answer(outcome),
{
    match outcome {
        AddOutcome::Added => Ok(()),
        AddOutcome::AlreadyManaged => Err(TorrentError::TorrentAlreadyAdded),
        AddOutcome::ListOnly => Err(TorrentError::AddTorrentError),
        AddOutcome::Failed => Err(TorrentError::AddTorrentError),
    }
}

} // verus!
