//! How the answers of the collaborators read as events: the HTTP client's to
//! the request and to each read, and the storage's to begin, write and
//! flush.

use vstd::prelude::*;
use crate::advert::UpdateAdvertisement;
use crate::session::Event;

verus! {

/// Why the storage refused an operation.
#[derive(Debug, Clone, Copy, PartialEq, Eq, Structural)]
pub enum StorageError {
    /// The image does not fit the partition it would go to.
    PartitionTooSmall,
    /// The partition table lacks the partitions an update needs.
    NotEnoughPartitions,
    /// A write or a flush came before a begin.
    NotStarted,
    /// Reading or writing the flash failed.
    Flash,
    /// The bytes written are not all, or do not have the announced checksum.
    WrongChecksum,
    /// The partitions of the table are out of order.
    PartitionOrder,
    /// The image read back from flash does not have the announced checksum.
    VerifyFailed,
    /// The running partition could not be told.
    UnknownBootPartition,
}

/// Why no response came.
#[derive(Debug, Clone, Copy, PartialEq, Eq, Structural)]
pub enum RequestError {
    /// The request ran into its timeout.
    Timeout,
    /// The connection could not be made or broke.
    Transport,
}

/// True for the errors by which the storage says that the image is not the
/// announced one.
pub open spec fn is_integrity_failure(error: StorageError) -> bool {
    error == StorageError::WrongChecksum || error == StorageError::VerifyFailed
}

/// The event that the outcome of the request stands for.
pub open spec fn request_event(outcome: Result<UpdateAdvertisement, RequestError>) -> Event {
    match outcome {
        Ok(advert) => Event::Response(advert),
        Err(RequestError::Timeout) => Event::RequestTimedOut,
        Err(RequestError::Transport) => Event::TransportFailed,
    }
}

/// The event that the outcome of a begin stands for.
pub open spec fn begin_event(outcome: Result<(), StorageError>) -> Event {
    match outcome {
        Ok(_) => Event::StorageReady,
        Err(_) => Event::StorageFailed,
    }
}

/// The event that the outcome of a read stands for: the count of bytes read,
/// or `None` for a failed read.
pub open spec fn read_event(outcome: Option<usize>) -> Event {
    match outcome {
        Some(len) => Event::ChunkRead { len },
        None => Event::TransportFailed,
    }
}

/// The event that the outcome of a chunk write stands for.
pub open spec fn write_event(outcome: Result<bool, StorageError>) -> Event {
    match outcome {
        Ok(complete) => Event::ChunkStored { complete },
        Err(_) => Event::StorageFailed,
    }
}

/// The event that the outcome of a flush stands for: a rejection where the
/// storage found the image wanting, a failure for any other error.
pub open spec fn flush_event(outcome: Result<(), StorageError>) -> Event {
    match outcome {
        Ok(_) => Event::ImageCommitted,
        Err(error) => if is_integrity_failure(error) {
            Event::ChecksumRejected
        } else {
            Event::StorageFailed
        },
    }
}

/// Reads the outcome of the request as an event.
pub fn request_outcome(outcome: Result<UpdateAdvertisement, RequestError>) -> (event: Event)
    ensures
        event == request_event(outcome),
{
    match outcome {
        Ok(advert) => Event::Response(advert),
        Err(RequestError::Timeout) => Event::RequestTimedOut,
        Err(RequestError::Transport) => Event::TransportFailed,
    }
}

/// Reads the outcome of a begin as an event.
pub fn begin_outcome(outcome: Result<(), StorageError>) -> (event: Event)
    ensures
        event == begin_event(outcome),
{
    match outcome {
        Ok(_) => Event::StorageReady,
        Err(_) => Event::StorageFailed,
    }
}

/// Reads the outcome of a read as an event.
pub fn read_outcome(outcome: Option<usize>) -> (event: Event)
    ensures
        event == read_event(outcome),
{
    match outcome {
        Some(len) => Event::ChunkRead { len },
        None => Event::TransportFailed,
    }
}

/// Reads the outcome of a chunk write as an event.
pub fn write_outcome(outcome: Result<bool, StorageError>) -> (event: Event)
    ensures
        event == write_event(outcome),
{
    match outcome {
        Ok(complete) => Event::ChunkStored { complete },
        Err(_) => Event::StorageFailed,
    }
}

/// Reads the outcome of a flush as an event.
pub fn flush_outcome(outcome: Result<(), StorageError>) -> (event: Event)
    ensures
        event == flush_event(outcome),
{
    match outcome {
        Ok(_) => Event::ImageCommitted,
        Err(StorageError::WrongChecksum) => Event::ChecksumRejected,
        Err(StorageError::VerifyFailed) => Event::ChecksumRejected,
        Err(_) => Event::StorageFailed,
    }
}

} // verus!
