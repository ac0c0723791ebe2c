//! Requests to the file device that pass through unlocked and uncached.
//!
//! Each function here names the one request that the device is to carry out.
//! None of them takes the registry or a handle, so none can look at a shared
//! handle or change one; a path is handed through as it was given.

use crate::strategy::OpenMode;
use vstd::prelude::*;

verus! {

/// What a device write does after the bytes are written. The library hands
/// the value through and never looks inside.
#[derive(Clone, Copy, Debug, PartialEq, Eq, Structural)]
pub enum WriteOptions {
    /// Nothing more than the write itself.
    Plain,
    /// Flush the file.
    Flush,
    /// Sync the file's data, after a flush where the flag is set.
    Sync(bool),
    /// Sync the file's data and metadata, after a flush where the flag is set.
    SyncAll(bool),
    /// Flush, sync, and end the file after the bytes written.
    Truncate,
}

/// One request to the file device, over paths of type `P`.
#[derive(Debug, PartialEq, Eq)]
pub enum DeviceRequest<P> {
    Open { path: P, mode: OpenMode },
    CreateDir { path: P },
    RemoveFile { path: P },
    RemoveDir { path: P },
    Rename { from: P, to: P },
    CopyFile { from: P, to: P },
}

/// Opens `path` with `mode` on the device, without sharing or locking.
pub fn open<P>(path: P, mode: OpenMode) -> (request: DeviceRequest<P>)
    ensures
        request == (DeviceRequest::Open { path, mode }),
{
    DeviceRequest::Open { path, mode }
}

/// Creates the directory `path`.
pub fn create_dir<P>(path: P) -> (request: DeviceRequest<P>)
    ensures
        request == (DeviceRequest::CreateDir { path }),
{
    DeviceRequest::CreateDir { path }
}

/// Removes the file `path`.
pub fn remove_file<P>(path: P) -> (request: DeviceRequest<P>)
    ensures
        request == (DeviceRequest::RemoveFile { path }),
{
    DeviceRequest::RemoveFile { path }
}

/// Removes the directory `path`, which must be empty.
pub fn remove_dir<P>(path: P) -> (request: DeviceRequest<P>)
    ensures
        request == (DeviceRequest::RemoveDir { path }),
{
    DeviceRequest::RemoveDir { path }
}

/// Renames the file or directory `from` to `to`.
pub fn rename<P>(from: P, to: P) -> (request: DeviceRequest<P>)
    ensures
        request == (DeviceRequest::Rename { from, to }),
{
    DeviceRequest::Rename { from, to }
}

/// Copies the file `from` to `to`.
pub fn copy_file<P>(from: P, to: P) -> (request: DeviceRequest<P>)
    ensures
        request == (DeviceRequest::CopyFile { from, to }),
{
    DeviceRequest::CopyFile { from, to }
}

/// Removes the directory `path`. This removes one level only: it asks the
/// device for the same removal as `remove_dir`, so a directory that still has
/// entries is left to the device to refuse.
pub fn remove_dir_all<P>(path: P) -> (request: DeviceRequest<P>)
    ensures
        request == (DeviceRequest::RemoveDir { path }),
{
    DeviceRequest::RemoveDir { path }
}

} // verus!
