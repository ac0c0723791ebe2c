//! Concurrency-safe file handles: one shared handle per path, with a lock
//! strategy fixed when the handle is opened.
//!
//! The library decides and never waits. A caller that owns the locks and the
//! file device drives each operation: it reports what happened and carries
//! out what the library answers.

pub mod buffer;
pub mod device;
pub mod guarantees;
pub mod handle;
pub mod registry;
pub mod runtime;
pub mod strategy;

pub use buffer::CoalescingBuffer;
pub use device::{
    copy_file, create_dir, open, remove_dir, remove_dir_all, remove_file, rename, DeviceRequest,
    WriteOptions,
};
pub use handle::{
    OpenAction, OpenEvent, ReadAction, ReadEvent, SafeFile, WriteAction, WriteEvent,
};
pub use registry::{collect, HandleRegistry, Registration};
pub use runtime::RuntimeConfig;
pub use strategy::{LockMode, LockStrategy, OpenMode};
