//! The shared file handle and the decisions of its reads and writes.
//!
//! A handle never waits and never touches the device itself. Each operation
//! is a conversation: the caller reports an event, the handle answers with
//! the next action, and the caller carries that action out (takes a lock,
//! calls the device) and reports how it went. Every call of `read` or `write`
//! is one short critical section over the handle's state.

use crate::buffer::{BufferView, CoalescingBuffer};
use crate::device::WriteOptions;
use crate::registry::{HandleRegistry, Registration, RegistryView};
use crate::strategy::{LockMode, LockStrategy, OpenMode};
use std::sync::Arc;
use vstd::prelude::*;

verus! {

/// A handle's state, as mathematics.
pub struct HandleView {
    /// Fixed when the handle is opened.
    pub strategy: LockStrategy,
    /// Used under the single-writer strategy only.
    pub buffer: BufferView,
}

/// The state that all holders of one open file share: its lock strategy and
/// its coalescing buffer.
#[derive(Debug, PartialEq, Eq)]
pub struct SafeFile {
    strategy: LockStrategy,
    buffer: CoalescingBuffer,
}

impl View for SafeFile {
    type V = HandleView;

    closed spec fn view(&self) -> HandleView {
        HandleView { strategy: self.strategy, buffer: self.buffer@ }
    }
}

/// What the caller of `write` reports.
#[derive(Debug, PartialEq, Eq)]
pub enum WriteEvent<E> {
    /// A write of `data` at `pos` is asked for.
    Issued { pos: u64, data: Arc<Vec<u8>>, options: WriteOptions },
    /// The lock that `WriteAction::Lock` asked for is held.
    Locked { pos: u64, data: Arc<Vec<u8>>, options: WriteOptions },
    /// The device write that `WriteAction::Device` asked for has ended.
    Written { fence: usize, result: Result<usize, E> },
}

/// What `write` asks of its caller.
#[derive(Debug, PartialEq, Eq)]
pub enum WriteAction<E> {
    /// Take the handle's lock in `mode`, keep it until the write is done, and
    /// report `Locked` with the same position, bytes and options.
    Lock { mode: LockMode, pos: u64, data: Arc<Vec<u8>>, options: WriteOptions },
    /// Write `data` at `pos` on the device with `options`, and report
    /// `Written` with the same fence and the device's result.
    Device { pos: u64, data: Arc<Vec<u8>>, options: WriteOptions, fence: usize },
    /// The write is over, with this result.
    Done(Result<usize, E>),
}

/// A write event, as mathematics.
pub enum WriteEventView<E> {
    Issued { pos: nat, data: Seq<u8>, options: WriteOptions },
    Locked { pos: nat, data: Seq<u8>, options: WriteOptions },
    Written { fence: nat, result: Result<nat, E> },
}

/// A write action, as mathematics.
pub enum WriteActionView<E> {
    Lock { mode: LockMode, pos: nat, data: Seq<u8>, options: WriteOptions },
    Device { pos: nat, data: Seq<u8>, options: WriteOptions, fence: nat },
    Done(Result<nat, E>),
}

/// The view of a byte count or an error.
pub open spec fn count_view<E>(result: Result<usize, E>) -> Result<nat, E> {
    match result {
        Ok(n) => Ok(n as nat),
        Err(e) => Err(e),
    }
}

/// The view of bytes or an error.
pub open spec fn bytes_view<E>(result: Result<Vec<u8>, E>) -> Result<Seq<u8>, E> {
    match result {
        Ok(bytes) => Ok(bytes@),
        Err(e) => Err(e),
    }
}

impl<E> View for WriteEvent<E> {
    type V = WriteEventView<E>;

    open spec fn view(&self) -> WriteEventView<E> {
        match *self {
            WriteEvent::Issued { pos, data, options } => WriteEventView::Issued {
                pos: pos as nat,
                data: data@,
                options,
            },
            WriteEvent::Locked { pos, data, options } => WriteEventView::Locked {
                pos: pos as nat,
                data: data@,
                options,
            },
            WriteEvent::Written { fence, result } => WriteEventView::Written {
                fence: fence as nat,
                result: count_view(result),
            },
        }
    }
}

impl<E> View for WriteAction<E> {
    type V = WriteActionView<E>;

    open spec fn view(&self) -> WriteActionView<E> {
        match *self {
            WriteAction::Lock { mode, pos, data, options } => WriteActionView::Lock {
                mode,
                pos: pos as nat,
                data: data@,
                options,
            },
            WriteAction::Device { pos, data, options, fence } => WriteActionView::Device {
                pos: pos as nat,
                data: data@,
                options,
                fence: fence as nat,
            },
            WriteAction::Done(result) => WriteActionView::Done(count_view(result)),
        }
    }
}

/// What the caller of `read` reports.
#[derive(Debug, PartialEq, Eq)]
pub enum ReadEvent<E> {
    /// A read of `len` bytes at `pos` is asked for.
    Issued { pos: u64, len: usize },
    /// The lock that `ReadAction::Lock` asked for is held.
    Locked { pos: u64, len: usize },
    /// The device read that `ReadAction::Device` or `ReadAction::DeviceAll`
    /// asked for has ended.
    Fetched(Result<Vec<u8>, E>),
}

/// What `read` asks of its caller.
#[derive(Debug, PartialEq, Eq)]
pub enum ReadAction<E> {
    /// Take the handle's lock in `mode`, keep it until the read is done, and
    /// report `Locked` with the same position and length.
    Lock { mode: LockMode, pos: u64, len: usize },
    /// Read `len` bytes at `pos` from the device and report `Fetched`.
    Device { pos: u64, len: usize },
    /// Read the whole file from the device and report `Fetched`.
    DeviceAll,
    /// The read is over, with this result.
    Done(Result<Vec<u8>, E>),
}

/// A read event, as mathematics.
pub enum ReadEventView<E> {
    Issued { pos: nat, len: nat },
    Locked { pos: nat, len: nat },
    Fetched(Result<Seq<u8>, E>),
}

/// A read action, as mathematics.
pub enum ReadActionView<E> {
    Lock { mode: LockMode, pos: nat, len: nat },
    Device { pos: nat, len: nat },
    DeviceAll,
    Done(Result<Seq<u8>, E>),
}

impl<E> View for ReadEvent<E> {
    type V = ReadEventView<E>;

    open spec fn view(&self) -> ReadEventView<E> {
        match *self {
            ReadEvent::Issued { pos, len } => ReadEventView::Issued {
                pos: pos as nat,
                len: len as nat,
            },
            ReadEvent::Locked { pos, len } => ReadEventView::Locked {
                pos: pos as nat,
                len: len as nat,
            },
            ReadEvent::Fetched(result) => ReadEventView::Fetched(bytes_view(result)),
        }
    }
}

impl<E> View for ReadAction<E> {
    type V = ReadActionView<E>;

    open spec fn view(&self) -> ReadActionView<E> {
        match *self {
            ReadAction::Lock { mode, pos, len } => ReadActionView::Lock {
                mode,
                pos: pos as nat,
                len: len as nat,
            },
            ReadAction::Device { pos, len } => ReadActionView::Device {
                pos: pos as nat,
                len: len as nat,
            },
            ReadAction::DeviceAll => ReadActionView::DeviceAll,
            ReadAction::Done(result) => ReadActionView::Done(bytes_view(result)),
        }
    }
}

/// What the caller of `open` reports. `alive` says whether the handle now
/// registered under the path, if any, still has a holder; the caller looks it
/// up and finds out while it holds the registry.
#[derive(Debug, PartialEq, Eq)]
pub enum OpenEvent<E> {
    /// An open is asked for.
    Requested { alive: bool },
    /// The device open that `OpenAction::DeviceOpen` asked for succeeded.
    Opened { alive: bool },
    /// The device open that `OpenAction::DeviceOpen` asked for failed.
    Failed(E),
}

/// What `open` asks of its caller.
#[derive(Debug, PartialEq, Eq)]
pub enum OpenAction<E> {
    /// Hand out the handle `id`, which has a holder. A file that the caller
    /// opened meanwhile is dropped.
    Share { id: u64 },
    /// Let go of the registry, open the file on the device and report
    /// `Opened` or `Failed`.
    DeviceOpen,
    /// The file that the caller opened becomes the handle `id`, with `file`
    /// as its state. `replaced` is the stale handle that the path had before,
    /// if any.
    Adopt { id: u64, file: SafeFile, replaced: Option<u64> },
    /// The open failed with the device's error.
    Fail(E),
}

/// An open action, as mathematics.
pub enum OpenActionView<E> {
    Share { id: u64 },
    DeviceOpen,
    Adopt { id: u64, file: HandleView, replaced: Option<u64> },
    Fail(E),
}

impl<E> View for OpenAction<E> {
    type V = OpenActionView<E>;

    open spec fn view(&self) -> OpenActionView<E> {
        match *self {
            OpenAction::Share { id } => OpenActionView::Share { id },
            OpenAction::DeviceOpen => OpenActionView::DeviceOpen,
            OpenAction::Adopt { id, file, replaced } => OpenActionView::Adopt {
                id,
                file: file@,
                replaced,
            },
            OpenAction::Fail(e) => OpenActionView::Fail(e),
        }
    }
}

/// Whether `event` has a new handle registered under `path`: it reports a
/// device open that succeeded, and `path` has no handle with a holder.
pub open spec fn registers<E>(registry: RegistryView, path: Seq<u8>, event: OpenEvent<E>) -> bool {
    &&& event matches OpenEvent::Opened { alive }
    &&& registry.live(path, alive) is None
}

/// One step of an open of `path` with `mode`: the registry after `event` and
/// the action it calls for.
///
/// A request is answered with the handle registered under `path` if that
/// handle still has a holder, else with a device open. A device open that
/// failed ends the open with the device's error and registers nothing. One
/// that succeeded is offered to the registry: a handle that was registered
/// meanwhile and has a holder wins, else the new file becomes a new handle
/// whose lock strategy `mode` selects.
pub open spec fn open_step<E>(
    registry: RegistryView,
    path: Seq<u8>,
    mode: OpenMode,
    event: OpenEvent<E>,
) -> (RegistryView, OpenActionView<E>) {
    match event {
        OpenEvent::Requested { alive } => {
            match registry.live(path, alive) {
                Some(id) => (registry, OpenActionView::Share { id }),
                None => (registry, OpenActionView::DeviceOpen),
            }
        },
        OpenEvent::Opened { alive } => {
            match registry.registered(path, alive) {
                (next, Registration::Existing { id }) => (next, OpenActionView::Share { id }),
                (next, Registration::Fresh { id, replaced }) => (
                    next,
                    OpenActionView::Adopt { id, file: HandleView::fresh(mode), replaced },
                ),
            }
        },
        OpenEvent::Failed(e) => (registry, OpenActionView::Fail(e)),
    }
}

impl HandleView {
    /// The state of a handle that was just opened with `mode`.
    pub open spec fn fresh(mode: OpenMode) -> HandleView {
        HandleView { strategy: LockStrategy::for_mode(mode), buffer: BufferView::empty() }
    }

    /// This state with another buffer.
    pub open spec fn with_buffer(self, buffer: BufferView) -> HandleView {
        HandleView { strategy: self.strategy, buffer }
    }

    /// Whether `event` has its bytes staged in the buffer: it issues a write
    /// that is not empty, under the single-writer strategy.
    pub open spec fn stages<E>(self, event: WriteEventView<E>) -> bool {
        &&& self.strategy == LockStrategy::SingleWriter
        &&& event matches WriteEventView::Issued { data, .. }
        &&& data.len() > 0
    }

    /// One step of a write: the state after `event` and the action it calls
    /// for.
    ///
    /// An empty write ends at once with zero bytes. Under the shared-exclusive
    /// strategy the write takes the exclusive lock and goes to the device as
    /// it was given. Under the single-writer strategy the bytes replace the
    /// whole file: they are staged before the lock is asked for; once the lock
    /// is held, a clean buffer means that another writer has already carried
    /// this payload to the device, and a dirty one sends the latest payload to
    /// the device from position zero; a successful device write clears the
    /// buffer's version only if it is still the one that was sent.
    pub open spec fn write_step<E>(self, event: WriteEventView<E>) -> (
        HandleView,
        WriteActionView<E>,
    ) {
        match event {
            WriteEventView::Issued { pos, data, options } => {
                if data.len() == 0 {
                    (self, WriteActionView::Done(Ok(0)))
                } else {
                    let next = match self.strategy {
                        LockStrategy::SharedExclusive => self,
                        LockStrategy::SingleWriter => self.with_buffer(self.buffer.staged(data)),
                    };
                    (
                        next,
                        WriteActionView::Lock {
                            mode: self.strategy.write_mode(),
                            pos,
                            data,
                            options,
                        },
                    )
                }
            },
            WriteEventView::Locked { pos, data, options } => {
                match self.strategy {
                    LockStrategy::SharedExclusive => (
                        self,
                        WriteActionView::Device { pos, data, options, fence: 0 },
                    ),
                    LockStrategy::SingleWriter => {
                        if self.buffer.version == 0 {
                            (self, WriteActionView::Done(Ok(self.buffer.payload.len())))
                        } else {
                            (
                                self,
                                WriteActionView::Device {
                                    pos: 0,
                                    data: self.buffer.payload,
                                    options,
                                    fence: self.buffer.version,
                                },
                            )
                        }
                    },
                }
            },
            WriteEventView::Written { fence, result } => {
                let next = match (self.strategy, result) {
                    (LockStrategy::SingleWriter, Ok(_)) => self.with_buffer(
                        self.buffer.flushed(fence),
                    ),
                    _ => self,
                };
                (next, WriteActionView::Done(result))
            },
        }
    }

    /// One step of a read: the state after `event` and the action it calls
    /// for.
    ///
    /// A read of no bytes ends at once with an empty result. Under the
    /// shared-exclusive strategy the read takes the shared lock and goes to
    /// the device as it was given. Under the single-writer strategy the read
    /// takes the exclusive lock; a buffer that holds content answers with the
    /// asked range of it, clipped to its bounds, and an empty one has the whole
    /// file read from the device, handed back, and kept as the payload unless
    /// a write is pending.
    pub open spec fn read_step<E>(self, event: ReadEventView<E>) -> (
        HandleView,
        ReadActionView<E>,
    ) {
        match event {
            ReadEventView::Issued { pos, len } => {
                if len == 0 {
                    (self, ReadActionView::Done(Ok(Seq::empty())))
                } else {
                    (self, ReadActionView::Lock { mode: self.strategy.read_mode(), pos, len })
                }
            },
            ReadEventView::Locked { pos, len } => {
                match self.strategy {
                    LockStrategy::SharedExclusive => (self, ReadActionView::Device { pos, len }),
                    LockStrategy::SingleWriter => {
                        if self.buffer.payload.len() > 0 {
                            (self, ReadActionView::Done(Ok(self.buffer.range(pos, len))))
                        } else {
                            (self, ReadActionView::DeviceAll)
                        }
                    },
                }
            },
            ReadEventView::Fetched(result) => {
                let next = match (self.strategy, result) {
                    (LockStrategy::SingleWriter, Ok(content)) => self.with_buffer(
                        self.buffer.fetched(content),
                    ),
                    _ => self,
                };
                (next, ReadActionView::Done(result))
            },
        }
    }
}

impl SafeFile {
    /// The state of a handle that was just opened with `mode`: the strategy
    /// that `mode` selects, and an empty, clean buffer.
    pub fn new(mode: OpenMode) -> (file: SafeFile)
        ensures
            file@ == HandleView::fresh(mode),
    {
        SafeFile { strategy: LockStrategy::select(mode), buffer: CoalescingBuffer::new() }
    }

    /// The handle's lock strategy.
    pub fn strategy(&self) -> (strategy: LockStrategy)
        ensures
            strategy == self@.strategy,
    {
        self.strategy
    }

    /// The handle's buffer.
    pub fn buffer(&self) -> (buffer: &CoalescingBuffer)
        ensures
            buffer@ == self@.buffer,
    {
        &self.buffer
    }

    /// Whether the handle can accept another write: its version counter has
    /// room.
    pub fn has_room(&self) -> (room: bool)
        ensures
            room == (self@.buffer.version < usize::MAX),
    {
        self.buffer.has_room()
    }

    /// Takes one step of a write and says what the caller does next.
    ///
    /// A write that is staged needs room in the version counter.
    pub fn write<E>(&mut self, event: WriteEvent<E>) -> (action: WriteAction<E>)
        requires
            old(self)@.stages(event@) ==> old(self)@.buffer.version < usize::MAX,
        ensures
            (final(self)@, action@) == old(self)@.write_step(event@),
    {
        match event {
            WriteEvent::Issued { pos, data, options } => {
                if data.len() == 0 {
                    WriteAction::Done(Ok(0))
                } else {
                    match self.strategy {
                        LockStrategy::SharedExclusive => {},
                        LockStrategy::SingleWriter => {
                            self.buffer.stage(data.clone());
                        },
                    }
                    WriteAction::Lock { mode: self.strategy.lock_for_write(), pos, data, options }
                }
            },
            WriteEvent::Locked { pos, data, options } => {
                match self.strategy {
                    LockStrategy::SharedExclusive => WriteAction::Device {
                        pos,
                        data,
                        options,
                        fence: 0,
                    },
                    LockStrategy::SingleWriter => {
                        let (payload, version) = self.buffer.snapshot();
                        if version == 0 {
                            WriteAction::Done(Ok(payload.len()))
                        } else {
                            WriteAction::Device { pos: 0, data: payload, options, fence: version }
                        }
                    },
                }
            },
            WriteEvent::Written { fence, result } => {
                match result {
                    Ok(n) => {
                        match self.strategy {
                            LockStrategy::SharedExclusive => {},
                            LockStrategy::SingleWriter => {
                                self.buffer.confirm_flush(fence);
                            },
                        }
                        WriteAction::Done(Ok(n))
                    },
                    Err(e) => WriteAction::Done(Err(e)),
                }
            },
        }
    }

    /// Takes one step of a read and says what the caller does next.
    pub fn read<E>(&mut self, event: ReadEvent<E>) -> (action: ReadAction<E>)
        ensures
            (final(self)@, action@) == old(self)@.read_step(event@),
    {
        match event {
            ReadEvent::Issued { pos, len } => {
                if len == 0 {
                    ReadAction::Done(Ok(Vec::new()))
                } else {
                    ReadAction::Lock { mode: self.strategy.lock_for_read(), pos, len }
                }
            },
            ReadEvent::Locked { pos, len } => {
                match self.strategy {
                    LockStrategy::SharedExclusive => ReadAction::Device { pos, len },
                    LockStrategy::SingleWriter => {
                        if self.buffer.holds_content() {
                            ReadAction::Done(Ok(self.buffer.read_range(pos, len)))
                        } else {
                            ReadAction::DeviceAll
                        }
                    },
                }
            },
            ReadEvent::Fetched(result) => {
                match result {
                    Ok(content) => {
                        match self.strategy {
                            LockStrategy::SharedExclusive => {},
                            LockStrategy::SingleWriter => {
                                self.buffer.store_fetched(&content);
                            },
                        }
                        ReadAction::Done(Ok(content))
                    },
                    Err(e) => ReadAction::Done(Err(e)),
                }
            },
        }
    }

    /// Takes one step of an open of `path` with `mode` and says what the
    /// caller does next.
    ///
    /// Registering a new handle needs room in the registry's counter.
    pub fn open<E>(
        registry: &mut HandleRegistry,
        path: &[u8],
        mode: OpenMode,
        event: OpenEvent<E>,
    ) -> (action: OpenAction<E>)
        requires
            registers(old(registry)@, path@, event) ==> old(registry)@.issued < u64::MAX,
        ensures
            (final(registry)@, action@) == open_step(old(registry)@, path@, mode, event),
            old(registry)@.valid() ==> final(registry)@.valid(),
    {
        match event {
            OpenEvent::Requested { alive } => {
                match registry.lookup(path) {
                    Some(id) if alive => OpenAction::Share { id },
                    _ => OpenAction::DeviceOpen,
                }
            },
            OpenEvent::Opened { alive } => {
                match registry.register(path, alive) {
                    Registration::Existing { id } => OpenAction::Share { id },
                    Registration::Fresh { id, replaced } => OpenAction::Adopt {
                        id,
                        file: SafeFile::new(mode),
                        replaced,
                    },
                }
            },
            OpenEvent::Failed(e) => OpenAction::Fail(e),
        }
    }
}

} // verus!
