//! What the handle and the registry guarantee, stated over their step
//! functions and proved.

use crate::device::WriteOptions;
use crate::handle::{
    open_step, HandleView, OpenActionView, OpenEvent, ReadActionView, ReadEventView,
    WriteActionView, WriteEventView,
};
use crate::registry::RegistryView;
use crate::strategy::{LockMode, LockStrategy, OpenMode};
use vstd::prelude::*;

verus! {

/// The handle that an open action hands to its caller, if it hands out one.
pub open spec fn handed_out<E>(action: OpenActionView<E>) -> Option<u64> {
    match action {
        OpenActionView::Share { id } => Some(id),
        OpenActionView::Adopt { id, .. } => Some(id),
        _ => None,
    }
}

/// An open event whose caller saw a holder on the registered handle, or that
/// carries no such observation.
pub open spec fn sees_holder<E>(event: OpenEvent<E>) -> bool {
    match event {
        OpenEvent::Requested { alive } => alive,
        OpenEvent::Opened { alive } => alive,
        OpenEvent::Failed(_) => true,
    }
}

/// Opens of one path share one handle. Once an open of `path` has handed out
/// a handle, every later step of another open of `path` that finds the handle
/// still held hands out that same handle, registers nothing and adopts no
/// second file, whether it had already opened a file of its own or not.
pub proof fn opens_share_one_handle<E>(
    registry: RegistryView,
    path: Seq<u8>,
    first_mode: OpenMode,
    first: OpenEvent<E>,
    second_mode: OpenMode,
    second: OpenEvent<E>,
)
    requires
        registry.valid(),
        handed_out(open_step(registry, path, first_mode, first).1) is Some,
        second is Requested || second is Opened,
        sees_holder(second),
    ensures
        ({
            let (after, given) = open_step(registry, path, first_mode, first);
            open_step(after, path, second_mode, second) == (
                after,
                OpenActionView::<E>::Share { id: handed_out(given).unwrap() },
            )
        }),
{
}

/// While a handle is held, its path keeps it. Where `path` has a handle, a
/// step of any open, of the same path or another, leaves the entry of `path`
/// as it was, unless it is a step for `path` itself whose caller found that
/// handle without a holder.
pub proof fn held_entry_is_stable<E>(
    registry: RegistryView,
    path: Seq<u8>,
    other: Seq<u8>,
    mode: OpenMode,
    event: OpenEvent<E>,
)
    requires
        registry.candidate(path) is Some,
        other == path ==> sees_holder(event),
    ensures
        open_step(registry, other, mode, event).0.candidate(path) == registry.candidate(path),
        event is Requested || event is Failed ==> open_step(registry, other, mode, event).0
            == registry,
{
}

/// A sweep leaves every entry but a stale one of its own path as it was.
pub proof fn sweep_spares_held_entries(
    registry: RegistryView,
    path: Seq<u8>,
    other: Seq<u8>,
    alive: bool,
)
    requires
        other == path ==> alive,
    ensures
        registry.swept(other, alive).candidate(path) == registry.candidate(path),
        registry.valid() ==> registry.swept(other, alive).valid(),
        registry.swept(path, false).candidate(path) is None,
{
}

/// Registering keeps a registry valid.
pub proof fn registering_keeps_valid(registry: RegistryView, path: Seq<u8>, alive: bool)
    requires
        registry.valid(),
        registry.live(path, alive) is None ==> registry.issued < u64::MAX,
    ensures
        registry.registered(path, alive).0.valid(),
{
}

/// After the last holder let go, an open starts afresh. When the handle
/// registered under `path` has no holder left (or the path has no entry), a
/// request is answered with a device open, and the file that the device
/// opened becomes a handle that no path had before and that `path` maps to
/// from then on.
pub proof fn stale_entry_forces_fresh_open<E>(
    registry: RegistryView,
    path: Seq<u8>,
    mode: OpenMode,
)
    requires
        registry.valid(),
        registry.issued < u64::MAX,
    ensures
        open_step::<E>(registry, path, mode, OpenEvent::Requested { alive: false }) == (
            registry,
            OpenActionView::<E>::DeviceOpen,
        ),
        registry.candidate(path) is None ==> open_step::<E>(
            registry,
            path,
            mode,
            OpenEvent::Requested { alive: true },
        ) == (registry, OpenActionView::<E>::DeviceOpen),
        ({
            let (after, action) = open_step::<E>(
                registry,
                path,
                mode,
                OpenEvent::Opened { alive: false },
            );
            &&& action == OpenActionView::<E>::Adopt {
                id: registry.issued as u64,
                file: HandleView::fresh(mode),
                replaced: registry.candidate(path),
            }
            &&& after.candidate(path) == Some(registry.issued as u64)
            &&& forall|any: Seq<u8>| #[trigger]
                registry.entries.contains_key(any) ==> registry.entries[any] != registry.issued
        }),
{
}

/// A failed device open registers nothing and ends with the device's error.
pub proof fn failed_open_registers_nothing<E>(
    registry: RegistryView,
    path: Seq<u8>,
    mode: OpenMode,
    error: E,
)
    ensures
        open_step(registry, path, mode, OpenEvent::Failed(error)) == (
            registry,
            OpenActionView::Fail(error),
        ),
{
}

/// A registry together with what only its caller can see: which handles
/// still have a holder, and the path that each handle was opened for.
pub struct Holders {
    /// The registry.
    pub registry: RegistryView,
    /// The handles that have a holder.
    pub held: Set<u64>,
    /// For each handle that was handed out, its path.
    pub path_of: Map<u64, Seq<u8>>,
}

impl Holders {
    /// Whether `path` has a handle and that handle has a holder.
    pub open spec fn alive(self, path: Seq<u8>) -> bool {
        match self.registry.candidate(path) {
            Some(id) => self.held.contains(id),
            None => false,
        }
    }

    /// Whether `event`, reported for `path`, says of the registered handle
    /// what is the case.
    pub open spec fn truthful<E>(self, path: Seq<u8>, event: OpenEvent<E>) -> bool {
        match event {
            OpenEvent::Requested { alive } => alive == self.alive(path),
            OpenEvent::Opened { alive } => alive == self.alive(path),
            OpenEvent::Failed(_) => true,
        }
    }

    /// The state after one step of an open of `path`. A handle that is adopted
    /// gets its first holder.
    pub open spec fn after<E>(self, path: Seq<u8>, mode: OpenMode, event: OpenEvent<E>) -> Holders {
        let (registry, action) = open_step(self.registry, path, mode, event);
        match action {
            OpenActionView::Adopt { id, .. } => Holders {
                registry,
                held: self.held.insert(id),
                path_of: self.path_of.insert(id, path),
            },
            _ => Holders { registry, held: self.held, path_of: self.path_of },
        }
    }

    /// The state after the last holder of `id` let go.
    pub open spec fn released(self, id: u64) -> Holders {
        Holders { registry: self.registry, held: self.held.remove(id), path_of: self.path_of }
    }

    /// The state after the entry of `path` was swept.
    pub open spec fn swept(self, path: Seq<u8>) -> Holders {
        Holders {
            registry: self.registry.swept(path, self.alive(path)),
            held: self.held,
            path_of: self.path_of,
        }
    }

    /// Every handle with a holder is the one that its path maps to.
    pub open spec fn consistent(self) -> bool {
        &&& self.registry.valid()
        &&& forall|id: u64| #[trigger]
            self.held.contains(id) ==> {
                &&& id < self.registry.issued
                &&& self.path_of.contains_key(id)
                &&& self.registry.candidate(self.path_of[id]) == Some(id)
            }
    }
}

/// At every moment a path has at most one handle with a holder. Starting from
/// an empty registry, every step keeps each held handle registered under its
/// own path: a step of an open whose caller saw truly whether the registered
/// handle is held, the last holder of a handle letting go, and a sweep. So
/// two held handles of one path are one handle, and whoever opens that path
/// is handed that handle.
pub proof fn one_held_handle_per_path<E>(
    state: Holders,
    path: Seq<u8>,
    mode: OpenMode,
    event: OpenEvent<E>,
    id: u64,
    other: u64,
)
    requires
        state.consistent(),
        state.truthful(path, event),
        state.registry.issued < u64::MAX,
    ensures
        (Holders { registry: RegistryView::empty(), held: Set::empty(), path_of: Map::empty() })
            .consistent(),
        state.after(path, mode, event).consistent(),
        state.released(id).consistent(),
        state.swept(path).consistent(),
        state.held.contains(id) && state.held.contains(other) && state.path_of[id]
            == state.path_of[other] ==> id == other,
        state.held.contains(id) && state.path_of[id] == path ==> handed_out(
            open_step(state.registry, path, mode, event).1,
        ) == (if event is Failed {
            None
        } else {
            Some(id)
        }),
{
    let next = state.after(path, mode, event);
    assert forall|held: u64| #[trigger] next.held.contains(held) implies {
        &&& held < next.registry.issued
        &&& next.path_of.contains_key(held)
        &&& next.registry.candidate(next.path_of[held]) == Some(held)
    } by {
        if state.held.contains(held) {
            assert(state.registry.candidate(state.path_of[held]) == Some(held));
        }
    }
    let swept = state.swept(path);
    assert forall|held: u64| #[trigger] swept.held.contains(held) implies {
        &&& held < swept.registry.issued
        &&& swept.path_of.contains_key(held)
        &&& swept.registry.candidate(swept.path_of[held]) == Some(held)
    } by {
        assert(state.registry.candidate(state.path_of[held]) == Some(held));
    }
}

/// Once the last holder of a path's handle has let go, the next open of that
/// path goes to the device, and the file it opens becomes a handle that was
/// never handed out before.
pub proof fn released_handle_is_opened_afresh<E>(
    state: Holders,
    path: Seq<u8>,
    mode: OpenMode,
    id: u64,
)
    requires
        state.consistent(),
        state.registry.issued < u64::MAX,
        state.registry.candidate(path) == Some(id),
    ensures
        !state.released(id).alive(path),
        ({
            let gone = state.released(id);
            let asked = OpenEvent::<E>::Requested { alive: gone.alive(path) };
            let opened = OpenEvent::<E>::Opened { alive: gone.alive(path) };
            &&& open_step(gone.registry, path, mode, asked) == (
                gone.registry,
                OpenActionView::<E>::DeviceOpen,
            )
            &&& open_step(gone.registry, path, mode, opened).1 == OpenActionView::<E>::Adopt {
                id: state.registry.issued as u64,
                file: HandleView::fresh(mode),
                replaced: Some(id),
            }
            &&& state.registry.issued as u64 != id
            &&& !state.held.contains(state.registry.issued as u64)
        }),
{
    assert(state.registry.entries.contains_key(path));
}

/// Requests for nothing end at once. A read of no bytes is answered with an
/// empty result and a write of no bytes with a count of zero, whatever the
/// handle's strategy and state; neither asks for a lock or the device, and
/// neither changes the handle.
pub proof fn empty_requests_end_at_once<E>(handle: HandleView, pos: nat, options: WriteOptions)
    ensures
        handle.read_step::<E>(ReadEventView::Issued { pos, len: 0 }) == (
            handle,
            ReadActionView::<E>::Done(Ok(Seq::empty())),
        ),
        handle.write_step::<E>(WriteEventView::Issued { pos, data: Seq::empty(), options }) == (
            handle,
            WriteActionView::<E>::Done(Ok(0)),
        ),
{
}

/// A written payload reads back. Under the single-writer strategy, once a
/// write of `data` has been accepted, and until another write is, a read that
/// holds the lock is answered from the buffer with the asked range of `data`,
/// clipped to its bounds: all of `data` for a read of its whole length from
/// position zero. This holds at every stage of the write, whether its device
/// write has run, succeeded or failed.
pub proof fn written_payload_reads_back<E>(
    handle: HandleView,
    pos: nat,
    data: Seq<u8>,
    options: WriteOptions,
    fence: nat,
    result: Result<nat, E>,
    read_pos: nat,
    read_len: nat,
)
    requires
        handle.strategy == LockStrategy::SingleWriter,
        data.len() > 0,
    ensures
        ({
            let issued = handle.write_step::<E>(WriteEventView::Issued { pos, data, options }).0;
            let locked = issued.write_step::<E>(WriteEventView::Locked { pos, data, options }).0;
            let written = locked.write_step(WriteEventView::Written { fence, result }).0;
            let whole = ReadEventView::<E>::Locked { pos: 0, len: data.len() };
            let part = ReadEventView::<E>::Locked { pos: read_pos, len: read_len };
            &&& issued.read_step(whole) == (issued, ReadActionView::<E>::Done(Ok(data)))
            &&& locked.read_step(whole) == (locked, ReadActionView::<E>::Done(Ok(data)))
            &&& written.read_step(whole) == (written, ReadActionView::<E>::Done(Ok(data)))
            &&& written.read_step(part) == (
                written,
                ReadActionView::<E>::Done(Ok(written.buffer.range(read_pos, read_len))),
            )
            &&& written.buffer.payload == data
        }),
{
    let issued = handle.write_step::<E>(WriteEventView::Issued { pos, data, options }).0;
    assert(issued.buffer.range(0, data.len()) =~= data);
}

/// A failed device write leaves the handle as it was: the buffer keeps its
/// payload and its version, so a pending write stays pending, and the
/// device's error is the result.
pub proof fn failed_write_stays_dirty<E>(handle: HandleView, fence: nat, error: E)
    ensures
        handle.write_step(WriteEventView::Written { fence, result: Err(error) }) == (
            handle,
            WriteActionView::Done(Err(error)),
        ),
{
}

/// The version only ever falls to zero, and only when a device write of the
/// payload that was sent under that very version has succeeded. Every other
/// step of a read or a write keeps it or raises it.
pub proof fn version_falls_only_on_confirmed_flush<E>(
    handle: HandleView,
    write: WriteEventView<E>,
    read: ReadEventView<E>,
)
    ensures
        ({
            let after = handle.write_step(write).0;
            ||| after.buffer.version >= handle.buffer.version
            ||| {
                &&& write matches WriteEventView::Written { fence, result: Ok(_) }
                &&& fence == handle.buffer.version
                &&& after.buffer.version == 0
            }
        }),
        handle.read_step(read).0.buffer.version == handle.buffer.version,
        handle.write_step(write).0.strategy == handle.strategy,
        handle.read_step(read).0.strategy == handle.strategy,
{
}

/// Under the shared-exclusive strategy reads ask for the shared lock and
/// writes for the exclusive one, and no step of a read changes the handle.
/// So any number of reads ask for modes that can hold the lock together and
/// get the same answers in whatever order their steps come, and a write asks
/// for a mode that can hold the lock together with no other request, read or
/// write.
pub proof fn normal_reads_share_and_writes_exclude<E>(
    handle: HandleView,
    pos: nat,
    len: nat,
    step: ReadEventView<E>,
    write_pos: nat,
    data: Seq<u8>,
    options: WriteOptions,
    any: LockMode,
)
    requires
        handle.strategy == LockStrategy::SharedExclusive,
        len > 0,
        data.len() > 0,
    ensures
        handle.read_step::<E>(ReadEventView::Issued { pos, len }) == (
            handle,
            ReadActionView::<E>::Lock { mode: LockMode::Shared, pos, len },
        ),
        handle.read_step(step).0 == handle,
        LockMode::Shared.compatible(LockMode::Shared),
        handle.write_step::<E>(WriteEventView::Issued { pos: write_pos, data, options }) == (
            handle,
            WriteActionView::<E>::Lock { mode: LockMode::Exclusive, pos: write_pos, data, options },
        ),
        !LockMode::Exclusive.compatible(any),
        !any.compatible(LockMode::Exclusive),
{
}

/// Under the single-writer strategy reads and writes alike ask for the
/// exclusive lock. A write that is accepted leaves its bytes and one more
/// version in the buffer, wherever it was to be written. What the holder of
/// the lock does next depends on the buffer alone, not on what the holder
/// itself had asked to write: a dirty buffer has its payload, the latest that
/// was accepted, sent to the device from position zero under the buffer's
/// version, and a clean one ends the write with the payload's length and no
/// device write.
pub proof fn single_writer_serializes<E>(
    handle: HandleView,
    pos: nat,
    data: Seq<u8>,
    options: WriteOptions,
    any: LockMode,
)
    requires
        handle.strategy == LockStrategy::SingleWriter,
    ensures
        handle.strategy.read_mode() == LockMode::Exclusive,
        handle.strategy.write_mode() == LockMode::Exclusive,
        !LockMode::Exclusive.compatible(any),
        data.len() > 0 ==> handle.write_step::<E>(WriteEventView::Issued { pos, data, options })
            == (
            handle.with_buffer(handle.buffer.staged(data)),
            WriteActionView::<E>::Lock { mode: LockMode::Exclusive, pos, data, options },
        ),
        handle.write_step::<E>(WriteEventView::Locked { pos, data, options }) == (
            handle,
            if handle.buffer.dirty() {
                WriteActionView::<E>::Device {
                    pos: 0,
                    data: handle.buffer.payload,
                    options,
                    fence: handle.buffer.version,
                }
            } else {
                WriteActionView::<E>::Done(Ok(handle.buffer.payload.len()))
            },
        ),
{
}

/// A single-writer handle together with the file on the device.
///
/// The device is taken to do what truncate-write means: a device write that
/// succeeds leaves exactly the bytes it was given in the file.
pub struct Storage {
    /// The handle's state.
    pub handle: HandleView,
    /// The file's content.
    pub disk: Seq<u8>,
    /// How many device writes were asked for.
    pub device_writes: nat,
}

impl Storage {
    /// A caller issues a write of `data`.
    pub open spec fn issue<E>(self, data: Seq<u8>) -> Storage {
        Storage {
            handle: self.handle.write_step::<E>(
                WriteEventView::Issued { pos: 0, data, options: WriteOptions::Plain },
            ).0,
            disk: self.disk,
            device_writes: self.device_writes,
        }
    }

    /// Callers issue the writes of `arrivals`, in that order.
    pub open spec fn issue_all<E>(self, arrivals: Seq<Seq<u8>>) -> Storage
        decreases arrivals.len(),
    {
        if arrivals.len() == 0 {
            self
        } else {
            self.issue_all::<E>(arrivals.drop_last()).issue::<E>(arrivals.last())
        }
    }

    /// One writer's turn with the lock, from the moment it holds the lock to
    /// the end of its write. If the turn comes to a device write, other
    /// callers issue the writes of `arrivals` while it is in flight; the
    /// device answers with `result`, and a device write that failed leaves
    /// `left` in the file.
    pub open spec fn write_turn<E>(
        self,
        arrivals: Seq<Seq<u8>>,
        result: Result<nat, E>,
        left: Seq<u8>,
    ) -> Storage {
        let locked = WriteEventView::<E>::Locked {
            pos: 0,
            data: Seq::empty(),
            options: WriteOptions::Plain,
        };
        match self.handle.write_step(locked).1 {
            WriteActionView::Device { data, fence, .. } => {
                let during = self.issue_all::<E>(arrivals);
                Storage {
                    handle: during.handle.write_step(WriteEventView::Written { fence, result }).0,
                    disk: if result is Ok {
                        data
                    } else {
                        left
                    },
                    device_writes: self.device_writes + 1,
                }
            },
            _ => self,
        }
    }

    /// One reader's turn with the lock. If the turn comes to a device read,
    /// other callers issue the writes of `arrivals` while it is in flight,
    /// and the device answers with the file's content if `ok`.
    pub open spec fn read_turn<E>(
        self,
        pos: nat,
        len: nat,
        arrivals: Seq<Seq<u8>>,
        ok: bool,
        error: E,
    ) -> Storage {
        match self.handle.read_step::<E>(ReadEventView::Locked { pos, len }).1 {
            ReadActionView::DeviceAll => {
                let during = self.issue_all::<E>(arrivals);
                let result = if ok {
                    Ok(self.disk)
                } else {
                    Err(error)
                };
                Storage {
                    handle: during.handle.read_step(ReadEventView::Fetched(result)).0,
                    disk: self.disk,
                    device_writes: self.device_writes,
                }
            },
            _ => self,
        }
    }

    /// A clean buffer that holds content holds what is in the file.
    pub open spec fn in_step(self) -> bool {
        !self.handle.buffer.dirty() && self.handle.buffer.payload.len() > 0 ==> self.disk
            == self.handle.buffer.payload
    }
}

/// Issuing writes keeps the strategy, never lowers the version, and leaves a
/// dirty buffer dirty.
pub proof fn issuing_keeps_dirty<E>(storage: Storage, arrivals: Seq<Seq<u8>>)
    ensures
        storage.issue_all::<E>(arrivals).handle.strategy == storage.handle.strategy,
        storage.issue_all::<E>(arrivals).handle.buffer.version >= storage.handle.buffer.version,
        storage.issue_all::<E>(arrivals).disk == storage.disk,
        storage.issue_all::<E>(arrivals).device_writes == storage.device_writes,
        storage.issue_all::<E>(arrivals).handle.buffer.version == storage.handle.buffer.version
            ==> storage.issue_all::<E>(arrivals).handle == storage.handle,
    decreases arrivals.len(),
{
    if arrivals.len() > 0 {
        issuing_keeps_dirty::<E>(storage, arrivals.drop_last());
    }
}

/// No accepted write is lost. For a single-writer handle, "the buffer is
/// clean only if the file holds its payload" survives every step: a write
/// being issued, a writer's turn with the lock whatever arrives meanwhile and
/// whether the device write succeeds, and a reader's turn likewise. So
/// whenever the buffer is clean, the latest accepted payload is in the file,
/// and otherwise it is still in the buffer, marked as pending.
pub proof fn clean_buffer_is_in_the_file<E>(
    storage: Storage,
    data: Seq<u8>,
    arrivals: Seq<Seq<u8>>,
    result: Result<nat, E>,
    left: Seq<u8>,
    pos: nat,
    len: nat,
    ok: bool,
    error: E,
)
    requires
        storage.handle.strategy == LockStrategy::SingleWriter,
        storage.in_step(),
    ensures
        storage.issue::<E>(data).in_step(),
        data.len() > 0 ==> storage.issue::<E>(data).handle.buffer.dirty() && storage.issue::<E>(
            data,
        ).handle.buffer.payload == data,
        storage.write_turn(arrivals, result, left).in_step(),
        storage.write_turn(arrivals, result, left).device_writes <= storage.device_writes + 1,
        result is Err && storage.handle.buffer.dirty() ==> storage.write_turn(
            arrivals,
            result,
            left,
        ).handle.buffer.dirty(),
        storage.read_turn(pos, len, arrivals, ok, error).in_step(),
{
    issuing_keeps_dirty::<E>(storage, arrivals);
}

/// Two writes in flight coalesce. Let a single-writer handle accept a write
/// of `first` and then one of `second`, the second before the first has
/// ended, and let every device write succeed. Either both were accepted
/// before any writer held the lock: then whoever holds it first sends
/// `second`, and the other finds the buffer clean and sends nothing. Or the
/// second was accepted while the first writer's device write was in flight:
/// then that write leaves the buffer dirty, and the second writer sends
/// `second`. Both ways the file ends as `second`, the buffer ends clean, and
/// the device was asked to write at most twice.
pub proof fn two_writers_coalesce<E>(
    start: Storage,
    first: Seq<u8>,
    second: Seq<u8>,
    first_count: nat,
    second_count: nat,
    left: Seq<u8>,
)
    requires
        start.handle.strategy == LockStrategy::SingleWriter,
        first.len() > 0,
        second.len() > 0,
    ensures
        ({
            let none = Seq::<Seq<u8>>::empty();
            let end = start.issue::<E>(first).issue::<E>(second).write_turn::<E>(
                none,
                Ok(first_count),
                left,
            ).write_turn::<E>(none, Ok(second_count), left);
            &&& end.disk == second
            &&& end.handle.buffer.payload == second
            &&& !end.handle.buffer.dirty()
            &&& end.device_writes == start.device_writes + 1
        }),
        ({
            let none = Seq::<Seq<u8>>::empty();
            let end = start.issue::<E>(first).write_turn::<E>(
                seq![second],
                Ok(first_count),
                left,
            ).write_turn::<E>(none, Ok(second_count), left);
            &&& end.disk == second
            &&& end.handle.buffer.payload == second
            &&& !end.handle.buffer.dirty()
            &&& end.device_writes == start.device_writes + 2
        }),
{
    let none = Seq::<Seq<u8>>::empty();
    let one = seq![second];
    let issued = start.issue::<E>(first);
    assert(one.drop_last() =~= none);
    assert(issued.issue_all::<E>(one) == issued.issue_all::<E>(none).issue::<E>(second));
}

} // verus!
