//! The write-coalescing buffer of a single-writer handle.
//!
//! The buffer holds the latest whole-file payload and a version counter. A
//! version of zero means that nothing is waiting to reach the device; every
//! accepted write raises the version, and a flush clears it only when no newer
//! write arrived while the flush was under way.

use std::sync::Arc;
use vstd::prelude::*;

verus! {

/// What a buffer holds, as mathematics.
pub struct BufferView {
    /// The latest whole-file content that was written or fetched.
    pub payload: Seq<u8>,
    /// Zero when nothing is pending, else the number of the latest pending write.
    pub version: nat,
}

impl BufferView {
    /// The buffer of a handle that has neither written nor read.
    pub open spec fn empty() -> BufferView {
        BufferView { payload: Seq::empty(), version: 0 }
    }

    /// A write is waiting to reach the device.
    pub open spec fn dirty(self) -> bool {
        self.version > 0
    }

    /// The buffer after a write of `data` was accepted.
    pub open spec fn staged(self, data: Seq<u8>) -> BufferView {
        BufferView { payload: data, version: self.version + 1 }
    }

    /// The buffer after a device write of the payload snapshotted at version
    /// `fence` succeeded: clean if nothing newer arrived, untouched otherwise.
    pub open spec fn flushed(self, fence: nat) -> BufferView {
        BufferView {
            payload: self.payload,
            version: if self.version == fence { 0 } else { self.version },
        }
    }

    /// The buffer after the file's content was fetched from the device: the
    /// content is kept unless a write is pending, whose payload is newer.
    pub open spec fn fetched(self, content: Seq<u8>) -> BufferView {
        BufferView {
            payload: if self.version == 0 { content } else { self.payload },
            version: self.version,
        }
    }

    /// The bytes `[pos, pos + len)` of the payload, clipped to its bounds.
    pub open spec fn range(self, pos: nat, len: nat) -> Seq<u8> {
        let n = self.payload.len();
        let start = if pos < n { pos } else { n };
        let end = if pos + len < n { pos + len } else { n };
        self.payload.subrange(start as int, end as int)
    }
}

/// Latest-write-wins payload cache with a version fence.
#[derive(Debug, PartialEq, Eq)]
pub struct CoalescingBuffer {
    payload: Arc<Vec<u8>>,
    version: usize,
}

impl View for CoalescingBuffer {
    type V = BufferView;

    closed spec fn view(&self) -> BufferView {
        BufferView { payload: self.payload@, version: self.version as nat }
    }
}

impl CoalescingBuffer {
    /// An empty, clean buffer.
    pub fn new() -> (buffer: CoalescingBuffer)
        ensures
            buffer@ == BufferView::empty(),
    {
        CoalescingBuffer { payload: Arc::new(Vec::new()), version: 0 }
    }

    /// The current version.
    pub fn version(&self) -> (version: usize)
        ensures
            version == self@.version,
    {
        self.version
    }

    /// Whether another write can be accepted: the version counter has room.
    pub fn has_room(&self) -> (room: bool)
        ensures
            room == (self@.version < usize::MAX),
    {
        self.version < usize::MAX
    }

    /// Whether the payload has any bytes.
    pub fn holds_content(&self) -> (held: bool)
        ensures
            held == (self@.payload.len() > 0),
    {
        self.payload.len() > 0
    }

    /// The payload and the version, taken together.
    pub fn snapshot(&self) -> (snap: (Arc<Vec<u8>>, usize))
        ensures
            snap.0@ == self@.payload,
            snap.1 == self@.version,
    {
        (self.payload.clone(), self.version)
    }

    /// Accepts a write: `data` becomes the payload and the version goes up by
    /// one. Returns the new version.
    pub fn stage(&mut self, data: Arc<Vec<u8>>) -> (version: usize)
        requires
            old(self)@.version < usize::MAX,
        ensures
            final(self)@ == old(self)@.staged(data@),
            version == final(self)@.version,
    {
        self.payload = data;
        self.version = self.version + 1;
        self.version
    }

    /// Records that the payload snapshotted at version `fence` reached the
    /// device. The buffer becomes clean only if its version is still `fence`;
    /// a newer write keeps its own version. Returns whether it became clean.
    pub fn confirm_flush(&mut self, fence: usize) -> (cleared: bool)
        ensures
            final(self)@ == old(self)@.flushed(fence as nat),
            cleared == (old(self)@.version == fence),
    {
        if self.version == fence {
            self.version = 0;
            true
        } else {
            false
        }
    }

    /// Keeps `content`, fetched from the device, as the payload, unless a
    /// write is pending. The version is left as it is. Returns whether the
    /// content was kept.
    pub fn store_fetched(&mut self, content: &Vec<u8>) -> (stored: bool)
        ensures
            final(self)@ == old(self)@.fetched(content@),
            stored == !old(self)@.dirty(),
    {
        if self.version == 0 {
            self.payload = Arc::new(content.clone());
            true
        } else {
            false
        }
    }

    /// Copies the bytes `[pos, pos + len)` of the payload, clipped to its
    /// bounds.
    pub fn read_range(&self, pos: u64, len: usize) -> (bytes: Vec<u8>)
        ensures
            bytes@ == self@.range(pos as nat, len as nat),
    {
        let n = self.payload.len();
        let start: usize = if pos < n as u64 { pos as usize } else { n };
        let end: usize = if len < n - start { start + len } else { n };
        let mut bytes: Vec<u8> = Vec::new();
        let mut i: usize = start;
        while i < end
            invariant
                start <= i <= end <= n,
                n == self.payload@.len(),
                bytes@ == self.payload@.subrange(start as int, i as int),
            decreases end - i,
        {
            bytes.push(self.payload[i]);
            i = i + 1;
        }
        bytes
    }
}

} // verus!
