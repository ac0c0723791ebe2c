//! Open modes, and the lock strategy that each one selects.

use vstd::prelude::*;

verus! {

/// How a file is opened.
#[derive(Clone, Copy, Debug, PartialEq, Eq, Structural)]
pub enum OpenMode {
    /// For reading only.
    OnlyRead,
    /// For writing only.
    OnlyWrite,
    /// For appending only.
    OnlyAppend,
    /// For reading and appending.
    ReadAppend,
    /// For reading and writing.
    ReadWrite,
    /// For writing, where every write replaces the whole file.
    TruncateWrite,
    /// For reading and writing, where the device empties the file before it
    /// writes.
    TruncateReadWrite,
}

/// How a lock is asked for.
#[derive(Clone, Copy, Debug, PartialEq, Eq, Structural)]
pub enum LockMode {
    /// Together with other shared holders.
    Shared,
    /// Alone.
    Exclusive,
}

/// The arbitration that a handle applies to its readers and writers. It is
/// chosen once, when the handle is opened, and stays.
#[derive(Clone, Copy, Debug, PartialEq, Eq, Structural)]
pub enum LockStrategy {
    /// Many readers or one writer.
    SharedExclusive,
    /// One holder at a time, reader or writer.
    SingleWriter,
}

impl LockMode {
    /// Two requests can hold the lock at the same time exactly when both are
    /// shared.
    pub open spec fn compatible(self, other: LockMode) -> bool {
        self == LockMode::Shared && other == LockMode::Shared
    }
}

impl LockStrategy {
    /// The strategy that `mode` selects: single-writer for truncate-write,
    /// shared-exclusive for every other mode.
    pub open spec fn for_mode(mode: OpenMode) -> LockStrategy {
        if mode == OpenMode::TruncateWrite {
            LockStrategy::SingleWriter
        } else {
            LockStrategy::SharedExclusive
        }
    }

    /// The mode in which a read asks for the lock.
    pub open spec fn read_mode(self) -> LockMode {
        match self {
            LockStrategy::SharedExclusive => LockMode::Shared,
            LockStrategy::SingleWriter => LockMode::Exclusive,
        }
    }

    /// The mode in which a write asks for the lock.
    pub open spec fn write_mode(self) -> LockMode {
        LockMode::Exclusive
    }

    /// Chooses the strategy for a handle opened with `mode`.
    pub fn select(mode: OpenMode) -> (strategy: LockStrategy)
        ensures
            strategy == Self::for_mode(mode),
    {
        match mode {
            OpenMode::TruncateWrite => LockStrategy::SingleWriter,
            _ => LockStrategy::SharedExclusive,
        }
    }

    /// The lock mode of a read under this strategy.
    pub fn lock_for_read(self) -> (mode: LockMode)
        ensures
            mode == self.read_mode(),
    {
        match self {
            LockStrategy::SharedExclusive => LockMode::Shared,
            LockStrategy::SingleWriter => LockMode::Exclusive,
        }
    }

    /// The lock mode of a write under this strategy.
    pub fn lock_for_write(self) -> (mode: LockMode)
        ensures
            mode == self.write_mode(),
    {
        LockMode::Exclusive
    }
}

} // verus!
