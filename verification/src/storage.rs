//! Storage-device and file-level capability interfaces.

use vstd::prelude::*;
use crate::errors::StorageError;
use crate::partition::{Partition, PartitionView, hint_view, spec_opened};

verus! {

/// Flush accounting of one device: how many writes are still pending and how
/// many the medium has acknowledged as durable.
pub struct SyncState {
    /// Writes issued but not yet acknowledged by the medium.
    pub pending: nat,
    /// Writes the medium has acknowledged as durable.
    pub durable: nat,
}

/// What `sync` does to the flush accounting: every pending write becomes
/// durable. `sync` is a full barrier, not a hint.
pub open spec fn spec_sync(s: SyncState) -> SyncState {
    SyncState { pending: 0, durable: s.durable + s.pending }
}

/// Law: `sync` is idempotent — syncing twice with no intervening writes
/// produces exactly the durable state the first sync produced.
pub proof fn lemma_sync_idempotent(s: SyncState)
    ensures
        spec_sync(spec_sync(s)) == spec_sync(s),
{
}

/// Outcome of resolving and opening a partition by name.
///
/// An absent medium is reported first; an unresolved name is `NotFound`; with
/// a filesystem hint, a mismatching probed type is `UnsupportedFilesystem`
/// and an invalid superblock `CorruptFilesystem`; otherwise the partition is
/// handed out as an open handle.
pub open spec fn spec_open_outcome(
    present: bool,
    resolves: bool,
    part: PartitionView,
    hint: Option<Seq<char>>,
) -> Result<PartitionView, StorageError> {
    if !present {
        Result::Err(StorageError::DeviceUnavailable)
    } else if !resolves {
        Result::Err(StorageError::NotFound)
    } else {
        match hint {
            Option::Some(h) => if h != part.fs {
                Result::Err(StorageError::UnsupportedFilesystem)
            } else if !part.sb_valid {
                Result::Err(StorageError::CorruptFilesystem)
            } else {
                Result::Ok(spec_opened(part))
            },
            Option::None => Result::Ok(spec_opened(part)),
        }
    }
}

/// Outcome of a write-intent file operation.
///
/// Permission is the binding constraint and is checked first: a device that
/// does not allow writes answers `PermissionDenied` whatever else holds.
pub open spec fn spec_write_op_outcome(
    write_allowed: bool,
    present: bool,
    has_file: bool,
) -> Result<(), StorageError> {
    if !write_allowed {
        Result::Err(StorageError::PermissionDenied)
    } else if !present {
        Result::Err(StorageError::DeviceUnavailable)
    } else if !has_file {
        Result::Err(StorageError::NotFound)
    } else {
        Result::Ok(())
    }
}

/// Capability interface of one storage device.
///
/// A device owns the partitions it produces; its partition table is the
/// abstract map queried through `resolves` and `part_info`.
pub trait BaseStorageDeviceProvider {
    /// Well-formedness of the device's partition table.
    spec fn wf(&self) -> bool;

    /// Whether the medium is present and ready.
    spec fn present(&self) -> bool;

    /// Whether `name` resolves to a partition on this device.
    spec fn resolves(&self, name: Seq<char>) -> bool;

    /// View of the partition `name` resolves to; meaningful only when
    /// `resolves(name)` holds.
    spec fn part_info(&self, name: Seq<char>) -> PartitionView;

    /// Number of writes issued through this device and not yet acknowledged
    /// as durable.
    spec fn pending_writes(&self) -> nat;

    /// Number of writes the medium has acknowledged as durable.
    spec fn durable_writes(&self) -> nat;

    /// Resolve a partition by name and hand it out as an open handle,
    /// optionally verifying the filesystem type first.
    fn open(&self, part: &str, fs: Option<&str>) -> (r: Result<Partition, StorageError>)
        requires
            self.wf(),
        ensures
            match spec_open_outcome(
                self.present(),
                self.resolves(part@),
                self.part_info(part@),
                hint_view(fs),
            ) {
                Result::Ok(v) => r matches Result::Ok(p) && p@ == v,
                Result::Err(e) => r matches Result::Err(got) && got == e,
            },
            r matches Result::Ok(p) ==> p@.label == part@ && p@.is_open,
    ;

    /// Flush all pending writes across every partition opened from this
    /// device; returns only after the medium acknowledges, so afterwards
    /// nothing is pending and everything previously pending is durable.
    fn sync(&mut self)
        requires
            old(self).durable_writes() + old(self).pending_writes() <= u64::MAX,
        ensures
            (SyncState {
                pending: final(self).pending_writes(),
                durable: final(self).durable_writes(),
            }) == spec_sync(SyncState {
                pending: old(self).pending_writes(),
                durable: old(self).durable_writes(),
            }),
            final(self).wf() == old(self).wf(),
            final(self).present() == old(self).present(),
            forall|n: Seq<char>| #[trigger] final(self).resolves(n) == old(self).resolves(n),
            old(self).wf() ==> forall|n: Seq<char>|
                old(self).resolves(n) ==> #[trigger] final(self).part_info(n) == old(
                    self,
                ).part_info(n),
    ;

    /// Probing form of superblock validation, usable before `open`; takes
    /// `&self`, so it cannot open the partition or mutate any state.
    fn test_super_block(&self, part: &str, fs: Option<&str>) -> (r: bool)
        requires
            self.wf(),
        ensures
            r == (self.present() && self.resolves(part@)
                && crate::partition::super_block_ok(self.part_info(part@), hint_view(fs))),
    ;
}

/// File-level operations, layered above the partitions of a storage device.
///
/// Every operation with write intent re-checks the owning device's
/// permission on each call — the contracts make a backend that caches
/// permission at open time non-compliant.
pub trait BaseStorageIoProvider: BaseStorageDeviceProvider {
    /// Whether writes through this device are allowed at all; false on a
    /// forbidden device, whatever any partition's read-write flag says.
    spec fn write_allowed(&self) -> bool;

    /// The file paths that resolve on this device.
    spec fn files(&self) -> Set<Seq<char>>;

    /// Open a file for writing; fails on a device that does not allow
    /// writes, and resolves the path otherwise. Takes `&self`: opening
    /// changes no state.
    fn open_file(&self, path: &str) -> (r: Result<(), StorageError>)
        ensures
            r == spec_write_op_outcome(
                self.write_allowed(),
                self.present(),
                self.files().contains(path@),
            ),
    ;

    /// Delete a file; one more write becomes pending.
    fn delete_file(&mut self, path: &str) -> (r: Result<(), StorageError>)
        requires
            old(self).pending_writes() < u64::MAX,
        ensures
            r == spec_write_op_outcome(
                old(self).write_allowed(),
                old(self).present(),
                old(self).files().contains(path@),
            ),
            final(self).wf() == old(self).wf(),
            final(self).present() == old(self).present(),
            forall|n: Seq<char>| #[trigger] final(self).resolves(n) == old(self).resolves(n),
            old(self).wf() ==> forall|n: Seq<char>|
                old(self).resolves(n) ==> #[trigger] final(self).part_info(n) == old(
                    self,
                ).part_info(n),
            final(self).write_allowed() == old(self).write_allowed(),
            final(self).durable_writes() == old(self).durable_writes(),
            r is Ok ==> final(self).files() == old(self).files().remove(path@)
                && final(self).pending_writes() == old(self).pending_writes() + 1,
            r is Err ==> final(self).files() == old(self).files()
                && final(self).pending_writes() == old(self).pending_writes(),
    ;

    /// Rename a file; one more write becomes pending.
    fn rename_file(&mut self, path: &str, new_name: &str) -> (r: Result<(), StorageError>)
        requires
            old(self).pending_writes() < u64::MAX,
        ensures
            r == spec_write_op_outcome(
                old(self).write_allowed(),
                old(self).present(),
                old(self).files().contains(path@),
            ),
            final(self).wf() == old(self).wf(),
            final(self).present() == old(self).present(),
            forall|n: Seq<char>| #[trigger] final(self).resolves(n) == old(self).resolves(n),
            old(self).wf() ==> forall|n: Seq<char>|
                old(self).resolves(n) ==> #[trigger] final(self).part_info(n) == old(
                    self,
                ).part_info(n),
            final(self).write_allowed() == old(self).write_allowed(),
            final(self).durable_writes() == old(self).durable_writes(),
            r is Ok ==> final(self).files() == old(self).files().remove(path@).insert(new_name@)
                && final(self).pending_writes() == old(self).pending_writes() + 1,
            r is Err ==> final(self).files() == old(self).files()
                && final(self).pending_writes() == old(self).pending_writes(),
    ;
}

} // verus!
