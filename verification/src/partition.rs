//! Partition model and the partition-level capability interface.

use vstd::prelude::*;
use gpt::partition_types::Type as PartType;
use crate::gpt_types::clone_part_type;
use crate::text::str_eq;

verus! {

/// Mathematical view of one partition.
///
/// `is_clean`, `is_open` and `is_rw` are the authoritative state bits; the
/// derived predicates (`spec_dirty`, `spec_closed`, `spec_ro`) are computed
/// from them and never stored.
pub struct PartitionView {
    /// Partition label.
    pub label: Seq<char>,
    /// GPT partition GUID, in its string form.
    pub guid: Seq<char>,
    /// GPT partition type supplied by the partition-table collaborator.
    pub ptype: PartType,
    /// Name of the filesystem the superblock probe recognized.
    pub fs: Seq<char>,
    /// Whether the superblock signature is valid.
    pub sb_valid: bool,
    /// Whether the partition is clean; source of truth for dirtiness.
    pub is_clean: bool,
    /// Whether the partition is open; source of truth for closedness.
    pub is_open: bool,
    /// Whether the partition is read-write; source of truth for read-onlyness.
    pub is_rw: bool,
}

/// Derived predicate: a partition is dirty exactly when it is not clean.
pub open spec fn spec_dirty(v: PartitionView) -> bool {
    !v.is_clean
}

/// Derived predicate: a partition is closed exactly when it is not open.
pub open spec fn spec_closed(v: PartitionView) -> bool {
    !v.is_open
}

/// Derived predicate: a partition is read-only exactly when it is not
/// read-write.
pub open spec fn spec_ro(v: PartitionView) -> bool {
    !v.is_rw
}

/// The same partition, as the open handle that `open` hands out.
pub open spec fn spec_opened(v: PartitionView) -> PartitionView {
    PartitionView { is_open: true, ..v }
}

/// View of an optional filesystem hint.
pub open spec fn hint_view(fs: Option<&str>) -> Option<Seq<char>> {
    match fs {
        Option::Some(h) => Option::Some(h@),
        Option::None => Option::None,
    }
}

/// Whether a superblock probe succeeds: the signature must be valid and,
/// when a hint is given, the hint must name the probed filesystem.
pub open spec fn super_block_ok(v: PartitionView, hint: Option<Seq<char>>) -> bool {
    v.sb_valid && match hint {
        Option::Some(h) => h == v.fs,
        Option::None => true,
    }
}

/// Law: for every partition state, each derived predicate equals the exact
/// negation of its source predicate — the two can never drift apart.
pub proof fn lemma_derived_predicates_negate(v: PartitionView)
    ensures
        spec_dirty(v) == !v.is_clean,
        spec_closed(v) == !v.is_open,
        spec_ro(v) == !v.is_rw,
{
}

/// Capability interface of one already-probed partition.
///
/// The contracts pin every derived predicate to the negation of its source,
/// so no backend can let them drift (the invariant behind `spec_dirty` and
/// friends holds of every implementation).
pub trait BasePartitionProvider {
    /// Mathematical view of the partition this provider represents.
    spec fn pview(&self) -> PartitionView;

    /// The partition label.
    fn get_label(&self) -> (r: &str)
        ensures
            r@ == self.pview().label,
    ;

    /// The GPT partition GUID, in its string form.
    fn gpt_part_guid(&self) -> (r: &str)
        ensures
            r@ == self.pview().guid,
    ;

    /// The GPT partition type supplied by the partition-table collaborator.
    fn gpt_part_type(&self) -> (r: &PartType)
        ensures
            *r == self.pview().ptype,
    ;

    /// Whether the partition is clean; authoritative.
    fn is_clean(&self) -> (r: bool)
        ensures
            r == self.pview().is_clean,
    ;

    /// Derived: dirty is exactly not-clean.
    fn is_dirty(&self) -> (r: bool)
        ensures
            r == spec_dirty(self.pview()),
    {
        !self.is_clean()
    }

    /// Whether the partition is open; authoritative.
    fn is_open(&self) -> (r: bool)
        ensures
            r == self.pview().is_open,
    ;

    /// Derived: closed is exactly not-open.
    fn is_closed(&self) -> (r: bool)
        ensures
            r == spec_closed(self.pview()),
    {
        !self.is_open()
    }

    /// Whether the partition is read-write; authoritative.
    fn is_rw(&self) -> (r: bool)
        ensures
            r == self.pview().is_rw,
    ;

    /// Derived: read-only is exactly not-read-write.
    fn is_ro(&self) -> (r: bool)
        ensures
            r == spec_ro(self.pview()),
    {
        !self.is_rw()
    }

    /// Validate the filesystem signature against an optional hint.
    ///
    /// Callable on a partition that is not yet open; it takes `&self`, so it
    /// cannot open the partition or mutate any state — opening is the
    /// separate, explicit `open` step on the storage device.
    fn test_super_block(&self, fs: Option<&str>) -> (r: bool)
        ensures
            r == super_block_ok(self.pview(), hint_view(fs)),
    ;
}

/// One partition, as produced by a storage device.
pub struct Partition {
    label: String,
    guid: String,
    ptype: PartType,
    fs: String,
    sb_valid: bool,
    is_clean: bool,
    is_open: bool,
    is_rw: bool,
}

impl View for Partition {
    type V = PartitionView;

    closed spec fn view(&self) -> PartitionView {
        PartitionView {
            label: self.label@,
            guid: self.guid@,
            ptype: self.ptype,
            fs: self.fs@,
            sb_valid: self.sb_valid,
            is_clean: self.is_clean,
            is_open: self.is_open,
            is_rw: self.is_rw,
        }
    }
}

impl Partition {
    /// Assemble a partition record from probed facts.
    pub fn new(
        label: String,
        guid: String,
        ptype: PartType,
        fs: String,
        sb_valid: bool,
        is_clean: bool,
        is_open: bool,
        is_rw: bool,
    ) -> (r: Partition)
        ensures
            r@ == (PartitionView {
                label: label@,
                guid: guid@,
                ptype,
                fs: fs@,
                sb_valid,
                is_clean,
                is_open,
                is_rw,
            }),
    {
        Partition { label, guid, ptype, fs, sb_valid, is_clean, is_open, is_rw }
    }

    /// Name of the filesystem the superblock probe recognized.
    pub fn fs_type(&self) -> (r: &str)
        ensures
            r@ == self@.fs,
    {
        self.fs.as_str()
    }

    /// Whether the superblock signature is valid.
    pub fn superblock_valid(&self) -> (r: bool)
        ensures
            r == self@.sb_valid,
    {
        self.sb_valid
    }

    /// The same partition as an open handle.
    pub(crate) fn as_open_handle(&self) -> (r: Partition)
        ensures
            r@ == spec_opened(self@),
    {
        Partition {
            label: self.label.clone(),
            guid: self.guid.clone(),
            ptype: clone_part_type(&self.ptype),
            fs: self.fs.clone(),
            sb_valid: self.sb_valid,
            is_clean: self.is_clean,
            is_open: true,
            is_rw: self.is_rw,
        }
    }
}

impl BasePartitionProvider for Partition {
    open spec fn pview(&self) -> PartitionView {
        self@
    }

    fn get_label(&self) -> (r: &str) {
        self.label.as_str()
    }

    fn gpt_part_guid(&self) -> (r: &str) {
        self.guid.as_str()
    }

    fn gpt_part_type(&self) -> (r: &PartType) {
        &self.ptype
    }

    fn is_clean(&self) -> (r: bool) {
        self.is_clean
    }

    fn is_open(&self) -> (r: bool) {
        self.is_open
    }

    fn is_rw(&self) -> (r: bool) {
        self.is_rw
    }

    fn test_super_block(&self, fs: Option<&str>) -> (r: bool) {
        match fs {
            Option::Some(h) => self.sb_valid && str_eq(h, self.fs.as_str()),
            Option::None => self.sb_valid,
        }
    }
}

} // verus!
