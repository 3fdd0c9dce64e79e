//! Device-class capability mixins and an in-memory backend.
//!
//! `EmmcStorageProvider` and `SdCapability`-style mixins are additive
//! capability sets layered on the base storage contract: a backend declares
//! which mixins it satisfies, and callers branch on capability presence, not
//! on a concrete device type.

use vstd::prelude::*;
use crate::errors::StorageError;
use crate::partition::{BasePartitionProvider, Partition, PartitionView};
use crate::storage::{BaseStorageDeviceProvider, BaseStorageIoProvider, spec_write_op_outcome};
use crate::text::str_eq;

verus! {

/// eMMC device-class capabilities: the forbidden and user-data flags, with
/// the derived write-protection predicates.
pub trait EmmcStorageProvider: BaseStorageDeviceProvider + BaseStorageIoProvider {
    /// Whether the whole device is forbidden: every write through it must
    /// fail, whatever any partition's read-write flag says.
    spec fn forbidden(&self) -> bool;

    /// Whether the device backs user data.
    spec fn userdata(&self) -> bool;

    /// Whether the device is a ROM storage.
    spec fn rom_storage_view(&self) -> bool;

    /// The forbidden flag; authoritative.
    fn is_forbidden(&self) -> (r: bool)
        ensures
            r == self.forbidden(),
    ;

    /// Whether the device backs user data.
    fn is_userdata(&self) -> (r: bool)
        ensures
            r == self.userdata(),
    ;

    /// Derived: a device is write-protected exactly when it is forbidden.
    fn is_write_protected(&self) -> (r: bool)
        ensures
            r == self.forbidden(),
    {
        self.is_forbidden()
    }

    /// Derived: a device is permitted exactly when it is not forbidden.
    fn is_permitted(&self) -> (r: bool)
        ensures
            r == !self.forbidden(),
    {
        !self.is_forbidden()
    }

    /// Whether the device is a ROM storage.
    fn is_rom_storage(&self) -> (r: bool)
        ensures
            r == self.rom_storage_view(),
    ;

    /// Device-level protection is the binding constraint: every
    /// implementation must show that a forbidden device allows no writes.
    proof fn forbidden_denies_writes(&self)
        ensures
            self.forbidden() ==> !self.write_allowed(),
    ;
}

/// SD device-class capabilities: ROM storage flag and operating voltage.
pub trait SdStorageProvider: BaseStorageDeviceProvider + BaseStorageIoProvider {
    /// Whether the card is a ROM storage.
    spec fn sd_rom_storage(&self) -> bool;

    /// The operating voltage, in millivolts.
    spec fn sd_voltage(&self) -> u16;

    /// Whether the card is a ROM storage.
    fn is_rom_storage(&self) -> (r: bool)
        ensures
            r == self.sd_rom_storage(),
    ;

    /// The operating voltage, in millivolts.
    fn get_sd_voltage(&self) -> (r: u16)
        ensures
            r == self.sd_voltage(),
    ;
}

/// Law: on every forbidden eMMC-capable device, each write-intent file
/// operation answers `PermissionDenied` — whatever the path, the medium's
/// readiness, or any partition's read-write flag.
pub proof fn lemma_forbidden_device_denies_writes<T: EmmcStorageProvider>(d: &T, path: Seq<char>)
    ensures
        d.forbidden() ==> spec_write_op_outcome(
            d.write_allowed(),
            d.present(),
            d.files().contains(path),
        ) == Result::<(), StorageError>::Err(StorageError::PermissionDenied),
{
    d.forbidden_denies_writes();
}

/// The set of path views held in a list of file paths.
pub open spec fn files_set(s: Seq<String>) -> Set<Seq<char>> {
    Set::new(|p: Seq<char>| exists|i: int| 0 <= i < s.len() && (#[trigger] s[i])@ == p)
}

proof fn lemma_files_set_push(s: Seq<String>, x: String)
    ensures
        files_set(s.push(x)) == files_set(s).insert(x@),
{
    assert forall|p: Seq<char>|
        files_set(s.push(x)).contains(p) == files_set(s).insert(x@).contains(p) by {
        if files_set(s.push(x)).contains(p) {
            let i = choose|i: int| 0 <= i < s.push(x).len() && (#[trigger] s.push(x)[i])@ == p;
            if i < s.len() {
                assert(s[i]@ == p);
            } else {
                assert(p == x@);
            }
        }
        if files_set(s).contains(p) {
            let i = choose|i: int| 0 <= i < s.len() && (#[trigger] s[i])@ == p;
            assert(s.push(x)[i]@ == p);
        }
        if p == x@ {
            assert(s.push(x)[s.len() as int]@ == p);
        }
    }
    assert(files_set(s.push(x)) =~= files_set(s).insert(x@));
}

/// Copy `files` without any entry equal to `path`, and report whether one
/// was there.
fn retain_without(files: &Vec<String>, path: &str) -> (r: (Vec<String>, bool))
    ensures
        files_set(r.0@) == files_set(files@).remove(path@),
        r.1 == files_set(files@).contains(path@),
{
    let n = files.len();
    let mut kept: Vec<String> = Vec::new();
    let mut found = false;
    let mut i: usize = 0;
    while i < n
        invariant
            n == files@.len(),
            i <= n,
            found == files_set(files@.take(i as int)).contains(path@),
            files_set(kept@) == files_set(files@.take(i as int)).remove(path@),
        decreases n - i,
    {
        let ghost prefix = files@.take(i as int);
        let entry = &files[i];
        proof {
            assert(files@.take(i as int + 1) =~= prefix.push(files@[i as int]));
            lemma_files_set_push(prefix, files@[i as int]);
        }
        if str_eq(entry.as_str(), path) {
            found = true;
            proof {
                assert(files_set(files@.take(i as int + 1)).contains(path@));
                assert(files_set(files@.take(i as int + 1)).remove(path@)
                    =~= files_set(prefix).remove(path@));
            }
        } else {
            let ghost kept_before = kept@;
            kept.push(entry.clone());
            proof {
                lemma_files_set_push(kept_before, files@[i as int]);
                assert(files_set(files@.take(i as int + 1)).remove(path@)
                    =~= files_set(prefix).remove(path@).insert(entry@));
            }
        }
        i = i + 1;
    }
    proof {
        assert(files@.take(n as int) =~= files@);
    }
    (kept, found)
}

/// Whether `path` occurs in `files`.
fn has_file(files: &Vec<String>, path: &str) -> (r: bool)
    ensures
        r == files_set(files@).contains(path@),
{
    let n = files.len();
    let mut i: usize = 0;
    while i < n
        invariant
            n == files@.len(),
            i <= n,
            forall|j: int| 0 <= j < i ==> (#[trigger] files@[j])@ != path@,
        decreases n - i,
    {
        if str_eq(files[i].as_str(), path) {
            return true;
        }
        i = i + 1;
    }
    false
}

/// Two devices with the same partition list answer every table query alike.
proof fn lemma_table_preserved(a: &RamDevice, b: &RamDevice)
    requires
        a.parts@ == b.parts@,
    ensures
        a.wf() == b.wf(),
        forall|n: Seq<char>| #[trigger] a.resolves(n) == b.resolves(n),
        b.wf() ==> forall|n: Seq<char>|
            b.resolves(n) ==> #[trigger] a.part_info(n) == b.part_info(n),
{
    assert(a.wf() == b.wf()) by {
        if a.wf() {
            assert forall|i: int, j: int|
                #![trigger b.parts@[i], b.parts@[j]]
                0 <= i < j < b.parts@.len() implies b.parts@[i]@.label != b.parts@[j]@.label by {
                assert(a.parts@[i]@.label != a.parts@[j]@.label);
            }
        }
        if b.wf() {
            assert forall|i: int, j: int|
                #![trigger a.parts@[i], a.parts@[j]]
                0 <= i < j < a.parts@.len() implies a.parts@[i]@.label != a.parts@[j]@.label by {
                assert(b.parts@[i]@.label != b.parts@[j]@.label);
            }
        }
    }
    assert forall|n: Seq<char>| #[trigger] a.resolves(n) == b.resolves(n) by {
        if a.resolves(n) {
            let i = choose|i: int|
                0 <= i < a.parts@.len() && (#[trigger] a.parts@[i])@.label == n;
            assert(b.parts@[i]@.label == n);
            assert(b.resolves(n));
        }
        if b.resolves(n) {
            let i = choose|i: int|
                0 <= i < b.parts@.len() && (#[trigger] b.parts@[i])@.label == n;
            assert(a.parts@[i]@.label == n);
            assert(a.resolves(n));
        }
    }
    if b.wf() {
        assert forall|n: Seq<char>| b.resolves(n) implies #[trigger] a.part_info(n)
            == b.part_info(n) by {
            assert(a.resolves(n));
            let i = choose|i: int|
                0 <= i < a.parts@.len() && (#[trigger] a.parts@[i])@.label == n;
            let j = choose|j: int|
                0 <= j < b.parts@.len() && (#[trigger] b.parts@[j])@.label == n;
            assert(a.parts@[i]@.label == n);
            assert(b.parts@[j]@.label == n);
            if i < j {
                assert(b.parts@[i]@.label != b.parts@[j]@.label);
            } else if j < i {
                assert(b.parts@[j]@.label != b.parts@[i]@.label);
            }
            assert(a.part_info(n) == a.parts@[i]@);
            assert(b.part_info(n) == b.parts@[j]@);
        }
    }
}

/// An in-memory storage backend: a partition table, a flat file table, the
/// device-class flags, and the flush accounting. It satisfies both the eMMC
/// and the SD capability sets, so one backend serves boot stages and tests
/// on either device class.
pub struct RamDevice {
    parts: Vec<Partition>,
    files: Vec<String>,
    present: bool,
    forbidden: bool,
    userdata: bool,
    rom_storage: bool,
    voltage: u16,
    pending: u64,
    durable: u64,
}

impl RamDevice {
    /// Assemble a device from probed facts.
    ///
    /// The partition labels must be distinct: one name resolves to one
    /// partition.
    pub fn new(
        parts: Vec<Partition>,
        files: Vec<String>,
        present: bool,
        forbidden: bool,
        userdata: bool,
        rom_storage: bool,
        voltage: u16,
    ) -> (r: RamDevice)
        requires
            forall|i: int, j: int|
                #![trigger parts@[i], parts@[j]]
                0 <= i < j < parts@.len() ==> parts@[i]@.label != parts@[j]@.label,
        ensures
            r.wf(),
            r.present() == present,
            r.forbidden() == forbidden,
            r.userdata() == userdata,
            r.rom_storage_view() == rom_storage,
            r.sd_rom_storage() == rom_storage,
            r.sd_voltage() == voltage,
            r.write_allowed() == !forbidden,
            r.pending_writes() == 0,
            r.durable_writes() == 0,
            r.files() == files_set(files@),
            forall|n: Seq<char>|
                #[trigger] r.resolves(n) == exists|i: int|
                    0 <= i < parts@.len() && (#[trigger] parts@[i])@.label == n,
            forall|i: int|
                0 <= i < parts@.len() ==> r.part_info((#[trigger] parts@[i])@.label) == parts@[i]@,
    {
        let r = RamDevice {
            parts,
            files,
            present,
            forbidden,
            userdata,
            rom_storage,
            voltage,
            pending: 0,
            durable: 0,
        };
        proof {
            assert forall|n: Seq<char>| #[trigger] r.resolves(n) == (exists|i: int|
                0 <= i < parts@.len() && (#[trigger] parts@[i])@.label == n) by {
                if r.resolves(n) {
                    let i = choose|i: int|
                        0 <= i < r.parts@.len() && (#[trigger] r.parts@[i])@.label == n;
                    assert(parts@[i]@.label == n);
                }
                if exists|i: int| 0 <= i < parts@.len() && (#[trigger] parts@[i])@.label == n {
                    let i = choose|i: int|
                        0 <= i < parts@.len() && (#[trigger] parts@[i])@.label == n;
                    assert(r.parts@[i]@.label == n);
                }
            }
            assert forall|i: int|
                0 <= i < r.parts@.len() implies r.part_info(
                #[trigger] r.parts@[i]@.label,
            ) == r.parts@[i]@ by {
                let n = r.parts@[i]@.label;
                assert(r.resolves(n));
                let k = choose|k: int| 0 <= k < r.parts@.len() && (#[trigger] r.parts@[k])@.label == n;
                if k != i {
                    assert(r.parts@[i]@.label != r.parts@[k]@.label);
                }
            }
        }
        r
    }

    /// Number of writes issued and not yet acknowledged as durable.
    pub fn pending_write_count(&self) -> (r: u64)
        ensures
            r as nat == self.pending_writes(),
    {
        self.pending
    }

    /// Number of writes the medium has acknowledged as durable.
    pub fn durable_write_count(&self) -> (r: u64)
        ensures
            r as nat == self.durable_writes(),
    {
        self.durable
    }

    /// Find the index of the partition labelled `name`.
    fn find_part(&self, name: &str) -> (r: Option<usize>)
        requires
            self.wf(),
        ensures
            match r {
                Option::Some(i) => self.resolves(name@) && i < self.parts@.len()
                    && self.part_info(name@) == self.parts@[i as int]@,
                Option::None => !self.resolves(name@),
            },
    {
        let n = self.parts.len();
        let mut i: usize = 0;
        while i < n
            invariant
                self.wf(),
                n == self.parts@.len(),
                i <= n,
                forall|j: int| 0 <= j < i ==> (#[trigger] self.parts@[j])@.label != name@,
            decreases n - i,
        {
            if str_eq(self.parts[i].get_label(), name) {
                proof {
                    assert(self.parts@[i as int]@.label == name@);
                    assert(self.resolves(name@));
                    let k = choose|k: int|
                        0 <= k < self.parts@.len() && (#[trigger] self.parts@[k])@.label == name@;
                    if k != i {
                        assert(self.parts@[i as int]@.label != self.parts@[k]@.label);
                    }
                }
                return Option::Some(i);
            }
            i = i + 1;
        }
        Option::None
    }
}

impl BaseStorageDeviceProvider for RamDevice {
    closed spec fn wf(&self) -> bool {
        forall|i: int, j: int|
            #![trigger self.parts@[i], self.parts@[j]]
            0 <= i < j < self.parts@.len() ==> self.parts@[i]@.label != self.parts@[j]@.label
    }

    closed spec fn present(&self) -> bool {
        self.present
    }

    closed spec fn resolves(&self, name: Seq<char>) -> bool {
        exists|i: int| 0 <= i < self.parts@.len() && (#[trigger] self.parts@[i])@.label == name
    }

    closed spec fn part_info(&self, name: Seq<char>) -> PartitionView {
        self.parts@[choose|i: int|
            0 <= i < self.parts@.len() && (#[trigger] self.parts@[i])@.label == name]@
    }

    closed spec fn pending_writes(&self) -> nat {
        self.pending as nat
    }

    closed spec fn durable_writes(&self) -> nat {
        self.durable as nat
    }

    fn open(&self, part: &str, fs: Option<&str>) -> (r: Result<Partition, StorageError>) {
        if !self.present {
            return Result::Err(StorageError::DeviceUnavailable);
        }
        match self.find_part(part) {
            Option::Some(i) => {
                let found = &self.parts[i];
                match fs {
                    Option::Some(h) => {
                        if !str_eq(h, found.fs_type()) {
                            Result::Err(StorageError::UnsupportedFilesystem)
                        } else if !found.superblock_valid() {
                            Result::Err(StorageError::CorruptFilesystem)
                        } else {
                            Result::Ok(found.as_open_handle())
                        }
                    },
                    Option::None => Result::Ok(found.as_open_handle()),
                }
            },
            Option::None => Result::Err(StorageError::NotFound),
        }
    }

    fn sync(&mut self) {
        self.durable = self.durable + self.pending;
        self.pending = 0;
        proof {
            lemma_table_preserved(self, old(self));
        }
    }

    fn test_super_block(&self, part: &str, fs: Option<&str>) -> (r: bool) {
        if !self.present {
            return false;
        }
        match self.find_part(part) {
            Option::Some(i) => {
                let found = &self.parts[i];
                match fs {
                    Option::Some(h) => found.superblock_valid() && str_eq(h, found.fs_type()),
                    Option::None => found.superblock_valid(),
                }
            },
            Option::None => false,
        }
    }
}

impl BaseStorageIoProvider for RamDevice {
    closed spec fn write_allowed(&self) -> bool {
        !self.forbidden
    }

    closed spec fn files(&self) -> Set<Seq<char>> {
        files_set(self.files@)
    }

    fn open_file(&self, path: &str) -> (r: Result<(), StorageError>) {
        if self.forbidden {
            Result::Err(StorageError::PermissionDenied)
        } else if !self.present {
            Result::Err(StorageError::DeviceUnavailable)
        } else if !has_file(&self.files, path) {
            Result::Err(StorageError::NotFound)
        } else {
            Result::Ok(())
        }
    }

    fn delete_file(&mut self, path: &str) -> (r: Result<(), StorageError>) {
        if self.forbidden {
            return Result::Err(StorageError::PermissionDenied);
        }
        if !self.present {
            return Result::Err(StorageError::DeviceUnavailable);
        }
        let (kept, found) = retain_without(&self.files, path);
        if !found {
            return Result::Err(StorageError::NotFound);
        }
        self.files = kept;
        self.pending = self.pending + 1;
        proof {
            lemma_table_preserved(self, old(self));
        }
        Result::Ok(())
    }

    fn rename_file(&mut self, path: &str, new_name: &str) -> (r: Result<(), StorageError>) {
        if self.forbidden {
            return Result::Err(StorageError::PermissionDenied);
        }
        if !self.present {
            return Result::Err(StorageError::DeviceUnavailable);
        }
        let (mut kept, found) = retain_without(&self.files, path);
        if !found {
            return Result::Err(StorageError::NotFound);
        }
        let ghost kept_view = kept@;
        kept.push(new_name.to_owned());
        proof {
            lemma_files_set_push(kept_view, kept@[kept_view.len() as int]);
        }
        self.files = kept;
        self.pending = self.pending + 1;
        proof {
            lemma_table_preserved(self, old(self));
        }
        Result::Ok(())
    }
}

impl EmmcStorageProvider for RamDevice {
    closed spec fn forbidden(&self) -> bool {
        self.forbidden
    }

    closed spec fn userdata(&self) -> bool {
        self.userdata
    }

    closed spec fn rom_storage_view(&self) -> bool {
        self.rom_storage
    }

    fn is_forbidden(&self) -> (r: bool) {
        self.forbidden
    }

    fn is_userdata(&self) -> (r: bool) {
        self.userdata
    }

    fn is_rom_storage(&self) -> (r: bool) {
        self.rom_storage
    }

    proof fn forbidden_denies_writes(&self) {
    }
}

impl SdStorageProvider for RamDevice {
    closed spec fn sd_rom_storage(&self) -> bool {
        self.rom_storage
    }

    closed spec fn sd_voltage(&self) -> u16 {
        self.voltage
    }

    fn is_rom_storage(&self) -> (r: bool) {
        self.rom_storage
    }

    fn get_sd_voltage(&self) -> (r: u16) {
        self.voltage
    }
}

} // verus!
