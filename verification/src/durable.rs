//! The boundary to the durable structures of `ic_stable_structures`.
//!
//! Everything in this file is believed, not proved. The structs hold the
//! outside structures, the uninterpreted functions name what a structure
//! holds, and each wrapper states what the method it calls does to those
//! contents.
//!
//! The outside structures keep their bytes in a memory that can run out.
//! A write that cannot get the memory it needs does not return; nothing here
//! speaks of that, just as nothing speaks of a `Vec` that cannot allocate.

use ic_stable_structures::btreemap::BTreeMap as StableBTreeMap;
use ic_stable_structures::cell::{Cell, InitError, ValueError};
use ic_stable_structures::memory_manager::{MemoryId, MemoryManager, VirtualMemory};
use ic_stable_structures::storable::Blob;
use ic_stable_structures::DefaultMemoryImpl;
use vstd::prelude::*;

verus! {

/// The error of `Cell::init`.
#[verifier::external_type_specification]
#[verifier::external_body]
pub struct ExInitError(InitError);

/// The error of `Cell::set`.
#[verifier::external_type_specification]
#[verifier::external_body]
pub struct ExValueError(ValueError);

/// The durable region, divided into partitions by a `MemoryManager`.
#[verifier::external_body]
pub struct Region {
    manager: MemoryManager<DefaultMemoryImpl>,
}

/// One partition of the durable region: a `VirtualMemory`.
#[verifier::external_body]
pub struct Partition {
    memory: VirtualMemory<DefaultMemoryImpl>,
}

/// A durable `Cell` that holds one 64-bit number.
#[verifier::external_body]
pub struct IdCell {
    cell: Cell<u64, VirtualMemory<DefaultMemoryImpl>>,
}

/// A durable `BTreeMap` from identifiers to encoded traffic reports, with
/// values of at most 1024 bytes.
#[verifier::external_body]
pub struct ReportMap {
    map: StableBTreeMap<u64, Blob<1024>, VirtualMemory<DefaultMemoryImpl>>,
}

/// A durable `BTreeMap` from identifiers to encoded user profiles, with
/// values of at most 512 bytes.
#[verifier::external_body]
pub struct ProfileMap {
    map: StableBTreeMap<u64, Blob<512>, VirtualMemory<DefaultMemoryImpl>>,
}

/// The number that a cell holds.
pub uninterp spec fn cell_value(cell: IdCell) -> u64;

/// The entries that a report map holds, each value as its bytes.
pub uninterp spec fn report_entries(map: ReportMap) -> Map<u64, Seq<u8>>;

/// The entries that a profile map holds, each value as its bytes.
pub uninterp spec fn profile_entries(map: ProfileMap) -> Map<u64, Seq<u8>>;

/// Calls `MemoryManager::init` on the default memory of the platform. What
/// the region holds depends on what was written to it before, so nothing is
/// stated of the result. The outside call does not return if the region
/// starts like a memory manager's and is none that it can load.
#[verifier::external_body]
pub(crate) fn open_region() -> Region {
    Region { manager: MemoryManager::init(DefaultMemoryImpl::default()) }
}

/// Calls `MemoryManager::get` for the partition with the given index. The
/// index 255 is not one: `MemoryId::new` does not return on it.
///
/// Two handles for one index share their bytes. The other contracts in this
/// file hold of a structure that has its partition to itself.
#[verifier::external_body]
pub(crate) fn partition(region: &Region, index: u8) -> Partition
    requires
        index != 255,
{
    Partition { memory: region.manager.get(MemoryId::new(index)) }
}

/// Calls `Cell::init`, which loads the cell that the partition holds or,
/// where it holds none, writes a new one with the value `initial`. Which of
/// the two happens depends on the partition's bytes, so nothing is stated
/// of the result.
#[verifier::external_body]
pub(crate) fn cell_init(memory: Partition, initial: u64) -> Result<IdCell, InitError> {
    Cell::init(memory.memory, initial).map(|cell| IdCell { cell })
}

/// Calls `Cell::get`: the result is the number that the cell holds.
#[verifier::external_body]
pub(crate) fn cell_get(cell: &IdCell) -> (value: u64)
    ensures
        value == cell_value(*cell),
{
    *cell.cell.get()
}

/// Calls `Cell::set`. On success the cell holds `value` and the result is
/// the number that it held before; on failure the cell is unchanged.
#[verifier::external_body]
pub(crate) fn cell_set(cell: &mut IdCell, value: u64) -> (written: Result<u64, ValueError>)
    ensures
        match written {
            Ok(previous) => previous == cell_value(*old(cell)) && cell_value(*final(cell))
                == value,
            Err(_) => cell_value(*final(cell)) == cell_value(*old(cell)),
        },
{
    cell.cell.set(value)
}

/// Calls `BTreeMap::init`, which loads the map that the partition holds or
/// creates an empty one. Which of the two happens depends on the
/// partition's bytes, so nothing is stated of the result.
#[verifier::external_body]
pub(crate) fn report_map_init(memory: Partition) -> ReportMap {
    ReportMap { map: StableBTreeMap::init(memory.memory) }
}

/// Calls `BTreeMap::is_empty`.
#[verifier::external_body]
pub(crate) fn report_map_is_empty(map: &ReportMap) -> (empty: bool)
    ensures
        empty == (forall|key: u64| !report_entries(*map).contains_key(key)),
{
    map.map.is_empty()
}

/// Calls `BTreeMap::get`: the bytes stored under the key, if any. A stored
/// value has at most 1024 bytes, because a `Blob<1024>` holds no more.
#[verifier::external_body]
pub(crate) fn report_map_get(map: &ReportMap, key: u64) -> (found: Option<Vec<u8>>)
    ensures
        match found {
            Some(bytes) => report_entries(*map).contains_key(key) && bytes@ == report_entries(
                *map,
            )[key] && bytes@.len() <= 1024,
            None => !report_entries(*map).contains_key(key),
        },
{
    map.map.get(&key).map(|blob| blob.as_slice().to_vec())
}

/// Calls `BTreeMap::insert`: afterwards the key maps to `value`, and every
/// other entry is as before. A value of more than 1024 bytes is no
/// `Blob<1024>`.
#[verifier::external_body]
pub(crate) fn report_map_insert(map: &mut ReportMap, key: u64, value: &Vec<u8>)
    requires
        value@.len() <= 1024,
    ensures
        report_entries(*final(map)) == report_entries(*old(map)).insert(key, value@),
{
    map.map.insert(key, Blob::try_from(value.as_slice()).unwrap());
}

/// Calls `BTreeMap::remove`: the bytes that were stored under the key, if
/// any; afterwards the key is absent, and every other entry is as before.
#[verifier::external_body]
pub(crate) fn report_map_remove(map: &mut ReportMap, key: u64) -> (removed: Option<Vec<u8>>)
    ensures
        report_entries(*final(map)) == report_entries(*old(map)).remove(key),
        match removed {
            Some(bytes) => report_entries(*old(map)).contains_key(key) && bytes@
                == report_entries(*old(map))[key],
            None => !report_entries(*old(map)).contains_key(key),
        },
{
    map.map.remove(&key).map(|blob| blob.as_slice().to_vec())
}

/// Calls `BTreeMap::init`, as `report_map_init` does.
#[verifier::external_body]
pub(crate) fn profile_map_init(memory: Partition) -> ProfileMap {
    ProfileMap { map: StableBTreeMap::init(memory.memory) }
}

/// Calls `BTreeMap::is_empty`.
#[verifier::external_body]
pub(crate) fn profile_map_is_empty(map: &ProfileMap) -> (empty: bool)
    ensures
        empty == (forall|key: u64| !profile_entries(*map).contains_key(key)),
{
    map.map.is_empty()
}

/// Calls `BTreeMap::get`: the bytes stored under the key, if any. A stored
/// value has at most 512 bytes, because a `Blob<512>` holds no more.
#[verifier::external_body]
pub(crate) fn profile_map_get(map: &ProfileMap, key: u64) -> (found: Option<Vec<u8>>)
    ensures
        match found {
            Some(bytes) => profile_entries(*map).contains_key(key) && bytes@ == profile_entries(
                *map,
            )[key] && bytes@.len() <= 512,
            None => !profile_entries(*map).contains_key(key),
        },
{
    map.map.get(&key).map(|blob| blob.as_slice().to_vec())
}

/// Calls `BTreeMap::insert`: afterwards the key maps to `value`, and every
/// other entry is as before. A value of more than 512 bytes is no
/// `Blob<512>`.
#[verifier::external_body]
pub(crate) fn profile_map_insert(map: &mut ProfileMap, key: u64, value: &Vec<u8>)
    requires
        value@.len() <= 512,
    ensures
        profile_entries(*final(map)) == profile_entries(*old(map)).insert(key, value@),
{
    map.map.insert(key, Blob::try_from(value.as_slice()).unwrap());
}

/// Calls `BTreeMap::remove`: the bytes that were stored under the key, if
/// any; afterwards the key is absent, and every other entry is as before.
#[verifier::external_body]
pub(crate) fn profile_map_remove(map: &mut ProfileMap, key: u64) -> (removed: Option<Vec<u8>>)
    ensures
        profile_entries(*final(map)) == profile_entries(*old(map)).remove(key),
        match removed {
            Some(bytes) => profile_entries(*old(map)).contains_key(key) && bytes@
                == profile_entries(*old(map))[key],
            None => !profile_entries(*old(map)).contains_key(key),
        },
{
    map.map.remove(&key).map(|blob| blob.as_slice().to_vec())
}

} // verus!
