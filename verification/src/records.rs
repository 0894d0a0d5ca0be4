//! The two keyed record stores: durable maps from an identifier to the
//! bytes of one record, read and written as records.

use crate::codec::{
    decode_profile, decode_report, encode_profile, encode_report, lemma_profile_bytes_len,
    lemma_report_bytes_len, parse_profile, parse_report, profile_bytes, profile_size,
    report_bytes, report_size, PROFILE_MAX_SIZE, REPORT_MAX_SIZE,
};
use crate::durable::{
    profile_entries, profile_map_get, profile_map_init, profile_map_insert,
    profile_map_is_empty, profile_map_remove, report_entries, report_map_get, report_map_init,
    report_map_insert, report_map_is_empty, report_map_remove, Partition, ProfileMap, ReportMap,
};
use crate::record::{Slot, TrafficReport, TrafficReportView, UserProfile, UserProfileView};
use vstd::prelude::*;

verus! {

impl<T: View> View for Slot<T> {
    type V = Slot<T::V>;

    open spec fn view(&self) -> Slot<T::V> {
        match self {
            Slot::Absent => Slot::Absent,
            Slot::Unreadable => Slot::Unreadable,
            Slot::Holds(record) => Slot::Holds(record@),
        }
    }
}

/// What the entries hold under `id`, read as a traffic report.
pub open spec fn report_slot(entries: Map<u64, Seq<u8>>, id: u64) -> Slot<TrafficReportView> {
    if !entries.contains_key(id) {
        Slot::Absent
    } else {
        match parse_report(entries[id]) {
            Some(report) => Slot::Holds(report),
            None => Slot::Unreadable,
        }
    }
}

/// What the entries hold under `id`, read as a user profile.
pub open spec fn profile_slot(entries: Map<u64, Seq<u8>>, id: u64) -> Slot<UserProfileView> {
    if !entries.contains_key(id) {
        Slot::Absent
    } else {
        match parse_profile(entries[id]) {
            Some(profile) => Slot::Holds(profile),
            None => Slot::Unreadable,
        }
    }
}

/// The store of traffic reports. Its view is the durable map: the bytes
/// stored under each identifier.
pub struct ReportStore {
    map: ReportMap,
}

impl View for ReportStore {
    type V = Map<u64, Seq<u8>>;

    closed spec fn view(&self) -> Map<u64, Seq<u8>> {
        report_entries(self.map)
    }
}

impl ReportStore {
    /// Opens the store that the partition holds; a partition that holds
    /// none gets an empty store. What the store holds depends on what the
    /// partition held, so nothing is promised of it: `is_empty` tells.
    pub(crate) fn open(memory: Partition) -> ReportStore {
        ReportStore { map: report_map_init(memory) }
    }

    /// Whether the store holds no entry.
    pub fn is_empty(&self) -> (empty: bool)
        ensures
            empty == (self@ == Map::<u64, Seq<u8>>::empty()),
    {
        let empty = report_map_is_empty(&self.map);
        assert(empty == (self@ =~= Map::<u64, Seq<u8>>::empty()));
        empty
    }

    /// Looks up the report stored under `id`.
    pub fn get(&self, id: u64) -> (found: Slot<TrafficReport>)
        ensures
            found@ == report_slot(self@, id),
    {
        match report_map_get(&self.map, id) {
            None => Slot::Absent,
            Some(bytes) => match decode_report(bytes.as_slice()) {
                Some(report) => Slot::Holds(report),
                None => Slot::Unreadable,
            },
        }
    }

    /// Stores `report` under `id`, in place of whatever was stored there.
    pub fn insert_or_replace(&mut self, id: u64, report: &TrafficReport)
        requires
            report_size(report@.description, report@.location) <= REPORT_MAX_SIZE,
        ensures
            final(self)@ == old(self)@.insert(id, report_bytes(report@)),
    {
        let bytes = encode_report(report);
        proof {
            lemma_report_bytes_len(report@);
        }
        report_map_insert(&mut self.map, id, &bytes);
    }

    /// Removes what is stored under `id` and returns it.
    pub fn remove(&mut self, id: u64) -> (removed: Slot<TrafficReport>)
        ensures
            removed@ == report_slot(old(self)@, id),
            final(self)@ == old(self)@.remove(id),
    {
        match report_map_remove(&mut self.map, id) {
            None => Slot::Absent,
            Some(bytes) => match decode_report(bytes.as_slice()) {
                Some(report) => Slot::Holds(report),
                None => Slot::Unreadable,
            },
        }
    }
}

/// The store of user profiles. Its view is the durable map: the bytes
/// stored under each identifier.
pub struct ProfileStore {
    map: ProfileMap,
}

impl View for ProfileStore {
    type V = Map<u64, Seq<u8>>;

    closed spec fn view(&self) -> Map<u64, Seq<u8>> {
        profile_entries(self.map)
    }
}

impl ProfileStore {
    /// Opens the store that the partition holds; a partition that holds
    /// none gets an empty store. What the store holds depends on what the
    /// partition held, so nothing is promised of it: `is_empty` tells.
    pub(crate) fn open(memory: Partition) -> ProfileStore {
        ProfileStore { map: profile_map_init(memory) }
    }

    /// Whether the store holds no entry.
    pub fn is_empty(&self) -> (empty: bool)
        ensures
            empty == (self@ == Map::<u64, Seq<u8>>::empty()),
    {
        let empty = profile_map_is_empty(&self.map);
        assert(empty == (self@ =~= Map::<u64, Seq<u8>>::empty()));
        empty
    }

    /// Looks up the profile stored under `id`. A profile that is found
    /// fits the durable map.
    pub fn get(&self, id: u64) -> (found: Slot<UserProfile>)
        ensures
            found@ == profile_slot(self@, id),
            found matches Slot::Holds(profile) ==> profile_size(profile@.username)
                <= PROFILE_MAX_SIZE,
    {
        match profile_map_get(&self.map, id) {
            None => Slot::Absent,
            Some(bytes) => match decode_profile(bytes.as_slice()) {
                Some(profile) => {
                    proof {
                        crate::codec::lemma_profile_encoding_is_unique(bytes@);
                        lemma_profile_bytes_len(profile@);
                    }
                    Slot::Holds(profile)
                },
                None => Slot::Unreadable,
            },
        }
    }

    /// Stores `profile` under `id`, in place of whatever was stored there.
    pub fn insert_or_replace(&mut self, id: u64, profile: &UserProfile)
        requires
            profile_size(profile@.username) <= PROFILE_MAX_SIZE,
        ensures
            final(self)@ == old(self)@.insert(id, profile_bytes(profile@)),
    {
        let bytes = encode_profile(profile);
        proof {
            lemma_profile_bytes_len(profile@);
        }
        profile_map_insert(&mut self.map, id, &bytes);
    }

    /// Removes what is stored under `id` and returns it.
    pub fn remove(&mut self, id: u64) -> (removed: Slot<UserProfile>)
        ensures
            removed@ == profile_slot(old(self)@, id),
            final(self)@ == old(self)@.remove(id),
    {
        match profile_map_remove(&mut self.map, id) {
            None => Slot::Absent,
            Some(bytes) => match decode_profile(bytes.as_slice()) {
                Some(profile) => Slot::Holds(profile),
                None => Slot::Unreadable,
            },
        }
    }
}

} // verus!
