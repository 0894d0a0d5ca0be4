//! The store: two counters and two record stores in four partitions of one
//! durable region, and the operations on traffic reports and user profiles.
//!
//! Creating a report writes to two record stores in turn. If the reward
//! cannot be given, the report stays stored and the identifier stays used:
//! nothing is rolled back.

use crate::codec::{
    profile_bytes, profile_size, report_bytes, report_size, PROFILE_FIXED_SIZE, REPORT_FIXED_SIZE,
    REPORT_MAX_SIZE,
};
use crate::counter::IdCounter;
use crate::durable::{open_region, partition};
use crate::record::{
    AppError, AppErrorView, Slot, TrafficReport, TrafficReportView, UserProfile, UserProfileView,
};
use crate::records::{profile_slot, report_slot, ProfileStore, ReportStore};
use crate::text::{
    counter_failure_text, default_username, id_failure_text, lemma_decimal_is_ascii,
    lemma_decimal_len, make_default_username, report_not_found_text, report_unreadable_text,
    reward_overflow_text, user_not_found_text, user_unreadable_text,
};
use vstd::prelude::*;
use vstd::utf8::{encode_utf8, is_ascii_chars, is_ascii_chars_encode_utf8};

verus! {

/// The partition of the counter that issues report identifiers.
pub const REPORT_COUNTER_PARTITION: u8 = 0;

/// The partition of the counter that is kept for user identifiers.
pub const USER_COUNTER_PARTITION: u8 = 1;

/// The partition of the traffic reports.
pub const REPORT_PARTITION: u8 = 2;

/// The partition of the user profiles.
pub const PROFILE_PARTITION: u8 = 3;

/// The points that a user earns with one report.
pub const REPORT_REWARD: u64 = 10;

/// The store of traffic reports and user profiles.
pub struct TrafficStore {
    report_ids: IdCounter,
    user_ids: IdCounter,
    reports: ReportStore,
    profiles: ProfileStore,
}

/// What the store is to the contracts: the two counters, and under each
/// identifier the bytes that the two durable maps hold.
pub ghost struct StoreView {
    pub report_counter: u64,
    pub user_counter: u64,
    pub reports: Map<u64, Seq<u8>>,
    pub profiles: Map<u64, Seq<u8>>,
}

impl View for TrafficStore {
    type V = StoreView;

    closed spec fn view(&self) -> StoreView {
        StoreView {
            report_counter: self.report_ids@,
            user_counter: self.user_ids@,
            reports: self.reports@,
            profiles: self.profiles@,
        }
    }
}

/// The text of an optional argument.
pub open spec fn text_view(text: Option<String>) -> Option<Seq<char>> {
    match text {
        Some(text) => Some(text@),
        None => None,
    }
}

impl StoreView {
    /// A store in which no identifier has been issued and nothing is stored.
    pub open spec fn is_fresh(self) -> bool {
        &&& self.report_counter == 0
        &&& self.user_counter == 0
        &&& self.reports == Map::<u64, Seq<u8>>::empty()
        &&& self.profiles == Map::<u64, Seq<u8>>::empty()
    }

    /// What is stored under `id` as a traffic report.
    pub open spec fn report(self, id: u64) -> Slot<TrafficReportView> {
        report_slot(self.reports, id)
    }

    /// What is stored under `user_id` as a user profile.
    pub open spec fn profile(self, user_id: u64) -> Slot<UserProfileView> {
        profile_slot(self.profiles, user_id)
    }

    /// The store with `report` stored under `id`.
    pub open spec fn put_report(self, id: u64, report: TrafficReportView) -> StoreView {
        StoreView { reports: self.reports.insert(id, report_bytes(report)), ..self }
    }

    /// The store with nothing stored under `id` as a traffic report.
    pub open spec fn drop_report(self, id: u64) -> StoreView {
        StoreView { reports: self.reports.remove(id), ..self }
    }

    /// The store with `profile` stored under `user_id`.
    pub open spec fn put_profile(self, user_id: u64, profile: UserProfileView) -> StoreView {
        StoreView { profiles: self.profiles.insert(user_id, profile_bytes(profile)), ..self }
    }

    /// The store with nothing stored under `user_id` as a user profile.
    pub open spec fn drop_profile(self, user_id: u64) -> StoreView {
        StoreView { profiles: self.profiles.remove(user_id), ..self }
    }

    /// The identifier that the next report gets.
    pub open spec fn next_report_id(self) -> u64
        recommends
            self.report_counter < u64::MAX,
    {
        (self.report_counter + 1) as u64
    }

    /// The store after the next report identifier has been issued.
    pub open spec fn issue_report_id(self) -> StoreView {
        StoreView { report_counter: self.next_report_id(), ..self }
    }

    /// Whether the user can be given a reward of `points` points: not if
    /// the stored profile is unreadable, and not if a total would pass the
    /// largest number.
    pub open spec fn can_reward(self, user_id: u64, points: u64) -> bool {
        match self.profile(user_id) {
            Slot::Absent => true,
            Slot::Unreadable => false,
            Slot::Holds(profile) => profile.can_accrue(points),
        }
    }

    /// The profile of the user before a reward: the stored one, or the
    /// initial one if none is stored.
    pub open spec fn profile_or_initial(self, user_id: u64) -> UserProfileView {
        match self.profile(user_id) {
            Slot::Holds(profile) => profile,
            _ => UserProfileView::initial(user_id),
        }
    }

    /// The store after the user has been given a reward of `points` points.
    pub open spec fn reward(self, user_id: u64, points: u64) -> StoreView
        recommends
            self.can_reward(user_id, points),
    {
        self.put_profile(user_id, self.profile_or_initial(user_id).accrued(points))
    }

    /// The error for a reward that cannot be given.
    pub open spec fn reward_error(self, user_id: u64) -> AppErrorView
        recommends
            self.profile(user_id) !is Absent,
    {
        if self.profile(user_id) is Unreadable {
            AppErrorView::OperationFailed(user_unreadable_text(user_id))
        } else {
            AppErrorView::OperationFailed(reward_overflow_text(user_id))
        }
    }

    /// The store after a report has been created and its reporter rewarded.
    pub open spec fn create_report(self, report: TrafficReportView) -> StoreView {
        self.issue_report_id().put_report(report.id, report).reward(
            report.reporter_id,
            REPORT_REWARD,
        )
    }

    /// Whether the report stored under `id`, if there is one, still fits
    /// the durable map when the texts that are supplied replace its own.
    pub open spec fn update_fits(
        self,
        id: u64,
        description: Option<Seq<char>>,
        location: Option<Seq<char>>,
    ) -> bool {
        match self.report(id) {
            Slot::Holds(stored) => {
                let revised = stored.revised(description, location, None);
                report_size(revised.description, revised.location) <= REPORT_MAX_SIZE
            },
            _ => true,
        }
    }
}

/// What creating `report` may do to the store `before`, where `report`
/// carries the identifier that is next in `before`.
///
/// On success the report is returned, and it has been stored and its
/// reporter rewarded. There are two ways to fail. No identifier could be
/// issued: then nothing has changed. Or the reward could not be given: then
/// the identifier is used and the report is stored.
pub open spec fn creation_outcome(
    before: StoreView,
    report: TrafficReportView,
    after: StoreView,
    result: Result<TrafficReport, AppError>,
) -> bool {
    let stored = before.issue_report_id().put_report(report.id, report);
    match result {
        Ok(created) => {
            &&& before.report_counter < u64::MAX
            &&& created@ == report
            &&& stored.can_reward(report.reporter_id, REPORT_REWARD)
            &&& after == before.create_report(report)
        },
        Err(error) => {
            ||| {
                &&& error@ == AppErrorView::OperationFailed(id_failure_text())
                &&& after == before
            }
            ||| {
                &&& before.report_counter < u64::MAX
                &&& !stored.can_reward(report.reporter_id, REPORT_REWARD)
                &&& error@ == stored.reward_error(report.reporter_id)
                &&& after == stored
            }
        },
    }
}

/// The initial profile of every user fits the durable map.
pub proof fn lemma_initial_profile_fits(user_id: u64)
    ensures
        profile_size(default_username(user_id)) <= PROFILE_FIXED_SIZE + 24,
{
    reveal_strlit("User");
    lemma_decimal_len(user_id);
    lemma_decimal_is_ascii(user_id as nat);
    let name = default_username(user_id);
    assert(is_ascii_chars(name));
    is_ascii_chars_encode_utf8(name);
}

/// The number of bytes of a text, as far as it matters: the exact number
/// up to the limit, and the limit plus one for every longer text.
fn text_size(text: &str, limit: usize) -> (size: usize)
    requires
        limit < usize::MAX,
    ensures
        size == (if encode_utf8(text@).len() <= limit {
            encode_utf8(text@).len()
        } else {
            (limit + 1) as nat
        }),
{
    let size = text.as_bytes().len();
    if size <= limit {
        size
    } else {
        limit + 1
    }
}

impl TrafficStore {
    /// Opens the store in the durable region of the platform: the counter
    /// of report identifiers in partition 0, the counter kept for user
    /// identifiers in partition 1, the traffic reports in partition 2 and
    /// the user profiles in partition 3. A partition that holds nothing yet
    /// gets a counter at zero or an empty store; one that was written
    /// before is taken up as it is, so nothing is promised of what the
    /// store holds: `is_fresh` tells.
    pub fn open() -> (opened: Result<TrafficStore, AppError>)
        ensures
            opened matches Err(error) ==> error@ == AppErrorView::OperationFailed(
                counter_failure_text(),
            ),
    {
        let region = open_region();
        let report_ids = match IdCounter::open(partition(&region, REPORT_COUNTER_PARTITION)) {
            Some(counter) => counter,
            None => {
                return Err(AppError::counter_failure());
            },
        };
        let user_ids = match IdCounter::open(partition(&region, USER_COUNTER_PARTITION)) {
            Some(counter) => counter,
            None => {
                return Err(AppError::counter_failure());
            },
        };
        let reports = ReportStore::open(partition(&region, REPORT_PARTITION));
        let profiles = ProfileStore::open(partition(&region, PROFILE_PARTITION));
        Ok(TrafficStore { report_ids, user_ids, reports, profiles })
    }

    /// Whether no identifier has been issued and nothing is stored.
    pub fn is_fresh(&self) -> (fresh: bool)
        ensures
            fresh == self@.is_fresh(),
    {
        self.report_ids.current() == 0 && self.user_ids.current() == 0 && self.reports.is_empty()
            && self.profiles.is_empty()
    }

    /// Whether a report with these texts can be created: whether its
    /// encoding fits the durable map.
    pub fn report_fits(description: &str, location: &str) -> (fits: bool)
        ensures
            fits == (report_size(description@, location@) <= REPORT_MAX_SIZE),
    {
        crate::codec::report_fits(description, location)
    }

    /// Creates a traffic report. The report gets the next identifier, the
    /// given time and is not resolved; it is stored, and then the reporter
    /// is rewarded with ten points.
    ///
    /// No identifier is issued once the counter stands at the largest
    /// number, or when the durable write of the counter fails: then nothing
    /// changes. If the reward cannot be given, the error is that of the
    /// reward, and the report stays stored under its identifier.
    pub fn add_traffic_report(
        &mut self,
        description: String,
        location: String,
        severity: u8,
        reporter_id: u64,
        timestamp: u64,
    ) -> (result: Result<TrafficReport, AppError>)
        requires
            report_size(description@, location@) <= REPORT_MAX_SIZE,
        ensures
            creation_outcome(
                old(self)@,
                TrafficReportView::created(
                    old(self)@.next_report_id(),
                    reporter_id,
                    description@,
                    location@,
                    timestamp,
                    severity,
                ),
                final(self)@,
                result,
            ),
    {
        let id = match self.report_ids.next() {
            Some(id) => id,
            None => {
                return Err(AppError::id_failure());
            },
        };
        let report = TrafficReport {
            id,
            reporter_id,
            description,
            location,
            timestamp,
            severity,
            resolved: false,
        };
        self.reports.insert_or_replace(id, &report);
        match self.update_user_profile(reporter_id, REPORT_REWARD) {
            Ok(_) => Ok(report),
            Err(error) => Err(error),
        }
    }

    /// Returns the traffic report stored under `id`.
    pub fn get_traffic_report(&self, id: u64) -> (result: Result<TrafficReport, AppError>)
        ensures
            match self@.report(id) {
                Slot::Absent => result matches Err(error) && error@ == AppErrorView::NotFound(
                    report_not_found_text(id),
                ),
                Slot::Unreadable => result matches Err(error) && error@
                    == AppErrorView::OperationFailed(report_unreadable_text(id)),
                Slot::Holds(stored) => result matches Ok(report) && report@ == stored,
            },
    {
        match self.reports.get(id) {
            Slot::Absent => Err(AppError::report_not_found(id)),
            Slot::Unreadable => Err(AppError::report_unreadable(id)),
            Slot::Holds(report) => Ok(report),
        }
    }

    /// Whether the report stored under `id`, if there is one, still fits
    /// the durable map when the texts that are supplied replace its own.
    pub fn update_fits(
        &self,
        id: u64,
        description: &Option<String>,
        location: &Option<String>,
    ) -> (fits: bool)
        ensures
            fits == self@.update_fits(id, text_view(*description), text_view(*location)),
    {
        match self.reports.get(id) {
            Slot::Holds(stored) => {
                let room = REPORT_MAX_SIZE - REPORT_FIXED_SIZE;
                let description_size = match description {
                    Some(text) => text_size(text.as_str(), room),
                    None => text_size(stored.description.as_str(), room),
                };
                let location_size = match location {
                    Some(text) => text_size(text.as_str(), room),
                    None => text_size(stored.location.as_str(), room),
                };
                description_size <= room && location_size <= room - description_size
            },
            _ => true,
        }
    }

    /// Updates the traffic report stored under `id`: each field that is
    /// supplied replaces the stored one, and the report is stored again.
    /// The identifier, the reporter, the time and the resolved flag stay.
    pub fn update_traffic_report(
        &mut self,
        id: u64,
        description: Option<String>,
        location: Option<String>,
        severity: Option<u8>,
    ) -> (result: Result<TrafficReport, AppError>)
        requires
            old(self)@.update_fits(id, text_view(description), text_view(location)),
        ensures
            match old(self)@.report(id) {
                Slot::Absent => {
                    &&& result matches Err(error) && error@ == AppErrorView::NotFound(
                        report_not_found_text(id),
                    )
                    &&& final(self)@ == old(self)@
                },
                Slot::Unreadable => {
                    &&& result matches Err(error) && error@ == AppErrorView::OperationFailed(
                        report_unreadable_text(id),
                    )
                    &&& final(self)@ == old(self)@
                },
                Slot::Holds(stored) => {
                    &&& result matches Ok(report) && report@ == stored.revised(
                        text_view(description),
                        text_view(location),
                        severity,
                    )
                    &&& final(self)@ == old(self)@.put_report(
                        id,
                        stored.revised(text_view(description), text_view(location), severity),
                    )
                },
            },
    {
        match self.reports.get(id) {
            Slot::Absent => Err(AppError::report_not_found(id)),
            Slot::Unreadable => Err(AppError::report_unreadable(id)),
            Slot::Holds(stored) => {
                let mut report = stored;
                if let Some(text) = description {
                    report.description = text;
                }
                if let Some(text) = location {
                    report.location = text;
                }
                if let Some(level) = severity {
                    report.severity = level;
                }
                self.reports.insert_or_replace(id, &report);
                Ok(report)
            },
        }
    }

    /// Deletes what is stored under `id` as a traffic report, and returns
    /// the report that was stored.
    pub fn delete_traffic_report(&mut self, id: u64) -> (result: Result<TrafficReport, AppError>)
        ensures
            final(self)@ == old(self)@.drop_report(id),
            match old(self)@.report(id) {
                Slot::Absent => result matches Err(error) && error@ == AppErrorView::NotFound(
                    report_not_found_text(id),
                ),
                Slot::Unreadable => result matches Err(error) && error@
                    == AppErrorView::OperationFailed(report_unreadable_text(id)),
                Slot::Holds(stored) => result matches Ok(report) && report@ == stored,
            },
    {
        match self.reports.remove(id) {
            Slot::Absent => Err(AppError::report_not_found(id)),
            Slot::Unreadable => Err(AppError::report_unreadable(id)),
            Slot::Holds(report) => Ok(report),
        }
    }

    /// Rewards a user: adds `points` to the points of the profile and one
    /// to its contributions, stores the profile and returns it. A user
    /// without a profile gets the initial one first, named `User` and the
    /// identifier in decimal.
    ///
    /// The reward is not given, and nothing changes, if a total would pass
    /// the largest number or if the stored profile is unreadable.
    pub fn update_user_profile(&mut self, user_id: u64, points: u64) -> (result: Result<
        UserProfile,
        AppError,
    >)
        ensures
            if old(self)@.can_reward(user_id, points) {
                &&& result matches Ok(profile) && profile@ == old(self)@.profile_or_initial(
                    user_id,
                ).accrued(points)
                &&& final(self)@ == old(self)@.reward(user_id, points)
            } else {
                &&& result matches Err(error) && error@ == old(self)@.reward_error(user_id)
                &&& final(self)@ == old(self)@
            },
    {
        let mut profile = match self.profiles.get(user_id) {
            Slot::Holds(stored) => stored,
            Slot::Unreadable => {
                return Err(AppError::user_unreadable(user_id));
            },
            Slot::Absent => {
                proof {
                    lemma_initial_profile_fits(user_id);
                }
                UserProfile {
                    id: user_id,
                    username: make_default_username(user_id),
                    points: 0,
                    contributions: 0,
                    route_tokens: 0,
                }
            },
        };
        let total = match profile.points.checked_add(points) {
            Some(total) => total,
            None => {
                return Err(AppError::reward_overflow(user_id));
            },
        };
        let contributions = match profile.contributions.checked_add(1) {
            Some(contributions) => contributions,
            None => {
                return Err(AppError::reward_overflow(user_id));
            },
        };
        profile.points = total;
        profile.contributions = contributions;
        self.profiles.insert_or_replace(user_id, &profile);
        Ok(profile)
    }

    /// Returns the user profile stored under `user_id`. A user without a
    /// profile is not given one.
    pub fn get_user_profile(&self, user_id: u64) -> (result: Result<UserProfile, AppError>)
        ensures
            match self@.profile(user_id) {
                Slot::Absent => result matches Err(error) && error@ == AppErrorView::NotFound(
                    user_not_found_text(user_id),
                ),
                Slot::Unreadable => result matches Err(error) && error@
                    == AppErrorView::OperationFailed(user_unreadable_text(user_id)),
                Slot::Holds(stored) => result matches Ok(profile) && profile@ == stored,
            },
    {
        match self.profiles.get(user_id) {
            Slot::Absent => Err(AppError::user_not_found(user_id)),
            Slot::Unreadable => Err(AppError::user_unreadable(user_id)),
            Slot::Holds(profile) => Ok(profile),
        }
    }

    /// Deletes what is stored under `user_id` as a user profile, and
    /// returns the profile that was stored.
    pub fn delete_user_profile(&mut self, user_id: u64) -> (result: Result<UserProfile, AppError>)
        ensures
            final(self)@ == old(self)@.drop_profile(user_id),
            match old(self)@.profile(user_id) {
                Slot::Absent => result matches Err(error) && error@ == AppErrorView::NotFound(
                    user_not_found_text(user_id),
                ),
                Slot::Unreadable => result matches Err(error) && error@
                    == AppErrorView::OperationFailed(user_unreadable_text(user_id)),
                Slot::Holds(stored) => result matches Ok(profile) && profile@ == stored,
            },
    {
        match self.profiles.remove(user_id) {
            Slot::Absent => Err(AppError::user_not_found(user_id)),
            Slot::Unreadable => Err(AppError::user_unreadable(user_id)),
            Slot::Holds(profile) => Ok(profile),
        }
    }
}

} // verus!
