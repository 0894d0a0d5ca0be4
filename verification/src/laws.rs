//! What holds of the store across its operations, proved from the
//! contracts of the operations.

use crate::codec::{
    lemma_profile_round_trip, lemma_report_round_trip, report_size, REPORT_MAX_SIZE,
};
use crate::record::{AppError, Slot, TrafficReport, TrafficReportView, UserProfileView};
use crate::store::{creation_outcome, StoreView, REPORT_REWARD};
use crate::text::default_username;
use vstd::prelude::*;

verus! {

/// A run of calls that each try to create a report: `states[i]` is the
/// store before call `i` and `states[i + 1]` the store after it,
/// `reports[i]` is the report that the call is to create, with the
/// identifier that is next in `states[i]`, and `results[i]` is what the
/// call returned.
pub open spec fn creation_run(
    states: Seq<StoreView>,
    reports: Seq<TrafficReportView>,
    results: Seq<Result<TrafficReport, AppError>>,
) -> bool {
    &&& states.len() == reports.len() + 1
    &&& results.len() == reports.len()
    &&& forall|i: int|
        0 <= i < reports.len() ==> {
            &&& (#[trigger] reports[i]).id == states[i].next_report_id()
            &&& creation_outcome(states[i], reports[i], states[i + 1], results[i])
        }
}

/// In a run of creations the counter of report identifiers never falls.
pub proof fn lemma_counter_never_falls(
    states: Seq<StoreView>,
    reports: Seq<TrafficReportView>,
    results: Seq<Result<TrafficReport, AppError>>,
    i: int,
    j: int,
)
    requires
        creation_run(states, reports, results),
        0 <= i <= j < states.len(),
    ensures
        states[i].report_counter <= states[j].report_counter,
    decreases j - i,
{
    if i < j {
        lemma_counter_never_falls(states, reports, results, i, j - 1);
        assert(reports[j - 1].id == states[j - 1].next_report_id());
    }
}

/// The identifiers that a run of creations returns are strictly
/// increasing: a later call never returns the identifier of an earlier one,
/// nor a smaller one, whatever failed in between.
pub proof fn law_report_ids_increase(
    states: Seq<StoreView>,
    reports: Seq<TrafficReportView>,
    results: Seq<Result<TrafficReport, AppError>>,
    i: int,
    j: int,
)
    requires
        creation_run(states, reports, results),
        0 <= i < j < reports.len(),
        results[i] is Ok,
        results[j] is Ok,
    ensures
        (results[i]->Ok_0).id < (results[j]->Ok_0).id,
{
    assert(reports[i].id == states[i].next_report_id());
    assert(reports[j].id == states[j].next_report_id());
    lemma_counter_never_falls(states, reports, results, i + 1, j);
}

/// In a store that is fresh, a run of creations that all succeed returns
/// the identifiers 1, 2, 3 and so on.
pub proof fn law_report_ids_start_at_one(
    states: Seq<StoreView>,
    reports: Seq<TrafficReportView>,
    results: Seq<Result<TrafficReport, AppError>>,
    k: int,
)
    requires
        creation_run(states, reports, results),
        states[0].is_fresh(),
        forall|i: int| 0 <= i < results.len() ==> (#[trigger] results[i]) is Ok,
        0 <= k < reports.len(),
    ensures
        (results[k]->Ok_0).id == k + 1,
        states[k + 1].report_counter == k + 1,
    decreases k,
{
    assert(reports[k].id == states[k].next_report_id());
    assert(results[k] is Ok);
    if k > 0 {
        law_report_ids_start_at_one(states, reports, results, k - 1);
    }
}

/// A report that has just been created can be read under its identifier,
/// and is read as it was created: with the description, location and
/// severity that were given, the given time, and not resolved.
pub proof fn law_created_report_is_stored(
    before: StoreView,
    report: TrafficReportView,
    after: StoreView,
    result: Result<TrafficReport, AppError>,
)
    requires
        report_size(report.description, report.location) <= REPORT_MAX_SIZE,
        creation_outcome(before, report, after, result),
        result is Ok,
    ensures
        after.report(report.id) == Slot::Holds(report),
        (result->Ok_0)@ == report,
{
    lemma_report_round_trip(report);
}

/// An update that supplies only a description changes only the
/// description of the report.
pub proof fn law_description_update_keeps_the_rest(
    stored: TrafficReportView,
    description: Seq<char>,
)
    ensures
        stored.revised(Some(description), None, None) == (TrafficReportView {
            description,
            ..stored
        }),
{
}

/// After an update the store holds the revised report under the
/// identifier, every other report as before, and every profile as before.
pub proof fn law_update_touches_one_report(
    store: StoreView,
    id: u64,
    revised: TrafficReportView,
    other: u64,
)
    requires
        report_size(revised.description, revised.location) <= REPORT_MAX_SIZE,
    ensures
        store.put_report(id, revised).report(id) == Slot::Holds(revised),
        other != id ==> store.put_report(id, revised).report(other) == store.report(other),
        store.put_report(id, revised).profile(other) == store.profile(other),
        store.put_report(id, revised).report_counter == store.report_counter,
{
    lemma_report_round_trip(revised);
}

/// After a report has been deleted nothing is stored under its
/// identifier, so that reading it, or deleting it once more, finds
/// nothing; every other report, and every profile, is as before.
pub proof fn law_deleted_report_is_absent(store: StoreView, id: u64, other: u64)
    ensures
        store.drop_report(id).report(id) is Absent,
        other != id ==> store.drop_report(id).report(other) == store.report(other),
        store.drop_report(id).profile(other) == store.profile(other),
        store.drop_report(id).drop_report(id) == store.drop_report(id),
        store.report(id) is Absent ==> store.drop_report(id) == store,
{
    assert(store.drop_report(id).reports.remove(id) =~= store.drop_report(id).reports);
    if store.report(id) is Absent {
        assert(store.reports.remove(id) =~= store.reports);
    }
}

/// After a profile has been deleted nothing is stored under its
/// identifier; every other profile, and every report, is as before.
pub proof fn law_deleted_profile_is_absent(store: StoreView, user_id: u64, other: u64)
    ensures
        store.drop_profile(user_id).profile(user_id) is Absent,
        other != user_id ==> store.drop_profile(user_id).profile(other) == store.profile(other),
        store.drop_profile(user_id).report(other) == store.report(other),
        store.profile(user_id) is Absent ==> store.drop_profile(user_id) == store,
{
    if store.profile(user_id) is Absent {
        assert(store.profiles.remove(user_id) =~= store.profiles);
    }
}

/// The first reward of a user creates the profile: named `User` and the
/// identifier in decimal, with the points of the reward and one
/// contribution.
pub proof fn law_first_reward_creates_profile(store: StoreView, user_id: u64, points: u64)
    requires
        store.profile(user_id) is Absent,
    ensures
        store.can_reward(user_id, points),
        store.reward(user_id, points).profile(user_id) == Slot::Holds(
            UserProfileView {
                id: user_id,
                username: default_username(user_id),
                points,
                contributions: 1,
                route_tokens: 0,
            },
        ),
{
    lemma_profile_round_trip(UserProfileView::initial(user_id).accrued(points));
}

/// A reward adds its points to the points of the stored profile and one to
/// its contributions, and leaves the rest of the profile, every other
/// profile, and every report as they were.
pub proof fn law_reward_adds_up(
    store: StoreView,
    user_id: u64,
    points: u64,
    stored: UserProfileView,
    other: u64,
)
    requires
        store.profile(user_id) == Slot::Holds(stored),
        stored.can_accrue(points),
    ensures
        store.can_reward(user_id, points),
        store.reward(user_id, points).profile(user_id) == Slot::Holds(
            UserProfileView {
                points: (stored.points + points) as u64,
                contributions: (stored.contributions + 1) as u64,
                ..stored
            },
        ),
        other != user_id ==> store.reward(user_id, points).profile(other) == store.profile(other),
        store.reward(user_id, points).report(other) == store.report(other),
{
    lemma_profile_round_trip(stored.accrued(points));
}

/// Creating a report gives its reporter exactly ten points and one
/// contribution more than the reporter had before; a reporter without a
/// profile had none.
pub proof fn law_creation_rewards_reporter(
    before: StoreView,
    report: TrafficReportView,
    after: StoreView,
    result: Result<TrafficReport, AppError>,
)
    requires
        creation_outcome(before, report, after, result),
        result is Ok,
    ensures
        after.profile(report.reporter_id) matches Slot::Holds(profile) && {
            let earlier = before.profile_or_initial(report.reporter_id);
            &&& profile.points == earlier.points + 10
            &&& profile.contributions == earlier.contributions + 1
            &&& profile.id == earlier.id
            &&& profile.username == earlier.username
            &&& profile.route_tokens == earlier.route_tokens
        },
{
    let stored = before.issue_report_id().put_report(report.id, report);
    assert(stored.profile(report.reporter_id) == before.profile(report.reporter_id));
    lemma_profile_round_trip(stored.profile_or_initial(report.reporter_id).accrued(REPORT_REWARD));
}

/// A fresh store holds no report and no profile: reading any identifier
/// finds nothing, and no profile appears by being read.
pub proof fn law_fresh_store_is_empty(store: StoreView, id: u64)
    requires
        store.is_fresh(),
    ensures
        store.report(id) is Absent,
        store.profile(id) is Absent,
        store.next_report_id() == 1,
{
}

/// A profile that no operation has named is as it was: creating a report
/// for another reporter, and rewarding another user, leave it alone.
pub proof fn law_untouched_profile_stays(
    store: StoreView,
    report: TrafficReportView,
    points: u64,
    user_id: u64,
)
    requires
        user_id != report.reporter_id,
    ensures
        store.create_report(report).profile(user_id) == store.profile(user_id),
        store.reward(report.reporter_id, points).profile(user_id) == store.profile(user_id),
        store.put_report(report.id, report).profile(user_id) == store.profile(user_id),
{
}

} // verus!
