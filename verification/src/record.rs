//! The two kinds of record that the store keeps, and the errors that its
//! operations return.

use crate::text::{
    counter_failure_text, id_failure_text, numbered_text, report_not_found_text,
    report_unreadable_text, reward_overflow_text, user_not_found_text, user_unreadable_text,
};
use vstd::prelude::*;
use vstd::string::StringExecFns;

verus! {

/// A traffic report submitted by a user.
#[derive(Clone, Debug, PartialEq, Eq)]
pub struct TrafficReport {
    /// The identifier, issued once when the report is created.
    pub id: u64,
    /// The identifier of the user who submitted the report.
    pub reporter_id: u64,
    pub description: String,
    /// Coordinates or the name of an area, in free form.
    pub location: String,
    /// The time of creation.
    pub timestamp: u64,
    /// Meant to lie between 1 and 5; the store does not check it.
    pub severity: u8,
    pub resolved: bool,
}

/// What a traffic report is to the contracts: its fields, the texts as
/// sequences of characters.
pub ghost struct TrafficReportView {
    pub id: u64,
    pub reporter_id: u64,
    pub description: Seq<char>,
    pub location: Seq<char>,
    pub timestamp: u64,
    pub severity: u8,
    pub resolved: bool,
}

impl View for TrafficReport {
    type V = TrafficReportView;

    open spec fn view(&self) -> TrafficReportView {
        TrafficReportView {
            id: self.id,
            reporter_id: self.reporter_id,
            description: self.description@,
            location: self.location@,
            timestamp: self.timestamp,
            severity: self.severity,
            resolved: self.resolved,
        }
    }
}

impl TrafficReportView {
    /// The report as it is when first created: not yet resolved.
    pub open spec fn created(
        id: u64,
        reporter_id: u64,
        description: Seq<char>,
        location: Seq<char>,
        timestamp: u64,
        severity: u8,
    ) -> TrafficReportView {
        TrafficReportView {
            id,
            reporter_id,
            description,
            location,
            timestamp,
            severity,
            resolved: false,
        }
    }

    /// The report after a partial update: a field that is supplied replaces
    /// the old one, every other field stays.
    pub open spec fn revised(
        self,
        description: Option<Seq<char>>,
        location: Option<Seq<char>>,
        severity: Option<u8>,
    ) -> TrafficReportView {
        TrafficReportView {
            description: match description {
                Some(text) => text,
                None => self.description,
            },
            location: match location {
                Some(text) => text,
                None => self.location,
            },
            severity: match severity {
                Some(level) => level,
                None => self.severity,
            },
            ..self
        }
    }
}

impl Default for TrafficReport {
    fn default() -> (report: TrafficReport)
        ensures
            report@ == TrafficReportView::created(0, 0, Seq::empty(), Seq::empty(), 0, 0),
    {
        TrafficReport {
            id: 0,
            reporter_id: 0,
            description: String::new(),
            location: String::new(),
            timestamp: 0,
            severity: 0,
            resolved: false,
        }
    }
}

/// The profile of a user: what the user has earned by reporting.
#[derive(Clone, Debug, PartialEq, Eq)]
pub struct UserProfile {
    /// The identifier, supplied from outside when the profile is created.
    pub id: u64,
    pub username: String,
    pub points: u64,
    /// The number of rewards that the user has received.
    pub contributions: u64,
    /// Reserved: no operation changes it.
    pub route_tokens: u64,
}

/// What a user profile is to the contracts.
pub ghost struct UserProfileView {
    pub id: u64,
    pub username: Seq<char>,
    pub points: u64,
    pub contributions: u64,
    pub route_tokens: u64,
}

impl View for UserProfile {
    type V = UserProfileView;

    open spec fn view(&self) -> UserProfileView {
        UserProfileView {
            id: self.id,
            username: self.username@,
            points: self.points,
            contributions: self.contributions,
            route_tokens: self.route_tokens,
        }
    }
}

impl UserProfileView {
    /// The profile that a user has before the first reward.
    pub open spec fn initial(user_id: u64) -> UserProfileView {
        UserProfileView {
            id: user_id,
            username: crate::text::default_username(user_id),
            points: 0,
            contributions: 0,
            route_tokens: 0,
        }
    }

    /// Whether both totals can grow by one reward of `points` points.
    pub open spec fn can_accrue(self, points: u64) -> bool {
        self.points + points <= u64::MAX && self.contributions + 1 <= u64::MAX
    }

    /// The profile after one reward of `points` points.
    pub open spec fn accrued(self, points: u64) -> UserProfileView
        recommends
            self.can_accrue(points),
    {
        UserProfileView {
            points: (self.points + points) as u64,
            contributions: (self.contributions + 1) as u64,
            ..self
        }
    }
}

impl Default for UserProfile {
    fn default() -> (profile: UserProfile)
        ensures
            profile@ == (UserProfileView {
                id: 0,
                username: Seq::empty(),
                points: 0,
                contributions: 0,
                route_tokens: 0,
            }),
    {
        UserProfile { id: 0, username: String::new(), points: 0, contributions: 0, route_tokens: 0 }
    }
}

/// What a store holds under one identifier.
#[derive(Debug)]
pub enum Slot<T> {
    /// Nothing is stored.
    Absent,
    /// Bytes are stored that are not an encoded record.
    Unreadable,
    /// A record is stored.
    Holds(T),
}

/// The error of an operation, with a message for the caller.
#[derive(Clone, Debug, PartialEq, Eq)]
pub enum AppError {
    /// The record that the operation names is not stored.
    NotFound(String),
    /// Reserved for creation under an identifier that is taken; no
    /// operation returns it.
    AlreadyExists(String),
    /// The durable state could not be read or written as the operation
    /// needs.
    OperationFailed(String),
}

/// What an error is to the contracts.
pub ghost enum AppErrorView {
    NotFound(Seq<char>),
    AlreadyExists(Seq<char>),
    OperationFailed(Seq<char>),
}

impl View for AppError {
    type V = AppErrorView;

    open spec fn view(&self) -> AppErrorView {
        match self {
            AppError::NotFound(message) => AppErrorView::NotFound(message@),
            AppError::AlreadyExists(message) => AppErrorView::AlreadyExists(message@),
            AppError::OperationFailed(message) => AppErrorView::OperationFailed(message@),
        }
    }
}

impl AppError {
    /// The error for a traffic report that is not stored.
    pub fn report_not_found(id: u64) -> (error: AppError)
        ensures
            error@ == AppErrorView::NotFound(report_not_found_text(id)),
    {
        AppError::NotFound(numbered_text("Report with ID ", id, " not found"))
    }

    /// The error for a user profile that is not stored.
    pub fn user_not_found(user_id: u64) -> (error: AppError)
        ensures
            error@ == AppErrorView::NotFound(user_not_found_text(user_id)),
    {
        AppError::NotFound(numbered_text("User with ID ", user_id, " not found"))
    }

    /// The error for a stored traffic report whose bytes are not an encoded
    /// report.
    pub fn report_unreadable(id: u64) -> (error: AppError)
        ensures
            error@ == AppErrorView::OperationFailed(report_unreadable_text(id)),
    {
        AppError::OperationFailed(numbered_text("Report with ID ", id, " is unreadable"))
    }

    /// The error for a stored user profile whose bytes are not an encoded
    /// profile.
    pub fn user_unreadable(user_id: u64) -> (error: AppError)
        ensures
            error@ == AppErrorView::OperationFailed(user_unreadable_text(user_id)),
    {
        AppError::OperationFailed(numbered_text("User with ID ", user_id, " is unreadable"))
    }

    /// The error for a profile whose totals cannot grow further.
    pub fn reward_overflow(user_id: u64) -> (error: AppError)
        ensures
            error@ == AppErrorView::OperationFailed(reward_overflow_text(user_id)),
    {
        AppError::OperationFailed(numbered_text("User with ID ", user_id, " cannot accrue more"))
    }

    /// The error for a report identifier that could not be issued.
    pub fn id_failure() -> (error: AppError)
        ensures
            error@ == AppErrorView::OperationFailed(id_failure_text()),
    {
        AppError::OperationFailed(String::from_str("Failed to generate report ID"))
    }

    /// The error for a counter that could not be opened.
    pub fn counter_failure() -> (error: AppError)
        ensures
            error@ == AppErrorView::OperationFailed(counter_failure_text()),
    {
        AppError::OperationFailed(String::from_str("Cannot create a counter"))
    }
}

} // verus!
