//! The coding activity shown on the front page: what is being worked on, and
//! for how long.

use chrono::NaiveDateTime;
use vstd::prelude::*;

verus! {

/// `chrono::NaiveDateTime`, a date and time without a time zone. It is
/// carried as it is; only `chrono` reads it.
#[verifier::external_type_specification]
#[verifier::external_body]
pub struct ExNaiveDateTime(chrono::NaiveDateTime);

/// What the activity tracker last heard of: project, editor, machine and
/// language, as far as they are known.
#[derive(Debug, Clone)]
pub struct HeartBeat {
    pub project_name: Option<String>,
    pub editor_name: Option<String>,
    pub hostname: Option<String>,
    pub language: Option<String>,
}

/// The current activity as the tracker reports it: when it began, in UTC,
/// for how many seconds it has been recorded, and its last heartbeat.
#[derive(Debug)]
pub struct Activity {
    pub started: NaiveDateTime,
    pub duration: i32,
    pub heartbeat: HeartBeat,
}

/// A span of time: whole seconds, counted towards zero, and the nanoseconds
/// left over, which have the sign of the span.
#[derive(Clone, Copy, Debug, PartialEq, Eq, Structural)]
pub struct Elapsed {
    pub seconds: i64,
    pub nanos: i32,
}

impl Elapsed {
    /// The span in nanoseconds.
    pub open spec fn total_nanos(self) -> int {
        self.seconds * 1_000_000_000 + self.nanos
    }

    /// Whether the nanoseconds are less than a second and do not run
    /// against the seconds.
    pub open spec fn well_formed(self) -> bool {
        &&& -1_000_000_000 < self.nanos < 1_000_000_000
        &&& self.seconds > 0 ==> self.nanos >= 0
        &&& self.seconds < 0 ==> self.nanos <= 0
    }
}

/// The present moment in UTC: `chrono::Local::now()` and its `naive_utc`.
#[verifier::external_body]
fn now_utc() -> NaiveDateTime {
    chrono::Local::now().naive_utc()
}

/// The span from `earlier` to `later`, which `chrono` computes with
/// `NaiveDateTime::signed_duration_since`, read out with `num_seconds` and
/// `subsec_nanos`: whole seconds towards zero, and a rest of less than a
/// second with the sign of the span.
#[verifier::external_body]
fn elapsed_between(later: &NaiveDateTime, earlier: &NaiveDateTime) -> (span: Elapsed)
    ensures
        span.well_formed(),
{
    let delta = later.signed_duration_since(*earlier);
    Elapsed { seconds: delta.num_seconds(), nanos: delta.subsec_nanos() }
}

/// What the front page shows of the activity.
#[derive(Debug, PartialEq, Eq)]
pub struct IndexActivity {
    pub active: bool,
    pub seconds: Option<i64>,
    pub minutes: Option<i64>,
    pub hours: Option<i64>,
    pub project_name: Option<String>,
    pub editor_name: Option<String>,
    pub hostname: Option<String>,
    pub language: Option<String>,
}

/// The text of an optional string.
pub open spec fn text_of(s: Option<String>) -> Option<Seq<char>> {
    match s {
        Some(t) => Some(t@),
        None => None,
    }
}

/// The front page's summary as plain values.
pub struct SummaryModel {
    pub active: bool,
    pub seconds: Option<int>,
    pub minutes: Option<int>,
    pub hours: Option<int>,
    pub project_name: Option<Seq<char>>,
    pub editor_name: Option<Seq<char>>,
    pub hostname: Option<Seq<char>>,
    pub language: Option<Seq<char>>,
}

impl View for IndexActivity {
    type V = SummaryModel;

    open spec fn view(&self) -> SummaryModel {
        SummaryModel {
            active: self.active,
            seconds: match self.seconds {
                Some(s) => Some(s as int),
                None => None,
            },
            minutes: match self.minutes {
                Some(m) => Some(m as int),
                None => None,
            },
            hours: match self.hours {
                Some(h) => Some(h as int),
                None => None,
            },
            project_name: text_of(self.project_name),
            editor_name: text_of(self.editor_name),
            hostname: text_of(self.hostname),
            language: text_of(self.language),
        }
    }
}

/// The quotient of `a` by a positive `b`, rounded towards zero.
pub open spec fn quotient(a: int, b: int) -> int {
    if a >= 0 {
        a / b
    } else {
        -((-a) / b)
    }
}

/// What is left of `a` after division by a positive `b`, with the sign of `a`.
pub open spec fn remainder(a: int, b: int) -> int {
    a - b * quotient(a, b)
}

/// How long an activity may have gone unreported and still count as going
/// on: a quarter of an hour, in nanoseconds.
pub open spec fn grace_nanos() -> int {
    900_000_000_000int
}

/// The summary of an activity that began `since_start` ago.
///
/// The activity counts as going on while the time since its start exceeds
/// the time recorded for it by no more than the grace period. The time since
/// the start is shown as hours, minutes within the hour and seconds within
/// the minute.
pub open spec fn summary_of(activity: Activity, since_start: Elapsed) -> SummaryModel {
    SummaryModel {
        active: since_start.total_nanos() - activity.duration * 1_000_000_000 <= grace_nanos(),
        seconds: Some(remainder(since_start.seconds as int, 60)),
        minutes: Some(remainder(quotient(since_start.seconds as int, 60), 60)),
        hours: Some(quotient(since_start.seconds as int, 3600)),
        project_name: text_of(activity.heartbeat.project_name),
        editor_name: text_of(activity.heartbeat.editor_name),
        hostname: text_of(activity.heartbeat.hostname),
        language: text_of(activity.heartbeat.language),
    }
}

/// The summary when no activity is known.
pub open spec fn no_activity() -> SummaryModel {
    SummaryModel {
        active: false,
        seconds: None,
        minutes: None,
        hours: None,
        project_name: None,
        editor_name: None,
        hostname: None,
        language: None,
    }
}

impl IndexActivity {
    /// The summary when no activity is known: inactive, with nothing to show.
    pub fn idle() -> (r: IndexActivity)
        ensures
            r@ == no_activity(),
    {
        IndexActivity {
            active: false,
            seconds: None,
            minutes: None,
            hours: None,
            project_name: None,
            editor_name: None,
            hostname: None,
            language: None,
        }
    }

    /// The summary of an activity that began `since_start` ago.
    pub fn at(activity: Activity, since_start: Elapsed) -> (r: IndexActivity)
        ensures
            r@ == summary_of(activity, since_start),
    {
        let total: i128 = (since_start.seconds as i128) * 1_000_000_000 + (
        since_start.nanos as i128);
        let recorded: i128 = (activity.duration as i128) * 1_000_000_000;
        let whole = since_start.seconds;
        let seconds = whole % 60;
        let minutes = (whole / 60) % 60;
        let hours = whole / 3600;
        let Activity { started: _, duration: _, heartbeat } = activity;
        IndexActivity {
            active: total - recorded <= 900_000_000_000,
            seconds: Some(seconds),
            minutes: Some(minutes),
            hours: Some(hours),
            project_name: heartbeat.project_name,
            editor_name: heartbeat.editor_name,
            hostname: heartbeat.hostname,
            language: heartbeat.language,
        }
    }

    /// The summary of the activity, if any, as of now. For an activity it is
    /// the summary for the time that has passed since its start, whatever
    /// that time is when the clock is read.
    pub fn from(activity: Option<Activity>) -> (r: IndexActivity)
        ensures
            match activity {
                None => r@ == no_activity(),
                Some(a) => exists|since_start: Elapsed|
                    since_start.well_formed() && r@ == #[trigger] summary_of(a, since_start),
            },
    {
        match activity {
            None => IndexActivity::idle(),
            Some(a) => {
                let now = now_utc();
                let since_start = elapsed_between(&now, &a.started);
                IndexActivity::at(a, since_start)
            },
        }
    }
}

} // verus!
