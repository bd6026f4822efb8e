use vstd::prelude::*;
use crate::datetime::{DateTime, spec_add_days, spec_day_from_ce, spec_whole_days, valid_timestamp, MAX_TIMESTAMP, SECS_PER_DAY};
use crate::error::{AppError, AppErrorView};
use crate::routes::confirm_trip::{Trip, TRIP_NOT_FOUND};

verus! {

broadcast use vstd::seq_lib::group_seq_properties;

/// An activity of a trip as stored.
pub struct Activity {
    pub id: u128,
    pub title: String,
    pub occurs_at: DateTime,
    pub trip_id: u128,
}

pub struct ActivityView {
    pub id: u128,
    pub title: Seq<char>,
    pub occurs_at: (int, int),
    pub trip_id: u128,
}

impl View for Activity {
    type V = ActivityView;

    open spec fn view(&self) -> ActivityView {
        ActivityView { id: self.id, title: self.title@, occurs_at: self.occurs_at@, trip_id: self.trip_id }
    }
}

impl Activity {
    /// A copy of the activity.
    pub fn duplicate(&self) -> (r: Activity)
        ensures
            r@ == self@,
    {
        Activity { id: self.id, title: self.title.clone(), occurs_at: self.occurs_at.copy(), trip_id: self.trip_id }
    }
}

/// One day of a trip with the activities that take place on it.
pub struct ActivityDay {
    pub date: DateTime,
    pub activities: Vec<Activity>,
}

pub struct ActivityDayView {
    pub date: (int, int),
    pub activities: Seq<ActivityView>,
}

impl View for ActivityDay {
    type V = ActivityDayView;

    open spec fn view(&self) -> ActivityDayView {
        ActivityDayView { date: self.date@, activities: activities_view(self.activities@) }
    }
}

/// The activities of a trip, day by day.
pub struct ResponseBody {
    pub activities: Vec<ActivityDay>,
}

pub open spec fn activities_view(v: Seq<Activity>) -> Seq<ActivityView> {
    v.map_values(|a: Activity| a@)
}

pub open spec fn days_view(v: Seq<ActivityDay>) -> Seq<ActivityDayView> {
    v.map_values(|d: ActivityDay| d@)
}

/// The activity takes place on the day with this number.
pub open spec fn on_day(day: int) -> spec_fn(ActivityView) -> bool {
    |a: ActivityView| spec_day_from_ce(a.occurs_at) == day
}

/// The days of a trip that starts at `start` and lasts `n` whole days: day `i`
/// (for `i` from 0 to `n`) is the start moved by `i` days, with the activities
/// of the list whose date is that day's date, in the order of the list.
pub open spec fn spec_activity_days(start: (int, int), n: int, acts: Seq<ActivityView>) -> Seq<ActivityDayView> {
    Seq::new(
        if n >= 0 { (n + 1) as nat } else { 0 },
        |i: int|
            ActivityDayView {
                date: spec_add_days(start, i),
                activities: acts.filter(on_day(spec_day_from_ce(spec_add_days(start, i)))),
            },
    )
}

/// The last day of the trip, counted from its start, lies in the calendar's range.
pub open spec fn days_fit(start: (int, int), end: (int, int)) -> bool {
    start.0 + SECS_PER_DAY * spec_whole_days(start, end) <= MAX_TIMESTAMP
}

/// Whether the days of the trip can all be written in the calendar (see `days_fit`).
pub fn days_fit_calendar(starts_at: &DateTime, ends_at: &DateTime) -> (r: bool)
    ensures
        r == days_fit(starts_at@, ends_at@),
{
    let n = starts_at.whole_days_until(ends_at);
    let s = starts_at.timestamp();
    if n <= 0 {
        true
    } else if n > (MAX_TIMESTAMP - s) / SECS_PER_DAY {
        assert(s + SECS_PER_DAY * n > MAX_TIMESTAMP) by (nonlinear_arith)
            requires
                n > (MAX_TIMESTAMP - s) / (SECS_PER_DAY as int),
                MAX_TIMESTAMP - s >= 0,
                SECS_PER_DAY == 86400,
        ;
        false
    } else {
        assert(s + SECS_PER_DAY * n <= MAX_TIMESTAMP) by (nonlinear_arith)
            requires
                n <= (MAX_TIMESTAMP - s) / (SECS_PER_DAY as int),
                MAX_TIMESTAMP - s >= 0,
                SECS_PER_DAY == 86400,
        ;
        true
    }
}

/// Lays the activities out over the days of the trip: one entry for each day
/// from the start to the whole number of days until the end, each with the
/// activities that take place on its date.
pub fn group_activities(starts_at: &DateTime, ends_at: &DateTime, activities: &Vec<Activity>) -> (r: Vec<ActivityDay>)
    requires
        days_fit(starts_at@, ends_at@),
    ensures
        days_view(r@) == spec_activity_days(
            starts_at@,
            spec_whole_days(starts_at@, ends_at@),
            activities_view(activities@),
        ),
{
    let n = starts_at.whole_days_until(ends_at);
    let s = starts_at.timestamp();
    let ghost acts = activities_view(activities@);
    let ghost expected = spec_activity_days(starts_at@, n as int, acts);
    let mut days: Vec<ActivityDay> = Vec::new();
    if n >= 0 {
        let mut i: i64 = 0;
        while i <= n
            invariant
                0 <= i <= n + 1,
                n == spec_whole_days(starts_at@, ends_at@),
                s == starts_at@.0,
                s + SECS_PER_DAY * n <= MAX_TIMESTAMP,
                acts == activities_view(activities@),
                expected == spec_activity_days(starts_at@, n as int, acts),
                days@.len() == i,
                forall|k: int| 0 <= k < i ==> #[trigger] days@[k]@ == expected[k],
            decreases n + 1 - i,
        {
            assert(s + SECS_PER_DAY * i <= MAX_TIMESTAMP) by (nonlinear_arith)
                requires
                    0 <= i <= n,
                    s + SECS_PER_DAY * n <= MAX_TIMESTAMP,
                    SECS_PER_DAY == 86400,
            ;
            let date = starts_at.add_days(i);
            let day = date.day_from_ce();
            let mut on_date: Vec<Activity> = Vec::new();
            let m = activities.len();
            for j in 0..m
                invariant
                    m == activities@.len(),
                    acts == activities_view(activities@),
                    activities_view(on_date@) == acts.take(j as int).filter(on_day(day as int)),
            {
                proof {
                    acts.take(j as int).lemma_filter_push(acts[j as int], on_day(day as int));
                    assert(acts.take(j as int).push(acts[j as int]) =~= acts.take(j + 1));
                }
                if activities[j].occurs_at.day_from_ce() == day {
                    let a = activities[j].duplicate();
                    on_date.push(a);
                    assert(activities_view(on_date@) =~= acts.take(j as int).filter(on_day(day as int)).push(acts[j as int]));
                }
            }
            assert(acts.take(m as int) =~= acts);
            days.push(ActivityDay { date, activities: on_date });
            i = i + 1;
        }
    }
    assert(days_view(days@) =~= expected);
    days
}

/// Every activity whose date lies between the first and the last day of the
/// trip appears on exactly one day, the one with its date; any other activity
/// appears on no day.
pub proof fn lemma_activity_on_its_own_day(start: (int, int), n: int, acts: Seq<ActivityView>, j: int, i: int)
    requires
        valid_timestamp(start.0, start.1),
        0 <= j < acts.len(),
        0 <= i <= n,
    ensures
        spec_activity_days(start, n, acts)[i].activities.contains(acts[j])
            <==> spec_day_from_ce(acts[j].occurs_at) == spec_day_from_ce(start) + i,
{
    let d = spec_add_days(start, i);
    assert(spec_day_from_ce(d) == spec_day_from_ce(start) + i) by {
        if i != 0 {
            assert((start.0 + SECS_PER_DAY * i) / (SECS_PER_DAY as int) == start.0 / (SECS_PER_DAY as int) + i) by (nonlinear_arith)
                requires
                    SECS_PER_DAY == 86400,
            ;
        }
    }
    let p = on_day(spec_day_from_ce(d));
    if p(acts[j]) {
        acts.lemma_filter_contains_rev(p, acts[j]);
        assert(acts.contains(acts[j]));
    }
    if acts.filter(p).contains(acts[j]) {
        let k = choose|k: int| 0 <= k < acts.filter(p).len() && acts.filter(p)[k] == acts[j];
        acts.lemma_filter_pred(p, k);
    }
}

/// Where the listing of a trip's activities stands.
#[derive(Clone, Copy)]
pub enum Stage {
    AwaitTrip,
    AwaitActivities,
    Finished,
}

/// What the listing of a trip's activities asks to be done next.
pub enum Action {
    /// Look up the trip with this id.
    FetchTrip(u128),
    /// Look up the activities of the trip, earliest first.
    FetchActivities(u128),
    /// Answer with the days of the trip, or with an error.
    Respond(Result<ResponseBody, AppError>),
}

/// The listing of the activities of one trip.
pub struct GetActivities {
    pub trip_id: u128,
    pub trip: Option<Trip>,
    pub stage: Stage,
}

impl GetActivities {
    /// Starts listing the activities of the trip with this id: look it up.
    pub fn start(trip_id: u128) -> (r: (GetActivities, Action))
        ensures
            r.0.trip_id == trip_id,
            r.0.stage == Stage::AwaitTrip,
            r.1 matches Action::FetchTrip(id) && id == trip_id,
    {
        (GetActivities { trip_id, trip: None, stage: Stage::AwaitTrip }, Action::FetchTrip(trip_id))
    }

    /// Takes in the trip as looked up: an unknown trip is refused; a found one
    /// leads to its activities.
    pub fn on_trip(&mut self, found: Result<Option<Trip>, String>) -> (r: Action)
        requires
            old(self).stage == Stage::AwaitTrip,
        ensures
            !(found matches Ok(Some(_))) ==> final(self).trip == old(self).trip,
            final(self).trip_id == old(self).trip_id,
            match found {
                Err(m) => final(self).stage == Stage::Finished
                    && (r matches Action::Respond(Err(e)) && e@ == AppErrorView::InternalServerError(m@)),
                Ok(None) => final(self).stage == Stage::Finished
                    && (r matches Action::Respond(Err(e)) && e@ == AppErrorView::BadRequest(TRIP_NOT_FOUND@)),
                Ok(Some(t)) => final(self).stage == Stage::AwaitActivities && final(self).trip == Some(t)
                    && (r matches Action::FetchActivities(id) && id == old(self).trip_id),
            },
    {
        match found {
            Err(m) => {
                self.stage = Stage::Finished;
                Action::Respond(Err(AppError::internal(m)))
            },
            Ok(None) => {
                self.stage = Stage::Finished;
                Action::Respond(Err(AppError::bad_request(TRIP_NOT_FOUND)))
            },
            Ok(Some(t)) => {
                self.stage = Stage::AwaitActivities;
                self.trip = Some(t);
                Action::FetchActivities(self.trip_id)
            },
        }
    }

    /// Whether the days of the trip that was found can be written (see `days_fit`).
    pub fn days_fit_calendar(&self) -> (r: bool)
        requires
            self.trip is Some,
        ensures
            r == days_fit(self.trip->0.starts_at@, self.trip->0.ends_at@),
    {
        match &self.trip {
            Some(t) => days_fit_calendar(&t.starts_at, &t.ends_at),
            None => false,
        }
    }

    /// Takes in the activities of the trip and answers with them laid out day by day.
    pub fn on_activities(&mut self, found: Result<Vec<Activity>, String>) -> (r: Action)
        requires
            old(self).stage == Stage::AwaitActivities,
            old(self).trip is Some,
            found is Ok ==> days_fit(old(self).trip->0.starts_at@, old(self).trip->0.ends_at@),
        ensures
            final(self).trip_id == old(self).trip_id,
            final(self).trip == old(self).trip,
            final(self).stage == Stage::Finished,
            match found {
                Err(m) => r matches Action::Respond(Err(e)) && e@ == AppErrorView::InternalServerError(m@),
                Ok(list) => r matches Action::Respond(Ok(body)) && days_view(body.activities@) == spec_activity_days(
                    old(self).trip->0.starts_at@,
                    spec_whole_days(old(self).trip->0.starts_at@, old(self).trip->0.ends_at@),
                    activities_view(list@),
                ),
            },
    {
        self.stage = Stage::Finished;
        match found {
            Err(m) => Action::Respond(Err(AppError::internal(m))),
            Ok(list) => match &self.trip {
                Some(t) => {
                    let days = group_activities(&t.starts_at, &t.ends_at, &list);
                    Action::Respond(Ok(ResponseBody { activities: days }))
                },
                None => Action::Respond(Err(AppError::internal(String::new()))),
            },
        }
    }
}

} // verus!
