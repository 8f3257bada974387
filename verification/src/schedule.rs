//! The timing of a draw round: how long until the next draw, the countdown
//! to it, and the phases of the round that both sites share.
//!
//! A round runs: fetch the latest results and notify, fetch the latest
//! predictions and notify, wait for the next draw's time (asking again while
//! the draw is more than 30 minutes away, nine times at most), count down to
//! it second by second, ask whether the draw is open (nine times at most),
//! pause seven seconds, and start over.
use vstd::prelude::*;
use crate::draws::{Notice, notice_views};
use crate::text::{decimal, push_decimal};
use crate::json::Json;

verus! {

/// Milliseconds until the draw at `open_time`: by the server's clock
/// `server_time` where that is before the draw, else by the local clock
/// `now_millis` read as a `u64`, wrapping where the draw has passed.
pub open spec fn spec_remaining_millis(open_time: u64, server_time: u64, now_millis: u128) -> u64 {
    if server_time < open_time {
        (open_time - server_time) as u64
    } else {
        open_time.wrapping_sub(now_millis as u64)
    }
}

/// Milliseconds until the draw at `open_time`.
pub fn remaining_millis(open_time: u64, server_time: u64, now_millis: u128) -> (r: u64)
    ensures
        r == spec_remaining_millis(open_time, server_time, now_millis),
{
    if server_time < open_time {
        open_time - server_time
    } else {
        open_time.wrapping_sub(now_millis as u64)
    }
}

/// Whether a draw `secs` seconds away is more than 30 minutes away.
pub open spec fn too_far(secs: u64) -> bool {
    secs / 60 > 30
}

/// The seconds of a countdown line: a leading zero below ten.
pub open spec fn padded_seconds(seconds: nat) -> Seq<char> {
    if seconds < 10 { "0"@ + decimal(seconds) } else { decimal(seconds) }
}

/// The countdown line for `remaining` seconds: minutes, then seconds.
pub open spec fn spec_countdown_label(remaining: u64) -> Seq<char> {
    "距离下次开奖还剩: "@ + decimal((remaining / 60) as nat) + "分"@
        + padded_seconds((remaining % 60) as nat) + "秒"@
}

/// The countdown line for `remaining` seconds.
pub fn countdown_label(remaining: u64) -> (s: String)
    ensures
        s@ == spec_countdown_label(remaining),
{
    let mut s = String::from_str("距离下次开奖还剩: ");
    push_decimal(&mut s, remaining / 60);
    s.append("分");
    let seconds = remaining % 60;
    if seconds < 10 {
        s.append("0");
    }
    push_decimal(&mut s, seconds);
    s.append("秒");
    assert(s@ =~= spec_countdown_label(remaining));
    s
}

/// Why a run ends the program.
#[derive(Clone, Copy, PartialEq, Eq, Structural, Debug)]
pub enum Fault {
    /// The site answered without the data the run needs.
    NoData,
    /// The answer lacks a document or member that the draw logic reads.
    Unreadable,
    /// The countdown was asked to count below zero.
    Overflow,
    /// The alert about a far draw could not be sent.
    AlertNotSent,
}

impl Fault {
    /// The text the program ends with.
    pub open spec fn text(self) -> Seq<char> {
        match self {
            Fault::NoData => "需要开代理才可以访问网站！"@,
            Fault::Unreadable => "the answer lacks a value the draw logic reads"@,
            Fault::Overflow => "attempt to subtract with overflow"@,
            Fault::AlertNotSent => "the alert about a far draw was not sent"@,
        }
    }

    pub fn message(&self) -> (s: String)
        ensures
            s@ == self.text(),
    {
        match self {
            Fault::NoData => String::from_str("需要开代理才可以访问网站！"),
            Fault::Unreadable => String::from_str("the answer lacks a value the draw logic reads"),
            Fault::Overflow => String::from_str("attempt to subtract with overflow"),
            Fault::AlertNotSent => String::from_str("the alert about a far draw was not sent"),
        }
    }
}

/// Where a round goes once its notices are sent.
#[derive(Clone, Copy, PartialEq, Eq, Structural, Debug)]
pub enum Then {
    /// Fetch the latest predictions.
    Predictions,
    /// Wait for the next draw's time.
    NextDraw,
    /// End the program with this fault.
    Fault(Fault),
}

/// Where a round stands.
#[derive(PartialEq, Eq, Debug)]
pub enum Phase {
    /// About to fetch the latest results.
    Start,
    /// Waiting for the answer with the latest results.
    AwaitResults,
    /// A notice is being sent; `rest` follow it in order, then the round goes on as `then` says.
    Notifying { rest: Vec<Notice>, then: Then },
    /// Waiting for the answer with the latest predictions.
    AwaitPredictions,
    /// Waiting for the answer about the next draw, at the given attempt (1 to 9).
    AwaitNext { attempt: u64 },
    /// Counting down; `remaining` seconds before the next tick.
    Counting { remaining: u64, section: u64 },
    /// The countdown is over.
    Counted { section: u64 },
    /// Waiting for the answer whether draw `section` is open, at the given attempt (1 to 9).
    AwaitCheck { attempt: u64, section: u64 },
    /// The last action done, the program ends with this fault.
    Aborting(Fault),
    /// The run is over.
    Stopped,
}

/// A phase as a value of the specification.
pub enum PhaseV {
    Start,
    AwaitResults,
    Notifying { rest: Seq<(Seq<char>, Seq<char>)>, then: Then },
    AwaitPredictions,
    AwaitNext { attempt: u64 },
    Counting { remaining: u64, section: u64 },
    Counted { section: u64 },
    AwaitCheck { attempt: u64, section: u64 },
    Aborting(Fault),
    Stopped,
}

impl View for Phase {
    type V = PhaseV;

    open spec fn view(&self) -> PhaseV {
        match self {
            Phase::Start => PhaseV::Start,
            Phase::AwaitResults => PhaseV::AwaitResults,
            Phase::Notifying { rest, then } => PhaseV::Notifying { rest: notice_views(rest@), then: *then },
            Phase::AwaitPredictions => PhaseV::AwaitPredictions,
            Phase::AwaitNext { attempt } => PhaseV::AwaitNext { attempt: *attempt },
            Phase::Counting { remaining, section } => PhaseV::Counting { remaining: *remaining, section: *section },
            Phase::Counted { section } => PhaseV::Counted { section: *section },
            Phase::AwaitCheck { attempt, section } => PhaseV::AwaitCheck { attempt: *attempt, section: *section },
            Phase::Aborting(f) => PhaseV::Aborting(*f),
            Phase::Stopped => PhaseV::Stopped,
        }
    }
}

/// What happened since the last step.
pub enum Event {
    /// The last action completed.
    Done,
    /// The last action failed with this error.
    Failed(String),
    /// The answer to the last request: its text, the JSON document it holds
    /// (`None` where it holds none), and the local time in milliseconds since
    /// the Unix epoch when it arrived.
    Body { text: String, parsed: Option<Json>, now_millis: u128 },
}

/// What to do next.
pub enum Action {
    /// Fetch the latest results.
    FetchResults,
    /// Fetch the latest predictions.
    FetchPredictions,
    /// Wait `delay_ms` milliseconds, then fetch the next draw's time.
    FetchNext { delay_ms: u64 },
    /// Ask whether draw `section` is open.
    CheckSection(u64),
    /// Send this notice; a failure ends the run.
    Notify(Notice),
    /// Send this notice; a failure ends the program.
    Alert(Notice),
    /// Wait one second, then show this countdown line (nothing where `None`).
    Tick(Option<String>),
    /// Wait this many milliseconds.
    Sleep(u64),
    /// End the run with this error.
    Stop(String),
    /// End the program with this fault.
    Abort(Fault),
}

/// An action as a value of the specification.
pub enum ActionV {
    FetchResults,
    FetchPredictions,
    FetchNext { delay_ms: u64 },
    CheckSection(u64),
    Notify((Seq<char>, Seq<char>)),
    Alert((Seq<char>, Seq<char>)),
    Tick(Option<Seq<char>>),
    Sleep(u64),
    Stop(Seq<char>),
    Abort(Fault),
}

impl View for Action {
    type V = ActionV;

    open spec fn view(&self) -> ActionV {
        match self {
            Action::FetchResults => ActionV::FetchResults,
            Action::FetchPredictions => ActionV::FetchPredictions,
            Action::FetchNext { delay_ms } => ActionV::FetchNext { delay_ms: *delay_ms },
            Action::CheckSection(s) => ActionV::CheckSection(*s),
            Action::Notify(n) => ActionV::Notify(n@),
            Action::Alert(n) => ActionV::Alert(n@),
            Action::Tick(l) => ActionV::Tick(match l { Some(s) => Some(s@), None => None }),
            Action::Sleep(ms) => ActionV::Sleep(*ms),
            Action::Stop(e) => ActionV::Stop(e@),
            Action::Abort(f) => ActionV::Abort(*f),
        }
    }
}

/// The notice sent when the next draw is more than 30 minutes away.
pub open spec fn overdue_notice() -> (Seq<char>, Seq<char>) {
    ("下次开奖超30分钟"@, "下次开奖超30分钟，可能是发生异常了"@)
}

/// The notice sent when the next draw is more than 30 minutes away.
pub fn make_overdue_notice() -> (n: Notice)
    ensures
        n@ == overdue_notice(),
{
    Notice {
        summary: String::from_str("下次开奖超30分钟"),
        content: String::from_str("下次开奖超30分钟，可能是发生异常了"),
    }
}

/// Where the round goes once its notices are sent.
pub open spec fn spec_then_step(then: Then) -> (PhaseV, ActionV) {
    match then {
        Then::Predictions => (PhaseV::AwaitPredictions, ActionV::FetchPredictions),
        Then::NextDraw => (PhaseV::AwaitNext { attempt: 1 }, ActionV::FetchNext { delay_ms: 10000 }),
        Then::Fault(f) => (PhaseV::Stopped, ActionV::Abort(f)),
    }
}

/// Where the round goes once its notices are sent.
pub fn then_step(then: Then) -> (r: (Phase, Action))
    ensures
        (r.0@, r.1@) == spec_then_step(then),
{
    match then {
        Then::Predictions => (Phase::AwaitPredictions, Action::FetchPredictions),
        Then::NextDraw => (Phase::AwaitNext { attempt: 1 }, Action::FetchNext { delay_ms: 10000 }),
        Then::Fault(f) => (Phase::Stopped, Action::Abort(f)),
    }
}

/// Sending `notices` one at a time, in order, then going on as `then` says.
pub open spec fn spec_send(notices: Seq<(Seq<char>, Seq<char>)>, then: Then) -> (PhaseV, ActionV) {
    if notices.len() == 0 {
        spec_then_step(then)
    } else {
        (PhaseV::Notifying { rest: notices.drop_first(), then }, ActionV::Notify(notices[0]))
    }
}

/// Sends the first of `notices`, keeping the others for the next steps.
pub fn send(notices: Vec<Notice>, then: Then) -> (r: (Phase, Action))
    ensures
        (r.0@, r.1@) == spec_send(notice_views(notices@), then),
{
    if notices.len() == 0 {
        return then_step(then);
    }
    let mut rest = notices;
    let ghost all = rest@;
    let first = rest.remove(0);
    assert(notice_views(rest@) =~= notice_views(all).drop_first());
    (Phase::Notifying { rest, then }, Action::Notify(first))
}

/// One tick of the countdown with `remaining` seconds left; `show` tells
/// whether the countdown line is shown.  With no second left the tick waits
/// its second and then ends the program.
pub open spec fn spec_tick(remaining: u64, section: u64, show: bool) -> (PhaseV, ActionV) {
    if remaining == 0 {
        (PhaseV::Aborting(Fault::Overflow), ActionV::Sleep(1000))
    } else {
        let left = (remaining - 1) as u64;
        let line = if show { Some(spec_countdown_label(left)) } else { None };
        if left == 1 {
            (PhaseV::Counted { section }, ActionV::Tick(line))
        } else if left == 0 {
            (PhaseV::Aborting(Fault::Overflow), ActionV::Tick(line))
        } else {
            (PhaseV::Counting { remaining: left, section }, ActionV::Tick(line))
        }
    }
}

/// One tick of the countdown.
pub fn tick(remaining: u64, section: u64, show: bool) -> (r: (Phase, Action))
    ensures
        (r.0@, r.1@) == spec_tick(remaining, section, show),
{
    if remaining == 0 {
        return (Phase::Aborting(Fault::Overflow), Action::Sleep(1000));
    }
    let left = remaining - 1;
    let line = if show { Some(countdown_label(left)) } else { None };
    if left == 1 {
        (Phase::Counted { section }, Action::Tick(line))
    } else if left == 0 {
        (Phase::Aborting(Fault::Overflow), Action::Tick(line))
    } else {
        (Phase::Counting { remaining: left, section }, Action::Tick(line))
    }
}

/// What follows the answer that draw `section` opens in `millis`
/// milliseconds, at attempt `attempt`: ask again ten seconds later while the
/// draw is more than 30 minutes away and attempts are left; else count down,
/// after an alert where the draw is still that far.
pub open spec fn spec_after_next(attempt: u64, millis: u64, section: u64, show: bool) -> (PhaseV, ActionV) {
    let secs = millis / 1000;
    if too_far(secs) && attempt < 9 {
        (PhaseV::AwaitNext { attempt: (attempt + 1) as u64 }, ActionV::FetchNext { delay_ms: 10000 })
    } else if too_far(secs) {
        (PhaseV::Counting { remaining: secs, section }, ActionV::Alert(overdue_notice()))
    } else {
        spec_tick(secs, section, show)
    }
}

/// What follows the answer about the next draw.
pub fn after_next(attempt: u64, millis: u64, section: u64, show: bool) -> (r: (Phase, Action))
    ensures
        (r.0@, r.1@) == spec_after_next(attempt, millis, section, show),
{
    let secs = millis / 1000;
    let far = secs / 60 > 30;
    if far && attempt < 9 {
        (Phase::AwaitNext { attempt: attempt + 1 }, Action::FetchNext { delay_ms: 10000 })
    } else if far {
        (Phase::Counting { remaining: secs, section }, Action::Alert(make_overdue_notice()))
    } else {
        tick(secs, section, show)
    }
}

/// What follows the answer whether draw `section` is still pending, at
/// attempt `attempt`: ask again while it is and attempts are left; else
/// pause seven seconds and start a new round.
pub open spec fn spec_after_check(attempt: u64, section: u64, pending: bool) -> (PhaseV, ActionV) {
    if pending && attempt < 9 {
        (PhaseV::AwaitCheck { attempt: (attempt + 1) as u64, section }, ActionV::CheckSection(section))
    } else {
        (PhaseV::Start, ActionV::Sleep(7000))
    }
}

/// What follows the answer whether draw `section` is still pending.
pub fn after_check(attempt: u64, section: u64, pending: bool) -> (r: (Phase, Action))
    ensures
        (r.0@, r.1@) == spec_after_check(attempt, section, pending),
{
    if pending && attempt < 9 {
        (Phase::AwaitCheck { attempt: attempt + 1, section }, Action::CheckSection(section))
    } else {
        (Phase::Start, Action::Sleep(7000))
    }
}

/// The members of an answer about the next draw: its time, the server's
/// time and its number; all of them, and the draw's time as text, must be there.
pub open spec fn next_info(v: Json) -> Option<(u64, u64, u64)> {
    if (v.field("openTime_s"@) matches Some(t) && t.text_value() is Some)
        && uint_member(v, "openTime"@) is Some
        && uint_member(v, "serverTime"@) is Some
        && uint_member(v, "section"@) is Some {
        Some((uint_member(v, "openTime"@)->0, uint_member(v, "serverTime"@)->0, uint_member(v, "section"@)->0))
    } else {
        None
    }
}

/// Milliseconds until the next draw of an answer, at local time `now_millis`.
pub open spec fn next_wait(v: Json, now_millis: u128) -> u64 {
    let info = next_info(v)->0;
    spec_remaining_millis(info.0, info.1, now_millis)
}

/// The number of the next draw of an answer.
pub open spec fn next_section(v: Json) -> u64 {
    let info = next_info(v)->0;
    info.2
}

/// The unsigned integer member `key`.
pub open spec fn uint_member(v: Json, key: Seq<char>) -> Option<u64> {
    match v.field(key) {
        Some(m) => m.uint_value(),
        None => None,
    }
}

fn read_uint(v: &Json, key: &str) -> (r: Option<u64>)
    ensures
        r == uint_member(*v, key@),
{
    match v.get(key) {
        Some(m) => m.as_u64(),
        None => None,
    }
}

/// The members of an answer about the next draw.
pub fn read_next_info(v: &Json) -> (r: Option<(u64, u64, u64)>)
    ensures
        r == next_info(*v),
{
    let has_text = match v.get("openTime_s") {
        Some(t) => t.as_str().is_some(),
        None => false,
    };
    if !has_text {
        return None;
    }
    let open_time = match read_uint(v, "openTime") {
        Some(x) => x,
        None => return None,
    };
    let server_time = match read_uint(v, "serverTime") {
        Some(x) => x,
        None => return None,
    };
    let section = match read_uint(v, "section") {
        Some(x) => x,
        None => return None,
    };
    Some((open_time, server_time, section))
}

/// The steps that do not read an answer: leaving the phases that wait for an
/// action to complete, and the ends of a run.  `show` tells whether the
/// countdown line is shown.
pub open spec fn spec_common_step(phase: PhaseV, event: Event, show: bool) -> (PhaseV, ActionV) {
    match event {
        Event::Failed(e) => match phase {
            PhaseV::Counting { .. } => (PhaseV::Stopped, ActionV::Abort(Fault::AlertNotSent)),
            _ => (PhaseV::Stopped, ActionV::Stop(e@)),
        },
        _ => match phase {
            PhaseV::Start => (PhaseV::AwaitResults, ActionV::FetchResults),
            PhaseV::Notifying { rest, then } => spec_send(rest, then),
            PhaseV::Counting { remaining, section } => spec_tick(remaining, section, show),
            PhaseV::Counted { section } => (PhaseV::AwaitCheck { attempt: 1, section }, ActionV::CheckSection(section)),
            PhaseV::Aborting(f) => (PhaseV::Stopped, ActionV::Abort(f)),
            _ => (PhaseV::Stopped, ActionV::Stop(no_answer())),
        },
    }
}

/// The error a run ends with where an answer was awaited and none came, or
/// where the run was already over.
pub open spec fn no_answer() -> Seq<char> {
    "the run is over or no answer came"@
}

/// The steps that do not read an answer.
pub fn common_step(phase: Phase, event: &Event, show: bool) -> (r: (Phase, Action))
    ensures
        (r.0@, r.1@) == spec_common_step(phase@, *event, show),
{
    match event {
        Event::Failed(e) => match phase {
            Phase::Counting { .. } => (Phase::Stopped, Action::Abort(Fault::AlertNotSent)),
            _ => (Phase::Stopped, Action::Stop(e.clone())),
        },
        _ => match phase {
            Phase::Start => (Phase::AwaitResults, Action::FetchResults),
            Phase::Notifying { rest, then } => send(rest, then),
            Phase::Counting { remaining, section } => tick(remaining, section, show),
            Phase::Counted { section } => (Phase::AwaitCheck { attempt: 1, section }, Action::CheckSection(section)),
            Phase::Aborting(f) => (Phase::Stopped, Action::Abort(f)),
            _ => (Phase::Stopped, Action::Stop(String::from_str("the run is over or no answer came"))),
        },
    }
}

} // verus!
