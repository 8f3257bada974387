//! Properties of the library as a whole: what calls for a notice, how a
//! round of polling is bounded, and the arithmetic of waiting.
use vstd::prelude::*;
use crate::draws::{
    Mark, rule_notice, size_marks, parity_marks, color_marks, size_mark, parity_mark, color_mark,
    data_items, item_int,
};
use crate::analysis::{res_four_notices, res_five_notices, cal_four_notices, cal_five_notices};
use crate::canada::{result_notices, calculate_notices, canada_step};
use crate::analysis::{analysis_step, next_readable, section_pending, SiteError};
use crate::draws::int_fields;
use crate::json::Json;
use crate::schedule::{
    PhaseV, Event, ActionV, Fault, Then, spec_remaining_millis, spec_countdown_label, padded_seconds,
    too_far, next_wait, spec_then_step, spec_send, no_answer,
};
use crate::startup::{spec_root_dir, project_marker, first_index};
use crate::text::{
    decimal, spec_trim, is_space, leading_spaces, trailing_spaces, spec_contains, occurs_at,
    is_first_occurrence,
};

verus! {

/// Every class in `ms` is `m`.
pub open spec fn every(ms: Seq<Mark>, m: Mark) -> bool {
    forall|i: int| 0 <= i < ms.len() ==> ms[i] == m
}

/// `ms` holds `a` at even places and `b` at odd places.
pub open spec fn alternates(ms: Seq<Mark>, a: Mark, b: Mark) -> bool {
    forall|i: int| 0 <= i < ms.len() ==> ms[i] == (if i % 2 == 0 { a } else { b })
}

/// 1 where `b` holds, else 0.
pub open spec fn one_if(b: bool) -> nat {
    if b { 1 } else { 0 }
}

proof fn lemma_two_rules(
    ms: Seq<Mark>,
    p0: Seq<Mark>, t0: Seq<char>,
    p1: Seq<Mark>, t1: Seq<char>,
    prefix: Seq<char>,
)
    ensures
        rule_notice(ms, seq![(p0, t0), (p1, t1)], prefix).len() == one_if(ms == p0 || ms == p1),
{
    let rules = seq![(p0, t0), (p1, t1)];
    assert(rules.drop_first() =~= seq![(p1, t1)]);
    assert(rules.drop_first().drop_first() =~= Seq::<(Seq<Mark>, Seq<char>)>::empty());
    reveal_with_fuel(rule_notice, 3);
}

proof fn lemma_four_rules(
    ms: Seq<Mark>,
    p0: Seq<Mark>, t0: Seq<char>,
    p1: Seq<Mark>, t1: Seq<char>,
    p2: Seq<Mark>, t2: Seq<char>,
    p3: Seq<Mark>, t3: Seq<char>,
    prefix: Seq<char>,
)
    ensures
        rule_notice(ms, seq![(p0, t0), (p1, t1), (p2, t2), (p3, t3)], prefix).len()
            == one_if(ms == p0 || ms == p1 || ms == p2 || ms == p3),
{
    let rules = seq![(p0, t0), (p1, t1), (p2, t2), (p3, t3)];
    assert(rules.drop_first() =~= seq![(p1, t1), (p2, t2), (p3, t3)]);
    assert(rules.drop_first().drop_first() =~= seq![(p2, t2), (p3, t3)]);
    assert(rules.drop_first().drop_first().drop_first() =~= seq![(p3, t3)]);
    assert(rules.drop_first().drop_first().drop_first().drop_first()
        =~= Seq::<(Seq<Mark>, Seq<char>)>::empty());
    reveal_with_fuel(rule_notice, 5);
}

proof fn lemma_every4(ms: Seq<Mark>, m: Mark)
    requires
        ms.len() == 4,
    ensures
        (ms == seq![m, m, m, m]) <==> every(ms, m),
{
    if every(ms, m) {
        assert(ms =~= seq![m, m, m, m]);
    }
}

proof fn lemma_alternates4(ms: Seq<Mark>, a: Mark, b: Mark)
    requires
        ms.len() == 4,
    ensures
        (ms == seq![a, b, a, b]) <==> alternates(ms, a, b),
{
    if alternates(ms, a, b) {
        assert(ms[0] == a && ms[1] == b && ms[2] == a && ms[3] == b);
        assert(ms =~= seq![a, b, a, b]);
    }
    if ms == seq![a, b, a, b] {
        assert forall|i: int| 0 <= i < ms.len() implies ms[i] == (if i % 2 == 0 { a } else { b }) by {
            assert(i == 0 || i == 1 || i == 2 || i == 3);
        }
    }
}

proof fn lemma_alternates5(ms: Seq<Mark>, a: Mark, b: Mark)
    requires
        ms.len() == 5,
    ensures
        (ms == seq![a, b, a, b, a]) <==> alternates(ms, a, b),
{
    if alternates(ms, a, b) {
        assert(ms[0] == a && ms[1] == b && ms[2] == a && ms[3] == b && ms[4] == a);
        assert(ms =~= seq![a, b, a, b, a]);
    }
    if ms == seq![a, b, a, b, a] {
        assert forall|i: int| 0 <= i < ms.len() implies ms[i] == (if i % 2 == 0 { a } else { b }) by {
            assert(i == 0 || i == 1 || i == 2 || i == 3 || i == 4);
        }
    }
}

/// The four latest draws call for one notice where they are all big or all
/// small, and one more where they are all odd or all even; nothing else.
pub proof fn law_four_results_notified(nums: Seq<i64>)
    requires
        nums.len() == 4,
    ensures
        res_four_notices(nums).len()
            == one_if(every(size_marks(nums), Mark::Big) || every(size_marks(nums), Mark::Small))
            + one_if(every(parity_marks(nums), Mark::Odd) || every(parity_marks(nums), Mark::Even)),
{
    let s = size_marks(nums);
    let p = parity_marks(nums);
    lemma_two_rules(s, seq![Mark::Big, Mark::Big, Mark::Big, Mark::Big], "1111"@,
        seq![Mark::Small, Mark::Small, Mark::Small, Mark::Small], "0000"@, "数据: "@);
    lemma_two_rules(p, seq![Mark::Odd, Mark::Odd, Mark::Odd, Mark::Odd], "9999"@,
        seq![Mark::Even, Mark::Even, Mark::Even, Mark::Even], "11111111"@, "数据: "@);
    lemma_every4(s, Mark::Big);
    lemma_every4(s, Mark::Small);
    lemma_every4(p, Mark::Odd);
    lemma_every4(p, Mark::Even);
}

/// The five latest draws call for one notice where their sizes alternate,
/// and one more where their parities alternate; nothing else.
pub proof fn law_five_results_notified(nums: Seq<i64>)
    requires
        nums.len() == 5,
    ensures
        res_five_notices(nums).len()
            == one_if(alternates(size_marks(nums), Mark::Small, Mark::Big)
                || alternates(size_marks(nums), Mark::Big, Mark::Small))
            + one_if(alternates(parity_marks(nums), Mark::Odd, Mark::Even)
                || alternates(parity_marks(nums), Mark::Even, Mark::Odd)),
{
    let s = size_marks(nums);
    let p = parity_marks(nums);
    lemma_two_rules(s, seq![Mark::Small, Mark::Big, Mark::Small, Mark::Big, Mark::Small], "01010"@,
        seq![Mark::Big, Mark::Small, Mark::Big, Mark::Small, Mark::Big], "10101"@, "数据: "@);
    lemma_two_rules(p, seq![Mark::Odd, Mark::Even, Mark::Odd, Mark::Even, Mark::Odd], "9119119"@,
        seq![Mark::Even, Mark::Odd, Mark::Even, Mark::Odd, Mark::Even], "11911911"@, "数据: "@);
    lemma_alternates5(s, Mark::Small, Mark::Big);
    lemma_alternates5(s, Mark::Big, Mark::Small);
    lemma_alternates5(p, Mark::Odd, Mark::Even);
    lemma_alternates5(p, Mark::Even, Mark::Odd);
}

/// Four predictions call for one notice per side whose colours are all blue
/// or all red; nothing else.
pub proof fn law_four_predictions_notified(left: Seq<i64>, right: Seq<i64>)
    requires
        left.len() == 4,
        right.len() == 4,
    ensures
        cal_four_notices(left, right).len()
            == one_if(every(color_marks(left), Mark::Blue) || every(color_marks(left), Mark::Red))
            + one_if(every(color_marks(right), Mark::Blue) || every(color_marks(right), Mark::Red)),
{
    let l = color_marks(left);
    let r = color_marks(right);
    lemma_two_rules(l, seq![Mark::Blue, Mark::Blue, Mark::Blue, Mark::Blue], "lbbbb"@,
        seq![Mark::Red, Mark::Red, Mark::Red, Mark::Red], "lrrrr"@, "盲猜: "@);
    lemma_two_rules(r, seq![Mark::Blue, Mark::Blue, Mark::Blue, Mark::Blue], "rbbbb"@,
        seq![Mark::Red, Mark::Red, Mark::Red, Mark::Red], "rrrrr"@, "盲猜: "@);
    lemma_every4(l, Mark::Blue);
    lemma_every4(l, Mark::Red);
    lemma_every4(r, Mark::Blue);
    lemma_every4(r, Mark::Red);
}

/// Five predictions call for one notice per side whose colours alternate;
/// nothing else.
pub proof fn law_five_predictions_notified(left: Seq<i64>, right: Seq<i64>)
    requires
        left.len() == 5,
        right.len() == 5,
    ensures
        cal_five_notices(left, right).len()
            == one_if(alternates(color_marks(left), Mark::Blue, Mark::Red)
                || alternates(color_marks(left), Mark::Red, Mark::Blue))
            + one_if(alternates(color_marks(right), Mark::Blue, Mark::Red)
                || alternates(color_marks(right), Mark::Red, Mark::Blue)),
{
    let l = color_marks(left);
    let r = color_marks(right);
    lemma_two_rules(l, seq![Mark::Blue, Mark::Red, Mark::Blue, Mark::Red, Mark::Blue], "lbrbrb"@,
        seq![Mark::Red, Mark::Blue, Mark::Red, Mark::Blue, Mark::Red], "lrbrbr"@, "盲猜: "@);
    lemma_two_rules(r, seq![Mark::Blue, Mark::Red, Mark::Blue, Mark::Red, Mark::Blue], "rbrbrb"@,
        seq![Mark::Red, Mark::Blue, Mark::Red, Mark::Blue, Mark::Red], "rrbrbr"@, "盲猜: "@);
    lemma_alternates5(l, Mark::Blue, Mark::Red);
    lemma_alternates5(l, Mark::Red, Mark::Blue);
    lemma_alternates5(r, Mark::Blue, Mark::Red);
    lemma_alternates5(r, Mark::Red, Mark::Blue);
}

/// On the Canada 4.8 site, the four latest draws call for one notice where
/// their sizes are all the same or alternate, and one more where their
/// parities are; nothing else.
pub proof fn law_canada_results_notified(nums: Seq<i64>)
    requires
        nums.len() == 4,
    ensures
        result_notices(nums).len()
            == one_if(every(size_marks(nums), Mark::Big) || every(size_marks(nums), Mark::Small)
                || alternates(size_marks(nums), Mark::Small, Mark::Big)
                || alternates(size_marks(nums), Mark::Big, Mark::Small))
            + one_if(every(parity_marks(nums), Mark::Odd) || every(parity_marks(nums), Mark::Even)
                || alternates(parity_marks(nums), Mark::Odd, Mark::Even)
                || alternates(parity_marks(nums), Mark::Even, Mark::Odd)),
{
    let s = size_marks(nums);
    let p = parity_marks(nums);
    lemma_four_rules(s,
        seq![Mark::Big, Mark::Big, Mark::Big, Mark::Big], "四个大"@,
        seq![Mark::Small, Mark::Small, Mark::Small, Mark::Small], "四个小"@,
        seq![Mark::Small, Mark::Big, Mark::Small, Mark::Big], "小大小大"@,
        seq![Mark::Big, Mark::Small, Mark::Big, Mark::Small], "大小大小"@,
        "开奖结果: "@);
    lemma_four_rules(p,
        seq![Mark::Odd, Mark::Odd, Mark::Odd, Mark::Odd], "四个单"@,
        seq![Mark::Even, Mark::Even, Mark::Even, Mark::Even], "四个双"@,
        seq![Mark::Odd, Mark::Even, Mark::Odd, Mark::Even], "单双单双"@,
        seq![Mark::Even, Mark::Odd, Mark::Even, Mark::Odd], "双单双单"@,
        "开奖结果: "@);
    lemma_every4(s, Mark::Big);
    lemma_every4(s, Mark::Small);
    lemma_alternates4(s, Mark::Small, Mark::Big);
    lemma_alternates4(s, Mark::Big, Mark::Small);
    lemma_every4(p, Mark::Odd);
    lemma_every4(p, Mark::Even);
    lemma_alternates4(p, Mark::Odd, Mark::Even);
    lemma_alternates4(p, Mark::Even, Mark::Odd);
}

/// On the Canada 4.8 site, four predictions call for one notice per side
/// whose colours are all the same or alternate; nothing else.
pub proof fn law_canada_predictions_notified(left: Seq<i64>, right: Seq<i64>)
    requires
        left.len() == 4,
        right.len() == 4,
    ensures
        calculate_notices(left, right).len()
            == one_if(every(color_marks(left), Mark::Blue) || every(color_marks(left), Mark::Red)
                || alternates(color_marks(left), Mark::Blue, Mark::Red)
                || alternates(color_marks(left), Mark::Red, Mark::Blue))
            + one_if(every(color_marks(right), Mark::Blue) || every(color_marks(right), Mark::Red)
                || alternates(color_marks(right), Mark::Blue, Mark::Red)
                || alternates(color_marks(right), Mark::Red, Mark::Blue)),
{
    let l = color_marks(left);
    let r = color_marks(right);
    lemma_four_rules(l,
        seq![Mark::Blue, Mark::Blue, Mark::Blue, Mark::Blue], "左侧四个蓝"@,
        seq![Mark::Red, Mark::Red, Mark::Red, Mark::Red], "左侧四个红"@,
        seq![Mark::Blue, Mark::Red, Mark::Blue, Mark::Red], "左侧蓝红蓝红"@,
        seq![Mark::Red, Mark::Blue, Mark::Red, Mark::Blue], "左侧红蓝红蓝"@,
        "预测结果: "@);
    lemma_four_rules(r,
        seq![Mark::Blue, Mark::Blue, Mark::Blue, Mark::Blue], "右侧四个蓝"@,
        seq![Mark::Red, Mark::Red, Mark::Red, Mark::Red], "右侧四个红"@,
        seq![Mark::Blue, Mark::Red, Mark::Blue, Mark::Red], "右侧蓝红蓝红"@,
        seq![Mark::Red, Mark::Blue, Mark::Red, Mark::Blue], "右侧红蓝红蓝"@,
        "预测结果: "@);
    lemma_every4(l, Mark::Blue);
    lemma_every4(l, Mark::Red);
    lemma_alternates4(l, Mark::Blue, Mark::Red);
    lemma_alternates4(l, Mark::Red, Mark::Blue);
    lemma_every4(r, Mark::Blue);
    lemma_every4(r, Mark::Red);
    lemma_alternates4(r, Mark::Blue, Mark::Red);
    lemma_alternates4(r, Mark::Red, Mark::Blue);
}

/// The records of a wider range extend those of a narrower one: the first
/// records read for five draws are the records read for four.
pub proof fn law_records_extend(result: Json, from: int, to: int, wider: int, key: Seq<char>)
    requires
        int_fields(result, from, wider, key) is Some,
        from <= to <= wider,
    ensures
        int_fields(result, from, to, key) == Some(int_fields(result, from, wider, key)->0.take(to - from)),
{
    let all = int_fields(result, from, wider, key)->0;
    assert(int_fields(result, from, to, key) is Some);
    assert(int_fields(result, from, to, key)->0 =~= all.take(to - from));
}

/// A step of either site's round (`canada` tells which).
pub open spec fn site_step(canada: bool, phase: PhaseV, event: Event) -> (PhaseV, ActionV) {
    if canada { canada_step(phase, event) } else { analysis_step(phase, event) }
}

/// Notices go out one at a time and in order; a notice that fails ends the
/// run with its error, and the notices after it are not sent.
pub proof fn law_notices_one_at_a_time(
    canada: bool,
    rest: Seq<(Seq<char>, Seq<char>)>,
    then: Then,
    event: Event,
)
    ensures
        site_step(canada, PhaseV::Notifying { rest, then }, event) == match event {
            Event::Failed(e) => (PhaseV::Stopped, ActionV::Stop(e@)),
            _ => if rest.len() == 0 {
                spec_then_step(then)
            } else {
                (PhaseV::Notifying { rest: rest.drop_first(), then }, ActionV::Notify(rest[0]))
            },
        },
{
}

/// A round asks for the next draw's time at most nine times: the first
/// request follows the predictions and their notices, and each further one
/// follows the one before it.
pub proof fn law_next_attempts(canada: bool, phase: PhaseV, event: Event)
    requires
        phase matches PhaseV::AwaitNext { attempt } ==> 1 <= attempt <= 9,
    ensures
        match site_step(canada, phase, event).0 {
            PhaseV::AwaitNext { attempt: b } => 1 <= b <= 9 && match phase {
                PhaseV::AwaitNext { attempt: a } => b == a + 1,
                PhaseV::Notifying { then, .. } => b == 1 && then == Then::NextDraw,
                _ => b == 1 && phase is AwaitPredictions,
            },
            _ => true,
        },
{
}

/// The next draw's time is asked for again exactly where the answer was read,
/// puts the draw more than 30 minutes away, and attempts are left.
pub proof fn law_retry_only_when_far(canada: bool, attempt: u64, event: Event)
    ensures
        site_step(canada, PhaseV::AwaitNext { attempt }, event).0 is AwaitNext <==> match event {
            Event::Body { text, parsed, now_millis } =>
                spec_contains(text@, "openTime"@) && next_readable(parsed)
                && too_far(next_wait(parsed->0, now_millis) / 1000) && attempt < 9,
            _ => false,
        },
{
}

/// A round asks whether the draw is open at most nine times, always about
/// the draw it counted down to, and stops asking at the first answer that
/// is not pending.
pub proof fn law_check_attempts(canada: bool, phase: PhaseV, event: Event)
    requires
        phase matches PhaseV::AwaitCheck { attempt, .. } ==> 1 <= attempt <= 9,
    ensures
        match site_step(canada, phase, event).0 {
            PhaseV::AwaitCheck { attempt: b, section: s } => 1 <= b <= 9 && match phase {
                PhaseV::AwaitCheck { attempt: a, section } => b == a + 1 && s == section
                    && (event matches Event::Body { text, .. } && section_pending(text@)),
                PhaseV::Counted { section } => b == 1 && s == section,
                _ => false,
            },
            _ => true,
        },
        (phase is AwaitCheck && (event matches Event::Body { text, .. } && !section_pending(text@)))
            ==> site_step(canada, phase, event) == (PhaseV::Start, ActionV::Sleep(7000)),
{
}

/// A new round starts only after the open-draw check, with a pause of
/// seven seconds.
pub proof fn law_new_round(canada: bool, phase: PhaseV, event: Event)
    ensures
        site_step(canada, phase, event).0 == PhaseV::Start ==>
            phase is AwaitCheck && site_step(canada, phase, event).1 == ActionV::Sleep(7000),
{
}

/// A stopped run stays stopped.
pub proof fn law_stopped_stays(canada: bool, event: Event)
    ensures
        site_step(canada, PhaseV::Stopped, event).0 == PhaseV::Stopped,
{
}

/// Each tick of the countdown takes one second off and shows what is left
/// (on the Canada 4.8 site); it ends when one second is left.  A countdown
/// with no second left waits one second and then ends the program.
pub proof fn law_countdown_tick(canada: bool, remaining: u64, section: u64, event: Event)
    requires
        !(event is Failed),
    ensures
        remaining >= 2 ==> site_step(canada, PhaseV::Counting { remaining, section }, event) == (
            if remaining == 2 { PhaseV::Counted { section } }
            else { PhaseV::Counting { remaining: (remaining - 1) as u64, section } },
            ActionV::Tick(if canada { Some(spec_countdown_label((remaining - 1) as u64)) } else { None }),
        ),
        remaining == 0 ==> site_step(canada, PhaseV::Counting { remaining, section }, event)
            == (PhaseV::Aborting(Fault::Overflow), ActionV::Sleep(1000)),
{
}

/// The alert about a far draw is sent only after the last of the nine
/// requests for its time.
pub proof fn law_alert_after_last_attempt(canada: bool, phase: PhaseV, event: Event)
    ensures
        site_step(canada, phase, event).1 is Alert ==> (phase matches PhaseV::AwaitNext { attempt } && attempt >= 9),
{
}

/// The order of a round: fetch results (0), send their notices (2), fetch
/// predictions (3), send their notices (4), wait for the next draw (5),
/// count down (6, 7), check the draw (8); then the end of a run: notices
/// before a fault (9), the fault (10), stopped (11).
pub open spec fn stage(p: PhaseV) -> int {
    match p {
        PhaseV::Start => 0,
        PhaseV::AwaitResults => 1,
        PhaseV::Notifying { then, .. } => match then {
            Then::Predictions => 2,
            Then::NextDraw => 4,
            Then::Fault(_) => 9,
        },
        PhaseV::AwaitPredictions => 3,
        PhaseV::AwaitNext { .. } => 5,
        PhaseV::Counting { .. } => 6,
        PhaseV::Counted { .. } => 7,
        PhaseV::AwaitCheck { .. } => 8,
        PhaseV::Aborting(_) => 10,
        PhaseV::Stopped => 11,
    }
}

/// What is left to do within a stage: attempts, seconds or notices.
pub open spec fn left_in_stage(p: PhaseV) -> int {
    match p {
        PhaseV::Notifying { rest, .. } => rest.len() as int,
        PhaseV::AwaitNext { attempt } => 9 - attempt,
        PhaseV::Counting { remaining, .. } => remaining as int,
        PhaseV::AwaitCheck { attempt, .. } => 9 - attempt,
        _ => 0,
    }
}

/// Every step moves the round forward: to a later stage, or within its
/// stage with less left to do; a round goes back to its start only from
/// the open-draw check, after a pause of seven seconds; a stopped run stays
/// stopped.
pub proof fn law_round_moves_forward(canada: bool, phase: PhaseV, event: Event)
    ensures
        ({
            let (q, a) = site_step(canada, phase, event);
            if q == PhaseV::Start {
                phase is AwaitCheck && a == ActionV::Sleep(7000)
            } else if q == PhaseV::Stopped {
                true
            } else {
                stage(q) > stage(phase) || (stage(q) == stage(phase) && left_in_stage(q) < left_in_stage(phase))
            }
        }),
{
}

/// Each step's action is the one its new phase waits on: the fetch that the
/// phase awaits the answer of, the notice being sent, the tick or alert of
/// the countdown, the pause before a new round, and an end of the run where
/// the run stops.
pub proof fn law_actions_match_phases(canada: bool, phase: PhaseV, event: Event)
    ensures
        ({
            let (q, a) = site_step(canada, phase, event);
            &&& q is AwaitResults ==> a == ActionV::FetchResults
            &&& q is AwaitPredictions ==> a == ActionV::FetchPredictions
            &&& q is AwaitNext ==> a == ActionV::FetchNext { delay_ms: 10000 }
            &&& (q matches PhaseV::AwaitCheck { section, .. } ==> a == ActionV::CheckSection(section))
            &&& q is Notifying ==> a is Notify
            &&& (q is Counting || q is Counted) ==> (a is Tick || a is Alert)
            &&& q is Start ==> a == ActionV::Sleep(7000)
            &&& q is Aborting ==> (a is Tick || a is Notify || a is Sleep)
            &&& q is Stopped <==> (a is Stop || a is Abort)
        }),
{
}

/// A run never ends well: it ends only by stopping with an error or ending
/// the program with a fault.  A failure reported to a step ends the run with
/// that failure's error (while counting down, a failed alert ends the
/// program); any other error is the site's refusal of its answer, or the
/// lack of an answer.
pub proof fn law_run_ends_with_first_error(canada: bool, phase: PhaseV, event: Event)
    ensures
        !(phase is Counting) ==> match event {
            Event::Failed(e) => site_step(canada, phase, event) == (PhaseV::Stopped, ActionV::Stop(e@)),
            _ => true,
        },
        (event is Failed && phase is Counting)
            ==> site_step(canada, phase, event) == (PhaseV::Stopped, ActionV::Abort(Fault::AlertNotSent)),
        site_step(canada, phase, event).1 matches ActionV::Stop(msg) ==> match event {
            Event::Failed(e) => msg == e@,
            _ => msg == SiteError::NoListing.text() || msg == SiteError::NoNextDraw.text() || msg == no_answer(),
        },
        site_step(canada, phase, event).0 == PhaseV::Stopped
            <==> (site_step(canada, phase, event).1 is Stop || site_step(canada, phase, event).1 is Abort),
{
}

/// The wait until a draw ends at the draw: by the server's clock where the
/// server is before it, else by the local clock, or one full turn of a
/// `u64` later where the local clock is already past it.
pub proof fn law_remaining_millis(open_time: u64, server_time: u64, now_millis: u128)
    ensures
        server_time < open_time ==> spec_remaining_millis(open_time, server_time, now_millis) + server_time == open_time,
        server_time >= open_time && (now_millis as u64) <= open_time ==>
            spec_remaining_millis(open_time, server_time, now_millis) + (now_millis as u64) == open_time,
        server_time >= open_time && (now_millis as u64) > open_time ==>
            spec_remaining_millis(open_time, server_time, now_millis) + (now_millis as u64)
                == open_time + 0x1_0000_0000_0000_0000,
{
}

/// The seconds of a countdown line always take two digits.
pub proof fn law_seconds_two_digits(remaining: u64)
    ensures
        padded_seconds((remaining % 60) as nat).len() == 2,
{
    reveal_strlit("0");
    let s = (remaining % 60) as nat;
    if s >= 10 {
        assert(decimal(s) == decimal(s / 10).push(crate::text::digit_char(s % 10)));
        assert(decimal(s / 10).len() == 1);
    }
}

proof fn lemma_leading(s: Seq<char>)
    ensures
        leading_spaces(s) <= s.len(),
        leading_spaces(s.skip(leading_spaces(s) as int)) == 0,
        leading_spaces(s) < s.len() ==> !is_space(s[leading_spaces(s) as int]),
    decreases s.len(),
{
    if s.len() > 0 && is_space(s[0]) {
        let r = s.drop_first();
        lemma_leading(r);
        assert(s.skip(leading_spaces(s) as int) =~= r.skip(leading_spaces(r) as int));
        if leading_spaces(s) < s.len() {
            assert(s[leading_spaces(s) as int] == r[leading_spaces(r) as int]);
        }
    } else {
        assert(s.skip(0) =~= s);
    }
}

proof fn lemma_trailing(t: Seq<char>)
    ensures
        trailing_spaces(t) <= t.len(),
        t.len() - trailing_spaces(t) > 0 ==> !is_space(t[t.len() - trailing_spaces(t) - 1]),
    decreases t.len(),
{
    if t.len() > 0 && is_space(t.last()) {
        let r = t.drop_last();
        lemma_trailing(r);
        if t.len() - trailing_spaces(t) > 0 {
            assert(t[t.len() - trailing_spaces(t) - 1] == r[r.len() - trailing_spaces(r) - 1]);
        }
    }
}

/// Trimmed text neither starts nor ends with white space, and trimming it
/// again changes nothing.
pub proof fn law_trim(s: Seq<char>)
    ensures
        spec_trim(s).len() > 0 ==> !is_space(spec_trim(s)[0]) && !is_space(spec_trim(s).last()),
        spec_trim(spec_trim(s)) == spec_trim(s),
{
    lemma_leading(s);
    let t = s.skip(leading_spaces(s) as int);
    lemma_trailing(t);
    let u = spec_trim(s);
    assert(u == t.take(t.len() - trailing_spaces(t)));
    if u.len() > 0 {
        assert(u[0] == t[0]);
        assert(t[0] == s[leading_spaces(s) as int]);
        assert(u.last() == t[t.len() - trailing_spaces(t) - 1]);
        assert(leading_spaces(u) == 0);
        assert(trailing_spaces(u) == 0);
        assert(u.skip(0) =~= u);
        assert(u.take(u.len() as int) =~= u);
    } else {
        assert(u.skip(0) =~= u);
        assert(u.take(0) =~= u);
    }
}

proof fn lemma_first_exists(hay: Seq<char>, needle: Seq<char>, i: int)
    requires
        occurs_at(hay, needle, i),
    ensures
        exists|j: int| is_first_occurrence(hay, needle, j),
    decreases i,
{
    if exists|j: int| 0 <= j < i && occurs_at(hay, needle, j) {
        let j = choose|j: int| 0 <= j < i && occurs_at(hay, needle, j);
        lemma_first_exists(hay, needle, j);
    } else {
        assert(is_first_occurrence(hay, needle, i));
    }
}

/// The root directory is a beginning of the executable's path; where the
/// path names the project directory, the root directory and that name begin it.
pub proof fn law_root_dir(path: Seq<char>)
    ensures
        spec_root_dir(path).is_prefix_of(path),
        spec_contains(path, project_marker()) ==> (spec_root_dir(path) + project_marker()).is_prefix_of(path),
        !spec_contains(path, project_marker()) ==> spec_root_dir(path) == path,
{
    let m = project_marker();
    if spec_contains(path, m) {
        let i0 = choose|i: int| occurs_at(path, m, i);
        lemma_first_exists(path, m, i0);
        let i = first_index(path, m);
        assert(is_first_occurrence(path, m, i));
        assert(path.subrange(i, i + m.len()) == m);
        assert(spec_root_dir(path) =~= path.subrange(0, i));
        assert(spec_root_dir(path) + m =~= path.subrange(0, i + m.len()));
    } else {
        assert(path =~= path.subrange(0, path.len() as int));
    }
}

/// The notice tagged `tag`: the tag as summary, `prefix` and the tag as content.
pub open spec fn note(prefix: Seq<char>, tag: Seq<char>) -> (Seq<char>, Seq<char>) {
    (tag, prefix + tag)
}

/// The notice `n` where `b` holds; none otherwise.
pub open spec fn opt(b: bool, n: (Seq<char>, Seq<char>)) -> Seq<(Seq<char>, Seq<char>)> {
    if b { seq![n] } else { seq![] }
}

/// The notices a step sends: the one it sends now, then those it queues.
pub open spec fn queued(r: (PhaseV, ActionV)) -> Seq<(Seq<char>, Seq<char>)> {
    match r.1 {
        ActionV::Notify(n) => seq![n] + match r.0 {
            PhaseV::Notifying { rest, .. } => rest,
            _ => Seq::empty(),
        },
        _ => Seq::empty(),
    }
}

/// Every record of `data[from..to]` of an answer has an integer member `key`.
pub open spec fn ints_present(v: Json, from: int, to: int, key: Seq<char>) -> bool {
    &&& data_items(v) is Some
    &&& 0 <= from <= to <= data_items(v)->0.len()
    &&& forall|k: int| from <= k < to ==> (#[trigger] item_int(data_items(v)->0[k], key)) is Some
}

/// The integer members `key` of `data[from..to]` of an answer.
pub open spec fn ints(v: Json, from: int, to: int, key: Seq<char>) -> Seq<i64> {
    Seq::new((to - from) as nat, |j: int| item_int(data_items(v)->0[from + j], key)->0)
}

/// Every number is above 13.
pub open spec fn all_big(n: Seq<i64>) -> bool {
    forall|i: int| 0 <= i < n.len() ==> n[i] > 13
}

/// Every number is at most 13.
pub open spec fn all_small(n: Seq<i64>) -> bool {
    forall|i: int| 0 <= i < n.len() ==> n[i] <= 13
}

/// Every number is odd.
pub open spec fn all_odd(n: Seq<i64>) -> bool {
    forall|i: int| 0 <= i < n.len() ==> n[i] % 2 != 0
}

/// Every number is even.
pub open spec fn all_even(n: Seq<i64>) -> bool {
    forall|i: int| 0 <= i < n.len() ==> n[i] % 2 == 0
}

/// The numbers are at most 13 exactly at even places (`small_first`) or exactly at odd places.
pub open spec fn sizes_alternate(n: Seq<i64>, small_first: bool) -> bool {
    forall|i: int| 0 <= i < n.len() ==> ((n[i] <= 13) == ((i % 2 == 0) == small_first))
}

/// The numbers are odd exactly at even places (`odd_first`) or exactly at odd places.
pub open spec fn parities_alternate(n: Seq<i64>, odd_first: bool) -> bool {
    forall|i: int| 0 <= i < n.len() ==> ((n[i] % 2 != 0) == ((i % 2 == 0) == odd_first))
}

/// Every colour code is 0 (blue).
pub open spec fn all_blue(c: Seq<i64>) -> bool {
    forall|i: int| 0 <= i < c.len() ==> c[i] == 0
}

/// No colour code is 0 (all red).
pub open spec fn all_red(c: Seq<i64>) -> bool {
    forall|i: int| 0 <= i < c.len() ==> c[i] != 0
}

/// The codes are 0 exactly at even places (`blue_first`) or exactly at odd places.
pub open spec fn colors_alternate(c: Seq<i64>, blue_first: bool) -> bool {
    forall|i: int| 0 <= i < c.len() ==> ((c[i] == 0) == ((i % 2 == 0) == blue_first))
}

proof fn lemma_size_marks(n: Seq<i64>)
    ensures
        every(size_marks(n), Mark::Big) <==> all_big(n),
        every(size_marks(n), Mark::Small) <==> all_small(n),
        alternates(size_marks(n), Mark::Small, Mark::Big) <==> sizes_alternate(n, true),
        alternates(size_marks(n), Mark::Big, Mark::Small) <==> sizes_alternate(n, false),
{
    assert forall|i: int| #![trigger size_marks(n)[i]] #![trigger n[i]]
        0 <= i < n.len() implies size_marks(n)[i] == size_mark(n[i]) by {}
}

proof fn lemma_parity_marks(n: Seq<i64>)
    ensures
        every(parity_marks(n), Mark::Odd) <==> all_odd(n),
        every(parity_marks(n), Mark::Even) <==> all_even(n),
        alternates(parity_marks(n), Mark::Odd, Mark::Even) <==> parities_alternate(n, true),
        alternates(parity_marks(n), Mark::Even, Mark::Odd) <==> parities_alternate(n, false),
{
    assert forall|i: int| #![trigger parity_marks(n)[i]] #![trigger n[i]]
        0 <= i < n.len() implies parity_marks(n)[i] == parity_mark(n[i]) by {}
}

proof fn lemma_color_marks(c: Seq<i64>)
    ensures
        every(color_marks(c), Mark::Blue) <==> all_blue(c),
        every(color_marks(c), Mark::Red) <==> all_red(c),
        alternates(color_marks(c), Mark::Blue, Mark::Red) <==> colors_alternate(c, true),
        alternates(color_marks(c), Mark::Red, Mark::Blue) <==> colors_alternate(c, false),
{
    assert forall|i: int| #![trigger color_marks(c)[i]] #![trigger c[i]]
        0 <= i < c.len() implies color_marks(c)[i] == color_mark(c[i]) by {}
}

proof fn lemma_rule2_opts(
    ms: Seq<Mark>,
    p0: Seq<Mark>, t0: Seq<char>,
    p1: Seq<Mark>, t1: Seq<char>,
    prefix: Seq<char>,
)
    requires
        p0 != p1,
    ensures
        rule_notice(ms, seq![(p0, t0), (p1, t1)], prefix)
            == opt(ms == p0, note(prefix, t0)) + opt(ms == p1, note(prefix, t1)),
{
    let rules = seq![(p0, t0), (p1, t1)];
    assert(rules.drop_first() =~= seq![(p1, t1)]);
    assert(rules.drop_first().drop_first() =~= Seq::<(Seq<Mark>, Seq<char>)>::empty());
    reveal_with_fuel(rule_notice, 3);
    assert(rule_notice(ms, rules, prefix)
        =~= opt(ms == p0, note(prefix, t0)) + opt(ms == p1, note(prefix, t1)));
}

proof fn lemma_rule4_opts(
    ms: Seq<Mark>,
    p0: Seq<Mark>, t0: Seq<char>,
    p1: Seq<Mark>, t1: Seq<char>,
    p2: Seq<Mark>, t2: Seq<char>,
    p3: Seq<Mark>, t3: Seq<char>,
    prefix: Seq<char>,
)
    requires
        p0 != p1, p0 != p2, p0 != p3, p1 != p2, p1 != p3, p2 != p3,
    ensures
        rule_notice(ms, seq![(p0, t0), (p1, t1), (p2, t2), (p3, t3)], prefix)
            == opt(ms == p0, note(prefix, t0)) + opt(ms == p1, note(prefix, t1))
                + opt(ms == p2, note(prefix, t2)) + opt(ms == p3, note(prefix, t3)),
{
    let rules = seq![(p0, t0), (p1, t1), (p2, t2), (p3, t3)];
    assert(rules.drop_first() =~= seq![(p1, t1), (p2, t2), (p3, t3)]);
    assert(rules.drop_first().drop_first() =~= seq![(p2, t2), (p3, t3)]);
    assert(rules.drop_first().drop_first().drop_first() =~= seq![(p3, t3)]);
    assert(rules.drop_first().drop_first().drop_first().drop_first()
        =~= Seq::<(Seq<Mark>, Seq<char>)>::empty());
    reveal_with_fuel(rule_notice, 5);
    assert(rule_notice(ms, rules, prefix)
        =~= opt(ms == p0, note(prefix, t0)) + opt(ms == p1, note(prefix, t1))
                + opt(ms == p2, note(prefix, t2)) + opt(ms == p3, note(prefix, t3)));
}

proof fn lemma_send(notices: Seq<(Seq<char>, Seq<char>)>, then: Then)
    ensures
        notices.len() > 0 ==> (queued(spec_send(notices, then)) == notices
            && (spec_send(notices, then).0 matches PhaseV::Notifying { then: t, .. } && t == then)),
        notices.len() == 0 ==> spec_send(notices, then) == spec_then_step(then),
{
    if notices.len() > 0 {
        assert(seq![notices[0]] + notices.drop_first() =~= notices);
    }
}

proof fn lemma_ints(v: Json, from: int, to: int, key: Seq<char>)
    requires
        ints_present(v, from, to, key),
    ensures
        int_fields(v, from, to, key) == Some(ints(v, from, to, key)),
{
    assert(int_fields(v, from, to, key)->0 =~= ints(v, from, to, key));
}

/// `a` and `b` differ where their elements at `i` differ.
proof fn lemma_differ(a: Seq<Mark>, b: Seq<Mark>, i: int)
    requires
        0 <= i < a.len(),
        a[i] != b[i],
    ensures
        a != b,
{
}

/// The step `r` sends `notices` one at a time and in order, then goes on as
/// `then` says; with no notice to send it goes on at once.
pub open spec fn sends_then(r: (PhaseV, ActionV), notices: Seq<(Seq<char>, Seq<char>)>, then: Then) -> bool {
    &&& queued(r) == notices
    &&& notices.len() == 0 ==> r == spec_then_step(then)
    &&& notices.len() > 0 ==> (r.0 matches PhaseV::Notifying { then: t, .. } && t == then)
}

/// The notices due on the latest results, in the order they go out: the
/// four latest draws all big, all small, all odd, all even; the sizes of the
/// five latest alternating from small, from big; their parities
/// alternating from odd, from even.
pub open spec fn results_due(n4: Seq<i64>, n5: Seq<i64>) -> Seq<(Seq<char>, Seq<char>)> {
    opt(all_big(n4), note("数据: "@, "1111"@))
        + opt(all_small(n4), note("数据: "@, "0000"@))
        + opt(all_odd(n4), note("数据: "@, "9999"@))
        + opt(all_even(n4), note("数据: "@, "11111111"@))
        + opt(sizes_alternate(n5, true), note("数据: "@, "01010"@))
        + opt(sizes_alternate(n5, false), note("数据: "@, "10101"@))
        + opt(parities_alternate(n5, true), note("数据: "@, "9119119"@))
        + opt(parities_alternate(n5, false), note("数据: "@, "11911911"@))
}

/// The notices due on the latest predictions, in the order they go out:
/// the four next left colours all blue, all red; the four next right colours
/// all blue, all red; the five next left colours alternating from blue, from
/// red; the five next right colours alternating from blue, from red.
pub open spec fn predictions_due(l4: Seq<i64>, r4: Seq<i64>, l5: Seq<i64>, r5: Seq<i64>) -> Seq<(Seq<char>, Seq<char>)> {
    opt(all_blue(l4), note("盲猜: "@, "lbbbb"@))
        + opt(all_red(l4), note("盲猜: "@, "lrrrr"@))
        + opt(all_blue(r4), note("盲猜: "@, "rbbbb"@))
        + opt(all_red(r4), note("盲猜: "@, "rrrrr"@))
        + opt(colors_alternate(l5, true), note("盲猜: "@, "lbrbrb"@))
        + opt(colors_alternate(l5, false), note("盲猜: "@, "lrbrbr"@))
        + opt(colors_alternate(r5, true), note("盲猜: "@, "rbrbrb"@))
        + opt(colors_alternate(r5, false), note("盲猜: "@, "rrbrbr"@))
}

/// The Canada 4.8 notices due on the four latest draws, in the order they go
/// out: sizes all big, all small, alternating from small, from big; then
/// parities all odd, all even, alternating from odd, from even.
pub open spec fn canada_results_due(n: Seq<i64>) -> Seq<(Seq<char>, Seq<char>)> {
    opt(all_big(n), note("开奖结果: "@, "四个大"@))
        + opt(all_small(n), note("开奖结果: "@, "四个小"@))
        + opt(sizes_alternate(n, true), note("开奖结果: "@, "小大小大"@))
        + opt(sizes_alternate(n, false), note("开奖结果: "@, "大小大小"@))
        + opt(all_odd(n), note("开奖结果: "@, "四个单"@))
        + opt(all_even(n), note("开奖结果: "@, "四个双"@))
        + opt(parities_alternate(n, true), note("开奖结果: "@, "单双单双"@))
        + opt(parities_alternate(n, false), note("开奖结果: "@, "双单双单"@))
}

/// The Canada 4.8 notices due on the four next predictions, in the order
/// they go out: left colours all blue, all red, alternating from blue, from
/// red; then the right colours likewise.
pub open spec fn canada_predictions_due(l: Seq<i64>, r: Seq<i64>) -> Seq<(Seq<char>, Seq<char>)> {
    opt(all_blue(l), note("预测结果: "@, "左侧四个蓝"@))
        + opt(all_red(l), note("预测结果: "@, "左侧四个红"@))
        + opt(colors_alternate(l, true), note("预测结果: "@, "左侧蓝红蓝红"@))
        + opt(colors_alternate(l, false), note("预测结果: "@, "左侧红蓝红蓝"@))
        + opt(all_blue(r), note("预测结果: "@, "右侧四个蓝"@))
        + opt(all_red(r), note("预测结果: "@, "右侧四个红"@))
        + opt(colors_alternate(r, true), note("预测结果: "@, "右侧蓝红蓝红"@))
        + opt(colors_alternate(r, false), note("预测结果: "@, "右侧红蓝红蓝"@))
}

proof fn lemma_send_due(notices: Seq<(Seq<char>, Seq<char>)>, then: Then)
    ensures
        sends_then(spec_send(notices, then), notices, then),
{
    lemma_send(notices, then);
    if notices.len() == 0 {
        assert(queued(spec_then_step(then)) =~= notices);
    }
}

proof fn lemma_results_four(n: Seq<i64>)
    requires
        n.len() == 4,
    ensures
        res_four_notices(n) == opt(all_big(n), note("数据: "@, "1111"@))
            + opt(all_small(n), note("数据: "@, "0000"@))
            + opt(all_odd(n), note("数据: "@, "9999"@))
            + opt(all_even(n), note("数据: "@, "11111111"@)),
{
    let s = size_marks(n);
    let p = parity_marks(n);
    let bbbb = seq![Mark::Big, Mark::Big, Mark::Big, Mark::Big];
    let ssss = seq![Mark::Small, Mark::Small, Mark::Small, Mark::Small];
    let oooo = seq![Mark::Odd, Mark::Odd, Mark::Odd, Mark::Odd];
    let eeee = seq![Mark::Even, Mark::Even, Mark::Even, Mark::Even];
    lemma_differ(bbbb, ssss, 0);
    lemma_differ(oooo, eeee, 0);
    lemma_rule2_opts(s, bbbb, "1111"@, ssss, "0000"@, "数据: "@);
    lemma_rule2_opts(p, oooo, "9999"@, eeee, "11111111"@, "数据: "@);
    lemma_size_marks(n);
    lemma_parity_marks(n);
    lemma_every4(s, Mark::Big);
    lemma_every4(s, Mark::Small);
    lemma_every4(p, Mark::Odd);
    lemma_every4(p, Mark::Even);
    assert(res_four_notices(n) =~= opt(all_big(n), note("数据: "@, "1111"@))
        + opt(all_small(n), note("数据: "@, "0000"@))
        + opt(all_odd(n), note("数据: "@, "9999"@))
        + opt(all_even(n), note("数据: "@, "11111111"@)));
}

proof fn lemma_results_five(n: Seq<i64>)
    requires
        n.len() == 5,
    ensures
        res_five_notices(n) == opt(sizes_alternate(n, true), note("数据: "@, "01010"@))
            + opt(sizes_alternate(n, false), note("数据: "@, "10101"@))
            + opt(parities_alternate(n, true), note("数据: "@, "9119119"@))
            + opt(parities_alternate(n, false), note("数据: "@, "11911911"@)),
{
    let s = size_marks(n);
    let p = parity_marks(n);
    let sb = seq![Mark::Small, Mark::Big, Mark::Small, Mark::Big, Mark::Small];
    let bs = seq![Mark::Big, Mark::Small, Mark::Big, Mark::Small, Mark::Big];
    let oe = seq![Mark::Odd, Mark::Even, Mark::Odd, Mark::Even, Mark::Odd];
    let eo = seq![Mark::Even, Mark::Odd, Mark::Even, Mark::Odd, Mark::Even];
    lemma_differ(sb, bs, 0);
    lemma_differ(oe, eo, 0);
    lemma_rule2_opts(s, sb, "01010"@, bs, "10101"@, "数据: "@);
    lemma_rule2_opts(p, oe, "9119119"@, eo, "11911911"@, "数据: "@);
    lemma_size_marks(n);
    lemma_parity_marks(n);
    lemma_alternates5(s, Mark::Small, Mark::Big);
    lemma_alternates5(s, Mark::Big, Mark::Small);
    lemma_alternates5(p, Mark::Odd, Mark::Even);
    lemma_alternates5(p, Mark::Even, Mark::Odd);
    assert(res_five_notices(n) =~= opt(sizes_alternate(n, true), note("数据: "@, "01010"@))
        + opt(sizes_alternate(n, false), note("数据: "@, "10101"@))
        + opt(parities_alternate(n, true), note("数据: "@, "9119119"@))
        + opt(parities_alternate(n, false), note("数据: "@, "11911911"@)));
}

/// On the configured site, a readable answer on the latest results (five
/// records with an integer `openNum`) sends every notice due on them, one
/// at a time and in order, then asks for the predictions.
pub proof fn law_analysis_results_step(text: String, v: Json, now: u128)
    requires
        spec_contains(text@, "total"@),
        ints_present(v, 0, 5, "openNum"@),
    ensures
        sends_then(
            analysis_step(PhaseV::AwaitResults, (Event::Body { text, parsed: Some(v), now_millis: now })),
            results_due(ints(v, 0, 4, "openNum"@), ints(v, 0, 5, "openNum"@)),
            Then::Predictions,
        ),
{
    let n4 = ints(v, 0, 4, "openNum"@);
    let n5 = ints(v, 0, 5, "openNum"@);
    lemma_results_read(text, v, now);
    lemma_results_due(n4, n5);
    lemma_send_due(results_due(n4, n5), Then::Predictions);
}

proof fn lemma_results_read(text: String, v: Json, now: u128)
    requires
        spec_contains(text@, "total"@),
        ints_present(v, 0, 5, "openNum"@),
    ensures
        analysis_step(PhaseV::AwaitResults, (Event::Body { text, parsed: Some(v), now_millis: now }))
            == spec_send(
            res_four_notices(ints(v, 0, 4, "openNum"@)) + res_five_notices(ints(v, 0, 5, "openNum"@)),
            Then::Predictions,
        ),
{
    assert(ints_present(v, 0, 4, "openNum"@));
    lemma_ints(v, 0, 4, "openNum"@);
    lemma_ints(v, 0, 5, "openNum"@);
}

proof fn lemma_results_due(n4: Seq<i64>, n5: Seq<i64>)
    requires
        n4.len() == 4,
        n5.len() == 5,
    ensures
        res_four_notices(n4) + res_five_notices(n5) == results_due(n4, n5),
{
    lemma_results_four(n4);
    lemma_results_five(n5);
    lemma_regroup(
        opt(all_big(n4), note("数据: "@, "1111"@)),
        opt(all_small(n4), note("数据: "@, "0000"@)),
        opt(all_odd(n4), note("数据: "@, "9999"@)),
        opt(all_even(n4), note("数据: "@, "11111111"@)),
        opt(sizes_alternate(n5, true), note("数据: "@, "01010"@)),
        opt(sizes_alternate(n5, false), note("数据: "@, "10101"@)),
        opt(parities_alternate(n5, true), note("数据: "@, "9119119"@)),
        opt(parities_alternate(n5, false), note("数据: "@, "11911911"@)),
    );
}

/// Two runs of four sequences, joined, are the eight joined in order.
proof fn lemma_regroup<A>(a: Seq<A>, b: Seq<A>, c: Seq<A>, d: Seq<A>, e: Seq<A>, f: Seq<A>, g: Seq<A>, h: Seq<A>)
    ensures
        (a + b + c + d) + (e + f + g + h) == a + b + c + d + e + f + g + h,
{
    assert((a + b + c + d) + (e + f + g + h) =~= a + b + c + d + e + f + g + h);
}

proof fn lemma_predictions_four(l: Seq<i64>, r: Seq<i64>)
    requires
        l.len() == 4,
        r.len() == 4,
    ensures
        cal_four_notices(l, r) == opt(all_blue(l), note("盲猜: "@, "lbbbb"@))
            + opt(all_red(l), note("盲猜: "@, "lrrrr"@))
            + opt(all_blue(r), note("盲猜: "@, "rbbbb"@))
            + opt(all_red(r), note("盲猜: "@, "rrrrr"@)),
{
    let lm = color_marks(l);
    let rm = color_marks(r);
    let bbbb = seq![Mark::Blue, Mark::Blue, Mark::Blue, Mark::Blue];
    let rrrr = seq![Mark::Red, Mark::Red, Mark::Red, Mark::Red];
    lemma_differ(bbbb, rrrr, 0);
    lemma_rule2_opts(lm, bbbb, "lbbbb"@, rrrr, "lrrrr"@, "盲猜: "@);
    lemma_rule2_opts(rm, bbbb, "rbbbb"@, rrrr, "rrrrr"@, "盲猜: "@);
    lemma_color_marks(l);
    lemma_color_marks(r);
    lemma_every4(lm, Mark::Blue);
    lemma_every4(lm, Mark::Red);
    lemma_every4(rm, Mark::Blue);
    lemma_every4(rm, Mark::Red);
    assert(cal_four_notices(l, r) =~= opt(all_blue(l), note("盲猜: "@, "lbbbb"@))
        + opt(all_red(l), note("盲猜: "@, "lrrrr"@))
        + opt(all_blue(r), note("盲猜: "@, "rbbbb"@))
        + opt(all_red(r), note("盲猜: "@, "rrrrr"@)));
}

proof fn lemma_predictions_five(l: Seq<i64>, r: Seq<i64>)
    requires
        l.len() == 5,
        r.len() == 5,
    ensures
        cal_five_notices(l, r) == opt(colors_alternate(l, true), note("盲猜: "@, "lbrbrb"@))
            + opt(colors_alternate(l, false), note("盲猜: "@, "lrbrbr"@))
            + opt(colors_alternate(r, true), note("盲猜: "@, "rbrbrb"@))
            + opt(colors_alternate(r, false), note("盲猜: "@, "rrbrbr"@)),
{
    let lm = color_marks(l);
    let rm = color_marks(r);
    let br = seq![Mark::Blue, Mark::Red, Mark::Blue, Mark::Red, Mark::Blue];
    let rb = seq![Mark::Red, Mark::Blue, Mark::Red, Mark::Blue, Mark::Red];
    lemma_differ(br, rb, 0);
    lemma_rule2_opts(lm, br, "lbrbrb"@, rb, "lrbrbr"@, "盲猜: "@);
    lemma_rule2_opts(rm, br, "rbrbrb"@, rb, "rrbrbr"@, "盲猜: "@);
    lemma_color_marks(l);
    lemma_color_marks(r);
    lemma_alternates5(lm, Mark::Blue, Mark::Red);
    lemma_alternates5(lm, Mark::Red, Mark::Blue);
    lemma_alternates5(rm, Mark::Blue, Mark::Red);
    lemma_alternates5(rm, Mark::Red, Mark::Blue);
    assert(cal_five_notices(l, r) =~= opt(colors_alternate(l, true), note("盲猜: "@, "lbrbrb"@))
        + opt(colors_alternate(l, false), note("盲猜: "@, "lrbrbr"@))
        + opt(colors_alternate(r, true), note("盲猜: "@, "rbrbrb"@))
        + opt(colors_alternate(r, false), note("盲猜: "@, "rrbrbr"@)));
}

proof fn lemma_predictions_read(text: String, v: Json, now: u128)
    requires
        spec_contains(text@, "total"@),
        ints_present(v, 1, 6, "r1_r"@),
        ints_present(v, 1, 6, "r2_r"@),
    ensures
        analysis_step(PhaseV::AwaitPredictions, (Event::Body { text, parsed: Some(v), now_millis: now }))
            == spec_send(
            cal_four_notices(ints(v, 1, 5, "r1_r"@), ints(v, 1, 5, "r2_r"@))
                + cal_five_notices(ints(v, 1, 6, "r1_r"@), ints(v, 1, 6, "r2_r"@)),
            Then::NextDraw,
        ),
{
    assert(ints_present(v, 1, 5, "r1_r"@));
    assert(ints_present(v, 1, 5, "r2_r"@));
    lemma_ints(v, 1, 5, "r1_r"@);
    lemma_ints(v, 1, 6, "r1_r"@);
    lemma_ints(v, 1, 5, "r2_r"@);
    lemma_ints(v, 1, 6, "r2_r"@);
}

proof fn lemma_predictions_due(l4: Seq<i64>, r4: Seq<i64>, l5: Seq<i64>, r5: Seq<i64>)
    requires
        l4.len() == 4,
        r4.len() == 4,
        l5.len() == 5,
        r5.len() == 5,
    ensures
        cal_four_notices(l4, r4) + cal_five_notices(l5, r5) == predictions_due(l4, r4, l5, r5),
{
    lemma_predictions_four(l4, r4);
    lemma_predictions_five(l5, r5);
    lemma_regroup(
        opt(all_blue(l4), note("盲猜: "@, "lbbbb"@)),
        opt(all_red(l4), note("盲猜: "@, "lrrrr"@)),
        opt(all_blue(r4), note("盲猜: "@, "rbbbb"@)),
        opt(all_red(r4), note("盲猜: "@, "rrrrr"@)),
        opt(colors_alternate(l5, true), note("盲猜: "@, "lbrbrb"@)),
        opt(colors_alternate(l5, false), note("盲猜: "@, "lrbrbr"@)),
        opt(colors_alternate(r5, true), note("盲猜: "@, "rbrbrb"@)),
        opt(colors_alternate(r5, false), note("盲猜: "@, "rrbrbr"@)),
    );
}

/// On the configured site, a readable answer on the latest predictions
/// (records 1 to 5 with integer `r1_r` and `r2_r`) sends every notice due on
/// them, one at a time and in order, then waits for the next draw.
pub proof fn law_analysis_predictions_step(text: String, v: Json, now: u128)
    requires
        spec_contains(text@, "total"@),
        ints_present(v, 1, 6, "r1_r"@),
        ints_present(v, 1, 6, "r2_r"@),
    ensures
        sends_then(
            analysis_step(PhaseV::AwaitPredictions, (Event::Body { text, parsed: Some(v), now_millis: now })),
            predictions_due(
                ints(v, 1, 5, "r1_r"@),
                ints(v, 1, 5, "r2_r"@),
                ints(v, 1, 6, "r1_r"@),
                ints(v, 1, 6, "r2_r"@),
            ),
            Then::NextDraw,
        ),
{
    let l4 = ints(v, 1, 5, "r1_r"@);
    let r4 = ints(v, 1, 5, "r2_r"@);
    let l5 = ints(v, 1, 6, "r1_r"@);
    let r5 = ints(v, 1, 6, "r2_r"@);
    lemma_predictions_read(text, v, now);
    lemma_predictions_due(l4, r4, l5, r5);
    lemma_send_due(predictions_due(l4, r4, l5, r5), Then::NextDraw);
}

proof fn lemma_canada_results_due(n: Seq<i64>)
    requires
        n.len() == 4,
    ensures
        result_notices(n) == canada_results_due(n),
{
    let s = size_marks(n);
    let p = parity_marks(n);
    let bbbb = seq![Mark::Big, Mark::Big, Mark::Big, Mark::Big];
    let ssss = seq![Mark::Small, Mark::Small, Mark::Small, Mark::Small];
    let sbsb = seq![Mark::Small, Mark::Big, Mark::Small, Mark::Big];
    let bsbs = seq![Mark::Big, Mark::Small, Mark::Big, Mark::Small];
    lemma_differ(bbbb, ssss, 0);
    lemma_differ(bbbb, sbsb, 0);
    lemma_differ(bbbb, bsbs, 1);
    lemma_differ(ssss, sbsb, 1);
    lemma_differ(ssss, bsbs, 0);
    lemma_differ(sbsb, bsbs, 0);
    let oooo = seq![Mark::Odd, Mark::Odd, Mark::Odd, Mark::Odd];
    let eeee = seq![Mark::Even, Mark::Even, Mark::Even, Mark::Even];
    let oeoe = seq![Mark::Odd, Mark::Even, Mark::Odd, Mark::Even];
    let eoeo = seq![Mark::Even, Mark::Odd, Mark::Even, Mark::Odd];
    lemma_differ(oooo, eeee, 0);
    lemma_differ(oooo, oeoe, 1);
    lemma_differ(oooo, eoeo, 0);
    lemma_differ(eeee, oeoe, 0);
    lemma_differ(eeee, eoeo, 1);
    lemma_differ(oeoe, eoeo, 0);
    lemma_rule4_opts(s, bbbb, "四个大"@, ssss, "四个小"@, sbsb, "小大小大"@, bsbs, "大小大小"@, "开奖结果: "@);
    lemma_rule4_opts(p, oooo, "四个单"@, eeee, "四个双"@, oeoe, "单双单双"@, eoeo, "双单双单"@, "开奖结果: "@);
    lemma_size_marks(n);
    lemma_parity_marks(n);
    lemma_every4(s, Mark::Big);
    lemma_every4(s, Mark::Small);
    lemma_alternates4(s, Mark::Small, Mark::Big);
    lemma_alternates4(s, Mark::Big, Mark::Small);
    lemma_every4(p, Mark::Odd);
    lemma_every4(p, Mark::Even);
    lemma_alternates4(p, Mark::Odd, Mark::Even);
    lemma_alternates4(p, Mark::Even, Mark::Odd);
    lemma_regroup(
        opt(all_big(n), note("开奖结果: "@, "四个大"@)),
        opt(all_small(n), note("开奖结果: "@, "四个小"@)),
        opt(sizes_alternate(n, true), note("开奖结果: "@, "小大小大"@)),
        opt(sizes_alternate(n, false), note("开奖结果: "@, "大小大小"@)),
        opt(all_odd(n), note("开奖结果: "@, "四个单"@)),
        opt(all_even(n), note("开奖结果: "@, "四个双"@)),
        opt(parities_alternate(n, true), note("开奖结果: "@, "单双单双"@)),
        opt(parities_alternate(n, false), note("开奖结果: "@, "双单双单"@)),
    );
}

/// On the Canada 4.8 site, a readable answer on the latest results (four
/// records with an integer `openNum`) sends every notice due on them, one at
/// a time and in order, then asks for the predictions.
pub proof fn law_canada_results_step(text: String, v: Json, now: u128)
    requires
        spec_contains(text@, "total"@),
        ints_present(v, 0, 4, "openNum"@),
    ensures
        sends_then(
            canada_step(PhaseV::AwaitResults, (Event::Body { text, parsed: Some(v), now_millis: now })),
            canada_results_due(ints(v, 0, 4, "openNum"@)),
            Then::Predictions,
        ),
{
    let n = ints(v, 0, 4, "openNum"@);
    lemma_ints(v, 0, 4, "openNum"@);
    lemma_canada_results_due(n);
    lemma_send_due(canada_results_due(n), Then::Predictions);
}

proof fn lemma_canada_predictions_due(l: Seq<i64>, r: Seq<i64>)
    requires
        l.len() == 4,
        r.len() == 4,
    ensures
        calculate_notices(l, r) == canada_predictions_due(l, r),
{
    let lm = color_marks(l);
    let rm = color_marks(r);
    let bbbb = seq![Mark::Blue, Mark::Blue, Mark::Blue, Mark::Blue];
    let rrrr = seq![Mark::Red, Mark::Red, Mark::Red, Mark::Red];
    let brbr = seq![Mark::Blue, Mark::Red, Mark::Blue, Mark::Red];
    let rbrb = seq![Mark::Red, Mark::Blue, Mark::Red, Mark::Blue];
    lemma_differ(bbbb, rrrr, 0);
    lemma_differ(bbbb, brbr, 1);
    lemma_differ(bbbb, rbrb, 0);
    lemma_differ(rrrr, brbr, 0);
    lemma_differ(rrrr, rbrb, 1);
    lemma_differ(brbr, rbrb, 0);
    lemma_rule4_opts(lm, bbbb, "左侧四个蓝"@, rrrr, "左侧四个红"@, brbr, "左侧蓝红蓝红"@, rbrb, "左侧红蓝红蓝"@, "预测结果: "@);
    lemma_rule4_opts(rm, bbbb, "右侧四个蓝"@, rrrr, "右侧四个红"@, brbr, "右侧蓝红蓝红"@, rbrb, "右侧红蓝红蓝"@, "预测结果: "@);
    lemma_color_marks(l);
    lemma_color_marks(r);
    lemma_every4(lm, Mark::Blue);
    lemma_every4(lm, Mark::Red);
    lemma_alternates4(lm, Mark::Blue, Mark::Red);
    lemma_alternates4(lm, Mark::Red, Mark::Blue);
    lemma_every4(rm, Mark::Blue);
    lemma_every4(rm, Mark::Red);
    lemma_alternates4(rm, Mark::Blue, Mark::Red);
    lemma_alternates4(rm, Mark::Red, Mark::Blue);
    lemma_regroup(
        opt(all_blue(l), note("预测结果: "@, "左侧四个蓝"@)),
        opt(all_red(l), note("预测结果: "@, "左侧四个红"@)),
        opt(colors_alternate(l, true), note("预测结果: "@, "左侧蓝红蓝红"@)),
        opt(colors_alternate(l, false), note("预测结果: "@, "左侧红蓝红蓝"@)),
        opt(all_blue(r), note("预测结果: "@, "右侧四个蓝"@)),
        opt(all_red(r), note("预测结果: "@, "右侧四个红"@)),
        opt(colors_alternate(r, true), note("预测结果: "@, "右侧蓝红蓝红"@)),
        opt(colors_alternate(r, false), note("预测结果: "@, "右侧红蓝红蓝"@)),
    );
}

/// On the Canada 4.8 site, a readable answer on the latest predictions
/// (records 1 to 4 with integer `r1_r` and `r2_r`) sends every notice due on
/// them, the left side read from `r1_r` and the right from `r2_r`, one at a
/// time and in order, then waits for the next draw.
pub proof fn law_canada_predictions_step(text: String, v: Json, now: u128)
    requires
        spec_contains(text@, "total"@),
        ints_present(v, 1, 5, "r1_r"@),
        ints_present(v, 1, 5, "r2_r"@),
    ensures
        sends_then(
            canada_step(PhaseV::AwaitPredictions, (Event::Body { text, parsed: Some(v), now_millis: now })),
            canada_predictions_due(ints(v, 1, 5, "r1_r"@), ints(v, 1, 5, "r2_r"@)),
            Then::NextDraw,
        ),
{
    let l = ints(v, 1, 5, "r1_r"@);
    let r = ints(v, 1, 5, "r2_r"@);
    lemma_ints(v, 1, 5, "r1_r"@);
    lemma_ints(v, 1, 5, "r2_r"@);
    lemma_canada_predictions_due(l, r);
    lemma_send_due(canada_predictions_due(l, r), Then::NextDraw);
}

/// On either site, an answer at an open-draw check with attempts left asks
/// about the same draw again where it holds `""` (the draw is pending), and
/// pauses seven seconds before a new round where it does not.
pub proof fn law_pending_check_asks_again(
    canada: bool,
    attempt: u64,
    section: u64,
    text: String,
    parsed: Option<Json>,
    now: u128,
)
    requires
        attempt < 9,
    ensures
        spec_contains(text@, "\"\""@) ==> site_step(
            canada,
            PhaseV::AwaitCheck { attempt, section },
            (Event::Body { text, parsed, now_millis: now }),
        ) == (PhaseV::AwaitCheck { attempt: (attempt + 1) as u64, section }, ActionV::CheckSection(section)),
        !spec_contains(text@, "\"\""@) ==> site_step(
            canada,
            PhaseV::AwaitCheck { attempt, section },
            (Event::Body { text, parsed, now_millis: now }),
        ) == (PhaseV::Start, ActionV::Sleep(7000)),
{
}

} // verus!
