//! The watcher of the Canada 4.8 draw site: which notices its results and
//! predictions call for, the requests it makes, and its round of polling.
use vstd::prelude::*;
use crate::draws::{
    Mark, Notice, notice_views, rule_notice, size_marks, parity_marks, color_marks, open_nums,
    left_codes, right_codes, guesses_readable, read_int_fields, sizes_of, parities_of, colors_of,
    push_rule_notice, four, four_alternating, rules4,
};
use crate::json::Json;
use crate::message::WxPusher;
use crate::request::{
    Method, Request, request_is, results_url, predictions_url, next_url, open_url, section_form,
    listing_headers, next_headers, check_headers, results_request, predictions_request,
    next_request, open_request,
};
use crate::schedule::{
    Phase, PhaseV, Event, Action, ActionV, Fault, Then, spec_send, send, read_next_info, remaining_millis, spec_after_next,
    spec_after_check, spec_common_step, after_next, after_check, common_step, too_far,
    overdue_notice, make_overdue_notice, next_wait, next_section,
};
use crate::analysis::{next_readable, section_pending};
use crate::text::{contains, spec_contains};

verus! {

/// The site's address.
pub open spec fn canada_base() -> Seq<char> {
    "http://23.225.7.133:828"@
}

/// The page the site's requests name as their referer.
pub open spec fn canada_referer() -> Seq<char> {
    "http://23.225.7.133:828/"@
}

/// The app token of the site's notices.
pub open spec fn canada_token() -> Seq<char> {
    "AT_UyFVD4Vhyl7BFUmnicHKrtBI5oz0mY4X"@
}

/// The patterns of the four latest draw sizes that call for a notice.
pub open spec fn size_rules() -> Seq<(Seq<Mark>, Seq<char>)> {
    seq![
        (seq![Mark::Big, Mark::Big, Mark::Big, Mark::Big], "四个大"@),
        (seq![Mark::Small, Mark::Small, Mark::Small, Mark::Small], "四个小"@),
        (seq![Mark::Small, Mark::Big, Mark::Small, Mark::Big], "小大小大"@),
        (seq![Mark::Big, Mark::Small, Mark::Big, Mark::Small], "大小大小"@),
    ]
}

/// The patterns of the four latest draw parities that call for a notice.
pub open spec fn parity_rules() -> Seq<(Seq<Mark>, Seq<char>)> {
    seq![
        (seq![Mark::Odd, Mark::Odd, Mark::Odd, Mark::Odd], "四个单"@),
        (seq![Mark::Even, Mark::Even, Mark::Even, Mark::Even], "四个双"@),
        (seq![Mark::Odd, Mark::Even, Mark::Odd, Mark::Even], "单双单双"@),
        (seq![Mark::Even, Mark::Odd, Mark::Even, Mark::Odd], "双单双单"@),
    ]
}

/// The patterns of four predicted colours on the left that call for a notice.
pub open spec fn left_rules() -> Seq<(Seq<Mark>, Seq<char>)> {
    seq![
        (seq![Mark::Blue, Mark::Blue, Mark::Blue, Mark::Blue], "左侧四个蓝"@),
        (seq![Mark::Red, Mark::Red, Mark::Red, Mark::Red], "左侧四个红"@),
        (seq![Mark::Blue, Mark::Red, Mark::Blue, Mark::Red], "左侧蓝红蓝红"@),
        (seq![Mark::Red, Mark::Blue, Mark::Red, Mark::Blue], "左侧红蓝红蓝"@),
    ]
}

/// The patterns of four predicted colours on the right that call for a notice.
pub open spec fn right_rules() -> Seq<(Seq<Mark>, Seq<char>)> {
    seq![
        (seq![Mark::Blue, Mark::Blue, Mark::Blue, Mark::Blue], "右侧四个蓝"@),
        (seq![Mark::Red, Mark::Red, Mark::Red, Mark::Red], "右侧四个红"@),
        (seq![Mark::Blue, Mark::Red, Mark::Blue, Mark::Red], "右侧蓝红蓝红"@),
        (seq![Mark::Red, Mark::Blue, Mark::Red, Mark::Blue], "右侧红蓝红蓝"@),
    ]
}

/// The notices called for by the four draw numbers `nums`.
pub open spec fn result_notices(nums: Seq<i64>) -> Seq<(Seq<char>, Seq<char>)> {
    rule_notice(size_marks(nums), size_rules(), "开奖结果: "@)
        + rule_notice(parity_marks(nums), parity_rules(), "开奖结果: "@)
}

/// The notices called for by four predictions with codes `left` and `right`.
pub open spec fn calculate_notices(left: Seq<i64>, right: Seq<i64>) -> Seq<(Seq<char>, Seq<char>)> {
    rule_notice(color_marks(left), left_rules(), "预测结果: "@)
        + rule_notice(color_marks(right), right_rules(), "预测结果: "@)
}

/// A step of the round, reading an answer where the phase waits for one.
/// An answer without the data the round needs ends the program.
pub open spec fn canada_step(phase: PhaseV, event: Event) -> (PhaseV, ActionV) {
    match event {
        Event::Body { text, parsed, now_millis } => match phase {
            PhaseV::AwaitResults => {
                if !spec_contains(text@, "total"@) {
                    (PhaseV::Stopped, ActionV::Abort(Fault::NoData))
                } else if !(parsed matches Some(v) && open_nums(v, 0, 4) is Some) {
                    (PhaseV::Stopped, ActionV::Abort(Fault::Unreadable))
                } else {
                    spec_send(result_notices(open_nums(parsed->0, 0, 4)->0), Then::Predictions)
                }
            },
            PhaseV::AwaitPredictions => {
                if !spec_contains(text@, "total"@) {
                    (PhaseV::Stopped, ActionV::Abort(Fault::NoData))
                } else if !(parsed matches Some(v) && guesses_readable(v, 1, 5)) {
                    (PhaseV::Stopped, ActionV::Abort(Fault::Unreadable))
                } else {
                    spec_send(
                        calculate_notices(left_codes(parsed->0, 1, 5)->0, right_codes(parsed->0, 1, 5)->0),
                        Then::NextDraw,
                    )
                }
            },
            PhaseV::AwaitNext { attempt } => {
                if !spec_contains(text@, "openTime"@) {
                    (PhaseV::Stopped, ActionV::Abort(Fault::NoData))
                } else if !next_readable(parsed) {
                    (PhaseV::Stopped, ActionV::Abort(Fault::Unreadable))
                } else {
                    spec_after_next(attempt, next_wait(parsed->0, now_millis), next_section(parsed->0), true)
                }
            },
            PhaseV::AwaitCheck { attempt, section } => spec_after_check(attempt, section, section_pending(text@)),
            _ => spec_common_step(phase, event, true),
        },
        _ => spec_common_step(phase, event, true),
    }
}

/// The watcher of the Canada 4.8 draw site.
pub struct Canada48 {
    base_url: String,
    page_size: i32,
    wx_pusher: WxPusher,
}

impl Canada48 {
    /// A watcher of this site reads pages of ten records from its address
    /// and sends its notices with its token.
    #[verifier::type_invariant]
    spec fn of_the_site(self) -> bool {
        &&& self.page_size == 10
        &&& self.base_url@ == canada_base()
        &&& self.wx_pusher.token() == canada_token()
    }

    pub closed spec fn notifier(&self) -> WxPusher {
        self.wx_pusher
    }

    /// The watcher of the site, with pages of ten records.
    pub fn new() -> (r: Self)
        ensures
            r.notifier().token() == canada_token(),
    {
        let page_size: i32 = 10;
        let weixin = WxPusher::new(String::from_str("AT_UyFVD4Vhyl7BFUmnicHKrtBI5oz0mY4X"));
        Canada48 { base_url: String::from_str("http://23.225.7.133:828"), page_size, wx_pusher: weixin }
    }

    /// The sender of this watcher's notices.
    pub fn pusher(&self) -> (r: &WxPusher)
        ensures
            *r == self.notifier(),
            r.token() == canada_token(),
    {
        proof { use_type_invariant(self); }
        &self.wx_pusher
    }

    /// The request for the latest results.
    pub fn results_request(&self) -> (r: Request)
        ensures
            request_is(r, Method::Get, results_url(canada_base(), 10), listing_headers(canada_referer()), None),
    {
        proof { use_type_invariant(self); }
        results_request(&self.base_url, &String::from_str("http://23.225.7.133:828/"), self.page_size)
    }

    /// The request for the latest predictions.
    pub fn predictions_request(&self) -> (r: Request)
        ensures
            request_is(r, Method::Get, predictions_url(canada_base(), 10), listing_headers(canada_referer()), None),
    {
        proof { use_type_invariant(self); }
        predictions_request(&self.base_url, &String::from_str("http://23.225.7.133:828/"), self.page_size)
    }

    /// The request for the next draw's time.
    pub fn next_request(&self) -> (r: Request)
        ensures
            request_is(r, Method::Get, next_url(canada_base()), next_headers(canada_referer()), None),
    {
        next_request(&String::from_str("http://23.225.7.133:828"), &String::from_str("http://23.225.7.133:828/"))
    }

    /// The request that asks whether draw `section` is open.
    pub fn check_section_request(&self, section: u64) -> (r: Request)
        ensures
            request_is(r, Method::Post, open_url(canada_base()), check_headers(canada_base(), canada_referer()),
                Some(section_form(section))),
    {
        let base = String::from_str("http://23.225.7.133:828");
        open_request(&base, &base, &String::from_str("http://23.225.7.133:828/"), section)
    }

    /// Whether the answer to the open-draw request says the draw is still pending.
    pub fn check_section(&self, body: &str) -> (pending: bool)
        ensures
            pending == section_pending(body@),
    {
        contains(body, "\"\"")
    }

    /// The alert a countdown of `secs` seconds starts with: a notice where
    /// the draw is more than 30 minutes away.
    pub fn flush_second(&self, secs: u64) -> (r: Option<Notice>)
        ensures
            match r {
                Some(n) => too_far(secs) && n@ == overdue_notice(),
                None => !too_far(secs),
            },
    {
        if secs / 60 > 30 {
            Some(make_overdue_notice())
        } else {
            None
        }
    }

    /// The answer about the next draw, read: the milliseconds until it and its number.
    pub fn get_next(&self, body: &str, parsed: &Option<Json>, now_millis: u128) -> (r: (u64, u64))
        requires
            spec_contains(body@, "openTime"@),
            next_readable(*parsed),
        ensures
            r == (next_wait(parsed->0, now_millis), next_section(parsed->0)),
    {
        let v = parsed.as_ref().unwrap();
        let (open_time, server_time, section) = read_next_info(v).unwrap();
        (remaining_millis(open_time, server_time, now_millis), section)
    }

    /// The notices the latest results call for.
    pub fn get_result(&self, body: &str, parsed: &Option<Json>) -> (r: Vec<Notice>)
        requires
            spec_contains(body@, "total"@),
            *parsed matches Some(v) && open_nums(v, 0, 4) is Some,
        ensures
            notice_views(r@) == result_notices(open_nums(parsed->0, 0, 4)->0),
    {
        self.handle_result(parsed.as_ref().unwrap())
    }

    /// The notices the latest predictions call for.
    pub fn get_calculate(&self, body: &str, parsed: &Option<Json>) -> (r: Vec<Notice>)
        requires
            spec_contains(body@, "total"@),
            *parsed matches Some(v) && guesses_readable(v, 1, 5),
        ensures
            notice_views(r@) == calculate_notices(left_codes(parsed->0, 1, 5)->0, right_codes(parsed->0, 1, 5)->0),
    {
        self.handle_calculate(parsed.as_ref().unwrap())
    }

    /// The notices the four latest draws (`data[0..4]`) call for: one for
    /// their sizes where they are all big, all small or alternate, one for
    /// their parities where they are all odd, all even or alternate.
    pub fn handle_result(&self, result: &Json) -> (r: Vec<Notice>)
        requires
            open_nums(*result, 0, 4) is Some,
        ensures
            notice_views(r@) == result_notices(open_nums(*result, 0, 4)->0),
    {
        let nums = read_int_fields(result, 0, 4, "openNum").unwrap();
        let sizes = sizes_of(&nums);
        let parities = parities_of(&nums);
        let size_table = rules4(
            (four(Mark::Big), "四个大"),
            (four(Mark::Small), "四个小"),
            (four_alternating(Mark::Small, Mark::Big), "小大小大"),
            (four_alternating(Mark::Big, Mark::Small), "大小大小"),
        );
        let parity_table = rules4(
            (four(Mark::Odd), "四个单"),
            (four(Mark::Even), "四个双"),
            (four_alternating(Mark::Odd, Mark::Even), "单双单双"),
            (four_alternating(Mark::Even, Mark::Odd), "双单双单"),
        );
        let mut out: Vec<Notice> = Vec::new();
        push_rule_notice(&mut out, &sizes, &size_table, "开奖结果: ");
        push_rule_notice(&mut out, &parities, &parity_table, "开奖结果: ");
        assert(notice_views(Seq::<Notice>::empty()) =~= Seq::empty());
        out
    }

    /// The notices four predictions (`data[1..5]`) call for: one per side
    /// where that side's colours are all blue, all red or alternate.
    pub fn handle_calculate(&self, result: &Json) -> (r: Vec<Notice>)
        requires
            guesses_readable(*result, 1, 5),
        ensures
            notice_views(r@) == calculate_notices(left_codes(*result, 1, 5)->0, right_codes(*result, 1, 5)->0),
    {
        let left = colors_of(&read_int_fields(result, 1, 5, "r1_r").unwrap());
        let right = colors_of(&read_int_fields(result, 1, 5, "r2_r").unwrap());
        let left_table = rules4(
            (four(Mark::Blue), "左侧四个蓝"),
            (four(Mark::Red), "左侧四个红"),
            (four_alternating(Mark::Blue, Mark::Red), "左侧蓝红蓝红"),
            (four_alternating(Mark::Red, Mark::Blue), "左侧红蓝红蓝"),
        );
        let right_table = rules4(
            (four(Mark::Blue), "右侧四个蓝"),
            (four(Mark::Red), "右侧四个红"),
            (four_alternating(Mark::Blue, Mark::Red), "右侧蓝红蓝红"),
            (four_alternating(Mark::Red, Mark::Blue), "右侧红蓝红蓝"),
        );
        let mut out: Vec<Notice> = Vec::new();
        push_rule_notice(&mut out, &left, &left_table, "预测结果: ");
        push_rule_notice(&mut out, &right, &right_table, "预测结果: ");
        assert(notice_views(Seq::<Notice>::empty()) =~= Seq::empty());
        out
    }

    /// One step of the round: from where the round stands and what just
    /// happened, where it goes and what to do next.
    pub fn controller(&self, phase: Phase, event: &Event) -> (r: (Phase, Action))
        ensures
            (r.0@, r.1@) == canada_step(phase@, *event),
    {
        match event {
            Event::Body { text, parsed, now_millis } => match phase {
                Phase::AwaitResults => {
                    if !contains(text.as_str(), "total") {
                        return (Phase::Stopped, Action::Abort(Fault::NoData));
                    }
                    match parsed {
                        Some(v) => {
                            if read_int_fields(v, 0, 4, "openNum").is_none() {
                                return (Phase::Stopped, Action::Abort(Fault::Unreadable));
                            }
                            send(self.get_result(text.as_str(), parsed), Then::Predictions)
                        },
                        None => (Phase::Stopped, Action::Abort(Fault::Unreadable)),
                    }
                },
                Phase::AwaitPredictions => {
                    if !contains(text.as_str(), "total") {
                        return (Phase::Stopped, Action::Abort(Fault::NoData));
                    }
                    match parsed {
                        Some(v) => {
                            if read_int_fields(v, 1, 5, "r1_r").is_none() || read_int_fields(v, 1, 5, "r2_r").is_none() {
                                return (Phase::Stopped, Action::Abort(Fault::Unreadable));
                            }
                            send(self.get_calculate(text.as_str(), parsed), Then::NextDraw)
                        },
                        None => (Phase::Stopped, Action::Abort(Fault::Unreadable)),
                    }
                },
                Phase::AwaitNext { attempt } => {
                    if !contains(text.as_str(), "openTime") {
                        return (Phase::Stopped, Action::Abort(Fault::NoData));
                    }
                    let readable = match parsed {
                        Some(v) => read_next_info(v).is_some(),
                        None => false,
                    };
                    if !readable {
                        return (Phase::Stopped, Action::Abort(Fault::Unreadable));
                    }
                    let (millis, section) = self.get_next(text.as_str(), parsed, *now_millis);
                    after_next(attempt, millis, section, true)
                },
                Phase::AwaitCheck { attempt, section } => {
                    let pending = self.check_section(text.as_str());
                    after_check(attempt, section, pending)
                },
                _ => common_step(phase, event, true),
            },
            _ => common_step(phase, event, true),
        }
    }
}

} // verus!
