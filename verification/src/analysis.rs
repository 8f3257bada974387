//! The watcher of a configurable draw site: which notices its results and
//! predictions call for, the requests it makes, and its round of polling.
use vstd::prelude::*;
use crate::draws::{
    Mark, Notice, notice_views, rule_notice, rules_view, size_marks, parity_marks, color_marks,
    open_nums, left_codes, right_codes, guesses_readable, read_int_fields, sizes_of, parities_of,
    colors_of, push_rule_notice, concat_notices, rules, four, five_alternating,
};
use crate::json::Json;
use crate::message::WxPusher;
use crate::request::{
    Method, Request, request_is, results_url, predictions_url, next_url, open_url, section_form,
    listing_headers, next_headers, check_headers, results_request, predictions_request,
    next_request, open_request,
};
use crate::schedule::{
    Phase, PhaseV, Event, ActionV, Fault, Then, spec_send, send, next_info, read_next_info, remaining_millis,
    spec_after_next, spec_after_check, spec_common_step, after_next, after_check, common_step, Action, too_far, overdue_notice,
    make_overdue_notice, next_wait, next_section,
};
use crate::text::{contains, spec_contains};

verus! {

/// Why a site's answer was refused.
#[derive(Clone, Copy, PartialEq, Eq, Structural, Debug)]
pub enum SiteError {
    /// The answer holds no `total`: no list of results or predictions.
    NoListing,
    /// The answer holds no `openTime`: no next draw.
    NoNextDraw,
}

impl SiteError {
    pub open spec fn text(self) -> Seq<char> {
        match self {
            SiteError::NoListing => "may need open proxy！"@,
            SiteError::NoNextDraw => "may be need use proxy！"@,
        }
    }

    /// The error's text.
    pub fn message(&self) -> (s: String)
        ensures
            s@ == self.text(),
    {
        match self {
            SiteError::NoListing => String::from_str("may need open proxy！"),
            SiteError::NoNextDraw => String::from_str("may be need use proxy！"),
        }
    }
}

/// The patterns of the four latest draw sizes that call for a notice.
pub open spec fn res_four_size_rules() -> Seq<(Seq<Mark>, Seq<char>)> {
    seq![
        (seq![Mark::Big, Mark::Big, Mark::Big, Mark::Big], "1111"@),
        (seq![Mark::Small, Mark::Small, Mark::Small, Mark::Small], "0000"@),
    ]
}

/// The patterns of the four latest draw parities that call for a notice.
pub open spec fn res_four_parity_rules() -> Seq<(Seq<Mark>, Seq<char>)> {
    seq![
        (seq![Mark::Odd, Mark::Odd, Mark::Odd, Mark::Odd], "9999"@),
        (seq![Mark::Even, Mark::Even, Mark::Even, Mark::Even], "11111111"@),
    ]
}

/// The patterns of the five latest draw sizes that call for a notice.
pub open spec fn res_five_size_rules() -> Seq<(Seq<Mark>, Seq<char>)> {
    seq![
        (seq![Mark::Small, Mark::Big, Mark::Small, Mark::Big, Mark::Small], "01010"@),
        (seq![Mark::Big, Mark::Small, Mark::Big, Mark::Small, Mark::Big], "10101"@),
    ]
}

/// The patterns of the five latest draw parities that call for a notice.
pub open spec fn res_five_parity_rules() -> Seq<(Seq<Mark>, Seq<char>)> {
    seq![
        (seq![Mark::Odd, Mark::Even, Mark::Odd, Mark::Even, Mark::Odd], "9119119"@),
        (seq![Mark::Even, Mark::Odd, Mark::Even, Mark::Odd, Mark::Even], "11911911"@),
    ]
}

/// The patterns of four predicted colours (left side) that call for a notice.
pub open spec fn cal_four_left_rules() -> Seq<(Seq<Mark>, Seq<char>)> {
    seq![
        (seq![Mark::Blue, Mark::Blue, Mark::Blue, Mark::Blue], "lbbbb"@),
        (seq![Mark::Red, Mark::Red, Mark::Red, Mark::Red], "lrrrr"@),
    ]
}

/// The patterns of four predicted colours (right side) that call for a notice.
pub open spec fn cal_four_right_rules() -> Seq<(Seq<Mark>, Seq<char>)> {
    seq![
        (seq![Mark::Blue, Mark::Blue, Mark::Blue, Mark::Blue], "rbbbb"@),
        (seq![Mark::Red, Mark::Red, Mark::Red, Mark::Red], "rrrrr"@),
    ]
}

/// The patterns of five predicted colours (left side) that call for a notice.
pub open spec fn cal_five_left_rules() -> Seq<(Seq<Mark>, Seq<char>)> {
    seq![
        (seq![Mark::Blue, Mark::Red, Mark::Blue, Mark::Red, Mark::Blue], "lbrbrb"@),
        (seq![Mark::Red, Mark::Blue, Mark::Red, Mark::Blue, Mark::Red], "lrbrbr"@),
    ]
}

/// The patterns of five predicted colours (right side) that call for a notice.
pub open spec fn cal_five_right_rules() -> Seq<(Seq<Mark>, Seq<char>)> {
    seq![
        (seq![Mark::Blue, Mark::Red, Mark::Blue, Mark::Red, Mark::Blue], "rbrbrb"@),
        (seq![Mark::Red, Mark::Blue, Mark::Red, Mark::Blue, Mark::Red], "rrbrbr"@),
    ]
}

/// The notices called for by the four draw numbers `nums`.
pub open spec fn res_four_notices(nums: Seq<i64>) -> Seq<(Seq<char>, Seq<char>)> {
    rule_notice(size_marks(nums), res_four_size_rules(), "数据: "@)
        + rule_notice(parity_marks(nums), res_four_parity_rules(), "数据: "@)
}

/// The notices called for by the five draw numbers `nums`.
pub open spec fn res_five_notices(nums: Seq<i64>) -> Seq<(Seq<char>, Seq<char>)> {
    rule_notice(size_marks(nums), res_five_size_rules(), "数据: "@)
        + rule_notice(parity_marks(nums), res_five_parity_rules(), "数据: "@)
}

/// The notices called for by four predictions with codes `left` and `right`.
pub open spec fn cal_four_notices(left: Seq<i64>, right: Seq<i64>) -> Seq<(Seq<char>, Seq<char>)> {
    rule_notice(color_marks(left), cal_four_left_rules(), "盲猜: "@)
        + rule_notice(color_marks(right), cal_four_right_rules(), "盲猜: "@)
}

/// The notices called for by five predictions with codes `left` and `right`.
pub open spec fn cal_five_notices(left: Seq<i64>, right: Seq<i64>) -> Seq<(Seq<char>, Seq<char>)> {
    rule_notice(color_marks(left), cal_five_left_rules(), "盲猜: "@)
        + rule_notice(color_marks(right), cal_five_right_rules(), "盲猜: "@)
}

/// A configuration names a string `appToken`, some `userIds` and a string `url`.
pub open spec fn config_readable(config: Json) -> bool {
    &&& config.field("appToken"@) matches Some(t) && t.text_value() is Some
    &&& config.field("userIds"@) is Some
    &&& config.field("url"@) matches Some(u) && u.text_value() is Some
}

/// The draw answer holds a string `openTime_s` and the numbers the round needs.
pub open spec fn next_readable(parsed: Option<Json>) -> bool {
    parsed matches Some(v) && next_info(v) is Some
}

/// The answer is pending: it holds an empty string literal `""`.
pub open spec fn section_pending(body: Seq<char>) -> bool {
    spec_contains(body, "\"\""@)
}

/// A step of the round, reading an answer where the phase waits for one.
pub open spec fn analysis_step(phase: PhaseV, event: Event) -> (PhaseV, ActionV) {
    match event {
        Event::Body { text, parsed, now_millis } => match phase {
            PhaseV::AwaitResults => {
                if !spec_contains(text@, "total"@) {
                    (PhaseV::Stopped, ActionV::Stop(SiteError::NoListing.text()))
                } else if !(parsed matches Some(v) && open_nums(v, 0, 4) is Some) {
                    (PhaseV::Stopped, ActionV::Abort(Fault::Unreadable))
                } else if open_nums(parsed->0, 0, 5) is None {
                    spec_send(res_four_notices(open_nums(parsed->0, 0, 4)->0), Then::Fault(Fault::Unreadable))
                } else {
                    spec_send(
                        res_four_notices(open_nums(parsed->0, 0, 4)->0) + res_five_notices(open_nums(parsed->0, 0, 5)->0),
                        Then::Predictions,
                    )
                }
            },
            PhaseV::AwaitPredictions => {
                if !spec_contains(text@, "total"@) {
                    (PhaseV::Stopped, ActionV::Stop(SiteError::NoListing.text()))
                } else if !(parsed matches Some(v) && guesses_readable(v, 1, 5)) {
                    (PhaseV::Stopped, ActionV::Abort(Fault::Unreadable))
                } else if !guesses_readable(parsed->0, 1, 6) {
                    spec_send(
                        cal_four_notices(left_codes(parsed->0, 1, 5)->0, right_codes(parsed->0, 1, 5)->0),
                        Then::Fault(Fault::Unreadable),
                    )
                } else {
                    spec_send(
                        cal_four_notices(left_codes(parsed->0, 1, 5)->0, right_codes(parsed->0, 1, 5)->0)
                        + cal_five_notices(left_codes(parsed->0, 1, 6)->0, right_codes(parsed->0, 1, 6)->0),
                        Then::NextDraw,
                    )
                }
            },
            PhaseV::AwaitNext { attempt } => {
                if !spec_contains(text@, "openTime"@) {
                    (PhaseV::Stopped, ActionV::Stop(SiteError::NoNextDraw.text()))
                } else if !next_readable(parsed) {
                    (PhaseV::Stopped, ActionV::Abort(Fault::Unreadable))
                } else {
                    spec_after_next(attempt, next_wait(parsed->0, now_millis), next_section(parsed->0), false)
                }
            },
            PhaseV::AwaitCheck { attempt, section } => spec_after_check(attempt, section, section_pending(text@)),
            _ => spec_common_step(phase, event, false),
        },
        _ => spec_common_step(phase, event, false),
    }
}

/// The watcher of a configurable draw site.
pub struct AnalysisData {
    base_url: String,
    page_size: i32,
    wx_pusher: WxPusher,
}

impl AnalysisData {
    /// A watcher reads pages of ten records.
    #[verifier::type_invariant]
    spec fn pages_of_ten(self) -> bool {
        self.page_size == 10
    }

    pub closed spec fn base(&self) -> Seq<char> {
        self.base_url@
    }

    pub closed spec fn notifier(&self) -> WxPusher {
        self.wx_pusher
    }

    /// Whether a configuration has what `new` reads.
    pub fn config_readable(config: &Json) -> (b: bool)
        ensures
            b == config_readable(*config),
    {
        let token_ok = match config.get("appToken") {
            Some(t) => t.as_str().is_some(),
            None => false,
        };
        let users_ok = config.get("userIds").is_some();
        let url_ok = match config.get("url") {
            Some(u) => u.as_str().is_some(),
            None => false,
        };
        token_ok && users_ok && url_ok
    }

    /// The watcher that a configuration describes: its `url`, pages of ten
    /// records, and notices sent with its `appToken`.
    pub fn new(config: &Json) -> (r: Self)
        requires
            config_readable(*config),
        ensures
            r.base() == config.field("url"@)->0.text_value()->0,
            r.notifier().token() == config.field("appToken"@)->0.text_value()->0,
    {
        let page_size: i32 = 10;
        let apptoken = config.get("appToken").unwrap().as_str().unwrap();
        let weixin = WxPusher::new(String::from_str(apptoken));
        let url = config.get("url").unwrap().as_str().unwrap();
        AnalysisData { base_url: String::from_str(url), page_size, wx_pusher: weixin }
    }

    /// The sender of this watcher's notices.
    pub fn pusher(&self) -> (r: &WxPusher)
        ensures
            *r == self.notifier(),
    {
        &self.wx_pusher
    }

    /// The request for the latest results.
    pub fn results_request(&self) -> (r: Request)
        ensures
            request_is(r, Method::Get, results_url(self.base(), 10), listing_headers(self.base()), None),
    {
        proof { use_type_invariant(self); }
        results_request(&self.base_url, &self.base_url, self.page_size)
    }

    /// The request for the latest predictions.
    pub fn predictions_request(&self) -> (r: Request)
        ensures
            request_is(r, Method::Get, predictions_url(self.base(), 10), listing_headers(self.base()), None),
    {
        proof { use_type_invariant(self); }
        predictions_request(&self.base_url, &self.base_url, self.page_size)
    }

    /// The request for the next draw's time.
    pub fn next_request(&self) -> (r: Request)
        ensures
            request_is(r, Method::Get, next_url(self.base()), next_headers(self.base()), None),
    {
        next_request(&self.base_url, &self.base_url)
    }

    /// The request that asks whether draw `section` is open.
    pub fn check_section_request(&self, section: u64) -> (r: Request)
        ensures
            request_is(r, Method::Post, open_url(self.base()), check_headers(self.base(), self.base()),
                Some(section_form(section))),
    {
        open_request(&self.base_url, &self.base_url, &self.base_url, section)
    }

    /// Whether the answer to the open-draw request says the draw is still pending.
    pub fn check_section(&self, body: &str) -> (pending: bool)
        ensures
            pending == section_pending(body@),
    {
        contains(body, "\"\"")
    }

    /// The alert a countdown of `secs` seconds starts with: a notice where
    /// the draw is more than 30 minutes away.
    pub fn flush_second(&self, secs: u64) -> (r: Option<Notice>)
        ensures
            match r {
                Some(n) => too_far(secs) && n@ == overdue_notice(),
                None => !too_far(secs),
            },
    {
        if secs / 60 > 30 {
            Some(make_overdue_notice())
        } else {
            None
        }
    }

    /// The answer about the next draw, read: the milliseconds until it and
    /// its number; refused where the answer names no `openTime`.
    pub fn get_next(&self, body: &str, parsed: &Option<Json>, now_millis: u128) -> (r: Result<(u64, u64), SiteError>)
        requires
            spec_contains(body@, "openTime"@) ==> next_readable(*parsed),
        ensures
            !spec_contains(body@, "openTime"@) ==> r == Err::<(u64, u64), SiteError>(SiteError::NoNextDraw),
            spec_contains(body@, "openTime"@) ==> r == Ok::<(u64, u64), SiteError>((
                next_wait(parsed->0, now_millis),
                next_section(parsed->0),
            )),
    {
        if contains(body, "openTime") {
            let v = parsed.as_ref().unwrap();
            let (open_time, server_time, section) = read_next_info(v).unwrap();
            Ok((remaining_millis(open_time, server_time, now_millis), section))
        } else {
            Err(SiteError::NoNextDraw)
        }
    }

    /// The notices the latest results call for; refused where the answer
    /// names no `total`.
    pub fn get_result(&self, body: &str, parsed: &Option<Json>) -> (r: Result<Vec<Notice>, SiteError>)
        requires
            spec_contains(body@, "total"@) ==> (*parsed matches Some(v) && open_nums(v, 0, 5) is Some),
        ensures
            !spec_contains(body@, "total"@) ==> (r matches Err(e) && e == SiteError::NoListing),
            spec_contains(body@, "total"@) ==> (r matches Ok(ns) && notice_views(ns@)
                == res_four_notices(open_nums(parsed->0, 0, 4)->0) + res_five_notices(open_nums(parsed->0, 0, 5)->0)),
    {
        if contains(body, "total") {
            let v = parsed.as_ref().unwrap();
            let four = self.handle_res_four(v);
            let five = self.handle_res_five(v);
            Ok(concat_notices(four, five))
        } else {
            Err(SiteError::NoListing)
        }
    }

    /// The notices the latest predictions call for; refused where the answer
    /// names no `total`.
    pub fn get_calculate(&self, body: &str, parsed: &Option<Json>) -> (r: Result<Vec<Notice>, SiteError>)
        requires
            spec_contains(body@, "total"@) ==> (*parsed matches Some(v) && guesses_readable(v, 1, 6)),
        ensures
            !spec_contains(body@, "total"@) ==> (r matches Err(e) && e == SiteError::NoListing),
            spec_contains(body@, "total"@) ==> (r matches Ok(ns) && notice_views(ns@)
                == cal_four_notices(left_codes(parsed->0, 1, 5)->0, right_codes(parsed->0, 1, 5)->0)
                + cal_five_notices(left_codes(parsed->0, 1, 6)->0, right_codes(parsed->0, 1, 6)->0)),
    {
        if contains(body, "total") {
            let v = parsed.as_ref().unwrap();
            let four = self.handle_cal_four(v);
            let five = self.handle_cal_five(v);
            Ok(concat_notices(four, five))
        } else {
            Err(SiteError::NoListing)
        }
    }

    /// The notices the four latest draws (`data[0..4]`) call for: one where
    /// they are all big or all small ("1111", "0000"), one where they are all
    /// odd or all even ("9999", "11111111").
    pub fn handle_res_four(&self, result: &Json) -> (r: Vec<Notice>)
        requires
            open_nums(*result, 0, 4) is Some,
        ensures
            notice_views(r@) == res_four_notices(open_nums(*result, 0, 4)->0),
    {
        let nums = read_int_fields(result, 0, 4, "openNum").unwrap();
        let sizes = sizes_of(&nums);
        let parities = parities_of(&nums);
        let size_rules = rules((four(Mark::Big), "1111"), (four(Mark::Small), "0000"));
        let parity_rules = rules((four(Mark::Odd), "9999"), (four(Mark::Even), "11111111"));
        let mut out: Vec<Notice> = Vec::new();
        push_rule_notice(&mut out, &sizes, &size_rules, "数据: ");
        push_rule_notice(&mut out, &parities, &parity_rules, "数据: ");
        assert(notice_views(Seq::<Notice>::empty()) =~= Seq::empty());
        out
    }

    /// The notices the five latest draws (`data[0..5]`) call for: one where
    /// their sizes alternate ("01010", "10101"), one where their parities
    /// alternate ("9119119", "11911911").
    pub fn handle_res_five(&self, result: &Json) -> (r: Vec<Notice>)
        requires
            open_nums(*result, 0, 5) is Some,
        ensures
            notice_views(r@) == res_five_notices(open_nums(*result, 0, 5)->0),
    {
        let nums = read_int_fields(result, 0, 5, "openNum").unwrap();
        let sizes = sizes_of(&nums);
        let parities = parities_of(&nums);
        let size_rules = rules(
            (five_alternating(Mark::Small, Mark::Big), "01010"),
            (five_alternating(Mark::Big, Mark::Small), "10101"),
        );
        let parity_rules = rules(
            (five_alternating(Mark::Odd, Mark::Even), "9119119"),
            (five_alternating(Mark::Even, Mark::Odd), "11911911"),
        );
        let mut out: Vec<Notice> = Vec::new();
        push_rule_notice(&mut out, &sizes, &size_rules, "数据: ");
        push_rule_notice(&mut out, &parities, &parity_rules, "数据: ");
        assert(notice_views(Seq::<Notice>::empty()) =~= Seq::empty());
        out
    }

    /// The notices four predictions (`data[1..5]`) call for: one per side
    /// where that side's colours are all blue or all red.
    pub fn handle_cal_four(&self, result: &Json) -> (r: Vec<Notice>)
        requires
            guesses_readable(*result, 1, 5),
        ensures
            notice_views(r@) == cal_four_notices(left_codes(*result, 1, 5)->0, right_codes(*result, 1, 5)->0),
    {
        let left = colors_of(&read_int_fields(result, 1, 5, "r1_r").unwrap());
        let right = colors_of(&read_int_fields(result, 1, 5, "r2_r").unwrap());
        let left_rules = rules((four(Mark::Blue), "lbbbb"), (four(Mark::Red), "lrrrr"));
        let right_rules = rules((four(Mark::Blue), "rbbbb"), (four(Mark::Red), "rrrrr"));
        let mut out: Vec<Notice> = Vec::new();
        push_rule_notice(&mut out, &left, &left_rules, "盲猜: ");
        push_rule_notice(&mut out, &right, &right_rules, "盲猜: ");
        assert(notice_views(Seq::<Notice>::empty()) =~= Seq::empty());
        out
    }

    /// The notices five predictions (`data[1..6]`) call for: one per side
    /// where that side's colours alternate.
    pub fn handle_cal_five(&self, result: &Json) -> (r: Vec<Notice>)
        requires
            guesses_readable(*result, 1, 6),
        ensures
            notice_views(r@) == cal_five_notices(left_codes(*result, 1, 6)->0, right_codes(*result, 1, 6)->0),
    {
        let left = colors_of(&read_int_fields(result, 1, 6, "r1_r").unwrap());
        let right = colors_of(&read_int_fields(result, 1, 6, "r2_r").unwrap());
        let left_rules = rules(
            (five_alternating(Mark::Blue, Mark::Red), "lbrbrb"),
            (five_alternating(Mark::Red, Mark::Blue), "lrbrbr"),
        );
        let right_rules = rules(
            (five_alternating(Mark::Blue, Mark::Red), "rbrbrb"),
            (five_alternating(Mark::Red, Mark::Blue), "rrbrbr"),
        );
        let mut out: Vec<Notice> = Vec::new();
        push_rule_notice(&mut out, &left, &left_rules, "盲猜: ");
        push_rule_notice(&mut out, &right, &right_rules, "盲猜: ");
        assert(notice_views(Seq::<Notice>::empty()) =~= Seq::empty());
        out
    }

    /// One step of the round: from where the round stands and what just
    /// happened, where it goes and what to do next.
    pub fn controller(&self, phase: Phase, event: &Event) -> (r: (Phase, Action))
        ensures
            (r.0@, r.1@) == analysis_step(phase@, *event),
    {
        match event {
            Event::Body { text, parsed, now_millis } => match phase {
                Phase::AwaitResults => {
                    if !contains(text.as_str(), "total") {
                        return (Phase::Stopped, Action::Stop(SiteError::NoListing.message()));
                    }
                    let v = match parsed {
                        Some(v) => v,
                        None => return (Phase::Stopped, Action::Abort(Fault::Unreadable)),
                    };
                    if read_int_fields(v, 0, 4, "openNum").is_none() {
                        return (Phase::Stopped, Action::Abort(Fault::Unreadable));
                    }
                    let four = self.handle_res_four(v);
                    if read_int_fields(v, 0, 5, "openNum").is_none() {
                        return send(four, Then::Fault(Fault::Unreadable));
                    }
                    let five = self.handle_res_five(v);
                    send(concat_notices(four, five), Then::Predictions)
                },
                Phase::AwaitPredictions => {
                    if !contains(text.as_str(), "total") {
                        return (Phase::Stopped, Action::Stop(SiteError::NoListing.message()));
                    }
                    let v = match parsed {
                        Some(v) => v,
                        None => return (Phase::Stopped, Action::Abort(Fault::Unreadable)),
                    };
                    if read_int_fields(v, 1, 5, "r1_r").is_none() || read_int_fields(v, 1, 5, "r2_r").is_none() {
                        return (Phase::Stopped, Action::Abort(Fault::Unreadable));
                    }
                    let four = self.handle_cal_four(v);
                    if read_int_fields(v, 1, 6, "r1_r").is_none() || read_int_fields(v, 1, 6, "r2_r").is_none() {
                        return send(four, Then::Fault(Fault::Unreadable));
                    }
                    let five = self.handle_cal_five(v);
                    send(concat_notices(four, five), Then::NextDraw)
                },
                Phase::AwaitNext { attempt } => {
                    if !contains(text.as_str(), "openTime") {
                        return (Phase::Stopped, Action::Stop(SiteError::NoNextDraw.message()));
                    }
                    let info = match parsed {
                        Some(v) => read_next_info(v),
                        None => None,
                    };
                    match info {
                        Some((open_time, server_time, section)) => {
                            let millis = remaining_millis(open_time, server_time, *now_millis);
                            after_next(attempt, millis, section, false)
                        },
                        None => (Phase::Stopped, Action::Abort(Fault::Unreadable)),
                    }
                },
                Phase::AwaitCheck { attempt, section } => {
                    let pending = self.check_section(text.as_str());
                    after_check(attempt, section, pending)
                },
                _ => common_step(phase, event, false),
            },
            _ => common_step(phase, event, false),
        }
    }
}

} // verus!
