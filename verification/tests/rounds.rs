use rust_bytes::analysis::AnalysisData;
use rust_bytes::canada::Canada48;
use rust_bytes::json::Json;
use rust_bytes::message::WxPusher;
use rust_bytes::request::{Body, Method, Request};
use rust_bytes::schedule::{countdown_label, remaining_millis, tick, Action, Event, Fault, Phase, Then};
use rust_bytes::draws::Notice;

fn s(x: &str) -> String {
    x.to_string()
}

fn watcher() -> AnalysisData {
    AnalysisData::new(&Json::Object(vec![
        (s("appToken"), Json::Str(s("AT_token"))),
        (s("userIds"), Json::Str(s("UID_x"))),
        (s("url"), Json::Str(s("http://example.test"))),
    ]))
}

fn body(text: &str, parsed: Option<Json>, now_millis: u128) -> Event {
    Event::Body { text: s(text), parsed, now_millis }
}

fn next_answer(open_time: u64, server_time: u64, section: u64) -> Json {
    Json::Object(vec![
        (s("openTime_s"), Json::Str(s("2024-06-11 20:00:00"))),
        (s("openTime"), Json::PosInt(open_time)),
        (s("serverTime"), Json::PosInt(server_time)),
        (s("section"), Json::PosInt(section)),
    ])
}

fn headers(r: &Request) -> Vec<(String, String)> {
    r.headers.clone()
}

#[test]
fn remaining_millis_prefers_the_server_clock() {
    assert_eq!(remaining_millis(10_000, 4_000, 9_999), 6_000);
    assert_eq!(remaining_millis(10_000, 10_000, 7_000), 3_000);
    assert_eq!(remaining_millis(10_000, 20_000, 10_000), 0);
}

#[test]
fn law_remaining_millis_example() {
    // the draw has passed by both clocks: the wait wraps around
    let r = remaining_millis(10, 20, 11);
    assert_eq!(r, u64::MAX);
    assert_eq!(r.wrapping_add(11), 10);
    // a local clock beyond u64 is read by its low 64 bits
    assert_eq!(remaining_millis(100, 100, (1u128 << 64) + 40), 60);
}

#[test]
fn countdown_label_pads_seconds() {
    assert_eq!(countdown_label(65), "距离下次开奖还剩: 1分05秒");
    assert_eq!(countdown_label(59), "距离下次开奖还剩: 0分59秒");
    assert_eq!(countdown_label(600), "距离下次开奖还剩: 10分00秒");
}

#[test]
fn law_seconds_two_digits_example() {
    for r in [0u64, 9, 10, 61, 3599] {
        let label = countdown_label(r);
        let tail: Vec<char> = label.chars().rev().skip(1).take(3).collect();
        assert_eq!(tail[2], '分', "label {}", label);
    }
}

#[test]
fn ticks_count_down_to_one() {
    let (p, a) = tick(3, 7, true);
    assert_eq!(p, Phase::Counting { remaining: 2, section: 7 });
    assert!(matches!(a, Action::Tick(Some(ref l)) if l == "距离下次开奖还剩: 0分02秒"));
    let (p, a) = tick(2, 7, false);
    assert_eq!(p, Phase::Counted { section: 7 });
    assert!(matches!(a, Action::Tick(None)));
    let (p, _) = tick(1, 7, false);
    assert_eq!(p, Phase::Aborting(Fault::Overflow));
    let (p, a) = tick(0, 7, false);
    assert_eq!(p, Phase::Aborting(Fault::Overflow));
    assert!(matches!(a, Action::Sleep(1000)));
}

#[test]
fn requests_of_the_configured_site() {
    let w = watcher();
    let r = w.results_request();
    assert!(matches!(r.method, Method::Get));
    assert_eq!(r.url, "http://example.test/Mobile/Indexs/myOpens/type/2/pz/10/page/1");
    assert_eq!(headers(&r)[3], (s("Referer"), s("http://example.test")));
    assert_eq!(headers(&r).len(), 6);
    assert_eq!(w.predictions_request().url, "http://example.test/Mobile/Indexs/yuce/type/2/pz/10/1");
    let n = w.next_request();
    assert_eq!(n.url, "http://example.test/Mobile/Indexs/next/type/2");
    assert_eq!(headers(&n)[2], (s("Connection"), s("keep-alive")));
    let c = w.check_section_request(20240611);
    assert!(matches!(c.method, Method::Post));
    assert_eq!(c.url, "http://example.test/Mobile/Indexs/open/type/2");
    assert_eq!(headers(&c)[3], (s("Origin"), s("http://example.test")));
    assert_eq!(headers(&c).len(), 8);
    match c.body {
        Body::Form(f) => assert_eq!(f, "section=20240611"),
        _ => panic!("expected a form body"),
    }
}

#[test]
fn requests_of_the_canada_site() {
    let c = Canada48::new();
    assert_eq!(c.results_request().url, "http://23.225.7.133:828/Mobile/Indexs/myOpens/type/2/pz/10/page/1");
    assert_eq!(headers(&c.results_request())[3], (s("Referer"), s("http://23.225.7.133:828/")));
    assert_eq!(c.next_request().url, "http://23.225.7.133:828/Mobile/Indexs/next/type/2");
    let k = c.check_section_request(5);
    assert_eq!(headers(&k)[3], (s("Origin"), s("http://23.225.7.133:828")));
    assert_eq!(headers(&k)[5], (s("Referer"), s("http://23.225.7.133:828/")));
}

fn member<'a>(doc: &'a Json, key: &str) -> &'a Json {
    doc.get(key).unwrap()
}

#[test]
fn push_summary_builds_the_message() {
    let pusher = WxPusher::new(s("AT_abc"));
    let r = pusher.push_summary(s("四个大"), s("开奖结果: 四个大"));
    assert!(matches!(r.method, Method::Post));
    assert_eq!(r.url, "https://wxpusher.zjiecode.com/api/send/message");
    assert_eq!(r.headers, vec![(s("Content-Type"), s("application/json"))]);
    match &r.body {
        Body::Json(doc) => {
            assert_eq!(member(doc, "appToken").as_str(), Some("AT_abc"));
            assert_eq!(member(doc, "content").as_str(), Some("开奖结果: 四个大"));
            assert_eq!(member(doc, "summary").as_str(), Some("四个大"));
            assert_eq!(member(doc, "contentType").as_u64(), Some(2));
            assert_eq!(member(doc, "verifyPayType").as_u64(), Some(0));
            let uids = member(doc, "uids").as_array().unwrap();
            assert_eq!(uids.len(), 1);
            assert_eq!(uids[0].as_str(), Some("UID_jhavxjntRoEkhw6xGVqSEZGNFDbD"));
        }
        _ => panic!("expected a JSON body"),
    }
}

#[test]
fn test_push_and_push_msg() {
    let pusher = WxPusher::new(s("AT_abc"));
    match &pusher.test_push().body {
        Body::Json(doc) => {
            assert_eq!(member(doc, "content").as_str(), Some("<h1>H1标题</h1>"));
            assert_eq!(member(doc, "summary").as_str(), Some("消息摘要2"));
        }
        _ => panic!("expected a JSON body"),
    }
    match &pusher.push_msg(s("hello")).body {
        Body::Json(doc) => {
            assert_eq!(member(doc, "content").as_str(), Some("hello"));
            assert_eq!(member(doc, "summary").as_str(), Some("消息摘要2"));
        }
        _ => panic!("expected a JSON body"),
    }
}

#[test]
fn check_section_looks_for_an_empty_string() {
    let w = watcher();
    assert!(w.check_section("{\"code\":0,\"data\":\"\"}"));
    assert!(!w.check_section("{\"code\":0,\"data\":\"3,4,5\"}"));
    assert!(Canada48::new().check_section("\"\""));
}

#[test]
fn flush_second_alerts_beyond_thirty_minutes() {
    let w = watcher();
    assert!(w.flush_second(1859).is_none());
    let n = w.flush_second(1860).unwrap();
    assert_eq!(n.summary, "下次开奖超30分钟");
    assert_eq!(n.content, "下次开奖超30分钟，可能是发生异常了");
    assert!(Canada48::new().flush_second(5000).is_some());
}

#[test]
fn get_next_reads_the_wait_and_section() {
    let w = watcher();
    let doc = Some(next_answer(1_000_000, 940_000, 42));
    assert_eq!(w.get_next("{\"openTime\":1}", &doc, 0).ok(), Some((60_000, 42)));
    match w.get_next("blocked", &None, 0) {
        Err(e) => assert_eq!(e.message(), "may be need use proxy！"),
        Ok(_) => panic!("expected an error"),
    }
    assert_eq!(Canada48::new().get_next("openTime", &doc, 0), (60_000, 42));
}

#[test]
fn a_round_of_the_configured_site() {
    let w = watcher();
    let (p, a) = w.controller(Phase::Start, &Event::Done);
    assert_eq!(p, Phase::AwaitResults);
    assert!(matches!(a, Action::FetchResults));

    let items: Vec<Json> = [14i64, 15, 16, 17, 18]
        .iter()
        .map(|n| Json::Object(vec![(s("openNum"), Json::PosInt(*n as u64))]))
        .collect();
    let doc = Json::Object(vec![(s("total"), Json::PosInt(5)), (s("data"), Json::Array(items))]);
    let (p, a) = w.controller(p, &body("{\"total\":5}", Some(doc), 0));
    assert!(matches!(p, Phase::Notifying { ref rest, then: Then::Predictions } if rest.len() == 1));
    assert!(matches!(a, Action::Notify(ref n) if n.summary == "1111"));
    let (p, a) = w.controller(p, &Event::Done);
    assert!(matches!(p, Phase::Notifying { ref rest, then: Then::Predictions } if rest.is_empty()));
    assert!(matches!(a, Action::Notify(ref n) if n.summary == "11911911"));
    let (p, a) = w.controller(p, &Event::Done);
    assert_eq!(p, Phase::AwaitPredictions);
    assert!(matches!(a, Action::FetchPredictions));

    let items: Vec<Json> = (0..6)
        .map(|_| Json::Object(vec![(s("r1_r"), Json::PosInt(0)), (s("r2_r"), Json::PosInt(1))]))
        .collect();
    let doc = Json::Object(vec![(s("total"), Json::PosInt(6)), (s("data"), Json::Array(items))]);
    let (p, a) = w.controller(p, &body("total", Some(doc), 0));
    assert!(matches!(a, Action::Notify(ref n) if n.summary == "lbbbb"));
    let (p, a) = w.controller(p, &Event::Done);
    assert!(matches!(p, Phase::Notifying { then: Then::NextDraw, .. }));
    assert!(matches!(a, Action::Notify(ref n) if n.summary == "rrrrr"));
    let (p, a) = w.controller(p, &Event::Done);
    assert_eq!(p, Phase::AwaitNext { attempt: 1 });
    assert!(matches!(a, Action::FetchNext { delay_ms: 10000 }));

    // the draw is 3 seconds away by the server's clock
    let (p, a) = w.controller(p, &body("openTime", Some(next_answer(10_000, 7_000, 99)), 0));
    assert_eq!(p, Phase::Counting { remaining: 2, section: 99 });
    assert!(matches!(a, Action::Tick(None)));
    let (p, _) = w.controller(p, &Event::Done);
    assert_eq!(p, Phase::Counted { section: 99 });
    let (p, a) = w.controller(p, &Event::Done);
    assert_eq!(p, Phase::AwaitCheck { attempt: 1, section: 99 });
    assert!(matches!(a, Action::CheckSection(99)));
    let (p, a) = w.controller(p, &body("\"\"", None, 0));
    assert_eq!(p, Phase::AwaitCheck { attempt: 2, section: 99 });
    assert!(matches!(a, Action::CheckSection(99)));
    let (p, a) = w.controller(p, &body("3,4,5", None, 0));
    assert_eq!(p, Phase::Start);
    assert!(matches!(a, Action::Sleep(7000)));
}

#[test]
fn law_next_attempts_example() {
    let w = watcher();
    let far = next_answer(3_600_000, 0, 1);
    let mut p = Phase::AwaitNext { attempt: 1 };
    for k in 2..=9 {
        let (q, a) = w.controller(p, &body("openTime", Some(far.clone_json()), 0));
        assert_eq!(q, Phase::AwaitNext { attempt: k });
        assert!(matches!(a, Action::FetchNext { delay_ms: 10000 }));
        p = q;
    }
    let (q, a) = w.controller(p, &body("openTime", Some(far.clone_json()), 0));
    assert_eq!(q, Phase::Counting { remaining: 3600, section: 1 });
    match a {
        Action::Alert(n) => assert_eq!(n.summary, "下次开奖超30分钟"),
        _ => panic!("expected the alert"),
    }
    let (q, a) = w.controller(q, &Event::Done);
    assert_eq!(q, Phase::Counting { remaining: 3599, section: 1 });
    assert!(matches!(a, Action::Tick(None)));
}

trait CloneJson {
    fn clone_json(&self) -> Json;
}

impl CloneJson for Json {
    fn clone_json(&self) -> Json {
        match self {
            Json::Null => Json::Null,
            Json::Bool(b) => Json::Bool(*b),
            Json::PosInt(u) => Json::PosInt(*u),
            Json::NegInt(i) => Json::NegInt(*i),
            Json::Float(f) => Json::Float(*f),
            Json::Str(t) => Json::Str(t.clone()),
            Json::Array(v) => Json::Array(v.iter().map(|j| j.clone_json()).collect()),
            Json::Object(m) => Json::Object(m.iter().map(|(k, j)| (k.clone(), j.clone_json())).collect()),
        }
    }
}

#[test]
fn law_check_attempts_example() {
    let w = watcher();
    let mut p = Phase::AwaitCheck { attempt: 1, section: 8 };
    for k in 2..=9 {
        let (q, _) = w.controller(p, &body("\"\"", None, 0));
        assert_eq!(q, Phase::AwaitCheck { attempt: k, section: 8 });
        p = q;
    }
    let (q, a) = w.controller(p, &body("\"\"", None, 0));
    assert_eq!(q, Phase::Start);
    assert!(matches!(a, Action::Sleep(7000)));
}

#[test]
fn law_new_round_example() {
    let c = Canada48::new();
    let (q, a) = c.controller(Phase::AwaitCheck { attempt: 9, section: 1 }, &body("", None, 0));
    assert_eq!(q, Phase::Start);
    assert!(matches!(a, Action::Sleep(7000)));
}

#[test]
fn law_stopped_stays_example() {
    let w = watcher();
    let (q, a) = w.controller(Phase::Stopped, &Event::Done);
    assert_eq!(q, Phase::Stopped);
    assert!(matches!(a, Action::Stop(_)));
    let (q, _) = Canada48::new().controller(Phase::Stopped, &Event::Failed(s("x")));
    assert_eq!(q, Phase::Stopped);
}

#[test]
fn law_countdown_tick_example() {
    let c = Canada48::new();
    let (q, a) = c.controller(Phase::Counting { remaining: 66, section: 3 }, &Event::Done);
    assert_eq!(q, Phase::Counting { remaining: 65, section: 3 });
    assert!(matches!(a, Action::Tick(Some(ref l)) if l == "距离下次开奖还剩: 1分05秒"));
}

#[test]
fn law_retry_only_when_far_example() {
    let w = watcher();
    // 30 minutes exactly is not too far
    let (q, _) = w.controller(Phase::AwaitNext { attempt: 1 }, &body("openTime", Some(next_answer(1_800_999, 0, 2)), 0));
    assert_eq!(q, Phase::Counting { remaining: 1799, section: 2 });
}

#[test]
fn law_alert_after_last_attempt_example() {
    let c = Canada48::new();
    let (q, a) = c.controller(Phase::AwaitNext { attempt: 8 }, &body("openTime", Some(next_answer(4_000_000, 0, 2)), 0));
    assert_eq!(q, Phase::AwaitNext { attempt: 9 });
    assert!(!matches!(a, Action::Alert(_)));
}

#[test]
fn site_errors_and_faults() {
    let w = watcher();
    let (q, a) = w.controller(Phase::AwaitResults, &body("<html></html>", None, 0));
    assert_eq!(q, Phase::Stopped);
    assert!(matches!(a, Action::Stop(ref e) if e == "may need open proxy！"));
    let (_, a) = w.controller(Phase::AwaitNext { attempt: 1 }, &body("<html></html>", None, 0));
    assert!(matches!(a, Action::Stop(ref e) if e == "may be need use proxy！"));
    let (q, a) = w.controller(Phase::AwaitResults, &body("total", None, 0));
    assert_eq!(q, Phase::Stopped);
    assert!(matches!(a, Action::Abort(Fault::Unreadable)));
    let (q, a) = w.controller(Phase::AwaitPredictions, &Event::Failed(s("timeout")));
    assert_eq!(q, Phase::Stopped);
    assert!(matches!(a, Action::Stop(ref e) if e == "timeout"));
    let (_, a) = w.controller(Phase::Counting { remaining: 5, section: 1 }, &Event::Failed(s("down")));
    assert!(matches!(a, Action::Abort(Fault::AlertNotSent)));

    let c = Canada48::new();
    let (q, a) = c.controller(Phase::AwaitResults, &body("<html></html>", None, 0));
    assert_eq!(q, Phase::Stopped);
    match a {
        Action::Abort(f) => {
            assert_eq!(f, Fault::NoData);
            assert_eq!(f.message(), "需要开代理才可以访问网站！");
        }
        _ => panic!("expected an abort"),
    }
    assert_eq!(Fault::Overflow.message(), "attempt to subtract with overflow");
}

#[test]
fn four_readable_five_not_notifies_then_aborts() {
    let w = watcher();
    let items: Vec<Json> = [1i64, 2, 3, 4]
        .iter()
        .map(|n| Json::Object(vec![(s("openNum"), Json::PosInt(*n as u64))]))
        .collect();
    let doc = Json::Object(vec![(s("data"), Json::Array(items))]);
    let (q, a) = w.controller(Phase::AwaitResults, &body("total", Some(doc), 0));
    assert!(matches!(q, Phase::Notifying { ref rest, then: Then::Fault(Fault::Unreadable) } if rest.is_empty()));
    assert!(matches!(a, Action::Notify(ref n) if n.summary == "0000"));
    let (q, a) = w.controller(q, &Event::Done);
    assert_eq!(q, Phase::Stopped);
    assert!(matches!(a, Action::Abort(Fault::Unreadable)));
}

fn notice(summary: &str) -> Notice {
    Notice { summary: s(summary), content: format!("数据: {}", summary) }
}

#[test]
fn law_notices_one_at_a_time_example() {
    let w = watcher();
    let pending = Phase::Notifying { rest: vec![notice("9999")], then: Then::Predictions };
    let (q, a) = w.controller(pending, &Event::Failed(s("push refused")));
    assert_eq!(q, Phase::Stopped);
    assert!(matches!(a, Action::Stop(ref e) if e == "push refused"));
    let pending = Phase::Notifying { rest: vec![notice("9999"), notice("10101")], then: Then::NextDraw };
    let (q, a) = w.controller(pending, &Event::Done);
    assert_eq!(q, Phase::Notifying { rest: vec![notice("10101")], then: Then::NextDraw });
    assert!(matches!(a, Action::Notify(ref n) if n.summary == "9999"));
}

#[test]
fn no_notices_go_straight_on() {
    let c = Canada48::new();
    let items: Vec<Json> = [1i64, 1, 14, 14]
        .iter()
        .map(|n| Json::Object(vec![(s("openNum"), Json::PosInt(*n as u64))]))
        .collect();
    let doc = Json::Object(vec![(s("data"), Json::Array(items))]);
    let (q, a) = c.controller(Phase::AwaitResults, &body("total", Some(doc), 0));
    assert_eq!(q, Phase::AwaitPredictions);
    assert!(matches!(a, Action::FetchPredictions));
}

#[test]
fn law_countdown_with_no_second_left_waits_then_aborts() {
    let w = watcher();
    // the draw time has just been reached by the server's clock
    let (q, a) = w.controller(Phase::AwaitNext { attempt: 1 }, &body("openTime", Some(next_answer(500, 400, 3)), 0));
    assert_eq!(q, Phase::Aborting(Fault::Overflow));
    assert!(matches!(a, Action::Sleep(1000)));
    let (q, a) = w.controller(q, &Event::Done);
    assert_eq!(q, Phase::Stopped);
    assert!(matches!(a, Action::Abort(Fault::Overflow)));
}

#[test]
fn law_round_moves_forward_example() {
    let c = Canada48::new();
    let (q, _) = c.controller(Phase::Counted { section: 4 }, &Event::Done);
    assert_eq!(q, Phase::AwaitCheck { attempt: 1, section: 4 });
    let (q, a) = c.controller(Phase::Start, &Event::Done);
    assert_eq!(q, Phase::AwaitResults);
    assert!(matches!(a, Action::FetchResults));
}

#[test]
fn law_run_ends_with_first_error_example() {
    let c = Canada48::new();
    let (q, a) = c.controller(Phase::AwaitPredictions, &Event::Failed(s("connection reset")));
    assert_eq!(q, Phase::Stopped);
    assert!(matches!(a, Action::Stop(ref e) if e == "connection reset"));
    let (q, a) = c.controller(Phase::AwaitNext { attempt: 2 }, &Event::Done);
    assert_eq!(q, Phase::Stopped);
    assert!(matches!(a, Action::Stop(ref e) if e == "the run is over or no answer came"));
}
