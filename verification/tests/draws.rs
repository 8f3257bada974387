use rust_bytes::analysis::{AnalysisData, SiteError};
use rust_bytes::canada::Canada48;
use rust_bytes::draws::{read_int_fields, Notice};
use rust_bytes::json::Json;

fn s(x: &str) -> String {
    x.to_string()
}

fn num(n: i64) -> Json {
    if n < 0 { Json::NegInt(n) } else { Json::PosInt(n as u64) }
}

fn results(nums: &[i64]) -> Json {
    let items = nums.iter().map(|n| Json::Object(vec![(s("openNum"), num(*n))])).collect();
    Json::Object(vec![(s("total"), num(nums.len() as i64)), (s("data"), Json::Array(items))])
}

fn guesses(codes: &[(i64, i64)]) -> Json {
    let items = codes
        .iter()
        .map(|(l, r)| Json::Object(vec![(s("r1_r"), num(*l)), (s("r2_r"), num(*r))]))
        .collect();
    Json::Object(vec![(s("total"), num(codes.len() as i64)), (s("data"), Json::Array(items))])
}

fn config() -> Json {
    Json::Object(vec![
        (s("appToken"), Json::Str(s("AT_token"))),
        (s("userIds"), Json::Str(s("UID_x"))),
        (s("url"), Json::Str(s("http://example.test"))),
    ])
}

fn watcher() -> AnalysisData {
    AnalysisData::new(&config())
}

fn pairs(ns: &[Notice]) -> Vec<(String, String)> {
    ns.iter().map(|n| (n.summary.clone(), n.content.clone())).collect()
}

fn p(a: &str, b: &str) -> (String, String) {
    (s(a), s(b))
}

#[test]
fn read_int_fields_needs_every_record() {
    let doc = results(&[1, 2, 3]);
    assert_eq!(read_int_fields(&doc, 0, 3, "openNum"), Some(vec![1, 2, 3]));
    assert_eq!(read_int_fields(&doc, 1, 3, "openNum"), Some(vec![2, 3]));
    assert_eq!(read_int_fields(&doc, 0, 4, "openNum"), None);
    assert_eq!(read_int_fields(&doc, 0, 2, "other"), None);
    assert_eq!(read_int_fields(&Json::Null, 0, 0, "openNum"), None);
    let text_num = Json::Object(vec![(s("data"), Json::Array(vec![Json::Object(vec![(s("openNum"), Json::Str(s("3")))])]))]);
    assert_eq!(read_int_fields(&text_num, 0, 1, "openNum"), None);
}

#[test]
fn config_must_name_token_users_and_url() {
    assert!(AnalysisData::config_readable(&config()));
    let no_users = Json::Object(vec![(s("appToken"), Json::Str(s("t"))), (s("url"), Json::Str(s("u")))]);
    assert!(!AnalysisData::config_readable(&no_users));
    let numeric_url = Json::Object(vec![
        (s("appToken"), Json::Str(s("t"))),
        (s("userIds"), Json::Null),
        (s("url"), Json::PosInt(1)),
    ]);
    assert!(!AnalysisData::config_readable(&numeric_url));
}

#[test]
fn four_big_draws_are_reported() {
    let ns = watcher().handle_res_four(&results(&[14, 20, 27, 16]));
    assert_eq!(pairs(&ns), vec![p("1111", "数据: 1111")]);
}

#[test]
fn four_small_even_draws_are_reported_twice() {
    let ns = watcher().handle_res_four(&results(&[2, 4, 13, 0, 99]));
    assert_eq!(pairs(&ns), vec![p("0000", "数据: 0000")]);
    let ns = watcher().handle_res_four(&results(&[2, 4, 12, 0]));
    assert_eq!(pairs(&ns), vec![p("0000", "数据: 0000"), p("11111111", "数据: 11111111")]);
}

#[test]
fn four_odd_draws_are_reported() {
    let ns = watcher().handle_res_four(&results(&[1, 15, 3, 27]));
    assert_eq!(pairs(&ns), vec![p("9999", "数据: 9999")]);
}

#[test]
fn law_four_results_notified_example() {
    // mixed sizes and mixed parities: nothing to report
    assert!(watcher().handle_res_four(&results(&[1, 14, 2, 15])).is_empty());
    // negative numbers are small; -3 is odd
    let ns = watcher().handle_res_four(&results(&[-3, -1, 5, 7]));
    assert_eq!(pairs(&ns), vec![p("0000", "数据: 0000"), p("9999", "数据: 9999")]);
}

#[test]
fn five_alternating_draws_are_reported() {
    let ns = watcher().handle_res_five(&results(&[1, 14, 3, 16, 5]));
    assert_eq!(pairs(&ns), vec![p("01010", "数据: 01010"), p("9119119", "数据: 9119119")]);
    let ns = watcher().handle_res_five(&results(&[14, 1, 20, 3, 22]));
    assert_eq!(pairs(&ns), vec![p("10101", "数据: 10101"), p("11911911", "数据: 11911911")]);
}

#[test]
fn law_five_results_notified_example() {
    assert!(watcher().handle_res_five(&results(&[1, 1, 1, 1, 1])).len() == 0);
}

#[test]
fn four_predictions_are_reported() {
    let ns = watcher().handle_cal_four(&guesses(&[(1, 1), (0, 0), (0, 1), (0, 0), (0, 0)]));
    assert_eq!(pairs(&ns), vec![p("lbbbb", "盲猜: lbbbb")]);
    let ns = watcher().handle_cal_four(&guesses(&[(0, 0), (1, 1), (2, 1), (1, 1), (1, 1)]));
    assert_eq!(pairs(&ns), vec![p("lrrrr", "盲猜: lrrrr"), p("rrrrr", "盲猜: rrrrr")]);
    let ns = watcher().handle_cal_four(&guesses(&[(0, 0), (0, 0), (1, 0), (0, 0), (0, 0)]));
    assert_eq!(pairs(&ns), vec![p("rbbbb", "盲猜: rbbbb")]);
}

#[test]
fn law_four_predictions_notified_example() {
    assert!(watcher().handle_cal_four(&guesses(&[(0, 0), (0, 1), (1, 0), (0, 1), (1, 0)])).is_empty());
}

#[test]
fn five_predictions_are_reported() {
    let g = guesses(&[(9, 9), (0, 1), (1, 0), (0, 1), (1, 0), (0, 1)]);
    let ns = watcher().handle_cal_five(&g);
    assert_eq!(pairs(&ns), vec![p("lbrbrb", "盲猜: lbrbrb"), p("rrbrbr", "盲猜: rrbrbr")]);
}

#[test]
fn law_five_predictions_notified_example() {
    let g = guesses(&[(9, 9), (0, 0), (0, 0), (0, 0), (0, 0), (0, 0)]);
    assert!(watcher().handle_cal_five(&g).is_empty());
}

#[test]
fn get_result_needs_total() {
    let w = watcher();
    match w.get_result("<html>blocked</html>", &None) {
        Err(e) => {
            assert_eq!(e, SiteError::NoListing);
            assert_eq!(e.message(), "may need open proxy！");
        }
        Ok(_) => panic!("expected an error"),
    }
    let doc = results(&[14, 15, 16, 17, 18]);
    let ns = w.get_result("{\"total\":5}", &Some(doc)).ok().unwrap();
    assert_eq!(pairs(&ns), vec![p("1111", "数据: 1111"), p("11911911", "数据: 11911911")]);
}

#[test]
fn get_calculate_joins_four_and_five() {
    let w = watcher();
    let g = guesses(&[(9, 9), (0, 1), (0, 0), (0, 1), (0, 0), (0, 1)]);
    let ns = w.get_calculate("total", &Some(g)).ok().unwrap();
    assert_eq!(pairs(&ns), vec![p("lbbbb", "盲猜: lbbbb"), p("rrbrbr", "盲猜: rrbrbr")]);
    assert!(matches!(w.get_calculate("nothing", &None), Err(SiteError::NoListing)));
}

#[test]
fn law_records_extend_example() {
    let doc = results(&[3, 5, 7, 9, 11]);
    let five = read_int_fields(&doc, 0, 5, "openNum").unwrap();
    let four = read_int_fields(&doc, 0, 4, "openNum").unwrap();
    assert_eq!(&five[..4], &four[..]);
}

#[test]
fn canada_results_are_reported() {
    let c = Canada48::new();
    assert_eq!(
        pairs(&c.handle_result(&results(&[14, 15, 16, 17]))),
        vec![p("四个大", "开奖结果: 四个大"), p("双单双单", "开奖结果: 双单双单")]
    );
    assert_eq!(
        pairs(&c.handle_result(&results(&[1, 14, 3, 16]))),
        vec![p("小大小大", "开奖结果: 小大小大"), p("单双单双", "开奖结果: 单双单双")]
    );
    assert_eq!(
        pairs(&c.handle_result(&results(&[14, 2, 16, 4]))),
        vec![p("大小大小", "开奖结果: 大小大小"), p("四个双", "开奖结果: 四个双")]
    );
    assert_eq!(
        pairs(&c.handle_result(&results(&[2, 1, 4, 3]))),
        vec![p("四个小", "开奖结果: 四个小"), p("双单双单", "开奖结果: 双单双单")]
    );
    assert_eq!(pairs(&c.handle_result(&results(&[1, 3, 5, 7]))), vec![p("四个小", "开奖结果: 四个小"), p("四个单", "开奖结果: 四个单")]);
}

#[test]
fn law_canada_results_notified_example() {
    let c = Canada48::new();
    assert!(c.handle_result(&results(&[1, 1, 14, 14])).is_empty());
}

#[test]
fn canada_predictions_are_reported() {
    let c = Canada48::new();
    let g = guesses(&[(5, 5), (0, 1), (1, 0), (0, 1), (1, 0)]);
    assert_eq!(
        pairs(&c.handle_calculate(&g)),
        vec![p("左侧蓝红蓝红", "预测结果: 左侧蓝红蓝红"), p("右侧红蓝红蓝", "预测结果: 右侧红蓝红蓝")]
    );
    let g = guesses(&[(5, 5), (1, 0), (1, 0), (1, 0), (1, 0)]);
    assert_eq!(
        pairs(&c.handle_calculate(&g)),
        vec![p("左侧四个红", "预测结果: 左侧四个红"), p("右侧四个蓝", "预测结果: 右侧四个蓝")]
    );
    let g = guesses(&[(5, 5), (1, 0), (1, 1), (0, 0), (1, 0)]);
    assert!(c.handle_calculate(&g).is_empty());
}

#[test]
fn law_canada_predictions_notified_example() {
    let c = Canada48::new();
    let g = guesses(&[(5, 5), (0, 1), (0, 1), (0, 1), (0, 1)]);
    assert_eq!(c.handle_calculate(&g).len(), 2);
}

#[test]
fn canada_get_result_and_calculate() {
    let c = Canada48::new();
    let ns = c.get_result("total", &Some(results(&[0, 0, 0, 0])));
    assert_eq!(pairs(&ns), vec![p("四个小", "开奖结果: 四个小"), p("四个双", "开奖结果: 四个双")]);
    let ns = c.get_calculate("total", &Some(guesses(&[(0, 0), (0, 0), (0, 0), (0, 0), (0, 0)])));
    assert_eq!(pairs(&ns), vec![p("左侧四个蓝", "预测结果: 左侧四个蓝"), p("右侧四个蓝", "预测结果: 右侧四个蓝")]);
}
