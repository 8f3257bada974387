//! Reading draw records out of a site's JSON answer, classifying them, and
//! choosing the notifications that a run of classifications calls for.
use vstd::prelude::*;
use crate::json::Json;

verus! {

/// What one record is classified as.
#[derive(Clone, Copy, PartialEq, Eq, Structural, Debug)]
pub enum Mark {
    /// A draw number of at most 13.
    Small,
    /// A draw number above 13.
    Big,
    /// An odd draw number.
    Odd,
    /// An even draw number.
    Even,
    /// A predicted colour coded 0.
    Blue,
    /// A predicted colour coded anything but 0.
    Red,
}

/// The size class of a draw number.
pub open spec fn size_mark(n: i64) -> Mark {
    if n <= 13 { Mark::Small } else { Mark::Big }
}

/// The parity class of a draw number.
pub open spec fn parity_mark(n: i64) -> Mark {
    if n % 2 == 0 { Mark::Even } else { Mark::Odd }
}

/// The colour of a prediction code.
pub open spec fn color_mark(code: i64) -> Mark {
    if code == 0 { Mark::Blue } else { Mark::Red }
}

pub open spec fn size_marks(nums: Seq<i64>) -> Seq<Mark> {
    nums.map_values(|n: i64| size_mark(n))
}

pub open spec fn parity_marks(nums: Seq<i64>) -> Seq<Mark> {
    nums.map_values(|n: i64| parity_mark(n))
}

pub open spec fn color_marks(codes: Seq<i64>) -> Seq<Mark> {
    codes.map_values(|c: i64| color_mark(c))
}

/// A notification: its summary line and its content.
#[derive(Debug, PartialEq, Eq)]
pub struct Notice {
    pub summary: String,
    pub content: String,
}

impl View for Notice {
    type V = (Seq<char>, Seq<char>);

    open spec fn view(&self) -> (Seq<char>, Seq<char>) {
        (self.summary@, self.content@)
    }
}

/// The views of a list of notices.
pub open spec fn notice_views(v: Seq<Notice>) -> Seq<(Seq<char>, Seq<char>)> {
    v.map_values(|n: Notice| n@)
}

/// The notice for `tag`: the tag itself as summary, `prefix` and the tag as content.
pub open spec fn tagged(prefix: Seq<char>, tag: Seq<char>) -> (Seq<char>, Seq<char>) {
    (tag, prefix + tag)
}

/// The notice of the first rule whose pattern equals `marks`; none if no pattern does.
pub open spec fn rule_notice(
    marks: Seq<Mark>,
    rules: Seq<(Seq<Mark>, Seq<char>)>,
    prefix: Seq<char>,
) -> Seq<(Seq<char>, Seq<char>)>
    decreases rules.len(),
{
    if rules.len() == 0 {
        seq![]
    } else if marks == rules[0].0 {
        seq![tagged(prefix, rules[0].1)]
    } else {
        rule_notice(marks, rules.drop_first(), prefix)
    }
}

/// Whether some rule's pattern equals `marks`.
pub open spec fn some_rule_matches(marks: Seq<Mark>, rules: Seq<(Seq<Mark>, Seq<char>)>) -> bool {
    exists|k: int| 0 <= k < rules.len() && (#[trigger] rules[k]).0 == marks
}

/// The notice of a rule table is at most one notice, and there is one
/// exactly when some rule's pattern equals `marks`.
pub proof fn lemma_rule_notice(marks: Seq<Mark>, rules: Seq<(Seq<Mark>, Seq<char>)>, prefix: Seq<char>)
    ensures
        rule_notice(marks, rules, prefix).len() <= 1,
        rule_notice(marks, rules, prefix).len() == 1 <==> some_rule_matches(marks, rules),
    decreases rules.len(),
{
    if rules.len() > 0 {
        let rest = rules.drop_first();
        lemma_rule_notice(marks, rest, prefix);
        if marks == rules[0].0 {
            assert(rules[0].0 == marks);
        } else {
            if some_rule_matches(marks, rules) {
                let k = choose|k: int| 0 <= k < rules.len() && (#[trigger] rules[k]).0 == marks;
                assert(rest[k - 1] == rules[k]);
            }
            if some_rule_matches(marks, rest) {
                let k = choose|k: int| 0 <= k < rest.len() && (#[trigger] rest[k]).0 == marks;
                assert(rules[k + 1] == rest[k]);
            }
        }
    }
}

/// The view of an executable rule table.
pub open spec fn rules_view(rules: Seq<(Vec<Mark>, &str)>) -> Seq<(Seq<Mark>, Seq<char>)> {
    rules.map_values(|r: (Vec<Mark>, &str)| (r.0@, r.1@))
}

/// The elements of the `data` array of an answer.
pub open spec fn data_items(result: Json) -> Option<Seq<Json>> {
    match result.field("data"@) {
        Some(d) => d.items(),
        None => None,
    }
}

/// The integer member `key` of a record.
pub open spec fn item_int(item: Json, key: Seq<char>) -> Option<i64> {
    match item.field(key) {
        Some(v) => v.int_value(),
        None => None,
    }
}

/// The integer members `key` of `data[from..to]`, where the answer has a
/// `data` array of at least `to` records and each of them holds the member.
pub open spec fn int_fields(result: Json, from: int, to: int, key: Seq<char>) -> Option<Seq<i64>> {
    match data_items(result) {
        Some(items) => if 0 <= from <= to <= items.len() && (forall|k: int|
            from <= k < to ==> (#[trigger] item_int(items[k], key)) is Some) {
            Some(Seq::new((to - from) as nat, |j: int| item_int(items[from + j], key)->0))
        } else {
            None
        },
        None => None,
    }
}

/// The draw numbers of `data[from..to]`.
pub open spec fn open_nums(result: Json, from: int, to: int) -> Option<Seq<i64>> {
    int_fields(result, from, to, "openNum"@)
}

/// The left prediction codes of `data[from..to]`.
pub open spec fn left_codes(result: Json, from: int, to: int) -> Option<Seq<i64>> {
    int_fields(result, from, to, "r1_r"@)
}

/// The right prediction codes of `data[from..to]`.
pub open spec fn right_codes(result: Json, from: int, to: int) -> Option<Seq<i64>> {
    int_fields(result, from, to, "r2_r"@)
}

/// Both prediction codes of `data[from..to]` can be read.
pub open spec fn guesses_readable(result: Json, from: int, to: int) -> bool {
    left_codes(result, from, to) is Some && right_codes(result, from, to) is Some
}

/// The integer members `key` of `data[from..to]` of an answer.
pub fn read_int_fields(result: &Json, from: usize, to: usize, key: &str) -> (r: Option<Vec<i64>>)
    ensures
        match r {
            Some(v) => int_fields(*result, from as int, to as int, key@) == Some(v@),
            None => int_fields(*result, from as int, to as int, key@) is None,
        },
{
    let data = match result.get("data") {
        Some(d) => d,
        None => return None,
    };
    let items = match data.as_array() {
        Some(v) => v,
        None => return None,
    };
    if from > to || to > items.len() {
        return None;
    }
    let ghost items_v = items@;
    let mut out: Vec<i64> = Vec::new();
    let mut k: usize = from;
    while k < to
        invariant
            data_items(*result) == Some(items_v),
            items_v == items@,
            from <= k <= to <= items@.len(),
            forall|j: int| from <= j < k ==> (#[trigger] item_int(items_v[j], key@)) is Some,
            out@ == Seq::new((k - from) as nat, |j: int| item_int(items_v[from + j], key@)->0),
        decreases to - k,
    {
        let item = &items[k];
        let value = match item.get(key) {
            Some(f) => f.as_i64(),
            None => None,
        };
        match value {
            Some(n) => {
                out.push(n);
                assert(out@ =~= Seq::new((k + 1 - from) as nat, |j: int| item_int(items_v[from + j], key@)->0));
            },
            None => {
                assert(item_int(items_v[k as int], key@) is None);
                return None;
            },
        }
        k = k + 1;
    }
    Some(out)
}

fn size_of(n: i64) -> (m: Mark)
    ensures
        m == size_mark(n),
{
    if n <= 13 { Mark::Small } else { Mark::Big }
}

fn parity_of(n: i64) -> (m: Mark)
    ensures
        m == parity_mark(n),
{
    if n % 2 == 0 { Mark::Even } else { Mark::Odd }
}

fn color_of(code: i64) -> (m: Mark)
    ensures
        m == color_mark(code),
{
    if code == 0 { Mark::Blue } else { Mark::Red }
}

/// The size classes of draw numbers.
pub fn sizes_of(nums: &Vec<i64>) -> (r: Vec<Mark>)
    ensures
        r@ == size_marks(nums@),
{
    let mut out: Vec<Mark> = Vec::new();
    for i in 0..nums.len()
        invariant
            out@ == size_marks(nums@.subrange(0, i as int)),
    {
        out.push(size_of(nums[i]));
        assert(size_marks(nums@.subrange(0, i + 1)) =~= size_marks(nums@.subrange(0, i as int)).push(size_mark(nums@[i as int])));
    }
    assert(nums@.subrange(0, nums@.len() as int) =~= nums@);
    out
}

/// The parity classes of draw numbers.
pub fn parities_of(nums: &Vec<i64>) -> (r: Vec<Mark>)
    ensures
        r@ == parity_marks(nums@),
{
    let mut out: Vec<Mark> = Vec::new();
    for i in 0..nums.len()
        invariant
            out@ == parity_marks(nums@.subrange(0, i as int)),
    {
        out.push(parity_of(nums[i]));
        assert(parity_marks(nums@.subrange(0, i + 1)) =~= parity_marks(nums@.subrange(0, i as int)).push(parity_mark(nums@[i as int])));
    }
    assert(nums@.subrange(0, nums@.len() as int) =~= nums@);
    out
}

/// The colours of prediction codes.
pub fn colors_of(codes: &Vec<i64>) -> (r: Vec<Mark>)
    ensures
        r@ == color_marks(codes@),
{
    let mut out: Vec<Mark> = Vec::new();
    for i in 0..codes.len()
        invariant
            out@ == color_marks(codes@.subrange(0, i as int)),
    {
        out.push(color_of(codes[i]));
        assert(color_marks(codes@.subrange(0, i + 1)) =~= color_marks(codes@.subrange(0, i as int)).push(color_mark(codes@[i as int])));
    }
    assert(codes@.subrange(0, codes@.len() as int) =~= codes@);
    out
}

/// Whether two runs of classes are equal.
pub fn marks_equal(a: &Vec<Mark>, b: &Vec<Mark>) -> (r: bool)
    ensures
        r == (a@ == b@),
{
    if a.len() != b.len() {
        return false;
    }
    let mut i: usize = 0;
    while i < a.len()
        invariant
            a@.len() == b@.len(),
            i <= a@.len(),
            forall|j: int| 0 <= j < i ==> a@[j] == b@[j],
        decreases a@.len() - i,
    {
        if a[i] != b[i] {
            return false;
        }
        i = i + 1;
    }
    assert(a@ =~= b@);
    true
}

/// The notice `(tag, prefix + tag)`.
pub fn make_notice(prefix: &str, tag: &str) -> (n: Notice)
    ensures
        n@ == tagged(prefix@, tag@),
{
    let mut content = String::from_str(prefix);
    content.append(tag);
    Notice { summary: String::from_str(tag), content }
}

/// Appends the notice of the first rule whose pattern equals `marks`, if any.
pub fn push_rule_notice(
    out: &mut Vec<Notice>,
    marks: &Vec<Mark>,
    rules: &Vec<(Vec<Mark>, &str)>,
    prefix: &str,
)
    ensures
        notice_views(final(out)@) == notice_views(old(out)@) + rule_notice(marks@, rules_view(rules@), prefix@),
{
    let n = rules.len();
    let mut i: usize = 0;
    assert(rules_view(rules@).subrange(0, n as int) =~= rules_view(rules@));
    while i < n
        invariant
            n == rules@.len(),
            i <= n,
            *out == *old(out),
            rule_notice(marks@, rules_view(rules@), prefix@)
                == rule_notice(marks@, rules_view(rules@).subrange(i as int, n as int), prefix@),
        decreases n - i,
    {
        let ghost rest = rules_view(rules@).subrange(i as int, n as int);
        assert(rest.drop_first() =~= rules_view(rules@).subrange(i + 1, n as int));
        assert(rest[0] == (rules@[i as int].0@, rules@[i as int].1@));
        let rule = &rules[i];
        if marks_equal(marks, &rule.0) {
            let ghost before = out@;
            out.push(make_notice(prefix, rule.1));
            assert(notice_views(out@) =~= notice_views(before) + rule_notice(marks@, rules_view(rules@), prefix@));
            return;
        }
        i = i + 1;
    }
    assert(notice_views(out@) =~= notice_views(old(out)@) + rule_notice(marks@, rules_view(rules@), prefix@));
}

/// A table of two rules.
pub fn rules(
    a: (Vec<Mark>, &'static str),
    b: (Vec<Mark>, &'static str),
) -> (r: Vec<(Vec<Mark>, &'static str)>)
    ensures
        rules_view(r@) == seq![(a.0@, a.1@), (b.0@, b.1@)],
{
    let r = vec![a, b];
    assert(rules_view(r@) =~= seq![(a.0@, a.1@), (b.0@, b.1@)]);
    r
}

/// Four times the same class.
pub fn four(m: Mark) -> (v: Vec<Mark>)
    ensures
        v@ == seq![m, m, m, m],
{
    let v = vec![m, m, m, m];
    assert(v@ =~= seq![m, m, m, m]);
    v
}

/// Five classes alternating, starting with `a`.
pub fn five_alternating(a: Mark, b: Mark) -> (v: Vec<Mark>)
    ensures
        v@ == seq![a, b, a, b, a],
{
    let v = vec![a, b, a, b, a];
    assert(v@ =~= seq![a, b, a, b, a]);
    v
}

/// Four classes alternating, starting with `a`.
pub fn four_alternating(a: Mark, b: Mark) -> (v: Vec<Mark>)
    ensures
        v@ == seq![a, b, a, b],
{
    let v = vec![a, b, a, b];
    assert(v@ =~= seq![a, b, a, b]);
    v
}

/// A table of four rules.
pub fn rules4(
    a: (Vec<Mark>, &'static str),
    b: (Vec<Mark>, &'static str),
    c: (Vec<Mark>, &'static str),
    d: (Vec<Mark>, &'static str),
) -> (r: Vec<(Vec<Mark>, &'static str)>)
    ensures
        rules_view(r@) == seq![(a.0@, a.1@), (b.0@, b.1@), (c.0@, c.1@), (d.0@, d.1@)],
{
    let r = vec![a, b, c, d];
    assert(rules_view(r@) =~= seq![(a.0@, a.1@), (b.0@, b.1@), (c.0@, c.1@), (d.0@, d.1@)]);
    r
}

/// The notices of `a` followed by those of `b`.
pub fn concat_notices(a: Vec<Notice>, b: Vec<Notice>) -> (r: Vec<Notice>)
    ensures
        notice_views(r@) == notice_views(a@) + notice_views(b@),
{
    let mut a = a;
    let mut b = b;
    let ghost a0 = a@;
    let ghost b0 = b@;
    a.append(&mut b);
    assert(notice_views(a@) =~= notice_views(a0) + notice_views(b0));
    a
}

} // verus!
