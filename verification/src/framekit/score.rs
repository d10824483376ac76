//! Rule-based scoring of a JSON document ("bag") against a rule set.
use vstd::prelude::*;
use crate::float::{float_greater, float_gt, FLOAT_ONE_BITS, FLOAT_ZERO_BITS};
use crate::text::opt_text;
use crate::json::{json_equal, json_get, json_no_nan, json_same, lemma_json_same_reflexive, Json, JsonNumber};

verus! {

/// A rule set: a starting score and the rules whose scores add to it.
pub struct RuleSet {
    pub version: u32,
    pub default: i64,
    pub rules: Vec<Rule>,
}

/// A rule: when its condition holds of the bag, its score is added.
pub struct Rule {
    pub id: String,
    pub when: Cond,
    pub score: i64,
    pub desc: Option<String>,
}

/// The tagged form of a condition (`{"op": ..., "args": ...}`); thresholds
/// of `Gt` are double bit patterns.
pub enum Op {
    Eq(String, Json),
    Gt(String, u64),
    Regex(String, String),
    All(Vec<Cond>),
    Any(Vec<Cond>),
}

/// A condition on the bag.  Each leaf names a dotted path into the bag:
/// `Eq` holds when the value there equals the given one, `Gt` when its
/// reading as a double is greater than the threshold (a double bit
/// pattern), `Regex` when it is a string that the pattern matches.
pub enum Cond {
    Eq { eq: (String, Json) },
    Gt { gt: (String, u64) },
    Regex { regex: (String, String) },
    All { all: Vec<Cond> },
    Any { any: Vec<Cond> },
}

/// The outcome of scoring: the total and, in rule order, the id, score
/// and description of each rule that matched.
pub struct ScoreBreakdown {
    pub total: i64,
    pub matched: Vec<(String, i64, Option<String>)>,
}

/// Whether the pattern compiles as a regular expression (`regex::Regex::new`
/// returns `Ok`).
pub uninterp spec fn regex_compiles(pattern: Seq<char>) -> bool;

/// Whether the compiled pattern matches somewhere in the haystack
/// (`regex::Regex::is_match`).
pub uninterp spec fn regex_is_match(pattern: Seq<char>, haystack: Seq<char>) -> bool;

/// Compiles `pattern` with `regex::Regex::new` and, where that succeeds,
/// asks `Regex::is_match` whether it matches `haystack`.  Claimed: the
/// result is `Some` exactly when the pattern compiles, and then carries the
/// match outcome, both of which depend on the pattern and haystack alone.
#[verifier::external_body]
fn regex_match(pattern: &str, haystack: &str) -> (r: Option<bool>)
    ensures
        r is Some == regex_compiles(pattern@),
        r matches Some(b) ==> b == regex_is_match(pattern@, haystack@),
{
    match regex::Regex::new(pattern) {
        Ok(re) => Some(re.is_match(haystack)),
        Err(_) => None,
    }
}

/// The pieces of a text cut at every `.`, as `str::split('.')` gives them.
pub open spec fn split_dot(s: Seq<char>) -> Seq<Seq<char>>
    decreases s.len(),
{
    if s.len() == 0 {
        seq![Seq::<char>::empty()]
    } else {
        let prev = split_dot(s.drop_last());
        if s.last() == '.' {
            prev.push(Seq::<char>::empty())
        } else {
            prev.update(prev.len() - 1, prev.last().push(s.last()))
        }
    }
}

/// Following `parts` down from `v`, one object lookup per part.
pub open spec fn lookup_path(v: Json, parts: Seq<Seq<char>>) -> Option<Json>
    decreases parts.len(),
{
    if parts.len() == 0 {
        Some(v)
    } else {
        match lookup_path(v, parts.drop_last()) {
            Some(w) => json_get(w, parts.last()),
            None => None,
        }
    }
}

/// The value at a dotted path in the bag.
pub open spec fn path_value(bag: Json, path: Seq<char>) -> Option<Json> {
    lookup_path(bag, split_dot(path))
}

/// A value's reading as a double: numbers as such, `true` and `false` as
/// one and zero, strings where they parse, nothing otherwise.
pub open spec fn json_as_f64(v: Json) -> Option<u64> {
    match v {
        Json::Number(n) => match n {
            JsonNumber::PosInt { as_float, .. } => Some(as_float),
            JsonNumber::NegInt { as_float, .. } => Some(as_float),
            JsonNumber::Float { bits } => Some(bits),
        },
        Json::Bool(b) => Some(if b { FLOAT_ONE_BITS } else { FLOAT_ZERO_BITS }),
        Json::Str(s) => s.as_float,
        _ => None,
    }
}

/// Whether a condition holds of the bag.
pub open spec fn cond_holds(bag: Json, c: Cond) -> bool
    decreases c,
{
    match c {
        Cond::Eq { eq } => match path_value(bag, eq.0@) {
            Some(v) => json_same(v, eq.1),
            None => false,
        },
        Cond::Gt { gt } => match path_value(bag, gt.0@) {
            Some(v) => match json_as_f64(v) {
                Some(x) => float_gt(x, gt.1),
                None => false,
            },
            None => false,
        },
        Cond::Regex { regex } => match path_value(bag, regex.0@) {
            Some(Json::Str(s)) => regex_compiles(regex.1@) && regex_is_match(regex.1@, s.text@),
            _ => false,
        },
        Cond::All { all } => forall|i: int| 0 <= i < all@.len() ==> cond_holds(bag, #[trigger] all@[i]),
        Cond::Any { any } => exists|i: int| 0 <= i < any@.len() && cond_holds(bag, #[trigger] any@[i]),
    }
}

/// The view of a matched entry: id, score, description.
pub open spec fn entry_view(e: (String, i64, Option<String>)) -> (Seq<char>, i64, Option<Seq<char>>) {
    (e.0@, e.1, match e.2 {
        Some(d) => Some(d@),
        None => None,
    })
}

/// The entry that a rule contributes when it matches.
pub open spec fn rule_entry(r: Rule) -> (Seq<char>, i64, Option<Seq<char>>) {
    (r.id@, r.score, match r.desc {
        Some(d) => Some(d@),
        None => None,
    })
}

/// The entries of the rules that match the bag, in rule order.
pub open spec fn matched_entries(bag: Json, rules: Seq<Rule>) -> Seq<(Seq<char>, i64, Option<Seq<char>>)>
    decreases rules.len(),
{
    if rules.len() == 0 {
        Seq::empty()
    } else {
        let prev = matched_entries(bag, rules.drop_last());
        if cond_holds(bag, rules.last().when) {
            prev.push(rule_entry(rules.last()))
        } else {
            prev
        }
    }
}

/// The sum of the scores of the rules that match the bag.
pub open spec fn matched_sum(bag: Json, rules: Seq<Rule>) -> int
    decreases rules.len(),
{
    if rules.len() == 0 {
        0
    } else {
        matched_sum(bag, rules.drop_last()) + if cond_holds(bag, rules.last().when) {
            rules.last().score as int
        } else {
            0
        }
    }
}

pub open spec fn in_i64(x: int) -> bool {
    i64::MIN <= x <= i64::MAX
}

/// Whether every running total, from the default through each rule in
/// turn, stays within `i64`.
pub open spec fn totals_fit(bag: Json, default: i64, rules: Seq<Rule>) -> bool
    decreases rules.len(),
{
    if rules.len() == 0 {
        true
    } else {
        totals_fit(bag, default, rules.drop_last()) && in_i64(default + matched_sum(bag, rules))
    }
}

/// What scoring the bag gives: the default plus the matched scores, and
/// the matched entries in rule order.
pub open spec fn breakdown_is(b: ScoreBreakdown, bag: Json, rules: RuleSet) -> bool {
    &&& b.total == rules.default + matched_sum(bag, rules.rules@)
    &&& b.matched@.len() == matched_entries(bag, rules.rules@).len()
    &&& forall|i: int|
        0 <= i < b.matched@.len() ==> entry_view(#[trigger] b.matched@[i]) == matched_entries(
            bag,
            rules.rules@,
        )[i]
}

proof fn lemma_lookup_none_extends(v: Json, p: Seq<Seq<char>>, q: Seq<Seq<char>>)
    requires
        lookup_path(v, p) is None,
    ensures
        lookup_path(v, p + q) is None,
    decreases q.len(),
{
    if q.len() == 0 {
        assert(p + q =~= p);
    } else {
        lemma_lookup_none_extends(v, p, q.drop_last());
        assert((p + q).drop_last() =~= p + q.drop_last());
    }
}

/// `str::split('.')`, keeping the pieces as slices of `path`.
fn split_on_dot<'a>(path: &'a str) -> (parts: Vec<&'a str>)
    ensures
        parts@.len() == split_dot(path@).len(),
        forall|k: int| 0 <= k < parts@.len() ==> (#[trigger] parts@[k])@ == split_dot(path@)[k],
{
    let n = path.unicode_len();
    let mut parts: Vec<&'a str> = Vec::new();
    let mut start: usize = 0;
    let mut i: usize = 0;
    assert(path@.take(0) =~= Seq::<char>::empty());
    while i < n
        invariant
            n == path@.len(),
            start <= i <= n,
            split_dot(path@.take(i as int)).len() == parts@.len() + 1,
            forall|k: int| 0 <= k < parts@.len() ==> (#[trigger] parts@[k])@ == split_dot(path@.take(i as int))[k],
            split_dot(path@.take(i as int)).last() == path@.subrange(start as int, i as int),
        decreases n - i,
    {
        assert(path@.take(i + 1).drop_last() =~= path@.take(i as int));
        assert(path@.take(i + 1).last() == path@[i as int]);
        if path.get_char(i) == '.' {
            let part = path.substring_char(start, i);
            parts.push(part);
            start = i + 1;
            assert(path@.subrange(start as int, i + 1) =~= Seq::<char>::empty());
        } else {
            assert(path@.subrange(start as int, i + 1) =~= path@.subrange(start as int, i as int).push(path@[i as int]));
        }
        i = i + 1;
    }
    let last = path.substring_char(start, n);
    parts.push(last);
    assert(path@.take(n as int) =~= path@);
    parts
}

/// The value at a dotted path in the bag: each `.`-separated piece is
/// looked up in turn, and a missing piece gives nothing.
pub fn get_path<'a>(bag: &'a Json, path: &str) -> (r: Option<&'a Json>)
    ensures
        match r {
            Some(v) => path_value(*bag, path@) == Some(*v),
            None => path_value(*bag, path@) is None,
        },
{
    let parts = split_on_dot(path);
    let ghost all = split_dot(path@);
    let mut cur: &'a Json = bag;
    let mut k: usize = 0;
    assert(all.take(0) =~= Seq::<Seq<char>>::empty());
    while k < parts.len()
        invariant
            parts@.len() == all.len(),
            all == split_dot(path@),
            forall|j: int| 0 <= j < parts@.len() ==> (#[trigger] parts@[j])@ == all[j],
            k <= parts@.len(),
            lookup_path(*bag, all.take(k as int)) == Some(*cur),
        decreases parts@.len() - k,
    {
        assert(all.take(k + 1).drop_last() =~= all.take(k as int));
        assert(all.take(k + 1).last() == all[k as int]);
        match cur.get(parts[k]) {
            Some(v) => {
                cur = v;
            },
            None => {
                proof {
                    lemma_lookup_none_extends(*bag, all.take(k + 1), all.skip(k + 1));
                    assert(all.take(k + 1) + all.skip(k + 1) =~= all);
                }
                return None;
            },
        }
        k = k + 1;
    }
    assert(all.take(parts@.len() as int) =~= all);
    Some(cur)
}

/// A value's reading as a double (bit pattern), as `as_f64` reads it.
pub fn as_f64(v: &Json) -> (r: Option<u64>)
    ensures
        r == json_as_f64(*v),
{
    match v {
        Json::Number(n) => match n {
            JsonNumber::PosInt { as_float, .. } => Some(*as_float),
            JsonNumber::NegInt { as_float, .. } => Some(*as_float),
            JsonNumber::Float { bits } => Some(*bits),
        },
        Json::Bool(b) => Some(if *b { FLOAT_ONE_BITS } else { FLOAT_ZERO_BITS }),
        Json::Str(s) => s.as_float,
        _ => None,
    }
}

/// Whether the condition holds of the bag.
#[verifier::loop_isolation(false)]
pub fn matches_cond(bag: &Json, c: &Cond) -> (r: bool)
    ensures
        r == cond_holds(*bag, *c),
    decreases c,
{
    match c {
        Cond::Eq { eq } => match get_path(bag, eq.0.as_str()) {
            Some(v) => json_equal(v, &eq.1),
            None => false,
        },
        Cond::Gt { gt } => match get_path(bag, gt.0.as_str()) {
            Some(v) => match as_f64(v) {
                Some(x) => float_greater(x, gt.1),
                None => false,
            },
            None => false,
        },
        Cond::Regex { regex } => match get_path(bag, regex.0.as_str()) {
            Some(Json::Str(s)) => match regex_match(regex.1.as_str(), s.text.as_str()) {
                Some(b) => b,
                None => false,
            },
            _ => false,
        },
        Cond::All { all } => {
            let n = all.len();
            let mut i: usize = 0;
            while i < n
                invariant
                    n == all@.len(),
                    i <= n,
                    forall|k: int| 0 <= k < i ==> cond_holds(*bag, #[trigger] all@[k]),
                decreases n - i,
            {
                proof {
                    assert(decreases_to!(*c => all@[i as int]));
                }
                if !matches_cond(bag, &all[i]) {
                    return false;
                }
                i = i + 1;
            }
            true
        },
        Cond::Any { any } => {
            let n = any.len();
            let mut i: usize = 0;
            while i < n
                invariant
                    n == any@.len(),
                    i <= n,
                    forall|k: int| 0 <= k < i ==> !cond_holds(*bag, #[trigger] any@[k]),
                decreases n - i,
            {
                proof {
                    assert(decreases_to!(*c => any@[i as int]));
                }
                if matches_cond(bag, &any[i]) {
                    return true;
                }
                i = i + 1;
            }
            false
        },
    }
}

fn clone_desc(d: &Option<String>) -> (r: Option<String>)
    ensures
        match r {
            Some(s) => d matches Some(t) && s@ == t@,
            None => d is None,
        },
{
    match d {
        Some(s) => Some(s.clone()),
        None => None,
    }
}

/// Whether every running total of scoring the bag stays within `i64`.
fn running_totals_fit(bag: &Json, rules: &RuleSet) -> (r: bool)
    ensures
        r == totals_fit(*bag, rules.default, rules.rules@),
{
    let mut total: i64 = rules.default;
    let n = rules.rules.len();
    let mut i: usize = 0;
    assert(rules.rules@.take(0) =~= Seq::<Rule>::empty());
    while i < n
        invariant
            n == rules.rules@.len(),
            i <= n,
            totals_fit(*bag, rules.default, rules.rules@.take(i as int)),
            total == rules.default + matched_sum(*bag, rules.rules@.take(i as int)),
        decreases n - i,
    {
        let r = &rules.rules[i];
        let ghost next = rules.rules@.take(i + 1);
        assert(next.drop_last() =~= rules.rules@.take(i as int));
        assert(next.last() == rules.rules@[i as int]);
        if matches_cond(bag, &r.when) {
            match total.checked_add(r.score) {
                Some(t) => {
                    total = t;
                },
                None => {
                    proof {
                        if totals_fit(*bag, rules.default, rules.rules@) {
                            lemma_totals_fit_prefix(*bag, rules.default, rules.rules@, i + 1);
                            assert(in_i64(rules.default + matched_sum(*bag, next)));
                        }
                    }
                    return false;
                },
            }
        }
        i = i + 1;
    }
    assert(rules.rules@.take(n as int) =~= rules.rules@);
    true
}

/// Scores the bag, or gives `None` where a running total would leave `i64`
/// (where adding up the scores would overflow).
pub fn try_eval_score(bag: &Json, rules: &RuleSet) -> (r: Option<ScoreBreakdown>)
    ensures
        r is Some == totals_fit(*bag, rules.default, rules.rules@),
        r matches Some(b) ==> breakdown_is(b, *bag, *rules),
{
    if running_totals_fit(bag, rules) {
        Some(eval_score(bag, rules))
    } else {
        None
    }
}

proof fn lemma_totals_fit_prefix(bag: Json, default: i64, rules: Seq<Rule>, k: int)
    requires
        0 <= k <= rules.len(),
        totals_fit(bag, default, rules),
    ensures
        totals_fit(bag, default, rules.take(k)),
    decreases rules.len(),
{
    if k < rules.len() {
        assert(rules.drop_last().take(k) =~= rules.take(k));
        lemma_totals_fit_prefix(bag, default, rules.drop_last(), k);
    } else {
        assert(rules.take(k) =~= rules);
    }
}

/// Scoring is additive over rule lists: scoring the rules of `a` and then
/// those of `b` matches the rules that each part matches, in order, and sums
/// their scores.
pub proof fn lemma_score_concat(bag: Json, a: Seq<Rule>, b: Seq<Rule>)
    ensures
        matched_entries(bag, a + b) == matched_entries(bag, a) + matched_entries(bag, b),
        matched_sum(bag, a + b) == matched_sum(bag, a) + matched_sum(bag, b),
    decreases b.len(),
{
    if b.len() == 0 {
        assert(a + b =~= a);
        assert(matched_entries(bag, a) + matched_entries(bag, b) =~= matched_entries(bag, a));
    } else {
        lemma_score_concat(bag, a, b.drop_last());
        assert((a + b).drop_last() =~= a + b.drop_last());
        assert((a + b).last() == b.last());
        if cond_holds(bag, b.last().when) {
            assert(matched_entries(bag, a + b) =~= matched_entries(bag, a) + matched_entries(bag, b));
        } else {
            assert(matched_entries(bag, a + b) =~= matched_entries(bag, a) + matched_entries(bag, b));
        }
    }
}

/// An `Eq` leaf holds when the value at its path is the very value it
/// names (for values without NaN), and never where the path leads nowhere.
pub proof fn lemma_eq_leaf(bag: Json, c: Cond)
    ensures
        c matches Cond::Eq { eq } ==> (path_value(bag, eq.0@) == Some(eq.1) && json_no_nan(eq.1) ==> cond_holds(bag, c)),
        c matches Cond::Eq { eq } ==> (path_value(bag, eq.0@) is None ==> !cond_holds(bag, c)),
        c matches Cond::Gt { gt } ==> (path_value(bag, gt.0@) is None ==> !cond_holds(bag, c)),
        c matches Cond::Regex { regex } ==> (!(path_value(bag, regex.0@) matches Some(Json::Str(_))) ==> !cond_holds(bag, c)),
        c matches Cond::Regex { regex } ==> (!regex_compiles(regex.1@) ==> !cond_holds(bag, c)),
{
    if let Cond::Eq { eq } = c {
        if path_value(bag, eq.0@) == Some(eq.1) && json_no_nan(eq.1) {
            lemma_json_same_reflexive(eq.1);
        }
    }
}

/// `All` of no conditions holds and `Any` of none does not; `All` or `Any`
/// of a single condition holds exactly when that condition does; `All`
/// holds only where every part holds, and `Any` only where some part does.
pub proof fn lemma_all_any(bag: Json, c: Cond)
    ensures
        c matches Cond::All { all } ==> (all@.len() == 0 ==> cond_holds(bag, c)),
        c matches Cond::Any { any } ==> (any@.len() == 0 ==> !cond_holds(bag, c)),
        c matches Cond::All { all } ==> (all@.len() == 1 ==> cond_holds(bag, c) == cond_holds(bag, all@[0])),
        c matches Cond::Any { any } ==> (any@.len() == 1 ==> cond_holds(bag, c) == cond_holds(bag, any@[0])),
        c matches Cond::All { all } ==> (cond_holds(bag, c) ==> forall|i: int|
            0 <= i < all@.len() ==> cond_holds(bag, #[trigger] all@[i])),
        c matches Cond::Any { any } ==> (cond_holds(bag, c) ==> exists|i: int|
            0 <= i < any@.len() && cond_holds(bag, #[trigger] any@[i])),
{
}

/// Scoring one more rule: where its condition holds, its id, score and
/// description are appended to the matched entries and its score to the
/// sum, whatever the score is; where it does not hold, both stay as they are.
pub proof fn lemma_score_one_more_rule(bag: Json, rules: Seq<Rule>, r: Rule)
    ensures
        ({
            let desc = match r.desc {
                Some(d) => Some(d@),
                None => None,
            };
            if cond_holds(bag, r.when) {
                &&& matched_entries(bag, rules.push(r)) == matched_entries(bag, rules).push((r.id@, r.score, desc))
                &&& matched_entries(bag, rules.push(r)).len() == matched_entries(bag, rules).len() + 1
                &&& matched_sum(bag, rules.push(r)) == matched_sum(bag, rules) + r.score
            } else {
                &&& matched_entries(bag, rules.push(r)) == matched_entries(bag, rules)
                &&& matched_sum(bag, rules.push(r)) == matched_sum(bag, rules)
            }
        }),
{
    assert(rules.push(r).drop_last() =~= rules);
    assert(rules.push(r).last() == r);
}

/// Scoring a single rule whose condition holds lists exactly that rule,
/// whatever its score, and adds its score to the default.
pub proof fn lemma_score_single_matching_rule(b: ScoreBreakdown, bag: Json, rules: RuleSet)
    requires
        breakdown_is(b, bag, rules),
        rules.rules@.len() == 1,
        cond_holds(bag, rules.rules@[0].when),
    ensures
        b.matched@.len() == 1,
        b.matched@[0].0@ == rules.rules@[0].id@,
        b.matched@[0].1 == rules.rules@[0].score,
        opt_text(b.matched@[0].2) == opt_text(rules.rules@[0].desc),
        b.total == rules.default + rules.rules@[0].score,
{
    let r = rules.rules@[0];
    lemma_score_one_more_rule(bag, Seq::<Rule>::empty(), r);
    assert(Seq::<Rule>::empty().push(r) =~= rules.rules@);
    assert(entry_view(b.matched@[0]) == matched_entries(bag, rules.rules@)[0]);
}

/// A rule list with no rules matches nothing and adds nothing, so the
/// score is the default.
pub proof fn lemma_score_no_rules(bag: Json)
    ensures
        matched_entries(bag, Seq::<Rule>::empty()) == Seq::<(Seq<char>, i64, Option<Seq<char>>)>::empty(),
        matched_sum(bag, Seq::<Rule>::empty()) == 0,
{
}

proof fn lemma_lookup_concat(v: Json, a: Seq<Seq<char>>, b: Seq<Seq<char>>)
    ensures
        lookup_path(v, a + b) == match lookup_path(v, a) {
            Some(w) => lookup_path(w, b),
            None => None,
        },
    decreases b.len(),
{
    if b.len() == 0 {
        assert(a + b =~= a);
    } else {
        lemma_lookup_concat(v, a, b.drop_last());
        assert((a + b).drop_last() =~= a + b.drop_last());
    }
}

proof fn lemma_split_dot_nonempty(s: Seq<char>)
    ensures
        split_dot(s).len() >= 1,
    decreases s.len(),
{
    if s.len() > 0 {
        lemma_split_dot_nonempty(s.drop_last());
    }
}

proof fn lemma_split_dot_concat(p: Seq<char>, q: Seq<char>)
    ensures
        split_dot(p + seq!['.'] + q) == split_dot(p) + split_dot(q),
    decreases q.len(),
{
    let pd = p + seq!['.'];
    if q.len() == 0 {
        assert(pd + q =~= pd);
        assert(pd.drop_last() =~= p);
        assert(split_dot(p).push(Seq::<char>::empty()) =~= split_dot(p) + split_dot(q));
    } else {
        lemma_split_dot_concat(p, q.drop_last());
        lemma_split_dot_nonempty(q.drop_last());
        assert((pd + q).drop_last() =~= pd + q.drop_last());
        assert((pd + q).last() == q.last());
        let a = split_dot(p);
        let b = split_dot(q.drop_last());
        if q.last() == '.' {
            assert((a + b).push(Seq::<char>::empty()) =~= a + b.push(Seq::<char>::empty()));
        } else {
            assert((a + b).update((a + b).len() - 1, (a + b).last().push(q.last())) =~= a + b.update(
                b.len() - 1,
                b.last().push(q.last()),
            ));
        }
    }
}

/// A dotted path is followed piece by piece: the value at `p.q` is the
/// value at `q` inside the value at `p`.
pub proof fn lemma_path_concat(bag: Json, p: Seq<char>, q: Seq<char>)
    ensures
        path_value(bag, p + seq!['.'] + q) == match path_value(bag, p) {
            Some(v) => path_value(v, q),
            None => None,
        },
{
    lemma_split_dot_concat(p, q);
    lemma_lookup_concat(bag, split_dot(p), split_dot(q));
}

/// A path without a dot is a single lookup.
pub proof fn lemma_path_single(bag: Json, key: Seq<char>)
    requires
        !key.contains('.'),
    ensures
        path_value(bag, key) == json_get(bag, key),
{
    lemma_split_dot_no_dot(key);
    assert(seq![key].drop_last() =~= Seq::<Seq<char>>::empty());
    assert(lookup_path(bag, Seq::<Seq<char>>::empty()) == Some(bag));
    assert(seq![key].last() == key);
}

proof fn lemma_split_dot_no_dot(s: Seq<char>)
    requires
        !s.contains('.'),
    ensures
        split_dot(s) == seq![s],
    decreases s.len(),
{
    if s.len() == 0 {
        assert(s =~= Seq::<char>::empty());
    } else {
        let t = s.drop_last();
        assert(!t.contains('.')) by {
            if t.contains('.') {
                let i = choose|i: int| 0 <= i < t.len() && t[i] == '.';
                assert(s[i] == '.');
            }
        }
        lemma_split_dot_no_dot(t);
        assert(s.last() != '.') by {
            assert(s[s.len() - 1] == s.last());
        }
        assert(t.push(s.last()) =~= s);
        assert(seq![t].update(0, t.push(s.last())) =~= seq![s]);
    }
}

/// Scores the bag: starting from the default, the score of every rule whose
/// condition holds is added, and the rule is listed in `matched`.
pub fn eval_score(bag: &Json, rules: &RuleSet) -> (r: ScoreBreakdown)
    requires
        totals_fit(*bag, rules.default, rules.rules@),
    ensures
        breakdown_is(r, *bag, *rules),
{
    let mut total: i64 = rules.default;
    let mut matched: Vec<(String, i64, Option<String>)> = Vec::new();
    let n = rules.rules.len();
    let mut i: usize = 0;
    assert(rules.rules@.take(0) =~= Seq::<Rule>::empty());
    while i < n
        invariant
            n == rules.rules@.len(),
            i <= n,
            totals_fit(*bag, rules.default, rules.rules@),
            total == rules.default + matched_sum(*bag, rules.rules@.take(i as int)),
            matched@.len() == matched_entries(*bag, rules.rules@.take(i as int)).len(),
            forall|k: int|
                0 <= k < matched@.len() ==> entry_view(#[trigger] matched@[k]) == matched_entries(
                    *bag,
                    rules.rules@.take(i as int),
                )[k],
        decreases n - i,
    {
        let r = &rules.rules[i];
        let ghost next = rules.rules@.take(i + 1);
        assert(next.drop_last() =~= rules.rules@.take(i as int));
        assert(next.last() == rules.rules@[i as int]);
        if matches_cond(bag, &r.when) {
            proof {
                lemma_totals_fit_prefix(*bag, rules.default, rules.rules@, i + 1);
            }
            total = total + r.score;
            matched.push((r.id.clone(), r.score, clone_desc(&r.desc)));
        }
        i = i + 1;
    }
    assert(rules.rules@.take(n as int) =~= rules.rules@);
    ScoreBreakdown { total, matched }
}

} // verus!
