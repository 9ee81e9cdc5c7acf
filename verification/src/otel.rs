//! OpenTelemetry export: metric names, the labels of a data point, and the grouping of data
//! points under their metric.

use vstd::prelude::*;
use crate::perf::plugin::distinct_in_order;
use crate::perf::pmu::{lemma_name_le_total, lemma_name_le_trans, name_le, names_in_order};
use crate::text::{chars_of, push_str, string_of};

verus! {

/// What the labels of a data point are made of.
#[derive(Debug, Clone, PartialEq, Eq)]
pub struct PointLabels {
    pub resource_kind: String,
    pub resource_id: Option<String>,
    pub consumer_kind: String,
    pub consumer_id: Option<String>,
    /// The attributes of the measurement, key and value.
    pub attributes: Vec<(String, String)>,
}

/// The name of a metric in the export: `prefix`, the metric's name, `suffix`.
pub fn metric_full_name(prefix: &str, name: &str, suffix: &str) -> (r: String)
    ensures
        r@ == prefix@ + name@ + suffix@,
{
    let mut out: Vec<char> = Vec::new();
    push_str(&mut out, prefix);
    push_str(&mut out, name);
    push_str(&mut out, suffix);
    string_of(out.as_slice())
}

/// A label as a pair of texts.
pub open spec fn label_view(l: (String, String)) -> (Seq<char>, Seq<char>) {
    (l.0@, l.1@)
}

/// The labels as pairs of texts.
pub open spec fn labels_view(s: Seq<(String, String)>) -> Seq<(Seq<char>, Seq<char>)> {
    s.map_values(|l: (String, String)| label_view(l))
}

/// A value, or `empty` when there is none or it is empty.
pub open spec fn or_empty(v: Option<Seq<char>>) -> Seq<char> {
    match v {
        Some(s) => if s.len() == 0 {
            "empty"@
        } else {
            s
        },
        None => "empty"@,
    }
}

/// The labels of a data point before sorting: the resource and the consumer, then, when asked,
/// the attributes of the measurement.
pub open spec fn raw_labels(p: PointLabels, with_attributes: bool) -> Seq<(Seq<char>, Seq<char>)> {
    let base = seq![
        ("resource_kind"@, p.resource_kind@),
        ("resource_id"@, or_empty(opt_view(p.resource_id))),
        ("resource_consumer_kind"@, p.consumer_kind@),
        ("resource_consumer_id"@, or_empty(opt_view(p.consumer_id))),
    ];
    if with_attributes {
        base + p.attributes@.map_values(
            |a: (String, String)| (a.0@, or_empty(Some(a.1@))),
        )
    } else {
        base
    }
}

/// The text of an optional string.
pub open spec fn opt_view(s: Option<String>) -> Option<Seq<char>> {
    match s {
        Some(x) => Some(x@),
        None => None,
    }
}

/// `x` inserted into `s` after every label whose key is not greater than its own, scanning from
/// the end (the insertion step of a stable sort by key).
pub open spec fn insert_by_key(s: Seq<(Seq<char>, Seq<char>)>, x: (Seq<char>, Seq<char>)) -> Seq<
    (Seq<char>, Seq<char>),
>
    decreases s.len(),
{
    if s.len() == 0 {
        seq![x]
    } else if name_le(s.last().0, x.0) {
        s.push(x)
    } else {
        insert_by_key(s.drop_last(), x).push(s.last())
    }
}

/// `s` stably sorted by key.
pub open spec fn sort_by_key(s: Seq<(Seq<char>, Seq<char>)>) -> Seq<(Seq<char>, Seq<char>)>
    decreases s.len(),
{
    if s.len() == 0 {
        s
    } else {
        insert_by_key(sort_by_key(s.drop_last()), s.last())
    }
}

/// Whether the keys of `s` are in order.
pub open spec fn keys_sorted(s: Seq<(Seq<char>, Seq<char>)>) -> bool {
    forall|i: int, j: int| 0 <= i < j < s.len() ==> name_le(#[trigger] s[i].0, #[trigger] s[j].0)
}

/// The labels of a data point: the resource and consumer labels and, when asked, the
/// attributes (an empty value becoming `empty`), sorted by key, labels of equal keys keeping
/// their order.
pub open spec fn datapoint_labels_of(p: PointLabels, with_attributes: bool) -> Seq<(Seq<char>, Seq<char>)> {
    sort_by_key(raw_labels(p, with_attributes))
}

fn text_or_empty(v: &Option<String>) -> (r: String)
    ensures
        r@ == or_empty(opt_view(*v)),
{
    match v {
        Some(s) => if s.as_str().is_empty() {
            "empty".to_owned()
        } else {
            s.clone()
        },
        None => "empty".to_owned(),
    }
}

proof fn lemma_insert_at(s: Seq<(Seq<char>, Seq<char>)>, x: (Seq<char>, Seq<char>), k: int)
    requires
        0 <= k <= s.len(),
        k == 0 || name_le(s[k - 1].0, x.0),
        forall|j: int| k <= j < s.len() ==> !name_le(#[trigger] s[j].0, x.0),
    ensures
        insert_by_key(s, x) == s.take(k) + seq![x] + s.skip(k),
    decreases s.len(),
{
    if s.len() == 0 {
        assert(s.take(k) + seq![x] + s.skip(k) =~= seq![x]);
    } else if name_le(s.last().0, x.0) {
        assert(k == s.len());
        assert(s.take(k) + seq![x] + s.skip(k) =~= s.push(x));
    } else {
        let d = s.drop_last();
        if k > 0 {
            assert(d[k - 1] == s[k - 1]);
        }
        assert forall|j: int| k <= j < d.len() implies !name_le(#[trigger] d[j].0, x.0) by {
            assert(d[j] == s[j]);
        }
        lemma_insert_at(d, x, k);
        assert((d.take(k) + seq![x] + d.skip(k)).push(s.last()) =~= s.take(k) + seq![x] + s.skip(k));
    }
}

fn insert_label(out: &mut Vec<(String, String)>, x: (String, String))
    ensures
        labels_view(final(out)@) == insert_by_key(labels_view(old(out)@), label_view(x)),
{
    let key = chars_of(x.0.as_str());
    let ghost m = labels_view(out@);
    let mut k: usize = out.len();
    while k > 0 && !names_in_order(chars_of(out[k - 1].0.as_str()).as_slice(), key.as_slice())
        invariant
            0 <= k <= out@.len(),
            out@ == old(out)@,
            m == labels_view(out@),
            key@ == x.0@,
            forall|j: int| k <= j < m.len() ==> !name_le(#[trigger] m[j].0, x.0@),
        decreases k,
    {
        k = k - 1;
    }
    proof {
        lemma_insert_at(m, label_view(x), k as int);
    }
    out.insert(k, x);
    assert(labels_view(out@) =~= m.take(k as int) + seq![label_view(x)] + m.skip(k as int));
}

/// Sorts labels by key with a stable insertion sort: labels of equal keys keep their order.
pub fn sort_labels(raw: Vec<(String, String)>) -> (r: Vec<(String, String)>)
    ensures
        labels_view(r@) == sort_by_key(labels_view(raw@)),
{
    let ghost all = labels_view(raw@);
    let mut sorted: Vec<(String, String)> = Vec::new();
    let mut rest: Vec<(String, String)> = raw;
    let ghost n = all.len();
    assert(labels_view(sorted@) =~= sort_by_key(all.take(0)));
    let ghost mut i: int = 0;
    let ghost rest0 = rest@;
    while rest.len() > 0
        invariant
            i <= n,
            labels_view(rest0) == all,
            0 <= i,
            rest@ == rest0.skip(i),
            labels_view(sorted@) == sort_by_key(all.take(i)),
            n == all.len(),
            rest0.len() == n,
        decreases rest@.len(),
    {
        let x = rest.remove(0);
        assert(label_view(x) == all[i]);
        assert(all.take(i + 1).drop_last() =~= all.take(i));
        insert_label(&mut sorted, x);
        proof {
            i = i + 1;
        }
        assert(rest@ =~= rest0.skip(i));
    }
    assert(all.take(n as int) =~= all);
    sorted
}

/// The labels of a data point: `resource_kind`, `resource_id`, `resource_consumer_kind` and
/// `resource_consumer_id` (`empty` when there is no identifier), then, when
/// `add_attributes_to_labels` holds, the attributes of the measurement (`empty` in place of an
/// empty value), sorted by key.
pub fn datapoint_labels(p: &PointLabels, add_attributes_to_labels: bool) -> (r: Vec<(String, String)>)
    ensures
        labels_view(r@) == datapoint_labels_of(*p, add_attributes_to_labels),
{
    let mut raw: Vec<(String, String)> = Vec::new();
    raw.push(("resource_kind".to_owned(), p.resource_kind.clone()));
    raw.push(("resource_id".to_owned(), text_or_empty(&p.resource_id)));
    raw.push(("resource_consumer_kind".to_owned(), p.consumer_kind.clone()));
    raw.push(("resource_consumer_id".to_owned(), text_or_empty(&p.consumer_id)));
    let ghost base = labels_view(raw@);
    if add_attributes_to_labels {
        let mut i: usize = 0;
        while i < p.attributes.len()
            invariant
                0 <= i <= p.attributes@.len(),
                labels_view(raw@) == base + p.attributes@.take(i as int).map_values(
                    |a: (String, String)| (a.0@, or_empty(Some(a.1@))),
                ),
            decreases p.attributes.len() - i,
        {
            let value = text_or_empty(&Some(p.attributes[i].1.clone()));
            let ghost before = labels_view(raw@);
            raw.push((p.attributes[i].0.clone(), value));
            assert(labels_view(raw@) =~= before.push(label_view((p.attributes@[i as int].0, value))));
            assert(p.attributes@.take(i + 1) =~= p.attributes@.take(i as int).push(p.attributes@[i as int]));
            i = i + 1;
        }
        assert(p.attributes@.take(p.attributes@.len() as int) =~= p.attributes@);
    }
    assert(labels_view(raw@) =~= raw_labels(*p, add_attributes_to_labels));
    sort_labels(raw)
}

proof fn lemma_insert_sorted(s: Seq<(Seq<char>, Seq<char>)>, x: (Seq<char>, Seq<char>))
    requires
        keys_sorted(s),
    ensures
        keys_sorted(insert_by_key(s, x)),
        insert_by_key(s, x).to_multiset() =~= s.to_multiset().insert(x),
        forall|i: int|
            0 <= i < insert_by_key(s, x).len() ==> #[trigger] insert_by_key(s, x)[i] == x || s.contains(
                insert_by_key(s, x)[i],
            ),
    decreases s.len(),
{
    broadcast use vstd::seq_lib::group_to_multiset_ensures;

    let r = insert_by_key(s, x);
    if s.len() == 0 {
        assert(r =~= seq![x]);
        assert(seq![x] =~= Seq::<(Seq<char>, Seq<char>)>::empty().push(x));
    } else if name_le(s.last().0, x.0) {
        assert forall|i: int, j: int| 0 <= i < j < r.len() implies name_le(#[trigger] r[i].0, #[trigger] r[j].0) by {
            if j == s.len() {
                if i < s.len() - 1 {
                    assert(name_le(s[i].0, s[s.len() - 1].0));
                    lemma_name_le_trans(s[i].0, s.last().0, x.0);
                }
            } else {
                assert(name_le(s[i].0, s[j].0));
            }
        }
        assert forall|i: int| 0 <= i < r.len() implies #[trigger] r[i] == x || s.contains(r[i]) by {
            if i < s.len() {
                assert(s[i] == r[i]);
            }
        }
    } else {
        let d = s.drop_last();
        assert forall|i: int, j: int| 0 <= i < j < d.len() implies name_le(#[trigger] d[i].0, #[trigger] d[j].0) by {
            assert(d[i] == s[i] && d[j] == s[j]);
        }
        lemma_insert_sorted(d, x);
        let t = insert_by_key(d, x);
        assert(r == t.push(s.last()));
        lemma_name_le_total(s.last().0, x.0);
        assert forall|i: int| 0 <= i < t.len() implies name_le(#[trigger] t[i].0, s.last().0) by {
            if t[i] != x {
                assert(d.contains(t[i]));
                let m = choose|m: int| 0 <= m < d.len() && d[m] == t[i];
                assert(s[m] == d[m]);
                assert(name_le(s[m].0, s[s.len() - 1].0));
            }
        }
        assert forall|i: int, j: int| 0 <= i < j < r.len() implies name_le(#[trigger] r[i].0, #[trigger] r[j].0) by {
            if j == t.len() {
                assert(r[i] == t[i]);
            } else {
                assert(r[i] == t[i] && r[j] == t[j]);
            }
        }
        assert forall|i: int| 0 <= i < r.len() implies #[trigger] r[i] == x || s.contains(r[i]) by {
            if i == t.len() {
                assert(s[s.len() - 1] == r[i]);
            } else {
                assert(r[i] == t[i]);
                if t[i] != x {
                    let m = choose|m: int| 0 <= m < d.len() && d[m] == t[i];
                    assert(s[m] == d[m]);
                }
            }
        }
        assert(s == d.push(s.last()));
        assert(r.to_multiset() =~= t.to_multiset().insert(s.last()));
        assert(s.to_multiset() =~= d.to_multiset().insert(s.last()));
    }
}

/// Sorting labels by key puts their keys in order and keeps every label.
pub proof fn lemma_sort_by_key(s: Seq<(Seq<char>, Seq<char>)>)
    ensures
        keys_sorted(sort_by_key(s)),
        sort_by_key(s).to_multiset() =~= s.to_multiset(),
    decreases s.len(),
{
    broadcast use vstd::seq_lib::group_to_multiset_ensures;

    if s.len() > 0 {
        lemma_sort_by_key(s.drop_last());
        lemma_insert_sorted(sort_by_key(s.drop_last()), s.last());
        assert(s == s.drop_last().push(s.last()));
    }
}

/// The labels of a data point are sorted by key, and they are exactly the resource and consumer
/// labels and, when asked, the attribute labels.
pub proof fn lemma_labels_sorted(p: PointLabels, with_attributes: bool)
    ensures
        keys_sorted(datapoint_labels_of(p, with_attributes)),
        datapoint_labels_of(p, with_attributes).to_multiset() =~= raw_labels(p, with_attributes).to_multiset(),
{
    lemma_sort_by_key(raw_labels(p, with_attributes));
}

/// The positions among the first `k` of `names` that hold `name`, in order.
pub open spec fn positions_of(names: Seq<Seq<char>>, name: Seq<char>, k: int) -> Seq<usize>
    decreases k,
{
    if k <= 0 {
        Seq::empty()
    } else if names[k - 1] == name {
        positions_of(names, name, k - 1).push((k - 1) as usize)
    } else {
        positions_of(names, name, k - 1)
    }
}

/// The data points grouped under their metric: one group per distinct name, in the order in
/// which the names first appear, with the positions that hold it, in order.
pub open spec fn groups_of(names: Seq<Seq<char>>) -> Seq<(Seq<char>, Seq<usize>)> {
    distinct_in_order(names).map_values(
        |d: Seq<char>| (d, positions_of(names, d, names.len() as int)),
    )
}

/// What a list of groups holds.
pub open spec fn groups_view(g: Seq<(String, Vec<usize>)>) -> Seq<(Seq<char>, Seq<usize>)> {
    g.map_values(|x: (String, Vec<usize>)| (x.0@, x.1@))
}

/// The texts of a list of strings.
pub open spec fn names_view(s: Seq<String>) -> Seq<Seq<char>> {
    s.map_values(|x: String| x@)
}

fn position_in(list: &Vec<String>, name: &String) -> (r: Option<usize>)
    ensures
        r matches Some(k) ==> k < list@.len() && list@[k as int]@ == name@,
        r is None ==> forall|m: int| 0 <= m < list@.len() ==> list@[m]@ != name@,
{
    let mut k: usize = 0;
    while k < list.len()
        invariant
            0 <= k <= list@.len(),
            forall|m: int| 0 <= m < k ==> list@[m]@ != name@,
        decreases list.len() - k,
    {
        if list[k] == *name {
            return Some(k);
        }
        k = k + 1;
    }
    None
}

fn positions(names: &[String], name: &String) -> (r: Vec<usize>)
    ensures
        r@ == positions_of(names_view(names@), name@, names@.len() as int),
{
    let mut r: Vec<usize> = Vec::new();
    let mut i: usize = 0;
    while i < names.len()
        invariant
            0 <= i <= names@.len(),
            r@ == positions_of(names_view(names@), name@, i as int),
        decreases names.len() - i,
    {
        assert(names_view(names@)[i as int] == names@[i as int]@);
        if names[i] == *name {
            r.push(i);
        }
        i = i + 1;
    }
    r
}

/// Gathers the data points under their metric: one group per distinct metric name, in the
/// order in which the names first appear, with the positions of its data points in order.
pub fn group_by_metric(names: &[String]) -> (r: Vec<(String, Vec<usize>)>)
    ensures
        groups_view(r@) == groups_of(names_view(names@)),
{
    let ghost all = names_view(names@);
    let mut distinct: Vec<String> = Vec::new();
    let mut i: usize = 0;
    while i < names.len()
        invariant
            0 <= i <= names@.len(),
            all == names_view(names@),
            names_view(distinct@) == distinct_in_order(all.take(i as int)),
        decreases names.len() - i,
    {
        let ghost before = names_view(distinct@);
        assert(all.take(i + 1).drop_last() =~= all.take(i as int));
        assert(all.take(i + 1).last() == names@[i as int]@);
        match position_in(&distinct, &names[i]) {
            Some(k) => {
                assert(before[k as int] == names@[i as int]@);
            },
            None => {
                assert(!before.contains(names@[i as int]@)) by {
                    if before.contains(names@[i as int]@) {
                        let m = choose|m: int| 0 <= m < before.len() && before[m] == names@[i as int]@;
                        assert(distinct@[m]@ == names@[i as int]@);
                    }
                }
                distinct.push(names[i].clone());
                assert(names_view(distinct@) =~= before.push(names@[i as int]@));
            },
        }
        i = i + 1;
    }
    assert(all.take(names@.len() as int) =~= all);
    let mut groups: Vec<(String, Vec<usize>)> = Vec::new();
    let mut j: usize = 0;
    while j < distinct.len()
        invariant
            0 <= j <= distinct@.len(),
            all == names_view(names@),
            names_view(distinct@) == distinct_in_order(all),
            groups_view(groups@) == groups_of(all).take(j as int),
        decreases distinct.len() - j,
    {
        let d = distinct[j].clone();
        let members = positions(names, &d);
        let ghost before = groups_view(groups@);
        assert(names_view(distinct@)[j as int] == distinct@[j as int]@);
        assert(groups_of(all)[j as int] == (d@, members@));
        groups.push((d, members));
        assert(groups_view(groups@) =~= before.push(groups_of(all)[j as int]));
        assert(groups_of(all).take(j + 1) =~= groups_of(all).take(j as int).push(groups_of(all)[j as int]));
        j = j + 1;
    }
    assert(groups_of(all).take(distinct@.len() as int) =~= groups_of(all));
    groups
}

/// The names of the metrics of the data points in the export: `prefix`, the metric's name,
/// `suffix`.
pub open spec fn full_names(prefix: Seq<char>, suffix: Seq<char>, names: Seq<String>) -> Seq<Seq<char>> {
    names.map_values(|n: String| prefix + n@ + suffix)
}

/// A data point of the export: its position in the buffer of measurements, and its labels.
#[derive(Debug, Clone, PartialEq, Eq)]
pub struct ExportPoint {
    pub position: usize,
    pub labels: Vec<(String, String)>,
}

/// A gauge of the export: the name of its metric, and its data points in buffer order.
#[derive(Debug, Clone, PartialEq, Eq)]
pub struct ExportGauge {
    pub name: String,
    pub points: Vec<ExportPoint>,
}

/// What a gauge holds.
pub open spec fn gauge_view(g: ExportGauge) -> (Seq<char>, Seq<(usize, Seq<(Seq<char>, Seq<char>)>)>) {
    (g.name@, points_view(g.points@))
}

/// What a request holds: its gauges.
pub open spec fn request_view(r: Seq<ExportGauge>) -> Seq<(Seq<char>, Seq<(usize, Seq<(Seq<char>, Seq<char>)>)>)> {
    r.map_values(|g: ExportGauge| gauge_view(g))
}

/// The request that exports a buffer of measurements, given the name of the metric and the
/// labels of each measurement: none for an empty buffer; else one gauge per distinct metric
/// name (with `prefix` and `suffix`), in the order in which the names first appear, holding
/// the position and the labels of each of its measurements, in buffer order.
pub open spec fn export_of(
    prefix: Seq<char>,
    suffix: Seq<char>,
    names: Seq<String>,
    labels: Seq<PointLabels>,
    with_attributes: bool,
) -> Option<Seq<(Seq<char>, Seq<(usize, Seq<(Seq<char>, Seq<char>)>)>)>> {
    if names.len() == 0 {
        None
    } else {
        Some(
            groups_of(full_names(prefix, suffix, names)).map_values(
                |g: (Seq<char>, Seq<usize>)|
                (g.0, gauge_points(g.1, labels, with_attributes)),
            ),
        )
    }
}

/// The data points of one gauge, with their labels.
pub open spec fn gauge_points(positions: Seq<usize>, labels: Seq<PointLabels>, with_attributes: bool) -> Seq<
    (usize, Seq<(Seq<char>, Seq<char>)>),
> {
    positions.map_values(|p: usize| (p, datapoint_labels_of(labels[p as int], with_attributes)))
}

/// What the points of a gauge hold.
pub open spec fn points_view(s: Seq<ExportPoint>) -> Seq<(usize, Seq<(Seq<char>, Seq<char>)>)> {
    s.map_values(|p: ExportPoint| (p.position, labels_view(p.labels@)))
}

fn export_gauge(group: &(String, Vec<usize>), labels: &[PointLabels], with_attributes: bool) -> (g: ExportGauge)
    requires
        forall|i: int| 0 <= i < group.1@.len() ==> (#[trigger] group.1@[i]) < labels@.len(),
    ensures
        g.name@ == group.0@,
        points_view(g.points@) == gauge_points(group.1@, labels@, with_attributes),
{
    let members = &group.1;
    let mut points: Vec<ExportPoint> = Vec::new();
    let mut i: usize = 0;
    while i < members.len()
        invariant
            0 <= i <= members@.len(),
            forall|k: int| 0 <= k < members@.len() ==> (#[trigger] members@[k]) < labels@.len(),
            points_view(points@) == gauge_points(members@.take(i as int), labels@, with_attributes),
        decreases members.len() - i,
    {
        let p = members[i];
        let l = datapoint_labels(&labels[p], with_attributes);
        let ghost before = points_view(points@);
        points.push(ExportPoint { position: p, labels: l });
        assert(points_view(points@) =~= before.push((p, labels_view(l@))));
        assert(members@.take(i + 1) =~= members@.take(i as int).push(p));
        assert(gauge_points(members@.take(i + 1), labels@, with_attributes) =~= gauge_points(
            members@.take(i as int),
            labels@,
            with_attributes,
        ).push((p, datapoint_labels_of(labels@[p as int], with_attributes))));
        i = i + 1;
    }
    assert(members@.take(members@.len() as int) =~= members@);
    ExportGauge { name: group.0.clone(), points }
}

/// Builds the request that exports a buffer of measurements, from the name of the metric and
/// the labels of each measurement: nothing is sent for an empty buffer; otherwise there is one
/// gauge per distinct metric name (see [`export_of`]).
pub fn export_request(
    prefix: &str,
    suffix: &str,
    names: &[String],
    labels: &[PointLabels],
    add_attributes_to_labels: bool,
) -> (r: Option<Vec<ExportGauge>>)
    requires
        names@.len() == labels@.len(),
    ensures
        match r {
            Some(g) => export_of(prefix@, suffix@, names@, labels@, add_attributes_to_labels) == Some(
                request_view(g@),
            ),
            None => export_of(prefix@, suffix@, names@, labels@, add_attributes_to_labels) is None,
        },
{
    if names.len() == 0 {
        return None;
    }
    let mut full: Vec<String> = Vec::new();
    let mut i: usize = 0;
    while i < names.len()
        invariant
            0 <= i <= names@.len(),
            names_view(full@) == full_names(prefix@, suffix@, names@.take(i as int)),
        decreases names.len() - i,
    {
        let f = metric_full_name(prefix, names[i].as_str(), suffix);
        let ghost before = names_view(full@);
        full.push(f);
        assert(names_view(full@) =~= before.push(f@));
        assert(names@.take(i + 1) =~= names@.take(i as int).push(names@[i as int]));
        assert(names_view(full@) =~= full_names(prefix@, suffix@, names@.take(i + 1)));
        i = i + 1;
    }
    assert(names@.take(names@.len() as int) =~= names@);
    let ghost all = full_names(prefix@, suffix@, names@);
    let groups = group_by_metric(full.as_slice());
    assert(names_view(full@) == all);
    let ghost want = export_of(prefix@, suffix@, names@, labels@, add_attributes_to_labels)->Some_0;
    let mut out: Vec<ExportGauge> = Vec::new();
    let mut j: usize = 0;
    while j < groups.len()
        invariant
            0 <= j <= groups@.len(),
            groups_view(groups@) == groups_of(all),
            all == full_names(prefix@, suffix@, names@),
            names@.len() == labels@.len(),
            all.len() == names@.len(),
            0 < names@.len() <= usize::MAX,
            want == export_of(prefix@, suffix@, names@, labels@, add_attributes_to_labels)->Some_0,
            request_view(out@) == want.take(j as int),
        decreases groups.len() - j,
    {
        let ghost d = distinct_in_order(all)[j as int];
        assert(groups_view(groups@)[j as int] == (groups@[j as int].0@, groups@[j as int].1@));
        assert(groups@[j as int].1@ == positions_of(all, d, all.len() as int));
        proof {
            lemma_positions_of(all, d, all.len() as int);
        }
        let gauge = export_gauge(&groups[j], labels, add_attributes_to_labels);
        let ghost before = request_view(out@);
        assert(gauge_view(gauge) == want[j as int]);
        out.push(gauge);
        assert(request_view(out@) =~= before.push(want[j as int]));
        assert(want.take(j + 1) =~= want.take(j as int).push(want[j as int]));
        j = j + 1;
    }
    assert(want.take(groups@.len() as int) =~= want);
    Some(out)
}

proof fn lemma_distinct_in_order(names: Seq<Seq<char>>)
    ensures
        distinct_in_order(names).no_duplicates(),
        forall|x: Seq<char>| distinct_in_order(names).contains(x) <==> names.contains(x),
    decreases names.len(),
{
    if names.len() > 0 {
        let d = names.drop_last();
        lemma_distinct_in_order(d);
        assert forall|x: Seq<char>| names.contains(x) <==> (d.contains(x) || x == names.last()) by {
            if names.contains(x) {
                let i = choose|i: int| 0 <= i < names.len() && names[i] == x;
                if i < d.len() {
                    assert(d[i] == x);
                }
            }
            if d.contains(x) {
                let i = choose|i: int| 0 <= i < d.len() && d[i] == x;
                assert(names[i] == x);
            }
            if x == names.last() {
                assert(names[names.len() - 1] == x);
            }
        }
        let before = distinct_in_order(d);
        if !before.contains(names.last()) {
            let after = before.push(names.last());
            assert forall|x: Seq<char>| after.contains(x) <==> (before.contains(x) || x == names.last()) by {
                if after.contains(x) {
                    let i = choose|i: int| 0 <= i < after.len() && after[i] == x;
                    if i < before.len() {
                        assert(before[i] == x);
                    }
                }
                if before.contains(x) {
                    let i = choose|i: int| 0 <= i < before.len() && before[i] == x;
                    assert(after[i] == x);
                }
                if x == names.last() {
                    assert(after[before.len() as int] == x);
                }
            }
            assert forall|i: int, j: int| 0 <= i < after.len() && 0 <= j < after.len() && i != j implies after[i]
                != after[j] by {
                if i < before.len() && j < before.len() {
                } else if i < before.len() {
                    assert(before.contains(after[i]));
                } else {
                    assert(before.contains(after[j]));
                }
            }
        }
    }
}

proof fn lemma_positions_of(names: Seq<Seq<char>>, name: Seq<char>, k: int)
    requires
        0 <= k <= names.len() <= usize::MAX,
    ensures
        forall|j: int|
            0 <= j < positions_of(names, name, k).len() ==> (#[trigger] positions_of(names, name, k)[j]) < k
                && names[positions_of(names, name, k)[j] as int] == name,
        forall|i: int| 0 <= i < k && names[i] == name ==> positions_of(names, name, k).contains(i as usize),
    decreases k,
{
    if k > 0 {
        lemma_positions_of(names, name, k - 1);
        let before = positions_of(names, name, k - 1);
        if names[k - 1] == name {
            let after = before.push((k - 1) as usize);
            assert forall|i: int| 0 <= i < k && names[i] == name implies after.contains(i as usize) by {
                if i < k - 1 {
                    let j = choose|j: int| 0 <= j < before.len() && before[j] == i as usize;
                    assert(after[j] == i as usize);
                } else {
                    assert(after[before.len() as int] == i as usize);
                }
            }
            assert forall|j: int| 0 <= j < after.len() implies (#[trigger] after[j]) < k && names[after[j] as int]
                == name by {
                if j < before.len() {
                    assert(after[j] == before[j]);
                }
            }
        }
    }
}

/// Whether some gauge of a request is named `name` and holds `point`.
pub open spec fn gauge_holds(
    r: Seq<(Seq<char>, Seq<(usize, Seq<(Seq<char>, Seq<char>)>)>)>,
    name: Seq<char>,
    point: (usize, Seq<(Seq<char>, Seq<char>)>),
) -> bool {
    exists|g: int| 0 <= g < r.len() && (#[trigger] r[g]).0 == name && r[g].1.contains(point)
}

/// One request carries one gauge per distinct metric name: the gauges' names are pairwise
/// distinct, each measurement of the buffer is a data point, with its labels, of the gauge named
/// after its metric, and each data point of a gauge is a measurement of that gauge's metric.
pub proof fn lemma_one_gauge_per_name(
    prefix: Seq<char>,
    suffix: Seq<char>,
    names: Seq<String>,
    labels: Seq<PointLabels>,
    with_attributes: bool,
)
    requires
        0 < names.len() <= usize::MAX,
    ensures
        export_of(prefix, suffix, names, labels, with_attributes) is Some,
        ({
            let r = export_of(prefix, suffix, names, labels, with_attributes)->Some_0;
            &&& forall|a: int, b: int| 0 <= a < b < r.len() ==> (#[trigger] r[a]).0 != (#[trigger] r[b]).0
            &&& forall|i: int|
                0 <= i < names.len() ==> gauge_holds(
                    r,
                    prefix + (#[trigger] names[i])@ + suffix,
                    (i as usize, datapoint_labels_of(labels[i], with_attributes)),
                )
            &&& forall|g: int, j: int|
                0 <= g < r.len() && 0 <= j < r[g].1.len() ==> (#[trigger] r[g].1[j]).0 < names.len()
                    && prefix + names[r[g].1[j].0 as int]@ + suffix == r[g].0
        }),
{
    let all = full_names(prefix, suffix, names);
    let d = distinct_in_order(all);
    let r = export_of(prefix, suffix, names, labels, with_attributes)->Some_0;
    lemma_distinct_in_order(all);
    assert(r.len() == d.len());
    assert forall|a: int, b: int| 0 <= a < b < r.len() implies (#[trigger] r[a]).0 != (#[trigger] r[b]).0 by {
        assert(r[a].0 == d[a]);
        assert(r[b].0 == d[b]);
    }
    assert forall|i: int| 0 <= i < names.len() implies gauge_holds(
        r,
        prefix + (#[trigger] names[i])@ + suffix,
        (i as usize, datapoint_labels_of(labels[i], with_attributes)),
    ) by {
        assert(all[i] == prefix + names[i]@ + suffix);
        assert(all.contains(all[i]));
        let g = choose|g: int| 0 <= g < d.len() && d[g] == all[i];
        lemma_positions_of(all, d[g], all.len() as int);
        let ps = positions_of(all, d[g], all.len() as int);
        let j = choose|j: int| 0 <= j < ps.len() && ps[j] == i as usize;
        assert(r[g].1[j] == (i as usize, datapoint_labels_of(labels[i], with_attributes)));
        assert(r[g].1.contains((i as usize, datapoint_labels_of(labels[i], with_attributes))));
        assert(r[g].0 == prefix + names[i]@ + suffix);
    }
    assert forall|g: int, j: int| 0 <= g < r.len() && 0 <= j < r[g].1.len() implies (#[trigger] r[g].1[j]).0
        < names.len() && prefix + names[r[g].1[j].0 as int]@ + suffix == r[g].0 by {
        lemma_positions_of(all, d[g], all.len() as int);
        let p = r[g].1[j].0;
        assert(all[p as int] == prefix + names[p as int]@ + suffix);
    }
}

} // verus!
