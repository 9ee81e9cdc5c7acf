//! Naming rules of the Prometheus exporter: metric names, units and the labels of a measurement.

use vstd::prelude::*;
use crate::text::{alnum, chars_of, is_alnum, is_alpha, push_all, push_str, string_of};
use crate::units::{prefix_name, PrefixedUnit, Unit, UnitPrefix};
use crate::otel::{keys_sorted, labels_view, lemma_sort_by_key, opt_view, sort_by_key, sort_labels, PointLabels};

verus! {

/// The type of the values of a metric.
#[derive(Debug, Clone, Copy, PartialEq, Eq, Structural)]
pub enum MeasurementType {
    F64,
    U64,
}

/// A metric as the exporter sees it.
#[derive(Debug, Clone, PartialEq, Eq)]
pub struct Metric {
    pub name: String,
    pub description: String,
    pub value_type: MeasurementType,
    pub unit: PrefixedUnit,
}

/// `name` made fit for Prometheus: an ASCII letter first, then ASCII letters and digits; every
/// other character becomes `_`.
pub open spec fn sanitized_name(name: Seq<char>) -> Seq<char> {
    Seq::new(
        name.len(),
        |i: int|
            if i == 0 {
                if is_alpha(name[0]) {
                    name[0]
                } else {
                    '_'
                }
            } else if is_alnum(name[i]) {
                name[i]
            } else {
                '_'
            },
    )
}

/// Replaces the characters that Prometheus does not accept in a metric name by `_`.
pub fn sanitize_name(name: String) -> (r: String)
    ensures
        r@ == sanitized_name(name@),
{
    let c = chars_of(name.as_str());
    let mut out: Vec<char> = Vec::new();
    let mut i: usize = 0;
    while i < c.len()
        invariant
            0 <= i <= c@.len(),
            c@ == name@,
            out@ == sanitized_name(name@).take(i as int),
        decreases c.len() - i,
    {
        let ch = c[i];
        let keep = if i == 0 {
            ('a' <= ch && ch <= 'z') || ('A' <= ch && ch <= 'Z')
        } else {
            alnum(ch)
        };
        out.push(if keep { ch } else { '_' });
        i = i + 1;
        assert(out@ =~= sanitized_name(name@).take(i as int));
    }
    assert(sanitized_name(name@).take(c@.len() as int) =~= sanitized_name(name@));
    string_of(out.as_slice())
}

/// The name of a base unit following the exporter's base-unit conventions.
pub open spec fn exported_unit_name(u: Unit) -> Seq<char> {
    match u {
        Unit::Ampere => "amperes"@,
        Unit::Byte => "bytes"@,
        Unit::Unity => ""@,
        Unit::Second => "seconds"@,
        Unit::Watt => "watts"@,
        Unit::Joule => "joules"@,
        Unit::Volt => "volts"@,
        Unit::Hertz => "hertz"@,
        Unit::DegreeCelsius => "celsius"@,
        Unit::DegreeFahrenheit => "fahrenheit"@,
        Unit::WattHour => "watt_hours"@,
        Unit::Percent => "ratio"@,
        Unit::Custom { unique_name, display_name: _ } => unique_name@,
    }
}

/// Whether a base unit is one of the units that the library knows (not a custom one).
pub open spec fn is_known_unit(u: Unit) -> bool {
    !(u is Custom)
}

/// The exported names of the known base units tell them apart: two different known units never
/// share a name, and only the dimensionless unit has an empty one.
pub proof fn lemma_exported_unit_names_distinct(a: Unit, b: Unit)
    requires
        is_known_unit(a),
        is_known_unit(b),
    ensures
        exported_unit_name(a) == exported_unit_name(b) ==> a == b,
        exported_unit_name(a).len() == 0 <==> a is Unity,
{
    reveal_strlit("amperes");
    reveal_strlit("bytes");
    reveal_strlit("");
    reveal_strlit("seconds");
    reveal_strlit("watts");
    reveal_strlit("joules");
    reveal_strlit("volts");
    reveal_strlit("hertz");
    reveal_strlit("celsius");
    reveal_strlit("fahrenheit");
    reveal_strlit("watt_hours");
    reveal_strlit("ratio");
    let na = exported_unit_name(a);
    let nb = exported_unit_name(b);
    if na == nb && na.len() > 0 {
        assert(na[0] == nb[0]);
        assert(na[1] == nb[1]);
    }
}

/// The exported name of a unit: its prefix's name followed by its base unit's name.
pub open spec fn exported_unit(u: PrefixedUnit) -> Seq<char> {
    prefix_name(u.prefix) + exported_unit_name(u.base_unit)
}

fn base_unit_chars(u: &Unit) -> (r: Vec<char>)
    ensures
        r@ == exported_unit_name(*u),
{
    match u {
        Unit::Ampere => chars_of("amperes"),
        Unit::Byte => chars_of("bytes"),
        Unit::Unity => chars_of(""),
        Unit::Second => chars_of("seconds"),
        Unit::Watt => chars_of("watts"),
        Unit::Joule => chars_of("joules"),
        Unit::Volt => chars_of("volts"),
        Unit::Hertz => chars_of("hertz"),
        Unit::DegreeCelsius => chars_of("celsius"),
        Unit::DegreeFahrenheit => chars_of("fahrenheit"),
        Unit::WattHour => chars_of("watt_hours"),
        Unit::Percent => chars_of("ratio"),
        Unit::Custom { unique_name, display_name: _ } => chars_of(unique_name.as_str()),
    }
}

/// The unit of a metric as the exporter writes it, after the base units of its naming
/// conventions: the prefix's name, then the base unit's name (`kilobytes`, `ratio`).
pub fn get_unit_string(full_metric: &Metric) -> (s: String)
    ensures
        s@ == exported_unit(full_metric.unit),
{
    let unit = &full_metric.unit;
    let mut out: Vec<char> = Vec::new();
    push_str(&mut out, unit.prefix.unique_name());
    let base = base_unit_chars(&unit.base_unit);
    push_all(&mut out, base.as_slice());
    assert(out@ =~= exported_unit(*unit));
    string_of(out.as_slice())
}

/// The name of a metric in the export: `prefix`, the metric's name and `suffix`, made fit for
/// Prometheus.
pub fn metric_export_name(prefix: &str, name: &str, suffix: &str) -> (r: String)
    ensures
        r@ == sanitized_name(prefix@ + name@ + suffix@),
{
    let mut out: Vec<char> = Vec::new();
    push_str(&mut out, prefix);
    push_str(&mut out, name);
    push_str(&mut out, suffix);
    sanitize_name(string_of(out.as_slice()))
}

/// The text of an optional identifier, empty when there is none.
pub open spec fn or_blank(v: Option<Seq<char>>) -> Seq<char> {
    match v {
        Some(s) => s,
        None => Seq::empty(),
    }
}

/// The labels of a measurement before sorting: the resource and the consumer (an absent
/// identifier being empty), then, when asked, the attributes under a sanitized key.
pub open spec fn raw_prometheus_labels(p: PointLabels, with_attributes: bool) -> Seq<(Seq<char>, Seq<char>)> {
    let base = seq![
        ("resource_kind"@, p.resource_kind@),
        ("resource_id"@, or_blank(opt_view(p.resource_id))),
        ("resource_consumer_kind"@, p.consumer_kind@),
        ("resource_consumer_id"@, or_blank(opt_view(p.consumer_id))),
    ];
    if with_attributes {
        base + p.attributes@.map_values(|a: (String, String)| (sanitized_name(a.0@), a.1@))
    } else {
        base
    }
}

/// The labels of a measurement in the export, sorted by key (labels of equal keys keep their
/// order).
pub open spec fn prometheus_labels_of(p: PointLabels, with_attributes: bool) -> Seq<(Seq<char>, Seq<char>)> {
    sort_by_key(raw_prometheus_labels(p, with_attributes))
}

/// The labels of a measurement in the export are sorted by key, and they are exactly the
/// resource and consumer labels and, when asked, the attribute labels.
pub proof fn lemma_prometheus_labels_sorted(p: PointLabels, with_attributes: bool)
    ensures
        keys_sorted(prometheus_labels_of(p, with_attributes)),
        prometheus_labels_of(p, with_attributes).to_multiset() =~= raw_prometheus_labels(p, with_attributes).to_multiset(),
{
    lemma_sort_by_key(raw_prometheus_labels(p, with_attributes));
}

fn text_or_blank(v: &Option<String>) -> (r: String)
    ensures
        r@ == or_blank(opt_view(*v)),
{
    match v {
        Some(s) => s.clone(),
        None => String::new(),
    }
}

/// The labels of a measurement: `resource_kind`, `resource_id`, `resource_consumer_kind` and
/// `resource_consumer_id` (empty when there is no identifier), then, when
/// `add_attributes_to_labels` holds, the attributes under their sanitized key, sorted by key.
pub fn prometheus_labels(p: &PointLabels, add_attributes_to_labels: bool) -> (r: Vec<(String, String)>)
    ensures
        labels_view(r@) == prometheus_labels_of(*p, add_attributes_to_labels),
{
    let mut raw: Vec<(String, String)> = Vec::new();
    raw.push(("resource_kind".to_owned(), p.resource_kind.clone()));
    raw.push(("resource_id".to_owned(), text_or_blank(&p.resource_id)));
    raw.push(("resource_consumer_kind".to_owned(), p.consumer_kind.clone()));
    raw.push(("resource_consumer_id".to_owned(), text_or_blank(&p.consumer_id)));
    let ghost base = labels_view(raw@);
    if add_attributes_to_labels {
        let mut i: usize = 0;
        while i < p.attributes.len()
            invariant
                0 <= i <= p.attributes@.len(),
                labels_view(raw@) == base + p.attributes@.take(i as int).map_values(
                    |a: (String, String)| (sanitized_name(a.0@), a.1@),
                ),
            decreases p.attributes.len() - i,
        {
            let key = sanitize_name(p.attributes[i].0.clone());
            let value = p.attributes[i].1.clone();
            let ghost before = labels_view(raw@);
            raw.push((key, value));
            assert(labels_view(raw@) =~= before.push((sanitized_name(p.attributes@[i as int].0@), p.attributes@[i as int].1@)));
            assert(p.attributes@.take(i + 1) =~= p.attributes@.take(i as int).push(p.attributes@[i as int]));
            i = i + 1;
        }
        assert(p.attributes@.take(p.attributes@.len() as int) =~= p.attributes@);
    }
    assert(labels_view(raw@) =~= raw_prometheus_labels(*p, add_attributes_to_labels));
    sort_labels(raw)
}

/// The unit under which a new metric is registered, if any: a unit is given (sanitized) only
/// when the metric's unit string is empty; a metric with a unit is registered without one.
pub fn registered_unit(unit_string: &str) -> (r: Option<String>)
    ensures
        unit_string@.len() == 0 <==> r is Some,
        r matches Some(u) ==> u@ == sanitized_name(unit_string@),
{
    if unit_string.is_empty() {
        Some(sanitize_name(unit_string.to_owned()))
    } else {
        None
    }
}

} // verus!
