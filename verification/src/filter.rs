//! Filtering of measurements by metric: keep only some metrics, or drop some.

use vstd::prelude::*;
use std::collections::HashSet;

verus! {

broadcast use vstd::std_specs::hash::group_hash_axioms;

/// Which metrics a filter lets through.
pub enum FilterMode {
    /// Only the metrics of the set.
    Include(HashSet<u64>),
    /// Every metric but those of the set.
    Exclude(HashSet<u64>),
}

/// Why a filter cannot be built.
#[derive(Debug, Clone, Copy, PartialEq, Eq, Structural)]
pub enum FilterError {
    /// Neither a set of metrics to keep nor a set to drop was given.
    NeitherSet,
    /// Both a set of metrics to keep and a set to drop were given.
    BothSet,
}

/// What a filter error says.
pub open spec fn filter_error_text(e: FilterError) -> Seq<char> {
    match e {
        FilterError::NeitherSet => "filter transform cannot have both included and excluded metrics empty"@,
        FilterError::BothSet => "filter transform cannot have both included and excluded metrics set"@,
    }
}

impl FilterError {
    /// What went wrong, in words.
    pub fn message(&self) -> (s: &'static str)
        ensures
            s@ == filter_error_text(*self),
    {
        match self {
            FilterError::NeitherSet => "filter transform cannot have both included and excluded metrics empty",
            FilterError::BothSet => "filter transform cannot have both included and excluded metrics set",
        }
    }
}

/// A transform that keeps the measurements of some metrics, identified by number.
pub struct FilterTransform {
    mode: FilterMode,
}

/// Whether a filter in `mode` lets the metric `metric` through.
pub open spec fn lets_through(mode: FilterMode, metric: u64) -> bool {
    match mode {
        FilterMode::Include(set) => set@.contains(metric),
        FilterMode::Exclude(set) => !set@.contains(metric),
    }
}

impl FilterTransform {
    /// Whether this filter lets the metric `metric` through.
    pub closed spec fn keeps(&self, metric: u64) -> bool {
        lets_through(self.mode, metric)
    }

    /// A filter that keeps only the metrics of `included`, or drops those of `excluded`; exactly
    /// one of the two must be given.
    pub fn new(included: Option<HashSet<u64>>, excluded: Option<HashSet<u64>>) -> (r: Result<
        Self,
        FilterError,
    >)
        ensures
            match (included, excluded) {
                (Some(set), None) => r matches Ok(t) && forall|m: u64| #[trigger]
                    t.keeps(m) == set@.contains(m),
                (None, Some(set)) => r matches Ok(t) && forall|m: u64| #[trigger]
                    t.keeps(m) == !set@.contains(m),
                (None, None) => r == Err::<Self, FilterError>(FilterError::NeitherSet),
                (Some(_), Some(_)) => r == Err::<Self, FilterError>(FilterError::BothSet),
            },
    {
        match (included, excluded) {
            (Some(ids), None) => Ok(FilterTransform { mode: FilterMode::Include(ids) }),
            (None, Some(ids)) => Ok(FilterTransform { mode: FilterMode::Exclude(ids) }),
            (None, None) => Err(FilterError::NeitherSet),
            (Some(_), Some(_)) => Err(FilterError::BothSet),
        }
    }

    fn lets(&self, metric: u64) -> (b: bool)
        ensures
            b == self.keeps(metric),
    {
        match &self.mode {
            FilterMode::Include(set) => set.contains(&metric),
            FilterMode::Exclude(set) => !set.contains(&metric),
        }
    }

    /// Keeps the measurements whose metric (the first element) the filter lets through, in
    /// their order.
    pub fn apply<V>(&self, measurements: &mut Vec<(u64, V)>)
        ensures
            final(measurements)@ == old(measurements)@.filter(|p: (u64, V)| self.keeps(p.0)),
    {
        let mut all: Vec<(u64, V)> = Vec::new();
        std::mem::swap(&mut all, measurements);
        let ghost start = all@;
        let ghost pred = |p: (u64, V)| self.keeps(p.0);
        let mut kept: Vec<(u64, V)> = Vec::new();
        for p in it: all.into_iter()
            invariant
                it.seq() == start,
                kept@ == start.take(it.index() as int).filter(pred),
                pred == (|p: (u64, V)| self.keeps(p.0)),
        {
            proof {
                start.take(it.index() as int).lemma_filter_push(start[it.index() as int], pred);
                assert(start.take(it.index() + 1) =~= start.take(it.index() as int).push(
                    start[it.index() as int],
                ));
            }
            if self.lets(p.0) {
                kept.push(p);
            }
        }
        assert(start.take(start.len() as int) =~= start);
        *measurements = kept;
    }
}

/// A filter that keeps the metrics of a set and a filter that drops the metrics of the same set
/// split the measurements in two: each measurement is kept by exactly one of them, so that
/// what the two keep, together, is all the measurements.
pub proof fn lemma_keep_and_drop_split<V>(
    keep: FilterTransform,
    drop: FilterTransform,
    set: Set<u64>,
    m: Seq<(u64, V)>,
)
    requires
        forall|id: u64| #[trigger] keep.keeps(id) == set.contains(id),
        forall|id: u64| #[trigger] drop.keeps(id) == !set.contains(id),
    ensures
        m.filter(|p: (u64, V)| keep.keeps(p.0)).to_multiset().add(
            m.filter(|p: (u64, V)| drop.keeps(p.0)).to_multiset(),
        ) == m.to_multiset(),
    decreases m.len(),
{
    broadcast use vstd::seq_lib::group_to_multiset_ensures;

    let fk = |p: (u64, V)| keep.keeps(p.0);
    let fd = |p: (u64, V)| drop.keeps(p.0);
    if m.len() == 0 {
        assert(m.filter(fk) =~= m);
        assert(m.filter(fd) =~= m);
        assert(m.to_multiset().add(m.to_multiset()) =~= m.to_multiset());
    } else {
        let rest = m.drop_last();
        let x = m.last();
        lemma_keep_and_drop_split(keep, drop, set, rest);
        let a = rest.filter(fk);
        let b = rest.filter(fd);
        assert(m =~= rest.push(x));
        rest.lemma_filter_push(x, fk);
        rest.lemma_filter_push(x, fd);
        assert(keep.keeps(x.0) != drop.keeps(x.0));
        if keep.keeps(x.0) {
            assert(m.filter(fk) == a.push(x));
            assert(m.filter(fd) == b);
            assert(a.push(x).to_multiset() =~= a.to_multiset().insert(x));
            assert(a.to_multiset().insert(x).add(b.to_multiset()) =~= a.to_multiset().add(b.to_multiset()).insert(x));
        } else {
            assert(m.filter(fk) == a);
            assert(m.filter(fd) == b.push(x));
            assert(b.push(x).to_multiset() =~= b.to_multiset().insert(x));
            assert(a.to_multiset().add(b.to_multiset().insert(x)) =~= a.to_multiset().add(b.to_multiset()).insert(x));
        }
        assert(m =~= rest.push(x));
        assert(rest.push(x).to_multiset() =~= rest.to_multiset().insert(x));
    }
}

/// The id of the metric named `name` in a registry of (name, id) pairs: that of its first entry.
pub open spec fn lookup(registry: Seq<(String, u64)>, name: Seq<char>) -> Option<u64>
    decreases registry.len(),
{
    if registry.len() == 0 {
        None
    } else if registry[0].0@ == name {
        Some(registry[0].1)
    } else {
        lookup(registry.skip(1), name)
    }
}

/// The first of `names` that the registry does not know, if any.
pub open spec fn first_missing(registry: Seq<(String, u64)>, names: Seq<String>) -> Option<Seq<char>>
    decreases names.len(),
{
    if names.len() == 0 {
        None
    } else if lookup(registry, names[0]@) is None {
        Some(names[0]@)
    } else {
        first_missing(registry, names.skip(1))
    }
}

/// The ids of the metrics named by `names`.
pub open spec fn ids_of(registry: Seq<(String, u64)>, names: Seq<String>) -> Set<u64> {
    Set::new(|id: u64| exists|i: int| 0 <= i < names.len() && lookup(registry, #[trigger] names[i]@) == Some(id))
}

fn lookup_id(registry: &[(String, u64)], name: &str) -> (r: Option<u64>)
    ensures
        r == lookup(registry@, name@),
{
    let mut i: usize = 0;
    assert(registry@.skip(0) =~= registry@);
    while i < registry.len()
        invariant
            0 <= i <= registry@.len(),
            lookup(registry@.skip(i as int), name@) == lookup(registry@, name@),
        decreases registry.len() - i,
    {
        assert(registry@.skip(i as int).skip(1) =~= registry@.skip(i + 1));
        assert(registry@.skip(i as int)[0] == registry@[i as int]);
        if registry[i].0 == name.to_owned() {
            return Some(registry[i].1);
        }
        i = i + 1;
    }
    None
}

proof fn lemma_missing_prefix(registry: Seq<(String, u64)>, names: Seq<String>, i: int)
    requires
        0 <= i < names.len(),
        forall|j: int| 0 <= j < i ==> lookup(registry, #[trigger] names[j]@) is Some,
    ensures
        first_missing(registry, names) == first_missing(registry, names.skip(i)),
    decreases i,
{
    if i > 0 {
        assert(lookup(registry, names[0]@) is Some);
        assert forall|j: int| 0 <= j < i - 1 implies lookup(registry, #[trigger] names.skip(1)[j]@) is Some by {
            assert(names.skip(1)[j] == names[j + 1]);
        }
        lemma_missing_prefix(registry, names.skip(1), i - 1);
        assert(names.skip(1).skip(i - 1) =~= names.skip(i));
    } else {
        assert(names.skip(0) =~= names);
    }
}

proof fn lemma_none_missing(registry: Seq<(String, u64)>, names: Seq<String>)
    requires
        forall|j: int| 0 <= j < names.len() ==> lookup(registry, #[trigger] names[j]@) is Some,
    ensures
        first_missing(registry, names) is None,
    decreases names.len(),
{
    if names.len() > 0 {
        assert(lookup(registry, names[0]@) is Some);
        assert forall|j: int| 0 <= j < names.len() - 1 implies lookup(registry, #[trigger] names.skip(1)[j]@) is Some by {
            assert(names.skip(1)[j] == names[j + 1]);
        }
        lemma_none_missing(registry, names.skip(1));
    }
}

/// The ids of the metrics named by `names`, looked up in a registry of (name, id) pairs; the
/// first name that the registry does not know is returned instead.
pub fn metric_ids(names: &[String], registry: &[(String, u64)]) -> (r: Result<HashSet<u64>, String>)
    ensures
        match r {
            Ok(set) => first_missing(registry@, names@) is None && set@ == ids_of(registry@, names@),
            Err(name) => first_missing(registry@, names@) == Some(name@),
        },
{
    let mut ids: HashSet<u64> = HashSet::new();
    let mut i: usize = 0;
    while i < names.len()
        invariant
            0 <= i <= names@.len(),
            forall|j: int| 0 <= j < i ==> lookup(registry@, #[trigger] names@[j]@) is Some,
            ids@ == ids_of(registry@, names@.take(i as int)),
        decreases names.len() - i,
    {
        match lookup_id(registry, names[i].as_str()) {
            Some(id) => {
                ids.insert(id);
                assert(ids@ =~= ids_of(registry@, names@.take(i + 1))) by {
                    assert forall|x: u64| ids@.contains(x) implies ids_of(registry@, names@.take(i + 1)).contains(x) by {
                        if x == id {
                            assert(names@.take(i + 1)[i as int] == names@[i as int]);
                        } else {
                            let k = choose|k: int| 0 <= k < i && lookup(registry@, #[trigger] names@.take(i as int)[k]@) == Some(x);
                            assert(names@.take(i + 1)[k] == names@.take(i as int)[k]);
                        }
                    }
                    assert forall|x: u64| ids_of(registry@, names@.take(i + 1)).contains(x) implies ids@.contains(x) by {
                        let k = choose|k: int| 0 <= k < i + 1 && lookup(registry@, #[trigger] names@.take(i + 1)[k]@) == Some(x);
                        if k < i {
                            assert(names@.take(i as int)[k] == names@.take(i + 1)[k]);
                        }
                    }
                }
            },
            None => {
                proof {
                    lemma_missing_prefix(registry@, names@, i as int);
                    assert(names@.skip(i as int)[0] == names@[i as int]);
                }
                return Err(names[i].clone());
            },
        }
        i = i + 1;
    }
    proof {
        lemma_none_missing(registry@, names@);
    }
    assert(names@.take(names@.len() as int) =~= names@);
    Ok(ids)
}

/// Why the filter plugin cannot be set up.
#[derive(Debug, Clone, PartialEq, Eq)]
pub enum FilterSetupError {
    /// The configuration gives both the metrics to keep and the metrics to drop.
    BothDefined,
    /// A configured metric does not exist.
    MetricNotFound(String),
    /// The filter itself cannot be built.
    Filter(FilterError),
}

impl FilterSetupError {
    /// What went wrong, in words.
    pub fn message(&self) -> (s: String)
        ensures
            *self == FilterSetupError::BothDefined ==> s@
                == "filter transform cannot have both included and excluded configuration parameters defined"@,
            self matches FilterSetupError::MetricNotFound(name) ==> s@ == "Metric not found : "@ + name@,
            self matches FilterSetupError::Filter(e) ==> s@ == filter_error_text(*e),
    {
        match self {
            FilterSetupError::BothDefined => "filter transform cannot have both included and excluded configuration parameters defined".to_owned(),
            FilterSetupError::MetricNotFound(name) => {
                let mut out: Vec<char> = Vec::new();
                crate::text::push_str(&mut out, "Metric not found : ");
                crate::text::push_str(&mut out, name.as_str());
                crate::text::string_of(out.as_slice())
            },
            FilterSetupError::Filter(e) => e.message().to_owned(),
        }
    }
}

/// Checks a configuration of the filter plugin: it cannot give both the metrics to keep and
/// the metrics to drop.
pub fn check_config(included: &Option<Vec<String>>, excluded: &Option<Vec<String>>) -> (r: Result<(), FilterSetupError>)
    ensures
        r is Err <==> included is Some && excluded is Some,
        r is Err ==> r == Err::<(), FilterSetupError>(FilterSetupError::BothDefined),
{
    if included.is_some() && excluded.is_some() {
        Err(FilterSetupError::BothDefined)
    } else {
        Ok(())
    }
}

/// The first configured metric that the registry does not know: among those to keep first,
/// then among those to drop.
pub open spec fn setup_missing(
    registry: Seq<(String, u64)>,
    included: Option<Vec<String>>,
    excluded: Option<Vec<String>>,
) -> Option<Seq<char>> {
    let i = match included {
        Some(n) => first_missing(registry, n@),
        None => None,
    };
    match i {
        Some(m) => Some(m),
        None => match excluded {
            Some(n) => first_missing(registry, n@),
            None => None,
        },
    }
}

/// The transform that a configuration of the filter plugin sets up, with the metrics looked up
/// by name in a registry of (name, id) pairs: none when neither the metrics to keep nor the
/// metrics to drop are given, an error when a metric does not exist, else the filter.
pub fn setup_transform(
    included: &Option<Vec<String>>,
    excluded: &Option<Vec<String>>,
    registry: &[(String, u64)],
) -> (r: Result<Option<FilterTransform>, FilterSetupError>)
    ensures
        included is None && excluded is None ==> r matches Ok(None),
        !(included is None && excluded is None) ==> match setup_missing(registry@, *included, *excluded) {
            Some(m) => r matches Err(FilterSetupError::MetricNotFound(name)) && name@ == m,
            None => match (*included, *excluded) {
                (Some(n), None) => r matches Ok(Some(t)) && forall|id: u64| #[trigger]
                    t.keeps(id) == ids_of(registry@, n@).contains(id),
                (None, Some(n)) => r matches Ok(Some(t)) && forall|id: u64| #[trigger]
                    t.keeps(id) == !ids_of(registry@, n@).contains(id),
                _ => r matches Err(FilterSetupError::Filter(FilterError::BothSet)),
            },
        },
{
    if included.is_none() && excluded.is_none() {
        return Ok(None);
    }
    let kept = match included {
        Some(names) => match metric_ids(names.as_slice(), registry) {
            Ok(ids) => Some(ids),
            Err(name) => return Err(FilterSetupError::MetricNotFound(name)),
        },
        None => None,
    };
    let dropped = match excluded {
        Some(names) => match metric_ids(names.as_slice(), registry) {
            Ok(ids) => Some(ids),
            Err(name) => return Err(FilterSetupError::MetricNotFound(name)),
        },
        None => None,
    };
    match FilterTransform::new(kept, dropped) {
        Ok(t) => Ok(Some(t)),
        Err(e) => Err(FilterSetupError::Filter(e)),
    }
}

} // verus!
