use vstd::prelude::*;
use vstd::std_specs::hash::{builds_valid_hashers, obeys_key_model};

use super::error::MetricError;
use super::opt::{
    apply_all, base_model, given, keys_unique, label_map, names_view, set_const_label, to_common_opts, CommonModel,
    CommonOpts, HistogramModel, HistogramOpts, Opt, to_histogram_opts,
};

verus! {

/// The version of this build, attached to every metric as the constant
/// label `version`.
pub const VERSION: &'static str = "0.1.0";

/// prometheus's `Opts`, with its public fields: namespace, subsystem, name,
/// help, constant labels and variable label names.
#[verifier::external_type_specification]
pub struct ExOpts(prometheus::Opts);

/// The constant labels that a list of pairs stands for, keyed by the
/// strings themselves.
pub open spec fn string_label_map(s: Seq<(String, String)>) -> Map<String, String>
    decreases s.len(),
{
    if s.len() == 0 {
        Map::empty()
    } else {
        string_label_map(s.drop_last()).insert(s.last().0, s.last().1)
    }
}

/// What a registration hands to the backend: the folded options with the
/// constant label `version` set to this build's version.
pub open spec fn registered_model(name: Seq<char>, help: Seq<char>, user_opts: Seq<Opt>) -> CommonModel {
    registered_histogram_model(name, help, user_opts).common
}

/// What a histogram registration hands to the backend: as for other metrics,
/// and the buckets of the list.
pub open spec fn registered_histogram_model(name: Seq<char>, help: Seq<char>, user_opts: Seq<Opt>) -> HistogramModel {
    let m = apply_all(base_model(name, help), user_opts);
    HistogramModel {
        common: CommonModel { const_labels: m.common.const_labels.insert("version"@, VERSION@), ..m.common },
        ..m
    }
}

/// Bucket bounds as a model: `None` for the backend's default.
pub open spec fn buckets_view(b: Option<Vec<u64>>) -> Option<Seq<u64>> {
    match b {
        Some(v) => Some(v@),
        None => None,
    }
}

/// Whatever the name, help and options, what a registration hands to the
/// backend carries the constant label `version` with this build's version.
pub proof fn registration_always_carries_version(name: Seq<char>, help: Seq<char>, user_opts: Seq<Opt>)
    ensures
        registered_model(name, help, user_opts).const_labels.contains_key("version"@),
        registered_model(name, help, user_opts).const_labels["version"@] == VERSION@,
        registered_histogram_model(name, help, user_opts).common.const_labels["version"@] == VERSION@,
{
}

/// The options a metric named `name` is registered with: those of the list,
/// applied in order, then the constant label `version` set to this build's
/// version, whatever the list said of it.
pub fn registration_opts(name: &str, help: &str, user_opts: Option<Vec<Opt>>) -> (r: CommonOpts)
    ensures
        r@ == registered_model(name@, help@, given(user_opts)),
        keys_unique(r.const_labels@),
        r@.const_labels.contains_key("version"@),
        r@.const_labels["version"@] == VERSION@,
{
    let mut opts = to_common_opts(name, help, user_opts);
    set_const_label(&mut opts.const_labels, "version".to_owned(), VERSION.to_owned());
    opts
}

/// The options a histogram named `name` is registered with: those of the
/// list, applied in order, then the constant label `version` set to this
/// build's version.
pub fn histogram_registration_opts(name: &str, help: &str, user_opts: Option<Vec<Opt>>) -> (r: HistogramOpts)
    ensures
        r@ == registered_histogram_model(name@, help@, given(user_opts)),
        keys_unique(r.common_opts.const_labels@),
        r@.common.const_labels.contains_key("version"@),
        r@.common.const_labels["version"@] == VERSION@,
{
    let mut opts = to_histogram_opts(name, help, user_opts);
    set_const_label(&mut opts.common_opts.const_labels, "version".to_owned(), VERSION.to_owned());
    opts
}

/// The same options in prometheus's own form.
pub fn to_prometheus_opts(o: CommonOpts) -> (r: prometheus::Opts)
    ensures
        r.namespace == o.namespace,
        r.subsystem == o.subsystem,
        r.name == o.name,
        r.help == o.help,
        r.variable_labels == o.variable_labels,
        obeys_key_model::<String>() && builds_valid_hashers::<std::collections::hash_map::RandomState>()
            ==> r.const_labels@ == string_label_map(o.const_labels@),
{
    let CommonOpts { namespace, subsystem, name, help, const_labels, variable_labels } = o;
    let mut map: std::collections::HashMap<String, String> = std::collections::HashMap::new();
    let n = const_labels.len();
    let mut i: usize = 0;
    while i < n
        invariant
            n == const_labels@.len(),
            i <= n,
            obeys_key_model::<String>() && builds_valid_hashers::<std::collections::hash_map::RandomState>()
                ==> map@ == string_label_map(const_labels@.subrange(0, i as int)),
        decreases n - i,
    {
        let k = const_labels[i].0.clone();
        let v = const_labels[i].1.clone();
        map.insert(k, v);
        assert(const_labels@.subrange(0, i + 1).drop_last() == const_labels@.subrange(0, i as int));
        i = i + 1;
    }
    assert(const_labels@.subrange(0, n as int) == const_labels@);
    prometheus::Opts { namespace, subsystem, name, help, const_labels: map, variable_labels }
}

/// Whether prometheus options `o` are those of model `m`.
pub open spec fn handed(o: prometheus::Opts, m: CommonModel) -> bool {
    &&& o.name@ == m.name
    &&& o.help@ == m.help
    &&& o.namespace@ == m.namespace
    &&& o.subsystem@ == m.subsystem
    &&& names_view(o.variable_labels@) == m.variable_labels
    &&& obeys_key_model::<String>() && builds_valid_hashers::<std::collections::hash_map::RandomState>()
        ==> exists|s: Seq<(String, String)>| o.const_labels@ == string_label_map(s) && #[trigger] label_map(s) == m.const_labels
}

/// Whether `build`, handed prometheus options for model `m`, can give `out`.
pub open spec fn built_from<H, F: FnOnce(prometheus::Opts) -> Result<H, prometheus::Error>>(
    build: F,
    m: CommonModel,
    out: Result<H, prometheus::Error>,
) -> bool {
    exists|o: prometheus::Opts| handed(o, m) && #[trigger] build.ensures((o,), out)
}

/// Registers a metric named `name` with the options of `registration_opts`.
/// `build` is the backend's step: it makes the metric from prometheus options
/// and adds it to a registry. A metric it returns is the result; an error it
/// returns is mapped by `MetricError::from`.
pub fn register_with<H, F: FnOnce(prometheus::Opts) -> Result<H, prometheus::Error>>(
    name: &str,
    help: &str,
    user_opts: Option<Vec<Opt>>,
    build: F,
) -> (r: Result<H, MetricError>)
    requires
        forall|o: prometheus::Opts| build.requires((o,)),
    ensures
        match r {
            Ok(h) => built_from(build, registered_model(name@, help@, given(user_opts)), Ok(h)),
            Err(e) => e.metric_name() == name@ && exists|b: prometheus::Error|
                built_from(build, registered_model(name@, help@, given(user_opts)), Err(b))
                    && e == #[trigger] MetricError::for_backend(e.name_string(), b),
        },
{
    let ghost m = registered_model(name@, help@, given(user_opts));
    let c = registration_opts(name, help, user_opts);
    let ghost labels = c.const_labels@;
    let o = to_prometheus_opts(c);
    assert(names_view(o.variable_labels@) == names_view(c.variable_labels@));
    proof {
        if obeys_key_model::<String>() && builds_valid_hashers::<std::collections::hash_map::RandomState>() {
            assert(o.const_labels@ == string_label_map(labels) && label_map(labels) == label_map(labels));
        }
    }
    let ghost handed_o = o;
    assert(handed(handed_o, m));
    match build(o) {
        Ok(h) => {
            assert(build.ensures((handed_o,), Ok(h)));
            assert(built_from(build, m, Ok(h)));
            Ok(h)
        },
        Err(b) => {
            assert(build.ensures((handed_o,), Err(b)));
            assert(built_from(build, m, Err(b)));
            let e = MetricError::from(name.to_owned(), b);
            assert(e == MetricError::for_backend(e.name_string(), b));
            Err(e)
        },
    }
}

/// Whether `build`, handed prometheus options and buckets for model `m`, can
/// give `out`.
pub open spec fn histogram_built_from<H, F: FnOnce(prometheus::Opts, Option<Vec<u64>>) -> Result<H, prometheus::Error>>(
    build: F,
    m: HistogramModel,
    out: Result<H, prometheus::Error>,
) -> bool {
    exists|o: prometheus::Opts, b: Option<Vec<u64>>|
        handed(o, m.common) && buckets_view(b) == m.buckets && #[trigger] build.ensures((o, b), out)
}

/// Registers a histogram named `name` with the options of
/// `histogram_registration_opts`. `build` is the backend's step: it makes the
/// histogram from prometheus options and the bit patterns of the bucket
/// bounds (`None` for the default ones) and adds it to a registry.
pub fn register_histogram_with<H, F: FnOnce(prometheus::Opts, Option<Vec<u64>>) -> Result<H, prometheus::Error>>(
    name: &str,
    help: &str,
    user_opts: Option<Vec<Opt>>,
    build: F,
) -> (r: Result<H, MetricError>)
    requires
        forall|o: prometheus::Opts, b: Option<Vec<u64>>| build.requires((o, b)),
    ensures
        match r {
            Ok(h) => histogram_built_from(build, registered_histogram_model(name@, help@, given(user_opts)), Ok(h)),
            Err(e) => e.metric_name() == name@ && exists|b: prometheus::Error|
                histogram_built_from(build, registered_histogram_model(name@, help@, given(user_opts)), Err(b))
                    && e == #[trigger] MetricError::for_backend(e.name_string(), b),
        },
{
    let ghost m = registered_histogram_model(name@, help@, given(user_opts));
    let h = histogram_registration_opts(name, help, user_opts);
    let HistogramOpts { common_opts: c, buckets } = h;
    let ghost labels = c.const_labels@;
    let o = to_prometheus_opts(c);
    assert(names_view(o.variable_labels@) == names_view(c.variable_labels@));
    proof {
        if obeys_key_model::<String>() && builds_valid_hashers::<std::collections::hash_map::RandomState>() {
            assert(o.const_labels@ == string_label_map(labels) && label_map(labels) == label_map(labels));
        }
    }
    let ghost handed_o = o;
    let ghost handed_b = buckets;
    assert(handed(handed_o, m.common));
    assert(buckets_view(handed_b) == m.buckets);
    match build(o, buckets) {
        Ok(x) => {
            assert(build.ensures((handed_o, handed_b), Ok(x)));
            assert(histogram_built_from(build, m, Ok(x)));
            Ok(x)
        },
        Err(b) => {
            assert(build.ensures((handed_o, handed_b), Err(b)));
            assert(histogram_built_from(build, m, Err(b)));
            let e = MetricError::from(name.to_owned(), b);
            assert(e == MetricError::for_backend(e.name_string(), b));
            Err(e)
        },
    }
}

} // verus!
