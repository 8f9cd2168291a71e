use librift::metrics::opt::{set_const_label, to_common_opts, to_histogram_opts};
use librift::metrics::register::{
    histogram_registration_opts, register_histogram_with, register_with, registration_opts, to_prometheus_opts,
    VERSION,
};
use librift::metrics::{MetricError, Opt};

fn label<'a>(labels: &'a [(String, String)], key: &str) -> Option<&'a String> {
    labels.iter().rev().find(|(k, _)| k == key).map(|(_, v)| v)
}

fn bits(values: &[f64]) -> Vec<u64> {
    values.iter().map(|v| v.to_bits()).collect()
}

fn counter(o: prometheus::Opts) -> prometheus::Result<prometheus::Counter> {
    let c = prometheus::Counter::with_opts(o)?;
    prometheus::register(Box::new(c.clone()))?;
    Ok(c)
}

fn gauge(o: prometheus::Opts) -> prometheus::Result<prometheus::Gauge> {
    let g = prometheus::Gauge::with_opts(o)?;
    prometheus::register(Box::new(g.clone()))?;
    Ok(g)
}

fn histogram_opts(o: prometheus::Opts, b: Option<Vec<u64>>) -> prometheus::HistogramOpts {
    let mut h = prometheus::HistogramOpts::from(o);
    if let Some(b) = b {
        h.buckets = b.into_iter().map(f64::from_bits).collect();
    }
    h
}

fn user_opts(buckets: Vec<u64>) -> Vec<Opt> {
    vec![
        Opt::Namespace(String::from("namespace")),
        Opt::Subsystem(String::from("subsystem")),
        Opt::ConstLabels(vec![(String::from("key"), String::from("val"))]),
        Opt::ConstLabel(String::from("key2"), String::from("val2")),
        Opt::Labels(vec![String::from("variable")]),
        Opt::Label(String::from("variable2")),
        Opt::Buckets(buckets),
    ]
}

#[test]
fn test_from_prometheus() {
    let input = prometheus::Error::AlreadyReg;
    let actual = MetricError::from("name".to_string(), input);
    assert!(matches!(actual, MetricError::AlreadyRegistered {name} if name == "name"));

    let input = prometheus::Error::InconsistentCardinality { expect: 1, got: 0 };
    let actual = MetricError::from("name".to_string(), input);
    assert!(
        matches!(actual, MetricError::IncorrectLabelCount {name,expected,got} if name == "name" && expected == 1 && got == 0)
    );

    let input = prometheus::Error::Msg(String::from("hello"));
    let actual = MetricError::from("name".to_string(), input);
    assert!(matches!(actual, MetricError::Unknown {name, ..} if name == "name"))
}

#[test]
fn test_to_common_opts_no_user_opts() {
    let name = String::from("name");
    let help = String::from("help");

    let opts = to_common_opts(&name, &help, None);
    assert!(opts.namespace.is_empty());
    assert!(opts.subsystem.is_empty());
    assert_eq!(opts.name, name);
    assert_eq!(opts.help, help);
    assert!(opts.const_labels.is_empty());
    assert!(opts.variable_labels.is_empty());
}

#[test]
fn test_to_common_opts_user_opts() {
    let opts = to_common_opts("name", "help", Some(user_opts(Vec::new())));
    assert_eq!(opts.namespace, "namespace");
    assert_eq!(opts.subsystem, "subsystem");
    assert_eq!(opts.name, "name");
    assert_eq!(opts.help, "help");
    assert_eq!(opts.const_labels.len(), 2);
    let val = label(&opts.const_labels, "key").expect("key missing for const_labels");
    assert_eq!(val, "val");
    let val = label(&opts.const_labels, "key2").expect("key missing from const_labels");
    assert_eq!(val, "val2");
    assert_eq!(opts.variable_labels.len(), 2);
    assert_eq!(opts.variable_labels[0], "variable");
    assert_eq!(opts.variable_labels[1], "variable2");
}

#[test]
fn test_to_histogram_opts_no_user_opts() {
    let name = String::from("name");
    let help = String::from("help");

    let opts = to_histogram_opts(&name, &help, None);
    assert!(opts.common_opts.namespace.is_empty());
    assert!(opts.common_opts.subsystem.is_empty());
    assert_eq!(opts.common_opts.name, name);
    assert_eq!(opts.common_opts.help, help);
    assert!(opts.common_opts.const_labels.is_empty());
    assert!(opts.common_opts.variable_labels.is_empty());
    let backend = histogram_opts(to_prometheus_opts(opts.common_opts), opts.buckets);
    assert_eq!(backend.buckets.len(), 11);
}

#[test]
fn test_to_histogram_opts_user_opts() {
    let opts = to_histogram_opts("name", "help", Some(user_opts(bits(&[1.0, 2.0, 3.0]))));
    assert_eq!(opts.common_opts.namespace, "namespace");
    assert_eq!(opts.common_opts.subsystem, "subsystem");
    assert_eq!(opts.common_opts.name, "name");
    assert_eq!(opts.common_opts.help, "help");
    assert_eq!(opts.common_opts.const_labels.len(), 2);
    let val = label(&opts.common_opts.const_labels, "key").expect("key missing for const_labels");
    assert_eq!(val, "val");
    let val = label(&opts.common_opts.const_labels, "key2").expect("key missing from const_labels");
    assert_eq!(val, "val2");
    assert_eq!(opts.common_opts.variable_labels.len(), 2);
    assert_eq!(opts.common_opts.variable_labels[0], "variable");
    assert_eq!(opts.common_opts.variable_labels[1], "variable2");
    let buckets: Vec<f64> = opts.buckets.unwrap().into_iter().map(f64::from_bits).collect();
    assert_eq!(buckets.len(), 3);
    assert_eq!(buckets[0], 1.0);
    assert_eq!(buckets[1], 2.0);
    assert_eq!(buckets[2], 3.0);
}

#[test]
fn later_options_extend_earlier_ones() {
    let opts = to_common_opts(
        "name",
        "help",
        Some(vec![
            Opt::ConstLabels(vec![(String::from("k"), String::from("v"))]),
            Opt::Labels(vec![String::from("l")]),
            Opt::Namespace(String::from("ns")),
            Opt::Subsystem(String::from("sub")),
            Opt::ConstLabel(String::from("k2"), String::from("v2")),
            Opt::Label(String::from("l2")),
        ]),
    );
    assert_eq!(opts.namespace, "ns");
    assert_eq!(opts.subsystem, "sub");
    assert_eq!(opts.const_labels.len(), 2);
    assert_eq!(label(&opts.const_labels, "k").unwrap(), "v");
    assert_eq!(label(&opts.const_labels, "k2").unwrap(), "v2");
    assert_eq!(opts.variable_labels, vec![String::from("l"), String::from("l2")]);
}

#[test]
fn whole_options_replace_earlier_ones() {
    let opts = to_common_opts(
        "name",
        "help",
        Some(vec![
            Opt::ConstLabel(String::from("a"), String::from("1")),
            Opt::Label(String::from("x")),
            Opt::Namespace(String::from("first")),
            Opt::ConstLabels(vec![(String::from("b"), String::from("2")), (String::from("b"), String::from("3"))]),
            Opt::Labels(vec![String::from("y"), String::from("z")]),
            Opt::Namespace(String::from("second")),
        ]),
    );
    assert_eq!(opts.namespace, "second");
    assert_eq!(opts.const_labels, vec![(String::from("b"), String::from("3"))]);
    assert_eq!(opts.variable_labels, vec![String::from("y"), String::from("z")]);
}

#[test]
fn const_label_overrides_same_key() {
    let mut labels = vec![(String::from("a"), String::from("1")), (String::from("b"), String::from("2"))];
    set_const_label(&mut labels, String::from("a"), String::from("9"));
    assert_eq!(labels.len(), 2);
    assert_eq!(label(&labels, "a").unwrap(), "9");
    assert_eq!(label(&labels, "b").unwrap(), "2");
}

#[test]
fn buckets_ignored_by_common_opts() {
    let opts = to_common_opts("name", "help", Some(vec![Opt::Buckets(bits(&[1.0]))]));
    assert!(opts.const_labels.is_empty());
    assert!(opts.variable_labels.is_empty());
    assert!(opts.namespace.is_empty());
}

#[test]
fn last_buckets_option_wins() {
    let opts = to_histogram_opts(
        "name",
        "help",
        Some(vec![Opt::Buckets(bits(&[1.0, 2.0])), Opt::Buckets(bits(&[5.0]))]),
    );
    assert_eq!(opts.buckets, Some(bits(&[5.0])));
}

#[test]
fn registration_adds_version_label() {
    let opts = registration_opts(
        "name",
        "help",
        Some(vec![Opt::ConstLabel(String::from("version"), String::from("mine"))]),
    );
    assert_eq!(opts.const_labels.len(), 1);
    assert_eq!(label(&opts.const_labels, "version").unwrap(), VERSION);
    let hist = histogram_registration_opts("name", "help", None);
    assert_eq!(label(&hist.common_opts.const_labels, "version").unwrap(), VERSION);
    assert!(hist.buckets.is_none());
}

#[test]
fn prometheus_opts_keep_fields() {
    let opts = registration_opts("name", "help", Some(user_opts(Vec::new())));
    let p = to_prometheus_opts(opts);
    assert_eq!(p.name, "name");
    assert_eq!(p.help, "help");
    assert_eq!(p.namespace, "namespace");
    assert_eq!(p.subsystem, "subsystem");
    assert_eq!(p.const_labels.len(), 3);
    assert_eq!(p.const_labels.get("key").unwrap(), "val");
    assert_eq!(p.const_labels.get("key2").unwrap(), "val2");
    assert_eq!(p.const_labels.get("version").unwrap(), VERSION);
    assert_eq!(p.variable_labels, vec![String::from("variable"), String::from("variable2")]);
}

#[test]
fn second_registration_is_refused() {
    let first = register_with("twice_registered", "A metric registered twice!", None, counter);
    assert!(first.is_ok());
    let again = register_with("twice_registered", "A metric registered twice!", None, counter);
    assert!(matches!(again, Err(MetricError::AlreadyRegistered { name }) if name == "twice_registered"));
    let other_kind = register_with("twice_registered", "A metric registered twice!", None, gauge);
    assert!(matches!(other_kind, Err(MetricError::AlreadyRegistered { name }) if name == "twice_registered"));
}

#[test]
fn invalid_name_is_unknown_error() {
    let r = register_with("not a valid name", "help", None, counter);
    assert!(matches!(r, Err(MetricError::Unknown { name, .. }) if name == "not a valid name"));
}

#[test]
fn test_counter() {
    let cnt = match register_with("counter", "A test counter!", None, counter) {
        Ok(metric) => metric,
        Err(_) => panic!(),
    };
    cnt.inc();
    assert_eq!(1.0, cnt.get());
}

#[test]
fn test_counter_vec() {
    let opts = vec![Opt::Labels(vec![String::from("testing")])];
    let cnt = match register_with("counter_vec", "A test counter vec!", Some(opts), |o| {
        let names = o.variable_labels.clone();
        let names: Vec<&str> = names.iter().map(|s| s.as_str()).collect();
        let v = prometheus::CounterVec::new(o, &names)?;
        prometheus::register(Box::new(v.clone()))?;
        Ok(v)
    }) {
        Ok(metric) => metric,
        Err(_) => panic!(),
    };
    cnt.with_label_values(&["woot"]).inc();
    assert_eq!(1.0, cnt.with_label_values(&["woot"]).get());
}

#[test]
fn test_int_counter() {
    let cnt = match register_with("int_counter", "A test int counter!", None, |o| {
        let c = prometheus::IntCounter::with_opts(o)?;
        prometheus::register(Box::new(c.clone()))?;
        Ok(c)
    }) {
        Ok(metric) => metric,
        Err(_) => panic!(),
    };
    cnt.inc();
    assert_eq!(1, cnt.get());
}

#[test]
fn test_int_counter_vec() {
    let opts = vec![Opt::Labels(vec![String::from("testing")])];
    let cnt = match register_with("int_counter_vec", "A test int counter vec!", Some(opts), |o| {
        let names = o.variable_labels.clone();
        let names: Vec<&str> = names.iter().map(|s| s.as_str()).collect();
        let v = prometheus::IntCounterVec::new(o, &names)?;
        prometheus::register(Box::new(v.clone()))?;
        Ok(v)
    }) {
        Ok(metric) => metric,
        Err(_) => panic!(),
    };
    cnt.with_label_values(&["woot"]).inc();
    assert_eq!(1, cnt.with_label_values(&["woot"]).get());
}

#[test]
fn test_gauge() {
    let cnt = match register_with("gauge", "A test gauge!", None, gauge) {
        Ok(metric) => metric,
        Err(_) => panic!(),
    };
    cnt.inc();
    assert_eq!(1.0, cnt.get());
}

#[test]
fn test_gauge_vec() {
    let opts = vec![Opt::Labels(vec![String::from("testing")])];
    let cnt = match register_with("gauge_vec", "A test gauge vec!", Some(opts), |o| {
        let names = o.variable_labels.clone();
        let names: Vec<&str> = names.iter().map(|s| s.as_str()).collect();
        let v = prometheus::GaugeVec::new(o, &names)?;
        prometheus::register(Box::new(v.clone()))?;
        Ok(v)
    }) {
        Ok(metric) => metric,
        Err(_) => panic!(),
    };
    cnt.with_label_values(&["woot"]).inc();
    assert_eq!(1.0, cnt.with_label_values(&["woot"]).get());
}

#[test]
fn test_int_gauge() {
    let cnt = match register_with("int_gauge", "A test int gauge!", None, |o| {
        let g = prometheus::IntGauge::with_opts(o)?;
        prometheus::register(Box::new(g.clone()))?;
        Ok(g)
    }) {
        Ok(metric) => metric,
        Err(_) => panic!(),
    };
    cnt.inc();
    assert_eq!(1, cnt.get());
}

#[test]
fn test_int_gauge_vec() {
    let opts = vec![Opt::Labels(vec![String::from("testing")])];
    let cnt = match register_with("int_gauge_vec", "A test int gauge vec!", Some(opts), |o| {
        let names = o.variable_labels.clone();
        let names: Vec<&str> = names.iter().map(|s| s.as_str()).collect();
        let v = prometheus::IntGaugeVec::new(o, &names)?;
        prometheus::register(Box::new(v.clone()))?;
        Ok(v)
    }) {
        Ok(metric) => metric,
        Err(_) => panic!(),
    };
    cnt.with_label_values(&["woot"]).inc();
    assert_eq!(1, cnt.with_label_values(&["woot"]).get());
}

#[test]
fn test_histogram() {
    let hist = match register_histogram_with("histogram", "A test histogram!", None, |o, b| {
        let h = prometheus::Histogram::with_opts(histogram_opts(o, b))?;
        prometheus::register(Box::new(h.clone()))?;
        Ok(h)
    }) {
        Ok(metric) => metric,
        Err(_) => panic!(),
    };
    hist.observe(0.1);
    assert_eq!(0.1, hist.get_sample_sum());
}

#[test]
fn test_histogram_vec() {
    let opts = vec![Opt::Labels(vec![String::from("testing")])];
    let hist = match register_histogram_with("histogram_vec", "A test histogram!", Some(opts), |o, b| {
        let names = o.variable_labels.clone();
        let names: Vec<&str> = names.iter().map(|s| s.as_str()).collect();
        let v = prometheus::HistogramVec::new(histogram_opts(o, b), &names)?;
        prometheus::register(Box::new(v.clone()))?;
        Ok(v)
    }) {
        Ok(metric) => metric,
        Err(_) => panic!(),
    };
    hist.with_label_values(&["woot"]).observe(0.1);
    assert_eq!(0.1, hist.with_label_values(&["woot"]).get_sample_sum());
}

#[test]
fn histogram_buckets_reach_backend() {
    let opts = vec![Opt::Buckets(bits(&[1.0, 2.0, 3.0]))];
    let hist = register_histogram_with("histogram_buckets", "A histogram with buckets!", Some(opts), |o, b| {
        let h = prometheus::Histogram::with_opts(histogram_opts(o, b))?;
        prometheus::register(Box::new(h.clone()))?;
        Ok(h)
    })
    .unwrap();
    hist.observe(2.5);
    assert_eq!(hist.get_sample_count(), 1);
}

#[test]
fn empty_option_list_changes_nothing() {
    let opts = to_histogram_opts("name", "help", Some(Vec::new()));
    assert_eq!(opts.common_opts.name, "name");
    assert_eq!(opts.common_opts.help, "help");
    assert!(opts.common_opts.namespace.is_empty());
    assert!(opts.common_opts.subsystem.is_empty());
    assert!(opts.common_opts.const_labels.is_empty());
    assert!(opts.common_opts.variable_labels.is_empty());
    assert!(opts.buckets.is_none());
}
