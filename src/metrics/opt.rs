use vstd::prelude::*;

verus! {

/// One option for registering a metric. A list of them is applied in order.
#[derive(Debug)]
pub enum Opt {
    /// Replaces all constant labels by these key/value pairs; a later pair
    /// overrides an earlier one with the same key.
    ConstLabels(Vec<(String, String)>),
    /// Adds one constant label, overriding any with the same key.
    ConstLabel(String, String),
    /// Replaces the variable label names by these.
    Labels(Vec<String>),
    /// Appends one variable label name.
    Label(String),
    /// Replaces the histogram's bucket bounds: each is the IEEE-754 bit
    /// pattern of an upper bound. Only histograms read it.
    Buckets(Vec<u64>),
    /// Sets the namespace of the metric.
    Namespace(String),
    /// Sets the subsystem of the metric.
    Subsystem(String),
}

/// The options that every kind of metric is registered with.
#[derive(Debug)]
pub struct CommonOpts {
    pub namespace: String,
    pub subsystem: String,
    pub name: String,
    pub help: String,
    /// Constant labels as key/value pairs; where a key occurs twice the later
    /// pair counts.
    pub const_labels: Vec<(String, String)>,
    pub variable_labels: Vec<String>,
}

/// The options of a histogram.
#[derive(Debug)]
pub struct HistogramOpts {
    pub common_opts: CommonOpts,
    /// The bit patterns of the bucket bounds, or `None` for the backend's
    /// default buckets.
    pub buckets: Option<Vec<u64>>,
}

/// What common options mean: texts as characters, constant labels as a map.
pub struct CommonModel {
    pub namespace: Seq<char>,
    pub subsystem: Seq<char>,
    pub name: Seq<char>,
    pub help: Seq<char>,
    pub const_labels: Map<Seq<char>, Seq<char>>,
    pub variable_labels: Seq<Seq<char>>,
}

/// What histogram options mean.
pub struct HistogramModel {
    pub common: CommonModel,
    pub buckets: Option<Seq<u64>>,
}

/// The map that a list of key/value pairs stands for: later pairs override
/// earlier ones.
pub open spec fn label_map(s: Seq<(String, String)>) -> Map<Seq<char>, Seq<char>>
    decreases s.len(),
{
    if s.len() == 0 {
        Map::empty()
    } else {
        label_map(s.drop_last()).insert(s.last().0@, s.last().1@)
    }
}

/// The pairs of a list whose key is not `k`, in order.
pub open spec fn without_key(s: Seq<(String, String)>, k: Seq<char>) -> Seq<(String, String)>
    decreases s.len(),
{
    if s.len() == 0 {
        s
    } else if s.last().0@ == k {
        without_key(s.drop_last(), k)
    } else {
        without_key(s.drop_last(), k).push(s.last())
    }
}

/// No two pairs of a list share a key.
pub open spec fn keys_unique(s: Seq<(String, String)>) -> bool {
    forall|i: int, j: int| 0 <= i < j < s.len() ==> s[i].0@ != s[j].0@
}

/// A list of names as characters.
pub open spec fn names_view(s: Seq<String>) -> Seq<Seq<char>> {
    s.map_values(|x: String| x@)
}

impl CommonOpts {
    pub open spec fn view(&self) -> CommonModel {
        CommonModel {
            namespace: self.namespace@,
            subsystem: self.subsystem@,
            name: self.name@,
            help: self.help@,
            const_labels: label_map(self.const_labels@),
            variable_labels: names_view(self.variable_labels@),
        }
    }
}

impl HistogramOpts {
    pub open spec fn view(&self) -> HistogramModel {
        HistogramModel {
            common: self.common_opts.view(),
            buckets: match self.buckets {
                Some(b) => Some(b@),
                None => None,
            },
        }
    }
}

/// The options before any `Opt` is applied: the name and help, nothing else.
pub open spec fn base_model(name: Seq<char>, help: Seq<char>) -> HistogramModel {
    HistogramModel {
        common: CommonModel {
            namespace: Seq::empty(),
            subsystem: Seq::empty(),
            name,
            help,
            const_labels: Map::empty(),
            variable_labels: Seq::empty(),
        },
        buckets: None,
    }
}

/// The effect of one option.
pub open spec fn apply_opt(m: HistogramModel, o: Opt) -> HistogramModel {
    match o {
        Opt::ConstLabels(v) => HistogramModel {
            common: CommonModel { const_labels: label_map(v@), ..m.common },
            ..m
        },
        Opt::ConstLabel(k, v) => HistogramModel {
            common: CommonModel { const_labels: m.common.const_labels.insert(k@, v@), ..m.common },
            ..m
        },
        Opt::Labels(v) => HistogramModel {
            common: CommonModel { variable_labels: names_view(v@), ..m.common },
            ..m
        },
        Opt::Label(l) => HistogramModel {
            common: CommonModel { variable_labels: m.common.variable_labels.push(l@), ..m.common },
            ..m
        },
        Opt::Buckets(b) => HistogramModel { buckets: Some(b@), ..m },
        Opt::Namespace(s) => HistogramModel {
            common: CommonModel { namespace: s@, ..m.common },
            ..m
        },
        Opt::Subsystem(s) => HistogramModel {
            common: CommonModel { subsystem: s@, ..m.common },
            ..m
        },
    }
}

/// The effect of a list of options, applied first to last.
pub open spec fn apply_all(m: HistogramModel, opts: Seq<Opt>) -> HistogramModel
    decreases opts.len(),
{
    if opts.len() == 0 {
        m
    } else {
        apply_opt(apply_all(m, opts.drop_last()), opts.last())
    }
}

/// The options that an optional list holds; none when it is absent.
pub open spec fn given(user_opts: Option<Vec<Opt>>) -> Seq<Opt> {
    match user_opts {
        Some(v) => v@,
        None => Seq::empty(),
    }
}

/// Dropping key `k` from a list drops it from the map it stands for.
proof fn lemma_without_key(s: Seq<(String, String)>, k: Seq<char>)
    ensures
        label_map(without_key(s, k)) == label_map(s).remove(k),
    decreases s.len(),
{
    if s.len() > 0 {
        lemma_without_key(s.drop_last(), k);
        if s.last().0@ != k {
            let r = without_key(s.drop_last(), k);
            assert(r.push(s.last()).drop_last() == r);
        }
        assert(label_map(without_key(s, k)) =~= label_map(s).remove(k));
    }
}

/// Every key left after dropping `k` is a key of the list, and is not `k`.
proof fn lemma_without_key_keys(s: Seq<(String, String)>, k: Seq<char>)
    ensures
        forall|i: int| 0 <= i < without_key(s, k).len() ==> (#[trigger] without_key(s, k)[i]).0@ != k
            && exists|j: int| 0 <= j < s.len() && s[j].0@ == without_key(s, k)[i].0@,
        keys_unique(s) ==> keys_unique(without_key(s, k)),
    decreases s.len(),
{
    if s.len() > 0 {
        let d = s.drop_last();
        lemma_without_key_keys(d, k);
        let r = without_key(d, k);
        assert forall|i: int| 0 <= i < r.len() implies exists|j: int| 0 <= j < s.len() && s[j].0@ == (#[trigger] r[i]).0@ by {
            let j = choose|j: int| 0 <= j < d.len() && d[j].0@ == r[i].0@;
            assert(s[j] == d[j]);
        }
        if s.last().0@ != k {
            let w = r.push(s.last());
            assert forall|i: int| 0 <= i < w.len() implies (#[trigger] w[i]).0@ != k
                && exists|j: int| 0 <= j < s.len() && s[j].0@ == w[i].0@ by {
                if i == r.len() {
                    assert(s[s.len() - 1].0@ == w[i].0@);
                } else {
                    assert(w[i] == r[i]);
                }
            }
            if keys_unique(s) {
                assert(keys_unique(d)) by {
                    assert forall|i: int, j: int| 0 <= i < j < d.len() implies d[i].0@ != d[j].0@ by {
                        assert(d[i] == s[i] && d[j] == s[j]);
                    }
                }
                assert forall|i: int, j: int| 0 <= i < j < w.len() implies w[i].0@ != w[j].0@ by {
                    if j == r.len() {
                        let jj = choose|jj: int| 0 <= jj < d.len() && d[jj].0@ == r[i].0@;
                        assert(d[jj] == s[jj]);
                        assert(w[i] == r[i]);
                    } else {
                        assert(w[i] == r[i] && w[j] == r[j]);
                    }
                }
            }
        } else if keys_unique(s) {
            assert forall|i: int, j: int| 0 <= i < j < d.len() implies d[i].0@ != d[j].0@ by {
                assert(d[i] == s[i] && d[j] == s[j]);
            }
        }
    }
}

/// Sets the constant label `key` to `value`, dropping any earlier pair with
/// that key.
pub fn set_const_label(labels: &mut Vec<(String, String)>, key: String, value: String)
    ensures
        label_map(final(labels)@) == label_map(old(labels)@).insert(key@, value@),
        keys_unique(old(labels)@) ==> keys_unique(final(labels)@),
{
    let mut kept: Vec<(String, String)> = Vec::new();
    let n = labels.len();
    let mut i: usize = 0;
    while i < n
        invariant
            n == labels@.len(),
            i <= n,
            kept@ == without_key(labels@.subrange(0, i as int), key@),
        decreases n - i,
    {
        let same = labels[i].0 == key;
        assert(labels@.subrange(0, i + 1).drop_last() == labels@.subrange(0, i as int));
        if !same {
            let k = labels[i].0.clone();
            let v = labels[i].1.clone();
            kept.push((k, v));
        }
        i = i + 1;
    }
    assert(labels@.subrange(0, n as int) == labels@);
    proof {
        lemma_without_key(labels@, key@);
        lemma_without_key_keys(labels@, key@);
    }
    let ghost before = labels@;
    *labels = kept;
    labels.push((key, value));
    assert(labels@.drop_last() == without_key(before, key@));
    assert(label_map(labels@) =~= label_map(before).insert(key@, value@));
    assert(keys_unique(before) ==> keys_unique(labels@)) by {
        if keys_unique(before) {
            let w = without_key(before, key@);
            assert forall|i: int, j: int| 0 <= i < j < labels@.len() implies labels@[i].0@ != labels@[j].0@ by {
                if j == w.len() {
                    assert(labels@[i] == w[i]);
                } else {
                    assert(labels@[i] == w[i] && labels@[j] == w[j]);
                }
            }
        }
    }
}

/// Applies one option to histogram options.
fn apply(opts: &mut HistogramOpts, opt: Opt)
    requires
        keys_unique(old(opts).common_opts.const_labels@),
    ensures
        final(opts)@ == apply_opt(old(opts)@, opt),
        keys_unique(final(opts).common_opts.const_labels@),
{
    match opt {
        Opt::ConstLabels(pairs) => {
            let mut labels: Vec<(String, String)> = Vec::new();
            let n = pairs.len();
            let mut rest = pairs;
            let ghost all = rest@;
            let mut i: usize = 0;
            while i < n
                invariant
                    n == all.len(),
                    i <= n,
                    rest@ == all.subrange(i as int, n as int),
                    label_map(labels@) == label_map(all.subrange(0, i as int)),
                    keys_unique(labels@),
                decreases n - i,
            {
                let (k, v) = rest.remove(0);
                set_const_label(&mut labels, k, v);
                assert(all.subrange(0, i + 1).drop_last() == all.subrange(0, i as int));
                assert(all.subrange(i as int, n as int)[0] == all[i as int]);
                assert(all.subrange(i as int, n as int).remove(0) == all.subrange(i + 1, n as int));
                i = i + 1;
            }
            assert(all.subrange(0, n as int) == all);
            opts.common_opts.const_labels = labels;
        },
        Opt::ConstLabel(k, v) => {
            set_const_label(&mut opts.common_opts.const_labels, k, v);
        },
        Opt::Labels(names) => {
            opts.common_opts.variable_labels = names;
        },
        Opt::Label(name) => {
            let ghost before = opts.common_opts.variable_labels@;
            let ghost l = name@;
            opts.common_opts.variable_labels.push(name);
            assert(names_view(opts.common_opts.variable_labels@) =~= names_view(before).push(l));
        },
        Opt::Buckets(b) => {
            opts.buckets = Some(b);
        },
        Opt::Namespace(s) => {
            opts.common_opts.namespace = s;
        },
        Opt::Subsystem(s) => {
            opts.common_opts.subsystem = s;
        },
    }
}

/// Folds a list of options, first to last, into histogram options named
/// `name` with help text `help`. With no list, or an empty one, the result
/// has only the name and help, and the backend's default buckets.
pub fn to_histogram_opts(name: &str, help: &str, user_opts: Option<Vec<Opt>>) -> (r: HistogramOpts)
    ensures
        r@ == apply_all(base_model(name@, help@), given(user_opts)),
        keys_unique(r.common_opts.const_labels@),
{
    let mut opts = HistogramOpts {
        common_opts: CommonOpts {
            namespace: String::new(),
            subsystem: String::new(),
            name: name.to_owned(),
            help: help.to_owned(),
            const_labels: Vec::new(),
            variable_labels: Vec::new(),
        },
        buckets: None,
    };
    assert(opts@.common.variable_labels =~= Seq::empty());
    assert(opts@ == base_model(name@, help@));
    let mut rest = match user_opts {
        Some(v) => v,
        None => {
            return opts;
        },
    };
    let ghost all = rest@;
    let n = rest.len();
    let mut i: usize = 0;
    while i < n
        invariant
            n == all.len(),
            i <= n,
            rest@ == all.subrange(i as int, n as int),
            opts@ == apply_all(base_model(name@, help@), all.subrange(0, i as int)),
            keys_unique(opts.common_opts.const_labels@),
        decreases n - i,
    {
        let opt = rest.remove(0);
        apply(&mut opts, opt);
        assert(all.subrange(0, i + 1).drop_last() == all.subrange(0, i as int));
        assert(all.subrange(i as int, n as int).remove(0) == all.subrange(i + 1, n as int));
        i = i + 1;
    }
    assert(all.subrange(0, n as int) == all);
    opts
}

/// Folds a list of options, first to last, into the options of a metric
/// named `name` with help text `help`. `Buckets` has no effect here.
pub fn to_common_opts(name: &str, help: &str, user_opts: Option<Vec<Opt>>) -> (r: CommonOpts)
    ensures
        r@ == apply_all(base_model(name@, help@), given(user_opts)).common,
        keys_unique(r.const_labels@),
{
    let h = to_histogram_opts(name, help, user_opts);
    h.common_opts
}

/// Bucket bounds follow the last `Buckets` option of a list; a list with none
/// leaves the backend's default buckets.
pub proof fn buckets_follow_last_option(name: Seq<char>, help: Seq<char>, opts: Seq<Opt>, b: Vec<u64>)
    ensures
        (forall|i: int| 0 <= i < opts.len() ==> !(#[trigger] opts[i] is Buckets))
            ==> apply_all(base_model(name, help), opts).buckets.is_none(),
        apply_all(base_model(name, help), opts.push(Opt::Buckets(b))).buckets == Some(b@),
    decreases opts.len(),
{
    assert(opts.push(Opt::Buckets(b)).drop_last() == opts);
    if opts.len() > 0 {
        buckets_follow_last_option(name, help, opts.drop_last(), b);
        if forall|i: int| 0 <= i < opts.len() ==> !(#[trigger] opts[i] is Buckets) {
            assert forall|i: int| 0 <= i < opts.drop_last().len() implies !(#[trigger] opts.drop_last()[i] is Buckets) by {
                assert(opts.drop_last()[i] == opts[i]);
            }
            assert(!(opts[opts.len() - 1] is Buckets));
        }
    }
}

/// Whole-list options replace and single options add: constant labels set by
/// `ConstLabels` and then `ConstLabel` are the first map with the one pair
/// added, and variable labels set by `Labels` and then `Label` are the first
/// list with the one name appended; either way the other fields stay as they
/// were.
pub proof fn single_options_extend_whole_ones(
    m: HistogramModel,
    pairs: Vec<(String, String)>,
    k: String,
    v: String,
    names: Vec<String>,
    l: String,
)
    ensures
        apply_all(m, seq![Opt::ConstLabels(pairs), Opt::ConstLabel(k, v)]).common.const_labels
            == label_map(pairs@).insert(k@, v@),
        apply_all(m, seq![Opt::Labels(names), Opt::Label(l)]).common.variable_labels
            == names_view(names@).push(l@),
        apply_all(m, seq![Opt::ConstLabels(pairs), Opt::ConstLabel(k, v)]).common.variable_labels
            == m.common.variable_labels,
        apply_all(m, seq![Opt::Labels(names), Opt::Label(l)]).common.const_labels == m.common.const_labels,
{
    let s1 = seq![Opt::ConstLabels(pairs), Opt::ConstLabel(k, v)];
    let s2 = seq![Opt::Labels(names), Opt::Label(l)];
    assert(s1.drop_last().drop_last() == Seq::<Opt>::empty());
    assert(s2.drop_last().drop_last() == Seq::<Opt>::empty());
    assert(apply_all(m, s1.drop_last().drop_last()) == m);
    assert(apply_all(m, s2.drop_last().drop_last()) == m);
    assert(s1.drop_last().last() == s1[0]);
    assert(s2.drop_last().last() == s2[0]);
    assert(apply_all(m, s1.drop_last()) == apply_opt(m, s1[0]));
    assert(apply_all(m, s2.drop_last()) == apply_opt(m, s2[0]));
    assert(apply_all(m, s1) == apply_opt(apply_opt(m, s1[0]), s1[1]));
    assert(apply_all(m, s2) == apply_opt(apply_opt(m, s2[0]), s2[1]));
}

} // verus!
