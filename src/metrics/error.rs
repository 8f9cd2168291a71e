use vstd::prelude::*;

verus! {

/// prometheus's `Error`, with its variants, so that an error can be told
/// apart by kind.
#[verifier::external_type_specification]
pub struct ExPrometheusError(prometheus::Error);

/// std's I/O error, which one variant of prometheus's `Error` carries; it is
/// only passed along.
#[verifier::external_type_specification]
#[verifier::external_body]
pub struct ExIoError(std::io::Error);

/// Errors raised while registering or writing a metric.
#[derive(Debug)]
pub enum MetricError {
    /// A metric of this name is already registered.
    AlreadyRegistered {
        /// The name used twice.
        name: String,
    },
    /// A write gave a number of label values other than the number of label
    /// names the metric was registered with.
    IncorrectLabelCount {
        /// The name of the metric.
        name: String,
        /// The number of label names of the metric.
        expected: usize,
        /// The number of label values given.
        got: usize,
    },
    /// Any other failure of the metrics backend.
    Unknown {
        /// The name of the metric.
        name: String,
        /// The backend's own error.
        source: prometheus::Error,
    },
}

impl MetricError {
    /// The name of the metric that the error is about.
    pub open spec fn metric_name(&self) -> Seq<char> {
        match self {
            MetricError::AlreadyRegistered { name } => name@,
            MetricError::IncorrectLabelCount { name, .. } => name@,
            MetricError::Unknown { name, .. } => name@,
        }
    }

    /// The name of the metric that the error is about, as a string.
    pub open spec fn name_string(&self) -> String {
        match self {
            MetricError::AlreadyRegistered { name } => *name,
            MetricError::IncorrectLabelCount { name, .. } => *name,
            MetricError::Unknown { name, .. } => *name,
        }
    }

    /// The error for metric `name` that stands for the backend's error `e`:
    /// a second registration and a wrong number of label values have errors
    /// of their own; anything else is kept as the cause of `Unknown`.
    pub open spec fn for_backend(name: String, e: prometheus::Error) -> MetricError {
        match e {
            prometheus::Error::AlreadyReg => MetricError::AlreadyRegistered { name },
            prometheus::Error::InconsistentCardinality { expect, got } => MetricError::IncorrectLabelCount {
                name,
                expected: expect,
                got,
            },
            _ => MetricError::Unknown { name, source: e },
        }
    }

    /// Maps the backend's error `e` about metric `name` to the library's own.
    pub fn from(name: String, e: prometheus::Error) -> (r: MetricError)
        ensures
            r == MetricError::for_backend(name, e),
            r.metric_name() == name@,
    {
        match e {
            prometheus::Error::AlreadyReg => MetricError::AlreadyRegistered { name },
            prometheus::Error::InconsistentCardinality { expect, got } => MetricError::IncorrectLabelCount {
                name,
                expected: expect,
                got,
            },
            _ => MetricError::Unknown { name, source: e },
        }
    }
}

} // verus!
