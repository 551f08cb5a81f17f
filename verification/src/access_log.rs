//! The access-logging stage: it wraps the request body so every byte read
//! is counted, wraps the response body so every byte written is counted,
//! and emits exactly one log record per request — on response-body
//! completion or on early abandonment, whichever comes first. The
//! surrounding process ties `finish` to the wrapper's teardown on every
//! exit path, so the record cannot be skipped.

use vstd::prelude::*;

verus! {

/// Per-request metric: the request identifier, the byte counters, and
/// whether the log record has already been emitted.
#[derive(Clone, Copy, Debug, PartialEq, Eq, Structural)]
pub struct Metric {
    pub id: u64,
    pub request_size: u64,
    pub response_size: u64,
    pub finalized: bool,
}

/// The log record a finished request emits: its identifier and counters.
#[derive(Clone, Copy, Debug, PartialEq, Eq, Structural)]
pub struct LogRecord {
    pub id: u64,
    pub request_size: u64,
    pub response_size: u64,
}

/// Saturating byte-counter addition.
pub open spec fn counter_add(a: u64, n: u64) -> u64 {
    if a + n <= u64::MAX {
        (a + n) as u64
    } else {
        u64::MAX
    }
}

/// What finalizing a metric emits: a record of its counters when it has
/// never been finalized before, and nothing otherwise.
pub open spec fn finalize_emits(m: Metric) -> Option<LogRecord> {
    if m.finalized {
        None
    } else {
        Some(LogRecord { id: m.id, request_size: m.request_size, response_size: m.response_size })
    }
}

/// The metric after finalizing.
pub open spec fn finalized_metric(m: Metric) -> Metric {
    Metric { finalized: true, ..m }
}

/// Exactly one log record per request: finalizing a fresh metric emits a
/// record, and finalizing it ever again — however often — emits nothing
/// and changes nothing.
pub proof fn lemma_one_record_per_request(m: Metric)
    requires
        !m.finalized,
    ensures
        finalize_emits(m) is Some,
        finalize_emits(finalized_metric(m)) is None,
        finalized_metric(finalized_metric(m)) == finalized_metric(m),
{
}

impl Metric {
    /// A fresh metric for one request entering the stage.
    pub fn new(id: u64) -> (r: Metric)
        ensures
            r == (Metric { id, request_size: 0, response_size: 0, finalized: false }),
    {
        Metric { id, request_size: 0, response_size: 0, finalized: false }
    }

    /// Counts bytes read from the request body.
    pub fn record_request_chunk(&mut self, n: u64)
        ensures
            *final(self) == (Metric {
                request_size: counter_add(old(self).request_size, n),
                ..*old(self)
            }),
    {
        if n <= u64::MAX - self.request_size {
            self.request_size = self.request_size + n;
        } else {
            self.request_size = u64::MAX;
        }
    }

    /// Counts bytes written to the response body.
    pub fn record_response_chunk(&mut self, n: u64)
        ensures
            *final(self) == (Metric {
                response_size: counter_add(old(self).response_size, n),
                ..*old(self)
            }),
    {
        if n <= u64::MAX - self.response_size {
            self.response_size = self.response_size + n;
        } else {
            self.response_size = u64::MAX;
        }
    }

    /// Emits the log record: the counters and the identifier on the first
    /// call, nothing ever after.
    pub fn finalize(&mut self) -> (r: Option<LogRecord>)
        ensures
            *final(self) == finalized_metric(*old(self)),
            r == finalize_emits(*old(self)),
    {
        if self.finalized {
            None
        } else {
            self.finalized = true;
            Some(
                LogRecord {
                    id: self.id,
                    request_size: self.request_size,
                    response_size: self.response_size,
                },
            )
        }
    }
}

/// The request body wrapper: the inner body and the read counter.
#[derive(Debug)]
pub struct AccessLogRequestBody<B> {
    pub inner: B,
    pub request_size: u64,
}

impl<B> AccessLogRequestBody<B> {
    /// Wraps a request body with a zeroed read counter.
    pub fn new(inner: B) -> (r: Self)
        ensures
            r == (AccessLogRequestBody { inner, request_size: 0u64 }),
    {
        AccessLogRequestBody { inner, request_size: 0 }
    }

    /// Counts one chunk read from the inner body.
    pub fn record_chunk(&mut self, n: u64)
        ensures
            *final(self) == (AccessLogRequestBody {
                request_size: counter_add(old(self).request_size, n),
                ..*old(self)
            }),
    {
        if n <= u64::MAX - self.request_size {
            self.request_size = self.request_size + n;
        } else {
            self.request_size = u64::MAX;
        }
    }
}

/// The response body wrapper: the inner body and the metric it owns and
/// finalizes.
#[derive(Debug)]
pub struct AccessLogResponseBody<B> {
    pub inner: B,
    pub metric: Metric,
}

impl<B> AccessLogResponseBody<B> {
    /// Wraps a response body around the metric of its request.
    pub fn new(inner: B, metric: Metric) -> (r: Self)
        ensures
            r == (AccessLogResponseBody { inner, metric }),
    {
        AccessLogResponseBody { inner, metric }
    }

    /// Counts one chunk written to the inner body.
    pub fn record_chunk(&mut self, n: u64)
        ensures
            final(self).inner == old(self).inner,
            final(self).metric == (Metric {
                response_size: counter_add(old(self).metric.response_size, n),
                ..old(self).metric
            }),
    {
        self.metric.record_response_chunk(n);
    }

    /// Tears the wrapper down: emits the log record exactly once, whether
    /// the stream completed or was abandoned mid-transfer.
    pub fn finish(&mut self) -> (r: Option<LogRecord>)
        ensures
            final(self).inner == old(self).inner,
            final(self).metric == finalized_metric(old(self).metric),
            r == finalize_emits(old(self).metric),
    {
        self.metric.finalize()
    }
}

/// The access-logging stage as a layer.
#[derive(Debug, Clone, Copy)]
pub struct AccessLogLayer {}

/// The access-logging stage wrapped around an inner stage.
#[derive(Debug, Clone, Copy)]
pub struct AccessLog<S> {
    pub inner: S,
}

impl AccessLogLayer {
    /// A fresh access-logging layer.
    pub fn new() -> (r: Self)
        ensures
            r == (AccessLogLayer {  }),
    {
        AccessLogLayer {  }
    }

    /// Wraps an inner stage.
    pub fn layer<S>(&self, inner: S) -> (r: AccessLog<S>)
        ensures
            r == (AccessLog { inner }),
    {
        AccessLog::new(inner)
    }
}

impl<S> AccessLog<S> {
    /// Wraps an inner stage.
    pub fn new(inner: S) -> (r: Self)
        ensures
            r == (AccessLog { inner }),
    {
        AccessLog { inner }
    }

    /// The layer that builds this stage.
    pub fn layer() -> (r: AccessLogLayer)
        ensures
            r == (AccessLogLayer {  }),
    {
        AccessLogLayer::new()
    }

    /// Begins logging one request: wraps its body behind a zeroed read
    /// counter and creates the fresh metric the response side finalizes.
    pub fn begin<B>(&self, id: u64, body: B) -> (r: (AccessLogRequestBody<B>, Metric))
        ensures
            r.0 == (AccessLogRequestBody { inner: body, request_size: 0u64 }),
            r.1 == (Metric { id, request_size: 0, response_size: 0, finalized: false }),
    {
        (AccessLogRequestBody::new(body), Metric::new(id))
    }
}

} // verus!
