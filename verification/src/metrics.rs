//! Counters of the calls made on a connection handle, by call type and by
//! the stage at which a call failed.
use vstd::prelude::*;

verus! {

/// The two kinds of call.
#[derive(Clone, Copy, Debug, PartialEq, Eq, Structural)]
pub enum RequestType {
    /// A request that waits for one response.
    Rpc,
    /// A one-way message.
    Push,
}

/// The stream operations of a call, in the order in which they happen.
#[derive(Clone, Copy, Debug, PartialEq, Eq, Structural)]
pub enum Stage {
    Open,
    Write,
    Finish,
    Read,
}

impl RequestType {
    /// The label under which calls of this type are counted.
    pub fn label(&self) -> (r: &'static str)
        ensures
            r@ == match *self {
                RequestType::Rpc => "rpc"@,
                RequestType::Push => "push"@,
            },
    {
        match self {
            RequestType::Rpc => "rpc",
            RequestType::Push => "push",
        }
    }
}

impl Stage {
    /// The label under which failures at this stage are counted.
    pub fn label(&self) -> (r: &'static str)
        ensures
            r@ == match *self {
                Stage::Open => "open"@,
                Stage::Write => "write"@,
                Stage::Finish => "finish"@,
                Stage::Read => "read"@,
            },
    {
        match self {
            Stage::Open => "open",
            Stage::Write => "write",
            Stage::Finish => "finish",
            Stage::Read => "read",
        }
    }
}

/// A counter one step on. A counter that has reached the largest value
/// stays there, so that no counter ever goes down.
pub open spec fn bump(count: u64) -> u64 {
    if count < u64::MAX {
        (count + 1) as u64
    } else {
        count
    }
}

/// The failures of one call type, by stage.
#[derive(Clone, Copy, Debug, PartialEq, Eq, Structural)]
pub struct StageCounters {
    pub open: u64,
    pub write: u64,
    pub finish: u64,
    pub read: u64,
}

impl StageCounters {
    /// The counter of a stage.
    pub open spec fn at(self, stage: Stage) -> u64 {
        match stage {
            Stage::Open => self.open,
            Stage::Write => self.write,
            Stage::Finish => self.finish,
            Stage::Read => self.read,
        }
    }

    /// These counters after one more failure at `stage`.
    pub open spec fn with_failure(self, stage: Stage) -> StageCounters {
        match stage {
            Stage::Open => StageCounters { open: bump(self.open), ..self },
            Stage::Write => StageCounters { write: bump(self.write), ..self },
            Stage::Finish => StageCounters { finish: bump(self.finish), ..self },
            Stage::Read => StageCounters { read: bump(self.read), ..self },
        }
    }
}

/// The counters of one connection handle.
#[derive(Clone, Copy, Debug, PartialEq, Eq, Structural)]
pub struct QuicTransportMetrics {
    pub rpc_requests: u64,
    pub push_requests: u64,
    pub rpc_errors: StageCounters,
    pub push_errors: StageCounters,
}

fn bumped(count: u64) -> (r: u64)
    ensures
        r == bump(count),
{
    if count < u64::MAX {
        count + 1
    } else {
        count
    }
}

impl QuicTransportMetrics {
    /// Calls of a type that were started.
    pub open spec fn requests_total(self, request_type: RequestType) -> u64 {
        match request_type {
            RequestType::Rpc => self.rpc_requests,
            RequestType::Push => self.push_requests,
        }
    }

    /// Calls of a type that failed at a stage.
    pub open spec fn errors_total(self, request_type: RequestType, stage: Stage) -> u64 {
        match request_type {
            RequestType::Rpc => self.rpc_errors.at(stage),
            RequestType::Push => self.push_errors.at(stage),
        }
    }

    /// These metrics after one more call of `request_type` was started.
    pub open spec fn with_request(self, request_type: RequestType) -> QuicTransportMetrics {
        match request_type {
            RequestType::Rpc => QuicTransportMetrics {
                rpc_requests: bump(self.rpc_requests),
                ..self
            },
            RequestType::Push => QuicTransportMetrics {
                push_requests: bump(self.push_requests),
                ..self
            },
        }
    }

    /// These metrics after one more call of `request_type` failed at `stage`.
    pub open spec fn with_error(self, request_type: RequestType, stage: Stage)
        -> QuicTransportMetrics {
        match request_type {
            RequestType::Rpc => QuicTransportMetrics {
                rpc_errors: self.rpc_errors.with_failure(stage),
                ..self
            },
            RequestType::Push => QuicTransportMetrics {
                push_errors: self.push_errors.with_failure(stage),
                ..self
            },
        }
    }

    /// The metrics of a handle on which no call was made.
    pub open spec fn zero() -> QuicTransportMetrics {
        let none = StageCounters { open: 0, write: 0, finish: 0, read: 0 };
        QuicTransportMetrics { rpc_requests: 0, push_requests: 0, rpc_errors: none, push_errors: none }
    }

    /// Metrics with every counter at zero.
    pub fn new() -> (r: QuicTransportMetrics)
        ensures
            r == Self::zero(),
    {
        let zero = StageCounters { open: 0, write: 0, finish: 0, read: 0 };
        QuicTransportMetrics { rpc_requests: 0, push_requests: 0, rpc_errors: zero, push_errors: zero }
    }

    /// Reads the counter of started calls of a type.
    pub fn connection_handle_requests_total(&self, request_type: RequestType) -> (r: u64)
        ensures
            r == self.requests_total(request_type),
    {
        match request_type {
            RequestType::Rpc => self.rpc_requests,
            RequestType::Push => self.push_requests,
        }
    }

    /// Reads the counter of calls of a type that failed at a stage.
    pub fn connection_handle_errors_total(&self, request_type: RequestType, stage: Stage) -> (r:
        u64)
        ensures
            r == self.errors_total(request_type, stage),
    {
        let counters = match request_type {
            RequestType::Rpc => self.rpc_errors,
            RequestType::Push => self.push_errors,
        };
        match stage {
            Stage::Open => counters.open,
            Stage::Write => counters.write,
            Stage::Finish => counters.finish,
            Stage::Read => counters.read,
        }
    }

    /// Counts one started call.
    pub fn count_request(&mut self, request_type: RequestType)
        ensures
            *final(self) == old(self).with_request(request_type),
    {
        match request_type {
            RequestType::Rpc => {
                self.rpc_requests = bumped(self.rpc_requests);
            },
            RequestType::Push => {
                self.push_requests = bumped(self.push_requests);
            },
        }
    }

    /// Counts one call that failed at a stage.
    pub fn count_error(&mut self, request_type: RequestType, stage: Stage)
        ensures
            *final(self) == old(self).with_error(request_type, stage),
    {
        let mut counters = match request_type {
            RequestType::Rpc => self.rpc_errors,
            RequestType::Push => self.push_errors,
        };
        match stage {
            Stage::Open => {
                counters.open = bumped(counters.open);
            },
            Stage::Write => {
                counters.write = bumped(counters.write);
            },
            Stage::Finish => {
                counters.finish = bumped(counters.finish);
            },
            Stage::Read => {
                counters.read = bumped(counters.read);
            },
        }
        match request_type {
            RequestType::Rpc => {
                self.rpc_errors = counters;
            },
            RequestType::Push => {
                self.push_errors = counters;
            },
        }
    }
}

/// Counting a started call moves the counter of its type one step and
/// leaves every other counter as it was.
pub proof fn request_moves_one_counter(
    m: QuicTransportMetrics,
    counted: RequestType,
    t: RequestType,
    s: Stage,
)
    ensures
        m.with_request(counted).requests_total(counted) == bump(m.requests_total(counted)),
        t != counted ==> m.with_request(counted).requests_total(t) == m.requests_total(t),
        m.with_request(counted).errors_total(t, s) == m.errors_total(t, s),
{
}

/// Counting a failure moves the counter of its type and stage one step and
/// leaves every other counter as it was.
pub proof fn error_moves_one_counter(
    m: QuicTransportMetrics,
    counted_type: RequestType,
    counted_stage: Stage,
    t: RequestType,
    s: Stage,
)
    ensures
        m.with_error(counted_type, counted_stage).errors_total(counted_type, counted_stage)
            == bump(m.errors_total(counted_type, counted_stage)),
        (t != counted_type || s != counted_stage) ==> m.with_error(
            counted_type,
            counted_stage,
        ).errors_total(t, s) == m.errors_total(t, s),
        m.with_error(counted_type, counted_stage).requests_total(t) == m.requests_total(t),
{
}

/// No counter ever goes down.
pub proof fn counters_are_monotonic(
    m: QuicTransportMetrics,
    counted_type: RequestType,
    counted_stage: Stage,
    t: RequestType,
    s: Stage,
)
    ensures
        m.with_request(counted_type).requests_total(t) >= m.requests_total(t),
        m.with_error(counted_type, counted_stage).errors_total(t, s) >= m.errors_total(t, s),
{
}

} // verus!
