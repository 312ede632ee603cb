//! The two kernel queries: what is asked, and how a reply is validated and
//! decoded.
//!
//! A query names a subsystem and a metric, and the kernel answers by filling
//! a buffer and reporting how many bytes it wrote. The layouts decoded here
//! are those of a 64-bit little-endian system.

use vstd::prelude::*;

verus! {

/// Subsystem number of the kernel proper.
pub const CTL_KERN: i32 = 1;

/// Subsystem number of the virtual memory system.
pub const CTL_VM: i32 = 2;

/// Metric number of the boot time, under `CTL_KERN`.
pub const KERN_BOOTTIME: i32 = 21;

/// Metric number of the load averages, under `CTL_VM`.
pub const VM_LOADAVG: i32 = 2;

/// Bytes in a boot time reply: eight of seconds, four of microseconds, four
/// unused.
pub const BOOT_TIME_SIZE: usize = 16;

/// Bytes in a load average reply: three counters of four bytes, four unused,
/// eight of scale.
pub const LOAD_AVERAGE_SIZE: usize = 24;

/// What to ask the kernel: the two-step path of the metric, and the size of
/// the zeroed buffer to hand it.
#[derive(Clone, Copy, Debug, PartialEq, Eq)]
pub struct QueryRequest {
    pub subsystem: i32,
    pub metric: i32,
    pub reply_size: usize,
}

/// What came back from the kernel.
#[derive(Debug)]
pub struct QueryReply {
    /// The call's return value: zero on success.
    pub status: i32,
    /// The number of bytes the kernel says it wrote.
    pub written: usize,
    /// The buffer that was handed to the call.
    pub buffer: Vec<u8>,
}

/// Why a reply cannot be used.
#[derive(Clone, Copy, Debug, PartialEq, Eq)]
pub enum QueryError {
    /// The call itself reported an error.
    CallFailed,
    /// The kernel wrote fewer or more bytes than the structure has, or the
    /// buffer was not of the structure's size.
    SizeMismatch,
    /// The load averages came with a scale of zero.
    ZeroScale,
}

/// When the system started: seconds and microseconds since the epoch.
#[derive(Clone, Copy, Debug, PartialEq, Eq)]
pub struct BootTime {
    pub seconds: i64,
    pub microseconds: i32,
}

/// The kernel's three load counters and the divisor that scales them.
#[derive(Clone, Copy, Debug)]
pub struct LoadAverage {
    ldavg: [u32; 3],
    fscale: u64,
}

/// The unsigned number held in four bytes from `at` on, least significant
/// byte first.
pub open spec fn le_u32(bytes: Seq<u8>, at: int) -> int {
    bytes[at] + 0x100 * bytes[at + 1] + 0x1_0000 * bytes[at + 2] + 0x100_0000 * bytes[at + 3]
}

/// The unsigned number held in eight bytes from `at` on, least significant
/// byte first.
pub open spec fn le_u64(bytes: Seq<u8>, at: int) -> int {
    le_u32(bytes, at) + 0x1_0000_0000 * le_u32(bytes, at + 4)
}

/// The signed number held in four bytes from `at` on, in two's complement.
pub open spec fn le_i32(bytes: Seq<u8>, at: int) -> int {
    let value = le_u32(bytes, at);
    if value >= 0x8000_0000 {
        value - 0x1_0000_0000
    } else {
        value
    }
}

/// The signed number held in eight bytes from `at` on, in two's complement.
pub open spec fn le_i64(bytes: Seq<u8>, at: int) -> int {
    let value = le_u64(bytes, at);
    if value >= 0x8000_0000_0000_0000 {
        value - 0x1_0000_0000_0000_0000
    } else {
        value
    }
}

/// The fault, if any, that shows before a reply's contents are read: a
/// failed call, or a size other than the structure's.
pub open spec fn reply_fault(reply: QueryReply, size: usize) -> Option<QueryError> {
    if reply.status != 0 {
        Some(QueryError::CallFailed)
    } else if reply.written != size || reply.buffer@.len() != size {
        Some(QueryError::SizeMismatch)
    } else {
        None
    }
}

/// The fault, if any, of a load average reply: that of the reply as such,
/// or a scale of zero.
pub open spec fn load_average_fault(reply: QueryReply) -> Option<QueryError> {
    match reply_fault(reply, LOAD_AVERAGE_SIZE) {
        Some(e) => Some(e),
        None => if load_scale_of(reply.buffer@) == 0 {
            Some(QueryError::ZeroScale)
        } else {
            None
        },
    }
}

/// The three load counters that a buffer of `LOAD_AVERAGE_SIZE` bytes holds.
pub open spec fn load_counters_of(bytes: Seq<u8>) -> Seq<nat> {
    seq![le_u32(bytes, 0) as nat, le_u32(bytes, 4) as nat, le_u32(bytes, 8) as nat]
}

/// The scale that a buffer of `LOAD_AVERAGE_SIZE` bytes holds.
pub open spec fn load_scale_of(bytes: Seq<u8>) -> nat {
    le_u64(bytes, 16) as nat
}

/// The boot time that a buffer of `BOOT_TIME_SIZE` bytes holds.
pub open spec fn boot_time_of(bytes: Seq<u8>) -> BootTime {
    BootTime { seconds: le_i64(bytes, 0) as i64, microseconds: le_i32(bytes, 8) as i32 }
}

impl QueryError {
    /// The diagnostic for this error.
    pub open spec fn message(self) -> Seq<char> {
        match self {
            QueryError::CallFailed => "the kernel query failed"@,
            QueryError::SizeMismatch => "the kernel reply has the wrong size"@,
            QueryError::ZeroScale => "the load average scale is zero"@,
        }
    }

    /// The diagnostic for this error, one line without a newline.
    pub fn describe(&self) -> (s: &'static str)
        ensures
            s@ == self.message(),
    {
        match self {
            QueryError::CallFailed => "the kernel query failed",
            QueryError::SizeMismatch => "the kernel reply has the wrong size",
            QueryError::ZeroScale => "the load average scale is zero",
        }
    }
}

impl LoadAverage {
    /// The scale is not zero, so each quotient exists.
    #[verifier::type_invariant]
    pub closed spec fn wf(self) -> bool {
        self.fscale > 0
    }

    /// The three counters, in the kernel's order.
    pub closed spec fn counters(self) -> Seq<nat> {
        seq![self.ldavg@[0] as nat, self.ldavg@[1] as nat, self.ldavg@[2] as nat]
    }

    /// The divisor that turns a counter into a load.
    pub closed spec fn scale(self) -> nat {
        self.fscale as nat
    }

    /// Three counters and their scale; a scale of zero is refused.
    pub fn new(ldavg: [u32; 3], fscale: u64) -> (r: Result<LoadAverage, QueryError>)
        ensures
            fscale == 0 ==> r == Err::<LoadAverage, QueryError>(QueryError::ZeroScale),
            fscale != 0 ==> r is Ok,
            r matches Ok(load) ==> load.wf() && load.scale() == fscale && load.counters() == seq![
                ldavg@[0] as nat,
                ldavg@[1] as nat,
                ldavg@[2] as nat,
            ],
    {
        if fscale == 0 {
            Err(QueryError::ZeroScale)
        } else {
            Ok(LoadAverage { ldavg, fscale })
        }
    }

    /// The counter of slot `i`.
    pub fn ldavg(&self, i: usize) -> (v: u32)
        requires
            i < 3,
        ensures
            v == self.counters()[i as int],
    {
        self.ldavg[i]
    }

    /// The scale, which is never zero.
    pub fn fscale(&self) -> (v: u64)
        ensures
            v == self.scale(),
            v > 0,
    {
        proof {
            use_type_invariant(self);
        }
        self.fscale
    }
}

/// The request for the boot time.
pub fn boot_time_request() -> (q: QueryRequest)
    ensures
        q == (QueryRequest { subsystem: CTL_KERN, metric: KERN_BOOTTIME, reply_size: BOOT_TIME_SIZE }),
{
    QueryRequest { subsystem: CTL_KERN, metric: KERN_BOOTTIME, reply_size: BOOT_TIME_SIZE }
}

/// The request for the load averages.
pub fn load_average_request() -> (q: QueryRequest)
    ensures
        q == (QueryRequest { subsystem: CTL_VM, metric: VM_LOADAVG, reply_size: LOAD_AVERAGE_SIZE }),
{
    QueryRequest { subsystem: CTL_VM, metric: VM_LOADAVG, reply_size: LOAD_AVERAGE_SIZE }
}

/// The buffer to hand the kernel with a request: of the reply's size, and
/// zero throughout.
pub fn blank_buffer(request: &QueryRequest) -> (buffer: Vec<u8>)
    ensures
        buffer@.len() == request.reply_size,
        forall|i: int| 0 <= i < buffer@.len() ==> buffer@[i] == 0,
{
    let mut buffer: Vec<u8> = Vec::new();
    let mut filled: usize = 0;
    while filled < request.reply_size
        invariant
            filled <= request.reply_size,
            buffer@.len() == filled,
            forall|i: int| 0 <= i < buffer@.len() ==> buffer@[i] == 0,
        decreases request.reply_size - filled,
    {
        buffer.push(0);
        filled = filled + 1;
    }
    buffer
}

fn read_u32(buffer: &Vec<u8>, at: usize) -> (v: u32)
    requires
        at + 4 <= buffer.len(),
    ensures
        v == le_u32(buffer@, at as int),
{
    let b0: u32 = buffer[at] as u32;
    let b1: u32 = buffer[at + 1] as u32;
    let b2: u32 = buffer[at + 2] as u32;
    let b3: u32 = buffer[at + 3] as u32;
    b0 + 0x100 * b1 + 0x1_0000 * b2 + 0x100_0000 * b3
}

fn read_u64(buffer: &Vec<u8>, at: usize) -> (v: u64)
    requires
        at + 8 <= buffer.len(),
    ensures
        v == le_u64(buffer@, at as int),
{
    let low: u64 = read_u32(buffer, at) as u64;
    let high: u64 = read_u32(buffer, at + 4) as u64;
    low + 0x1_0000_0000 * high
}

fn read_i32(buffer: &Vec<u8>, at: usize) -> (v: i32)
    requires
        at + 4 <= buffer.len(),
    ensures
        v == le_i32(buffer@, at as int),
{
    let value: u32 = read_u32(buffer, at);
    if value >= 0x8000_0000 {
        ((value - 0x8000_0000) as i32) + i32::MIN
    } else {
        value as i32
    }
}

fn read_i64(buffer: &Vec<u8>, at: usize) -> (v: i64)
    requires
        at + 8 <= buffer.len(),
    ensures
        v == le_i64(buffer@, at as int),
{
    let value: u64 = read_u64(buffer, at);
    if value >= 0x8000_0000_0000_0000 {
        ((value - 0x8000_0000_0000_0000) as i64) + i64::MIN
    } else {
        value as i64
    }
}

/// The fault that shows before the contents are read, if there is one.
fn inspect_reply(reply: &QueryReply, size: usize) -> (r: Option<QueryError>)
    ensures
        r == reply_fault(*reply, size),
{
    if reply.status != 0 {
        Some(QueryError::CallFailed)
    } else if reply.written != size || reply.buffer.len() != size {
        Some(QueryError::SizeMismatch)
    } else {
        None
    }
}

/// Validates and decodes the reply to the boot time request.
///
/// A failed call is reported first, then a wrong size; only a reply of
/// exactly `BOOT_TIME_SIZE` bytes is read.
pub fn decode_boot_time(reply: &QueryReply) -> (r: Result<BootTime, QueryError>)
    ensures
        r == match reply_fault(*reply, BOOT_TIME_SIZE) {
            Some(e) => Err::<BootTime, QueryError>(e),
            None => Ok(boot_time_of(reply.buffer@)),
        },
{
    match inspect_reply(reply, BOOT_TIME_SIZE) {
        Some(e) => Err(e),
        None => {
            let seconds = read_i64(&reply.buffer, 0);
            let microseconds = read_i32(&reply.buffer, 8);
            Ok(BootTime { seconds, microseconds })
        },
    }
}

/// Validates and decodes the reply to the load average request.
///
/// A failed call is reported first, then a wrong size, then a scale of
/// zero; only a reply of exactly `LOAD_AVERAGE_SIZE` bytes is read.
pub fn decode_load_average(reply: &QueryReply) -> (r: Result<LoadAverage, QueryError>)
    ensures
        match r {
            Ok(load) => {
                &&& load_average_fault(*reply) is None
                &&& load.wf()
                &&& load.counters() == load_counters_of(reply.buffer@)
                &&& load.scale() == load_scale_of(reply.buffer@)
            },
            Err(e) => load_average_fault(*reply) == Some(e),
        },
{
    match inspect_reply(reply, LOAD_AVERAGE_SIZE) {
        Some(e) => Err(e),
        None => {
            let first = read_u32(&reply.buffer, 0);
            let second = read_u32(&reply.buffer, 4);
            let third = read_u32(&reply.buffer, 8);
            let fscale = read_u64(&reply.buffer, 16);
            LoadAverage::new([first, second, third], fscale)
        },
    }
}

} // verus!
