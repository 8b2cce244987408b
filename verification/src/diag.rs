//! The status-and-log protocol spoken with the graphics driver.
//!
//! After a compile or a link request, the driver is asked for a status word.
//! A status of one means success. Any other status means failure, and the
//! diagnostic log is then retrieved: first its byte length is queried, then a
//! buffer of that length is handed to the driver to fill, and the filled
//! bytes — up to the NUL terminator the driver writes — are the diagnostic
//! text. The same protocol serves shader compilation and program linking.
//!
//! [`DiagState::step`] is the protocol's decision function: from the current
//! state and the driver's reply it gives the next state and the next request
//! to put to the driver. The host only performs the requests and feeds the
//! replies back; every decision is made, and verified, here.

use vstd::prelude::*;

verus! {

/// The driver's status word for a successful compile or link.
pub const STATUS_OK: i32 = 1;

/// A reply read back from the driver.
#[derive(Debug)]
pub enum DiagEvent {
    /// The compile or link status word.
    Status(i32),
    /// The byte length of the diagnostic log, terminator included.
    LogLength(i32),
    /// The buffer the driver filled with the diagnostic log.
    LogBytes(Vec<u8>),
}

/// The next request to put to the driver, or the end of the protocol.
#[derive(Debug)]
pub enum DiagAction {
    /// Query the byte length of the diagnostic log.
    QueryLogLength,
    /// Hand the driver a buffer of `capacity` bytes to fill with the log.
    ReadLog { capacity: usize },
    /// The protocol is over; the state is terminal.
    Done,
}

/// Where the conversation stands.
#[derive(Debug)]
pub enum DiagState {
    /// The status word has not been read yet.
    AwaitStatus,
    /// The status reported failure; the log's length is being queried.
    AwaitLogLength,
    /// A buffer of `capacity` bytes is out with the driver to be filled.
    AwaitLogBytes { capacity: usize },
    /// The operation succeeded; there is no log to read.
    Succeeded,
    /// The operation failed; `log` holds the diagnostic text's bytes.
    Failed { log: Vec<u8> },
}

/// How many buffer bytes a driver-reported log length calls for.
///
/// Drivers report the length as a signed word; anything at or below zero
/// means there is nothing to read.
pub open spec fn spec_log_capacity(len: i32) -> nat {
    if len <= 0 {
        0
    } else {
        len as nat
    }
}

/// The index of the first NUL byte, or the length if there is none.
pub open spec fn first_nul(s: Seq<u8>) -> int
    decreases s.len(),
{
    if s.len() == 0 {
        0
    } else if s[0] == 0 {
        0
    } else {
        1 + first_nul(s.skip(1))
    }
}

/// The diagnostic text in a driver-filled buffer: the bytes before the NUL
/// terminator the driver wrote, or the whole buffer if it wrote none.
pub open spec fn spec_clip_log(s: Seq<u8>) -> Seq<u8> {
    s.take(first_nul(s))
}

/// `first_nul` never points outside the sequence.
pub proof fn lemma_first_nul_in_bounds(s: Seq<u8>)
    ensures
        0 <= first_nul(s) <= s.len(),
    decreases s.len(),
{
    if s.len() != 0 && s[0] != 0 {
        lemma_first_nul_in_bounds(s.skip(1));
    }
}

/// `first_nul` is the one index with no NUL before it and a NUL, or the
/// sequence's end, at it.
pub proof fn lemma_first_nul_at(s: Seq<u8>, i: int)
    requires
        0 <= i <= s.len(),
        forall|j: int| 0 <= j < i ==> s[j] != 0,
        i == s.len() || s[i] == 0,
    ensures
        first_nul(s) == i,
    decreases i,
{
    if i == 0 {
        if s.len() != 0 && s[0] != 0 {
            lemma_first_nul_in_bounds(s.skip(1));
        }
    } else {
        assert(s[0] != 0);
        let t = s.skip(1);
        assert forall|j: int| 0 <= j < i - 1 implies t[j] != 0 by {
            assert(t[j] == s[j + 1]);
        }
        if i < s.len() {
            assert(t[i - 1] == s[i]);
        }
        lemma_first_nul_at(t, i - 1);
    }
}

/// Round trip of the log protocol: a log the driver terminates with a NUL
/// byte is recovered exactly, whatever it holds. In particular a zero-length
/// log comes back as empty text, not as a missing value.
pub proof fn lemma_log_round_trip(log: Seq<u8>)
    requires
        forall|j: int| 0 <= j < log.len() ==> log[j] != 0,
    ensures
        spec_clip_log(log.push(0)) == log,
{
    let s = log.push(0);
    lemma_first_nul_at(s, log.len() as int);
    assert(spec_clip_log(s) =~= log);
}

/// The number of buffer bytes a driver-reported log length calls for.
pub fn log_capacity(len: i32) -> (r: usize)
    ensures
        r == spec_log_capacity(len),
{
    if len <= 0 {
        0
    } else {
        len as usize
    }
}

/// A buffer for the driver to fill: `capacity` blank bytes.
pub fn log_buffer(capacity: usize) -> (v: Vec<u8>)
    ensures
        v@.len() == capacity,
        forall|j: int| 0 <= j < capacity ==> v@[j] == 32u8,
{
    let mut v: Vec<u8> = Vec::new();
    let mut i: usize = 0;
    while i < capacity
        invariant
            i <= capacity,
            v@.len() == i,
            forall|j: int| 0 <= j < i ==> v@[j] == 32u8,
        decreases capacity - i,
    {
        v.push(32u8);
        i += 1;
    }
    v
}

/// The diagnostic text in a driver-filled buffer, clipped at the NUL
/// terminator the driver wrote.
pub fn clip_log(bytes: Vec<u8>) -> (r: Vec<u8>)
    ensures
        r@ == spec_clip_log(bytes@),
{
    let mut bytes = bytes;
    let mut i: usize = 0;
    while i < bytes.len() && bytes[i] != 0
        invariant
            i <= bytes@.len(),
            forall|j: int| 0 <= j < i ==> bytes@[j] != 0,
        decreases bytes@.len() - i,
    {
        i += 1;
    }
    proof {
        lemma_first_nul_at(bytes@, i as int);
    }
    bytes.truncate(i);
    bytes
}

impl DiagState {
    /// Whether the conversation is over.
    pub open spec fn is_terminal(self) -> bool {
        self is Succeeded || self is Failed
    }

    /// The reply the current state is waiting for.
    pub open spec fn expects(self, event: DiagEvent) -> bool {
        match (self, event) {
            (DiagState::AwaitStatus, DiagEvent::Status(_)) => true,
            (DiagState::AwaitLogLength, DiagEvent::LogLength(_)) => true,
            (DiagState::AwaitLogBytes { .. }, DiagEvent::LogBytes(_)) => true,
            _ => false,
        }
    }

    /// Advance the protocol by one driver reply: the next state, and the
    /// next request to put to the driver.
    ///
    /// A status other than [`STATUS_OK`] never passes for success: it always
    /// leads into log retrieval and ends in [`DiagState::Failed`].
    pub fn step(self, event: DiagEvent) -> (r: (DiagState, DiagAction))
        requires
            self.expects(event),
        ensures
            self is AwaitStatus ==> (event matches DiagEvent::Status(s) ==> {
                if s == STATUS_OK {
                    r.0 is Succeeded && r.1 is Done
                } else {
                    r.0 is AwaitLogLength && r.1 is QueryLogLength
                }
            }),
            self is AwaitLogLength ==> (event matches DiagEvent::LogLength(len) ==> {
                &&& (r.0 matches DiagState::AwaitLogBytes { capacity } && capacity
                    == spec_log_capacity(len))
                &&& (r.1 matches DiagAction::ReadLog { capacity } && capacity
                    == spec_log_capacity(len))
            }),
            self is AwaitLogBytes ==> (event matches DiagEvent::LogBytes(bytes) ==> {
                &&& (r.0 matches DiagState::Failed { log } && log@ == spec_clip_log(bytes@))
                &&& r.1 is Done
            }),
    {
        match (self, event) {
            (DiagState::AwaitStatus, DiagEvent::Status(s)) => {
                if s == STATUS_OK {
                    (DiagState::Succeeded, DiagAction::Done)
                } else {
                    (DiagState::AwaitLogLength, DiagAction::QueryLogLength)
                }
            },
            (DiagState::AwaitLogLength, DiagEvent::LogLength(len)) => {
                let capacity = log_capacity(len);
                (DiagState::AwaitLogBytes { capacity }, DiagAction::ReadLog { capacity })
            },
            (DiagState::AwaitLogBytes { .. }, DiagEvent::LogBytes(bytes)) => {
                (DiagState::Failed { log: clip_log(bytes) }, DiagAction::Done)
            },
            _ => vstd::pervasive::unreached(),
        }
    }
}

} // verus!
