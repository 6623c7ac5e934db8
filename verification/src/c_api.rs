use vstd::prelude::*;

verus! {

/// How grave a log record is. The gravest level has the smallest number.
#[derive(Debug, Copy, Clone, PartialEq, Eq, Hash, Structural)]
pub enum SayLevel {
    Fatal,
    System,
    Error,
    Crit,
    Warn,
    Info,
    Debug,
}

impl SayLevel {
    /// The number of this level.
    pub open spec fn code(self) -> u32 {
        match self {
            SayLevel::Fatal => 0,
            SayLevel::System => 1,
            SayLevel::Error => 2,
            SayLevel::Crit => 3,
            SayLevel::Warn => 4,
            SayLevel::Info => 5,
            SayLevel::Debug => 6,
        }
    }

    /// The number of this level, as the logger takes it.
    pub fn to_u32(&self) -> (n: u32)
        ensures
            n == self.code(),
    {
        match self {
            SayLevel::Fatal => 0,
            SayLevel::System => 1,
            SayLevel::Error => 2,
            SayLevel::Crit => 3,
            SayLevel::Warn => 4,
            SayLevel::Info => 5,
            SayLevel::Debug => 6,
        }
    }

    /// The level that the number `n` stands for, if there is one.
    pub fn from_u32(n: u32) -> (r: Option<SayLevel>)
        ensures
            r.is_some() <==> n <= 6,
            r matches Some(l) ==> l.code() == n,
    {
        match n {
            0 => Some(SayLevel::Fatal),
            1 => Some(SayLevel::System),
            2 => Some(SayLevel::Error),
            3 => Some(SayLevel::Crit),
            4 => Some(SayLevel::Warn),
            5 => Some(SayLevel::Info),
            6 => Some(SayLevel::Debug),
            _ => None,
        }
    }
}

/// The events on a socket that a fiber can wait for. The numbers are single
/// bits, so that a set of events is their sum.
#[derive(Debug, Copy, Clone, PartialEq, Eq, Hash, Structural)]
pub enum CoioFlags {
    Read,
    Write,
}

impl CoioFlags {
    /// The bit of this event.
    pub open spec fn bits(self) -> u32 {
        match self {
            CoioFlags::Read => 1,
            CoioFlags::Write => 2,
        }
    }

    /// The bit of this event, as the event loop takes it.
    pub fn to_u32(&self) -> (n: u32)
        ensures
            n == self.bits(),
    {
        match self {
            CoioFlags::Read => 1,
            CoioFlags::Write => 2,
        }
    }
}

/// How an index is walked, relative to a key `x`.
#[derive(Debug, Copy, Clone, PartialEq, Eq, Structural)]
pub enum IteratorType {
    /// key == x, in ascending order
    Eq,
    /// key == x, in descending order
    Req,
    /// all tuples
    All,
    /// key < x
    LT,
    /// key <= x
    LE,
    /// key >= x
    GE,
    /// key > x
    GT,
    /// all bits of x are set in the key
    BitsAllSet,
    /// at least one bit of x is set in the key
    BitsAnySet,
    /// no bit of x is set in the key
    BitsAllNotSet,
    /// the key overlaps x
    Ovelaps,
    /// tuples by ascending distance from the point x
    Neigbor,
}

impl IteratorType {
    /// The number of this way of walking.
    pub open spec fn code(self) -> i32 {
        match self {
            IteratorType::Eq => 0,
            IteratorType::Req => 1,
            IteratorType::All => 2,
            IteratorType::LT => 3,
            IteratorType::LE => 4,
            IteratorType::GE => 5,
            IteratorType::GT => 6,
            IteratorType::BitsAllSet => 7,
            IteratorType::BitsAnySet => 8,
            IteratorType::BitsAllNotSet => 9,
            IteratorType::Ovelaps => 10,
            IteratorType::Neigbor => 11,
        }
    }

    /// The number of this way of walking, as the index takes it.
    pub fn to_i32(&self) -> (n: i32)
        ensures
            n == self.code(),
    {
        match self {
            IteratorType::Eq => 0,
            IteratorType::Req => 1,
            IteratorType::All => 2,
            IteratorType::LT => 3,
            IteratorType::LE => 4,
            IteratorType::GE => 5,
            IteratorType::GT => 6,
            IteratorType::BitsAllSet => 7,
            IteratorType::BitsAnySet => 8,
            IteratorType::BitsAllNotSet => 9,
            IteratorType::Ovelaps => 10,
            IteratorType::Neigbor => 11,
        }
    }
}

/// What the data store recorded of a failed call: the number of the error
/// code, the message, and the name of the kind of error.
#[derive(Debug)]
pub struct BoxError {
    pub code: u32,
    pub message: String,
    pub error_type: String,
}

} // verus!
