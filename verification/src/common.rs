//! Identifiers and small value types shared by the SECS-I and HSMS layers.
use vstd::prelude::*;

verus! {

/// HSMS session identifier (two bytes on the wire).
#[derive(Debug, Clone, Copy, PartialEq, Eq, Structural)]
pub struct SessionId(pub u16);

/// SECS-I device identifier (fifteen bits on the wire).
#[derive(Debug, Clone, Copy, PartialEq, Eq, Structural)]
pub struct DeviceId(pub u16);

/// Four-byte transaction identifier carried by every message.
#[derive(Debug, Clone, Copy, PartialEq, Eq, Structural)]
pub struct SystemByte(pub u32);

/// Identifier handed out with every started timeout.
#[derive(Debug, Clone, Copy, PartialEq, Eq, Structural)]
pub struct TimeoutId(pub u64);

/// SECS-II stream number (seven bits on the wire).
#[derive(Debug, Clone, Copy, PartialEq, Eq, Structural)]
pub struct StreamId(pub u8);

/// SECS-II function number. Odd functions are primary messages, even ones replies.
#[derive(Debug, Clone, Copy, PartialEq, Eq, Structural)]
pub struct FunctionId(pub u8);

/// Whether a function number denotes a primary message.
pub open spec fn is_primary_function(f: FunctionId) -> bool {
    f.0 % 2 == 1
}

/// The function number of the reply to a primary message.
pub open spec fn reply_function(f: FunctionId) -> FunctionId {
    FunctionId(((f.0 as int + 1) % 256) as u8)
}

impl FunctionId {
    pub fn is_primary(&self) -> (r: bool)
        ensures
            r == is_primary_function(*self),
    {
        self.0 % 2 == 1
    }

    pub fn is_secondary(&self) -> (r: bool)
        ensures
            r == !is_primary_function(*self),
    {
        self.0 % 2 == 0
    }

    /// Function number of the secondary message answering this one.
    pub fn reply(&self) -> (r: FunctionId)
        ensures
            r == reply_function(*self),
    {
        FunctionId(self.0.wrapping_add(1))
    }
}

/// Which side opened a transaction.
#[derive(Debug, Clone, Copy, PartialEq, Eq, Structural)]
pub enum TransactionOwner {
    Local,
    Remote,
}

/// Direction of a message relative to this side.
#[derive(Debug, Clone, Copy, PartialEq, Eq, Structural)]
pub enum TransferContext {
    Send,
    Recv,
}

/// Identifies one primary/secondary exchange.
#[derive(Debug, Clone, Copy, PartialEq, Eq, Structural)]
pub struct TransactionKey {
    pub owner: TransactionOwner,
    pub system_byte: SystemByte,
}

/// The owner of the transaction a message belongs to: a primary we send, or a
/// secondary we receive, belongs to a transaction that we opened.
pub open spec fn owner_for(context: TransferContext, is_primary: bool) -> TransactionOwner {
    if (context == TransferContext::Send) == is_primary {
        TransactionOwner::Local
    } else {
        TransactionOwner::Remote
    }
}

/// A transaction belongs to the side that sent its primary: our primaries
/// and the replies we receive to them are ours, received primaries and our
/// replies to them are the peer's.
pub proof fn lemma_transaction_owner()
    ensures
        owner_for(TransferContext::Send, true) == TransactionOwner::Local,
        owner_for(TransferContext::Recv, false) == TransactionOwner::Local,
        owner_for(TransferContext::Recv, true) == TransactionOwner::Remote,
        owner_for(TransferContext::Send, false) == TransactionOwner::Remote,
{
}

/// The reply to a primary (an odd function) is an even function: the next
/// one, or 0 after 255.
pub proof fn lemma_reply_of_primary_is_secondary(f: FunctionId)
    requires
        is_primary_function(f),
    ensures
        f.0 < 255 ==> reply_function(f).0 == f.0 + 1,
        f.0 == 255 ==> reply_function(f).0 == 0,
        !is_primary_function(reply_function(f)),
{
}

impl TransactionKey {
    pub fn new(owner: TransactionOwner, system_byte: SystemByte) -> (r: TransactionKey)
        ensures
            r.owner == owner,
            r.system_byte == system_byte,
    {
        TransactionKey { owner, system_byte }
    }

    /// The key of the transaction that a message with the given direction and
    /// kind belongs to.
    pub fn from(context: TransferContext, is_primary: bool, system_byte: SystemByte) -> (r:
        TransactionKey)
        ensures
            r.owner == owner_for(context, is_primary),
            r.system_byte == system_byte,
    {
        let is_send = match context {
            TransferContext::Send => true,
            TransferContext::Recv => false,
        };
        let owner = if is_send == is_primary {
            TransactionOwner::Local
        } else {
            TransactionOwner::Remote
        };
        TransactionKey { owner, system_byte }
    }
}

/// The SECS timers. T3 (reply) and T4 (inter-block) belong to a transaction.
#[derive(Debug, Clone, Copy, PartialEq, Eq, Structural)]
pub enum SecsTimeoutUnit {
    T1,
    T2,
    T3(TransactionKey),
    T4(TransactionKey),
    T5,
    T6,
    T7,
    T8,
}

impl SecsTimeoutUnit {
    /// The transaction that a T3 or T4 timer watches.
    pub fn to_transaction_key(&self) -> (r: Option<TransactionKey>)
        ensures
            r == match *self {
                SecsTimeoutUnit::T3(k) => Some(k),
                SecsTimeoutUnit::T4(k) => Some(k),
                _ => None,
            },
    {
        match self {
            SecsTimeoutUnit::T3(k) => Some(*k),
            SecsTimeoutUnit::T4(k) => Some(*k),
            _ => None,
        }
    }
}

/// A started timeout: the timer it runs and the id it was issued under.
#[derive(Debug, Clone, Copy, PartialEq, Eq, Structural)]
pub struct TimeoutTicket {
    pub id: TimeoutId,
    pub timeout: SecsTimeoutUnit,
}

/// Whether this side opens the connection (active) or waits for it (passive).
#[derive(Debug, Clone, Copy, PartialEq, Eq, Structural)]
pub enum ConnectionRole {
    Active,
    Passive,
}

impl ConnectionRole {
    pub fn is_active(&self) -> (r: bool)
        ensures
            r == (*self == ConnectionRole::Active),
    {
        matches!(self, ConnectionRole::Active)
    }

    pub fn is_passive(&self) -> (r: bool)
        ensures
            r == (*self == ConnectionRole::Passive),
    {
        matches!(self, ConnectionRole::Passive)
    }
}

/// Reverse bit of a SECS-I header: set on messages from equipment to host.
#[derive(Debug, Clone, Copy, PartialEq, Eq, Structural)]
pub struct Rbit(pub bool);

impl Rbit {
    /// The direction from host to equipment.
    pub fn forward() -> (r: Rbit)
        ensures
            !r.0,
    {
        Rbit(false)
    }

    /// The direction from equipment to host.
    pub fn reverse() -> (r: Rbit)
        ensures
            r.0,
    {
        Rbit(true)
    }

    pub fn complement(self) -> (r: Rbit)
        ensures
            r.0 == !self.0,
    {
        Rbit(!self.0)
    }
}

/// Wait bit of a SECS-I header: set when the primary message expects a reply.
#[derive(Debug, Clone, Copy, PartialEq, Eq, Structural)]
pub struct Wbit(pub bool);

impl Wbit {
    pub fn need_reply(&self) -> (r: bool)
        ensures
            r == self.0,
    {
        self.0
    }
}

/// Hands out system bytes from a closed range, wrapping back to its start.
pub struct SystemByteSource {
    next: u32,
    min: u32,
    max: u32,
}

impl SystemByteSource {
    pub closed spec fn next_value(&self) -> u32 {
        self.next
    }

    pub closed spec fn min_value(&self) -> u32 {
        self.min
    }

    pub closed spec fn max_value(&self) -> u32 {
        self.max
    }

    pub closed spec fn wf(&self) -> bool {
        self.min <= self.next <= self.max
    }

    /// A source whose first value is `start` and which cycles through `[min, max]`.
    pub fn with_range(start: u32, min: u32, max: u32) -> (r: SystemByteSource)
        requires
            min <= start <= max,
        ensures
            r.wf(),
            r.next_value() == start,
            r.min_value() == min,
            r.max_value() == max,
    {
        SystemByteSource { next: start, min, max }
    }

    pub fn next_system_byte(&mut self) -> (r: SystemByte)
        requires
            old(self).wf(),
        ensures
            final(self).wf(),
            r.0 == old(self).next_value(),
            final(self).min_value() == old(self).min_value(),
            final(self).max_value() == old(self).max_value(),
            final(self).next_value() == if old(self).next_value() == old(self).max_value() {
                old(self).min_value()
            } else {
                (old(self).next_value() + 1) as u32
            },
    {
        let r = SystemByte(self.next);
        if self.next == self.max {
            self.next = self.min;
        } else {
            self.next = self.next + 1;
        }
        r
    }
}

} // verus!
