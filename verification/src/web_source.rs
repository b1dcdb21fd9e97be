//! The state behind a byte data source fed from a browser: received bytes
//! waiting to be read, whether the link is open, and whether it failed.
use vstd::prelude::*;

use std::collections::VecDeque;

use crate::runtime::ByteDataSourceError;

verus! {

/// Received bytes and the link flags of a browser data source.
pub struct WebDataSourceState {
    incoming: VecDeque<u8>,
    is_open: bool,
    has_error: bool,
}

impl WebDataSourceState {
    /// Bytes received and not yet read.
    pub closed spec fn pending(&self) -> Seq<u8> {
        self.incoming@
    }

    pub closed spec fn open_flag(&self) -> bool {
        self.is_open
    }

    pub closed spec fn error_flag(&self) -> bool {
        self.has_error
    }

    /// A closed source without bytes or error.
    pub fn new() -> (r: WebDataSourceState)
        ensures
            r.pending() == Seq::<u8>::empty(),
            !r.open_flag(),
            !r.error_flag(),
    {
        WebDataSourceState { incoming: VecDeque::new(), is_open: false, has_error: false }
    }

    /// The link opened; an earlier failure is forgotten.
    pub fn open(&mut self)
        ensures
            final(self).open_flag(),
            !final(self).error_flag(),
            final(self).pending() == old(self).pending(),
    {
        self.is_open = true;
        self.has_error = false;
    }

    /// The link closed; bytes not yet read are dropped.
    pub fn close(&mut self)
        ensures
            !final(self).open_flag(),
            final(self).error_flag() == old(self).error_flag(),
            final(self).pending() == Seq::<u8>::empty(),
    {
        self.is_open = false;
        self.incoming.clear();
    }

    /// The link failed.
    pub fn fail(&mut self)
        ensures
            final(self).error_flag(),
            final(self).open_flag() == old(self).open_flag(),
            final(self).pending() == old(self).pending(),
    {
        self.has_error = true;
    }

    pub fn is_open(&self) -> (r: bool)
        ensures
            r == self.open_flag(),
    {
        self.is_open
    }

    pub fn has_error(&self) -> (r: bool)
        ensures
            r == self.error_flag(),
    {
        self.has_error
    }

    /// The link as a host shows it: "error" after a failure, else "open" or
    /// "closed".
    pub fn link_state(&self) -> (r: &'static str)
        ensures
            r@ == if self.error_flag() {
                "error"@
            } else if self.open_flag() {
                "open"@
            } else {
                "closed"@
            },
    {
        if self.has_error {
            "error"
        } else if self.is_open {
            "open"
        } else {
            "closed"
        }
    }

    /// How many received bytes wait to be read.
    pub fn pending_read_len(&self) -> (r: usize)
        ensures
            r == self.pending().len(),
    {
        self.incoming.len()
    }

    /// Bytes arrived; they queue behind those not yet read.
    pub fn push_read_bytes(&mut self, bytes: &[u8])
        ensures
            final(self).pending() == old(self).pending() + bytes@,
            final(self).open_flag() == old(self).open_flag(),
            final(self).error_flag() == old(self).error_flag(),
    {
        let mut i: usize = 0;
        while i < bytes.len()
            invariant
                i <= bytes@.len(),
                self.incoming@ == old(self).pending() + bytes@.take(i as int),
                self.is_open == old(self).is_open,
                self.has_error == old(self).has_error,
            decreases bytes@.len() - i,
        {
            self.incoming.push_back(bytes[i]);
            assert(self.incoming@ =~= old(self).pending() + bytes@.take(i as int + 1));
            i = i + 1;
        }
        assert(bytes@.take(i as int) =~= bytes@);
    }

    /// Reads waiting bytes into `buf`: after a failure nothing moves
    /// (`ReadFailed`) until the link opens again; while closed nothing moves
    /// (`WouldBlock`); else as many bytes as fit, oldest first, and their count.
    pub fn read_incoming(&mut self, buf: &mut [u8]) -> (r: Result<usize, ByteDataSourceError>)
        ensures
            final(self).open_flag() == old(self).open_flag(),
            final(self).error_flag() == old(self).error_flag(),
            final(buf)@.len() == old(buf)@.len(),
            old(self).error_flag() ==> r == Err::<usize, ByteDataSourceError>(ByteDataSourceError::ReadFailed)
                && final(self).pending() == old(self).pending() && final(buf)@ == old(buf)@,
            !old(self).error_flag() && !old(self).open_flag() ==> r == Err::<usize, ByteDataSourceError>(ByteDataSourceError::WouldBlock)
                && final(self).pending() == old(self).pending() && final(buf)@ == old(buf)@,
            !old(self).error_flag() && old(self).open_flag() ==> {
                let n = if old(buf)@.len() < old(self).pending().len() {
                    old(buf)@.len()
                } else {
                    old(self).pending().len()
                };
                &&& r == Ok::<usize, ByteDataSourceError>(n as usize)
                &&& final(buf)@.take(n as int) == old(self).pending().take(n as int)
                &&& final(buf)@.skip(n as int) == old(buf)@.skip(n as int)
                &&& final(self).pending() == old(self).pending().skip(n as int)
            },
    {
        if self.has_error {
            return Err(ByteDataSourceError::ReadFailed);
        }
        if !self.is_open {
            return Err(ByteDataSourceError::WouldBlock);
        }
        let len: usize = if buf.len() < self.incoming.len() {
            buf.len()
        } else {
            self.incoming.len()
        };
        let ghost src = self.incoming@;
        let ghost orig = buf@;
        let mut i: usize = 0;
        while i < len
            invariant
                len <= buf@.len(),
                len <= src.len(),
                i <= len,
                buf@.len() == orig.len(),
                self.incoming@ == src.skip(i as int),
                buf@.take(i as int) == src.take(i as int),
                buf@.skip(len as int) == orig.skip(len as int),
                self.is_open == old(self).is_open,
                self.has_error == old(self).has_error,
            decreases len - i,
        {
            let ghost before = buf@;
            match self.incoming.pop_front() {
                Some(byte) => {
                    assert(byte == src[i as int]);
                    buf[i] = byte;
                    assert(buf@.take(i as int + 1) =~= src.take(i as int + 1)) by {
                        assert(before.take(i as int) == src.take(i as int));
                        assert forall|j: int| 0 <= j < i implies buf@[j] == before[j] by {}
                        assert forall|j: int| 0 <= j < i implies before[j] == before.take(i as int)[j] by {}
                    }
                    assert(buf@.skip(len as int) =~= orig.skip(len as int)) by {
                        assert forall|j: int| len <= j < buf@.len() implies buf@[j] == before[j] by {}
                        assert forall|j: int| 0 <= j < buf@.len() - len implies before.skip(len as int)[j] == before[len + j] by {}
                    }
                    assert(self.incoming@ =~= src.skip(i as int + 1));
                },
                None => {
                    assert(false);
                },
            }
            i = i + 1;
        }
        Ok(len)
    }
}

} // verus!
