use vstd::prelude::*;

verus! {

/// Metadata that a connection reports about itself.
#[derive(Debug, Clone, Copy, PartialEq, Eq, Structural)]
pub struct Connected {
    /// The transport is open for traffic.
    pub established: bool,
    /// HTTP/2 was agreed during protocol negotiation.
    pub negotiated_h2: bool,
    /// The transport runs through a proxy.
    pub proxied: bool,
}

impl Connected {
    /// Metadata of a freshly established, unnegotiated, direct transport.
    pub fn new() -> (r: Connected)
        ensures
            r.established,
            !r.negotiated_h2,
            !r.proxied,
    {
        Connected { established: true, negotiated_h2: false, proxied: false }
    }
}

/// Failure of a read or write on a connection.
#[derive(Debug, Clone, Copy, PartialEq, Eq, Structural)]
pub enum StreamError {
    /// The connection was shut down.
    Closed,
}

/// The abstract state of a connection.
pub struct ConnectionView {
    /// Bytes the transport has produced that the engine has not read yet.
    pub inbound: Seq<u8>,
    /// Bytes the engine has written that the transport has not taken yet.
    pub outbound: Seq<u8>,
    /// The engine has shut the connection down.
    pub shut_down: bool,
}

impl ConnectionView {
    /// The state of a connection that was just established.
    pub open spec fn fresh() -> ConnectionView {
        ConnectionView { inbound: Seq::empty(), outbound: Seq::empty(), shut_down: false }
    }
}

/// A duplex byte stream over one established transport.
///
/// The transport side appends to the inbound buffer and drains the outbound
/// one; the engine drains the inbound buffer and appends to the outbound one.
/// Both buffers are owned by the connection alone.
#[derive(Debug)]
pub struct Connection {
    inbound: Vec<u8>,
    outbound: Vec<u8>,
    shut_down: bool,
}

impl View for Connection {
    type V = ConnectionView;

    closed spec fn view(&self) -> ConnectionView {
        ConnectionView { inbound: self.inbound@, outbound: self.outbound@, shut_down: self.shut_down }
    }
}

impl Connection {
    /// A connection with empty buffers, open for traffic.
    pub fn new() -> (r: Connection)
        ensures
            r@ == ConnectionView::fresh(),
    {
        let r = Connection { inbound: Vec::new(), outbound: Vec::new(), shut_down: false };
        assert(r@.inbound =~= Seq::<u8>::empty());
        assert(r@.outbound =~= Seq::<u8>::empty());
        r
    }

    /// Transport side: appends bytes that arrived to the inbound buffer.
    pub fn supply(&mut self, bytes: &[u8])
        ensures
            final(self)@ == (ConnectionView { inbound: old(self)@.inbound + bytes@, ..old(self)@ }),
    {
        let mut i: usize = 0;
        while i < bytes.len()
            invariant
                0 <= i <= bytes@.len(),
                self.inbound@ == old(self).inbound@ + bytes@.subrange(0, i as int),
                self.outbound@ == old(self).outbound@,
                self.shut_down == old(self).shut_down,
            decreases bytes@.len() - i,
        {
            self.inbound.push(bytes[i]);
            i = i + 1;
            assert(bytes@.subrange(0, i as int) =~= bytes@.subrange(0, i - 1 as int).push(bytes@[i - 1]));
        }
        assert(bytes@.subrange(0, i as int) =~= bytes@);
    }

    /// Engine side: takes up to `max` bytes from the front of the inbound
    /// buffer, in the order they arrived.
    ///
    /// An empty result with `max > 0` means that nothing is buffered.
    pub fn read(&mut self, max: usize) -> (r: Vec<u8>)
        ensures
            ({
                let n = if max < old(self)@.inbound.len() { max as int } else { old(self)@.inbound.len() as int };
                &&& r@ == old(self)@.inbound.subrange(0, n)
                &&& final(self)@ == (ConnectionView { inbound: old(self)@.inbound.subrange(n, old(self)@.inbound.len() as int), ..old(self)@ })
            }),
    {
        let n: usize = if max < self.inbound.len() { max } else { self.inbound.len() };
        let mut rest = self.inbound.split_off(n);
        std::mem::swap(&mut self.inbound, &mut rest);
        rest
    }

    /// Engine side: queues all of `bytes` for the transport and reports how
    /// many were taken; fails once the connection is shut down.
    pub fn write(&mut self, bytes: &[u8]) -> (r: Result<usize, StreamError>)
        ensures
            old(self)@.shut_down ==> r == Err::<usize, StreamError>(StreamError::Closed) && final(self)@ == old(self)@,
            !old(self)@.shut_down ==> r == Ok::<usize, StreamError>(bytes@.len() as usize)
                && final(self)@ == (ConnectionView { outbound: old(self)@.outbound + bytes@, ..old(self)@ }),
    {
        if self.shut_down {
            return Err(StreamError::Closed);
        }
        let mut i: usize = 0;
        while i < bytes.len()
            invariant
                0 <= i <= bytes@.len(),
                self.outbound@ == old(self).outbound@ + bytes@.subrange(0, i as int),
                self.inbound@ == old(self).inbound@,
                self.shut_down == old(self).shut_down,
            decreases bytes@.len() - i,
        {
            self.outbound.push(bytes[i]);
            i = i + 1;
            assert(bytes@.subrange(0, i as int) =~= bytes@.subrange(0, i - 1 as int).push(bytes@[i - 1]));
        }
        assert(bytes@.subrange(0, i as int) =~= bytes@);
        Ok(bytes.len())
    }

    /// Engine side: every write is queued at once, so there is nothing to
    /// wait for; fails once the connection is shut down.
    pub fn flush(&mut self) -> (r: Result<(), StreamError>)
        ensures
            final(self)@ == old(self)@,
            r == (if old(self)@.shut_down { Err(StreamError::Closed) } else { Ok(()) }),
    {
        if self.shut_down {
            Err(StreamError::Closed)
        } else {
            Ok(())
        }
    }

    /// Engine side: closes the connection for writing. Bytes already queued
    /// stay for the transport, and buffered inbound bytes stay readable.
    pub fn shutdown(&mut self)
        ensures
            final(self)@ == (ConnectionView { shut_down: true, ..old(self)@ }),
    {
        self.shut_down = true;
    }

    /// Transport side: takes every byte the engine has queued, in order.
    pub fn take_outbound(&mut self) -> (r: Vec<u8>)
        ensures
            r@ == old(self)@.outbound,
            final(self)@ == (ConnectionView { outbound: Seq::empty(), ..old(self)@ }),
    {
        let mut r: Vec<u8> = Vec::new();
        std::mem::swap(&mut self.outbound, &mut r);
        assert(self.outbound@ =~= Seq::<u8>::empty());
        r
    }

    /// The connection's metadata: established until it is shut down.
    pub fn connected(&self) -> (r: Connected)
        ensures
            r.established == !self@.shut_down,
            !r.negotiated_h2,
            !r.proxied,
    {
        let mut m = Connected::new();
        m.established = !self.shut_down;
        m
    }
}

} // verus!
