//! In-memory stand-in for the serial line, used to drive the keyer in tests.
//!
//! It holds the bytes queued for the host to read, the log of everything the
//! host wrote, and whether the line was closed.

use vstd::prelude::*;

verus! {

/// The mock line as plain values.
pub struct MockView {
    pub pending: Seq<u8>,
    pub written: Seq<u8>,
    pub closed: bool,
}

/// A mock serial line.
#[derive(Debug, Clone)]
pub struct MockPort {
    read_buf: Vec<u8>,
    write_log: Vec<u8>,
    closed: bool,
}

impl View for MockPort {
    type V = MockView;

    closed spec fn view(&self) -> MockView {
        MockView { pending: self.read_buf@, written: self.write_log@, closed: self.closed }
    }
}

/// What a read of the mock line finds.
pub enum MockRead {
    /// The line is closed.
    Closed,
    /// Nothing is queued yet.
    Empty,
    /// These bytes, taken from the front of the queue.
    Data(Vec<u8>),
}

fn copy_bytes(data: &[u8], from: usize, to: usize) -> (r: Vec<u8>)
    requires
        from <= to <= data@.len(),
    ensures
        r@ == data@.subrange(from as int, to as int),
{
    let mut out: Vec<u8> = Vec::new();
    let mut k: usize = from;
    while k < to
        invariant
            from <= k <= to <= data@.len(),
            out@ == data@.subrange(from as int, k as int),
        decreases to - k,
    {
        out.push(data[k]);
        k = k + 1;
        assert(data@.subrange(from as int, k as int) =~= data@.subrange(from as int, k - 1) + seq![
            data@[k - 1],
        ]);
    }
    out
}

impl MockPort {
    /// A line with nothing queued, nothing written, open.
    pub fn new() -> (r: Self)
        ensures
            r@.pending == Seq::<u8>::empty(),
            r@.written == Seq::<u8>::empty(),
            !r@.closed,
    {
        MockPort { read_buf: Vec::new(), write_log: Vec::new(), closed: false }
    }

    /// Queue bytes for the host to read.
    pub fn queue_read(&mut self, data: &[u8])
        ensures
            final(self)@.pending == old(self)@.pending + data@,
            final(self)@.written == old(self)@.written,
            final(self)@.closed == old(self)@.closed,
    {
        let mut more = copy_bytes(data, 0, data.len());
        assert(data@.subrange(0, data@.len() as int) =~= data@);
        self.read_buf.append(&mut more);
    }

    /// Every byte the host has written so far.
    pub fn written_data(&self) -> (r: Vec<u8>)
        ensures
            r@ == self@.written,
    {
        copy_bytes(self.write_log.as_slice(), 0, self.write_log.len())
    }

    /// Whether bytes are queued for the host.
    pub fn has_pending_reads(&self) -> (r: bool)
        ensures
            r == (self@.pending.len() > 0),
    {
        self.read_buf.len() > 0
    }

    /// Whether the line is closed.
    pub fn is_closed(&self) -> (r: bool)
        ensures
            r == self@.closed,
    {
        self.closed
    }

    /// Close the line: later reads and writes fail.
    pub fn close(&mut self)
        ensures
            final(self)@.closed,
            final(self)@.pending == old(self)@.pending,
            final(self)@.written == old(self)@.written,
    {
        self.closed = true;
    }

    /// Read up to `max` bytes (at least one when `max` is positive) from the
    /// front of the queue.
    pub fn take_read(&mut self, max: usize) -> (r: MockRead)
        ensures
            old(self)@.closed ==> r is Closed && final(self)@ == old(self)@,
            !old(self)@.closed && old(self)@.pending.len() == 0 ==> r is Empty && final(self)@
                == old(self)@,
            !old(self)@.closed && old(self)@.pending.len() > 0 ==> {
                let n = if max < old(self)@.pending.len() {
                    max as int
                } else {
                    old(self)@.pending.len() as int
                };
                &&& r is Data
                &&& r->Data_0@ == old(self)@.pending.take(n)
                &&& final(self)@.pending == old(self)@.pending.skip(n)
                &&& final(self)@.written == old(self)@.written
                &&& final(self)@.closed == old(self)@.closed
            },
    {
        if self.closed {
            return MockRead::Closed;
        }
        if self.read_buf.len() == 0 {
            return MockRead::Empty;
        }
        let len = self.read_buf.len();
        let n: usize = if max < len {
            max
        } else {
            len
        };
        let taken = copy_bytes(self.read_buf.as_slice(), 0, n);
        let rest = copy_bytes(self.read_buf.as_slice(), n, len);
        assert(self.read_buf@.subrange(0, n as int) =~= self.read_buf@.take(n as int));
        assert(self.read_buf@.subrange(n as int, len as int) =~= self.read_buf@.skip(n as int));
        self.read_buf = rest;
        MockRead::Data(taken)
    }

    /// Log bytes written by the host; a closed line refuses them.
    pub fn record_write(&mut self, data: &[u8]) -> (accepted: bool)
        ensures
            accepted == !old(self)@.closed,
            accepted ==> final(self)@.written == old(self)@.written + data@,
            !accepted ==> final(self)@.written == old(self)@.written,
            final(self)@.pending == old(self)@.pending,
            final(self)@.closed == old(self)@.closed,
    {
        if self.closed {
            return false;
        }
        let mut more = copy_bytes(data, 0, data.len());
        assert(data@.subrange(0, data@.len() as int) =~= data@);
        self.write_log.append(&mut more);
        true
    }
}

impl Default for MockPort {
    fn default() -> (r: Self)
        ensures
            r@.pending == Seq::<u8>::empty(),
            r@.written == Seq::<u8>::empty(),
            !r@.closed,
    {
        MockPort::new()
    }
}

} // verus!
