use vstd::prelude::*;

use crate::protocol::contains;

verus! {

/// Size of the receive buffer.
pub const RECV_LEN: usize = 32;

/// Baud rate of the link.
pub const BAUD_RATE: u32 = 9600;

/// I/O timeout of the link, in milliseconds.
pub const TIMEOUT_MS: u64 = 50;

/// The receive buffer after a read of `data` into `buf`: the bytes received
/// replace the front of the buffer and the rest keeps what an earlier, longer
/// reply left there. A reply longer than the buffer is cut to its length.
pub open spec fn overlay(buf: Seq<u8>, data: Seq<u8>) -> Seq<u8> {
    if data.len() >= buf.len() {
        data.subrange(0, buf.len() as int)
    } else {
        data + buf.subrange(data.len() as int, buf.len() as int)
    }
}

/// A buffer of `n` zero bytes.
pub open spec fn zeros(n: nat) -> Seq<u8> {
    Seq::new(n, |i: int| 0u8)
}

/// One transaction for the caller to carry out on the link.
#[derive(Debug, PartialEq, Eq)]
pub enum Request {
    /// Write `bytes`, then wait `settle_ms` milliseconds.
    Write { bytes: Vec<u8>, settle_ms: u64 },
    /// Write `bytes`, wait `settle_ms` milliseconds, then read once into the
    /// receive buffer and hand back what arrived.
    WriteRead { bytes: Vec<u8>, settle_ms: u64 },
    /// Wait `ms` milliseconds.
    Sleep { ms: u64 },
}

/// What a [`Request`] asks for, as plain values.
pub enum Transfer {
    Write(Seq<u8>, u64),
    WriteRead(Seq<u8>, u64),
    Sleep(u64),
}

impl View for Request {
    type V = Transfer;

    open spec fn view(&self) -> Transfer {
        match self {
            Request::Write { bytes, settle_ms } => Transfer::Write(bytes@, *settle_ms),
            Request::WriteRead { bytes, settle_ms } => Transfer::WriteRead(bytes@, *settle_ms),
            Request::Sleep { ms } => Transfer::Sleep(*ms),
        }
    }
}

/// One serial link: its port name, its write settle delay, and the receive
/// buffer that every read overwrites from the front.
///
/// The buffer is not cleared before a read, so a reply shorter than the one
/// before it leaves that reply's tail in place, and a pattern search over the
/// buffer sees it. The driver relies on this behaviour of the hardware link
/// as it stands and does not hide it.
pub struct Serial {
    port_name: String,
    recv: Vec<u8>,
    write_delay: u64,
}

impl Serial {
    /// The receive buffer as it stands.
    pub closed spec fn received(&self) -> Seq<u8> {
        self.recv@
    }

    /// The settle delay after each write, in milliseconds.
    pub closed spec fn delay(&self) -> u64 {
        self.write_delay
    }

    /// A link to `port_name`, with a zeroed receive buffer.
    pub fn new(port_name: String, write_delay: u64) -> (r: Serial)
        ensures
            r.received() == zeros(RECV_LEN as nat),
            r.delay() == write_delay,
            r.name() == port_name@,
    {
        let mut recv: Vec<u8> = Vec::new();
        let mut i: usize = 0;
        while i < RECV_LEN
            invariant
                i <= RECV_LEN,
                recv@ == zeros(i as nat),
            decreases RECV_LEN - i,
        {
            recv.push(0);
            i = i + 1;
            assert(recv@ =~= zeros(i as nat));
        }
        Serial { port_name, recv, write_delay }
    }

    /// The name of the port.
    pub closed spec fn name(&self) -> Seq<char> {
        self.port_name@
    }

    pub fn port_name(&self) -> (r: &String)
        ensures
            r@ == self.name(),
    {
        &self.port_name
    }

    /// Whether `seq` occurs in the receive buffer.
    pub fn recv_contains(&self, seq: &[u8]) -> (r: bool)
        ensures
            r == contains(self.received(), seq@),
    {
        crate::protocol::find_pattern(self.recv.as_slice(), seq)
    }

    /// A copy of the receive buffer.
    pub fn get_recv(&self) -> (r: Vec<u8>)
        ensures
            r@ == self.received(),
    {
        self.recv.clone()
    }

    /// The receive buffer, borrowed.
    pub fn recv(&self) -> (r: &[u8])
        ensures
            r@ == self.received(),
    {
        self.recv.as_slice()
    }

    /// Records the bytes of one read; returns how many went into the buffer.
    pub fn receive(&mut self, data: &[u8]) -> (n: usize)
        requires
            old(self).received().len() == RECV_LEN,
        ensures
            final(self).received() == overlay(old(self).received(), data@),
            final(self).received().len() == RECV_LEN,
            final(self).delay() == old(self).delay(),
            final(self).name() == old(self).name(),
            n == if data@.len() < RECV_LEN { data@.len() } else { RECV_LEN as nat },
    {
        let n: usize = if data.len() < RECV_LEN { data.len() } else { RECV_LEN };
        let mut i: usize = 0;
        while i < n
            invariant
                n <= data@.len(),
                n <= RECV_LEN,
                i <= n,
                self.recv@.len() == RECV_LEN,
                self.write_delay == old(self).write_delay,
                self.port_name == old(self).port_name,
                old(self).recv@.len() == RECV_LEN,
                forall|k: int| 0 <= k < i ==> self.recv@[k] == data@[k],
                forall|k: int| i <= k < RECV_LEN ==> self.recv@[k] == old(self).recv@[k],
            decreases n - i,
        {
            self.recv.set(i, data[i]);
            i = i + 1;
        }
        assert(self.recv@ =~= overlay(old(self).recv@, data@));
        n
    }

    /// Write `buf`, then wait the link's settle delay.
    pub fn write(&self, buf: Vec<u8>) -> (r: Request)
        ensures
            r@ == Transfer::Write(buf@, self.delay()),
    {
        Request::Write { bytes: buf, settle_ms: self.write_delay }
    }

    /// Write `buf`, then wait `sleep_time` milliseconds.
    pub fn xfer_sleep(&self, buf: Vec<u8>, sleep_time: u64) -> (r: Request)
        ensures
            r@ == Transfer::Write(buf@, sleep_time),
    {
        Request::Write { bytes: buf, settle_ms: sleep_time }
    }

    /// Write `buf`, wait the settle delay, then read.
    pub fn xfer(&self, buf: Vec<u8>) -> (r: Request)
        ensures
            r@ == Transfer::WriteRead(buf@, self.delay()),
    {
        Request::WriteRead { bytes: buf, settle_ms: self.write_delay }
    }
}

} // verus!
