//! Zero-copy sending: a writer serializes straight into a buffer of the
//! size it asks for, drawn from a small pool that is reused round-robin.

use vstd::prelude::*;

verus! {

/// Fills a send buffer directly, in place of handing over an owned vector.
pub trait PayloadWriter {
    /// The number of bytes the writer asks for.
    spec fn size(&self) -> nat;

    /// The number of bytes the writer will write.
    fn required_size(&self) -> (n: usize)
        ensures
            n == self.size(),
    ;

    /// Writes the payload into `buf`, which holds exactly `required_size()`
    /// bytes; false where the writer could not produce it.
    fn write_into(&mut self, buf: &mut [u8]) -> (ok: bool)
        requires
            old(buf)@.len() == old(self).size(),
        ensures
            final(buf)@.len() == old(buf)@.len(),
    ;
}

/// Settings of the zero-copy path.
#[derive(Debug, Clone, Copy, PartialEq, Eq, Structural)]
pub struct ZeroCopyConfig {
    /// Whether the transport writes into shared buffers directly.
    pub zero_copy: bool,
    /// How many buffers rotate; at least one.
    pub buffer_count: u32,
    /// How long a sender waits for the buffer to be released, in
    /// milliseconds; running over it is a latency signal, not a failure.
    pub acknowledge_timeout_ms: u32,
}

impl ZeroCopyConfig {
    /// Well-formed settings have at least one buffer.
    pub open spec fn wf(&self) -> bool {
        self.buffer_count >= 1
    }

    /// Settings from their three values; none where `buffer_count` is zero.
    pub fn new(zero_copy: bool, buffer_count: u32, acknowledge_timeout_ms: u32) -> (r: Option<
        ZeroCopyConfig,
    >)
        ensures
            buffer_count == 0 <==> r is None,
            r matches Some(c) ==> c.wf() && c.zero_copy == zero_copy && c.buffer_count
                == buffer_count && c.acknowledge_timeout_ms == acknowledge_timeout_ms,
    {
        if buffer_count == 0 {
            None
        } else {
            Some(ZeroCopyConfig { zero_copy, buffer_count, acknowledge_timeout_ms })
        }
    }

    /// Zero copy off, one buffer, no acknowledge wait.
    pub fn default_config() -> (r: ZeroCopyConfig)
        ensures
            r.wf(),
            !r.zero_copy,
            r.buffer_count == 1,
            r.acknowledge_timeout_ms == 0,
    {
        ZeroCopyConfig { zero_copy: false, buffer_count: 1, acknowledge_timeout_ms: 0 }
    }
}

/// A ring of send buffers.
pub struct BufferPool {
    buffers: Vec<Vec<u8>>,
    next: usize,
}

impl BufferPool {
    /// At least one buffer, and the next one to use among them.
    pub closed spec fn wf(&self) -> bool {
        &&& self.buffers.len() >= 1
        &&& self.next < self.buffers.len()
    }

    /// The number of buffers.
    pub closed spec fn count(&self) -> nat {
        self.buffers.len() as nat
    }

    /// Which buffer the next write goes to.
    pub closed spec fn next_index(&self) -> nat {
        self.next as nat
    }

    /// The bytes held by buffer `i`.
    pub closed spec fn contents(&self, i: int) -> Seq<u8> {
        self.buffers[i]@
    }

    /// A pool of `config.buffer_count` empty buffers.
    pub fn new(config: &ZeroCopyConfig) -> (r: BufferPool)
        requires
            config.wf(),
        ensures
            r.wf(),
            r.count() == config.buffer_count,
            r.next_index() == 0,
    {
        let n = config.buffer_count as usize;
        let mut buffers: Vec<Vec<u8>> = Vec::new();
        let mut i: usize = 0;
        while i < n
            invariant
                i <= n,
                buffers.len() == i,
            decreases n - i,
        {
            buffers.push(Vec::new());
            i = i + 1;
        }
        BufferPool { buffers, next: 0 }
    }

    /// The number of buffers.
    pub fn buffer_count(&self) -> (r: usize)
        ensures
            r == self.count(),
    {
        self.buffers.len()
    }

    /// The bytes of buffer `i`.
    pub fn buffer(&self, i: usize) -> (r: &[u8])
        requires
            i < self.count(),
        ensures
            r@ == self.contents(i as int),
    {
        self.buffers[i].as_slice()
    }

    /// Sizes the next buffer to exactly what `w` asks for, lets `w` write
    /// into it, and moves on to the following buffer. Returns the index of
    /// the buffer written, or none where the writer failed.
    pub fn write_payload<W: PayloadWriter>(&mut self, w: &mut W) -> (r: Option<usize>)
        requires
            old(self).wf(),
        ensures
            final(self).wf(),
            final(self).count() == old(self).count(),
            final(self).next_index() == if old(self).next_index() + 1 == old(self).count() {
                0
            } else {
                old(self).next_index() + 1
            },
            final(self).contents(old(self).next_index() as int).len() == old(w).size(),
            forall|j: int|
                0 <= j < old(self).count() && j != old(self).next_index()
                    ==> #[trigger] final(self).contents(j) == old(self).contents(j),
            r matches Some(i) ==> i == old(self).next_index(),
    {
        let i = self.next;
        let n = w.required_size();
        let mut buf = self.buffers.remove(i);
        buf.clear();
        buf.resize(n, 0u8);
        let ok = w.write_into(buf.as_mut_slice());
        self.buffers.insert(i, buf);
        assert forall|j: int|
            0 <= j < old(self).count() && j != i implies self.buffers[j] == old(self).buffers[j] by {
            if j < i {
            } else {
            }
        }
        self.next = if i + 1 == self.buffers.len() {
            0
        } else {
            i + 1
        };
        if ok {
            Some(i)
        } else {
            None
        }
    }
}

/// Writes one byte value over the whole payload; used to measure throughput.
#[derive(Debug, Clone, Copy, PartialEq, Eq, Structural)]
pub struct BinaryPayload {
    pub size: usize,
    pub fill: u8,
}

impl BinaryPayload {
    /// A payload of `size` bytes, each 42.
    pub fn new(size: usize) -> (r: BinaryPayload)
        ensures
            r.size == size,
            r.fill == 42,
    {
        BinaryPayload { size, fill: 42 }
    }

    /// Writes `fill` into every byte of `buf`.
    pub fn fill_buffer(&self, buf: &mut [u8])
        ensures
            final(buf)@.len() == old(buf)@.len(),
            forall|k: int| 0 <= k < final(buf)@.len() ==> final(buf)@[k] == self.fill,
    {
        let mut i: usize = 0;
        while i < buf.len()
            invariant
                i <= buf@.len(),
                buf@.len() == old(buf)@.len(),
                forall|k: int| 0 <= k < i ==> buf@[k] == self.fill,
            decreases buf@.len() - i,
        {
            buf[i] = self.fill;
            i = i + 1;
        }
    }
}

impl PayloadWriter for BinaryPayload {
    open spec fn size(&self) -> nat {
        self.size as nat
    }

    fn required_size(&self) -> (n: usize) {
        self.size
    }

    fn write_into(&mut self, buf: &mut [u8]) -> (ok: bool) {
        self.fill_buffer(buf);
        true
    }
}

/// The default payload size of the throughput benchmark: 8 MiB.
pub const DEFAULT_PAYLOAD_SIZE: usize = 8388608;

/// The payload size to send: the requested one, the default where none was
/// given, and one byte where zero was asked for.
pub fn effective_payload_size(requested: Option<usize>) -> (r: usize)
    ensures
        r == match requested {
            None => DEFAULT_PAYLOAD_SIZE,
            Some(0) => 1,
            Some(n) => n,
        },
{
    match requested {
        None => DEFAULT_PAYLOAD_SIZE,
        Some(0) => 1,
        Some(n) => n,
    }
}

} // verus!
