//! A bounded ring of audio samples between the capture callback and the
//! consumer.
//!
//! Samples are interleaved: one sample frame is one sample for each channel,
//! and the buffer only ever takes in and hands out whole sample frames.
//!
//! Overflow policy: unread samples are never overwritten. A write takes in as
//! many whole sample frames as there is room for, discards the rest, and
//! raises the overrun flag. The next read carries the overrun signal and
//! lowers the flag, so one overflow episode (any number of overflowing writes
//! between two reads) is reported once.
//!
//! The buffer itself is not shared: every method takes `&mut self`, and a
//! caller with two threads puts it behind a lock of its choosing.
use vstd::prelude::*;

use crate::capture::error::CaptureError;

verus! {

/// The sample format of one audio stream.
#[derive(Clone, Copy, Debug, PartialEq, Eq, Structural)]
pub struct AudioFormat {
    /// Sample frames per second.
    pub sample_rate: u32,
    /// Samples in one sample frame.
    pub channels: u16,
    /// Bits in one sample.
    pub bit_depth: u16,
}

impl AudioFormat {
    /// A format that a buffer can be built for: some rate, at least one
    /// channel, and a depth of 8, 16, 24 or 32 bits.
    pub open spec fn wf(self) -> bool {
        &&& self.sample_rate > 0
        &&& self.channels > 0
        &&& (self.bit_depth == 8 || self.bit_depth == 16 || self.bit_depth == 24
            || self.bit_depth == 32)
    }

    /// The format, if the three numbers describe one.
    pub fn new(sample_rate: u32, channels: u16, bit_depth: u16) -> (format: Option<AudioFormat>)
        ensures
            format == if (AudioFormat { sample_rate, channels, bit_depth }).wf() {
                Some(AudioFormat { sample_rate, channels, bit_depth })
            } else {
                None::<AudioFormat>
            },
    {
        let depth_ok = bit_depth == 8 || bit_depth == 16 || bit_depth == 24 || bit_depth == 32;
        if sample_rate > 0 && channels > 0 && depth_ok {
            Some(AudioFormat { sample_rate, channels, bit_depth })
        } else {
            None
        }
    }

    /// Whether a buffer can be built for this format.
    pub fn is_valid(&self) -> (valid: bool)
        ensures
            valid == self.wf(),
    {
        let depth_ok = self.bit_depth == 8 || self.bit_depth == 16 || self.bit_depth == 24
            || self.bit_depth == 32;
        self.sample_rate > 0 && self.channels > 0 && depth_ok
    }
}

/// The largest whole number of sample frames within `n` samples, counted in
/// samples.
pub open spec fn whole_frames(n: nat, channels: nat) -> nat {
    if channels == 0 {
        0
    } else {
        (n - n % channels) as nat
    }
}

/// What a buffer holds, as the consumer will see it.
pub struct PcmView {
    /// The format that the buffer was built for.
    pub format: AudioFormat,
    /// The number of samples that the buffer has room for.
    pub capacity: nat,
    /// The samples written and not yet read, oldest first.
    pub unread: Seq<i32>,
    /// Whether samples were discarded since the last read.
    pub overrun: bool,
}

/// What one read hands out.
pub struct ChunkView {
    /// The samples, oldest first.
    pub samples: Seq<i32>,
    /// Whether samples were discarded since the read before.
    pub overrun: bool,
}

impl PcmView {
    /// The invariant of a buffer: the unread samples fit, and both they and
    /// the capacity are whole sample frames.
    pub open spec fn wf(self) -> bool {
        &&& self.format.wf()
        &&& self.capacity > 0
        &&& self.capacity % (self.format.channels as nat) == 0
        &&& self.unread.len() <= self.capacity
        &&& self.unread.len() % (self.format.channels as nat) == 0
    }

    /// A buffer of this format and capacity with nothing in it.
    pub open spec fn empty(format: AudioFormat, capacity: nat) -> PcmView {
        PcmView { format, capacity, unread: Seq::empty(), overrun: false }
    }

    /// The number of samples that can still be taken in.
    pub open spec fn free(self) -> nat {
        (self.capacity - self.unread.len()) as nat
    }

    /// How many of `offered` samples a write takes in: the whole sample
    /// frames among them, as far as there is room.
    pub open spec fn accepted(self, offered: nat) -> nat {
        let whole = whole_frames(offered, self.format.channels as nat);
        if whole <= self.free() {
            whole
        } else {
            self.free()
        }
    }

    /// Whether a write of `offered` samples discards a whole sample frame for
    /// want of room.
    pub open spec fn overflows(self, offered: nat) -> bool {
        whole_frames(offered, self.format.channels as nat) > self.free()
    }

    /// The buffer after a write of `samples`.
    pub open spec fn write(self, samples: Seq<i32>) -> PcmView {
        PcmView {
            unread: self.unread + samples.take(self.accepted(samples.len()) as int),
            overrun: self.overrun || self.overflows(samples.len()),
            ..self
        }
    }

    /// How many samples a read of at most `max` samples hands out: the whole
    /// sample frames among the first `max` unread samples.
    pub open spec fn readable(self, max: nat) -> nat {
        let reach = if max <= self.unread.len() {
            max
        } else {
            self.unread.len()
        };
        whole_frames(reach, self.format.channels as nat)
    }

    /// What a read of at most `max` samples hands out.
    pub open spec fn chunk(self, max: nat) -> ChunkView {
        ChunkView {
            samples: self.unread.take(self.readable(max) as int),
            overrun: self.overrun,
        }
    }

    /// The buffer after a read of at most `max` samples.
    pub open spec fn read(self, max: nat) -> PcmView {
        PcmView {
            unread: self.unread.skip(self.readable(max) as int),
            overrun: false,
            ..self
        }
    }

}

/// Samples handed to the consumer: a snapshot that the consumer owns.
#[derive(Debug)]
pub struct AudioChunk {
    /// The samples, oldest first; whole sample frames.
    pub samples: Vec<i32>,
    /// `Some(CaptureError::Overrun)` if samples were discarded since the read
    /// before this one.
    pub signal: Option<CaptureError>,
}

impl View for AudioChunk {
    type V = ChunkView;

    open spec fn view(&self) -> ChunkView {
        ChunkView { samples: self.samples@, overrun: self.signal == Some(CaptureError::Overrun) }
    }
}

impl AudioChunk {
    /// A chunk is either unmarked or carries the overrun signal.
    pub open spec fn wf(self) -> bool {
        self.signal is None || self.signal == Some(CaptureError::Overrun)
    }

    /// The chunk of a read that found nothing.
    pub fn silence() -> (chunk: AudioChunk)
        ensures
            chunk.wf(),
            chunk@ == (ChunkView { samples: Seq::empty(), overrun: false }),
    {
        AudioChunk { samples: Vec::new(), signal: None }
    }
}

/// Where the `k`-th sample after `read` lies in a store of `cap` samples.
pub open spec fn ring_index(read: int, k: int, cap: int) -> int {
    if read + k < cap {
        read + k
    } else {
        read + k - cap
    }
}

/// The ring. The store never changes its length; `read` is the read cursor
/// and the write cursor lies `unread` samples after it.
#[derive(Debug)]
pub struct PcmBuffer {
    format: AudioFormat,
    store: Vec<i32>,
    read: usize,
    unread: usize,
    overrun: bool,
}

impl View for PcmBuffer {
    type V = PcmView;

    closed spec fn view(&self) -> PcmView {
        PcmView {
            format: self.format,
            capacity: self.store@.len(),
            unread: Seq::new(
                self.unread as nat,
                |k: int| self.store@[ring_index(self.read as int, k, self.store@.len() as int)],
            ),
            overrun: self.overrun,
        }
    }
}

/// A multiple of `ch` taken from a multiple of `ch` leaves one.
pub proof fn lemma_aligned_difference(a: nat, b: nat, ch: nat)
    requires
        ch > 0,
        a % ch == 0,
        b % ch == 0,
        b <= a,
    ensures
        ((a - b) as nat) % ch == 0,
{
    vstd::arithmetic::div_mod::lemma_fundamental_div_mod(a as int, ch as int);
    vstd::arithmetic::div_mod::lemma_fundamental_div_mod(b as int, ch as int);
    let qa = a as int / ch as int;
    let qb = b as int / ch as int;
    assert(a - b == (ch as int) * (qa - qb)) by (nonlinear_arith)
        requires
            a == (ch as int) * qa,
            b == (ch as int) * qb,
    ;
    vstd::arithmetic::div_mod::lemma_mod_multiples_basic(qa - qb, ch as int);
    assert((qa - qb) * (ch as int) == (ch as int) * (qa - qb)) by (nonlinear_arith);
}

/// Two multiples of `ch` add up to one.
pub proof fn lemma_aligned_sum(a: nat, b: nat, ch: nat)
    requires
        ch > 0,
        a % ch == 0,
        b % ch == 0,
    ensures
        (a + b) % ch == 0,
{
    vstd::arithmetic::div_mod::lemma_fundamental_div_mod(a as int, ch as int);
    vstd::arithmetic::div_mod::lemma_fundamental_div_mod(b as int, ch as int);
    let qa = a as int / ch as int;
    let qb = b as int / ch as int;
    assert(a + b == (ch as int) * (qa + qb)) by (nonlinear_arith)
        requires
            a == (ch as int) * qa,
            b == (ch as int) * qb,
    ;
    vstd::arithmetic::div_mod::lemma_mod_multiples_basic(qa + qb, ch as int);
    assert((qa + qb) * (ch as int) == (ch as int) * (qa + qb)) by (nonlinear_arith);
}

/// The whole sample frames within `n` samples are a multiple of the channel
/// count, and fall short of `n` by less than one sample frame.
pub proof fn lemma_whole_frames(n: nat, ch: nat)
    requires
        ch > 0,
    ensures
        whole_frames(n, ch) % ch == 0,
        whole_frames(n, ch) <= n < whole_frames(n, ch) + ch,
        whole_frames(n, ch) == n - n % ch,
        n % ch == 0 ==> whole_frames(n, ch) == n,
{
    vstd::arithmetic::div_mod::lemma_fundamental_div_mod(n as int, ch as int);
    vstd::arithmetic::div_mod::lemma_mod_bound(n as int, ch as int);
    let q = n as int / ch as int;
    assert(n - n % ch == q * (ch as int)) by (nonlinear_arith)
        requires
            n == (ch as int) * q + (n % ch),
    ;
    vstd::arithmetic::div_mod::lemma_mod_multiples_basic(q, ch as int);
}

impl PcmBuffer {
    /// The invariant that every method keeps.
    pub closed spec fn wf(&self) -> bool {
        &&& self@.wf()
        &&& self.read < self.store@.len()
        &&& self.unread <= self.store@.len()
    }

    /// A buffer that keeps its invariant holds what a well-formed view holds.
    pub proof fn lemma_view_wf(&self)
        requires
            self.wf(),
        ensures
            self@.wf(),
    {
    }

    /// An empty buffer with room for `capacity_frames` sample frames.
    ///
    /// `None` if the format is not one, if the capacity is zero, or if the
    /// capacity in samples does not fit a `usize`.
    pub fn new(format: AudioFormat, capacity_frames: usize) -> (buffer: Option<PcmBuffer>)
        ensures
            buffer is Some <==> format.wf() && capacity_frames > 0 && capacity_frames
                * format.channels <= usize::MAX,
            buffer matches Some(b) ==> b.wf() && b@ == PcmView::empty(
                format,
                (capacity_frames * format.channels) as nat,
            ),
    {
        if !format.is_valid() || capacity_frames == 0 {
            return None;
        }
        let channels: usize = format.channels as usize;
        match capacity_frames.checked_mul(channels) {
            None => None,
            Some(capacity) => {
                let store: Vec<i32> = vec![0i32; capacity];
                let buffer = PcmBuffer { format, store, read: 0, unread: 0, overrun: false };
                proof {
                    assert(capacity > 0) by (nonlinear_arith)
                        requires
                            capacity == capacity_frames * channels,
                            capacity_frames > 0,
                            channels > 0,
                    ;
                    vstd::arithmetic::div_mod::lemma_mod_multiples_basic(
                        capacity_frames as int,
                        channels as int,
                    );
                    assert(buffer@.unread =~= Seq::<i32>::empty());
                }
                Some(buffer)
            },
        }
    }

    /// The format that the buffer was built for.
    pub fn format(&self) -> (format: AudioFormat)
        ensures
            format == self@.format,
    {
        self.format
    }

    /// The number of samples that the buffer has room for.
    pub fn capacity(&self) -> (capacity: usize)
        ensures
            capacity == self@.capacity,
    {
        self.store.len()
    }

    /// The number of unread samples.
    pub fn len(&self) -> (len: usize)
        ensures
            len == self@.unread.len(),
    {
        self.unread
    }

    /// Whether samples were discarded since the last read.
    pub fn overrun_pending(&self) -> (pending: bool)
        ensures
            pending == self@.overrun,
    {
        self.overrun
    }

    /// Takes in the whole sample frames of `samples`, as far as there is
    /// room, and returns how many samples that was. What does not fit is
    /// discarded and raises the overrun flag; unread samples stay untouched.
    pub fn write(&mut self, samples: &[i32]) -> (taken: usize)
        requires
            old(self).wf(),
        ensures
            final(self).wf(),
            final(self)@ == old(self)@.write(samples@),
            taken == old(self)@.accepted(samples@.len()),
    {
        let cap: usize = self.store.len();
        let channels: usize = self.format.channels as usize;
        let free: usize = cap - self.unread;
        proof {
            lemma_whole_frames(samples@.len(), channels as nat);
        }
        let whole: usize = samples.len() - samples.len() % channels;
        let taken: usize = if whole <= free {
            whole
        } else {
            free
        };
        proof {
            lemma_aligned_difference(cap as nat, self.unread as nat, channels as nat);
            lemma_aligned_sum(self.unread as nat, taken as nat, channels as nat);
        }
        if whole > free {
            self.overrun = true;
        }
        let ghost before = self@.unread;
        let mut i: usize = 0;
        while i < taken
            invariant
                i <= taken <= samples@.len(),
                self.store@.len() == cap,
                self.read < cap,
                self.read == old(self).read,
                self.format == old(self).format,
                self.overrun == (old(self).overrun || whole > free),
                self.unread == old(self).unread + i,
                old(self).unread + taken <= cap,
                self@.unread == before + samples@.take(i as int),
            decreases taken - i,
        {
            let gap: usize = cap - self.read;
            let at: usize = if self.unread < gap {
                self.read + self.unread
            } else {
                self.unread - gap
            };
            let ghost previous = self@.unread;
            self.store.set(at, samples[i]);
            self.unread = self.unread + 1;
            i = i + 1;
            proof {
                assert(self@.unread =~= previous.push(samples@[i - 1]));
                assert(samples@.take(i as int) =~= samples@.take(i - 1).push(samples@[i - 1]));
            }
        }
        taken
    }

    /// Hands out the whole sample frames among the first `max_samples` unread
    /// samples, oldest first, with the overrun signal if samples were
    /// discarded since the read before. With nothing to read the chunk is
    /// empty: that is no error.
    pub fn read(&mut self, max_samples: usize) -> (chunk: AudioChunk)
        requires
            old(self).wf(),
        ensures
            final(self).wf(),
            chunk.wf(),
            chunk@ == old(self)@.chunk(max_samples as nat),
            final(self)@ == old(self)@.read(max_samples as nat),
    {
        let cap: usize = self.store.len();
        let channels: usize = self.format.channels as usize;
        let reach: usize = if max_samples <= self.unread {
            max_samples
        } else {
            self.unread
        };
        proof {
            lemma_whole_frames(reach as nat, channels as nat);
        }
        let count: usize = reach - reach % channels;
        proof {
            lemma_aligned_difference(self.unread as nat, count as nat, channels as nat);
        }
        let gap: usize = cap - self.read;
        let mut samples: Vec<i32> = Vec::new();
        let mut i: usize = 0;
        while i < count
            invariant
                i <= count <= self.unread <= cap,
                self.store@.len() == cap,
                self.read < cap,
                gap == cap - self.read,
                *self == *old(self),
                samples@ == self@.unread.take(i as int),
            decreases count - i,
        {
            let at: usize = if i < gap {
                self.read + i
            } else {
                i - gap
            };
            samples.push(self.store[at]);
            i = i + 1;
            proof {
                assert(samples@ =~= self@.unread.take(i as int));
            }
        }
        let signal = if self.overrun {
            Some(CaptureError::Overrun)
        } else {
            None
        };
        self.read = if count < gap {
            self.read + count
        } else {
            count - gap
        };
        self.unread = self.unread - count;
        self.overrun = false;
        proof {
            assert(self@.unread =~= old(self)@.unread.skip(count as int));
        }
        AudioChunk { samples, signal }
    }
}

} // verus!
