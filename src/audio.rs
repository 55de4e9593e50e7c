//! PCM helpers: rate conversion, framing for the encoder, re-chunking for the recognizer.
use vstd::prelude::*;

verus! {

/// Samples in one 60 ms frame at 16 kHz.
pub const FRAME_SAMPLES: usize = 960;

/// Half of `x`, rounded toward zero (what a float midpoint cast back to an integer gives).
pub open spec fn half_toward_zero(x: int) -> int {
    if x >= 0 {
        x / 2
    } else {
        -((-x) / 2)
    }
}

/// Number of output samples when converting `n` samples from 24 kHz to 16 kHz.
pub open spec fn resampled_len(n: int) -> int {
    (2 * n) / 3
}

/// Output sample `i` of the 24 kHz to 16 kHz conversion: output `i` sits at input
/// position `1.5 * i`; even outputs land on an input sample, odd ones halfway between two.
pub open spec fn resampled_at(input: Seq<i16>, i: int) -> int {
    if i % 2 == 0 {
        input[3 * (i / 2)] as int
    } else {
        half_toward_zero(input[3 * (i / 2) + 1] as int + input[3 * (i / 2) + 2] as int)
    }
}

/// The whole 24 kHz to 16 kHz conversion of `input`.
pub open spec fn resampled(input: Seq<i16>) -> Seq<i16> {
    Seq::new(resampled_len(input.len() as int) as nat, |i: int| resampled_at(input, i) as i16)
}

/// Converts 24 kHz PCM to 16 kHz PCM by linear interpolation.
pub fn resample_24k_to_16k(input: &[i16]) -> (output: Vec<i16>)
    ensures
        output@ == resampled(input@),
        output@.len() == resampled_len(input@.len() as int),
        forall|i: int| 0 <= i < output@.len() ==> output@[i] as int == resampled_at(input@, i),
{
    let input_len = input.len();
    let output_len: usize = input_len / 3 * 2 + (input_len % 3) * 2 / 3;
    assert(output_len as int == resampled_len(input_len as int)) by (nonlinear_arith)
        requires
            output_len == input_len / 3 * 2 + (input_len % 3) * 2 / 3,
    {
    }
    let mut output: Vec<i16> = Vec::with_capacity(output_len);
    let mut i: usize = 0;
    while i < output_len
        invariant
            output_len as int == resampled_len(input_len as int),
            input_len == input@.len(),
            i <= output_len,
            output@.len() == i,
            forall|k: int| 0 <= k < i ==> output@[k] as int == resampled_at(input@, k),
        decreases output_len - i,
    {
        let base: usize = i / 2 * 3;
        assert(3 * (i as int) + 3 <= 2 * input_len) by (nonlinear_arith)
            requires
                i < output_len,
                output_len == (2 * input_len) / 3,
        {
        }
        assert(i % 2 == 0 ==> base < input_len);
        assert(i % 2 == 1 ==> base + 2 < input_len);
        if i % 2 == 0 {
            output.push(input[base]);
        } else {
            let sum: i32 = input[base + 1] as i32 + input[base + 2] as i32;
            let mid: i32 = if sum >= 0 {
                sum / 2
            } else {
                -((-sum) / 2)
            };
            output.push(mid as i16);
        }
        i = i + 1;
    }
    assert(output@ == resampled(input@));
    output
}

/// Samples per chunk the recognizer takes.
pub const RECOGNIZER_CHUNK: usize = 512;

/// The samples of `chunks`, one after another.
pub open spec fn flatten(chunks: Seq<Vec<i16>>) -> Seq<i16>
    decreases chunks.len(),
{
    if chunks.len() == 0 {
        Seq::empty()
    } else {
        flatten(chunks.drop_last()) + chunks.last()@
    }
}

/// `n` zero samples.
pub open spec fn zeros(n: nat) -> Seq<i16> {
    Seq::new(n, |_i: int| 0i16)
}

/// Cuts a stream of PCM pieces into chunks of one fixed size; what is left at the end
/// is padded with zeros.
pub struct Rechunker {
    /// Samples received and not yet handed out; always fewer than `size`.
    pub buffer: Vec<i16>,
    pub size: usize,
}

impl Rechunker {
    pub open spec fn wf(&self) -> bool {
        self.size > 0 && self.buffer@.len() < self.size
    }

    pub fn new(size: usize) -> (r: Rechunker)
        requires
            size > 0,
        ensures
            r.wf(),
            r.size == size,
            r.buffer@.len() == 0,
    {
        Rechunker { buffer: Vec::new(), size }
    }

    /// Takes a piece of PCM and hands out every chunk it completes, in order.
    pub fn push(&mut self, samples: &[i16]) -> (chunks: Vec<Vec<i16>>)
        requires
            old(self).wf(),
        ensures
            final(self).wf(),
            final(self).size == old(self).size,
            flatten(chunks@) + final(self).buffer@ == old(self).buffer@ + samples@,
            forall|k: int| 0 <= k < chunks@.len() ==> (#[trigger] chunks@[k])@.len() == old(self).size,
    {
        let mut chunks: Vec<Vec<i16>> = Vec::new();
        let mut i: usize = 0;
        while i < samples.len()
            invariant
                self.wf(),
                self.size == old(self).size,
                i <= samples@.len(),
                flatten(chunks@) + self.buffer@ == old(self).buffer@ + samples@.subrange(0, i as int),
                forall|k: int| 0 <= k < chunks@.len() ==> (#[trigger] chunks@[k])@.len() == old(self).size,
            decreases samples.len() - i,
        {
            let ghost before_chunks = chunks@;
            let ghost before_buffer = self.buffer@;
            self.buffer.push(samples[i]);
            assert(samples@.subrange(0, i + 1) == samples@.subrange(0, i as int).push(samples@[i as int]));
            let ghost x = samples@[i as int];
            assert(flatten(chunks@) + self.buffer@ == old(self).buffer@ + samples@.subrange(0, i + 1)) by {
                assert(flatten(before_chunks) + before_buffer.push(x) == (flatten(before_chunks) + before_buffer).push(x));
            }
            if self.buffer.len() == self.size {
                let ghost filled = self.buffer@;
                let mut full: Vec<i16> = Vec::new();
                std::mem::swap(&mut full, &mut self.buffer);
                chunks.push(full);
                assert(chunks@.drop_last() == before_chunks);
                assert(flatten(chunks@) == flatten(before_chunks) + filled);
                assert(flatten(chunks@) + self.buffer@ == flatten(chunks@));
            }
            i = i + 1;
        }
        assert(samples@.subrange(0, samples@.len() as int) == samples@);
        chunks
    }

    /// The end of the stream: the remaining samples padded with zeros to a full
    /// chunk, or nothing when none remain.
    pub fn finish(self) -> (r: Option<Vec<i16>>)
        requires
            self.wf(),
        ensures
            self.buffer@.len() == 0 ==> r is None,
            self.buffer@.len() > 0 ==> (r matches Some(c)
                && c@ == self.buffer@ + zeros((self.size - self.buffer@.len()) as nat)),
    {
        if self.buffer.len() == 0 {
            return None;
        }
        let ghost start = self.buffer@;
        let mut chunk = self.buffer;
        while chunk.len() < self.size
            invariant
                start.len() <= chunk@.len() <= self.size,
                chunk@ == start + zeros((chunk@.len() - start.len()) as nat),
            decreases self.size - chunk.len(),
        {
            let ghost before = chunk@;
            chunk.push(0);
            assert(zeros((chunk@.len() - start.len()) as nat) == zeros((before.len() - start.len()) as nat).push(0i16));
        }
        Some(chunk)
    }
}

/// Cuts PCM into encoder frames of `FRAME_SAMPLES`, the last one padded with zeros.
pub fn pcm_frames(pcm: &[i16]) -> (frames: Vec<Vec<i16>>)
    ensures
        forall|k: int| 0 <= k < frames@.len() ==> (#[trigger] frames@[k])@.len() == FRAME_SAMPLES,
        exists|pad: nat| pad < FRAME_SAMPLES && flatten(frames@) == pcm@ + zeros(pad),
{
    let mut chunker = Rechunker::new(FRAME_SAMPLES);
    let mut frames = chunker.push(pcm);
    let ghost rest = chunker.buffer@;
    match chunker.finish() {
        Some(last) => {
            let ghost before = frames@;
            frames.push(last);
            assert(frames@.drop_last() == before);
            assert(flatten(frames@) == pcm@ + zeros((FRAME_SAMPLES - rest.len()) as nat));
        },
        None => {
            assert(flatten(frames@) == pcm@ + zeros(0));
        },
    }
    frames
}

/// Every `channels`-th sample from the first: the first channel of interleaved PCM.
pub fn first_channel(data: &[i16], channels: usize) -> (r: Vec<i16>)
    requires
        channels > 0,
    ensures
        r@.len() == (data@.len() + channels - 1) / channels as int,
        forall|k: int| 0 <= k < r@.len() ==> r@[k] == data@[k * channels],
{
    let n = data.len();
    let q = n / channels;
    assert(n % channels != 0 ==> q < usize::MAX) by (nonlinear_arith)
        requires
            channels > 0,
            q == n / channels,
    {
    }
    let count: usize = if n % channels == 0 {
        q
    } else {
        q + 1
    };
    assert(count as int == (n + channels - 1) / channels as int) by (nonlinear_arith)
        requires
            channels > 0,
            q == n / channels,
            count == if n % channels == 0 { q as int } else { q + 1 },
    {
    }
    let mut r: Vec<i16> = Vec::new();
    let mut k: usize = 0;
    while k < count
        invariant
            channels > 0,
            n == data@.len(),
            count as int == (n + channels - 1) / channels as int,
            k <= count,
            r@.len() == k,
            forall|q: int| 0 <= q < k ==> r@[q] == data@[q * channels],
        decreases count - k,
    {
        assert(k * channels < n) by (nonlinear_arith)
            requires
                channels > 0,
                k < count,
                count == (n + channels - 1) / channels as int,
        {
        }
        r.push(data[k * channels]);
        k = k + 1;
    }
    r
}

/// A 16-bit sample stored low byte first.
pub open spec fn le_sample(lo: u8, hi: u8) -> i16 {
    ((hi as int * 256 + lo as int) as u16) as i16
}

/// Little-endian 16-bit PCM from raw bytes; a trailing odd byte is ignored.
pub fn pcm_from_le_bytes(bytes: &[u8]) -> (r: Vec<i16>)
    ensures
        r@.len() == bytes@.len() / 2,
        forall|k: int| 0 <= k < r@.len() ==> r@[k] == le_sample(bytes@[2 * k], bytes@[2 * k + 1]),
{
    let n = bytes.len() / 2;
    let mut r: Vec<i16> = Vec::new();
    let mut k: usize = 0;
    while k < n
        invariant
            n == bytes@.len() / 2,
            bytes@.len() == bytes.len(),
            k <= n,
            r@.len() == k,
            forall|q: int| 0 <= q < k ==> r@[q] == le_sample(bytes@[2 * q], bytes@[2 * q + 1]),
        decreases n - k,
    {
        let lo = bytes[2 * k];
        let hi = bytes[2 * k + 1];
        let word: u16 = (hi as u16) * 256 + lo as u16;
        r.push(#[verifier::truncate] (word as i16));
        k = k + 1;
    }
    r
}

} // verus!
