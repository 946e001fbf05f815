//! The 16-bit PCM WAVE format.

use vstd::prelude::*;
use vstd::slice::*;

verus! {

/// The length of the header.
pub const HEADER_LEN: usize = 44;

/// The bytes of a 16-bit number, the lowest first.
pub open spec fn le16(v: u16) -> Seq<u8> {
    seq![(v % 256) as u8, (v / 256) as u8]
}

/// The bytes of a 32-bit number, the lowest first.
pub open spec fn le32(v: u32) -> Seq<u8> {
    seq![
        (v % 256) as u8,
        (v / 256 % 256) as u8,
        (v / 65536 % 256) as u8,
        (v / 16777216) as u8,
    ]
}

/// The 16-bit number that stands for a signed sample.
pub open spec fn sample_word(v: i16) -> u16 {
    if v < 0 {
        (v + 65536) as u16
    } else {
        v as u16
    }
}

/// The samples, one after the other.
pub open spec fn sample_bytes(samples: Seq<i16>) -> Seq<u8> {
    Seq::new(2 * samples.len(), |i: int| le16(sample_word(samples[i / 2]))[i % 2])
}

/// The number of bytes of samples that the header states, which has 32 bits.
pub open spec fn stated_len(samples: nat) -> nat {
    (2 * samples) % 0x1_0000_0000
}

/// The header of a file with so many samples.
pub open spec fn header(samples: nat, sample_rate: u32, channels: u16) -> Seq<u8> {
    // "RIFF", and the bytes that follow
    seq![0x52u8, 0x49, 0x46, 0x46] + le32((36 + stated_len(samples)) as u32)
    // "WAVE"
     + seq![0x57u8, 0x41, 0x56, 0x45]
    // "fmt ", and the 16 bytes that describe the format
     + seq![0x66u8, 0x6d, 0x74, 0x20] + le32(16)
    // PCM
     + le16(1) + le16(channels) + le32(sample_rate)
    // bytes in a second, and in a frame
     + le32((sample_rate * channels * 2) as u32) + le16((channels * 2) as u16)
    // bits in a sample
     + le16(16)
    // "data", and its bytes
     + seq![0x64u8, 0x61, 0x74, 0x61] + le32(stated_len(samples) as u32)
}

/// A whole file.
pub open spec fn wav(samples: Seq<i16>, sample_rate: u32, channels: u16) -> Seq<u8> {
    header(samples.len(), sample_rate, channels) + sample_bytes(samples)
}

fn push4(bytes: &mut Vec<u8>, a: u8, b: u8, c: u8, d: u8)
    ensures
        final(bytes)@ == old(bytes)@ + seq![a, b, c, d],
{
    bytes.push(a);
    bytes.push(b);
    bytes.push(c);
    bytes.push(d);
    assert(bytes@ =~= old(bytes)@ + seq![a, b, c, d]);
}

fn push_le16(bytes: &mut Vec<u8>, v: u16)
    ensures
        final(bytes)@ == old(bytes)@ + le16(v),
{
    bytes.push((v % 256) as u8);
    bytes.push((v / 256) as u8);
    assert(bytes@ =~= old(bytes)@ + le16(v));
}

fn push_le32(bytes: &mut Vec<u8>, v: u32)
    ensures
        final(bytes)@ == old(bytes)@ + le32(v),
{
    push4(
        bytes,
        (v % 256) as u8,
        (v / 256 % 256) as u8,
        (v / 65536 % 256) as u8,
        (v / 16777216) as u8,
    );
}

fn word_of(v: i16) -> (w: u16)
    ensures
        w == sample_word(v),
{
    if v < 0 {
        (v as i32 + 65536) as u16
    } else {
        v as u16
    }
}

/// Makes a file of interleaved samples.
pub fn write_wav_16(samples: &[i16], sample_rate: u32, channels: u16) -> (bytes: Vec<u8>)
    requires
        2 * samples@.len() <= usize::MAX,
        36 + stated_len(samples@.len()) <= u32::MAX,
        sample_rate * channels * 2 <= u32::MAX,
        channels * 2 <= u16::MAX,
    ensures
        bytes@ == wav(samples@, sample_rate, channels),
{
    let len: u64 = (samples.len() * 2) as u64;
    let data_len: u32 = (len % 0x1_0000_0000) as u32;
    assert(sample_rate * channels <= u32::MAX);
    let byte_rate: u32 = sample_rate * channels as u32 * 2;
    let block_align: u16 = channels * 2;
    let mut bytes: Vec<u8> = Vec::new();
    push4(&mut bytes, 0x52, 0x49, 0x46, 0x46);
    push_le32(&mut bytes, 36 + data_len);
    push4(&mut bytes, 0x57, 0x41, 0x56, 0x45);
    push4(&mut bytes, 0x66, 0x6d, 0x74, 0x20);
    push_le32(&mut bytes, 16);
    push_le16(&mut bytes, 1);
    push_le16(&mut bytes, channels);
    push_le32(&mut bytes, sample_rate);
    push_le32(&mut bytes, byte_rate);
    push_le16(&mut bytes, block_align);
    push_le16(&mut bytes, 16);
    push4(&mut bytes, 0x64, 0x61, 0x74, 0x61);
    push_le32(&mut bytes, data_len);
    assert(bytes@ =~= header(samples@.len(), sample_rate, channels));
    let mut i: usize = 0;
    while i < samples.len()
        invariant
            i <= samples@.len(),
            bytes@ == header(samples@.len(), sample_rate, channels) + sample_bytes(
                samples@.take(i as int),
            ),
        decreases samples@.len() - i,
    {
        push_le16(&mut bytes, word_of(samples[i]));
        assert(sample_bytes(samples@.take(i as int)) + le16(sample_word(samples@[i as int]))
            =~= sample_bytes(samples@.take(i + 1)));
        i = i + 1;
    }
    assert(samples@.take(i as int) =~= samples@);
    bytes
}

/// The 16-bit number at a position.
pub open spec fn word_at(bytes: Seq<u8>, at: int) -> int {
    bytes[at] + 256 * bytes[at + 1]
}

/// The 32-bit number at a position.
pub open spec fn long_at(bytes: Seq<u8>, at: int) -> int {
    word_at(bytes, at) + 65536 * word_at(bytes, at + 2)
}

/// The signed sample at a position.
pub open spec fn sample_at(bytes: Seq<u8>, at: int) -> int {
    let word = word_at(bytes, at);
    if word < 32768 {
        word
    } else {
        word - 65536
    }
}

proof fn lemma_word_at(bytes: Seq<u8>, at: int, v: u16)
    requires
        0 <= at <= bytes.len() - 2,
        bytes.subrange(at, at + 2) == le16(v),
    ensures
        word_at(bytes, at) == v,
{
    assert(bytes[at] == bytes.subrange(at, at + 2)[0]);
    assert(bytes[at + 1] == bytes.subrange(at, at + 2)[1]);
}

proof fn lemma_long_at(bytes: Seq<u8>, at: int, v: u32)
    requires
        0 <= at <= bytes.len() - 4,
        bytes.subrange(at, at + 4) == le32(v),
    ensures
        long_at(bytes, at) == v,
{
    assert(bytes[at] == bytes.subrange(at, at + 4)[0]);
    assert(bytes[at + 1] == bytes.subrange(at, at + 4)[1]);
    assert(bytes[at + 2] == bytes.subrange(at, at + 4)[2]);
    assert(bytes[at + 3] == bytes.subrange(at, at + 4)[3]);
}

proof fn lemma_header_fields(bytes: Seq<u8>, samples: nat, sample_rate: u32, channels: u16)
    requires
        bytes.len() >= HEADER_LEN,
        bytes.take(HEADER_LEN as int) == header(samples, sample_rate, channels),
    ensures
        bytes.subrange(4, 8) == le32((36 + stated_len(samples)) as u32),
        bytes.subrange(16, 20) == le32(16),
        bytes.subrange(20, 22) == le16(1),
        bytes.subrange(22, 24) == le16(channels),
        bytes.subrange(24, 28) == le32(sample_rate),
        bytes.subrange(28, 32) == le32((sample_rate * channels * 2) as u32),
        bytes.subrange(32, 34) == le16((channels * 2) as u16),
        bytes.subrange(34, 36) == le16(16),
        bytes.subrange(40, 44) == le32(stated_len(samples) as u32),
{
    let h = header(samples, sample_rate, channels);
    assert forall|i: int| 0 <= i < HEADER_LEN implies bytes[i] == h[i] by {
        assert(bytes.take(HEADER_LEN as int)[i] == h[i]);
    }
}

/// A file gives back what was written: the sample rate and the channels, the lengths, and every
/// sample.
pub proof fn lemma_wav_reads_back(samples: Seq<i16>, sample_rate: u32, channels: u16)
    requires
        36 + 2 * samples.len() <= u32::MAX,
        sample_rate * channels * 2 <= u32::MAX,
        channels * 2 <= u16::MAX,
    ensures
        ({
            let bytes = wav(samples, sample_rate, channels);
            &&& bytes.len() == HEADER_LEN + 2 * samples.len()
            &&& long_at(bytes, 4) == bytes.len() - 8
            &&& long_at(bytes, 16) == 16
            &&& word_at(bytes, 20) == 1
            &&& word_at(bytes, 22) == channels
            &&& long_at(bytes, 24) == sample_rate
            &&& long_at(bytes, 28) == sample_rate * channels * 2
            &&& word_at(bytes, 32) == channels * 2
            &&& word_at(bytes, 34) == 16
            &&& long_at(bytes, 40) == 2 * samples.len()
            &&& forall|i: int|
                0 <= i < samples.len() ==> sample_at(bytes, HEADER_LEN + 2 * i)
                    == #[trigger] samples[i]
        }),
{
    let bytes = wav(samples, sample_rate, channels);
    let h = header(samples.len(), sample_rate, channels);
    assert(bytes.take(HEADER_LEN as int) =~= h);
    lemma_header_fields(bytes, samples.len(), sample_rate, channels);
    lemma_long_at(bytes, 4, (36 + stated_len(samples.len())) as u32);
    lemma_long_at(bytes, 16, 16);
    lemma_word_at(bytes, 20, 1);
    lemma_word_at(bytes, 22, channels);
    lemma_long_at(bytes, 24, sample_rate);
    lemma_long_at(bytes, 28, (sample_rate * channels * 2) as u32);
    lemma_word_at(bytes, 32, (channels * 2) as u16);
    lemma_word_at(bytes, 34, 16);
    lemma_long_at(bytes, 40, stated_len(samples.len()) as u32);
    assert forall|i: int| 0 <= i < samples.len() implies sample_at(bytes, HEADER_LEN + 2 * i)
        == #[trigger] samples[i] by {
        assert(bytes[HEADER_LEN + 2 * i] == sample_bytes(samples)[2 * i]);
        assert(bytes[HEADER_LEN + 2 * i + 1] == sample_bytes(samples)[2 * i + 1]);
        assert((2 * i) / 2 == i && (2 * i + 1) / 2 == i);
    }
}

/// A file of any length gives back what was written. It begins with the marks of the format, states
/// the sample rate, the channels and what follows from them, and holds every sample in order. The
/// lengths that it states have 32 bits, and are counted on from zero where that is not enough.
#[verifier::spinoff_prover]
pub proof fn lemma_wav_fields(samples: Seq<i16>, sample_rate: u32, channels: u16)
    requires
        36 + (2 * samples.len()) % 0x1_0000_0000 <= u32::MAX,
        sample_rate * channels * 2 <= u32::MAX,
        channels * 2 <= u16::MAX,
    ensures
        ({
            let bytes = wav(samples, sample_rate, channels);
            let stated = (2 * samples.len()) % 0x1_0000_0000;
            &&& bytes.len() == 44 + 2 * samples.len()
            &&& bytes.subrange(0, 4) == seq!['R' as u8, 'I' as u8, 'F' as u8, 'F' as u8]
            &&& long_at(bytes, 4) == 36 + stated
            &&& bytes.subrange(8, 12) == seq!['W' as u8, 'A' as u8, 'V' as u8, 'E' as u8]
            &&& bytes.subrange(12, 16) == seq!['f' as u8, 'm' as u8, 't' as u8, ' ' as u8]
            &&& long_at(bytes, 16) == 16
            &&& word_at(bytes, 20) == 1
            &&& word_at(bytes, 22) == channels
            &&& long_at(bytes, 24) == sample_rate
            &&& long_at(bytes, 28) == sample_rate * channels * 2
            &&& word_at(bytes, 32) == channels * 2
            &&& word_at(bytes, 34) == 16
            &&& bytes.subrange(36, 40) == seq!['d' as u8, 'a' as u8, 't' as u8, 'a' as u8]
            &&& long_at(bytes, 40) == stated
            &&& forall|i: int|
                0 <= i < samples.len() ==> {
                    let low = bytes[44 + 2 * i];
                    let high = bytes[44 + 2 * i + 1];
                    (low + 256 * high - #[trigger] samples[i]) % 0x1_0000 == 0
                }
        }),
{
    let bytes = wav(samples, sample_rate, channels);
    let h = header(samples.len(), sample_rate, channels);
    assert(bytes.take(HEADER_LEN as int) =~= h);
    assert(bytes.subrange(0, 4) =~= h.subrange(0, 4));
    assert(bytes.subrange(8, 12) =~= h.subrange(8, 12));
    assert(bytes.subrange(12, 16) =~= h.subrange(12, 16));
    assert(bytes.subrange(36, 40) =~= h.subrange(36, 40));
    assert(h.subrange(0, 4) =~= seq![0x52u8, 0x49, 0x46, 0x46]);
    assert(h.subrange(8, 12) =~= seq![0x57u8, 0x41, 0x56, 0x45]);
    assert(h.subrange(12, 16) =~= seq![0x66u8, 0x6d, 0x74, 0x20]);
    assert(h.subrange(36, 40) =~= seq![0x64u8, 0x61, 0x74, 0x61]);
    lemma_header_fields(bytes, samples.len(), sample_rate, channels);
    lemma_long_at(bytes, 4, (36 + stated_len(samples.len())) as u32);
    lemma_long_at(bytes, 16, 16);
    lemma_word_at(bytes, 20, 1);
    lemma_word_at(bytes, 22, channels);
    lemma_long_at(bytes, 24, sample_rate);
    lemma_long_at(bytes, 28, (sample_rate * channels * 2) as u32);
    lemma_word_at(bytes, 32, (channels * 2) as u16);
    lemma_word_at(bytes, 34, 16);
    lemma_long_at(bytes, 40, stated_len(samples.len()) as u32);
    assert forall|i: int| 0 <= i < samples.len() implies {
        let low = bytes[44 + 2 * i];
        let high = bytes[44 + 2 * i + 1];
        (low + 256 * high - #[trigger] samples[i]) % 0x1_0000 == 0
    } by {
        assert(bytes[HEADER_LEN + 2 * i] == sample_bytes(samples)[2 * i]);
        assert(bytes[HEADER_LEN + 2 * i + 1] == sample_bytes(samples)[2 * i + 1]);
        assert((2 * i) / 2 == i && (2 * i + 1) / 2 == i);
    }
}

} // verus!
