//! Sample extraction and the decoder's composition: slicing the raw
//! payload into per-channel signed 16-bit samples and running the
//! whole pipeline from container bytes to decoded text.

use vstd::prelude::*;
use vstd::arithmetic::div_mod::{lemma_div_denominator, lemma_fundamental_div_mod,
    lemma_mod_division_less_than_divisor};
use vstd::arithmetic::mul::lemma_mul_inequality;
use vstd::slice::slice_to_vec;

use crate::decoder;
use crate::wav::{le_i16, parse_header, spec_parse_header, ChunkReader, WavError, WaveHeader};

verus! {

/// Relies on byteorder's `LittleEndian::read_i16`: the signed value
/// the two bytes hold in little-endian order.
#[verifier::external_body]
fn read_i16_le(lo: u8, hi: u8) -> (r: i16)
    ensures
        r == le_i16(lo, hi),
{
    <byteorder::LittleEndian as byteorder::ByteOrder>::read_i16(&[lo, hi])
}

/// The samples of one channel of an interleaved payload: sample `k`
/// of channel `c` is the little-endian pair at byte offset
/// `2 * (k * channel_count + c)`, and each channel holds
/// `payload_bytes / (2 * channel_count)` samples. Trailing bytes of a
/// malformed payload are ignored.
pub open spec fn spec_channel_samples(payload: Seq<u8>, channel_count: int, channel: int) -> Seq<
    i16,
> {
    Seq::new(
        (payload.len() as int / (2 * channel_count)) as nat,
        |k: int|
            le_i16(
                payload[2 * (k * channel_count + channel)],
                payload[2 * (k * channel_count + channel) + 1],
            ),
    )
}

/// Every sample of the chosen channel sits inside the payload.
proof fn lemma_sample_index_in_bounds(len: int, channel_count: int, channel: int, k: int)
    requires
        1 <= channel_count,
        0 <= channel < channel_count,
        0 <= k < len / (2 * channel_count),
    ensures
        2 * (k * channel_count + channel) + 1 < len,
        0 <= 2 * (k * channel_count + channel),
{
    let n = len / (2 * channel_count);
    lemma_fundamental_div_mod(len, 2 * channel_count);
    lemma_mod_division_less_than_divisor(len, 2 * channel_count);
    assert((2 * channel_count) * n <= len);
    lemma_mul_inequality(k, n - 1, channel_count);
    assert(k * channel_count <= (n - 1) * channel_count);
    assert((n - 1) * channel_count == n * channel_count - channel_count) by (nonlinear_arith);
    assert((2 * channel_count) * n == 2 * (n * channel_count)) by (nonlinear_arith);
    assert(k * channel_count >= 0) by (nonlinear_arith)
        requires
            k >= 0,
            channel_count >= 1,
    ;
}

/// Slices the payload, starting at `start`, into the samples of one
/// channel, honouring the channel count and interleaving.
pub fn decode_channel(data: &[u8], start: usize, channel_count: u16, channel: u16) -> (r: Vec<i16>)
    requires
        start <= data@.len(),
        1 <= channel_count,
        channel < channel_count,
    ensures
        r@ == spec_channel_samples(
            data@.skip(start as int),
            channel_count as int,
            channel as int,
        ),
{
    let ghost payload = data@.skip(start as int);
    let ghost icc = channel_count as int;
    let ghost ich = channel as int;
    let cc = channel_count as usize;
    let ch = channel as usize;
    let n = (data.len() - start) / 2 / cc;
    proof {
        lemma_div_denominator(payload.len() as int, 2, icc);
        assert(n as int == payload.len() as int / (2 * icc));
    }
    let mut out: Vec<i16> = Vec::new();
    let mut k: usize = 0;
    while k < n
        invariant
            k <= n,
            start <= data@.len(),
            data@.len() <= usize::MAX,
            1 <= cc == channel_count,
            ch == channel < cc,
            payload == data@.skip(start as int),
            icc == channel_count as int,
            ich == channel as int,
            n as int == payload.len() as int / (2 * icc),
            out@ == spec_channel_samples(payload, icc, ich).take(k as int),
        decreases n - k,
    {
        proof {
            lemma_sample_index_in_bounds(payload.len() as int, icc, ich, k as int);
            lemma_fundamental_div_mod(payload.len() as int, 2 * icc);
            lemma_mod_division_less_than_divisor(payload.len() as int, 2 * icc);
            assert(2 * (k as int * icc + ich) + 1 < payload.len() as int);
            assert(payload.len() + start == data@.len());
            assert(k as int * cc as int == k as int * icc);
            assert(k as int * cc as int + ch as int <= usize::MAX as int);
            assert(2 * (k as int * cc as int + ch as int) <= usize::MAX as int);
            assert(start as int + 2 * (k as int * cc as int + ch as int) + 1 < data@.len() as int);
        }
        let idx = 2 * (k * cc + ch);
        let lo = data[start + idx];
        let hi = data[start + idx + 1];
        let sample = read_i16_le(lo, hi);
        out.push(sample);
        k = k + 1;
        proof {
            assert(out@ =~= spec_channel_samples(payload, icc, ich).take(k as int));
        }
    }
    proof {
        assert(spec_channel_samples(payload, icc, ich).take(n as int) =~= spec_channel_samples(
            payload,
            icc,
            ich,
        ));
    }
    out
}

/// A parsed file: its header and the de-interleaved samples, the
/// right channel filled only for two-channel files.
#[derive(Debug)]
pub struct WaveFile {
    pub header: WaveHeader,
    pub ldata: Vec<i16>,
    pub rdata: Vec<i16>,
}

/// A parsed header declares at least one channel. A zero-channel
/// file leaves the sample stride undefined, so such files are
/// outside this parser's domain; callers check the channel count
/// first where the input is untrusted.
pub open spec fn spec_channels_ok(data: Seq<u8>) -> bool {
    spec_parse_header(data) matches Ok(p) ==> p.0.format.channel_count >= 1
}

/// Parses a whole in-memory file: the validated header and the
/// samples of up to two channels.
pub fn parse_file(data: &[u8]) -> (res: Result<WaveFile, WavError>)
    requires
        spec_channels_ok(data@),
    ensures
        res matches Ok(f) ==> {
            &&& spec_parse_header(data@) matches Ok(p)
            &&& f.header == p.0
            &&& f.ldata@ == spec_channel_samples(
                data@.skip(p.1),
                p.0.format.channel_count as int,
                0,
            )
            &&& f.rdata@ == if p.0.format.channel_count == 2 {
                spec_channel_samples(data@.skip(p.1), 2, 1)
            } else {
                Seq::<i16>::empty()
            }
        },
        res matches Err(e) ==> spec_parse_header(data@) == Err::<(WaveHeader, int), WavError>(e),
{
    let mut reader = ChunkReader::new(slice_to_vec(data));
    let header = match parse_header(&mut reader) {
        Ok(h) => h,
        Err(e) => { return Err(e); },
    };
    let cc = header.format.channel_count;
    let ldata = decode_channel(data, reader.pos, cc, 0);
    let rdata = if cc == 2 {
        decode_channel(data, reader.pos, cc, 1)
    } else {
        Vec::new()
    };
    Ok(WaveFile { header, ldata, rdata })
}

/// Decodes a whole in-memory WAV file: the validated header together
/// with the text demodulated from channel 0 at the given amplitude
/// threshold. Header failures abort with that component's error; the
/// sample-to-text stage itself never fails.
pub fn decode(data: &[u8], threshold: i16) -> (res: Result<(WaveHeader, String), WavError>)
    requires
        spec_channels_ok(data@),
    ensures
        res matches Ok(p) ==> {
            &&& spec_parse_header(data@) matches Ok(h)
            &&& p.0 == h.0
            &&& p.1@ == decoder::spec_parse(
                spec_channel_samples(data@.skip(h.1), h.0.format.channel_count as int, 0),
                threshold,
            )
        },
        res matches Err(e) ==> spec_parse_header(data@) == Err::<(WaveHeader, int), WavError>(e),
{
    let file = match parse_file(data) {
        Ok(f) => f,
        Err(e) => { return Err(e); },
    };
    let text = decoder::parse(file.ldata.as_slice(), threshold);
    Ok((file.header, text))
}

} // verus!
