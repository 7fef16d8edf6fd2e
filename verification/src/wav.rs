//! The WAV container parser: byte-exact validation of the RIFF/WAVE
//! prologue, the fixed-size format chunk, and the walk over optional
//! subchunks to the start of the sample payload.

use vstd::prelude::*;
use vstd::string::StringExecFns;
use vstd::utf8::valid_utf8;

verus! {

/// The RIFF prologue: the declared file size.
#[derive(Debug, Clone, Copy, PartialEq, Eq, Structural)]
pub struct RiffHeader {
    pub file_size: u32,
}

impl Default for RiffHeader {
    fn default() -> (r: RiffHeader)
        ensures
            r.file_size == 0,
    {
        RiffHeader { file_size: 0 }
    }
}

/// The audio encodings a format chunk can declare; only PCM is
/// accepted by the decoder.
#[derive(Debug, Clone, Copy, PartialEq, Eq, Structural)]
pub enum WaveFormat {
    Pcm,
    Float,
    Alaw,
    Mulaw,
    Extensible,
}

impl Default for WaveFormat {
    fn default() -> (r: WaveFormat)
        ensures
            r == WaveFormat::Float,
    {
        WaveFormat::Float
    }
}

impl WaveFormat {
    /// Only audio-format code 1, PCM, is accepted.
    pub fn try_from(value: u16) -> (r: Result<WaveFormat, WavError>)
        ensures
            value == 1 ==> r == Ok::<WaveFormat, WavError>(WaveFormat::Pcm),
            value != 1 ==> r == Err::<WaveFormat, WavError>(WavError::UnsupportedAudioFormat),
    {
        match value {
            1 => Ok(WaveFormat::Pcm),
            _ => Err(WavError::UnsupportedAudioFormat),
        }
    }

    /// The format's display name.
    pub fn to_string(&self) -> (r: String)
        ensures
            *self == WaveFormat::Pcm ==> r@ == "PCM"@,
            *self == WaveFormat::Float ==> r@ == "Float"@,
            *self == WaveFormat::Alaw ==> r@ == "ALAW"@,
            *self == WaveFormat::Mulaw ==> r@ == "MULAW"@,
            *self == WaveFormat::Extensible ==> r@ == "Extensible"@,
    {
        match self {
            WaveFormat::Alaw => String::from_str("ALAW"),
            WaveFormat::Pcm => String::from_str("PCM"),
            WaveFormat::Float => String::from_str("Float"),
            WaveFormat::Mulaw => String::from_str("MULAW"),
            WaveFormat::Extensible => String::from_str("Extensible"),
        }
    }
}

/// The decoded 16-byte format chunk.
#[derive(Debug, Clone, Copy, PartialEq, Eq, Structural)]
pub struct WaveFormatDescriptor {
    pub audio_format: WaveFormat,
    pub channel_count: u16,
    pub sample_rate_hz: u32,
    pub byte_rate_hz: u32,
    pub block_align: u16,
    pub bits_per_sample: u16,
}

/// Everything known about a file before its sample payload.
#[derive(Debug, Clone, Copy, PartialEq, Eq, Structural)]
pub struct WaveHeader {
    pub riff: RiffHeader,
    pub format: WaveFormatDescriptor,
}

/// Which of the two prologue tags was wrong.
#[derive(Debug, Clone, Copy, PartialEq, Eq, Structural)]
pub enum MagicKind {
    Riff,
    Wave,
}

/// The kind of input/output failure being reported.
#[derive(Debug, Clone, Copy, PartialEq, Eq, Structural)]
pub enum IoKind {
    NotFound,
    UnexpectedEof,
}

/// Everything that can go wrong before the sample payload is reached.
/// Decoding the payload itself never fails.
#[derive(Debug, Clone, Copy, PartialEq, Eq, Structural)]
pub enum WavError {
    BadMagic(MagicKind),
    MissingFormatChunk,
    InvalidFormatChunkLength,
    UnsupportedAudioFormat,
    IOFailure(IoKind),
    TagDecodeFailure,
}

impl WavError {
    /// What went wrong, in words a user can read.
    pub fn message(&self) -> (r: &'static str)
        ensures
            *self == WavError::BadMagic(MagicKind::Riff) ==> r@
                == "'RIFF' wasn't at the start of the file"@,
            *self == WavError::BadMagic(MagicKind::Wave) ==> r@
                == "'WAVE' wasn't in the right place of the header"@,
            *self == WavError::MissingFormatChunk ==> r@ == "'fmt ' not present"@,
            *self == WavError::InvalidFormatChunkLength ==> r@
                == "Format chunk size expected to be fixed at 16, but this wasn't in the file, or it wasn't in the right place"@,
            *self == WavError::UnsupportedAudioFormat ==> r@
                == "Expected the file to by a PCM format, but it wasn't"@,
            self matches WavError::IOFailure(_) ==> r@
                == "FileIO error and unable to read from the file. Ensure it has a valid 'data' subchunk"@,
            *self == WavError::TagDecodeFailure ==> r@ == "Error converting Data to string"@,
    {
        match self {
            WavError::BadMagic(MagicKind::Riff) => "'RIFF' wasn't at the start of the file",
            WavError::BadMagic(MagicKind::Wave) => "'WAVE' wasn't in the right place of the header",
            WavError::MissingFormatChunk => "'fmt ' not present",
            WavError::InvalidFormatChunkLength => "Format chunk size expected to be fixed at 16, but this wasn't in the file, or it wasn't in the right place",
            WavError::UnsupportedAudioFormat => "Expected the file to by a PCM format, but it wasn't",
            WavError::IOFailure(_) => "FileIO error and unable to read from the file. Ensure it has a valid 'data' subchunk",
            WavError::TagDecodeFailure => "Error converting Data to string",
        }
    }
}

/// The unsigned 16-bit value two bytes hold in little-endian order.
pub open spec fn le_u16(b0: u8, b1: u8) -> u16 {
    (b0 + b1 * 0x100) as u16
}

/// The unsigned 32-bit value four bytes hold in little-endian order.
pub open spec fn le_u32(b0: u8, b1: u8, b2: u8, b3: u8) -> u32 {
    (b0 + b1 * 0x100 + b2 * 0x10000 + b3 * 0x1000000) as u32
}

/// The signed 16-bit value two bytes hold in little-endian order.
pub open spec fn le_i16(b0: u8, b1: u8) -> i16 {
    if b1 < 0x80 {
        (b0 + b1 * 0x100) as i16
    } else {
        (b0 + b1 * 0x100 - 0x10000) as i16
    }
}

/// The ASCII bytes of `"RIFF"`.
pub open spec fn is_riff_tag(b0: u8, b1: u8, b2: u8, b3: u8) -> bool {
    b0 == 0x52 && b1 == 0x49 && b2 == 0x46 && b3 == 0x46
}

/// The ASCII bytes of `"WAVE"`.
pub open spec fn is_wave_tag(b0: u8, b1: u8, b2: u8, b3: u8) -> bool {
    b0 == 0x57 && b1 == 0x41 && b2 == 0x56 && b3 == 0x45
}

/// The ASCII bytes of `"fmt "`.
pub open spec fn is_fmt_tag(b0: u8, b1: u8, b2: u8, b3: u8) -> bool {
    b0 == 0x66 && b1 == 0x6d && b2 == 0x74 && b3 == 0x20
}

/// The ASCII bytes of `"data"`.
pub open spec fn is_data_tag(b0: u8, b1: u8, b2: u8, b3: u8) -> bool {
    b0 == 0x64 && b1 == 0x61 && b2 == 0x74 && b3 == 0x61
}

/// Relies on std's `str::from_utf8`: it returns `Ok` exactly when the
/// bytes are valid UTF-8, which decides whether a chunk tag is
/// reported as unreadable or merely wrong.
#[verifier::external_body]
fn is_valid_utf8_4(b0: u8, b1: u8, b2: u8, b3: u8) -> (r: bool)
    ensures
        r == valid_utf8(seq![b0, b1, b2, b3]),
{
    std::str::from_utf8(&[b0, b1, b2, b3]).is_ok()
}

/// Primitive exact-byte reads and forward seeks over an in-memory
/// byte source; everything else in the container parser is built on
/// it.
pub struct ChunkReader {
    pub data: Vec<u8>,
    pub pos: usize,
}

impl ChunkReader {
    /// The cursor never leaves the buffer.
    pub open spec fn wf(&self) -> bool {
        self.pos <= self.data@.len()
    }

    pub fn new(data: Vec<u8>) -> (r: ChunkReader)
        ensures
            r.wf(),
            r.data@ == data@,
            r.pos == 0,
    {
        ChunkReader { data, pos: 0 }
    }

    /// Reads exactly four bytes, advancing the cursor; fails without
    /// moving when fewer than four bytes remain.
    pub fn read4(&mut self) -> (r: Result<(u8, u8, u8, u8), WavError>)
        requires
            old(self).wf(),
        ensures
            final(self).wf(),
            final(self).data@ == old(self).data@,
            old(self).pos + 4 <= old(self).data@.len() ==> {
                &&& r == Ok::<(u8, u8, u8, u8), WavError>(
                    (
                        old(self).data@[old(self).pos as int],
                        old(self).data@[old(self).pos + 1],
                        old(self).data@[old(self).pos + 2],
                        old(self).data@[old(self).pos + 3],
                    ),
                )
                &&& final(self).pos == old(self).pos + 4
            },
            old(self).pos + 4 > old(self).data@.len() ==> {
                &&& r == Err::<(u8, u8, u8, u8), WavError>(WavError::IOFailure(
                    IoKind::UnexpectedEof,
                ))
                &&& final(self).pos == old(self).pos
            },
    {
        if self.data.len() - self.pos >= 4 {
            let b0 = self.data[self.pos];
            let b1 = self.data[self.pos + 1];
            let b2 = self.data[self.pos + 2];
            let b3 = self.data[self.pos + 3];
            self.pos = self.pos + 4;
            Ok((b0, b1, b2, b3))
        } else {
            Err(WavError::IOFailure(IoKind::UnexpectedEof))
        }
    }

    /// Seeks forward by `n` bytes, stopping at the end of the buffer,
    /// from where every later read fails.
    pub fn skip(&mut self, n: u32)
        requires
            old(self).wf(),
        ensures
            final(self).wf(),
            final(self).data@ == old(self).data@,
            final(self).pos == spec_skip_pos(old(self).data@, old(self).pos as int, n),
    {
        let remaining = self.data.len() - self.pos;
        if n as usize >= remaining {
            self.pos = self.data.len();
        } else {
            self.pos = self.pos + n as usize;
        }
    }
}

/// Where a forward seek of `n` bytes lands: capped at the end of the
/// source.
pub open spec fn spec_skip_pos(data: Seq<u8>, pos: int, n: u32) -> int {
    if pos + n >= data.len() {
        data.len() as int
    } else {
        pos + n
    }
}

/// What parsing the 12-byte RIFF/WAVE prologue at `pos` yields: the
/// declared file size, or the first failure in reading order.
pub open spec fn spec_parse_riff(data: Seq<u8>, pos: int) -> Result<RiffHeader, WavError> {
    if pos + 4 > data.len() {
        Err(WavError::IOFailure(IoKind::UnexpectedEof))
    } else if !valid_utf8(seq![data[pos], data[pos + 1], data[pos + 2], data[pos + 3]]) {
        Err(WavError::TagDecodeFailure)
    } else if !is_riff_tag(data[pos], data[pos + 1], data[pos + 2], data[pos + 3]) {
        Err(WavError::BadMagic(MagicKind::Riff))
    } else if pos + 8 > data.len() {
        Err(WavError::IOFailure(IoKind::UnexpectedEof))
    } else if pos + 12 > data.len() {
        Err(WavError::IOFailure(IoKind::UnexpectedEof))
    } else if !valid_utf8(seq![data[pos + 8], data[pos + 9], data[pos + 10], data[pos + 11]]) {
        Err(WavError::TagDecodeFailure)
    } else if !is_wave_tag(data[pos + 8], data[pos + 9], data[pos + 10], data[pos + 11]) {
        Err(WavError::BadMagic(MagicKind::Wave))
    } else {
        Ok(RiffHeader { file_size: le_u32(data[pos + 4], data[pos + 5], data[pos + 6], data[pos + 7]) })
    }
}

/// Validates the RIFF/WAVE prologue and extracts the declared file
/// size. Twelve bytes are consumed on success; no side effect beyond
/// the cursor.
pub fn parse_riff(r: &mut ChunkReader) -> (res: Result<RiffHeader, WavError>)
    requires
        old(r).wf(),
    ensures
        final(r).wf(),
        final(r).data@ == old(r).data@,
        res == spec_parse_riff(old(r).data@, old(r).pos as int),
        res is Ok ==> final(r).pos == old(r).pos + 12,
{
    let (b0, b1, b2, b3) = match r.read4() {
        Ok(t) => t,
        Err(e) => { return Err(e); },
    };
    if !is_valid_utf8_4(b0, b1, b2, b3) {
        return Err(WavError::TagDecodeFailure);
    }
    if !(b0 == 0x52 && b1 == 0x49 && b2 == 0x46 && b3 == 0x46) {
        return Err(WavError::BadMagic(MagicKind::Riff));
    }
    let (s0, s1, s2, s3) = match r.read4() {
        Ok(t) => t,
        Err(e) => { return Err(e); },
    };
    let (w0, w1, w2, w3) = match r.read4() {
        Ok(t) => t,
        Err(e) => { return Err(e); },
    };
    if !is_valid_utf8_4(w0, w1, w2, w3) {
        return Err(WavError::TagDecodeFailure);
    }
    if !(w0 == 0x57 && w1 == 0x41 && w2 == 0x56 && w3 == 0x45) {
        return Err(WavError::BadMagic(MagicKind::Wave));
    }
    let file_size = (s0 as u32) + (s1 as u32) * 0x100 + (s2 as u32) * 0x10000 + (s3 as u32)
        * 0x1000000;
    Ok(RiffHeader { file_size })
}

/// What parsing the format chunk at `pos` yields: the decoded format
/// descriptor, or the first failure in reading order. The chunk tag
/// must read `"fmt "` and the declared chunk length must be exactly
/// 16; only audio-format code 1 (PCM) is accepted.
pub open spec fn spec_parse_format(data: Seq<u8>, pos: int) -> Result<
    WaveFormatDescriptor,
    WavError,
> {
    if pos + 4 > data.len() {
        Err(WavError::IOFailure(IoKind::UnexpectedEof))
    } else if !valid_utf8(seq![data[pos], data[pos + 1], data[pos + 2], data[pos + 3]]) {
        Err(WavError::TagDecodeFailure)
    } else if !is_fmt_tag(data[pos], data[pos + 1], data[pos + 2], data[pos + 3]) {
        Err(WavError::MissingFormatChunk)
    } else if pos + 8 > data.len() {
        Err(WavError::IOFailure(IoKind::UnexpectedEof))
    } else if le_u32(data[pos + 4], data[pos + 5], data[pos + 6], data[pos + 7]) != 16 {
        Err(WavError::InvalidFormatChunkLength)
    } else if pos + 12 > data.len() {
        Err(WavError::IOFailure(IoKind::UnexpectedEof))
    } else if le_u16(data[pos + 8], data[pos + 9]) != 1 {
        Err(WavError::UnsupportedAudioFormat)
    } else if pos + 16 > data.len() {
        Err(WavError::IOFailure(IoKind::UnexpectedEof))
    } else if pos + 20 > data.len() {
        Err(WavError::IOFailure(IoKind::UnexpectedEof))
    } else if pos + 24 > data.len() {
        Err(WavError::IOFailure(IoKind::UnexpectedEof))
    } else {
        Ok(
            WaveFormatDescriptor {
                audio_format: WaveFormat::Pcm,
                channel_count: le_u16(data[pos + 10], data[pos + 11]),
                sample_rate_hz: le_u32(data[pos + 12], data[pos + 13], data[pos + 14], data[pos + 15]),
                byte_rate_hz: le_u32(data[pos + 16], data[pos + 17], data[pos + 18], data[pos + 19]),
                block_align: le_u16(data[pos + 20], data[pos + 21]),
                bits_per_sample: le_u16(data[pos + 22], data[pos + 23]),
            },
        )
    }
}

/// Validates and decodes the fixed 16-byte `"fmt "` chunk.
/// Twenty-four bytes are consumed on success.
pub fn parse_format(r: &mut ChunkReader) -> (res: Result<WaveFormatDescriptor, WavError>)
    requires
        old(r).wf(),
    ensures
        final(r).wf(),
        final(r).data@ == old(r).data@,
        res == spec_parse_format(old(r).data@, old(r).pos as int),
        res is Ok ==> final(r).pos == old(r).pos + 24,
{
    let (t0, t1, t2, t3) = match r.read4() {
        Ok(t) => t,
        Err(e) => { return Err(e); },
    };
    if !is_valid_utf8_4(t0, t1, t2, t3) {
        return Err(WavError::TagDecodeFailure);
    }
    if !(t0 == 0x66 && t1 == 0x6d && t2 == 0x74 && t3 == 0x20) {
        return Err(WavError::MissingFormatChunk);
    }
    let (l0, l1, l2, l3) = match r.read4() {
        Ok(t) => t,
        Err(e) => { return Err(e); },
    };
    let fmt_len = (l0 as u32) + (l1 as u32) * 0x100 + (l2 as u32) * 0x10000 + (l3 as u32)
        * 0x1000000;
    if fmt_len != 16 {
        return Err(WavError::InvalidFormatChunkLength);
    }
    let (a0, a1, c0, c1) = match r.read4() {
        Ok(t) => t,
        Err(e) => { return Err(e); },
    };
    let audio_format_code = (a0 as u16) + (a1 as u16) * 0x100;
    if audio_format_code != 1 {
        return Err(WavError::UnsupportedAudioFormat);
    }
    let channel_count = (c0 as u16) + (c1 as u16) * 0x100;
    let (r0, r1, r2, r3) = match r.read4() {
        Ok(t) => t,
        Err(e) => { return Err(e); },
    };
    let sample_rate_hz = (r0 as u32) + (r1 as u32) * 0x100 + (r2 as u32) * 0x10000 + (r3 as u32)
        * 0x1000000;
    let (y0, y1, y2, y3) = match r.read4() {
        Ok(t) => t,
        Err(e) => { return Err(e); },
    };
    let byte_rate_hz = (y0 as u32) + (y1 as u32) * 0x100 + (y2 as u32) * 0x10000 + (y3 as u32)
        * 0x1000000;
    let (g0, g1, p0, p1) = match r.read4() {
        Ok(t) => t,
        Err(e) => { return Err(e); },
    };
    let block_align = (g0 as u16) + (g1 as u16) * 0x100;
    let bits_per_sample = (p0 as u16) + (p1 as u16) * 0x100;
    Ok(
        WaveFormatDescriptor {
            audio_format: WaveFormat::Pcm,
            channel_count,
            sample_rate_hz,
            byte_rate_hz,
            block_align,
            bits_per_sample,
        },
    )
}

/// Where the sample payload starts when the subchunk walk beginning
/// at `pos` finds a `"data"` tag: each other subchunk is skipped over
/// by its declared length, and running out of bytes first is an
/// end-of-source failure.
pub open spec fn spec_locate_data(data: Seq<u8>, pos: int) -> Result<int, WavError>
    decreases data.len() - pos,
    when 0 <= pos <= data.len()
{
    if pos + 4 > data.len() {
        Err(WavError::IOFailure(IoKind::UnexpectedEof))
    } else if !valid_utf8(seq![data[pos], data[pos + 1], data[pos + 2], data[pos + 3]]) {
        Err(WavError::TagDecodeFailure)
    } else if pos + 8 > data.len() {
        Err(WavError::IOFailure(IoKind::UnexpectedEof))
    } else if is_data_tag(data[pos], data[pos + 1], data[pos + 2], data[pos + 3]) {
        Ok(pos + 8)
    } else {
        spec_locate_data(
            data,
            spec_skip_pos(data, pos + 8, le_u32(data[pos + 4], data[pos + 5], data[pos + 6], data[pos + 7])),
        )
    }
}

/// Skips arbitrary intervening subchunks until the `"data"` subchunk
/// is found, leaving the cursor at the start of the sample payload.
pub fn locate_data(r: &mut ChunkReader) -> (res: Result<(), WavError>)
    requires
        old(r).wf(),
    ensures
        final(r).wf(),
        final(r).data@ == old(r).data@,
        res is Ok ==> spec_locate_data(old(r).data@, old(r).pos as int) == Ok::<int, WavError>(
            final(r).pos as int,
        ),
        res matches Err(e) ==> spec_locate_data(old(r).data@, old(r).pos as int) == Err::<
            int,
            WavError,
        >(e),
    decreases old(r).data@.len() - old(r).pos,
{
    let (t0, t1, t2, t3) = match r.read4() {
        Ok(t) => t,
        Err(e) => { return Err(e); },
    };
    if !is_valid_utf8_4(t0, t1, t2, t3) {
        return Err(WavError::TagDecodeFailure);
    }
    let (l0, l1, l2, l3) = match r.read4() {
        Ok(t) => t,
        Err(e) => { return Err(e); },
    };
    if t0 == 0x64 && t1 == 0x61 && t2 == 0x74 && t3 == 0x61 {
        return Ok(());
    }
    let chunk_len = (l0 as u32) + (l1 as u32) * 0x100 + (l2 as u32) * 0x10000 + (l3 as u32)
        * 0x1000000;
    r.skip(chunk_len);
    locate_data(r)
}

/// What parsing a whole header yields: the RIFF prologue at offset 0,
/// the format chunk at offset 12, then the subchunk walk from offset
/// 36; on success, the header and the payload's start offset.
pub open spec fn spec_parse_header(data: Seq<u8>) -> Result<(WaveHeader, int), WavError> {
    match spec_parse_riff(data, 0) {
        Err(e) => Err(e),
        Ok(riff) => match spec_parse_format(data, 12) {
            Err(e) => Err(e),
            Ok(format) => match spec_locate_data(data, 36) {
                Err(e) => Err(e),
                Ok(payload_start) => Ok((WaveHeader { riff, format }, payload_start)),
            },
        },
    }
}

/// Parses the complete header, leaving the cursor at the start of the
/// sample payload. On any failure the whole parse fails with that
/// component's error and no partial header is returned.
pub fn parse_header(r: &mut ChunkReader) -> (res: Result<WaveHeader, WavError>)
    requires
        old(r).wf(),
        old(r).pos == 0,
    ensures
        final(r).wf(),
        final(r).data@ == old(r).data@,
        res matches Ok(h) ==> {
            &&& spec_parse_header(old(r).data@) matches Ok(p) && p.0 == h && p.1 == final(r).pos
        },
        res matches Err(e) ==> spec_parse_header(old(r).data@) == Err::<
            (WaveHeader, int),
            WavError,
        >(e),
{
    let riff = match parse_riff(r) {
        Ok(h) => h,
        Err(e) => { return Err(e); },
    };
    let format = match parse_format(r) {
        Ok(f) => f,
        Err(e) => { return Err(e); },
    };
    match locate_data(r) {
        Ok(()) => Ok(WaveHeader { riff, format }),
        Err(e) => Err(e),
    }
}

/// How the program is configured: the file to decode.
#[derive(Debug, PartialEq, Eq)]
pub struct Config {
    pub fname: String,
}

/// Why the argument list was rejected.
#[derive(Debug, PartialEq, Eq, Structural)]
pub enum ConfigParseError {
    NotEnoughArgs,
    TooManyArgs,
}

impl Config {
    /// Exactly one argument besides the program name: the file name.
    pub fn try_from(args: &[String]) -> (r: Result<Config, ConfigParseError>)
        ensures
            args@.len() < 2 ==> r == Err::<Config, ConfigParseError>(
                ConfigParseError::NotEnoughArgs,
            ),
            args@.len() > 2 ==> r == Err::<Config, ConfigParseError>(
                ConfigParseError::TooManyArgs,
            ),
            args@.len() == 2 ==> (r matches Ok(c) && c.fname@ == args@[1]@),
    {
        if args.len() < 2 {
            return Err(ConfigParseError::NotEnoughArgs);
        }
        if args.len() > 2 {
            return Err(ConfigParseError::TooManyArgs);
        }
        Ok(Config { fname: args[1].clone() })
    }
}

/// The older argument parser: the same rule, with a single message
/// for both failure modes.
pub fn parse_args(args: &[String]) -> (r: Result<Config, &'static str>)
    ensures
        args@.len() == 2 ==> (r matches Ok(c) && c.fname@ == args@[1]@),
        args@.len() != 2 ==> (r matches Err(m) && m@ == "Incorrect number of arguments"@),
{
    if args.len() != 2 {
        return Err("Incorrect number of arguments");
    }
    Ok(Config { fname: args[1].clone() })
}

} // verus!
