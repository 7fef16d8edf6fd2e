use wavemorse::samples::{decode, decode_channel, parse_file};
use wavemorse::wav::{
    locate_data, parse_format, parse_header, parse_riff, ChunkReader, IoKind, MagicKind,
    WavError, WaveFormat,
};

/// A minimal well-formed mono PCM header in front of `payload`.
fn wav_bytes(payload: &[u8]) -> Vec<u8> {
    let mut v = Vec::new();
    v.extend_from_slice(b"RIFF");
    v.extend_from_slice(&636_998u32.to_le_bytes());
    v.extend_from_slice(b"WAVE");
    v.extend_from_slice(b"fmt ");
    v.extend_from_slice(&16u32.to_le_bytes());
    v.extend_from_slice(&1u16.to_le_bytes()); // PCM
    v.extend_from_slice(&1u16.to_le_bytes()); // mono
    v.extend_from_slice(&8000u32.to_le_bytes());
    v.extend_from_slice(&16000u32.to_le_bytes());
    v.extend_from_slice(&2u16.to_le_bytes());
    v.extend_from_slice(&16u16.to_le_bytes());
    v.extend_from_slice(b"data");
    v.extend_from_slice(&(payload.len() as u32).to_le_bytes());
    v.extend_from_slice(payload);
    v
}

#[test]
fn missing_riff_is_bad_magic() {
    let mut bytes = wav_bytes(&[]);
    bytes[0..4].copy_from_slice(b"JUNK");
    let mut r = ChunkReader::new(bytes);
    assert_eq!(
        parse_riff(&mut r).err().unwrap(),
        WavError::BadMagic(MagicKind::Riff)
    );
}

#[test]
fn missing_wave_is_bad_magic() {
    let mut bytes = wav_bytes(&[]);
    bytes[8..12].copy_from_slice(b"EAVW");
    let mut r = ChunkReader::new(bytes);
    assert_eq!(
        parse_riff(&mut r).err().unwrap(),
        WavError::BadMagic(MagicKind::Wave)
    );
}

#[test]
fn missing_fmt_is_missing_format_chunk() {
    let mut bytes = wav_bytes(&[]);
    bytes[12..16].copy_from_slice(b"tmf ");
    let mut r = ChunkReader::new(bytes);
    assert_eq!(
        parse_header(&mut r).err().unwrap(),
        WavError::MissingFormatChunk
    );
}

#[test]
fn wrong_fmt_len_is_invalid_format_chunk_length() {
    let mut bytes = wav_bytes(&[]);
    bytes[16..20].copy_from_slice(&18u32.to_le_bytes());
    let mut r = ChunkReader::new(bytes);
    assert_eq!(
        parse_header(&mut r).err().unwrap(),
        WavError::InvalidFormatChunkLength
    );
}

#[test]
fn non_pcm_is_unsupported_audio_format() {
    let mut bytes = wav_bytes(&[]);
    bytes[20..22].copy_from_slice(&3u16.to_le_bytes());
    let mut r = ChunkReader::new(bytes);
    assert_eq!(
        parse_header(&mut r).err().unwrap(),
        WavError::UnsupportedAudioFormat
    );
}

#[test]
fn missing_data_chunk_is_unexpected_eof() {
    let mut bytes = wav_bytes(&[]);
    bytes[36..40].copy_from_slice(b"list");
    let mut r = ChunkReader::new(bytes);
    assert_eq!(
        parse_header(&mut r).err().unwrap(),
        WavError::IOFailure(IoKind::UnexpectedEof)
    );
}

#[test]
fn invalid_utf8_tag_is_tag_decode_failure() {
    let mut bytes = wav_bytes(&[]);
    bytes[0] = 0xFF;
    let mut r = ChunkReader::new(bytes);
    assert_eq!(
        parse_riff(&mut r).err().unwrap(),
        WavError::TagDecodeFailure
    );
}

#[test]
fn truncated_file_is_unexpected_eof() {
    let bytes = b"RI".to_vec();
    let mut r = ChunkReader::new(bytes);
    assert_eq!(
        parse_riff(&mut r).err().unwrap(),
        WavError::IOFailure(IoKind::UnexpectedEof)
    );
}

#[test]
fn good_header_parses() {
    let bytes = wav_bytes(&[0, 0, 1, 0]);
    let mut r = ChunkReader::new(bytes);
    let header = parse_header(&mut r).unwrap();
    assert_eq!(header.riff.file_size, 636_998);
    assert_eq!(header.format.audio_format, WaveFormat::Pcm);
    assert_eq!(header.format.channel_count, 1);
    assert_eq!(header.format.sample_rate_hz, 8000);
    assert_eq!(header.format.byte_rate_hz, 16000);
    assert_eq!(header.format.block_align, 2);
    assert_eq!(header.format.bits_per_sample, 16);
    assert_eq!(r.pos, 44);
}

#[test]
fn unknown_subchunks_are_skipped() {
    let mut bytes = Vec::new();
    bytes.extend_from_slice(b"LIST");
    bytes.extend_from_slice(&3u32.to_le_bytes());
    bytes.extend_from_slice(b"abc");
    bytes.extend_from_slice(b"data");
    bytes.extend_from_slice(&0u32.to_le_bytes());
    let mut r = ChunkReader::new(bytes);
    assert!(locate_data(&mut r).is_ok());
    assert_eq!(r.pos, 19);
}

#[test]
fn wave_format_codes() {
    assert_eq!(WaveFormat::try_from(1).unwrap(), WaveFormat::Pcm);
    assert!(WaveFormat::try_from(3).is_err());
    assert_eq!(WaveFormat::Pcm.to_string(), "PCM");
}

#[test]
fn format_chunk_fields_decode() {
    let bytes = wav_bytes(&[]);
    let mut r = ChunkReader::new(bytes);
    let _ = parse_riff(&mut r).unwrap();
    let fmt = parse_format(&mut r).unwrap();
    assert_eq!(fmt.channel_count, 1);
    assert_eq!(fmt.bits_per_sample, 16);
}

#[test]
fn read_data_from_wave_file() {
    // Six little-endian samples 0..=5 behind a mono header.
    let payload: Vec<u8> = vec![0, 0, 1, 0, 2, 0, 3, 0, 4, 0, 5, 0];
    let bytes = wav_bytes(&payload);
    let wave = parse_file(&bytes);
    assert!(wave.is_ok());
    let wave = wave.unwrap();
    assert_eq!(wave.ldata, [0, 1, 2, 3, 4, 5]);
    assert!(wave.rdata.is_empty());
}

#[test]
fn stereo_payload_deinterleaves() {
    // Interleaved pairs: left 1,2 and right -1,-2; one trailing odd
    // byte is ignored.
    let payload: Vec<u8> = vec![1, 0, 0xFF, 0xFF, 2, 0, 0xFE, 0xFF, 9];
    assert_eq!(decode_channel(&payload, 0, 2, 0), [1, 2]);
    assert_eq!(decode_channel(&payload, 0, 2, 1), [-1, -2]);
}

#[test]
fn decode_end_to_end() {
    // A single 501-sample loud run inside 2000 samples decodes to e.
    let mut samples = vec![0i16; 2000];
    for s in &mut samples[100..601] {
        *s = 101;
    }
    let mut payload = Vec::new();
    for s in &samples {
        payload.extend_from_slice(&s.to_le_bytes());
    }
    let bytes = wav_bytes(&payload);
    let (header, text) = decode(&bytes, 100).unwrap();
    assert_eq!(header.format.channel_count, 1);
    assert_eq!(text, "e");
}
