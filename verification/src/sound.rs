//! Sound records.
use vstd::prelude::*;
use vstd::arithmetic::power2::{pow2, lemma2_to64};
use crate::ast_tags::{AudioCodingFormat, SoundEnvelope, SoundInfo, SoundInfoModel, SoundRate};
use crate::bytes::{parse_le_u16, parse_le_u32, parse_u8, spec_le_u16, spec_le_u32, spec_u8};
use crate::error::{ParseError, PResult, SpecResult, parsed_as, sbind, sopt};

verus! {

pub open spec fn spec_sound_rate(code: u8) -> Option<SoundRate> {
    if code == 0 {
        Some(SoundRate::SoundRate5500)
    } else if code == 1 {
        Some(SoundRate::SoundRate11000)
    } else if code == 2 {
        Some(SoundRate::SoundRate22000)
    } else if code == 3 {
        Some(SoundRate::SoundRate44000)
    } else {
        None
    }
}

/// The sampling rate that a sound rate stands for, in Hz (the lowest is 5512.5 Hz,
/// rounded down).
pub open spec fn sound_rate_hz(rate: SoundRate) -> nat {
    match rate {
        SoundRate::SoundRate5500 => 5512,
        SoundRate::SoundRate11000 => 11025,
        SoundRate::SoundRate22000 => 22050,
        SoundRate::SoundRate44000 => 44100,
    }
}

/// The two-bit sound rate code counts octaves up from 5512.5 Hz: code `c` stands for
/// 44100 Hz divided by 2 to the power 3 - c, and only codes 0 to 3 stand for a rate.
pub proof fn lemma_sound_rate_codes(code: u8)
    ensures
        spec_sound_rate(code) is Some <==> code < 4,
        spec_sound_rate(code) matches Some(rate) ==> sound_rate_hz(rate) == 44100nat / pow2(
            (3 - code) as nat,
        ),
{
    lemma2_to64();
    if code == 0 {
        assert(44100nat / 8 == 5512);
    } else if code == 1 {
        assert(44100nat / 4 == 11025);
    } else if code == 2 {
        assert(44100nat / 2 == 22050);
    } else if code == 3 {
        assert(44100nat / 1 == 44100);
    }
}

pub fn sound_rate_from_code(sound_rate_code: u8) -> (r: Result<SoundRate, ()>)
    ensures
        match spec_sound_rate(sound_rate_code) {
            Some(v) => r == Ok::<SoundRate, ()>(v),
            None => r is Err,
        },
{
    match sound_rate_code {
        0 => Ok(SoundRate::SoundRate5500),
        1 => Ok(SoundRate::SoundRate11000),
        2 => Ok(SoundRate::SoundRate22000),
        3 => Ok(SoundRate::SoundRate44000),
        _ => Err(()),
    }
}

pub open spec fn spec_audio_coding_format(code: u8) -> Option<AudioCodingFormat> {
    if code == 0 {
        Some(AudioCodingFormat::UncompressedNativeEndian)
    } else if code == 1 {
        Some(AudioCodingFormat::Adpcm)
    } else if code == 2 {
        Some(AudioCodingFormat::Mp3)
    } else if code == 3 {
        Some(AudioCodingFormat::UncompressedLittleEndian)
    } else if code == 4 {
        Some(AudioCodingFormat::Nellymoser16)
    } else if code == 5 {
        Some(AudioCodingFormat::Nellymoser8)
    } else if code == 6 {
        Some(AudioCodingFormat::Nellymoser)
    } else if code == 11 {
        Some(AudioCodingFormat::Speex)
    } else {
        None
    }
}

pub fn audio_coding_format_from_code(audio_codec_code: u8) -> (r: Result<AudioCodingFormat, ()>)
    ensures
        match spec_audio_coding_format(audio_codec_code) {
            Some(v) => r == Ok::<AudioCodingFormat, ()>(v),
            None => r is Err,
        },
{
    match audio_codec_code {
        0 => Ok(AudioCodingFormat::UncompressedNativeEndian),
        1 => Ok(AudioCodingFormat::Adpcm),
        2 => Ok(AudioCodingFormat::Mp3),
        3 => Ok(AudioCodingFormat::UncompressedLittleEndian),
        4 => Ok(AudioCodingFormat::Nellymoser16),
        5 => Ok(AudioCodingFormat::Nellymoser8),
        6 => Ok(AudioCodingFormat::Nellymoser),
        11 => Ok(AudioCodingFormat::Speex),
        _ => Err(()),
    }
}

pub open spec fn spec_is_uncompressed(format: AudioCodingFormat) -> bool {
    format == AudioCodingFormat::UncompressedNativeEndian
        || format == AudioCodingFormat::UncompressedLittleEndian
}

pub fn is_uncompressed_audio_coding_format(format: AudioCodingFormat) -> (r: bool)
    ensures
        r == spec_is_uncompressed(format),
{
    match format {
        AudioCodingFormat::UncompressedNativeEndian => true,
        AudioCodingFormat::UncompressedLittleEndian => true,
        _ => false,
    }
}

pub open spec fn spec_sound_envelope(s: Seq<u8>) -> SpecResult<SoundEnvelope> {
    sbind(spec_le_u32(s), |pos44: u32, s1: Seq<u8>|
    sbind(spec_le_u16(s1), |left_level: u16, s2: Seq<u8>|
    sbind(spec_le_u16(s2), |right_level: u16, s3: Seq<u8>|
        Ok((SoundEnvelope { pos44, left_level, right_level }, s3)))))
}

pub fn parse_sound_envelope(input: &[u8]) -> (r: PResult<SoundEnvelope>)
    ensures
        parsed_as(r, spec_sound_envelope(input@)),
{
    let (input, pos44) = parse_le_u32(input)?;
    let (input, left_level) = parse_le_u16(input)?;
    let (input, right_level) = parse_le_u16(input)?;
    Ok((input, SoundEnvelope { pos44, left_level, right_level }))
}

/// `count` consecutive sound envelopes.
pub open spec fn spec_sound_envelopes(s: Seq<u8>, count: nat) -> SpecResult<Seq<SoundEnvelope>>
    decreases count,
{
    if count == 0 {
        Ok((Seq::empty(), s))
    } else {
        sbind(spec_sound_envelopes(s, (count - 1) as nat), |vs: Seq<SoundEnvelope>, s1: Seq<u8>|
        sbind(spec_sound_envelope(s1), |v: SoundEnvelope, s2: Seq<u8>| Ok((vs.push(v), s2))))
    }
}

proof fn lemma_sound_envelopes_err(s: Seq<u8>, k: nat, count: nat)
    requires
        k <= count,
        spec_sound_envelopes(s, k) is Err,
    ensures
        spec_sound_envelopes(s, count) == spec_sound_envelopes(s, k),
    decreases count - k,
{
    if k < count {
        lemma_sound_envelopes_err(s, k, (count - 1) as nat);
    }
}

pub fn parse_sound_envelopes(input: &[u8], count: usize) -> (r: PResult<Vec<SoundEnvelope>>)
    ensures
        match (r, spec_sound_envelopes(input@, count as nat)) {
            (Ok((rest, v)), Ok((m, srest))) => rest@ == srest && v@ == m,
            (Err(e1), Err(e2)) => e1 == e2,
            _ => false,
        },
{
    let mut out: Vec<SoundEnvelope> = Vec::new();
    let mut cur: &[u8] = input;
    let mut k: usize = 0;
    while k < count
        invariant
            k <= count,
            spec_sound_envelopes(input@, k as nat) == Ok::<_, ParseError>((out@, cur@)),
        decreases count - k,
    {
        match parse_sound_envelope(cur) {
            Ok((next, v)) => {
                out.push(v);
                cur = next;
            },
            Err(e) => {
                proof { lemma_sound_envelopes_err(input@, (k + 1) as nat, count as nat); }
                return Err(e);
            },
        }
        k = k + 1;
    }
    Ok((cur, out))
}

/// Sound envelope list: a `u8` count, then the envelopes.
pub open spec fn spec_envelope_list(s: Seq<u8>) -> SpecResult<Seq<SoundEnvelope>> {
    sbind(spec_u8(s), |n: u8, s1: Seq<u8>| spec_sound_envelopes(s1, n as nat))
}

pub open spec fn spec_sound_info(s: Seq<u8>) -> SpecResult<SoundInfoModel> {
    sbind(spec_u8(s), |flags: u8, s1: Seq<u8>|
    sbind(sopt(flags & 1u8 != 0, s1, spec_le_u32(s1)), |in_point: Option<u32>, s2: Seq<u8>|
    sbind(sopt(flags & 2u8 != 0, s2, spec_le_u32(s2)), |out_point: Option<u32>, s3: Seq<u8>|
    sbind(sopt(flags & 4u8 != 0, s3, spec_le_u16(s3)), |loop_count: Option<u16>, s4: Seq<u8>|
    sbind(sopt(flags & 8u8 != 0, s4, spec_envelope_list(s4)),
        |envelope_records: Option<Seq<SoundEnvelope>>, s5: Seq<u8>|
        Ok((
            SoundInfoModel {
                sync_stop: flags & 32u8 != 0,
                sync_no_multiple: flags & 16u8 != 0,
                in_point,
                out_point,
                loop_count,
                envelope_records,
            },
            s5,
        )))))))
}

pub fn parse_sound_info(input: &[u8]) -> (r: PResult<SoundInfo>)
    ensures
        parsed_as(r, spec_sound_info(input@)),
{
    let (input, flags) = parse_u8(input)?;
    let has_in_point: bool = flags & 1u8 != 0;
    let has_out_point: bool = flags & 2u8 != 0;
    let has_loops: bool = flags & 4u8 != 0;
    let has_envelope: bool = flags & 8u8 != 0;
    let sync_no_multiple: bool = flags & 16u8 != 0;
    let sync_stop: bool = flags & 32u8 != 0;
    // Bits [6, 7] are reserved
    let (input, in_point) = if has_in_point {
        let (input, v) = parse_le_u32(input)?;
        (input, Some(v))
    } else {
        (input, None)
    };
    let (input, out_point) = if has_out_point {
        let (input, v) = parse_le_u32(input)?;
        (input, Some(v))
    } else {
        (input, None)
    };
    let (input, loop_count) = if has_loops {
        let (input, v) = parse_le_u16(input)?;
        (input, Some(v))
    } else {
        (input, None)
    };
    let (input, envelope_records) = if has_envelope {
        let (input, record_count) = parse_u8(input)?;
        let (input, records) = parse_sound_envelopes(input, record_count as usize)?;
        (input, Some(records))
    } else {
        (input, None)
    };
    Ok((
        input,
        SoundInfo { sync_stop, sync_no_multiple, in_point, out_point, loop_count, envelope_records },
    ))
}

} // verus!
