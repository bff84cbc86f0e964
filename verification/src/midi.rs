//! Note-input byte classification and equal-temperament pitch mapping.
//!
//! A raw message whose status nibble is `0x90` is a note-on (the key is the
//! second byte), `0x80` a note-off; every other status byte is ignored.  The
//! key-to-frequency map is twelve-tone equal temperament with A4 (key 69) at
//! 440 Hz: `freq = 440 * 2^((key - 69) / 12)`, computed in micro-hertz from
//! a fixed table of the twelve semitone ratios in parts per billion.

use vstd::prelude::*;

verus! {

use vstd::arithmetic::div_mod::{lemma_div_is_ordered, lemma_div_pos_is_pos};
use vstd::arithmetic::power2::{lemma2_to64, pow2};
use crate::fixed::{in_amp_range, AMP_MAX};
use crate::voice::{event_wf, SynthInputEvent};

/// The ratio `2^(s/12)` of semitone `s` above its octave's root, in parts
/// per billion.
pub open spec fn semitone_ppb(s: int) -> int {
    if s == 0 {
        1_000_000_000
    } else if s == 1 {
        1_059_463_094
    } else if s == 2 {
        1_122_462_048
    } else if s == 3 {
        1_189_207_115
    } else if s == 4 {
        1_259_921_050
    } else if s == 5 {
        1_334_839_854
    } else if s == 6 {
        1_414_213_562
    } else if s == 7 {
        1_498_307_077
    } else if s == 8 {
        1_587_401_052
    } else if s == 9 {
        1_681_792_831
    } else if s == 10 {
        1_781_797_436
    } else {
        1_887_748_625
    }
}

/// The frequency of a key in micro-hertz: A4 (key 69) is 440 Hz, and each
/// octave doubles.  Written over `key + 3` so that the octave quotient and
/// semitone remainder fall out of one division by 12 (key 69 sits at octave
/// quotient 6, semitone 0).
pub open spec fn key_to_freq_spec(key: u8) -> int {
    let q = (key + 3) / 12;
    let s = (key + 3) % 12;
    let base = (440_000_000 * semitone_ppb(s)) / 1_000_000_000;
    if q >= 6 {
        base * (pow2((q - 6) as nat) as int)
    } else {
        base / (pow2((6 - q) as nat) as int)
    }
}

fn semitone_ratio(s: u64) -> (r: u64)
    requires
        s < 12,
    ensures
        r as int == semitone_ppb(s as int),
        1_000_000_000 <= r <= 1_887_748_625,
{
    match s {
        0 => 1_000_000_000,
        1 => 1_059_463_094,
        2 => 1_122_462_048,
        3 => 1_189_207_115,
        4 => 1_259_921_050,
        5 => 1_334_839_854,
        6 => 1_414_213_562,
        7 => 1_498_307_077,
        8 => 1_587_401_052,
        9 => 1_681_792_831,
        10 => 1_781_797_436,
        _ => 1_887_748_625,
    }
}

fn two_pow_small(e: u64) -> (r: u64)
    requires
        e <= 15,
    ensures
        r as int == pow2(e as nat),
        1 <= r <= 32768,
{
    proof {
        lemma2_to64();
    }
    match e {
        0 => 1,
        1 => 2,
        2 => 4,
        3 => 8,
        4 => 16,
        5 => 32,
        6 => 64,
        7 => 128,
        8 => 256,
        9 => 512,
        10 => 1024,
        11 => 2048,
        12 => 4096,
        13 => 8192,
        14 => 16384,
        _ => 32768,
    }
}

/// The frequency of a key, in micro-hertz, saturated into the signal range
/// like every other signal (the cap only matters for keys far above the
/// playable range).  Always positive, so it can be fed straight into a
/// voice's frequency slot.
pub fn key_to_freq(key: u8) -> (f: i64)
    ensures
        f as int == crate::fixed::amp_clip(key_to_freq_spec(key)),
        0 < f,
        in_amp_range(f as int),
{
    let k: u64 = key as u64 + 3;
    let q = k / 12;
    let s = k % 12;
    let ratio = semitone_ratio(s);
    proof {
        lemma_div_is_ordered(
            440_000_000int * 1_000_000_000int,
            440_000_000 * ratio as int,
            1_000_000_000int,
        );
        lemma_div_is_ordered(
            440_000_000 * ratio as int,
            440_000_000int * 1_887_748_625int,
            1_000_000_000int,
        );
    }
    let base = (440_000_000 * ratio) / 1_000_000_000;
    if q >= 6 {
        let two = two_pow_small(q - 6);
        proof {
            vstd::arithmetic::mul::lemma_mul_upper_bound(
                base as int,
                830_609_395,
                two as int,
                32768,
            );
            assert(base as int * two as int >= base as int) by (nonlinear_arith)
                requires
                    base as int >= 0,
                    two as int >= 1,
            ;
        }
        let f = base * two;
        if f > AMP_MAX as u64 {
            AMP_MAX
        } else {
            f as i64
        }
    } else {
        let two = two_pow_small(6 - q);
        proof {
            // base covers at least one full ratio unit, so even six octaves
            // down the quotient stays positive.
            vstd::arithmetic::div_mod::lemma_div_non_zero(base as int, two as int);
            vstd::arithmetic::div_mod::lemma_div_nonincreasing(base as int, two as int);
        }
        let f = base / two;
        f as i64
    }
}

/// What a raw note message means: note-on with the key's frequency,
/// note-off, or nothing (too short, or an ignored status byte).
pub open spec fn parse_midi_spec(bytes: Seq<u8>) -> Option<SynthInputEvent> {
    if bytes.len() < 2 {
        None
    } else if bytes[0] & 0xF0 == 0x90 {
        Some(
            SynthInputEvent::KeyDown {
                key: bytes[1],
                freq: crate::fixed::amp_clip(key_to_freq_spec(bytes[1])) as i64,
            },
        )
    } else if bytes[0] & 0xF0 == 0x80 {
        Some(SynthInputEvent::KeyUp { key: bytes[1] })
    } else {
        None
    }
}

/// Classifies a raw note message.  A message shorter than two bytes carries
/// no key and is ignored.
pub fn parse_midi(bytes: &[u8]) -> (r: Option<SynthInputEvent>)
    ensures
        r == parse_midi_spec(bytes@),
        r matches Some(e) ==> event_wf(e),
{
    if bytes.len() < 2 {
        return None;
    }
    let status = bytes[0] & 0xF0;
    if status == 0x90 {
        Some(SynthInputEvent::KeyDown { key: bytes[1], freq: key_to_freq(bytes[1]) })
    } else if status == 0x80 {
        Some(SynthInputEvent::KeyUp { key: bytes[1] })
    } else {
        None
    }
}

} // verus!
