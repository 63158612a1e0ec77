//! Speech-synthesis management: which engine a request resolves to, the
//! availability flag that makes the sidecar engine fail fast after a
//! connection error, and the WAV container written around raw audio samples.
//! Running the synthesizers is process and network plumbing outside the
//! library.

use vstd::prelude::*;

use crate::config::AppConfig;

verus! {

/// ASCII lower-casing of one character.
pub open spec fn lower_char(c: char) -> char {
    if 'A' <= c && c <= 'Z' {
        ((c as u8) + 32) as char
    } else {
        c
    }
}

/// ASCII lower-casing of a character sequence.
pub open spec fn lower_seq(s: Seq<char>) -> Seq<char> {
    s.map_values(|c: char| lower_char(c))
}

/// Executable ASCII lower-casing of one character.
fn lower(c: char) -> (r: char)
    ensures
        r == lower_char(c),
{
    if 'A' <= c && c <= 'Z' {
        ((c as u8) + 32) as char
    } else {
        c
    }
}

/// ASCII-case-insensitive string equality.
pub fn eq_ignore_ascii_case(a: &str, b: &str) -> (r: bool)
    ensures
        r == (lower_seq(a@) == lower_seq(b@)),
{
    let alen = a.unicode_len();
    let blen = b.unicode_len();
    if alen != blen {
        return false;
    }
    let mut i: usize = 0;
    while i < alen
        invariant
            i <= alen,
            alen == a@.len(),
            alen == b@.len(),
            forall|k: int| 0 <= k < i ==> lower_char(a@[k]) == lower_char(b@[k]),
        decreases alen - i,
    {
        if lower(a.get_char(i)) != lower(b.get_char(i)) {
            proof {
                assert(lower_seq(a@)[i as int] == lower_char(a@[i as int]));
                assert(lower_seq(b@)[i as int] == lower_char(b@[i as int]));
            }
            return false;
        }
        i = i + 1;
    }
    proof {
        assert(lower_seq(a@) =~= lower_seq(b@));
    }
    true
}

/// The supported speech-synthesis engines.
#[derive(Clone, Copy, Debug, PartialEq, Eq, Structural)]
pub enum TtsEngine {
    Piper,
    Xtts,
}

impl TtsEngine {
    /// The engine a stored setting names: any ASCII casing of `xtts` or
    /// `xtts-v2` selects the sidecar engine, everything else the default.
    pub open spec fn spec_from_str(s: Seq<char>) -> TtsEngine {
        if lower_seq(s) == "xtts"@ || lower_seq(s) == "xtts-v2"@ {
            TtsEngine::Xtts
        } else {
            TtsEngine::Piper
        }
    }

    /// Read an engine name leniently.
    pub fn from_str_loose(s: &str) -> (r: TtsEngine)
        ensures
            r == TtsEngine::spec_from_str(s@),
    {
        proof {
            reveal_strlit("xtts");
            reveal_strlit("xtts-v2");
            assert(lower_seq("xtts"@) =~= "xtts"@);
            assert(lower_seq("xtts-v2"@) =~= "xtts-v2"@);
        }
        if eq_ignore_ascii_case(s, "xtts") || eq_ignore_ascii_case(s, "xtts-v2") {
            TtsEngine::Xtts
        } else {
            TtsEngine::Piper
        }
    }

    /// Display name of the engine.
    pub fn display_name(&self) -> (r: &'static str)
        ensures
            r@ == (if *self is Piper {
                "Piper (Fast/CPU)"@
            } else {
                "XTTS-v2 (Quality/GPU)"@
            }),
    {
        match self {
            TtsEngine::Piper => "Piper (Fast/CPU)",
            TtsEngine::Xtts => "XTTS-v2 (Quality/GPU)",
        }
    }
}

/// Speech-synthesis state: the configured engine endpoints and whether the
/// sidecar engine is believed reachable.
pub struct TtsManager {
    pub piper_model_path: String,
    pub xtts_url: String,
    /// Whether the sidecar engine is believed reachable.  Reset to true on a
    /// settings change; cleared when a connection to it fails.
    pub xtts_available: bool,
}

impl TtsManager {
    pub fn new(config: &AppConfig) -> (r: TtsManager)
        ensures
            r.piper_model_path@ == config.piper_model_path@,
            r.xtts_url@ == config.xtts_sidecar_url@,
            r.xtts_available,
    {
        TtsManager {
            piper_model_path: config.piper_model_path.clone(),
            xtts_url: config.xtts_sidecar_url.clone(),
            xtts_available: true,
        }
    }

    /// Believe the sidecar reachable again, so the next request retries it.
    pub fn reset_xtts_availability(&mut self)
        ensures
            final(self).xtts_available,
            final(self).piper_model_path == old(self).piper_model_path,
            final(self).xtts_url == old(self).xtts_url,
    {
        self.xtts_available = true;
    }

    /// The engine a request resolves to: the sidecar only when requested and
    /// believed reachable, the default engine otherwise.
    pub fn engine_to_use(&self, requested: &TtsEngine) -> (r: TtsEngine)
        ensures
            r == (if *requested is Xtts && self.xtts_available {
                TtsEngine::Xtts
            } else {
                TtsEngine::Piper
            }),
    {
        match requested {
            TtsEngine::Xtts => {
                if self.xtts_available {
                    TtsEngine::Xtts
                } else {
                    TtsEngine::Piper
                }
            },
            TtsEngine::Piper => TtsEngine::Piper,
        }
    }

    /// Record a sidecar failure: a connection failure clears the
    /// availability flag until the next reset; any other failure leaves it.
    pub fn note_xtts_failure(&mut self, not_reachable: bool)
        ensures
            final(self).xtts_available == (old(self).xtts_available && !not_reachable),
            final(self).piper_model_path == old(self).piper_model_path,
            final(self).xtts_url == old(self).xtts_url,
    {
        if not_reachable {
            self.xtts_available = false;
        }
    }
}

/// Two bytes, little-endian.
pub open spec fn le2(x: u16) -> Seq<u8> {
    seq![(x & 0xff) as u8, ((x >> 8) & 0xff) as u8]
}

/// Four bytes, little-endian.
pub open spec fn le4(x: u32) -> Seq<u8> {
    seq![
        (x & 0xff) as u8,
        ((x >> 8) & 0xff) as u8,
        ((x >> 16) & 0xff) as u8,
        ((x >> 24) & 0xff) as u8,
    ]
}

/// A complete WAV file around raw PCM samples: the RIFF header, the format
/// chunk, and the data chunk holding the samples.
pub open spec fn wav_bytes(
    pcm: Seq<u8>,
    sample_rate: u32,
    channels: u16,
    bits_per_sample: u16,
) -> Seq<u8> {
    seq!['R' as u8, 'I' as u8, 'F' as u8, 'F' as u8] + le4((36 + pcm.len()) as u32) + seq![
        'W' as u8,
        'A' as u8,
        'V' as u8,
        'E' as u8,
        'f' as u8,
        'm' as u8,
        't' as u8,
        ' ' as u8,
    ] + le4(16u32) + le2(1u16) + le2(channels) + le4(sample_rate) + le4(
        (sample_rate * channels * bits_per_sample / 8) as u32,
    ) + le2((channels * bits_per_sample / 8) as u16) + le2(bits_per_sample) + seq![
        'd' as u8,
        'a' as u8,
        't' as u8,
        'a' as u8,
    ] + le4(pcm.len() as u32) + pcm
}

fn push_le2(v: &mut Vec<u8>, x: u16)
    ensures
        final(v)@ =~= old(v)@ + le2(x),
{
    proof {
        assert(x & 0xff < 256 && (x >> 8) & 0xff < 256) by (bit_vector);
    }
    v.push((x & 0xff) as u8);
    v.push(((x >> 8) & 0xff) as u8);
}

fn push_le4(v: &mut Vec<u8>, x: u32)
    ensures
        final(v)@ =~= old(v)@ + le4(x),
{
    proof {
        assert(x & 0xff < 256 && (x >> 8) & 0xff < 256 && (x >> 16) & 0xff < 256 && (x >> 24)
            & 0xff < 256) by (bit_vector);
    }
    v.push((x & 0xff) as u8);
    v.push(((x >> 8) & 0xff) as u8);
    v.push(((x >> 16) & 0xff) as u8);
    v.push(((x >> 24) & 0xff) as u8);
}

/// Wrap raw PCM bytes in a WAV container.
pub fn pcm_to_wav(pcm: &[u8], sample_rate: u32, channels: u16, bits_per_sample: u16) -> (r: Vec<
    u8,
>)
    requires
        pcm@.len() + 44 <= u32::MAX,
        sample_rate * channels <= u32::MAX,
        sample_rate * channels * bits_per_sample <= u32::MAX,
        channels * bits_per_sample <= u16::MAX,
    ensures
        r@ =~= wav_bytes(pcm@, sample_rate, channels, bits_per_sample),
        r@.len() == 44 + pcm@.len(),
{
    let data_size: u32 = pcm.len() as u32;
    let file_size: u32 = 36 + data_size;
    let byte_rate: u32 = sample_rate * (channels as u32) * (bits_per_sample as u32) / 8;
    let block_align: u16 = channels * bits_per_sample / 8;
    let mut wav: Vec<u8> = Vec::new();
    wav.push('R' as u8);
    wav.push('I' as u8);
    wav.push('F' as u8);
    wav.push('F' as u8);
    push_le4(&mut wav, file_size);
    wav.push('W' as u8);
    wav.push('A' as u8);
    wav.push('V' as u8);
    wav.push('E' as u8);
    wav.push('f' as u8);
    wav.push('m' as u8);
    wav.push('t' as u8);
    wav.push(' ' as u8);
    push_le4(&mut wav, 16);
    push_le2(&mut wav, 1);
    push_le2(&mut wav, channels);
    push_le4(&mut wav, sample_rate);
    push_le4(&mut wav, byte_rate);
    push_le2(&mut wav, block_align);
    push_le2(&mut wav, bits_per_sample);
    wav.push('d' as u8);
    wav.push('a' as u8);
    wav.push('t' as u8);
    wav.push('a' as u8);
    push_le4(&mut wav, data_size);
    let mut i: usize = 0;
    let ghost header = wav@;
    while i < pcm.len()
        invariant
            i <= pcm@.len(),
            wav@ =~= header + pcm@.take(i as int),
        decreases pcm@.len() - i,
    {
        wav.push(pcm[i]);
        proof {
            assert(pcm@.take(i + 1) =~= pcm@.take(i as int).push(pcm@[i as int]));
        }
        i = i + 1;
    }
    proof {
        assert(pcm@.take(pcm@.len() as int) =~= pcm@);
        assert(wav@ =~= wav_bytes(pcm@, sample_rate, channels, bits_per_sample));
    }
    wav
}

} // verus!
