//! The sample source: decodes a stored waveform into the ordered sequence of
//! samples that playback and framing work on.
//!
//! The waveform is a WAV file held in memory, decoded by the `hound` crate
//! into signed 16-bit values. Each value is then handed to a function
//! `normalize(raw)` that gives the sample in the caller's sample type; for
//! 32-bit floats it divides by the largest 16-bit magnitude, 32767.

use crate::error::PlaybackError;
use vstd::prelude::*;

verus! {

/// The 16-bit samples that `hound` decodes from the WAV file `bytes`, with
/// the channels interleaved as they are stored, or `None` where the decoder
/// reports an error. It does so, among others, for bytes that are no WAV
/// file, for a file that breaks off, and for samples that are floats or
/// integers wider than 16 bits.
pub uninterp spec fn wav_pcm16(bytes: Seq<u8>) -> Option<Seq<i16>>;

/// `hound::Error`, the decoder's error. It is carried through unread.
#[verifier::external_type_specification]
#[verifier::external_body]
pub struct ExWavError(hound::Error);

/// Runs `hound::WavReader::new` on `bytes` and collects what
/// `WavReader::into_samples::<i16>` yields, up to its first error. Nothing
/// is proved of the decoder. What is taken on trust is that its outcome
/// depends on `bytes` alone, so that it can go by the name [`wav_pcm16`],
/// and that it returns for every input.
#[verifier::external_body]
fn read_wav(bytes: &[u8]) -> (decoded: Result<Vec<i16>, hound::Error>)
    ensures
        decoded matches Ok(pcm) ==> wav_pcm16(bytes@) == Some(pcm@),
        decoded is Err ==> wav_pcm16(bytes@) == None::<Seq<i16>>,
{
    let reader = hound::WavReader::new(bytes)?;
    reader.into_samples::<i16>().collect()
}

/// Whether `samples` are the values of `raw`, each normalized, in order.
pub open spec fn is_normalized<T, N: Fn(i16) -> T>(
    normalize: &N,
    raw: Seq<i16>,
    samples: Seq<T>,
) -> bool {
    &&& samples.len() == raw.len()
    &&& forall|i: int|
        0 <= i < raw.len() ==> normalize.ensures((raw[i],), #[trigger] samples[i])
}

/// Whether `normalize` may be asked for every value of `raw`.
pub open spec fn normalizes<T, N: Fn(i16) -> T>(normalize: &N, raw: Seq<i16>) -> bool {
    forall|i: int| 0 <= i < raw.len() ==> normalize.requires((#[trigger] raw[i],))
}

/// Normalizes every value of `raw`, keeping the order.
pub fn normalize_all<T, N: Fn(i16) -> T>(raw: &[i16], normalize: &N) -> (samples: Vec<T>)
    requires
        normalizes(normalize, raw@),
    ensures
        is_normalized(normalize, raw@, samples@),
{
    let count: usize = raw.len();
    let mut samples: Vec<T> = Vec::new();
    let mut i: usize = 0;
    while i < count
        invariant
            i <= count,
            count == raw@.len(),
            normalizes(normalize, raw@),
            is_normalized(normalize, raw@.take(i as int), samples@),
        decreases count - i,
    {
        let sample = normalize(raw[i]);
        samples.push(sample);
        i = i + 1;
    }
    proof {
        assert(raw@.take(count as int) == raw@);
    }
    samples
}

/// What is made of a decoder's outcome: its values, normalized, or an I/O
/// error where the decoder failed.
pub fn samples_from_decoded<T, N: Fn(i16) -> T>(
    decoded: Result<Vec<i16>, hound::Error>,
    normalize: &N,
) -> (samples: Result<Vec<T>, PlaybackError>)
    requires
        decoded matches Ok(raw) ==> normalizes(normalize, raw@),
    ensures
        decoded matches Ok(raw) ==> samples matches Ok(out) && is_normalized(
            normalize,
            raw@,
            out@,
        ),
        decoded is Err ==> samples == Err::<Vec<T>, PlaybackError>(PlaybackError::Io),
{
    match decoded {
        Ok(raw) => Ok(normalize_all(raw.as_slice(), normalize)),
        Err(_) => Err(PlaybackError::Io),
    }
}

/// Decodes the WAV file `bytes` and normalizes its samples. Fails with an
/// I/O error exactly where the decoder does.
pub fn load_samples<T, N: Fn(i16) -> T>(bytes: &[u8], normalize: &N) -> (samples: Result<
    Vec<T>,
    PlaybackError,
>)
    requires
        forall|raw: i16| normalize.requires((raw,)),
    ensures
        wav_pcm16(bytes@) matches Some(raw) ==> samples matches Ok(out) && is_normalized(
            normalize,
            raw,
            out@,
        ),
        wav_pcm16(bytes@) is None ==> samples == Err::<Vec<T>, PlaybackError>(PlaybackError::Io),
{
    samples_from_decoded(read_wav(bytes), normalize)
}

} // verus!
