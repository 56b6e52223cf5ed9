//! Stream descriptors of a catalog, the choice of one video and one audio
//! stream from it, and the list of qualities it offers.
use vstd::prelude::*;

use crate::quality::{
    AudioLevel, QualityLabel, audio_display, audio_of_text, audio_text, is_audio_text, is_quality_text,
    lemma_display_round_trip, quality_display, quality_of_text, quality_text,
};

verus! {

/// One elementary stream that a source offers. Its bytes are fetched through
/// its position in the catalog.
#[derive(Clone, Debug)]
pub struct StreamDescriptor {
    pub mime: String,
    pub has_video_track: bool,
    pub has_audio_track: bool,
    pub video_quality: Option<QualityLabel>,
    pub audio_quality: Option<AudioLevel>,
}

/// Positions in the catalog of the chosen video and audio streams.
#[derive(Clone, Copy, Debug, PartialEq, Eq, Structural)]
pub struct Selection {
    pub video: usize,
    pub audio: usize,
}

/// Why no pair of streams could be chosen.
#[derive(Clone, Copy, Debug, PartialEq, Eq, Structural)]
pub enum SelectError {
    NoVideoStream,
    NoAudioStream,
}

/// `needle` occurs in `hay` as a contiguous run.
pub open spec fn contains_text(hay: Seq<char>, needle: Seq<char>) -> bool {
    exists|i: int| 0 <= i <= hay.len() - needle.len() && #[trigger] hay.subrange(i, i + needle.len()) == needle
}

/// A stream with a video track and no audio, in an MP4 container.
pub open spec fn is_video_only(d: StreamDescriptor) -> bool {
    d.mime@ == "video/mp4"@ && !d.has_audio_track
}

/// A stream with an audio track and no video, whose type mentions MP4 audio.
pub open spec fn is_audio_only(d: StreamDescriptor) -> bool {
    contains_text(d.mime@, "audio/mp4"@) && !d.has_video_track
}

/// A stream that may serve as the video of a job asking for quality `q`.
pub open spec fn is_video_pick(d: StreamDescriptor, q: QualityLabel) -> bool {
    is_video_only(d) && d.video_quality == Some(q)
}

/// A stream that may serve as the audio of a job asking for level `a`.
pub open spec fn is_audio_pick(d: StreamDescriptor, a: AudioLevel) -> bool {
    is_audio_only(d) && d.audio_quality == Some(a)
}

/// `i` is the first position of the catalog that may serve as the video.
pub open spec fn is_first_video_pick(c: Seq<StreamDescriptor>, q: QualityLabel, i: int) -> bool {
    0 <= i < c.len() && is_video_pick(c[i], q) && forall|j: int| 0 <= j < i ==> !is_video_pick(#[trigger] c[j], q)
}

/// `i` is the first position of the catalog that may serve as the audio.
pub open spec fn is_first_audio_pick(c: Seq<StreamDescriptor>, a: AudioLevel, i: int) -> bool {
    0 <= i < c.len() && is_audio_pick(c[i], a) && forall|j: int| 0 <= j < i ==> !is_audio_pick(#[trigger] c[j], a)
}

pub open spec fn has_video_pick(c: Seq<StreamDescriptor>, q: QualityLabel) -> bool {
    exists|i: int| 0 <= i < c.len() && is_video_pick(#[trigger] c[i], q)
}

pub open spec fn has_audio_pick(c: Seq<StreamDescriptor>, a: AudioLevel) -> bool {
    exists|i: int| 0 <= i < c.len() && is_audio_pick(#[trigger] c[i], a)
}

/// Whether `needle` occurs in `hay`.
pub fn text_contains(hay: &str, needle: &str) -> (r: bool)
    ensures
        r == contains_text(hay@, needle@),
{
    let n = hay.unicode_len();
    let m = needle.unicode_len();
    if m > n {
        proof {
            assert forall|i: int| 0 <= i <= hay@.len() - needle@.len() implies
                #[trigger] hay@.subrange(i, i + needle@.len()) != needle@ by {}
        }
        return false;
    }
    let mut i: usize = 0;
    while i <= n - m
        invariant
            n == hay@.len(),
            m == needle@.len(),
            m <= n,
            0 <= i <= n - m + 1,
            forall|k: int| 0 <= k < i ==> #[trigger] hay@.subrange(k, k + m) != needle@,
        decreases n - m + 1 - i,
    {
        let mut j: usize = 0;
        let mut same = true;
        while j < m
            invariant
                n == hay@.len(),
                m == needle@.len(),
                i + m <= n,
                0 <= j <= m,
                same == forall|k: int| 0 <= k < j ==> hay@[i + k] == needle@[k],
            decreases m - j,
        {
            if hay.get_char(i + j) != needle.get_char(j) {
                same = false;
            }
            j = j + 1;
        }
        if same {
            assert(hay@.subrange(i as int, i + m) =~= needle@);
            return true;
        }
        assert(!(hay@.subrange(i as int, i + m) =~= needle@));
        i = i + 1;
    }
    false
}

/// Whether a stream is video-only in an MP4 container.
pub fn video_only(d: &StreamDescriptor) -> (r: bool)
    ensures
        r == is_video_only(*d),
{
    let wanted = String::from_str("video/mp4");
    d.mime == wanted && !d.has_audio_track
}

/// Whether a stream is audio-only with a type that mentions MP4 audio.
pub fn audio_only(d: &StreamDescriptor) -> (r: bool)
    ensures
        r == is_audio_only(*d),
{
    text_contains(d.mime.as_str(), "audio/mp4") && !d.has_video_track
}

/// The first position of the catalog that may serve as the video for `q`.
pub fn find_video(catalog: &Vec<StreamDescriptor>, q: QualityLabel) -> (r: Option<usize>)
    ensures
        match r {
            Some(i) => is_first_video_pick(catalog@, q, i as int),
            None => !has_video_pick(catalog@, q),
        },
{
    let mut i: usize = 0;
    while i < catalog.len()
        invariant
            0 <= i <= catalog@.len(),
            forall|j: int| 0 <= j < i ==> !is_video_pick(#[trigger] catalog@[j], q),
        decreases catalog@.len() - i,
    {
        let d = &catalog[i];
        if video_only(d) && d.video_quality == Some(q) {
            return Some(i);
        }
        i = i + 1;
    }
    None
}

/// The first position of the catalog that may serve as the audio for `a`.
pub fn find_audio(catalog: &Vec<StreamDescriptor>, a: AudioLevel) -> (r: Option<usize>)
    ensures
        match r {
            Some(i) => is_first_audio_pick(catalog@, a, i as int),
            None => !has_audio_pick(catalog@, a),
        },
{
    let mut i: usize = 0;
    while i < catalog.len()
        invariant
            0 <= i <= catalog@.len(),
            forall|j: int| 0 <= j < i ==> !is_audio_pick(#[trigger] catalog@[j], a),
        decreases catalog@.len() - i,
    {
        let d = &catalog[i];
        if audio_only(d) && d.audio_quality == Some(a) {
            return Some(i);
        }
        i = i + 1;
    }
    None
}

/// Chooses the first stream of the catalog that may serve as the video and
/// the first that may serve as the audio. Nothing else from the catalog is
/// taken in their place.
pub fn select(catalog: &Vec<StreamDescriptor>, q: QualityLabel, a: AudioLevel) -> (r: Result<Selection, SelectError>)
    ensures
        r is Ok <==> has_video_pick(catalog@, q) && has_audio_pick(catalog@, a),
        match r {
            Ok(sel) => is_first_video_pick(catalog@, q, sel.video as int)
                && is_first_audio_pick(catalog@, a, sel.audio as int),
            Err(SelectError::NoVideoStream) => !has_video_pick(catalog@, q),
            Err(SelectError::NoAudioStream) => has_video_pick(catalog@, q) && !has_audio_pick(catalog@, a),
        },
{
    match find_video(catalog, q) {
        None => Err(SelectError::NoVideoStream),
        Some(v) => match find_audio(catalog, a) {
            None => Err(SelectError::NoAudioStream),
            Some(au) => Ok(Selection { video: v, audio: au }),
        },
    }
}

/// The display texts of the video-only streams that carry a quality, in
/// catalog order, repeats kept.
pub open spec fn video_texts(c: Seq<StreamDescriptor>) -> Seq<Seq<char>>
    decreases c.len(),
{
    if c.len() == 0 {
        seq![]
    } else {
        let rest = video_texts(c.drop_last());
        let d = c.last();
        if is_video_only(d) && d.video_quality is Some {
            rest.push(quality_text(d.video_quality->0))
        } else {
            rest
        }
    }
}

/// The display texts of the audio-only streams that carry a level, in
/// catalog order, repeats kept.
pub open spec fn audio_texts(c: Seq<StreamDescriptor>) -> Seq<Seq<char>>
    decreases c.len(),
{
    if c.len() == 0 {
        seq![]
    } else {
        let rest = audio_texts(c.drop_last());
        let d = c.last();
        if is_audio_only(d) && d.audio_quality is Some {
            rest.push(audio_text(d.audio_quality->0))
        } else {
            rest
        }
    }
}

/// The qualities that a catalog offers, as display texts.
#[derive(Clone, Debug)]
pub struct StreamOptions {
    pub video: Vec<String>,
    pub audio: Vec<String>,
}

pub open spec fn texts_of(v: Seq<String>) -> Seq<Seq<char>> {
    v.map_values(|s: String| s@)
}

/// Lists the display texts of the video and audio qualities that the catalog
/// offers, by the same filters as `select`.
pub fn describe(catalog: &Vec<StreamDescriptor>) -> (r: StreamOptions)
    ensures
        texts_of(r.video@) == video_texts(catalog@),
        texts_of(r.audio@) == audio_texts(catalog@),
{
    let mut video: Vec<String> = Vec::new();
    let mut i: usize = 0;
    while i < catalog.len()
        invariant
            0 <= i <= catalog@.len(),
            texts_of(video@) == video_texts(catalog@.subrange(0, i as int)),
        decreases catalog@.len() - i,
    {
        let d = &catalog[i];
        assert(catalog@.subrange(0, i + 1).drop_last() =~= catalog@.subrange(0, i as int));
        if video_only(d) {
            match d.video_quality {
                Some(q) => {
                    video.push(quality_display(q));
                    assert(texts_of(video@) =~= video_texts(catalog@.subrange(0, i + 1)));
                },
                None => {},
            }
        }
        i = i + 1;
    }
    assert(catalog@.subrange(0, catalog@.len() as int) =~= catalog@);
    let mut audio: Vec<String> = Vec::new();
    let mut i: usize = 0;
    while i < catalog.len()
        invariant
            0 <= i <= catalog@.len(),
            texts_of(audio@) == audio_texts(catalog@.subrange(0, i as int)),
        decreases catalog@.len() - i,
    {
        let d = &catalog[i];
        assert(catalog@.subrange(0, i + 1).drop_last() =~= catalog@.subrange(0, i as int));
        if audio_only(d) {
            match d.audio_quality {
                Some(a) => {
                    audio.push(audio_display(a));
                    assert(texts_of(audio@) =~= audio_texts(catalog@.subrange(0, i + 1)));
                },
                None => {},
            }
        }
        i = i + 1;
    }
    StreamOptions { video, audio }
}

/// Every video quality that `describe` offers is a display text that reads
/// back to a label for which the catalog has a stream `select` may choose.
pub proof fn lemma_offered_video_selectable(c: Seq<StreamDescriptor>, k: int)
    requires
        0 <= k < video_texts(c).len(),
    ensures
        is_quality_text(video_texts(c)[k]),
        has_video_pick(c, quality_of_text(video_texts(c)[k])),
    decreases c.len(),
{
    let s = video_texts(c)[k];
    let rest = video_texts(c.drop_last());
    if k < rest.len() {
        lemma_offered_video_selectable(c.drop_last(), k);
        let q = quality_of_text(s);
        let i = choose|i: int| 0 <= i < c.drop_last().len() && is_video_pick(#[trigger] c.drop_last()[i], q);
        assert(c[i] == c.drop_last()[i]);
    } else {
        let q = c.last().video_quality->0;
        lemma_display_round_trip(q, AudioLevel::Low, s);
        assert(is_video_pick(c[c.len() - 1], q));
    }
}

/// Every audio level that `describe` offers is a display text that reads back
/// to a level for which the catalog has a stream `select` may choose.
pub proof fn lemma_offered_audio_selectable(c: Seq<StreamDescriptor>, k: int)
    requires
        0 <= k < audio_texts(c).len(),
    ensures
        is_audio_text(audio_texts(c)[k]),
        has_audio_pick(c, audio_of_text(audio_texts(c)[k])),
    decreases c.len(),
{
    let s = audio_texts(c)[k];
    let rest = audio_texts(c.drop_last());
    if k < rest.len() {
        lemma_offered_audio_selectable(c.drop_last(), k);
        let a = audio_of_text(s);
        let i = choose|i: int| 0 <= i < c.drop_last().len() && is_audio_pick(#[trigger] c.drop_last()[i], a);
        assert(c[i] == c.drop_last()[i]);
    } else {
        let a = c.last().audio_quality->0;
        lemma_display_round_trip(QualityLabel::P144, a, s);
        assert(is_audio_pick(c[c.len() - 1], a));
    }
}

} // verus!
