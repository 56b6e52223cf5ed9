//! Quality labels and audio levels, and the display texts that name them.
use vstd::prelude::*;

verus! {

/// A video resolution, frame rate and dynamic range combination.
#[derive(Clone, Copy, Debug, PartialEq, Eq, Structural)]
pub enum QualityLabel {
    P144,
    P144HDR,
    P144Hz60HDR,
    P240,
    P240HDR,
    P240Hz60HDR,
    P360,
    P360HDR,
    P360Hz60,
    P360Hz60HDR,
    P480,
    P480HDR,
    P480Hz60,
    P480Hz60HDR,
    P720,
    P720Hz50,
    P720Hz60,
    P720Hz60HDR,
    P1080,
    P1080Hz50,
    P1080Hz60,
    P1080Hz60HDR,
    P1440,
    P1440Hz60,
    P1440Hz60HDR,
    P2160,
    P2160Hz60,
    P2160Hz60HDR,
    P4320,
    P4320Hz60,
    P4320Hz60HDR,
}

/// A coarse audio bitrate tier.
#[derive(Clone, Copy, Debug, PartialEq, Eq, Structural)]
pub enum AudioLevel {
    Low,
    Medium,
    High,
}

/// The display text of each quality label.
pub open spec fn quality_text(q: QualityLabel) -> Seq<char> {
    match q {
        QualityLabel::P144 => "144p"@,
        QualityLabel::P144HDR => "144p HDR"@,
        QualityLabel::P144Hz60HDR => "144p 60Hz HDR"@,
        QualityLabel::P240 => "240p"@,
        QualityLabel::P240HDR => "240p HDR"@,
        QualityLabel::P240Hz60HDR => "240p 60Hz HDR"@,
        QualityLabel::P360 => "360p"@,
        QualityLabel::P360HDR => "360p HDR"@,
        QualityLabel::P360Hz60 => "360p 60Hz"@,
        QualityLabel::P360Hz60HDR => "360p 60Hz HDR"@,
        QualityLabel::P480 => "480p"@,
        QualityLabel::P480HDR => "480p HDR"@,
        QualityLabel::P480Hz60 => "480p 60Hz"@,
        QualityLabel::P480Hz60HDR => "480p 60Hz HDR"@,
        QualityLabel::P720 => "720p"@,
        QualityLabel::P720Hz50 => "720p 50Hz"@,
        QualityLabel::P720Hz60 => "720p 60Hz"@,
        QualityLabel::P720Hz60HDR => "720p 60Hz HDR"@,
        QualityLabel::P1080 => "1080p"@,
        QualityLabel::P1080Hz50 => "1080p 50Hz"@,
        QualityLabel::P1080Hz60 => "1080p 60Hz"@,
        QualityLabel::P1080Hz60HDR => "1080p 60Hz HDR"@,
        QualityLabel::P1440 => "1440p"@,
        QualityLabel::P1440Hz60 => "1440p 60Hz"@,
        QualityLabel::P1440Hz60HDR => "1440p 60Hz HDR"@,
        QualityLabel::P2160 => "2160p"@,
        QualityLabel::P2160Hz60 => "2160p 60Hz"@,
        QualityLabel::P2160Hz60HDR => "2160p 60Hz HDR"@,
        QualityLabel::P4320 => "4320p"@,
        QualityLabel::P4320Hz60 => "4320p 60Hz"@,
        QualityLabel::P4320Hz60HDR => "4320p 60Hz HDR"@,
    }
}

/// The display text of each audio level.
pub open spec fn audio_text(a: AudioLevel) -> Seq<char> {
    match a {
        AudioLevel::Low => "Low"@,
        AudioLevel::Medium => "Medium"@,
        AudioLevel::High => "High"@,
    }
}

/// A text names a quality label when it is that label's display text.
pub open spec fn is_quality_text(s: Seq<char>) -> bool {
    exists|q: QualityLabel| quality_text(q) == s
}

/// A text names an audio level when it is that level's display text.
pub open spec fn is_audio_text(s: Seq<char>) -> bool {
    exists|a: AudioLevel| audio_text(a) == s
}

/// The label that a text stands for: the one it names, or the lowest quality
/// when it names none.
pub open spec fn quality_of_text(s: Seq<char>) -> QualityLabel {
    if is_quality_text(s) {
        choose|q: QualityLabel| quality_text(q) == s
    } else {
        QualityLabel::P144
    }
}

/// The level that a text stands for: the one it names, or the lowest level
/// when it names none.
pub open spec fn audio_of_text(s: Seq<char>) -> AudioLevel {
    if is_audio_text(s) {
        choose|a: AudioLevel| audio_text(a) == s
    } else {
        AudioLevel::Low
    }
}

/// No two quality labels share a display text.
pub proof fn lemma_quality_text_injective(a: QualityLabel, b: QualityLabel)
    ensures
        quality_text(a) == quality_text(b) ==> a == b,
{

    reveal_strlit("144p");
    reveal_strlit("144p HDR");
    reveal_strlit("144p 60Hz HDR");
    reveal_strlit("240p");
    reveal_strlit("240p HDR");
    reveal_strlit("240p 60Hz HDR");
    reveal_strlit("360p");
    reveal_strlit("360p HDR");
    reveal_strlit("360p 60Hz");
    reveal_strlit("360p 60Hz HDR");
    reveal_strlit("480p");
    reveal_strlit("480p HDR");
    reveal_strlit("480p 60Hz");
    reveal_strlit("480p 60Hz HDR");
    reveal_strlit("720p");
    reveal_strlit("720p 50Hz");
    reveal_strlit("720p 60Hz");
    reveal_strlit("720p 60Hz HDR");
    reveal_strlit("1080p");
    reveal_strlit("1080p 50Hz");
    reveal_strlit("1080p 60Hz");
    reveal_strlit("1080p 60Hz HDR");
    reveal_strlit("1440p");
    reveal_strlit("1440p 60Hz");
    reveal_strlit("1440p 60Hz HDR");
    reveal_strlit("2160p");
    reveal_strlit("2160p 60Hz");
    reveal_strlit("2160p 60Hz HDR");
    reveal_strlit("4320p");
    reveal_strlit("4320p 60Hz");
    reveal_strlit("4320p 60Hz HDR");
    if quality_text(a) == quality_text(b) {
        let ta = quality_text(a);
        let tb = quality_text(b);
        assert(ta[0] == tb[0] && ta[1] == tb[1] && ta[2] == tb[2] && ta[3] == tb[3]);
        if ta.len() > 6 {
            assert(ta[5] == tb[5] && ta[6] == tb[6]);
        }
    }
}

/// Position of each quality label in the display table.
pub open spec fn quality_index(q: QualityLabel) -> int {
    match q {
        QualityLabel::P144 => 0,
        QualityLabel::P144HDR => 1,
        QualityLabel::P144Hz60HDR => 2,
        QualityLabel::P240 => 3,
        QualityLabel::P240HDR => 4,
        QualityLabel::P240Hz60HDR => 5,
        QualityLabel::P360 => 6,
        QualityLabel::P360HDR => 7,
        QualityLabel::P360Hz60 => 8,
        QualityLabel::P360Hz60HDR => 9,
        QualityLabel::P480 => 10,
        QualityLabel::P480HDR => 11,
        QualityLabel::P480Hz60 => 12,
        QualityLabel::P480Hz60HDR => 13,
        QualityLabel::P720 => 14,
        QualityLabel::P720Hz50 => 15,
        QualityLabel::P720Hz60 => 16,
        QualityLabel::P720Hz60HDR => 17,
        QualityLabel::P1080 => 18,
        QualityLabel::P1080Hz50 => 19,
        QualityLabel::P1080Hz60 => 20,
        QualityLabel::P1080Hz60HDR => 21,
        QualityLabel::P1440 => 22,
        QualityLabel::P1440Hz60 => 23,
        QualityLabel::P1440Hz60HDR => 24,
        QualityLabel::P2160 => 25,
        QualityLabel::P2160Hz60 => 26,
        QualityLabel::P2160Hz60HDR => 27,
        QualityLabel::P4320 => 28,
        QualityLabel::P4320Hz60 => 29,
        QualityLabel::P4320Hz60HDR => 30,
    }
}

/// No two audio levels share a display text.
pub proof fn lemma_audio_text_injective(a: AudioLevel, b: AudioLevel)
    ensures
        audio_text(a) == audio_text(b) ==> a == b,
{
    reveal_strlit("Low");
    reveal_strlit("Medium");
    reveal_strlit("High");
    if audio_text(a) == audio_text(b) {
        assert(audio_text(a)[0] == audio_text(b)[0]);
    }
}

/// Every quality label, in the order of the display table.
fn quality_table() -> (r: Vec<QualityLabel>)
    ensures
        r@.len() == 31,
        forall|q: QualityLabel| #[trigger] r@[quality_index(q)] == q,
{
    vec![
        QualityLabel::P144,
        QualityLabel::P144HDR,
        QualityLabel::P144Hz60HDR,
        QualityLabel::P240,
        QualityLabel::P240HDR,
        QualityLabel::P240Hz60HDR,
        QualityLabel::P360,
        QualityLabel::P360HDR,
        QualityLabel::P360Hz60,
        QualityLabel::P360Hz60HDR,
        QualityLabel::P480,
        QualityLabel::P480HDR,
        QualityLabel::P480Hz60,
        QualityLabel::P480Hz60HDR,
        QualityLabel::P720,
        QualityLabel::P720Hz50,
        QualityLabel::P720Hz60,
        QualityLabel::P720Hz60HDR,
        QualityLabel::P1080,
        QualityLabel::P1080Hz50,
        QualityLabel::P1080Hz60,
        QualityLabel::P1080Hz60HDR,
        QualityLabel::P1440,
        QualityLabel::P1440Hz60,
        QualityLabel::P1440Hz60HDR,
        QualityLabel::P2160,
        QualityLabel::P2160Hz60,
        QualityLabel::P2160Hz60HDR,
        QualityLabel::P4320,
        QualityLabel::P4320Hz60,
        QualityLabel::P4320Hz60HDR,
    ]
}

/// The display text of a quality label.
pub fn quality_display(q: QualityLabel) -> (r: String)
    ensures
        r@ == quality_text(q),
{
    match q {
        QualityLabel::P144 => String::from_str("144p"),
        QualityLabel::P144HDR => String::from_str("144p HDR"),
        QualityLabel::P144Hz60HDR => String::from_str("144p 60Hz HDR"),
        QualityLabel::P240 => String::from_str("240p"),
        QualityLabel::P240HDR => String::from_str("240p HDR"),
        QualityLabel::P240Hz60HDR => String::from_str("240p 60Hz HDR"),
        QualityLabel::P360 => String::from_str("360p"),
        QualityLabel::P360HDR => String::from_str("360p HDR"),
        QualityLabel::P360Hz60 => String::from_str("360p 60Hz"),
        QualityLabel::P360Hz60HDR => String::from_str("360p 60Hz HDR"),
        QualityLabel::P480 => String::from_str("480p"),
        QualityLabel::P480HDR => String::from_str("480p HDR"),
        QualityLabel::P480Hz60 => String::from_str("480p 60Hz"),
        QualityLabel::P480Hz60HDR => String::from_str("480p 60Hz HDR"),
        QualityLabel::P720 => String::from_str("720p"),
        QualityLabel::P720Hz50 => String::from_str("720p 50Hz"),
        QualityLabel::P720Hz60 => String::from_str("720p 60Hz"),
        QualityLabel::P720Hz60HDR => String::from_str("720p 60Hz HDR"),
        QualityLabel::P1080 => String::from_str("1080p"),
        QualityLabel::P1080Hz50 => String::from_str("1080p 50Hz"),
        QualityLabel::P1080Hz60 => String::from_str("1080p 60Hz"),
        QualityLabel::P1080Hz60HDR => String::from_str("1080p 60Hz HDR"),
        QualityLabel::P1440 => String::from_str("1440p"),
        QualityLabel::P1440Hz60 => String::from_str("1440p 60Hz"),
        QualityLabel::P1440Hz60HDR => String::from_str("1440p 60Hz HDR"),
        QualityLabel::P2160 => String::from_str("2160p"),
        QualityLabel::P2160Hz60 => String::from_str("2160p 60Hz"),
        QualityLabel::P2160Hz60HDR => String::from_str("2160p 60Hz HDR"),
        QualityLabel::P4320 => String::from_str("4320p"),
        QualityLabel::P4320Hz60 => String::from_str("4320p 60Hz"),
        QualityLabel::P4320Hz60HDR => String::from_str("4320p 60Hz HDR"),
    }
}

/// The display text of an audio level.
pub fn audio_display(a: AudioLevel) -> (r: String)
    ensures
        r@ == audio_text(a),
{
    match a {
        AudioLevel::Low => String::from_str("Low"),
        AudioLevel::Medium => String::from_str("Medium"),
        AudioLevel::High => String::from_str("High"),
    }
}

/// The quality label that a display text names. A text that names no label
/// gives the lowest quality, 144p, rather than an error.
pub fn label_to_quality(s: &str) -> (q: QualityLabel)
    ensures
        q == quality_of_text(s@),
        is_quality_text(s@) ==> quality_text(q) == s@,
        !is_quality_text(s@) ==> q == QualityLabel::P144,
{
    let table = quality_table();
    let target = String::from_str(s);
    let mut i: usize = 0;
    while i < table.len()
        invariant
            table@.len() == 31,
            forall|q: QualityLabel| #[trigger] table@[quality_index(q)] == q,
            target@ == s@,
            0 <= i <= table@.len(),
            forall|j: int| 0 <= j < i ==> quality_text(#[trigger] table@[j]) != s@,
        decreases table@.len() - i,
    {
        let q = table[i];
        if quality_display(q) == target {
            proof {
                assert forall|p: QualityLabel| quality_text(p) == s@ implies p == q by {
                    lemma_quality_text_injective(p, q);
                }
            }
            return q;
        }
        i = i + 1;
    }
    proof {
        assert forall|p: QualityLabel| quality_text(p) != s@ by {
            assert(table@[quality_index(p)] == p);
        }
    }
    QualityLabel::P144
}

/// The audio level that a display text names. A text that names no level
/// gives the lowest level rather than an error.
pub fn level_to_audio(s: &str) -> (a: AudioLevel)
    ensures
        a == audio_of_text(s@),
        is_audio_text(s@) ==> audio_text(a) == s@,
        !is_audio_text(s@) ==> a == AudioLevel::Low,
{
    let target = String::from_str(s);
    let levels = vec![AudioLevel::Low, AudioLevel::Medium, AudioLevel::High];
    let mut i: usize = 0;
    while i < levels.len()
        invariant
            levels@ == seq![AudioLevel::Low, AudioLevel::Medium, AudioLevel::High],
            target@ == s@,
            0 <= i <= levels@.len(),
            forall|j: int| 0 <= j < i ==> audio_text(#[trigger] levels@[j]) != s@,
        decreases levels@.len() - i,
    {
        let a = levels[i];
        if audio_display(a) == target {
            proof {
                assert forall|p: AudioLevel| audio_text(p) == s@ implies p == a by {
                    lemma_audio_text_injective(p, a);
                }
            }
            return a;
        }
        i = i + 1;
    }
    proof {
        assert forall|p: AudioLevel| audio_text(p) != s@ by {
            match p {
                AudioLevel::Low => assert(levels@[0] == p),
                AudioLevel::Medium => assert(levels@[1] == p),
                AudioLevel::High => assert(levels@[2] == p),
            }
        }
    }
    AudioLevel::Low
}

/// Reading back the display text of any label or level gives that label or
/// level, and every text that names one reads back to itself.
pub proof fn lemma_display_round_trip(q: QualityLabel, a: AudioLevel, s: Seq<char>)
    ensures
        quality_of_text(quality_text(q)) == q,
        audio_of_text(audio_text(a)) == a,
        is_quality_text(s) ==> quality_text(quality_of_text(s)) == s,
        is_audio_text(s) ==> audio_text(audio_of_text(s)) == s,
{
    lemma_quality_text_injective(quality_of_text(quality_text(q)), q);
    lemma_audio_text_injective(audio_of_text(audio_text(a)), a);
}

/// Texts that name no label or level fall back to the lowest quality and the
/// lowest audio level.
pub proof fn lemma_unrecognized_text_defaults(s: Seq<char>)
    ensures
        !is_quality_text(s) ==> quality_of_text(s) == QualityLabel::P144,
        !is_audio_text(s) ==> audio_of_text(s) == AudioLevel::Low,
{
}

} // verus!
