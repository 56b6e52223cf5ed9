use tubemux::quality::{AudioLevel, QualityLabel, audio_display, label_to_quality, level_to_audio, quality_display};

const ALL: [QualityLabel; 31] = [
    QualityLabel::P144,
    QualityLabel::P144HDR,
    QualityLabel::P144Hz60HDR,
    QualityLabel::P240,
    QualityLabel::P240HDR,
    QualityLabel::P240Hz60HDR,
    QualityLabel::P360,
    QualityLabel::P360HDR,
    QualityLabel::P360Hz60,
    QualityLabel::P360Hz60HDR,
    QualityLabel::P480,
    QualityLabel::P480HDR,
    QualityLabel::P480Hz60,
    QualityLabel::P480Hz60HDR,
    QualityLabel::P720,
    QualityLabel::P720Hz50,
    QualityLabel::P720Hz60,
    QualityLabel::P720Hz60HDR,
    QualityLabel::P1080,
    QualityLabel::P1080Hz50,
    QualityLabel::P1080Hz60,
    QualityLabel::P1080Hz60HDR,
    QualityLabel::P1440,
    QualityLabel::P1440Hz60,
    QualityLabel::P1440Hz60HDR,
    QualityLabel::P2160,
    QualityLabel::P2160Hz60,
    QualityLabel::P2160Hz60HDR,
    QualityLabel::P4320,
    QualityLabel::P4320Hz60,
    QualityLabel::P4320Hz60HDR,
];

#[test]
fn known_labels_map_to_their_quality() {
    assert_eq!(label_to_quality("144p"), QualityLabel::P144);
    assert_eq!(label_to_quality("720p"), QualityLabel::P720);
    assert_eq!(label_to_quality("720p 50Hz"), QualityLabel::P720Hz50);
    assert_eq!(label_to_quality("1080p 60Hz HDR"), QualityLabel::P1080Hz60HDR);
    assert_eq!(label_to_quality("2160p 60Hz"), QualityLabel::P2160Hz60);
    assert_eq!(label_to_quality("4320p 60Hz HDR"), QualityLabel::P4320Hz60HDR);
}

#[test]
fn known_levels_map_to_their_level() {
    assert_eq!(level_to_audio("Low"), AudioLevel::Low);
    assert_eq!(level_to_audio("Medium"), AudioLevel::Medium);
    assert_eq!(level_to_audio("High"), AudioLevel::High);
}

#[test]
fn display_texts_round_trip() {
    for q in ALL {
        let text = quality_display(q);
        assert_eq!(label_to_quality(&text), q);
    }
    for a in [AudioLevel::Low, AudioLevel::Medium, AudioLevel::High] {
        assert_eq!(level_to_audio(&audio_display(a)), a);
    }
}

#[test]
fn display_texts_are_distinct() {
    for (i, a) in ALL.iter().enumerate() {
        for b in ALL.iter().skip(i + 1) {
            assert_ne!(quality_display(*a), quality_display(*b));
        }
    }
}

#[test]
fn display_texts_exact() {
    assert_eq!(quality_display(QualityLabel::P360Hz60), "360p 60Hz");
    assert_eq!(quality_display(QualityLabel::P1440Hz60HDR), "1440p 60Hz HDR");
    assert_eq!(audio_display(AudioLevel::Medium), "Medium");
}

#[test]
fn unknown_texts_fall_back_to_lowest() {
    for s in ["", "720", "720P", "720p ", "high", "HIGH", "4K", "1080p60"] {
        assert_eq!(label_to_quality(s), QualityLabel::P144);
        assert_eq!(level_to_audio(s), AudioLevel::Low);
    }
}
