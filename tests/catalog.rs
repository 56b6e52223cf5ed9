use tubemux::catalog::{SelectError, Selection, StreamDescriptor, describe, select, text_contains};
use tubemux::quality::{AudioLevel, QualityLabel};

fn video(mime: &str, q: QualityLabel) -> StreamDescriptor {
    StreamDescriptor {
        mime: mime.to_string(),
        has_video_track: true,
        has_audio_track: false,
        video_quality: Some(q),
        audio_quality: None,
    }
}

fn audio(mime: &str, a: AudioLevel) -> StreamDescriptor {
    StreamDescriptor {
        mime: mime.to_string(),
        has_video_track: false,
        has_audio_track: true,
        video_quality: None,
        audio_quality: Some(a),
    }
}

fn combined(q: QualityLabel, a: AudioLevel) -> StreamDescriptor {
    StreamDescriptor {
        mime: "video/mp4".to_string(),
        has_video_track: true,
        has_audio_track: true,
        video_quality: Some(q),
        audio_quality: Some(a),
    }
}

#[test]
fn select_picks_matching_pair() {
    let c = vec![video("video/mp4", QualityLabel::P720), audio("audio/mp4", AudioLevel::High)];
    assert_eq!(select(&c, QualityLabel::P720, AudioLevel::High), Ok(Selection { video: 0, audio: 1 }));
}

#[test]
fn select_takes_first_in_catalog_order() {
    let c = vec![
        audio("audio/mp4; codecs=\"mp4a.40.2\"", AudioLevel::Medium),
        video("video/mp4", QualityLabel::P1080),
        audio("audio/mp4", AudioLevel::Medium),
        video("video/mp4", QualityLabel::P1080),
    ];
    assert_eq!(select(&c, QualityLabel::P1080, AudioLevel::Medium), Ok(Selection { video: 1, audio: 0 }));
}

#[test]
fn select_skips_streams_that_break_a_rule() {
    let c = vec![
        combined(QualityLabel::P720, AudioLevel::High),
        video("video/webm", QualityLabel::P720),
        video("video/mp4; codecs=\"avc1\"", QualityLabel::P720),
        StreamDescriptor { mime: "video/mp4".to_string(), has_video_track: true, has_audio_track: false, video_quality: None, audio_quality: None },
        audio("audio/webm", AudioLevel::High),
        StreamDescriptor { mime: "audio/mp4".to_string(), has_video_track: true, has_audio_track: true, video_quality: None, audio_quality: Some(AudioLevel::High) },
        video("video/mp4", QualityLabel::P720),
        audio("audio/mp4", AudioLevel::High),
    ];
    assert_eq!(select(&c, QualityLabel::P720, AudioLevel::High), Ok(Selection { video: 6, audio: 7 }));
}

#[test]
fn select_fails_without_video() {
    let c = vec![video("video/mp4", QualityLabel::P480), audio("audio/mp4", AudioLevel::High)];
    assert_eq!(select(&c, QualityLabel::P720, AudioLevel::High), Err(SelectError::NoVideoStream));
}

#[test]
fn select_fails_without_audio() {
    let c = vec![video("video/mp4", QualityLabel::P720), audio("audio/mp4", AudioLevel::Low)];
    assert_eq!(select(&c, QualityLabel::P720, AudioLevel::High), Err(SelectError::NoAudioStream));
}

#[test]
fn select_fails_on_empty_catalog() {
    assert_eq!(select(&vec![], QualityLabel::P144, AudioLevel::Low), Err(SelectError::NoVideoStream));
}

#[test]
fn describe_lists_in_order_with_repeats() {
    let c = vec![
        video("video/mp4", QualityLabel::P1080Hz60),
        audio("audio/mp4", AudioLevel::Low),
        combined(QualityLabel::P360, AudioLevel::Medium),
        video("video/webm", QualityLabel::P2160),
        video("video/mp4", QualityLabel::P144),
        audio("audio/mp4; codecs=\"mp4a.40.5\"", AudioLevel::High),
        video("video/mp4", QualityLabel::P1080Hz60),
        audio("audio/webm", AudioLevel::Medium),
    ];
    let r = describe(&c);
    assert_eq!(r.video, vec!["1080p 60Hz".to_string(), "144p".to_string(), "1080p 60Hz".to_string()]);
    assert_eq!(r.audio, vec!["Low".to_string(), "High".to_string()]);
}

#[test]
fn describe_of_empty_catalog() {
    let r = describe(&vec![]);
    assert!(r.video.is_empty());
    assert!(r.audio.is_empty());
}

#[test]
fn contains_finds_runs() {
    assert!(text_contains("audio/mp4; codecs", "audio/mp4"));
    assert!(text_contains("x audio/mp4", "audio/mp4"));
    assert!(text_contains("abc", ""));
    assert!(!text_contains("audio/mp", "audio/mp4"));
    assert!(!text_contains("audio/webm", "audio/mp4"));
    assert!(!text_contains("", "a"));
}
