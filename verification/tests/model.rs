use yew_ui::{
    AudioSampleFormat, AudioSampleFormatWrapper, EncodedAudioChunkType,
    EncodedAudioChunkTypeWrapper, EncodedVideoChunkType, EncodedVideoChunkTypeWrapper,
    MediaPacketData, MediaPacketWrapper,
};

#[test]
fn video_chunk_type_from_key() {
    let w = EncodedVideoChunkTypeWrapper::from(String::from("key"));
    assert_eq!(w.0, EncodedVideoChunkType::Key);
}

#[test]
fn video_chunk_type_from_other_names_is_delta() {
    for name in ["delta", "", "Key", "keyframe", " key"] {
        let w = EncodedVideoChunkTypeWrapper::from(name.to_string());
        assert_eq!(w.0, EncodedVideoChunkType::Delta, "{name}");
    }
}

#[test]
fn video_chunk_type_names() {
    assert_eq!(EncodedVideoChunkTypeWrapper(EncodedVideoChunkType::Key).to_string(), "key");
    assert_eq!(EncodedVideoChunkTypeWrapper(EncodedVideoChunkType::Delta).to_string(), "delta");
}

#[test]
fn video_chunk_type_round_trip() {
    for t in [EncodedVideoChunkType::Key, EncodedVideoChunkType::Delta] {
        let name = EncodedVideoChunkTypeWrapper(t).to_string();
        assert_eq!(EncodedVideoChunkTypeWrapper::from(name).0, t);
    }
}

#[test]
fn audio_chunk_type_from_names() {
    assert_eq!(EncodedAudioChunkTypeWrapper::from(String::from("key")).0, EncodedAudioChunkType::Key);
    assert_eq!(EncodedAudioChunkTypeWrapper::from(String::from("delta")).0, EncodedAudioChunkType::Delta);
    assert_eq!(EncodedAudioChunkTypeWrapper::from(String::from("KEY")).0, EncodedAudioChunkType::Delta);
}

#[test]
fn audio_chunk_type_names_round_trip() {
    assert_eq!(EncodedAudioChunkTypeWrapper(EncodedAudioChunkType::Key).to_string(), "key");
    assert_eq!(EncodedAudioChunkTypeWrapper(EncodedAudioChunkType::Delta).to_string(), "delta");
    for name in ["key", "delta"] {
        let w = EncodedAudioChunkTypeWrapper::from(name.to_string());
        assert_eq!(w.to_string(), name);
    }
}

const FORMATS: [(&str, AudioSampleFormat); 8] = [
    ("u8", AudioSampleFormat::U8),
    ("s16", AudioSampleFormat::S16),
    ("s32", AudioSampleFormat::S32),
    ("f32", AudioSampleFormat::F32),
    ("u8-planar", AudioSampleFormat::U8Planar),
    ("s16-planar", AudioSampleFormat::S16Planar),
    ("s32-planar", AudioSampleFormat::S32Planar),
    ("f32-planar", AudioSampleFormat::F32Planar),
];

#[test]
fn sample_format_from_each_name() {
    for (name, format) in FORMATS {
        assert_eq!(AudioSampleFormatWrapper::from(name.to_string()).0, format, "{name}");
        assert_eq!(AudioSampleFormatWrapper::parse(name), Some(AudioSampleFormatWrapper(format)));
    }
}

#[test]
fn sample_format_names() {
    for (name, format) in FORMATS {
        assert_eq!(AudioSampleFormatWrapper(format).to_string(), name);
    }
}

#[test]
fn sample_format_unknown_names() {
    for name in ["", "u16", "S16", "f64-planar", "s16planar", "u8 "] {
        assert_eq!(AudioSampleFormatWrapper::parse(name), None, "{name}");
    }
}

#[test]
fn sample_format_round_trip() {
    for (_, format) in FORMATS {
        let name = AudioSampleFormatWrapper(format).to_string();
        assert_eq!(AudioSampleFormatWrapper::parse(&name), Some(AudioSampleFormatWrapper(format)));
    }
}

#[test]
fn text_frame_gives_default_packet() {
    let ok: Result<String, anyhow::Error> = Ok(String::from("hello"));
    assert!(matches!(MediaPacketWrapper::from(ok).0, MediaPacketData::Default));
    let err: Result<String, anyhow::Error> = Err(anyhow::Error::msg("closed"));
    assert!(matches!(MediaPacketWrapper::from(err).0, MediaPacketData::Default));
}

#[test]
fn binary_frame_gives_its_bytes() {
    let ok: Result<Vec<u8>, anyhow::Error> = Ok(vec![0x08, 0x01, 0x12, 0x00]);
    match MediaPacketWrapper::from(ok).0 {
        MediaPacketData::Encoded(bytes) => assert_eq!(bytes, vec![0x08, 0x01, 0x12, 0x00]),
        MediaPacketData::Default => panic!("expected the frame's bytes"),
    }
}

#[test]
fn unreadable_binary_frame_gives_default_packet() {
    let err: Result<Vec<u8>, anyhow::Error> = Err(anyhow::Error::msg("broken"));
    assert!(matches!(MediaPacketWrapper::from(err).0, MediaPacketData::Default));
}
