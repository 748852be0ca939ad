//! Media-call UI logic: the decisions a call's host component makes about
//! which capture pipelines to start and keep running, which frames to
//! encode as key frames, and the conversions between the names that
//! WebCodecs uses for chunk types and sample formats and the values the
//! library works with.

mod host;
mod model;

pub use host::{
    frame_action, FrameAction, Host, KeyFrameCounter, MeetingProps, Msg, Task, KEY_FRAME_INTERVAL,
};
pub use model::{
    AudioSampleFormat, AudioSampleFormatWrapper, EncodedAudioChunkType,
    EncodedAudioChunkTypeWrapper, EncodedVideoChunkType, EncodedVideoChunkTypeWrapper,
    MediaPacketData, MediaPacketWrapper,
};
