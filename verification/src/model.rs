use vstd::prelude::*;

verus! {

// ---------------------------------------------------------------------------
// Media packets received over the websocket
// ---------------------------------------------------------------------------

/// The error that a websocket frame carries when it could not be read.
#[verifier::external_type_specification]
#[verifier::external_body]
pub struct ExAnyhowError(anyhow::Error);

/// A media packet as the library holds it: either the default packet, or
/// the packet that a protobuf encoding decodes to.
pub enum MediaPacketData {
    Default,
    Encoded(Vec<u8>),
}

/// The packet that a websocket frame stands for.
pub struct MediaPacketWrapper(pub MediaPacketData);

/// A text frame never carries a packet: it stands for the default packet.
impl From<Result<String, anyhow::Error>> for MediaPacketWrapper {
    fn from(_text: Result<String, anyhow::Error>) -> (res: Self) {
        MediaPacketWrapper(MediaPacketData::Default)
    }
}

impl vstd::std_specs::convert::FromSpecImpl<Result<String, anyhow::Error>> for MediaPacketWrapper {
    open spec fn obeys_from_spec() -> bool {
        true
    }

    open spec fn from_spec(_text: Result<String, anyhow::Error>) -> Self {
        MediaPacketWrapper(MediaPacketData::Default)
    }
}

/// A binary frame that was read carries the encoding of a packet; one that
/// could not be read stands for the default packet.
impl From<Result<Vec<u8>, anyhow::Error>> for MediaPacketWrapper {
    fn from(bin: Result<Vec<u8>, anyhow::Error>) -> (res: Self) {
        match bin {
            Ok(data) => MediaPacketWrapper(MediaPacketData::Encoded(data)),
            Err(_) => MediaPacketWrapper(MediaPacketData::Default),
        }
    }
}

impl vstd::std_specs::convert::FromSpecImpl<Result<Vec<u8>, anyhow::Error>> for MediaPacketWrapper {
    open spec fn obeys_from_spec() -> bool {
        true
    }

    open spec fn from_spec(bin: Result<Vec<u8>, anyhow::Error>) -> Self {
        match bin {
            Ok(data) => MediaPacketWrapper(MediaPacketData::Encoded(data)),
            Err(_) => MediaPacketWrapper(MediaPacketData::Default),
        }
    }
}

// ---------------------------------------------------------------------------
// Encoded video chunk types
// ---------------------------------------------------------------------------

/// The kind of an encoded video chunk.
#[derive(Clone, Copy, Debug, PartialEq, Eq, Structural)]
pub enum EncodedVideoChunkType {
    Key,
    Delta,
}

/// An encoded video chunk type, as read from and written to its name.
#[derive(Clone, Copy, Debug, PartialEq, Eq, Structural)]
pub struct EncodedVideoChunkTypeWrapper(pub EncodedVideoChunkType);

/// The video chunk type that a name stands for: `"key"` is a key chunk,
/// any other name a delta chunk.
pub open spec fn video_chunk_type_of(name: Seq<char>) -> EncodedVideoChunkType {
    if name == "key"@ {
        EncodedVideoChunkType::Key
    } else {
        EncodedVideoChunkType::Delta
    }
}

/// The name of a video chunk type.
pub open spec fn video_chunk_type_name(t: EncodedVideoChunkType) -> Seq<char> {
    match t {
        EncodedVideoChunkType::Key => "key"@,
        EncodedVideoChunkType::Delta => "delta"@,
    }
}

impl From<String> for EncodedVideoChunkTypeWrapper {
    fn from(s: String) -> (res: Self) {
        if s == "key".to_owned() {
            EncodedVideoChunkTypeWrapper(EncodedVideoChunkType::Key)
        } else {
            EncodedVideoChunkTypeWrapper(EncodedVideoChunkType::Delta)
        }
    }
}

impl vstd::std_specs::convert::FromSpecImpl<String> for EncodedVideoChunkTypeWrapper {
    open spec fn obeys_from_spec() -> bool {
        true
    }

    open spec fn from_spec(s: String) -> Self {
        EncodedVideoChunkTypeWrapper(video_chunk_type_of(s@))
    }
}

impl EncodedVideoChunkTypeWrapper {
    /// The name of the chunk type: `"key"` or `"delta"`.
    pub fn to_string(&self) -> (s: String)
        ensures
            s@ == video_chunk_type_name(self.0),
    {
        match self.0 {
            EncodedVideoChunkType::Delta => "delta".to_owned(),
            EncodedVideoChunkType::Key => "key".to_owned(),
        }
    }
}

// ---------------------------------------------------------------------------
// Encoded audio chunk types
// ---------------------------------------------------------------------------

/// The kind of an encoded audio chunk.
#[derive(Clone, Copy, Debug, PartialEq, Eq, Structural)]
pub enum EncodedAudioChunkType {
    Key,
    Delta,
}

/// An encoded audio chunk type, as read from and written to its name.
#[derive(Clone, Copy, Debug, PartialEq, Eq, Structural)]
pub struct EncodedAudioChunkTypeWrapper(pub EncodedAudioChunkType);

/// The audio chunk type that a name stands for: `"key"` is a key chunk,
/// any other name a delta chunk.
pub open spec fn audio_chunk_type_of(name: Seq<char>) -> EncodedAudioChunkType {
    if name == "key"@ {
        EncodedAudioChunkType::Key
    } else {
        EncodedAudioChunkType::Delta
    }
}

/// The name of an audio chunk type.
pub open spec fn audio_chunk_type_name(t: EncodedAudioChunkType) -> Seq<char> {
    match t {
        EncodedAudioChunkType::Key => "key"@,
        EncodedAudioChunkType::Delta => "delta"@,
    }
}

impl From<String> for EncodedAudioChunkTypeWrapper {
    fn from(s: String) -> (res: Self) {
        if s == "key".to_owned() {
            EncodedAudioChunkTypeWrapper(EncodedAudioChunkType::Key)
        } else {
            EncodedAudioChunkTypeWrapper(EncodedAudioChunkType::Delta)
        }
    }
}

impl vstd::std_specs::convert::FromSpecImpl<String> for EncodedAudioChunkTypeWrapper {
    open spec fn obeys_from_spec() -> bool {
        true
    }

    open spec fn from_spec(s: String) -> Self {
        EncodedAudioChunkTypeWrapper(audio_chunk_type_of(s@))
    }
}

impl EncodedAudioChunkTypeWrapper {
    /// The name of the chunk type: `"key"` or `"delta"`.
    pub fn to_string(&self) -> (s: String)
        ensures
            s@ == audio_chunk_type_name(self.0),
    {
        match self.0 {
            EncodedAudioChunkType::Delta => "delta".to_owned(),
            EncodedAudioChunkType::Key => "key".to_owned(),
        }
    }
}

// ---------------------------------------------------------------------------
// Audio sample formats
// ---------------------------------------------------------------------------

/// The layout of raw audio samples: the sample type, interleaved or planar.
#[derive(Clone, Copy, Debug, PartialEq, Eq, Structural)]
pub enum AudioSampleFormat {
    U8,
    S16,
    S32,
    F32,
    U8Planar,
    S16Planar,
    S32Planar,
    F32Planar,
}

/// An audio sample format, as read from and written to its name.
#[derive(Clone, Copy, Debug, PartialEq, Eq, Structural)]
pub struct AudioSampleFormatWrapper(pub AudioSampleFormat);

/// The name of a sample format.
pub open spec fn sample_format_name(f: AudioSampleFormat) -> Seq<char> {
    match f {
        AudioSampleFormat::U8 => "u8"@,
        AudioSampleFormat::S16 => "s16"@,
        AudioSampleFormat::S32 => "s32"@,
        AudioSampleFormat::F32 => "f32"@,
        AudioSampleFormat::U8Planar => "u8-planar"@,
        AudioSampleFormat::S16Planar => "s16-planar"@,
        AudioSampleFormat::S32Planar => "s32-planar"@,
        AudioSampleFormat::F32Planar => "f32-planar"@,
    }
}

/// The sample format that a name stands for, if it names one.
pub open spec fn sample_format_of(name: Seq<char>) -> Option<AudioSampleFormat> {
    if name == "u8"@ {
        Some(AudioSampleFormat::U8)
    } else if name == "s16"@ {
        Some(AudioSampleFormat::S16)
    } else if name == "s32"@ {
        Some(AudioSampleFormat::S32)
    } else if name == "f32"@ {
        Some(AudioSampleFormat::F32)
    } else if name == "u8-planar"@ {
        Some(AudioSampleFormat::U8Planar)
    } else if name == "s16-planar"@ {
        Some(AudioSampleFormat::S16Planar)
    } else if name == "s32-planar"@ {
        Some(AudioSampleFormat::S32Planar)
    } else if name == "f32-planar"@ {
        Some(AudioSampleFormat::F32Planar)
    } else {
        None
    }
}

impl AudioSampleFormatWrapper {
    /// The sample format that `s` names, or `None` where it names none.
    pub fn parse(s: &str) -> (res: Option<Self>)
        ensures
            match sample_format_of(s@) {
                Some(f) => res == Some(AudioSampleFormatWrapper(f)),
                None => res is None,
            },
    {
        let name = s.to_owned();
        if name == "u8".to_owned() {
            Some(AudioSampleFormatWrapper(AudioSampleFormat::U8))
        } else if name == "s16".to_owned() {
            Some(AudioSampleFormatWrapper(AudioSampleFormat::S16))
        } else if name == "s32".to_owned() {
            Some(AudioSampleFormatWrapper(AudioSampleFormat::S32))
        } else if name == "f32".to_owned() {
            Some(AudioSampleFormatWrapper(AudioSampleFormat::F32))
        } else if name == "u8-planar".to_owned() {
            Some(AudioSampleFormatWrapper(AudioSampleFormat::U8Planar))
        } else if name == "s16-planar".to_owned() {
            Some(AudioSampleFormatWrapper(AudioSampleFormat::S16Planar))
        } else if name == "s32-planar".to_owned() {
            Some(AudioSampleFormatWrapper(AudioSampleFormat::S32Planar))
        } else if name == "f32-planar".to_owned() {
            Some(AudioSampleFormatWrapper(AudioSampleFormat::F32Planar))
        } else {
            None
        }
    }

    /// The sample format that `s` names; `s` must name one.
    pub fn from(s: String) -> (res: Self)
        requires
            sample_format_of(s@) is Some,
        ensures
            res.0 == sample_format_of(s@).unwrap(),
    {
        Self::parse(s.as_str()).unwrap()
    }

    /// The name of the sample format, such as `"s16"` or `"f32-planar"`.
    pub fn to_string(&self) -> (s: String)
        ensures
            s@ == sample_format_name(self.0),
    {
        match self.0 {
            AudioSampleFormat::U8 => "u8".to_owned(),
            AudioSampleFormat::S16 => "s16".to_owned(),
            AudioSampleFormat::S32 => "s32".to_owned(),
            AudioSampleFormat::F32 => "f32".to_owned(),
            AudioSampleFormat::U8Planar => "u8-planar".to_owned(),
            AudioSampleFormat::S16Planar => "s16-planar".to_owned(),
            AudioSampleFormat::S32Planar => "s32-planar".to_owned(),
            AudioSampleFormat::F32Planar => "f32-planar".to_owned(),
        }
    }
}

// ---------------------------------------------------------------------------
// Laws of the names
// ---------------------------------------------------------------------------

/// Reading back the name of a video chunk type gives that type.
pub proof fn lemma_video_chunk_type_round_trip(t: EncodedVideoChunkType)
    ensures
        video_chunk_type_of(video_chunk_type_name(t)) == t,
{
    reveal_strlit("key");
    reveal_strlit("delta");
    assert("delta"@.len() != "key"@.len());
}

/// A video chunk type read from `"key"` or `"delta"` is written back as the
/// same name.
pub proof fn lemma_video_chunk_name_round_trip(name: Seq<char>)
    requires
        name == "key"@ || name == "delta"@,
    ensures
        video_chunk_type_name(video_chunk_type_of(name)) == name,
{
    reveal_strlit("key");
    reveal_strlit("delta");
}

/// Reading back the name of an audio chunk type gives that type.
pub proof fn lemma_audio_chunk_type_round_trip(t: EncodedAudioChunkType)
    ensures
        audio_chunk_type_of(audio_chunk_type_name(t)) == t,
{
    reveal_strlit("key");
    reveal_strlit("delta");
    assert("delta"@.len() != "key"@.len());
}

/// An audio chunk type read from `"key"` or `"delta"` is written back as the
/// same name.
pub proof fn lemma_audio_chunk_name_round_trip(name: Seq<char>)
    requires
        name == "key"@ || name == "delta"@,
    ensures
        audio_chunk_type_name(audio_chunk_type_of(name)) == name,
{
    reveal_strlit("key");
    reveal_strlit("delta");
}

/// Reading back the name of a sample format gives that format, and a name
/// that reads as a format is that format's name: the names and the formats
/// correspond one to one.
pub proof fn lemma_sample_format_round_trip(f: AudioSampleFormat, name: Seq<char>)
    ensures
        sample_format_of(sample_format_name(f)) == Some(f),
        sample_format_of(name) == Some(f) ==> sample_format_name(f) == name,
{
    reveal_strlit("u8");
    reveal_strlit("s16");
    reveal_strlit("s32");
    reveal_strlit("f32");
    reveal_strlit("u8-planar");
    reveal_strlit("s16-planar");
    reveal_strlit("s32-planar");
    reveal_strlit("f32-planar");
    let names = seq![
        "u8"@, "s16"@, "s32"@, "f32"@, "u8-planar"@, "s16-planar"@, "s32-planar"@, "f32-planar"@,
    ];
    assert forall|i: int, j: int| 0 <= i < j < 8 implies names[i] != names[j] by {
        if names[i].len() == names[j].len() {
            assert(names[i][0] != names[j][0] || names[i][1] != names[j][1]);
        }
    }
    assert(names[0] == "u8"@);
    assert(names[1] == "s16"@);
    assert(names[2] == "s32"@);
    assert(names[3] == "f32"@);
    assert(names[4] == "u8-planar"@);
    assert(names[5] == "s16-planar"@);
    assert(names[6] == "s32-planar"@);
    assert(names[7] == "f32-planar"@);
}

/// A binary frame that was read keeps all of its bytes, whatever their
/// number; only a frame that could not be read gives the default packet.
pub proof fn lemma_binary_frame_keeps_bytes(bin: Result<Vec<u8>, anyhow::Error>)
    ensures
        bin is Ok ==> <MediaPacketWrapper as vstd::std_specs::convert::FromSpec<
            Result<Vec<u8>, anyhow::Error>,
        >>::from_spec(bin) == MediaPacketWrapper(MediaPacketData::Encoded(bin->Ok_0)),
        bin is Err ==> <MediaPacketWrapper as vstd::std_specs::convert::FromSpec<
            Result<Vec<u8>, anyhow::Error>,
        >>::from_spec(bin) == MediaPacketWrapper(MediaPacketData::Default),
{
}

/// A text frame, read or not, gives the default packet.
pub proof fn lemma_text_frame_is_default(text: Result<String, anyhow::Error>)
    ensures
        <MediaPacketWrapper as vstd::std_specs::convert::FromSpec<
            Result<String, anyhow::Error>,
        >>::from_spec(text) == MediaPacketWrapper(MediaPacketData::Default),
{
}

/// A video chunk type read from a string is a key chunk exactly when the
/// string is `"key"`; the names written are `"key"` and `"delta"`.
pub proof fn lemma_video_chunk_type_names(s: String)
    ensures
        <EncodedVideoChunkTypeWrapper as vstd::std_specs::convert::FromSpec<String>>::from_spec(s).0
            == EncodedVideoChunkType::Key <==> s@ == "key"@,
        video_chunk_type_name(EncodedVideoChunkType::Key) == "key"@,
        video_chunk_type_name(EncodedVideoChunkType::Delta) == "delta"@,
{
}

/// An audio chunk type read from a string is a key chunk exactly when the
/// string is `"key"`; the names written are `"key"` and `"delta"`.
pub proof fn lemma_audio_chunk_type_names(s: String)
    ensures
        <EncodedAudioChunkTypeWrapper as vstd::std_specs::convert::FromSpec<String>>::from_spec(s).0
            == EncodedAudioChunkType::Key <==> s@ == "key"@,
        audio_chunk_type_name(EncodedAudioChunkType::Key) == "key"@,
        audio_chunk_type_name(EncodedAudioChunkType::Delta) == "delta"@,
{
}

/// The names of the sample formats, and that a string names a format
/// exactly when it is one of these eight names.
pub proof fn lemma_sample_format_names(name: Seq<char>)
    ensures
        sample_format_name(AudioSampleFormat::U8) == "u8"@,
        sample_format_name(AudioSampleFormat::S16) == "s16"@,
        sample_format_name(AudioSampleFormat::S32) == "s32"@,
        sample_format_name(AudioSampleFormat::F32) == "f32"@,
        sample_format_name(AudioSampleFormat::U8Planar) == "u8-planar"@,
        sample_format_name(AudioSampleFormat::S16Planar) == "s16-planar"@,
        sample_format_name(AudioSampleFormat::S32Planar) == "s32-planar"@,
        sample_format_name(AudioSampleFormat::F32Planar) == "f32-planar"@,
        sample_format_of(name) is Some <==> (name == "u8"@ || name == "s16"@ || name == "s32"@
            || name == "f32"@ || name == "u8-planar"@ || name == "s16-planar"@ || name
            == "s32-planar"@ || name == "f32-planar"@),
        sample_format_of(name) matches Some(f) ==> sample_format_name(f) == name,
{
    if sample_format_of(name) is Some {
        lemma_sample_format_round_trip(sample_format_of(name).unwrap(), name);
    }
}

} // verus!
