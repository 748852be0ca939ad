[package]
name = "yew-ui"
version = "0.1.0"
edition = "2021"
publish = false

[dependencies]
anyhow = "1"
yew = "0.21"
yew-websocket = "*"
protobuf = "3"
wasm-bindgen = "0.2"
wasm-bindgen-futures = "0.4"
js-sys = "0.3"
gloo-console = "0.3"
gloo-utils = "0.2"
web-sys = { version = "0.3", features = ["AudioData", "AudioEncoder", "AudioEncoderConfig", "AudioEncoderInit", "AudioSampleFormat", "AudioTrack", "Document", "Element", "EncodedAudioChunk", "EncodedAudioChunkType", "EncodedVideoChunk", "EncodedVideoChunkType", "HtmlVideoElement", "LatencyMode", "MediaDevices", "MediaStream", "MediaStreamConstraints", "MediaStreamTrack", "MediaStreamTrackProcessor", "MediaStreamTrackProcessorInit", "MediaTrackSettings", "Navigator", "ReadableStream", "ReadableStreamDefaultReader", "VideoEncoder", "VideoEncoderConfig", "VideoEncoderEncodeOptions", "VideoEncoderInit", "VideoFrame", "VideoTrack", "Window"] }
