//! Core logic of the HanhCute file-transcription pipeline: timestamp
//! formatting and grouping, the chunk-buffering state machines of the media
//! decoder and the file-transcription driver, the model-manager state, and
//! the accelerator and language decisions taken around the speech engines.
pub mod text;
pub mod timestamps;
pub mod engine;
pub mod decoding;
pub mod file_transcription;
pub mod manager;
pub mod accel;
pub mod vad_frames;
pub mod cli;
pub mod commands;
