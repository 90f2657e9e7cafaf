//! Core of a push-to-talk transcription pipeline.
//!
//! Holding a designated key records audio from the default input device;
//! releasing it finalizes the recording into a WAV artifact, hands the
//! artifact to a remote speech-to-text service, and types the recognized
//! text as synthetic keystrokes.  This crate holds the verified logic of
//! that pipeline: the recorder and controller state machines, artifact
//! naming and WAV finalization, the transcription request and response
//! handling, keystroke pacing plans, and the configuration editor.  The
//! unverified shell around it performs the actual device, network, and
//! operating-system calls.

pub mod audio;
pub mod config;
pub mod config_gui;
pub mod controller;
pub mod decimal;
pub mod hotkey;
pub mod output;
pub mod text;
pub mod transcribe;
