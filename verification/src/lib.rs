//! Streaming of PCM audio from a WAV source into a shared output device.
//!
//! The crate holds the parts of a player that can be reasoned about without
//! a device at hand:
//!
//! * [`wave_format`]: the header fields of a WAV file and the device format
//!   derived from them.
//! * [`wav_file`]: the PCM source. It holds the contents of a WAV file and
//!   serves its frames in device-sized buffers, padding with silence when
//!   the stream runs dry and either stopping there or starting over.
//!   [`pcm_source`] is its mathematical model, with the laws of a fill.
//! * [`wav_player`]: the render loop. It never touches a device: it takes
//!   what the device answered and says what the device is asked next.
//!   [`playback`] holds the numbers of a session and the transition system
//!   that the loop follows, with its laws.
//!
//! Every function is verified against the contract in its signature.
pub mod pcm_source;
pub mod playback;
pub mod wav_file;
pub mod wav_player;
pub mod wave_format;
