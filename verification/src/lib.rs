//! The engine of a video player: decoding, hardware negotiation, composition
//! and playback.
//!
//! FFmpeg, the GPU and the window are driven from outside. The library decides
//! what they are asked for and what is made of their answers, on plain values:
//!
//! * [`open`] opens a video in stages, with the hardware negotiation of
//!   [`hwaccel`].
//! * [`decoder`] decodes one frame per call, as a state machine that asks for
//!   work and takes replies. [`decode_laws`] says what holds of whole calls.
//! * [`upload`] repacks the rows of a frame for a texture.
//! * [`hw_textures`] plans the textures of a hardware frame.
//! * [`compositor`] plans the pass that turns such a frame into RGB.
//! * [`runtime`] decides what a redraw of the player does.

pub mod compositor;
pub mod decode_laws;
pub mod decoder;
pub mod error;
pub mod hw_textures;
pub mod hwaccel;
pub mod media;
pub mod open;
pub mod runtime;
pub mod text;
pub mod texture;
pub mod upload;
