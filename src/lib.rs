//! Conversion of LaTeX math to SVG through a script engine that runs a bundled
//! typesetting module.
//!
//! The engine itself is driven by the host program; this library holds the
//! rules of the bridge: what the host must ask of the engine, in which order,
//! and what each answer of the engine means for the caller.
pub mod bridge;
pub mod error;
pub mod init;

pub use bridge::{
    convert_to_svg, convert_to_svg_inline, Conversion, Phase, Reply, Request, Step,
};
pub use error::{Error, ErrorView};
pub use init::EngineInit;
