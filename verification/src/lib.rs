//! Driver library for the Gowin FPGA toolchain.
//!
//! The library compiles a declarative project description into the two
//! ordered command protocols that the vendor tools consume: a sequence of
//! TCL statements for the interactive scripting shell (synthesis and
//! place-and-route), and a flat `--key=value` argument set for the
//! standalone device programmer.  Every function that builds or
//! transforms commands is verified: the serialized form of each command,
//! the order of the emitted sequence, and the merge rules for programmer
//! presets are stated in contracts and proved.
//!
//! Filesystem canonicalization and process launching are inherently
//! environmental; callers perform them and hand the results in as plain
//! values (see [`resolver::Resolver`] and [`pipeline::Pipeline::script`]),
//! so the compilation logic itself is deterministic and fully checked.

pub mod command;
pub mod commands;
pub mod eda;
pub mod options;
pub mod pipeline;
pub mod programmer;
pub mod project;
pub mod resolver;
pub mod text;

pub use command::TclCommand;
pub use eda::GowinEda;
pub use pipeline::{EvaluationError, Pipeline, PipelineError};
pub use programmer::{Op, Programmer, ProgrammerError};
pub use project::{
    Bitstream, BitstreamConfig, Device, Hdl, MaybeList, PlaceAndRouteConfig, ProgrammerConfig,
    ProgrammerPreset, Project,
};
pub use resolver::Resolver;
