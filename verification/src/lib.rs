//! Renders a text template against a context assembled from environment
//! variables, `key=value` parameters and JSON / YAML parameter files.
//!
//! A run is a single pass:
//!
//! 1. [`options`] turns the command line into an [`options::Options`] record.
//! 2. [`context`] lays the sources over one another, lowest precedence first:
//!    the environment (as one mapping under `env`), the parameters, the JSON
//!    files, the YAML files. [`precedence`] states what that order means for
//!    each key of the finished context.
//! 3. [`render`] prepares what the template engine is given and turns what
//!    the engine hands back into the run's result or a [`error::RunError`].
//!    The engine itself is called by the program around the library.
//! 4. [`report`] decides what is written to which stream, and the exit
//!    status.
//!
//! The library reads no file and no environment itself: files come in as
//! [`source::Source`] values and the environment as a list of pairs.
//!
//! Command-line parsing and decoding are done by clap, serde_json and
//! serde_yaml, and the context is tera's. Each call into them stands behind
//! an item whose doc comment begins with `Trusted:`; what such an item
//! states is believed, not proved. Everything else is proved.

pub mod context;
pub mod error;
pub mod json;
pub mod options;
pub mod precedence;
pub mod render;
pub mod report;
pub mod source;
