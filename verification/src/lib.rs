//! A declarative automation engine: named actions are ordered lists of steps
//! (assignment, conditional, named composition) executed against a JSON-shaped
//! context, with expressions evaluated by a sandboxed, resource-bounded
//! scripting engine.

pub mod assets;
pub mod bridge;
pub mod context;
pub mod convert;
pub mod engine;
pub mod errors;
pub mod json;
pub mod manifest;
pub mod path;
pub mod sockets;

use vstd::prelude::*;

verus! {

/// The way into the engine: remembers where the application folder lives.
/// Reading and parsing the configuration in that folder, and assembling the
/// running services around this library, is the embedding program's work.
pub struct Builder {
    pub app_path: String,
}

impl Builder {
    /// A builder for the application rooted at `app_path`.
    pub fn new(app_path: String) -> (r: Self)
        ensures
            r.app_path == app_path,
    {
        Builder { app_path }
    }
}

} // verus!
