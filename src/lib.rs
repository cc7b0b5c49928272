use vstd::prelude::*;

pub mod commands;
pub mod error;
pub mod laws;
pub mod models;
pub mod plugin;
pub mod state;

pub use error::Error;
pub use models::{PingRequest, PingResponse};
pub use plugin::Datapass;

verus! {

/// Access to the plugin's handle from whatever holds it.
pub trait DatapassExt {
    fn datapass(&self) -> &Datapass;
}

impl DatapassExt for Datapass {
    fn datapass(&self) -> &Datapass {
        self
    }
}

} // verus!
