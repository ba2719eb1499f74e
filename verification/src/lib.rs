use vstd::prelude::*;

pub mod traits;
pub mod types;
pub mod builder;
pub mod sighash;
pub mod text;
pub mod meta;
pub mod derive_input;
pub mod accounts_derive;
pub mod instructions_derive;
pub mod deserialize;
pub mod fetch;
