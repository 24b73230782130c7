use vstd::prelude::*;

verus! {

/// The ways in which assembling connection options can fail.
#[derive(Clone, Copy, Debug, PartialEq, Eq, Structural)]
pub enum ConfigError {
    /// A credential contains a zero byte, so it has no terminated encoding.
    InvalidConfig,
}

} // verus!
