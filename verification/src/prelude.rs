//! Convenient import of all components.

pub use crate::chain::{BlockKind, Branch, IfError};
pub use crate::if_::{Else, ElseIf, If, IfBlock, Then};
pub use crate::portal::{PortalError, PortalInput, PortalOutput, PortalProvider};
