//! Declarative control-flow components for the `leptos` web framework.
//!
//! Two constructs are provided:
//!
//! - [`If`](if_::If), a chain of `Then` / `ElseIf` / `Else` blocks of which
//!   at most one is shown at a time;
//! - [`PortalInput`](portal::PortalInput) and
//!   [`PortalOutput`](portal::PortalOutput), which show content somewhere else
//!   in the view tree than where it was declared.
//!
//! The rules that decide what is shown are stated in [`chain`] and proved
//! there and in the components; the calls into `leptos` are gathered in
//! [`host`].
//!
//! The functions here decide; what only the running framework can do is left
//! to their caller. [`If`](if_::If) takes the blocks of its chain, and the
//! portal sites take what the search for a provider found, together with a
//! fresh cell: so each says exactly when it fails and what becomes of what it
//! was given.

pub mod chain;
pub mod host;
pub mod if_;
pub mod portal;
pub mod prelude;
