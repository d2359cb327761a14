//! Rendering to the protocol's line-oriented config syntax.

use vstd::prelude::*;

verus! {

/// Deterministic rendering into the config-file syntax. The spec function
/// pins the exact text, so rendering the same value twice yields identical
/// output.
pub trait ExportConfig {
    /// What rendering needs of the value; `true` for most implementors.
    spec fn config_wf(&self) -> bool;

    /// The exact text that `config` returns.
    spec fn config_spec(&self) -> Seq<char>;

    /// Renders the value to the config syntax.
    fn config(&self) -> (r: String)
        requires
            self.config_wf(),
        ensures
            r@ == self.config_spec(),
    ;
}

} // verus!
