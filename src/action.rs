use vstd::prelude::*;

verus! {

/// What the operator asked for, independent of the key that asked.
#[derive(Debug, Clone, Copy, PartialEq, Eq, Structural)]
pub enum Action {
    Quit,
    Tick,
    Render,
    NavigateUp,
    NavigateDown,
    Select,
    Back,
    ToggleSupergraph,
}

} // verus!
