use vstd::prelude::*;

verus! {

/// Screens the application can show.
#[derive(Debug, Clone, Copy, PartialEq, Eq, Structural)]
pub enum View {
    TaskList,
    TaskDetail,
    Reports,
    Settings,
    Help,
}

} // verus!
