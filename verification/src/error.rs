//! Errors surfaced by the graph and the frame scheduler.

use vstd::prelude::*;

verus! {

/// What went wrong. Authoring mistakes (recording with an unbound input,
/// wiring links whose ids disagree) and backend conditions (a swapchain
/// that must be rebuilt) are all reported to the caller; nothing is
/// swallowed.
#[derive(Clone, Copy, PartialEq, Eq, Structural, Debug)]
pub enum Error {
    /// The swapchain cannot provide an image until it is recreated
    /// (window resize, lost surface). Fatal for the current frame.
    SwapchainNeedsRefresh,
    /// A node was recorded while the input link at this index had no
    /// provider bound.
    UnboundInput { input_index: usize },
    /// A link operation named an id that no link of the addressed list
    /// declares.
    UnknownLinkId { link_id: u64 },
    /// A link operation named a name that no link of the addressed list
    /// declares.
    UnknownLinkName,
}

} // verus!
