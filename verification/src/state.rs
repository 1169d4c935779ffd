//! The slice of compositor state this layer reads: the mapped windows in
//! enumeration order and the known outputs. The host compositor fills it at
//! the boundary; nothing here owns a protocol object.

use crate::output_utils::OutputInfo;
use crate::window_utils::WindowEntry;
use vstd::prelude::*;

verus! {

/// Compositor state as seen by the snapshot builder and the publication
/// channel.
#[derive(Clone, PartialEq, Eq, Debug)]
pub struct WayiceState {
    /// The currently mapped windows, in the window table's enumeration
    /// (creation) order.
    pub windows: Vec<WindowEntry>,
    /// The known outputs.
    pub outputs: Vec<OutputInfo>,
}

} // verus!
