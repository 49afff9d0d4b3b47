//! The descriptor of one discovered numeric control and its
//! mathematical view.

use vstd::prelude::*;

verus! {

/// The mathematical view of one collected numeric control.
pub struct ControlView {
    /// Display name, used verbatim as the host-visible identifier and,
    /// lower-cased, as the generated field name.
    pub label: Seq<char>,
    /// Position assigned by the upstream compiler; informational only.
    pub param_index: int,
    /// Default value, in tenths.
    pub initial_tenths: int,
    /// Lower range bound, in tenths.
    pub min_tenths: int,
    /// Upper range bound, in tenths.
    pub max_tenths: int,
    /// Step size, in tenths; accepted but not rendered.
    pub step_tenths: int,
}

/// One discovered numeric control: its label, its position as assigned
/// by the upstream compiler, and its range metadata in tenths.
pub struct ControlDescriptor {
    /// Display name, unique within the tree after lower-casing.
    pub label: String,
    /// Position assigned by the upstream compiler; informational only.
    pub param_index: u32,
    /// Default value, in tenths.
    pub initial_tenths: i64,
    /// Lower range bound, in tenths.
    pub min_tenths: i64,
    /// Upper range bound, in tenths.
    pub max_tenths: i64,
    /// Step size, in tenths; accepted but not rendered.
    pub step_tenths: i64,
}

impl View for ControlDescriptor {
    type V = ControlView;

    open spec fn view(&self) -> ControlView {
        ControlView {
            label: self.label@,
            param_index: self.param_index as int,
            initial_tenths: self.initial_tenths as int,
            min_tenths: self.min_tenths as int,
            max_tenths: self.max_tenths as int,
            step_tenths: self.step_tenths as int,
        }
    }
}

/// The views of a sequence of control descriptors, in the same order.
pub open spec fn views_of(ctrls: Seq<ControlDescriptor>) -> Seq<ControlView> {
    ctrls.map_values(|c: ControlDescriptor| c@)
}

} // verus!
