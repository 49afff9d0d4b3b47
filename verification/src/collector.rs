//! The stateful visitor that an external tree walk drives over the
//! control-surface tree. Only the three numeric-control capabilities
//! mutate it; every other capability is a deliberate no-op.

use vstd::prelude::*;
use crate::controls::{ControlDescriptor, ControlView, views_of};

verus! {

/// The view of one numeric-control capability call.
pub open spec fn numeric_control_view(
    label: Seq<char>,
    param_index: int,
    initial_tenths: int,
    min_tenths: int,
    max_tenths: int,
    step_tenths: int,
) -> ControlView {
    ControlView { label, param_index, initial_tenths, min_tenths, max_tenths, step_tenths }
}

/// One capability call of the external tree walk, in the order the walk
/// makes them.
pub enum UiEvent {
    /// Opens a tab container.
    OpenTabBox { label: String },
    /// Opens a horizontal grouping container.
    OpenHorizontalBox { label: String },
    /// Opens a vertical grouping container.
    OpenVerticalBox { label: String },
    /// Closes the innermost open container.
    CloseBox,
    /// A momentary button: boolean, not collected.
    AddButton { label: String, param_index: u32 },
    /// A check button: boolean, not collected.
    AddCheckButton { label: String, param_index: u32 },
    /// A vertical slider: numeric, collected.
    AddVerticalSlider {
        label: String,
        param_index: u32,
        initial_tenths: i64,
        min_tenths: i64,
        max_tenths: i64,
        step_tenths: i64,
    },
    /// A horizontal slider: numeric, collected.
    AddHorizontalSlider {
        label: String,
        param_index: u32,
        initial_tenths: i64,
        min_tenths: i64,
        max_tenths: i64,
        step_tenths: i64,
    },
    /// A numeric entry: numeric, collected.
    AddNumEntry {
        label: String,
        param_index: u32,
        initial_tenths: i64,
        min_tenths: i64,
        max_tenths: i64,
        step_tenths: i64,
    },
    /// A horizontal bargraph: read-only output, not collected.
    AddHorizontalBargraph { label: String, param_index: u32, min_tenths: i64, max_tenths: i64 },
    /// A vertical bargraph: read-only output, not collected.
    AddVerticalBargraph { label: String, param_index: u32, min_tenths: i64, max_tenths: i64 },
    /// A key/value annotation: accepted, not interpreted.
    Declare { key: String, value: String },
}

/// The control a capability call contributes: `Some` for the three
/// numeric-control capabilities, `None` for every other call.
pub open spec fn event_control(e: UiEvent) -> Option<ControlView> {
    match e {
        UiEvent::AddVerticalSlider {
            label,
            param_index,
            initial_tenths,
            min_tenths,
            max_tenths,
            step_tenths,
        } => Some(
            numeric_control_view(
                label@,
                param_index as int,
                initial_tenths as int,
                min_tenths as int,
                max_tenths as int,
                step_tenths as int,
            ),
        ),
        UiEvent::AddHorizontalSlider {
            label,
            param_index,
            initial_tenths,
            min_tenths,
            max_tenths,
            step_tenths,
        } => Some(
            numeric_control_view(
                label@,
                param_index as int,
                initial_tenths as int,
                min_tenths as int,
                max_tenths as int,
                step_tenths as int,
            ),
        ),
        UiEvent::AddNumEntry {
            label,
            param_index,
            initial_tenths,
            min_tenths,
            max_tenths,
            step_tenths,
        } => Some(
            numeric_control_view(
                label@,
                param_index as int,
                initial_tenths as int,
                min_tenths as int,
                max_tenths as int,
                step_tenths as int,
            ),
        ),
        _ => None,
    }
}

/// The controls a whole traversal leaves behind: the contribution of
/// each capability call, in call order.
pub open spec fn collected_controls(events: Seq<UiEvent>) -> Seq<ControlView> {
    events.filter_map(|e: UiEvent| event_control(e))
}

/// What one capability call does to an already collected list.
pub open spec fn step_collected(s: Seq<ControlView>, e: UiEvent) -> Seq<ControlView> {
    match event_control(e) {
        Some(c) => s.push(c),
        None => s,
    }
}

/// The numeric-control calls of a traversal, in call order.
pub open spec fn numeric_events(events: Seq<UiEvent>) -> Seq<UiEvent> {
    events.filter(|e: UiEvent| event_control(e) is Some)
}

/// The visitor. Its view is the ordered sequence of collected numeric
/// controls.
pub struct UiCollector {
    /// The collected numeric controls, in traversal order.
    pub controls: Vec<ControlDescriptor>,
}

impl View for UiCollector {
    type V = Seq<ControlView>;

    open spec fn view(&self) -> Seq<ControlView> {
        views_of(self.controls@)
    }
}

impl UiCollector {
    /// A collector that has seen no capability call yet.
    pub fn new() -> (c: UiCollector)
        ensures
            c@ == Seq::<ControlView>::empty(),
    {
        let c = UiCollector { controls: Vec::new() };
        proof {
            assert(c@ =~= Seq::<ControlView>::empty());
        }
        c
    }

    /// Appends one numeric control; the shared body of the three
    /// numeric capabilities.
    fn add_numeric(
        &mut self,
        label: &str,
        param_index: u32,
        initial_tenths: i64,
        min_tenths: i64,
        max_tenths: i64,
        step_tenths: i64,
    )
        ensures
            final(self)@ == old(self)@.push(
                numeric_control_view(
                    label@,
                    param_index as int,
                    initial_tenths as int,
                    min_tenths as int,
                    max_tenths as int,
                    step_tenths as int,
                ),
            ),
    {
        let d = ControlDescriptor {
            label: label.to_owned(),
            param_index,
            initial_tenths,
            min_tenths,
            max_tenths,
            step_tenths,
        };
        self.controls.push(d);
        proof {
            assert(views_of(self.controls@) =~= old(self)@.push(
                numeric_control_view(
                    label@,
                    param_index as int,
                    initial_tenths as int,
                    min_tenths as int,
                    max_tenths as int,
                    step_tenths as int,
                ),
            ));
        }
    }

    /// Opens a tab container: containers carry no parameter semantics.
    pub fn open_tab_box(&mut self, _label: &str)
        ensures
            final(self)@ == old(self)@,
    {
    }

    /// Opens a horizontal grouping container: no parameter semantics.
    pub fn open_horizontal_box(&mut self, _label: &str)
        ensures
            final(self)@ == old(self)@,
    {
    }

    /// Opens a vertical grouping container: no parameter semantics.
    pub fn open_vertical_box(&mut self, _label: &str)
        ensures
            final(self)@ == old(self)@,
    {
    }

    /// Closes the innermost open container: no parameter semantics.
    pub fn close_box(&mut self)
        ensures
            final(self)@ == old(self)@,
    {
    }

    /// A button is boolean and non-ranged: never collected.
    pub fn add_button(&mut self, _label: &str, _param_index: u32)
        ensures
            final(self)@ == old(self)@,
    {
    }

    /// A check button is boolean and non-ranged: never collected.
    pub fn add_check_button(&mut self, _label: &str, _param_index: u32)
        ensures
            final(self)@ == old(self)@,
    {
    }

    /// Collects a vertical slider.
    pub fn add_vertical_slider(
        &mut self,
        label: &str,
        param_index: u32,
        initial_tenths: i64,
        min_tenths: i64,
        max_tenths: i64,
        step_tenths: i64,
    )
        ensures
            final(self)@ == old(self)@.push(
                numeric_control_view(
                    label@,
                    param_index as int,
                    initial_tenths as int,
                    min_tenths as int,
                    max_tenths as int,
                    step_tenths as int,
                ),
            ),
    {
        self.add_numeric(label, param_index, initial_tenths, min_tenths, max_tenths, step_tenths);
    }

    /// Collects a horizontal slider.
    pub fn add_horizontal_slider(
        &mut self,
        label: &str,
        param_index: u32,
        initial_tenths: i64,
        min_tenths: i64,
        max_tenths: i64,
        step_tenths: i64,
    )
        ensures
            final(self)@ == old(self)@.push(
                numeric_control_view(
                    label@,
                    param_index as int,
                    initial_tenths as int,
                    min_tenths as int,
                    max_tenths as int,
                    step_tenths as int,
                ),
            ),
    {
        self.add_numeric(label, param_index, initial_tenths, min_tenths, max_tenths, step_tenths);
    }

    /// Collects a numeric entry.
    pub fn add_num_entry(
        &mut self,
        label: &str,
        param_index: u32,
        initial_tenths: i64,
        min_tenths: i64,
        max_tenths: i64,
        step_tenths: i64,
    )
        ensures
            final(self)@ == old(self)@.push(
                numeric_control_view(
                    label@,
                    param_index as int,
                    initial_tenths as int,
                    min_tenths as int,
                    max_tenths as int,
                    step_tenths as int,
                ),
            ),
    {
        self.add_numeric(label, param_index, initial_tenths, min_tenths, max_tenths, step_tenths);
    }

    /// A horizontal bargraph is a read-only output: never collected.
    pub fn add_horizontal_bargraph(
        &mut self,
        _label: &str,
        _param_index: u32,
        _min_tenths: i64,
        _max_tenths: i64,
    )
        ensures
            final(self)@ == old(self)@,
    {
    }

    /// A vertical bargraph is a read-only output: never collected.
    pub fn add_vertical_bargraph(
        &mut self,
        _label: &str,
        _param_index: u32,
        _min_tenths: i64,
        _max_tenths: i64,
    )
        ensures
            final(self)@ == old(self)@,
    {
    }

    /// Accepts a key/value annotation without interpreting it.
    pub fn declare(&mut self, _key: &str, _value: &str)
        ensures
            final(self)@ == old(self)@,
    {
    }

    /// Replays one capability call.
    pub fn apply_event(&mut self, e: &UiEvent)
        ensures
            final(self)@ == step_collected(old(self)@, *e),
    {
        match e {
            UiEvent::OpenTabBox { label } => self.open_tab_box(label.as_str()),
            UiEvent::OpenHorizontalBox { label } => self.open_horizontal_box(label.as_str()),
            UiEvent::OpenVerticalBox { label } => self.open_vertical_box(label.as_str()),
            UiEvent::CloseBox => self.close_box(),
            UiEvent::AddButton { label, param_index } => self.add_button(
                label.as_str(),
                *param_index,
            ),
            UiEvent::AddCheckButton { label, param_index } => self.add_check_button(
                label.as_str(),
                *param_index,
            ),
            UiEvent::AddVerticalSlider {
                label,
                param_index,
                initial_tenths,
                min_tenths,
                max_tenths,
                step_tenths,
            } => self.add_vertical_slider(
                label.as_str(),
                *param_index,
                *initial_tenths,
                *min_tenths,
                *max_tenths,
                *step_tenths,
            ),
            UiEvent::AddHorizontalSlider {
                label,
                param_index,
                initial_tenths,
                min_tenths,
                max_tenths,
                step_tenths,
            } => self.add_horizontal_slider(
                label.as_str(),
                *param_index,
                *initial_tenths,
                *min_tenths,
                *max_tenths,
                *step_tenths,
            ),
            UiEvent::AddNumEntry {
                label,
                param_index,
                initial_tenths,
                min_tenths,
                max_tenths,
                step_tenths,
            } => self.add_num_entry(
                label.as_str(),
                *param_index,
                *initial_tenths,
                *min_tenths,
                *max_tenths,
                *step_tenths,
            ),
            UiEvent::AddHorizontalBargraph { label, param_index, min_tenths, max_tenths } => self
                .add_horizontal_bargraph(label.as_str(), *param_index, *min_tenths, *max_tenths),
            UiEvent::AddVerticalBargraph { label, param_index, min_tenths, max_tenths } => self
                .add_vertical_bargraph(label.as_str(), *param_index, *min_tenths, *max_tenths),
            UiEvent::Declare { key, value } => self.declare(key.as_str(), value.as_str()),
        }
    }

    /// Replays a whole traversal, one capability call after the other.
    pub fn run_traversal(&mut self, events: &Vec<UiEvent>)
        ensures
            final(self)@ == old(self)@ + collected_controls(events@),
    {
        let n = events.len();
        let mut i: usize = 0;
        proof {
            assert(events@.subrange(0, 0) =~= Seq::<UiEvent>::empty());
            assert(collected_controls(events@.subrange(0, 0)) =~= Seq::<ControlView>::empty());
            assert(self@ =~= self@ + collected_controls(events@.subrange(0, 0)));
        }
        while i < n
            invariant
                i <= n,
                n == events@.len(),
                self@ == old(self)@ + collected_controls(events@.subrange(0, i as int)),
            decreases n - i,
        {
            self.apply_event(&events[i]);
            i = i + 1;
            proof {
                let pre = events@.subrange(0, i - 1);
                let now = events@.subrange(0, i as int);
                assert(now =~= pre.push(events@[i - 1]));
                lemma_collected_snoc(pre, events@[i - 1]);
                assert(self@ =~= old(self)@ + collected_controls(now));
            }
        }
        proof {
            assert(events@.subrange(0, n as int) =~= events@);
        }
    }
}

/// Extending a traversal by one capability call extends the collected
/// list by exactly that call's contribution.
pub proof fn lemma_collected_snoc(events: Seq<UiEvent>, e: UiEvent)
    ensures
        collected_controls(events.push(e)) == step_collected(collected_controls(events), e),
{
    let q = events.push(e);
    assert(q.drop_last() =~= events);
    assert(q.last() == e);
    match event_control(e) {
        Some(c) => {
            assert(collected_controls(q) =~= collected_controls(events).push(c));
        },
        None => {
            assert(collected_controls(q) =~= collected_controls(events));
        },
    }
}

/// Filtering correctness and order preservation of the traversal: the
/// collected list is exactly the numeric-control calls of the
/// traversal, each mapped to its control, in first-encountered order.
pub proof fn lemma_collected_is_filtered(events: Seq<UiEvent>)
    ensures
        collected_controls(events) =~= numeric_events(events).map_values(
            |e: UiEvent| event_control(e)->Some_0,
        ),
    decreases events.len(),
{
    if events.len() == 0 {
        assert(collected_controls(events) =~= Seq::<ControlView>::empty());
        assert(numeric_events(events) =~= Seq::<UiEvent>::empty()) by {
            reveal(Seq::filter);
        }
        assert(numeric_events(events).map_values(|e: UiEvent| event_control(e)->Some_0) =~= Seq::<
            ControlView,
        >::empty());
    } else {
        let rest = events.drop_last();
        let x = events.last();
        lemma_collected_is_filtered(rest);
        assert(events =~= rest.push(x));
        lemma_collected_snoc(rest, x);
        match event_control(x) {
            Some(c) => {
                assert(numeric_events(events) =~= numeric_events(rest).push(x)) by {
                    reveal(Seq::filter);
                }
                assert(numeric_events(rest).push(x).map_values(
                    |e: UiEvent| event_control(e)->Some_0,
                ) =~= numeric_events(rest).map_values(|e: UiEvent| event_control(e)->Some_0).push(
                    c,
                ));
            },
            None => {
                assert(numeric_events(events) =~= numeric_events(rest)) by {
                    reveal(Seq::filter);
                }
            },
        }
    }
}

} // verus!
