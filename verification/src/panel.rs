//! The debug panel: one small window with a checkbox for each toggle.
//!
//! The panel is described as data. The host draws what the description
//! says and hands back the state of the checkboxes.

use vstd::prelude::*;
use imgui::Condition;
use crate::settings::{MySettings, Toggle};

verus! {

/// A checkbox of the panel and the state it shows.
#[derive(Clone, Copy, Debug, PartialEq, Eq, Structural)]
pub struct Checkbox {
    pub toggle: Toggle,
    pub checked: bool,
}

/// The panel as it is declared in one frame.
#[derive(Debug, PartialEq, Eq)]
pub struct DebugPanel {
    /// Whether the window is collapsed, and when that is applied.
    pub collapsed: bool,
    pub collapsed_when: Condition,
    /// The window's position, in pixels from the top left corner, and when
    /// it is applied.
    pub position_x: i32,
    pub position_y: i32,
    pub position_when: Condition,
    pub always_auto_resize: bool,
    /// Whether the checkboxes only display their state.
    pub disabled: bool,
    pub checkboxes: Vec<Checkbox>,
}

/// The mathematical value of a [`DebugPanel`].
pub struct DebugPanelView {
    pub collapsed: bool,
    pub collapsed_when: Condition,
    pub position_x: int,
    pub position_y: int,
    pub position_when: Condition,
    pub always_auto_resize: bool,
    pub disabled: bool,
    pub checkboxes: Seq<Checkbox>,
}

impl View for DebugPanel {
    type V = DebugPanelView;

    open spec fn view(&self) -> DebugPanelView {
        DebugPanelView {
            collapsed: self.collapsed,
            collapsed_when: self.collapsed_when,
            position_x: self.position_x as int,
            position_y: self.position_y as int,
            position_when: self.position_when,
            always_auto_resize: self.always_auto_resize,
            disabled: self.disabled,
            checkboxes: self.checkboxes@,
        }
    }
}

/// The checkboxes for the given settings: one for each toggle, in the order
/// subpasses, transient, small G-buffer, each showing its toggle's value.
pub open spec fn checkboxes_of(settings: MySettings) -> Seq<Checkbox> {
    seq![
        Checkbox { toggle: Toggle::UseSubpasses, checked: settings.use_subpasses },
        Checkbox { toggle: Toggle::UseTransient, checked: settings.use_transient },
        Checkbox { toggle: Toggle::UseSmallGBuffer, checked: settings.use_small_gbuffer },
    ]
}

/// The panel for the given settings: an auto-sized window that is open and
/// placed at (10, 10) unless it has saved state, with its checkboxes
/// disabled.
pub open spec fn debug_panel_of(settings: MySettings) -> DebugPanelView {
    DebugPanelView {
        collapsed: false,
        collapsed_when: Condition::FirstUseEver,
        position_x: 10,
        position_y: 10,
        position_when: Condition::FirstUseEver,
        always_auto_resize: true,
        disabled: true,
        checkboxes: checkboxes_of(settings),
    }
}

/// The settings after the states of the first `count` checkboxes were
/// written to their toggles, one after the other.
pub open spec fn applied(settings: MySettings, boxes: Seq<Checkbox>, count: nat) -> MySettings
    decreases count,
{
    if count == 0 || count > boxes.len() {
        settings
    } else {
        let last = boxes[count - 1];
        applied(settings, boxes, (count - 1) as nat).with(last.toggle, last.checked)
    }
}

/// The title of the panel's window.
pub fn panel_title() -> (title: &'static str)
    ensures
        title@ == "Derfered Renderer"@,
{
    "Derfered Renderer"
}

/// The line of text above the checkboxes.
pub fn panel_heading() -> (heading: &'static str)
    ensures
        heading@ == "Renderer Configure:"@,
{
    "Renderer Configure:"
}

/// Describes the panel for the given settings.
pub fn debug_panel(settings: &MySettings) -> (panel: DebugPanel)
    ensures
        panel@ == debug_panel_of(*settings),
{
    let mut checkboxes: Vec<Checkbox> = Vec::new();
    checkboxes.push(Checkbox { toggle: Toggle::UseSubpasses, checked: settings.use_subpasses });
    checkboxes.push(Checkbox { toggle: Toggle::UseTransient, checked: settings.use_transient });
    checkboxes.push(
        Checkbox { toggle: Toggle::UseSmallGBuffer, checked: settings.use_small_gbuffer },
    );
    assert(checkboxes@ =~= checkboxes_of(*settings));
    DebugPanel {
        collapsed: false,
        collapsed_when: Condition::FirstUseEver,
        position_x: 10,
        position_y: 10,
        position_when: Condition::FirstUseEver,
        always_auto_resize: true,
        disabled: true,
        checkboxes,
    }
}

/// Writes the state of each checkbox to its toggle, in order. Where a
/// toggle has two checkboxes the later one wins; a toggle without a
/// checkbox keeps its value.
pub fn apply_checkboxes(settings: &mut MySettings, boxes: &Vec<Checkbox>)
    ensures
        *final(settings) == applied(*old(settings), boxes@, boxes@.len()),
{
    let ghost before = *settings;
    let mut i: usize = 0;
    while i < boxes.len()
        invariant
            i <= boxes@.len(),
            *settings == applied(before, boxes@, i as nat),
        decreases boxes@.len() - i,
    {
        let checkbox = boxes[i];
        settings.set(checkbox.toggle, checkbox.checked);
        i = i + 1;
    }
}

/// Drawing the panel of some settings and writing its checkboxes back
/// changes nothing: the panel shows the settings as they are.
pub proof fn lemma_panel_round_trip(settings: MySettings)
    ensures
        applied(settings, checkboxes_of(settings), checkboxes_of(settings).len()) == settings,
        debug_panel_of(settings).checkboxes.len() == 3,
{
    let boxes = checkboxes_of(settings);
    assert(applied(settings, boxes, 0) == settings);
    assert(applied(settings, boxes, 1) == settings);
    assert(applied(settings, boxes, 2) == settings);
    assert(applied(settings, boxes, 3) == settings);
}

/// After the checkboxes of a panel were written back, each toggle reads as
/// its checkbox showed, whatever the settings were before.
pub proof fn lemma_panel_overwrites(before: MySettings, shown: MySettings, toggle: Toggle)
    ensures
        applied(before, checkboxes_of(shown), 3).value_of(toggle) == shown.value_of(toggle),
{
    let boxes = checkboxes_of(shown);
    assert(applied(before, boxes, 0) == before);
    assert(applied(before, boxes, 1) == before.with(Toggle::UseSubpasses, shown.use_subpasses));
    assert(applied(before, boxes, 2) == applied(before, boxes, 1).with(
        Toggle::UseTransient,
        shown.use_transient,
    ));
    assert(applied(before, boxes, 3) == applied(before, boxes, 2).with(
        Toggle::UseSmallGBuffer,
        shown.use_small_gbuffer,
    ));
}

} // verus!
