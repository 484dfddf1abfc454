//! The renderer toggles that the debug panel shows.

use vstd::prelude::*;
use crate::config::{AppConfig, AppConfigView};

verus! {

/// The in-memory copies of the configuration's toggles.
#[derive(Clone, Copy, Debug, PartialEq, Eq, Structural)]
pub struct MySettings {
    pub use_subpasses: bool,
    pub use_transient: bool,
    pub use_small_gbuffer: bool,
}

/// One of the three toggles.
#[derive(Clone, Copy, Debug, PartialEq, Eq, Structural)]
pub enum Toggle {
    UseSubpasses,
    UseTransient,
    UseSmallGBuffer,
}

/// The settings that mirror a configuration.
pub open spec fn settings_of(config: AppConfigView) -> MySettings {
    MySettings {
        use_subpasses: config.use_subpasses,
        use_transient: config.use_transient,
        use_small_gbuffer: config.use_small_gbuffer,
    }
}

impl Toggle {
    /// The text of the label beside the toggle's checkbox.
    pub open spec fn label_text(self) -> Seq<char> {
        match self {
            Toggle::UseSubpasses => "Use Subpasses"@,
            Toggle::UseTransient => "Use Transient"@,
            Toggle::UseSmallGBuffer => "Use Small(128-bits) G-Buffer"@,
        }
    }

    /// The label beside the toggle's checkbox.
    pub fn label(&self) -> (text: &'static str)
        ensures
            text@ == self.label_text(),
    {
        match self {
            Toggle::UseSubpasses => "Use Subpasses",
            Toggle::UseTransient => "Use Transient",
            Toggle::UseSmallGBuffer => "Use Small(128-bits) G-Buffer",
        }
    }
}

impl MySettings {
    /// The value of a toggle.
    pub open spec fn value_of(self, toggle: Toggle) -> bool {
        match toggle {
            Toggle::UseSubpasses => self.use_subpasses,
            Toggle::UseTransient => self.use_transient,
            Toggle::UseSmallGBuffer => self.use_small_gbuffer,
        }
    }

    /// These settings with one toggle set to a value and the others as they
    /// were.
    pub open spec fn with(self, toggle: Toggle, value: bool) -> MySettings {
        match toggle {
            Toggle::UseSubpasses => MySettings { use_subpasses: value, ..self },
            Toggle::UseTransient => MySettings { use_transient: value, ..self },
            Toggle::UseSmallGBuffer => MySettings { use_small_gbuffer: value, ..self },
        }
    }

    /// Copies the toggles of a configuration.
    pub fn from_config(config: &AppConfig) -> (settings: MySettings)
        ensures
            settings == settings_of(config@),
    {
        MySettings {
            use_subpasses: config.use_subpasses,
            use_transient: config.use_transient,
            use_small_gbuffer: config.use_small_gbuffer,
        }
    }

    /// Reads a toggle.
    pub fn get(&self, toggle: Toggle) -> (value: bool)
        ensures
            value == self.value_of(toggle),
    {
        match toggle {
            Toggle::UseSubpasses => self.use_subpasses,
            Toggle::UseTransient => self.use_transient,
            Toggle::UseSmallGBuffer => self.use_small_gbuffer,
        }
    }

    /// Writes a toggle and leaves the other two alone.
    pub fn set(&mut self, toggle: Toggle, value: bool)
        ensures
            *final(self) == old(self).with(toggle, value),
    {
        match toggle {
            Toggle::UseSubpasses => {
                self.use_subpasses = value;
            },
            Toggle::UseTransient => {
                self.use_transient = value;
            },
            Toggle::UseSmallGBuffer => {
                self.use_small_gbuffer = value;
            },
        }
    }
}

/// A toggle that was written reads back as written, and the others read as
/// before.
pub proof fn lemma_set_then_get(settings: MySettings, toggle: Toggle, value: bool, other: Toggle)
    ensures
        settings.with(toggle, value).value_of(toggle) == value,
        other != toggle ==> settings.with(toggle, value).value_of(other) == settings.value_of(
            other,
        ),
{
}

} // verus!
