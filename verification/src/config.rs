//! The configuration record and its validation.
//!
//! A configuration names the window size, the scene to show and three
//! renderer toggles. It is usable only when both window dimensions are
//! positive and a scene file is named.

use vstd::prelude::*;

verus! {

/// The size of the window, in physical pixels.
#[derive(Clone, Copy, Debug, PartialEq, Eq, Structural)]
pub struct WindowConfig {
    pub width: i32,
    pub height: i32,
}

/// Everything the application reads at startup.
#[derive(Clone, Debug, PartialEq, Eq)]
pub struct AppConfig {
    pub window: WindowConfig,
    pub scene_file: String,
    pub use_subpasses: bool,
    pub use_transient: bool,
    pub use_small_gbuffer: bool,
}

/// The mathematical value of an [`AppConfig`].
pub struct AppConfigView {
    pub window: WindowConfig,
    pub scene_file: Seq<char>,
    pub use_subpasses: bool,
    pub use_transient: bool,
    pub use_small_gbuffer: bool,
}

/// Why a configuration was turned down.
#[derive(Clone, Copy, Debug, PartialEq, Eq, Structural)]
pub enum ConfigError {
    /// The window width is zero or negative.
    InvalidWindowWidth,
    /// The window height is zero or negative.
    InvalidWindowHeight,
    /// No scene file is named.
    MissingSceneFile,
}

impl View for AppConfig {
    type V = AppConfigView;

    open spec fn view(&self) -> AppConfigView {
        AppConfigView {
            window: self.window,
            scene_file: self.scene_file@,
            use_subpasses: self.use_subpasses,
            use_transient: self.use_transient,
            use_small_gbuffer: self.use_small_gbuffer,
        }
    }
}

impl AppConfigView {
    /// A configuration is valid when the window has a positive width and
    /// height and the scene file's path is not empty.
    pub open spec fn is_valid(self) -> bool {
        &&& self.window.width > 0
        &&& self.window.height > 0
        &&& self.scene_file.len() > 0
    }

    /// The complaint that validation reports: the width is looked at first,
    /// then the height, then the scene file.
    pub open spec fn first_error(self) -> Option<ConfigError> {
        if self.window.width <= 0 {
            Some(ConfigError::InvalidWindowWidth)
        } else if self.window.height <= 0 {
            Some(ConfigError::InvalidWindowHeight)
        } else if self.scene_file.len() == 0 {
            Some(ConfigError::MissingSceneFile)
        } else {
            None
        }
    }

    /// What validation answers for this configuration.
    pub open spec fn validation(self) -> Result<(), ConfigError> {
        match self.first_error() {
            Some(e) => Err(e),
            None => Ok(()),
        }
    }
}

impl ConfigError {
    /// The text of the message that describes this error.
    pub open spec fn message_text(self) -> Seq<char> {
        match self {
            ConfigError::InvalidWindowWidth => "The window width must be greater than zero."@,
            ConfigError::InvalidWindowHeight => "The window height must be greater than zero."@,
            ConfigError::MissingSceneFile => "The scene file path is missing."@,
        }
    }

    /// A description of the error for the user.
    pub fn message(&self) -> (text: &'static str)
        ensures
            text@ == self.message_text(),
    {
        match self {
            ConfigError::InvalidWindowWidth => "The window width must be greater than zero.",
            ConfigError::InvalidWindowHeight => "The window height must be greater than zero.",
            ConfigError::MissingSceneFile => "The scene file path is missing.",
        }
    }
}

/// Checks a configuration. It passes exactly when it is valid; otherwise the
/// first failing rule is reported.
pub fn validate_app_config(config: &AppConfig) -> (result: Result<(), ConfigError>)
    ensures
        result == config@.validation(),
        result is Ok <==> config@.is_valid(),
{
    if config.window.width <= 0 {
        Err(ConfigError::InvalidWindowWidth)
    } else if config.window.height <= 0 {
        Err(ConfigError::InvalidWindowHeight)
    } else if config.scene_file.as_str().is_empty() {
        Err(ConfigError::MissingSceneFile)
    } else {
        Ok(())
    }
}

/// A configuration with a zero or negative window dimension, or without a
/// scene file, never passes validation; every other configuration does.
pub proof fn lemma_invalid_config_is_rejected(config: AppConfigView)
    ensures
        config.window.width <= 0 ==> config.validation() == Err::<(), ConfigError>(
            ConfigError::InvalidWindowWidth,
        ),
        config.window.height <= 0 ==> config.validation() is Err,
        config.scene_file.len() == 0 ==> config.validation() is Err,
        config.validation() is Ok <==> config.is_valid(),
{
}

} // verus!
