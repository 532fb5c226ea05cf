//! What the platform that the program runs on supports.

use vstd::prelude::*;

verus! {

/// The kind of platform that the program runs on.
#[derive(Clone, Copy, Debug, PartialEq, Eq, Structural)]
pub enum Platform {
    Android,
    Desktop,
}

/// A family of programming interfaces to the GPU.
#[derive(Clone, Copy, Debug, PartialEq, Eq, Structural)]
pub enum Api {
    OpenGl,
    OpenGlEs,
}

/// The capabilities of the platform, chosen once when the program starts.
#[derive(Clone, Copy, Debug, PartialEq, Eq, Structural)]
pub struct Config {
    pub platform: Platform,
}

impl Config {
    pub fn new(platform: Platform) -> (config: Config)
        ensures
            config.platform == platform,
    {
        Config { platform }
    }

    /// Whether framebuffers in the sRGB colour space can be had: on the
    /// desktop, not on Android.
    pub fn srgb_support(&self) -> (supported: bool)
        ensures
            supported == (self.platform == Platform::Desktop),
    {
        match self.platform {
            Platform::Android => false,
            Platform::Desktop => true,
        }
    }

    /// Whether presentation can wait for the vertical blank: everywhere.
    pub fn vsync_support(&self) -> (supported: bool)
        ensures
            supported,
    {
        true
    }

    /// The interface to ask for: the one for embedded systems on Android,
    /// the full one on the desktop.
    pub fn opengl_api_support(&self) -> (api: Api)
        ensures
            api == match self.platform {
                Platform::Android => Api::OpenGlEs,
                Platform::Desktop => Api::OpenGl,
            },
    {
        match self.platform {
            Platform::Android => Api::OpenGlEs,
            Platform::Desktop => Api::OpenGl,
        }
    }

    /// The version of the interface to ask for, major and minor: 3.0 on
    /// Android, 4.5 on the desktop.
    pub fn opengl_version_support(&self) -> (version: (u8, u8))
        ensures
            version == match self.platform {
                Platform::Android => (3u8, 0u8),
                Platform::Desktop => (4u8, 5u8),
            },
    {
        match self.platform {
            Platform::Android => (3, 0),
            Platform::Desktop => (4, 5),
        }
    }
}

} // verus!
