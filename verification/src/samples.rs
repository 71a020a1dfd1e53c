//! Sample declarations exercising the enum representations: a camera
//! control surface whose configuration enums show the internally tagged
//! forms, both struct-variant and newtype-variant style.  The tests build
//! these declarations in the model and translate them.

use vstd::prelude::*;

verus! {

/// A capture configuration with struct-style variants.
pub enum CaptureConfigurationStruct {
    Video { height: u32, width: u32 },
    Redirect,
}

/// A capture configuration with newtype variants around the two
/// configuration structs.
pub enum CaptureConfigurationNewtype {
    Video(VideoCaptureConfiguration),
    Redirect(RedirectCaptureConfiguration),
}

/// The payload of a video capture configuration.
pub struct VideoCaptureConfiguration {
    pub height: u32,
    pub width: u32,
}

/// The payload of a redirect capture configuration: no fields.
pub struct RedirectCaptureConfiguration {}

/// A command addressed to one camera, its action flattened in.
pub struct CameraControl {
    pub camera_uuid: String,
    pub action: Action,
}

/// The actions a camera control message can carry.
pub enum Action {
    GetVideoParameterSettings(VideoParameterSettings),
}

/// Adjustable video parameters; absent values leave settings unchanged.
pub struct VideoParameterSettings {
    pub frame_rate: Option<u16>,
}

} // verus!
