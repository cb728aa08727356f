//! The errors of the audio path and of the parameter store, and how each
//! kind is recovered from.

use vstd::prelude::*;

verus! {

/// Why a capture device and a render device cannot run as one session.
#[derive(Clone, Copy, Debug, PartialEq, Eq, Structural)]
pub enum ConfigIssue {
    SampleRateMismatch,
    NotStereo,
}

impl ConfigIssue {
    pub open spec fn spec_text(self) -> Seq<char> {
        match self {
            ConfigIssue::SampleRateMismatch => "input and output sample rates are different"@,
            ConfigIssue::NotStereo => "only stereo is supported"@,
        }
    }

    pub fn text(&self) -> (r: &'static str)
        ensures
            r@ == self.spec_text(),
    {
        match self {
            ConfigIssue::SampleRateMismatch => "input and output sample rates are different",
            ConfigIssue::NotStereo => "only stereo is supported",
        }
    }
}

/// How a channel refused an operation.
#[derive(Clone, Copy, Debug, PartialEq, Eq, Structural)]
pub enum ChannelFailure {
    /// Closed on both sides.
    Closed,
    /// The other side has gone.
    HalfClosed,
}

impl ChannelFailure {
    pub open spec fn spec_text(self) -> Seq<char> {
        match self {
            ChannelFailure::Closed => "channel closed"@,
            ChannelFailure::HalfClosed => "channel half closed"@,
        }
    }

    pub fn text(&self) -> (r: &'static str)
        ensures
            r@ == self.spec_text(),
    {
        match self {
            ChannelFailure::Closed => "channel closed",
            ChannelFailure::HalfClosed => "channel half closed",
        }
    }
}

/// Every failure the library and the program around it report. Kinds that
/// come from a collaborator outside the library carry its description.
#[derive(Clone, Debug)]
pub enum ErrorKind {
    /// A frame or notification could not be sent: the channel is closed.
    Send(ChannelFailure),
    /// Nothing can be received any more: the channel is closed.
    Receive(ChannelFailure),
    /// The audio devices could not be enumerated.
    Devices(String),
    /// A capture or render stream could not be built.
    BuildStream(String),
    /// A capture or render stream could not be started.
    PlayStream(String),
    /// A device's default stream format could not be read.
    DefaultStreamConfig(String),
    /// The processing engine could not be loaded.
    PluginLoad(String),
    /// The tray icon could not be loaded.
    BadIcon(String),
    /// The tray menu could not be built.
    Menu(String),
    /// The tray icon could not be created.
    TrayIcon(String),
    /// The settings could not be encoded or decoded.
    Json(String),
    /// A file operation failed.
    Io(String),
    /// No render device matches the selection.
    NoOutputDevice,
    /// The capture and render devices cannot be used together.
    InvalidConfiguration(ConfigIssue),
    /// No capture device matches the selection.
    NoInputDevice,
    /// The processing engine has no editor surface.
    EditorMissing,
    /// A processed frame found the output bridge full: the render side stopped consuming.
    RenderStalled,
    /// A parameter index that the engine does not have.
    InvalidParameter(usize),
}

/// How the session supervisor recovers from an error.
#[derive(Clone, Copy, Debug, PartialEq, Eq, Structural)]
pub enum Recovery {
    /// Block until the device topology changes, then start again.
    AwaitDeviceChange,
    /// Wait a short fixed delay, then start again.
    RetryAfterDelay,
}

impl ErrorKind {
    /// Which kind this is, disregarding what it carries.
    pub open spec fn tag(&self) -> int {
        match self {
            ErrorKind::Send(_) => 0,
            ErrorKind::Receive(_) => 1,
            ErrorKind::Devices(_) => 2,
            ErrorKind::BuildStream(_) => 3,
            ErrorKind::PlayStream(_) => 4,
            ErrorKind::DefaultStreamConfig(_) => 5,
            ErrorKind::PluginLoad(_) => 6,
            ErrorKind::BadIcon(_) => 7,
            ErrorKind::Menu(_) => 8,
            ErrorKind::TrayIcon(_) => 9,
            ErrorKind::Json(_) => 10,
            ErrorKind::Io(_) => 11,
            ErrorKind::NoOutputDevice => 12,
            ErrorKind::InvalidConfiguration(_) => 13,
            ErrorKind::NoInputDevice => 14,
            ErrorKind::EditorMissing => 15,
            ErrorKind::RenderStalled => 16,
            ErrorKind::InvalidParameter(_) => 17,
        }
    }

    /// Device absence: no device matches a selection.
    pub open spec fn spec_is_device_absence(&self) -> bool {
        self is NoInputDevice || self is NoOutputDevice
    }

    pub open spec fn spec_recovery(&self) -> Recovery {
        if self.spec_is_device_absence() {
            Recovery::AwaitDeviceChange
        } else {
            Recovery::RetryAfterDelay
        }
    }

    /// The text that describes the error to a user.
    pub open spec fn spec_message(&self) -> Seq<char> {
        match self {
            ErrorKind::Send(c) => "send error: "@ + c.spec_text(),
            ErrorKind::Receive(c) => "receive error: "@ + c.spec_text(),
            ErrorKind::Devices(c) => "devices error: "@ + c@,
            ErrorKind::BuildStream(c) => "build stream error: "@ + c@,
            ErrorKind::PlayStream(c) => "play stream error: "@ + c@,
            ErrorKind::DefaultStreamConfig(c) => "default stream config error: "@ + c@,
            ErrorKind::PluginLoad(c) => "plugin load error: "@ + c@,
            ErrorKind::BadIcon(c) => "bad icon: "@ + c@,
            ErrorKind::Menu(c) => "menu error: "@ + c@,
            ErrorKind::TrayIcon(c) => "tray icon error: "@ + c@,
            ErrorKind::Json(c) => "json error: "@ + c@,
            ErrorKind::Io(c) => "io error: "@ + c@,
            ErrorKind::NoOutputDevice => "output device not found"@,
            ErrorKind::InvalidConfiguration(c) => "invalid configuration: "@ + c.spec_text(),
            ErrorKind::NoInputDevice => "input device not found"@,
            ErrorKind::EditorMissing => "editor missing"@,
            ErrorKind::RenderStalled => "render path stalled: output bridge full"@,
            ErrorKind::InvalidParameter(_) => "invalid parameter index"@,
        }
    }

    /// Whether two errors are of the same kind, whatever they carry.
    pub fn same_kind(&self, other: &ErrorKind) -> (r: bool)
        ensures
            r == (self.tag() == other.tag()),
    {
        self.kind_number() == other.kind_number()
    }

    /// A number that tells the kinds apart.
    pub fn kind_number(&self) -> (r: u8)
        ensures
            r as int == self.tag(),
    {
        match self {
            ErrorKind::Send(_) => 0,
            ErrorKind::Receive(_) => 1,
            ErrorKind::Devices(_) => 2,
            ErrorKind::BuildStream(_) => 3,
            ErrorKind::PlayStream(_) => 4,
            ErrorKind::DefaultStreamConfig(_) => 5,
            ErrorKind::PluginLoad(_) => 6,
            ErrorKind::BadIcon(_) => 7,
            ErrorKind::Menu(_) => 8,
            ErrorKind::TrayIcon(_) => 9,
            ErrorKind::Json(_) => 10,
            ErrorKind::Io(_) => 11,
            ErrorKind::NoOutputDevice => 12,
            ErrorKind::InvalidConfiguration(_) => 13,
            ErrorKind::NoInputDevice => 14,
            ErrorKind::EditorMissing => 15,
            ErrorKind::RenderStalled => 16,
            ErrorKind::InvalidParameter(_) => 17,
        }
    }

    pub fn is_device_absence(&self) -> (r: bool)
        ensures
            r == self.spec_is_device_absence(),
    {
        match self {
            ErrorKind::NoInputDevice | ErrorKind::NoOutputDevice => true,
            _ => false,
        }
    }

    /// Device absence is waited out on the device-change watcher; every other
    /// error is retried after a fixed delay.
    pub fn recovery(&self) -> (r: Recovery)
        ensures
            r == self.spec_recovery(),
    {
        if self.is_device_absence() {
            Recovery::AwaitDeviceChange
        } else {
            Recovery::RetryAfterDelay
        }
    }

    pub fn message(&self) -> (r: String)
        ensures
            r@ == self.spec_message(),
    {
        match self {
            ErrorKind::Send(c) => {
                let mut s = String::from_str("send error: ");
                s.append(c.text());
                s
            },
            ErrorKind::Receive(c) => {
                let mut s = String::from_str("receive error: ");
                s.append(c.text());
                s
            },
            ErrorKind::Devices(c) => {
                let mut s = String::from_str("devices error: ");
                s.append(c.as_str());
                s
            },
            ErrorKind::BuildStream(c) => {
                let mut s = String::from_str("build stream error: ");
                s.append(c.as_str());
                s
            },
            ErrorKind::PlayStream(c) => {
                let mut s = String::from_str("play stream error: ");
                s.append(c.as_str());
                s
            },
            ErrorKind::DefaultStreamConfig(c) => {
                let mut s = String::from_str("default stream config error: ");
                s.append(c.as_str());
                s
            },
            ErrorKind::PluginLoad(c) => {
                let mut s = String::from_str("plugin load error: ");
                s.append(c.as_str());
                s
            },
            ErrorKind::BadIcon(c) => {
                let mut s = String::from_str("bad icon: ");
                s.append(c.as_str());
                s
            },
            ErrorKind::Menu(c) => {
                let mut s = String::from_str("menu error: ");
                s.append(c.as_str());
                s
            },
            ErrorKind::TrayIcon(c) => {
                let mut s = String::from_str("tray icon error: ");
                s.append(c.as_str());
                s
            },
            ErrorKind::Json(c) => {
                let mut s = String::from_str("json error: ");
                s.append(c.as_str());
                s
            },
            ErrorKind::Io(c) => {
                let mut s = String::from_str("io error: ");
                s.append(c.as_str());
                s
            },
            ErrorKind::NoOutputDevice => String::from_str("output device not found"),
            ErrorKind::InvalidConfiguration(c) => {
                let mut s = String::from_str("invalid configuration: ");
                s.append(c.text());
                s
            },
            ErrorKind::NoInputDevice => String::from_str("input device not found"),
            ErrorKind::EditorMissing => String::from_str("editor missing"),
            ErrorKind::RenderStalled => String::from_str("render path stalled: output bridge full"),
            ErrorKind::InvalidParameter(_) => String::from_str("invalid parameter index"),
        }
    }
}

impl PartialEq for ErrorKind {
    fn eq(&self, other: &ErrorKind) -> (r: bool) {
        self.same_kind(other)
    }
}

impl vstd::std_specs::cmp::PartialEqSpecImpl for ErrorKind {
    open spec fn obeys_eq_spec() -> bool {
        true
    }

    open spec fn eq_spec(&self, other: &ErrorKind) -> bool {
        self.tag() == other.tag()
    }
}

impl Eq for ErrorKind {

}

} // verus!
