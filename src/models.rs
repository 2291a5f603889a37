use vstd::prelude::*;

verus! {

/// One artist credited on a track.
#[derive(Debug, Clone)]
pub struct Artist {
    pub name: String,
    pub url: Option<String>,
}

/// The track that a snapshot reports.
#[derive(Debug, Clone)]
pub struct Track {
    pub name: String,
    pub artists: Vec<Artist>,
    pub image_url: Option<String>,
    pub url: Option<String>,
    pub duration: u32,
}

/// One fetched, immutable view of the remote player's state.
#[derive(Debug, Clone)]
pub struct CurrentlyPlaying {
    pub device: Device,
    pub track: Track,
    pub progress_secs: u32,
    pub shuffled: bool,
    pub playing: bool,
    pub repeat_status: RepeatState,
}

/// The device on which the remote player runs.
#[derive(Clone, Debug, PartialEq, Eq)]
pub struct Device {
    pub id: Option<String>,
    pub is_active: bool,
    pub is_private_session: bool,
    pub is_restricted: bool,
    pub name: String,
    pub _type: DeviceType,
    pub volume_percent: Option<u32>,
}

/// Kind of playback device.
#[derive(Clone, Copy, Debug, PartialEq, Eq, Structural)]
pub enum DeviceType {
    Computer,
    Tablet,
    Smartphone,
    Smartwatch,
    Speaker,
    Tv,
    Avr,
    Stb,
    AudioDongle,
    GameConsole,
    CastVideo,
    CastAudio,
    Automobile,
    Unknown,
}

/// Repeat mode of the player.
#[derive(Clone, Copy, Debug, PartialEq, Eq, Structural)]
pub enum RepeatState {
    Off,
    Track,
    Context,
}

/// The snake_case name of a device kind.
pub open spec fn device_type_name(t: DeviceType) -> Seq<char> {
    match t {
        DeviceType::Computer => "computer"@,
        DeviceType::Tablet => "tablet"@,
        DeviceType::Smartphone => "smartphone"@,
        DeviceType::Smartwatch => "smartwatch"@,
        DeviceType::Speaker => "speaker"@,
        DeviceType::Tv => "tv"@,
        DeviceType::Avr => "avr"@,
        DeviceType::Stb => "stb"@,
        DeviceType::AudioDongle => "audio_dongle"@,
        DeviceType::GameConsole => "game_console"@,
        DeviceType::CastVideo => "cast_video"@,
        DeviceType::CastAudio => "cast_audio"@,
        DeviceType::Automobile => "automobile"@,
        DeviceType::Unknown => "unknown"@,
    }
}

/// The snake_case name of a repeat mode.
pub open spec fn repeat_state_name(r: RepeatState) -> Seq<char> {
    match r {
        RepeatState::Off => "off"@,
        RepeatState::Track => "track"@,
        RepeatState::Context => "context"@,
    }
}

impl DeviceType {
    /// The snake_case name of this device kind.
    pub fn as_str(&self) -> (s: &'static str)
        ensures
            s@ == device_type_name(*self),
    {
        match self {
            DeviceType::Computer => "computer",
            DeviceType::Tablet => "tablet",
            DeviceType::Smartphone => "smartphone",
            DeviceType::Smartwatch => "smartwatch",
            DeviceType::Speaker => "speaker",
            DeviceType::Tv => "tv",
            DeviceType::Avr => "avr",
            DeviceType::Stb => "stb",
            DeviceType::AudioDongle => "audio_dongle",
            DeviceType::GameConsole => "game_console",
            DeviceType::CastVideo => "cast_video",
            DeviceType::CastAudio => "cast_audio",
            DeviceType::Automobile => "automobile",
            DeviceType::Unknown => "unknown",
        }
    }
}

impl RepeatState {
    /// The snake_case name of this repeat mode.
    pub fn as_str(&self) -> (s: &'static str)
        ensures
            s@ == repeat_state_name(*self),
    {
        match self {
            RepeatState::Off => "off",
            RepeatState::Track => "track",
            RepeatState::Context => "context",
        }
    }
}

} // verus!
