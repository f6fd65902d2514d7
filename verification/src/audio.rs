//! Audio helpers.

use vstd::prelude::*;
use vstd::string::StringExecFns;

verus! {

/// The sound file formats the engine plays.
#[derive(Debug, Clone, Copy, PartialEq, Eq, Structural)]
pub enum AudioFormat {
    /// MPEG audio.
    MP3,
    /// Waveform audio.
    WAV,
    /// Ogg Vorbis audio.
    OGG,
}

impl AudioFormat {
    /// The format's name, as it is printed.
    pub fn name(&self) -> (r: String)
        ensures
            *self is MP3 ==> r@ == "MP3"@,
            *self is WAV ==> r@ == "WAV"@,
            *self is OGG ==> r@ == "OGG"@,
    {
        match self {
            AudioFormat::MP3 => String::from_str("MP3"),
            AudioFormat::WAV => String::from_str("WAV"),
            AudioFormat::OGG => String::from_str("OGG"),
        }
    }
}

/// The nominal duration of a sound: a hundred time units per byte of
/// its name.
pub fn get_sound_duration(sound_name: &str) -> (r: u32)
    requires
        sound_name.len() * 100 <= u32::MAX,
    ensures
        r == sound_name.len() * 100,
{
    sound_name.len() as u32 * 100
}

} // verus!
