//! The player's settings.
use vstd::prelude::*;

verus! {

/// Where the music daemon listens, where the music is, and the visualizer
/// settings (read from the user's configuration file).
pub struct Config {
    pub mpd_host: String,
    pub mpd_port: u16,
    pub mpd_music_dir: String,
    pub visualizer_data_source: String,
    pub visualizer_output_name: String,
    pub visualizer_in_stereo: String,
    pub visualizer_type: String,
    pub visualizer_look: String,
}

} // verus!
