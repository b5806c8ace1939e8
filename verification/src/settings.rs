//! Player-facing settings. Reading and writing them to disk is the
//! caller's concern; this is the record and its defaults.

use vstd::prelude::*;

verus! {

/// Rendering toggles.
pub struct GraphicsSettings {
    pub bloom_enabled: bool,
    pub vsync_enabled: bool,
    pub fullscreen: bool,
}

/// Mix levels in thousandths of full volume.
pub struct AudioSettings {
    pub master_volume_permille: u32,
    pub sfx_volume_permille: u32,
    pub music_volume_permille: u32,
}

/// The whole settings record.
pub struct GameSettings {
    pub graphics: GraphicsSettings,
    pub audio: AudioSettings,
}

impl GameSettings {
    /// Volumes stay within full scale.
    pub open spec fn wf(self) -> bool {
        &&& self.audio.master_volume_permille <= 1000
        &&& self.audio.sfx_volume_permille <= 1000
        &&& self.audio.music_volume_permille <= 1000
    }

    /// Stock settings: bloom and vsync on, windowed, all volumes at full.
    pub fn new() -> (r: GameSettings)
        ensures
            r.graphics.bloom_enabled,
            r.graphics.vsync_enabled,
            !r.graphics.fullscreen,
            r.audio.master_volume_permille == 1000,
            r.audio.sfx_volume_permille == 1000,
            r.audio.music_volume_permille == 1000,
            r.wf(),
    {
        GameSettings {
            graphics: GraphicsSettings {
                bloom_enabled: true,
                vsync_enabled: true,
                fullscreen: false,
            },
            audio: AudioSettings {
                master_volume_permille: 1000,
                sfx_volume_permille: 1000,
                music_volume_permille: 1000,
            },
        }
    }
}

impl Default for GameSettings {
    /// Stock settings (see `new`).
    fn default() -> (r: GameSettings)
        ensures
            r.graphics.bloom_enabled,
            r.graphics.vsync_enabled,
            !r.graphics.fullscreen,
            r.audio.master_volume_permille == 1000,
            r.wf(),
    {
        GameSettings::new()
    }
}

} // verus!
