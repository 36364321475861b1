//! The client's own settings: what they hold, how each setting is
//! named and displayed on the settings screen, and how a changed value
//! is folded back in.  Reading and writing the settings file happens
//! outside this crate.

use vstd::prelude::*;

use crate::text::quoted;
use crate::text::spec_quoted;

verus! {

/// The persistent settings of the client.
#[derive(Clone, Debug, PartialEq)]
pub struct PuddlerSettings {
    pub default_media_server: Option<String>,
    pub discord_presence: bool,
    pub fullscreen: bool,
    pub gpu: bool,
    pub glsl_shaders: Vec<String>,
    pub mpv_config_location: Option<String>,
    pub mpv_debug_log: bool,
}

/// The settings of the session-oriented configuration surface: the
/// flags a single play-through consults.
#[derive(Clone, Debug, PartialEq)]
pub struct Settings {
    pub server_config: Option<String>,
    pub discord_presence: bool,
    pub transcoding: bool,
    pub fullscreen: bool,
    pub autologin: bool,
    pub autoplay: bool,
    pub gpu: bool,
    pub load_config: bool,
    pub glsl_shader: Option<Vec<String>>,
    pub mpv_debug: Option<bool>,
    pub mpv_config_location: Option<String>,
}

/// The individual settings the settings screen can change.
#[derive(Clone, Copy, Debug, PartialEq, Eq, Structural)]
pub enum PuddlerSettingType {
    DefaultMediaServer,
    DiscordPresence,
    Fullscreen,
    Gpu,
    GlslShaders,
    MpvConfigLocation,
    MpvDebug,
}

impl PuddlerSettingType {
    /// Every setting, in the order the settings screen lists them.
    pub fn all_types() -> (r: Vec<PuddlerSettingType>)
        ensures
            r@ =~= seq![
                PuddlerSettingType::DefaultMediaServer,
                PuddlerSettingType::DiscordPresence,
                PuddlerSettingType::Fullscreen,
                PuddlerSettingType::Gpu,
                PuddlerSettingType::GlslShaders,
                PuddlerSettingType::MpvConfigLocation,
                PuddlerSettingType::MpvDebug,
            ],
    {
        let mut r: Vec<PuddlerSettingType> = Vec::new();
        r.push(PuddlerSettingType::DefaultMediaServer);
        r.push(PuddlerSettingType::DiscordPresence);
        r.push(PuddlerSettingType::Fullscreen);
        r.push(PuddlerSettingType::Gpu);
        r.push(PuddlerSettingType::GlslShaders);
        r.push(PuddlerSettingType::MpvConfigLocation);
        r.push(PuddlerSettingType::MpvDebug);
        r
    }

    /// The label a setting is listed under.
    pub fn label(&self) -> (r: &'static str)
        ensures
            r@ == match *self {
                PuddlerSettingType::DefaultMediaServer => "Default media server"@,
                PuddlerSettingType::DiscordPresence => "Discord Presence"@,
                PuddlerSettingType::Fullscreen => "Fullscreen"@,
                PuddlerSettingType::Gpu => "Hardware Encoding"@,
                PuddlerSettingType::GlslShaders => "GLSL Shaders"@,
                PuddlerSettingType::MpvConfigLocation => "MPV Config Location"@,
                PuddlerSettingType::MpvDebug => "MPV Debug Log"@,
            },
    {
        match self {
            PuddlerSettingType::DefaultMediaServer => "Default media server",
            PuddlerSettingType::DiscordPresence => "Discord Presence",
            PuddlerSettingType::Fullscreen => "Fullscreen",
            PuddlerSettingType::Gpu => "Hardware Encoding",
            PuddlerSettingType::GlslShaders => "GLSL Shaders",
            PuddlerSettingType::MpvConfigLocation => "MPV Config Location",
            PuddlerSettingType::MpvDebug => "MPV Debug Log",
        }
    }
}

/// A boolean as the settings screen prints it.
pub fn bool_string(b: bool) -> (r: &'static str)
    ensures
        r@ == if b {
            "true"@
        } else {
            "false"@
        },
{
    if b {
        "true"
    } else {
        "false"
    }
}

/// An optional string as the settings screen prints it.
pub open spec fn spec_option_string(v: Option<String>) -> Seq<char> {
    match v {
        Some(s) => "Some("@ + spec_quoted(s@) + ")"@,
        None => "None"@,
    }
}

/// Prints an optional string value.
pub fn option_string(v: &Option<String>) -> (r: String)
    ensures
        r@ == spec_option_string(*v),
{
    match v {
        Some(s) => {
            let mut r = String::from_str("Some(");
            let q = quoted(s.as_str());
            r.append(q.as_str());
            r.append(")");
            r
        },
        None => String::from_str("None"),
    }
}

/// A list of quoted strings as the settings screen prints it.
pub open spec fn spec_quoted_list_body(vs: Seq<String>) -> Seq<char>
    decreases vs.len(),
{
    if vs.len() == 0 {
        Seq::empty()
    } else if vs.len() == 1 {
        spec_quoted(vs.first()@)
    } else {
        spec_quoted(vs.first()@) + ", "@ + spec_quoted_list_body(vs.drop_first())
    }
}

/// Prints a list of strings, quoted and comma separated in brackets.
pub fn quoted_list(vs: &Vec<String>) -> (r: String)
    ensures
        r@ == "["@ + spec_quoted_list_body(vs@) + "]"@,
{
    let mut r = String::from_str("[");
    let mut i: usize = 0;
    while i < vs.len()
        invariant
            0 <= i <= vs@.len(),
            i == 0 ==> r@ == "["@,
            i > 0 ==> "["@ + spec_quoted_list_body(vs@) =~= r@ + (if i < vs@.len() {
                ", "@ + spec_quoted_list_body(vs@.skip(i as int))
            } else {
                Seq::<char>::empty()
            }),
        decreases vs@.len() - i,
    {
        let ghost prev = r@;
        if i > 0 {
            r.append(", ");
        }
        let q = quoted(vs[i].as_str());
        r.append(q.as_str());
        proof {
            assert(vs@.skip(i as int).first() == vs@[i as int]);
            assert(vs@.skip(i as int).drop_first() =~= vs@.skip(i + 1));
            if i == 0 {
                assert(vs@.skip(0) =~= vs@);
            }
        }
        i += 1;
    }
    r.append("]");
    proof {
        if vs@.len() == 0 {
            assert(spec_quoted_list_body(vs@) =~= Seq::<char>::empty());
            assert(r@ =~= "["@ + spec_quoted_list_body(vs@) + "]"@);
        } else {
            assert(r@ =~= "["@ + spec_quoted_list_body(vs@) + "]"@);
        }
    }
    r
}

impl PuddlerSettings {
    /// The value of one setting, as the settings screen shows it.
    pub fn get_setting_value(&self, setting: PuddlerSettingType) -> (r: String)
        ensures
            r@ == match setting {
                PuddlerSettingType::DefaultMediaServer => spec_option_string(
                    self.default_media_server,
                ),
                PuddlerSettingType::DiscordPresence => if self.discord_presence {
                    "true"@
                } else {
                    "false"@
                },
                PuddlerSettingType::Fullscreen => if self.fullscreen {
                    "true"@
                } else {
                    "false"@
                },
                PuddlerSettingType::Gpu => if self.gpu {
                    "true"@
                } else {
                    "false"@
                },
                PuddlerSettingType::GlslShaders => "["@ + spec_quoted_list_body(
                    self.glsl_shaders@,
                ) + "]"@,
                PuddlerSettingType::MpvConfigLocation => spec_option_string(
                    self.mpv_config_location,
                ),
                PuddlerSettingType::MpvDebug => if self.mpv_debug_log {
                    "true"@
                } else {
                    "false"@
                },
            },
    {
        match setting {
            PuddlerSettingType::DefaultMediaServer => option_string(&self.default_media_server),
            PuddlerSettingType::DiscordPresence => String::from_str(
                bool_string(self.discord_presence),
            ),
            PuddlerSettingType::Fullscreen => String::from_str(bool_string(self.fullscreen)),
            PuddlerSettingType::Gpu => String::from_str(bool_string(self.gpu)),
            PuddlerSettingType::GlslShaders => quoted_list(&self.glsl_shaders),
            PuddlerSettingType::MpvConfigLocation => option_string(&self.mpv_config_location),
            PuddlerSettingType::MpvDebug => String::from_str(bool_string(self.mpv_debug_log)),
        }
    }

    /// Folds one freshly asked value into the settings: only the field
    /// the chosen setting names changes.
    pub fn change_setting(&mut self, setting: PuddlerSettingType, change: PuddlerSettings)
        ensures
            *final(self) == (match setting {
                PuddlerSettingType::DefaultMediaServer => PuddlerSettings {
                    default_media_server: change.default_media_server,
                    ..*old(self)
                },
                PuddlerSettingType::DiscordPresence => PuddlerSettings {
                    discord_presence: change.discord_presence,
                    ..*old(self)
                },
                PuddlerSettingType::Fullscreen => PuddlerSettings {
                    fullscreen: change.fullscreen,
                    ..*old(self)
                },
                PuddlerSettingType::Gpu => PuddlerSettings { gpu: change.gpu, ..*old(self) },
                PuddlerSettingType::GlslShaders => PuddlerSettings {
                    glsl_shaders: change.glsl_shaders,
                    ..*old(self)
                },
                PuddlerSettingType::MpvConfigLocation => PuddlerSettings {
                    mpv_config_location: change.mpv_config_location,
                    ..*old(self)
                },
                PuddlerSettingType::MpvDebug => PuddlerSettings {
                    mpv_debug_log: change.mpv_debug_log,
                    ..*old(self)
                },
            }),
    {
        match setting {
            PuddlerSettingType::DefaultMediaServer => {
                self.default_media_server = change.default_media_server;
            },
            PuddlerSettingType::DiscordPresence => {
                self.discord_presence = change.discord_presence;
            },
            PuddlerSettingType::Fullscreen => {
                self.fullscreen = change.fullscreen;
            },
            PuddlerSettingType::Gpu => {
                self.gpu = change.gpu;
            },
            PuddlerSettingType::GlslShaders => {
                self.glsl_shaders = change.glsl_shaders;
            },
            PuddlerSettingType::MpvConfigLocation => {
                self.mpv_config_location = change.mpv_config_location;
            },
            PuddlerSettingType::MpvDebug => {
                self.mpv_debug_log = change.mpv_debug_log;
            },
        }
    }
}

} // verus!
