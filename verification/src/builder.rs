//! The options of a player before it is built.
//!
//! A host page sets the options one by one, mostly by name. An option whose
//! value is no known name keeps the value that it had.

use crate::config::{
    parsed_level, Color, CompatibilityRules, DefaultFont, Letterbox, LogLevel,
    NetworkingAccessMode, OpenURLMode, PlayerRuntime, SocketProxy, StageAlign, StageQuality,
    StageScaleMode,
};
use crate::renderer::{order_with, renderer_order, Renderer};
use crate::text::same_text;
use vstd::prelude::*;
use vstd::string::StringSliceAdditionalSpecFns;

verus! {

/// The font names set for each generic font.
#[derive(Clone, Debug)]
pub struct DefaultFonts {
    pub sans: Option<Vec<String>>,
    pub serif: Option<Vec<String>>,
    pub typewriter: Option<Vec<String>>,
}

/// The options of a player.
#[derive(Clone, Debug)]
pub struct RuffleInstanceBuilder {
    pub allow_script_access: bool,
    pub background_color: Option<Color>,
    pub letterbox: Letterbox,
    pub upgrade_to_https: bool,
    pub compatibility_rules: CompatibilityRules,
    pub base_url: Option<String>,
    pub show_menu: bool,
    pub allow_fullscreen: bool,
    pub stage_align: StageAlign,
    pub force_align: bool,
    pub quality: StageQuality,
    pub scale: StageScaleMode,
    pub force_scale: bool,
    pub wmode: Option<String>,
    pub log_level: LogLevel,
    pub player_version: Option<u8>,
    pub preferred_renderer: Option<String>,
    pub open_url_mode: OpenURLMode,
    pub allow_networking: NetworkingAccessMode,
    pub socket_proxy: Vec<SocketProxy>,
    pub credential_allow_list: Vec<String>,
    pub player_runtime: PlayerRuntime,
    pub default_fonts: DefaultFonts,
    pub custom_fonts: Vec<(String, Vec<u8>)>,
}

/// The names among `fonts`, in their order: what is no string is left out.
pub open spec fn names_among(fonts: Seq<Option<String>>) -> Seq<String>
    decreases fonts.len(),
{
    if fonts.len() == 0 {
        Seq::empty()
    } else {
        match fonts.last() {
            Some(name) => names_among(fonts.drop_last()).push(name),
            None => names_among(fonts.drop_last()),
        }
    }
}

/// The names among `fonts`, in their order.
pub fn collect_names(fonts: &Vec<Option<String>>) -> (names: Vec<String>)
    ensures
        names@ == names_among(fonts@),
{
    let mut names: Vec<String> = Vec::new();
    let n = fonts.len();
    let mut i: usize = 0;
    while i < n
        invariant
            n == fonts@.len(),
            i <= n,
            names@ == names_among(fonts@.subrange(0, i as int)),
        decreases n - i,
    {
        proof {
            let next = fonts@.subrange(0, i + 1);
            assert(next.drop_last() =~= fonts@.subrange(0, i as int));
            assert(next.last() == fonts@[i as int]);
        }
        match &fonts[i] {
            Some(name) => {
                names.push(name.clone());
            },
            None => {},
        }
        i += 1;
    }
    assert(fonts@.subrange(0, n as int) =~= fonts@);
    names
}

impl Default for RuffleInstanceBuilder {
    /// The options that a player has where the host page sets none.
    fn default() -> (builder: Self)
        ensures
            builder.is_initial(),
    {
        RuffleInstanceBuilder {
            allow_script_access: false,
            background_color: None,
            letterbox: Letterbox::Fullscreen,
            upgrade_to_https: true,
            compatibility_rules: CompatibilityRules::Default,
            base_url: None,
            show_menu: true,
            allow_fullscreen: false,
            stage_align: StageAlign::empty(),
            force_align: false,
            quality: StageQuality::High,
            scale: StageScaleMode::ShowAll,
            force_scale: false,
            wmode: None,
            log_level: LogLevel::Error,
            player_version: None,
            preferred_renderer: None,
            open_url_mode: OpenURLMode::Allow,
            allow_networking: NetworkingAccessMode::All,
            socket_proxy: Vec::new(),
            credential_allow_list: Vec::new(),
            player_runtime: PlayerRuntime::FlashPlayer,
            default_fonts: DefaultFonts { sans: None, serif: None, typewriter: None },
            custom_fonts: Vec::new(),
        }
    }
}

impl RuffleInstanceBuilder {
    /// Whether the options are those that a player has where the host page
    /// sets none.
    pub open spec fn is_initial(&self) -> bool {
        &&& !self.allow_script_access
        &&& self.background_color is None
        &&& self.letterbox == Letterbox::Fullscreen
        &&& self.upgrade_to_https
        &&& self.compatibility_rules == CompatibilityRules::Default
        &&& self.base_url is None
        &&& self.show_menu
        &&& !self.allow_fullscreen
        &&& self.stage_align == StageAlign::none()
        &&& !self.force_align
        &&& self.quality == StageQuality::High
        &&& self.scale == StageScaleMode::ShowAll
        &&& !self.force_scale
        &&& self.wmode is None
        &&& self.log_level == LogLevel::Error
        &&& self.player_version is None
        &&& self.preferred_renderer is None
        &&& self.open_url_mode == OpenURLMode::Allow
        &&& self.allow_networking == NetworkingAccessMode::All
        &&& self.socket_proxy@.len() == 0
        &&& self.credential_allow_list@.len() == 0
        &&& self.player_runtime == PlayerRuntime::FlashPlayer
        &&& self.default_fonts.sans is None
        &&& self.default_fonts.serif is None
        &&& self.default_fonts.typewriter is None
        &&& self.custom_fonts@.len() == 0
    }

    /// The options that a player has where the host page sets none.
    pub fn new() -> (builder: RuffleInstanceBuilder)
        ensures
            builder.is_initial(),
    {
        RuffleInstanceBuilder::default()
    }

    pub fn set_allow_script_access(&mut self, value: bool)
        ensures
            *final(self) == (RuffleInstanceBuilder { allow_script_access: value, ..*old(self) }),
    {
        self.allow_script_access = value;
    }

    /// Sets the background to the opaque colour `rgb`, or to none.
    pub fn set_background_color(&mut self, value: Option<u32>)
        ensures
            *final(self) == (RuffleInstanceBuilder {
                background_color: match value {
                    Some(rgb) => Some(Color::rgb_with_alpha(rgb, 255)),
                    None => None,
                },
                ..*old(self)
            }),
    {
        self.background_color = match value {
            Some(rgb) => Some(Color::from_rgb(rgb, 255)),
            None => None,
        };
    }

    pub fn set_upgrade_to_https(&mut self, value: bool)
        ensures
            *final(self) == (RuffleInstanceBuilder { upgrade_to_https: value, ..*old(self) }),
    {
        self.upgrade_to_https = value;
    }

    /// Applies the rules that the player ships with, or none.
    pub fn set_compatibility_rules(&mut self, value: bool)
        ensures
            *final(self) == (RuffleInstanceBuilder {
                compatibility_rules: if value {
                    CompatibilityRules::Default
                } else {
                    CompatibilityRules::Empty
                },
                ..*old(self)
            }),
    {
        self.compatibility_rules = if value {
            CompatibilityRules::Default
        } else {
            CompatibilityRules::Empty
        };
    }

    /// Sets the letterbox by its name: "off", "fullscreen" or "on".
    pub fn set_letterbox(&mut self, value: &str)
        ensures
            *final(self) == (RuffleInstanceBuilder {
                letterbox: match Letterbox::named(value@) {
                    Some(letterbox) => letterbox,
                    None => old(self).letterbox,
                },
                ..*old(self)
            }),
    {
        match Letterbox::from_name(value) {
            Some(letterbox) => {
                self.letterbox = letterbox;
            },
            None => {},
        }
    }

    pub fn set_base_url(&mut self, value: Option<String>)
        ensures
            *final(self) == (RuffleInstanceBuilder { base_url: value, ..*old(self) }),
    {
        self.base_url = value;
    }

    pub fn set_show_menu(&mut self, value: bool)
        ensures
            *final(self) == (RuffleInstanceBuilder { show_menu: value, ..*old(self) }),
    {
        self.show_menu = value;
    }

    pub fn set_allow_fullscreen(&mut self, value: bool)
        ensures
            *final(self) == (RuffleInstanceBuilder { allow_fullscreen: value, ..*old(self) }),
    {
        self.allow_fullscreen = value;
    }

    /// Aligns the stage to the sides whose letters (T, B, L, R, in either
    /// case) occur in `value`; every other character is passed over.
    pub fn set_stage_align(&mut self, value: &str)
        ensures
            *final(self) == (RuffleInstanceBuilder {
                stage_align: StageAlign::lettered(value.spec_bytes()),
                ..*old(self)
            }),
    {
        self.stage_align = StageAlign::from_letters(value);
    }

    pub fn set_force_align(&mut self, value: bool)
        ensures
            *final(self) == (RuffleInstanceBuilder { force_align: value, ..*old(self) }),
    {
        self.force_align = value;
    }

    /// Sets the quality by its name: "low", "medium", "high", "best", "8x8",
    /// "8x8linear", "16x16" or "16x16linear".
    pub fn set_quality(&mut self, value: &str)
        ensures
            *final(self) == (RuffleInstanceBuilder {
                quality: match StageQuality::named(value@) {
                    Some(quality) => quality,
                    None => old(self).quality,
                },
                ..*old(self)
            }),
    {
        match StageQuality::from_name(value) {
            Some(quality) => {
                self.quality = quality;
            },
            None => {},
        }
    }

    /// Sets the scale mode by its name: "exactfit", "noborder", "noscale" or
    /// "showall".
    pub fn set_scale(&mut self, value: &str)
        ensures
            *final(self) == (RuffleInstanceBuilder {
                scale: match StageScaleMode::named(value@) {
                    Some(scale) => scale,
                    None => old(self).scale,
                },
                ..*old(self)
            }),
    {
        match StageScaleMode::from_name(value) {
            Some(scale) => {
                self.scale = scale;
            },
            None => {},
        }
    }

    pub fn set_force_scale(&mut self, value: bool)
        ensures
            *final(self) == (RuffleInstanceBuilder { force_scale: value, ..*old(self) }),
    {
        self.force_scale = value;
    }

    pub fn set_wmode(&mut self, value: Option<String>)
        ensures
            *final(self) == (RuffleInstanceBuilder { wmode: value, ..*old(self) }),
    {
        self.wmode = value;
    }

    /// Sets the log level to `level`, or keeps it where there is none.
    pub fn apply_log_level(&mut self, level: Option<LogLevel>)
        ensures
            *final(self) == (RuffleInstanceBuilder {
                log_level: match level {
                    Some(level) => level,
                    None => old(self).log_level,
                },
                ..*old(self)
            }),
    {
        match level {
            Some(level) => {
                self.log_level = level;
            },
            None => {},
        }
    }

    /// Sets the log level to the one that `value` names, if it names one.
    pub fn set_log_level(&mut self, value: &str)
        ensures
            *final(self) == (RuffleInstanceBuilder {
                log_level: match parsed_level(value@) {
                    Some(level) => level,
                    None => old(self).log_level,
                },
                ..*old(self)
            }),
            LogLevel::named(value@) matches Some(level) ==> final(self).log_level == level,
    {
        self.apply_log_level(LogLevel::from_name(value));
    }

    pub fn set_player_version(&mut self, value: Option<u8>)
        ensures
            *final(self) == (RuffleInstanceBuilder { player_version: value, ..*old(self) }),
    {
        self.player_version = value;
    }

    pub fn set_preferred_renderer(&mut self, value: Option<String>)
        ensures
            *final(self) == (RuffleInstanceBuilder { preferred_renderer: value, ..*old(self) }),
    {
        self.preferred_renderer = value;
    }

    /// Sets what happens when content opens a URL, by the mode's name:
    /// "allow", "confirm" or "deny".
    pub fn set_open_url_mode(&mut self, value: &str)
        ensures
            *final(self) == (RuffleInstanceBuilder {
                open_url_mode: match OpenURLMode::named(value@) {
                    Some(mode) => mode,
                    None => old(self).open_url_mode,
                },
                ..*old(self)
            }),
    {
        match OpenURLMode::from_name(value) {
            Some(mode) => {
                self.open_url_mode = mode;
            },
            None => {},
        }
    }

    /// Sets which networking content may use, by the mode's name: "all",
    /// "internal" or "none".
    pub fn set_allow_networking(&mut self, value: &str)
        ensures
            *final(self) == (RuffleInstanceBuilder {
                allow_networking: match NetworkingAccessMode::named(value@) {
                    Some(mode) => mode,
                    None => old(self).allow_networking,
                },
                ..*old(self)
            }),
    {
        match NetworkingAccessMode::from_name(value) {
            Some(mode) => {
                self.allow_networking = mode;
            },
            None => {},
        }
    }

    /// Adds a socket proxy behind those that are there.
    pub fn add_socket_proxy(&mut self, host: String, port: u16, proxy_url: String)
        ensures
            final(self).socket_proxy@ == old(self).socket_proxy@.push(
                SocketProxy { host, port, proxy_url },
            ),
            *final(self) == (RuffleInstanceBuilder {
                socket_proxy: final(self).socket_proxy,
                ..*old(self)
            }),
    {
        self.socket_proxy.push(SocketProxy { host, port, proxy_url });
    }

    pub fn set_credential_allow_list(&mut self, value: Vec<String>)
        ensures
            *final(self) == (RuffleInstanceBuilder { credential_allow_list: value, ..*old(self) }),
    {
        self.credential_allow_list = value;
    }

    /// Sets the runtime by its name: "air" or "flashPlayer".
    pub fn set_player_runtime(&mut self, value: &str)
        ensures
            *final(self) == (RuffleInstanceBuilder {
                player_runtime: match PlayerRuntime::named(value@) {
                    Some(runtime) => runtime,
                    None => old(self).player_runtime,
                },
                ..*old(self)
            }),
    {
        match PlayerRuntime::from_name(value) {
            Some(runtime) => {
                self.player_runtime = runtime;
            },
            None => {},
        }
    }

    /// Adds a font file under a name, behind those that are there.
    pub fn add_font(&mut self, font_name: String, data: Vec<u8>)
        ensures
            final(self).custom_fonts@ == old(self).custom_fonts@.push((font_name, data)),
            *final(self) == (RuffleInstanceBuilder {
                custom_fonts: final(self).custom_fonts,
                ..*old(self)
            }),
    {
        self.custom_fonts.push((font_name, data));
    }

    /// Sets the fonts that stand for the generic font named `default_name`
    /// ("sans", "serif" or "typewriter") to the names among `fonts`, in
    /// place of any set before. An entry that is no string is left out.
    pub fn set_default_font(&mut self, default_name: &str, fonts: Vec<Option<String>>)
        ensures
            DefaultFont::named(default_name@) is None ==> *final(self) == *old(self),
            DefaultFont::named(default_name@) matches Some(font) ==> {
                &&& *final(self) == (RuffleInstanceBuilder {
                    default_fonts: final(self).default_fonts,
                    ..*old(self)
                })
                &&& final(self).fonts_for(font) matches Some(names) && names@ == names_among(
                    fonts@,
                )
                &&& forall|other: DefaultFont|
                    other != font ==> final(self).fonts_for(other) == old(self).fonts_for(other)
            },
    {
        match DefaultFont::from_name(default_name) {
            Some(DefaultFont::Sans) => {
                self.default_fonts.sans = Some(collect_names(&fonts));
            },
            Some(DefaultFont::Serif) => {
                self.default_fonts.serif = Some(collect_names(&fonts));
            },
            Some(DefaultFont::Typewriter) => {
                self.default_fonts.typewriter = Some(collect_names(&fonts));
            },
            None => {},
        }
    }

    /// The names set for a generic font, if any were set.
    pub open spec fn fonts_for(&self, font: DefaultFont) -> Option<Vec<String>> {
        match font {
            DefaultFont::Sans => self.default_fonts.sans,
            DefaultFont::Serif => self.default_fonts.serif,
            DefaultFont::Typewriter => self.default_fonts.typewriter,
        }
    }

    /// Whether the window mode asks for a transparent stage.
    pub fn is_transparent(&self) -> (transparent: bool)
        ensures
            transparent == (self.wmode matches Some(mode) && mode@ == "transparent"@),
    {
        match &self.wmode {
            Some(mode) => same_text(mode.as_str(), "transparent"),
            None => false,
        }
    }

    /// The backend that the host page prefers, if it named one that exists.
    pub open spec fn preferred(&self) -> Option<Renderer> {
        match self.preferred_renderer {
            Some(name) => Renderer::named(name@),
            None => None,
        }
    }

    /// The order in which the rendering backends are tried: the preferred
    /// one first, if the host page named one that exists, then the others.
    pub fn renderer_order(&self) -> (order: Vec<Renderer>)
        ensures
            order@ == order_with(self.preferred()),
    {
        let preferred = match &self.preferred_renderer {
            Some(name) => Renderer::from_name(name.as_str()),
            None => None,
        };
        renderer_order(preferred)
    }

    /// Whether the host page prefers a backend that does not exist.
    pub fn prefers_unknown_renderer(&self) -> (unknown: bool)
        ensures
            unknown == (self.preferred_renderer is Some && self.preferred() is None),
    {
        match &self.preferred_renderer {
            Some(name) => Renderer::from_name(name.as_str()).is_none(),
            None => false,
        }
    }

    /// The generic fonts for which names were set, each with its names, in
    /// the order sans, serif, typewriter.
    pub open spec fn font_settings(&self) -> Seq<(DefaultFont, Vec<String>)> {
        self.setting_of(DefaultFont::Sans) + self.setting_of(DefaultFont::Serif) + self.setting_of(
            DefaultFont::Typewriter,
        )
    }

    /// The setting of one generic font: empty where no names were set.
    pub open spec fn setting_of(&self, font: DefaultFont) -> Seq<(DefaultFont, Vec<String>)> {
        match self.fonts_for(font) {
            Some(names) => seq![(font, names)],
            None => Seq::empty(),
        }
    }

    /// The generic fonts for which names were set, each with its names, in
    /// the order sans, serif, typewriter.
    pub fn default_font_settings(&self) -> (settings: Vec<(DefaultFont, &Vec<String>)>)
        ensures
            settings@.len() == self.font_settings().len(),
            forall|i: int|
                0 <= i < settings@.len() ==> (#[trigger] settings@[i]).0 == self.font_settings()[i].0
                    && *settings@[i].1 == self.font_settings()[i].1,
    {
        let mut settings: Vec<(DefaultFont, &Vec<String>)> = Vec::new();
        match &self.default_fonts.sans {
            Some(names) => {
                settings.push((DefaultFont::Sans, names));
            },
            None => {},
        }
        match &self.default_fonts.serif {
            Some(names) => {
                settings.push((DefaultFont::Serif, names));
            },
            None => {},
        }
        match &self.default_fonts.typewriter {
            Some(names) => {
                settings.push((DefaultFont::Typewriter, names));
            },
            None => {},
        }
        settings
    }
}

/// Why no player was built.
#[derive(Debug)]
pub enum BuildError {
    /// A panic has happened before: the state it left cannot be trusted.
    Panicking,
    /// The player could not be created, for the reason given.
    CreatingPlayer(String),
}

impl BuildError {
    /// The text of the error.
    pub open spec fn text(self) -> Seq<char> {
        match self {
            BuildError::Panicking => "Ruffle is panicking!"@,
            BuildError::CreatingPlayer(reason) => "Error creating player: "@ + reason@,
        }
    }

    /// The text of the error, as the host page sees it.
    pub fn message(&self) -> (message: String)
        ensures
            message@ == self.text(),
    {
        match self {
            BuildError::Panicking => String::from_str("Ruffle is panicking!"),
            BuildError::CreatingPlayer(reason) => String::from_str("Error creating player: ").concat(
                reason.as_str(),
            ),
        }
    }
}

/// Whether a player may be built: not once a panic has happened.
pub fn check_can_build(panicking: bool) -> (may: Result<(), BuildError>)
    ensures
        may == if panicking {
            Err::<(), BuildError>(BuildError::Panicking)
        } else {
            Ok::<(), BuildError>(())
        },
{
    if panicking {
        Err(BuildError::Panicking)
    } else {
        Ok(())
    }
}

/// The outcome of building, from the outcome of creating the player.
pub fn build_result<T>(created: Result<T, String>) -> (built: Result<T, BuildError>)
    ensures
        built == match created {
            Ok(player) => Ok::<T, BuildError>(player),
            Err(reason) => Err::<T, BuildError>(BuildError::CreatingPlayer(reason)),
        },
{
    match created {
        Ok(player) => Ok(player),
        Err(reason) => Err(BuildError::CreatingPlayer(reason)),
    }
}

} // verus!
