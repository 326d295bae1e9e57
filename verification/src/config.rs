//! The values that a player is configured with, and the names by which a
//! host page gives them.

use crate::text::same_text;
use std::str::FromStr;
use vstd::prelude::*;
use vstd::string::StringSliceAdditionalSpecFns;

verus! {

/// A colour with an alpha channel.
#[derive(Clone, Copy, Debug, PartialEq, Eq)]
pub struct Color {
    pub r: u8,
    pub g: u8,
    pub b: u8,
    pub a: u8,
}

impl Color {
    /// The colour that `rgb` holds in its low 24 bits, red highest, with the
    /// given alpha.
    pub open spec fn rgb_with_alpha(rgb: u32, alpha: u8) -> Color {
        Color {
            r: ((rgb >> 16) & 0xff) as u8,
            g: ((rgb >> 8) & 0xff) as u8,
            b: (rgb & 0xff) as u8,
            a: alpha,
        }
    }

    /// The colour that `rgb` holds in its low 24 bits, red highest, with the
    /// given alpha. The high 8 bits of `rgb` are ignored.
    pub fn from_rgb(rgb: u32, alpha: u8) -> (color: Color)
        ensures
            color == Color::rgb_with_alpha(rgb, alpha),
    {
        let r: u32 = (rgb >> 16) & 0xff;
        let g: u32 = (rgb >> 8) & 0xff;
        let b: u32 = rgb & 0xff;
        assert(r < 256 && g < 256 && b < 256) by (bit_vector)
            requires
                r == (rgb >> 16) & 0xff,
                g == (rgb >> 8) & 0xff,
                b == rgb & 0xff,
        ;
        Color { r: r as u8, g: g as u8, b: b as u8, a: alpha }
    }
}

/// Whether the stage is letterboxed.
#[derive(Clone, Copy, Debug, PartialEq, Eq)]
pub enum Letterbox {
    Off,
    Fullscreen,
    On,
}

impl Letterbox {
    /// The setting that a host page names `name`.
    pub open spec fn named(name: Seq<char>) -> Option<Letterbox> {
        if name == "off"@ {
            Some(Letterbox::Off)
        } else if name == "fullscreen"@ {
            Some(Letterbox::Fullscreen)
        } else if name == "on"@ {
            Some(Letterbox::On)
        } else {
            None
        }
    }

    /// The setting that a host page names `name`, if it is a name.
    pub fn from_name(name: &str) -> (found: Option<Letterbox>)
        ensures
            found == Letterbox::named(name@),
    {
        if same_text(name, "off") {
            Some(Letterbox::Off)
        } else if same_text(name, "fullscreen") {
            Some(Letterbox::Fullscreen)
        } else if same_text(name, "on") {
            Some(Letterbox::On)
        } else {
            None
        }
    }
}

/// Which rules for known content are applied.
#[derive(Clone, Copy, Debug, PartialEq, Eq)]
pub enum CompatibilityRules {
    /// The rules that the player ships with.
    Default,
    /// No rules.
    Empty,
}

/// The sides of the window that the stage is aligned to.
#[derive(Clone, Copy, Debug, PartialEq, Eq)]
pub struct StageAlign {
    pub top: bool,
    pub bottom: bool,
    pub left: bool,
    pub right: bool,
}

/// Whether `bytes` holds the ASCII letter whose upper case is `upper`, in
/// either case.
pub open spec fn has_letter(bytes: Seq<u8>, upper: u8) -> bool {
    exists|i: int| 0 <= i < bytes.len() && is_letter(#[trigger] bytes[i], upper)
}

/// Whether `byte` is the ASCII letter whose upper case is `upper`, in either
/// case.
pub open spec fn is_letter(byte: u8, upper: u8) -> bool {
    byte == upper || byte == upper + 32
}

impl StageAlign {
    /// No side.
    pub open spec fn none() -> StageAlign {
        StageAlign { top: false, bottom: false, left: false, right: false }
    }

    /// The sides whose letters (T, B, L, R, in either case) occur in a text
    /// with the given UTF-8 bytes. Other characters mean nothing, and a
    /// letter may occur more than once.
    pub open spec fn lettered(bytes: Seq<u8>) -> StageAlign {
        StageAlign {
            top: has_letter(bytes, 84),
            bottom: has_letter(bytes, 66),
            left: has_letter(bytes, 76),
            right: has_letter(bytes, 82),
        }
    }

    /// No side.
    pub fn empty() -> (align: StageAlign)
        ensures
            align == StageAlign::none(),
    {
        StageAlign { top: false, bottom: false, left: false, right: false }
    }

    /// The sides whose letters occur in `letters`.
    pub fn from_letters(letters: &str) -> (align: StageAlign)
        ensures
            align == StageAlign::lettered(letters.spec_bytes()),
    {
        let bytes = letters.as_bytes();
        let mut align = StageAlign::empty();
        let n = bytes.len();
        let mut i: usize = 0;
        while i < n
            invariant
                n == bytes@.len(),
                i <= n,
                align == StageAlign::lettered(bytes@.subrange(0, i as int)),
            decreases n - i,
        {
            let c = bytes[i];
            proof {
                let before = bytes@.subrange(0, i as int);
                let after = bytes@.subrange(0, i + 1);
                assert(after[i as int] == c);
                assert forall|upper: u8| #[trigger]
                    has_letter(after, upper) == (has_letter(before, upper) || is_letter(
                        c,
                        upper,
                    )) by {
                    if has_letter(before, upper) {
                        let j = choose|j: int|
                            0 <= j < before.len() && is_letter(#[trigger] before[j], upper);
                        assert(after[j] == before[j]);
                    }
                    if has_letter(after, upper) {
                        let j = choose|j: int|
                            0 <= j < after.len() && is_letter(#[trigger] after[j], upper);
                        if j < i {
                            assert(before[j] == after[j]);
                        }
                    }
                }
            }
            if c == 84 || c == 116 {
                align.top = true;
            } else if c == 66 || c == 98 {
                align.bottom = true;
            } else if c == 76 || c == 108 {
                align.left = true;
            } else if c == 82 || c == 114 {
                align.right = true;
            }
            i += 1;
        }
        assert(bytes@.subrange(0, n as int) =~= bytes@);
        align
    }
}

/// The quality at which the stage is drawn.
#[derive(Clone, Copy, Debug, PartialEq, Eq)]
pub enum StageQuality {
    Low,
    Medium,
    High,
    Best,
    High8x8,
    High8x8Linear,
    High16x16,
    High16x16Linear,
}

impl StageQuality {
    /// The quality that a host page names `name`.
    pub open spec fn named(name: Seq<char>) -> Option<StageQuality> {
        if name == "low"@ {
            Some(StageQuality::Low)
        } else if name == "medium"@ {
            Some(StageQuality::Medium)
        } else if name == "high"@ {
            Some(StageQuality::High)
        } else if name == "best"@ {
            Some(StageQuality::Best)
        } else if name == "8x8"@ {
            Some(StageQuality::High8x8)
        } else if name == "8x8linear"@ {
            Some(StageQuality::High8x8Linear)
        } else if name == "16x16"@ {
            Some(StageQuality::High16x16)
        } else if name == "16x16linear"@ {
            Some(StageQuality::High16x16Linear)
        } else {
            None
        }
    }

    /// The quality that a host page names `name`, if it is a name.
    pub fn from_name(name: &str) -> (found: Option<StageQuality>)
        ensures
            found == StageQuality::named(name@),
    {
        if same_text(name, "low") {
            Some(StageQuality::Low)
        } else if same_text(name, "medium") {
            Some(StageQuality::Medium)
        } else if same_text(name, "high") {
            Some(StageQuality::High)
        } else if same_text(name, "best") {
            Some(StageQuality::Best)
        } else if same_text(name, "8x8") {
            Some(StageQuality::High8x8)
        } else if same_text(name, "8x8linear") {
            Some(StageQuality::High8x8Linear)
        } else if same_text(name, "16x16") {
            Some(StageQuality::High16x16)
        } else if same_text(name, "16x16linear") {
            Some(StageQuality::High16x16Linear)
        } else {
            None
        }
    }
}

/// How the stage is scaled to the window.
#[derive(Clone, Copy, Debug, PartialEq, Eq)]
pub enum StageScaleMode {
    ExactFit,
    NoBorder,
    NoScale,
    ShowAll,
}

impl StageScaleMode {
    /// The mode that a host page names `name`.
    pub open spec fn named(name: Seq<char>) -> Option<StageScaleMode> {
        if name == "exactfit"@ {
            Some(StageScaleMode::ExactFit)
        } else if name == "noborder"@ {
            Some(StageScaleMode::NoBorder)
        } else if name == "noscale"@ {
            Some(StageScaleMode::NoScale)
        } else if name == "showall"@ {
            Some(StageScaleMode::ShowAll)
        } else {
            None
        }
    }

    /// The mode that a host page names `name`, if it is a name.
    pub fn from_name(name: &str) -> (found: Option<StageScaleMode>)
        ensures
            found == StageScaleMode::named(name@),
    {
        if same_text(name, "exactfit") {
            Some(StageScaleMode::ExactFit)
        } else if same_text(name, "noborder") {
            Some(StageScaleMode::NoBorder)
        } else if same_text(name, "noscale") {
            Some(StageScaleMode::NoScale)
        } else if same_text(name, "showall") {
            Some(StageScaleMode::ShowAll)
        } else {
            None
        }
    }
}

/// What happens when content asks to open a URL.
#[derive(Clone, Copy, Debug, PartialEq, Eq)]
pub enum OpenURLMode {
    Allow,
    Confirm,
    Deny,
}

impl OpenURLMode {
    /// The mode that a host page names `name`.
    pub open spec fn named(name: Seq<char>) -> Option<OpenURLMode> {
        if name == "allow"@ {
            Some(OpenURLMode::Allow)
        } else if name == "confirm"@ {
            Some(OpenURLMode::Confirm)
        } else if name == "deny"@ {
            Some(OpenURLMode::Deny)
        } else {
            None
        }
    }

    /// The mode that a host page names `name`, if it is a name.
    pub fn from_name(name: &str) -> (found: Option<OpenURLMode>)
        ensures
            found == OpenURLMode::named(name@),
    {
        if same_text(name, "allow") {
            Some(OpenURLMode::Allow)
        } else if same_text(name, "confirm") {
            Some(OpenURLMode::Confirm)
        } else if same_text(name, "deny") {
            Some(OpenURLMode::Deny)
        } else {
            None
        }
    }
}

/// Which network interfaces content may use.
#[derive(Clone, Copy, Debug, PartialEq, Eq)]
pub enum NetworkingAccessMode {
    /// Every networking interface may be used.
    All,
    /// Content may load media and data, but not open pages.
    Internal,
    /// No networking interface may be used; host pages name this "none".
    Off,
}

impl NetworkingAccessMode {
    /// The mode that a host page names `name`.
    pub open spec fn named(name: Seq<char>) -> Option<NetworkingAccessMode> {
        if name == "all"@ {
            Some(NetworkingAccessMode::All)
        } else if name == "internal"@ {
            Some(NetworkingAccessMode::Internal)
        } else if name == "none"@ {
            Some(NetworkingAccessMode::Off)
        } else {
            None
        }
    }

    /// The mode that a host page names `name`, if it is a name.
    pub fn from_name(name: &str) -> (found: Option<NetworkingAccessMode>)
        ensures
            found == NetworkingAccessMode::named(name@),
    {
        if same_text(name, "all") {
            Some(NetworkingAccessMode::All)
        } else if same_text(name, "internal") {
            Some(NetworkingAccessMode::Internal)
        } else if same_text(name, "none") {
            Some(NetworkingAccessMode::Off)
        } else {
            None
        }
    }
}

/// The runtime that the player stands in for.
#[derive(Clone, Copy, Debug, PartialEq, Eq)]
pub enum PlayerRuntime {
    FlashPlayer,
    AIR,
}

impl PlayerRuntime {
    /// The runtime that a host page names `name`.
    pub open spec fn named(name: Seq<char>) -> Option<PlayerRuntime> {
        if name == "air"@ {
            Some(PlayerRuntime::AIR)
        } else if name == "flashPlayer"@ {
            Some(PlayerRuntime::FlashPlayer)
        } else {
            None
        }
    }

    /// The runtime that a host page names `name`, if it is a name.
    pub fn from_name(name: &str) -> (found: Option<PlayerRuntime>)
        ensures
            found == PlayerRuntime::named(name@),
    {
        if same_text(name, "air") {
            Some(PlayerRuntime::AIR)
        } else if same_text(name, "flashPlayer") {
            Some(PlayerRuntime::FlashPlayer)
        } else {
            None
        }
    }
}

/// A font that content asks for by its generic name.
#[derive(Clone, Copy, Debug, PartialEq, Eq)]
pub enum DefaultFont {
    Sans,
    Serif,
    Typewriter,
}

impl DefaultFont {
    /// The font that a host page names `name`.
    pub open spec fn named(name: Seq<char>) -> Option<DefaultFont> {
        if name == "sans"@ {
            Some(DefaultFont::Sans)
        } else if name == "serif"@ {
            Some(DefaultFont::Serif)
        } else if name == "typewriter"@ {
            Some(DefaultFont::Typewriter)
        } else {
            None
        }
    }

    /// The font that a host page names `name`, if it is a name.
    pub fn from_name(name: &str) -> (found: Option<DefaultFont>)
        ensures
            found == DefaultFont::named(name@),
    {
        if same_text(name, "sans") {
            Some(DefaultFont::Sans)
        } else if same_text(name, "serif") {
            Some(DefaultFont::Serif)
        } else if same_text(name, "typewriter") {
            Some(DefaultFont::Typewriter)
        } else {
            None
        }
    }
}

/// A proxy through which content reaches a socket.
#[derive(Clone, Debug)]
pub struct SocketProxy {
    pub host: String,
    pub port: u16,
    pub proxy_url: String,
}

/// How much the player logs.
#[derive(Clone, Copy, Debug, PartialEq, Eq)]
pub enum LogLevel {
    Trace,
    Debug,
    Info,
    Warn,
    Error,
}

/// The level that the `tracing` crate reads from `text`, if it reads one.
pub uninterp spec fn parsed_level(text: Seq<char>) -> Option<LogLevel>;

impl LogLevel {
    /// The level that `name` is the lower-case name of, or the number of
    /// ("1" for errors only, up to "5" for everything).
    pub open spec fn named(name: Seq<char>) -> Option<LogLevel> {
        if name == "error"@ || name == "1"@ {
            Some(LogLevel::Error)
        } else if name == "warn"@ || name == "2"@ {
            Some(LogLevel::Warn)
        } else if name == "info"@ || name == "3"@ {
            Some(LogLevel::Info)
        } else if name == "debug"@ || name == "4"@ {
            Some(LogLevel::Debug)
        } else if name == "trace"@ || name == "5"@ {
            Some(LogLevel::Trace)
        } else {
            None
        }
    }
}

/// `tracing::Level::from_str`: the level that `text` names, which depends on
/// `text` alone. A lower-case name and a number from 1 to 5 give their
/// level; what else is read (names in other cases, numbers written
/// otherwise) is left to the name. The five levels of `tracing` are handed
/// on one for one.
#[verifier::external_body]
fn parse_level(text: &str) -> (level: Option<LogLevel>)
    ensures
        level == parsed_level(text@),
        LogLevel::named(text@) is Some ==> level == LogLevel::named(text@),
{
    match tracing::Level::from_str(text) {
        Ok(tracing::Level::ERROR) => Some(LogLevel::Error),
        Ok(tracing::Level::WARN) => Some(LogLevel::Warn),
        Ok(tracing::Level::INFO) => Some(LogLevel::Info),
        Ok(tracing::Level::DEBUG) => Some(LogLevel::Debug),
        Ok(tracing::Level::TRACE) => Some(LogLevel::Trace),
        Err(_) => None,
    }
}

impl LogLevel {
    /// The level that `text` names, if it names one.
    pub fn from_name(text: &str) -> (level: Option<LogLevel>)
        ensures
            level == parsed_level(text@),
            LogLevel::named(text@) is Some ==> level == LogLevel::named(text@),
    {
        parse_level(text)
    }
}

} // verus!
