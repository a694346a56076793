//! The option words that commands take: time spans, warn and blacklist
//! modes, filter kinds, lock kinds, pin modes, switches and the commands
//! that can be disabled.
use vstd::prelude::*;
use crate::numparse::{dec, law_parse_u64_reads_dec, parse_u64, push_dec, spec_parse_u64};
use crate::text::{str_eq, string_of};

verus! {

/// A span of time: a number followed by `s`, `m`, `h` or `d`.
#[derive(PartialEq, Eq, Structural, Clone, Copy, Debug)]
pub enum TimeUnit {
    Seconds(u64),
    Minutes(u64),
    Hours(u64),
    Days(u64),
}

pub open spec fn spec_parse_time(s: Seq<char>) -> Option<TimeUnit> {
    if s.len() == 0 {
        None
    } else {
        match spec_parse_u64(s.drop_last()) {
            None => None,
            Some(n) => {
                let u = s.last();
                if u == 's' {
                    Some(TimeUnit::Seconds(n))
                } else if u == 'm' {
                    Some(TimeUnit::Minutes(n))
                } else if u == 'h' {
                    Some(TimeUnit::Hours(n))
                } else if u == 'd' {
                    Some(TimeUnit::Days(n))
                } else {
                    None
                }
            },
        }
    }
}

impl TimeUnit {
    pub fn parse(s: &str) -> (r: Option<TimeUnit>)
        ensures
            r == spec_parse_time(s@),
    {
        let n = s.unicode_len();
        if n == 0 {
            return None;
        }
        let num = s.substring_char(0, n - 1);
        assert(num@ == s@.drop_last());
        match parse_u64(num) {
            None => None,
            Some(v) => {
                let u = s.get_char(n - 1);
                if u == 's' {
                    Some(TimeUnit::Seconds(v))
                } else if u == 'm' {
                    Some(TimeUnit::Minutes(v))
                } else if u == 'h' {
                    Some(TimeUnit::Hours(v))
                } else if u == 'd' {
                    Some(TimeUnit::Days(v))
                } else {
                    None
                }
            },
        }
    }

    /// The length of the span in seconds.
    pub open spec fn seconds(self) -> int {
        match self {
            TimeUnit::Hours(t) => t * 3600,
            TimeUnit::Minutes(t) => t * 60,
            TimeUnit::Seconds(t) => t as int,
            TimeUnit::Days(t) => t * 3600 * 24,
        }
    }

    /// How the span is shown in replies and logs.
    pub open spec fn spec_text(self) -> Seq<char> {
        match self {
            TimeUnit::Seconds(t) => dec(t as nat) + " seconds"@,
            TimeUnit::Minutes(t) => dec(t as nat) + " minutes"@,
            TimeUnit::Hours(t) => dec(t as nat) + " hours"@,
            TimeUnit::Days(t) => dec(t as nat) + " days"@,
        }
    }

    pub fn text(&self) -> (r: String)
        ensures
            r@ == self.spec_text(),
    {
        let mut out = String::new();
        let (t, suffix) = match self {
            TimeUnit::Seconds(t) => (*t, " seconds"),
            TimeUnit::Minutes(t) => (*t, " minutes"),
            TimeUnit::Hours(t) => (*t, " hours"),
            TimeUnit::Days(t) => (*t, " days"),
        };
        push_dec(&mut out, t);
        out.append(suffix);
        assert(out@ == Seq::<char>::empty() + dec(t as nat) + suffix@);
        out
    }
}

/// A span written as a number and a unit reads back as that span.
pub proof fn law_time_span_reads_back(n: u64)
    ensures
        spec_parse_time(dec(n as nat).push('s')) == Some(TimeUnit::Seconds(n)),
        spec_parse_time(dec(n as nat).push('m')) == Some(TimeUnit::Minutes(n)),
        spec_parse_time(dec(n as nat).push('h')) == Some(TimeUnit::Hours(n)),
        spec_parse_time(dec(n as nat).push('d')) == Some(TimeUnit::Days(n)),
{
    law_parse_u64_reads_dec(n);
    assert(dec(n as nat).push('s').drop_last() == dec(n as nat));
    assert(dec(n as nat).push('m').drop_last() == dec(n as nat));
    assert(dec(n as nat).push('h').drop_last() == dec(n as nat));
    assert(dec(n as nat).push('d').drop_last() == dec(n as nat));
}

/// `get_time`: the span in seconds. The multiplication must not overflow.
pub fn get_time(unit: &TimeUnit) -> (r: u64)
    requires
        unit.seconds() <= u64::MAX,
    ensures
        r == unit.seconds(),
{
    match unit {
        TimeUnit::Hours(t) => t * 3600,
        TimeUnit::Minutes(t) => t * 60,
        TimeUnit::Seconds(t) => *t,
        TimeUnit::Days(t) => t * 3600 * 24,
    }
}

/// `get_time` where the multiplication may overflow: `None` then.
pub fn checked_time(unit: &TimeUnit) -> (r: Option<u64>)
    ensures
        r matches Some(v) ==> v == unit.seconds(),
        r is None <==> unit.seconds() > u64::MAX,
{
    match unit {
        TimeUnit::Hours(t) => t.checked_mul(3600),
        TimeUnit::Minutes(t) => t.checked_mul(60),
        TimeUnit::Seconds(t) => Some(*t),
        TimeUnit::Days(t) => t.checked_mul(86400),
    }
}

/// Whether reaching the warn limit kicks (soft) or bans (hard).
#[derive(PartialEq, Eq, Structural, Clone, Copy, Debug)]
pub enum WarnMode {
    Soft,
    Hard,
    Error,
}

pub open spec fn spec_parse_warn_mode(s: Seq<char>) -> WarnMode {
    if s == "soft"@ || s == "smooth"@ {
        WarnMode::Soft
    } else if s == "hard"@ || s == "strong"@ {
        WarnMode::Hard
    } else {
        WarnMode::Error
    }
}

impl WarnMode {
    pub fn parse(s: &str) -> (r: WarnMode)
        ensures
            r == spec_parse_warn_mode(s@),
    {
        if str_eq(s, "soft") || str_eq(s, "smooth") {
            WarnMode::Soft
        } else if str_eq(s, "hard") || str_eq(s, "strong") {
            WarnMode::Hard
        } else {
            WarnMode::Error
        }
    }
}

/// What the bot does to a member who uses a blacklisted word.
#[derive(PartialEq, Eq, Structural, Clone, Copy, Debug)]
pub enum BlacklistMode {
    Ban,
    Kick,
    Delete,
    Warn,
    Error,
}

pub open spec fn spec_parse_blacklist_mode(s: Seq<char>) -> BlacklistMode {
    if s == "ban"@ {
        BlacklistMode::Ban
    } else if s == "kick"@ {
        BlacklistMode::Kick
    } else if s == "delete"@ {
        BlacklistMode::Delete
    } else if s == "warn"@ {
        BlacklistMode::Warn
    } else {
        BlacklistMode::Error
    }
}

impl BlacklistMode {
    pub fn parse(s: &str) -> (r: BlacklistMode)
        ensures
            r == spec_parse_blacklist_mode(s@),
    {
        if str_eq(s, "ban") {
            BlacklistMode::Ban
        } else if str_eq(s, "kick") {
            BlacklistMode::Kick
        } else if str_eq(s, "delete") {
            BlacklistMode::Delete
        } else if str_eq(s, "warn") {
            BlacklistMode::Warn
        } else {
            BlacklistMode::Error
        }
    }

    /// The word stored for the mode.
    pub open spec fn spec_word(self) -> Seq<char> {
        match self {
            BlacklistMode::Ban => "ban"@,
            BlacklistMode::Kick => "kick"@,
            BlacklistMode::Delete => "delete"@,
            BlacklistMode::Warn => "warn"@,
            BlacklistMode::Error => "error"@,
        }
    }

    pub fn word(&self) -> (r: String)
        ensures
            r@ == self.spec_word(),
    {
        match self {
            BlacklistMode::Ban => string_of("ban"),
            BlacklistMode::Kick => string_of("kick"),
            BlacklistMode::Delete => string_of("delete"),
            BlacklistMode::Warn => string_of("warn"),
            BlacklistMode::Error => string_of("error"),
        }
    }
}

/// The kind of message a filter replies with.
#[derive(PartialEq, Eq, Structural, Clone, Copy, Debug)]
pub enum FilterType {
    Audio,
    Animation,
    Document,
    Photos,
    Sticker,
    Text,
    Video,
    Voice,
    Error,
}

pub open spec fn spec_parse_filter_type(s: Seq<char>) -> FilterType {
    if s == "audio"@ {
        FilterType::Audio
    } else if s == "animation"@ {
        FilterType::Animation
    } else if s == "document"@ {
        FilterType::Document
    } else if s == "photo"@ {
        FilterType::Photos
    } else if s == "sticker"@ {
        FilterType::Sticker
    } else if s == "text"@ {
        FilterType::Text
    } else if s == "video"@ {
        FilterType::Video
    } else if s == "voice"@ {
        FilterType::Voice
    } else {
        FilterType::Error
    }
}

impl FilterType {
    pub fn parse(s: &str) -> (r: FilterType)
        ensures
            r == spec_parse_filter_type(s@),
    {
        if str_eq(s, "audio") {
            FilterType::Audio
        } else if str_eq(s, "animation") {
            FilterType::Animation
        } else if str_eq(s, "document") {
            FilterType::Document
        } else if str_eq(s, "photo") {
            FilterType::Photos
        } else if str_eq(s, "sticker") {
            FilterType::Sticker
        } else if str_eq(s, "text") {
            FilterType::Text
        } else if str_eq(s, "video") {
            FilterType::Video
        } else if str_eq(s, "voice") {
            FilterType::Voice
        } else {
            FilterType::Error
        }
    }
}

/// What a lock or unlock applies to.
#[derive(PartialEq, Eq, Structural, Clone, Copy, Debug)]
pub enum LockType {
    Text,
    Other,
    Media,
    Poll,
    Web,
    Error,
}

pub open spec fn spec_parse_lock_type(s: Seq<char>) -> LockType {
    if s == "all"@ || s == "text"@ {
        LockType::Text
    } else if s == "sticker"@ || s == "gif"@ {
        LockType::Other
    } else if s == "media"@ {
        LockType::Media
    } else if s == "poll"@ {
        LockType::Poll
    } else if s == "url"@ || s == "web"@ {
        LockType::Web
    } else {
        LockType::Error
    }
}

impl LockType {
    pub fn parse(s: &str) -> (r: LockType)
        ensures
            r == spec_parse_lock_type(s@),
    {
        if str_eq(s, "all") || str_eq(s, "text") {
            LockType::Text
        } else if str_eq(s, "sticker") || str_eq(s, "gif") {
            LockType::Other
        } else if str_eq(s, "media") {
            LockType::Media
        } else if str_eq(s, "poll") {
            LockType::Poll
        } else if str_eq(s, "url") || str_eq(s, "web") {
            LockType::Web
        } else {
            LockType::Error
        }
    }
}

/// Whether a pin notifies the members.
#[derive(PartialEq, Eq, Structural, Clone, Copy, Debug)]
pub enum PinMode {
    Loud,
    Silent,
    Error,
}

pub open spec fn spec_parse_pin_mode(s: Seq<char>) -> PinMode {
    if s == "loud"@ || s == "hard"@ || s == "violent"@ {
        PinMode::Loud
    } else if s == "silent"@ {
        PinMode::Silent
    } else {
        PinMode::Error
    }
}

impl PinMode {
    pub fn parse(s: &str) -> (r: PinMode)
        ensures
            r == spec_parse_pin_mode(s@),
    {
        if str_eq(s, "loud") || str_eq(s, "hard") || str_eq(s, "violent") {
            PinMode::Loud
        } else if str_eq(s, "silent") {
            PinMode::Silent
        } else {
            PinMode::Error
        }
    }
}

/// An on/off switch, as `/reports` and `/gbanstat` take it.
#[derive(PartialEq, Eq, Structural, Clone, Copy, Debug)]
pub enum Switch {
    On,
    Off,
    Error,
}

pub open spec fn spec_parse_switch(s: Seq<char>) -> Switch {
    if s == "on"@ || s == "yes"@ {
        Switch::On
    } else if s == "off"@ || s == "no"@ {
        Switch::Off
    } else {
        Switch::Error
    }
}

impl Switch {
    pub fn parse(s: &str) -> (r: Switch)
        ensures
            r == spec_parse_switch(s@),
    {
        if str_eq(s, "on") || str_eq(s, "yes") {
            Switch::On
        } else if str_eq(s, "off") || str_eq(s, "no") {
            Switch::Off
        } else {
            Switch::Error
        }
    }
}

/// The commands a chat may disable.
pub open spec fn spec_disableable(s: Seq<char>) -> bool {
    s == "kickme"@ || s == "adminlist"@ || s == "ud"@ || s == "paste"@ || s == "start"@
}

pub fn is_disableable(s: &str) -> (r: bool)
    ensures
        r == spec_disableable(s@),
{
    str_eq(s, "kickme") || str_eq(s, "adminlist") || str_eq(s, "ud") || str_eq(s, "paste")
        || str_eq(s, "start")
}

} // verus!
