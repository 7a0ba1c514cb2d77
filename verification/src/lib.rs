//! Crash analysis of Windows minidumps: the report model, its text
//! rendering, register and symbol naming, and the decisions of the analysis
//! and of symbol fetching, each proved against its specification.
pub mod text;
pub mod platform;
pub mod symbols;
pub mod analyzer;
pub mod channel;
pub mod mcp;
pub mod dump;

use vstd::prelude::*;
use vstd::string::*;

use crate::platform::{str_to_lowercase, unicode_lowercase};
use crate::symbols::{all_ascii, all_ascii_exec, ascii_lower, ascii_upper, is_ascii_char};
use crate::text::{chars_of, str_eq};

verus! {

/// The platform a dump comes from; it selects how the dump is analysed.
#[derive(Clone, Copy, PartialEq, Eq, Debug, Structural)]
pub enum Channel {
    Pc,
    Android,
    Ios,
}

/// ASCII upper-casing of every character of `s`.
pub open spec fn ascii_uppercase_seq(s: Seq<char>) -> Seq<char> {
    s.map_values(|c: char| ascii_upper(c))
}

/// ASCII lower-casing of every character of `s`.
pub open spec fn ascii_lowercase_seq(s: Seq<char>) -> Seq<char> {
    s.map_values(|c: char| ascii_lower(c))
}

/// The lower-cased spelling of a channel name: ASCII lower-casing for an
/// ASCII name, the Unicode mapping of `str::to_lowercase` otherwise.
pub open spec fn channel_lowercase(s: Seq<char>) -> Seq<char> {
    if all_ascii(s) {
        ascii_lowercase_seq(s)
    } else {
        unicode_lowercase(s)
    }
}

/// The channel that a lower-cased name stands for, with its aliases.
pub open spec fn channel_of_name(l: Seq<char>) -> Option<Channel> {
    if l == "pc"@ || l == "windows"@ || l == "win"@ {
        Some(Channel::Pc)
    } else if l == "android"@ || l == "aos"@ {
        Some(Channel::Android)
    } else if l == "ios"@ {
        Some(Channel::Ios)
    } else {
        None
    }
}

/// The message for a name that is no channel; it quotes the name as given.
pub open spec fn channel_error(raw: Seq<char>) -> Seq<char> {
    "不支持的渠道: \""@ + raw + "\"，可选: pc (windows/win), android (aos), ios"@
}

/// What parsing the lower-cased name `lower` of the input `raw` gives.
pub open spec fn channel_parse_spec(lower: Seq<char>, raw: Seq<char>) -> Result<Channel, Seq<char>> {
    match channel_of_name(lower) {
        Some(c) => Ok(c),
        None => Err(channel_error(raw)),
    }
}

/// View of a parse result.
pub open spec fn channel_result_view(r: Result<Channel, String>) -> Result<Channel, Seq<char>> {
    match r {
        Ok(c) => Ok(c),
        Err(e) => Err(e@),
    }
}

/// The serialized name of a channel (`pc`, `android`, `ios`).
pub open spec fn channel_name(c: Channel) -> Seq<char> {
    match c {
        Channel::Pc => "pc"@,
        Channel::Android => "android"@,
        Channel::Ios => "ios"@,
    }
}

/// The `{:?}` spelling of a channel (`Pc`, `Android`, `Ios`).
pub open spec fn channel_debug_spec(c: Channel) -> Seq<char> {
    match c {
        Channel::Pc => "Pc"@,
        Channel::Android => "Android"@,
        Channel::Ios => "Ios"@,
    }
}

/// ASCII lower case of one ASCII character.
fn ascii_lower_exec(c: char) -> (r: char)
    requires
        is_ascii_char(c),
    ensures
        r == ascii_lower(c),
{
    if 'A' <= c && c <= 'Z' {
        let u = c as u32;
        ((u + 32) as u8) as char
    } else {
        c
    }
}

/// ASCII lower-casing of an ASCII string.
fn ascii_lowercase(s: &str) -> (r: String)
    requires
        all_ascii(s@),
    ensures
        r@ == ascii_lowercase_seq(s@),
{
    let v = chars_of(s);
    let mut out = String::new();
    let mut i: usize = 0;
    while i < v.len()
        invariant
            v@ == s@,
            all_ascii(s@),
            i <= v.len(),
            out@ == s@.take(i as int).map_values(|c: char| ascii_lower(c)),
        decreases v.len() - i,
    {
        assert(is_ascii_char(v@[i as int]));
        out.push(ascii_lower_exec(v[i]));
        i = i + 1;
        assert(out@ =~= s@.take(i as int).map_values(|c: char| ascii_lower(c)));
    }
    assert(s@.take(i as int) =~= s@);
    assert(out@ =~= ascii_lowercase_seq(s@));
    out
}

impl Channel {
    /// Picks the channel that the lower-cased name `lower` stands for; the
    /// error message quotes `raw`, the name as the user gave it.
    pub fn from_lowercase(lower: &str, raw: &str) -> (r: Result<Channel, String>)
        ensures
            channel_result_view(r) == channel_parse_spec(lower@, raw@),
    {
        proof {
            reveal_strlit("pc");
            reveal_strlit("windows");
            reveal_strlit("win");
            reveal_strlit("android");
            reveal_strlit("aos");
            reveal_strlit("ios");
        }
        if str_eq(lower, "pc") || str_eq(lower, "windows") || str_eq(lower, "win") {
            Ok(Channel::Pc)
        } else if str_eq(lower, "android") || str_eq(lower, "aos") {
            Ok(Channel::Android)
        } else if str_eq(lower, "ios") {
            Ok(Channel::Ios)
        } else {
            let mut e = String::new();
            e.append("不支持的渠道: \"");
            e.append(raw);
            e.append("\"，可选: pc (windows/win), android (aos), ios");
            Err(e)
        }
    }

    /// Parses a channel name, case-insensitively, with its aliases:
    /// `pc`/`windows`/`win`, `android`/`aos`, `ios`.
    pub fn parse(s: &str) -> (r: Result<Channel, String>)
        ensures
            channel_result_view(r) == channel_parse_spec(channel_lowercase(s@), s@),
    {
        let v = chars_of(s);
        let lower = if all_ascii_exec(&v) {
            ascii_lowercase(s)
        } else {
            str_to_lowercase(s)
        };
        Channel::from_lowercase(lower.as_str(), s)
    }

    /// The `{:?}` spelling of the channel.
    pub fn debug_name(self) -> (r: &'static str)
        ensures
            r@ == channel_debug_spec(self),
    {
        match self {
            Channel::Pc => "Pc",
            Channel::Android => "Android",
            Channel::Ios => "Ios",
        }
    }
}

impl std::str::FromStr for Channel {
    type Err = String;

    /// Parses a channel name as `Channel::parse` does.
    fn from_str(s: &str) -> (r: Result<Self, Self::Err>)
        ensures
            channel_result_view(r) == channel_parse_spec(channel_lowercase(s@), s@),
    {
        Channel::parse(s)
    }
}

/// How much progress output the analysis prints.
#[derive(Clone, Copy, PartialEq, Eq, Debug, Structural)]
pub enum Verbosity {
    Quiet,
    Normal,
    Verbose,
}

impl Verbosity {
    /// True exactly for the quiet level.
    pub fn is_silent(self) -> (r: bool)
        ensures
            r == (self == Verbosity::Quiet),
    {
        match self {
            Verbosity::Quiet => true,
            _ => false,
        }
    }
}

// ── laws ──────────────────────────────────────────────────────────────

/// The serialized name of every channel parses back to that channel.
pub proof fn lemma_channel_name_roundtrip(c: Channel)
    ensures
        channel_of_name(channel_name(c)) == Some(c),
{
    reveal_strlit("pc");
    reveal_strlit("windows");
    reveal_strlit("win");
    reveal_strlit("android");
    reveal_strlit("aos");
    reveal_strlit("ios");
    match c {
        Channel::Pc => {},
        Channel::Android => {
            assert("android"@[0] != "pc"@[0]);
            assert("android"@[0] != "windows"@[0]);
            assert("android"@.len() != "win"@.len());
        },
        Channel::Ios => {
            assert("ios"@.len() != "pc"@.len());
            assert("ios"@.len() != "windows"@.len());
            assert("ios"@[0] != "win"@[0]);
            assert("ios"@.len() != "android"@.len());
            assert("ios"@[0] != "aos"@[0]);
        },
    }
}

/// Parsing an ASCII name ignores letter case: two ASCII names that differ
/// only in case parse to the same channel.
pub proof fn lemma_channel_parse_case_insensitive(s: Seq<char>, t: Seq<char>)
    requires
        all_ascii(s),
        all_ascii(t),
        ascii_lowercase_seq(s) == ascii_lowercase_seq(t),
    ensures
        channel_of_name(channel_lowercase(s)) == channel_of_name(channel_lowercase(t)),
{
}

/// Parsing an ASCII name ignores letter case: the name upper-cased or
/// lower-cased (ASCII case maps) stands for the same channel as the name.
pub proof fn lemma_channel_parse_ignores_ascii_case(s: Seq<char>)
    requires
        all_ascii(s),
    ensures
        channel_of_name(channel_lowercase(ascii_uppercase_seq(s))) == channel_of_name(
            channel_lowercase(s),
        ),
        channel_of_name(channel_lowercase(ascii_lowercase_seq(s))) == channel_of_name(
            channel_lowercase(s),
        ),
{
    let up = ascii_uppercase_seq(s);
    let low = ascii_lowercase_seq(s);
    assert forall|i: int| 0 <= i < s.len() implies is_ascii_char(#[trigger] up[i]) && ascii_lower(
        up[i],
    ) == ascii_lower(s[i]) && is_ascii_char(low[i]) && ascii_lower(low[i]) == ascii_lower(s[i]) by {
        let c = s[i];
        assert(is_ascii_char(c));
        if 'a' <= c <= 'z' {
            assert((((c as int) - 32) as char) as int == (c as int) - 32);
        }
        if 'A' <= c <= 'Z' {
            assert((((c as int) + 32) as char) as int == (c as int) + 32);
        }
    }
    assert(ascii_lowercase_seq(up) =~= low);
    assert(ascii_lowercase_seq(low) =~= low);
}


/// The channel names and their aliases: `pc`, `windows` and `win` stand
/// for PC dumps, `android` and `aos` for Android, `ios` for iOS, and no
/// other lower-cased name stands for a channel; a name that is none of
/// them is refused with a message that quotes it as given.
pub proof fn lemma_channel_aliases(l: Seq<char>, raw: Seq<char>)
    ensures
        channel_of_name("pc"@) == Some(Channel::Pc),
        channel_of_name("windows"@) == Some(Channel::Pc),
        channel_of_name("win"@) == Some(Channel::Pc),
        channel_of_name("android"@) == Some(Channel::Android),
        channel_of_name("aos"@) == Some(Channel::Android),
        channel_of_name("ios"@) == Some(Channel::Ios),
        channel_of_name(l) is Some ==> l == "pc"@ || l == "windows"@ || l == "win"@ || l == "android"@
            || l == "aos"@ || l == "ios"@,
        channel_of_name(l) is None ==> channel_parse_spec(l, raw) == Err::<Channel, Seq<char>>(
            "不支持的渠道: \""@ + raw + "\"，可选: pc (windows/win), android (aos), ios"@,
        ),
        channel_of_name(l) matches Some(c) ==> channel_parse_spec(l, raw) == Ok::<Channel, Seq<char>>(c),
{
    reveal_strlit("pc");
    reveal_strlit("windows");
    reveal_strlit("win");
    reveal_strlit("android");
    reveal_strlit("aos");
    reveal_strlit("ios");
    assert("windows"@ != "pc"@) by { assert("windows"@.len() != "pc"@.len()); }
    assert("win"@ != "pc"@) by { assert("win"@.len() != "pc"@.len()); }
    assert("aos"@ != "pc"@) by { assert("aos"@.len() != "pc"@.len()); }
    assert("aos"@ != "windows"@) by { assert("aos"@.len() != "windows"@.len()); }
    assert("aos"@ != "win"@) by { assert("aos"@[0] != "win"@[0]); }
    assert("android"@ != "pc"@) by { assert("android"@.len() != "pc"@.len()); }
    assert("android"@ != "windows"@) by { assert("android"@[0] != "windows"@[0]); }
    assert("android"@ != "win"@) by { assert("android"@.len() != "win"@.len()); }
    lemma_channel_name_roundtrip(Channel::Ios);
}


/// The `{:?}` spelling of each channel is its variant's name, and the
/// serialized name is its lower-case name.
pub proof fn lemma_channel_spellings()
    ensures
        channel_debug_spec(Channel::Pc) == "Pc"@,
        channel_debug_spec(Channel::Android) == "Android"@,
        channel_debug_spec(Channel::Ios) == "Ios"@,
        channel_name(Channel::Pc) == "pc"@,
        channel_name(Channel::Android) == "android"@,
        channel_name(Channel::Ios) == "ios"@,
{
}

} // verus!
