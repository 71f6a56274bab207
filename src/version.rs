//! The Unicode version of the data, read from the `ReadMe.txt` header text.

use vstd::prelude::*;

use crate::emit::{push_str, value_text};
use crate::number::{decimal_text, decimal_value, is_decimal, parse_decimal_u16, push_decimal};
use crate::text::{chars_of, string_of};

verus! {

/// A Unicode version: major, minor and micro numbers.
#[derive(Clone, Copy, Debug, PartialEq, Eq, Structural, Hash)]
pub struct UnicodeVersion {
    pub major: u16,
    pub minor: u16,
    pub micro: u16,
}

/// Why no version could be read.
#[derive(Clone, Copy, Debug, PartialEq, Eq, Structural, Hash)]
pub enum VersionError {
    /// The text holds no `for Version MAJOR.MINOR.MICRO`.
    MissingVersion,
    /// One of the three numbers is not a decimal number that fits in a `u16`.
    InvalidNumber,
}

/// What the search for a pattern in a text gives: `None` where the pattern is
/// invalid or does not occur, else the text of each group of the first match
/// (`None` for a group that took no part in it), group 0 being the whole match.
pub uninterp spec fn captures_of(pattern: Seq<char>, text: Seq<char>) -> Option<Seq<Option<Seq<char>>>>;

/// The views of captured groups.
pub open spec fn group_views(g: Seq<Option<String>>) -> Seq<Option<Seq<char>>> {
    g.map_values(
        |x: Option<String>|
            match x {
                Some(s) => Some(s@),
                None => None,
            },
    )
}

/// Relies on `regex::Regex::new` and `regex::Regex::captures`: compiles `pattern`
/// and takes the groups of its first match in `text`, which depend on the two
/// texts alone.
#[verifier::external_body]
fn regex_captures(pattern: &str, text: &str) -> (r: Option<Vec<Option<String>>>)
    ensures
        match r {
            Some(g) => captures_of(pattern@, text@) == Some(group_views(g@)),
            None => captures_of(pattern@, text@) is None,
        },
{
    let re = regex::Regex::new(pattern).ok()?;
    let caps = re.captures(text)?;
    Some(caps.iter().map(|m| m.map(|m| m.as_str().to_string())).collect())
}

/// The pattern of the version line: three groups of digits.
pub open spec fn version_pattern() -> Seq<char> {
    "for Version (\\d+)\\.(\\d+)\\.(\\d+)"@
}

/// Group `i` as a number that fits in a `u16`, if it took part and is one.
pub open spec fn group_number(g: Seq<Option<Seq<char>>>, i: int) -> Option<u16> {
    if 0 <= i < g.len() && g[i] is Some && is_decimal(g[i]->0) && decimal_value(g[i]->0)
        <= u16::MAX as int {
        Some(decimal_value(g[i]->0) as u16)
    } else {
        None
    }
}

/// The version that captured groups give: groups 1, 2 and 3 are its numbers.
pub open spec fn version_of_groups(caps: Option<Seq<Option<Seq<char>>>>) -> Result<
    UnicodeVersion,
    VersionError,
> {
    match caps {
        None => Err(VersionError::MissingVersion),
        Some(g) => {
            if group_number(g, 1) is Some && group_number(g, 2) is Some && group_number(g, 3) is Some {
                Ok(
                    UnicodeVersion {
                        major: group_number(g, 1)->0,
                        minor: group_number(g, 2)->0,
                        micro: group_number(g, 3)->0,
                    },
                )
            } else {
                Err(VersionError::InvalidNumber)
            }
        },
    }
}

/// Group `i` read as a `u16`.
fn number_of_group(g: &Vec<Option<String>>, i: usize) -> (r: Option<u16>)
    ensures
        r == group_number(group_views(g@), i as int),
{
    if i >= g.len() {
        return None;
    }
    match &g[i] {
        None => None,
        Some(s) => {
            let c = chars_of(s.as_str());
            parse_decimal_u16(&c)
        },
    }
}

/// The version that the groups of a version-line match give.
pub fn version_from_captures(caps: Option<Vec<Option<String>>>) -> (r: Result<
    UnicodeVersion,
    VersionError,
>)
    ensures
        r == version_of_groups(
            match caps {
                Some(g) => Some(group_views(g@)),
                None => None,
            },
        ),
{
    match caps {
        None => Err(VersionError::MissingVersion),
        Some(g) => {
            let a = number_of_group(&g, 1);
            let b = number_of_group(&g, 2);
            let c = number_of_group(&g, 3);
            match (a, b, c) {
                (Some(major), Some(minor), Some(micro)) => Ok(UnicodeVersion { major, minor, micro }),
                _ => Err(VersionError::InvalidNumber),
            }
        },
    }
}

/// Reads the version from the first `for Version MAJOR.MINOR.MICRO` in `text`.
pub fn read_unicode_version(text: &str) -> (r: Result<UnicodeVersion, VersionError>)
    ensures
        r == version_of_groups(captures_of(version_pattern(), text@)),
{
    let caps = regex_captures("for Version (\\d+)\\.(\\d+)\\.(\\d+)", text);
    version_from_captures(caps)
}

/// A version as a struct literal: `UnicodeVersion { major: 1, minor: 2, micro: 3 }`.
pub open spec fn version_literal(v: UnicodeVersion) -> Seq<char> {
    "UnicodeVersion { major: "@ + decimal_text(v.major as nat) + ", minor: "@ + decimal_text(
        v.minor as nat,
    ) + ", micro: "@ + decimal_text(v.micro as nat) + " }"@
}

/// Renders a version as a struct literal.
pub fn format_unicode_version(v: &UnicodeVersion) -> (r: String)
    ensures
        r@ == version_literal(*v),
{
    let mut out: Vec<char> = Vec::new();
    push_str(&mut out, "UnicodeVersion { major: ");
    push_decimal(&mut out, v.major as u32);
    push_str(&mut out, ", minor: ");
    push_decimal(&mut out, v.minor as u32);
    push_str(&mut out, ", micro: ");
    push_decimal(&mut out, v.micro as u32);
    push_str(&mut out, " }");
    proof {
        assert(out@ =~= version_literal(*v));
    }
    string_of(&out)
}

/// Appends the banner and the version as a struct literal.
pub fn emit_unicode_version(script: &str, output: &mut String, version: &UnicodeVersion)
    ensures
        final(output)@ == old(output)@ + value_text(script@, version_literal(*version)),
{
    let v = format_unicode_version(version);
    crate::emit::emit_value(script, output, v.as_str());
}

/// The name that generated files give as their source.
pub open spec fn generator_name() -> Seq<char> {
    "unic_ucd_gen"@
}

/// The version file that generation writes, made from the `ReadMe.txt` text:
/// the banner and the version, or the reason why no version could be read.
pub fn run(readme: &str) -> (r: Result<String, VersionError>)
    ensures
        match version_of_groups(captures_of(version_pattern(), readme@)) {
            Ok(v) => r matches Ok(s) && s@ == value_text(generator_name(), version_literal(v)),
            Err(e) => r == Err::<String, VersionError>(e),
        },
{
    match read_unicode_version(readme) {
        Ok(v) => {
            let mut out = String::new();
            emit_unicode_version("unic_ucd_gen", &mut out, &v);
            Ok(out)
        },
        Err(e) => Err(e),
    }
}

} // verus!
