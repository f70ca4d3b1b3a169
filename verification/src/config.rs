//! Application settings: the display name derived from the package's
//! short name, and the shortcut combination read from a one-key settings
//! document, with a fixed default when it is absent.
//!
//! Reading and writing the settings file is the surrounding program's
//! job; this module computes the document to write on first run and the
//! shortcut a given document configures.

use vstd::prelude::*;
use vstd::string::*;

verus! {

/// The shortcut combination used when the settings supply none.
pub const DEFAULT_MUTE_KEYS: &'static str = "CMD+SHIFT+M";

/// A malformed or unwritable settings document.
#[derive(Clone, Copy, Debug, PartialEq, Eq, Structural)]
pub struct ConfigError;

/// The uppercase mapping of a character, which may be more than one
/// character long.
pub uninterp spec fn upper_of(c: char) -> Seq<char>;

/// Relies on char::to_uppercase: the Unicode uppercase mapping, a
/// function of the character alone.
#[verifier::external_body]
fn char_upper(c: char) -> (r: String)
    ensures
        r@ == upper_of(c),
{
    c.to_uppercase().collect()
}

/// A word with its first character mapped to uppercase; the empty word
/// stays empty.
pub open spec fn capitalized(s: Seq<char>) -> Seq<char> {
    if s.len() == 0 {
        Seq::empty()
    } else {
        upper_of(s[0]) + s.subrange(1, s.len() as int)
    }
}

/// Uppercases the first character of `s`, leaving the rest as it is.
pub fn capitalize(s: &str) -> (r: String)
    ensures
        r@ == capitalized(s@),
{
    let n = s.unicode_len();
    if n == 0 {
        String::new()
    } else {
        let c = s.get_char(0);
        let up = char_upper(c);
        let rest = s.substring_char(1, n);
        up.concat(rest)
    }
}

/// The display name derived from a dashed short name, one character at a
/// time: each dash becomes a space, and a character that starts a word —
/// the first one, or one right after a dash — is uppercased.
pub open spec fn title_chars(s: Seq<char>, word_start: bool) -> Seq<char>
    decreases s.len(),
{
    if s.len() == 0 {
        Seq::empty()
    } else if s[0] == '-' {
        seq![' '] + title_chars(s.skip(1), true)
    } else if word_start {
        upper_of(s[0]) + title_chars(s.skip(1), false)
    } else {
        seq![s[0]] + title_chars(s.skip(1), false)
    }
}

/// The display name of a dashed short name: its words capitalized and
/// joined with spaces.
pub open spec fn display_name(s: Seq<char>) -> Seq<char> {
    title_chars(s, true)
}

/// Turns a dashed short name into its display name: dashes become
/// spaces, and each word is capitalized.
pub fn display_name_from(shortname: &str) -> (r: String)
    ensures
        r@ == display_name(shortname@),
{
    let ghost sv: Seq<char> = shortname@;
    let n = shortname.unicode_len();
    let mut r = String::new();
    let mut i: usize = 0;
    let mut word_start: bool = true;
    proof {
        assert(sv.skip(0) =~= sv);
    }
    while i < n
        invariant
            n == sv.len(),
            sv == shortname@,
            i <= n,
            r@ + title_chars(sv.skip(i as int), word_start) == title_chars(sv, true),
        decreases n - i,
    {
        let ghost pre: Seq<char> = sv.skip(i as int);
        proof {
            assert(pre.len() > 0);
            assert(pre[0] == sv[i as int]);
            assert(pre.skip(1) =~= sv.skip(i as int + 1));
        }
        let c = shortname.get_char(i);
        if c == '-' {
            proof {
                reveal_strlit(" ");
                assert(" "@ =~= seq![' ']);
            }
            r.append(" ");
            word_start = true;
        } else if word_start {
            let up = char_upper(c);
            r.append(up.as_str());
            word_start = false;
        } else {
            let one = shortname.substring_char(i, i + 1);
            proof {
                assert(one@ =~= seq![sv[i as int]]);
            }
            r.append(one);
            word_start = false;
        }
        i = i + 1;
    }
    proof {
        assert(sv.skip(n as int) =~= Seq::<char>::empty());
    }
    r
}

/// The configured shortcut, or the default combination when the settings
/// supplied none.
pub fn resolve_shortcut(cfg: Option<String>) -> (r: String)
    ensures
        match cfg {
            Some(v) => r@ == v@,
            None => r@ == DEFAULT_MUTE_KEYS@,
        },
{
    match cfg {
        Some(v) => v,
        None => String::from_str(DEFAULT_MUTE_KEYS),
    }
}

/// Declares toml::ser::Error, the error toml's serializer returns, so a
/// wrapper can hand it through; the library maps it to [`ConfigError`].
#[verifier::external_type_specification]
#[verifier::external_body]
pub struct ExTomlSerError(toml::ser::Error);

/// The settings document that maps one key to one string value.
pub uninterp spec fn toml_kv(key: Seq<char>, value: Seq<char>) -> Seq<char>;

/// The string value a settings document holds under a key, if the
/// document parses as a string-to-string table that has the key.
pub uninterp spec fn settings_value_of(content: Seq<char>, key: Seq<char>) -> Option<Seq<char>>;

/// Relies on toml::to_string: serializes a one-entry string-to-string
/// map; for given key and value the document is always the same. Its
/// error paths concern only non-string keys, unsupported value types and
/// dates, and writing into a String cannot fail, so on a string-to-string
/// entry serialization always succeeds.
#[verifier::external_body]
fn toml_encode_kv(key: &str, value: &str) -> (r: Result<String, toml::ser::Error>)
    ensures
        r is Ok,
        r matches Ok(s) ==> s@ == toml_kv(key@, value@),
{
    let mut entries = std::collections::HashMap::new();
    entries.insert(key, value);
    toml::to_string(&entries)
}

/// Relies on toml::from_str: parses the document as a string-to-string
/// table and hands out the value under the key; `None` when the document
/// does not parse as such a table or the key is absent.
#[verifier::external_body]
fn toml_lookup(content: &str, key: &str) -> (r: Option<String>)
    ensures
        r matches Some(v) ==> settings_value_of(content@, key@) == Some(v@),
        r is None ==> settings_value_of(content@, key@) is None,
{
    let table: std::collections::HashMap<String, String> = match toml::from_str(content) {
        Ok(t) => t,
        Err(_) => {
            return None;
        },
    };
    table.get(key).cloned()
}

/// The settings document materialized on first run: the given shortcut
/// under the `shortcut` key.
pub fn default_settings_content(shortcut: &str) -> (r: Result<String, ConfigError>)
    ensures
        r is Ok,
        r matches Ok(s) ==> s@ == toml_kv("shortcut"@, shortcut@),
{
    match toml_encode_kv("shortcut", shortcut) {
        Ok(s) => Ok(s),
        Err(_) => Err(ConfigError),
    }
}

/// The shortcut a settings document configures: the value under the
/// `shortcut` key, or the default combination when the document is
/// malformed or has no such key.
pub fn shortcut_from_settings(content: &str) -> (r: String)
    ensures
        match settings_value_of(content@, "shortcut"@) {
            Some(v) => r@ == v,
            None => r@ == DEFAULT_MUTE_KEYS@,
        },
{
    resolve_shortcut(toml_lookup(content, "shortcut"))
}

/// Application metadata and settings, assembled at startup.
pub struct AppVars {
    pub name: String,
    pub shortname: &'static str,
    pub version: &'static str,
    pub description: &'static str,
    pub repository: &'static str,
    pub license: &'static str,
    pub authors: Vec<String>,
    pub shortcut: String,
}

impl AppVars {
    /// Assembles the application variables from the package metadata and
    /// the configured shortcut, if any: the display name is derived from
    /// the short name, and a missing shortcut falls back to the default.
    pub fn assemble(
        shortname: &'static str,
        version: &'static str,
        description: &'static str,
        repository: &'static str,
        license: &'static str,
        authors: Vec<String>,
        cfg_shortcut: Option<String>,
    ) -> (v: AppVars)
        ensures
            v.name@ == display_name(shortname@),
            v.shortname == shortname,
            v.version == version,
            v.description == description,
            v.repository == repository,
            v.license == license,
            v.authors == authors,
            match cfg_shortcut {
                Some(s) => v.shortcut@ == s@,
                None => v.shortcut@ == DEFAULT_MUTE_KEYS@,
            },
    {
        let name = display_name_from(shortname);
        let shortcut = resolve_shortcut(cfg_shortcut);
        AppVars { name, shortname, version, description, repository, license, authors, shortcut }
    }
}

} // verus!
