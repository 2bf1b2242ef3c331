//! Profiles: named client configurations read from the profile file.
use vstd::prelude::*;

use crate::oauth2::{home_dir, pairs_view, GrantType, OAuth2Config, grant_type_of};
use crate::request::map_of;

verus! {

/// Why a profile configuration could not be used.
pub enum InvalidConfig {
    /// A field that every profile needs is absent (or unusable); holds its name.
    MissingFields(String),
    /// The profile file could not be read or parsed; holds the cause.
    IniFileError(String),
    /// The grant type named in a profile is not one this client knows.
    InvalidGrantType(String),
}

/// The text shown to the user for `e`.
pub open spec fn invalid_config_message(e: InvalidConfig) -> Seq<char> {
    match e {
        InvalidConfig::MissingFields(s) => "Missing Configuration Field. Check Your Profile Configuration: "@ + s@,
        InvalidConfig::IniFileError(s) => "Configuration Error. Check Your Profile Configuration: "@ + s@,
        InvalidConfig::InvalidGrantType(s) => "Invalid GrantType: "@ + s@,
    }
}

impl InvalidConfig {
    /// The text shown to the user for this error.
    pub fn message(&self) -> (r: String)
        ensures
            r@ == invalid_config_message(*self),
    {
        let (mut r, detail) = match self {
            InvalidConfig::MissingFields(s) => (
                String::from_str("Missing Configuration Field. Check Your Profile Configuration: "),
                s,
            ),
            InvalidConfig::IniFileError(s) => (
                String::from_str("Configuration Error. Check Your Profile Configuration: "),
                s,
            ),
            InvalidConfig::InvalidGrantType(s) => (String::from_str("Invalid GrantType: "), s),
        };
        r.append(detail.as_str());
        r
    }
}

/// A named profile.
pub struct Profile {
    pub name: String,
}

/// The profile file under the home directory `home`.
pub open spec fn config_file_spec(home: Seq<char>) -> Seq<char> {
    home + "/.aurl/profiles"@
}

impl Profile {
    pub fn new(name: &str) -> (r: Profile)
        ensures
            r.name@ == name@,
    {
        Profile { name: String::from_str(name) }
    }

    /// The profile file under the home directory `home`.
    pub fn config_file_in(home: &str) -> (r: String)
        ensures
            r@ == config_file_spec(home@),
    {
        let mut r = String::from_str(home);
        r.append("/.aurl/profiles");
        r
    }

    /// The profile file under the current user's home directory, if known.
    pub fn config_file() -> (r: Option<String>)
        ensures
            r matches Some(p) ==> exists|home: Seq<char>| p@ == config_file_spec(home),
    {
        match home_dir() {
            Some(h) => Some(Profile::config_file_in(h.as_str())),
            None => None,
        }
    }
}

/// The value of `key` in a section's entries; a later entry replaces an
/// earlier one of the same key.
pub open spec fn section_value(entries: Seq<(String, String)>, key: Seq<char>) -> Option<Seq<char>> {
    let m = map_of(pairs_view(entries));
    if m.dom().contains(key) {
        Some(m[key])
    } else {
        None
    }
}

/// The view of an optional string.
pub open spec fn opt_view(o: Option<String>) -> Option<Seq<char>> {
    match o {
        Some(s) => Some(s@),
        None => None,
    }
}

/// The grant type a section names, when it names one this client knows.
pub open spec fn section_grant(entries: Seq<(String, String)>) -> Option<GrantType> {
    match section_value(entries, "grant_type"@) {
        Some(g) => grant_type_of(g),
        None => None,
    }
}

/// `c` is the configuration the section `entries` describes.
pub open spec fn config_of(entries: Seq<(String, String)>, c: OAuth2Config) -> bool {
    &&& Some(c.grant_type) == section_grant(entries)
    &&& opt_view(c.auth_server_auth_endpoint) == section_value(entries, "auth_server_auth_endpoint"@)
    &&& opt_view(c.auth_server_token_endpoint) == section_value(entries, "auth_server_token_endpoint"@)
    &&& opt_view(c.client_id) == section_value(entries, "client_id"@)
    &&& opt_view(c.client_secret) == section_value(entries, "client_secret"@)
    &&& opt_view(c.username) == section_value(entries, "username"@)
    &&& opt_view(c.password) == section_value(entries, "password"@)
    &&& opt_view(c.scopes) == section_value(entries, "scopes"@)
    &&& opt_view(c.redirect) == section_value(entries, "redirect"@)
    &&& opt_view(c.default_content_type) == section_value(entries, "default_content_type"@)
    &&& opt_view(c.default_user_agent) == section_value(entries, "default_user_agent"@)
    &&& opt_view(c.default_auth_header_template) == section_value(entries, "default_auth_header_template"@)
}

proof fn lemma_map_of_tail_free(s: Seq<(Seq<char>, Seq<char>)>, k: Seq<char>, i: int)
    requires
        0 <= i <= s.len(),
        forall|j: int| i <= j < s.len() ==> s[j].0 != k,
    ensures
        map_of(s).dom().contains(k) == map_of(s.subrange(0, i)).dom().contains(k),
        map_of(s)[k] == map_of(s.subrange(0, i))[k],
    decreases s.len() - i,
{
    if i < s.len() {
        lemma_map_of_tail_free(s.drop_last(), k, i);
        assert(s.drop_last().subrange(0, i) =~= s.subrange(0, i));
    } else {
        assert(s.subrange(0, i) =~= s);
    }
}

/// The value of `key` in `entries`, the last entry of that key winning.
pub fn lookup(entries: &Vec<(String, String)>, key: &str) -> (r: Option<String>)
    ensures
        opt_view(r) == section_value(entries@, key@),
{
    let ghost s = pairs_view(entries@);
    let mut i: usize = entries.len();
    while i > 0
        invariant
            i <= entries@.len(),
            s == pairs_view(entries@),
            forall|j: int| i <= j < entries@.len() ==> s[j].0 != key@,
        decreases i,
    {
        let k = i - 1;
        if crate::text::eq_str(entries[k].0.as_str(), key) {
            proof {
                lemma_map_of_tail_free(s, key@, k + 1);
                assert(s.subrange(0, k + 1).drop_last() =~= s.subrange(0, k as int));
            }
            return Some(entries[k].1.clone());
        }
        i = k;
    }
    proof {
        lemma_map_of_tail_free(s, key@, 0);
    }
    None
}

/// The configuration a profile section describes. Fails, naming the field,
/// when the section names no grant type this client knows.
pub fn config_from_section(entries: &Vec<(String, String)>) -> (r: Result<OAuth2Config, InvalidConfig>)
    ensures
        match section_grant(entries@) {
            Some(_) => r is Ok && config_of(entries@, r->Ok_0),
            None => r matches Err(InvalidConfig::MissingFields(m)) && m@ == "grant_type"@,
        },
{
    let grant_type = match lookup(entries, "grant_type") {
        Some(g) => match GrantType::from_str(g.as_str()) {
            Ok(t) => t,
            Err(_) => return Err(InvalidConfig::MissingFields(String::from_str("grant_type"))),
        },
        None => return Err(InvalidConfig::MissingFields(String::from_str("grant_type"))),
    };
    Ok(OAuth2Config {
        auth_server_auth_endpoint: lookup(entries, "auth_server_auth_endpoint"),
        auth_server_token_endpoint: lookup(entries, "auth_server_token_endpoint"),
        client_id: lookup(entries, "client_id"),
        client_secret: lookup(entries, "client_secret"),
        username: lookup(entries, "username"),
        password: lookup(entries, "password"),
        grant_type,
        scopes: lookup(entries, "scopes"),
        redirect: lookup(entries, "redirect"),
        default_content_type: lookup(entries, "default_content_type"),
        default_user_agent: lookup(entries, "default_user_agent"),
        default_auth_header_template: lookup(entries, "default_auth_header_template"),
    })
}

/// The profiles the sections of a profile file describe, in order, each
/// under its section's name. Fails with the error of the first section that
/// names no known grant type.
pub fn profiles_from_sections(sections: &Vec<(String, Vec<(String, String)>)>) -> (r: Result<Vec<(String, OAuth2Config)>, InvalidConfig>)
    ensures
        (forall|i: int| 0 <= i < sections@.len() ==> section_grant(sections@[i].1@) is Some) ==> r is Ok,
        r is Ok ==> r->Ok_0@.len() == sections@.len() && forall|i: int| 0 <= i < sections@.len() ==> {
            &&& r->Ok_0@[i].0@ == sections@[i].0@
            &&& config_of(sections@[i].1@, r->Ok_0@[i].1)
        },
        r is Err ==> (r matches Err(InvalidConfig::MissingFields(m)) && m@ == "grant_type"@),
        r is Err ==> exists|i: int| 0 <= i < sections@.len() && section_grant(sections@[i].1@) is None,
{
    let mut out: Vec<(String, OAuth2Config)> = Vec::new();
    let n = sections.len();
    let mut i: usize = 0;
    while i < n
        invariant
            n == sections@.len(),
            i <= n,
            out@.len() == i,
            forall|j: int| 0 <= j < i ==> {
                &&& out@[j].0@ == sections@[j].0@
                &&& config_of(sections@[j].1@, out@[j].1)
            },
        decreases n - i,
    {
        match config_from_section(&sections[i].1) {
            Ok(c) => {
                out.push((sections[i].0.clone(), c));
            },
            Err(e) => {
                return Err(e);
            },
        }
        i = i + 1;
    }
    Ok(out)
}

} // verus!
