//! The authenticated request: its headers, its credential, the redirect rule,
//! and the decisions of the fetch-token, send, retry-once cycle.
use vstd::prelude::*;

use crate::oauth2::{is_config_error, pairs_view, user_agent_of, AccessTokenError, OAuth2Config};
use crate::text::{
    contains_seq, contains_str, lower_of, lowercase, replace_all, replace_str, split_once_exact,
    split_once_spec, trim_of, trimmed,
};

verus! {

/// Why an authenticated request failed.
pub enum RequestError {
    /// No token could be had.
    OAuth(AccessTokenError),
    /// The request itself failed; holds the cause.
    Http(String),
    /// A header could not be used; holds the cause.
    InvalidHeader(String),
}

/// The placeholder a header template holds for the token.
pub open spec fn placeholder() -> Seq<char> {
    "$token"@
}

/// The header a template yields, given the two sides of its `=`, the lower-cased
/// value side, and that side trimmed and then lower-cased.
pub open spec fn template_header(
    name: Seq<char>,
    lowered: Seq<char>,
    trimmed_lowered: Seq<char>,
    token: Seq<char>,
) -> Option<(Seq<char>, Seq<char>)> {
    if contains_seq(lowered, placeholder()) {
        Some((name, replace_all(trimmed_lowered, placeholder(), token)))
    } else {
        None
    }
}

/// The header a template `t` yields for the access token `token`, if it is well formed.
pub open spec fn custom_header_spec(t: Seq<char>, token: Seq<char>) -> Option<(Seq<char>, Seq<char>)> {
    match split_once_spec(t, '=') {
        Some((name, value)) => template_header(
            name,
            lower_of(value),
            lower_of(trim_of(value)),
            token,
        ),
        None => None,
    }
}

/// The header for the access token `token`, from a template's name side
/// `name`, its lower-cased value side `lowered`, and that side trimmed and
/// lower-cased, `trimmed_lowered`: fails unless `lowered` holds the placeholder.
pub fn header_from_parts(name: String, lowered: &str, trimmed_lowered: &str, token: &str) -> (r: Result<(String, String), AccessTokenError>)
    ensures
        match template_header(name@, lowered@, trimmed_lowered@, token@) {
            Some(h) => r is Ok && r->Ok_0.0@ == h.0 && r->Ok_0.1@ == h.1,
            None => r is Err && is_config_error(r->Err_0, "can't find '$token' placeholder"@),
        },
{
    if !contains_str(lowered, "$token") {
        return Err(AccessTokenError::InvalidConfig(String::from_str("can't find '$token' placeholder")));
    }
    proof {
        reveal_strlit("$token");
    }
    let value = replace_str(trimmed_lowered, "$token", token);
    Ok((name, value))
}

/// The header that the template `template` (`Name=...$token...`) yields for
/// `access_token`: the value side trimmed, lower-cased, and with the
/// placeholder replaced. Fails unless the template has exactly one `=` and its
/// value side holds the placeholder, in any case.
pub fn split_custom_header(template: &str, access_token: &str) -> (r: Result<(String, String), AccessTokenError>)
    ensures
        match custom_header_spec(template@, access_token@) {
            Some(h) => r is Ok && r->Ok_0.0@ == h.0 && r->Ok_0.1@ == h.1,
            None => r is Err && (if split_once_spec(template@, '=') is None {
                is_config_error(r->Err_0, "invalid custom_header_template"@)
            } else {
                is_config_error(r->Err_0, "can't find '$token' placeholder"@)
            }),
        },
{
    match split_once_exact(template, '=') {
        None => Err(AccessTokenError::InvalidConfig(String::from_str("invalid custom_header_template"))),
        Some((name, value)) => {
            let lowered = lowercase(value.as_str());
            let t = trimmed(value.as_str());
            let trimmed_lowered = lowercase(t.as_str());
            header_from_parts(name, lowered.as_str(), trimmed_lowered.as_str(), access_token)
        },
    }
}

/// A template is usable: empty (no template), or with exactly one `=` and
/// the placeholder, in any case, on its value side.
pub open spec fn template_valid(t: Seq<char>) -> bool {
    t.len() == 0 || match split_once_spec(t, '=') {
        Some((_, value)) => contains_seq(lower_of(value), placeholder()),
        None => false,
    }
}

/// Checks a header template on its own, before any token is at hand: it
/// fails exactly when no token could make a header of it, with the error
/// `split_custom_header` would give.
pub fn validate_template(template: &Option<String>) -> (r: Result<(), AccessTokenError>)
    ensures
        match template {
            Some(t) => {
                &&& r is Ok <==> template_valid(t@)
                &&& r is Ok ==> t@.len() == 0 || forall|tok: Seq<char>| (#[trigger] custom_header_spec(t@, tok)) is Some
                &&& r is Err ==> forall|tok: Seq<char>| (#[trigger] custom_header_spec(t@, tok)) is None
                &&& r is Err ==> (if split_once_spec(t@, '=') is None {
                    is_config_error(r->Err_0, "invalid custom_header_template"@)
                } else {
                    is_config_error(r->Err_0, "can't find '$token' placeholder"@)
                })
            },
            None => r is Ok,
        },
{
    match template {
        None => Ok(()),
        Some(t) => {
            if t.as_str().unicode_len() == 0 {
                return Ok(());
            }
            match split_once_exact(t.as_str(), '=') {
                None => Err(AccessTokenError::InvalidConfig(String::from_str("invalid custom_header_template"))),
                Some((_, value)) => {
                    let lowered = lowercase(value.as_str());
                    if contains_str(lowered.as_str(), "$token") {
                        proof {
                            reveal_strlit("$token");
                        }
                        Ok(())
                    } else {
                        proof {
                            reveal_strlit("$token");
                        }
                        Err(AccessTokenError::InvalidConfig(String::from_str("can't find '$token' placeholder")))
                    }
                },
            }
        },
    }
}

/// How the access token goes into the request.
pub enum Credential {
    /// A standard `Authorization: Bearer` header with this token.
    Bearer(String),
    /// This header, made from the profile's template.
    Header(String, String),
}

/// The credential of a request made with `access_token`, by the profile's
/// header template when one is set and not empty.
pub fn credential(template: &Option<String>, access_token: &str) -> (r: Result<Credential, AccessTokenError>)
    ensures
        match template {
            Some(t) if t@.len() > 0 => match custom_header_spec(t@, access_token@) {
                Some(h) => r matches Ok(Credential::Header(n, v)) && n@ == h.0 && v@ == h.1,
                None => r is Err && r->Err_0 is InvalidConfig,
            },
            _ => r matches Ok(Credential::Bearer(b)) && b@ == access_token@,
        },
{
    match template {
        Some(t) if t.as_str().unicode_len() > 0 => match split_custom_header(t.as_str(), access_token) {
            Ok((n, v)) => Ok(Credential::Header(n, v)),
            Err(e) => Err(e),
        },
        _ => Ok(Credential::Bearer(String::from_str(access_token))),
    }
}


/// The header set a list of name/value pairs stands for: a later pair
/// replaces an earlier one of the same name.
pub open spec fn map_of(s: Seq<(Seq<char>, Seq<char>)>) -> Map<Seq<char>, Seq<char>>
    decreases s.len(),
{
    if s.len() == 0 {
        Map::empty()
    } else {
        map_of(s.drop_last()).insert(s.last().0, s.last().1)
    }
}

/// The headers given as `name,value` arguments; arguments without exactly one
/// comma are left out, and a later one replaces an earlier one of the same name.
pub open spec fn user_header_map(raw: Seq<Seq<char>>) -> Map<Seq<char>, Seq<char>>
    decreases raw.len(),
{
    if raw.len() == 0 {
        Map::empty()
    } else {
        let m = user_header_map(raw.drop_last());
        match split_once_spec(raw.last(), ',') {
            Some((k, v)) => m.insert(k, v),
            None => m,
        }
    }
}

/// `a` and `b` are the same letter but for ASCII case.
pub open spec fn char_eq_ignore_case(a: char, b: char) -> bool {
    a == b || ('A' <= a <= 'Z' && a as u32 + 32 == b as u32) || ('A' <= b <= 'Z' && b as u32 + 32
        == a as u32)
}

/// `a` and `b` are the same name but for ASCII case, as header names are compared.
pub open spec fn eq_ignore_case(a: Seq<char>, b: Seq<char>) -> bool {
    a.len() == b.len() && forall|i: int| 0 <= i < a.len() ==> char_eq_ignore_case(a[i], b[i])
}

/// The header set `m` has a header named `k`, in any ASCII case.
pub open spec fn has_name(m: Map<Seq<char>, Seq<char>>, k: Seq<char>) -> bool {
    exists|key: Seq<char>| m.dom().contains(key) && eq_ignore_case(key, k)
}

fn chars_eq_ignore_case(a: char, b: char) -> (r: bool)
    ensures
        r == char_eq_ignore_case(a, b),
{
    a == b || ('A' <= a && a <= 'Z' && (a as u32) + 32 == b as u32) || ('A' <= b && b <= 'Z'
        && (b as u32) + 32 == a as u32)
}

/// Whether `a` and `b` are the same name but for ASCII case.
pub fn str_eq_ignore_case(a: &str, b: &str) -> (r: bool)
    ensures
        r == eq_ignore_case(a@, b@),
{
    let ca = crate::text::chars_of(a);
    let cb = crate::text::chars_of(b);
    if ca.len() != cb.len() {
        return false;
    }
    let n = ca.len();
    let mut i: usize = 0;
    while i < n
        invariant
            n == ca@.len(),
            n == cb@.len(),
            ca@ == a@,
            cb@ == b@,
            i <= n,
            forall|k: int| 0 <= k < i ==> char_eq_ignore_case(ca@[k], cb@[k]),
        decreases n - i,
    {
        if !chars_eq_ignore_case(ca[i], cb[i]) {
            return false;
        }
        i = i + 1;
    }
    true
}

/// The headers of a request with the header arguments `raw` under the
/// configuration `c`: a User-Agent is always present, and the profile's
/// content type is added when the arguments set none.
pub open spec fn headers_spec(raw: Seq<Seq<char>>, c: OAuth2Config) -> Map<Seq<char>, Seq<char>> {
    let m = user_header_map(raw);
    let m1 = if has_name(m, "user-agent"@) {
        m
    } else {
        m.insert("user-agent"@, user_agent_of(c.default_user_agent))
    };
    if !has_name(m1, "content-type"@) && c.default_content_type is Some {
        m1.insert("content-type"@, c.default_content_type->0@)
    } else {
        m1
    }
}

/// The views of a list of strings.
pub open spec fn strings_view(v: Seq<String>) -> Seq<Seq<char>> {
    v.map_values(|s: String| s@)
}

proof fn lemma_map_of_dom(s: Seq<(Seq<char>, Seq<char>)>, k: Seq<char>)
    ensures
        map_of(s).dom().contains(k) <==> exists|i: int| 0 <= i < s.len() && s[i].0 == k,
    decreases s.len(),
{
    if s.len() > 0 {
        lemma_map_of_dom(s.drop_last(), k);
        if exists|i: int| 0 <= i < s.len() - 1 && s.drop_last()[i].0 == k {
            let i = choose|i: int| 0 <= i < s.len() - 1 && s.drop_last()[i].0 == k;
            assert(s[i].0 == k);
        }
        if exists|i: int| 0 <= i < s.len() && s[i].0 == k {
            let i = choose|i: int| 0 <= i < s.len() && s[i].0 == k;
            if i < s.len() - 1 {
                assert(s.drop_last()[i].0 == k);
            }
        }
    }
}

/// Whether the header list `v` has a header named `k`, in any ASCII case.
fn has_header(v: &Vec<(String, String)>, k: &str) -> (r: bool)
    ensures
        r == has_name(map_of(pairs_view(v@)), k@),
{
    let ghost s = pairs_view(v@);
    let n = v.len();
    let mut i: usize = 0;
    while i < n
        invariant
            n == v@.len(),
            s == pairs_view(v@),
            i <= n,
            forall|j: int| 0 <= j < i ==> !eq_ignore_case(v@[j].0@, k@),
        decreases n - i,
    {
        if str_eq_ignore_case(v[i].0.as_str(), k) {
            proof {
                lemma_map_of_dom(s, v@[i as int].0@);
                assert(s[i as int].0 == v@[i as int].0@);
                assert(map_of(s).dom().contains(v@[i as int].0@));
            }
            return true;
        }
        i = i + 1;
    }
    proof {
        assert forall|key: Seq<char>| map_of(s).dom().contains(key) implies !eq_ignore_case(key, k@) by {
            lemma_map_of_dom(s, key);
            let j = choose|j: int| 0 <= j < s.len() && s[j].0 == key;
            assert(s[j].0 == v@[j].0@);
        }
    }
    false
}

/// Appends a header; it replaces any earlier one of the same name.
fn add_header(v: &mut Vec<(String, String)>, k: String, val: String)
    ensures
        map_of(pairs_view(final(v)@)) == map_of(pairs_view(old(v)@)).insert(k@, val@),
{
    v.push((k, val));
    proof {
        assert(pairs_view(final(v)@).drop_last() =~= pairs_view(old(v)@));
    }
}

/// The headers of a request from the header arguments `raw` (`name,value`)
/// and the profile's defaults.
pub fn build_headers(raw: &Vec<String>, config: &OAuth2Config) -> (r: Vec<(String, String)>)
    ensures
        map_of(pairs_view(r@)) == headers_spec(strings_view(raw@), *config),
{
    let mut hm: Vec<(String, String)> = Vec::new();
    let n = raw.len();
    let mut i: usize = 0;
    proof {
        assert(strings_view(raw@).subrange(0, 0) =~= Seq::<Seq<char>>::empty());
        assert(pairs_view(hm@) =~= Seq::<(Seq<char>, Seq<char>)>::empty());
    }
    while i < n
        invariant
            n == raw@.len(),
            i <= n,
            map_of(pairs_view(hm@)) == user_header_map(strings_view(raw@).subrange(0, i as int)),
        decreases n - i,
    {
        let ghost prefix = strings_view(raw@).subrange(0, i + 1);
        proof {
            assert(prefix.drop_last() =~= strings_view(raw@).subrange(0, i as int));
            assert(prefix.last() == raw@[i as int]@);
        }
        match split_once_exact(raw[i].as_str(), ',') {
            Some((k, v)) => {
                add_header(&mut hm, k, v);
            },
            None => {},
        }
        i = i + 1;
    }
    proof {
        assert(strings_view(raw@).subrange(0, n as int) =~= strings_view(raw@));
    }
    if !has_header(&hm, "user-agent") {
        add_header(&mut hm, String::from_str("user-agent"), config.user_agent());
    }
    match &config.default_content_type {
        Some(c) => {
            if !has_header(&hm, "content-type") {
                add_header(&mut hm, String::from_str("content-type"), c.clone());
            }
        },
        None => {},
    }
    hm
}

/// What to do with a redirect of the authenticated request.
#[derive(PartialEq, Eq, Structural, Clone, Copy, Debug)]
pub enum Redirect {
    /// Follow it.
    Follow,
    /// Do not follow it: there is no earlier hop.
    Stop,
    /// Do not follow it: too many hops already (an error).
    TooMany,
    /// Do not follow it: it leaves the origin of the previous hop (an error).
    CrossOrigin,
}

/// The most hops a redirect chain may already hold for one more to be followed.
pub const MAX_REDIRECTS: usize = 5;

/// Two origins are the same; an opaque origin (`None`) is like no other.
pub open spec fn same_origin(a: Option<String>, b: Option<String>) -> bool {
    a is Some && b is Some && a->0@ == b->0@
}

/// The decision for a redirect to the origin `next` after the hops `previous`.
pub open spec fn redirect_spec(previous: Seq<Option<String>>, next: Option<String>) -> Redirect {
    if previous.len() == 0 {
        Redirect::Stop
    } else if previous.len() > MAX_REDIRECTS {
        Redirect::TooMany
    } else if !same_origin(previous.last(), next) {
        Redirect::CrossOrigin
    } else {
        Redirect::Follow
    }
}

/// Decides a redirect to the origin `next` (its serialization, `None` when
/// opaque) after the hops `previous`, oldest first.
pub fn redirect_action(previous: &Vec<Option<String>>, next: &Option<String>) -> (r: Redirect)
    ensures
        r == redirect_spec(previous@, *next),
{
    let n = previous.len();
    if n == 0 {
        Redirect::Stop
    } else if n > MAX_REDIRECTS {
        Redirect::TooMany
    } else {
        let same = match (&previous[n - 1], next) {
            (Some(a), Some(b)) => crate::text::eq_str(a.as_str(), b.as_str()),
            _ => false,
        };
        if same {
            Redirect::Follow
        } else {
            Redirect::CrossOrigin
        }
    }
}

} // verus!
