//! Input checks of the relay server's HTTP API.
use vstd::prelude::*;
use regex::Regex;
use crate::protocol::is_generated_subdomain;
use crate::text::{is_err_with, is_ascii_lower, is_ascii_digit, text_eq, copy_text, concat3};

verus! {

/// A character of a server-side subdomain: lowercase ASCII letter, digit or hyphen.
pub open spec fn is_label_char(c: char) -> bool {
    is_ascii_lower(c) || is_ascii_digit(c) || c == '-'
}

/// Whether `s` matches `^[a-z0-9-]+$`: not empty, and only lowercase letters,
/// digits and hyphens.
pub open spec fn matches_label_pattern(s: Seq<char>) -> bool {
    s.len() > 0 && forall|i: int| 0 <= i < s.len() ==> is_label_char(s[i])
}

/// `Regex::is_match` with the pattern `^[a-z0-9-]+$` (the `regex` crate): the
/// anchored pattern matches exactly the non-empty strings of `[a-z0-9-]`.
#[verifier::external_body]
fn label_pattern_is_match(s: &str) -> (r: bool)
    ensures
        r == matches_label_pattern(s@),
{
    Regex::new(r"^[a-z0-9-]+$").unwrap().is_match(s)
}

/// The value of a run of ASCII digits, read in base 10.
pub open spec fn digits_value(t: Seq<char>) -> int
    decreases t.len(),
{
    if t.len() == 0 {
        0
    } else {
        digits_value(t.drop_last()) * 10 + ((t.last() as u32) - 48)
    }
}

/// One to three ASCII digits whose value is at most 255 (leading zeros allowed):
/// the strings `25[0-5]|2[0-4][0-9]|[01]?[0-9][0-9]?` matches.
pub open spec fn is_octet_text(t: Seq<char>) -> bool {
    &&& 1 <= t.len() <= 3
    &&& forall|i: int| 0 <= i < t.len() ==> is_ascii_digit(t[i])
    &&& digits_value(t) <= 255
}

/// Whether `s` is four octet texts joined by dots: what the IPv4 pattern of the
/// server accepts.
pub open spec fn matches_ipv4_pattern(s: Seq<char>) -> bool {
    exists|a: int, b: int, c: int|
        0 <= a < b < c < s.len() && #[trigger] s[a] == '.' && #[trigger] s[b] == '.' && #[trigger] s[c] == '.'
        && is_octet_text(s.subrange(0, a))
        && is_octet_text(s.subrange(a + 1, b))
        && is_octet_text(s.subrange(b + 1, c))
        && is_octet_text(s.subrange(c + 1, s.len() as int))
}

/// `Regex::is_match` with the anchored dotted-quad pattern
/// `^((25[0-5]|2[0-4][0-9]|[01]?[0-9][0-9]?)\.){3}(25[0-5]|2[0-4][0-9]|[01]?[0-9][0-9]?)$`
/// (the `regex` crate): it matches exactly four octet texts joined by dots.
#[verifier::external_body]
fn ipv4_pattern_is_match(s: &str) -> (r: bool)
    ensures
        r == matches_ipv4_pattern(s@),
{
    Regex::new(r"^((25[0-5]|2[0-4][0-9]|[01]?[0-9][0-9]?)\.){3}(25[0-5]|2[0-4][0-9]|[01]?[0-9][0-9]?)$")
        .unwrap()
        .is_match(s)
}

/// Which rule a server-side subdomain breaks first, if any.
pub open spec fn subdomain_error(s: &str) -> Option<Seq<char>> {
    if s@.len() < 2 {
        Some("子域名至少需要 2 个字符"@)
    } else if s@.len() > 32 {
        Some("子域名最多 32 个字符"@)
    } else if !matches_label_pattern(s@) {
        Some("子域名只允许使用小写字母、数字和连字符"@)
    } else if s@[0] == '-' || s@[s@.len() - 1] == '-' {
        Some("子域名不能以连字符开头或结尾"@)
    } else {
        None
    }
}

/// Every generated subdomain passes the API's subdomain check: six lowercase
/// letters and digits.
pub proof fn law_generated_subdomain_passes_api_check(s: &str)
    requires
        is_generated_subdomain(s@),
    ensures
        subdomain_error(s) is None,
{
    assert forall|i: int| 0 <= i < s@.len() implies is_label_char(s@[i]) by {
        assert(is_ascii_lower(s@[i]) || is_ascii_digit(s@[i]));
    }
    assert(is_ascii_lower(s@[0]) || is_ascii_digit(s@[0]));
    assert(is_ascii_lower(s@[s@.len() - 1]) || is_ascii_digit(s@[s@.len() - 1]));
}

/// Checks a tunnel subdomain: 2 to 32 characters, all lowercase letters, digits
/// and hyphens, not starting or ending with a hyphen.
pub fn validate_subdomain(subdomain: &str) -> (r: Result<(), String>)
    ensures
        match subdomain_error(subdomain) {
            None => r is Ok,
            Some(m) => is_err_with(r, m),
        },
{
    let n = subdomain.unicode_len();
    if n < 2 {
        return Err(copy_text("子域名至少需要 2 个字符"));
    }
    if n > 32 {
        return Err(copy_text("子域名最多 32 个字符"));
    }
    if !label_pattern_is_match(subdomain) {
        return Err(copy_text("子域名只允许使用小写字母、数字和连字符"));
    }
    if subdomain.get_char(0) == '-' || subdomain.get_char(n - 1) == '-' {
        return Err(copy_text("子域名不能以连字符开头或结尾"));
    }
    Ok(())
}

/// Checks a port number: 0 is refused. (A `u16` never exceeds 65535.)
pub fn validate_port(port: u16) -> (r: Result<(), String>)
    ensures
        port == 0 ==> is_err_with(r, "端口号必须大于 0"@),
        port != 0 ==> r is Ok,
{
    if port == 0 {
        return Err(copy_text("端口号必须大于 0"));
    }
    Ok(())
}

/// Checks a dotted-quad IPv4 address.
pub fn validate_ip_address(ip: &str) -> (r: Result<(), String>)
    ensures
        matches_ipv4_pattern(ip@) ==> r is Ok,
        !matches_ipv4_pattern(ip@) ==> is_err_with(r, "无效的 IP 地址格式"@),
{
    if !ipv4_pattern_is_match(ip) {
        return Err(copy_text("无效的 IP 地址格式"));
    }
    Ok(())
}

/// Checks an authentication token: 8 to 256 characters.
pub fn validate_auth_token(token: &str) -> (r: Result<(), String>)
    ensures
        token@.len() < 8 ==> is_err_with(r, "认证令牌至少需要 8 个字符"@),
        8 <= token@.len() <= 256 ==> r is Ok,
        token@.len() > 256 ==> is_err_with(r, "认证令牌最多 256 个字符"@),
{
    let n = token.unicode_len();
    if n < 8 {
        return Err(copy_text("认证令牌至少需要 8 个字符"));
    }
    if n > 256 {
        return Err(copy_text("认证令牌最多 256 个字符"));
    }
    Ok(())
}

/// The protocols a tunnel may carry.
pub open spec fn is_known_protocol(p: Seq<char>) -> bool {
    p == "http"@ || p == "https"@ || p == "tcp"@ || p == "udp"@
}

/// The message for an unknown protocol `p`.
pub open spec fn unknown_protocol_message(p: Seq<char>) -> Seq<char> {
    "无效的协议 '"@ + p + "', 允许的协议: http, https, tcp, udp"@
}

/// Whether `p` names a protocol a tunnel may carry.
pub fn is_protocol_allowed(p: &str) -> (r: bool)
    ensures
        r == is_known_protocol(p@),
{
    text_eq(p, "http") || text_eq(p, "https") || text_eq(p, "tcp") || text_eq(p, "udp")
}

/// Checks a list of protocols: at least one, and each of http, https, tcp or
/// udp; the first unknown one is named in the error.
pub fn validate_protocols(protocols: &[String]) -> (r: Result<(), String>)
    ensures
        protocols@.len() == 0 ==> is_err_with(r, "至少需要指定一个协议"@),
        protocols@.len() > 0 && (forall|i: int| 0 <= i < protocols@.len() ==> is_known_protocol(#[trigger] protocols@[i]@)) ==> r is Ok,
        (exists|i: int| 0 <= i < protocols@.len() && !is_known_protocol(#[trigger] protocols@[i]@)) ==> r is Err,
        protocols@.len() > 0 && r is Err ==> exists|i: int| 0 <= i < protocols@.len()
            && (forall|j: int| 0 <= j < i ==> is_known_protocol(#[trigger] protocols@[j]@))
            && !is_known_protocol(protocols@[i]@)
            && is_err_with(r, unknown_protocol_message(protocols@[i]@)),
{
    if protocols.len() == 0 {
        return Err(copy_text("至少需要指定一个协议"));
    }
    let mut i: usize = 0;
    while i < protocols.len()
        invariant
            i <= protocols@.len(),
            forall|j: int| 0 <= j < i ==> is_known_protocol(#[trigger] protocols@[j]@),
        decreases protocols@.len() - i,
    {
        if !is_protocol_allowed(protocols[i].as_str()) {
            let e = concat3("无效的协议 '", protocols[i].as_str(), "', 允许的协议: http, https, tcp, udp");
            return Err(e);
        }
        i = i + 1;
    }
    Ok(())
}

} // verus!
