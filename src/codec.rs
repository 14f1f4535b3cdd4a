//! The wire codec: the address of the remote tunnel endpoint.
use vstd::prelude::*;
use vstd::string::*;
use crate::config::TunnelConfig;
use crate::error::SessionError;
use crate::text::{int_decimal, nat_decimal, push_decimal, push_signed_decimal, starts_with, trim_slashes, trim_trailing_slashes};
use crate::urlencoding::{encode, form_byte, form_bytes, form_urlencoded_of, kept_in_form};
use vstd::string::StringSliceAdditionalSpecFns;

verus! {

/// The WebSocket base address for a server address: `https` becomes `wss`,
/// `http` becomes `ws`, `ws` and `wss` stay; any other scheme has none.
pub open spec fn ws_base_of(url: Seq<char>) -> Option<Seq<char>> {
    if "https://"@.is_prefix_of(url) {
        Some("wss://"@ + url.skip("https://"@.len() as int))
    } else if "http://"@.is_prefix_of(url) {
        Some("ws://"@ + url.skip("http://"@.len() as int))
    } else if "ws://"@.is_prefix_of(url) || "wss://"@.is_prefix_of(url) {
        Some(url)
    } else {
        None
    }
}

/// The tunnel address on a WebSocket base, with the query values given as
/// they stand on the wire.
pub open spec fn tunnel_url_text(
    base: Seq<char>,
    encoded_token: Seq<char>,
    entry_id: i64,
    identity_id: i64,
    encoded_host: Seq<char>,
    remote_port: u16,
) -> Seq<char> {
    trim_slashes(base) + "/api/ws/tunnel?sessionToken="@ + encoded_token + "&entryId="@
        + int_decimal(entry_id as int) + "&identityId="@ + int_decimal(identity_id as int)
        + "&remoteHost="@ + encoded_host + "&remotePort="@ + nat_decimal(remote_port as nat)
}

/// The tunnel address for a configuration, if its server address has a
/// supported scheme.
pub open spec fn tunnel_url_of(config: TunnelConfig) -> Option<Seq<char>> {
    match ws_base_of(config.server_url@) {
        Some(base) => Some(
            tunnel_url_text(
                base,
                form_urlencoded_of(config.token@),
                config.entry_id,
                config.identity_id,
                form_urlencoded_of(config.remote_host@),
                config.remote_port,
            ),
        ),
        None => None,
    }
}

/// Rewrites the scheme of a server address to the matching WebSocket scheme.
pub fn rewrite_scheme(url: &str) -> (r: Option<String>)
    ensures
        match r {
            Some(s) => ws_base_of(url@) == Some(s@),
            None => ws_base_of(url@) is None,
        },
{
    let len = url.unicode_len();
    if starts_with(url, "https://") {
        let skip = "https://".unicode_len();
        let rest = url.substring_char(skip, len);
        Some(String::from_str("wss://").concat(rest))
    } else if starts_with(url, "http://") {
        let skip = "http://".unicode_len();
        let rest = url.substring_char(skip, len);
        Some(String::from_str("ws://").concat(rest))
    } else if starts_with(url, "ws://") || starts_with(url, "wss://") {
        Some(String::from_str(url))
    } else {
        None
    }
}

/// The tunnel address on a WebSocket base, from query values that are
/// already encoded.
pub fn assemble_tunnel_url(
    base: &str,
    encoded_token: &str,
    entry_id: i64,
    identity_id: i64,
    encoded_host: &str,
    remote_port: u16,
) -> (r: String)
    ensures
        r@ == tunnel_url_text(base@, encoded_token@, entry_id, identity_id, encoded_host@, remote_port),
{
    let mut out = trim_trailing_slashes(base);
    out.append("/api/ws/tunnel?sessionToken=");
    out.append(encoded_token);
    out.append("&entryId=");
    push_signed_decimal(&mut out, entry_id);
    out.append("&identityId=");
    push_signed_decimal(&mut out, identity_id);
    out.append("&remoteHost=");
    out.append(encoded_host);
    out.append("&remotePort=");
    push_decimal(&mut out, remote_port as u64);
    out
}

/// The address of the remote tunnel endpoint for `config`.
pub fn build_ws_url(config: &TunnelConfig) -> (r: Result<String, SessionError>)
    ensures
        match r {
            Ok(u) => tunnel_url_of(*config) == Some(u@),
            Err(e) => tunnel_url_of(*config) is None && e == SessionError::InvalidServerUrl,
        },
{
    match rewrite_scheme(config.server_url.as_str()) {
        None => Err(SessionError::InvalidServerUrl),
        Some(base) => {
            let token = encode(config.token.as_str());
            let host = encode(config.remote_host.as_str());
            Ok(assemble_tunnel_url(
                base.as_str(),
                token.as_str(),
                config.entry_id,
                config.identity_id,
                host.as_str(),
                config.remote_port,
            ))
        },
    }
}

/// The address of the tunnel window of an entry, with the entry's name form
/// encoded.
pub fn tunnel_window_url(entry_id: i64, name: &str) -> (r: String)
    ensures
        r@ == "/tunnel/"@ + int_decimal(entry_id as int) + "?name="@ + form_urlencoded_of(name@),
{
    let mut out = String::from_str("/tunnel/");
    push_signed_decimal(&mut out, entry_id);
    out.append("?name=");
    let encoded = encode(name);
    out.append(encoded.as_str());
    out
}

/// With the server address `https://host/` and the token `a b`, the tunnel
/// address starts with `wss://host/api/ws/tunnel?sessionToken=a+b&`: the
/// scheme is rewritten, the trailing slash is gone and the space is a `+`.
pub proof fn https_host_address(c: TunnelConfig)
    requires
        c.server_url@ == "https://host/"@,
        c.token@ == "a b"@,
    ensures
        tunnel_url_of(c) is Some,
        "wss://host/api/ws/tunnel?sessionToken=a+b&"@.is_prefix_of(tunnel_url_of(c)->0),
{
    reveal_strlit("https://host/");
    reveal_strlit("https://");
    reveal_strlit("wss://");
    reveal_strlit("wss://host/");
    reveal_strlit("wss://host");
    reveal_strlit("a b");
    reveal_strlit("a+b");
    reveal_strlit("/api/ws/tunnel?sessionToken=");
    reveal_strlit("&entryId=");
    reveal_strlit("wss://host/api/ws/tunnel?sessionToken=a+b&");
    let u = c.server_url@;
    assert("https://"@.is_prefix_of(u)) by {
        assert(u.take(8) =~= "https://"@);
    }
    let base = "wss://"@ + u.skip(8);
    assert(base =~= "wss://host/"@);
    assert(base.drop_last() =~= "wss://host"@);
    assert(trim_slashes("wss://host"@) == "wss://host"@);
    assert(trim_slashes(base) == "wss://host"@);
    vstd::string::is_ascii_spec_bytes("a b");
    let bs = "a b".spec_bytes();
    assert(bs =~= seq![97u8, 32u8, 98u8]);
    assert(bs.drop_first() =~= seq![32u8, 98u8]);
    assert(bs.drop_first().drop_first() =~= seq![98u8]);
    assert(form_bytes(bs.drop_first().drop_first().drop_first()) == Seq::<char>::empty());
    assert(kept_in_form(97u8));
    assert(form_byte(97u8) =~= seq!['a']);
    assert(form_byte(32u8) =~= seq!['+']);
    assert(form_byte(98u8) =~= seq!['b']);
    assert(form_bytes(seq![98u8]) =~= seq!['b']);
    assert(form_bytes(seq![32u8, 98u8]) =~= seq!['+', 'b']);
    assert(form_urlencoded_of(c.token@) =~= "a+b"@);
    let url = tunnel_url_of(c)->0;
    let head = "wss://host"@ + "/api/ws/tunnel?sessionToken="@ + "a+b"@ + "&entryId="@;
    assert(head =~= "wss://host/api/ws/tunnel?sessionToken=a+b&entryId="@) by {
        reveal_strlit("wss://host/api/ws/tunnel?sessionToken=a+b&entryId=");
    }
    assert(url.take(head.len() as int) =~= head);
    let target = "wss://host/api/ws/tunnel?sessionToken=a+b&"@;
    assert(url.take(target.len() as int) =~= target);
}

} // verus!
