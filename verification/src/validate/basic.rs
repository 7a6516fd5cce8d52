//! Basic SSH config field validation for a single host.

use vstd::prelude::*;

use crate::check_types::{msgs_view, push_message, tag_text, tagged, CheckLevel, CheckMessage};
use crate::ssh_parse::{parse_ssh_g_values, ssh_g_value_or_default, ssh_g_value_or_empty, ssh_g_values};
use crate::text::{chars_of, push_str, split_char, split_char_of, str_eq};

verus! {

/// `HostName` is missing, or is the alias itself with three or more
/// dot-separated parts (an alias that was never given a real address).
pub open spec fn hostname_suspect(hostname: Seq<char>, host: Seq<char>) -> bool {
    hostname.len() == 0 || (hostname == host && split_char(host, '.').len() >= 3)
}

/// `msg` when `cond` holds, else nothing.
pub open spec fn msg_if(cond: bool, level: CheckLevel, text: Seq<char>) -> Seq<(CheckLevel, Seq<char>)> {
    if cond {
        seq![(level, text)]
    } else {
        Seq::empty()
    }
}

/// The messages of the basic check of `host`, whose `ssh -G` output is
/// `out`: `HostName`, `User`, `Port`, `IdentitiesOnly`, `IdentityFile`, in
/// that order.
pub open spec fn basic_messages(out: Seq<char>, host: Seq<char>) -> Seq<(CheckLevel, Seq<char>)> {
    let hostname = ssh_g_value_or_empty(out, "hostname"@);
    let user = ssh_g_value_or_empty(out, "user"@);
    let port = ssh_g_value_or_empty(out, "port"@);
    let only = ssh_g_value_or_empty(out, "identitiesonly"@);
    msg_if(
        hostname_suspect(hostname, host),
        CheckLevel::Error,
        tagged(host, "HostName is empty or equals the host alias with 3+ dot-separated parts"@),
    ) + msg_if(user.len() == 0, CheckLevel::Error, tagged(host, "User is not set"@)) + msg_if(
        port.len() == 0,
        CheckLevel::Error,
        tagged(host, "Port is not set"@),
    ) + msg_if(
        only != "yes"@,
        CheckLevel::Warn,
        tagged(host, "IdentitiesOnly is not \"yes\" (current: \""@ + only + "\")"@),
    ) + msg_if(
        ssh_g_values(out, "identityfile"@).len() == 0,
        CheckLevel::Warn,
        tagged(host, "No IdentityFile configured"@),
    )
}

/// The `HostName` error of the basic check of `host`.
pub open spec fn hostname_error(host: Seq<char>) -> (CheckLevel, Seq<char>) {
    (CheckLevel::Error, tagged(host, "HostName is empty or equals the host alias with 3+ dot-separated parts"@))
}

/// The basic check reports the `HostName` error exactly when `ssh -G` gives
/// no host name, or gives the alias itself and the alias has three or more
/// dot-separated parts; a non-empty host name that differs from the alias
/// is never reported.
pub proof fn law_hostname_error(out: Seq<char>, host: Seq<char>)
    ensures
        basic_messages(out, host).contains(hostname_error(host)) <==> {
            let hn = ssh_g_value_or_empty(out, "hostname"@);
            hn.len() == 0 || (hn == host && split_char(host, '.').len() >= 3)
        },
{
    reveal_strlit("HostName is empty or equals the host alias with 3+ dot-separated parts");
    reveal_strlit("User is not set");
    reveal_strlit("Port is not set");
    let hn = ssh_g_value_or_empty(out, "hostname"@);
    let user = ssh_g_value_or_empty(out, "user"@);
    let port = ssh_g_value_or_empty(out, "port"@);
    let only = ssh_g_value_or_empty(out, "identitiesonly"@);
    let e = hostname_error(host);
    let m0 = msg_if(hostname_suspect(hn, host), CheckLevel::Error, e.1);
    let m1 = msg_if(user.len() == 0, CheckLevel::Error, tagged(host, "User is not set"@));
    let m2 = msg_if(port.len() == 0, CheckLevel::Error, tagged(host, "Port is not set"@));
    let m3 = msg_if(
        only != "yes"@,
        CheckLevel::Warn,
        tagged(host, "IdentitiesOnly is not \"yes\" (current: \""@ + only + "\")"@),
    );
    let m4 = msg_if(
        ssh_g_values(out, "identityfile"@).len() == 0,
        CheckLevel::Warn,
        tagged(host, "No IdentityFile configured"@),
    );
    let all = basic_messages(out, host);
    assert(all == m0 + m1 + m2 + m3 + m4);
    let rest = m1 + m2 + m3 + m4;
    assert(tagged(host, "User is not set"@).len() != e.1.len());
    assert(tagged(host, "Port is not set"@).len() != e.1.len());
    assert forall|i: int| 0 <= i < rest.len() implies rest[i] != e by {
        let a = m1 + m2;
        let b = m3 + m4;
        assert(rest == a + b);
        if i < a.len() {
            assert(rest[i] == a[i]);
            if i < m1.len() {
                assert(a[i] == m1[i]);
            } else {
                assert(a[i] == m2[i - m1.len()]);
            }
        } else {
            assert(rest[i] == b[i - a.len()]);
            if i - a.len() < m3.len() {
                assert(b[i - a.len()] == m3[i - a.len()]);
            } else {
                assert(b[i - a.len()] == m4[i - a.len() - m3.len()]);
            }
        }
    }
    assert(all == m0 + rest);
    if hostname_suspect(hn, host) {
        assert(all[0] == e);
    } else {
        assert(m0.len() == 0);
        assert(all =~= rest);
        if all.contains(e) {
            let i = choose|i: int| 0 <= i < all.len() && all[i] == e;
            assert(rest[i] == e);
        }
    }
}

/// Check basic SSH config fields for a host from pre-resolved `ssh -G`
/// output.
///
/// Validates `HostName`, `User`, `Port`, `IdentitiesOnly` and
/// `IdentityFile`, without running any command.
pub fn check(ssh_g_output: &str, host: &str) -> (r: Vec<CheckMessage>)
    ensures
        msgs_view(r@) == basic_messages(ssh_g_output@, host@),
{
    let mut messages: Vec<CheckMessage> = Vec::new();
    let ghost out = ssh_g_output@;

    let hostname = ssh_g_value_or_default(ssh_g_output, "hostname");
    let hv = chars_of(host);
    let parts = split_char_of(hv.as_slice(), '.');
    let hn = chars_of(hostname.as_str());
    if hn.len() == 0 || (str_eq(hostname.as_str(), host) && parts.len() >= 3) {
        push_message(
            &mut messages,
            CheckLevel::Error,
            tag_text(host, "HostName is empty or equals the host alias with 3+ dot-separated parts"),
        );
    }

    let user = ssh_g_value_or_default(ssh_g_output, "user");
    if chars_of(user.as_str()).len() == 0 {
        push_message(&mut messages, CheckLevel::Error, tag_text(host, "User is not set"));
    }

    let port = ssh_g_value_or_default(ssh_g_output, "port");
    if chars_of(port.as_str()).len() == 0 {
        push_message(&mut messages, CheckLevel::Error, tag_text(host, "Port is not set"));
    }

    let only = ssh_g_value_or_default(ssh_g_output, "identitiesonly");
    if !str_eq(only.as_str(), "yes") {
        let mut text = tag_text(host, "IdentitiesOnly is not \"yes\" (current: \"");
        push_str(&mut text, only.as_str());
        push_str(&mut text, "\")");
        proof {
            assert(text@ =~= tagged(host@, "IdentitiesOnly is not \"yes\" (current: \""@ + only@ + "\")"@));
        }
        push_message(&mut messages, CheckLevel::Warn, text);
    }

    let files = parse_ssh_g_values(ssh_g_output, "identityfile");
    if files.len() == 0 {
        push_message(&mut messages, CheckLevel::Warn, tag_text(host, "No IdentityFile configured"));
    }
    assert(msgs_view(messages@) =~= basic_messages(out, host@));
    messages
}

} // verus!
