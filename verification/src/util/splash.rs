//! ASCII art banners for SSH connect/disconnect and SCP transfers.
//!
//! Each banner is built from a timestamp and the connection data. The
//! timestamp is the local time in [`BANNER_TIME_FORMAT`], read by the
//! program (see [`LocalTime`]).

use vstd::prelude::*;

use crate::text::{push_str, sviews};

verus! {

/// ANSI green.
pub const GREEN: &'static str = "\x1b[32m";
/// ANSI cyan.
pub const CYAN: &'static str = "\x1b[36m";
/// ANSI red.
pub const RED: &'static str = "\x1b[31m";
/// ANSI bold.
pub const BOLD: &'static str = "\x1b[1m";
/// ANSI reset.
pub const RESET: &'static str = "\x1b[0m";
/// Upper edge of a banner box.
pub const BOX_TOP: &'static str = "\u{2554}\u{2550}\u{2550}\u{2550}\u{2550}\u{2550}\u{2550}\u{2550}\u{2550}\u{2550}\u{2550}\u{2550}\u{2550}\u{2550}\u{2550}\u{2550}\u{2550}\u{2550}\u{2550}\u{2550}\u{2550}\u{2550}\u{2550}\u{2550}\u{2550}\u{2550}\u{2550}\u{2550}\u{2550}\u{2550}\u{2550}\u{2550}\u{2550}\u{2550}\u{2550}\u{2550}\u{2550}\u{2550}\u{2550}\u{2557}";
/// Lower edge of a banner box.
pub const BOX_BOTTOM: &'static str = "\u{255a}\u{2550}\u{2550}\u{2550}\u{2550}\u{2550}\u{2550}\u{2550}\u{2550}\u{2550}\u{2550}\u{2550}\u{2550}\u{2550}\u{2550}\u{2550}\u{2550}\u{2550}\u{2550}\u{2550}\u{2550}\u{2550}\u{2550}\u{2550}\u{2550}\u{2550}\u{2550}\u{2550}\u{2550}\u{2550}\u{2550}\u{2550}\u{2550}\u{2550}\u{2550}\u{2550}\u{2550}\u{2550}\u{2550}\u{255d}";
/// Title row of the SSH connect banner.
pub const TITLE_SSH_CONNECTED: &'static str = "\u{2551}        fterm SSH Connected           \u{2551}";
/// Title row of the SSH disconnect banner.
pub const TITLE_SSH_DISCONNECTED: &'static str = "\u{2551}       fterm SSH Disconnected         \u{2551}";
/// Title row of the SCP transfer banner.
pub const TITLE_SCP_TRANSFER: &'static str = "\u{2551}        fterm SCP Transfer            \u{2551}";
/// Title row of the SCP result banner.
pub const TITLE_SCP_RESULT: &'static str = "\u{2551}         fterm SCP Result             \u{2551}";
/// `chrono` format of banner timestamps.
pub const BANNER_TIME_FORMAT: &'static str = "%Y-%m-%d %H:%M:%S";

/// The local time as the library's texts show it: for banners
/// ([`BANNER_TIME_FORMAT`]), and for the date directory and the leading
/// time stamp of log file names (`LOG_DATE_FORMAT` and `LOG_STAMP_FORMAT`
/// of [`crate::command::scp`]). The program reads the clock and fills it
/// in.
#[derive(Debug, Clone)]
pub struct LocalTime {
    /// The time in [`BANNER_TIME_FORMAT`].
    pub banner: String,
    /// The date in `LOG_DATE_FORMAT`.
    pub log_date: String,
    /// The time in `LOG_STAMP_FORMAT`.
    pub log_stamp: String,
}

/// Common banner parameters shared between SSH and SCP banners.
#[derive(Debug)]
pub struct BannerParams<'a> {
    /// Path to the session log file.
    pub log_path: &'a str,
    /// SSH config details (e.g. `ProxyJump`, `IdentityFile`).
    pub ssh_details: &'a [String],
    /// Agent keys matched to the host.
    pub agent_keys: &'a [String],
}

/// `s` followed by a newline.
pub open spec fn ln(s: Seq<char>) -> Seq<char> {
    s + seq!['\n']
}

/// A box row drawn in `color`.
pub open spec fn box_row(color: Seq<char>, row: Seq<char>) -> Seq<char> {
    ln(color + BOLD@ + row + RESET@)
}

/// The three rows of a banner box with `title` in `color`.
pub open spec fn box_text(color: Seq<char>, title: Seq<char>) -> Seq<char> {
    box_row(color, BOX_TOP@) + box_row(color, title) + box_row(color, BOX_BOTTOM@)
}

/// A labelled field row: `"  <bold label><pad><cyan value>"`.
pub open spec fn field_row(label: Seq<char>, pad: Seq<char>, value: Seq<char>) -> Seq<char> {
    ln("  "@ + BOLD@ + label + RESET@ + pad + CYAN@ + value + RESET@)
}

/// A section heading row.
pub open spec fn heading_row(label: Seq<char>) -> Seq<char> {
    ln("  "@ + BOLD@ + label + RESET@)
}

/// One indented cyan row per item.
pub open spec fn item_rows(items: Seq<Seq<char>>) -> Seq<char>
    decreases items.len(),
{
    if items.len() == 0 {
        Seq::empty()
    } else {
        item_rows(items.drop_last()) + ln("    "@ + CYAN@ + items.last() + RESET@)
    }
}

/// A titled list of items, or nothing when there are no items.
pub open spec fn section(label: Seq<char>, items: Seq<Seq<char>>) -> Seq<char> {
    if items.len() > 0 {
        heading_row(label) + item_rows(items)
    } else {
        Seq::empty()
    }
}

/// The SSH config details and agent key sections.
pub open spec fn details_and_keys_text(details: Seq<Seq<char>>, keys: Seq<Seq<char>>) -> Seq<char> {
    section("SSH Config:"@, details) + section("Agent Keys:"@, keys)
}

/// The SSH connect banner.
pub open spec fn connect_banner_text(
    timestamp: Seq<char>,
    config_name: Seq<char>,
    user: Seq<char>,
    hostname: Seq<char>,
    port: Seq<char>,
    log_path: Seq<char>,
    details: Seq<Seq<char>>,
    keys: Seq<Seq<char>>,
) -> Seq<char> {
    box_text(GREEN@, TITLE_SSH_CONNECTED@) + field_row("Timestamp:"@, "  "@, timestamp) + field_row(
        "Config:"@,
        "     "@,
        config_name,
    ) + field_row("Target:"@, "     "@, user + "@"@ + hostname + ":"@ + port) + field_row(
        "Log:"@,
        "        "@,
        log_path,
    ) + details_and_keys_text(details, keys)
}

/// The SSH disconnect banner.
pub open spec fn disconnect_banner_text(
    timestamp: Seq<char>,
    user: Seq<char>,
    hostname: Seq<char>,
    duration: Seq<char>,
    log_path: Seq<char>,
) -> Seq<char> {
    box_text(GREEN@, TITLE_SSH_DISCONNECTED@) + field_row("Timestamp:"@, "  "@, timestamp)
        + field_row("Target:"@, "     "@, user + "@"@ + hostname) + field_row(
        "Duration:"@,
        "   "@,
        duration,
    ) + field_row("Log:"@, "        "@, log_path)
}

/// The SCP transfer banner.
pub open spec fn scp_connect_banner_text(
    timestamp: Seq<char>,
    hosts: Seq<char>,
    log_path: Seq<char>,
    details: Seq<Seq<char>>,
    keys: Seq<Seq<char>>,
) -> Seq<char> {
    box_text(GREEN@, TITLE_SCP_TRANSFER@) + field_row("Timestamp:"@, "  "@, timestamp) + field_row(
        "Target:"@,
        "     "@,
        hosts,
    ) + field_row("Log:"@, "        "@, log_path) + details_and_keys_text(details, keys)
}

/// The SCP result banner: green with `SUCCESS`, or red with `FAILED`.
pub open spec fn scp_result_banner_text(
    timestamp: Seq<char>,
    hosts: Seq<Seq<char>>,
    success: bool,
    duration: Seq<char>,
    log_path: Seq<char>,
) -> Seq<char> {
    let color = if success { GREEN@ } else { RED@ };
    let status = if success { "SUCCESS"@ } else { "FAILED"@ };
    box_text(color, TITLE_SCP_RESULT@) + ln("  "@ + BOLD@ + "Status:"@ + RESET@ + "     "@ + color
        + BOLD@ + status + RESET@) + field_row("Timestamp:"@, "  "@, timestamp) + field_row(
        "Duration:"@,
        "   "@,
        duration,
    ) + field_row("Log:"@, "        "@, log_path) + section("Hosts:"@, hosts)
}

fn push_box(buf: &mut String, color: &str, title: &str)
    ensures
        final(buf)@ == old(buf)@ + box_text(color@, title@),
{
    push_str(buf, color);
    push_str(buf, BOLD);
    push_str(buf, BOX_TOP);
    push_str(buf, RESET);
    push_str(buf, "\n");
    push_str(buf, color);
    push_str(buf, BOLD);
    push_str(buf, title);
    push_str(buf, RESET);
    push_str(buf, "\n");
    push_str(buf, color);
    push_str(buf, BOLD);
    push_str(buf, BOX_BOTTOM);
    push_str(buf, RESET);
    push_str(buf, "\n");
    proof {
        reveal_strlit("\n");
    }
    assert(buf@ =~= old(buf)@ + box_text(color@, title@));
}

fn push_field(buf: &mut String, label: &str, pad: &str, value: &str)
    ensures
        final(buf)@ == old(buf)@ + field_row(label@, pad@, value@),
{
    push_str(buf, "  ");
    push_str(buf, BOLD);
    push_str(buf, label);
    push_str(buf, RESET);
    push_str(buf, pad);
    push_str(buf, CYAN);
    push_str(buf, value);
    push_str(buf, RESET);
    push_str(buf, "\n");
    proof {
        reveal_strlit("\n");
    }
    assert(buf@ =~= old(buf)@ + field_row(label@, pad@, value@));
}

fn push_section(buf: &mut String, label: &str, items: &[String])
    ensures
        final(buf)@ == old(buf)@ + section(label@, sviews(items@)),
{
    proof {
        reveal_strlit("\n");
    }
    if items.len() == 0 {
        assert(buf@ =~= old(buf)@ + section(label@, sviews(items@)));
        return;
    }
    push_str(buf, "  ");
    push_str(buf, BOLD);
    push_str(buf, label);
    push_str(buf, RESET);
    push_str(buf, "\n");
    let ghost start = buf@;
    assert(start =~= old(buf)@ + heading_row(label@));
    let mut i: usize = 0;
    while i < items.len()
        invariant
            i <= items.len(),
            buf@ == start + item_rows(sviews(items@).take(i as int)),
        decreases items.len() - i,
    {
        let ghost pre = sviews(items@).take(i as int);
        push_str(buf, "    ");
        push_str(buf, CYAN);
        push_str(buf, items[i].as_str());
        push_str(buf, RESET);
        push_str(buf, "\n");
        proof {
            reveal_strlit("\n");
            let nxt = sviews(items@).take(i + 1);
            assert(nxt.drop_last() =~= pre);
            assert(nxt.last() == items@[i as int]@);
            assert(buf@ =~= start + item_rows(nxt));
        }
        i = i + 1;
    }
    assert(sviews(items@).take(items.len() as int) =~= sviews(items@));
    assert(buf@ =~= old(buf)@ + section(label@, sviews(items@)));
}

/// Append the SSH config details and agent keys sections to a banner.
pub fn append_details_and_keys(buf: &mut String, ssh_details: &[String], agent_keys: &[String])
    ensures
        final(buf)@ == old(buf)@ + details_and_keys_text(sviews(ssh_details@), sviews(agent_keys@)),
{
    push_section(buf, "SSH Config:", ssh_details);
    push_section(buf, "Agent Keys:", agent_keys);
    assert(buf@ =~= old(buf)@ + details_and_keys_text(sviews(ssh_details@), sviews(agent_keys@)));
}

/// Generate an ASCII art banner showing SSH connection info, stamped with
/// `timestamp`.
///
/// Includes timestamp, config name, `user@hostname:port`, log path, and the
/// SSH config details and agent keys sections when they are non-empty.
pub fn ssh_connect_banner(
    timestamp: &str,
    config_name: &str,
    user: &str,
    hostname: &str,
    port: &str,
    params: &BannerParams<'_>,
) -> (r: String)
    ensures
        r@ == connect_banner_text(
            timestamp@,
            config_name@,
            user@,
            hostname@,
            port@,
            params.log_path@,
            sviews(params.ssh_details@),
            sviews(params.agent_keys@),
        ),
{
    let mut buf = String::new();
    push_box(&mut buf, GREEN, TITLE_SSH_CONNECTED);
    push_field(&mut buf, "Timestamp:", "  ", timestamp);
    push_field(&mut buf, "Config:", "     ", config_name);
    let mut target = crate::text::owned(user);
    push_str(&mut target, "@");
    push_str(&mut target, hostname);
    push_str(&mut target, ":");
    push_str(&mut target, port);
    push_field(&mut buf, "Target:", "     ", target.as_str());
    push_field(&mut buf, "Log:", "        ", params.log_path);
    append_details_and_keys(&mut buf, params.ssh_details, params.agent_keys);
    assert(buf@ =~= connect_banner_text(
        timestamp@,
        config_name@,
        user@,
        hostname@,
        port@,
        params.log_path@,
        sviews(params.ssh_details@),
        sviews(params.agent_keys@),
    ));
    buf
}

/// Generate a disconnect banner showing the session summary, stamped with
/// `timestamp`.
pub fn ssh_disconnect_banner(
    timestamp: &str,
    user: &str,
    hostname: &str,
    duration_str: &str,
    log_path: &str,
) -> (r: String)
    ensures
        r@ == disconnect_banner_text(timestamp@, user@, hostname@, duration_str@, log_path@),
{
    let mut buf = String::new();
    push_box(&mut buf, GREEN, TITLE_SSH_DISCONNECTED);
    push_field(&mut buf, "Timestamp:", "  ", timestamp);
    let mut target = crate::text::owned(user);
    push_str(&mut target, "@");
    push_str(&mut target, hostname);
    push_field(&mut buf, "Target:", "     ", target.as_str());
    push_field(&mut buf, "Duration:", "   ", duration_str);
    push_field(&mut buf, "Log:", "        ", log_path);
    assert(buf@ =~= disconnect_banner_text(timestamp@, user@, hostname@, duration_str@, log_path@));
    buf
}

/// Generate an ASCII art banner showing SCP connection info before the
/// transfer, stamped with `timestamp`.
pub fn scp_connect_banner(timestamp: &str, hosts: &str, params: &BannerParams<'_>) -> (r: String)
    ensures
        r@ == scp_connect_banner_text(
            timestamp@,
            hosts@,
            params.log_path@,
            sviews(params.ssh_details@),
            sviews(params.agent_keys@),
        ),
{
    let mut buf = String::new();
    push_box(&mut buf, GREEN, TITLE_SCP_TRANSFER);
    push_field(&mut buf, "Timestamp:", "  ", timestamp);
    push_field(&mut buf, "Target:", "     ", hosts);
    push_field(&mut buf, "Log:", "        ", params.log_path);
    append_details_and_keys(&mut buf, params.ssh_details, params.agent_keys);
    assert(buf@ =~= scp_connect_banner_text(
        timestamp@,
        hosts@,
        params.log_path@,
        sviews(params.ssh_details@),
        sviews(params.agent_keys@),
    ));
    buf
}

/// Generate a banner showing SCP transfer results, stamped with
/// `timestamp`: the target hosts and whether the transfer succeeded (green)
/// or failed (red).
pub fn scp_result_banner(
    timestamp: &str,
    hosts: &[String],
    success: bool,
    duration_str: &str,
    log_path: &str,
) -> (r: String)
    ensures
        r@ == scp_result_banner_text(timestamp@, sviews(hosts@), success, duration_str@, log_path@),
{
    let color = if success {
        GREEN
    } else {
        RED
    };
    let status = if success {
        "SUCCESS"
    } else {
        "FAILED"
    };
    let mut buf = String::new();
    push_box(&mut buf, color, TITLE_SCP_RESULT);
    push_str(&mut buf, "  ");
    push_str(&mut buf, BOLD);
    push_str(&mut buf, "Status:");
    push_str(&mut buf, RESET);
    push_str(&mut buf, "     ");
    push_str(&mut buf, color);
    push_str(&mut buf, BOLD);
    push_str(&mut buf, status);
    push_str(&mut buf, RESET);
    push_str(&mut buf, "\n");
    proof {
        reveal_strlit("\n");
    }
    push_field(&mut buf, "Timestamp:", "  ", timestamp);
    push_field(&mut buf, "Duration:", "   ", duration_str);
    push_field(&mut buf, "Log:", "        ", log_path);
    push_section(&mut buf, "Hosts:", hosts);
    assert(buf@ =~= scp_result_banner_text(
        timestamp@,
        sviews(hosts@),
        success,
        duration_str@,
        log_path@,
    ));
    buf
}

} // verus!
