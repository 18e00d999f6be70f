use vstd::prelude::*;
use crate::downloader::first_index_of;
use crate::models::ServerStatus;
use crate::numbers::{decimal, decimal_string, lemma_decimal_digits, lemma_decimal_parse_roundtrip, parse_decimal, parse_unsigned};
use crate::text::{chars_of, concat, seq_starts_with, str_eq, str_starts_with, string_of};

verus! {

/// The number that `str::parse` reads from `s`, or 0 where it reads none.
pub open spec fn parse_or_zero(s: Seq<char>, max: nat) -> nat {
    match parse_unsigned(s, max) {
        Some(v) => v,
        None => 0,
    }
}

/// The fields of a status report: ping, players online, player limit, and the
/// message of the day, which is all that follows the third `|` (it may hold `|`
/// itself). `None` when there are fewer than three `|`.
pub open spec fn online_fields(s: Seq<char>) -> Option<(nat, nat, nat, Seq<char>)> {
    let i1 = first_index_of(s, '|');
    let s2 = s.skip(i1 + 1);
    let i2 = first_index_of(s2, '|');
    let s3 = s2.skip(i2 + 1);
    let i3 = first_index_of(s3, '|');
    if i1 < s.len() && i2 < s2.len() && i3 < s3.len() {
        Some((
            parse_or_zero(s.take(i1), u128::MAX as nat),
            parse_or_zero(s2.take(i2), u32::MAX as nat),
            parse_or_zero(s3.take(i3), u32::MAX as nat),
            s3.skip(i3 + 1),
        ))
    } else {
        None
    }
}

/// The text that reports a server online.
pub open spec fn online_report(ping_ms: u128, online: u32, max: u32, motd: Seq<char>) -> Seq<char> {
    "SERVER_ONLINE|"@ + decimal(ping_ms as nat) + "|"@ + decimal(online as nat) + "|"@
        + decimal(max as nat) + "|"@ + motd
}

/// The message that reports a server online with its ping, player counts and message
/// of the day.
pub fn format_server_online(ping_ms: u128, online: u32, max: u32, motd: &str) -> (r: String)
    ensures
        r@ == online_report(ping_ms, online, max, motd@),
{
    let a = concat("SERVER_ONLINE|", decimal_string(ping_ms).as_str());
    let b = concat(a.as_str(), "|");
    let c = concat(b.as_str(), decimal_string(online as u128).as_str());
    let d = concat(c.as_str(), "|");
    let e = concat(d.as_str(), decimal_string(max as u128).as_str());
    let f = concat(e.as_str(), "|");
    concat(f.as_str(), motd)
}

proof fn lemma_first_index_at(s: Seq<char>, c: char, k: int)
    requires
        0 <= k <= s.len(),
        forall|j: int| 0 <= j < k ==> #[trigger] s[j] != c,
        k == s.len() || s[k] == c,
    ensures
        first_index_of(s, c) == k,
    decreases s.len(),
{
    if s.len() > 0 && k > 0 {
        assert forall|j: int| 0 <= j < k - 1 implies #[trigger] s.drop_first()[j] != c by {
            assert(s.drop_first()[j] == s[j + 1]);
        };
        lemma_first_index_at(s.drop_first(), c, k - 1);
    }
}

fn find_char_from(s: &[char], c: char, from: usize) -> (r: usize)
    requires
        from <= s@.len(),
    ensures
        from <= r <= s@.len(),
        r == from + first_index_of(s@.skip(from as int), c),
{
    let mut i: usize = from;
    while i < s.len() && s[i] != c
        invariant
            from <= i <= s@.len(),
            forall|j: int| from <= j < i ==> #[trigger] s@[j] != c,
        decreases s.len() - i,
    {
        i = i + 1;
    }
    proof {
        let t = s@.skip(from as int);
        assert forall|j: int| 0 <= j < i - from implies #[trigger] t[j] != c by {
            assert(t[j] == s@[from + j]);
        };
        lemma_first_index_at(t, c, i - from);
    }
    i
}

/// Reads the fields of a status report (the text after `SERVER_ONLINE|`): a number
/// that does not read is taken as 0; fewer than three `|` give `None`.
pub fn parse_server_online(s: &str) -> (r: Option<ServerStatus>)
    ensures
        match online_fields(s@) {
            Some((ping, online, max, motd)) => r matches Some(st) && st.is_online && st.ping_ms == ping
                && st.players_online == online && st.players_max == max && st.motd@ == motd,
            None => r.is_none(),
        },
{
    let c = chars_of(s);
    let ghost v = c@;
    let i1 = find_char_from(c.as_slice(), '|', 0);
    assert(v.skip(0) =~= v);
    if i1 >= c.len() {
        return None;
    }
    let i2 = find_char_from(c.as_slice(), '|', i1 + 1);
    if i2 >= c.len() {
        proof {
            assert(v.skip(i1 + 1).len() == v.len() - i1 - 1);
        }
        return None;
    }
    let i3 = find_char_from(c.as_slice(), '|', i2 + 1);
    let ghost s2 = v.skip(i1 + 1);
    let ghost s3 = s2.skip(i2 - i1);
    assert(s3 =~= v.skip(i2 + 1));
    if i3 >= c.len() {
        return None;
    }
    let f1 = &c.as_slice()[0..i1];
    let f2 = &c.as_slice()[i1 + 1..i2];
    let f3 = &c.as_slice()[i2 + 1..i3];
    let f4 = &c.as_slice()[i3 + 1..c.len()];
    assert(f1@ =~= v.take(i1 as int));
    assert(f2@ =~= s2.take(i2 - i1 - 1));
    assert(f3@ =~= s3.take(i3 - i2 - 1));
    assert(f4@ =~= s3.skip(i3 - i2));
    let ping = match parse_decimal(f1, u128::MAX) { Some(x) => x, None => 0 };
    let online = match parse_decimal(f2, 0xffff_ffff) { Some(x) => x as u32, None => 0 };
    let max = match parse_decimal(f3, 0xffff_ffff) { Some(x) => x as u32, None => 0 };
    Some(ServerStatus {
        is_online: true,
        motd: string_of(f4),
        players_online: online,
        players_max: max,
        ping_ms: ping,
    })
}

proof fn lemma_no_bar_in_decimal(n: nat)
    ensures
        forall|j: int| 0 <= j < decimal(n).len() ==> #[trigger] decimal(n)[j] != '|',
{
    lemma_decimal_digits(n);
    assert forall|j: int| 0 <= j < decimal(n).len() implies #[trigger] decimal(n)[j] != '|' by {
        assert(crate::numbers::is_digit(decimal(n)[j]));
    };
}

/// A status report is read back as it was written: the ping, the player counts and
/// the message of the day, whatever it holds.
pub proof fn lemma_online_report_roundtrip(ping_ms: u128, online: u32, max: u32, motd: Seq<char>)
    ensures
        online_fields(online_report(ping_ms, online, max, motd).skip(14)) == Some(
            (ping_ms as nat, online as nat, max as nat, motd),
        ),
{
    let d1 = decimal(ping_ms as nat);
    let d2 = decimal(online as nat);
    let d3 = decimal(max as nat);
    reveal_strlit("SERVER_ONLINE|");
    reveal_strlit("|");
    let s = online_report(ping_ms, online, max, motd).skip(14);
    assert(s =~= d1 + "|"@ + d2 + "|"@ + d3 + "|"@ + motd);
    lemma_no_bar_in_decimal(ping_ms as nat);
    lemma_no_bar_in_decimal(online as nat);
    lemma_no_bar_in_decimal(max as nat);
    let i1 = d1.len() as int;
    assert forall|j: int| 0 <= j < i1 implies #[trigger] s[j] != '|' by {
        assert(s[j] == d1[j]);
    };
    lemma_first_index_at(s, '|', i1);
    let s2 = s.skip(i1 + 1);
    assert(s2 =~= d2 + "|"@ + d3 + "|"@ + motd);
    let i2 = d2.len() as int;
    assert forall|j: int| 0 <= j < i2 implies #[trigger] s2[j] != '|' by {
        assert(s2[j] == d2[j]);
    };
    lemma_first_index_at(s2, '|', i2);
    let s3 = s2.skip(i2 + 1);
    assert(s3 =~= d3 + "|"@ + motd);
    let i3 = d3.len() as int;
    assert forall|j: int| 0 <= j < i3 implies #[trigger] s3[j] != '|' by {
        assert(s3[j] == d3[j]);
    };
    lemma_first_index_at(s3, '|', i3);
    assert(s.take(i1) =~= d1);
    assert(s2.take(i2) =~= d2);
    assert(s3.take(i3) =~= d3);
    assert(s3.skip(i3 + 1) =~= motd);
    lemma_decimal_parse_roundtrip(ping_ms as nat, u128::MAX as nat);
    lemma_decimal_parse_roundtrip(online as nat, u32::MAX as nat);
    lemma_decimal_parse_roundtrip(max as nat, u32::MAX as nat);
}


/// The background tasks that report their end with a message.
#[derive(Clone, Copy, Debug, PartialEq, Eq, Structural)]
pub enum FinishKind {
    ModsSuccess,
    ModsError,
    JavaSuccess,
    JavaError,
    LoaderSuccess,
    LoaderError,
    LibsSuccess,
    LibsError,
    VersionSuccess,
    VersionError,
    PluginsSuccess,
    PluginsError,
    ServerCoreSuccess,
    ServerCoreError,
}

/// The task end that a message reports, if it is one.
pub open spec fn finish_kind_spec(m: Seq<char>) -> Option<FinishKind> {
    if m == "FINISH_SUCCESS"@ { Some(FinishKind::ModsSuccess) } else
    if m == "FINISH_ERROR"@ { Some(FinishKind::ModsError) } else
    if m == "FINISH_JAVA_SUCCESS"@ { Some(FinishKind::JavaSuccess) } else
    if m == "FINISH_JAVA_ERROR"@ { Some(FinishKind::JavaError) } else
    if m == "FINISH_LOADER_SUCCESS"@ { Some(FinishKind::LoaderSuccess) } else
    if m == "FINISH_LOADER_ERROR"@ { Some(FinishKind::LoaderError) } else
    if m == "FINISH_LIBS_SUCCESS"@ { Some(FinishKind::LibsSuccess) } else
    if m == "FINISH_LIBS_ERROR"@ { Some(FinishKind::LibsError) } else
    if m == "FINISH_VERSION_SUCCESS"@ { Some(FinishKind::VersionSuccess) } else
    if m == "FINISH_VERSION_ERROR"@ { Some(FinishKind::VersionError) } else
    if m == "FINISH_PLUGINS_SUCCESS"@ { Some(FinishKind::PluginsSuccess) } else
    if m == "FINISH_PLUGINS_ERROR"@ { Some(FinishKind::PluginsError) } else
    if m == "FINISH_SERVER_CORE_SUCCESS"@ { Some(FinishKind::ServerCoreSuccess) } else
    if m == "FINISH_SERVER_CORE_ERROR"@ { Some(FinishKind::ServerCoreError) } else { None }
}

/// The task end that a message reports, if it is one.
pub fn finish_kind(m: &str) -> (r: Option<FinishKind>)
    ensures
        r == finish_kind_spec(m@),
{
    if str_eq(m, "FINISH_SUCCESS") { Some(FinishKind::ModsSuccess) } else
    if str_eq(m, "FINISH_ERROR") { Some(FinishKind::ModsError) } else
    if str_eq(m, "FINISH_JAVA_SUCCESS") { Some(FinishKind::JavaSuccess) } else
    if str_eq(m, "FINISH_JAVA_ERROR") { Some(FinishKind::JavaError) } else
    if str_eq(m, "FINISH_LOADER_SUCCESS") { Some(FinishKind::LoaderSuccess) } else
    if str_eq(m, "FINISH_LOADER_ERROR") { Some(FinishKind::LoaderError) } else
    if str_eq(m, "FINISH_LIBS_SUCCESS") { Some(FinishKind::LibsSuccess) } else
    if str_eq(m, "FINISH_LIBS_ERROR") { Some(FinishKind::LibsError) } else
    if str_eq(m, "FINISH_VERSION_SUCCESS") { Some(FinishKind::VersionSuccess) } else
    if str_eq(m, "FINISH_VERSION_ERROR") { Some(FinishKind::VersionError) } else
    if str_eq(m, "FINISH_PLUGINS_SUCCESS") { Some(FinishKind::PluginsSuccess) } else
    if str_eq(m, "FINISH_PLUGINS_ERROR") { Some(FinishKind::PluginsError) } else
    if str_eq(m, "FINISH_SERVER_CORE_SUCCESS") { Some(FinishKind::ServerCoreSuccess) } else
    if str_eq(m, "FINISH_SERVER_CORE_ERROR") { Some(FinishKind::ServerCoreError) } else { None }
}

/// A reply relayed from the ZeroTier service: its JSON text, an error text, or
/// neither.
#[derive(Debug)]
pub enum ZeroTierReply {
    Reply(String),
    Failure(String),
    Other,
}

pub open spec fn zerotier_reply_is(r: ZeroTierReply, content: Seq<char>) -> bool {
    if seq_starts_with(content, "OK|"@) {
        r matches ZeroTierReply::Reply(j) && j@ == content.skip("OK|"@.len() as int)
    } else if seq_starts_with(content, "ERR|"@) {
        r matches ZeroTierReply::Failure(e) && e@ == content.skip("ERR|"@.len() as int)
    } else {
        r is Other
    }
}

/// A message that the background tasks send to the window.
#[derive(Debug)]
pub enum LauncherMessage {
    Log(String),
    Status(String),
    UpdateMods(String),
    UpdatePlugins(String),
    Finish(FinishKind),
    /// A server status report; `None` when it has too few fields.
    ServerOnline(Option<ServerStatus>),
    ServerOffline,
    ZeroTierStatus(ZeroTierReply),
    ZeroTierNetworks(ZeroTierReply),
    ZeroTierNoToken,
    ZeroTierDisabled,
    Unknown,
}

pub open spec fn online_is(o: Option<ServerStatus>, content: Seq<char>) -> bool {
    match online_fields(content) {
        Some((ping, online, max, motd)) => o matches Some(st) && st.is_online && st.ping_ms == ping
            && st.players_online == online && st.players_max == max && st.motd@ == motd,
        None => o.is_none(),
    }
}

/// How a message is read: by its prefix or its whole text, in this order.
pub open spec fn message_is(r: LauncherMessage, m: Seq<char>) -> bool {
    if seq_starts_with(m, "LOG: "@) {
        r matches LauncherMessage::Log(x) && x@ == m.skip("LOG: "@.len() as int)
    } else if seq_starts_with(m, "STATUS: "@) {
        r matches LauncherMessage::Status(x) && x@ == m.skip("STATUS: "@.len() as int)
    } else if seq_starts_with(m, "UPDATE_MODS:"@) {
        r matches LauncherMessage::UpdateMods(x) && x@ == m.skip("UPDATE_MODS:"@.len() as int)
    } else if seq_starts_with(m, "UPDATE_PLUGINS:"@) {
        r matches LauncherMessage::UpdatePlugins(x) && x@ == m.skip("UPDATE_PLUGINS:"@.len() as int)
    } else if finish_kind_spec(m).is_some() {
        r == LauncherMessage::Finish(finish_kind_spec(m).unwrap())
    } else if seq_starts_with(m, "SERVER_ONLINE|"@) {
        r matches LauncherMessage::ServerOnline(o) && online_is(o, m.skip("SERVER_ONLINE|"@.len() as int))
    } else if m == "SERVER_OFFLINE"@ {
        r is ServerOffline
    } else if seq_starts_with(m, "ZEROTIER_STATUS|"@) {
        r matches LauncherMessage::ZeroTierStatus(z) && zerotier_reply_is(z, m.skip("ZEROTIER_STATUS|"@.len() as int))
    } else if seq_starts_with(m, "ZEROTIER_NETWORKS|"@) {
        r matches LauncherMessage::ZeroTierNetworks(z) && zerotier_reply_is(z, m.skip("ZEROTIER_NETWORKS|"@.len() as int))
    } else if m == "ZEROTIER_NO_TOKEN"@ {
        r is ZeroTierNoToken
    } else if m == "ZEROTIER_DISABLED"@ {
        r is ZeroTierDisabled
    } else {
        r is Unknown
    }
}

/// `s` without the prefix `p`, when it has it.
pub fn strip_prefix(s: &str, p: &str) -> (r: Option<String>)
    ensures
        r.is_some() == seq_starts_with(s@, p@),
        r matches Some(x) ==> x@ == s@.skip(p@.len() as int),
{
    if !str_starts_with(s, p) {
        return None;
    }
    let c = chars_of(s);
    let n = p.unicode_len();
    let rest = &c.as_slice()[n..c.len()];
    assert(rest@ =~= s@.skip(p@.len() as int));
    Some(string_of(rest))
}

fn zerotier_reply(content: &str) -> (r: ZeroTierReply)
    ensures
        zerotier_reply_is(r, content@),
{
    match strip_prefix(content, "OK|") {
        Some(j) => ZeroTierReply::Reply(j),
        None => match strip_prefix(content, "ERR|") {
            Some(e) => ZeroTierReply::Failure(e),
            None => ZeroTierReply::Other,
        },
    }
}

/// Reads a message of the background tasks.
pub fn parse_launcher_message(m: &str) -> (r: LauncherMessage)
    ensures
        message_is(r, m@),
{
    if let Some(x) = strip_prefix(m, "LOG: ") {
        return LauncherMessage::Log(x);
    }
    if let Some(x) = strip_prefix(m, "STATUS: ") {
        return LauncherMessage::Status(x);
    }
    if let Some(x) = strip_prefix(m, "UPDATE_MODS:") {
        return LauncherMessage::UpdateMods(x);
    }
    if let Some(x) = strip_prefix(m, "UPDATE_PLUGINS:") {
        return LauncherMessage::UpdatePlugins(x);
    }
    if let Some(k) = finish_kind(m) {
        return LauncherMessage::Finish(k);
    }
    if let Some(x) = strip_prefix(m, "SERVER_ONLINE|") {
        return LauncherMessage::ServerOnline(parse_server_online(x.as_str()));
    }
    if str_eq(m, "SERVER_OFFLINE") {
        return LauncherMessage::ServerOffline;
    }
    if let Some(x) = strip_prefix(m, "ZEROTIER_STATUS|") {
        return LauncherMessage::ZeroTierStatus(zerotier_reply(x.as_str()));
    }
    if let Some(x) = strip_prefix(m, "ZEROTIER_NETWORKS|") {
        return LauncherMessage::ZeroTierNetworks(zerotier_reply(x.as_str()));
    }
    if str_eq(m, "ZEROTIER_NO_TOKEN") {
        return LauncherMessage::ZeroTierNoToken;
    }
    if str_eq(m, "ZEROTIER_DISABLED") {
        return LauncherMessage::ZeroTierDisabled;
    }
    LauncherMessage::Unknown
}

/// A server report is read back as it was sent: whatever the message of the day
/// holds, the window reads the same ping, player counts and message.
pub proof fn lemma_online_message_roundtrip(ping_ms: u128, online: u32, max: u32, motd: Seq<char>, r: LauncherMessage)
    requires
        message_is(r, online_report(ping_ms, online, max, motd)),
    ensures
        r matches LauncherMessage::ServerOnline(Some(st)) && st.is_online && st.ping_ms == ping_ms
            && st.players_online == online && st.players_max == max && st.motd@ == motd,
{
    reveal_strlit("SERVER_ONLINE|");
    reveal_strlit("LOG: ");
    reveal_strlit("STATUS: ");
    reveal_strlit("UPDATE_MODS:");
    reveal_strlit("UPDATE_PLUGINS:");
    let m = online_report(ping_ms, online, max, motd);
    assert(m.take(14) =~= "SERVER_ONLINE|"@);
    assert(m[0] == 'S');
    assert(!seq_starts_with(m, "LOG: "@)) by {
        assert(m.take(5)[0] != "LOG: "@[0]);
    };
    assert(!seq_starts_with(m, "STATUS: "@)) by {
        assert(m.take(8)[1] != "STATUS: "@[1]);
    };
    assert(!seq_starts_with(m, "UPDATE_MODS:"@)) by {
        assert(m.take(12)[0] != "UPDATE_MODS:"@[0]);
    };
    assert(!seq_starts_with(m, "UPDATE_PLUGINS:"@)) by {
        assert(m.take(15)[0] != "UPDATE_PLUGINS:"@[0]);
    };
    assert(finish_kind_spec(m).is_none()) by {
        assert(m[1] == 'E');
        assert(m.len() >= 14);
        lemma_not_finish(m);
    };
    lemma_online_report_roundtrip(ping_ms, online, max, motd);
}

proof fn lemma_not_finish(m: Seq<char>)
    requires
        m.len() >= 2,
        m[0] == 'S',
    ensures
        finish_kind_spec(m).is_none(),
{
    reveal_strlit("FINISH_SUCCESS");
    assert(m != "FINISH_SUCCESS"@) by { assert("FINISH_SUCCESS"@[0] == 'F'); };
    reveal_strlit("FINISH_ERROR");
    assert(m != "FINISH_ERROR"@) by { assert("FINISH_ERROR"@[0] == 'F'); };
    reveal_strlit("FINISH_JAVA_SUCCESS");
    assert(m != "FINISH_JAVA_SUCCESS"@) by { assert("FINISH_JAVA_SUCCESS"@[0] == 'F'); };
    reveal_strlit("FINISH_JAVA_ERROR");
    assert(m != "FINISH_JAVA_ERROR"@) by { assert("FINISH_JAVA_ERROR"@[0] == 'F'); };
    reveal_strlit("FINISH_LOADER_SUCCESS");
    assert(m != "FINISH_LOADER_SUCCESS"@) by { assert("FINISH_LOADER_SUCCESS"@[0] == 'F'); };
    reveal_strlit("FINISH_LOADER_ERROR");
    assert(m != "FINISH_LOADER_ERROR"@) by { assert("FINISH_LOADER_ERROR"@[0] == 'F'); };
    reveal_strlit("FINISH_LIBS_SUCCESS");
    assert(m != "FINISH_LIBS_SUCCESS"@) by { assert("FINISH_LIBS_SUCCESS"@[0] == 'F'); };
    reveal_strlit("FINISH_LIBS_ERROR");
    assert(m != "FINISH_LIBS_ERROR"@) by { assert("FINISH_LIBS_ERROR"@[0] == 'F'); };
    reveal_strlit("FINISH_VERSION_SUCCESS");
    assert(m != "FINISH_VERSION_SUCCESS"@) by { assert("FINISH_VERSION_SUCCESS"@[0] == 'F'); };
    reveal_strlit("FINISH_VERSION_ERROR");
    assert(m != "FINISH_VERSION_ERROR"@) by { assert("FINISH_VERSION_ERROR"@[0] == 'F'); };
    reveal_strlit("FINISH_PLUGINS_SUCCESS");
    assert(m != "FINISH_PLUGINS_SUCCESS"@) by { assert("FINISH_PLUGINS_SUCCESS"@[0] == 'F'); };
    reveal_strlit("FINISH_PLUGINS_ERROR");
    assert(m != "FINISH_PLUGINS_ERROR"@) by { assert("FINISH_PLUGINS_ERROR"@[0] == 'F'); };
    reveal_strlit("FINISH_SERVER_CORE_SUCCESS");
    assert(m != "FINISH_SERVER_CORE_SUCCESS"@) by { assert("FINISH_SERVER_CORE_SUCCESS"@[0] == 'F'); };
    reveal_strlit("FINISH_SERVER_CORE_ERROR");
    assert(m != "FINISH_SERVER_CORE_ERROR"@) by { assert("FINISH_SERVER_CORE_ERROR"@[0] == 'F'); };
}

} // verus!
