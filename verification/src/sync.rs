use vstd::prelude::*;
use crate::downloader::last_index_of;
use crate::hashing::{hex_lower, sha256_hex, sha256_spec};
use crate::models::ModConfig;
use crate::downloader::core_file_path;
use crate::messages::{finish_kind_spec, message_is, FinishKind, LauncherMessage};
use crate::text::{chars_of, concat, seq_starts_with, str_eq, string_from, string_of};

verus! {

/// The entry as it is kept, with the digest it is recorded with.
pub open spec fn with_sha(m: ModConfig, sha: Option<String>) -> ModConfig {
    ModConfig { sha256: sha, ..m }
}

/// What became of one entry of a synchronization: the entry kept in the updated
/// list (none when it is dropped), and whether an error is reported.
#[derive(Debug)]
pub struct ItemOutcome {
    pub kept: Option<ModConfig>,
    pub error: bool,
}

/// How an entry's synchronization begins.
#[derive(Debug)]
pub enum SyncStart {
    /// The entry is switched off: its file is renamed to `.disabled` where it is
    /// present, and the entry is kept without a digest.
    Disable { rename_to_disabled: bool, outcome: ItemOutcome },
    /// The entry is switched on: a `.disabled` file is renamed back where the file
    /// itself is absent; then the file is looked for.
    Enable { rename_from_disabled: bool, item: ModConfig },
}

/// Begins the synchronization of an entry, given whether its file and its
/// `.disabled` file are present.
pub fn sync_start(item: ModConfig, path_exists: bool, disabled_exists: bool) -> (r: SyncStart)
    ensures
        !item.enabled ==> (r matches SyncStart::Disable { rename_to_disabled, outcome }
            && rename_to_disabled == path_exists && !outcome.error && outcome.kept == Some(
            with_sha(item, None),
        )),
        item.enabled ==> (r matches SyncStart::Enable { rename_from_disabled, item: i }
            && rename_from_disabled == (disabled_exists && !path_exists) && i == item),
{
    if !item.enabled {
        let mut m = item;
        m.sha256 = None;
        SyncStart::Disable {
            rename_to_disabled: path_exists,
            outcome: ItemOutcome { kept: Some(m), error: false },
        }
    } else {
        SyncStart::Enable { rename_from_disabled: disabled_exists && !path_exists, item }
    }
}

/// What follows the digest of the local file.
#[derive(Debug)]
pub enum AfterLocalHash {
    /// The entry may not be updated: it is kept with the local digest.
    Keep(ItemOutcome),
    /// The file is to be downloaded; the local digest, if there is one, is kept for
    /// comparison.
    Download { item: ModConfig, current_hash: Option<String> },
}

/// Decides after the local file was found and its digest computed (`None` where it
/// could not be read).
pub fn after_local_hash(item: ModConfig, local_hash: Option<String>) -> (r: AfterLocalHash)
    ensures
        match local_hash {
            Some(h) => if !item.allow_update {
                r matches AfterLocalHash::Keep(o) && !o.error && o.kept == Some(with_sha(item, Some(h)))
            } else {
                r matches AfterLocalHash::Download { item: i, current_hash } && i == item
                    && current_hash == Some(h)
            },
            None => r matches AfterLocalHash::Download { item: i, current_hash } && i == item
                && current_hash.is_none(),
        },
{
    match local_hash {
        Some(h) => {
            if !item.allow_update {
                let mut m = item;
                m.sha256 = Some(h);
                AfterLocalHash::Keep(ItemOutcome { kept: Some(m), error: false })
            } else {
                AfterLocalHash::Download { item, current_hash: Some(h) }
            }
        },
        None => AfterLocalHash::Download { item, current_hash: None },
    }
}

/// What a download attempt gave.
#[derive(Debug)]
pub enum FetchResult {
    /// The request failed, or the server answered with an error status.
    Failed,
    /// The answer came but its body could not be read.
    BodyFailed,
    /// The body.
    Body(Vec<u8>),
}

/// What follows a download.
#[derive(Debug)]
pub enum AfterFetch {
    /// The entry's synchronization is over.
    Finish(ItemOutcome),
    /// The downloaded bytes differ from the local file: they are to be written, and
    /// `new_hash` is their digest.
    Write { item: ModConfig, bytes: Vec<u8>, new_hash: String },
}

/// Decides after a download: without a body the local copy, if there is one, is kept
/// with its digest (a failed request is no error where a local copy is kept; an
/// unreadable body always is); a body whose digest is the local one is not written.
pub fn after_fetch(
    item: ModConfig,
    file_exists: bool,
    current_hash: Option<String>,
    fetch: FetchResult,
) -> (r: AfterFetch)
    ensures
        match fetch {
            FetchResult::Failed => r matches AfterFetch::Finish(o) && o.error == !file_exists
                && o.kept == (if file_exists { Some(with_sha(item, current_hash)) } else { None }),
            FetchResult::BodyFailed => r matches AfterFetch::Finish(o) && o.error
                && o.kept == (if file_exists { Some(with_sha(item, current_hash)) } else { None }),
            FetchResult::Body(bytes) => {
                let new_hash = hex_lower(sha256_spec(bytes@));
                if current_hash matches Some(h) && h@ == new_hash {
                    r matches AfterFetch::Finish(o) && !o.error && (o.kept matches Some(m)
                        && m.url == item.url && m.filename == item.filename
                        && m.allow_update == item.allow_update && m.enabled == item.enabled
                        && (m.sha256 matches Some(s) && s@ == new_hash))
                } else {
                    r matches AfterFetch::Write { item: i, bytes: b, new_hash: nh } && i == item
                        && b@ == bytes@ && nh@ == new_hash
                }
            },
        },
{
    match fetch {
        FetchResult::Failed => {
            if file_exists {
                let mut m = item;
                m.sha256 = current_hash;
                AfterFetch::Finish(ItemOutcome { kept: Some(m), error: false })
            } else {
                AfterFetch::Finish(ItemOutcome { kept: None, error: true })
            }
        },
        FetchResult::BodyFailed => {
            if file_exists {
                let mut m = item;
                m.sha256 = current_hash;
                AfterFetch::Finish(ItemOutcome { kept: Some(m), error: true })
            } else {
                AfterFetch::Finish(ItemOutcome { kept: None, error: true })
            }
        },
        FetchResult::Body(bytes) => {
            let new_hash = sha256_hex(bytes.as_slice());
            let unchanged = match &current_hash {
                Some(h) => str_eq(h.as_str(), new_hash.as_str()),
                None => false,
            };
            if unchanged {
                let mut m = item;
                m.sha256 = Some(new_hash);
                AfterFetch::Finish(ItemOutcome { kept: Some(m), error: false })
            } else {
                AfterFetch::Write { item, bytes, new_hash }
            }
        },
    }
}

/// Finishes after the downloaded bytes were written: on success the entry records
/// their digest; on failure it keeps the digest it had, and an error is reported.
pub fn after_write(item: ModConfig, new_hash: String, written: bool) -> (r: ItemOutcome)
    ensures
        written ==> !r.error && r.kept == Some(with_sha(item, Some(new_hash))),
        !written ==> r.error && r.kept == Some(item),
{
    if written {
        let mut m = item;
        m.sha256 = Some(new_hash);
        ItemOutcome { kept: Some(m), error: false }
    } else {
        ItemOutcome { kept: Some(item), error: true }
    }
}

/// The entries kept so far and whether any error was reported.
#[derive(Debug)]
pub struct SyncReport {
    pub updated: Vec<ModConfig>,
    pub has_errors: bool,
}

/// What became of one entry, as plain values.
pub type OutcomeView = (Option<EntryView>, bool);

pub open spec fn outcome_view(o: ItemOutcome) -> OutcomeView {
    (match o.kept {
        Some(m) => Some(entry_view(m)),
        None => None,
    }, o.error)
}

/// A report as plain values: the entries kept, and whether an error was reported.
pub open spec fn report_view(r: SyncReport) -> (Seq<EntryView>, bool) {
    (entries_view(r.updated@), r.has_errors)
}

/// A report after one more entry: its kept entry, if any, goes at the end.
pub open spec fn report_step(r: (Seq<EntryView>, bool), o: OutcomeView) -> (Seq<EntryView>, bool) {
    (match o.0 {
        Some(e) => r.0.push(e),
        None => r.0,
    }, r.1 || o.1)
}

/// The report after the entries' outcomes, in order.
pub open spec fn report_after(outcomes: Seq<OutcomeView>) -> (Seq<EntryView>, bool)
    decreases outcomes.len(),
{
    if outcomes.len() == 0 {
        (Seq::empty(), false)
    } else {
        report_step(report_after(outcomes.drop_last()), outcomes.last())
    }
}

impl SyncReport {
    /// An empty report.
    pub fn new() -> (r: SyncReport)
        ensures
            r.updated@.len() == 0,
            !r.has_errors,
            report_view(r) == report_after(Seq::empty()),
    {
        proof {
            assert(entries_view(Seq::<ModConfig>::empty()) =~= Seq::empty());
        }
        SyncReport { updated: Vec::new(), has_errors: false }
    }

    /// Records what became of one entry.
    pub fn record(&mut self, outcome: ItemOutcome)
        ensures
            final(self).updated@ == match outcome.kept {
                Some(m) => old(self).updated@.push(m),
                None => old(self).updated@,
            },
            final(self).has_errors == (old(self).has_errors || outcome.error),
            report_view(*final(self)) == report_step(report_view(*old(self)), outcome_view(outcome)),
    {
        let ghost before = entries_view(self.updated@);
        match outcome.kept {
            Some(m) => {
                self.updated.push(m);
                assert(entries_view(self.updated@) =~= before.push(entry_view(m)));
            },
            None => {},
        }
        self.has_errors = self.has_errors || outcome.error;
    }
}

/// What a synchronization is of.
#[derive(Clone, Copy, Debug, PartialEq, Eq, Structural)]
pub enum SyncKind {
    Mods,
    Plugins,
}

/// The message that ends a synchronization of that kind, with or without errors.
pub open spec fn sync_token_spec(kind: SyncKind, has_errors: bool) -> Seq<char> {
    match kind {
        SyncKind::Mods => if has_errors { "FINISH_ERROR"@ } else { "FINISH_SUCCESS"@ },
        SyncKind::Plugins => if has_errors { "FINISH_PLUGINS_ERROR"@ } else { "FINISH_PLUGINS_SUCCESS"@ },
    }
}

/// The message that ends a synchronization.
pub fn sync_finish_token(kind: SyncKind, has_errors: bool) -> (r: String)
    ensures
        r@ == sync_token_spec(kind, has_errors),
{
    match kind {
        SyncKind::Mods => if has_errors { string_from("FINISH_ERROR") } else { string_from("FINISH_SUCCESS") },
        SyncKind::Plugins => if has_errors {
            string_from("FINISH_PLUGINS_ERROR")
        } else {
            string_from("FINISH_PLUGINS_SUCCESS")
        },
    }
}

/// The prefix of the message that carries the updated list of that kind.
pub open spec fn sync_prefix_spec(kind: SyncKind) -> Seq<char> {
    match kind {
        SyncKind::Mods => "UPDATE_MODS:"@,
        SyncKind::Plugins => "UPDATE_PLUGINS:"@,
    }
}

/// The prefix of the message that carries the updated list (as JSON).
pub fn sync_update_prefix(kind: SyncKind) -> (r: String)
    ensures
        r@ == sync_prefix_spec(kind),
{
    match kind {
        SyncKind::Mods => string_from("UPDATE_MODS:"),
        SyncKind::Plugins => string_from("UPDATE_PLUGINS:"),
    }
}

/// The folder, under the server directory, that a synchronization of that kind
/// works in.
pub open spec fn sync_folder_spec(kind: SyncKind) -> Seq<char> {
    match kind {
        SyncKind::Mods => "mods"@,
        SyncKind::Plugins => "plugins"@,
    }
}

/// The directory that a synchronization works in: `./run/mods` or `./run/plugins`.
pub fn sync_dir(kind: SyncKind) -> (r: String)
    ensures
        r@ == "./run/"@ + sync_folder_spec(kind),
{
    match kind {
        SyncKind::Mods => core_file_path("mods"),
        SyncKind::Plugins => core_file_path("plugins"),
    }
}

/// The task end that the window reads from the last message of a synchronization.
pub open spec fn sync_finish_kind(kind: SyncKind, has_errors: bool) -> FinishKind {
    match kind {
        SyncKind::Mods => if has_errors { FinishKind::ModsError } else { FinishKind::ModsSuccess },
        SyncKind::Plugins => if has_errors { FinishKind::PluginsError } else { FinishKind::PluginsSuccess },
    }
}

/// The part of the end message that names the kind: `FINISH_` or `FINISH_PLUGINS_`.
pub open spec fn finish_tag(kind: SyncKind) -> Seq<char> {
    match kind {
        SyncKind::Mods => "FINISH_"@,
        SyncKind::Plugins => "FINISH_PLUGINS_"@,
    }
}

/// The part of the end message that tells the outcome: `ERROR` or `SUCCESS`.
pub open spec fn finish_outcome(has_errors: bool) -> Seq<char> {
    if has_errors { "ERROR"@ } else { "SUCCESS"@ }
}

/// The part of the update prefix that names the kind: `MODS` or `PLUGINS`.
pub open spec fn update_tag(kind: SyncKind) -> Seq<char> {
    match kind {
        SyncKind::Mods => "MODS"@,
        SyncKind::Plugins => "PLUGINS"@,
    }
}

/// The messages that end a synchronization: the updated list (when it could be
/// written as JSON) after the kind's prefix, then the kind's end message.
pub open spec fn end_messages_spec(kind: SyncKind, has_errors: bool, json: Option<Seq<char>>) -> Seq<Seq<char>> {
    match json {
        Some(j) => seq![sync_prefix_spec(kind) + j, sync_token_spec(kind, has_errors)],
        None => seq![sync_token_spec(kind, has_errors)],
    }
}

/// The messages that end a synchronization.
pub fn sync_end_messages(kind: SyncKind, has_errors: bool, json: Option<&str>) -> (r: Vec<String>)
    ensures
        r@.map_values(|m: String| m@) == end_messages_spec(kind, has_errors, match json {
            Some(j) => Some(j@),
            None => None,
        }),
{
    let mut r: Vec<String> = Vec::new();
    match json {
        Some(j) => {
            let p = sync_update_prefix(kind);
            r.push(concat(p.as_str(), j));
        },
        None => {},
    }
    r.push(sync_finish_token(kind, has_errors));
    proof {
        let jv = match json {
            Some(j) => Some(j@),
            None => None,
        };
        assert(r@.map_values(|m: String| m@) =~= end_messages_spec(kind, has_errors, jv));
    }
    r
}

/// A message of a mods synchronization as the plugins synchronization sends it:
/// `UPDATE_MODS:` becomes `UPDATE_PLUGINS:`, and `FINISH_SUCCESS` and `FINISH_ERROR`
/// become `FINISH_PLUGINS_SUCCESS` and `FINISH_PLUGINS_ERROR`.
pub open spec fn as_plugin_message(m: Seq<char>) -> Seq<char> {
    if seq_starts_with(m, "UPDATE_MODS:"@) {
        "UPDATE_PLUGINS:"@ + m.skip(12)
    } else if m == "FINISH_SUCCESS"@ {
        "FINISH_PLUGINS_SUCCESS"@
    } else if m == "FINISH_ERROR"@ {
        "FINISH_PLUGINS_ERROR"@
    } else {
        m
    }
}

/// A whole synchronization of that kind, given what became of each entry: the
/// directory it works in, the list it reports, and the messages it ends with (the
/// list written as `json`, when it could be).
pub open spec fn sync_run_spec(kind: SyncKind, outcomes: Seq<OutcomeView>, json: Option<Seq<char>>) -> (
    Seq<char>,
    Seq<EntryView>,
    Seq<Seq<char>>,
) {
    let r = report_after(outcomes);
    ("./run/"@ + sync_folder_spec(kind), r.0, end_messages_spec(kind, r.1, json))
}

/// Synchronizing plugins is synchronizing mods in `./run/plugins` in place of
/// `./run/mods`, with `UPDATE_PLUGINS:`, `FINISH_PLUGINS_SUCCESS` and
/// `FINISH_PLUGINS_ERROR` in place of `UPDATE_MODS:`, `FINISH_SUCCESS` and
/// `FINISH_ERROR`. The steps of an entry (`sync_start`, `after_local_hash`,
/// `after_fetch`, `after_write`) take no kind, so each entry comes to the same outcome
/// in both; from the same outcomes, both report the same list in the same order,
/// with the same entries dropped and the same error flag, and end with the same
/// messages up to those tags.
pub proof fn lemma_plugin_run_is_mod_run_renamed(outcomes: Seq<OutcomeView>, json: Option<Seq<char>>)
    ensures
        sync_run_spec(SyncKind::Mods, outcomes, json).0 == "./run/mods"@,
        sync_run_spec(SyncKind::Plugins, outcomes, json).0 == "./run/plugins"@,
        sync_run_spec(SyncKind::Plugins, outcomes, json).1 == sync_run_spec(SyncKind::Mods, outcomes, json).1,
        sync_run_spec(SyncKind::Plugins, outcomes, json).2 == sync_run_spec(SyncKind::Mods, outcomes, json).2.map_values(
            |m: Seq<char>| as_plugin_message(m),
        ),
{
    reveal_strlit("./run/");
    reveal_strlit("mods");
    reveal_strlit("plugins");
    reveal_strlit("./run/mods");
    reveal_strlit("./run/plugins");
    reveal_strlit("UPDATE_MODS:");
    reveal_strlit("UPDATE_PLUGINS:");
    reveal_strlit("FINISH_SUCCESS");
    reveal_strlit("FINISH_ERROR");
    assert("./run/"@ + "mods"@ =~= "./run/mods"@);
    assert("./run/"@ + "plugins"@ =~= "./run/plugins"@);
    let e = report_after(outcomes).1;
    let tok = sync_token_spec(SyncKind::Mods, e);
    assert(!seq_starts_with(tok, "UPDATE_MODS:"@)) by {
        assert(tok[0] == 'F');
        if seq_starts_with(tok, "UPDATE_MODS:"@) {
            assert(tok.subrange(0, 12)[0] == "UPDATE_MODS:"@[0]);
        }
    };
    if e {
        assert(tok == "FINISH_ERROR"@);
        assert(tok.len() != "FINISH_SUCCESS"@.len());
    }
    let mp = sync_run_spec(SyncKind::Mods, outcomes, json).2;
    let pp = sync_run_spec(SyncKind::Plugins, outcomes, json).2;
    match json {
        Some(j) => {
            let m0 = "UPDATE_MODS:"@ + j;
            assert(m0.subrange(0, 12) =~= "UPDATE_MODS:"@);
            assert(m0.skip(12) =~= j);
            assert(pp =~= mp.map_values(|m: Seq<char>| as_plugin_message(m)));
        },
        None => {
            assert(pp =~= mp.map_values(|m: Seq<char>| as_plugin_message(m)));
        },
    }
}

/// Synchronizing plugins is synchronizing mods with the folder and the message tags
/// swapped. The steps of a synchronization (`sync_start`, `after_local_hash`,
/// `after_fetch`, `after_write`, `SyncReport::record`) take no kind; the kind gives
/// only the folder (`mods` or `plugins` under `./run/`), the update prefix
/// (`UPDATE_` and `MODS` or `PLUGINS`, then `:`) and the end message (`FINISH_` or
/// `FINISH_PLUGINS_`, then the same outcome word). The window reads what each kind
/// sends back as that kind's list update, with the list text unchanged, and as that
/// kind's task end, with the same outcome.
pub proof fn lemma_plugin_sync_mirrors_mod_sync(kind: SyncKind, has_errors: bool, payload: Seq<char>, r: LauncherMessage)
    ensures
        sync_token_spec(kind, has_errors) == finish_tag(kind) + finish_outcome(has_errors),
        sync_prefix_spec(kind) == "UPDATE_"@ + update_tag(kind) + ":"@,
        finish_kind_spec(sync_token_spec(kind, has_errors)) == Some(sync_finish_kind(kind, has_errors)),
        kind == SyncKind::Mods ==> (message_is(r, sync_prefix_spec(kind) + payload) <==> (
            r matches LauncherMessage::UpdateMods(x) && x@ == payload)),
        kind == SyncKind::Plugins ==> (message_is(r, sync_prefix_spec(kind) + payload) <==> (
            r matches LauncherMessage::UpdatePlugins(x) && x@ == payload)),
{
    reveal_strlit("FINISH_");
    reveal_strlit("FINISH_PLUGINS_");
    reveal_strlit("ERROR");
    reveal_strlit("SUCCESS");
    reveal_strlit("FINISH_ERROR");
    reveal_strlit("FINISH_SUCCESS");
    reveal_strlit("FINISH_PLUGINS_ERROR");
    reveal_strlit("FINISH_PLUGINS_SUCCESS");
    reveal_strlit("UPDATE_");
    reveal_strlit("MODS");
    reveal_strlit("PLUGINS");
    reveal_strlit(":");
    reveal_strlit("UPDATE_MODS:");
    reveal_strlit("UPDATE_PLUGINS:");
    reveal_strlit("LOG: ");
    reveal_strlit("STATUS: ");
    assert(sync_token_spec(kind, has_errors) =~= finish_tag(kind) + finish_outcome(has_errors));
    assert(sync_prefix_spec(kind) =~= "UPDATE_"@ + update_tag(kind) + ":"@);
    let e = sync_token_spec(kind, has_errors);
    reveal_strlit("FINISH_JAVA_SUCCESS");
    reveal_strlit("FINISH_JAVA_ERROR");
    reveal_strlit("FINISH_LOADER_SUCCESS");
    reveal_strlit("FINISH_LOADER_ERROR");
    reveal_strlit("FINISH_LIBS_SUCCESS");
    reveal_strlit("FINISH_LIBS_ERROR");
    reveal_strlit("FINISH_VERSION_SUCCESS");
    reveal_strlit("FINISH_VERSION_ERROR");
    if kind == SyncKind::Plugins {
        assert(e[7] == 'P');
        assert(e != "FINISH_SUCCESS"@ && e != "FINISH_ERROR"@);
        assert(e != "FINISH_JAVA_SUCCESS"@ && e != "FINISH_JAVA_ERROR"@) by {
            assert("FINISH_JAVA_SUCCESS"@[7] == 'J' && "FINISH_JAVA_ERROR"@[7] == 'J');
        };
        assert(e != "FINISH_LOADER_SUCCESS"@ && e != "FINISH_LOADER_ERROR"@) by {
            assert("FINISH_LOADER_SUCCESS"@[7] == 'L' && "FINISH_LOADER_ERROR"@[7] == 'L');
        };
        assert(e != "FINISH_LIBS_SUCCESS"@ && e != "FINISH_LIBS_ERROR"@) by {
            assert("FINISH_LIBS_SUCCESS"@[7] == 'L' && "FINISH_LIBS_ERROR"@[7] == 'L');
        };
        assert(e != "FINISH_VERSION_SUCCESS"@ && e != "FINISH_VERSION_ERROR"@) by {
            assert("FINISH_VERSION_SUCCESS"@[7] == 'V' && "FINISH_VERSION_ERROR"@[7] == 'V');
        };
        if has_errors {
            assert(e != "FINISH_PLUGINS_SUCCESS"@);
        }
    } else if has_errors {
        assert(e != "FINISH_SUCCESS"@);
    }
    let m = sync_prefix_spec(kind) + payload;
    assert(m[0] == 'U');
    assert(!seq_starts_with(m, "LOG: "@)) by {
        assert(m.subrange(0, 5)[0] != "LOG: "@[0]);
    };
    assert(!seq_starts_with(m, "STATUS: "@)) by {
        assert(m.subrange(0, 8)[0] != "STATUS: "@[0]);
    };
    match kind {
        SyncKind::Mods => {
            assert(m.subrange(0, 12) =~= "UPDATE_MODS:"@);
            assert(m.skip(12) =~= payload);
        },
        SyncKind::Plugins => {
            assert(!seq_starts_with(m, "UPDATE_MODS:"@)) by {
                assert(m.subrange(0, 12)[7] != "UPDATE_MODS:"@[7]);
            };
            assert(m.subrange(0, 15) =~= "UPDATE_PLUGINS:"@);
            assert(m.skip(15) =~= payload);
        },
    }
}

/// The extension of a file name, as `Path::extension` finds it: the text after the
/// last `.`, when that dot is not the name's first character.
pub open spec fn extension_spec(name: Seq<char>) -> Option<Seq<char>> {
    let p = last_index_of(name, '.');
    if p <= 0 { None } else { Some(name.skip(p + 1)) }
}

/// The name without its extension, as `Path::file_stem` finds it.
pub open spec fn stem_spec(name: Seq<char>) -> Seq<char> {
    let p = last_index_of(name, '.');
    if p <= 0 { name } else { name.take(p) }
}

proof fn lemma_last_dot(s: Seq<char>)
    ensures
        -1 <= last_index_of(s, '.') < s.len(),
        last_index_of(s, '.') >= 0 ==> s[last_index_of(s, '.')] == '.',
        forall|k: int| last_index_of(s, '.') < k < s.len() ==> s[k] != '.',
    decreases s.len(),
{
    if s.len() > 0 && s.last() != '.' {
        let t = s.drop_last();
        lemma_last_dot(t);
        assert forall|k: int| last_index_of(s, '.') < k < s.len() implies s[k] != '.' by {
            if k < s.len() - 1 {
                assert(s[k] == t[k]);
            }
        };
    }
}

fn last_dot(s: &[char]) -> (r: usize)
    ensures
        r as int == last_index_of(s@, '.') + 1,
        r <= s@.len(),
{
    proof {
        lemma_last_dot(s@);
    }
    let mut i: usize = s.len();
    while i > 0
        invariant
            i <= s@.len(),
            forall|k: int| i <= k < s@.len() ==> s@[k] != '.',
        decreases i,
    {
        if s[i - 1] == '.' {
            proof {
                lemma_last_dot(s@);
                let p = last_index_of(s@, '.');
                if p < i - 1 {
                    assert(s@[i - 1] != '.');
                } else if p > i - 1 {
                    assert(s@[p] == '.');
                }
            }
            return i;
        }
        i = i - 1;
    }
    proof {
        lemma_last_dot(s@);
        let p = last_index_of(s@, '.');
        if p >= 0 {
            assert(s@[p] == '.');
        }
    }
    0
}

/// The extension of a file name and its stem.
pub fn file_extension(name: &str) -> (r: (Option<String>, String))
    ensures
        match extension_spec(name@) {
            Some(e) => r.0 matches Some(x) && x@ == e,
            None => r.0.is_none(),
        },
        r.1@ == stem_spec(name@),
{
    let c = chars_of(name);
    let d = last_dot(c.as_slice());
    if d <= 1 {
        return (None, string_of(c.as_slice()));
    }
    let p = d - 1;
    let ext = &c.as_slice()[p + 1..c.len()];
    let stem = &c.as_slice()[0..p];
    assert(ext@ =~= name@.skip(p + 1));
    assert(stem@ =~= name@.take(p as int));
    (Some(string_of(ext)), string_of(stem))
}

/// Whether a file name ends in the extension `ext`.
pub fn has_extension(name: &str, ext: &str) -> (r: bool)
    ensures
        r == (extension_spec(name@) == Some(ext@)),
{
    let (e, _) = file_extension(name);
    match e {
        Some(x) => str_eq(x.as_str(), ext),
        None => false,
    }
}

/// What a file found in the mods or plugins directory stands for: nothing unless it
/// is a `.jar` or `.disabled` file; a `name.jar.disabled` file is the switched-off
/// entry `name.jar`; any other is a switched-on entry of its own name.
pub open spec fn local_entry_spec(name: Seq<char>) -> Option<(Seq<char>, bool)> {
    match extension_spec(name) {
        Some(e) => if e == "jar"@ {
            Some((name, true))
        } else if e == "disabled"@ {
            if extension_spec(stem_spec(name)) == Some("jar"@) {
                Some((stem_spec(name), false))
            } else {
                Some((name, true))
            }
        } else {
            None
        },
        None => None,
    }
}

/// The entry that a file of the mods or plugins directory stands for: its file name
/// and whether it is switched on.
pub fn local_entry(name: &str) -> (r: Option<(String, bool)>)
    ensures
        match local_entry_spec(name@) {
            Some((f, en)) => r matches Some((x, y)) && x@ == f && y == en,
            None => r.is_none(),
        },
{
    let (ext, stem) = file_extension(name);
    match ext {
        Some(e) => {
            if str_eq(e.as_str(), "jar") {
                Some((string_from(name), true))
            } else if str_eq(e.as_str(), "disabled") {
                if has_extension(stem.as_str(), "jar") {
                    Some((stem, false))
                } else {
                    Some((string_from(name), true))
                }
            } else {
                None
            }
        },
        None => None,
    }
}

/// An entry as plain values: address, file name, updates allowed, digest, switched
/// on.
pub type EntryView = (Seq<char>, Seq<char>, bool, Option<Seq<char>>, bool);

pub open spec fn entry_view(m: ModConfig) -> EntryView {
    (m.url@, m.filename@, m.allow_update, match m.sha256 {
        Some(s) => Some(s@),
        None => None,
    }, m.enabled)
}

pub open spec fn entries_view(s: Seq<ModConfig>) -> Seq<EntryView> {
    s.map_values(|m: ModConfig| entry_view(m))
}

pub open spec fn has_entry(entries: Seq<EntryView>, filename: Seq<char>) -> bool {
    exists|i: int| 0 <= i < entries.len() && #[trigger] entries[i].1 == filename
}

/// A local file's entry: no address, no digest, no updates.
pub open spec fn local_entry_view(f: Seq<char>, enabled: bool) -> EntryView {
    (""@, f, false, None, enabled)
}

/// The entries after taking in the files of the directory, in order: each file that
/// stands for an entry whose name is not listed yet adds that entry.
pub open spec fn merge_spec(entries: Seq<EntryView>, files: Seq<Seq<char>>) -> Seq<EntryView>
    decreases files.len(),
{
    if files.len() == 0 {
        entries
    } else {
        let before = merge_spec(entries, files.drop_last());
        match local_entry_spec(files.last()) {
            Some((f, en)) => if has_entry(before, f) {
                before
            } else {
                before.push(local_entry_view(f, en))
            },
            None => before,
        }
    }
}

pub open spec fn names_unique(entries: Seq<EntryView>) -> bool {
    forall|i: int, j: int| 0 <= i < entries.len() && 0 <= j < entries.len() && i != j ==>
        #[trigger] entries[i].1 != #[trigger] entries[j].1
}

/// Taking in local files keeps the listed entries as they are, adds entries only at
/// the end, and never gives two entries the same file name.
pub proof fn lemma_merge_keeps_entries(entries: Seq<EntryView>, files: Seq<Seq<char>>)
    requires
        names_unique(entries),
    ensures
        names_unique(merge_spec(entries, files)),
        merge_spec(entries, files).len() >= entries.len(),
        merge_spec(entries, files).take(entries.len() as int) == entries,
    decreases files.len(),
{
    if files.len() > 0 {
        let before = merge_spec(entries, files.drop_last());
        lemma_merge_keeps_entries(entries, files.drop_last());
        match local_entry_spec(files.last()) {
            Some((f, en)) => if !has_entry(before, f) {
                let after = before.push(local_entry_view(f, en));
                assert forall|i: int, j: int| 0 <= i < after.len() && 0 <= j < after.len() && i != j
                    implies #[trigger] after[i].1 != #[trigger] after[j].1 by {
                    if i < before.len() && j < before.len() {
                        assert(before[i].1 != before[j].1);
                    } else if i < before.len() {
                        assert(before[i].1 != f);
                    } else {
                        assert(before[j].1 != f);
                    }
                };
                assert(after.take(entries.len() as int) =~= before.take(entries.len() as int));
            },
            None => {},
        }
    } else {
        assert(entries.take(entries.len() as int) =~= entries);
    }
}

/// Whether an entry has the given file name.
pub fn find_entry(entries: &Vec<ModConfig>, filename: &str) -> (r: bool)
    ensures
        r == has_entry(entries_view(entries@), filename@),
{
    let mut i: usize = 0;
    while i < entries.len()
        invariant
            i <= entries@.len(),
            forall|k: int| 0 <= k < i ==> #[trigger] entries@[k].filename@ != filename@,
        decreases entries.len() - i,
    {
        if str_eq(entries[i].filename.as_str(), filename) {
            assert(entries_view(entries@)[i as int].1 == filename@);
            return true;
        }
        i = i + 1;
    }
    proof {
        if has_entry(entries_view(entries@), filename@) {
            let k = choose|k: int| 0 <= k < entries_view(entries@).len() && #[trigger] entries_view(entries@)[k].1 == filename@;
            assert(entries@[k].filename@ != filename@);
        }
    }
    false
}

/// Takes in the files found in a mods or plugins directory (the names of its regular
/// files, in the order read); tells whether an entry was added, in which case the
/// profile is to be saved.
pub fn merge_local_files(entries: &mut Vec<ModConfig>, files: &Vec<String>) -> (added: bool)
    ensures
        entries_view(final(entries)@) == merge_spec(
            entries_view(old(entries)@),
            files@.map_values(|f: String| f@),
        ),
        added == (final(entries)@.len() > old(entries)@.len()),
{
    let ghost start = entries_view(entries@);
    let ghost names = files@.map_values(|f: String| f@);
    let n0: usize = entries.len();
    let mut k: usize = 0;
    while k < files.len()
        invariant
            k <= files@.len(),
            names == files@.map_values(|f: String| f@),
            start == entries_view(old(entries)@),
            n0 == old(entries)@.len(),
            entries_view(entries@) == merge_spec(start, names.take(k as int)),
            entries@.len() >= n0,
        decreases files.len() - k,
    {
        let ghost before = entries_view(entries@);
        assert(names.take(k + 1).drop_last() =~= names.take(k as int));
        assert(names.take(k + 1).last() == files@[k as int]@);
        match local_entry(files[k].as_str()) {
            Some((filename, enabled)) => {
                if !find_entry(entries, filename.as_str()) {
                    let entry = ModConfig {
                        url: string_from(""),
                        filename,
                        allow_update: false,
                        sha256: None,
                        enabled,
                    };
                    entries.push(entry);
                    assert(entries_view(entries@) =~= before.push(entry_view(entry)));
                }
            },
            None => {},
        }
        k = k + 1;
    }
    assert(names.take(files@.len() as int) =~= names);
    entries.len() > n0
}

proof fn lemma_last_dot_at(s: Seq<char>, p: int)
    requires
        0 <= p < s.len(),
        s[p] == '.',
        forall|k: int| p < k < s.len() ==> s[k] != '.',
    ensures
        last_index_of(s, '.') == p,
    decreases s.len(),
{
    if s.last() != '.' {
        let t = s.drop_last();
        assert forall|k: int| p < k < t.len() implies t[k] != '.' by {
            assert(t[k] == s[k]);
        };
        lemma_last_dot_at(t, p);
    }
}

/// The local entry that a file `g.jar` (with `g` not empty) stands for: itself,
/// switched on; and `g.jar.disabled` stands for `g.jar`, switched off.
proof fn lemma_jar_names(g: Seq<char>)
    requires
        g.len() > 0,
    ensures
        local_entry_spec(g + ".jar"@) == Some((g + ".jar"@, true)),
        local_entry_spec(g + ".jar.disabled"@) == Some((g + ".jar"@, false)),
{
    reveal_strlit(".jar");
    reveal_strlit(".jar.disabled");
    reveal_strlit("jar");
    reveal_strlit("disabled");
    let a = g + ".jar"@;
    lemma_last_dot_at(a, g.len() as int);
    assert(a.skip(g.len() as int + 1) =~= "jar"@);
    let b = g + ".jar.disabled"@;
    lemma_last_dot_at(b, g.len() as int + 4);
    assert(b.skip(g.len() as int + 5) =~= "disabled"@);
    assert("disabled"@ != "jar"@) by {
        assert("disabled"@.len() != "jar"@.len());
    };
    assert(b.take(g.len() as int + 4) =~= a);
}

/// Taking in the directory: a file `g.jar` that no entry names yet adds a switched-on
/// local entry of that name at the end (no address, no digest, no updates), and a
/// file `g.jar.disabled` adds it switched off; a name that is listed already changes
/// nothing; and after taking in `g.jar` some entry has that name.
pub proof fn lemma_merge_takes_in_jar_files(entries: Seq<EntryView>, files: Seq<Seq<char>>, g: Seq<char>)
    requires
        g.len() > 0,
    ensures
        !has_entry(merge_spec(entries, files), g + ".jar"@) ==> merge_spec(entries, files.push(g + ".jar"@))
            == merge_spec(entries, files).push((""@, g + ".jar"@, false, None, true)),
        !has_entry(merge_spec(entries, files), g + ".jar"@) ==> merge_spec(entries, files.push(g + ".jar.disabled"@))
            == merge_spec(entries, files).push((""@, g + ".jar"@, false, None, false)),
        has_entry(merge_spec(entries, files), g + ".jar"@) ==> merge_spec(entries, files.push(g + ".jar"@))
            == merge_spec(entries, files),
        has_entry(merge_spec(entries, files.push(g + ".jar"@)), g + ".jar"@),
{
    lemma_jar_names(g);
    let f = g + ".jar"@;
    let before = merge_spec(entries, files);
    assert(files.push(f).drop_last() =~= files);
    assert(files.push(g + ".jar.disabled"@).drop_last() =~= files);
    if !has_entry(before, f) {
        let after = before.push(local_entry_view(f, true));
        assert(after[before.len() as int].1 == f);
    }
}

} // verus!
