use vstd::prelude::*;
use crate::console::{is_world_event, world_event_lower};
use crate::messages::{FinishKind, finish_kind_spec};
use crate::sync::{SyncKind, sync_token_spec};
use crate::models::ServerStatus;
use crate::numbers::{decimal, decimal_string, signed_decimal, signed_decimal_string};
use crate::text::{
    chars_of, concat, seq_contains, seq_occurs_at, str_contains, string_from,
    lowercase_spec,
};

verus! {

/// The background work under way, and whether the server is to start once it is
/// done.
#[derive(Clone, Copy, Debug, PartialEq, Eq, Structural)]
pub struct TaskFlags {
    pub is_downloading: bool,
    pub pending_launch: bool,
    pub is_downloading_java: bool,
    pub is_downloading_loader: bool,
    pub is_downloading_libs: bool,
    pub is_downloading_version: bool,
    pub is_downloading_plugins: bool,
    pub is_downloading_server_core: bool,
}

/// What the window does when a task reports its end: the status it shows, the line
/// it logs (if any), and whether it starts the server.
#[derive(Debug)]
pub struct FinishEffect {
    pub status: String,
    pub log: Option<String>,
    pub launch: bool,
}

pub open spec fn busy_spec(f: TaskFlags) -> bool {
    f.is_downloading || f.is_downloading_plugins || f.is_downloading_java || f.is_downloading_loader
        || f.is_downloading_libs || f.is_downloading_version || f.is_downloading_server_core
}

/// The flags after a task's end: the task is no longer under way; a failed download
/// of Java, a loader, libraries or a version cancels the pending start, and so do
/// both ends of a mod synchronization once they are handled.
pub open spec fn after_finish(f: TaskFlags, k: FinishKind) -> TaskFlags {
    match k {
        FinishKind::ModsSuccess | FinishKind::ModsError => TaskFlags { is_downloading: false, pending_launch: false, ..f },
        FinishKind::JavaSuccess => TaskFlags { is_downloading_java: false, ..f },
        FinishKind::JavaError => TaskFlags { is_downloading_java: false, pending_launch: false, ..f },
        FinishKind::LoaderSuccess => TaskFlags { is_downloading_loader: false, ..f },
        FinishKind::LoaderError => TaskFlags { is_downloading_loader: false, pending_launch: false, ..f },
        FinishKind::LibsSuccess => TaskFlags { is_downloading_libs: false, ..f },
        FinishKind::LibsError => TaskFlags { is_downloading_libs: false, pending_launch: false, ..f },
        FinishKind::VersionSuccess => TaskFlags { is_downloading_version: false, ..f },
        FinishKind::VersionError => TaskFlags { is_downloading_version: false, pending_launch: false, ..f },
        FinishKind::PluginsSuccess | FinishKind::PluginsError => TaskFlags { is_downloading_plugins: false, ..f },
        FinishKind::ServerCoreSuccess | FinishKind::ServerCoreError => TaskFlags { is_downloading_server_core: false, ..f },
    }
}

/// Whether a task's end starts the server: a successful mod synchronization, or a
/// successful download of Java, a loader, libraries or a version, while a start is
/// pending.
pub open spec fn finish_launches(f: TaskFlags, k: FinishKind) -> bool {
    f.pending_launch && (k == FinishKind::ModsSuccess || k == FinishKind::JavaSuccess
        || k == FinishKind::LoaderSuccess || k == FinishKind::LibsSuccess
        || k == FinishKind::VersionSuccess)
}

pub open spec fn finish_status(k: FinishKind) -> Seq<char> {
    match k {
        FinishKind::ModsSuccess => "Готов"@,
        FinishKind::ModsError => "Ошибка загрузки модов"@,
        FinishKind::JavaSuccess => "Java установлена"@,
        FinishKind::JavaError => "Ошибка установки Java"@,
        FinishKind::LoaderSuccess => "Ядро установлено"@,
        FinishKind::LoaderError => "Ошибка загрузки ядра"@,
        FinishKind::LibsSuccess => "Библиотеки установлены"@,
        FinishKind::LibsError => "Ошибка загрузки библиотек"@,
        FinishKind::VersionSuccess => "Версия игры установлена"@,
        FinishKind::VersionError => "Ошибка загрузки версии"@,
        FinishKind::PluginsSuccess => "Синхронизация плагинов завершена"@,
        FinishKind::PluginsError => "Ошибка синхронизации плагинов"@,
        FinishKind::ServerCoreSuccess => "Серверное ядро установлено"@,
        FinishKind::ServerCoreError => "Ошибка установки серверного ядра"@,
    }
}

impl TaskFlags {
    /// No task under way and no start pending.
    pub fn new() -> (r: TaskFlags)
        ensures
            !busy_spec(r),
            !r.pending_launch,
    {
        TaskFlags {
            is_downloading: false,
            pending_launch: false,
            is_downloading_java: false,
            is_downloading_loader: false,
            is_downloading_libs: false,
            is_downloading_version: false,
            is_downloading_plugins: false,
            is_downloading_server_core: false,
        }
    }

    /// Whether any background download is under way (the start button is then off).
    pub fn is_busy(&self) -> (r: bool)
        ensures
            r == busy_spec(*self),
    {
        self.is_downloading || self.is_downloading_plugins || self.is_downloading_java
            || self.is_downloading_loader || self.is_downloading_libs || self.is_downloading_version
            || self.is_downloading_server_core
    }

    /// The caption of the start button: the first task under way, or the start.
    pub fn launch_label(&self) -> (r: String)
        ensures
            self.is_downloading ==> r@ == "⏳ СВЕРКА МОДОВ..."@,
            !self.is_downloading && self.is_downloading_plugins ==> r@ == "⏳ СВЕРКА ПЛАГИНОВ..."@,
            !self.is_downloading && !self.is_downloading_plugins && self.is_downloading_java ==> r@
                == "⏳ СКАЧИВАНИЕ JAVA..."@,
            !self.is_downloading && !self.is_downloading_plugins && !self.is_downloading_java
                && self.is_downloading_loader ==> r@ == "⏳ СКАЧИВАНИЕ ЯДРА..."@,
            !self.is_downloading && !self.is_downloading_plugins && !self.is_downloading_java
                && !self.is_downloading_loader && self.is_downloading_libs ==> r@
                == "⏳ СКАЧИВАНИЕ БИБЛИОТЕК..."@,
            !self.is_downloading && !self.is_downloading_plugins && !self.is_downloading_java
                && !self.is_downloading_loader && !self.is_downloading_libs
                && self.is_downloading_version ==> r@ == "⏳ СКАЧИВАНИЕ ВЕРСИИ..."@,
            !self.is_downloading && !self.is_downloading_plugins && !self.is_downloading_java
                && !self.is_downloading_loader && !self.is_downloading_libs
                && !self.is_downloading_version && self.is_downloading_server_core ==> r@
                == "⏳ СКАЧИВАНИЕ СЕРВЕРА..."@,
            !busy_spec(*self) ==> r@ == "🚀 ЗАПУСТИТЬ СЕРВЕР"@,
    {
        if self.is_downloading {
            string_from("⏳ СВЕРКА МОДОВ...")
        } else if self.is_downloading_plugins {
            string_from("⏳ СВЕРКА ПЛАГИНОВ...")
        } else if self.is_downloading_java {
            string_from("⏳ СКАЧИВАНИЕ JAVA...")
        } else if self.is_downloading_loader {
            string_from("⏳ СКАЧИВАНИЕ ЯДРА...")
        } else if self.is_downloading_libs {
            string_from("⏳ СКАЧИВАНИЕ БИБЛИОТЕК...")
        } else if self.is_downloading_version {
            string_from("⏳ СКАЧИВАНИЕ ВЕРСИИ...")
        } else if self.is_downloading_server_core {
            string_from("⏳ СКАЧИВАНИЕ СЕРВЕРА...")
        } else {
            string_from("🚀 ЗАПУСТИТЬ СЕРВЕР")
        }
    }

    /// Starts a mod synchronization, unless one is under way; tells whether it
    /// starts. A start of the server waits for it when `launch_after` is set.
    pub fn begin_mod_sync(&mut self, launch_after: bool) -> (started: bool)
        ensures
            started == !old(self).is_downloading,
            started ==> *final(self) == (TaskFlags { is_downloading: true, pending_launch: launch_after, ..*old(self) }),
            !started ==> *final(self) == *old(self),
    {
        if self.is_downloading {
            return false;
        }
        self.is_downloading = true;
        self.pending_launch = launch_after;
        true
    }

    /// Starts a plugin synchronization, unless one is under way; tells whether it
    /// starts.
    pub fn begin_plugin_sync(&mut self) -> (started: bool)
        ensures
            started == !old(self).is_downloading_plugins,
            started ==> *final(self) == (TaskFlags { is_downloading_plugins: true, ..*old(self) }),
            !started ==> *final(self) == *old(self),
    {
        if self.is_downloading_plugins {
            return false;
        }
        self.is_downloading_plugins = true;
        true
    }

    /// Starts the download of a missing server core; the server starts once it is
    /// done.
    pub fn begin_server_core_download(&mut self)
        ensures
            *final(self) == (TaskFlags { is_downloading_server_core: true, pending_launch: true, ..*old(self) }),
    {
        self.is_downloading_server_core = true;
        self.pending_launch = true;
    }

    /// Takes in the end of a task.
    pub fn apply_finish(&mut self, kind: FinishKind) -> (r: FinishEffect)
        ensures
            *final(self) == after_finish(*old(self), kind),
            r.launch == finish_launches(*old(self), kind),
            r.status@ == finish_status(kind),
            kind == FinishKind::ModsSuccess ==> (r.log matches Some(l) && l@ == "[СИСТЕМА] Синхронизация модов завершена."@),
            kind == FinishKind::ModsError && old(self).pending_launch ==> (r.log matches Some(l) && l@ == "[ЗАПУСК] Отменен из-за ошибок скачивания."@),
            !(kind == FinishKind::ModsSuccess || (kind == FinishKind::ModsError && old(self).pending_launch)) ==> r.log.is_none(),
    {
        let pending = self.pending_launch;
        match kind {
            FinishKind::ModsSuccess => {
                self.is_downloading = false;
                self.pending_launch = false;
                FinishEffect {
                    status: string_from("Готов"),
                    log: Some(string_from("[СИСТЕМА] Синхронизация модов завершена.")),
                    launch: pending,
                }
            },
            FinishKind::ModsError => {
                self.is_downloading = false;
                self.pending_launch = false;
                FinishEffect {
                    status: string_from("Ошибка загрузки модов"),
                    log: if pending { Some(string_from("[ЗАПУСК] Отменен из-за ошибок скачивания.")) } else { None },
                    launch: false,
                }
            },
            FinishKind::JavaSuccess => {
                self.is_downloading_java = false;
                FinishEffect { status: string_from("Java установлена"), log: None, launch: pending }
            },
            FinishKind::JavaError => {
                self.is_downloading_java = false;
                self.pending_launch = false;
                FinishEffect { status: string_from("Ошибка установки Java"), log: None, launch: false }
            },
            FinishKind::LoaderSuccess => {
                self.is_downloading_loader = false;
                FinishEffect { status: string_from("Ядро установлено"), log: None, launch: pending }
            },
            FinishKind::LoaderError => {
                self.is_downloading_loader = false;
                self.pending_launch = false;
                FinishEffect { status: string_from("Ошибка загрузки ядра"), log: None, launch: false }
            },
            FinishKind::LibsSuccess => {
                self.is_downloading_libs = false;
                FinishEffect { status: string_from("Библиотеки установлены"), log: None, launch: pending }
            },
            FinishKind::LibsError => {
                self.is_downloading_libs = false;
                self.pending_launch = false;
                FinishEffect { status: string_from("Ошибка загрузки библиотек"), log: None, launch: false }
            },
            FinishKind::VersionSuccess => {
                self.is_downloading_version = false;
                FinishEffect { status: string_from("Версия игры установлена"), log: None, launch: pending }
            },
            FinishKind::VersionError => {
                self.is_downloading_version = false;
                self.pending_launch = false;
                FinishEffect { status: string_from("Ошибка загрузки версии"), log: None, launch: false }
            },
            FinishKind::PluginsSuccess => {
                self.is_downloading_plugins = false;
                FinishEffect { status: string_from("Синхронизация плагинов завершена"), log: None, launch: false }
            },
            FinishKind::PluginsError => {
                self.is_downloading_plugins = false;
                FinishEffect { status: string_from("Ошибка синхронизации плагинов"), log: None, launch: false }
            },
            FinishKind::ServerCoreSuccess => {
                self.is_downloading_server_core = false;
                FinishEffect { status: string_from("Серверное ядро установлено"), log: None, launch: false }
            },
            FinishKind::ServerCoreError => {
                self.is_downloading_server_core = false;
                FinishEffect { status: string_from("Ошибка установки серверного ядра"), log: None, launch: false }
            },
        }
    }
}

/// A task's end never leaves that task marked as under way, and a failure never
/// starts the server.
pub proof fn lemma_finish_clears_task(f: TaskFlags, k: FinishKind)
    ensures
        (k == FinishKind::ModsSuccess || k == FinishKind::ModsError) ==> !after_finish(f, k).is_downloading,
        (k == FinishKind::JavaSuccess || k == FinishKind::JavaError) ==> !after_finish(f, k).is_downloading_java,
        (k == FinishKind::LoaderSuccess || k == FinishKind::LoaderError) ==> !after_finish(f, k).is_downloading_loader,
        (k == FinishKind::LibsSuccess || k == FinishKind::LibsError) ==> !after_finish(f, k).is_downloading_libs,
        (k == FinishKind::VersionSuccess || k == FinishKind::VersionError) ==> !after_finish(f, k).is_downloading_version,
        (k == FinishKind::PluginsSuccess || k == FinishKind::PluginsError) ==> !after_finish(f, k).is_downloading_plugins,
        (k == FinishKind::ServerCoreSuccess || k == FinishKind::ServerCoreError) ==> !after_finish(f, k).is_downloading_server_core,
        (k == FinishKind::ModsError || k == FinishKind::JavaError || k == FinishKind::LoaderError
            || k == FinishKind::LibsError || k == FinishKind::VersionError || k == FinishKind::PluginsError
            || k == FinishKind::ServerCoreError) ==> !finish_launches(f, k),
        !f.pending_launch ==> !finish_launches(f, k),
{
}

/// `s` with every occurrence of `p` (read from the left, not overlapping) replaced by
/// `r`, as `str::replace` does.
pub open spec fn replace_all(s: Seq<char>, p: Seq<char>, r: Seq<char>) -> Seq<char>
    decreases s.len(),
{
    if s.len() == 0 || p.len() == 0 {
        s
    } else if seq_occurs_at(s, p, 0) {
        r + replace_all(s.skip(p.len() as int), p, r)
    } else {
        seq![s[0]] + replace_all(s.drop_first(), p, r)
    }
}

fn occurs_at_chars(s: &[char], p: &[char], i: usize) -> (b: bool)
    requires
        i <= s@.len(),
    ensures
        b == seq_occurs_at(s@.skip(i as int), p@, 0),
{
    if p.len() > s.len() - i {
        return false;
    }
    let mut j: usize = 0;
    while j < p.len()
        invariant
            i + p.len() <= s.len(),
            j <= p.len(),
            forall|k: int| 0 <= k < j ==> s@[i + k] == p@[k],
        decreases p.len() - j,
    {
        assert(i + j < s.len());
        if s[i + j] != p[j] {
            assert(s@.skip(i as int).subrange(0, p@.len() as int)[j as int] != p@[j as int]);
            return false;
        }
        j = j + 1;
    }
    assert(s@.skip(i as int).subrange(0, p@.len() as int) =~= p@);
    true
}

/// `s` with every `p` replaced by `r`.
pub fn replace_text(s: &str, p: &str, r: &str) -> (out: String)
    requires
        p@.len() > 0,
    ensures
        out@ == replace_all(s@, p@, r@),
{
    let c = chars_of(s);
    let pc = chars_of(p);
    let mut out = String::new();
    let mut i: usize = 0;
    assert(c@.skip(0) =~= c@);
    while i < c.len()
        invariant
            i <= c@.len(),
            pc@ == p@,
            p@.len() > 0,
            out@ + replace_all(c@.skip(i as int), p@, r@) == replace_all(s@, p@, r@),
            c@ == s@,
        decreases c.len() - i,
    {
        let ghost rest = c@.skip(i as int);
        if occurs_at_chars(c.as_slice(), pc.as_slice(), i) {
            assert(rest.skip(p@.len() as int) =~= c@.skip(i + p@.len()));
            out.append(r);
            i = i + pc.len();
        } else {
            assert(rest.drop_first() =~= c@.skip(i + 1));
            let ch = c[i];
            crate::text::push_char(&mut out, ch);
            i = i + 1;
        }
    }
    assert(c@.skip(i as int) =~= Seq::<char>::empty());
    out
}

/// Where a line logged by the background tasks goes.
#[derive(Debug)]
pub enum LogRoute {
    /// To the game log: a world event from the server's output, without its stream
    /// tag.
    Game(String),
    /// To the launcher log.
    System(String),
}

pub open spec fn untagged(entry: Seq<char>) -> Seq<char> {
    replace_all(replace_all(entry, "[GAME-OUT] "@, ""@), "[GAME-ERR] "@, ""@)
}

/// A line from the server's output (tagged `[GAME-OUT]` or `[GAME-ERR]`) loses its
/// tags and goes to the game log when it is a world event, else to the launcher log
/// after `[СЕРВЕР] `; any other line goes to the launcher log as it is.
pub open spec fn route_spec(entry: Seq<char>) -> (bool, Seq<char>) {
    if seq_contains(entry, "[GAME-OUT]"@) || seq_contains(entry, "[GAME-ERR]"@) {
        let clean = untagged(entry);
        if world_event_lower(lowercase_spec(clean)) {
            (true, clean)
        } else {
            (false, "[СЕРВЕР] "@ + clean)
        }
    } else {
        (false, entry)
    }
}

/// Where a logged line goes.
pub fn route_log(entry: &str) -> (r: LogRoute)
    ensures
        match r {
            LogRoute::Game(s) => route_spec(entry@) == (true, s@),
            LogRoute::System(s) => route_spec(entry@) == (false, s@),
        },
{
    if str_contains(entry, "[GAME-OUT]") || str_contains(entry, "[GAME-ERR]") {
        proof {
            reveal_strlit("[GAME-OUT] ");
            reveal_strlit("[GAME-ERR] ");
        }
        let a = replace_text(entry, "[GAME-OUT] ", "");
        let clean = replace_text(a.as_str(), "[GAME-ERR] ", "");
        if is_world_event(clean.as_str()) {
            LogRoute::Game(clean)
        } else {
            LogRoute::System(concat("[СЕРВЕР] ", clean.as_str()))
        }
    } else {
        LogRoute::System(string_from(entry))
    }
}

/// The most lines the logs keep.
pub const MAX_LOG_LINES: usize = 1000;

/// Whether a line reports progress: it holds `%` and one of the progress words.
pub open spec fn progress_spec(l: Seq<char>) -> bool {
    seq_contains(l, "%"@) && (seq_contains(l, "Preparing spawn area"@) || seq_contains(l, "Загрузка"@)
        || seq_contains(l, "Скачивание"@) || seq_contains(l, "библиотеки"@) || seq_contains(l, "Progress"@))
}

/// Whether a progress line reports completion.
pub open spec fn completed_spec(l: Seq<char>) -> bool {
    seq_contains(l, "100%"@) || seq_contains(l, "завершено"@) || seq_contains(l, "done"@)
        || seq_contains(l, "Успешно"@)
}

/// Whether a log line reports progress.
pub fn is_progress_line(l: &str) -> (r: bool)
    ensures
        r == progress_spec(l@),
{
    str_contains(l, "%") && (str_contains(l, "Preparing spawn area") || str_contains(l, "Загрузка")
        || str_contains(l, "Скачивание") || str_contains(l, "библиотеки") || str_contains(l, "Progress"))
}

/// What became of a line given to the log.
#[derive(Clone, Copy, Debug, PartialEq, Eq, Structural)]
pub enum LogUpdate {
    /// It replaced the last line, a progress line (the progress time is renewed).
    Replaced,
    /// It was a progress update that came too soon and was not kept.
    Dropped,
    /// It was added at the end; `progress` tells whether it reports progress (the
    /// progress time is then renewed).
    Appended { progress: bool },
}

pub open spec fn string_views(v: Seq<String>) -> Seq<Seq<char>> {
    v.map_values(|s: String| s@)
}

/// Adds a line to the launcher log. A progress line that follows a progress line
/// replaces it when five seconds have passed since the last progress update
/// (`progress_due`) or when it reports completion, and is dropped otherwise; any
/// other line is added, and the oldest line goes once there are more than
/// `MAX_LOG_LINES`.
pub fn push_log_entry(log: &mut Vec<String>, entry: String, progress_due: bool) -> (r: LogUpdate)
    ensures
        ({
            let old_v = string_views(old(log)@);
            let e = entry@;
            if progress_spec(e) && old_v.len() > 0 && progress_spec(old_v.last()) {
                if progress_due || completed_spec(e) {
                    r == LogUpdate::Replaced && string_views(final(log)@) == old_v.update(old_v.len() - 1, e)
                } else {
                    r == LogUpdate::Dropped && string_views(final(log)@) == old_v
                }
            } else {
                &&& r == (LogUpdate::Appended { progress: progress_spec(e) })
                &&& if old_v.len() + 1 > 1000 {
                    string_views(final(log)@) == old_v.push(e).drop_first()
                } else {
                    string_views(final(log)@) == old_v.push(e)
                }
            }
        }),
        old(log)@.len() <= 1000 ==> final(log)@.len() <= 1000,
{
    let is_progress = is_progress_line(entry.as_str());
    if is_progress && log.len() > 0 {
        let last = log.len() - 1;
        if is_progress_line(log[last].as_str()) {
            let completed = str_contains(entry.as_str(), "100%") || str_contains(entry.as_str(), "завершено")
                || str_contains(entry.as_str(), "done") || str_contains(entry.as_str(), "Успешно");
            if progress_due || completed {
                let ghost e = entry@;
                let _ = log.remove(last);
                log.push(entry);
                assert(string_views(log@) =~= string_views(old(log)@).update(last as int, e));
                return LogUpdate::Replaced;
            }
            return LogUpdate::Dropped;
        }
    }
    let ghost e = entry@;
    log.push(entry);
    assert(string_views(log@) =~= string_views(old(log)@).push(e));
    if log.len() > MAX_LOG_LINES {
        let ghost before = log@;
        let _ = log.remove(0);
        assert(string_views(log@) =~= string_views(before).drop_first());
    }
    LogUpdate::Appended { progress: is_progress }
}

/// Adds a line to a log that keeps at most `MAX_LOG_LINES` (the game log): the
/// oldest line goes when there are more.
pub fn push_capped(log: &mut Vec<String>, entry: String)
    ensures
        old(log)@.len() + 1 > 1000 ==> final(log)@ == old(log)@.push(entry).drop_first(),
        old(log)@.len() + 1 <= 1000 ==> final(log)@ == old(log)@.push(entry),
{
    log.push(entry);
    if log.len() > MAX_LOG_LINES {
        let _ = log.remove(0);
        assert(log@ =~= old(log)@.push(entry).drop_first());
    }
}

/// The chat notice sent when a scheduled restart is `remaining` seconds away, if
/// that moment has one.
pub open spec fn restart_notice_spec(remaining: u64) -> Option<Seq<char>> {
    if remaining == 300 { Some("Внимание! Перезапуск сервера через 5 минут!"@) }
    else if remaining == 180 { Some("Внимание! Перезапуск сервера через 3 минуты!"@) }
    else if remaining == 60 { Some("Внимание! Перезапуск сервера через 1 минуту!"@) }
    else if remaining == 30 { Some("Внимание! Перезапуск сервера через 30 секунд!"@) }
    else if remaining == 10 { Some("Сервер перезапустится через 10 секунд!"@) }
    else if remaining == 5 { Some("Перезапуск через 5 секунд..."@) }
    else if remaining == 4 { Some("Перезапуск через 4 секунды..."@) }
    else if remaining == 3 { Some("Перезапуск через 3 секунды..."@) }
    else if remaining == 2 { Some("Перезапуск через 2 секунды..."@) }
    else if remaining == 1 { Some("Перезапуск через 1 секунду!"@) }
    else { None }
}

/// The chat notice for the remaining seconds of a scheduled restart.
pub fn restart_notice(remaining: u64) -> (r: Option<String>)
    ensures
        match restart_notice_spec(remaining) {
            Some(m) => r matches Some(s) && s@ == m,
            None => r.is_none(),
        },
{
    if remaining == 300 { Some(string_from("Внимание! Перезапуск сервера через 5 минут!")) }
    else if remaining == 180 { Some(string_from("Внимание! Перезапуск сервера через 3 минуты!")) }
    else if remaining == 60 { Some(string_from("Внимание! Перезапуск сервера через 1 минуту!")) }
    else if remaining == 30 { Some(string_from("Внимание! Перезапуск сервера через 30 секунд!")) }
    else if remaining == 10 { Some(string_from("Сервер перезапустится через 10 секунд!")) }
    else if remaining == 5 { Some(string_from("Перезапуск через 5 секунд...")) }
    else if remaining == 4 { Some(string_from("Перезапуск через 4 секунды...")) }
    else if remaining == 3 { Some(string_from("Перезапуск через 3 секунды...")) }
    else if remaining == 2 { Some(string_from("Перезапуск через 2 секунды...")) }
    else if remaining == 1 { Some(string_from("Перезапуск через 1 секунду!")) }
    else { None }
}

/// A number in at least two digits, as `{:02}` prints it.
pub open spec fn pad2(n: nat) -> Seq<char> {
    if n < 10 { "0"@ + decimal(n) } else { decimal(n) }
}

fn pad2_string(n: u64) -> (r: String)
    ensures
        r@ == pad2(n as nat),
{
    if n < 10 {
        concat("0", decimal_string(n as u128).as_str())
    } else {
        decimal_string(n as u128)
    }
}

/// The status shown while a scheduled restart counts down: minutes and seconds.
pub fn restart_countdown_text(remaining: u64) -> (r: String)
    ensures
        r@ == "Перезапуск через "@ + pad2((remaining / 60) as nat) + ":"@ + pad2((remaining % 60) as nat),
{
    let a = concat("Перезапуск через ", pad2_string(remaining / 60).as_str());
    let b = concat(a.as_str(), ":");
    concat(b.as_str(), pad2_string(remaining % 60).as_str())
}

/// The log line and the chat message that announce a restart in `mins` minutes.
pub fn scheduled_restart_messages(mins: u32) -> (r: (String, String))
    ensures
        r.0@ == "[СИСТЕМА] Запланирован перезапуск через "@ + decimal(mins as nat) + " мин."@,
        r.1@ == "say Внимание! Запланирован перезапуск сервера через "@ + decimal(mins as nat)
            + " мин."@,
{
    let n = decimal_string(mins as u128);
    let a = concat("[СИСТЕМА] Запланирован перезапуск через ", n.as_str());
    let b = concat("say Внимание! Запланирован перезапуск сервера через ", n.as_str());
    (concat(a.as_str(), " мин."), concat(b.as_str(), " мин."))
}

/// A command for the server's console: `say` and the text.
pub fn say_command(text: &str) -> (r: String)
    ensures
        r@ == "say "@ + text@,
{
    concat("say ", text)
}


/// How the server process ended: with an exit code (`-1` where the system gave
/// none), or lost, when its state could not be read.
#[derive(Clone, Copy, Debug, PartialEq, Eq, Structural)]
pub enum ServerExit {
    Exited(i32),
    Lost,
}

/// What the window does when the server process has ended.
#[derive(Debug)]
pub struct ExitEffect {
    /// The line for the launcher log that gives the exit code, for an exit with a code.
    pub exit_log: Option<String>,
    /// The new status, for an exit with a code.
    pub status: Option<String>,
    /// The line for the launcher log, for an automatic restart after a failure.
    pub system_log: Option<String>,
    /// Whether the server starts again.
    pub restart: bool,
}

/// Whether the server starts again after it ended: always after a scheduled restart,
/// else after a failure (a nonzero code, or a lost process) when automatic restart
/// is on.
pub open spec fn restarts_after(pending_restart: bool, auto_restart: bool, e: ServerExit) -> bool {
    pending_restart || (auto_restart && match e {
        ServerExit::Exited(code) => code != 0,
        ServerExit::Lost => true,
    })
}

/// Decides what follows the end of the server process. A scheduled restart that
/// was pending is consumed.
pub fn on_server_exit(pending_restart: &mut bool, auto_restart: bool, e: ServerExit) -> (r: ExitEffect)
    ensures
        !*final(pending_restart),
        r.restart == restarts_after(*old(pending_restart), auto_restart, e),
        match e {
            ServerExit::Exited(code) => {
                &&& r.exit_log matches Some(l) && l@ == "[СИСТЕМА] Сервер закрылся с кодом: "@
                    + signed_decimal(code as int) + "."@
                &&& r.status matches Some(st) && st@ == "Сервер закрыт (Код "@ + signed_decimal(code as int)
                    + ")"@
                &&& (!*old(pending_restart) && auto_restart && code != 0) ==> (r.system_log matches Some(l)
                    && l@ == "[АВТОРЕСТАРТ] Обнаружен сбой сервера! Запуск автоматического восстановления..."@)
            },
            ServerExit::Lost => {
                &&& r.exit_log.is_none()
                &&& r.status.is_none()
                &&& (!*old(pending_restart) && auto_restart) ==> (r.system_log matches Some(l)
                    && l@ == "[АВТОРЕСТАРТ] Обнаружена потеря процесса! Запуск автоматического восстановления..."@)
            },
        },
        (*old(pending_restart) || !r.restart) ==> r.system_log.is_none(),
{
    let pending = *pending_restart;
    *pending_restart = false;
    match e {
        ServerExit::Exited(code) => {
            let n = signed_decimal_string(code);
            let a = concat("[СИСТЕМА] Сервер закрылся с кодом: ", n.as_str());
            let exit_log = concat(a.as_str(), ".");
            let b = concat("Сервер закрыт (Код ", n.as_str());
            let status = concat(b.as_str(), ")");
            if pending {
                ExitEffect { exit_log: Some(exit_log), status: Some(status), system_log: None, restart: true }
            } else if auto_restart && code != 0 {
                ExitEffect {
                    exit_log: Some(exit_log),
                    status: Some(status),
                    system_log: Some(string_from("[АВТОРЕСТАРТ] Обнаружен сбой сервера! Запуск автоматического восстановления...")),
                    restart: true,
                }
            } else {
                ExitEffect { exit_log: Some(exit_log), status: Some(status), system_log: None, restart: false }
            }
        },
        ServerExit::Lost => {
            if pending {
                ExitEffect { exit_log: None, status: None, system_log: None, restart: true }
            } else if auto_restart {
                ExitEffect {
                    exit_log: None,
                    status: None,
                    system_log: Some(string_from("[АВТОРЕСТАРТ] Обнаружена потеря процесса! Запуск автоматического восстановления...")),
                    restart: true,
                }
            } else {
                ExitEffect { exit_log: None, status: None, system_log: None, restart: false }
            }
        },
    }
}


/// The log line when the server core is missing at launch and is downloaded first.
pub fn missing_core_log(filename: &str) -> (r: String)
    ensures
        r@ == "[ЗАПУСК] Отсутствует ядро сервера. Автоматическое скачивание "@ + filename@ + "..."@,
{
    let a = concat("[ЗАПУСК] Отсутствует ядро сервера. Автоматическое скачивание ", filename);
    concat(a.as_str(), "...")
}

/// The header line for the last status query and its colour: the server's figures
/// when it is online, that it is unreachable when it is not, and that it is being
/// looked for before the first answer.
pub fn status_header(status: &Option<ServerStatus>) -> (r: (String, (u8, u8, u8)))
    ensures
        match status {
            Some(s) => if s.is_online {
                &&& r.0@ == "🟢 Сервер онлайн | Игроки: "@ + decimal(s.players_online as nat) + "/"@
                    + decimal(s.players_max as nat) + " | Пинг: "@ + decimal(s.ping_ms as nat)
                    + " мс | MOTD: "@ + s.motd@
                &&& r.1 == (100u8, 230u8, 100u8)
            } else {
                &&& r.0@ == "🔴 Сервер недоступен (Офлайн)"@
                &&& r.1 == (230u8, 100u8, 100u8)
            },
            None => {
                &&& r.0@ == "📡 Поиск игрового сервера..."@
                &&& r.1 == (160u8, 160u8, 160u8)
            },
        },
{
    match status {
        Some(s) => if s.is_online {
            let a = concat("🟢 Сервер онлайн | Игроки: ", decimal_string(s.players_online as u128).as_str());
            let b = concat(a.as_str(), "/");
            let c = concat(b.as_str(), decimal_string(s.players_max as u128).as_str());
            let d = concat(c.as_str(), " | Пинг: ");
            let e = concat(d.as_str(), decimal_string(s.ping_ms).as_str());
            let f = concat(e.as_str(), " мс | MOTD: ");
            (concat(f.as_str(), s.motd.as_str()), (100, 230, 100))
        } else {
            (string_from("🔴 Сервер недоступен (Офлайн)"), (230, 100, 100))
        },
        None => (string_from("📡 Поиск игрового сервера..."), (160, 160, 160)),
    }
}


/// The message with which a synchronization ends is read back as the end of that
/// synchronization: the mod synchronization clears its task and starts the server
/// exactly when a start is pending and no error occurred; the plugin
/// synchronization clears its task and never starts the server.
pub proof fn lemma_sync_end_message(f: TaskFlags, kind: SyncKind, has_errors: bool)
    ensures
        finish_kind_spec(sync_token_spec(kind, has_errors)) matches Some(k) && {
            &&& kind == SyncKind::Mods ==> {
                &&& finish_launches(f, k) == (f.pending_launch && !has_errors)
                &&& !after_finish(f, k).is_downloading
                &&& !after_finish(f, k).pending_launch
            }
            &&& kind == SyncKind::Plugins ==> {
                &&& !finish_launches(f, k)
                &&& !after_finish(f, k).is_downloading_plugins
                &&& after_finish(f, k).pending_launch == f.pending_launch
            }
        },
{
    reveal_strlit("FINISH_SUCCESS");
    reveal_strlit("FINISH_ERROR");
    reveal_strlit("FINISH_JAVA_SUCCESS");
    reveal_strlit("FINISH_JAVA_ERROR");
    reveal_strlit("FINISH_LOADER_SUCCESS");
    reveal_strlit("FINISH_LOADER_ERROR");
    reveal_strlit("FINISH_LIBS_SUCCESS");
    reveal_strlit("FINISH_LIBS_ERROR");
    reveal_strlit("FINISH_VERSION_SUCCESS");
    reveal_strlit("FINISH_VERSION_ERROR");
    reveal_strlit("FINISH_PLUGINS_SUCCESS");
    reveal_strlit("FINISH_PLUGINS_ERROR");
    let m = sync_token_spec(kind, has_errors);
    if kind == SyncKind::Plugins {
        assert(m.len() == 22 || m.len() == 20);
        assert(m[7] == 'P');
        assert("FINISH_ERROR"@[7] != 'P');
        assert("FINISH_SUCCESS"@[7] != 'P');
        assert("FINISH_JAVA_SUCCESS"@[7] != 'P');
        assert("FINISH_JAVA_ERROR"@[7] != 'P');
        assert("FINISH_LOADER_SUCCESS"@[7] != 'P');
        assert("FINISH_LOADER_ERROR"@[7] != 'P');
        assert("FINISH_LIBS_SUCCESS"@[7] != 'P');
        assert("FINISH_LIBS_ERROR"@[7] != 'P');
        assert("FINISH_VERSION_SUCCESS"@[7] != 'P');
        assert("FINISH_VERSION_ERROR"@[7] != 'P');
        if has_errors {
            assert(m != "FINISH_PLUGINS_SUCCESS"@);
        }
    } else if has_errors {
        assert(m.len() == 12);
        assert(m.len() != "FINISH_SUCCESS"@.len());
    }
}


/// The chat command to send while a scheduled restart counts down: the notice for
/// the remaining seconds, once for each such moment (`last_notified` keeps the
/// moment last announced).
pub fn restart_notice_due(remaining: u64, last_notified: &mut Option<u64>) -> (r: Option<String>)
    ensures
        match restart_notice_spec(remaining) {
            Some(m) => if *old(last_notified) == Some(remaining) {
                r.is_none() && *final(last_notified) == *old(last_notified)
            } else {
                (r matches Some(c) && c@ == "say "@ + m) && *final(last_notified) == Some(remaining)
            },
            None => r.is_none() && *final(last_notified) == *old(last_notified),
        },
{
    match restart_notice(remaining) {
        Some(msg) => {
            let already = match *last_notified {
                Some(n) => n == remaining,
                None => false,
            };
            if already {
                None
            } else {
                *last_notified = Some(remaining);
                Some(say_command(msg.as_str()))
            }
        },
        None => None,
    }
}

} // verus!
