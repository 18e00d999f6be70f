use titanhost::messages::FinishKind;
use titanhost::models::ServerStatus;
use titanhost::session::{
    is_progress_line, missing_core_log, restart_notice_due, on_server_exit, push_capped, push_log_entry,
    replace_text, restart_countdown_text, restart_notice, route_log, say_command,
    scheduled_restart_messages, status_header, LogRoute, LogUpdate, ServerExit, TaskFlags,
    MAX_LOG_LINES,
};
use titanhost::sync::{sync_finish_token, SyncKind};
use titanhost::messages::finish_kind;

#[test]
fn task_flags_and_labels() {
    let mut f = TaskFlags::new();
    assert!(!f.is_busy());
    assert_eq!(f.launch_label(), "🚀 ЗАПУСТИТЬ СЕРВЕР");
    assert!(f.begin_mod_sync(true));
    assert!(!f.begin_mod_sync(false));
    assert!(f.is_busy());
    assert!(f.pending_launch);
    assert_eq!(f.launch_label(), "⏳ СВЕРКА МОДОВ...");
    assert!(f.begin_plugin_sync());
    assert!(!f.begin_plugin_sync());
    let e = f.apply_finish(FinishKind::ModsSuccess);
    assert!(e.launch);
    assert_eq!(e.status, "Готов");
    assert_eq!(e.log.as_deref(), Some("[СИСТЕМА] Синхронизация модов завершена."));
    assert!(!f.is_downloading && !f.pending_launch);
    assert_eq!(f.launch_label(), "⏳ СВЕРКА ПЛАГИНОВ...");
    let e = f.apply_finish(FinishKind::PluginsSuccess);
    assert!(!e.launch);
    assert!(!f.is_busy());
}

#[test]
fn failed_download_cancels_launch() {
    let mut f = TaskFlags::new();
    assert!(f.begin_mod_sync(true));
    let e = f.apply_finish(FinishKind::ModsError);
    assert!(!e.launch);
    assert_eq!(e.status, "Ошибка загрузки модов");
    assert_eq!(e.log.as_deref(), Some("[ЗАПУСК] Отменен из-за ошибок скачивания."));

    let mut f = TaskFlags::new();
    f.is_downloading_java = true;
    f.pending_launch = true;
    let e = f.apply_finish(FinishKind::JavaError);
    assert!(!e.launch && !f.pending_launch && !f.is_downloading_java);

    let mut f = TaskFlags::new();
    f.is_downloading_java = true;
    f.pending_launch = true;
    let e = f.apply_finish(FinishKind::JavaSuccess);
    assert!(e.launch && f.pending_launch);
    assert_eq!(e.status, "Java установлена");
}

#[test]
fn server_core_download_starts_server_later() {
    let mut f = TaskFlags::new();
    f.begin_server_core_download();
    assert!(f.is_downloading_server_core && f.pending_launch);
    assert_eq!(f.launch_label(), "⏳ СКАЧИВАНИЕ СЕРВЕРА...");
    let e = f.apply_finish(FinishKind::ServerCoreSuccess);
    assert!(!e.launch);
    assert_eq!(e.status, "Серверное ядро установлено");
    assert_eq!(
        missing_core_log("paper-1.20.1.jar"),
        "[ЗАПУСК] Отсутствует ядро сервера. Автоматическое скачивание paper-1.20.1.jar..."
    );
}

#[test]
fn sync_end_message_is_read_back() {
    for (kind, err, expected) in [
        (SyncKind::Mods, false, FinishKind::ModsSuccess),
        (SyncKind::Mods, true, FinishKind::ModsError),
        (SyncKind::Plugins, false, FinishKind::PluginsSuccess),
        (SyncKind::Plugins, true, FinishKind::PluginsError),
    ] {
        assert_eq!(finish_kind(&sync_finish_token(kind, err)), Some(expected));
    }
    let mut f = TaskFlags::new();
    f.begin_mod_sync(true);
    let k = finish_kind(&sync_finish_token(SyncKind::Mods, false)).unwrap();
    assert!(f.apply_finish(k).launch);
}

#[test]
fn log_routing() {
    match route_log("[GAME-OUT] <Steve> hi") {
        LogRoute::Game(s) => assert_eq!(s, "<Steve> hi"),
        other => panic!("unexpected {:?}", other),
    }
    match route_log("[GAME-ERR] Done (1s)") {
        LogRoute::System(s) => assert_eq!(s, "[СЕРВЕР] Done (1s)"),
        other => panic!("unexpected {:?}", other),
    }
    match route_log("[СИСТЕМА] x") {
        LogRoute::System(s) => assert_eq!(s, "[СИСТЕМА] x"),
        other => panic!("unexpected {:?}", other),
    }
    assert_eq!(replace_text("a-b-c", "-", "+"), "a+b+c");
    assert_eq!(replace_text("aaa", "aa", "b"), "ba");
    assert_eq!(replace_text("", "x", "y"), "");
}

#[test]
fn progress_lines_replace_each_other() {
    assert!(is_progress_line("Загрузка X: 10%"));
    assert!(!is_progress_line("Загрузка X"));
    let mut log = vec!["start".to_string()];
    assert_eq!(push_log_entry(&mut log, "Загрузка X: 10%".to_string(), false), LogUpdate::Appended { progress: true });
    assert_eq!(push_log_entry(&mut log, "Загрузка X: 15%".to_string(), false), LogUpdate::Dropped);
    assert_eq!(log.len(), 2);
    assert_eq!(push_log_entry(&mut log, "Загрузка X: 20%".to_string(), true), LogUpdate::Replaced);
    assert_eq!(log, vec!["start".to_string(), "Загрузка X: 20%".to_string()]);
    assert_eq!(push_log_entry(&mut log, "Загрузка X: 100%".to_string(), false), LogUpdate::Replaced);
    assert_eq!(log[1], "Загрузка X: 100%");
    assert_eq!(push_log_entry(&mut log, "done".to_string(), false), LogUpdate::Appended { progress: false });
    assert_eq!(log.len(), 3);
}

#[test]
fn logs_keep_at_most_the_limit() {
    let mut log: Vec<String> = (0..MAX_LOG_LINES).map(|i| i.to_string()).collect();
    push_log_entry(&mut log, "new".to_string(), false);
    assert_eq!(log.len(), MAX_LOG_LINES);
    assert_eq!(log[0], "1");
    assert_eq!(log[MAX_LOG_LINES - 1], "new");
    let mut game: Vec<String> = (0..MAX_LOG_LINES).map(|i| i.to_string()).collect();
    push_capped(&mut game, "x".to_string());
    assert_eq!(game.len(), MAX_LOG_LINES);
    assert_eq!(game[0], "1");
    let mut small = vec![];
    push_capped(&mut small, "x".to_string());
    assert_eq!(small, vec!["x".to_string()]);
}

#[test]
fn restart_countdown() {
    assert_eq!(restart_notice(300).as_deref(), Some("Внимание! Перезапуск сервера через 5 минут!"));
    assert_eq!(restart_notice(1).as_deref(), Some("Перезапуск через 1 секунду!"));
    assert_eq!(restart_notice(299), None);
    assert_eq!(restart_countdown_text(65), "Перезапуск через 01:05");
    assert_eq!(restart_countdown_text(3600), "Перезапуск через 60:00");
    let (log, chat) = scheduled_restart_messages(15);
    assert_eq!(log, "[СИСТЕМА] Запланирован перезапуск через 15 мин.");
    assert_eq!(chat, "say Внимание! Запланирован перезапуск сервера через 15 мин.");
    assert_eq!(say_command("hi"), "say hi");
}

#[test]
fn server_exit_decisions() {
    let mut pending = true;
    let e = on_server_exit(&mut pending, false, ServerExit::Exited(0));
    assert!(e.restart && !pending);
    assert_eq!(e.exit_log.as_deref(), Some("[СИСТЕМА] Сервер закрылся с кодом: 0."));
    assert_eq!(e.status.as_deref(), Some("Сервер закрыт (Код 0)"));
    assert!(e.system_log.is_none());

    let mut pending = false;
    let e = on_server_exit(&mut pending, true, ServerExit::Exited(-1));
    assert!(e.restart);
    assert_eq!(e.exit_log.as_deref(), Some("[СИСТЕМА] Сервер закрылся с кодом: -1."));
    assert_eq!(
        e.system_log.as_deref(),
        Some("[АВТОРЕСТАРТ] Обнаружен сбой сервера! Запуск автоматического восстановления...")
    );

    let mut pending = false;
    let e = on_server_exit(&mut pending, true, ServerExit::Exited(0));
    assert!(!e.restart && e.system_log.is_none());

    let mut pending = false;
    let e = on_server_exit(&mut pending, true, ServerExit::Lost);
    assert!(e.restart && e.exit_log.is_none() && e.status.is_none());
    assert_eq!(
        e.system_log.as_deref(),
        Some("[АВТОРЕСТАРТ] Обнаружена потеря процесса! Запуск автоматического восстановления...")
    );

    let mut pending = false;
    let e = on_server_exit(&mut pending, false, ServerExit::Lost);
    assert!(!e.restart);
}

#[test]
fn header_line() {
    let s = ServerStatus { is_online: true, motd: "Hi".to_string(), players_online: 2, players_max: 10, ping_ms: 35 };
    assert_eq!(
        status_header(&Some(s)),
        ("🟢 Сервер онлайн | Игроки: 2/10 | Пинг: 35 мс | MOTD: Hi".to_string(), (100, 230, 100))
    );
    let off = ServerStatus { is_online: false, motd: String::new(), players_online: 0, players_max: 0, ping_ms: 0 };
    assert_eq!(status_header(&Some(off)).0, "🔴 Сервер недоступен (Офлайн)");
    assert_eq!(status_header(&None), ("📡 Поиск игрового сервера...".to_string(), (160, 160, 160)));
}

#[test]
fn restart_notices_sent_once() {
    let mut last = None;
    assert_eq!(restart_notice_due(299, &mut last), None);
    assert_eq!(last, None);
    assert_eq!(restart_notice_due(300, &mut last).as_deref(), Some("say Внимание! Перезапуск сервера через 5 минут!"));
    assert_eq!(last, Some(300));
    assert_eq!(restart_notice_due(300, &mut last), None);
    assert_eq!(restart_notice_due(5, &mut last).as_deref(), Some("say Перезапуск через 5 секунд..."));
    assert_eq!(last, Some(5));
}
