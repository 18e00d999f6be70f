use vstd::prelude::*;
use crate::models::{ConsoleFilter, MotdDescription};
use crate::numbers::{parse_decimal, parse_unsigned};
use crate::text::{
    char_is_whitespace, chars_of, concat, seq_contains, str_contains, str_eq, string_from,
    string_of, to_lowercase, trim_chars, trim_spec, unicode_white_space,
    lemma_trim_idempotent, lemma_trim_of_clean, lowercase_spec, all_ascii,
};

verus! {

/// Whether a lower-case server line tells of something that happened in the world:
/// chat (`<` and `>`), players joining or leaving, commands issued, messages of the
/// server, advancements.
pub open spec fn world_event_lower(l: Seq<char>) -> bool {
    (seq_contains(l, "<"@) && seq_contains(l, ">"@))
        || seq_contains(l, "joined the game"@)
        || seq_contains(l, "left the game"@)
        || seq_contains(l, "присоединился к игре"@)
        || seq_contains(l, "вышел из игры"@)
        || seq_contains(l, "issued server command"@)
        || seq_contains(l, "выполнил команду"@)
        || seq_contains(l, "[server]"@)
        || seq_contains(l, "[сервер]"@)
        || seq_contains(l, "has made the advancement"@)
        || seq_contains(l, "получил достижение"@)
}

/// Whether a server line is a world event, judged on its lower-case form.
pub fn is_world_event(line: &str) -> (r: bool)
    ensures
        r == world_event_lower(lowercase_spec(line@)),
{
    let lower = to_lowercase(line);
    let l = lower.as_str();
    (str_contains(l, "<") && str_contains(l, ">"))
        || str_contains(l, "joined the game")
        || str_contains(l, "left the game")
        || str_contains(l, "присоединился к игре")
        || str_contains(l, "вышел из игры")
        || str_contains(l, "issued server command")
        || str_contains(l, "выполнил команду")
        || str_contains(l, "[server]")
        || str_contains(l, "[сервер]")
        || str_contains(l, "has made the advancement")
        || str_contains(l, "получил достижение")
}

/// The commands of the game that are sent as they are typed.
pub open spec fn mc_commands() -> Seq<Seq<char>> {
    seq![
        "help"@,
        "op"@,
        "deop"@,
        "stop"@,
        "restart"@,
        "kick"@,
        "ban"@,
        "ban-ip"@,
        "pardon"@,
        "pardon-ip"@,
        "list"@,
        "say"@,
        "tellraw"@,
        "whitelist"@,
        "difficulty"@,
        "gamemode"@,
        "gamerule"@,
        "give"@,
        "clear"@,
        "xp"@,
        "time"@,
        "weather"@,
        "teleport"@,
        "tp"@,
        "save-all"@,
        "save-off"@,
        "save-on"@,
        "seed"@,
        "setblock"@,
        "spawnpoint"@,
        "summon"@,
        "effect"@,
        "enchant"@,
        "fill"@,
        "locate"@,
        "playsound"@,
        "scoreboard"@,
        "setworldspawn"@,
        "spreadplayers"@,
        "stopsound"@,
        "title"@,
        "trigger"@,
        "reload"@,
        "function"@,
        "advancement"@,
        "recipe"@,
        "tag"@,
        "team"@,
        "bossbar"@,
        "clone"@,
        "data"@,
        "datapack"@,
        "debug"@,
        "defaultgamemode"@,
        "execute"@,
        "forceload"@,
        "loot"@,
        "msg"@,
        "say"@,
        "tell"@,
        "w"@,
        "publish"@,
        "spectate"@,
        "teammsg"@,
        "tm"@
    ]
}

pub open spec fn str_views(v: Seq<&str>) -> Seq<Seq<char>> {
    v.map_values(|s: &str| s@)
}

fn mc_command_list() -> (v: Vec<&'static str>)
    ensures
        str_views(v@) == mc_commands(),
{
    let mut v: Vec<&'static str> = Vec::new();
    v.push("help");
    v.push("op");
    v.push("deop");
    v.push("stop");
    v.push("restart");
    v.push("kick");
    v.push("ban");
    v.push("ban-ip");
    v.push("pardon");
    v.push("pardon-ip");
    v.push("list");
    v.push("say");
    v.push("tellraw");
    v.push("whitelist");
    v.push("difficulty");
    v.push("gamemode");
    v.push("gamerule");
    v.push("give");
    v.push("clear");
    v.push("xp");
    v.push("time");
    v.push("weather");
    v.push("teleport");
    v.push("tp");
    v.push("save-all");
    v.push("save-off");
    v.push("save-on");
    v.push("seed");
    v.push("setblock");
    v.push("spawnpoint");
    v.push("summon");
    v.push("effect");
    v.push("enchant");
    v.push("fill");
    v.push("locate");
    v.push("playsound");
    v.push("scoreboard");
    v.push("setworldspawn");
    v.push("spreadplayers");
    v.push("stopsound");
    v.push("title");
    v.push("trigger");
    v.push("reload");
    v.push("function");
    v.push("advancement");
    v.push("recipe");
    v.push("tag");
    v.push("team");
    v.push("bossbar");
    v.push("clone");
    v.push("data");
    v.push("datapack");
    v.push("debug");
    v.push("defaultgamemode");
    v.push("execute");
    v.push("forceload");
    v.push("loot");
    v.push("msg");
    v.push("say");
    v.push("tell");
    v.push("w");
    v.push("publish");
    v.push("spectate");
    v.push("teammsg");
    v.push("tm");
    assert(str_views(v@) =~= mc_commands());
    v
}

/// Whether `word` is a command of the game.
pub fn is_mc_command(word: &str) -> (r: bool)
    ensures
        r == mc_commands().contains(word@),
{
    let list = mc_command_list();
    let mut i: usize = 0;
    while i < list.len()
        invariant
            i <= list@.len(),
            str_views(list@) == mc_commands(),
            forall|k: int| 0 <= k < i ==> #[trigger] mc_commands()[k] != word@,
        decreases list.len() - i,
    {
        if str_eq(list[i], word) {
            assert(mc_commands()[i as int] == word@);
            return true;
        }
        assert(mc_commands()[i as int] == list@[i as int]@);
        i = i + 1;
    }
    proof {
        if mc_commands().contains(word@) {
            let k = choose|k: int| 0 <= k < mc_commands().len() && mc_commands()[k] == word@;
            assert(mc_commands()[k] != word@);
        }
    }
    false
}

/// The position of the first white-space character of `s` (its length if none).
pub open spec fn first_space(s: Seq<char>) -> int
    decreases s.len(),
{
    if s.len() == 0 {
        0
    } else if unicode_white_space(s[0]) {
        0
    } else {
        1 + first_space(s.drop_first())
    }
}

/// The first word of a text that does not begin with white space.
pub open spec fn first_word(s: Seq<char>) -> Seq<char> {
    s.take(first_space(s))
}

proof fn lemma_first_space(s: Seq<char>, k: int)
    requires
        0 <= k <= s.len(),
        forall|j: int| 0 <= j < k ==> !unicode_white_space(#[trigger] s[j]),
        k == s.len() || unicode_white_space(s[k]),
    ensures
        first_space(s) == k,
    decreases s.len(),
{
    if s.len() > 0 && k > 0 {
        assert forall|j: int| 0 <= j < k - 1 implies !unicode_white_space(#[trigger] s.drop_first()[j]) by {
            assert(s.drop_first()[j] == s[j + 1]);
        };
        lemma_first_space(s.drop_first(), k - 1);
    }
}

/// What a line typed into the console is sent to the server as: trimmed; with a
/// leading `/` removed (and trimmed again); sent as it is when its first word, in
/// lower case, is a command of the game; else posted to the chat with `say`.
pub open spec fn format_command_spec(input: Seq<char>) -> Seq<char> {
    let t = trim_spec(input);
    if t.len() == 0 {
        Seq::empty()
    } else if t[0] == '/' {
        trim_spec(t.drop_first())
    } else if mc_commands().contains(lowercase_spec(first_word(t))) {
        t
    } else {
        "say "@ + t
    }
}

/// The command to send for a line typed into the console.
pub fn format_server_command(input: &str) -> (r: String)
    ensures
        r@ == format_command_spec(input@),
{
    let c = chars_of(input);
    let t = trim_chars(c.as_slice());
    if t.len() == 0 {
        return String::new();
    }
    if t[0] == '/' {
        let rest = &t.as_slice()[1..t.len()];
        assert(rest@ =~= t@.drop_first());
        let r = trim_chars(rest);
        return string_of(r.as_slice());
    }
    let mut k: usize = 0;
    while k < t.len() && !char_is_whitespace(t[k])
        invariant
            k <= t@.len(),
            forall|j: int| 0 <= j < k ==> !unicode_white_space(#[trigger] t@[j]),
        decreases t.len() - k,
    {
        k = k + 1;
    }
    proof {
        lemma_first_space(t@, k as int);
    }
    let word = string_of(&t.as_slice()[0..k]);
    assert(word@ =~= first_word(t@));
    let lower = to_lowercase(word.as_str());
    let ts = string_of(t.as_slice());
    if is_mc_command(lower.as_str()) {
        ts
    } else {
        concat("say ", ts.as_str())
    }
}

/// Formatting a command that does not begin with `/` (once trimmed) a second time
/// gives what the first formatting gave: a command of the game stays as it is, and a
/// chat line already begins with `say`.
pub proof fn lemma_format_command_idempotent(input: Seq<char>)
    requires
        trim_spec(input).len() == 0 || trim_spec(input)[0] != '/',
    ensures
        format_command_spec(format_command_spec(input)) == format_command_spec(input),
{
    let t = trim_spec(input);
    lemma_trim_idempotent(input);
    if t.len() > 0 && !mc_commands().contains(lowercase_spec(first_word(t))) {
        let s = "say "@ + t;
        reveal_strlit("say ");
        reveal_strlit("say");
        assert(s[0] == 's' && s[1] == 'a' && s[2] == 'y' && s[3] == ' ');
        assert(s.last() == t.last());
        lemma_trim_of_clean(s);
        lemma_first_space(s, 3);
        assert(first_word(s) =~= "say"@);
        assert(lowercase_spec("say"@) =~= "say"@) by {
            assert(all_ascii("say"@));
        };
        assert(mc_commands()[11] == "say"@);
    }
}

/// A typed line that does not begin with `/` (once trimmed) is sent as it is, trimmed,
/// when its first word in lower case is a command of the game (help, op, whitelist,
/// gamemode, tp and the others below), and posted to the chat with `say` otherwise.
pub proof fn lemma_game_commands_sent_as_typed(line: Seq<char>)
    requires
        trim_spec(line).len() > 0,
        trim_spec(line)[0] != '/',
    ensures
        seq!["help"@, "op"@, "deop"@, "stop"@, "restart"@, "kick"@, "ban"@, "ban-ip"@, "pardon"@,
            "pardon-ip"@, "list"@, "say"@, "tellraw"@, "whitelist"@, "difficulty"@,
            "gamemode"@, "gamerule"@, "give"@, "clear"@, "xp"@, "time"@, "weather"@,
            "teleport"@, "tp"@, "save-all"@, "save-off"@, "save-on"@, "seed"@, "setblock"@,
            "spawnpoint"@, "summon"@, "effect"@, "enchant"@, "fill"@, "locate"@,
            "playsound"@, "scoreboard"@, "setworldspawn"@, "spreadplayers"@, "stopsound"@,
            "title"@, "trigger"@, "reload"@, "function"@, "advancement"@, "recipe"@, "tag"@,
            "team"@, "bossbar"@, "clone"@, "data"@, "datapack"@, "debug"@,
            "defaultgamemode"@, "execute"@, "forceload"@, "loot"@, "msg"@, "say"@, "tell"@,
            "w"@, "publish"@, "spectate"@, "teammsg"@, "tm"@].contains(
            lowercase_spec(first_word(trim_spec(line))),
        ) ==> format_command_spec(line) == trim_spec(line),
        !seq!["help"@, "op"@, "deop"@, "stop"@, "restart"@, "kick"@, "ban"@, "ban-ip"@, "pardon"@,
            "pardon-ip"@, "list"@, "say"@, "tellraw"@, "whitelist"@, "difficulty"@,
            "gamemode"@, "gamerule"@, "give"@, "clear"@, "xp"@, "time"@, "weather"@,
            "teleport"@, "tp"@, "save-all"@, "save-off"@, "save-on"@, "seed"@, "setblock"@,
            "spawnpoint"@, "summon"@, "effect"@, "enchant"@, "fill"@, "locate"@,
            "playsound"@, "scoreboard"@, "setworldspawn"@, "spreadplayers"@, "stopsound"@,
            "title"@, "trigger"@, "reload"@, "function"@, "advancement"@, "recipe"@, "tag"@,
            "team"@, "bossbar"@, "clone"@, "data"@, "datapack"@, "debug"@,
            "defaultgamemode"@, "execute"@, "forceload"@, "loot"@, "msg"@, "say"@, "tell"@,
            "w"@, "publish"@, "spectate"@, "teammsg"@, "tm"@].contains(
            lowercase_spec(first_word(trim_spec(line))),
        ) ==> format_command_spec(line) == "say "@ + trim_spec(line),
{
    assert(seq!["help"@, "op"@, "deop"@, "stop"@, "restart"@, "kick"@, "ban"@, "ban-ip"@, "pardon"@,
            "pardon-ip"@, "list"@, "say"@, "tellraw"@, "whitelist"@, "difficulty"@,
            "gamemode"@, "gamerule"@, "give"@, "clear"@, "xp"@, "time"@, "weather"@,
            "teleport"@, "tp"@, "save-all"@, "save-off"@, "save-on"@, "seed"@, "setblock"@,
            "spawnpoint"@, "summon"@, "effect"@, "enchant"@, "fill"@, "locate"@,
            "playsound"@, "scoreboard"@, "setworldspawn"@, "spreadplayers"@, "stopsound"@,
            "title"@, "trigger"@, "reload"@, "function"@, "advancement"@, "recipe"@, "tag"@,
            "team"@, "bossbar"@, "clone"@, "data"@, "datapack"@, "debug"@,
            "defaultgamemode"@, "execute"@, "forceload"@, "loot"@, "msg"@, "say"@, "tell"@,
            "w"@, "publish"@, "spectate"@, "teammsg"@, "tm"@] == mc_commands());
}

/// Whether a lower-case line reports an error.
pub open spec fn error_line(l: Seq<char>) -> bool {
    seq_contains(l, "error"@) || seq_contains(l, "exception"@) || seq_contains(l, "err"@)
        || seq_contains(l, "fatal"@)
}

/// Whether a lower-case line is a warning.
pub open spec fn warn_line(l: Seq<char>) -> bool {
    seq_contains(l, "warn"@) || seq_contains(l, "warning"@)
}

/// Whether a console line is shown under a filter: all lines; information (no
/// error, exception, warning or fatal); warnings; errors; world events.
pub open spec fn filter_spec(f: ConsoleFilter, line: Seq<char>) -> bool {
    let l = lowercase_spec(line);
    match f {
        ConsoleFilter::All => true,
        ConsoleFilter::Info => !seq_contains(l, "error"@) && !seq_contains(l, "exception"@)
            && !seq_contains(l, "warn"@) && !seq_contains(l, "warning"@) && !seq_contains(l, "fatal"@),
        ConsoleFilter::Warn => warn_line(l),
        ConsoleFilter::Error => error_line(l),
        ConsoleFilter::Events => world_event_lower(l),
    }
}

/// Whether a console line passes a filter.
pub fn console_filter_matches(filter: ConsoleFilter, line: &str) -> (r: bool)
    ensures
        r == filter_spec(filter, line@),
{
    match filter {
        ConsoleFilter::All => true,
        ConsoleFilter::Info => {
            let lower = to_lowercase(line);
            let l = lower.as_str();
            !str_contains(l, "error") && !str_contains(l, "exception") && !str_contains(l, "warn")
                && !str_contains(l, "warning") && !str_contains(l, "fatal")
        },
        ConsoleFilter::Warn => {
            let lower = to_lowercase(line);
            str_contains(lower.as_str(), "warn") || str_contains(lower.as_str(), "warning")
        },
        ConsoleFilter::Error => {
            let lower = to_lowercase(line);
            let l = lower.as_str();
            str_contains(l, "error") || str_contains(l, "exception") || str_contains(l, "err")
                || str_contains(l, "fatal")
        },
        ConsoleFilter::Events => is_world_event(line),
    }
}

/// The colour of a console line: red for errors, yellow for warnings, green for
/// players joining or leaving, blue for typed input, grey otherwise.
pub open spec fn line_color_spec(line: Seq<char>) -> (u8, u8, u8) {
    let l = lowercase_spec(line);
    if error_line(l) {
        (255, 120, 120)
    } else if warn_line(l) {
        (250, 210, 100)
    } else if seq_contains(l, "joined the game"@) || seq_contains(l, "left the game"@)
        || seq_contains(l, "присоединился"@) || seq_contains(l, "вышел"@) {
        (120, 240, 120)
    } else if seq_contains(l, "[ввод]"@) || seq_contains(l, ">"@) {
        (120, 200, 255)
    } else {
        (210, 210, 210)
    }
}

/// The colour of a console line, as red, green and blue.
pub fn console_line_color(line: &str) -> (r: (u8, u8, u8))
    ensures
        r == line_color_spec(line@),
{
    let lower = to_lowercase(line);
    let l = lower.as_str();
    if str_contains(l, "error") || str_contains(l, "exception") || str_contains(l, "err")
        || str_contains(l, "fatal") {
        (255, 120, 120)
    } else if str_contains(l, "warn") || str_contains(l, "warning") {
        (250, 210, 100)
    } else if str_contains(l, "joined the game") || str_contains(l, "left the game")
        || str_contains(l, "присоединился") || str_contains(l, "вышел") {
        (120, 240, 120)
    } else if str_contains(l, "[ввод]") || str_contains(l, ">") {
        (120, 200, 255)
    } else {
        (210, 210, 210)
    }
}

/// The text after the first `.` of `v`, up to the next `.` (the minor version).
pub open spec fn second_field(v: Seq<char>) -> Option<Seq<char>> {
    let i = crate::downloader::first_index_of(v, '.');
    if i >= v.len() {
        None
    } else {
        let rest = v.skip(i + 1);
        Some(rest.take(crate::downloader::first_index_of(rest, '.')))
    }
}

/// Whether a Minecraft version predates 1.13, whose commands take the older form:
/// its minor version reads as a number below 13.
pub open spec fn is_pre_flattening_spec(v: Seq<char>) -> bool {
    match second_field(v) {
        Some(m) => match parse_unsigned(m, 0xffff_ffff) {
            Some(n) => n < 13,
            None => false,
        },
        None => false,
    }
}

proof fn lemma_first_index_of(s: Seq<char>, c: char, k: int)
    requires
        0 <= k <= s.len(),
        forall|j: int| 0 <= j < k ==> #[trigger] s[j] != c,
        k == s.len() || s[k] == c,
    ensures
        crate::downloader::first_index_of(s, c) == k,
    decreases s.len(),
{
    if s.len() > 0 && k > 0 {
        assert forall|j: int| 0 <= j < k - 1 implies #[trigger] s.drop_first()[j] != c by {
            assert(s.drop_first()[j] == s[j + 1]);
        };
        lemma_first_index_of(s.drop_first(), c, k - 1);
    }
}

/// Whether a Minecraft version predates 1.13.
pub fn is_pre_flattening(version: &str) -> (r: bool)
    ensures
        r == is_pre_flattening_spec(version@),
{
    let c = chars_of(version);
    let mut i: usize = 0;
    while i < c.len() && c[i] != '.'
        invariant
            i <= c@.len(),
            forall|j: int| 0 <= j < i ==> #[trigger] c@[j] != '.',
        decreases c.len() - i,
    {
        i = i + 1;
    }
    proof {
        lemma_first_index_of(c@, '.', i as int);
    }
    if i >= c.len() {
        return false;
    }
    let mut j: usize = i + 1;
    while j < c.len() && c[j] != '.'
        invariant
            i + 1 <= j <= c@.len(),
            forall|k: int| i + 1 <= k < j ==> #[trigger] c@[k] != '.',
        decreases c.len() - j,
    {
        j = j + 1;
    }
    let ghost rest = c@.skip(i + 1);
    proof {
        assert forall|k: int| 0 <= k < j - i - 1 implies #[trigger] rest[k] != '.' by {
            assert(rest[k] == c@[i + 1 + k]);
        };
        lemma_first_index_of(rest, '.', j - i - 1);
    }
    let field = &c.as_slice()[i + 1..j];
    assert(field@ =~= rest.take(j - i - 1));
    match parse_decimal(field, 0xffff_ffff) {
        Some(n) => n < 13,
        None => false,
    }
}

/// The message of the day of a status response: a plain string as it is; an object's
/// `text` followed by the `text` of each of its `extra` parts that has one; else
/// "Minecraft Server".
pub open spec fn motd_spec(d: MotdDescription) -> Seq<char> {
    match d {
        MotdDescription::Text(s) => s@,
        MotdDescription::Object { text: Some(t), extra } => t@ + match extra {
            Some(parts) => extra_texts(parts@),
            None => Seq::empty(),
        },
        _ => "Minecraft Server"@,
    }
}

/// The texts of the parts that have one, in order.
pub open spec fn extra_texts(parts: Seq<Option<String>>) -> Seq<char>
    decreases parts.len(),
{
    if parts.len() == 0 {
        Seq::empty()
    } else {
        extra_texts(parts.drop_last()) + match parts.last() {
            Some(t) => t@,
            None => Seq::empty(),
        }
    }
}

/// The message of the day of a server.
pub fn get_motd_text(desc: &MotdDescription) -> (r: String)
    ensures
        r@ == motd_spec(*desc),
{
    match desc {
        MotdDescription::Text(s) => string_from(s.as_str()),
        MotdDescription::Object { text: Some(t), extra } => {
            let mut full = string_from(t.as_str());
            match extra {
                Some(parts) => {
                    let mut i: usize = 0;
                    while i < parts.len()
                        invariant
                            i <= parts@.len(),
                            full@ == t@ + extra_texts(parts@.take(i as int)),
                        decreases parts.len() - i,
                    {
                        assert(parts@.take(i + 1).drop_last() =~= parts@.take(i as int));
                        match &parts[i] {
                            Some(p) => full.append(p.as_str()),
                            None => {},
                        }
                        i = i + 1;
                    }
                    assert(parts@.take(parts@.len() as int) =~= parts@);
                },
                None => {},
            }
            full
        },
        _ => string_from("Minecraft Server"),
    }
}


/// The console template that freezes a player (or lifts the freeze), in the form
/// of the version's commands: before 1.13 `effect <player> ...`, from 1.13 on
/// `effect give|clear <player> minecraft:slowness ...`.
pub fn freeze_template(version: &str, freeze: bool) -> (r: String)
    ensures
        is_pre_flattening_spec(version@) && freeze ==> r@ == "effect <Игрок> slowness 99999 255 true"@,
        !is_pre_flattening_spec(version@) && freeze ==> r@
            == "effect give <Игрок> minecraft:slowness 99999 255 true"@,
        is_pre_flattening_spec(version@) && !freeze ==> r@ == "effect <Игрок> clear"@,
        !is_pre_flattening_spec(version@) && !freeze ==> r@ == "effect clear <Игрок> minecraft:slowness"@,
{
    let pre = is_pre_flattening(version);
    if freeze {
        if pre {
            string_from("effect <Игрок> slowness 99999 255 true")
        } else {
            string_from("effect give <Игрок> minecraft:slowness 99999 255 true")
        }
    } else if pre {
        string_from("effect <Игрок> clear")
    } else {
        string_from("effect clear <Игрок> minecraft:slowness")
    }
}

} // verus!
