use vstd::prelude::*;
use crate::numbers::{parse_decimal, parse_unsigned};
use crate::models::LauncherConfig;
use crate::text::{chars_of, concat, str_eq, string_from};

verus! {

/// The port typed in for the server, as `str::parse::<u16>` reads it; `None` leaves
/// the port as it was.
pub fn parse_port(text: &str) -> (r: Option<u16>)
    ensures
        match parse_unsigned(text@, 65535) {
            Some(v) => r == Some(v as u16),
            None => r.is_none(),
        },
{
    let c = chars_of(text);
    match parse_decimal(c.as_slice(), 65535) {
        Some(v) => Some(v as u16),
        None => None,
    }
}

/// The address that the status checks of the server use, as plain values.
pub open spec fn address_view(address: (String, u16)) -> (Seq<char>, u16) {
    (address.0@, address.1)
}

/// The address that the settings name: their IP and port.
pub open spec fn config_address(config: LauncherConfig) -> (Seq<char>, u16) {
    (config.server_ip@, config.server_port)
}

/// The settings after a port is typed in: the port it reads as, or the settings
/// unchanged when the text is no port.
pub open spec fn port_edit_spec(config: LauncherConfig, text: Seq<char>) -> LauncherConfig {
    match parse_unsigned(text, 65535) {
        Some(v) => LauncherConfig { server_port: v as u16, ..config },
        None => config,
    }
}

/// The checked address after a port is typed in: the settings' new address when the
/// port was taken, else the address as it was.
pub open spec fn port_edit_address(
    config: LauncherConfig,
    address: (Seq<char>, u16),
    text: Seq<char>,
) -> (Seq<char>, u16) {
    match parse_unsigned(text, 65535) {
        Some(v) => config_address(port_edit_spec(config, text)),
        None => address,
    }
}

/// Sets the server's IP in the settings and in the checked address.
pub fn set_server_ip(config: &mut LauncherConfig, address: &mut (String, u16), ip: &str)
    ensures
        final(config).server_ip@ == ip@,
        *final(config) == (LauncherConfig { server_ip: final(config).server_ip, ..*old(config) }),
        address_view(*final(address)) == config_address(*final(config)),
{
    config.server_ip = string_from(ip);
    *address = (string_from(ip), config.server_port);
}

/// Takes in a port typed for the server: where it reads as a port, the settings and
/// the checked address get it (and `true` is returned); else nothing changes.
pub fn set_server_port_text(config: &mut LauncherConfig, address: &mut (String, u16), text: &str) -> (r: bool)
    ensures
        r == parse_unsigned(text@, 65535).is_some(),
        *final(config) == port_edit_spec(*old(config), text@),
        address_view(*final(address)) == port_edit_address(*old(config), address_view(*old(address)), text@),
        !r ==> *final(address) == *old(address),
{
    match parse_port(text) {
        Some(p) => {
            config.server_port = p;
            *address = (string_from(config.server_ip.as_str()), p);
            true
        },
        None => false,
    }
}

/// Whatever is typed into the server's IP or port, the address that the status
/// checks use stays the one that the settings name; a port text that reads as no
/// port leaves the settings as they were.
pub proof fn lemma_server_edits_keep_address(
    config: LauncherConfig,
    address: (Seq<char>, u16),
    text: Seq<char>,
)
    requires
        address == config_address(config),
    ensures
        port_edit_address(config, address, text) == config_address(port_edit_spec(config, text)),
        parse_unsigned(text, 65535).is_none() ==> port_edit_spec(config, text) == config,
{
}

/// The difficulty as the settings show it; an unknown value shows as normal.
pub open spec fn difficulty_label_spec(d: Seq<char>) -> Seq<char> {
    if d == "peaceful"@ {
        "Peaceful (Мирная)"@
    } else if d == "easy"@ {
        "Easy (Легкая)"@
    } else if d == "hard"@ {
        "Hard (Сложная)"@
    } else {
        "Normal (Нормальная)"@
    }
}

/// The difficulty as the settings show it.
pub fn difficulty_label(difficulty: &str) -> (r: String)
    ensures
        r@ == difficulty_label_spec(difficulty@),
{
    if str_eq(difficulty, "peaceful") {
        string_from("Peaceful (Мирная)")
    } else if str_eq(difficulty, "easy") {
        string_from("Easy (Легкая)")
    } else if str_eq(difficulty, "hard") {
        string_from("Hard (Сложная)")
    } else {
        string_from("Normal (Нормальная)")
    }
}

/// The game mode as the settings show it; an unknown value shows as survival.
pub open spec fn gamemode_label_spec(g: Seq<char>) -> Seq<char> {
    if g == "creative"@ {
        "Творческий (Creative)"@
    } else if g == "adventure"@ {
        "Приключение (Adventure)"@
    } else if g == "spectator"@ {
        "Наблюдатель (Spectator)"@
    } else {
        "Выживание (Survival)"@
    }
}

/// The game mode as the settings show it.
pub fn gamemode_label(gamemode: &str) -> (r: String)
    ensures
        r@ == gamemode_label_spec(gamemode@),
{
    if str_eq(gamemode, "creative") {
        string_from("Творческий (Creative)")
    } else if str_eq(gamemode, "adventure") {
        string_from("Приключение (Adventure)")
    } else if str_eq(gamemode, "spectator") {
        string_from("Наблюдатель (Spectator)")
    } else {
        string_from("Выживание (Survival)")
    }
}

/// The difficulties offered, by the values the settings store.
pub fn difficulty_values() -> (r: Vec<String>)
    ensures
        r@.len() == 4,
        r@[0]@ == "peaceful"@,
        r@[1]@ == "easy"@,
        r@[2]@ == "normal"@,
        r@[3]@ == "hard"@,
{
    let mut r: Vec<String> = Vec::new();
    r.push(string_from("peaceful"));
    r.push(string_from("easy"));
    r.push(string_from("normal"));
    r.push(string_from("hard"));
    r
}

/// The game modes offered.
pub fn gamemode_values() -> (r: Vec<String>)
    ensures
        r@.len() == 4,
        r@[0]@ == "survival"@,
        r@[1]@ == "creative"@,
        r@[2]@ == "adventure"@,
        r@[3]@ == "spectator"@,
{
    let mut r: Vec<String> = Vec::new();
    r.push(string_from("survival"));
    r.push(string_from("creative"));
    r.push(string_from("adventure"));
    r.push(string_from("spectator"));
    r
}

/// The name shown for the launch core of a profile.
pub fn loader_label(loader: crate::models::ModLoader) -> (r: String)
    ensures
        loader == crate::models::ModLoader::Vanilla ==> r@ == "Vanilla (Чистая)"@,
        loader == crate::models::ModLoader::Forge ==> r@ == "Forge (Моды)"@,
        loader == crate::models::ModLoader::Fabric ==> r@ == "Fabric (Моды)"@,
        loader == crate::models::ModLoader::NeoForge ==> r@ == "NeoForge (Моды)"@,
{
    match loader {
        crate::models::ModLoader::Vanilla => string_from("Vanilla (Чистая)"),
        crate::models::ModLoader::Forge => string_from("Forge (Моды)"),
        crate::models::ModLoader::Fabric => string_from("Fabric (Моды)"),
        crate::models::ModLoader::NeoForge => string_from("NeoForge (Моды)"),
    }
}

/// The status line after the server address was bound to a ZeroTier address, and
/// the log line.
pub fn bound_ip_messages(ip: &str) -> (r: (String, String))
    ensures
        r.0@ == "IP привязан: "@ + ip@,
        r.1@ == "[СИСТЕМА] IP сервера изменен на ZeroTier IP: "@ + ip@,
{
    (concat("IP привязан: ", ip), concat("[СИСТЕМА] IP сервера изменен на ZeroTier IP: ", ip))
}

} // verus!
