use vstd::prelude::*;
use crate::text::string_from;

verus! {

/// Mod loaders for the game's client and server.
#[derive(Clone, Copy, Debug, PartialEq, Eq, Structural, Hash)]
pub enum ModLoader {
    Vanilla,
    Forge,
    Fabric,
    NeoForge,
}

impl Default for ModLoader {
    fn default() -> (r: ModLoader)
        ensures
            r == ModLoader::Forge,
    {
        ModLoader::Forge
    }
}

/// Server cores that the launcher installs.
#[derive(Clone, Copy, Debug, PartialEq, Eq, Structural, Hash)]
pub enum ServerCoreType {
    Vanilla,
    Paper,
    Forge,
    Fabric,
    NeoForge,
}

impl Default for ServerCoreType {
    fn default() -> (r: ServerCoreType)
        ensures
            r == ServerCoreType::Paper,
    {
        ServerCoreType::Paper
    }
}

/// A mod or plugin to download and keep in step with its source.
#[derive(Clone, Debug)]
pub struct ModConfig {
    pub url: String,
    pub filename: String,
    pub allow_update: bool,
    pub sha256: Option<String>,
    pub enabled: bool,
}

/// A mod is enabled unless its entry says otherwise.
pub fn default_enabled() -> (r: bool)
    ensures
        r,
{
    true
}

/// The licence check is off unless a profile says otherwise.
pub fn default_online_mode() -> (r: bool)
    ensures
        !r,
{
    false
}

/// The whitelist is off unless a profile says otherwise.
pub fn default_white_list() -> (r: bool)
    ensures
        !r,
{
    false
}

/// The difficulty is normal unless a profile says otherwise.
pub fn default_difficulty() -> (r: String)
    ensures
        r@ == "normal"@,
{
    string_from("normal")
}

/// Players can hurt each other unless a profile says otherwise.
pub fn default_pvp() -> (r: bool)
    ensures
        r,
{
    true
}

/// Monsters spawn unless a profile says otherwise.
pub fn default_spawn_monsters() -> (r: bool)
    ensures
        r,
{
    true
}

/// At most 20 players unless a profile says otherwise.
pub fn default_max_players() -> (r: u32)
    ensures
        r == 20,
{
    20
}

/// A view distance of 10 chunks unless a profile says otherwise.
pub fn default_view_distance() -> (r: u32)
    ensures
        r == 10,
{
    10
}

/// No automatic restart after a failure unless a profile says otherwise.
pub fn default_auto_restart() -> (r: bool)
    ensures
        !r,
{
    false
}

/// Flight is not allowed unless a profile says otherwise.
pub fn default_allow_flight() -> (r: bool)
    ensures
        !r,
{
    false
}

/// No level seed unless a profile gives one.
pub fn default_level_seed() -> (r: String)
    ensures
        r@ == ""@,
{
    string_from("")
}

/// A spawn protection radius of 16 unless a profile says otherwise.
pub fn default_spawn_protection() -> (r: u32)
    ensures
        r == 16,
{
    16
}

/// Hardcore mode is off unless a profile says otherwise.
pub fn default_hardcore() -> (r: bool)
    ensures
        !r,
{
    false
}

/// Structures are generated unless a profile says otherwise.
pub fn default_generate_structures() -> (r: bool)
    ensures
        r,
{
    true
}

/// Command blocks are off unless a profile says otherwise.
pub fn default_enable_command_block() -> (r: bool)
    ensures
        !r,
{
    false
}

/// The game mode is survival unless a profile says otherwise.
pub fn default_gamemode() -> (r: String)
    ensures
        r@ == "survival"@,
{
    string_from("survival")
}

/// The settings of one server profile.
#[derive(Clone, Debug)]
pub struct LauncherConfig {
    pub profile_name: String,
    pub minecraft_version: String,
    pub max_ram_gb: u32,
    pub aikars_flags: bool,
    pub mods: Vec<ModConfig>,
    pub server_ip: String,
    pub server_port: u16,
    pub mod_loader: ModLoader,
    pub plugins: Vec<ModConfig>,
    pub server_core_type: ServerCoreType,
    pub server_core_version: String,
    pub online_mode: bool,
    pub white_list: bool,
    pub difficulty: String,
    pub pvp: bool,
    pub spawn_monsters: bool,
    pub max_players: u32,
    pub view_distance: u32,
    pub auto_restart_on_crash: bool,
    pub allow_flight: bool,
    pub level_seed: String,
    pub spawn_protection: u32,
    pub hardcore: bool,
    pub generate_structures: bool,
    pub enable_command_block: bool,
    pub gamemode: String,
}

/// The core version that stands for "the latest stable build".
pub open spec fn latest_stable_label() -> Seq<char> {
    "Последний стабильный"@
}

/// The settings of a new profile.
pub open spec fn is_default_config(c: LauncherConfig) -> bool {
    &&& c.profile_name@ == "Forge Server Pack"@
    &&& c.minecraft_version@ == "1.12.2"@
    &&& c.max_ram_gb == 4
    &&& c.aikars_flags
    &&& c.mods@.len() == 0
    &&& c.server_ip@ == "127.0.0.1"@
    &&& c.server_port == 25565
    &&& c.mod_loader == ModLoader::Forge
    &&& c.plugins@.len() == 0
    &&& c.server_core_type == ServerCoreType::Paper
    &&& c.server_core_version@ == latest_stable_label()
    &&& !c.online_mode
    &&& !c.white_list
    &&& c.difficulty@ == "normal"@
    &&& c.pvp
    &&& c.spawn_monsters
    &&& c.max_players == 20
    &&& c.view_distance == 10
    &&& !c.auto_restart_on_crash
    &&& !c.allow_flight
    &&& c.level_seed@ == ""@
    &&& c.spawn_protection == 16
    &&& !c.hardcore
    &&& c.generate_structures
    &&& !c.enable_command_block
    &&& c.gamemode@ == "survival"@
}

impl Default for LauncherConfig {
    fn default() -> (r: LauncherConfig)
        ensures
            is_default_config(r),
    {
        LauncherConfig {
            profile_name: string_from("Forge Server Pack"),
            minecraft_version: string_from("1.12.2"),
            max_ram_gb: 4,
            aikars_flags: true,
            mods: Vec::new(),
            server_ip: string_from("127.0.0.1"),
            server_port: 25565,
            mod_loader: ModLoader::Forge,
            plugins: Vec::new(),
            server_core_type: ServerCoreType::Paper,
            server_core_version: string_from("Последний стабильный"),
            online_mode: default_online_mode(),
            white_list: default_white_list(),
            difficulty: default_difficulty(),
            pvp: default_pvp(),
            spawn_monsters: default_spawn_monsters(),
            max_players: default_max_players(),
            view_distance: default_view_distance(),
            auto_restart_on_crash: default_auto_restart(),
            allow_flight: default_allow_flight(),
            level_seed: default_level_seed(),
            spawn_protection: default_spawn_protection(),
            hardcore: default_hardcore(),
            generate_structures: default_generate_structures(),
            enable_command_block: default_enable_command_block(),
            gamemode: default_gamemode(),
        }
    }
}

/// A named profile.
#[derive(Clone, Debug)]
pub struct Profile {
    pub name: String,
    pub config: LauncherConfig,
}

/// The profiles kept in `profiles.json`, and the one that is selected.
#[derive(Clone, Debug)]
pub struct ProfilesData {
    pub selected_profile: String,
    pub profiles: Vec<Profile>,
}

/// Minecraft versions as Mojang's manifest lists them.
#[derive(Clone, Debug)]
pub struct VersionManifest {
    pub versions: Vec<VersionEntry>,
}

/// One version of the manifest and the address of its package description.
#[derive(Clone, Debug)]
pub struct VersionEntry {
    pub id: String,
    pub url: String,
}

/// The package description of one version.
#[derive(Clone, Debug)]
pub struct VersionPackage {
    pub downloads: VersionDownloads,
    pub libraries: Vec<MojangLibrary>,
}

/// Where the client and server jars of a version are.
#[derive(Clone, Debug)]
pub struct VersionDownloads {
    pub client: VersionArtifact,
    pub server: Option<VersionArtifact>,
}

/// A jar of a version: its address.
#[derive(Clone, Debug)]
pub struct VersionArtifact {
    pub url: String,
}

/// A library that a version needs; `natives` maps an operating system to the
/// classifier of its native files.
#[derive(Clone, Debug)]
pub struct MojangLibrary {
    pub name: String,
    pub downloads: MojangDownloads,
    pub natives: Option<Vec<(String, String)>>,
}

/// The files of a library: the main artifact, and native artifacts by classifier.
#[derive(Clone, Debug)]
pub struct MojangDownloads {
    pub artifact: Option<MojangArtifact>,
    pub classifiers: Option<Vec<(String, MojangArtifact)>>,
}

/// A file of a library: its address and its path under `libraries/`.
#[derive(Clone, Debug)]
pub struct MojangArtifact {
    pub url: String,
    pub path: String,
}

/// A Fabric loader release.
#[derive(Clone, Debug)]
pub struct FabricLoaderEntry {
    pub version: String,
}

/// A Fabric installer release.
#[derive(Clone, Debug)]
pub struct FabricInstallerEntry {
    pub version: String,
}

/// The libraries of a Fabric loader profile.
#[derive(Clone, Debug)]
pub struct FabricProfileResponse {
    pub libraries: Vec<FabricProfileLibrary>,
}

/// A Fabric library: its Maven coordinates `group:artifact:version` and repository.
#[derive(Clone, Debug)]
pub struct FabricProfileLibrary {
    pub name: String,
    pub url: String,
}

/// The builds that PaperMC offers for a version, oldest first.
#[derive(Clone, Debug)]
pub struct PaperVersionResponse {
    pub builds: Vec<u32>,
}

/// The player counts of a status response.
#[derive(Clone, Copy, Debug)]
pub struct PingPlayers {
    pub max: u32,
    pub online: u32,
}

/// The `description` of a status response: a plain string, or an object with a
/// `text` and `extra` parts that may hold texts of their own.
#[derive(Clone, Debug)]
pub enum MotdDescription {
    Text(String),
    Object { text: Option<String>, extra: Option<Vec<Option<String>>> },
    Other,
}

/// A server's status response.
#[derive(Clone, Debug)]
pub struct MinecraftPingResponse {
    pub players: Option<PingPlayers>,
    pub description: MotdDescription,
}

/// The tabs of the window.
#[derive(Clone, Copy, Debug, PartialEq, Eq, Structural)]
pub enum ActiveTab {
    Launch,
    Modding,
    ServerSettings,
    Backups,
}

/// The filters of the server console.
#[derive(Clone, Copy, Debug, PartialEq, Eq, Structural)]
pub enum ConsoleFilter {
    All,
    Info,
    Warn,
    Error,
    Events,
}

impl Default for ConsoleFilter {
    fn default() -> (r: ConsoleFilter)
        ensures
            r == ConsoleFilter::All,
    {
        ConsoleFilter::All
    }
}

/// The sections of the modding tab.
#[derive(Clone, Copy, Debug, PartialEq, Eq, Structural)]
pub enum ModdingSubTab {
    CoresAndVersions,
    Mods,
    Plugins,
    Dependencies,
}

impl Default for ModdingSubTab {
    fn default() -> (r: ModdingSubTab)
        ensures
            r == ModdingSubTab::CoresAndVersions,
    {
        ModdingSubTab::CoresAndVersions
    }
}

/// What the last status query found.
#[derive(Clone, Debug)]
pub struct ServerStatus {
    pub is_online: bool,
    pub motd: String,
    pub players_online: u32,
    pub players_max: u32,
    pub ping_ms: u128,
}

} // verus!
