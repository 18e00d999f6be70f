use vstd::prelude::*;
use vstd::utf8::*;
use crate::downloader::{
    fabric_info_spec, filename_from_url_spec, forge_info_spec, get_fabric_info,
    get_filename_from_url, get_forge_info, neoforge_installer_url, neoforge_installer_url_spec,
};
use crate::models::{LauncherConfig, ModConfig, ModLoader, ServerCoreType};
use crate::sync::{
    entries_view, entry_view, find_entry, has_entry, lemma_merge_keeps_entries, merge_spec, names_unique,
    EntryView,
};
use crate::text::{concat, seq_starts_with, str_eq, str_starts_with, string_from, trim, trim_spec};

verus! {

/// Whether Fabric is offered for a Minecraft version (not for 1.12.2 or 1.7.10).
pub open spec fn has_fabric_spec(mc: Seq<char>) -> bool {
    mc != "1.12.2"@ && mc != "1.7.10"@
}

/// Whether NeoForge is offered for a Minecraft version (only for 1.20.4).
pub open spec fn has_neoforge_spec(mc: Seq<char>) -> bool {
    mc == "1.20.4"@
}

/// Whether Fabric is offered for a Minecraft version.
pub fn has_fabric(mc_version: &str) -> (r: bool)
    ensures
        r == has_fabric_spec(mc_version@),
{
    !str_eq(mc_version, "1.12.2") && !str_eq(mc_version, "1.7.10")
}

/// Whether NeoForge is offered for a Minecraft version.
pub fn has_neoforge(mc_version: &str) -> (r: bool)
    ensures
        r == has_neoforge_spec(mc_version@),
{
    str_eq(mc_version, "1.20.4")
}

/// The loader and server core after the version changed: a Fabric choice that the
/// version does not offer falls back to Forge, and so does a NeoForge loader.
pub fn normalize_choices(config: &mut LauncherConfig)
    ensures
        final(config).mod_loader == (if (old(config).mod_loader == ModLoader::Fabric
            && !has_fabric_spec(old(config).minecraft_version@)) || (old(config).mod_loader
            == ModLoader::NeoForge && !has_neoforge_spec(old(config).minecraft_version@)) {
            ModLoader::Forge
        } else {
            old(config).mod_loader
        }),
        final(config).server_core_type == (if old(config).server_core_type == ServerCoreType::Fabric
            && !has_fabric_spec(old(config).minecraft_version@) {
            ServerCoreType::Forge
        } else {
            old(config).server_core_type
        }),
        *final(config) == (LauncherConfig {
            mod_loader: final(config).mod_loader,
            server_core_type: final(config).server_core_type,
            ..*old(config)
        }),
{
    let fabric = has_fabric(config.minecraft_version.as_str());
    let neoforge = has_neoforge(config.minecraft_version.as_str());
    if config.mod_loader == ModLoader::Fabric && !fabric {
        config.mod_loader = ModLoader::Forge;
    }
    if config.mod_loader == ModLoader::NeoForge && !neoforge {
        config.mod_loader = ModLoader::Forge;
    }
    if config.server_core_type == ServerCoreType::Fabric && !fabric {
        config.server_core_type = ServerCoreType::Forge;
    }
}

/// What installs a loader: the installer's address, the file it is saved as, and
/// the loader's name.
#[derive(Debug)]
pub struct LoaderDownload {
    pub url: String,
    pub filename: String,
    pub name: String,
}

pub open spec fn loader_download_spec(loader: ModLoader, mc: Seq<char>) -> Option<(Seq<char>, Seq<char>, Seq<char>)> {
    match loader {
        ModLoader::Vanilla => None,
        ModLoader::Forge => Some((forge_info_spec(mc).0, forge_info_spec(mc).1, "Forge"@)),
        ModLoader::Fabric => Some((fabric_info_spec(mc).0, fabric_info_spec(mc).1, "Fabric"@)),
        ModLoader::NeoForge => Some((neoforge_installer_url_spec(mc), "neoforge-"@ + mc + ".jar"@, "NeoForge"@)),
    }
}

/// The download that installs the chosen loader for a Minecraft version (none for
/// Vanilla).
pub fn loader_download(loader: ModLoader, mc_version: &str) -> (r: Option<LoaderDownload>)
    ensures
        match loader_download_spec(loader, mc_version@) {
            Some((u, f, n)) => r matches Some(d) && d.url@ == u && d.filename@ == f && d.name@ == n,
            None => r.is_none(),
        },
{
    match loader {
        ModLoader::Vanilla => None,
        ModLoader::Forge => {
            let (url, filename) = get_forge_info(mc_version);
            Some(LoaderDownload { url, filename, name: string_from("Forge") })
        },
        ModLoader::Fabric => {
            let (url, filename) = get_fabric_info(mc_version);
            Some(LoaderDownload { url, filename, name: string_from("Fabric") })
        },
        ModLoader::NeoForge => {
            let a = concat("neoforge-", mc_version);
            let filename = concat(a.as_str(), ".jar");
            Some(LoaderDownload { url: neoforge_installer_url(mc_version), filename, name: string_from("NeoForge") })
        },
    }
}

/// The builds offered for a server core and Minecraft version, besides the latest
/// stable one: known Paper builds and Forge versions, none for other cores.
pub open spec fn core_version_choices_spec(t: ServerCoreType, mc: Seq<char>) -> Seq<Seq<char>> {
    match t {
        ServerCoreType::Paper => if mc == "1.12.2"@ {
            seq!["1618"@, "1617"@, "1616"@]
        } else if mc == "1.16.5"@ {
            seq!["794"@, "793"@, "792"@]
        } else if mc == "1.20.1"@ {
            seq!["196"@, "195"@, "194"@]
        } else if mc == "1.20.4"@ {
            seq!["496"@, "495"@]
        } else if mc == "1.19.2"@ {
            seq!["307"@, "306"@]
        } else if mc == "1.18.2"@ {
            seq!["388"@, "387"@]
        } else {
            seq![]
        },
        ServerCoreType::Forge => if mc == "1.12.2"@ {
            seq!["14.23.5.2860"@, "14.23.5.2859"@]
        } else if mc == "1.16.5"@ {
            seq!["36.2.34"@]
        } else if mc == "1.20.1"@ {
            seq!["47.2.0"@]
        } else if mc == "1.7.10"@ {
            seq!["10.13.4.1614"@]
        } else {
            seq![]
        },
        _ => seq![],
    }
}

fn strings(items: &[&str]) -> (r: Vec<String>)
    ensures
        r@.map_values(|s: String| s@) == items@.map_values(|s: &str| s@),
{
    let mut r: Vec<String> = Vec::new();
    let mut i: usize = 0;
    while i < items.len()
        invariant
            i <= items@.len(),
            r@.map_values(|s: String| s@) == items@.take(i as int).map_values(|s: &str| s@),
        decreases items.len() - i,
    {
        r.push(string_from(items[i]));
        assert(items@.take(i + 1).map_values(|s: &str| s@) =~= items@.take(i as int).map_values(
            |s: &str| s@,
        ).push(items@[i as int]@));
        assert(r@.map_values(|s: String| s@) =~= r@.drop_last().map_values(|s: String| s@).push(
            r@.last()@,
        ));
        i = i + 1;
    }
    assert(items@.take(i as int) =~= items@);
    r
}

/// The builds offered for a server core and Minecraft version.
pub fn core_version_choices(core_type: ServerCoreType, mc_version: &str) -> (r: Vec<String>)
    ensures
        r@.map_values(|s: String| s@) == core_version_choices_spec(core_type, mc_version@),
{
    let items: Vec<&str> = match core_type {
        ServerCoreType::Paper => if str_eq(mc_version, "1.12.2") {
            vec!["1618", "1617", "1616"]
        } else if str_eq(mc_version, "1.16.5") {
            vec!["794", "793", "792"]
        } else if str_eq(mc_version, "1.20.1") {
            vec!["196", "195", "194"]
        } else if str_eq(mc_version, "1.20.4") {
            vec!["496", "495"]
        } else if str_eq(mc_version, "1.19.2") {
            vec!["307", "306"]
        } else if str_eq(mc_version, "1.18.2") {
            vec!["388", "387"]
        } else {
            vec![]
        },
        ServerCoreType::Forge => if str_eq(mc_version, "1.12.2") {
            vec!["14.23.5.2860", "14.23.5.2859"]
        } else if str_eq(mc_version, "1.16.5") {
            vec!["36.2.34"]
        } else if str_eq(mc_version, "1.20.1") {
            vec!["47.2.0"]
        } else if str_eq(mc_version, "1.7.10") {
            vec!["10.13.4.1614"]
        } else {
            vec![]
        },
        _ => vec![],
    };
    let r = strings(items.as_slice());
    assert(items@.map_values(|s: &str| s@) =~= core_version_choices_spec(core_type, mc_version@));
    r
}

/// Whether an address typed in to add a mod or plugin is taken: it is not empty and
/// starts with `http://` or `https://` (after surrounding white space is removed).
pub open spec fn url_accepted(t: Seq<char>) -> bool {
    t.len() > 0 && (seq_starts_with(t, "http://"@) || seq_starts_with(t, "https://"@))
}

/// What became of an address typed in to add a mod or plugin.
#[derive(Clone, Copy, Debug, PartialEq, Eq, Structural)]
pub enum AddOutcome {
    /// It is no download address; nothing changed.
    Ignored,
    /// An entry with the same file name is listed already; nothing changed.
    Duplicate,
    /// A new entry was added at the end.
    Added,
}

/// The entry added for an address: its file name comes from the address, updates
/// are allowed, no digest is known yet, and it is switched on.
pub open spec fn new_entry_view(t: Seq<char>) -> EntryView {
    (t, filename_from_url_spec(t, encode_utf8(t)), true, None, true)
}

/// The entries after an address is typed in: the new entry is added at the end when
/// the trimmed address is a download address and no entry has its file name yet.
pub open spec fn add_by_url_spec(entries: Seq<EntryView>, input: Seq<char>) -> Seq<EntryView> {
    let t = trim_spec(input);
    if url_accepted(t) && !has_entry(entries, new_entry_view(t).1) {
        entries.push(new_entry_view(t))
    } else {
        entries
    }
}

/// Adds a mod or plugin by its download address.
pub fn add_entry_from_url(entries: &mut Vec<ModConfig>, input: &str) -> (r: AddOutcome)
    ensures
        entries_view(final(entries)@) == add_by_url_spec(entries_view(old(entries)@), input@),
        ({
            let t = trim_spec(input@);
            let before = entries_view(old(entries)@);
            if !url_accepted(t) {
                r == AddOutcome::Ignored && entries_view(final(entries)@) == before
            } else if has_entry(before, new_entry_view(t).1) {
                r == AddOutcome::Duplicate && entries_view(final(entries)@) == before
            } else {
                r == AddOutcome::Added && entries_view(final(entries)@) == before.push(new_entry_view(t))
            }
        }),
{
    let t = trim(input);
    if !(t.as_str().unicode_len() > 0 && (str_starts_with(t.as_str(), "http://") || str_starts_with(
        t.as_str(),
        "https://",
    ))) {
        return AddOutcome::Ignored;
    }
    let filename = get_filename_from_url(t.as_str());
    if find_entry(entries, filename.as_str()) {
        return AddOutcome::Duplicate;
    }
    let ghost before = entries_view(entries@);
    let entry = ModConfig { url: t, filename, allow_update: true, sha256: None, enabled: true };
    entries.push(entry);
    assert(entries_view(entries@) =~= before.push(entry_view(entry)));
    AddOutcome::Added
}

/// The entries after the entry at `i` is switched on or off.
pub open spec fn toggle_enabled_spec(entries: Seq<EntryView>, i: int) -> Seq<EntryView> {
    let e = entries[i];
    entries.update(i, (e.0, e.1, e.2, e.3, !e.4))
}

/// The entries after updates of the entry at `i` are allowed or forbidden.
pub open spec fn toggle_update_spec(entries: Seq<EntryView>, i: int) -> Seq<EntryView> {
    let e = entries[i];
    entries.update(i, (e.0, e.1, !e.2, e.3, e.4))
}

/// Switches the entry at `i` on or off.
pub fn toggle_entry_enabled(entries: &mut Vec<ModConfig>, i: usize)
    requires
        i < old(entries)@.len(),
    ensures
        entries_view(final(entries)@) == toggle_enabled_spec(entries_view(old(entries)@), i as int),
{
    let ghost before = entries_view(entries@);
    let mut m = entries.remove(i);
    m.enabled = !m.enabled;
    entries.insert(i, m);
    assert(entries_view(entries@) =~= toggle_enabled_spec(before, i as int));
}

/// Allows or forbids updates of the entry at `i`.
pub fn toggle_entry_update(entries: &mut Vec<ModConfig>, i: usize)
    requires
        i < old(entries)@.len(),
    ensures
        entries_view(final(entries)@) == toggle_update_spec(entries_view(old(entries)@), i as int),
{
    let ghost before = entries_view(entries@);
    let mut m = entries.remove(i);
    m.allow_update = !m.allow_update;
    entries.insert(i, m);
    assert(entries_view(entries@) =~= toggle_update_spec(before, i as int));
}

/// Takes the entry at `i` out of the list, the others keeping their order.
pub fn remove_entry(entries: &mut Vec<ModConfig>, i: usize) -> (r: ModConfig)
    requires
        i < old(entries)@.len(),
    ensures
        r == old(entries)@[i as int],
        entries_view(final(entries)@) == entries_view(old(entries)@).remove(i as int),
{
    let ghost before = entries_view(entries@);
    let r = entries.remove(i);
    assert(entries_view(entries@) =~= before.remove(i as int));
    r
}

/// Whatever is done in the mods or plugins list (an address added, an entry switched
/// on or off, its updates allowed or forbidden, an entry removed, the directory taken
/// in again), no two entries come to have the same file name.
pub proof fn lemma_tab_actions_keep_names_unique(
    entries: Seq<EntryView>,
    input: Seq<char>,
    i: int,
    files: Seq<Seq<char>>,
)
    requires
        names_unique(entries),
    ensures
        names_unique(add_by_url_spec(entries, input)),
        0 <= i < entries.len() ==> names_unique(toggle_enabled_spec(entries, i)),
        0 <= i < entries.len() ==> names_unique(toggle_update_spec(entries, i)),
        0 <= i < entries.len() ==> names_unique(entries.remove(i)),
        names_unique(merge_spec(entries, files)),
{
    let t = trim_spec(input);
    if url_accepted(t) && !has_entry(entries, new_entry_view(t).1) {
        let after = entries.push(new_entry_view(t));
        assert forall|a: int, b: int| 0 <= a < after.len() && 0 <= b < after.len() && a != b
            implies #[trigger] after[a].1 != #[trigger] after[b].1 by {
            if a < entries.len() && b < entries.len() {
                assert(entries[a].1 != entries[b].1);
            } else if a < entries.len() {
                assert(entries[a].1 != new_entry_view(t).1);
            } else {
                assert(entries[b].1 != new_entry_view(t).1);
            }
        };
    }
    if 0 <= i < entries.len() {
        let te = toggle_enabled_spec(entries, i);
        assert forall|a: int, b: int| 0 <= a < te.len() && 0 <= b < te.len() && a != b
            implies #[trigger] te[a].1 != #[trigger] te[b].1 by {
            assert(te[a].1 == entries[a].1 && te[b].1 == entries[b].1);
        };
        let tu = toggle_update_spec(entries, i);
        assert forall|a: int, b: int| 0 <= a < tu.len() && 0 <= b < tu.len() && a != b
            implies #[trigger] tu[a].1 != #[trigger] tu[b].1 by {
            assert(tu[a].1 == entries[a].1 && tu[b].1 == entries[b].1);
        };
        let rm = entries.remove(i);
        assert forall|a: int, b: int| 0 <= a < rm.len() && 0 <= b < rm.len() && a != b
            implies #[trigger] rm[a].1 != #[trigger] rm[b].1 by {
            let a2 = if a < i { a } else { a + 1 };
            let b2 = if b < i { b } else { b + 1 };
            assert(rm[a] == entries[a2] && rm[b] == entries[b2]);
        };
    }
    lemma_merge_keeps_entries(entries, files);
}

} // verus!
