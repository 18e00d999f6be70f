use vstd::prelude::*;
use vstd::string::StringSliceAdditionalSpecFns;
use crate::hashing::{hex_encode, hex_lower, sha256, sha256_spec};
use crate::models::{
    FabricInstallerEntry, FabricLoaderEntry, ModLoader, MojangArtifact, MojangLibrary,
    ServerCoreType, VersionManifest, latest_stable_label,
};
use crate::numbers::{decimal, decimal_string};
use crate::text::{
    chars_of, concat, seq_contains, seq_ends_with, seq_starts_with, str_contains, str_ends_with,
    str_eq, str_starts_with, string_from, string_of,
};

verus! {

/// The Forge universal jar for a version and the name it is saved under: 1.7.10,
/// 1.16.5 and 1.20.1 have their own builds, every other version gets 1.12.2's.
pub open spec fn forge_info_spec(v: Seq<char>) -> (Seq<char>, Seq<char>) {
    if v == "1.7.10"@ {
        ("https://maven.minecraftforge.net/net/minecraftforge/forge/1.7.10-10.13.4.1614-1.7.10/forge-1.7.10-10.13.4.1614-1.7.10-universal.jar"@, "forge-1.7.10.jar"@)
    } else if v == "1.16.5"@ {
        ("https://maven.minecraftforge.net/net/minecraftforge/forge/1.16.5-36.2.34/forge-1.16.5-36.2.34-universal.jar"@, "forge-1.16.5.jar"@)
    } else if v == "1.20.1"@ {
        ("https://maven.minecraftforge.net/net/minecraftforge/forge/1.20.1-47.2.0/forge-1.20.1-47.2.0-universal.jar"@, "forge-1.20.1.jar"@)
    } else {
        ("https://maven.minecraftforge.net/net/minecraftforge/forge/1.12.2-14.23.5.2860/forge-1.12.2-14.23.5.2860-universal.jar"@, "forge-1.12.2.jar"@)
    }
}

/// The address and file name of the Forge loader for a Minecraft version.
pub fn get_forge_info(version: &str) -> (r: (String, String))
    ensures
        (r.0@, r.1@) == forge_info_spec(version@),
{
    if str_eq(version, "1.7.10") {
        (string_from("https://maven.minecraftforge.net/net/minecraftforge/forge/1.7.10-10.13.4.1614-1.7.10/forge-1.7.10-10.13.4.1614-1.7.10-universal.jar"), string_from("forge-1.7.10.jar"))
    } else if str_eq(version, "1.16.5") {
        (string_from("https://maven.minecraftforge.net/net/minecraftforge/forge/1.16.5-36.2.34/forge-1.16.5-36.2.34-universal.jar"), string_from("forge-1.16.5.jar"))
    } else if str_eq(version, "1.20.1") {
        (string_from("https://maven.minecraftforge.net/net/minecraftforge/forge/1.20.1-47.2.0/forge-1.20.1-47.2.0-universal.jar"), string_from("forge-1.20.1.jar"))
    } else {
        (string_from("https://maven.minecraftforge.net/net/minecraftforge/forge/1.12.2-14.23.5.2860/forge-1.12.2-14.23.5.2860-universal.jar"), string_from("forge-1.12.2.jar"))
    }
}

/// The Fabric server launcher for a version (loader 0.14.22, installer 0.11.2) and
/// the name it is saved under.
pub open spec fn fabric_info_spec(v: Seq<char>) -> (Seq<char>, Seq<char>) {
    ("https://meta.fabricmc.net/v2/versions/loader/"@ + v + "/0.14.22/0.11.2/server/jar"@,
     "fabric-loader-"@ + v + ".jar"@)
}

/// The address and file name of the Fabric loader for a Minecraft version.
pub fn get_fabric_info(version: &str) -> (r: (String, String))
    ensures
        (r.0@, r.1@) == fabric_info_spec(version@),
{
    let a = concat("https://meta.fabricmc.net/v2/versions/loader/", version);
    let url = concat(a.as_str(), "/0.14.22/0.11.2/server/jar");
    let b = concat("fabric-loader-", version);
    let name = concat(b.as_str(), ".jar");
    (url, name)
}

/// The Paper build used when the build list cannot be had.
pub open spec fn paper_fallback_spec(v: Seq<char>) -> Seq<char> {
    if v == "1.12.2"@ { "1618"@ }
    else if v == "1.16.5"@ { "794"@ }
    else if v == "1.20.1"@ { "196"@ }
    else if v == "1.20.4"@ { "496"@ }
    else if v == "1.19.2"@ { "307"@ }
    else if v == "1.18.2"@ { "388"@ }
    else { "196"@ }
}

/// The known Paper build of a Minecraft version, for use when PaperMC cannot be
/// asked.
pub fn get_paper_fallback_build(mc_version: &str) -> (r: String)
    ensures
        r@ == paper_fallback_spec(mc_version@),
{
    if str_eq(mc_version, "1.12.2") { string_from("1618") }
    else if str_eq(mc_version, "1.16.5") { string_from("794") }
    else if str_eq(mc_version, "1.20.1") { string_from("196") }
    else if str_eq(mc_version, "1.20.4") { string_from("496") }
    else if str_eq(mc_version, "1.19.2") { string_from("307") }
    else if str_eq(mc_version, "1.18.2") { string_from("388") }
    else { string_from("196") }
}

/// The position of the last `c` in `s`, or -1.
pub open spec fn last_index_of(s: Seq<char>, c: char) -> int
    decreases s.len(),
{
    if s.len() == 0 {
        -1
    } else if s.last() == c {
        s.len() - 1
    } else {
        last_index_of(s.drop_last(), c)
    }
}

/// `s` up to its first `c`, or all of `s`.
pub open spec fn before_first(s: Seq<char>, c: char) -> Seq<char>
    decreases s.len(),
{
    if s.len() == 0 {
        s
    } else if s[0] == c {
        Seq::empty()
    } else {
        seq![s[0]] + before_first(s.drop_first(), c)
    }
}

/// The jar name that a download address ends with: the text after its last `/`, up
/// to a `?`, if that is a non-empty name ending in `.jar`.
pub open spec fn url_jar_name(url: Seq<char>) -> Option<Seq<char>> {
    let p = last_index_of(url, '/');
    if p < 0 {
        None
    } else {
        let name = before_first(url.skip(p + 1), '?');
        if name.len() > 0 && seq_ends_with(name, ".jar"@) {
            Some(name)
        } else {
            None
        }
    }
}

/// The file name for a mod or plugin downloaded from `url`: the jar name that the
/// address ends with, else `mod_` and the first four bytes of the address's SHA-256
/// digest in hexadecimal.
pub open spec fn filename_from_url_spec(url: Seq<char>, url_bytes: Seq<u8>) -> Seq<char> {
    match url_jar_name(url) {
        Some(name) => name,
        None => "mod_"@ + hex_lower(sha256_spec(url_bytes).take(4)) + ".jar"@,
    }
}

proof fn lemma_last_index_of(s: Seq<char>, c: char)
    ensures
        -1 <= last_index_of(s, c) < s.len(),
        last_index_of(s, c) >= 0 ==> s[last_index_of(s, c)] == c,
        forall|k: int| last_index_of(s, c) < k < s.len() ==> s[k] != c,
    decreases s.len(),
{
    if s.len() > 0 && s.last() != c {
        let t = s.drop_last();
        lemma_last_index_of(t, c);
        assert forall|k: int| last_index_of(s, c) < k < s.len() implies s[k] != c by {
            if k < s.len() - 1 {
                assert(s[k] == t[k]);
            }
        };
    }
}

fn find_last(s: &[char], c: char) -> (r: Option<usize>)
    ensures
        match r {
            Some(i) => i as int == last_index_of(s@, c) && i < s@.len(),
            None => last_index_of(s@, c) == -1,
        },
{
    proof {
        lemma_last_index_of(s@, c);
    }
    let mut i: usize = s.len();
    while i > 0
        invariant
            i <= s@.len(),
            forall|k: int| i <= k < s@.len() ==> s@[k] != c,
        decreases i,
    {
        if s[i - 1] == c {
            proof {
                lemma_last_index_of(s@, c);
                let p = last_index_of(s@, c);
                if p < i - 1 {
                    assert(s@[i - 1] != c);
                } else if p > i - 1 {
                    assert(s@[p] == c);
                }
            }
            return Some(i - 1);
        }
        i = i - 1;
    }
    proof {
        let p = last_index_of(s@, c);
        if p >= 0 {
            assert(s@[p] == c);
        }
    }
    None
}

proof fn lemma_before_first(s: Seq<char>, c: char, k: int)
    requires
        0 <= k <= s.len(),
        forall|j: int| 0 <= j < k ==> s[j] != c,
        k == s.len() || s[k] == c,
    ensures
        before_first(s, c) == s.take(k),
    decreases s.len(),
{
    if s.len() > 0 {
        if k == 0 {
            assert(s.take(0) =~= Seq::<char>::empty());
        } else {
            lemma_before_first(s.drop_first(), c, k - 1);
            assert(seq![s[0]] + s.drop_first().take(k - 1) =~= s.take(k));
        }
    } else {
        assert(s.take(0) =~= s);
    }
}

/// The file name for a mod or plugin downloaded from `url`.
pub fn get_filename_from_url(url: &str) -> (r: String)
    ensures
        r@ == filename_from_url_spec(url@, url.spec_bytes()),
{
    let chars = chars_of(url);
    match find_last(chars.as_slice(), '/') {
        Some(pos) => {
            let ghost tail = chars@.skip(pos + 1);
            assert(pos < chars.len());
            let mut k: usize = pos + 1;
            while k < chars.len() && chars[k] != '?'
                invariant
                    pos + 1 <= k <= chars@.len(),
                    forall|j: int| pos + 1 <= j < k ==> chars@[j] != '?',
                decreases chars.len() - k,
            {
                k = k + 1;
            }
            proof {
                lemma_before_first(tail, '?', k - pos - 1);
            }
            let name_chars = &chars.as_slice()[pos + 1..k];
            assert(name_chars@ =~= tail.take(k - pos - 1));
            let name = string_of(name_chars);
            if name_chars.len() > 0 && str_ends_with(name.as_str(), ".jar") {
                return name;
            }
        },
        None => {},
    }
    let digest = sha256(url.as_bytes());
    let head = &digest.as_slice()[0..4];
    assert(head@ =~= digest@.take(4));
    let hex = hex_encode(head);
    let a = concat("mod_", hex.as_str());
    concat(a.as_str(), ".jar")
}

/// Where a library file is kept: under `libraries/` in the server directory.
pub open spec fn library_dest_spec(path: Seq<char>) -> Seq<char> {
    "./run/libraries/"@ + path
}

/// Where a library file is kept: its path under the libraries directory.
pub fn library_dest_path(path: &str) -> (r: String)
    ensures
        r@ == library_dest_spec(path@),
{
    concat("./run/libraries/", path)
}

/// The first version of the manifest with the given id.
pub fn find_version_entry(manifest: &VersionManifest, id: &str) -> (r: Option<usize>)
    ensures
        match r {
            Some(i) => i < manifest.versions@.len() && manifest.versions@[i as int].id@ == id@
                && forall|k: int| 0 <= k < i ==> #[trigger] manifest.versions@[k].id@ != id@,
            None => forall|k: int| 0 <= k < manifest.versions@.len() ==> #[trigger] manifest.versions@[k].id@ != id@,
        },
{
    let mut i: usize = 0;
    while i < manifest.versions.len()
        invariant
            i <= manifest.versions@.len(),
            forall|k: int| 0 <= k < i ==> #[trigger] manifest.versions@[k].id@ != id@,
        decreases manifest.versions.len() - i,
    {
        if str_eq(manifest.versions[i].id.as_str(), id) {
            return Some(i);
        }
        i = i + 1;
    }
    None
}

/// Whether a core version stands for "the latest build": it is empty or says so.
pub open spec fn wants_latest_spec(core_version: Seq<char>) -> bool {
    core_version == latest_stable_label() || core_version.len() == 0
}

/// Whether the latest build is wanted: the core version is the "latest stable"
/// label or empty.
pub fn wants_latest_build(core_version: &str) -> (r: bool)
    ensures
        r == wants_latest_spec(core_version@),
{
    str_eq(core_version, "Последний стабильный") || core_version.is_empty()
}

/// The Paper build to install when the latest is wanted: the last build that
/// PaperMC lists, else the known build of the version. The flag tells whether the
/// list came but was empty.
pub fn paper_build_from(builds: Option<&Vec<u32>>, mc_version: &str) -> (r: (String, bool))
    ensures
        match builds {
            Some(b) => if b@.len() > 0 {
                r.0@ == decimal(b@.last() as nat) && !r.1
            } else {
                r.0@ == paper_fallback_spec(mc_version@) && r.1
            },
            None => r.0@ == paper_fallback_spec(mc_version@) && !r.1,
        },
{
    match builds {
        Some(b) => {
            if b.len() > 0 {
                (decimal_string(b[b.len() - 1] as u128), false)
            } else {
                (get_paper_fallback_build(mc_version), true)
            }
        },
        None => (get_paper_fallback_build(mc_version), false),
    }
}

/// The address of PaperMC's description of a version, which lists its builds.
pub fn paper_versions_api_url(mc_version: &str) -> (r: String)
    ensures
        r@ == "https://api.papermc.io/v2/projects/paper/versions/"@ + mc_version@,
{
    concat("https://api.papermc.io/v2/projects/paper/versions/", mc_version)
}

pub open spec fn paper_jar_url_spec(mc: Seq<char>, build: Seq<char>) -> Seq<char> {
    "https://api.papermc.io/v2/projects/paper/versions/"@ + mc + "/builds/"@ + build
        + "/downloads/paper-"@ + mc + "-"@ + build + ".jar"@
}

/// The address of a Paper build's jar.
pub fn paper_jar_url(mc_version: &str, build: &str) -> (r: String)
    ensures
        r@ == paper_jar_url_spec(mc_version@, build@),
{
    let a = concat("https://api.papermc.io/v2/projects/paper/versions/", mc_version);
    let b = concat(a.as_str(), "/builds/");
    let c = concat(b.as_str(), build);
    let d = concat(c.as_str(), "/downloads/paper-");
    let e = concat(d.as_str(), mc_version);
    let f = concat(e.as_str(), "-");
    let g = concat(f.as_str(), build);
    concat(g.as_str(), ".jar")
}

/// The newest loader that Fabric lists (the first entry), else `default`.
pub fn first_loader_version(loaders: Option<&Vec<FabricLoaderEntry>>, default: &str) -> (r: String)
    ensures
        match loaders {
            Some(l) if l@.len() > 0 => r@ == l@[0].version@,
            _ => r@ == default@,
        },
{
    match loaders {
        Some(l) => {
            if l.len() > 0 {
                string_from(l[0].version.as_str())
            } else {
                string_from(default)
            }
        },
        None => string_from(default),
    }
}

/// The newest installer that Fabric lists (the first entry), else `default`.
pub fn first_installer_version(installers: Option<&Vec<FabricInstallerEntry>>, default: &str) -> (r: String)
    ensures
        match installers {
            Some(l) if l@.len() > 0 => r@ == l@[0].version@,
            _ => r@ == default@,
        },
{
    match installers {
        Some(l) => {
            if l.len() > 0 {
                string_from(l[0].version.as_str())
            } else {
                string_from(default)
            }
        },
        None => string_from(default),
    }
}

pub open spec fn fabric_server_url_spec(mc: Seq<char>, loader: Seq<char>, installer: Seq<char>) -> Seq<char> {
    "https://meta.fabricmc.net/v2/versions/loader/"@ + mc + "/"@ + loader + "/"@ + installer
        + "/server/jar"@
}

/// The address of the Fabric server launcher for a version, loader and installer.
pub fn fabric_server_url(mc_version: &str, loader: &str, installer: &str) -> (r: String)
    ensures
        r@ == fabric_server_url_spec(mc_version@, loader@, installer@),
{
    let a = concat("https://meta.fabricmc.net/v2/versions/loader/", mc_version);
    let b = concat(a.as_str(), "/");
    let c = concat(b.as_str(), loader);
    let d = concat(c.as_str(), "/");
    let e = concat(d.as_str(), installer);
    concat(e.as_str(), "/server/jar")
}

pub open spec fn neoforge_installer_url_spec(mc: Seq<char>) -> Seq<char> {
    "https://maven.neoforged.net/releases/net/neoforged/neoforge/"@ + mc + "/neoforge-"@ + mc
        + "-installer.jar"@
}

/// The address of the NeoForge installer for a version.
pub fn neoforge_installer_url(mc_version: &str) -> (r: String)
    ensures
        r@ == neoforge_installer_url_spec(mc_version@),
{
    let a = concat("https://maven.neoforged.net/releases/net/neoforged/neoforge/", mc_version);
    let b = concat(a.as_str(), "/neoforge-");
    let c = concat(b.as_str(), mc_version);
    concat(c.as_str(), "-installer.jar")
}

/// The Forge build installed for a version when the latest is wanted.
pub open spec fn forge_build_spec(mc: Seq<char>) -> Seq<char> {
    if mc == "1.12.2"@ { "14.23.5.2860"@ }
    else if mc == "1.16.5"@ { "36.2.34"@ }
    else if mc == "1.20.1"@ { "47.2.0"@ }
    else if mc == "1.7.10"@ { "10.13.4.1614-1.7.10"@ }
    else { "14.23.5.2860"@ }
}

/// The Forge build to install: the profile's core version, unless the latest is
/// wanted.
pub fn forge_build_for(mc_version: &str, core_version: &str) -> (r: String)
    ensures
        !wants_latest_spec(core_version@) ==> r@ == core_version@,
        wants_latest_spec(core_version@) ==> r@ == forge_build_spec(mc_version@),
{
    if !wants_latest_build(core_version) {
        return string_from(core_version);
    }
    if str_eq(mc_version, "1.12.2") { string_from("14.23.5.2860") }
    else if str_eq(mc_version, "1.16.5") { string_from("36.2.34") }
    else if str_eq(mc_version, "1.20.1") { string_from("47.2.0") }
    else if str_eq(mc_version, "1.7.10") { string_from("10.13.4.1614-1.7.10") }
    else { string_from("14.23.5.2860") }
}

pub open spec fn forge_installer_url_spec(mc: Seq<char>, build: Seq<char>) -> Seq<char> {
    "https://maven.minecraftforge.net/net/minecraftforge/forge/"@ + mc + "-"@ + build
        + "/forge-"@ + mc + "-"@ + build + "-installer.jar"@
}

/// The address of the Forge installer for a version and build.
pub fn forge_installer_url(mc_version: &str, build: &str) -> (r: String)
    ensures
        r@ == forge_installer_url_spec(mc_version@, build@),
{
    let a = concat("https://maven.minecraftforge.net/net/minecraftforge/forge/", mc_version);
    let b = concat(a.as_str(), "-");
    let c = concat(b.as_str(), build);
    let d = concat(c.as_str(), "/forge-");
    let e = concat(d.as_str(), mc_version);
    let f = concat(e.as_str(), "-");
    let g = concat(f.as_str(), build);
    concat(g.as_str(), "-installer.jar")
}

/// The file that a server core is saved as.
pub open spec fn server_core_filename_spec(t: ServerCoreType, v: Seq<char>) -> Seq<char> {
    match t {
        ServerCoreType::Vanilla => "minecraft_server_"@ + v + ".jar"@,
        ServerCoreType::Paper => "paper-"@ + v + ".jar"@,
        ServerCoreType::Forge => "forge-server-"@ + v + ".jar"@,
        ServerCoreType::Fabric => "fabric-server-"@ + v + ".jar"@,
        ServerCoreType::NeoForge => "neoforge-server-"@ + v + ".jar"@,
    }
}

/// The file name of a server core for a Minecraft version.
pub fn server_core_filename(core_type: ServerCoreType, mc_version: &str) -> (r: String)
    ensures
        r@ == server_core_filename_spec(core_type, mc_version@),
{
    let prefix = match core_type {
        ServerCoreType::Vanilla => "minecraft_server_",
        ServerCoreType::Paper => "paper-",
        ServerCoreType::Forge => "forge-server-",
        ServerCoreType::Fabric => "fabric-server-",
        ServerCoreType::NeoForge => "neoforge-server-",
    };
    let a = concat(prefix, mc_version);
    concat(a.as_str(), ".jar")
}

/// The name under which a core's installation is reported: its type, then
/// "Server Core".
pub open spec fn core_display_name_spec(t: ServerCoreType) -> Seq<char> {
    match t {
        ServerCoreType::Vanilla => "Vanilla Server Core"@,
        ServerCoreType::Paper => "Paper Server Core"@,
        ServerCoreType::Forge => "Forge Server Core"@,
        ServerCoreType::Fabric => "Fabric Server Core"@,
        ServerCoreType::NeoForge => "NeoForge Server Core"@,
    }
}

/// The name under which a core's installation is reported.
pub fn core_display_name(core_type: ServerCoreType) -> (r: String)
    ensures
        r@ == core_display_name_spec(core_type),
{
    match core_type {
        ServerCoreType::Vanilla => string_from("Vanilla Server Core"),
        ServerCoreType::Paper => string_from("Paper Server Core"),
        ServerCoreType::Forge => string_from("Forge Server Core"),
        ServerCoreType::Fabric => string_from("Fabric Server Core"),
        ServerCoreType::NeoForge => string_from("NeoForge Server Core"),
    }
}

/// Whether a file left by the Forge installer is the server jar of the version: a
/// `forge-` jar that names the version and is neither the installer nor the core
/// that the launcher saved.
pub open spec fn is_installed_forge_jar_spec(name: Seq<char>, mc: Seq<char>) -> bool {
    &&& seq_starts_with(name, "forge-"@)
    &&& seq_contains(name, mc)
    &&& seq_ends_with(name, ".jar"@)
    &&& !seq_contains(name, "installer"@)
    &&& !seq_starts_with(name, "forge-server-"@)
}

/// Whether a file left by the Forge installer is the server jar of the version.
pub fn is_installed_forge_jar(name: &str, mc_version: &str) -> (r: bool)
    ensures
        r == is_installed_forge_jar_spec(name@, mc_version@),
{
    str_starts_with(name, "forge-") && str_contains(name, mc_version) && str_ends_with(name, ".jar")
        && !str_contains(name, "installer") && !str_starts_with(name, "forge-server-")
}


/// The position of the first pair whose key is `key`, or -1.
pub open spec fn pair_index<V>(pairs: Seq<(String, V)>, key: Seq<char>) -> int
    decreases pairs.len(),
{
    if pairs.len() == 0 {
        -1
    } else if pairs.last().0@ == key && pair_index(pairs.drop_last(), key) == -1 {
        pairs.len() - 1
    } else {
        pair_index(pairs.drop_last(), key)
    }
}

proof fn lemma_pair_index<V>(pairs: Seq<(String, V)>, key: Seq<char>)
    ensures
        -1 <= pair_index(pairs, key) < pairs.len(),
        pair_index(pairs, key) >= 0 ==> pairs[pair_index(pairs, key)].0@ == key,
        forall|k: int| 0 <= k < pairs.len() && (pair_index(pairs, key) == -1 || k < pair_index(pairs, key))
            ==> #[trigger] pairs[k].0@ != key,
    decreases pairs.len(),
{
    if pairs.len() > 0 {
        let t = pairs.drop_last();
        lemma_pair_index(t, key);
        assert forall|k: int| 0 <= k < pairs.len() && (pair_index(pairs, key) == -1 || k < pair_index(pairs, key))
            implies #[trigger] pairs[k].0@ != key by {
            if k < pairs.len() - 1 {
                assert(pairs[k] == t[k]);
            }
        };
    }
}

fn find_pair<V>(pairs: &Vec<(String, V)>, key: &str) -> (r: Option<usize>)
    ensures
        match r {
            Some(i) => i as int == pair_index(pairs@, key@) && i < pairs@.len(),
            None => pair_index(pairs@, key@) == -1,
        },
{
    proof {
        lemma_pair_index(pairs@, key@);
    }
    let mut i: usize = 0;
    while i < pairs.len()
        invariant
            i <= pairs@.len(),
            -1 <= pair_index(pairs@, key@) < pairs@.len(),
            pair_index(pairs@, key@) >= 0 ==> pairs@[pair_index(pairs@, key@)].0@ == key@,
            forall|k: int| 0 <= k < pairs@.len() && (pair_index(pairs@, key@) == -1 || k < pair_index(pairs@, key@))
                ==> #[trigger] pairs@[k].0@ != key@,
            forall|k: int| 0 <= k < i ==> #[trigger] pairs@[k].0@ != key@,
        decreases pairs.len() - i,
    {
        if str_eq(pairs[i].0.as_str(), key) {
            return Some(i);
        }
        i = i + 1;
    }
    None
}

/// What kind of library file a download is.
#[derive(Clone, Debug)]
pub enum LibraryFileKind {
    /// The library's main artifact.
    Artifact,
    /// The native files of a classifier, to be unpacked after the download.
    Native { classifier: String },
}

/// A library file to fetch: where from, and where it is kept.
#[derive(Clone, Debug)]
pub struct LibraryFile {
    pub url: String,
    pub dest_path: String,
    pub kind: LibraryFileKind,
}

/// The native artifact of a library for an operating system: the classifier that
/// the library names for it, and that classifier's artifact.
pub open spec fn native_artifact_spec(lib: MojangLibrary, os_key: Seq<char>) -> Option<(Seq<char>, MojangArtifact)> {
    match lib.natives {
        Some(natives) => {
            let n = pair_index(natives@, os_key);
            if n < 0 {
                None
            } else {
                let classifier = natives@[n].1@;
                match lib.downloads.classifiers {
                    Some(cls) => {
                        let c = pair_index(cls@, classifier);
                        if c < 0 { None } else { Some((classifier, cls@[c].1)) }
                    },
                    None => None,
                }
            }
        },
        None => None,
    }
}

/// The files to fetch for one library of a version: its artifact, if it has one,
/// then its native artifact for the operating system, if it has one.
pub fn library_files(lib: &MojangLibrary, os_key: &str) -> (r: Vec<LibraryFile>)
    ensures
        r@.len() == (if lib.downloads.artifact.is_some() { 1int } else { 0int })
            + (if native_artifact_spec(*lib, os_key@).is_some() { 1int } else { 0int }),
        lib.downloads.artifact matches Some(a) ==> {
            &&& r@[0].kind is Artifact
            &&& r@[0].url@ == a.url@
            &&& r@[0].dest_path@ == library_dest_spec(a.path@)
        },
        native_artifact_spec(*lib, os_key@) matches Some((classifier, a)) ==> {
            let f = r@[r@.len() - 1];
            &&& f.kind matches LibraryFileKind::Native { classifier: c } && c@ == classifier
            &&& f.url@ == a.url@
            &&& f.dest_path@ == library_dest_spec(a.path@)
        },
{
    let mut out: Vec<LibraryFile> = Vec::new();
    match &lib.downloads.artifact {
        Some(a) => {
            out.push(LibraryFile {
                url: string_from(a.url.as_str()),
                dest_path: library_dest_path(a.path.as_str()),
                kind: LibraryFileKind::Artifact,
            });
        },
        None => {},
    }
    match &lib.natives {
        Some(natives) => {
            match find_pair(natives, os_key) {
                Some(n) => {
                    let classifier = natives[n].1.as_str();
                    match &lib.downloads.classifiers {
                        Some(cls) => {
                            match find_pair(cls, classifier) {
                                Some(c) => {
                                    let a = &cls[c].1;
                                    out.push(LibraryFile {
                                        url: string_from(a.url.as_str()),
                                        dest_path: library_dest_path(a.path.as_str()),
                                        kind: LibraryFileKind::Native { classifier: string_from(classifier) },
                                    });
                                },
                                None => {},
                            }
                        },
                        None => {},
                    }
                },
                None => {},
            }
        },
        None => {},
    }
    out
}

/// Whether the extra Forge libraries of 1.12.2 are wanted.
pub fn needs_legacy_forge_libraries(mc_version: &str, mod_loader: ModLoader) -> (r: bool)
    ensures
        r == (mc_version@ == "1.12.2"@ && mod_loader == ModLoader::Forge),
{
    str_eq(mc_version, "1.12.2") && mod_loader == ModLoader::Forge
}

/// The number of times `c` occurs in `s`.
pub open spec fn count_char(s: Seq<char>, c: char) -> nat
    decreases s.len(),
{
    if s.len() == 0 {
        0
    } else {
        count_char(s.drop_last(), c) + if s.last() == c { 1nat } else { 0nat }
    }
}

/// The position of the first `c` in `s` (or its length).
pub open spec fn first_index_of(s: Seq<char>, c: char) -> int
    decreases s.len(),
{
    if s.len() == 0 {
        0
    } else if s[0] == c {
        0
    } else {
        1 + first_index_of(s.drop_first(), c)
    }
}

/// `s` with every `.` made a `/`.
pub open spec fn dots_to_slashes(s: Seq<char>) -> Seq<char> {
    s.map_values(|ch: char| if ch == '.' { '/' } else { ch })
}

/// The Maven path of a library named `group:artifact:version` (exactly two colons):
/// the group with `.` made `/`, the artifact, the version, and the jar
/// `artifact-version.jar`.
pub open spec fn maven_path_spec(name: Seq<char>) -> Option<(Seq<char>, Seq<char>)> {
    if count_char(name, ':') == 2 {
        let i = first_index_of(name, ':');
        let j = last_index_of(name, ':');
        let group = name.take(i);
        let artifact = name.subrange(i + 1, j);
        let version = name.skip(j + 1);
        Some((dots_to_slashes(group) + "/"@ + artifact + "/"@ + version + "/"@ + artifact + "-"@
            + version + ".jar"@, artifact))
    } else {
        None
    }
}

proof fn lemma_count_split(s: Seq<char>, c: char, k: int)
    requires
        0 <= k <= s.len(),
    ensures
        count_char(s, c) == count_char(s.take(k), c) + count_char(s.skip(k), c),
    decreases s.len(),
{
    if k < s.len() {
        lemma_count_split(s.drop_last(), c, k);
        assert(s.drop_last().take(k) =~= s.take(k));
        assert(s.drop_last().skip(k) =~= s.skip(k).drop_last());
        assert(s.skip(k).last() == s.last());
    } else {
        assert(s.take(k) =~= s);
        assert(s.skip(k) =~= Seq::<char>::empty());
    }
}

proof fn lemma_count_zero(s: Seq<char>, c: char)
    ensures
        count_char(s, c) == 0 <==> forall|k: int| 0 <= k < s.len() ==> s[k] != c,
    decreases s.len(),
{
    if s.len() > 0 {
        lemma_count_zero(s.drop_last(), c);
        assert(forall|k: int| 0 <= k < s.len() - 1 ==> s.drop_last()[k] == s[k]);
    }
}

proof fn lemma_first_index(s: Seq<char>, c: char, i: int)
    requires
        0 <= i < s.len(),
        s[i] == c,
        forall|k: int| 0 <= k < i ==> s[k] != c,
    ensures
        first_index_of(s, c) == i,
    decreases s.len(),
{
    if i > 0 {
        lemma_first_index(s.drop_first(), c, i - 1);
    }
}

proof fn lemma_last_index(s: Seq<char>, c: char, j: int)
    requires
        0 <= j < s.len(),
        s[j] == c,
        forall|k: int| j < k < s.len() ==> s[k] != c,
    ensures
        last_index_of(s, c) == j,
    decreases s.len(),
{
    if j < s.len() - 1 {
        lemma_last_index(s.drop_last(), c, j);
    }
}

proof fn lemma_count_one(s: Seq<char>, c: char, k: int)
    requires
        0 <= k < s.len(),
        s[k] == c,
    ensures
        count_char(s.subrange(k, k + 1), c) == 1,
{
    let t = s.subrange(k, k + 1);
    assert(t.drop_last() =~= Seq::<char>::empty());
    assert(count_char(Seq::<char>::empty(), c) == 0);
    assert(t.last() == c);
}

/// The Maven path of a Fabric library and its artifact name, when its name has the
/// form `group:artifact:version`.
pub fn fabric_maven_path(name: &str) -> (r: Option<(String, String)>)
    ensures
        match maven_path_spec(name@) {
            Some((path, artifact)) => r matches Some((p, a)) && p@ == path && a@ == artifact,
            None => r.is_none(),
        },
{
    let s = chars_of(name);
    let mut colons: Vec<usize> = Vec::new();
    let mut k: usize = 0;
    while k < s.len()
        invariant
            s@ == name@,
            k <= s@.len(),
            colons@.len() == count_char(s@.take(k as int), ':'),
            colons@.len() <= 3,
            forall|a: int| 0 <= a < colons@.len() ==> #[trigger] colons@[a] < k && s@[colons@[a] as int] == ':',
            forall|a: int, b: int| 0 <= a < b < colons@.len() ==> #[trigger] colons@[a] < #[trigger] colons@[b],
            forall|p: int| 0 <= p < k && s@[p] == ':' ==> exists|a: int| 0 <= a < colons@.len() && #[trigger] colons@[a] == p,
        decreases s.len() - k,
    {
        let ghost t = s@.take(k + 1);
        assert(t.drop_last() =~= s@.take(k as int));
        if s[k] == ':' {
            if colons.len() == 3 {
                proof {
                    lemma_count_split(s@, ':', k as int);
                    lemma_count_split(s@.skip(k as int), ':', 1);
                    assert(s@.skip(k as int).take(1) =~= s@.subrange(k as int, k + 1));
                    lemma_count_one(s@, ':', k as int);
                    assert(count_char(s@.skip(k as int), ':') >= 1);
                    assert(count_char(s@, ':') >= 4);
                    assert(maven_path_spec(name@).is_none());
                }
                return None;
            }
            let ghost old_colons = colons@;
            colons.push(k);
            proof {
                assert forall|p: int| 0 <= p < k + 1 && s@[p] == ':' implies exists|a: int|
                    0 <= a < colons@.len() && #[trigger] colons@[a] == p by {
                    if p == k {
                        assert(colons@[colons@.len() - 1] == p);
                    } else {
                        let a = choose|a: int| 0 <= a < old_colons.len() && #[trigger] old_colons[a] == p;
                        assert(colons@[a] == p);
                    }
                };
            }
        }
        k = k + 1;
    }
    assert(s@.take(s@.len() as int) =~= s@);
    if colons.len() != 2 {
        return None;
    }
    let i = colons[0];
    let j = colons[1];
    proof {
        assert forall|p: int| 0 <= p < i implies s@[p] != ':' by {
            if s@[p] == ':' {
                let a = choose|a: int| 0 <= a < colons@.len() && #[trigger] colons@[a] == p;
                assert(colons@[a] == p);
            }
        };
        assert forall|p: int| j < p < s@.len() implies s@[p] != ':' by {
            if s@[p] == ':' {
                let a = choose|a: int| 0 <= a < colons@.len() && #[trigger] colons@[a] == p;
                assert(colons@[a] == p);
            }
        };
        lemma_first_index(s@, ':', i as int);
        lemma_last_index(s@, ':', j as int);
    }
    let group = &s.as_slice()[0..i];
    let artifact_chars = &s.as_slice()[i + 1..j];
    let version_chars = &s.as_slice()[j + 1..s.len()];
    let mut g: Vec<char> = Vec::new();
    let mut m: usize = 0;
    while m < group.len()
        invariant
            m <= group@.len(),
            g@ == dots_to_slashes(group@.take(m as int)),
        decreases group.len() - m,
    {
        let ch = group[m];
        g.push(if ch == '.' { '/' } else { ch });
        assert(dots_to_slashes(group@.take(m + 1)) =~= dots_to_slashes(group@.take(m as int)).push(
            if ch == '.' { '/' } else { ch },
        ));
        m = m + 1;
    }
    assert(group@.take(group@.len() as int) =~= group@);
    let gs = string_of(g.as_slice());
    let artifact = string_of(artifact_chars);
    let version = string_of(version_chars);
    let p1 = concat(gs.as_str(), "/");
    let p2 = concat(p1.as_str(), artifact.as_str());
    let p3 = concat(p2.as_str(), "/");
    let p4 = concat(p3.as_str(), version.as_str());
    let p5 = concat(p4.as_str(), "/");
    let p6 = concat(p5.as_str(), artifact.as_str());
    let p7 = concat(p6.as_str(), "-");
    let p8 = concat(p7.as_str(), version.as_str());
    let path = concat(p8.as_str(), ".jar");
    assert(group@ =~= s@.take(i as int));
    assert(artifact_chars@ =~= s@.subrange(i + 1, j as int));
    assert(version_chars@ =~= s@.skip(j + 1));
    Some((path, artifact))
}

/// The log line and the finishing token of a library installation.
pub open spec fn libs_summary_spec(success: u64, errors: u64) -> (Seq<char>, Seq<char>) {
    ("LOG: [УСПЕХ] Установка библиотек завершена. Успешно: "@ + decimal(success as nat)
        + ", Ошибок: "@ + decimal(errors as nat),
     if errors == 0 { "FINISH_LIBS_SUCCESS"@ } else { "FINISH_LIBS_ERROR"@ })
}

/// How many of the outcomes are successes.
pub open spec fn count_true(s: Seq<bool>) -> nat
    decreases s.len(),
{
    if s.len() == 0 {
        0
    } else {
        count_true(s.drop_last()) + if s.last() { 1nat } else { 0nat }
    }
}

/// The libraries installed and those that failed, counted from the outcome of each
/// (`true` for installed or already present).
pub fn tally_libraries(outcomes: &Vec<bool>) -> (r: (u64, u64))
    ensures
        r.0 == count_true(outcomes@),
        r.1 == outcomes@.len() - count_true(outcomes@),
{
    let mut ok: u64 = 0;
    let mut failed: u64 = 0;
    let mut i: usize = 0;
    while i < outcomes.len()
        invariant
            i <= outcomes@.len(),
            ok == count_true(outcomes@.take(i as int)),
            ok + failed == i,
        decreases outcomes.len() - i,
    {
        assert(outcomes@.take(i + 1).drop_last() =~= outcomes@.take(i as int));
        if outcomes[i] {
            ok = ok + 1;
        } else {
            failed = failed + 1;
        }
        i = i + 1;
    }
    assert(outcomes@.take(i as int) =~= outcomes@);
    (ok, failed)
}

/// The log line and the finishing message of a library installation.
pub fn libs_summary(success: u64, errors: u64) -> (r: (String, String))
    ensures
        (r.0@, r.1@) == libs_summary_spec(success, errors),
{
    let a = concat("LOG: [УСПЕХ] Установка библиотек завершена. Успешно: ", decimal_string(success as u128).as_str());
    let b = concat(a.as_str(), ", Ошибок: ");
    let line = concat(b.as_str(), decimal_string(errors as u128).as_str());
    let token = if errors == 0 { string_from("FINISH_LIBS_SUCCESS") } else { string_from("FINISH_LIBS_ERROR") };
    (line, token)
}

/// The status of a mod or plugin file on disk.
#[derive(Clone, Debug)]
pub enum FileStatus {
    /// The entry is switched off.
    Disabled,
    /// The file is not there; it will be downloaded.
    Missing,
    /// The file's digest is the expected one.
    Ready,
    /// The file's digest differs from the expected one; it will be updated.
    Changed,
    /// The file is there and no digest is expected; the first characters of its
    /// digest.
    Installed(String),
    /// The file could not be read.
    ReadError,
    /// The file's metadata could not be read.
    Unknown,
}

/// The status that a file's digest gives it: ready when it is the expected one,
/// changed when another is expected, installed (with the first eight characters of
/// the digest) when none is.
pub fn status_from_hash(hash: &str, expected: &Option<String>) -> (r: FileStatus)
    ensures
        match expected {
            Some(e) => if e@ == hash@ { r is Ready } else { r is Changed },
            None => r matches FileStatus::Installed(p) && p@ == hash@.take(
                if hash@.len() < 8 { hash@.len() as int } else { 8 },
            ),
        },
{
    match expected {
        Some(e) => {
            if str_eq(e.as_str(), hash) {
                FileStatus::Ready
            } else {
                FileStatus::Changed
            }
        },
        None => {
            let c = chars_of(hash);
            let n = if c.len() < 8 { c.len() } else { 8 };
            let prefix = &c.as_slice()[0..n];
            assert(prefix@ =~= hash@.take(n as int));
            FileStatus::Installed(string_of(prefix))
        },
    }
}

/// The next step of a file status check.
#[derive(Clone, Debug)]
pub enum FileCheck {
    /// The status is known.
    Done(FileStatus),
    /// The file's digest must be computed (and kept with its size).
    NeedHash,
}

/// The checks that come before the digest: a switched-off entry, a missing file, a
/// file whose size cannot be read, and a kept digest for a file of the same size.
pub fn file_status_precheck(
    enabled: bool,
    exists: bool,
    size: Option<u64>,
    cached: Option<(u64, &str)>,
    expected: &Option<String>,
) -> (r: FileCheck)
    ensures
        !enabled ==> r matches FileCheck::Done(FileStatus::Disabled),
        enabled && !exists ==> r matches FileCheck::Done(FileStatus::Missing),
        enabled && exists && size.is_none() ==> r matches FileCheck::Done(FileStatus::Unknown),
        enabled && exists && size.is_some() ==> match cached {
            Some((cached_size, hash)) if cached_size == size.unwrap() => r matches FileCheck::Done(s)
                && match expected {
                    Some(e) => if e@ == hash@ { s is Ready } else { s is Changed },
                    None => s matches FileStatus::Installed(p) && p@ == hash@.take(
                        if hash@.len() < 8 { hash@.len() as int } else { 8 },
                    ),
                },
            _ => r is NeedHash,
        },
{
    if !enabled {
        return FileCheck::Done(FileStatus::Disabled);
    }
    if !exists {
        return FileCheck::Done(FileStatus::Missing);
    }
    match size {
        None => FileCheck::Done(FileStatus::Unknown),
        Some(sz) => match cached {
            Some((cached_size, hash)) => {
                if cached_size == sz {
                    FileCheck::Done(status_from_hash(hash, expected))
                } else {
                    FileCheck::NeedHash
                }
            },
            None => FileCheck::NeedHash,
        },
    }
}

/// The status once the digest has been computed, or could not be.
pub fn file_status_after_hash(hash: Option<&str>, expected: &Option<String>) -> (r: FileStatus)
    ensures
        match hash {
            None => r is ReadError,
            Some(h) => match expected {
                Some(e) => if e@ == h@ { r is Ready } else { r is Changed },
                None => r matches FileStatus::Installed(p) && p@ == h@.take(
                    if h@.len() < 8 { h@.len() as int } else { 8 },
                ),
            },
        },
{
    match hash {
        None => FileStatus::ReadError,
        Some(h) => status_from_hash(h, expected),
    }
}

/// The status of a file whose digest was computed now (`Some`) or could not be
/// read (`None`), with the size and digest kept for it afterwards: the file's size
/// and new digest, or the entry that was kept before when the file could not be
/// read.
pub fn file_status_with_digest(
    size: u64,
    cached: Option<(u64, String)>,
    digest: Option<&str>,
    expected: &Option<String>,
) -> (r: (FileStatus, Option<(u64, String)>))
    ensures
        match digest {
            None => r.0 is ReadError && r.1 == cached,
            Some(h) => (match expected {
                Some(e) => if e@ == h@ { r.0 is Ready } else { r.0 is Changed },
                None => r.0 matches FileStatus::Installed(p) && p@ == h@.take(
                    if h@.len() < 8 { h@.len() as int } else { 8 },
                ),
            }) && (r.1 matches Some((n, k)) && n == size && k@ == h@),
        },
{
    let status = file_status_after_hash(digest, expected);
    match digest {
        None => (status, cached),
        Some(h) => (status, Some((size, string_from(h)))),
    }
}

impl FileStatus {
    /// The text shown for the status.
    pub fn label(&self) -> (r: String)
        ensures
            match self {
                FileStatus::Disabled => r@ == "Выключен"@,
                FileStatus::Missing => r@ == "Отсутствует (Будет скачан)"@,
                FileStatus::Ready => r@ == "Готов (OK)"@,
                FileStatus::Changed => r@ == "Изменен (Будет обновлен)"@,
                FileStatus::Installed(p) => r@ == "Установлен (хэш: "@ + p@ + ")"@,
                FileStatus::ReadError => r@ == "Ошибка чтения файла"@,
                FileStatus::Unknown => r@ == "Неизвестно"@,
            },
    {
        match self {
            FileStatus::Disabled => string_from("Выключен"),
            FileStatus::Missing => string_from("Отсутствует (Будет скачан)"),
            FileStatus::Ready => string_from("Готов (OK)"),
            FileStatus::Changed => string_from("Изменен (Будет обновлен)"),
            FileStatus::Installed(p) => {
                let a = concat("Установлен (хэш: ", p.as_str());
                concat(a.as_str(), ")")
            },
            FileStatus::ReadError => string_from("Ошибка чтения файла"),
            FileStatus::Unknown => string_from("Неизвестно"),
        }
    }

    /// The mark shown before an entry in the list, and its colour.
    pub fn icon(&self) -> (r: (String, (u8, u8, u8)))
        ensures
            match self {
                FileStatus::Disabled => r.0@ == "⚪"@ && r.1 == (160u8, 160u8, 160u8),
                FileStatus::Ready => r.0@ == "🟢"@ && r.1 == (100u8, 230u8, 100u8),
                FileStatus::Changed => r.0@ == "🟡"@ && r.1 == (230u8, 180u8, 50u8),
                FileStatus::Installed(_) => r.0@ == "🔵"@ && r.1 == (100u8, 200u8, 250u8),
                FileStatus::Missing | FileStatus::ReadError | FileStatus::Unknown => r.0@ == "🔴"@
                    && r.1 == (230u8, 100u8, 100u8),
            },
    {
        match self {
            FileStatus::Disabled => (string_from("⚪"), (160, 160, 160)),
            FileStatus::Ready => (string_from("🟢"), (100, 230, 100)),
            FileStatus::Changed => (string_from("🟡"), (230, 180, 50)),
            FileStatus::Installed(_) => (string_from("🔵"), (100, 200, 250)),
            _ => (string_from("🔴"), (230, 100, 100)),
        }
    }

    /// The colour of the status, as red, green and blue.
    pub fn color(&self) -> (r: (u8, u8, u8))
        ensures
            match self {
                FileStatus::Disabled | FileStatus::Unknown => r == (160u8, 160u8, 160u8),
                FileStatus::Missing | FileStatus::ReadError => r == (230u8, 100u8, 100u8),
                FileStatus::Ready => r == (100u8, 230u8, 100u8),
                FileStatus::Changed => r == (230u8, 180u8, 50u8),
                FileStatus::Installed(_) => r == (100u8, 200u8, 250u8),
            },
    {
        match self {
            FileStatus::Disabled | FileStatus::Unknown => (160, 160, 160),
            FileStatus::Missing | FileStatus::ReadError => (230, 100, 100),
            FileStatus::Ready => (100, 230, 100),
            FileStatus::Changed => (230, 180, 50),
            FileStatus::Installed(_) => (100, 200, 250),
        }
    }
}


/// Where a Java runtime comes from and goes to: the Adoptium address of the latest
/// JRE of that major version for Linux x64, the archive it is saved as, the
/// directory it ends in and the one it is unpacked into first.
#[derive(Debug)]
pub struct JrePaths {
    pub url: String,
    pub archive: String,
    pub target_dir: String,
    pub extract_dir: String,
}

/// Where the Java runtime of a major version comes from and goes to.
pub fn jre_paths(java_ver: u32) -> (r: JrePaths)
    ensures
        r.url@ == "https://api.adoptium.net/v3/binary/latest/"@ + decimal(java_ver as nat)
            + "/ga/linux/x64/jre/hotspot/normal/eclipse"@,
        r.archive@ == "./run/jre"@ + decimal(java_ver as nat) + "_temp.tar.gz"@,
        r.target_dir@ == "./run/jre"@ + decimal(java_ver as nat),
        r.extract_dir@ == "./run/jre"@ + decimal(java_ver as nat) + "_extract"@,
{
    let n = decimal_string(java_ver as u128);
    let u = concat("https://api.adoptium.net/v3/binary/latest/", n.as_str());
    let url = concat(u.as_str(), "/ga/linux/x64/jre/hotspot/normal/eclipse");
    let target_dir = concat("./run/jre", n.as_str());
    let archive = concat(target_dir.as_str(), "_temp.tar.gz");
    let extract_dir = concat(target_dir.as_str(), "_extract");
    JrePaths { url, archive, target_dir, extract_dir }
}

/// Where the server jar of a Minecraft version is saved.
pub fn version_jar_path(version: &str) -> (r: String)
    ensures
        r@ == "./run/"@ + version@ + ".jar"@,
{
    let a = concat("./run/", version);
    concat(a.as_str(), ".jar")
}

/// Where a server core is saved: its file name under the server directory.
pub fn core_file_path(filename: &str) -> (r: String)
    ensures
        r@ == "./run/"@ + filename@,
{
    concat("./run/", filename)
}

/// The address of Fabric's library profile for a Minecraft version and loader.
pub fn fabric_profile_url(mc_version: &str, loader: &str) -> (r: String)
    ensures
        r@ == "https://meta.fabricmc.net/v2/versions/loader/"@ + mc_version@ + "/"@ + loader@
            + "/profile/json"@,
{
    let a = concat("https://meta.fabricmc.net/v2/versions/loader/", mc_version);
    let b = concat(a.as_str(), "/");
    let c = concat(b.as_str(), loader);
    concat(c.as_str(), "/profile/json")
}

/// The libraries that Forge 1.12.2 needs besides those of the version: each with
/// its path under the libraries directory and its download address.
pub fn legacy_forge_libraries() -> (r: Vec<(String, String)>)
    ensures
        r@.len() == 15,
        r@[0].0@ == "net/minecraft/launchwrapper/1.12/launchwrapper-1.12.jar"@,
        r@[0].1@ == "https://libraries.minecraft.net/net/minecraft/launchwrapper/1.12/launchwrapper-1.12.jar"@,
        r@[1].0@ == "org/ow2/asm/asm-debug-all/5.2/asm-debug-all-5.2.jar"@,
        r@[1].1@ == "https://libraries.minecraft.net/org/ow2/asm/asm-debug-all/5.2/asm-debug-all-5.2.jar"@,
        r@[2].0@ == "com/typesafe/akka/akka-actor_2.11/2.3.3/akka-actor_2.11-2.3.3.jar"@,
        r@[2].1@ == "https://maven.minecraftforge.net/com/typesafe/akka/akka-actor_2.11/2.3.3/akka-actor_2.11-2.3.3.jar"@,
        r@[3].0@ == "com/typesafe/config/1.2.1/config-1.2.1.jar"@,
        r@[3].1@ == "https://maven.minecraftforge.net/com/typesafe/config/1.2.1/config-1.2.1.jar"@,
        r@[4].0@ == "org/scala-lang/scala-actors-migration_2.11/1.1.0/scala-actors-migration_2.11-1.1.0.jar"@,
        r@[4].1@ == "https://maven.minecraftforge.net/org/scala-lang/scala-actors-migration_2.11/1.1.0/scala-actors-migration_2.11-1.1.0.jar"@,
        r@[5].0@ == "org/scala-lang/scala-compiler/2.11.1/scala-compiler-2.11.1.jar"@,
        r@[5].1@ == "https://maven.minecraftforge.net/org/scala-lang/scala-compiler/2.11.1/scala-compiler-2.11.1.jar"@,
        r@[6].0@ == "org/scala-lang/scala-library/2.11.1/scala-library-2.11.1.jar"@,
        r@[6].1@ == "https://maven.minecraftforge.net/org/scala-lang/scala-library/2.11.1/scala-library-2.11.1.jar"@,
        r@[7].0@ == "org/scala-lang/scala-parser-combinators_2.11/1.0.1/scala-parser-combinators_2.11-1.0.1.jar"@,
        r@[7].1@ == "https://maven.minecraftforge.net/org/scala-lang/scala-parser-combinators_2.11/1.0.1/scala-parser-combinators_2.11-1.0.1.jar"@,
        r@[8].0@ == "org/scala-lang/scala-reflect/2.11.1/scala-reflect-2.11.1.jar"@,
        r@[8].1@ == "https://maven.minecraftforge.net/org/scala-lang/scala-reflect/2.11.1/scala-reflect-2.11.1.jar"@,
        r@[9].0@ == "org/scala-lang/scala-swing_2.11/1.0.1/scala-swing_2.11-1.0.1.jar"@,
        r@[9].1@ == "https://maven.minecraftforge.net/org/scala-lang/scala-swing_2.11/1.0.1/scala-swing_2.11-1.0.1.jar"@,
        r@[10].0@ == "org/scala-lang/scala-xml_2.11/1.0.2/scala-xml_2.11-1.0.2.jar"@,
        r@[10].1@ == "https://maven.minecraftforge.net/org/scala-lang/scala-xml_2.11/1.0.2/scala-xml_2.11-1.0.2.jar"@,
        r@[11].0@ == "lzma/lzma/0.0.1/lzma-0.0.1.jar"@,
        r@[11].1@ == "https://maven.minecraftforge.net/lzma/lzma/0.0.1/lzma-0.0.1.jar"@,
        r@[12].0@ == "java3d/vecmath/1.5.2/vecmath-1.5.2.jar"@,
        r@[12].1@ == "https://libraries.minecraft.net/java3d/vecmath/1.5.2/vecmath-1.5.2.jar"@,
        r@[13].0@ == "net/sf/trove4j/trove4j/3.0.3/trove4j-3.0.3.jar"@,
        r@[13].1@ == "https://maven.minecraftforge.net/net/sf/trove4j/trove4j/3.0.3/trove4j-3.0.3.jar"@,
        r@[14].0@ == "org/apache/maven/maven-artifact/3.5.3/maven-artifact-3.5.3.jar"@,
        r@[14].1@ == "https://maven.minecraftforge.net/org/apache/maven/maven-artifact/3.5.3/maven-artifact-3.5.3.jar"@,
{
    let mut r: Vec<(String, String)> = Vec::new();
    r.push((string_from("net/minecraft/launchwrapper/1.12/launchwrapper-1.12.jar"), string_from("https://libraries.minecraft.net/net/minecraft/launchwrapper/1.12/launchwrapper-1.12.jar")));
    r.push((string_from("org/ow2/asm/asm-debug-all/5.2/asm-debug-all-5.2.jar"), string_from("https://libraries.minecraft.net/org/ow2/asm/asm-debug-all/5.2/asm-debug-all-5.2.jar")));
    r.push((string_from("com/typesafe/akka/akka-actor_2.11/2.3.3/akka-actor_2.11-2.3.3.jar"), string_from("https://maven.minecraftforge.net/com/typesafe/akka/akka-actor_2.11/2.3.3/akka-actor_2.11-2.3.3.jar")));
    r.push((string_from("com/typesafe/config/1.2.1/config-1.2.1.jar"), string_from("https://maven.minecraftforge.net/com/typesafe/config/1.2.1/config-1.2.1.jar")));
    r.push((string_from("org/scala-lang/scala-actors-migration_2.11/1.1.0/scala-actors-migration_2.11-1.1.0.jar"), string_from("https://maven.minecraftforge.net/org/scala-lang/scala-actors-migration_2.11/1.1.0/scala-actors-migration_2.11-1.1.0.jar")));
    r.push((string_from("org/scala-lang/scala-compiler/2.11.1/scala-compiler-2.11.1.jar"), string_from("https://maven.minecraftforge.net/org/scala-lang/scala-compiler/2.11.1/scala-compiler-2.11.1.jar")));
    r.push((string_from("org/scala-lang/scala-library/2.11.1/scala-library-2.11.1.jar"), string_from("https://maven.minecraftforge.net/org/scala-lang/scala-library/2.11.1/scala-library-2.11.1.jar")));
    r.push((string_from("org/scala-lang/scala-parser-combinators_2.11/1.0.1/scala-parser-combinators_2.11-1.0.1.jar"), string_from("https://maven.minecraftforge.net/org/scala-lang/scala-parser-combinators_2.11/1.0.1/scala-parser-combinators_2.11-1.0.1.jar")));
    r.push((string_from("org/scala-lang/scala-reflect/2.11.1/scala-reflect-2.11.1.jar"), string_from("https://maven.minecraftforge.net/org/scala-lang/scala-reflect/2.11.1/scala-reflect-2.11.1.jar")));
    r.push((string_from("org/scala-lang/scala-swing_2.11/1.0.1/scala-swing_2.11-1.0.1.jar"), string_from("https://maven.minecraftforge.net/org/scala-lang/scala-swing_2.11/1.0.1/scala-swing_2.11-1.0.1.jar")));
    r.push((string_from("org/scala-lang/scala-xml_2.11/1.0.2/scala-xml_2.11-1.0.2.jar"), string_from("https://maven.minecraftforge.net/org/scala-lang/scala-xml_2.11/1.0.2/scala-xml_2.11-1.0.2.jar")));
    r.push((string_from("lzma/lzma/0.0.1/lzma-0.0.1.jar"), string_from("https://maven.minecraftforge.net/lzma/lzma/0.0.1/lzma-0.0.1.jar")));
    r.push((string_from("java3d/vecmath/1.5.2/vecmath-1.5.2.jar"), string_from("https://libraries.minecraft.net/java3d/vecmath/1.5.2/vecmath-1.5.2.jar")));
    r.push((string_from("net/sf/trove4j/trove4j/3.0.3/trove4j-3.0.3.jar"), string_from("https://maven.minecraftforge.net/net/sf/trove4j/trove4j/3.0.3/trove4j-3.0.3.jar")));
    r.push((string_from("org/apache/maven/maven-artifact/3.5.3/maven-artifact-3.5.3.jar"), string_from("https://maven.minecraftforge.net/org/apache/maven/maven-artifact/3.5.3/maven-artifact-3.5.3.jar")));
    r
}


/// Whether a download reports its progress again: with a known size, once the
/// percentage has grown by five since the last report or a second has passed;
/// without one, every two seconds.
pub fn progress_report_due(size_known: bool, percent: u32, last_reported_percent: u32, elapsed_secs: u64) -> (r: bool)
    ensures
        size_known ==> r == (percent as int >= last_reported_percent as int + 5 || elapsed_secs >= 1),
        !size_known ==> r == (elapsed_secs >= 2),
{
    if size_known {
        percent as u64 >= last_reported_percent as u64 + 5 || elapsed_secs >= 1
    } else {
        elapsed_secs >= 2
    }
}


/// The file name given to a downloaded mod or plugin always ends in `.jar`.
pub proof fn lemma_filename_is_jar(url: Seq<char>, url_bytes: Seq<u8>)
    ensures
        seq_ends_with(filename_from_url_spec(url, url_bytes), ".jar"@),
{
    reveal_strlit(".jar");
    let f = filename_from_url_spec(url, url_bytes);
    match url_jar_name(url) {
        Some(name) => {},
        None => {
            let h = "mod_"@ + hex_lower(sha256_spec(url_bytes).take(4));
            assert(f == h + ".jar"@);
            assert(f.len() == h.len() + 4);
            assert(f.subrange(f.len() - 4, f.len() as int) =~= ".jar"@);
        },
    }
}


/// What must be fetched before a server core's address is known: the version's
/// package (Vanilla), the list of Paper builds (Paper when the latest is wanted),
/// the lists of Fabric loaders and installers (Fabric), or nothing.
#[derive(Clone, Copy, Debug, PartialEq, Eq, Structural)]
pub enum CoreLookup {
    VanillaPackage,
    PaperBuilds,
    FabricVersions,
    Nothing,
}

pub open spec fn core_lookup_spec(t: ServerCoreType, core_version: Seq<char>) -> CoreLookup {
    match t {
        ServerCoreType::Vanilla => CoreLookup::VanillaPackage,
        ServerCoreType::Paper => if wants_latest_spec(core_version) {
            CoreLookup::PaperBuilds
        } else {
            CoreLookup::Nothing
        },
        ServerCoreType::Fabric => CoreLookup::FabricVersions,
        _ => CoreLookup::Nothing,
    }
}

/// What must be fetched before the address of a server core is known.
pub fn core_lookup(core_type: ServerCoreType, core_version: &str) -> (r: CoreLookup)
    ensures
        r == core_lookup_spec(core_type, core_version@),
{
    match core_type {
        ServerCoreType::Vanilla => CoreLookup::VanillaPackage,
        ServerCoreType::Paper => if wants_latest_build(core_version) {
            CoreLookup::PaperBuilds
        } else {
            CoreLookup::Nothing
        },
        ServerCoreType::Fabric => CoreLookup::FabricVersions,
        _ => CoreLookup::Nothing,
    }
}

/// The Paper build to install and whether the list came empty.
pub open spec fn paper_build_choice(builds: Option<&Vec<u32>>, mc: Seq<char>) -> (Seq<char>, bool) {
    match builds {
        Some(b) => if b@.len() > 0 {
            (decimal(b@.last() as nat), false)
        } else {
            (paper_fallback_spec(mc), true)
        },
        None => (paper_fallback_spec(mc), false),
    }
}

pub open spec fn loader_choice(loaders: Option<&Vec<FabricLoaderEntry>>, default: Seq<char>) -> Seq<char> {
    match loaders {
        Some(l) => if l@.len() > 0 { l@[0].version@ } else { default },
        None => default,
    }
}

pub open spec fn installer_choice(installers: Option<&Vec<FabricInstallerEntry>>, default: Seq<char>) -> Seq<char> {
    match installers {
        Some(l) => if l@.len() > 0 { l@[0].version@ } else { default },
        None => default,
    }
}

/// The address of a server core, from what was fetched for it, and whether the
/// Paper builds came empty; `None` for a Vanilla version whose package names no
/// server jar. Paper takes the chosen build, else the last listed (the known build
/// of the version when none is listed); Fabric the newest loader and installer
/// (0.19.3 and 1.1.1 when unknown); Forge the chosen version, else the known one.
pub open spec fn core_url_spec(
    t: ServerCoreType,
    mc: Seq<char>,
    core_version: Seq<char>,
    vanilla_server: Option<Seq<char>>,
    paper_builds: Option<&Vec<u32>>,
    loaders: Option<&Vec<FabricLoaderEntry>>,
    installers: Option<&Vec<FabricInstallerEntry>>,
) -> Option<(Seq<char>, bool)> {
    match t {
        ServerCoreType::Vanilla => match vanilla_server {
            Some(u) => Some((u, false)),
            None => None,
        },
        ServerCoreType::Paper => {
            let (build, empty) = if wants_latest_spec(core_version) {
                paper_build_choice(paper_builds, mc)
            } else {
                (core_version, false)
            };
            Some((paper_jar_url_spec(mc, build), empty))
        },
        ServerCoreType::Fabric => Some((
            fabric_server_url_spec(mc, loader_choice(loaders, "0.19.3"@), installer_choice(installers, "1.1.1"@)),
            false,
        )),
        ServerCoreType::NeoForge => Some((neoforge_installer_url_spec(mc), false)),
        ServerCoreType::Forge => Some((
            forge_installer_url_spec(mc, if wants_latest_spec(core_version) { forge_build_spec(mc) } else { core_version }),
            false,
        )),
    }
}

/// The address to download a server core from.
pub fn core_download_url(
    core_type: ServerCoreType,
    mc_version: &str,
    core_version: &str,
    vanilla_server: Option<&str>,
    paper_builds: Option<&Vec<u32>>,
    loaders: Option<&Vec<FabricLoaderEntry>>,
    installers: Option<&Vec<FabricInstallerEntry>>,
) -> (r: Option<(String, bool)>)
    ensures
        match core_url_spec(
            core_type,
            mc_version@,
            core_version@,
            match vanilla_server { Some(u) => Some(u@), None => None },
            paper_builds,
            loaders,
            installers,
        ) {
            Some((u, w)) => r matches Some((x, y)) && x@ == u && y == w,
            None => r.is_none(),
        },
{
    match core_type {
        ServerCoreType::Vanilla => match vanilla_server {
            Some(u) => Some((string_from(u), false)),
            None => None,
        },
        ServerCoreType::Paper => {
            let (build, empty) = if wants_latest_build(core_version) {
                paper_build_from(paper_builds, mc_version)
            } else {
                (string_from(core_version), false)
            };
            Some((paper_jar_url(mc_version, build.as_str()), empty))
        },
        ServerCoreType::Fabric => {
            let loader = first_loader_version(loaders, "0.19.3");
            let installer = first_installer_version(installers, "1.1.1");
            proof {
                reveal_strlit("0.19.3");
                reveal_strlit("1.1.1");
            }
            Some((fabric_server_url(mc_version, loader.as_str(), installer.as_str()), false))
        },
        ServerCoreType::NeoForge => Some((neoforge_installer_url(mc_version), false)),
        ServerCoreType::Forge => {
            let build = forge_build_for(mc_version, core_version);
            Some((forge_installer_url(mc_version, build.as_str()), false))
        },
    }
}

/// A Forge core downloads the installer of the build that was chosen for it; only
/// when the latest is wanted (no build, or the "latest stable" label) does the
/// build known for the Minecraft version stand in, and then the address is the one
/// for that build chosen by name.
pub proof fn lemma_forge_core_uses_chosen_build(
    mc: Seq<char>,
    build: Seq<char>,
    vanilla_server: Option<Seq<char>>,
    paper_builds: Option<&Vec<u32>>,
    loaders: Option<&Vec<FabricLoaderEntry>>,
    installers: Option<&Vec<FabricInstallerEntry>>,
)
    ensures
        build.len() > 0 && build != "Последний стабильный"@ ==> core_url_spec(
            ServerCoreType::Forge,
            mc,
            build,
            vanilla_server,
            paper_builds,
            loaders,
            installers,
        ) == Some((
            "https://maven.minecraftforge.net/net/minecraftforge/forge/"@ + mc + "-"@ + build + "/forge-"@
                + mc + "-"@ + build + "-installer.jar"@,
            false,
        )),
        core_url_spec(ServerCoreType::Forge, mc, Seq::empty(), vanilla_server, paper_builds, loaders, installers)
            == core_url_spec(ServerCoreType::Forge, mc, "Последний стабильный"@, vanilla_server, paper_builds, loaders, installers),
        mc == "1.12.2"@ ==> core_url_spec(ServerCoreType::Forge, mc, Seq::empty(), vanilla_server, paper_builds, loaders, installers)
            == core_url_spec(ServerCoreType::Forge, mc, "14.23.5.2860"@, vanilla_server, paper_builds, loaders, installers),
{
    reveal_strlit("Последний стабильный");
    reveal_strlit("14.23.5.2860");
    assert(wants_latest_spec(Seq::empty()));
    assert(wants_latest_spec("Последний стабильный"@));
    assert(!wants_latest_spec("14.23.5.2860"@)) by {
        assert("14.23.5.2860"@.len() != "Последний стабильный"@.len());
    };
}

/// The other cores: Vanilla downloads the server jar that its package names (none
/// when it names none); Paper the chosen build, or when the latest is wanted the
/// last build listed, written in decimal; Fabric the server launcher of the newest
/// loader and installer listed; NeoForge the installer of the Minecraft version.
pub proof fn lemma_core_addresses(
    mc: Seq<char>,
    build: Seq<char>,
    vanilla_server: Option<Seq<char>>,
    paper_builds: Option<&Vec<u32>>,
    loaders: Option<&Vec<FabricLoaderEntry>>,
    installers: Option<&Vec<FabricInstallerEntry>>,
)
    ensures
        core_url_spec(ServerCoreType::Vanilla, mc, build, vanilla_server, paper_builds, loaders, installers)
            == match vanilla_server {
            Some(u) => Some((u, false)),
            None => None,
        },
        build.len() > 0 && build != "Последний стабильный"@ ==> core_url_spec(
            ServerCoreType::Paper,
            mc,
            build,
            vanilla_server,
            paper_builds,
            loaders,
            installers,
        ) == Some((
            "https://api.papermc.io/v2/projects/paper/versions/"@ + mc + "/builds/"@ + build + "/downloads/paper-"@
                + mc + "-"@ + build + ".jar"@,
            false,
        )),
        (paper_builds matches Some(b) && b@.len() > 0) ==> core_url_spec(
            ServerCoreType::Paper,
            mc,
            Seq::empty(),
            vanilla_server,
            paper_builds,
            loaders,
            installers,
        ) == Some((
            "https://api.papermc.io/v2/projects/paper/versions/"@ + mc + "/builds/"@ + decimal(
                paper_builds.unwrap()@.last() as nat,
            ) + "/downloads/paper-"@ + mc + "-"@ + decimal(paper_builds.unwrap()@.last() as nat) + ".jar"@,
            false,
        )),
        (loaders matches Some(l) && l@.len() > 0) && (installers matches Some(i) && i@.len() > 0) ==> core_url_spec(
            ServerCoreType::Fabric,
            mc,
            build,
            vanilla_server,
            paper_builds,
            loaders,
            installers,
        ) == Some((
            "https://meta.fabricmc.net/v2/versions/loader/"@ + mc + "/"@ + loaders.unwrap()@[0].version@ + "/"@
                + installers.unwrap()@[0].version@ + "/server/jar"@,
            false,
        )),
        core_url_spec(ServerCoreType::NeoForge, mc, build, vanilla_server, paper_builds, loaders, installers)
            == Some((
            "https://maven.neoforged.net/releases/net/neoforged/neoforge/"@ + mc + "/neoforge-"@ + mc
                + "-installer.jar"@,
            false,
        )),
{
    reveal_strlit("Последний стабильный");
    assert(wants_latest_spec(Seq::empty()));
}

} // verus!
