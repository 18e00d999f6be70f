use vstd::prelude::*;
use crate::error::AppError;
use crate::models::LauncherConfig;
use crate::numbers::{decimal, decimal_string};
use crate::text::{concat, seq_starts_with, str_eq, str_starts_with, string_from, trim, trim_spec};

verus! {

/// The directory that holds the server, its runtimes, configurations and scripts.
pub const SERVER_DIR: &'static str = "./run";

/// The Minecraft versions that the launcher offers.
pub open spec fn minecraft_versions() -> Seq<Seq<char>> {
    seq!["1.20.4"@, "1.20.1"@, "1.19.2"@, "1.18.2"@, "1.16.5"@, "1.12.2"@, "1.7.10"@]
}

/// Whether the launcher offers `version`; the address of its files is then looked
/// up at run time (`"dynamic"`).
pub fn get_minecraft_version_url(version: &str) -> (r: Option<&'static str>)
    ensures
        r.is_some() <==> minecraft_versions().contains(version@),
        r matches Some(s) ==> s@ == "dynamic"@,
{
    let known = str_eq(version, "1.20.4") || str_eq(version, "1.20.1") || str_eq(version, "1.19.2")
        || str_eq(version, "1.18.2") || str_eq(version, "1.16.5") || str_eq(version, "1.12.2")
        || str_eq(version, "1.7.10");
    proof {
        let vs = minecraft_versions();
        if known {
            assert(vs.contains(version@)) by {
                if version@ == "1.20.4"@ { assert(vs[0] == version@); }
                else if version@ == "1.20.1"@ { assert(vs[1] == version@); }
                else if version@ == "1.19.2"@ { assert(vs[2] == version@); }
                else if version@ == "1.18.2"@ { assert(vs[3] == version@); }
                else if version@ == "1.16.5"@ { assert(vs[4] == version@); }
                else if version@ == "1.12.2"@ { assert(vs[5] == version@); }
                else { assert(vs[6] == version@); }
            };
        } else {
            assert(!vs.contains(version@)) by {
                if vs.contains(version@) {
                    let i = choose|i: int| 0 <= i < vs.len() && vs[i] == version@;
                    assert(vs[i] == version@);
                }
            };
        }
    }
    if known {
        Some("dynamic")
    } else {
        None
    }
}

/// The Java release that a Minecraft version runs on: 21 for 1.20.5 and later
/// (and snapshots of 2024 to 2026), 17 from 1.16 on, 8 before.
pub open spec fn java_version_spec(v: Seq<char>) -> u32 {
    if seq_starts_with(v, "1.20.5"@) || seq_starts_with(v, "1.21"@) || seq_starts_with(v, "2"@)
        || seq_starts_with(v, "24w"@) || seq_starts_with(v, "25w"@) || seq_starts_with(v, "26w"@) {
        21
    } else if seq_starts_with(v, "1.16"@) || seq_starts_with(v, "1.17"@) || seq_starts_with(v, "1.18"@)
        || seq_starts_with(v, "1.19"@) || seq_starts_with(v, "1.20"@) {
        17
    } else {
        8
    }
}

/// The Java release for a Minecraft version.
pub fn get_java_version_for_minecraft(mc_version: &str) -> (r: u32)
    ensures
        r == java_version_spec(mc_version@),
{
    if str_starts_with(mc_version, "1.20.5") || str_starts_with(mc_version, "1.21")
        || str_starts_with(mc_version, "2") || str_starts_with(mc_version, "24w")
        || str_starts_with(mc_version, "25w") || str_starts_with(mc_version, "26w") {
        21
    } else if str_starts_with(mc_version, "1.16") || str_starts_with(mc_version, "1.17")
        || str_starts_with(mc_version, "1.18") || str_starts_with(mc_version, "1.19")
        || str_starts_with(mc_version, "1.20") {
        17
    } else {
        8
    }
}

/// Minecraft 1.16 to 1.20.4 runs on Java 17, 1.20.5 and later on Java 21, and the
/// older releases (1.7 to 1.15) on Java 8.
pub proof fn lemma_java_release_by_version(v: Seq<char>)
    ensures
        (seq_starts_with(v, "1.16"@) || seq_starts_with(v, "1.17"@) || seq_starts_with(v, "1.18"@)
            || seq_starts_with(v, "1.19"@) || seq_starts_with(v, "1.20"@)) && !seq_starts_with(v, "1.20.5"@)
            ==> java_version_spec(v) == 17,
        seq_starts_with(v, "1.20.5"@) || seq_starts_with(v, "1.21"@) ==> java_version_spec(v) == 21,
        seq_starts_with(v, "1.7"@) || seq_starts_with(v, "1.8"@) || seq_starts_with(v, "1.9"@)
            || seq_starts_with(v, "1.10"@) || seq_starts_with(v, "1.11"@) || seq_starts_with(v, "1.12"@)
            || seq_starts_with(v, "1.13"@) || seq_starts_with(v, "1.14"@) || seq_starts_with(v, "1.15"@)
            ==> java_version_spec(v) == 8,
{
    reveal_strlit("1.16");
    reveal_strlit("1.17");
    reveal_strlit("1.18");
    reveal_strlit("1.19");
    reveal_strlit("1.20");
    reveal_strlit("1.20.5");
    reveal_strlit("1.21");
    reveal_strlit("2");
    reveal_strlit("24w");
    reveal_strlit("25w");
    reveal_strlit("26w");
    reveal_strlit("1.7");
    reveal_strlit("1.8");
    reveal_strlit("1.9");
    reveal_strlit("1.10");
    reveal_strlit("1.11");
    reveal_strlit("1.12");
    reveal_strlit("1.13");
    reveal_strlit("1.14");
    reveal_strlit("1.15");
    if seq_starts_with(v, "1.16"@) {
        lemma_prefixes_clash(v, "1.16"@, "1.21"@, 2);
        lemma_prefixes_clash(v, "1.16"@, "2"@, 0);
        lemma_prefixes_clash(v, "1.16"@, "24w"@, 0);
        lemma_prefixes_clash(v, "1.16"@, "25w"@, 0);
        lemma_prefixes_clash(v, "1.16"@, "26w"@, 0);
    }
    if seq_starts_with(v, "1.17"@) {
        lemma_prefixes_clash(v, "1.17"@, "1.21"@, 2);
        lemma_prefixes_clash(v, "1.17"@, "2"@, 0);
        lemma_prefixes_clash(v, "1.17"@, "24w"@, 0);
        lemma_prefixes_clash(v, "1.17"@, "25w"@, 0);
        lemma_prefixes_clash(v, "1.17"@, "26w"@, 0);
    }
    if seq_starts_with(v, "1.18"@) {
        lemma_prefixes_clash(v, "1.18"@, "1.21"@, 2);
        lemma_prefixes_clash(v, "1.18"@, "2"@, 0);
        lemma_prefixes_clash(v, "1.18"@, "24w"@, 0);
        lemma_prefixes_clash(v, "1.18"@, "25w"@, 0);
        lemma_prefixes_clash(v, "1.18"@, "26w"@, 0);
    }
    if seq_starts_with(v, "1.19"@) {
        lemma_prefixes_clash(v, "1.19"@, "1.21"@, 2);
        lemma_prefixes_clash(v, "1.19"@, "2"@, 0);
        lemma_prefixes_clash(v, "1.19"@, "24w"@, 0);
        lemma_prefixes_clash(v, "1.19"@, "25w"@, 0);
        lemma_prefixes_clash(v, "1.19"@, "26w"@, 0);
    }
    if seq_starts_with(v, "1.20"@) {
        lemma_prefixes_clash(v, "1.20"@, "1.21"@, 3);
        lemma_prefixes_clash(v, "1.20"@, "2"@, 0);
        lemma_prefixes_clash(v, "1.20"@, "24w"@, 0);
        lemma_prefixes_clash(v, "1.20"@, "25w"@, 0);
        lemma_prefixes_clash(v, "1.20"@, "26w"@, 0);
    }
    if seq_starts_with(v, "1.7"@) {
        lemma_prefixes_clash(v, "1.7"@, "1.16"@, 2);
        lemma_prefixes_clash(v, "1.7"@, "1.17"@, 2);
        lemma_prefixes_clash(v, "1.7"@, "1.18"@, 2);
        lemma_prefixes_clash(v, "1.7"@, "1.19"@, 2);
        lemma_prefixes_clash(v, "1.7"@, "1.20"@, 2);
        lemma_prefixes_clash(v, "1.7"@, "1.20.5"@, 2);
        lemma_prefixes_clash(v, "1.7"@, "1.21"@, 2);
        lemma_prefixes_clash(v, "1.7"@, "2"@, 0);
        lemma_prefixes_clash(v, "1.7"@, "24w"@, 0);
        lemma_prefixes_clash(v, "1.7"@, "25w"@, 0);
        lemma_prefixes_clash(v, "1.7"@, "26w"@, 0);
    }
    if seq_starts_with(v, "1.8"@) {
        lemma_prefixes_clash(v, "1.8"@, "1.16"@, 2);
        lemma_prefixes_clash(v, "1.8"@, "1.17"@, 2);
        lemma_prefixes_clash(v, "1.8"@, "1.18"@, 2);
        lemma_prefixes_clash(v, "1.8"@, "1.19"@, 2);
        lemma_prefixes_clash(v, "1.8"@, "1.20"@, 2);
        lemma_prefixes_clash(v, "1.8"@, "1.20.5"@, 2);
        lemma_prefixes_clash(v, "1.8"@, "1.21"@, 2);
        lemma_prefixes_clash(v, "1.8"@, "2"@, 0);
        lemma_prefixes_clash(v, "1.8"@, "24w"@, 0);
        lemma_prefixes_clash(v, "1.8"@, "25w"@, 0);
        lemma_prefixes_clash(v, "1.8"@, "26w"@, 0);
    }
    if seq_starts_with(v, "1.9"@) {
        lemma_prefixes_clash(v, "1.9"@, "1.16"@, 2);
        lemma_prefixes_clash(v, "1.9"@, "1.17"@, 2);
        lemma_prefixes_clash(v, "1.9"@, "1.18"@, 2);
        lemma_prefixes_clash(v, "1.9"@, "1.19"@, 2);
        lemma_prefixes_clash(v, "1.9"@, "1.20"@, 2);
        lemma_prefixes_clash(v, "1.9"@, "1.20.5"@, 2);
        lemma_prefixes_clash(v, "1.9"@, "1.21"@, 2);
        lemma_prefixes_clash(v, "1.9"@, "2"@, 0);
        lemma_prefixes_clash(v, "1.9"@, "24w"@, 0);
        lemma_prefixes_clash(v, "1.9"@, "25w"@, 0);
        lemma_prefixes_clash(v, "1.9"@, "26w"@, 0);
    }
    if seq_starts_with(v, "1.10"@) {
        lemma_prefixes_clash(v, "1.10"@, "1.16"@, 3);
        lemma_prefixes_clash(v, "1.10"@, "1.17"@, 3);
        lemma_prefixes_clash(v, "1.10"@, "1.18"@, 3);
        lemma_prefixes_clash(v, "1.10"@, "1.19"@, 3);
        lemma_prefixes_clash(v, "1.10"@, "1.20"@, 2);
        lemma_prefixes_clash(v, "1.10"@, "1.20.5"@, 2);
        lemma_prefixes_clash(v, "1.10"@, "1.21"@, 2);
        lemma_prefixes_clash(v, "1.10"@, "2"@, 0);
        lemma_prefixes_clash(v, "1.10"@, "24w"@, 0);
        lemma_prefixes_clash(v, "1.10"@, "25w"@, 0);
        lemma_prefixes_clash(v, "1.10"@, "26w"@, 0);
    }
    if seq_starts_with(v, "1.11"@) {
        lemma_prefixes_clash(v, "1.11"@, "1.16"@, 3);
        lemma_prefixes_clash(v, "1.11"@, "1.17"@, 3);
        lemma_prefixes_clash(v, "1.11"@, "1.18"@, 3);
        lemma_prefixes_clash(v, "1.11"@, "1.19"@, 3);
        lemma_prefixes_clash(v, "1.11"@, "1.20"@, 2);
        lemma_prefixes_clash(v, "1.11"@, "1.20.5"@, 2);
        lemma_prefixes_clash(v, "1.11"@, "1.21"@, 2);
        lemma_prefixes_clash(v, "1.11"@, "2"@, 0);
        lemma_prefixes_clash(v, "1.11"@, "24w"@, 0);
        lemma_prefixes_clash(v, "1.11"@, "25w"@, 0);
        lemma_prefixes_clash(v, "1.11"@, "26w"@, 0);
    }
    if seq_starts_with(v, "1.12"@) {
        lemma_prefixes_clash(v, "1.12"@, "1.16"@, 3);
        lemma_prefixes_clash(v, "1.12"@, "1.17"@, 3);
        lemma_prefixes_clash(v, "1.12"@, "1.18"@, 3);
        lemma_prefixes_clash(v, "1.12"@, "1.19"@, 3);
        lemma_prefixes_clash(v, "1.12"@, "1.20"@, 2);
        lemma_prefixes_clash(v, "1.12"@, "1.20.5"@, 2);
        lemma_prefixes_clash(v, "1.12"@, "1.21"@, 2);
        lemma_prefixes_clash(v, "1.12"@, "2"@, 0);
        lemma_prefixes_clash(v, "1.12"@, "24w"@, 0);
        lemma_prefixes_clash(v, "1.12"@, "25w"@, 0);
        lemma_prefixes_clash(v, "1.12"@, "26w"@, 0);
    }
    if seq_starts_with(v, "1.13"@) {
        lemma_prefixes_clash(v, "1.13"@, "1.16"@, 3);
        lemma_prefixes_clash(v, "1.13"@, "1.17"@, 3);
        lemma_prefixes_clash(v, "1.13"@, "1.18"@, 3);
        lemma_prefixes_clash(v, "1.13"@, "1.19"@, 3);
        lemma_prefixes_clash(v, "1.13"@, "1.20"@, 2);
        lemma_prefixes_clash(v, "1.13"@, "1.20.5"@, 2);
        lemma_prefixes_clash(v, "1.13"@, "1.21"@, 2);
        lemma_prefixes_clash(v, "1.13"@, "2"@, 0);
        lemma_prefixes_clash(v, "1.13"@, "24w"@, 0);
        lemma_prefixes_clash(v, "1.13"@, "25w"@, 0);
        lemma_prefixes_clash(v, "1.13"@, "26w"@, 0);
    }
    if seq_starts_with(v, "1.14"@) {
        lemma_prefixes_clash(v, "1.14"@, "1.16"@, 3);
        lemma_prefixes_clash(v, "1.14"@, "1.17"@, 3);
        lemma_prefixes_clash(v, "1.14"@, "1.18"@, 3);
        lemma_prefixes_clash(v, "1.14"@, "1.19"@, 3);
        lemma_prefixes_clash(v, "1.14"@, "1.20"@, 2);
        lemma_prefixes_clash(v, "1.14"@, "1.20.5"@, 2);
        lemma_prefixes_clash(v, "1.14"@, "1.21"@, 2);
        lemma_prefixes_clash(v, "1.14"@, "2"@, 0);
        lemma_prefixes_clash(v, "1.14"@, "24w"@, 0);
        lemma_prefixes_clash(v, "1.14"@, "25w"@, 0);
        lemma_prefixes_clash(v, "1.14"@, "26w"@, 0);
    }
    if seq_starts_with(v, "1.15"@) {
        lemma_prefixes_clash(v, "1.15"@, "1.16"@, 3);
        lemma_prefixes_clash(v, "1.15"@, "1.17"@, 3);
        lemma_prefixes_clash(v, "1.15"@, "1.18"@, 3);
        lemma_prefixes_clash(v, "1.15"@, "1.19"@, 3);
        lemma_prefixes_clash(v, "1.15"@, "1.20"@, 2);
        lemma_prefixes_clash(v, "1.15"@, "1.20.5"@, 2);
        lemma_prefixes_clash(v, "1.15"@, "1.21"@, 2);
        lemma_prefixes_clash(v, "1.15"@, "2"@, 0);
        lemma_prefixes_clash(v, "1.15"@, "24w"@, 0);
        lemma_prefixes_clash(v, "1.15"@, "25w"@, 0);
        lemma_prefixes_clash(v, "1.15"@, "26w"@, 0);
    }
}

/// A text that begins with `p` does not begin with `q` where the two differ at `i`.
proof fn lemma_prefixes_clash(v: Seq<char>, p: Seq<char>, q: Seq<char>, i: int)
    requires
        0 <= i < p.len(),
        i < q.len(),
        p[i] != q[i],
        seq_starts_with(v, p),
    ensures
        !seq_starts_with(v, q),
{
    assert(v.subrange(0, p.len() as int)[i] == v[i]);
    if seq_starts_with(v, q) {
        assert(v.subrange(0, q.len() as int)[i] == v[i]);
    }
}

/// Where the launcher installs the Java runtime of a release.
pub open spec fn local_java_path(java_ver: u32) -> Seq<char> {
    "./run/jre"@ + decimal(java_ver as nat) + "/bin/java"@
}

/// The path of the runtime that the launcher installs for `java_ver`.
pub fn local_java_executable(java_ver: u32) -> (r: String)
    ensures
        r@ == local_java_path(java_ver),
{
    let n = decimal_string(java_ver as u128);
    let a = concat("./run/jre", n.as_str());
    concat(a.as_str(), "/bin/java")
}

/// The Java command: the installed runtime where it is present, else `java` from the
/// system path.
pub fn get_java_executable(java_ver: u32, local_runtime_present: bool) -> (r: String)
    ensures
        local_runtime_present ==> r@ == local_java_path(java_ver),
        !local_runtime_present ==> r@ == "java"@,
{
    if local_runtime_present {
        local_java_executable(java_ver)
    } else {
        string_from("java")
    }
}

/// The collector settings recommended for servers (Aikar's flags).
pub open spec fn aikars_flags_spec() -> Seq<Seq<char>> {
    seq![
        "-XX:+UseG1GC"@,
        "-XX:+ParallelRefProcEnabled"@,
        "-XX:MaxGCPauseMillis=200"@,
        "-XX:+UnlockExperimentalVMOptions"@,
        "-XX:+DisableExplicitGC"@,
        "-XX:+AlwaysPreTouch"@,
        "-XX:G1NewSizePercent=30"@,
        "-XX:G1MaxNewSizePercent=40"@,
        "-XX:G1ReservePercent=15"@,
        "-XX:G1HeapRegionSize=32m"@,
        "-XX:G1MixedGCCountTarget=8"@,
        "-XX:InitiatingHeapOccupancyPercent=15"@,
        "-XX:G1MixedGCLiveThresholdPercent=90"@,
        "-XX:G1RSetUpdatingPauseTimePercent=5"@,
        "-XX:SurvivorRatio=32"@,
        "-XX:+PerfDisableSharedMem"@,
        "-XX:MaxTenuringThreshold=1"@,
    ]
}

pub open spec fn views(v: Seq<String>) -> Seq<Seq<char>> {
    v.map_values(|s: String| s@)
}

fn push_str(v: &mut Vec<String>, s: &str)
    ensures
        views(final(v)@) == views(old(v)@).push(s@),
{
    v.push(string_from(s));
    assert(views(v@) =~= views(old(v)@).push(s@));
}

/// Aikar's flags, in order.
pub fn aikars_flags() -> (r: Vec<String>)
    ensures
        views(r@) == aikars_flags_spec(),
{
    let mut v: Vec<String> = Vec::new();
    push_str(&mut v, "-XX:+UseG1GC");
    push_str(&mut v, "-XX:+ParallelRefProcEnabled");
    push_str(&mut v, "-XX:MaxGCPauseMillis=200");
    push_str(&mut v, "-XX:+UnlockExperimentalVMOptions");
    push_str(&mut v, "-XX:+DisableExplicitGC");
    push_str(&mut v, "-XX:+AlwaysPreTouch");
    push_str(&mut v, "-XX:G1NewSizePercent=30");
    push_str(&mut v, "-XX:G1MaxNewSizePercent=40");
    push_str(&mut v, "-XX:G1ReservePercent=15");
    push_str(&mut v, "-XX:G1HeapRegionSize=32m");
    push_str(&mut v, "-XX:G1MixedGCCountTarget=8");
    push_str(&mut v, "-XX:InitiatingHeapOccupancyPercent=15");
    push_str(&mut v, "-XX:G1MixedGCLiveThresholdPercent=90");
    push_str(&mut v, "-XX:G1RSetUpdatingPauseTimePercent=5");
    push_str(&mut v, "-XX:SurvivorRatio=32");
    push_str(&mut v, "-XX:+PerfDisableSharedMem");
    push_str(&mut v, "-XX:MaxTenuringThreshold=1");
    assert(views(v@) =~= aikars_flags_spec());
    v
}

/// The Java arguments that start the server: the heap bounds (both the profile's
/// memory), Aikar's flags where the profile asks for them, then the jar.
pub open spec fn launch_args_spec(max_ram_gb: u32, aikars: bool) -> Seq<Seq<char>> {
    seq!["-Xms"@ + decimal(max_ram_gb as nat) + "G"@, "-Xmx"@ + decimal(max_ram_gb as nat) + "G"@]
        + (if aikars { aikars_flags_spec() } else { Seq::empty() })
        + seq!["-jar"@, "server.jar"@, "nogui"@]
}

/// The Java arguments for a profile.
pub fn build_launch_args(config: &LauncherConfig) -> (r: Vec<String>)
    ensures
        views(r@) == launch_args_spec(config.max_ram_gb, config.aikars_flags),
{
    let n = decimal_string(config.max_ram_gb as u128);
    let ms0 = concat("-Xms", n.as_str());
    let ms = concat(ms0.as_str(), "G");
    let mx0 = concat("-Xmx", n.as_str());
    let mx = concat(mx0.as_str(), "G");
    let mut args: Vec<String> = Vec::new();
    args.push(ms);
    args.push(mx);
    assert(views(args@) =~= seq![ms@, mx@]);
    if config.aikars_flags {
        let mut flags = aikars_flags();
        let ghost before = args@;
        args.append(&mut flags);
        assert(views(args@) =~= views(before) + aikars_flags_spec());
    }
    push_str(&mut args, "-jar");
    push_str(&mut args, "server.jar");
    push_str(&mut args, "nogui");
    assert(views(args@) =~= launch_args_spec(config.max_ram_gb, config.aikars_flags));
    args
}

/// Texts joined with single spaces between them.
pub open spec fn join_spaced(parts: Seq<Seq<char>>) -> Seq<char>
    decreases parts.len(),
{
    if parts.len() == 0 {
        Seq::empty()
    } else if parts.len() == 1 {
        parts[0]
    } else {
        join_spaced(parts.drop_last()) + " "@ + parts.last()
    }
}

/// The command line that the log shows: the Java command, a space, the arguments
/// joined by spaces.
pub fn full_command(java_exec: &str, args: &Vec<String>) -> (r: String)
    ensures
        r@ == java_exec@ + " "@ + join_spaced(views(args@)),
{
    let mut joined = String::new();
    let mut i: usize = 0;
    while i < args.len()
        invariant
            i <= args@.len(),
            joined@ == join_spaced(views(args@.take(i as int))),
        decreases args.len() - i,
    {
        let ghost prev = views(args@.take(i as int));
        let ghost next = views(args@.take(i + 1));
        assert(next.drop_last() =~= prev);
        assert(next.last() == args@[i as int]@);
        if i > 0 {
            joined.append(" ");
        }
        joined.append(args[i].as_str());
        i = i + 1;
    }
    assert(args@.take(args@.len() as int) =~= args@);
    let head = concat(java_exec, " ");
    concat(head.as_str(), joined.as_str())
}

pub open spec fn bool_text(b: bool) -> Seq<char> {
    if b { "true"@ } else { "false"@ }
}

fn bool_string(b: bool) -> (r: String)
    ensures
        r@ == bool_text(b),
{
    if b { string_from("true") } else { string_from("false") }
}

fn push_kv(v: &mut Vec<String>, key: &str, value: &str)
    ensures
        views(final(v)@) == views(old(v)@).push(key@ + value@),
{
    v.push(concat(key, value));
    assert(views(v@) =~= views(old(v)@).push(key@ + value@));
}

/// The lines of `server.properties` for a profile.
pub open spec fn server_properties_spec(c: LauncherConfig) -> Seq<Seq<char>> {
    seq![
        "#Minecraft server properties"@,
        "server-ip="@ + c.server_ip@,
        "server-port="@ + decimal(c.server_port as nat),
        "online-mode="@ + bool_text(c.online_mode),
        "white-list="@ + bool_text(c.white_list),
        "difficulty="@ + c.difficulty@,
        "pvp="@ + bool_text(c.pvp),
        "spawn-monsters="@ + bool_text(c.spawn_monsters),
        "max-players="@ + decimal(c.max_players as nat),
        "motd=A Minecraft Server Powered by TitanHost"@,
        "view-distance="@ + decimal(c.view_distance as nat),
        "allow-flight="@ + bool_text(c.allow_flight),
        "level-seed="@ + c.level_seed@,
        "spawn-protection="@ + decimal(c.spawn_protection as nat),
        "hardcore="@ + bool_text(c.hardcore),
        "generate-structures="@ + bool_text(c.generate_structures),
        "enable-command-block="@ + bool_text(c.enable_command_block),
        "gamemode="@ + c.gamemode@,
    ]
}

/// Each line of `server.properties` carries the profile's setting of the same name:
/// a switch is written `true` or `false` as the profile has it, and the texts and
/// numbers of the profile follow their keys.
pub proof fn lemma_properties_carry_profile_fields(c: LauncherConfig)
    ensures
        server_properties_spec(c).len() == 18,
        server_properties_spec(c)[1] == "server-ip="@ + c.server_ip@,
        server_properties_spec(c)[2] == "server-port="@ + decimal(c.server_port as nat),
        server_properties_spec(c)[3] == "online-mode="@ + (if c.online_mode { "true"@ } else { "false"@ }),
        server_properties_spec(c)[4] == "white-list="@ + (if c.white_list { "true"@ } else { "false"@ }),
        server_properties_spec(c)[5] == "difficulty="@ + c.difficulty@,
        server_properties_spec(c)[6] == "pvp="@ + (if c.pvp { "true"@ } else { "false"@ }),
        server_properties_spec(c)[7] == "spawn-monsters="@ + (if c.spawn_monsters { "true"@ } else { "false"@ }),
        server_properties_spec(c)[8] == "max-players="@ + decimal(c.max_players as nat),
        server_properties_spec(c)[10] == "view-distance="@ + decimal(c.view_distance as nat),
        server_properties_spec(c)[11] == "allow-flight="@ + (if c.allow_flight { "true"@ } else { "false"@ }),
        server_properties_spec(c)[12] == "level-seed="@ + c.level_seed@,
        server_properties_spec(c)[13] == "spawn-protection="@ + decimal(c.spawn_protection as nat),
        server_properties_spec(c)[14] == "hardcore="@ + (if c.hardcore { "true"@ } else { "false"@ }),
        server_properties_spec(c)[15] == "generate-structures="@ + (if c.generate_structures { "true"@ } else { "false"@ }),
        server_properties_spec(c)[16] == "enable-command-block="@ + (if c.enable_command_block { "true"@ } else { "false"@ }),
        server_properties_spec(c)[17] == "gamemode="@ + c.gamemode@,
{
}

/// Two profiles that differ only in whether the white list is on give files that
/// differ only in the white-list line, and that line differs.
pub proof fn lemma_white_list_line_follows_setting(c: LauncherConfig, d: LauncherConfig)
    requires
        d == (LauncherConfig { white_list: d.white_list, ..c }),
        d.white_list != c.white_list,
    ensures
        server_properties_spec(d) == server_properties_spec(c).update(4, "white-list="@ + (if d.white_list {
            "true"@
        } else {
            "false"@
        })),
        server_properties_spec(d)[4] != server_properties_spec(c)[4],
{
    reveal_strlit("true");
    reveal_strlit("false");
    assert(server_properties_spec(d) =~= server_properties_spec(c).update(4, "white-list="@ + (if d.white_list {
        "true"@
    } else {
        "false"@
    })));
    assert(("white-list="@ + "true"@).len() != ("white-list="@ + "false"@).len());
}

/// The lines of `server.properties` for a profile, one setting a line.
pub fn server_properties_lines(c: &LauncherConfig) -> (r: Vec<String>)
    ensures
        views(r@) == server_properties_spec(*c),
{
    let mut v: Vec<String> = Vec::new();
    push_str(&mut v, "#Minecraft server properties");
    push_kv(&mut v, "server-ip=", c.server_ip.as_str());
    push_kv(&mut v, "server-port=", decimal_string(c.server_port as u128).as_str());
    push_kv(&mut v, "online-mode=", bool_string(c.online_mode).as_str());
    push_kv(&mut v, "white-list=", bool_string(c.white_list).as_str());
    push_kv(&mut v, "difficulty=", c.difficulty.as_str());
    push_kv(&mut v, "pvp=", bool_string(c.pvp).as_str());
    push_kv(&mut v, "spawn-monsters=", bool_string(c.spawn_monsters).as_str());
    push_kv(&mut v, "max-players=", decimal_string(c.max_players as u128).as_str());
    push_str(&mut v, "motd=A Minecraft Server Powered by TitanHost");
    push_kv(&mut v, "view-distance=", decimal_string(c.view_distance as u128).as_str());
    push_kv(&mut v, "allow-flight=", bool_string(c.allow_flight).as_str());
    push_kv(&mut v, "level-seed=", c.level_seed.as_str());
    push_kv(&mut v, "spawn-protection=", decimal_string(c.spawn_protection as u128).as_str());
    push_kv(&mut v, "hardcore=", bool_string(c.hardcore).as_str());
    push_kv(&mut v, "generate-structures=", bool_string(c.generate_structures).as_str());
    push_kv(&mut v, "enable-command-block=", bool_string(c.enable_command_block).as_str());
    push_kv(&mut v, "gamemode=", c.gamemode.as_str());
    assert(views(v@) =~= server_properties_spec(*c));
    v
}

/// The lines of `eula.txt`, which accept the EULA.
pub fn eula_lines() -> (r: Vec<String>)
    ensures
        views(r@) == seq![
            "#By changing the setting below to TRUE you are indicating your agreement to our EULA (https://account.mojang.com/documents/minecraft_eula)."@,
            "eula=true"@,
        ],
{
    let mut v: Vec<String> = Vec::new();
    push_str(&mut v, "#By changing the setting below to TRUE you are indicating your agreement to our EULA (https://account.mojang.com/documents/minecraft_eula).");
    push_str(&mut v, "eula=true");
    v
}

/// The lines of the start script `run.sh`.
pub fn start_script_lines() -> (r: Vec<String>)
    ensures
        views(r@) == seq!["#!/bin/bash"@, "java -Xms2G -Xmx4G -jar server.jar nogui"@],
{
    let mut v: Vec<String> = Vec::new();
    push_str(&mut v, "#!/bin/bash");
    push_str(&mut v, "java -Xms2G -Xmx4G -jar server.jar nogui");
    v
}

/// The lines of the start script `run.bat` on Windows.
pub fn start_batch_lines() -> (r: Vec<String>)
    ensures
        views(r@) == seq!["@echo off"@, "java -Xms2G -Xmx4G -jar server.jar nogui"@, "pause"@],
{
    let mut v: Vec<String> = Vec::new();
    push_str(&mut v, "@echo off");
    push_str(&mut v, "java -Xms2G -Xmx4G -jar server.jar nogui");
    push_str(&mut v, "pause");
    v
}


/// The stream of the server's output that a line came from.
#[derive(Clone, Copy, Debug, PartialEq, Eq, Structural)]
pub enum OutputStream {
    Stdout,
    Stderr,
}

pub open spec fn stream_tag(s: OutputStream) -> Seq<char> {
    match s {
        OutputStream::Stdout => "GAME-OUT"@,
        OutputStream::Stderr => "GAME-ERR"@,
    }
}

/// What a line of the server's output becomes, once trimmed: nothing when it is
/// empty, else the line for the output log file (`[TAG] text`) and the message for
/// the window (`LOG: [TAG] text`).
pub fn stream_line(stream: OutputStream, raw: &str) -> (r: Option<(String, String)>)
    ensures
        trim_spec(raw@).len() == 0 ==> r.is_none(),
        trim_spec(raw@).len() > 0 ==> (r matches Some((f, m)) && f@ == "["@ + stream_tag(stream) + "] "@
            + trim_spec(raw@) && m@ == "LOG: ["@ + stream_tag(stream) + "] "@ + trim_spec(raw@)),
{
    let t = trim(raw);
    if t.as_str().unicode_len() == 0 {
        return None;
    }
    let tag = match stream {
        OutputStream::Stdout => "[GAME-OUT] ",
        OutputStream::Stderr => "[GAME-ERR] ",
    };
    proof {
        reveal_strlit("[GAME-OUT] ");
        reveal_strlit("[GAME-ERR] ");
        reveal_strlit("GAME-OUT");
        reveal_strlit("GAME-ERR");
        reveal_strlit("[");
        reveal_strlit("] ");
        reveal_strlit("LOG: [");
        reveal_strlit("LOG: ");
    }
    let file_line = concat(tag, t.as_str());
    let message = concat("LOG: ", file_line.as_str());
    assert(file_line@ =~= "["@ + stream_tag(stream) + "] "@ + t@);
    assert(message@ =~= "LOG: ["@ + stream_tag(stream) + "] "@ + t@);
    Some((file_line, message))
}

/// The check before the server process starts: the server jar must be there.
pub fn launch_precheck(server_jar_exists: bool) -> (r: Result<(), AppError>)
    ensures
        server_jar_exists ==> r is Ok,
        !server_jar_exists ==> (r matches Err(AppError::Process(m)) && m@
            == "JAR-файл сервера не найден: './run/server.jar'"@),
{
    if server_jar_exists {
        Ok(())
    } else {
        Err(AppError::Process(string_from("JAR-файл сервера не найден: './run/server.jar'")))
    }
}

} // verus!
