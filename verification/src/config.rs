use vstd::prelude::*;
use crate::models::{LauncherConfig, Profile, ProfilesData, is_default_config};
use crate::numbers::{decimal, decimal_string};
use crate::text::{concat, str_eq, string_from, trim, trim_spec};

verus! {

/// No two profiles share a name.
pub open spec fn profiles_wf(ps: Seq<Profile>) -> bool {
    forall|i: int, j: int|
        0 <= i < ps.len() && 0 <= j < ps.len() && i != j ==> #[trigger] ps[i].name@ != #[trigger] ps[j].name@
}

pub open spec fn has_profile(ps: Seq<Profile>, name: Seq<char>) -> bool {
    exists|i: int| 0 <= i < ps.len() && #[trigger] ps[i].name@ == name
}

/// The settings stored under `name`, if any.
pub open spec fn config_for(ps: Seq<Profile>, name: Seq<char>) -> Option<LauncherConfig> {
    if has_profile(ps, name) {
        Some(ps[choose|i: int| 0 <= i < ps.len() && #[trigger] ps[i].name@ == name].config)
    } else {
        None
    }
}

/// The profiles after storing `p`: it replaces the profile of the same name, or
/// comes last.
pub open spec fn insert_spec(ps: Seq<Profile>, p: Profile) -> Seq<Profile> {
    if has_profile(ps, p.name@) {
        ps.update(choose|i: int| 0 <= i < ps.len() && #[trigger] ps[i].name@ == p.name@, p)
    } else {
        ps.push(p)
    }
}

/// The position of the profile called `name`.
pub fn find_profile(profiles: &Vec<Profile>, name: &str) -> (r: Option<usize>)
    ensures
        match r {
            Some(i) => i < profiles@.len() && profiles@[i as int].name@ == name@,
            None => !has_profile(profiles@, name@),
        },
{
    let mut i: usize = 0;
    while i < profiles.len()
        invariant
            i <= profiles@.len(),
            forall|k: int| 0 <= k < i ==> #[trigger] profiles@[k].name@ != name@,
        decreases profiles.len() - i,
    {
        if str_eq(profiles[i].name.as_str(), name) {
            return Some(i);
        }
        i = i + 1;
    }
    None
}

proof fn lemma_unique_index(ps: Seq<Profile>, name: Seq<char>, i: int)
    requires
        profiles_wf(ps),
        0 <= i < ps.len(),
        ps[i].name@ == name,
    ensures
        has_profile(ps, name),
        (choose|j: int| 0 <= j < ps.len() && #[trigger] ps[j].name@ == name) == i,
{
    let j = choose|j: int| 0 <= j < ps.len() && #[trigger] ps[j].name@ == name;
    assert(0 <= j < ps.len() && ps[j].name@ == name);
    if j != i {
        assert(ps[i].name@ != ps[j].name@);
    }
}

/// Stores `config` under `name`, replacing the settings that the name had.
pub fn insert_profile(profiles: &mut Vec<Profile>, name: String, config: LauncherConfig)
    requires
        profiles_wf(old(profiles)@),
    ensures
        final(profiles)@ == insert_spec(old(profiles)@, Profile { name, config }),
        profiles_wf(final(profiles)@),
{
    let ghost p = Profile { name, config };
    match find_profile(profiles, name.as_str()) {
        Some(i) => {
            proof {
                lemma_unique_index(profiles@, name@, i as int);
            }
            let _old = profiles.remove(i);
            profiles.insert(i, Profile { name, config });
            assert(profiles@ =~= old(profiles)@.update(i as int, p));
            assert forall|a: int, b: int|
                0 <= a < profiles@.len() && 0 <= b < profiles@.len() && a != b implies
                #[trigger] profiles@[a].name@ != #[trigger] profiles@[b].name@ by {
                if a != i && b != i {
                    assert(old(profiles)@[a].name@ != old(profiles)@[b].name@);
                } else if a == i {
                    assert(old(profiles)@[i as int].name@ != old(profiles)@[b].name@);
                } else {
                    assert(old(profiles)@[a].name@ != old(profiles)@[i as int].name@);
                }
            };
        },
        None => {
            profiles.push(Profile { name, config });
            assert forall|a: int, b: int|
                0 <= a < profiles@.len() && 0 <= b < profiles@.len() && a != b implies
                #[trigger] profiles@[a].name@ != #[trigger] profiles@[b].name@ by {
                let n = old(profiles)@.len() as int;
                if a == n {
                    assert(old(profiles)@[b].name@ != name@);
                } else if b == n {
                    assert(old(profiles)@[a].name@ != name@);
                } else {
                    assert(old(profiles)@[a].name@ != old(profiles)@[b].name@);
                }
            };
        },
    }
}

/// What is stored under a name is what a lookup of that name gives; the other names
/// keep what they had.
pub proof fn lemma_store_then_lookup(ps: Seq<Profile>, p: Profile, other: Seq<char>)
    requires
        profiles_wf(ps),
    ensures
        profiles_wf(insert_spec(ps, p)),
        config_for(insert_spec(ps, p), p.name@) == Some(p.config),
        other != p.name@ ==> config_for(insert_spec(ps, p), other) == config_for(ps, other),
{
    let qs = insert_spec(ps, p);
    let k: int = if has_profile(ps, p.name@) {
        choose|i: int| 0 <= i < ps.len() && #[trigger] ps[i].name@ == p.name@
    } else {
        ps.len() as int
    };
    assert(0 <= k < qs.len() && qs[k] == p);
    assert(forall|i: int| 0 <= i < qs.len() && i != k ==> #[trigger] qs[i] == ps[i]);
    assert forall|a: int, b: int|
        0 <= a < qs.len() && 0 <= b < qs.len() && a != b implies
        #[trigger] qs[a].name@ != #[trigger] qs[b].name@ by {
        if a != k && b != k {
            assert(ps[a].name@ != ps[b].name@);
        } else if a == k && has_profile(ps, p.name@) {
            assert(ps[k].name@ != ps[b].name@);
        } else if b == k && has_profile(ps, p.name@) {
            assert(ps[a].name@ != ps[k].name@);
        } else if a == k {
            assert(!(0 <= b < ps.len() && ps[b].name@ == p.name@));
        } else {
            assert(!(0 <= a < ps.len() && ps[a].name@ == p.name@));
        }
    };
    lemma_unique_index(qs, p.name@, k);
    if other != p.name@ {
        if has_profile(ps, other) {
            let j = choose|j: int| 0 <= j < ps.len() && #[trigger] ps[j].name@ == other;
            assert(j != k);
            assert(qs[j] == ps[j]);
            lemma_unique_index(ps, other, j);
            lemma_unique_index(qs, other, j);
        } else {
            assert forall|j: int| 0 <= j < qs.len() implies #[trigger] qs[j].name@ != other by {
                if j != k {
                    assert(qs[j] == ps[j]);
                }
            };
        }
    }
}

/// Selects `name` and stores `config` under it, as saving the current profile does.
pub fn store_selected_profile(data: &mut ProfilesData, name: String, config: LauncherConfig)
    requires
        profiles_wf(old(data).profiles@),
    ensures
        final(data).selected_profile@ == name@,
        final(data).profiles@ == insert_spec(old(data).profiles@, Profile { name, config }),
        profiles_wf(final(data).profiles@),
{
    let selected = name.clone();
    insert_profile(&mut data.profiles, name, config);
    data.selected_profile = selected;
}

pub open spec fn min_u32(a: u32, b: u32) -> u32 {
    if a <= b { a } else { b }
}

pub open spec fn max_u32(a: u32, b: u32) -> u32 {
    if a >= b { a } else { b }
}

/// The memory that a profile is given by default: 2 GB (at most what there is, at
/// least 1) on machines of up to 4 GB, else all but 3 GB, at least 2.
pub open spec fn auto_ram_spec(total_ram: u32) -> u32 {
    if total_ram <= 4 {
        max_u32(min_u32(2, total_ram), 1)
    } else {
        max_u32(if total_ram >= 3 { (total_ram - 3) as u32 } else { 0 }, 2)
    }
}

/// The memory preset for a machine with `total_ram` GB.
pub fn auto_ram_preset(total_ram: u32) -> (r: u32)
    ensures
        r == auto_ram_spec(total_ram),
{
    if total_ram <= 4 {
        let m = if 2 <= total_ram { 2 } else { total_ram };
        if m >= 1 { m } else { 1 }
    } else {
        let m = total_ram.saturating_sub(3);
        if m >= 2 { m } else { 2 }
    }
}

/// The most memory a loaded profile may keep: what the machine has, but never less
/// than 16 GB.
pub open spec fn ram_limit(total_ram: u32) -> u32 {
    max_u32(total_ram, 16)
}

/// A profile's settings after fitting its memory to the machine.
pub open spec fn adapted_config(c: LauncherConfig, total_ram: u32) -> LauncherConfig {
    if c.max_ram_gb > ram_limit(total_ram) {
        LauncherConfig {
            max_ram_gb: max_u32(min_u32(ram_limit(total_ram), c.max_ram_gb), 1),
            ..c
        }
    } else {
        c
    }
}

/// Fits a profile's memory to the machine; tells whether it had to change.
pub fn adapt_config_ram(config: &mut LauncherConfig, total_ram: u32) -> (changed: bool)
    ensures
        *final(config) == adapted_config(*old(config), total_ram),
        changed == (old(config).max_ram_gb > ram_limit(total_ram)),
{
    let limit = if total_ram >= 16 { total_ram } else { 16 };
    if config.max_ram_gb > limit {
        let m = if limit <= config.max_ram_gb { limit } else { config.max_ram_gb };
        config.max_ram_gb = if m >= 1 { m } else { 1 };
        true
    } else {
        false
    }
}

/// The log line for a profile whose memory was fitted.
pub open spec fn adapted_line(name: Seq<char>) -> Seq<char> {
    "\n⚠️ Профиль '"@ + name + "' адаптирован под текущее ОЗУ."@
}

/// The log lines for the profiles of `ps` whose memory is fitted.
pub open spec fn adaptation_log(ps: Seq<Profile>, total_ram: u32) -> Seq<char>
    decreases ps.len(),
{
    if ps.len() == 0 {
        Seq::empty()
    } else {
        adaptation_log(ps.drop_last(), total_ram) + if ps.last().config.max_ram_gb > ram_limit(
            total_ram,
        ) {
            adapted_line(ps.last().name@)
        } else {
            Seq::empty()
        }
    }
}

pub open spec fn adapted_profile(p: Profile, total_ram: u32) -> Profile {
    Profile { name: p.name, config: adapted_config(p.config, total_ram) }
}

/// Fits the memory of every profile to the machine, and gives the log lines for the
/// ones that changed.
pub fn adapt_profiles_ram(profiles: &mut Vec<Profile>, total_ram: u32) -> (log: String)
    ensures
        final(profiles)@.len() == old(profiles)@.len(),
        forall|i: int| 0 <= i < old(profiles)@.len() ==> #[trigger] final(profiles)@[i]
            == adapted_profile(old(profiles)@[i], total_ram),
        log@ == adaptation_log(old(profiles)@, total_ram),
{
    let ghost orig = profiles@;
    let mut rest: Vec<Profile> = Vec::new();
    rest.append(profiles);
    let mut out: Vec<Profile> = Vec::new();
    let mut log = String::new();
    while rest.len() > 0
        invariant
            out@.len() + rest@.len() == orig.len(),
            rest@ == orig.skip(out@.len() as int),
            forall|i: int| 0 <= i < out@.len() ==> #[trigger] out@[i] == adapted_profile(
                orig[i],
                total_ram,
            ),
            log@ == adaptation_log(orig.take(out@.len() as int), total_ram),
        decreases rest@.len(),
    {
        let ghost k = out@.len() as int;
        let mut p = rest.remove(0);
        assert(p == orig[k]);
        let changed = adapt_config_ram(&mut p.config, total_ram);
        if changed {
            let line = concat("\n⚠️ Профиль '", p.name.as_str());
            let line2 = concat(line.as_str(), "' адаптирован под текущее ОЗУ.");
            log.append(line2.as_str());
        }
        assert(orig.take(k + 1).drop_last() =~= orig.take(k));
        assert(orig.take(k + 1).last() == orig[k]);
        out.push(p);
        assert(rest@ =~= orig.skip(out@.len() as int));
    }
    assert(orig.take(orig.len() as int) =~= orig);
    profiles.append(&mut out);
    log
}

/// Where the loaded profiles came from.
#[derive(Clone, Copy, Debug, PartialEq, Eq, Structural)]
pub enum ProfilesSource {
    /// `profiles.json` was read.
    Loaded,
    /// The legacy `profile.json` was read; the new file is to be written and the old
    /// one removed.
    Migrated,
    /// Neither file was there; the new file is to be written.
    Created,
}

/// The profiles to start with, the log line that says where they came from, and
/// what is left to write.
#[derive(Debug)]
pub struct ProfilesLoad {
    pub data: ProfilesData,
    pub log: String,
    pub source: ProfilesSource,
}

/// The name of the profile that a migrated or new configuration gets.
pub open spec fn first_profile_name() -> Seq<char> {
    "Forge Pack"@
}

/// Chooses the profiles to start with: those read from `profiles.json`, else the
/// legacy single profile, else a new default profile sized to the machine.
pub fn resolve_profiles(
    loaded: Option<ProfilesData>,
    legacy: Option<LauncherConfig>,
    total_ram: u32,
) -> (r: ProfilesLoad)
    requires
        loaded matches Some(d) ==> profiles_wf(d.profiles@),
    ensures
        profiles_wf(r.data.profiles@),
        match loaded {
            Some(d) => {
                &&& r.source == ProfilesSource::Loaded
                &&& r.data.selected_profile == d.selected_profile
                &&& r.data.profiles@.len() == d.profiles@.len()
                &&& forall|i: int| 0 <= i < d.profiles@.len() ==> #[trigger] r.data.profiles@[i]
                    == adapted_profile(d.profiles@[i], total_ram)
                &&& r.log@ == "✅ Успешно загружен список профилей из profiles.json"@
                    + adaptation_log(d.profiles@, total_ram)
            },
            None => match legacy {
                Some(c) => {
                    &&& r.source == ProfilesSource::Migrated
                    &&& r.data.selected_profile@ == first_profile_name()
                    &&& r.data.profiles@.len() == 1
                    &&& r.data.profiles@[0].name@ == first_profile_name()
                    &&& r.data.profiles@[0].config == adapted_config(c, total_ram)
                    &&& r.log@ == "✅ Старый профиль 'profile.json' перенесен в новый формат."@
                },
                None => {
                    &&& r.source == ProfilesSource::Created
                    &&& r.data.selected_profile@ == first_profile_name()
                    &&& r.data.profiles@.len() == 1
                    &&& r.data.profiles@[0].name@ == first_profile_name()
                    &&& is_default_config(
                        LauncherConfig { max_ram_gb: 4, ..r.data.profiles@[0].config },
                    )
                    &&& r.data.profiles@[0].config.max_ram_gb == auto_ram_spec(total_ram)
                    &&& r.log@ == "ℹ️ Создана новая конфигурация профилей profiles.json"@
                },
            },
        },
{
    match loaded {
        Some(mut d) => {
            let lines = adapt_profiles_ram(&mut d.profiles, total_ram);
            let log = concat("✅ Успешно загружен список профилей из profiles.json", lines.as_str());
            proof {
                assert forall|a: int, b: int|
                    0 <= a < d.profiles@.len() && 0 <= b < d.profiles@.len() && a != b implies
                    #[trigger] d.profiles@[a].name@ != #[trigger] d.profiles@[b].name@ by {
                    assert(loaded->0.profiles@[a].name@ != loaded->0.profiles@[b].name@);
                };
            }
            ProfilesLoad { data: d, log, source: ProfilesSource::Loaded }
        },
        None => match legacy {
            Some(mut c) => {
                let _ = adapt_config_ram(&mut c, total_ram);
                let mut profiles: Vec<Profile> = Vec::new();
                profiles.push(Profile { name: string_from("Forge Pack"), config: c });
                let data = ProfilesData { selected_profile: string_from("Forge Pack"), profiles };
                ProfilesLoad {
                    data,
                    log: string_from("✅ Старый профиль 'profile.json' перенесен в новый формат."),
                    source: ProfilesSource::Migrated,
                }
            },
            None => {
                let mut c = LauncherConfig::default();
                c.max_ram_gb = auto_ram_preset(total_ram);
                let mut profiles: Vec<Profile> = Vec::new();
                profiles.push(Profile { name: string_from("Forge Pack"), config: c });
                let data = ProfilesData { selected_profile: string_from("Forge Pack"), profiles };
                ProfilesLoad {
                    data,
                    log: string_from("ℹ️ Создана новая конфигурация профилей profiles.json"),
                    source: ProfilesSource::Created,
                }
            },
        },
    }
}


/// The profiles without the one called `name` (unchanged if there is none).
pub open spec fn remove_spec(ps: Seq<Profile>, name: Seq<char>) -> Seq<Profile> {
    if has_profile(ps, name) {
        ps.remove(choose|i: int| 0 <= i < ps.len() && #[trigger] ps[i].name@ == name)
    } else {
        ps
    }
}

/// After a profile is removed no lookup finds it, every other name keeps its
/// settings, and names stay unique.
pub proof fn lemma_remove_then_lookup(ps: Seq<Profile>, name: Seq<char>, other: Seq<char>)
    requires
        profiles_wf(ps),
    ensures
        profiles_wf(remove_spec(ps, name)),
        config_for(remove_spec(ps, name), name).is_none(),
        other != name ==> config_for(remove_spec(ps, name), other) == config_for(ps, other),
{
    if has_profile(ps, name) {
        let k = choose|i: int| 0 <= i < ps.len() && #[trigger] ps[i].name@ == name;
        let qs = ps.remove(k);
        assert forall|a: int, b: int|
            0 <= a < qs.len() && 0 <= b < qs.len() && a != b implies
            #[trigger] qs[a].name@ != #[trigger] qs[b].name@ by {
            let a2 = if a < k { a } else { a + 1 };
            let b2 = if b < k { b } else { b + 1 };
            assert(qs[a] == ps[a2] && qs[b] == ps[b2]);
            assert(ps[a2].name@ != ps[b2].name@);
        };
        assert forall|j: int| 0 <= j < qs.len() implies #[trigger] qs[j].name@ != name by {
            let j2 = if j < k { j } else { j + 1 };
            assert(qs[j] == ps[j2]);
            assert(j2 != k);
            assert(ps[j2].name@ != ps[k].name@);
        };
        if other != name && has_profile(ps, other) {
            let m = choose|j: int| 0 <= j < ps.len() && #[trigger] ps[j].name@ == other;
            assert(m != k);
            let m2 = if m < k { m } else { m - 1 };
            assert(qs[m2] == ps[m]);
            lemma_unique_index(ps, other, m);
            lemma_unique_index(qs, other, m2);
        } else if other != name {
            assert forall|j: int| 0 <= j < qs.len() implies #[trigger] qs[j].name@ != other by {
                let j2 = if j < k { j } else { j + 1 };
                assert(qs[j] == ps[j2]);
            };
        }
    }
}

/// Creates a profile with the default settings under the typed name (without
/// surrounding white space), replacing a profile of that name, and selects it;
/// nothing changes for an empty name.
pub fn create_profile(data: &mut ProfilesData, raw_name: &str) -> (created: bool)
    requires
        profiles_wf(old(data).profiles@),
    ensures
        created == (trim_spec(raw_name@).len() > 0),
        !created ==> *final(data) == *old(data),
        created ==> {
            &&& final(data).selected_profile@ == trim_spec(raw_name@)
            &&& profiles_wf(final(data).profiles@)
            &&& config_for(final(data).profiles@, trim_spec(raw_name@)) matches Some(c) && is_default_config(c)
            &&& forall|other: Seq<char>| other != trim_spec(raw_name@) ==> #[trigger] config_for(
                final(data).profiles@,
                other,
            ) == config_for(old(data).profiles@, other)
        },
{
    let name = trim(raw_name);
    if name.as_str().unicode_len() == 0 {
        return false;
    }
    let ghost n = name;
    let config = LauncherConfig::default();
    let ghost c = config;
    store_selected_profile(data, name, config);
    proof {
        assert forall|other: Seq<char>| other != trim_spec(raw_name@) implies #[trigger] config_for(
            data.profiles@,
            other,
        ) == config_for(old(data).profiles@, other) by {
            lemma_store_then_lookup(old(data).profiles@, Profile { name: n, config: c }, other);
        };
        lemma_store_then_lookup(old(data).profiles@, Profile { name: n, config: c }, n@);
    }
    true
}

/// Removes the selected profile, when more than one is left, and selects the first
/// of the others.
pub fn delete_selected_profile(data: &mut ProfilesData) -> (deleted: bool)
    requires
        profiles_wf(old(data).profiles@),
    ensures
        deleted == (old(data).profiles@.len() > 1),
        !deleted ==> *final(data) == *old(data),
        deleted ==> {
            &&& final(data).profiles@ == remove_spec(old(data).profiles@, old(data).selected_profile@)
            &&& profiles_wf(final(data).profiles@)
            &&& final(data).profiles@.len() > 0
            &&& final(data).selected_profile@ == final(data).profiles@[0].name@
        },
{
    if data.profiles.len() <= 1 {
        return false;
    }
    proof {
        lemma_remove_then_lookup(data.profiles@, data.selected_profile@, data.selected_profile@);
    }
    match find_profile(&data.profiles, data.selected_profile.as_str()) {
        Some(i) => {
            proof {
                lemma_unique_index(data.profiles@, data.selected_profile@, i as int);
            }
            let _removed = data.profiles.remove(i);
        },
        None => {},
    }
    let first = data.profiles[0].name.clone();
    data.selected_profile = first;
    true
}

/// The status and the log line after the memory preset was applied.
pub fn ram_preset_messages(gb: u32) -> (r: (String, String))
    ensures
        r.0@ == "Умный пресет: "@ + decimal(gb as nat) + " ГБ"@,
        r.1@ == "[ОЗУ] Установлено оптимальное выделение ОЗУ: "@ + decimal(gb as nat) + " ГБ"@,
{
    let n = decimal_string(gb as u128);
    let a = concat("Умный пресет: ", n.as_str());
    let b = concat("[ОЗУ] Установлено оптимальное выделение ОЗУ: ", n.as_str());
    (concat(a.as_str(), " ГБ"), concat(b.as_str(), " ГБ"))
}


/// Fitting a profile's memory leaves at most what the limit allows and at least one
/// gigabyte of what was set, and fitting it again changes nothing.
pub proof fn lemma_adapt_fits(c: LauncherConfig, total_ram: u32)
    ensures
        adapted_config(c, total_ram).max_ram_gb <= ram_limit(total_ram),
        c.max_ram_gb <= ram_limit(total_ram) ==> adapted_config(c, total_ram) == c,
        adapted_config(adapted_config(c, total_ram), total_ram) == adapted_config(c, total_ram),
{
}

/// The memory preset is at least one gigabyte, and never more than the machine
/// has (when it has any).
pub proof fn lemma_ram_preset_bounds(total_ram: u32)
    ensures
        auto_ram_spec(total_ram) >= 1,
        total_ram >= 1 ==> auto_ram_spec(total_ram) <= total_ram,
        total_ram > 4 ==> auto_ram_spec(total_ram) == total_ram - 3,
{
}

} // verus!
