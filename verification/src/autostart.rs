//! Starting the application at login. On Linux this is an XDG autostart entry,
//! `$XDG_CONFIG_HOME/autostart/BlurAutoClicker.desktop` (or under
//! `$HOME/.config`); on Windows a value named after the application under the
//! user's `Run` registry key. A portable installation never registers itself.
//! Paths are handled as the raw bytes of the operating system's strings.
use vstd::prelude::*;

use vstd::string::StringExecFns;

verus! {

/// The byte `/`, which separates path components.
pub const SEPARATOR: u8 = 0x2f;

/// `.config`
pub open spec fn config_dir_name() -> Seq<u8> {
    seq![0x2eu8, 0x63, 0x6f, 0x6e, 0x66, 0x69, 0x67]
}

/// `autostart`
pub open spec fn autostart_dir_name() -> Seq<u8> {
    seq![0x61u8, 0x75, 0x74, 0x6f, 0x73, 0x74, 0x61, 0x72, 0x74]
}

/// `BlurAutoClicker.desktop`
pub open spec fn entry_file_name() -> Seq<u8> {
    seq![
        0x42u8, 0x6c, 0x75, 0x72, 0x41, 0x75, 0x74, 0x6f, 0x43, 0x6c, 0x69, 0x63, 0x6b, 0x65, 0x72,
        0x2e, 0x64, 0x65, 0x73, 0x6b, 0x74, 0x6f, 0x70,
    ]
}

/// `base` joined with the relative component `name`: a separator goes between
/// them unless `base` is empty or already ends with one.
pub open spec fn joined(base: Seq<u8>, name: Seq<u8>) -> Seq<u8> {
    if base.len() > 0 && base.last() != SEPARATOR {
        base.push(SEPARATOR) + name
    } else {
        base + name
    }
}

/// The user's configuration directory: `$XDG_CONFIG_HOME` when it is set,
/// otherwise `$HOME/.config`; none when neither is set.
pub open spec fn config_home(xdg_config_home: Option<Seq<u8>>, home: Option<Seq<u8>>) -> Option<
    Seq<u8>,
> {
    match xdg_config_home {
        Some(dir) => Some(dir),
        None => match home {
            Some(h) => Some(joined(h, config_dir_name())),
            None => None,
        },
    }
}

/// The directory that holds autostart entries.
pub open spec fn autostart_dir_path(xdg_config_home: Option<Seq<u8>>, home: Option<Seq<u8>>) -> Option<
    Seq<u8>,
> {
    match config_home(xdg_config_home, home) {
        Some(c) => Some(joined(c, autostart_dir_name())),
        None => None,
    }
}

/// The application's autostart entry.
pub open spec fn autostart_file_path(xdg_config_home: Option<Seq<u8>>, home: Option<Seq<u8>>) -> Option<
    Seq<u8>,
> {
    match autostart_dir_path(xdg_config_home, home) {
        Some(d) => Some(joined(d, entry_file_name())),
        None => None,
    }
}

pub open spec fn view_bytes(v: Option<Vec<u8>>) -> Option<Seq<u8>> {
    match v {
        Some(b) => Some(b@),
        None => None,
    }
}

fn join_path(base: &Vec<u8>, name: &Vec<u8>) -> (r: Vec<u8>)
    ensures
        r@ == joined(base@, name@),
{
    let mut r: Vec<u8> = Vec::new();
    let mut i: usize = 0;
    while i < base.len()
        invariant
            i <= base@.len(),
            r@ == base@.take(i as int),
        decreases base@.len() - i,
    {
        r.push(base[i]);
        assert(base@.take(i + 1) == base@.take(i as int).push(base@[i as int]));
        i = i + 1;
    }
    assert(base@.take(base@.len() as int) == base@);
    if base.len() > 0 && base[base.len() - 1] != SEPARATOR {
        r.push(SEPARATOR);
    }
    let ghost prefix = r@;
    let mut j: usize = 0;
    while j < name.len()
        invariant
            j <= name@.len(),
            r@ == prefix + name@.take(j as int),
        decreases name@.len() - j,
    {
        r.push(name[j]);
        assert(name@.take(j + 1) == name@.take(j as int).push(name@[j as int]));
        j = j + 1;
    }
    assert(name@.take(name@.len() as int) == name@);
    r
}

fn config_dir_name_bytes() -> (r: Vec<u8>)
    ensures
        r@ == config_dir_name(),
{
    let r: Vec<u8> = vec![0x2e, 0x63, 0x6f, 0x6e, 0x66, 0x69, 0x67];
    assert(r@ == config_dir_name());
    r
}

fn autostart_dir_name_bytes() -> (r: Vec<u8>)
    ensures
        r@ == autostart_dir_name(),
{
    let r: Vec<u8> = vec![0x61, 0x75, 0x74, 0x6f, 0x73, 0x74, 0x61, 0x72, 0x74];
    assert(r@ == autostart_dir_name());
    r
}

fn entry_file_name_bytes() -> (r: Vec<u8>)
    ensures
        r@ == entry_file_name(),
{
    let r: Vec<u8> = vec![
        0x42, 0x6c, 0x75, 0x72, 0x41, 0x75, 0x74, 0x6f, 0x43, 0x6c, 0x69, 0x63, 0x6b, 0x65, 0x72,
        0x2e, 0x64, 0x65, 0x73, 0x6b, 0x74, 0x6f, 0x70,
    ];
    assert(r@ == entry_file_name());
    r
}

/// The directory of autostart entries, from the values of `XDG_CONFIG_HOME`
/// and `HOME`.
pub fn autostart_dir(xdg_config_home: Option<Vec<u8>>, home: Option<Vec<u8>>) -> (r: Option<
    Vec<u8>,
>)
    ensures
        view_bytes(r) == autostart_dir_path(view_bytes(xdg_config_home), view_bytes(home)),
{
    let config = match xdg_config_home {
        Some(dir) => dir,
        None => match home {
            Some(h) => join_path(&h, &config_dir_name_bytes()),
            None => {
                return None;
            },
        },
    };
    Some(join_path(&config, &autostart_dir_name_bytes()))
}

/// The application's autostart entry, from the values of `XDG_CONFIG_HOME` and `HOME`.
pub fn autostart_file(xdg_config_home: Option<Vec<u8>>, home: Option<Vec<u8>>) -> (r: Option<
    Vec<u8>,
>)
    ensures
        view_bytes(r) == autostart_file_path(view_bytes(xdg_config_home), view_bytes(home)),
{
    match autostart_dir(xdg_config_home, home) {
        Some(dir) => Some(join_path(&dir, &entry_file_name_bytes())),
        None => None,
    }
}

/// The application starts at login: never for a portable installation,
/// otherwise when its autostart entry exists.
pub open spec fn autostart_enabled(portable: bool, entry_exists: bool) -> bool {
    !portable && entry_exists
}

/// Whether the application starts at login: never for a portable installation,
/// otherwise when its autostart entry exists.
pub fn get_autostart_enabled(portable: bool, entry_exists: bool) -> (enabled: bool)
    ensures
        enabled == autostart_enabled(portable, entry_exists),
{
    if portable {
        return false;
    }
    entry_exists
}

/// What registering or unregistering the application for login takes.
pub enum AutostartPlan {
    /// Portable installation: nothing is written.
    Skip,
    /// The location of autostart entries is unknown: fails as not found.
    MissingLocation,
    /// Write the entry `file`, creating `dir` (the directory that holds it) first.
    Install { dir: Vec<u8>, file: Vec<u8> },
    /// Remove the entry `file`; a missing file is not an error.
    Remove { file: Vec<u8> },
}

/// The autostart entries that exist after turning starting at login on or off,
/// when `entries` existed before and the write or removal succeeds: the
/// application's entry is added or removed; a portable installation, or an
/// unknown location, changes nothing.
pub open spec fn entries_after(
    portable: bool,
    enabled: bool,
    xdg_config_home: Option<Seq<u8>>,
    home: Option<Seq<u8>>,
    entries: Set<Seq<u8>>,
) -> Set<Seq<u8>> {
    if portable {
        entries
    } else {
        match autostart_file_path(xdg_config_home, home) {
            Some(f) => if enabled {
                entries.insert(f)
            } else {
                entries.remove(f)
            },
            None => entries,
        }
    }
}

/// The entries that exist after a plan is carried out successfully.
pub open spec fn plan_applied(plan: AutostartPlan, entries: Set<Seq<u8>>) -> Set<Seq<u8>> {
    match plan {
        AutostartPlan::Install { file, .. } => entries.insert(file@),
        AutostartPlan::Remove { file } => entries.remove(file@),
        _ => entries,
    }
}

/// Decides how to turn starting at login on or off, from the values of
/// `XDG_CONFIG_HOME` and `HOME`.
pub fn set_autostart_enabled(
    portable: bool,
    enabled: bool,
    xdg_config_home: Option<Vec<u8>>,
    home: Option<Vec<u8>>,
) -> (plan: AutostartPlan)
    ensures
        portable ==> plan is Skip,
        !portable && autostart_file_path(view_bytes(xdg_config_home), view_bytes(home)) is None
            ==> plan is MissingLocation,
        !portable && enabled && autostart_file_path(view_bytes(xdg_config_home), view_bytes(home))
            is Some ==> (plan matches AutostartPlan::Install { dir, file } && Some(dir@)
            == autostart_dir_path(view_bytes(xdg_config_home), view_bytes(home)) && Some(file@)
            == autostart_file_path(view_bytes(xdg_config_home), view_bytes(home))),
        !portable && !enabled && autostart_file_path(view_bytes(xdg_config_home), view_bytes(home))
            is Some ==> (plan matches AutostartPlan::Remove { file } && Some(file@)
            == autostart_file_path(view_bytes(xdg_config_home), view_bytes(home))),
        forall|entries: Set<Seq<u8>>|
            #[trigger] plan_applied(plan, entries) == entries_after(
                portable,
                enabled,
                view_bytes(xdg_config_home),
                view_bytes(home),
                entries,
            ),
{
    if portable {
        return AutostartPlan::Skip;
    }
    match autostart_dir(xdg_config_home, home) {
        None => AutostartPlan::MissingLocation,
        Some(dir) => {
            let file = join_path(&dir, &entry_file_name_bytes());
            if enabled {
                AutostartPlan::Install { dir, file }
            } else {
                AutostartPlan::Remove { file }
            }
        },
    }
}

/// The autostart entry lies in the autostart directory: the directory is the
/// entry's parent path.
pub proof fn lemma_entry_in_autostart_dir(xdg_config_home: Option<Seq<u8>>, home: Option<Seq<u8>>)
    ensures
        autostart_dir_path(xdg_config_home, home) matches Some(d) ==> (autostart_file_path(
            xdg_config_home,
            home,
        ) == Some(d.push(SEPARATOR) + entry_file_name()) && d.len() > 0 && d.last() != SEPARATOR),
{
    match config_home(xdg_config_home, home) {
        Some(c) => {
            let d = joined(c, autostart_dir_name());
            assert(d.last() == autostart_dir_name().last());
        },
        None => {},
    }
}

/// The text of the XDG desktop entry that starts `exe_path` at login.
pub open spec fn desktop_entry_text(exe_path: Seq<char>) -> Seq<char> {
    "[Desktop Entry]\nType=Application\nName=BlurAutoClicker\nExec=\""@ + exe_path
        + "\" --autostart\nTerminal=false\nX-GNOME-Autostart-enabled=true\n"@
}

/// Builds the XDG desktop entry that starts the executable at `exe_path` (as
/// displayed) with `--autostart`.
pub fn desktop_entry(exe_path: &str) -> (text: String)
    ensures
        text@ == desktop_entry_text(exe_path@),
{
    let mut text = String::from_str("[Desktop Entry]\nType=Application\nName=BlurAutoClicker\nExec=\"");
    text.append(exe_path);
    text.append("\" --autostart\nTerminal=false\nX-GNOME-Autostart-enabled=true\n");
    text
}

/// The command line stored in the Windows `Run` key: the quoted executable
/// path followed by `--autostart`.
pub fn registry_run_value(exe_path: &str) -> (value: String)
    ensures
        value@ == "\""@ + exe_path@ + "\" --autostart"@,
{
    let mut value = String::from_str("\"");
    value.append(exe_path);
    value.append("\" --autostart");
    value
}

/// What is set is what is read back: after starting at login is turned on or
/// off (and the entry was written or removed), it reads as on or off; a
/// portable installation always reads as off.
pub proof fn lemma_autostart_round_trip(
    portable: bool,
    enabled: bool,
    xdg_config_home: Option<Seq<u8>>,
    home: Option<Seq<u8>>,
    entries: Set<Seq<u8>>,
)
    requires
        autostart_file_path(xdg_config_home, home) is Some,
    ensures
        autostart_enabled(
            portable,
            entries_after(portable, enabled, xdg_config_home, home, entries).contains(
                autostart_file_path(xdg_config_home, home)->0,
            ),
        ) == (!portable && enabled),
{
}

/// The location of the autostart entry is known exactly when `XDG_CONFIG_HOME`
/// or `HOME` is set.
pub proof fn lemma_location_known(xdg_config_home: Option<Seq<u8>>, home: Option<Seq<u8>>)
    ensures
        autostart_file_path(xdg_config_home, home) is Some <==> (xdg_config_home is Some
            || home is Some),
{
}


/// The bytes of `/autostart/BlurAutoClicker.desktop`.
pub open spec fn entry_under_config() -> Seq<u8> {
    seq![
        0x2fu8, 0x61, 0x75, 0x74, 0x6f, 0x73, 0x74, 0x61, 0x72, 0x74, 0x2f, 0x42, 0x6c, 0x75, 0x72,
        0x41, 0x75, 0x74, 0x6f, 0x43, 0x6c, 0x69, 0x63, 0x6b, 0x65, 0x72, 0x2e, 0x64, 0x65, 0x73,
        0x6b, 0x74, 0x6f, 0x70,
    ]
}

/// The bytes of `/.config`.
pub open spec fn config_under_home() -> Seq<u8> {
    seq![0x2fu8, 0x2e, 0x63, 0x6f, 0x6e, 0x66, 0x69, 0x67]
}

/// Where the entry lies: `$XDG_CONFIG_HOME/autostart/BlurAutoClicker.desktop`
/// when `XDG_CONFIG_HOME` is set, whatever `HOME` is, and otherwise
/// `$HOME/.config/autostart/BlurAutoClicker.desktop` (for directories given
/// without a trailing `/`; one that has it is not doubled).
pub proof fn lemma_autostart_file_location(dir: Seq<u8>, home: Seq<u8>)
    requires
        dir.len() > 0,
        home.len() > 0,
    ensures
        dir.last() != SEPARATOR ==> forall|h: Option<Seq<u8>>|
            #[trigger] autostart_file_path(Some(dir), h) == Some(dir + entry_under_config()),
        dir.last() == SEPARATOR ==> forall|h: Option<Seq<u8>>|
            #[trigger] autostart_file_path(Some(dir), h) == Some(dir + entry_under_config().drop_first()),
        home.last() != SEPARATOR ==> autostart_file_path(None, Some(home)) == Some(
            home + config_under_home() + entry_under_config(),
        ),
{
    let a = autostart_dir_name();
    let e = entry_file_name();
    assert(a.last() != SEPARATOR);
    assert(entry_under_config() == seq![SEPARATOR] + a + seq![SEPARATOR] + e);
    if dir.last() != SEPARATOR {
        assert(dir.push(SEPARATOR) + a == dir + (seq![SEPARATOR] + a));
        let d = dir.push(SEPARATOR) + a;
        assert(d.last() == a.last());
        assert(d.push(SEPARATOR) + e == dir + entry_under_config());
    } else {
        let d = dir + a;
        assert(d.last() == a.last());
        assert(d.push(SEPARATOR) + e == dir + entry_under_config().drop_first());
    }
    if home.last() != SEPARATOR {
        let c = home.push(SEPARATOR) + config_dir_name();
        assert(config_dir_name().last() != SEPARATOR);
        assert(c.last() == config_dir_name().last());
        assert(c == home + config_under_home());
        let d = c.push(SEPARATOR) + a;
        assert(d.last() == a.last());
        assert(d.push(SEPARATOR) + e == home + config_under_home() + entry_under_config());
    }
}

} // verus!
