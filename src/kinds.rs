//! Block kinds: the closed set of block implementations a build knows about,
//! and parsing a kind from its configured name.

use vstd::prelude::*;

verus! {

/// A block implementation compiled into this build.
#[allow(non_camel_case_types)]
#[derive(Debug, Clone, Copy, PartialEq, Eq, Structural)]
pub enum BlockType {
    apt,
    backlight,
    battery,
    bluetooth,
    cpu,
    custom,
    custom_dbus,
    disk_space,
    dnf,
    docker,
    external_ip,
    focused_window,
    github,
    hueshift,
    kdeconnect,
    load,
    menu,
    memory,
    music,
    net,
    notify,
    nvidia_gpu,
    pacman,
    pomodoro,
    rofication,
    sound,
    speedtest,
    keyboard_layout,
    taskwarrior,
    temperature,
    time,
    toggle,
    uptime,
    watson,
    weather,
    xrandr,
}

/// Number of kinds compiled into this build.
pub const KIND_COUNT: usize = 36;

/// Why a configured kind name was refused.
#[derive(Debug, Clone, PartialEq, Eq)]
pub enum KindError {
    /// The name belongs to a known kind that this build leaves out.
    Disabled(String),
    /// No kind, compiled in or left out, has this name.
    Unknown(String),
}

/// The configuration name of a compiled kind.
pub open spec fn kind_name(k: BlockType) -> Seq<char> {
    match k {
        BlockType::apt => "apt"@,
        BlockType::backlight => "backlight"@,
        BlockType::battery => "battery"@,
        BlockType::bluetooth => "bluetooth"@,
        BlockType::cpu => "cpu"@,
        BlockType::custom => "custom"@,
        BlockType::custom_dbus => "custom_dbus"@,
        BlockType::disk_space => "disk_space"@,
        BlockType::dnf => "dnf"@,
        BlockType::docker => "docker"@,
        BlockType::external_ip => "external_ip"@,
        BlockType::focused_window => "focused_window"@,
        BlockType::github => "github"@,
        BlockType::hueshift => "hueshift"@,
        BlockType::kdeconnect => "kdeconnect"@,
        BlockType::load => "load"@,
        BlockType::menu => "menu"@,
        BlockType::memory => "memory"@,
        BlockType::music => "music"@,
        BlockType::net => "net"@,
        BlockType::notify => "notify"@,
        BlockType::nvidia_gpu => "nvidia_gpu"@,
        BlockType::pacman => "pacman"@,
        BlockType::pomodoro => "pomodoro"@,
        BlockType::rofication => "rofication"@,
        BlockType::sound => "sound"@,
        BlockType::speedtest => "speedtest"@,
        BlockType::keyboard_layout => "keyboard_layout"@,
        BlockType::taskwarrior => "taskwarrior"@,
        BlockType::temperature => "temperature"@,
        BlockType::time => "time"@,
        BlockType::toggle => "toggle"@,
        BlockType::uptime => "uptime"@,
        BlockType::watson => "watson"@,
        BlockType::weather => "weather"@,
        BlockType::xrandr => "xrandr"@,
    }
}

/// Position of a kind in the registry.
pub open spec fn kind_index(k: BlockType) -> nat {
    match k {
        BlockType::apt => 0,
        BlockType::backlight => 1,
        BlockType::battery => 2,
        BlockType::bluetooth => 3,
        BlockType::cpu => 4,
        BlockType::custom => 5,
        BlockType::custom_dbus => 6,
        BlockType::disk_space => 7,
        BlockType::dnf => 8,
        BlockType::docker => 9,
        BlockType::external_ip => 10,
        BlockType::focused_window => 11,
        BlockType::github => 12,
        BlockType::hueshift => 13,
        BlockType::kdeconnect => 14,
        BlockType::load => 15,
        BlockType::menu => 16,
        BlockType::memory => 17,
        BlockType::music => 18,
        BlockType::net => 19,
        BlockType::notify => 20,
        BlockType::nvidia_gpu => 21,
        BlockType::pacman => 22,
        BlockType::pomodoro => 23,
        BlockType::rofication => 24,
        BlockType::sound => 25,
        BlockType::speedtest => 26,
        BlockType::keyboard_layout => 27,
        BlockType::taskwarrior => 28,
        BlockType::temperature => 29,
        BlockType::time => 30,
        BlockType::toggle => 31,
        BlockType::uptime => 32,
        BlockType::watson => 33,
        BlockType::weather => 34,
        BlockType::xrandr => 35,
    }
}

/// The kind at a registry position.
pub open spec fn kind_at(i: int) -> BlockType
    recommends
        0 <= i < KIND_COUNT,
{
    if i == 0 {
        BlockType::apt
    } else if i == 1 {
        BlockType::backlight
    } else if i == 2 {
        BlockType::battery
    } else if i == 3 {
        BlockType::bluetooth
    } else if i == 4 {
        BlockType::cpu
    } else if i == 5 {
        BlockType::custom
    } else if i == 6 {
        BlockType::custom_dbus
    } else if i == 7 {
        BlockType::disk_space
    } else if i == 8 {
        BlockType::dnf
    } else if i == 9 {
        BlockType::docker
    } else if i == 10 {
        BlockType::external_ip
    } else if i == 11 {
        BlockType::focused_window
    } else if i == 12 {
        BlockType::github
    } else if i == 13 {
        BlockType::hueshift
    } else if i == 14 {
        BlockType::kdeconnect
    } else if i == 15 {
        BlockType::load
    } else if i == 16 {
        BlockType::menu
    } else if i == 17 {
        BlockType::memory
    } else if i == 18 {
        BlockType::music
    } else if i == 19 {
        BlockType::net
    } else if i == 20 {
        BlockType::notify
    } else if i == 21 {
        BlockType::nvidia_gpu
    } else if i == 22 {
        BlockType::pacman
    } else if i == 23 {
        BlockType::pomodoro
    } else if i == 24 {
        BlockType::rofication
    } else if i == 25 {
        BlockType::sound
    } else if i == 26 {
        BlockType::speedtest
    } else if i == 27 {
        BlockType::keyboard_layout
    } else if i == 28 {
        BlockType::taskwarrior
    } else if i == 29 {
        BlockType::temperature
    } else if i == 30 {
        BlockType::time
    } else if i == 31 {
        BlockType::toggle
    } else if i == 32 {
        BlockType::uptime
    } else if i == 33 {
        BlockType::watson
    } else if i == 34 {
        BlockType::weather
    } else {
        BlockType::xrandr
    }
}

/// Names of known kinds that this build leaves out.
pub open spec fn is_excluded_name(s: Seq<char>) -> bool {
(s == "maildir"@) || (s == "notmuch"@)
}

/// Whether some compiled kind carries the name `s`.
pub open spec fn is_kind_name(s: Seq<char>) -> bool {
    exists|k: BlockType| kind_name(k) == s
}

/// What parsing a name yields: a kind of that name if one is compiled in,
/// else `Disabled` for a left-out kind's name, else `Unknown`.
pub open spec fn parse_outcome_ok(s: Seq<char>, r: Result<BlockType, KindError>) -> bool {
    match r {
        Ok(k) => kind_name(k) == s,
        Err(KindError::Disabled(n)) => !is_kind_name(s) && is_excluded_name(s) && n@ == s,
        Err(KindError::Unknown(n)) => !is_kind_name(s) && !is_excluded_name(s) && n@ == s,
    }
}

pub proof fn lemma_index_round_trip(k: BlockType)
    ensures
        kind_index(k) < KIND_COUNT,
        kind_at(kind_index(k) as int) == k,
{
}

/// No kind compiled into this build carries the name of a left-out kind.
pub proof fn lemma_excluded_not_compiled(k: BlockType)
    ensures
        !is_excluded_name(kind_name(k)),
{
    reveal_strlit("maildir");
    reveal_strlit("notmuch");
    assert("maildir"@.len() == 7 && "maildir"@[0] == 'm');
    assert("notmuch"@.len() == 7 && "notmuch"@[0] == 'n');
    match k {
        BlockType::apt => {
            reveal_strlit("apt");
            assert(kind_name(k).len() == 3);
        },
        BlockType::backlight => {
            reveal_strlit("backlight");
            assert(kind_name(k).len() == 9);
        },
        BlockType::battery => {
            reveal_strlit("battery");
            assert(kind_name(k).len() == 7);
            assert(kind_name(k)[0] != 'm' && kind_name(k)[0] != 'n');
        },
        BlockType::bluetooth => {
            reveal_strlit("bluetooth");
            assert(kind_name(k).len() == 9);
        },
        BlockType::cpu => {
            reveal_strlit("cpu");
            assert(kind_name(k).len() == 3);
        },
        BlockType::custom => {
            reveal_strlit("custom");
            assert(kind_name(k).len() == 6);
        },
        BlockType::custom_dbus => {
            reveal_strlit("custom_dbus");
            assert(kind_name(k).len() == 11);
        },
        BlockType::disk_space => {
            reveal_strlit("disk_space");
            assert(kind_name(k).len() == 10);
        },
        BlockType::dnf => {
            reveal_strlit("dnf");
            assert(kind_name(k).len() == 3);
        },
        BlockType::docker => {
            reveal_strlit("docker");
            assert(kind_name(k).len() == 6);
        },
        BlockType::external_ip => {
            reveal_strlit("external_ip");
            assert(kind_name(k).len() == 11);
        },
        BlockType::focused_window => {
            reveal_strlit("focused_window");
            assert(kind_name(k).len() == 14);
        },
        BlockType::github => {
            reveal_strlit("github");
            assert(kind_name(k).len() == 6);
        },
        BlockType::hueshift => {
            reveal_strlit("hueshift");
            assert(kind_name(k).len() == 8);
        },
        BlockType::kdeconnect => {
            reveal_strlit("kdeconnect");
            assert(kind_name(k).len() == 10);
        },
        BlockType::load => {
            reveal_strlit("load");
            assert(kind_name(k).len() == 4);
        },
        BlockType::menu => {
            reveal_strlit("menu");
            assert(kind_name(k).len() == 4);
        },
        BlockType::memory => {
            reveal_strlit("memory");
            assert(kind_name(k).len() == 6);
        },
        BlockType::music => {
            reveal_strlit("music");
            assert(kind_name(k).len() == 5);
        },
        BlockType::net => {
            reveal_strlit("net");
            assert(kind_name(k).len() == 3);
        },
        BlockType::notify => {
            reveal_strlit("notify");
            assert(kind_name(k).len() == 6);
        },
        BlockType::nvidia_gpu => {
            reveal_strlit("nvidia_gpu");
            assert(kind_name(k).len() == 10);
        },
        BlockType::pacman => {
            reveal_strlit("pacman");
            assert(kind_name(k).len() == 6);
        },
        BlockType::pomodoro => {
            reveal_strlit("pomodoro");
            assert(kind_name(k).len() == 8);
        },
        BlockType::rofication => {
            reveal_strlit("rofication");
            assert(kind_name(k).len() == 10);
        },
        BlockType::sound => {
            reveal_strlit("sound");
            assert(kind_name(k).len() == 5);
        },
        BlockType::speedtest => {
            reveal_strlit("speedtest");
            assert(kind_name(k).len() == 9);
        },
        BlockType::keyboard_layout => {
            reveal_strlit("keyboard_layout");
            assert(kind_name(k).len() == 15);
        },
        BlockType::taskwarrior => {
            reveal_strlit("taskwarrior");
            assert(kind_name(k).len() == 11);
        },
        BlockType::temperature => {
            reveal_strlit("temperature");
            assert(kind_name(k).len() == 11);
        },
        BlockType::time => {
            reveal_strlit("time");
            assert(kind_name(k).len() == 4);
        },
        BlockType::toggle => {
            reveal_strlit("toggle");
            assert(kind_name(k).len() == 6);
        },
        BlockType::uptime => {
            reveal_strlit("uptime");
            assert(kind_name(k).len() == 6);
        },
        BlockType::watson => {
            reveal_strlit("watson");
            assert(kind_name(k).len() == 6);
        },
        BlockType::weather => {
            reveal_strlit("weather");
            assert(kind_name(k).len() == 7);
            assert(kind_name(k)[0] != 'm' && kind_name(k)[0] != 'n');
        },
        BlockType::xrandr => {
            reveal_strlit("xrandr");
            assert(kind_name(k).len() == 6);
        },
    }
}

/// Parsing by exact name: the name of every compiled kind parses to that
/// kind; the name of a left-out kind fails as disabled, which is never
/// the unknown-kind error; every other string fails as unknown.
pub proof fn lemma_parse_by_name(s: Seq<char>, r: Result<BlockType, KindError>)
    requires
        parse_outcome_ok(s, r),
    ensures
        forall|k: BlockType| kind_name(k) == s ==> r == Ok::<BlockType, KindError>(k),
        is_excluded_name(s) ==> (r matches Err(KindError::Disabled(n)) && n@ == s),
        !is_kind_name(s) && !is_excluded_name(s) ==> (r matches Err(KindError::Unknown(n)) && n@ == s),
{
    if is_excluded_name(s) {
        assert forall|k: BlockType| kind_name(k) != s by {
            lemma_excluded_not_compiled(k);
        }
    }
    assert forall|k: BlockType| kind_name(k) == s implies r == Ok::<BlockType, KindError>(k) by {
        if let Ok(p) = r {
            lemma_names_distinct(p, k);
        }
    }
}

/// Length and first two characters of a kind's name, which tell the kinds
/// apart.
spec fn name_signature(k: BlockType) -> (nat, char, char) {
    match k {
        BlockType::apt => (3, 'a', 'p'),
        BlockType::backlight => (9, 'b', 'a'),
        BlockType::battery => (7, 'b', 'a'),
        BlockType::bluetooth => (9, 'b', 'l'),
        BlockType::cpu => (3, 'c', 'p'),
        BlockType::custom => (6, 'c', 'u'),
        BlockType::custom_dbus => (11, 'c', 'u'),
        BlockType::disk_space => (10, 'd', 'i'),
        BlockType::dnf => (3, 'd', 'n'),
        BlockType::docker => (6, 'd', 'o'),
        BlockType::external_ip => (11, 'e', 'x'),
        BlockType::focused_window => (14, 'f', 'o'),
        BlockType::github => (6, 'g', 'i'),
        BlockType::hueshift => (8, 'h', 'u'),
        BlockType::kdeconnect => (10, 'k', 'd'),
        BlockType::load => (4, 'l', 'o'),
        BlockType::menu => (4, 'm', 'e'),
        BlockType::memory => (6, 'm', 'e'),
        BlockType::music => (5, 'm', 'u'),
        BlockType::net => (3, 'n', 'e'),
        BlockType::notify => (6, 'n', 'o'),
        BlockType::nvidia_gpu => (10, 'n', 'v'),
        BlockType::pacman => (6, 'p', 'a'),
        BlockType::pomodoro => (8, 'p', 'o'),
        BlockType::rofication => (10, 'r', 'o'),
        BlockType::sound => (5, 's', 'o'),
        BlockType::speedtest => (9, 's', 'p'),
        BlockType::keyboard_layout => (15, 'k', 'e'),
        BlockType::taskwarrior => (11, 't', 'a'),
        BlockType::temperature => (11, 't', 'e'),
        BlockType::time => (4, 't', 'i'),
        BlockType::toggle => (6, 't', 'o'),
        BlockType::uptime => (6, 'u', 'p'),
        BlockType::watson => (6, 'w', 'a'),
        BlockType::weather => (7, 'w', 'e'),
        BlockType::xrandr => (6, 'x', 'r'),
    }
}

spec fn kind_of_signature(t: (nat, char, char)) -> Option<BlockType> {
    if t == (3nat, 'a', 'p') {
        Some(BlockType::apt)
    } else if t == (9nat, 'b', 'a') {
        Some(BlockType::backlight)
    } else if t == (7nat, 'b', 'a') {
        Some(BlockType::battery)
    } else if t == (9nat, 'b', 'l') {
        Some(BlockType::bluetooth)
    } else if t == (3nat, 'c', 'p') {
        Some(BlockType::cpu)
    } else if t == (6nat, 'c', 'u') {
        Some(BlockType::custom)
    } else if t == (11nat, 'c', 'u') {
        Some(BlockType::custom_dbus)
    } else if t == (10nat, 'd', 'i') {
        Some(BlockType::disk_space)
    } else if t == (3nat, 'd', 'n') {
        Some(BlockType::dnf)
    } else if t == (6nat, 'd', 'o') {
        Some(BlockType::docker)
    } else if t == (11nat, 'e', 'x') {
        Some(BlockType::external_ip)
    } else if t == (14nat, 'f', 'o') {
        Some(BlockType::focused_window)
    } else if t == (6nat, 'g', 'i') {
        Some(BlockType::github)
    } else if t == (8nat, 'h', 'u') {
        Some(BlockType::hueshift)
    } else if t == (10nat, 'k', 'd') {
        Some(BlockType::kdeconnect)
    } else if t == (4nat, 'l', 'o') {
        Some(BlockType::load)
    } else if t == (4nat, 'm', 'e') {
        Some(BlockType::menu)
    } else if t == (6nat, 'm', 'e') {
        Some(BlockType::memory)
    } else if t == (5nat, 'm', 'u') {
        Some(BlockType::music)
    } else if t == (3nat, 'n', 'e') {
        Some(BlockType::net)
    } else if t == (6nat, 'n', 'o') {
        Some(BlockType::notify)
    } else if t == (10nat, 'n', 'v') {
        Some(BlockType::nvidia_gpu)
    } else if t == (6nat, 'p', 'a') {
        Some(BlockType::pacman)
    } else if t == (8nat, 'p', 'o') {
        Some(BlockType::pomodoro)
    } else if t == (10nat, 'r', 'o') {
        Some(BlockType::rofication)
    } else if t == (5nat, 's', 'o') {
        Some(BlockType::sound)
    } else if t == (9nat, 's', 'p') {
        Some(BlockType::speedtest)
    } else if t == (15nat, 'k', 'e') {
        Some(BlockType::keyboard_layout)
    } else if t == (11nat, 't', 'a') {
        Some(BlockType::taskwarrior)
    } else if t == (11nat, 't', 'e') {
        Some(BlockType::temperature)
    } else if t == (4nat, 't', 'i') {
        Some(BlockType::time)
    } else if t == (6nat, 't', 'o') {
        Some(BlockType::toggle)
    } else if t == (6nat, 'u', 'p') {
        Some(BlockType::uptime)
    } else if t == (6nat, 'w', 'a') {
        Some(BlockType::watson)
    } else if t == (7nat, 'w', 'e') {
        Some(BlockType::weather)
    } else if t == (6nat, 'x', 'r') {
        Some(BlockType::xrandr)
    } else {
        None
    }
}

proof fn lemma_signature(k: BlockType)
    ensures
        kind_name(k).len() == name_signature(k).0,
        kind_name(k)[0] == name_signature(k).1,
        kind_name(k)[1] == name_signature(k).2,
        kind_of_signature(name_signature(k)) == Some(k),
{
    match k {
        BlockType::apt => {
            reveal_strlit("apt");
        },
        BlockType::backlight => {
            reveal_strlit("backlight");
        },
        BlockType::battery => {
            reveal_strlit("battery");
        },
        BlockType::bluetooth => {
            reveal_strlit("bluetooth");
        },
        BlockType::cpu => {
            reveal_strlit("cpu");
        },
        BlockType::custom => {
            reveal_strlit("custom");
        },
        BlockType::custom_dbus => {
            reveal_strlit("custom_dbus");
        },
        BlockType::disk_space => {
            reveal_strlit("disk_space");
        },
        BlockType::dnf => {
            reveal_strlit("dnf");
        },
        BlockType::docker => {
            reveal_strlit("docker");
        },
        BlockType::external_ip => {
            reveal_strlit("external_ip");
        },
        BlockType::focused_window => {
            reveal_strlit("focused_window");
        },
        BlockType::github => {
            reveal_strlit("github");
        },
        BlockType::hueshift => {
            reveal_strlit("hueshift");
        },
        BlockType::kdeconnect => {
            reveal_strlit("kdeconnect");
        },
        BlockType::load => {
            reveal_strlit("load");
        },
        BlockType::menu => {
            reveal_strlit("menu");
        },
        BlockType::memory => {
            reveal_strlit("memory");
        },
        BlockType::music => {
            reveal_strlit("music");
        },
        BlockType::net => {
            reveal_strlit("net");
        },
        BlockType::notify => {
            reveal_strlit("notify");
        },
        BlockType::nvidia_gpu => {
            reveal_strlit("nvidia_gpu");
        },
        BlockType::pacman => {
            reveal_strlit("pacman");
        },
        BlockType::pomodoro => {
            reveal_strlit("pomodoro");
        },
        BlockType::rofication => {
            reveal_strlit("rofication");
        },
        BlockType::sound => {
            reveal_strlit("sound");
        },
        BlockType::speedtest => {
            reveal_strlit("speedtest");
        },
        BlockType::keyboard_layout => {
            reveal_strlit("keyboard_layout");
        },
        BlockType::taskwarrior => {
            reveal_strlit("taskwarrior");
        },
        BlockType::temperature => {
            reveal_strlit("temperature");
        },
        BlockType::time => {
            reveal_strlit("time");
        },
        BlockType::toggle => {
            reveal_strlit("toggle");
        },
        BlockType::uptime => {
            reveal_strlit("uptime");
        },
        BlockType::watson => {
            reveal_strlit("watson");
        },
        BlockType::weather => {
            reveal_strlit("weather");
        },
        BlockType::xrandr => {
            reveal_strlit("xrandr");
        },
    }
}

/// Distinct kinds have distinct names.
pub proof fn lemma_names_distinct(a: BlockType, b: BlockType)
    requires
        kind_name(a) == kind_name(b),
    ensures
        a == b,
{
    lemma_signature(a);
    lemma_signature(b);
    assert(name_signature(a) == name_signature(b));
}

impl BlockType {
    /// The kind at registry position `i`.
    pub fn from_index(i: usize) -> (r: BlockType)
        requires
            i < KIND_COUNT,
        ensures
            r == kind_at(i as int),
    {
        match i {
            0 => BlockType::apt,
            1 => BlockType::backlight,
            2 => BlockType::battery,
            3 => BlockType::bluetooth,
            4 => BlockType::cpu,
            5 => BlockType::custom,
            6 => BlockType::custom_dbus,
            7 => BlockType::disk_space,
            8 => BlockType::dnf,
            9 => BlockType::docker,
            10 => BlockType::external_ip,
            11 => BlockType::focused_window,
            12 => BlockType::github,
            13 => BlockType::hueshift,
            14 => BlockType::kdeconnect,
            15 => BlockType::load,
            16 => BlockType::menu,
            17 => BlockType::memory,
            18 => BlockType::music,
            19 => BlockType::net,
            20 => BlockType::notify,
            21 => BlockType::nvidia_gpu,
            22 => BlockType::pacman,
            23 => BlockType::pomodoro,
            24 => BlockType::rofication,
            25 => BlockType::sound,
            26 => BlockType::speedtest,
            27 => BlockType::keyboard_layout,
            28 => BlockType::taskwarrior,
            29 => BlockType::temperature,
            30 => BlockType::time,
            31 => BlockType::toggle,
            32 => BlockType::uptime,
            33 => BlockType::watson,
            34 => BlockType::weather,
            _ => BlockType::xrandr,
        }
    }

    /// The name under which this kind is configured.
    pub fn name(self) -> (r: &'static str)
        ensures
            r@ == kind_name(self),
    {
        match self {
            BlockType::apt => "apt",
            BlockType::backlight => "backlight",
            BlockType::battery => "battery",
            BlockType::bluetooth => "bluetooth",
            BlockType::cpu => "cpu",
            BlockType::custom => "custom",
            BlockType::custom_dbus => "custom_dbus",
            BlockType::disk_space => "disk_space",
            BlockType::dnf => "dnf",
            BlockType::docker => "docker",
            BlockType::external_ip => "external_ip",
            BlockType::focused_window => "focused_window",
            BlockType::github => "github",
            BlockType::hueshift => "hueshift",
            BlockType::kdeconnect => "kdeconnect",
            BlockType::load => "load",
            BlockType::menu => "menu",
            BlockType::memory => "memory",
            BlockType::music => "music",
            BlockType::net => "net",
            BlockType::notify => "notify",
            BlockType::nvidia_gpu => "nvidia_gpu",
            BlockType::pacman => "pacman",
            BlockType::pomodoro => "pomodoro",
            BlockType::rofication => "rofication",
            BlockType::sound => "sound",
            BlockType::speedtest => "speedtest",
            BlockType::keyboard_layout => "keyboard_layout",
            BlockType::taskwarrior => "taskwarrior",
            BlockType::temperature => "temperature",
            BlockType::time => "time",
            BlockType::toggle => "toggle",
            BlockType::uptime => "uptime",
            BlockType::watson => "watson",
            BlockType::weather => "weather",
            BlockType::xrandr => "xrandr",
        }
    }
}

/// Names of kinds that are known but left out of this build.
fn excluded_names() -> (r: Vec<&'static str>)
    ensures
        forall|s: Seq<char>| is_excluded_name(s) <==> exists|i: int| 0 <= i < r@.len() && r@[i]@ == s,
{
    let mut v: Vec<&'static str> = Vec::new();
    v.push("maildir");
    v.push("notmuch");
    proof {
        assert forall|s: Seq<char>| is_excluded_name(s) implies exists|i: int| 0 <= i < v@.len() && v@[i]@ == s by {
            if s == "maildir"@ {
                assert(v@[0]@ == s);
            } else {
                assert(v@[1]@ == s);
            }
        }
    }
    v
}

/// Parses a kind from its exact configured name.
pub fn parse_block_type(name: &str) -> (r: Result<BlockType, KindError>)
    ensures
        parse_outcome_ok(name@, r),
{
    let wanted: String = name.to_owned();
    let mut i: usize = 0;
    while i < KIND_COUNT
        invariant
            i <= KIND_COUNT,
            wanted@ == name@,
            forall|j: int| 0 <= j < i ==> kind_name(#[trigger] kind_at(j)) != name@,
        decreases KIND_COUNT - i,
    {
        let k = BlockType::from_index(i);
        let candidate: String = k.name().to_owned();
        if candidate == wanted {
            return Ok(k);
        }
        i = i + 1;
    }
    proof {
        assert forall|k: BlockType| kind_name(k) != name@ by {
            lemma_index_round_trip(k);
            assert(kind_name(kind_at(kind_index(k) as int)) != name@);
        }
    }
    let excluded = excluded_names();
    let mut j: usize = 0;
    while j < excluded.len()
        invariant
            j <= excluded@.len(),
            wanted@ == name@,
            !is_kind_name(name@),
            forall|s: Seq<char>| is_excluded_name(s) <==> exists|i: int| 0 <= i < excluded@.len() && excluded@[i]@ == s,
            forall|m: int| 0 <= m < j ==> (#[trigger] excluded@[m])@ != name@,
        decreases excluded@.len() - j,
    {
        let candidate: String = excluded[j].to_owned();
        if candidate == wanted {
            return Err(KindError::Disabled(wanted));
        }
        j = j + 1;
    }
    Err(KindError::Unknown(wanted))
}

/// A block's failure, attributed to the configured instance that failed.
#[derive(Debug, Clone, PartialEq)]
pub struct BlockFailure<E> {
    pub kind: BlockType,
    pub block_id: usize,
    pub cause: E,
}

/// Attributes a failure of a running block to its kind and id; the same for
/// every kind.
pub fn in_block<E>(cause: E, kind: BlockType, block_id: usize) -> (r: BlockFailure<E>)
    ensures
        r.kind == kind,
        r.block_id == block_id,
        r.cause == cause,
{
    BlockFailure { kind, block_id, cause }
}

} // verus!
