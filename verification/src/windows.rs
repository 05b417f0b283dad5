//! Window queries: decoding the window properties the window manager publishes
//! (`_NET_ACTIVE_WINDOW`, `_NET_CLIENT_LIST`, `_NET_WM_PID`, `_NET_WM_NAME`)
//! and building the map from process id to window title.
use vstd::prelude::*;

use std::collections::HashMap;
use vstd::string::StrSliceExecFns;
use vstd::utf8::{decode_utf8, valid_utf8};

verus! {

/// An X window id.
pub type Window = u64;

/// Format of a window property whose items are 32-bit values (delivered as `long`s).
pub const FORMAT_32: i32 = 32;

/// Size in bytes of one item of a 32-bit property.
pub const ITEM_BYTES: usize = 8;

/// The bytes per item of a property of format `format` (8, 16 or 32 bits per
/// item; at least one byte): items of format 32 are delivered as `long`s of
/// `long_size` bytes.
pub open spec fn item_size(format: i32, long_size: usize) -> int {
    if format == FORMAT_32 {
        long_size as int
    } else if (format as usize) / 8 >= 1 {
        ((format as usize) / 8) as int
    } else {
        1
    }
}

/// The number of bytes of property data the server returned for `nitems` items.
pub fn property_data_len(format: i32, nitems: usize, long_size: usize) -> (len: usize)
    requires
        nitems * item_size(format, long_size) <= usize::MAX,
    ensures
        len == nitems * item_size(format, long_size),
{
    if format == FORMAT_32 {
        nitems * long_size
    } else {
        let per_item = (format as usize) / 8;
        let per_item = if per_item >= 1 {
            per_item
        } else {
            1
        };
        nitems * per_item
    }
}

/// Whether `property_data_len` can count the data without overflowing.
pub fn property_data_len_fits(format: i32, nitems: usize, long_size: usize) -> (b: bool)
    ensures
        b == (nitems * item_size(format, long_size) <= usize::MAX),
{
    let per_item: usize = if format == FORMAT_32 {
        long_size
    } else {
        let p = (format as usize) / 8;
        if p >= 1 {
            p
        } else {
            1
        }
    };
    nitems.checked_mul(per_item).is_some()
}

/// The number in the eight bytes `b`, least significant byte first.
pub open spec fn le_word(b: Seq<u8>) -> int {
    b[0] + b[1] * 0x100 + b[2] * 0x1_0000 + b[3] * 0x100_0000 + b[4] * 0x1_0000_0000 + b[5]
        * 0x100_0000_0000 + b[6] * 0x1_0000_0000_0000 + b[7] * 0x100_0000_0000_0000
}

/// The number in the eight bytes `b`, most significant byte first.
pub open spec fn be_word(b: Seq<u8>) -> int {
    b[7] + b[6] * 0x100 + b[5] * 0x1_0000 + b[4] * 0x100_0000 + b[3] * 0x1_0000_0000 + b[2]
        * 0x100_0000_0000 + b[1] * 0x1_0000_0000_0000 + b[0] * 0x100_0000_0000_0000
}

/// The items of a 32-bit property: one per whole eight-byte chunk, read in the
/// machine's byte order.
pub open spec fn property_items(data: Seq<u8>, little_endian: bool) -> Seq<u64> {
    Seq::new(
        data.len() / 8,
        |i: int|
            {
                let chunk = data.subrange(8 * i, 8 * i + 8);
                (if little_endian {
                    le_word(chunk)
                } else {
                    be_word(chunk)
                }) as u64
            },
    )
}

/// The values of a property read as a list of 32-bit items: none unless the
/// property has format 32 and holds at least one item.
pub open spec fn values_of_32bit_property_spec(format: i32, data: Seq<u8>, little_endian: bool) -> Option<
    Seq<u64>,
> {
    if format != FORMAT_32 || data.len() < 8 {
        None
    } else {
        Some(property_items(data, little_endian))
    }
}

fn word_at(data: &Vec<u8>, start: usize, little_endian: bool) -> (w: u64)
    requires
        start + 8 <= data@.len(),
    ensures
        w as int == (if little_endian {
            le_word(data@.subrange(start as int, start + 8))
        } else {
            be_word(data@.subrange(start as int, start + 8))
        }),
{
    let ghost chunk = data@.subrange(start as int, start + 8);
    let n = data.len();
    assert(start + 8 <= n);
    let c0 = data[start] as u64;
    let c1 = data[start + 1] as u64;
    let c2 = data[start + 2] as u64;
    let c3 = data[start + 3] as u64;
    let c4 = data[start + 4] as u64;
    let c5 = data[start + 5] as u64;
    let c6 = data[start + 6] as u64;
    let c7 = data[start + 7] as u64;
    assert(chunk[0] == c0 && chunk[1] == c1 && chunk[2] == c2 && chunk[3] == c3);
    assert(chunk[4] == c4 && chunk[5] == c5 && chunk[6] == c6 && chunk[7] == c7);
    if little_endian {
        ((((((c7 * 256 + c6) * 256 + c5) * 256 + c4) * 256 + c3) * 256 + c2) * 256 + c1) * 256 + c0
    } else {
        ((((((c0 * 256 + c1) * 256 + c2) * 256 + c3) * 256 + c4) * 256 + c5) * 256 + c6) * 256 + c7
    }
}

/// Decodes the data of a property as a list of 32-bit items (each delivered in
/// an eight-byte `long` in the machine's byte order).
pub fn values_of_32bit_property(format: i32, data: &Vec<u8>, little_endian: bool) -> (r: Option<
    Vec<u64>,
>)
    ensures
        match r {
            Some(v) => values_of_32bit_property_spec(format, data@, little_endian) == Some(v@),
            None => values_of_32bit_property_spec(format, data@, little_endian) is None,
        },
{
    if format != FORMAT_32 || data.len() < ITEM_BYTES {
        return None;
    }
    let count = data.len() / ITEM_BYTES;
    let mut values: Vec<u64> = Vec::new();
    let mut i: usize = 0;
    while i < count
        invariant
            count == data@.len() / 8,
            i <= count,
            values@.len() == i,
            forall|k: int| 0 <= k < i ==> values@[k] == property_items(data@, little_endian)[k],
        decreases count - i,
    {
        proof {
            let len = data@.len() as int;
            assert(i * 8 + 8 <= len) by (nonlinear_arith)
                requires
                    i < count,
                    count == len / 8,
                    len >= 0,
            ;
            assert(data@.len() == data.len());
            assert(i * ITEM_BYTES + 8 <= data.len());
        }
        let w = word_at(data, i * ITEM_BYTES, little_endian);
        values.push(w);
        i = i + 1;
    }
    assert(values@ == property_items(data@, little_endian));
    Some(values)
}

/// The first item of a property, if it has one.
pub open spec fn first_item(values: Option<Seq<u64>>) -> Option<u64> {
    match values {
        Some(v) => if v.len() > 0 {
            Some(v[0])
        } else {
            None
        },
        None => None,
    }
}

/// The process id in a window's `_NET_WM_PID` property: its first item, unless
/// that is `0` or does not fit a process id.
pub open spec fn pid_of_property(values: Option<Seq<u64>>) -> Option<u32> {
    match first_item(values) {
        Some(pid) => if pid == 0 || pid > u32::MAX {
            None
        } else {
            Some(pid as u32)
        },
        None => None,
    }
}

fn first_value(values: &Option<Vec<u64>>) -> (r: Option<u64>)
    ensures
        r == first_item(
            match values {
                Some(v) => Some(v@),
                None => None,
            },
        ),
{
    match values {
        Some(v) => if v.len() > 0 {
            Some(v[0])
        } else {
            None
        },
        None => None,
    }
}

pub open spec fn view_values(values: Option<Vec<u64>>) -> Option<Seq<u64>> {
    match values {
        Some(v) => Some(v@),
        None => None,
    }
}

/// The process id that owns a window, from the window's `_NET_WM_PID` values.
pub fn window_pid(pid_values: &Option<Vec<u64>>) -> (r: Option<u32>)
    ensures
        r == pid_of_property(view_values(*pid_values)),
{
    match first_value(pid_values) {
        Some(pid) => if pid == 0 || pid > u32::MAX as u64 {
            None
        } else {
            Some(pid as u32)
        },
        None => None,
    }
}

/// A window id that names a real window: neither `None` (0) nor
/// `PointerRoot` (1).
pub open spec fn is_real_window(w: u64) -> bool {
    w != 0 && w != 1
}

/// The active window in the root window's `_NET_ACTIVE_WINDOW` values.
pub open spec fn active_of_property(values: Option<Seq<u64>>) -> Option<Window> {
    match first_item(values) {
        Some(w) => if is_real_window(w) {
            Some(w)
        } else {
            None
        },
        None => None,
    }
}

/// The active window, from the root window's `_NET_ACTIVE_WINDOW` values.
pub fn active_window(active_values: &Option<Vec<u64>>) -> (r: Option<Window>)
    ensures
        r == active_of_property(view_values(*active_values)),
{
    match first_value(active_values) {
        Some(w) => if w != 0 && w != 1 {
            Some(w)
        } else {
            None
        },
        None => None,
    }
}

/// The process id of the active window, given the active window and the
/// `_NET_WM_PID` values read from it.
pub fn active_window_pid(active: Option<Window>, pid_values: &Option<Vec<u64>>) -> (r: Option<u32>)
    ensures
        r == (match active {
            Some(_) => pid_of_property(view_values(*pid_values)),
            None => None,
        }),
{
    match active {
        Some(_) => window_pid(pid_values),
        None => None,
    }
}

/// The real windows in a list, in order.
pub open spec fn real_windows(values: Seq<u64>) -> Seq<Window>
    decreases values.len(),
{
    if values.len() == 0 {
        Seq::empty()
    } else if is_real_window(values.last()) {
        real_windows(values.drop_last()).push(values.last())
    } else {
        real_windows(values.drop_last())
    }
}

/// The client windows, from the root window's `_NET_CLIENT_LIST` values
/// (none when the property could not be read).
pub fn collect_client_windows(client_values: &Option<Vec<u64>>) -> (r: Vec<Window>)
    ensures
        r@ == (match view_values(*client_values) {
            Some(v) => real_windows(v),
            None => Seq::empty(),
        }),
{
    let mut windows: Vec<Window> = Vec::new();
    match client_values {
        Some(values) => {
            let mut i: usize = 0;
            while i < values.len()
                invariant
                    i <= values@.len(),
                    windows@ == real_windows(values@.take(i as int)),
                decreases values@.len() - i,
            {
                let w = values[i];
                assert(values@.take(i + 1).drop_last() == values@.take(i as int));
                if w != 0 && w != 1 {
                    windows.push(w);
                }
                i = i + 1;
            }
            assert(values@.take(values@.len() as int) == values@);
        },
        None => {},
    }
    windows
}

/// The windows whose titles are collected: the client windows, then the active
/// window when it is not one of them.
pub fn windows_to_scan(clients: Vec<Window>, active: Option<Window>) -> (r: Vec<Window>)
    ensures
        r@ == (match active {
            Some(a) => if clients@.contains(a) {
                clients@
            } else {
                clients@.push(a)
            },
            None => clients@,
        }),
{
    let mut windows = clients;
    match active {
        Some(a) => {
            let mut i: usize = 0;
            let mut found = false;
            while i < windows.len()
                invariant
                    i <= windows@.len(),
                    found <==> exists|k: int| 0 <= k < i && windows@[k] == a,
                decreases windows@.len() - i,
            {
                if windows[i] == a {
                    found = true;
                }
                i = i + 1;
            }
            if !found {
                windows.push(a);
            }
        },
        None => {},
    }
    windows
}

/// What was read about one window: its id, the process that owns it and its title.
pub struct WindowEntry {
    pub window: Window,
    pub pid: Option<u32>,
    pub title: Option<String>,
}

/// The title kept for each process: a window replaces the title kept so far for
/// its process when none is kept yet, when it is the active window, or when its
/// title has more characters. Windows without a process id or a title are skipped.
pub open spec fn title_map(entries: Seq<WindowEntry>, active: Option<Window>) -> Map<u32, Seq<char>>
    decreases entries.len(),
{
    if entries.len() == 0 {
        Map::empty()
    } else {
        let kept = title_map(entries.drop_last(), active);
        let e = entries.last();
        match (e.pid, e.title) {
            (Some(pid), Some(title)) => if !kept.contains_key(pid) || active == Some(e.window)
                || title@.len() > kept[pid].len() {
                kept.insert(pid, title@)
            } else {
                kept
            },
            _ => kept,
        }
    }
}

/// Best-effort mapping of process id to visible window title, from what was read
/// about each window (in the order of `windows_to_scan`) and the active window.
pub fn pid_title_map(entries: &Vec<WindowEntry>, active: Option<Window>) -> (map: HashMap<
    u32,
    String,
>)
    ensures
        forall|pid: u32|
            #[trigger] map@.contains_key(pid) <==> title_map(entries@, active).contains_key(pid),
        forall|pid: u32|
            #[trigger] map@.contains_key(pid) ==> map@[pid]@ == title_map(entries@, active)[pid],
{
    let mut map: HashMap<u32, String> = HashMap::new();
    let mut i: usize = 0;
    while i < entries.len()
        invariant
            i <= entries@.len(),
            forall|pid: u32|
                #[trigger] map@.contains_key(pid) <==> title_map(
                    entries@.take(i as int),
                    active,
                ).contains_key(pid),
            forall|pid: u32|
                #[trigger] map@.contains_key(pid) ==> map@[pid]@ == title_map(
                    entries@.take(i as int),
                    active,
                )[pid],
        decreases entries@.len() - i,
    {
        let e = &entries[i];
        assert(entries@.take(i + 1).drop_last() == entries@.take(i as int));
        assert(entries@.take(i + 1).last() == *e);
        match (e.pid, &e.title) {
            (Some(pid), Some(title)) => {
                let is_active = match active {
                    Some(a) => a == e.window,
                    None => false,
                };
                let better = match map.get(&pid) {
                    None => true,
                    Some(existing) => {
                        if is_active {
                            true
                        } else {
                            title.as_str().unicode_len() > existing.as_str().unicode_len()
                        }
                    },
                };
                if better {
                    map.insert(pid, title.clone());
                }
            },
            _ => {},
        }
        i = i + 1;
    }
    assert(entries@.take(entries@.len() as int) == entries@);
    map
}

/// A process is in the title map exactly when some window of it has a title.
pub proof fn lemma_title_map_domain(entries: Seq<WindowEntry>, active: Option<Window>, pid: u32)
    ensures
        title_map(entries, active).contains_key(pid) <==> exists|i: int|
            0 <= i < entries.len() && entries[i].pid == Some(pid) && entries[i].title is Some,
    decreases entries.len(),
{
    if entries.len() > 0 {
        let rest = entries.drop_last();
        lemma_title_map_domain(rest, active, pid);
        if exists|i: int|
            0 <= i < entries.len() && entries[i].pid == Some(pid) && entries[i].title is Some {
            let i = choose|i: int|
                0 <= i < entries.len() && entries[i].pid == Some(pid) && entries[i].title is Some;
            if i < rest.len() {
                assert(rest[i] == entries[i]);
            }
        }
        if title_map(rest, active).contains_key(pid) {
            let i = choose|i: int|
                0 <= i < rest.len() && rest[i].pid == Some(pid) && rest[i].title is Some;
            assert(entries[i] == rest[i]);
        }
    }
}

/// The title kept for a process is the title of one of its windows.
pub proof fn lemma_title_map_from_entries(entries: Seq<WindowEntry>, active: Option<Window>, pid: u32)
    requires
        title_map(entries, active).contains_key(pid),
    ensures
        exists|i: int|
            0 <= i < entries.len() && entries[i].pid == Some(pid) && (entries[i].title matches Some(
                t,
            ) && t@ == title_map(entries, active)[pid]),
    decreases entries.len(),
{
    let rest = entries.drop_last();
    let e = entries.last();
    if title_map(entries, active) == title_map(rest, active) || e.pid != Some(pid) {
        if !(e.pid == Some(pid) && e.title is Some && title_map(entries, active)[pid]
            == e.title->0@) {
            lemma_title_map_from_entries(rest, active, pid);
            let i = choose|i: int|
                0 <= i < rest.len() && rest[i].pid == Some(pid) && (rest[i].title matches Some(t)
                    && t@ == title_map(rest, active)[pid]);
            assert(entries[i] == rest[i]);
        } else {
            assert(entries[entries.len() - 1] == e);
        }
    } else {
        assert(entries[entries.len() - 1] == e);
    }
}

/// When none of a process's windows is the active window, the title kept for
/// the process is one of the longest titles of its windows.
pub proof fn lemma_title_map_longest(entries: Seq<WindowEntry>, active: Option<Window>, pid: u32, i: int)
    requires
        0 <= i < entries.len(),
        entries[i].pid == Some(pid),
        entries[i].title is Some,
        forall|j: int|
            0 <= j < entries.len() && (#[trigger] entries[j].pid) == Some(pid) ==> active != Some(
                entries[j].window,
            ),
    ensures
        title_map(entries, active).contains_key(pid),
        entries[i].title->0@.len() <= title_map(entries, active)[pid].len(),
    decreases entries.len(),
{
    let rest = entries.drop_last();
    let e = entries.last();
    assert(entries[entries.len() - 1] == e);
    if i < rest.len() {
        assert(rest[i] == entries[i]);
        assert forall|j: int| 0 <= j < rest.len() && (#[trigger] rest[j].pid) == Some(pid) implies active
            != Some(rest[j].window) by {
            assert(rest[j] == entries[j]);
        }
        lemma_title_map_longest(rest, active, pid, i);
    }
}

/// When the active window is the last window of its process, the title kept for
/// the process is the active window's title.
pub proof fn lemma_title_map_prefers_active(entries: Seq<WindowEntry>, active: Option<Window>, pid: u32, i: int)
    requires
        0 <= i < entries.len(),
        entries[i].pid == Some(pid),
        entries[i].title is Some,
        active == Some(entries[i].window),
        forall|j: int| i < j < entries.len() ==> (#[trigger] entries[j].pid) != Some(pid),
    ensures
        title_map(entries, active).contains_key(pid),
        title_map(entries, active)[pid] == entries[i].title->0@,
    decreases entries.len(),
{
    let rest = entries.drop_last();
    let e = entries.last();
    assert(entries[entries.len() - 1] == e);
    if i < rest.len() {
        assert(rest[i] == entries[i]);
        assert forall|j: int| i < j < rest.len() implies (#[trigger] rest[j].pid) != Some(pid) by {
            assert(rest[j] == entries[j]);
        }
        lemma_title_map_prefers_active(rest, active, pid, i);
    }
}

/// One more window of a process already in the map: its title replaces the
/// kept one when it is the active window or has more characters, and otherwise
/// (an equally long or shorter title) the earlier title stays. Windows of other
/// processes, or without a title or a process id, leave the process's title as
/// it was.
pub proof fn lemma_title_map_next_window(entries: Seq<WindowEntry>, e: WindowEntry, active: Option<Window>, pid: u32)
    requires
        title_map(entries, active).contains_key(pid),
    ensures
        (e.pid == Some(pid) && e.title is Some && (active == Some(e.window) || e.title->0@.len()
            > title_map(entries, active)[pid].len())) ==> title_map(entries.push(e), active)[pid]
            == e.title->0@,
        (e.pid == Some(pid) && e.title is Some && active != Some(e.window) && e.title->0@.len()
            <= title_map(entries, active)[pid].len()) ==> title_map(entries.push(e), active)[pid]
            == title_map(entries, active)[pid],
        (e.pid != Some(pid) || e.title is None) ==> title_map(entries.push(e), active)[pid]
            == title_map(entries, active)[pid],
        title_map(entries.push(e), active).contains_key(pid),
{
    assert(entries.push(e).drop_last() == entries);
    assert(entries.push(e).last() == e);
}

/// The characters of `bytes` decoded as UTF-8, each invalid sequence replaced
/// by U+FFFD.
pub uninterp spec fn utf8_lossy(bytes: Seq<u8>) -> Seq<char>;

/// Calls `String::from_utf8_lossy`. Trusted: the result is named `utf8_lossy`
/// of the bytes; as its documentation says, valid UTF-8 decodes to its own
/// characters; and since UTF-8 encodes U+0000 only as the byte 0 and invalid
/// sequences become U+FFFD, a NUL character in the result comes from a zero
/// byte. What it gives for invalid input beyond that is not stated.
#[verifier::external_body]
fn decode_utf8_lossy(bytes: &[u8]) -> (s: String)
    ensures
        s@ == utf8_lossy(bytes@),
        valid_utf8(bytes@) ==> s@ == decode_utf8(bytes@),
        s@.contains('\0') ==> bytes@.contains(0u8),
{
    String::from_utf8_lossy(bytes).into_owned()
}

/// A character with the Unicode property `White_Space`.
pub open spec fn is_white_space(c: char) -> bool {
    let u = c as u32;
    ||| 0x09 <= u <= 0x0d
    ||| u == 0x20
    ||| u == 0x85
    ||| u == 0xa0
    ||| u == 0x1680
    ||| 0x2000 <= u <= 0x200a
    ||| u == 0x2028
    ||| u == 0x2029
    ||| u == 0x202f
    ||| u == 0x205f
    ||| u == 0x3000
}

/// The characters of `s` without its leading white space.
pub open spec fn trim_start(s: Seq<char>) -> Seq<char>
    decreases s.len(),
{
    if s.len() > 0 && is_white_space(s[0]) {
        trim_start(s.drop_first())
    } else {
        s
    }
}

/// The characters of `s` without its trailing white space.
pub open spec fn trim_end(s: Seq<char>) -> Seq<char>
    decreases s.len(),
{
    if s.len() > 0 && is_white_space(s.last()) {
        trim_end(s.drop_last())
    } else {
        s
    }
}

/// The characters of `s` without leading and trailing white space.
pub open spec fn trimmed(s: Seq<char>) -> Seq<char> {
    trim_end(trim_start(s))
}

/// Calls `str::trim`. Trusted: as its documentation says, the result is the
/// text without leading and trailing white space, white space being the
/// characters with the Unicode property `White_Space`.
#[verifier::external_body]
fn trim_whitespace(s: &str) -> (t: &str)
    ensures
        t@ == trimmed(s@),
{
    s.trim()
}

proof fn lemma_trim_start_shape(s: Seq<char>)
    ensures
        trim_start(s).len() == 0 || !is_white_space(trim_start(s)[0]),
        forall|c: char| trim_start(s).contains(c) ==> s.contains(c),
    decreases s.len(),
{
    if s.len() > 0 && is_white_space(s[0]) {
        lemma_trim_start_shape(s.drop_first());
        assert forall|c: char| trim_start(s).contains(c) implies s.contains(c) by {
            let t = s.drop_first();
            assert(t.contains(c));
            let k = choose|k: int| 0 <= k < t.len() && t[k] == c;
            assert(s[k + 1] == c);
        }
    }
}

proof fn lemma_trim_end_shape(s: Seq<char>)
    ensures
        trim_end(s).len() == 0 || !is_white_space(trim_end(s).last()),
        trim_end(s).len() <= s.len(),
        trim_end(s) == s.subrange(0, trim_end(s).len() as int),
    decreases s.len(),
{
    if s.len() > 0 && is_white_space(s.last()) {
        lemma_trim_end_shape(s.drop_last());
        assert(trim_end(s) == s.drop_last().subrange(0, trim_end(s).len() as int));
        assert(s.drop_last().subrange(0, trim_end(s).len() as int) == s.subrange(
            0,
            trim_end(s).len() as int,
        ));
    } else {
        assert(s == s.subrange(0, s.len() as int));
    }
}

/// Trimmed text has no white space at either end, so trimming it again changes
/// nothing, and it holds only characters of the text it came from.
pub proof fn lemma_trimmed_is_trimmed(s: Seq<char>)
    ensures
        trimmed(trimmed(s)) == trimmed(s),
        forall|c: char| trimmed(s).contains(c) ==> s.contains(c),
{
    let r = trim_start(s);
    let t = trim_end(r);
    lemma_trim_start_shape(s);
    lemma_trim_end_shape(r);
    lemma_trim_end_shape(t);
    if t.len() > 0 {
        assert(t[0] == r[0]);
    }
    assert(trim_start(t) == t);
    assert(trim_end(t) == t);
    assert forall|c: char| t.contains(c) implies s.contains(c) by {
        let k = choose|k: int| 0 <= k < t.len() && t[k] == c;
        assert(r[k] == c);
        assert(r.contains(c));
    }
}

/// The index of the first NUL byte, or the length when there is none.
pub open spec fn text_end(data: Seq<u8>) -> int {
    if exists|i: int| 0 <= i < data.len() && data[i] == 0 {
        choose|i: int| 0 <= i < data.len() && data[i] == 0 && forall|j: int| 0 <= j < i ==> data[j] != 0
    } else {
        data.len() as int
    }
}

/// The text of a string property: its bytes up to the first NUL, decoded
/// leniently as UTF-8 and trimmed; none when nothing is left.
pub open spec fn string_property_text(data: Seq<u8>) -> Option<Seq<char>> {
    let text = trimmed(utf8_lossy(data.subrange(0, text_end(data))));
    if text.len() == 0 {
        None
    } else {
        Some(text)
    }
}

/// Reads a string property (such as `_NET_WM_NAME`, or the name `XFetchName`
/// returns) as a window title: a non-empty, trimmed text without NUL characters.
pub fn string_property_value(data: &Vec<u8>) -> (r: Option<String>)
    ensures
        match r {
            Some(s) => string_property_text(data@) == Some(s@),
            None => string_property_text(data@) is None,
        },
        r matches Some(s) ==> s@.len() > 0 && trimmed(s@) == s@ && !s@.contains('\0'),
{
    let mut end: usize = 0;
    while end < data.len() && data[end] != 0
        invariant
            end <= data@.len(),
            forall|j: int| 0 <= j < end ==> data@[j] != 0,
        decreases data@.len() - end,
    {
        end = end + 1;
    }
    proof {
        if end < data@.len() {
            let c = choose|i: int|
                0 <= i < data@.len() && data@[i] == 0 && forall|j: int| 0 <= j < i ==> data@[j] != 0;
            assert(data@[end as int] == 0);
            if c < end {
            } else if c > end {
                assert(data@[end as int] != 0);
            }
            assert(text_end(data@) == end);
        } else {
            assert(text_end(data@) == end);
        }
    }
    let prefix = vstd::slice::slice_subrange(data.as_slice(), 0, end);
    let text = decode_utf8_lossy(prefix);
    let trimmed_text = trim_whitespace(text.as_str());
    proof {
        assert(!prefix@.contains(0u8)) by {
            if prefix@.contains(0u8) {
                let k = choose|k: int| 0 <= k < prefix@.len() && prefix@[k] == 0u8;
                assert(data@[k] == 0u8);
            }
        }
        lemma_trimmed_is_trimmed(text@);
    }
    if trimmed_text.unicode_len() == 0 {
        None
    } else {
        Some(trimmed_text.to_owned())
    }
}

/// The text of an optional string property (none when the property is missing).
pub open spec fn optional_property_text(data: Option<Seq<u8>>) -> Option<Seq<char>> {
    match data {
        Some(d) => string_property_text(d),
        None => None,
    }
}

/// A window's title: the text of its `_NET_WM_NAME` property when there is one,
/// otherwise the text of its legacy `WM_NAME`; none for the window `0` or
/// without a display connection.
pub open spec fn title_text(
    window: Window,
    connected: bool,
    net_wm_name: Option<Seq<u8>>,
    wm_name: Option<Seq<u8>>,
) -> Option<Seq<char>> {
    if !connected || window == 0 {
        None
    } else {
        match optional_property_text(net_wm_name) {
            Some(t) => Some(t),
            None => optional_property_text(wm_name),
        }
    }
}

/// Chooses a window's title from the data of its `_NET_WM_NAME` property and
/// the bytes of its legacy `WM_NAME` (each `None` when it could not be read).
pub fn window_title(
    window: Window,
    connected: bool,
    net_wm_name: Option<Vec<u8>>,
    wm_name: Option<Vec<u8>>,
) -> (r: Option<String>)
    ensures
        match r {
            Some(t) => title_text(window, connected, view_bytes(net_wm_name), view_bytes(wm_name))
                == Some(t@),
            None => title_text(window, connected, view_bytes(net_wm_name), view_bytes(wm_name)) is None,
        },
        r matches Some(t) ==> t@.len() > 0 && trimmed(t@) == t@ && !t@.contains('\0'),
{
    if !connected || window == 0 {
        return None;
    }
    let from_net = match &net_wm_name {
        Some(data) => string_property_value(data),
        None => None,
    };
    match from_net {
        Some(t) => Some(t),
        None => match &wm_name {
            Some(data) => string_property_value(data),
            None => None,
        },
    }
}

/// Property data sizes: an item of format 8 is one byte, of format 16 two
/// bytes, and of format 32 one `long` of the platform; only format-32 data with
/// at least one whole eight-byte item is read as a list of values, one value per
/// whole eight bytes.
pub proof fn lemma_property_formats(long_size: usize, data: Seq<u8>, little_endian: bool)
    ensures
        item_size(8, long_size) == 1,
        item_size(16, long_size) == 2,
        item_size(32, long_size) == long_size,
        forall|format: i32|
            format != 32 ==> #[trigger] values_of_32bit_property_spec(format, data, little_endian)
                is None,
        values_of_32bit_property_spec(32, data, little_endian) is Some <==> data.len() >= 8,
        values_of_32bit_property_spec(32, data, little_endian) matches Some(v) ==> v.len()
            == data.len() / 8,
{
}

/// Items are read in the machine's byte order: on a little-endian machine the
/// first byte of an item's eight is its lowest, on a big-endian machine the
/// last. An item whose other seven bytes are zero is that one byte.
pub proof fn lemma_item_byte_order(data: Seq<u8>, i: int)
    requires
        0 <= i < data.len() / 8,
    ensures
        (forall|k: int| 8 * i + 1 <= k < 8 * i + 8 ==> #[trigger] data[k] == 0) ==> property_items(
            data,
            true,
        )[i] == data[8 * i],
        (forall|k: int| 8 * i <= k < 8 * i + 7 ==> #[trigger] data[k] == 0) ==> property_items(
            data,
            false,
        )[i] == data[8 * i + 7],
{
    let chunk = data.subrange(8 * i, 8 * i + 8);
    assert(8 * i + 8 <= data.len()) by (nonlinear_arith)
        requires
            0 <= i < data.len() / 8,
    ;
    assert forall|k: int| 0 <= k < 8 implies #[trigger] chunk[k] == data[8 * i + k] by {}
    if forall|k: int| 8 * i + 1 <= k < 8 * i + 8 ==> #[trigger] data[k] == 0 {
        assert(chunk[1] == 0 && chunk[2] == 0 && chunk[3] == 0 && chunk[4] == 0);
        assert(chunk[5] == 0 && chunk[6] == 0 && chunk[7] == 0);
        assert(le_word(chunk) == chunk[0]);
    }
    if forall|k: int| 8 * i <= k < 8 * i + 7 ==> #[trigger] data[k] == 0 {
        assert(chunk[0] == 0 && chunk[1] == 0 && chunk[2] == 0 && chunk[3] == 0);
        assert(chunk[4] == 0 && chunk[5] == 0 && chunk[6] == 0);
        assert(be_word(chunk) == chunk[7]);
    }
}

/// A process id is the first item of `_NET_WM_PID` when it is a positive
/// number that fits in 32 bits; `0`, a larger number, an empty or a missing
/// property give none.
pub proof fn lemma_pid_of_first_item(first: u64, rest: Seq<u64>)
    ensures
        pid_of_property(Some(seq![first] + rest)) == (if 0 < first <= 0xffff_ffff {
            Some(first as u32)
        } else {
            None
        }),
        pid_of_property(Some(Seq::<u64>::empty())) is None,
        pid_of_property(None) is None,
{
    assert((seq![first] + rest)[0] == first);
}

/// The active window is the first item of `_NET_ACTIVE_WINDOW` unless that is
/// `None` (0) or `PointerRoot` (1).
pub proof fn lemma_active_of_first_item(first: u64, rest: Seq<u64>)
    ensures
        active_of_property(Some(seq![first] + rest)) == (if first >= 2 {
            Some(first)
        } else {
            None
        }),
        active_of_property(Some(Seq::<u64>::empty())) is None,
        active_of_property(None) is None,
{
    assert((seq![first] + rest)[0] == first);
}

/// The client list keeps exactly the real windows it names: a window is kept
/// when it is listed and is neither `0` nor `1`.
pub proof fn lemma_real_windows_members(values: Seq<u64>)
    ensures
        forall|w: u64| #[trigger] real_windows(values).contains(w) <==> (values.contains(w) && w
            >= 2),
    decreases values.len(),
{
    if values.len() > 0 {
        let rest = values.drop_last();
        lemma_real_windows_members(rest);
        let last = values.last();
        assert forall|w: u64| #[trigger] real_windows(values).contains(w) <==> (values.contains(w)
            && w >= 2) by {
            let kept = real_windows(values);
            let earlier = real_windows(rest);
            if kept.contains(w) {
                let k = choose|k: int| 0 <= k < kept.len() && kept[k] == w;
                if k < earlier.len() {
                    assert(earlier[k] == w);
                    assert(earlier.contains(w));
                    let v = choose|v: int| 0 <= v < rest.len() && rest[v] == w;
                    assert(values[v] == w);
                } else {
                    assert(w == last);
                    assert(values[values.len() - 1] == w);
                }
            }
            if values.contains(w) && w >= 2 {
                let v = choose|v: int| 0 <= v < values.len() && values[v] == w;
                if v < rest.len() {
                    assert(rest[v] == w);
                    assert(rest.contains(w));
                    assert(earlier.contains(w));
                    let k = choose|k: int| 0 <= k < earlier.len() && earlier[k] == w;
                    assert(kept[k] == w);
                } else {
                    assert(kept[kept.len() - 1] == w);
                }
            }
        }
    }
}

/// `_NET_WM_NAME` comes first: for a real window on a connected display whose
/// `_NET_WM_NAME` has text, the title is that text whatever `WM_NAME` holds,
/// present, empty or missing. Only when `_NET_WM_NAME` is missing or gives no
/// text is the title that of `WM_NAME`.
pub proof fn lemma_net_wm_name_first(window: Window, net_wm_name: Seq<u8>)
    requires
        window != 0,
    ensures
        string_property_text(net_wm_name) is Some ==> forall|wm_name: Option<Seq<u8>>|
            #[trigger] title_text(window, true, Some(net_wm_name), wm_name) == string_property_text(
                net_wm_name,
            ),
        string_property_text(net_wm_name) is None ==> forall|wm_name: Option<Seq<u8>>|
            #[trigger] title_text(window, true, Some(net_wm_name), wm_name) == optional_property_text(
                wm_name,
            ),
        forall|wm_name: Option<Seq<u8>>|
            #[trigger] title_text(window, true, None, wm_name) == optional_property_text(wm_name),
{
}

/// Without a display connection, or for the window `0`, there is no title.
pub proof fn lemma_no_title_without_window(
    window: Window,
    connected: bool,
    net_wm_name: Option<Seq<u8>>,
    wm_name: Option<Seq<u8>>,
)
    requires
        !connected || window == 0,
    ensures
        title_text(window, connected, net_wm_name, wm_name) is None,
{
}

pub open spec fn view_bytes(v: Option<Vec<u8>>) -> Option<Seq<u8>> {
    match v {
        Some(b) => Some(b@),
        None => None,
    }
}

} // verus!
