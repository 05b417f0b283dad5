use blur_auto_clicker::windows::{
    active_window, active_window_pid, collect_client_windows, pid_title_map, property_data_len,
    property_data_len_fits, string_property_value, values_of_32bit_property, window_pid,
    window_title, windows_to_scan, WindowEntry,
};

fn le_bytes(values: &[u64]) -> Vec<u8> {
    values.iter().flat_map(|v| v.to_le_bytes()).collect()
}

#[test]
fn decode_32bit_items_in_both_byte_orders() {
    let data = le_bytes(&[0x0102_0304_0506_0708, 42]);
    assert_eq!(
        values_of_32bit_property(32, &data, true),
        Some(vec![0x0102_0304_0506_0708, 42])
    );
    let be: Vec<u8> = [7u64, 0xdead_beef].iter().flat_map(|v| v.to_be_bytes()).collect();
    assert_eq!(values_of_32bit_property(32, &be, false), Some(vec![7, 0xdead_beef]));
    let mut partial = le_bytes(&[9]);
    partial.extend_from_slice(&[1, 2, 3]);
    assert_eq!(values_of_32bit_property(32, &partial, true), Some(vec![9]));
}

#[test]
fn decode_rejects_other_formats_and_short_data() {
    assert_eq!(values_of_32bit_property(8, &le_bytes(&[1]), true), None);
    assert_eq!(values_of_32bit_property(32, &vec![1, 2, 3], true), None);
}

#[test]
fn property_lengths() {
    assert_eq!(property_data_len(32, 3, 8), 24);
    assert_eq!(property_data_len(8, 5, 8), 5);
    assert_eq!(property_data_len(16, 5, 8), 10);
    assert_eq!(property_data_len(0, 5, 8), 5);
    assert!(property_data_len_fits(32, 3, 8));
    assert!(!property_data_len_fits(32, usize::MAX, 8));
}

#[test]
fn pid_from_property() {
    assert_eq!(window_pid(&Some(vec![1234, 5])), Some(1234));
    assert_eq!(window_pid(&Some(vec![0])), None);
    assert_eq!(window_pid(&Some(vec![u32::MAX as u64 + 1])), None);
    assert_eq!(window_pid(&Some(vec![u32::MAX as u64])), Some(u32::MAX));
    assert_eq!(window_pid(&Some(vec![])), None);
    assert_eq!(window_pid(&None), None);
}

#[test]
fn active_window_and_its_pid() {
    assert_eq!(active_window(&Some(vec![0x400007])), Some(0x400007));
    assert_eq!(active_window(&Some(vec![0])), None);
    assert_eq!(active_window(&Some(vec![1])), None);
    assert_eq!(active_window(&None), None);
    assert_eq!(active_window_pid(Some(0x400007), &Some(vec![77])), Some(77));
    assert_eq!(active_window_pid(None, &Some(vec![77])), None);
}

#[test]
fn client_windows_skip_placeholders() {
    assert_eq!(collect_client_windows(&Some(vec![5, 0, 1, 9])), vec![5, 9]);
    assert!(collect_client_windows(&None).is_empty());
}

#[test]
fn active_window_scanned_last_when_not_a_client() {
    assert_eq!(windows_to_scan(vec![5, 9], Some(7)), vec![5, 9, 7]);
    assert_eq!(windows_to_scan(vec![5, 9], Some(5)), vec![5, 9]);
    assert_eq!(windows_to_scan(vec![5, 9], None), vec![5, 9]);
}

fn entry(window: u64, pid: Option<u32>, title: Option<&str>) -> WindowEntry {
    WindowEntry { window, pid, title: title.map(|t| t.to_string()) }
}

#[test]
fn titles_prefer_longer_then_active() {
    let entries = vec![
        entry(1, Some(10), Some("short")),
        entry(2, Some(10), Some("a longer title")),
        entry(3, Some(10), Some("mid")),
        entry(4, Some(20), Some("éé")),
        entry(5, Some(20), Some("abc")),
        entry(6, None, Some("no pid")),
        entry(7, Some(30), None),
    ];
    let map = pid_title_map(&entries, None);
    assert_eq!(map.len(), 2);
    assert_eq!(map[&10], "a longer title");
    assert_eq!(map[&20], "abc");
    let map = pid_title_map(&entries, Some(3));
    assert_eq!(map[&10], "mid");
}

#[test]
fn string_property_text() {
    assert_eq!(string_property_value(&b"  Editor \0junk".to_vec()), Some("Editor".to_string()));
    assert_eq!(string_property_value(&b"\t\n".to_vec()), None);
    assert_eq!(string_property_value(&b"\0Title".to_vec()), None);
    assert_eq!(string_property_value(&vec![0x61, 0xff, 0x62]), Some("a\u{fffd}b".to_string()));
    assert_eq!(string_property_value(&"Café".as_bytes().to_vec()), Some("Café".to_string()));
}

#[test]
fn title_prefers_net_wm_name_then_legacy() {
    let net = Some(b" Net title ".to_vec());
    let legacy = Some(b"Legacy".to_vec());
    assert_eq!(window_title(5, true, net.clone(), legacy.clone()), Some("Net title".to_string()));
    assert_eq!(window_title(5, true, Some(b"  \0x".to_vec()), legacy.clone()), Some("Legacy".to_string()));
    assert_eq!(window_title(5, true, None, legacy.clone()), Some("Legacy".to_string()));
    assert_eq!(window_title(5, true, None, Some(" \u{3000}".as_bytes().to_vec())), None);
    assert_eq!(window_title(0, true, net.clone(), legacy.clone()), None);
    assert_eq!(window_title(5, false, net, legacy), None);
}

#[test]
fn titles_trimmed_of_unicode_white_space() {
    let t = string_property_value(&"\u{3000}\u{2009}Tab\u{a0}\u{85}".as_bytes().to_vec()).unwrap();
    assert_eq!(t, "Tab");
    assert_eq!(t, t.trim());
    assert!(!t.contains('\0'));
}
