use blur_auto_clicker::autostart::{
    autostart_dir, autostart_file, desktop_entry, get_autostart_enabled, registry_run_value,
    set_autostart_enabled, AutostartPlan,
};

fn b(s: &str) -> Option<Vec<u8>> {
    Some(s.as_bytes().to_vec())
}

#[test]
fn entry_location_from_environment() {
    assert_eq!(
        autostart_file(b("/home/u/.cfg"), b("/home/u")),
        b("/home/u/.cfg/autostart/BlurAutoClicker.desktop")
    );
    assert_eq!(
        autostart_file(None, b("/home/u")),
        b("/home/u/.config/autostart/BlurAutoClicker.desktop")
    );
    assert_eq!(
        autostart_file(None, b("/home/u/")),
        b("/home/u/.config/autostart/BlurAutoClicker.desktop")
    );
    assert_eq!(autostart_file(b(""), b("/home/u")), b("autostart/BlurAutoClicker.desktop"));
    assert_eq!(autostart_file(None, None), None);
    assert_eq!(autostart_dir(b("/x/"), None), b("/x/autostart"));
}

#[test]
fn portable_never_autostarts() {
    assert!(!get_autostart_enabled(true, true));
    assert!(get_autostart_enabled(false, true));
    assert!(!get_autostart_enabled(false, false));
    assert!(matches!(set_autostart_enabled(true, true, None, None), AutostartPlan::Skip));
}

#[test]
fn set_plans_install_or_remove() {
    assert!(matches!(set_autostart_enabled(false, true, None, None), AutostartPlan::MissingLocation));
    match set_autostart_enabled(false, true, None, b("/h")) {
        AutostartPlan::Install { dir, file } => {
            assert_eq!(dir, b"/h/.config/autostart".to_vec());
            assert_eq!(file, b"/h/.config/autostart/BlurAutoClicker.desktop".to_vec());
        }
        _ => panic!("expected an install"),
    }
    match set_autostart_enabled(false, false, b("/c"), None) {
        AutostartPlan::Remove { file } => assert_eq!(file, b"/c/autostart/BlurAutoClicker.desktop".to_vec()),
        _ => panic!("expected a removal"),
    }
}

#[test]
fn entry_and_registry_texts() {
    assert_eq!(
        desktop_entry("/opt/app/blur"),
        "[Desktop Entry]\nType=Application\nName=BlurAutoClicker\nExec=\"/opt/app/blur\" --autostart\nTerminal=false\nX-GNOME-Autostart-enabled=true\n"
    );
    assert_eq!(registry_run_value("C:\\a.exe"), "\"C:\\a.exe\" --autostart");
}
