//! Tests for the wire-to-host workspace adapter.

use niri_client::{HostWorkspace, Visibility, Workspace};

fn ws(id: u64, name: Option<&str>, output: Option<&str>, active: bool, focused: bool) -> Workspace {
    Workspace {
        id,
        name: name.map(str::to_owned),
        output: output.map(str::to_owned),
        is_active: active,
        is_focused: focused,
    }
}

#[test]
fn display_name_falls_back_to_id() {
    let h = HostWorkspace::from(&ws(7, None, None, false, false));
    assert_eq!(h.name, "7");
    assert_eq!(h.id, 7);
}

#[test]
fn display_name_kept_when_present() {
    let h = HostWorkspace::from(&ws(7, Some("web"), None, false, false));
    assert_eq!(h.name, "web");
}

#[test]
fn monitor_falls_back_to_empty() {
    let h = HostWorkspace::from(&ws(1, None, None, false, false));
    assert_eq!(h.monitor, "");
    let h2 = HostWorkspace::from(&ws(1, None, Some("DP-1"), false, false));
    assert_eq!(h2.monitor, "DP-1");
}

#[test]
fn visibility_focused_wins_over_active() {
    let f = HostWorkspace::from(&ws(1, None, None, true, true));
    assert_eq!(f.visibility, Visibility::Focused);
    let f2 = HostWorkspace::from(&ws(1, None, None, false, true));
    assert_eq!(f2.visibility, Visibility::Focused);
    let v = HostWorkspace::from(&ws(1, None, None, true, false));
    assert_eq!(v.visibility, Visibility::Visible);
    let h = HostWorkspace::from(&ws(1, None, None, false, false));
    assert_eq!(h.visibility, Visibility::Hidden);
}

#[test]
fn large_id_name_fallback() {
    let h = HostWorkspace::from(&ws(18446744073709551615, None, None, false, false));
    assert_eq!(h.name, "18446744073709551615");
}
