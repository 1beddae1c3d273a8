use mycli::locate::{lookup_path, path_from_trimmed, probe_path, Resolution, Strategy};

fn search(lookup: Option<String>, probe: Option<String>) -> Resolution {
    let r = Resolution::start().after(lookup);
    match r {
        Resolution::Try(Strategy::Probe) => r.after(probe),
        other => other,
    }
}

#[test]
fn test_find_zarf_executable() {
    let result = search(lookup_path(true, b"/usr/local/bin/zarf\n"), probe_path(true));
    assert_eq!(result, Resolution::Found("/usr/local/bin/zarf".to_string()));
    let result = search(lookup_path(false, b""), probe_path(true));
    assert_eq!(result, Resolution::Found("zarf".to_string()));
    let result = search(lookup_path(false, b""), probe_path(false));
    assert_eq!(result, Resolution::NotFound);
}

#[test]
fn search_starts_with_lookup() {
    assert_eq!(Resolution::start(), Resolution::Try(Strategy::Lookup));
}

#[test]
fn lookup_then_probe_then_give_up() {
    let r = Resolution::start().after(None);
    assert_eq!(r, Resolution::Try(Strategy::Probe));
    let r = r.after(None);
    assert_eq!(r, Resolution::NotFound);
    assert_eq!(r.after(Some("zarf".to_string())), Resolution::NotFound);
}

#[test]
fn found_path_is_kept() {
    let r = Resolution::start().after(Some("/opt/zarf".to_string()));
    assert_eq!(r, Resolution::Found("/opt/zarf".to_string()));
    assert_eq!(r.after(None), Resolution::Found("/opt/zarf".to_string()));
}

#[test]
fn lookup_output_is_trimmed() {
    assert_eq!(
        lookup_path(true, b"  /usr/bin/zarf \n"),
        Some("/usr/bin/zarf".to_string())
    );
}

#[test]
fn lookup_output_is_decoded_lossily() {
    assert_eq!(
        lookup_path(true, &[0xff, b'/', b'z', b'\n']),
        Some("\u{FFFD}/z".to_string())
    );
}

#[test]
fn failed_or_blank_lookup_finds_nothing() {
    assert_eq!(lookup_path(false, b"/usr/bin/zarf\n"), None);
    assert_eq!(lookup_path(true, b" \n\t"), None);
    assert_eq!(lookup_path(true, b""), None);
}

#[test]
fn trimmed_text_becomes_the_path() {
    assert_eq!(path_from_trimmed(true, "/bin/zarf"), Some("/bin/zarf".to_string()));
    assert_eq!(path_from_trimmed(true, ""), None);
    assert_eq!(path_from_trimmed(false, "/bin/zarf"), None);
}

#[test]
fn probe_gives_bare_name() {
    assert_eq!(probe_path(true), Some("zarf".to_string()));
    assert_eq!(probe_path(false), None);
}
