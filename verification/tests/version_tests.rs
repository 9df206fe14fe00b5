use quick_notepad::updater::Updater;

#[test]
fn test_version_comparison() {
    assert!(Updater::is_newer_version("1.0.0", "1.0.1"));
    assert!(Updater::is_newer_version("1.0.0", "1.1.0"));
    assert!(Updater::is_newer_version("1.0.0", "2.0.0"));
    assert!(!Updater::is_newer_version("1.0.1", "1.0.0"));
    assert!(!Updater::is_newer_version("1.0.0", "1.0.0"));
}

#[test]
fn test_version_comparison_short_versions() {
    // Missing components read as zero.
    assert!(Updater::is_newer_version("1.0", "1.0.1"));
    assert!(!Updater::is_newer_version("1.0.0", "1.0"));
    assert!(Updater::is_newer_version("", "0.0.1"));
    assert!(!Updater::is_newer_version("", ""));
}

#[test]
fn test_version_comparison_unparseable_parts_skipped() {
    // "0-beta" is not a number, so it contributes nothing; the third
    // component of both sides reads as zero.
    assert!(!Updater::is_newer_version("1.0.0", "1.0.0-beta"));
    // A leading plus sign is accepted by the number parser.
    assert!(Updater::is_newer_version("1.0.0", "1.0.+1"));
}

#[test]
fn test_version_comparison_overflowing_part_skipped() {
    // 4294967296 does not fit an unsigned 32-bit number, so the piece is
    // skipped and the whole string reads as 0.0.0.
    assert!(!Updater::is_newer_version("1.0.0", "4294967296"));
    assert!(Updater::is_newer_version("0.0.0", "4294967295"));
}

#[test]
fn test_version_comparison_beyond_third_component_ignored() {
    assert!(!Updater::is_newer_version("1.2.3.4", "1.2.3.5"));
}

#[test]
fn test_evaluate_release_newer() {
    let info = Updater::evaluate_release("1.0.0", "v1.2.0", Some(String::from("fixes")));
    assert_eq!(info.current_version, "1.0.0");
    assert_eq!(info.latest_version, "1.2.0");
    assert!(info.update_available);
    assert_eq!(info.release_notes, "fixes");
}

#[test]
fn test_evaluate_release_current() {
    let info = Updater::evaluate_release("1.2.0", "v1.2.0", None);
    assert_eq!(info.latest_version, "1.2.0");
    assert!(!info.update_available);
    assert_eq!(info.release_notes, "");
}

#[test]
fn test_evaluate_release_trims_every_leading_v() {
    let info = Updater::evaluate_release("1.0.0", "vv2.0.0", None);
    assert_eq!(info.latest_version, "2.0.0");
    assert!(info.update_available);
}

#[test]
fn test_updater_new_repo() {
    let updater = Updater::new();
    assert_eq!(updater.repo, "DomanskiFilip/quick_notepad");
}

#[test]
fn test_find_matching_asset_by_target() {
    let updater = Updater::new();
    let assets = vec![
        String::from("notepad-aarch64-apple-darwin.zip"),
        String::from("notepad-x86_64-unknown-linux-gnu.tar.gz"),
    ];
    let found = updater.find_matching_asset(&assets, "x86_64-unknown-linux-gnu", "linux");
    assert_eq!(found, Some(1));
}

#[test]
fn test_find_matching_asset_fallback_is_case_insensitive() {
    // No asset names the target triple; the fallback folds the names to
    // lower case before looking for the bare platform name.
    let updater = Updater::new();
    let assets = vec![
        String::from("Notepad-WINDOWS.zip"),
        String::from("Notepad-LINUX.tar.gz"),
    ];
    let found = updater.find_matching_asset(&assets, "x86_64-unknown-linux-gnu", "linux");
    assert_eq!(found, Some(1));
}

#[test]
fn test_find_matching_asset_none() {
    let updater = Updater::new();
    let assets = vec![String::from("notepad-windows.zip")];
    let found = updater.find_matching_asset(&assets, "x86_64-unknown-linux-gnu", "linux");
    assert_eq!(found, None);
}
