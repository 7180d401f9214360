use ely_app::downloads::{
    download_action_tooltip, download_actions, DownloadAction,
    download_destination_label, download_destination_short_label, download_entry_location_label,
    download_policy_button_label, download_policy_label, download_security_label,
    download_size_label, download_state_label, format_bytes, DownloadDestination, DownloadPolicy,
    DownloadSecurity, DownloadState,
};

fn float_format(bytes: u64) -> String {
    const KIB: u64 = 1024;
    const MIB: u64 = KIB * 1024;
    const GIB: u64 = MIB * 1024;
    if bytes >= GIB {
        return format!("{:.1} GB", bytes as f64 / GIB as f64);
    }
    if bytes >= MIB {
        return format!("{:.1} MB", bytes as f64 / MIB as f64);
    }
    if bytes >= KIB {
        return format!("{:.1} KB", bytes as f64 / KIB as f64);
    }
    format!("{bytes} B")
}

#[test]
fn format_bytes_examples() {
    assert_eq!(format_bytes(0), "0 B");
    assert_eq!(format_bytes(1023), "1023 B");
    assert_eq!(format_bytes(1024), "1.0 KB");
    assert_eq!(format_bytes(1536), "1.5 KB");
    assert_eq!(format_bytes(5 * 1024 * 1024), "5.0 MB");
    assert_eq!(format_bytes(3 * 1024 * 1024 * 1024 / 2), "1.5 GB");
}

#[test]
fn format_bytes_matches_float_formatting() {
    let mut samples: Vec<u64> = vec![
        1280, 1331, 1126, 1228, 3174, 104_857, 1_048_575, 1_048_576, 1_153_433, 1_205_862,
        1_073_741_823, 1_073_741_824, 1_181_116_006, 1_234_567_890_123, u64::MAX, u64::MAX - 1,
        (1u64 << 53) + 1, (1u64 << 60) + 3, 9_007_199_254_740_993, 18_014_398_509_481_985,
    ];
    let mut x: u64 = 0x9e37_79b9_7f4a_7c15;
    for _ in 0..5000 {
        x ^= x << 13;
        x ^= x >> 7;
        x ^= x << 17;
        samples.push(x >> (x % 64));
        samples.push(x % (1 << 20));
    }
    for k in 1..8u64 {
        for base in [1024u64, 1024 * 1024, 1024 * 1024 * 1024] {
            samples.push(base * k + base / 4);
            samples.push(base * k + base * 3 / 4);
            samples.push(base * k + base / 20);
            samples.push(base * k + base * 3 / 20);
        }
    }
    for bytes in samples {
        assert_eq!(format_bytes(bytes), float_format(bytes), "bytes = {bytes}");
    }
}

#[test]
fn download_labels() {
    assert_eq!(download_state_label(&DownloadState::InProgress), "In progress");
    assert_eq!(download_state_label(&DownloadState::Completed), "Complete");
    assert_eq!(download_security_label(&DownloadSecurity::DangerousExtension), "Extension prompt required");
    assert_eq!(download_size_label(2048, Some(4096)), "2.0 KB of 4.0 KB");
    assert_eq!(download_size_label(12, None), "12 B");
    let ask = DownloadPolicy { destination: DownloadDestination::AskEveryTime };
    let fixed = DownloadPolicy { destination: DownloadDestination::FixedDirectory("/tmp/dl".to_string()) };
    assert_eq!(download_policy_label(&ask), "Profile path: Ask before saving");
    assert_eq!(download_policy_label(&fixed), "Profile path: /tmp/dl");
    assert_eq!(download_destination_label(&fixed.destination), "/tmp/dl");
    assert_eq!(download_destination_short_label(&ask), "Ask Every Time");
    assert_eq!(download_destination_short_label(&fixed), "Fixed Folder");
    assert_eq!(download_entry_location_label(Some("/tmp/a.zip"), &ask.destination), "/tmp/a.zip");
    assert_eq!(download_entry_location_label(None, &ask.destination), "Ask before saving");
    assert_eq!(download_policy_button_label(true), "Active");
    assert_eq!(download_policy_button_label(false), "Select");
}

#[test]
fn download_rows_offer_actions_by_state() {
    assert_eq!(download_actions(&DownloadState::InProgress, false), vec![DownloadAction::Pause, DownloadAction::Cancel]);
    assert_eq!(download_actions(&DownloadState::Paused, true), vec![DownloadAction::Resume, DownloadAction::Cancel]);
    assert_eq!(download_actions(&DownloadState::Failed, false), vec![DownloadAction::Retry]);
    assert_eq!(download_actions(&DownloadState::Cancelled, true), vec![DownloadAction::Retry]);
    assert_eq!(download_actions(&DownloadState::Completed, true), vec![DownloadAction::OpenFile, DownloadAction::RevealFile]);
    assert!(download_actions(&DownloadState::Completed, false).is_empty());
    assert_eq!(download_action_tooltip(DownloadAction::RevealFile), "Reveal in Finder");
    assert_eq!(download_action_tooltip(DownloadAction::Pause), "Pause Download");
}
