use rproc::monitor::gpu::{parse_first_cpu, parse_pmu_event_config};

#[test]
fn parses_pmu_event_config_simple() {
    assert_eq!(parse_pmu_event_config("config=0x100003"), Some(0x100003));
    assert_eq!(parse_pmu_event_config("config=0x0"), Some(0));
}

#[test]
fn parses_pmu_event_config_with_extra_fields() {
    assert_eq!(
        parse_pmu_event_config("event=0x12,config=0xabcd,umask=0x1"),
        Some(0xabcd)
    );
}

#[test]
fn parses_pmu_event_config_missing() {
    assert_eq!(parse_pmu_event_config("event=0x12"), None);
}

#[test]
fn parses_first_cpu_single() {
    assert_eq!(parse_first_cpu("0"), Some(0));
    assert_eq!(parse_first_cpu("7"), Some(7));
}

#[test]
fn parses_first_cpu_range() {
    assert_eq!(parse_first_cpu("2-5"), Some(2));
}

#[test]
fn parses_first_cpu_list() {
    assert_eq!(parse_first_cpu("4,8,12"), Some(4));
}

use rproc::monitor::gpu::{
    arm_vendor, card_order, classify_card, devfreq_cur_freq, drm_card_index, is_arm_driver,
    is_card_entry, parse_sysfs_u64, pci_label, pick_clock_mhz, pmu_candidates, pmu_lookup,
    GpuVendor, PmuCounters, gpu_name, pci_model,
};

#[test]
fn event_config_edge_cases() {
    assert_eq!(parse_pmu_event_config(" config = 0x1f \n"), Some(0x1f));
    assert_eq!(parse_pmu_event_config("config=ff"), Some(0xff));
    assert_eq!(parse_pmu_event_config("config=0X10"), None);
    assert_eq!(parse_pmu_event_config("umask,config=0x1"), None);
    assert_eq!(parse_pmu_event_config("event=0x12,umask"), None);
    assert_eq!(parse_pmu_event_config(""), None);
    assert_eq!(parse_pmu_event_config("config=0x"), None);
    assert_eq!(parse_pmu_event_config("config=0x+1"), Some(1));
    assert_eq!(parse_pmu_event_config("config=0xffffffffffffffff"), Some(u64::MAX));
    assert_eq!(parse_pmu_event_config("config=0x10000000000000000"), None);
}

#[test]
fn first_cpu_edge_cases() {
    assert_eq!(parse_first_cpu(" 3 - 5\n"), Some(3));
    assert_eq!(parse_first_cpu(""), None);
    assert_eq!(parse_first_cpu("x"), None);
    assert_eq!(parse_first_cpu("+4"), Some(4));
    assert_eq!(parse_first_cpu("4294967295"), Some(u32::MAX));
    assert_eq!(parse_first_cpu("4294967296"), None);
    assert_eq!(parse_first_cpu("-3"), None);
}

#[test]
fn card_index_from_directory_name() {
    assert_eq!(drm_card_index("card1"), Some(1));
    assert_eq!(drm_card_index("card12"), Some(12));
    assert_eq!(drm_card_index("card"), None);
    assert_eq!(drm_card_index("renderD128"), None);
    assert_eq!(drm_card_index("card1-DP-1"), None);
}

#[test]
fn card_entries() {
    assert!(is_card_entry("card0"));
    assert!(!is_card_entry("card0-HDMI-A-1"));
    assert!(!is_card_entry("renderD128"));
    assert!(!is_card_entry("version"));
}

#[test]
fn arm_drivers_and_vendors() {
    assert!(is_arm_driver("panfrost"));
    assert!(is_arm_driver("host1x"));
    assert!(!is_arm_driver("virtio_gpu"));
    assert!(!is_arm_driver("Panfrost"));
    assert_eq!(arm_vendor("panfrost"), ("ARM Mali", "panfrost"));
    assert_eq!(arm_vendor("msm"), ("Qualcomm Adreno", "msm"));
    assert_eq!(arm_vendor("host1x"), ("NVIDIA Tegra", "tegra"));
    assert_eq!(arm_vendor("qxl"), ("ARM GPU", "unknown"));
}

#[test]
fn card_classification() {
    assert_eq!(classify_card("0x1002\n", None), Some(GpuVendor::Amd));
    assert_eq!(classify_card(" 0x8086 ", Some("i915")), Some(GpuVendor::Intel));
    assert_eq!(classify_card("0x1002", Some("panfrost")), Some(GpuVendor::Amd));
    assert_eq!(classify_card("", Some("panfrost")), Some(GpuVendor::Arm));
    assert_eq!(classify_card("0x1af4", Some("virtio_gpu")), None);
    assert_eq!(classify_card("0x15ad", None), None);
}

#[test]
fn device_labels() {
    assert_eq!(pci_label("  Radeon RX 7600  \n"), Some("Radeon RX 7600".to_string()));
    assert_eq!(pci_label(" \n\t"), None);
}

#[test]
fn intel_cards_sorted_stably_by_number() {
    let keys = [Some(2), None, Some(0), Some(2), Some(1)];
    assert_eq!(card_order(&keys), vec![2, 4, 0, 3, 1]);
    assert_eq!(card_order(&[]), Vec::<usize>::new());
    assert_eq!(card_order(&[None, None]), vec![0, 1]);
}

#[test]
fn devfreq_first_positive_reading() {
    assert_eq!(devfreq_cur_freq(&[None, Some(0), Some(800_000_000), Some(5)]), Some(800));
    assert_eq!(devfreq_cur_freq(&[Some(999_999)]), Some(0));
    assert_eq!(devfreq_cur_freq(&[None, Some(0)]), None);
}

#[test]
fn clock_reading_choice() {
    assert_eq!(pick_clock_mhz(Some(1500), Some(300)), 1500);
    assert_eq!(pick_clock_mhz(None, Some(1300)), 1300);
    assert_eq!(pick_clock_mhz(None, None), 0);
    assert_eq!(pick_clock_mhz(Some(0x1_0000_0005), None), 5);
}

#[test]
fn pmu_names_per_card() {
    assert_eq!(pmu_candidates(0), vec!["i915", "xe", "i915.0", "xe.0"]);
    assert_eq!(pmu_candidates(3), vec!["i915.3", "xe.3"]);
    assert_eq!(pmu_candidates(12), vec!["i915.12", "xe.12"]);
}

#[test]
fn pmu_counter_intervals() {
    let mut c = PmuCounters::new();
    assert!(c.advance(100, 1000).is_none());
    let iv = c.advance(400, 2000).unwrap();
    assert_eq!((iv.idle_ns, iv.elapsed_ns), (300, 1000));
    assert!(c.advance(500, 2000).is_none());
    let iv = c.advance(100, 2500).unwrap();
    assert_eq!((iv.idle_ns, iv.elapsed_ns), (0, 500));
    assert_eq!((c.last_rc6_ns, c.last_time_ns, c.primed), (100, 2500, true));
}

#[test]
fn pmu_files_combined() {
    assert_eq!(pmu_lookup("9\n", "config=0x12\n", Some("0-7\n")), Some((9, 0x12, 0)));
    assert_eq!(pmu_lookup("9", "config=0x12", Some("4,8")), Some((9, 0x12, 4)));
    assert_eq!(pmu_lookup("9", "config=0x12", None), Some((9, 0x12, 0)));
    assert_eq!(pmu_lookup("9", "config=0x12", Some("garbage")), Some((9, 0x12, 0)));
    assert_eq!(pmu_lookup("nine", "config=0x12", None), None);
    assert_eq!(pmu_lookup("9", "event=0x12", None), None);
}

#[test]
fn sysfs_numbers() {
    assert_eq!(parse_sysfs_u64(" 42\n"), Some(42));
    assert_eq!(parse_sysfs_u64("-1"), None);
    assert_eq!(parse_sysfs_u64("18446744073709551615"), Some(u64::MAX));
    assert_eq!(parse_sysfs_u64("18446744073709551616"), None);
    assert_eq!(parse_sysfs_u64("4 2"), None);
}

#[test]
fn gpu_display_names() {
    assert_eq!(gpu_name(Some("Radeon RX 6600".to_string()), "AMD"), "Radeon RX 6600");
    assert_eq!(gpu_name(None, "Mali"), "Mali GPU");
    assert_eq!(gpu_name(None, ""), " GPU");
}

#[test]
fn device_model_names() {
    assert_eq!(pci_model(Some("  Arc A770 \n"), Some("card1")), Some("Arc A770".to_string()));
    assert_eq!(pci_model(Some(" \n"), Some("card1")), Some("card1".to_string()));
    assert_eq!(pci_model(None, Some("card0")), Some("card0".to_string()));
    assert_eq!(pci_model(None, None), None);
    assert_eq!(pci_model(Some(""), None), None);
}
