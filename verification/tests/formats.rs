use hagias::windows_util::{
    format_output_technology, format_rational_frequency, get_monitor_device_path,
    get_monitor_friendly_device_name, is_target_device_edid_ids_valid,
    is_target_device_friendly_name_forced, is_target_device_friendly_name_from_edid,
    pack_additional_signal_info, unpack_v_sync_freq_divider, unpack_video_standard,
    DisplayQueryType, DisplayRotation, DisplayScaling, OutputTechnology, PixelFormat, Rational,
    ScanlineOrdering, TargetDeviceName, VideoStandard,
};

#[test]
fn query_type_flags() {
    assert_eq!(DisplayQueryType::All.to_flags(), 1);
    assert_eq!(DisplayQueryType::Active.to_flags(), 2);
    assert_eq!(DisplayQueryType::Database.to_flags(), 4);
}

#[test]
fn signal_info_packs_exactly() {
    assert_eq!(pack_additional_signal_info(0x1234, 5), 0x0005_1234);
    assert_eq!(pack_additional_signal_info(0, 0), 0);
    // Out-of-range inputs are masked to their bit fields.
    assert_eq!(pack_additional_signal_info(0x1_0001, 0x41), 0x0001_0001);
}

#[test]
fn signal_info_unpacks_exactly() {
    assert_eq!(unpack_video_standard(0x0005_1234), 0x1234);
    assert_eq!(unpack_v_sync_freq_divider(0x0005_1234), 5);
    // Reserved upper bits do not leak into either value.
    assert_eq!(unpack_video_standard(0xFFC5_1234), 0x1234);
    assert_eq!(unpack_v_sync_freq_divider(0xFFC5_1234), 5);
}

#[test]
fn signal_info_round_trips() {
    let field = pack_additional_signal_info(unpack_video_standard(0xFFC5_1234),
        unpack_v_sync_freq_divider(0xFFC5_1234));
    assert_eq!(field, 0x0005_1234);
    assert_eq!(unpack_video_standard(field), 0x1234);
    assert_eq!(unpack_v_sync_freq_divider(field), 5);
}

#[test]
fn output_technology_discriminants() {
    assert_eq!(OutputTechnology::from_discriminant(5), OutputTechnology::Hdmi);
    assert_eq!(OutputTechnology::from_discriminant(0), OutputTechnology::Hd15);
    assert_eq!(OutputTechnology::from_discriminant(i32::MIN), OutputTechnology::Internal);
    assert_eq!(OutputTechnology::from_discriminant(7), OutputTechnology::Other(7));
    assert_eq!(OutputTechnology::Hdmi.discriminant(), 5);
    assert_eq!(OutputTechnology::Internal.discriminant(), i32::MIN);
    assert_eq!(OutputTechnology::Other(-1).discriminant(), -1);
    assert_eq!(OutputTechnology::from_discriminant(18).discriminant(), 18);
}

#[test]
fn rotation_and_scaling_discriminants() {
    assert_eq!(DisplayRotation::from_discriminant(1), DisplayRotation::Identity);
    assert_eq!(DisplayRotation::from_discriminant(4), DisplayRotation::Rotate270);
    assert_eq!(DisplayRotation::from_discriminant(9), DisplayRotation::Unknown(9));
    assert_eq!(DisplayScaling::from_discriminant(128), DisplayScaling::Preferred);
    assert_eq!(DisplayScaling::from_discriminant(3), DisplayScaling::Stretched);
    assert_eq!(DisplayScaling::Preferred.discriminant(), 128);
}

#[test]
fn video_standard_and_pixel_format_discriminants() {
    assert_eq!(VideoStandard::from_discriminant(1), VideoStandard::VesaDmt);
    assert_eq!(VideoStandard::from_discriminant(31), VideoStandard::PalM);
    assert_eq!(VideoStandard::from_discriminant(255), VideoStandard::Other(255));
    assert_eq!(VideoStandard::PalM.discriminant(), 31);
    assert_eq!(PixelFormat::from_discriminant(4), PixelFormat::Bpp32);
    assert_eq!(PixelFormat::from_discriminant(0), PixelFormat::Unknown(0));
    assert_eq!(ScanlineOrdering::from_discriminant(2),
        ScanlineOrdering::InterlacedUpperFieldFirst);
    assert_eq!(ScanlineOrdering::Progressive.discriminant(), 1);
}

#[test]
fn output_technology_names() {
    assert_eq!(format_output_technology(5), "Hdmi");
    assert_eq!(format_output_technology(0), "Hd15");
    assert_eq!(format_output_technology(i32::MIN), "Internal");
    assert_eq!(format_output_technology(7), "Other(7)");
    assert_eq!(format_output_technology(-1), "Other(-1)");
}

#[test]
fn rational_frequency_rendering() {
    let whole = Rational {
        numerator: 120,
        denominator: 1,
    };
    assert_eq!(format_rational_frequency(whole), "120Hz");
    let zero_denominator = Rational {
        numerator: 0,
        denominator: 0,
    };
    assert_eq!(format_rational_frequency(zero_denominator), "0/0");
    let ntsc = Rational {
        numerator: 60000,
        denominator: 1001,
    };
    assert_eq!(format_rational_frequency(ntsc), "59.94Hz (60000/1001)");
    let half = Rational {
        numerator: 1,
        denominator: 2,
    };
    assert_eq!(format_rational_frequency(half), "0.5Hz (1/2)");
    let even = Rational {
        numerator: 120000,
        denominator: 2000,
    };
    assert_eq!(format_rational_frequency(even), "60Hz (120000/2000)");
}

#[test]
fn target_device_name_flags() {
    assert!(is_target_device_friendly_name_from_edid(1));
    assert!(!is_target_device_friendly_name_from_edid(6));
    assert!(is_target_device_friendly_name_forced(2));
    assert!(!is_target_device_friendly_name_forced(5));
    assert!(is_target_device_edid_ids_valid(4));
    assert!(!is_target_device_edid_ids_valid(3));
}

#[test]
fn monitor_names_use_empty_for_absent() {
    let name = TargetDeviceName {
        flags: 0,
        output_technology: 5,
        edid_manufacture_id: 0,
        edid_product_code_id: 0,
        connector_instance: 0,
        monitor_friendly_device_name: "".to_string(),
        monitor_device_path: "MONITOR#AAA".to_string(),
    };
    assert_eq!(get_monitor_friendly_device_name(&name), None);
    assert_eq!(get_monitor_device_path(&name).as_deref(), Some("MONITOR#AAA"));
}
