use hagias::display::{DisplayLayout, DisplayPath, DisplayPathSource, DisplayPathTarget};
use hagias::windows_util::{
    DisplayError, DisplayRotation, DisplayScaling, IdAndAdapterId, LuidWrapper, NativeModeData,
    NativeModeInfo, NativePathInfo, NativePathSourceInfo, NativePathTargetInfo, NativeSourceMode,
    NativeVideoSignalInfo, OutputTechnology, PixelFormat, Point, Rational, Region,
    ScanlineOrdering, SourceDeviceName, TargetDeviceName, VideoStandard, WindowsDisplayConfig,
};

fn adapter1() -> LuidWrapper {
    LuidWrapper {
        low_part: 11,
        high_part: 0,
    }
}

fn source_mode_record(id: u32, adapter_id: LuidWrapper, width: u32, height: u32) -> NativeModeInfo {
    NativeModeInfo {
        id,
        adapter_id,
        data: NativeModeData::Source(NativeSourceMode {
            width,
            height,
            pixel_format: 4,
            position: Point { x: 0, y: 0 },
        }),
    }
}

fn target_mode_record(id: u32, adapter_id: LuidWrapper) -> NativeModeInfo {
    NativeModeInfo {
        id,
        adapter_id,
        data: NativeModeData::Target(NativeVideoSignalInfo {
            pixel_rate: 148_500_000,
            h_sync_freq: Rational {
                numerator: 67500,
                denominator: 1,
            },
            v_sync_freq: Rational {
                numerator: 60,
                denominator: 1,
            },
            active_size: Region { x: 1920, y: 1080 },
            total_size: Region { x: 2200, y: 1125 },
            // video standard 5 with vertical-sync divisor 1
            additional_signal_info: 5 | (1 << 16),
            scanline_ordering: 1,
        }),
    }
}

fn active_path(
    adapter_id: LuidWrapper,
    source_id: u32,
    source_idx: u32,
    target_id: u32,
    target_idx: u32,
) -> NativePathInfo {
    NativePathInfo {
        source_info: NativePathSourceInfo {
            adapter_id,
            id: source_id,
            mode_info_idx: source_idx,
            status_flags: 1,
        },
        target_info: NativePathTargetInfo {
            adapter_id,
            id: target_id,
            mode_info_idx: target_idx,
            output_technology: 5,
            rotation: 1,
            scaling: 2,
            refresh_rate: Rational {
                numerator: 60,
                denominator: 1,
            },
            scanline_ordering: 1,
            target_available: true,
            status_flags: 1,
        },
        flags: 1,
    }
}

fn target_name(path: &str) -> TargetDeviceName {
    TargetDeviceName {
        flags: 4,
        output_technology: 5,
        edid_manufacture_id: 0x1234,
        edid_product_code_id: 0x5678,
        connector_instance: 1,
        monitor_friendly_device_name: "Monitor".to_string(),
        monitor_device_path: path.to_string(),
    }
}

/// Two active paths, two source modes, two target modes, one adapter.
fn dual_monitor_config() -> WindowsDisplayConfig {
    let a = adapter1();
    WindowsDisplayConfig::from_parts(
        vec![
            active_path(a, 1, 0, 100, 1),
            active_path(a, 2, 2, 200, 3),
        ],
        vec![
            source_mode_record(1, a, 1920, 1080),
            target_mode_record(100, a),
            source_mode_record(2, a, 2560, 1440),
            target_mode_record(200, a),
        ],
        vec![(a, "PCI#VEN_10DE#ADAPTER_ONE".to_string())],
        vec![
            (
                IdAndAdapterId { id: 1, adapter_id: a },
                SourceDeviceName {
                    view_gdi_device_name: "DISPLAY1".to_string(),
                },
            ),
            (
                IdAndAdapterId { id: 2, adapter_id: a },
                SourceDeviceName {
                    view_gdi_device_name: "DISPLAY2".to_string(),
                },
            ),
        ],
        vec![
            (IdAndAdapterId { id: 100, adapter_id: a }, target_name("MONITOR#AAA")),
            (IdAndAdapterId { id: 200, adapter_id: a }, target_name("MONITOR#BBB")),
        ],
    )
}

#[test]
fn build_dual_monitor_layout() {
    // Example scenario: two paths with two distinct source modes each
    // feeding one target.
    let config = dual_monitor_config();
    let layout = DisplayLayout::from_windows(&config).expect("build should succeed");
    assert_eq!(layout.source_modes.len(), 2);
    assert_eq!(layout.target_modes.len(), 2);
    assert_eq!(layout.paths.len(), 2);
    let i0 = layout.paths[0].source.source_mode_index;
    let i1 = layout.paths[1].source.source_mode_index;
    assert!(i0 < 2 && i1 < 2 && i0 != i1);
    let t0 = layout.paths[0].target.target_mode_index;
    let t1 = layout.paths[1].target.target_mode_index;
    assert!(t0 < 2 && t1 < 2 && t0 != t1);
    assert_eq!(layout.source_modes[i0].width, 1920);
    assert_eq!(layout.source_modes[i1].width, 2560);
    assert_eq!(layout.source_modes[i0].pixel_format, PixelFormat::Bpp32);
    assert_eq!(
        layout.source_modes[i0].device.adapter.device_instance_path,
        "PCI#VEN_10DE#ADAPTER_ONE"
    );
    assert_eq!(layout.source_modes[i0].device.gdi_device_name, "DISPLAY1");
    let tm = &layout.target_modes[t0];
    assert_eq!(tm.video_standard, VideoStandard::Apple);
    assert_eq!(tm.v_sync_freq_divider, 1);
    assert_eq!(tm.scanline_ordering, ScanlineOrdering::Progressive);
    assert_eq!(tm.device.id, 100);
    assert_eq!(tm.device.output_technology, OutputTechnology::Hdmi);
    assert_eq!(tm.device.edid_manufacture_id, Some(0x1234));
    assert_eq!(tm.device.monitor_device_path.as_deref(), Some("MONITOR#AAA"));
    assert_eq!(layout.paths[0].target.rotation, DisplayRotation::Identity);
    assert_eq!(layout.paths[0].target.scaling, DisplayScaling::Centered);
}

#[test]
fn build_deduplicates_shared_source_mode() {
    // Dedup: two paths referencing the same native source-mode index
    // yield exactly one source mode.
    let a = adapter1();
    let config = WindowsDisplayConfig::from_parts(
        vec![
            active_path(a, 1, 0, 100, 1),
            active_path(a, 1, 0, 200, 2),
        ],
        vec![
            source_mode_record(1, a, 1920, 1080),
            target_mode_record(100, a),
            target_mode_record(200, a),
        ],
        vec![(a, "ADAPTER".to_string())],
        vec![(
            IdAndAdapterId { id: 1, adapter_id: a },
            SourceDeviceName {
                view_gdi_device_name: "DISPLAY1".to_string(),
            },
        )],
        vec![
            (IdAndAdapterId { id: 100, adapter_id: a }, target_name("MONITOR#AAA")),
            (IdAndAdapterId { id: 200, adapter_id: a }, target_name("MONITOR#BBB")),
        ],
    );
    let layout = DisplayLayout::from_windows(&config).expect("build should succeed");
    assert_eq!(layout.source_modes.len(), 1);
    assert_eq!(layout.target_modes.len(), 2);
    assert_eq!(layout.paths.len(), 2);
    assert_eq!(layout.paths[0].source.source_mode_index, 0);
    assert_eq!(layout.paths[1].source.source_mode_index, 0);
}

#[test]
fn build_skips_inactive_paths() {
    let a = adapter1();
    let mut inactive = active_path(a, 1, 0, 100, 1);
    inactive.flags = 0;
    let config = WindowsDisplayConfig::from_parts(
        vec![inactive],
        vec![source_mode_record(1, a, 1920, 1080), target_mode_record(100, a)],
        vec![(a, "ADAPTER".to_string())],
        vec![],
        vec![],
    );
    let layout = DisplayLayout::from_windows(&config).expect("build should succeed");
    assert_eq!(layout.source_modes.len(), 0);
    assert_eq!(layout.target_modes.len(), 0);
    assert_eq!(layout.paths.len(), 0);
}

#[test]
fn build_rejects_virtual_mode_path() {
    let a = adapter1();
    let mut path = active_path(a, 1, 0, 100, 1);
    path.flags = 1 | 8;
    let config = WindowsDisplayConfig::from_parts(
        vec![path],
        vec![source_mode_record(1, a, 1920, 1080), target_mode_record(100, a)],
        vec![(a, "ADAPTER".to_string())],
        vec![],
        vec![],
    );
    let err = DisplayLayout::from_windows(&config).unwrap_err();
    assert_eq!(err, DisplayError::VirtualModeNotSupported);
}

#[test]
fn build_rejects_out_of_range_source_index() {
    let a = adapter1();
    let config = WindowsDisplayConfig::from_parts(
        vec![active_path(a, 1, 9, 100, 1)],
        vec![source_mode_record(1, a, 1920, 1080), target_mode_record(100, a)],
        vec![(a, "ADAPTER".to_string())],
        vec![],
        vec![],
    );
    let err = DisplayLayout::from_windows(&config).unwrap_err();
    assert_eq!(err, DisplayError::SourceModeNotFound { mode_index: 9 });
}

#[test]
fn build_rejects_wrong_mode_type() {
    let a = adapter1();
    // The path's source index points at a target-type record.
    let config = WindowsDisplayConfig::from_parts(
        vec![active_path(a, 1, 1, 100, 0)],
        vec![source_mode_record(1, a, 1920, 1080), target_mode_record(100, a)],
        vec![(a, "ADAPTER".to_string())],
        vec![],
        vec![],
    );
    let err = DisplayLayout::from_windows(&config).unwrap_err();
    assert_eq!(err, DisplayError::NotASourceMode { mode_index: 1 });
}

#[test]
fn build_fails_without_adapter_path() {
    let a = adapter1();
    let config = WindowsDisplayConfig::from_parts(
        vec![active_path(a, 1, 0, 100, 1)],
        vec![source_mode_record(1, a, 1920, 1080), target_mode_record(100, a)],
        vec![],
        vec![],
        vec![],
    );
    let err = DisplayLayout::from_windows(&config).unwrap_err();
    assert_eq!(err, DisplayError::AdapterPathUnresolved { adapter_id: a });
}

#[test]
fn build_tolerates_missing_device_names() {
    // An unresolved source or target name is not fatal; the devices come
    // back with empty diagnostics and no stable identity.
    let a = adapter1();
    let config = WindowsDisplayConfig::from_parts(
        vec![active_path(a, 1, 0, 100, 1)],
        vec![source_mode_record(1, a, 1920, 1080), target_mode_record(100, a)],
        vec![(a, "ADAPTER".to_string())],
        vec![],
        vec![],
    );
    let layout = DisplayLayout::from_windows(&config).expect("build should succeed");
    assert_eq!(layout.source_modes[0].device.gdi_device_name, "");
    assert_eq!(layout.target_modes[0].device.monitor_device_path, None);
    assert_eq!(layout.target_modes[0].device.monitor_friendly_device_name, None);
    assert_eq!(layout.target_modes[0].device.edid_manufacture_id, None);
}

#[test]
fn round_trip_reapplies_equivalent_configuration() {
    // Round trip: materializing the built layout against the same
    // enumeration reproduces the active configuration.
    let config = dual_monitor_config();
    let layout = DisplayLayout::from_windows(&config).expect("build should succeed");
    assert!(layout.is_well_formed());
    let out = layout.to_windows(&config).expect("materialize should succeed");
    assert_eq!(out.modes.len(), 4);
    assert_eq!(out.paths.len(), 2);
    // Sources come first, then targets; ids and adapters survive.
    let ns = layout.source_modes.len();
    for (i, sm) in layout.source_modes.iter().enumerate() {
        match out.modes[i].data {
            NativeModeData::Source(s) => {
                assert_eq!(s.width, sm.width);
                assert_eq!(s.height, sm.height);
            }
            _ => panic!("expected a source record"),
        }
        assert_eq!(out.modes[i].id, sm.device.id);
        assert_eq!(out.modes[i].adapter_id, adapter1());
    }
    for (j, tm) in layout.target_modes.iter().enumerate() {
        match out.modes[ns + j].data {
            NativeModeData::Target(s) => {
                assert_eq!(s.additional_signal_info, 5 | (1 << 16));
                assert_eq!(s.active_size, Region { x: 1920, y: 1080 });
            }
            _ => panic!("expected a target record"),
        }
        assert_eq!(out.modes[ns + j].id, tm.device.id);
    }
    for (k, p) in out.paths.iter().enumerate() {
        assert_eq!(p.flags, 1);
        assert_eq!(p.source_info.mode_info_idx as usize, layout.paths[k].source.source_mode_index);
        assert_eq!(
            p.target_info.mode_info_idx as usize,
            ns + layout.paths[k].target.target_mode_index
        );
        assert_eq!(p.target_info.output_technology, 5);
        assert_eq!(p.target_info.rotation, 1);
        assert_eq!(p.target_info.scaling, 2);
        assert_eq!(p.target_info.scanline_ordering, 1);
        assert!(p.target_info.target_available);
    }
}

#[test]
fn materialize_fails_for_unknown_adapter_path() {
    let config = dual_monitor_config();
    let mut layout = DisplayLayout::from_windows(&config).expect("build should succeed");
    layout.source_modes[0].device.adapter.device_instance_path = "PCI#GONE".to_string();
    let err = layout.to_windows(&config).unwrap_err();
    assert_eq!(
        err,
        DisplayError::AdapterIdNotFound {
            device_path: "PCI#GONE".to_string()
        }
    );
}

#[test]
fn materialize_falls_back_to_stored_id() {
    // Fallback: a stored target whose device path matches nothing live
    // succeeds with the originally stored numeric id.
    let config = dual_monitor_config();
    let mut layout = DisplayLayout::from_windows(&config).expect("build should succeed");
    let t0 = layout.paths[0].target.target_mode_index;
    layout.target_modes[t0].device.monitor_device_path = Some("MONITOR#UNPLUGGED".to_string());
    layout.target_modes[t0].device.id = 777;
    let out = layout.to_windows(&config).expect("materialize should fall back");
    let ns = layout.source_modes.len();
    assert_eq!(out.modes[ns + t0].id, 777);
}

#[test]
fn matching_detects_ambiguous_device_paths() {
    // Ambiguity: two live targets on one adapter with one device path is
    // a fatal error, not a silent pick.
    let a = adapter1();
    let config = WindowsDisplayConfig::from_parts(
        vec![active_path(a, 1, 0, 100, 1)],
        vec![
            source_mode_record(1, a, 1920, 1080),
            target_mode_record(100, a),
            target_mode_record(200, a),
        ],
        vec![(a, "ADAPTER".to_string())],
        vec![],
        vec![
            (IdAndAdapterId { id: 100, adapter_id: a }, target_name("MONITOR#SAME")),
            (IdAndAdapterId { id: 200, adapter_id: a }, target_name("MONITOR#SAME")),
        ],
    );
    let layout = DisplayLayout::from_windows(&config).expect("build should succeed");
    let err = layout.to_windows(&config).unwrap_err();
    assert_eq!(
        err,
        DisplayError::AmbiguousTargetDevicePath {
            device_path: "MONITOR#SAME".to_string()
        }
    );
}

#[test]
fn matching_requires_stored_device_path() {
    let config = dual_monitor_config();
    let mut layout = DisplayLayout::from_windows(&config).expect("build should succeed");
    let t0 = layout.paths[0].target.target_mode_index;
    layout.target_modes[t0].device.monitor_device_path = None;
    let err = layout.to_windows(&config).unwrap_err();
    assert_eq!(err, DisplayError::TargetDevicePathMissing);
}

#[test]
fn matching_requires_resolvable_candidates() {
    // A candidate target id without a resolved name record stops the
    // materialization.
    let a = adapter1();
    let config = WindowsDisplayConfig::from_parts(
        vec![active_path(a, 1, 0, 100, 1)],
        vec![
            source_mode_record(1, a, 1920, 1080),
            target_mode_record(100, a),
            target_mode_record(200, a),
        ],
        vec![(a, "ADAPTER".to_string())],
        vec![],
        vec![(IdAndAdapterId { id: 100, adapter_id: a }, target_name("MONITOR#AAA"))],
    );
    let layout = DisplayLayout::from_windows(&config).expect("build should succeed");
    let err = layout.to_windows(&config).unwrap_err();
    assert_eq!(err, DisplayError::TargetDeviceUnresolved { adapter_id: a });
}

#[test]
fn matching_picks_the_unique_match() {
    let config = dual_monitor_config();
    let stored = DisplayLayout::from_windows(&config).expect("build should succeed");
    let t = &stored.target_modes[0];
    let id = config
        .get_matching_target_mode_id(adapter1(), t)
        .expect("match should succeed");
    assert_eq!(id, t.device.id);
}

#[test]
fn well_formedness_check_rejects_bad_indices() {
    let layout = DisplayLayout {
        source_modes: vec![],
        target_modes: vec![],
        paths: vec![DisplayPath {
            source: DisplayPathSource {
                source_mode_index: 0,
            },
            target: DisplayPathTarget {
                target_mode_index: 0,
                output_technology: OutputTechnology::Hdmi,
                rotation: DisplayRotation::Identity,
                scaling: DisplayScaling::Identity,
                refresh_rate: Rational {
                    numerator: 60,
                    denominator: 1,
                },
                scanline_ordering: ScanlineOrdering::Progressive,
            },
        }],
    };
    assert!(!layout.is_well_formed());
    let empty = DisplayLayout {
        source_modes: vec![],
        target_modes: vec![],
        paths: vec![],
    };
    assert!(empty.is_well_formed());
}

#[test]
fn referenced_ids_are_distinct_and_complete() {
    let a = adapter1();
    let b = LuidWrapper {
        low_part: 22,
        high_part: 0,
    };
    let paths = vec![active_path(a, 1, 0, 100, 1)];
    let modes = vec![
        source_mode_record(1, a, 1920, 1080),
        target_mode_record(100, a),
        target_mode_record(300, b),
    ];
    let adapters = hagias::windows_util::referenced_adapter_ids(&paths, &modes);
    assert_eq!(adapters, vec![a, b]);
    let devices = hagias::windows_util::referenced_device_ids(&paths, &modes);
    assert_eq!(
        devices,
        vec![
            IdAndAdapterId { id: 1, adapter_id: a },
            IdAndAdapterId { id: 100, adapter_id: a },
            IdAndAdapterId { id: 300, adapter_id: b },
        ]
    );
}

#[test]
fn build_of_empty_enumeration_is_empty() {
    let config = WindowsDisplayConfig::from_parts(vec![], vec![], vec![], vec![], vec![]);
    let layout = DisplayLayout::from_windows(&config).expect("build should succeed");
    assert_eq!(layout.source_modes.len(), 0);
    assert_eq!(layout.target_modes.len(), 0);
    assert_eq!(layout.paths.len(), 0);
    let out = layout.to_windows(&config).expect("materialize should succeed");
    assert_eq!(out.modes.len(), 0);
    assert_eq!(out.paths.len(), 0);
}
