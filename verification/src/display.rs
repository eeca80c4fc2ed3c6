//! The normalized display topology graph and its two converters.
//!
//! [`DisplayConfigBuilder`] walks a live enumeration's flat arrays and
//! produces a deduplicated, portable [`DisplayLayout`].
//! [`DisplayLayout::to_windows`] re-resolves a stored layout against a
//! fresh enumeration and emits new flat arrays ready to submit.

use vstd::prelude::*;

use crate::windows_util::{
    assoc_find, candidate_resolvable, is_target_candidate, is_target_match, rev_adapter_find,
    spec_pack_additional_signal_info, spec_unpack_v_sync_freq_divider, spec_unpack_video_standard,
    DisplayError, DisplayRotation, DisplayScaling, IdAndAdapterId, LuidWrapper, NativeDisplayConfig,
    NativeModeData, NativeModeInfo, NativePathInfo, NativePathSourceInfo, NativePathTargetInfo,
    NativeSourceMode, NativeVideoSignalInfo, OutputTechnology, PixelFormat, Point, Rational, Region,
    ScanlineOrdering, VideoStandard, WindowsDisplayConfig, DISPLAYCONFIG_PATH_ACTIVE,
    DISPLAYCONFIG_PATH_SUPPORT_VIRTUAL_MODE, DISPLAYCONFIG_SOURCE_IN_USE,
    DISPLAYCONFIG_TARGET_IN_USE, TARGET_DEVICE_NAME_FLAG_EDID_IDS_VALID,
};

verus! {

/// One graphics adapter, identified for persistence by its stable device
/// instance path.
#[derive(Debug, Clone, PartialEq)]
pub struct Adapter {
    pub device_instance_path: String,
}

/// One adapter video source plane.
///
/// The numeric id is assumed stable for the adapter within one boot but is
/// never the persisted authority.
#[derive(Debug, Clone, PartialEq)]
pub struct DisplaySourceDevice {
    pub id: u32,
    pub adapter: Adapter,
    /// Diagnostic only; empty when the live enumeration did not resolve it.
    pub gdi_device_name: String,
}

/// One physical connector or monitor on an adapter.
///
/// The monitor device path, when present, is the preferred stable
/// identity; a target without one can only be re-resolved by falling back
/// to its original numeric id.
#[derive(Debug, Clone, PartialEq)]
pub struct DisplayTargetDevice {
    pub id: u32,
    pub adapter: Adapter,
    pub output_technology: OutputTechnology,
    pub edid_manufacture_id: Option<u16>,
    pub edid_product_code_id: Option<u16>,
    pub connector_instance: u32,
    pub monitor_friendly_device_name: Option<String>,
    pub monitor_device_path: Option<String>,
}

/// One source's active raster description.
#[derive(Debug, Clone, PartialEq)]
pub struct DisplaySourceMode {
    pub device: DisplaySourceDevice,
    pub width: u32,
    pub height: u32,
    pub pixel_format: PixelFormat,
    pub position: Point,
}

/// One target's active timing and signal description.
#[derive(Debug, Clone, PartialEq)]
pub struct DisplayTargetMode {
    pub device: DisplayTargetDevice,
    pub pixel_rate: u64,
    pub h_sync_freq: Rational,
    pub v_sync_freq: Rational,
    pub active_size: Region,
    pub total_size: Region,
    pub video_standard: VideoStandard,
    pub v_sync_freq_divider: u32,
    pub scanline_ordering: ScanlineOrdering,
}

/// The source half of a stored path: an index into
/// [`DisplayLayout::source_modes`].
#[derive(Debug, Clone, Copy, PartialEq, Eq, Structural)]
pub struct DisplayPathSource {
    pub source_mode_index: usize,
}

/// The target half of a stored path: an index into
/// [`DisplayLayout::target_modes`] plus the per-path presentation
/// attributes, which the platform models on the path rather than the mode.
#[derive(Debug, Clone, Copy, PartialEq, Eq, Structural)]
pub struct DisplayPathTarget {
    pub target_mode_index: usize,
    pub output_technology: OutputTechnology,
    pub rotation: DisplayRotation,
    pub scaling: DisplayScaling,
    pub refresh_rate: Rational,
    pub scanline_ordering: ScanlineOrdering,
}

/// One active source-to-target connection in a stored layout.
#[derive(Debug, Clone, Copy, PartialEq, Eq, Structural)]
pub struct DisplayPath {
    pub source: DisplayPathSource,
    pub target: DisplayPathTarget,
}

/// The full normalized snapshot of all active display modes and paths,
/// suitable for persistence and later re-application.
#[derive(Debug, Clone, PartialEq)]
pub struct DisplayLayout {
    pub source_modes: Vec<DisplaySourceMode>,
    pub target_modes: Vec<DisplayTargetMode>,
    pub paths: Vec<DisplayPath>,
}

impl DisplayLayout {
    /// Every path's mode indices point into the two mode lists, and the
    /// lists are small enough that a combined flat array can be indexed
    /// with the platform's 32-bit indices.
    pub open spec fn wf(self) -> bool {
        &&& self.source_modes@.len() + self.target_modes@.len() <= u32::MAX
        &&& forall|k: int|
            0 <= k < self.paths@.len() ==> {
                &&& (#[trigger] self.paths@[k]).source.source_mode_index
                    < self.source_modes@.len()
                &&& self.paths@[k].target.target_mode_index < self.target_modes@.len()
            }
    }

    /// Decides [`DisplayLayout::wf`]; lets an unverified caller test a
    /// layout, for example one read back from a file, before applying it.
    pub fn is_well_formed(&self) -> (r: bool)
        ensures
            r == self.wf(),
    {
        let ns = self.source_modes.len();
        let nt = self.target_modes.len();
        if ns > u32::MAX as usize || nt > u32::MAX as usize {
            return false;
        }
        if (ns as u64) + (nt as u64) > u32::MAX as u64 {
            return false;
        }
        let np = self.paths.len();
        let mut k: usize = 0;
        while k < np
            invariant
                np == self.paths@.len(),
                ns == self.source_modes@.len(),
                nt == self.target_modes@.len(),
                0 <= k <= np,
                forall|j: int|
                    0 <= j < k ==> {
                        &&& (#[trigger] self.paths@[j]).source.source_mode_index < ns
                        &&& self.paths@[j].target.target_mode_index < nt
                    },
            decreases np - k,
        {
            if self.paths[k].source.source_mode_index >= ns
                || self.paths[k].target.target_mode_index >= nt {
                return false;
            }
            k += 1;
        }
        true
    }
}

/// Whether a native path is currently active.
pub open spec fn path_is_active(p: NativePathInfo) -> bool {
    p.flags & DISPLAYCONFIG_PATH_ACTIVE != 0
}

/// Whether a native path carries the unsupported virtual-mode extension.
pub open spec fn path_is_virtual(p: NativePathInfo) -> bool {
    p.flags & DISPLAYCONFIG_PATH_SUPPORT_VIRTUAL_MODE == DISPLAYCONFIG_PATH_SUPPORT_VIRTUAL_MODE
}

/// The predicate under which a native path contributes to a build.
pub open spec fn active_filter() -> spec_fn(NativePathInfo) -> bool {
    |p: NativePathInfo| path_is_active(p)
}

/// The active paths of an enumeration prefix, in order.
pub open spec fn active_paths(paths: Seq<NativePathInfo>) -> Seq<NativePathInfo> {
    paths.filter(active_filter())
}

/// A valid source-mode reference: in range, of source type, on an adapter
/// whose device path resolved.
pub open spec fn source_mode_ok(w: WindowsDisplayConfig, idx: u32) -> bool {
    &&& idx < w.modes@.len()
    &&& w.modes@[idx as int].data is Source
    &&& assoc_find(w.adapter_device_names@, w.modes@[idx as int].adapter_id) is Some
}

/// A valid target-mode reference: in range, of target type, on an adapter
/// whose device path resolved.
pub open spec fn target_mode_ok(w: WindowsDisplayConfig, idx: u32) -> bool {
    &&& idx < w.modes@.len()
    &&& w.modes@[idx as int].data is Target
    &&& assoc_find(w.adapter_device_names@, w.modes@[idx as int].adapter_id) is Some
}

/// Why a path's source-mode reference cannot be built, if it cannot.
pub open spec fn source_error(w: WindowsDisplayConfig, idx: u32) -> Option<DisplayError> {
    if idx >= w.modes@.len() {
        Some(DisplayError::SourceModeNotFound { mode_index: idx })
    } else if !(w.modes@[idx as int].data is Source) {
        Some(DisplayError::NotASourceMode { mode_index: idx })
    } else if assoc_find(w.adapter_device_names@, w.modes@[idx as int].adapter_id) is None {
        Some(
            DisplayError::AdapterPathUnresolved {
                adapter_id: w.modes@[idx as int].adapter_id,
            },
        )
    } else {
        None
    }
}

/// Why a path's target-mode reference cannot be built, if it cannot.
pub open spec fn target_error(w: WindowsDisplayConfig, idx: u32) -> Option<DisplayError> {
    if idx >= w.modes@.len() {
        Some(DisplayError::TargetModeNotFound { mode_index: idx })
    } else if !(w.modes@[idx as int].data is Target) {
        Some(DisplayError::NotATargetMode { mode_index: idx })
    } else if assoc_find(w.adapter_device_names@, w.modes@[idx as int].adapter_id) is None {
        Some(
            DisplayError::AdapterPathUnresolved {
                adapter_id: w.modes@[idx as int].adapter_id,
            },
        )
    } else {
        None
    }
}

/// Why building a path fails, if it fails, in the order the checks run.
pub open spec fn path_error(w: WindowsDisplayConfig, p: NativePathInfo) -> Option<DisplayError> {
    if path_is_virtual(p) {
        Some(DisplayError::VirtualModeNotSupported)
    } else if source_error(w, p.source_info.mode_info_idx) is Some {
        source_error(w, p.source_info.mode_info_idx)
    } else if target_error(w, p.target_info.mode_info_idx) is Some {
        target_error(w, p.target_info.mode_info_idx)
    } else {
        None
    }
}

/// The error on which a build of the whole enumeration stops, if any:
/// the first failing active path's error, scanning from `i`.
pub open spec fn first_build_error_from(w: WindowsDisplayConfig, i: int) -> Option<DisplayError>
    decreases w.paths@.len() - i when 0 <= i <= w.paths@.len()
{
    if i >= w.paths@.len() {
        None
    } else if path_is_active(w.paths@[i]) && path_error(w, w.paths@[i]) is Some {
        path_error(w, w.paths@[i])
    } else {
        first_build_error_from(w, i + 1)
    }
}

/// The error on which building the whole enumeration stops, if any.
pub open spec fn first_build_error(w: WindowsDisplayConfig) -> Option<DisplayError> {
    first_build_error_from(w, 0)
}

/// A built adapter carries exactly the device path the enumeration
/// resolved for this adapter id.
pub open spec fn is_built_adapter(
    w: WindowsDisplayConfig,
    adapter_id: LuidWrapper,
    a: Adapter,
) -> bool {
    assoc_find(w.adapter_device_names@, adapter_id) == Some(a.device_instance_path)
}

/// A built source device: id and adapter kept, the GDI name taken from
/// the resolved name record, or empty when none resolved (an unresolved
/// source name is not fatal).
pub open spec fn is_built_source_device(
    w: WindowsDisplayConfig,
    id: u32,
    adapter_id: LuidWrapper,
    d: DisplaySourceDevice,
) -> bool {
    &&& d.id == id
    &&& is_built_adapter(w, adapter_id, d.adapter)
    &&& match assoc_find(w.source_device_names@, IdAndAdapterId { id, adapter_id }) {
        Some(n) => d.gdi_device_name == n.view_gdi_device_name,
        None => d.gdi_device_name@.len() == 0,
    }
}

/// A built target device: id and adapter kept; connector class, EDID ids,
/// connector instance and the two names taken from the resolved name
/// record, or absent defaults when none resolved (an unresolved target
/// name is not fatal, but the device then has no stable identity).
pub open spec fn is_built_target_device(
    w: WindowsDisplayConfig,
    id: u32,
    adapter_id: LuidWrapper,
    d: DisplayTargetDevice,
) -> bool {
    &&& d.id == id
    &&& is_built_adapter(w, adapter_id, d.adapter)
    &&& match assoc_find(w.target_device_names@, IdAndAdapterId { id, adapter_id }) {
        Some(n) => {
            &&& d.output_technology == OutputTechnology::spec_from_discriminant(
                n.output_technology,
            )
            &&& if n.flags & TARGET_DEVICE_NAME_FLAG_EDID_IDS_VALID != 0 {
                d.edid_manufacture_id == Some(n.edid_manufacture_id)
                    && d.edid_product_code_id == Some(n.edid_product_code_id)
            } else {
                d.edid_manufacture_id is None && d.edid_product_code_id is None
            }
            &&& d.connector_instance == n.connector_instance
            &&& match d.monitor_friendly_device_name {
                Some(s) => s@ == n.monitor_friendly_device_name@ && s@.len() > 0,
                None => n.monitor_friendly_device_name@.len() == 0,
            }
            &&& match d.monitor_device_path {
                Some(s) => s@ == n.monitor_device_path@ && s@.len() > 0,
                None => n.monitor_device_path@.len() == 0,
            }
        },
        None => {
            &&& d.output_technology == OutputTechnology::Other(-1i32)
            &&& d.edid_manufacture_id is None
            &&& d.edid_product_code_id is None
            &&& d.connector_instance == 0
            &&& d.monitor_friendly_device_name is None
            &&& d.monitor_device_path is None
        },
    }
}

/// A built source mode: the native record's geometry copied and its
/// owning device resolved.
pub open spec fn is_built_source_mode(
    w: WindowsDisplayConfig,
    idx: u32,
    m: DisplaySourceMode,
) -> bool {
    &&& source_mode_ok(w, idx)
    &&& {
        let rec = w.modes@[idx as int];
        match rec.data {
            NativeModeData::Source(sm) => {
                &&& is_built_source_device(w, rec.id, rec.adapter_id, m.device)
                &&& m.width == sm.width
                &&& m.height == sm.height
                &&& m.pixel_format == PixelFormat::spec_from_discriminant(sm.pixel_format)
                &&& m.position == sm.position
            },
            _ => false,
        }
    }
}

/// A built target mode: the native record's signal copied, the packed
/// additional-signal-info field unpacked, and its owning device resolved.
pub open spec fn is_built_target_mode(
    w: WindowsDisplayConfig,
    idx: u32,
    m: DisplayTargetMode,
) -> bool {
    &&& target_mode_ok(w, idx)
    &&& {
        let rec = w.modes@[idx as int];
        match rec.data {
            NativeModeData::Target(sig) => {
                &&& is_built_target_device(w, rec.id, rec.adapter_id, m.device)
                &&& m.pixel_rate == sig.pixel_rate
                &&& m.h_sync_freq == sig.h_sync_freq
                &&& m.v_sync_freq == sig.v_sync_freq
                &&& m.active_size == sig.active_size
                &&& m.total_size == sig.total_size
                &&& m.video_standard == VideoStandard::spec_from_discriminant(
                    spec_unpack_video_standard(sig.additional_signal_info),
                )
                &&& m.v_sync_freq_divider == spec_unpack_v_sync_freq_divider(
                    sig.additional_signal_info,
                )
                &&& m.scanline_ordering == ScanlineOrdering::spec_from_discriminant(
                    sig.scanline_ordering,
                )
            },
            _ => false,
        }
    }
}

/// A built path entry: its two local indices name exactly the native mode
/// indices of the native path, through the builder's key sequences, and
/// the per-path attributes are converted from the native record.
pub open spec fn is_built_path(
    p: NativePathInfo,
    src_keys: Seq<u32>,
    tgt_keys: Seq<u32>,
    dp: DisplayPath,
) -> bool {
    &&& dp.source.source_mode_index < src_keys.len()
    &&& src_keys[dp.source.source_mode_index as int] == p.source_info.mode_info_idx
    &&& dp.target.target_mode_index < tgt_keys.len()
    &&& tgt_keys[dp.target.target_mode_index as int] == p.target_info.mode_info_idx
    &&& dp.target.output_technology == OutputTechnology::spec_from_discriminant(
        p.target_info.output_technology,
    )
    &&& dp.target.rotation == DisplayRotation::spec_from_discriminant(p.target_info.rotation)
    &&& dp.target.scaling == DisplayScaling::spec_from_discriminant(p.target_info.scaling)
    &&& dp.target.refresh_rate == p.target_info.refresh_rate
    &&& dp.target.scanline_ordering == ScanlineOrdering::spec_from_discriminant(
        p.target_info.scanline_ordering,
    )
}

/// The first-encounter sequence of distinct source-mode indices of the
/// active paths, continuing from the keys already cached.
pub open spec fn source_mode_keys_from(
    init: Seq<u32>,
    paths: Seq<NativePathInfo>,
) -> Seq<u32>
    decreases paths.len(),
{
    if paths.len() == 0 {
        init
    } else {
        let prev = source_mode_keys_from(init, paths.drop_last());
        let p = paths.last();
        if path_is_active(p) && !prev.contains(p.source_info.mode_info_idx) {
            prev.push(p.source_info.mode_info_idx)
        } else {
            prev
        }
    }
}

/// The first-encounter sequence of distinct target-mode indices of the
/// active paths, continuing from the keys already cached.
pub open spec fn target_mode_keys_from(
    init: Seq<u32>,
    paths: Seq<NativePathInfo>,
) -> Seq<u32>
    decreases paths.len(),
{
    if paths.len() == 0 {
        init
    } else {
        let prev = target_mode_keys_from(init, paths.drop_last());
        let p = paths.last();
        if path_is_active(p) && !prev.contains(p.target_info.mode_info_idx) {
            prev.push(p.target_info.mode_info_idx)
        } else {
            prev
        }
    }
}

/// The deduplicated source-mode index sequence of a whole build.
pub open spec fn source_mode_keys(paths: Seq<NativePathInfo>) -> Seq<u32> {
    source_mode_keys_from(Seq::empty(), paths)
}

/// The deduplicated target-mode index sequence of a whole build.
pub open spec fn target_mode_keys(paths: Seq<NativePathInfo>) -> Seq<u32> {
    target_mode_keys_from(Seq::empty(), paths)
}

/// The key column of a builder cache.
pub open spec fn keys_of(cache: Seq<(u32, usize)>) -> Seq<u32> {
    cache.map_values(|e: (u32, usize)| e.0)
}

/// The first local index bound to a native mode index in a builder cache.
fn cache_lookup(cache: &Vec<(u32, usize)>, key: u32) -> (r: Option<usize>)
    ensures
        match r {
            Some(v) => assoc_find(cache@, key) == Some(v),
            None => assoc_find(cache@, key) is None,
        },
{
    let n = cache.len();
    let mut i: usize = 0;
    while i < n
        invariant
            n == cache@.len(),
            0 <= i <= n,
            forall|j: int| 0 <= j < i ==> (#[trigger] cache@[j]).0 != key,
        decreases n - i,
    {
        if cache[i].0 == key {
            proof {
                crate::windows_util::lemma_assoc_find_at(cache@, key, i as int);
            }
            return Some(cache[i].1);
        }
        i += 1;
    }
    proof {
        crate::windows_util::lemma_assoc_find_none(cache@, key);
    }
    None
}

/// Walks a live enumeration's paths and assembles a [`DisplayLayout`],
/// deduplicating modes by their native array index through the two caches.
///
/// Each cache is an association list from native mode index to the local
/// index of the entry built for it; entries are appended in first-encounter
/// order, so the value column is always `0, 1, 2, ...`.
pub struct DisplayConfigBuilder {
    pub source_modes: Vec<DisplaySourceMode>,
    pub target_modes: Vec<DisplayTargetMode>,
    pub paths: Vec<DisplayPath>,
    pub windows_display_source_mode_to_index: Vec<(u32, usize)>,
    pub windows_display_target_mode_to_index: Vec<(u32, usize)>,
}

impl DisplayConfigBuilder {
    /// The builder's invariant against the enumeration it is reading:
    /// each cache column pairs the native index of a built mode with its
    /// position, and every stored path points into the built lists.
    pub open spec fn wf(self, w: WindowsDisplayConfig) -> bool {
        let sc = self.windows_display_source_mode_to_index@;
        let tc = self.windows_display_target_mode_to_index@;
        &&& sc.len() == self.source_modes@.len()
        &&& forall|j: int| 0 <= j < sc.len() ==> (#[trigger] sc[j]).1 == j
        &&& forall|j: int|
            0 <= j < sc.len() ==> is_built_source_mode(
                w,
                (#[trigger] sc[j]).0,
                self.source_modes@[j],
            )
        &&& tc.len() == self.target_modes@.len()
        &&& forall|j: int| 0 <= j < tc.len() ==> (#[trigger] tc[j]).1 == j
        &&& forall|j: int|
            0 <= j < tc.len() ==> is_built_target_mode(
                w,
                (#[trigger] tc[j]).0,
                self.target_modes@[j],
            )
        &&& forall|k: int|
            0 <= k < self.paths@.len() ==> {
                &&& (#[trigger] self.paths@[k]).source.source_mode_index
                    < self.source_modes@.len()
                &&& self.paths@[k].target.target_mode_index < self.target_modes@.len()
            }
    }

    pub fn new() -> (r: DisplayConfigBuilder)
        ensures
            r.source_modes@.len() == 0,
            r.target_modes@.len() == 0,
            r.paths@.len() == 0,
            r.windows_display_source_mode_to_index@.len() == 0,
            r.windows_display_target_mode_to_index@.len() == 0,
    {
        DisplayConfigBuilder {
            source_modes: Vec::new(),
            target_modes: Vec::new(),
            paths: Vec::new(),
            windows_display_source_mode_to_index: Vec::new(),
            windows_display_target_mode_to_index: Vec::new(),
        }
    }

    /// Resolves an adapter to its stable device path; an adapter the
    /// enumeration has no path for is fatal for everything that needs it.
    fn get_adapter(
        &self,
        adapter_id: LuidWrapper,
        windows_display_config: &WindowsDisplayConfig,
    ) -> (r: Result<Adapter, DisplayError>)
        ensures
            match r {
                Ok(a) => is_built_adapter(*windows_display_config, adapter_id, a),
                Err(e) => {
                    &&& assoc_find(windows_display_config.adapter_device_names@, adapter_id)
                        is None
                    &&& e == (DisplayError::AdapterPathUnresolved { adapter_id })
                },
            },
    {
        match windows_display_config.adapter_device_path(adapter_id) {
            Some(p) => Ok(Adapter { device_instance_path: p.clone() }),
            None => Err(DisplayError::AdapterPathUnresolved { adapter_id }),
        }
    }

    /// Builds the source device for a mode record; a missing name record
    /// is not fatal and leaves the diagnostic GDI name empty.
    fn get_source_device(
        &self,
        id: u32,
        adapter_id: LuidWrapper,
        windows_display_config: &WindowsDisplayConfig,
    ) -> (r: Result<DisplaySourceDevice, DisplayError>)
        ensures
            match r {
                Ok(d) => is_built_source_device(*windows_display_config, id, adapter_id, d),
                Err(e) => {
                    &&& assoc_find(windows_display_config.adapter_device_names@, adapter_id)
                        is None
                    &&& e == (DisplayError::AdapterPathUnresolved { adapter_id })
                },
            },
    {
        let adapter = match self.get_adapter(adapter_id, windows_display_config) {
            Ok(a) => a,
            Err(e) => {
                return Err(e);
            },
        };
        let gdi_device_name = match windows_display_config.source_device_name(
            IdAndAdapterId { id, adapter_id },
        ) {
            Some(n) => n.view_gdi_device_name.clone(),
            None => String::new(),
        };
        Ok(DisplaySourceDevice { id, adapter, gdi_device_name })
    }

    /// Builds the target device for a mode record; a missing name record
    /// is not fatal but leaves the device without a stable identity.
    fn get_target_device(
        &self,
        id: u32,
        adapter_id: LuidWrapper,
        windows_display_config: &WindowsDisplayConfig,
    ) -> (r: Result<DisplayTargetDevice, DisplayError>)
        ensures
            match r {
                Ok(d) => is_built_target_device(*windows_display_config, id, adapter_id, d),
                Err(e) => {
                    &&& assoc_find(windows_display_config.adapter_device_names@, adapter_id)
                        is None
                    &&& e == (DisplayError::AdapterPathUnresolved { adapter_id })
                },
            },
    {
        let adapter = match self.get_adapter(adapter_id, windows_display_config) {
            Ok(a) => a,
            Err(e) => {
                return Err(e);
            },
        };
        match windows_display_config.target_device_name(IdAndAdapterId { id, adapter_id }) {
            Some(n) => {
                let (edid_manufacture_id, edid_product_code_id) = if
                crate::windows_util::is_target_device_edid_ids_valid(n.flags) {
                    (Some(n.edid_manufacture_id), Some(n.edid_product_code_id))
                } else {
                    (None, None)
                };
                let monitor_friendly_device_name =
                    crate::windows_util::get_monitor_friendly_device_name(n);
                let monitor_device_path = crate::windows_util::get_monitor_device_path(n);
                Ok(
                    DisplayTargetDevice {
                        id,
                        adapter,
                        output_technology: OutputTechnology::from_discriminant(
                            n.output_technology,
                        ),
                        edid_manufacture_id,
                        edid_product_code_id,
                        connector_instance: n.connector_instance,
                        monitor_friendly_device_name,
                        monitor_device_path,
                    },
                )
            },
            None => Ok(
                DisplayTargetDevice {
                    id,
                    adapter,
                    output_technology: OutputTechnology::from_discriminant(-1),
                    edid_manufacture_id: None,
                    edid_product_code_id: None,
                    connector_instance: 0,
                    monitor_friendly_device_name: None,
                    monitor_device_path: None,
                },
            ),
        }
    }

    /// The local index of the source mode at a native index, building and
    /// caching it on first encounter.
    fn get_source_mode_index(
        &mut self,
        windows_source_mode_index: u32,
        windows_display_config: &WindowsDisplayConfig,
    ) -> (r: Result<usize, DisplayError>)
        requires
            old(self).wf(*windows_display_config),
        ensures
            final(self).wf(*windows_display_config),
            final(self).paths@ == old(self).paths@,
            final(self).target_modes@ == old(self).target_modes@,
            final(self).windows_display_target_mode_to_index@ == old(
                self,
            ).windows_display_target_mode_to_index@,
            match r {
                Ok(i) => {
                    &&& source_error(*windows_display_config, windows_source_mode_index) is None
                    &&& i < final(self).source_modes@.len()
                    &&& keys_of(final(self).windows_display_source_mode_to_index@)[i as int]
                        == windows_source_mode_index
                    &&& keys_of(final(self).windows_display_source_mode_to_index@) == (if keys_of(
                        old(self).windows_display_source_mode_to_index@,
                    ).contains(windows_source_mode_index) {
                        keys_of(old(self).windows_display_source_mode_to_index@)
                    } else {
                        keys_of(old(self).windows_display_source_mode_to_index@).push(
                            windows_source_mode_index,
                        )
                    })
                },
                Err(e) => {
                    &&& source_error(*windows_display_config, windows_source_mode_index) == Some(
                        e,
                    )
                    &&& *final(self) == *old(self)
                },
            },
    {
        let ghost w = *windows_display_config;
        let ghost sc0 = self.windows_display_source_mode_to_index@;
        match cache_lookup(&self.windows_display_source_mode_to_index, windows_source_mode_index) {
            Some(index) => {
                proof {
                    crate::windows_util::lemma_assoc_find_some_implies_present(
                        sc0,
                        windows_source_mode_index,
                    );
                    let j = choose|j: int|
                        0 <= j < sc0.len() && (#[trigger] sc0[j]).0 == windows_source_mode_index
                            && sc0[j].1 == index;
                    assert(sc0[j].1 == j);
                    assert(keys_of(sc0)[j] == windows_source_mode_index);
                    assert(keys_of(sc0).contains(windows_source_mode_index));
                    assert(is_built_source_mode(w, sc0[j].0, self.source_modes@[j]));
                }
                Ok(index)
            },
            None => {
                proof {
                    crate::windows_util::lemma_assoc_find_none_implies_absent(
                        sc0,
                        windows_source_mode_index,
                    );
                    assert forall|j: int| 0 <= j < keys_of(sc0).len() implies keys_of(sc0)[j]
                        != windows_source_mode_index by {
                        assert(sc0[j].0 != windows_source_mode_index);
                    }
                    assert(!keys_of(sc0).contains(windows_source_mode_index));
                }
                if windows_source_mode_index as usize >= windows_display_config.modes.len() {
                    return Err(
                        DisplayError::SourceModeNotFound {
                            mode_index: windows_source_mode_index,
                        },
                    );
                }
                let rec = &windows_display_config.modes[windows_source_mode_index as usize];
                let sm = match rec.data {
                    NativeModeData::Source(sm) => sm,
                    _ => {
                        return Err(
                            DisplayError::NotASourceMode {
                                mode_index: windows_source_mode_index,
                            },
                        );
                    },
                };
                let device = match self.get_source_device(
                    rec.id,
                    rec.adapter_id,
                    windows_display_config,
                ) {
                    Ok(d) => d,
                    Err(e) => {
                        return Err(e);
                    },
                };
                let source_mode = DisplaySourceMode {
                    device,
                    width: sm.width,
                    height: sm.height,
                    pixel_format: PixelFormat::from_discriminant(sm.pixel_format),
                    position: sm.position,
                };
                self.source_modes.push(source_mode);
                let index = self.source_modes.len() - 1;
                self.windows_display_source_mode_to_index.push(
                    (windows_source_mode_index, index),
                );
                proof {
                    assert(keys_of(self.windows_display_source_mode_to_index@) =~= keys_of(
                        sc0,
                    ).push(windows_source_mode_index));
                    assert(is_built_source_mode(
                        w,
                        windows_source_mode_index,
                        self.source_modes@[index as int],
                    ));
                }
                Ok(index)
            },
        }
    }

    /// The local index of the target mode at a native index, building and
    /// caching it on first encounter.
    fn get_target_mode_index(
        &mut self,
        windows_target_mode_index: u32,
        windows_display_config: &WindowsDisplayConfig,
    ) -> (r: Result<usize, DisplayError>)
        requires
            old(self).wf(*windows_display_config),
        ensures
            final(self).wf(*windows_display_config),
            final(self).paths@ == old(self).paths@,
            final(self).source_modes@ == old(self).source_modes@,
            final(self).windows_display_source_mode_to_index@ == old(
                self,
            ).windows_display_source_mode_to_index@,
            match r {
                Ok(i) => {
                    &&& target_error(*windows_display_config, windows_target_mode_index) is None
                    &&& i < final(self).target_modes@.len()
                    &&& keys_of(final(self).windows_display_target_mode_to_index@)[i as int]
                        == windows_target_mode_index
                    &&& keys_of(final(self).windows_display_target_mode_to_index@) == (if keys_of(
                        old(self).windows_display_target_mode_to_index@,
                    ).contains(windows_target_mode_index) {
                        keys_of(old(self).windows_display_target_mode_to_index@)
                    } else {
                        keys_of(old(self).windows_display_target_mode_to_index@).push(
                            windows_target_mode_index,
                        )
                    })
                },
                Err(e) => {
                    &&& target_error(*windows_display_config, windows_target_mode_index) == Some(
                        e,
                    )
                    &&& *final(self) == *old(self)
                },
            },
    {
        let ghost w = *windows_display_config;
        let ghost tc0 = self.windows_display_target_mode_to_index@;
        match cache_lookup(&self.windows_display_target_mode_to_index, windows_target_mode_index) {
            Some(index) => {
                proof {
                    crate::windows_util::lemma_assoc_find_some_implies_present(
                        tc0,
                        windows_target_mode_index,
                    );
                    let j = choose|j: int|
                        0 <= j < tc0.len() && (#[trigger] tc0[j]).0 == windows_target_mode_index
                            && tc0[j].1 == index;
                    assert(tc0[j].1 == j);
                    assert(keys_of(tc0)[j] == windows_target_mode_index);
                    assert(keys_of(tc0).contains(windows_target_mode_index));
                    assert(is_built_target_mode(w, tc0[j].0, self.target_modes@[j]));
                }
                Ok(index)
            },
            None => {
                proof {
                    crate::windows_util::lemma_assoc_find_none_implies_absent(
                        tc0,
                        windows_target_mode_index,
                    );
                    assert forall|j: int| 0 <= j < keys_of(tc0).len() implies keys_of(tc0)[j]
                        != windows_target_mode_index by {
                        assert(tc0[j].0 != windows_target_mode_index);
                    }
                    assert(!keys_of(tc0).contains(windows_target_mode_index));
                }
                if windows_target_mode_index as usize >= windows_display_config.modes.len() {
                    return Err(
                        DisplayError::TargetModeNotFound {
                            mode_index: windows_target_mode_index,
                        },
                    );
                }
                let rec = &windows_display_config.modes[windows_target_mode_index as usize];
                let sig = match rec.data {
                    NativeModeData::Target(sig) => sig,
                    _ => {
                        return Err(
                            DisplayError::NotATargetMode {
                                mode_index: windows_target_mode_index,
                            },
                        );
                    },
                };
                let device = match self.get_target_device(
                    rec.id,
                    rec.adapter_id,
                    windows_display_config,
                ) {
                    Ok(d) => d,
                    Err(e) => {
                        return Err(e);
                    },
                };
                let video_standard_raw = crate::windows_util::unpack_video_standard(
                    sig.additional_signal_info,
                );
                let v_sync_freq_divider = crate::windows_util::unpack_v_sync_freq_divider(
                    sig.additional_signal_info,
                );
                let target_mode = DisplayTargetMode {
                    device,
                    pixel_rate: sig.pixel_rate,
                    h_sync_freq: sig.h_sync_freq,
                    v_sync_freq: sig.v_sync_freq,
                    active_size: sig.active_size,
                    total_size: sig.total_size,
                    video_standard: VideoStandard::from_discriminant(video_standard_raw),
                    v_sync_freq_divider,
                    scanline_ordering: ScanlineOrdering::from_discriminant(
                        sig.scanline_ordering,
                    ),
                };
                self.target_modes.push(target_mode);
                let index = self.target_modes.len() - 1;
                self.windows_display_target_mode_to_index.push(
                    (windows_target_mode_index, index),
                );
                proof {
                    assert(keys_of(self.windows_display_target_mode_to_index@) =~= keys_of(
                        tc0,
                    ).push(windows_target_mode_index));
                    assert(is_built_target_mode(
                        w,
                        windows_target_mode_index,
                        self.target_modes@[index as int],
                    ));
                }
                Ok(index)
            },
        }
    }

    /// The local source-mode index for a path, rejecting virtual-mode
    /// paths before reading their undefined index field.
    fn get_source_index_from_path(
        &mut self,
        path: &NativePathInfo,
        windows_display_config: &WindowsDisplayConfig,
    ) -> (r: Result<usize, DisplayError>)
        requires
            old(self).wf(*windows_display_config),
        ensures
            final(self).wf(*windows_display_config),
            final(self).paths@ == old(self).paths@,
            final(self).target_modes@ == old(self).target_modes@,
            final(self).windows_display_target_mode_to_index@ == old(
                self,
            ).windows_display_target_mode_to_index@,
            match r {
                Ok(i) => {
                    &&& !path_is_virtual(*path)
                    &&& source_error(*windows_display_config, path.source_info.mode_info_idx)
                        is None
                    &&& i < final(self).source_modes@.len()
                    &&& keys_of(final(self).windows_display_source_mode_to_index@)[i as int]
                        == path.source_info.mode_info_idx
                    &&& keys_of(final(self).windows_display_source_mode_to_index@) == (if keys_of(
                        old(self).windows_display_source_mode_to_index@,
                    ).contains(path.source_info.mode_info_idx) {
                        keys_of(old(self).windows_display_source_mode_to_index@)
                    } else {
                        keys_of(old(self).windows_display_source_mode_to_index@).push(
                            path.source_info.mode_info_idx,
                        )
                    })
                },
                Err(e) => {
                    &&& *final(self) == *old(self)
                    &&& if path_is_virtual(*path) {
                        e == DisplayError::VirtualModeNotSupported
                    } else {
                        source_error(*windows_display_config, path.source_info.mode_info_idx)
                            == Some(e)
                    }
                },
            },
    {
        if path.flags & DISPLAYCONFIG_PATH_SUPPORT_VIRTUAL_MODE
            == DISPLAYCONFIG_PATH_SUPPORT_VIRTUAL_MODE {
            return Err(DisplayError::VirtualModeNotSupported);
        }
        self.get_source_mode_index(path.source_info.mode_info_idx, windows_display_config)
    }

    /// The local target-mode index for a path, rejecting virtual-mode
    /// paths before reading their undefined index field.
    fn get_target_index_from_path(
        &mut self,
        path: &NativePathInfo,
        windows_display_config: &WindowsDisplayConfig,
    ) -> (r: Result<usize, DisplayError>)
        requires
            old(self).wf(*windows_display_config),
        ensures
            final(self).wf(*windows_display_config),
            final(self).paths@ == old(self).paths@,
            final(self).source_modes@ == old(self).source_modes@,
            final(self).windows_display_source_mode_to_index@ == old(
                self,
            ).windows_display_source_mode_to_index@,
            match r {
                Ok(i) => {
                    &&& !path_is_virtual(*path)
                    &&& target_error(*windows_display_config, path.target_info.mode_info_idx)
                        is None
                    &&& i < final(self).target_modes@.len()
                    &&& keys_of(final(self).windows_display_target_mode_to_index@)[i as int]
                        == path.target_info.mode_info_idx
                    &&& keys_of(final(self).windows_display_target_mode_to_index@) == (if keys_of(
                        old(self).windows_display_target_mode_to_index@,
                    ).contains(path.target_info.mode_info_idx) {
                        keys_of(old(self).windows_display_target_mode_to_index@)
                    } else {
                        keys_of(old(self).windows_display_target_mode_to_index@).push(
                            path.target_info.mode_info_idx,
                        )
                    })
                },
                Err(e) => {
                    &&& *final(self) == *old(self)
                    &&& if path_is_virtual(*path) {
                        e == DisplayError::VirtualModeNotSupported
                    } else {
                        target_error(*windows_display_config, path.target_info.mode_info_idx)
                            == Some(e)
                    }
                },
            },
    {
        if path.flags & DISPLAYCONFIG_PATH_SUPPORT_VIRTUAL_MODE
            == DISPLAYCONFIG_PATH_SUPPORT_VIRTUAL_MODE {
            return Err(DisplayError::VirtualModeNotSupported);
        }
        self.get_target_mode_index(path.target_info.mode_info_idx, windows_display_config)
    }

    /// Appends one path, building and deduplicating the two modes it
    /// references, and returns the new entry's index.
    pub fn add_path(
        &mut self,
        path: &NativePathInfo,
        windows_display_config: &WindowsDisplayConfig,
    ) -> (r: Result<usize, DisplayError>)
        requires
            old(self).wf(*windows_display_config),
        ensures
            final(self).wf(*windows_display_config),
            match r {
                Ok(k) => {
                    &&& path_error(*windows_display_config, *path) is None
                    &&& k == old(self).paths@.len()
                    &&& final(self).paths@ == old(self).paths@.push(final(self).paths@.last())
                    &&& is_built_path(
                        *path,
                        keys_of(final(self).windows_display_source_mode_to_index@),
                        keys_of(final(self).windows_display_target_mode_to_index@),
                        final(self).paths@.last(),
                    )
                    &&& keys_of(final(self).windows_display_source_mode_to_index@) == (if keys_of(
                        old(self).windows_display_source_mode_to_index@,
                    ).contains(path.source_info.mode_info_idx) {
                        keys_of(old(self).windows_display_source_mode_to_index@)
                    } else {
                        keys_of(old(self).windows_display_source_mode_to_index@).push(
                            path.source_info.mode_info_idx,
                        )
                    })
                    &&& keys_of(final(self).windows_display_target_mode_to_index@) == (if keys_of(
                        old(self).windows_display_target_mode_to_index@,
                    ).contains(path.target_info.mode_info_idx) {
                        keys_of(old(self).windows_display_target_mode_to_index@)
                    } else {
                        keys_of(old(self).windows_display_target_mode_to_index@).push(
                            path.target_info.mode_info_idx,
                        )
                    })
                },
                Err(e) => {
                    &&& path_error(*windows_display_config, *path) == Some(e)
                    &&& final(self).paths@ == old(self).paths@
                },
            },
    {
        let source_mode_index = match self.get_source_index_from_path(
            path,
            windows_display_config,
        ) {
            Ok(i) => i,
            Err(e) => {
                return Err(e);
            },
        };
        let target_mode_index = match self.get_target_index_from_path(
            path,
            windows_display_config,
        ) {
            Ok(i) => i,
            Err(e) => {
                return Err(e);
            },
        };
        self.paths.push(
            DisplayPath {
                source: DisplayPathSource { source_mode_index },
                target: DisplayPathTarget {
                    target_mode_index,
                    output_technology: OutputTechnology::from_discriminant(
                        path.target_info.output_technology,
                    ),
                    rotation: DisplayRotation::from_discriminant(path.target_info.rotation),
                    scaling: DisplayScaling::from_discriminant(path.target_info.scaling),
                    refresh_rate: path.target_info.refresh_rate,
                    scanline_ordering: ScanlineOrdering::from_discriminant(
                        path.target_info.scanline_ordering,
                    ),
                },
            },
        );
        Ok(self.paths.len() - 1)
    }

    /// Appends one path if it is active; an inactive path is skipped and
    /// leaves the builder unchanged.
    pub fn add_path_if_active(
        &mut self,
        path: &NativePathInfo,
        windows_display_config: &WindowsDisplayConfig,
    ) -> (r: Result<Option<usize>, DisplayError>)
        requires
            old(self).wf(*windows_display_config),
        ensures
            final(self).wf(*windows_display_config),
            match r {
                Ok(o) => match o {
                    None => !path_is_active(*path) && *final(self) == *old(self),
                    Some(k) => {
                        &&& path_is_active(*path)
                        &&& path_error(*windows_display_config, *path) is None
                        &&& k == old(self).paths@.len()
                        &&& final(self).paths@ == old(self).paths@.push(
                            final(self).paths@.last(),
                        )
                        &&& is_built_path(
                            *path,
                            keys_of(final(self).windows_display_source_mode_to_index@),
                            keys_of(final(self).windows_display_target_mode_to_index@),
                            final(self).paths@.last(),
                        )
                        &&& keys_of(final(self).windows_display_source_mode_to_index@) == (
                        if keys_of(old(self).windows_display_source_mode_to_index@).contains(
                            path.source_info.mode_info_idx,
                        ) {
                            keys_of(old(self).windows_display_source_mode_to_index@)
                        } else {
                            keys_of(old(self).windows_display_source_mode_to_index@).push(
                                path.source_info.mode_info_idx,
                            )
                        })
                        &&& keys_of(final(self).windows_display_target_mode_to_index@) == (
                        if keys_of(old(self).windows_display_target_mode_to_index@).contains(
                            path.target_info.mode_info_idx,
                        ) {
                            keys_of(old(self).windows_display_target_mode_to_index@)
                        } else {
                            keys_of(old(self).windows_display_target_mode_to_index@).push(
                                path.target_info.mode_info_idx,
                            )
                        })
                    },
                },
                Err(e) => {
                    &&& path_is_active(*path)
                    &&& path_error(*windows_display_config, *path) == Some(e)
                    &&& final(self).paths@ == old(self).paths@
                },
            },
    {
        if path.flags & DISPLAYCONFIG_PATH_ACTIVE == 0 {
            return Ok(None);
        }
        match self.add_path(path, windows_display_config) {
            Ok(i) => Ok(Some(i)),
            Err(e) => Err(e),
        }
    }

    /// Appends every active path of the enumeration, in order, stopping
    /// on the first path that cannot be built.
    pub fn add_active_paths(
        &mut self,
        windows_display_config: &WindowsDisplayConfig,
    ) -> (r: Result<(), DisplayError>)
        requires
            old(self).wf(*windows_display_config),
        ensures
            final(self).wf(*windows_display_config),
            match r {
                Ok(u) => {
                    &&& first_build_error(*windows_display_config) is None
                    &&& keys_of(final(self).windows_display_source_mode_to_index@)
                        == source_mode_keys_from(
                        keys_of(old(self).windows_display_source_mode_to_index@),
                        windows_display_config.paths@,
                    )
                    &&& keys_of(final(self).windows_display_target_mode_to_index@)
                        == target_mode_keys_from(
                        keys_of(old(self).windows_display_target_mode_to_index@),
                        windows_display_config.paths@,
                    )
                    &&& final(self).paths@.len() == old(self).paths@.len() + active_paths(
                        windows_display_config.paths@,
                    ).len()
                    &&& forall|k: int|
                        0 <= k < old(self).paths@.len() ==> final(self).paths@[k] == old(
                            self,
                        ).paths@[k]
                    &&& forall|k: int|
                        0 <= k < active_paths(windows_display_config.paths@).len()
                            ==> is_built_path(
                            active_paths(windows_display_config.paths@)[k],
                            keys_of(final(self).windows_display_source_mode_to_index@),
                            keys_of(final(self).windows_display_target_mode_to_index@),
                            #[trigger] final(self).paths@[old(self).paths@.len() + k],
                        )
                },
                Err(e) => first_build_error(*windows_display_config) == Some(e),
            },
    {
        let ghost w = *windows_display_config;
        let ghost base = old(self).paths@.len() as int;
        let n = windows_display_config.paths.len();
        let mut i: usize = 0;
        while i < n
            invariant
                self.wf(w),
                w == *windows_display_config,
                n == w.paths@.len(),
                0 <= i <= n,
                base == old(self).paths@.len(),
                keys_of(self.windows_display_source_mode_to_index@) == source_mode_keys_from(
                    keys_of(old(self).windows_display_source_mode_to_index@),
                    w.paths@.take(i as int),
                ),
                keys_of(self.windows_display_target_mode_to_index@) == target_mode_keys_from(
                    keys_of(old(self).windows_display_target_mode_to_index@),
                    w.paths@.take(i as int),
                ),
                self.paths@.len() == base + active_paths(w.paths@.take(i as int)).len(),
                forall|k: int| 0 <= k < base ==> self.paths@[k] == old(self).paths@[k],
                forall|k: int|
                    0 <= k < active_paths(w.paths@.take(i as int)).len() ==> is_built_path(
                        active_paths(w.paths@.take(i as int))[k],
                        keys_of(self.windows_display_source_mode_to_index@),
                        keys_of(self.windows_display_target_mode_to_index@),
                        #[trigger] self.paths@[base + k],
                    ),
                forall|k: int|
                    0 <= k < i && path_is_active(#[trigger] w.paths@[k]) ==> path_error(
                        w,
                        w.paths@[k],
                    ) is None,
            decreases n - i,
        {
            let ghost prefix = w.paths@.take(i as int);
            let ghost sk_before = keys_of(self.windows_display_source_mode_to_index@);
            let ghost tk_before = keys_of(self.windows_display_target_mode_to_index@);
            let ghost paths_before = self.paths@;
            let path = &windows_display_config.paths[i];
            match self.add_path_if_active(path, windows_display_config) {
                Ok(o) => {
                    proof {
                        let longer = w.paths@.take(i + 1 as int);
                        assert(longer =~= prefix.push(w.paths@[i as int]));
                        assert(longer.drop_last() =~= prefix);
                        assert(longer.last() == w.paths@[i as int]);
                        assert(longer.len() == i + 1);
                        lemma_active_paths_push(prefix, w.paths@[i as int]);
                        let sk_now = keys_of(self.windows_display_source_mode_to_index@);
                        let tk_now = keys_of(self.windows_display_target_mode_to_index@);
                        match o {
                            None => {
                                assert(active_paths(longer) == active_paths(prefix));
                                assert(sk_now == source_mode_keys_from(
                                    keys_of(old(self).windows_display_source_mode_to_index@),
                                    longer,
                                ));
                                assert(tk_now == target_mode_keys_from(
                                    keys_of(old(self).windows_display_target_mode_to_index@),
                                    longer,
                                ));
                            },
                            Some(idx_new) => {
                                assert(active_paths(longer) == active_paths(prefix).push(
                                    w.paths@[i as int],
                                ));
                                assert(sk_now == source_mode_keys_from(
                                    keys_of(old(self).windows_display_source_mode_to_index@),
                                    longer,
                                ));
                                assert(tk_now == target_mode_keys_from(
                                    keys_of(old(self).windows_display_target_mode_to_index@),
                                    longer,
                                ));
                                assert forall|k: int|
                                    0 <= k < active_paths(longer).len() implies is_built_path(
                                    active_paths(longer)[k],
                                    sk_now,
                                    tk_now,
                                    #[trigger] self.paths@[base + k],
                                ) by {
                                    if k < active_paths(prefix).len() {
                                        assert(self.paths@[base + k] == paths_before[base + k]);
                                        assert(is_built_path(
                                            active_paths(prefix)[k],
                                            sk_before,
                                            tk_before,
                                            paths_before[base + k],
                                        ));
                                        assert(active_paths(longer)[k] == active_paths(
                                            prefix,
                                        )[k]);
                                        assert(sk_before.is_prefix_of(sk_now));
                                        assert(tk_before.is_prefix_of(tk_now));
                                    } else {
                                        assert(k == active_paths(prefix).len());
                                        assert(active_paths(longer)[k] == w.paths@[i as int]);
                                        assert(self.paths@[base + k] == self.paths@.last());
                                    }
                                }
                            },
                        }
                    }
                },
                Err(e) => {
                    proof {
                        lemma_first_build_error_skip(w, i as int);
                    }
                    return Err(e);
                },
            }
            i += 1;
        }
        proof {
            assert(w.paths@.take(n as int) =~= w.paths@);
            lemma_first_build_error_skip(w, n as int);
        }
        Ok(())
    }

    /// Hands the assembled layout out, consuming the builder and its
    /// caches.
    pub fn build(self) -> (r: DisplayLayout)
        ensures
            r.source_modes@ == self.source_modes@,
            r.target_modes@ == self.target_modes@,
            r.paths@ == self.paths@,
    {
        DisplayLayout {
            source_modes: self.source_modes,
            target_modes: self.target_modes,
            paths: self.paths,
        }
    }
}

/// Extending the scanned prefix by one path extends its active-path
/// sequence exactly when the path is active.
pub proof fn lemma_active_paths_push(s: Seq<NativePathInfo>, p: NativePathInfo)
    ensures
        path_is_active(p) ==> active_paths(s.push(p)) == active_paths(s).push(p),
        !path_is_active(p) ==> active_paths(s.push(p)) == active_paths(s),
{
    reveal_with_fuel(Seq::<NativePathInfo>::filter, 2);
    assert(s.push(p).drop_last() =~= s);
    assert(s.push(p).last() == p);
    assert(active_filter()(p) == path_is_active(p));
}

/// Scanning for the first build error may start after any error-free
/// prefix.
pub proof fn lemma_first_build_error_skip(w: WindowsDisplayConfig, i: int)
    requires
        0 <= i <= w.paths@.len(),
        forall|k: int|
            0 <= k < i && path_is_active(#[trigger] w.paths@[k]) ==> path_error(
                w,
                w.paths@[k],
            ) is None,
    ensures
        first_build_error_from(w, 0) == first_build_error_from(w, i),
    decreases i,
{
    if i > 0 {
        lemma_first_build_error_skip(w, i - 1);
    }
}

/// There is no build error exactly when every active path is free of one.
pub proof fn lemma_first_build_error_none_iff(w: WindowsDisplayConfig)
    ensures
        first_build_error(w) is None <==> (forall|k: int|
            0 <= k < w.paths@.len() && path_is_active(#[trigger] w.paths@[k]) ==> path_error(
                w,
                w.paths@[k],
            ) is None),
{
    lemma_first_build_error_from_none_iff(w, 0);
}

proof fn lemma_first_build_error_from_none_iff(w: WindowsDisplayConfig, i: int)
    requires
        0 <= i <= w.paths@.len(),
    ensures
        first_build_error_from(w, i) is None <==> (forall|k: int|
            i <= k < w.paths@.len() && path_is_active(#[trigger] w.paths@[k]) ==> path_error(
                w,
                w.paths@[k],
            ) is None),
    decreases w.paths@.len() - i,
{
    if i < w.paths@.len() {
        lemma_first_build_error_from_none_iff(w, i + 1);
    }
}

/// The deduplicated source-key sequence extends the cached keys, stays
/// within the path count, and never repeats a key.
pub proof fn lemma_source_mode_keys_from_distinct(init: Seq<u32>, paths: Seq<NativePathInfo>)
    requires
        forall|i1: int, i2: int|
            #![trigger init[i1], init[i2]]
            0 <= i1 < i2 < init.len() ==> init[i1] != init[i2],
    ensures
        ({
            let r = source_mode_keys_from(init, paths);
            &&& forall|i1: int, i2: int|
                #![trigger r[i1], r[i2]]
                0 <= i1 < i2 < r.len() ==> r[i1] != r[i2]
            &&& init.is_prefix_of(r)
            &&& r.len() <= init.len() + paths.len()
        }),
    decreases paths.len(),
{
    if paths.len() > 0 {
        lemma_source_mode_keys_from_distinct(init, paths.drop_last());
    }
}

/// The deduplicated target-key sequence extends the cached keys, stays
/// within the path count, and never repeats a key.
pub proof fn lemma_target_mode_keys_from_distinct(init: Seq<u32>, paths: Seq<NativePathInfo>)
    requires
        forall|i1: int, i2: int|
            #![trigger init[i1], init[i2]]
            0 <= i1 < i2 < init.len() ==> init[i1] != init[i2],
    ensures
        ({
            let r = target_mode_keys_from(init, paths);
            &&& forall|i1: int, i2: int|
                #![trigger r[i1], r[i2]]
                0 <= i1 < i2 < r.len() ==> r[i1] != r[i2]
            &&& init.is_prefix_of(r)
            &&& r.len() <= init.len() + paths.len()
        }),
    decreases paths.len(),
{
    if paths.len() > 0 {
        lemma_target_mode_keys_from_distinct(init, paths.drop_last());
    }
}

/// How a built layout relates to the enumeration it was built from: the
/// mode lists pair one-to-one with the deduplicated native index
/// sequences, and the path list pairs one-to-one with the active native
/// paths, in order.
pub open spec fn build_rel(w: WindowsDisplayConfig, l: DisplayLayout) -> bool {
    let src_keys = source_mode_keys(w.paths@);
    let tgt_keys = target_mode_keys(w.paths@);
    let act = active_paths(w.paths@);
    &&& l.source_modes@.len() == src_keys.len()
    &&& forall|j: int|
        0 <= j < src_keys.len() ==> is_built_source_mode(
            w,
            src_keys[j],
            #[trigger] l.source_modes@[j],
        )
    &&& forall|j1: int, j2: int|
        #![trigger src_keys[j1], src_keys[j2]]
        0 <= j1 < j2 < src_keys.len() ==> src_keys[j1] != src_keys[j2]
    &&& l.target_modes@.len() == tgt_keys.len()
    &&& forall|j: int|
        0 <= j < tgt_keys.len() ==> is_built_target_mode(
            w,
            tgt_keys[j],
            #[trigger] l.target_modes@[j],
        )
    &&& forall|j1: int, j2: int|
        #![trigger tgt_keys[j1], tgt_keys[j2]]
        0 <= j1 < j2 < tgt_keys.len() ==> tgt_keys[j1] != tgt_keys[j2]
    &&& l.paths@.len() == act.len()
    &&& forall|k: int|
        0 <= k < act.len() ==> is_built_path(act[k], src_keys, tgt_keys, #[trigger] l.paths@[k])
}

impl DisplayLayout {
    /// Normalizes one live enumeration into a layout: deduplicates modes
    /// by native index, resolves device identities, and keeps one entry
    /// per active path, in first-encounter order.
    ///
    /// Succeeds exactly when no active path is virtual, every referenced
    /// mode index is in range with the right type tag, and every adapter
    /// of a referenced mode has a resolved device path; otherwise returns
    /// the first failing path's error.
    pub fn from_windows(windows_display_config: &WindowsDisplayConfig) -> (r: Result<
        DisplayLayout,
        DisplayError,
    >)
        ensures
            match r {
                Ok(l) => {
                    &&& first_build_error(*windows_display_config) is None
                    &&& build_rel(*windows_display_config, l)
                },
                Err(e) => first_build_error(*windows_display_config) == Some(e),
            },
    {
        let ghost w = *windows_display_config;
        let mut builder = DisplayConfigBuilder::new();
        proof {
            assert(keys_of(builder.windows_display_source_mode_to_index@) =~= Seq::<
                u32,
            >::empty());
            assert(keys_of(builder.windows_display_target_mode_to_index@) =~= Seq::<
                u32,
            >::empty());
        }
        match builder.add_active_paths(windows_display_config) {
            Ok(u) => {},
            Err(e) => {
                return Err(e);
            },
        }
        proof {
            lemma_source_mode_keys_from_distinct(Seq::empty(), w.paths@);
            lemma_target_mode_keys_from_distinct(Seq::empty(), w.paths@);
            let src_keys = source_mode_keys(w.paths@);
            let tgt_keys = target_mode_keys(w.paths@);
            let act = active_paths(w.paths@);
            let sc = builder.windows_display_source_mode_to_index@;
            let tc = builder.windows_display_target_mode_to_index@;
            assert(keys_of(sc) == src_keys);
            assert(keys_of(tc) == tgt_keys);
            assert forall|j: int| 0 <= j < src_keys.len() implies is_built_source_mode(
                w,
                src_keys[j],
                #[trigger] builder.source_modes@[j],
            ) by {
                assert(keys_of(sc)[j] == sc[j].0);
            }
            assert forall|j: int| 0 <= j < tgt_keys.len() implies is_built_target_mode(
                w,
                tgt_keys[j],
                #[trigger] builder.target_modes@[j],
            ) by {
                assert(keys_of(tc)[j] == tc[j].0);
            }
            assert forall|k: int| 0 <= k < act.len() implies is_built_path(
                act[k],
                src_keys,
                tgt_keys,
                #[trigger] builder.paths@[k],
            ) by {
                assert(builder.paths@[0 + k] == builder.paths@[k]);
            }
        }
        let l = builder.build();
        Ok(l)
    }
}

/// Why a stored source mode cannot be materialized, if it cannot: no
/// live adapter carries its stored adapter device path.
pub open spec fn source_record_error(
    w: WindowsDisplayConfig,
    m: DisplaySourceMode,
) -> Option<DisplayError> {
    if rev_adapter_find(w.adapter_device_names@, m.device.adapter.device_instance_path@)
        is None {
        Some(
            DisplayError::AdapterIdNotFound {
                device_path: m.device.adapter.device_instance_path,
            },
        )
    } else {
        None
    }
}

/// Why a stored target mode cannot be materialized, if it cannot, in the
/// order the checks run: adapter resolution, then candidate name
/// resolution, then the stored device path's presence, then ambiguity.
pub open spec fn target_record_error(
    w: WindowsDisplayConfig,
    m: DisplayTargetMode,
) -> Option<DisplayError> {
    match rev_adapter_find(w.adapter_device_names@, m.device.adapter.device_instance_path@) {
        None => Some(
            DisplayError::AdapterIdNotFound {
                device_path: m.device.adapter.device_instance_path,
            },
        ),
        Some(aid) => {
            if exists|c: u32|
                is_target_candidate(w, aid, c) && !candidate_resolvable(w, aid, c) {
                Some(DisplayError::TargetDeviceUnresolved { adapter_id: aid })
            } else if m.device.monitor_device_path is None {
                Some(DisplayError::TargetDevicePathMissing)
            } else if exists|c1: u32, c2: u32|
                c1 != c2 && is_target_match(w, aid, c1, m.device.monitor_device_path->0@)
                    && is_target_match(w, aid, c2, m.device.monitor_device_path->0@) {
                Some(
                    DisplayError::AmbiguousTargetDevicePath {
                        device_path: m.device.monitor_device_path->0,
                    },
                )
            } else {
                None
            }
        },
    }
}

/// The first stored source mode's error, scanning from `i`.
pub open spec fn first_source_record_error_from(
    l: DisplayLayout,
    w: WindowsDisplayConfig,
    i: int,
) -> Option<DisplayError>
    decreases l.source_modes@.len() - i when 0 <= i <= l.source_modes@.len()
{
    if i >= l.source_modes@.len() {
        None
    } else if source_record_error(w, l.source_modes@[i]) is Some {
        source_record_error(w, l.source_modes@[i])
    } else {
        first_source_record_error_from(l, w, i + 1)
    }
}

/// The first stored target mode's error, scanning from `j`.
pub open spec fn first_target_record_error_from(
    l: DisplayLayout,
    w: WindowsDisplayConfig,
    j: int,
) -> Option<DisplayError>
    decreases l.target_modes@.len() - j when 0 <= j <= l.target_modes@.len()
{
    if j >= l.target_modes@.len() {
        None
    } else if target_record_error(w, l.target_modes@[j]) is Some {
        target_record_error(w, l.target_modes@[j])
    } else {
        first_target_record_error_from(l, w, j + 1)
    }
}

/// The error on which materializing a layout against an enumeration
/// stops, if any: stored source modes are emitted first, then targets.
pub open spec fn first_materialize_error(
    l: DisplayLayout,
    w: WindowsDisplayConfig,
) -> Option<DisplayError> {
    if first_source_record_error_from(l, w, 0) is Some {
        first_source_record_error_from(l, w, 0)
    } else {
        first_target_record_error_from(l, w, 0)
    }
}

/// Scanning for the first source-record error may start after any
/// error-free prefix.
pub proof fn lemma_first_source_record_error_skip(l: DisplayLayout, w: WindowsDisplayConfig, i: int)
    requires
        0 <= i <= l.source_modes@.len(),
        forall|k: int|
            0 <= k < i ==> source_record_error(w, #[trigger] l.source_modes@[k]) is None,
    ensures
        first_source_record_error_from(l, w, 0) == first_source_record_error_from(l, w, i),
    decreases i,
{
    if i > 0 {
        lemma_first_source_record_error_skip(l, w, i - 1);
    }
}

/// Scanning for the first target-record error may start after any
/// error-free prefix.
pub proof fn lemma_first_target_record_error_skip(l: DisplayLayout, w: WindowsDisplayConfig, j: int)
    requires
        0 <= j <= l.target_modes@.len(),
        forall|k: int|
            0 <= k < j ==> target_record_error(w, #[trigger] l.target_modes@[k]) is None,
    ensures
        first_target_record_error_from(l, w, 0) == first_target_record_error_from(l, w, j),
    decreases j,
{
    if j > 0 {
        lemma_first_target_record_error_skip(l, w, j - 1);
    }
}

/// An emitted source-mode record: the stored geometry written back
/// unchanged, the stored source id kept, and the adapter id re-resolved
/// from the stored adapter device path.
pub open spec fn is_emitted_source_record(
    w: WindowsDisplayConfig,
    m: DisplaySourceMode,
    rec: NativeModeInfo,
) -> bool {
    &&& rev_adapter_find(w.adapter_device_names@, m.device.adapter.device_instance_path@)
        == Some(rec.adapter_id)
    &&& rec.id == m.device.id
    &&& match rec.data {
        NativeModeData::Source(sm) => {
            &&& sm.width == m.width
            &&& sm.height == m.height
            &&& sm.pixel_format == m.pixel_format.spec_discriminant()
            &&& sm.position == m.position
        },
        _ => false,
    }
}

/// An emitted target-mode record: the stored signal written back with
/// the video standard and vertical-sync divisor packed into the
/// additional-signal-info field, the adapter id re-resolved from the
/// stored adapter device path, and the numeric id re-resolved by the
/// matching policy: the unique live target with the stored monitor
/// device path if there is one, the stored id as fallback otherwise.
pub open spec fn is_emitted_target_record(
    w: WindowsDisplayConfig,
    m: DisplayTargetMode,
    rec: NativeModeInfo,
) -> bool {
    &&& rev_adapter_find(w.adapter_device_names@, m.device.adapter.device_instance_path@)
        == Some(rec.adapter_id)
    &&& m.device.monitor_device_path is Some
    &&& (forall|c: u32|
        is_target_candidate(w, rec.adapter_id, c) ==> candidate_resolvable(
            w,
            rec.adapter_id,
            c,
        ))
    &&& {
        let p = m.device.monitor_device_path->0@;
        if exists|c: u32| is_target_match(w, rec.adapter_id, c, p) {
            is_target_match(w, rec.adapter_id, rec.id, p) && (forall|c: u32|
                is_target_match(w, rec.adapter_id, c, p) ==> c == rec.id)
        } else {
            rec.id == m.device.id
        }
    }
    &&& match rec.data {
        NativeModeData::Target(sig) => {
            &&& sig.pixel_rate == m.pixel_rate
            &&& sig.h_sync_freq == m.h_sync_freq
            &&& sig.v_sync_freq == m.v_sync_freq
            &&& sig.active_size == m.active_size
            &&& sig.total_size == m.total_size
            &&& sig.additional_signal_info == spec_pack_additional_signal_info(
                m.video_standard.spec_discriminant(),
                m.v_sync_freq_divider,
            )
            &&& sig.scanline_ordering == m.scanline_ordering.spec_discriminant()
        },
        _ => false,
    }
}

/// An emitted path record: mode indices pointing into the combined flat
/// array (sources first, targets offset by the source count), adapter and
/// id copied from the referenced records, per-path attributes written
/// back, and the fixed in-use and active flags set.
pub open spec fn is_emitted_path(
    l: DisplayLayout,
    modes: Seq<NativeModeInfo>,
    dp: DisplayPath,
    q: NativePathInfo,
) -> bool {
    let si = dp.source.source_mode_index as int;
    let ti = l.source_modes@.len() + dp.target.target_mode_index as int;
    &&& q.source_info.adapter_id == modes[si].adapter_id
    &&& q.source_info.id == modes[si].id
    &&& q.source_info.mode_info_idx == dp.source.source_mode_index as u32
    &&& q.source_info.status_flags == DISPLAYCONFIG_SOURCE_IN_USE
    &&& q.target_info.adapter_id == modes[ti].adapter_id
    &&& q.target_info.id == modes[ti].id
    &&& q.target_info.mode_info_idx == ti as u32
    &&& q.target_info.output_technology == dp.target.output_technology.spec_discriminant()
    &&& q.target_info.rotation == dp.target.rotation.spec_discriminant()
    &&& q.target_info.scaling == dp.target.scaling.spec_discriminant()
    &&& q.target_info.refresh_rate == dp.target.refresh_rate
    &&& q.target_info.scanline_ordering == dp.target.scanline_ordering.spec_discriminant()
    &&& q.target_info.target_available == true
    &&& q.target_info.status_flags == DISPLAYCONFIG_TARGET_IN_USE
    &&& q.flags == DISPLAYCONFIG_PATH_ACTIVE
}

/// How a materialized configuration relates to the stored layout and the
/// live enumeration it was resolved against.
pub open spec fn materialize_rel(
    l: DisplayLayout,
    w: WindowsDisplayConfig,
    out: NativeDisplayConfig,
) -> bool {
    let ns = l.source_modes@.len();
    let nt = l.target_modes@.len();
    &&& out.modes@.len() == ns + nt
    &&& forall|i: int|
        0 <= i < ns ==> is_emitted_source_record(w, l.source_modes@[i], #[trigger] out.modes@[i])
    &&& forall|j: int|
        0 <= j < nt ==> is_emitted_target_record(
            w,
            l.target_modes@[j],
            #[trigger] out.modes@[ns + j],
        )
    &&& out.paths@.len() == l.paths@.len()
    &&& forall|k: int|
        0 <= k < l.paths@.len() ==> is_emitted_path(
            l,
            out.modes@,
            l.paths@[k],
            #[trigger] out.paths@[k],
        )
}

impl DisplayLayout {
    /// Materializes this layout against a fresh live enumeration: every
    /// stored adapter device path is re-resolved to a live adapter id,
    /// every stored target is re-resolved by monitor device path, and
    /// new flat mode and path arrays are emitted ready for the apply
    /// call.
    ///
    /// Succeeds exactly when every stored adapter path resolves, every
    /// candidate target on the involved adapters has a resolved name,
    /// every stored target carries a monitor device path, and no stored
    /// target's path is carried by two live targets on its adapter;
    /// otherwise returns the first failing mode's error.  A stored
    /// target whose path matches nothing falls back to its stored
    /// numeric id and is not an error.
    pub fn to_windows(&self, windows_display_config: &WindowsDisplayConfig) -> (r: Result<
        NativeDisplayConfig,
        DisplayError,
    >)
        requires
            self.wf(),
        ensures
            match r {
                Ok(out) => {
                    &&& first_materialize_error(*self, *windows_display_config) is None
                    &&& materialize_rel(*self, *windows_display_config, out)
                },
                Err(e) => first_materialize_error(*self, *windows_display_config) == Some(e),
            },
    {
        let ghost w = *windows_display_config;
        let mut new_windows_modes: Vec<NativeModeInfo> = Vec::new();
        let ns = self.source_modes.len();
        let nt = self.target_modes.len();
        let mut i: usize = 0;
        while i < ns
            invariant
                w == *windows_display_config,
                ns == self.source_modes@.len(),
                0 <= i <= ns,
                new_windows_modes@.len() == i,
                forall|k: int|
                    0 <= k < i ==> is_emitted_source_record(
                        w,
                        self.source_modes@[k],
                        #[trigger] new_windows_modes@[k],
                    ),
                forall|k: int|
                    0 <= k < i ==> source_record_error(w, #[trigger] self.source_modes@[k])
                        is None,
            decreases ns - i,
        {
            let m = &self.source_modes[i];
            let adapter_id = match windows_display_config.device_path_to_adapter_id(
                &m.device.adapter.device_instance_path,
            ) {
                Some(a) => a,
                None => {
                    proof {
                        lemma_first_source_record_error_skip(*self, w, i as int);
                    }
                    return Err(
                        DisplayError::AdapterIdNotFound {
                            device_path: m.device.adapter.device_instance_path.clone(),
                        },
                    );
                },
            };
            new_windows_modes.push(
                NativeModeInfo {
                    id: m.device.id,
                    adapter_id,
                    data: NativeModeData::Source(
                        NativeSourceMode {
                            width: m.width,
                            height: m.height,
                            pixel_format: m.pixel_format.discriminant(),
                            position: m.position,
                        },
                    ),
                },
            );
            i += 1;
        }
        proof {
            lemma_first_source_record_error_skip(*self, w, ns as int);
        }
        let mut j: usize = 0;
        while j < nt
            invariant
                w == *windows_display_config,
                ns == self.source_modes@.len(),
                nt == self.target_modes@.len(),
                0 <= j <= nt,
                new_windows_modes@.len() == ns + j,
                first_source_record_error_from(*self, w, 0) is None,
                forall|k: int|
                    0 <= k < ns ==> is_emitted_source_record(
                        w,
                        self.source_modes@[k],
                        #[trigger] new_windows_modes@[k],
                    ),
                forall|k: int|
                    0 <= k < j ==> is_emitted_target_record(
                        w,
                        self.target_modes@[k],
                        #[trigger] new_windows_modes@[ns + k],
                    ),
                forall|k: int|
                    0 <= k < j ==> target_record_error(w, #[trigger] self.target_modes@[k])
                        is None,
            decreases nt - j,
        {
            let ghost modes_before = new_windows_modes@;
            let m = &self.target_modes[j];
            let adapter_id = match windows_display_config.device_path_to_adapter_id(
                &m.device.adapter.device_instance_path,
            ) {
                Some(a) => a,
                None => {
                    proof {
                        lemma_first_target_record_error_skip(*self, w, j as int);
                    }
                    return Err(
                        DisplayError::AdapterIdNotFound {
                            device_path: m.device.adapter.device_instance_path.clone(),
                        },
                    );
                },
            };
            let existing_target_mode_id = match windows_display_config.get_matching_target_mode_id(
                adapter_id,
                m,
            ) {
                Ok(id) => id,
                Err(e) => {
                    proof {
                        lemma_first_target_record_error_skip(*self, w, j as int);
                        assert(target_record_error(w, *m) == Some(e));
                    }
                    return Err(e);
                },
            };
            let video_standard_value = m.video_standard.discriminant();
            let additional_signal_info = crate::windows_util::pack_additional_signal_info(
                video_standard_value,
                m.v_sync_freq_divider,
            );
            new_windows_modes.push(
                NativeModeInfo {
                    id: existing_target_mode_id,
                    adapter_id,
                    data: NativeModeData::Target(
                        NativeVideoSignalInfo {
                            pixel_rate: m.pixel_rate,
                            h_sync_freq: m.h_sync_freq,
                            v_sync_freq: m.v_sync_freq,
                            active_size: m.active_size,
                            total_size: m.total_size,
                            additional_signal_info,
                            scanline_ordering: m.scanline_ordering.discriminant(),
                        },
                    ),
                },
            );
            proof {
                assert forall|k: int| 0 <= k < ns implies is_emitted_source_record(
                    w,
                    self.source_modes@[k],
                    #[trigger] new_windows_modes@[k],
                ) by {
                    assert(new_windows_modes@[k] == modes_before[k]);
                }
                assert(target_record_error(w, *m) is None);
            }
            j += 1;
        }
        proof {
            lemma_first_target_record_error_skip(*self, w, nt as int);
        }
        let mut new_windows_paths: Vec<NativePathInfo> = Vec::new();
        let np = self.paths.len();
        let mut k: usize = 0;
        while k < np
            invariant
                w == *windows_display_config,
                self.wf(),
                ns == self.source_modes@.len(),
                nt == self.target_modes@.len(),
                np == self.paths@.len(),
                0 <= k <= np,
                new_windows_modes@.len() == ns + nt,
                new_windows_paths@.len() == k,
                forall|k2: int|
                    0 <= k2 < k ==> is_emitted_path(
                        *self,
                        new_windows_modes@,
                        self.paths@[k2],
                        #[trigger] new_windows_paths@[k2],
                    ),
            decreases np - k,
        {
            let dp = self.paths[k];
            let source_mode_index = dp.source.source_mode_index;
            let target_flat_index = ns + dp.target.target_mode_index;
            let source_rec = &new_windows_modes[source_mode_index];
            let target_rec = &new_windows_modes[target_flat_index];
            new_windows_paths.push(
                NativePathInfo {
                    source_info: NativePathSourceInfo {
                        adapter_id: source_rec.adapter_id,
                        id: source_rec.id,
                        mode_info_idx: source_mode_index as u32,
                        status_flags: DISPLAYCONFIG_SOURCE_IN_USE,
                    },
                    target_info: NativePathTargetInfo {
                        adapter_id: target_rec.adapter_id,
                        id: target_rec.id,
                        mode_info_idx: target_flat_index as u32,
                        output_technology: dp.target.output_technology.discriminant(),
                        rotation: dp.target.rotation.discriminant(),
                        scaling: dp.target.scaling.discriminant(),
                        refresh_rate: dp.target.refresh_rate,
                        scanline_ordering: dp.target.scanline_ordering.discriminant(),
                        target_available: true,
                        status_flags: DISPLAYCONFIG_TARGET_IN_USE,
                    },
                    flags: DISPLAYCONFIG_PATH_ACTIVE,
                },
            );
            k += 1;
        }
        Ok(NativeDisplayConfig { paths: new_windows_paths, modes: new_windows_modes })
    }
}

/// No two source modes of a built layout stand for one native array
/// index, and any two active paths sharing a native source-mode index
/// share the one local source mode built for it.
pub proof fn lemma_build_dedups_source_modes(
    w: WindowsDisplayConfig,
    l: DisplayLayout,
    k1: int,
    k2: int,
)
    requires
        build_rel(w, l),
        0 <= k1 < active_paths(w.paths@).len(),
        0 <= k2 < active_paths(w.paths@).len(),
        active_paths(w.paths@)[k1].source_info.mode_info_idx == active_paths(
            w.paths@,
        )[k2].source_info.mode_info_idx,
    ensures
        l.paths@[k1].source.source_mode_index == l.paths@[k2].source.source_mode_index,
        forall|j1: int, j2: int|
            #![trigger source_mode_keys(w.paths@)[j1], source_mode_keys(w.paths@)[j2]]
            0 <= j1 < j2 < source_mode_keys(w.paths@).len() ==> source_mode_keys(w.paths@)[j1]
                != source_mode_keys(w.paths@)[j2],
{
    let src_keys = source_mode_keys(w.paths@);
    let i1 = l.paths@[k1].source.source_mode_index as int;
    let i2 = l.paths@[k2].source.source_mode_index as int;
    assert(src_keys[i1] == src_keys[i2]);
    if i1 < i2 {
        assert(src_keys[i1] != src_keys[i2]);
    }
    if i2 < i1 {
        assert(src_keys[i2] != src_keys[i1]);
    }
}

/// A successful build yields a well-formed layout whenever the flat path
/// array is small enough for the platform's 32-bit combined mode index.
pub proof fn lemma_build_rel_well_formed(w: WindowsDisplayConfig, l: DisplayLayout)
    requires
        build_rel(w, l),
        w.paths@.len() <= 0x7FFFFFFF,
    ensures
        l.wf(),
{
    lemma_source_mode_keys_from_distinct(Seq::empty(), w.paths@);
    lemma_target_mode_keys_from_distinct(Seq::empty(), w.paths@);
}

/// A target mode record whose device can be re-resolved without loss:
/// its name record is resolved with a non-empty monitor device path, and
/// on its adapter every candidate id resolves and at most one live
/// target carries that path.
pub open spec fn target_identity_ok(w: WindowsDisplayConfig, idx: u32) -> bool {
    let rec = w.modes@[idx as int];
    match assoc_find(
        w.target_device_names@,
        IdAndAdapterId { id: rec.id, adapter_id: rec.adapter_id },
    ) {
        Some(n) => {
            &&& n.monitor_device_path@.len() > 0
            &&& (forall|c: u32|
                is_target_candidate(w, rec.adapter_id, c) ==> candidate_resolvable(
                    w,
                    rec.adapter_id,
                    c,
                ))
            &&& (forall|c1: u32, c2: u32|
                is_target_match(w, rec.adapter_id, c1, n.monitor_device_path@)
                    && is_target_match(w, rec.adapter_id, c2, n.monitor_device_path@) ==> c1
                    == c2)
        },
        None => false,
    }
}

/// The conditions under which a captured enumeration can be materialized
/// back against itself without loss: the build itself succeeds, the path
/// array fits the platform's index width, no two adapters share a device
/// path, and every active path's target has a lossless stable identity.
pub open spec fn round_trip_ready(w: WindowsDisplayConfig) -> bool {
    &&& first_build_error(w) is None
    &&& w.paths@.len() <= 0x7FFFFFFF
    &&& forall|i1: int, i2: int|
        #![trigger w.adapter_device_names@[i1], w.adapter_device_names@[i2]]
        0 <= i1 < i2 < w.adapter_device_names@.len() ==> w.adapter_device_names@[i1].1@
            != w.adapter_device_names@[i2].1@
    &&& forall|k: int|
        0 <= k < active_paths(w.paths@).len() ==> target_identity_ok(
            w,
            (#[trigger] active_paths(w.paths@)[k]).target_info.mode_info_idx,
        )
}

/// Every key the target cache ends with beyond its initial segment is
/// the target-mode index of some active path.
proof fn lemma_target_keys_covered_at(init: Seq<u32>, paths: Seq<NativePathInfo>, j: int)
    requires
        init.len() <= j < target_mode_keys_from(init, paths).len(),
    ensures
        exists|k: int|
            0 <= k < active_paths(paths).len() && (#[trigger] active_paths(
                paths,
            )[k]).target_info.mode_info_idx == target_mode_keys_from(init, paths)[j],
    decreases paths.len(),
{
    reveal_with_fuel(Seq::<NativePathInfo>::filter, 2);
    let r = target_mode_keys_from(init, paths);
    if paths.len() == 0 {
        assert(false);
    } else {
        let dl = paths.drop_last();
        let p = paths.last();
        assert(paths =~= dl.push(p));
        lemma_active_paths_push(dl, p);
        let prev = target_mode_keys_from(init, dl);
        if j < prev.len() {
            lemma_target_keys_covered_at(init, dl, j);
            let k0 = choose|k: int|
                0 <= k < active_paths(dl).len() && (#[trigger] active_paths(
                    dl,
                )[k]).target_info.mode_info_idx == prev[j];
            assert(active_paths(paths)[k0] == active_paths(dl)[k0]);
            assert(r[j] == prev[j]);
        } else {
            assert(path_is_active(p) && !prev.contains(p.target_info.mode_info_idx));
            assert(r == prev.push(p.target_info.mode_info_idx));
            assert(j == prev.len());
            let k1 = active_paths(dl).len() as int;
            assert(active_paths(paths)[k1] == p);
        }
    }
}

/// There is no materialization error exactly when every stored source
/// and target mode is free of one.
pub proof fn lemma_first_materialize_error_none_iff(l: DisplayLayout, w: WindowsDisplayConfig)
    ensures
        first_materialize_error(l, w) is None <==> ((forall|k: int|
            0 <= k < l.source_modes@.len() ==> source_record_error(
                w,
                #[trigger] l.source_modes@[k],
            ) is None) && (forall|k: int|
            0 <= k < l.target_modes@.len() ==> target_record_error(
                w,
                #[trigger] l.target_modes@[k],
            ) is None)),
{
    lemma_first_source_record_error_from_none_iff(l, w, 0);
    lemma_first_target_record_error_from_none_iff(l, w, 0);
}

proof fn lemma_first_source_record_error_from_none_iff(
    l: DisplayLayout,
    w: WindowsDisplayConfig,
    i: int,
)
    requires
        0 <= i <= l.source_modes@.len(),
    ensures
        first_source_record_error_from(l, w, i) is None <==> (forall|k: int|
            i <= k < l.source_modes@.len() ==> source_record_error(
                w,
                #[trigger] l.source_modes@[k],
            ) is None),
    decreases l.source_modes@.len() - i,
{
    if i < l.source_modes@.len() {
        lemma_first_source_record_error_from_none_iff(l, w, i + 1);
    }
}

proof fn lemma_first_target_record_error_from_none_iff(
    l: DisplayLayout,
    w: WindowsDisplayConfig,
    j: int,
)
    requires
        0 <= j <= l.target_modes@.len(),
    ensures
        first_target_record_error_from(l, w, j) is None <==> (forall|k: int|
            j <= k < l.target_modes@.len() ==> target_record_error(
                w,
                #[trigger] l.target_modes@[k],
            ) is None),
    decreases l.target_modes@.len() - j,
{
    if j < l.target_modes@.len() {
        lemma_first_target_record_error_from_none_iff(l, w, j + 1);
    }
}

/// Under the round-trip conditions, a layout captured from the
/// enumeration materializes against that same enumeration without error.
pub proof fn lemma_round_trip_materializes(w: WindowsDisplayConfig, l: DisplayLayout)
    requires
        round_trip_ready(w),
        build_rel(w, l),
    ensures
        l.wf(),
        first_materialize_error(l, w) is None,
{
    lemma_build_rel_well_formed(w, l);
    let src_keys = source_mode_keys(w.paths@);
    let tgt_keys = target_mode_keys(w.paths@);
    assert forall|k: int| 0 <= k < l.source_modes@.len() implies source_record_error(
        w,
        #[trigger] l.source_modes@[k],
    ) is None by {
        let m = l.source_modes@[k];
        assert(is_built_source_mode(w, src_keys[k], m));
        let rec = w.modes@[src_keys[k] as int];
        crate::windows_util::lemma_adapter_path_inverts(w.adapter_device_names@, rec.adapter_id);
    }
    lemma_first_source_record_error_from_none_iff(l, w, 0);
    assert forall|k: int| 0 <= k < l.target_modes@.len() implies target_record_error(
        w,
        #[trigger] l.target_modes@[k],
    ) is None by {
        let m = l.target_modes@[k];
        assert(is_built_target_mode(w, tgt_keys[k], m));
        let rec = w.modes@[tgt_keys[k] as int];
        crate::windows_util::lemma_adapter_path_inverts(w.adapter_device_names@, rec.adapter_id);
        lemma_target_keys_covered_at(Seq::<u32>::empty(), w.paths@, k);
        let kact = choose|ka: int|
            0 <= ka < active_paths(w.paths@).len() && (#[trigger] active_paths(
                w.paths@,
            )[ka]).target_info.mode_info_idx == tgt_keys[k];
        assert(target_identity_ok(w, tgt_keys[k]));
        let n = assoc_find(
            w.target_device_names@,
            IdAndAdapterId { id: rec.id, adapter_id: rec.adapter_id },
        )->0;
        assert(m.device.monitor_device_path is Some);
        assert(m.device.monitor_device_path->0@ == n.monitor_device_path@);
        let aid = rev_adapter_find(
            w.adapter_device_names@,
            m.device.adapter.device_instance_path@,
        )->0;
        assert(aid == rec.adapter_id);
        if exists|c1: u32, c2: u32|
            c1 != c2 && is_target_match(w, aid, c1, m.device.monitor_device_path->0@)
                && is_target_match(w, aid, c2, m.device.monitor_device_path->0@) {
            let (c1, c2) = choose|c1: u32, c2: u32|
                c1 != c2 && is_target_match(w, aid, c1, m.device.monitor_device_path->0@)
                    && is_target_match(w, aid, c2, m.device.monitor_device_path->0@);
            assert(c1 == c2);
        }
    }
    lemma_first_target_record_error_from_none_iff(l, w, 0);
}

/// How one emitted path corresponds to the active native path it round
/// trips: same per-path attributes, an active flag, and mode records
/// whose geometry, signal (up to the packed field's reserved bits),
/// adapter and numeric id equal those the enumeration carried.
pub open spec fn path_round_trip_equiv(
    w: WindowsDisplayConfig,
    p: NativePathInfo,
    modes: Seq<NativeModeInfo>,
    q: NativePathInfo,
) -> bool {
    let src_rec = w.modes@[p.source_info.mode_info_idx as int];
    let tgt_rec = w.modes@[p.target_info.mode_info_idx as int];
    &&& q.flags == DISPLAYCONFIG_PATH_ACTIVE
    &&& q.target_info.output_technology == p.target_info.output_technology
    &&& q.target_info.rotation == p.target_info.rotation
    &&& q.target_info.scaling == p.target_info.scaling
    &&& q.target_info.refresh_rate == p.target_info.refresh_rate
    &&& q.target_info.scanline_ordering == p.target_info.scanline_ordering
    &&& q.source_info.mode_info_idx < modes.len()
    &&& {
        let er = modes[q.source_info.mode_info_idx as int];
        &&& q.source_info.id == er.id
        &&& q.source_info.adapter_id == er.adapter_id
        &&& er.id == src_rec.id
        &&& er.adapter_id == src_rec.adapter_id
        &&& er.data == src_rec.data
    }
    &&& q.target_info.mode_info_idx < modes.len()
    &&& {
        let er = modes[q.target_info.mode_info_idx as int];
        &&& q.target_info.id == er.id
        &&& q.target_info.adapter_id == er.adapter_id
        &&& er.id == tgt_rec.id
        &&& er.adapter_id == tgt_rec.adapter_id
        &&& match (er.data, tgt_rec.data) {
            (NativeModeData::Target(es), NativeModeData::Target(os)) => {
                &&& es.pixel_rate == os.pixel_rate
                &&& es.h_sync_freq == os.h_sync_freq
                &&& es.v_sync_freq == os.v_sync_freq
                &&& es.active_size == os.active_size
                &&& es.total_size == os.total_size
                &&& spec_unpack_video_standard(es.additional_signal_info)
                    == spec_unpack_video_standard(os.additional_signal_info)
                &&& spec_unpack_v_sync_freq_divider(es.additional_signal_info)
                    == spec_unpack_v_sync_freq_divider(os.additional_signal_info)
                &&& es.scanline_ordering == os.scanline_ordering
            },
            _ => false,
        }
    }
}

/// The materialized arrays reproduce the enumeration's active
/// configuration, path for path.
pub open spec fn round_trip_equiv(w: WindowsDisplayConfig, out: NativeDisplayConfig) -> bool {
    let act = active_paths(w.paths@);
    &&& out.paths@.len() == act.len()
    &&& forall|k: int|
        0 <= k < act.len() ==> path_round_trip_equiv(w, act[k], out.modes@, #[trigger] out.paths@[k])
}

/// Building a layout from a live enumeration and materializing it
/// against that same enumeration reproduces the active configuration:
/// ignoring the volatile numeric ids' representation, the geometry,
/// signal, device identities and per-path attributes all survive the
/// round trip.
#[verifier::rlimit(100)]
pub proof fn lemma_round_trip(w: WindowsDisplayConfig, l: DisplayLayout, out: NativeDisplayConfig)
    requires
        round_trip_ready(w),
        build_rel(w, l),
        materialize_rel(l, w, out),
    ensures
        round_trip_equiv(w, out),
{
    lemma_build_rel_well_formed(w, l);
    let act = active_paths(w.paths@);
    let src_keys = source_mode_keys(w.paths@);
    let tgt_keys = target_mode_keys(w.paths@);
    let ns = l.source_modes@.len() as int;
    assert forall|k: int| 0 <= k < act.len() implies path_round_trip_equiv(
        w,
        act[k],
        out.modes@,
        #[trigger] out.paths@[k],
    ) by {
        let p = act[k];
        let dp = l.paths@[k];
        assert(is_built_path(p, src_keys, tgt_keys, dp));
        assert(is_emitted_path(l, out.modes@, dp, out.paths@[k]));
        let q = out.paths@[k];
        let si = dp.source.source_mode_index as int;
        let ti = dp.target.target_mode_index as int;
        let s_native = src_keys[si];
        let t_native = tgt_keys[ti];
        let sm_built = l.source_modes@[si];
        let tm_built = l.target_modes@[ti];
        assert(is_built_source_mode(w, s_native, sm_built));
        assert(is_built_target_mode(w, t_native, tm_built));
        let er_s = out.modes@[si];
        let er_t = out.modes@[ns + ti];
        assert(is_emitted_source_record(w, sm_built, er_s));
        assert(is_emitted_target_record(w, tm_built, er_t));
        let src_rec = w.modes@[s_native as int];
        let tgt_rec = w.modes@[t_native as int];
        // The flat-array indices the emitted path carries point at the
        // two emitted records.
        assert(q.source_info.mode_info_idx == si as u32);
        assert(q.target_info.mode_info_idx == (ns + ti) as u32);
        assert(q.source_info.mode_info_idx as int == si);
        assert(q.target_info.mode_info_idx as int == ns + ti);
        // Adapter ids survive: the stored path is the adapter's resolved
        // path, and paths are pairwise distinct.
        crate::windows_util::lemma_adapter_path_inverts(
            w.adapter_device_names@,
            src_rec.adapter_id,
        );
        assert(er_s.adapter_id == src_rec.adapter_id);
        crate::windows_util::lemma_adapter_path_inverts(
            w.adapter_device_names@,
            tgt_rec.adapter_id,
        );
        assert(er_t.adapter_id == tgt_rec.adapter_id);
        // Source geometry survives exactly.
        match src_rec.data {
            NativeModeData::Source(sm) => {
                crate::windows_util::lemma_pixel_format_value_round_trip(sm.pixel_format);
                assert(er_s.data == src_rec.data);
            },
            _ => {
                assert(false);
            },
        }
        // The target is matched back to itself: it is its own candidate,
        // its name record carries the stored path, and matches are
        // unique.
        assert(target_identity_ok(w, t_native));
        let n = assoc_find(
            w.target_device_names@,
            IdAndAdapterId { id: tgt_rec.id, adapter_id: tgt_rec.adapter_id },
        )->0;
        let stored = tm_built.device.monitor_device_path->0;
        assert(stored@ == n.monitor_device_path@);
        assert(w.modes@[t_native as int].data is Target && w.modes@[t_native as int].adapter_id
            == tgt_rec.adapter_id && w.modes@[t_native as int].id == tgt_rec.id);
        assert(is_target_candidate(w, tgt_rec.adapter_id, tgt_rec.id));
        assert(crate::windows_util::target_path_matches(
            w,
            tgt_rec.adapter_id,
            tgt_rec.id,
            stored@,
        ));
        assert(is_target_match(w, er_t.adapter_id, tgt_rec.id, stored@));
        assert(er_t.id == tgt_rec.id);
        // The signal round trips through the packed field.
        match tgt_rec.data {
            NativeModeData::Target(os) => {
                let f = os.additional_signal_info;
                assert((f & 0xFFFF) < 0x10000) by (bit_vector);
                assert(((f >> 16) & 0x3F) < 0x40) by (bit_vector);
                crate::windows_util::lemma_video_standard_value_round_trip(
                    spec_unpack_video_standard(f),
                );
                crate::windows_util::lemma_signal_info_pack_then_unpack(
                    spec_unpack_video_standard(f),
                    spec_unpack_v_sync_freq_divider(f),
                );
                crate::windows_util::lemma_scanline_ordering_value_round_trip(
                    os.scanline_ordering,
                );
            },
            _ => {
                assert(false);
            },
        }
        // The per-path attributes round trip through their enums.
        crate::windows_util::lemma_output_technology_value_round_trip(
            p.target_info.output_technology,
        );
        crate::windows_util::lemma_rotation_value_round_trip(p.target_info.rotation);
        crate::windows_util::lemma_scaling_value_round_trip(p.target_info.scaling);
        crate::windows_util::lemma_scanline_ordering_value_round_trip(
            p.target_info.scanline_ordering,
        );
    }
}

} // verus!
