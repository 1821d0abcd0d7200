//! Device selection decisions: which queue families to use and which
//! physical device is suitable. The surrounding program enumerates devices
//! and families and reports their capabilities as plain values; every
//! decision over those values is made, deterministically, here.

use vstd::prelude::*;

verus! {

/// What one queue family offers.
#[derive(Clone, Copy, PartialEq, Eq, Structural, Debug)]
pub struct QueueFamilyProps {
    /// Whether the family supports graphics work.
    pub supports_graphics: bool,
    /// Whether the surface can be presented from this family.
    pub supports_present: bool,
}

/// The queue family indices selected for a device.
#[derive(Clone, Copy, PartialEq, Eq, Debug)]
pub struct QueueFamilyIndices {
    pub graphics: Option<i32>,
    pub present: Option<i32>,
    pub transfer: Option<i32>,
}

impl Default for QueueFamilyIndices {
    fn default() -> (r: QueueFamilyIndices)
        ensures
            r == (QueueFamilyIndices { graphics: None, present: None, transfer: None }),
    {
        QueueFamilyIndices { graphics: None, present: None, transfer: None }
    }
}

impl QueueFamilyIndices {
    /// Whether every required family has been found.
    pub open spec fn is_complete_spec(&self) -> bool {
        self.graphics is Some && self.present is Some && self.transfer is Some
    }

    /// Whether every required family has been found.
    pub fn is_complete(&self) -> (r: bool)
        ensures
            r == self.is_complete_spec(),
    {
        self.graphics.is_some() && self.present.is_some() && self.transfer.is_some()
    }
}

/// One step of the family scan at index `i`: a graphics-capable family
/// overwrites the graphics pick, a present-capable one the present pick,
/// and a family distinct from both current picks becomes the transfer pick.
pub open spec fn scan_step(acc: QueueFamilyIndices, family: QueueFamilyProps, i: int) -> QueueFamilyIndices {
    let graphics = if family.supports_graphics {
        Some(i as i32)
    } else {
        acc.graphics
    };
    let present = if family.supports_present {
        Some(i as i32)
    } else {
        acc.present
    };
    let transfer = if Some(i as i32) != graphics && Some(i as i32) != present {
        Some(i as i32)
    } else {
        acc.transfer
    };
    QueueFamilyIndices { graphics, present, transfer }
}

/// The family scan from index `i` onward: steps through the families in
/// order and stops as soon as the picks are complete.
pub open spec fn scan_families(
    families: Seq<QueueFamilyProps>,
    i: int,
    acc: QueueFamilyIndices,
) -> QueueFamilyIndices
    decreases families.len() - i,
{
    if i < 0 || i >= families.len() {
        acc
    } else {
        let next = scan_step(acc, families[i], i);
        if next.is_complete_spec() {
            next
        } else {
            scan_families(families, i + 1, next)
        }
    }
}

/// The complete family selection: the scan, then the fallback that shares
/// the graphics family for transfer work when no distinct family was found.
pub open spec fn find_queue_families_spec(families: Seq<QueueFamilyProps>) -> QueueFamilyIndices {
    let scanned = scan_families(
        families,
        0,
        QueueFamilyIndices { graphics: None, present: None, transfer: None },
    );
    if scanned.transfer is None {
        QueueFamilyIndices { transfer: scanned.graphics, ..scanned }
    } else {
        scanned
    }
}

/// Selects the queue families to open on a device: deterministic given the
/// enumeration order, preferring a distinct transfer family but falling
/// back to sharing the graphics family.
pub fn find_queue_families(families: &Vec<QueueFamilyProps>) -> (r: QueueFamilyIndices)
    requires
        families@.len() <= i32::MAX as int,
    ensures
        r == find_queue_families_spec(families@),
{
    let ghost init = QueueFamilyIndices { graphics: None, present: None, transfer: None };
    let mut indices = QueueFamilyIndices { graphics: None, present: None, transfer: None };
    let mut i: usize = 0;
    let mut stopped = false;
    while i < families.len() && !stopped
        invariant
            i <= families@.len(),
            families@.len() <= i32::MAX as int,
            scan_families(families@, 0, init) == if stopped {
                indices
            } else {
                scan_families(families@, i as int, indices)
            },
            stopped ==> indices.is_complete_spec(),
        decreases families@.len() - i, 1int - (if stopped { 1int } else { 0int }),
    {
        let family = families[i];
        let idx = i as i32;
        let some_idx = Some(idx);
        let graphics = if family.supports_graphics {
            some_idx
        } else {
            indices.graphics
        };
        let present = if family.supports_present {
            some_idx
        } else {
            indices.present
        };
        let graphics_is_idx = match graphics {
            Some(g) => g == idx,
            None => false,
        };
        let present_is_idx = match present {
            Some(p) => p == idx,
            None => false,
        };
        let transfer = if !graphics_is_idx && !present_is_idx {
            some_idx
        } else {
            indices.transfer
        };
        let ghost prev = indices;
        indices = QueueFamilyIndices { graphics, present, transfer };
        proof {
            assert(indices == scan_step(prev, families@[i as int], i as int));
        }
        if indices.is_complete() {
            stopped = true;
        }
        i = i + 1;
    }
    if indices.transfer.is_none() {
        indices.transfer = indices.graphics;
    }
    indices
}

/// The device features the backend cares about.
#[derive(Clone, Copy, PartialEq, Eq, Structural, Debug)]
pub struct DeviceFeatures {
    pub sampler_anisotropy: bool,
    pub shader_int8: bool,
    pub shader_int16: bool,
    pub shader_int64: bool,
}

/// The device extensions the backend cares about.
#[derive(Clone, Copy, PartialEq, Eq, Structural, Debug)]
pub struct DeviceExtensions {
    pub khr_swapchain: bool,
    pub khr_storage_buffer_storage_class: bool,
    pub khr_8bit_storage: bool,
    pub khr_16bit_storage: bool,
}

/// The features a physical device must offer: anisotropic sampling and
/// 8-, 16- and 64-bit shader integers.
pub fn get_device_features() -> (r: DeviceFeatures)
    ensures
        r == (DeviceFeatures {
            sampler_anisotropy: true,
            shader_int8: true,
            shader_int16: true,
            shader_int64: true,
        }),
{
    DeviceFeatures {
        sampler_anisotropy: true,
        shader_int8: true,
        shader_int16: true,
        shader_int64: true,
    }
}

/// The extensions a physical device must offer: swapchain support and
/// 8- and 16-bit storage.
pub fn get_device_extensions() -> (r: DeviceExtensions)
    ensures
        r == (DeviceExtensions {
            khr_swapchain: true,
            khr_storage_buffer_storage_class: true,
            khr_8bit_storage: true,
            khr_16bit_storage: true,
        }),
{
    DeviceExtensions {
        khr_swapchain: true,
        khr_storage_buffer_storage_class: true,
        khr_8bit_storage: true,
        khr_16bit_storage: true,
    }
}

/// Whether a device's reported features cover the required set.
pub fn features_cover(available: &DeviceFeatures, required: &DeviceFeatures) -> (r: bool)
    ensures
        r == ((required.sampler_anisotropy ==> available.sampler_anisotropy)
            && (required.shader_int8 ==> available.shader_int8) && (required.shader_int16
            ==> available.shader_int16) && (required.shader_int64 ==> available.shader_int64)),
{
    (!required.sampler_anisotropy || available.sampler_anisotropy) && (!required.shader_int8
        || available.shader_int8) && (!required.shader_int16 || available.shader_int16) && (
    !required.shader_int64 || available.shader_int64)
}

/// Whether a device's reported extensions cover the required set.
pub fn extensions_cover(available: &DeviceExtensions, required: &DeviceExtensions) -> (r: bool)
    ensures
        r == ((required.khr_swapchain ==> available.khr_swapchain)
            && (required.khr_storage_buffer_storage_class
            ==> available.khr_storage_buffer_storage_class) && (required.khr_8bit_storage
            ==> available.khr_8bit_storage) && (required.khr_16bit_storage
            ==> available.khr_16bit_storage)),
{
    (!required.khr_swapchain || available.khr_swapchain) && (
    !required.khr_storage_buffer_storage_class || available.khr_storage_buffer_storage_class) && (
    !required.khr_8bit_storage || available.khr_8bit_storage) && (!required.khr_16bit_storage
        || available.khr_16bit_storage)
}

/// What a physical device reports about itself, as plain values.
pub struct DeviceCaps {
    /// Its queue families, in enumeration order.
    pub families: Vec<QueueFamilyProps>,
    /// Whether it supports every required device extension.
    pub extensions_supported: bool,
    /// Whether the surface reports at least one supported format on it.
    pub formats_nonempty: bool,
    /// Whether the surface reports at least one present mode on it.
    pub present_modes_nonempty: bool,
    /// Whether it supports every required device feature.
    pub features_supported: bool,
}

/// Whether a device can run the backend: complete queue families, the
/// required extensions and features, and a surface with at least one format
/// and present mode. The swapchain check only counts when the extensions
/// are there to create one.
pub open spec fn suitable_spec(caps: DeviceCaps) -> bool {
    &&& find_queue_families_spec(caps.families@).is_complete_spec()
    &&& caps.extensions_supported
    &&& caps.formats_nonempty && caps.present_modes_nonempty
    &&& caps.features_supported
}

/// Decides whether a physical device is suitable.
pub fn is_physical_device_suitable(caps: &DeviceCaps) -> (r: bool)
    requires
        caps.families@.len() <= i32::MAX as int,
    ensures
        r == suitable_spec(*caps),
{
    let indices = find_queue_families(&caps.families);
    let swap_chain_adequate = if caps.extensions_supported {
        caps.formats_nonempty && caps.present_modes_nonempty
    } else {
        false
    };
    indices.is_complete() && caps.extensions_supported && swap_chain_adequate
        && caps.features_supported
}

/// Picks the physical device to open: the first suitable one in
/// enumeration order, which makes the choice deterministic for a fixed
/// enumeration. Returns `None` when no device is suitable, which the
/// caller must treat as fatal.
pub fn pick_physical_device(devices: &Vec<DeviceCaps>) -> (r: Option<usize>)
    requires
        forall|i: int| 0 <= i < devices@.len() ==> (#[trigger] devices@[i]).families@.len()
            <= i32::MAX as int,
    ensures
        match r {
            Some(idx) => idx < devices@.len() && suitable_spec(devices@[idx as int])
                && forall|j: int| 0 <= j < idx ==> !suitable_spec(#[trigger] devices@[j]),
            None => forall|j: int| 0 <= j < devices@.len() ==> !suitable_spec(
                #[trigger] devices@[j],
            ),
        },
{
    let mut i: usize = 0;
    while i < devices.len()
        invariant
            i <= devices@.len(),
            forall|k: int| 0 <= k < devices@.len() ==> (#[trigger] devices@[k]).families@.len()
                <= i32::MAX as int,
            forall|j: int| 0 <= j < i ==> !suitable_spec(#[trigger] devices@[j]),
        decreases devices@.len() - i,
    {
        if is_physical_device_suitable(&devices[i]) {
            return Some(i);
        }
        i = i + 1;
    }
    None
}

/// The queue families a logical device is opened with: the graphics,
/// present and transfer picks with duplicates dropped, keeping first
/// occurrences in that order.
pub open spec fn unique_families_spec(graphics: i32, present: i32, transfer: i32) -> Seq<i32> {
    seq![graphics] + (if present == graphics {
        Seq::<i32>::empty()
    } else {
        seq![present]
    }) + (if transfer == graphics || transfer == present {
        Seq::<i32>::empty()
    } else {
        seq![transfer]
    })
}

/// Deduplicates the selected queue family indices, keeping order.
pub fn unique_queue_families(graphics: i32, present: i32, transfer: i32) -> (r: Vec<i32>)
    ensures
        r@ == unique_families_spec(graphics, present, transfer),
{
    let mut out: Vec<i32> = Vec::new();
    out.push(graphics);
    if present != graphics {
        out.push(present);
    }
    if transfer != graphics && transfer != present {
        out.push(transfer);
    }
    proof {
        assert(out@ =~= unique_families_spec(graphics, present, transfer));
    }
    out
}

} // verus!
