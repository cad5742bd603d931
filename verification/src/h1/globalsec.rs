//! Global security controller: access to the memory regions, and which of
//! the two copies of each firmware segment runs.

use vstd::prelude::*;
use crate::driver::firmware::{unknown_runtime_segment_info, unknown_segment_spec, RuntimeSegmentInfo, SegmentInfo};

verus! {

/// Region control value: region enabled for reads and writes.
pub const REGION_CTRL_EN_RD_WR: u32 = 0x7;

/// The firmware segments: read-only and read-write, each in two copies.
pub struct Segments {
    /// First copy of the read-only segment.
    pub ro_a: SegmentInfo,
    /// Second copy of the read-only segment.
    pub ro_b: SegmentInfo,
    /// First copy of the read-write segment.
    pub rw_a: SegmentInfo,
    /// Second copy of the read-write segment.
    pub rw_b: SegmentInfo,
}

/// A flash region: where it starts and how long it is.
#[derive(Clone, Copy, PartialEq, Eq, Structural, Debug)]
pub struct FlashRegion {
    /// Region control.
    pub ctrl: u32,
    /// Base address.
    pub base_addr: u32,
    /// Size.
    pub size: u32,
}

/// Which copy of a segment is active, given the base address of the
/// region that maps the active copy: `Some((active, inactive))`, or `None`
/// when the address is neither copy's.
pub open spec fn spec_select(base: u32, flash_start: u32, a: SegmentInfo, b: SegmentInfo) -> Option<(SegmentInfo, SegmentInfo)> {
    if base == flash_start + a.address {
        Some((a, b))
    } else if base == flash_start + b.address {
        Some((b, a))
    } else {
        None
    }
}

/// The active copy of a segment is the one that the region's base address
/// maps, and the inactive copy is the other one: when a copy is chosen, the
/// base is where the chosen active copy lies in flash, and the pair is the
/// two copies; no copy is chosen exactly when the base maps neither. So the
/// copy opened for writes is never the running one, when the copies lie
/// apart.
pub proof fn lemma_select_maps_base(base: u32, flash_start: u32, a: SegmentInfo, b: SegmentInfo)
    ensures
        spec_select(base, flash_start, a, b) matches Some((active, inactive)) ==> base == flash_start
            + active.address && ((active == a && inactive == b) || (active == b && inactive == a)),
        spec_select(base, flash_start, a, b) is None <==> (base != flash_start + a.address && base
            != flash_start + b.address),
        base == flash_start + a.address ==> spec_select(base, flash_start, a, b) == Some((a, b)),
        spec_select(base, flash_start, a, b) matches Some((active, inactive)) ==> (a.address != b.address
            ==> flash_start + inactive.address != base),
{
}

/// Returns which copy of a segment is active, given the base address of the
/// region that maps the active copy.
pub fn select_active(base: u32, flash_start: u32, a: SegmentInfo, b: SegmentInfo) -> (r: Option<(SegmentInfo, SegmentInfo)>)
    requires
        flash_start + a.address <= u32::MAX,
        flash_start + b.address <= u32::MAX,
    ensures
        r == spec_select(base, flash_start, a, b),
{
    if base == flash_start + a.address {
        Some((a, b))
    } else if base == flash_start + b.address {
        Some((b, a))
    } else {
        None
    }
}

/// The global security controller.
pub struct GlobalSecHardware {
    /// Which segments run and which do not.
    pub runtime_segment_info: RuntimeSegmentInfo,
    /// Control of the CPU, DMA and USB regions, in that order, four each.
    pub region_ctrl: Vec<u32>,
    /// The region of the inactive read-only segment.
    pub flash_region2: FlashRegion,
    /// The region of the inactive read-write segment.
    pub flash_region3: FlashRegion,
}

/// The result of `init`: the messages for addresses of active segments that
/// are neither copy's.
#[derive(Clone, Copy, PartialEq, Eq, Structural, Debug)]
pub struct InitReport {
    /// The read-only region's base is unknown.
    pub unknown_region0_base: bool,
    /// The read-write region's base is unknown.
    pub unknown_region1_base: bool,
}

impl GlobalSecHardware {
    /// A controller with unknown segments and regions not configured.
    pub fn new() -> (g: GlobalSecHardware)
        ensures
            g.runtime_segment_info.active_ro == unknown_segment_spec(),
            g.runtime_segment_info.active_rw == unknown_segment_spec(),
            g.runtime_segment_info.inactive_ro == unknown_segment_spec(),
            g.runtime_segment_info.inactive_rw == unknown_segment_spec(),
            g.region_ctrl@.len() == 0,
            g.flash_region2 == (FlashRegion { ctrl: 0, base_addr: 0, size: 0 }),
            g.flash_region3 == (FlashRegion { ctrl: 0, base_addr: 0, size: 0 }),
    {
        GlobalSecHardware {
            runtime_segment_info: unknown_runtime_segment_info(),
            region_ctrl: Vec::new(),
            flash_region2: FlashRegion { ctrl: 0, base_addr: 0, size: 0 },
            flash_region3: FlashRegion { ctrl: 0, base_addr: 0, size: 0 },
        }
    }

    /// Opens the CPU, DMA and USB regions, finds out which copies of the
    /// segments run from the bases of flash regions 0 (read-only) and 1
    /// (read-write), and opens the inactive copies for reads and writes
    /// through flash regions 2 and 3. `flash_start` is where the flash is
    /// mapped. An unknown base leaves that segment's information as it was.
    pub fn init(&mut self, segments: Segments, region0_base: u32, region1_base: u32, flash_start: u32) -> (report: InitReport)
        requires
            flash_start + segments.ro_a.address <= u32::MAX,
            flash_start + segments.ro_b.address <= u32::MAX,
            flash_start + segments.rw_a.address <= u32::MAX,
            flash_start + segments.rw_b.address <= u32::MAX,
            spec_select(region0_base, flash_start, segments.ro_a, segments.ro_b) is None ==> flash_start
                + old(self).runtime_segment_info.inactive_ro.address <= u32::MAX,
            spec_select(region1_base, flash_start, segments.rw_a, segments.rw_b) is None ==> flash_start
                + old(self).runtime_segment_info.inactive_rw.address <= u32::MAX,
        ensures
            final(self).region_ctrl@ == Seq::new(12, |i: int| REGION_CTRL_EN_RD_WR),
            ({
                let ro = spec_select(region0_base, flash_start, segments.ro_a, segments.ro_b);
                let rw = spec_select(region1_base, flash_start, segments.rw_a, segments.rw_b);
                let info0 = old(self).runtime_segment_info;
                let info = final(self).runtime_segment_info;
                &&& report.unknown_region0_base == ro is None
                &&& report.unknown_region1_base == rw is None
                &&& (info.active_ro, info.inactive_ro) == match ro {
                    Some(p) => p,
                    None => (info0.active_ro, info0.inactive_ro),
                }
                &&& (info.active_rw, info.inactive_rw) == match rw {
                    Some(p) => p,
                    None => (info0.active_rw, info0.inactive_rw),
                }
                &&& final(self).flash_region2 == (FlashRegion {
                    ctrl: REGION_CTRL_EN_RD_WR,
                    base_addr: (flash_start + info.inactive_ro.address) as u32,
                    size: info.inactive_ro.size,
                })
                &&& final(self).flash_region3 == (FlashRegion {
                    ctrl: REGION_CTRL_EN_RD_WR,
                    base_addr: (flash_start + info.inactive_rw.address) as u32,
                    size: info.inactive_rw.size,
                })
            }),
    {
        let mut ctrl: Vec<u32> = Vec::new();
        while ctrl.len() < 12
            invariant
                ctrl@.len() <= 12,
                ctrl@ == Seq::new(ctrl@.len(), |i: int| REGION_CTRL_EN_RD_WR),
            decreases 12 - ctrl.len(),
        {
            ctrl.push(REGION_CTRL_EN_RD_WR);
            assert(ctrl@ =~= Seq::new(ctrl@.len(), |i: int| REGION_CTRL_EN_RD_WR));
        }
        self.region_ctrl = ctrl;

        // Flash regions:
        // - REGION0 : active RO image, already locked
        // - REGION1 : active RW image, already locked
        // - REGION2 : inactive RO image
        // - REGION3 : inactive RW image
        let mut report = InitReport { unknown_region0_base: false, unknown_region1_base: false };
        match select_active(region0_base, flash_start, segments.ro_a, segments.ro_b) {
            Some((active, inactive)) => {
                self.runtime_segment_info.active_ro = active;
                self.runtime_segment_info.inactive_ro = inactive;
            },
            None => {
                report.unknown_region0_base = true;
            },
        }
        // Enable the inactive RO for reads and writes.
        self.flash_region2 = FlashRegion {
            ctrl: REGION_CTRL_EN_RD_WR,
            base_addr: flash_start + self.runtime_segment_info.inactive_ro.address,
            size: self.runtime_segment_info.inactive_ro.size,
        };

        match select_active(region1_base, flash_start, segments.rw_a, segments.rw_b) {
            Some((active, inactive)) => {
                self.runtime_segment_info.active_rw = active;
                self.runtime_segment_info.inactive_rw = inactive;
            },
            None => {
                report.unknown_region1_base = true;
            },
        }
        // Enable the inactive RW for reads and writes.
        self.flash_region3 = FlashRegion {
            ctrl: REGION_CTRL_EN_RD_WR,
            base_addr: flash_start + self.runtime_segment_info.inactive_rw.address,
            size: self.runtime_segment_info.inactive_rw.size,
        };
        report
    }

    /// Which segments run and which do not.
    pub fn get_runtime_segment_info(&self) -> (r: RuntimeSegmentInfo)
        ensures
            r == self.runtime_segment_info,
    {
        self.runtime_segment_info
    }
}

} // verus!
