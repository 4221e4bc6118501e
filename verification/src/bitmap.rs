use vstd::prelude::*;

verus! {

/// Which half of a staged byte a bus frame carries.
#[derive(Clone, Copy, Debug, PartialEq, Eq, Structural)]
pub enum NibbleHalf {
    High,
    Low,
}

/// Where the data nibble sits inside a rendered frame byte.
#[derive(Clone, Copy, Debug, PartialEq, Eq, Structural)]
pub enum DataPlacement {
    HighBits,
    LowBits,
}

/// How the low half of a staged byte reaches the data lines.
///
/// `SelectorDriven`: the render step itself extracts the requested half of
/// the staged byte. `CallerPreshifted`: the render step always exposes the
/// staged byte's high nibble, and the transfer machine re-stages
/// `byte << 4` before the low half. Both layouts exist among the supported
/// expander wirings; they put identical frames on the bus.
#[derive(Clone, Copy, Debug, PartialEq, Eq, Structural)]
pub enum NibbleStrategy {
    SelectorDriven,
    CallerPreshifted,
}

/// Physical bit layout of one expander variant: one mask per control line,
/// plus where and how the data nibble is placed.
#[derive(Clone, Copy, Debug)]
pub struct BitMap {
    pub rs_mask: u8,
    pub rw_mask: u8,
    pub enable_mask: u8,
    pub backlight_mask: u8,
    pub data_placement: DataPlacement,
    pub strategy: NibbleStrategy,
}

/// `m` has exactly one bit set.
pub open spec fn is_single_bit(m: u8) -> bool {
    m != 0 && m & (m - 1) as u8 == 0
}

/// Runtime mirror of [`is_single_bit`].
pub fn single_bit(m: u8) -> (s: bool)
    ensures
        s == is_single_bit(m),
{
    m != 0 && m & (m - 1) == 0
}

impl BitMap {
    /// The four frame bits reserved for the data nibble.
    pub open spec fn data_area(self) -> u8 {
        match self.data_placement {
            DataPlacement::HighBits => 0xF0u8,
            DataPlacement::LowBits => 0x0Fu8,
        }
    }

    /// Each control line owns exactly one bit, no two lines share one, and
    /// none intrudes on the data nibble's four bits.
    pub open spec fn wf(self) -> bool {
        &&& is_single_bit(self.rs_mask)
        &&& is_single_bit(self.rw_mask)
        &&& is_single_bit(self.enable_mask)
        &&& is_single_bit(self.backlight_mask)
        &&& self.rs_mask & self.rw_mask == 0
        &&& self.rs_mask & self.enable_mask == 0
        &&& self.rs_mask & self.backlight_mask == 0
        &&& self.rw_mask & self.enable_mask == 0
        &&& self.rw_mask & self.backlight_mask == 0
        &&& self.enable_mask & self.backlight_mask == 0
        &&& self.rs_mask & self.data_area() == 0
        &&& self.rw_mask & self.data_area() == 0
        &&& self.enable_mask & self.data_area() == 0
        &&& self.backlight_mask & self.data_area() == 0
    }

    /// Runtime mirror of [`BitMap::wf`], so that unverified callers can
    /// check a hand-built layout before constructing a driver.
    pub fn is_well_formed(&self) -> (r: bool)
        ensures
            r == self.wf(),
    {
        let area: u8 = match self.data_placement {
            DataPlacement::HighBits => 0xF0,
            DataPlacement::LowBits => 0x0F,
        };
        single_bit(self.rs_mask) && single_bit(self.rw_mask) && single_bit(self.enable_mask)
            && single_bit(self.backlight_mask) && self.rs_mask & self.rw_mask == 0
            && self.rs_mask & self.enable_mask == 0 && self.rs_mask & self.backlight_mask == 0
            && self.rw_mask & self.enable_mask == 0 && self.rw_mask & self.backlight_mask == 0
            && self.enable_mask & self.backlight_mask == 0 && self.rs_mask & area == 0
            && self.rw_mask & area == 0 && self.enable_mask & area == 0
            && self.backlight_mask & area == 0
    }
}

/// Logical pin shadow: the driver's software copy of every expander output.
/// The hardware cannot be read back, so this is the only record of what the
/// pins hold.
#[derive(Clone, Copy, Debug)]
pub struct OutputState {
    /// Register select: low for commands, high for data.
    pub rs: bool,
    /// Read/write select: always low (write) in this design.
    pub rw: bool,
    /// Enable line: low except during the deliberate pulse window.
    pub e: bool,
    /// Backlight line: persists until explicitly changed.
    pub led: bool,
    /// The byte currently staged on the data lines.
    pub data: u8,
}

/// The 4-bit value of the requested half of `data`.
pub open spec fn nibble_of(data: u8, half: NibbleHalf) -> u8 {
    match half {
        NibbleHalf::High => (data >> 4) & 0x0Fu8,
        NibbleHalf::Low => data & 0x0Fu8,
    }
}

/// A 4-bit value shifted to its configured position in the frame byte.
pub open spec fn placed_nibble(p: DataPlacement, n: u8) -> u8 {
    match p {
        DataPlacement::HighBits => n << 4,
        DataPlacement::LowBits => n,
    }
}

/// The byte that the given logical signals put on the bus: one bit per
/// asserted control line, plus the requested half of the staged byte at its
/// configured position. Total over all inputs.
pub open spec fn spec_frame(
    m: BitMap,
    rs: bool,
    rw: bool,
    e: bool,
    led: bool,
    data: u8,
    half: NibbleHalf,
) -> u8 {
    (if rs {
        m.rs_mask
    } else {
        0u8
    }) | (if rw {
        m.rw_mask
    } else {
        0u8
    }) | (if e {
        m.enable_mask
    } else {
        0u8
    }) | (if led {
        m.backlight_mask
    } else {
        0u8
    }) | placed_nibble(m.data_placement, nibble_of(data, half))
}

impl OutputState {
    /// All lines low, nothing staged.
    pub fn new() -> (r: OutputState)
        ensures
            r == (OutputState { rs: false, rw: false, e: false, led: false, data: 0u8 }),
    {
        OutputState { rs: false, rw: false, e: false, led: false, data: 0 }
    }

    /// Renders the frame that carries the high half of the staged byte.
    pub fn get_high_data(&self, m: &BitMap) -> (r: u8)
        ensures
            r == spec_frame(*m, self.rs, self.rw, self.e, self.led, self.data, NibbleHalf::High),
    {
        let rs_bits: u8 = if self.rs {
            m.rs_mask
        } else {
            0
        };
        let rw_bits: u8 = if self.rw {
            m.rw_mask
        } else {
            0
        };
        let e_bits: u8 = if self.e {
            m.enable_mask
        } else {
            0
        };
        let led_bits: u8 = if self.led {
            m.backlight_mask
        } else {
            0
        };
        let nib: u8 = (self.data >> 4) & 0x0F;
        let placed: u8 = match m.data_placement {
            DataPlacement::HighBits => nib << 4,
            DataPlacement::LowBits => nib,
        };
        rs_bits | rw_bits | e_bits | led_bits | placed
    }

    /// Renders the frame that carries the low half of the staged byte.
    pub fn get_low_data(&self, m: &BitMap) -> (r: u8)
        ensures
            r == spec_frame(*m, self.rs, self.rw, self.e, self.led, self.data, NibbleHalf::Low),
    {
        let rs_bits: u8 = if self.rs {
            m.rs_mask
        } else {
            0
        };
        let rw_bits: u8 = if self.rw {
            m.rw_mask
        } else {
            0
        };
        let e_bits: u8 = if self.e {
            m.enable_mask
        } else {
            0
        };
        let led_bits: u8 = if self.led {
            m.backlight_mask
        } else {
            0
        };
        let nib: u8 = self.data & 0x0F;
        let placed: u8 = match m.data_placement {
            DataPlacement::HighBits => nib << 4,
            DataPlacement::LowBits => nib,
        };
        rs_bits | rw_bits | e_bits | led_bits | placed
    }
}

/// The stock layout — control lines on the four low bits, data nibble on
/// the four high bits — is well formed.
pub proof fn lemma_low_ctrl_high_data_wf(m: BitMap)
    requires
        m.rs_mask == 0x01u8,
        m.rw_mask == 0x02u8,
        m.enable_mask == 0x04u8,
        m.backlight_mask == 0x08u8,
        m.data_placement == DataPlacement::HighBits,
    ensures
        m.wf(),
{
    assert(is_single_bit(0x01u8) && is_single_bit(0x02u8) && is_single_bit(0x04u8)
        && is_single_bit(0x08u8) && 0x01u8 & 0x02u8 == 0 && 0x01u8 & 0x04u8 == 0 && 0x01u8
        & 0x08u8 == 0 && 0x02u8 & 0x04u8 == 0 && 0x02u8 & 0x08u8 == 0 && 0x04u8 & 0x08u8 == 0
        && 0x01u8 & 0xF0u8 == 0 && 0x02u8 & 0xF0u8 == 0 && 0x04u8 & 0xF0u8 == 0 && 0x08u8 & 0xF0u8
        == 0) by (bit_vector);
}

/// Staging `byte << 4` and sending its high half puts the same frame on the
/// bus as sending the low half of `byte` directly: the two nibble-split
/// strategies agree on the wire.
pub proof fn lemma_preshift_frame(m: BitMap, rs: bool, rw: bool, e: bool, led: bool, byte: u8)
    ensures
        spec_frame(m, rs, rw, e, led, byte << 4, NibbleHalf::High) == spec_frame(
            m,
            rs,
            rw,
            e,
            led,
            byte,
            NibbleHalf::Low,
        ),
{
    assert(((byte << 4) >> 4) & 0x0Fu8 == byte & 0x0Fu8) by (bit_vector);
}

/// For a well-formed bit map, rendering is injective on the logical signals
/// a frame carries: the frame byte determines RS, R/W, Enable, Backlight and
/// the transmitted data nibble, so no two distinct intents produce the same
/// bus traffic.
pub proof fn lemma_frame_injective(m: BitMap, p: OutputState, q: OutputState, half: NibbleHalf)
    requires
        m.wf(),
        spec_frame(m, p.rs, p.rw, p.e, p.led, p.data, half) == spec_frame(
            m,
            q.rs,
            q.rw,
            q.e,
            q.led,
            q.data,
            half,
        ),
    ensures
        p.rs == q.rs,
        p.rw == q.rw,
        p.e == q.e,
        p.led == q.led,
        nibble_of(p.data, half) == nibble_of(q.data, half),
{
    let ga: u8 = m.rs_mask;
    let gb: u8 = m.rw_mask;
    let gc: u8 = m.enable_mask;
    let gd: u8 = m.backlight_mask;
    let area: u8 = m.data_area();
    let a1: u8 = if p.rs {
        ga
    } else {
        0u8
    };
    let b1: u8 = if p.rw {
        gb
    } else {
        0u8
    };
    let c1: u8 = if p.e {
        gc
    } else {
        0u8
    };
    let d1: u8 = if p.led {
        gd
    } else {
        0u8
    };
    let a2: u8 = if q.rs {
        ga
    } else {
        0u8
    };
    let b2: u8 = if q.rw {
        gb
    } else {
        0u8
    };
    let c2: u8 = if q.e {
        gc
    } else {
        0u8
    };
    let d2: u8 = if q.led {
        gd
    } else {
        0u8
    };
    let pd: u8 = p.data;
    let qd: u8 = q.data;
    let n1: u8 = nibble_of(p.data, half);
    let n2: u8 = nibble_of(q.data, half);
    let p1: u8 = placed_nibble(m.data_placement, n1);
    let p2: u8 = placed_nibble(m.data_placement, n2);
    assert(n1 == ((pd >> 4) & 0x0Fu8) || n1 == (pd & 0x0Fu8));
    assert(n2 == ((qd >> 4) & 0x0Fu8) || n2 == (qd & 0x0Fu8));
    assert(n1 & 0xF0u8 == 0 && n2 & 0xF0u8 == 0) by (bit_vector)
        requires
            n1 == ((pd >> 4) & 0x0Fu8) || n1 == (pd & 0x0Fu8),
            n2 == ((qd >> 4) & 0x0Fu8) || n2 == (qd & 0x0Fu8),
    ;
    assert((area == 0xF0u8 && p1 == (n1 << 4) && p2 == (n2 << 4)) || (area == 0x0Fu8 && p1 == n1
        && p2 == n2));
    assert(p1 & !area == 0 && p2 & !area == 0) by (bit_vector)
        requires
            n1 & 0xF0u8 == 0 && n2 & 0xF0u8 == 0 && ((area == 0xF0u8 && p1 == (n1 << 4) && p2 == (
            n2 << 4)) || (area == 0x0Fu8 && p1 == n1 && p2 == n2)),
    ;
    assert((a1 | b1 | c1 | d1 | p1) == (a2 | b2 | c2 | d2 | p2));
    assert(a1 == a2 && b1 == b2 && c1 == c2 && d1 == d2 && p1 == p2) by (bit_vector)
        requires
            ga != 0 && ga & (ga - 1) as u8 == 0 && gb != 0 && gb & (gb - 1) as u8 == 0 && gc != 0
                && gc & (gc - 1) as u8 == 0 && gd != 0 && gd & (gd - 1) as u8 == 0,
            ga & gb == 0 && ga & gc == 0 && ga & gd == 0 && gb & gc == 0 && gb & gd == 0 && gc & gd
                == 0,
            ga & area == 0 && gb & area == 0 && gc & area == 0 && gd & area == 0,
            p1 & !area == 0 && p2 & !area == 0,
            (a1 == 0 || a1 == ga) && (a2 == 0 || a2 == ga),
            (b1 == 0 || b1 == gb) && (b2 == 0 || b2 == gb),
            (c1 == 0 || c1 == gc) && (c2 == 0 || c2 == gc),
            (d1 == 0 || d1 == gd) && (d2 == 0 || d2 == gd),
            (a1 | b1 | c1 | d1 | p1) == (a2 | b2 | c2 | d2 | p2),
    ;
    assert(n1 == n2) by (bit_vector)
        requires
            n1 & 0xF0u8 == 0 && n2 & 0xF0u8 == 0 && ((p1 == (n1 << 4) && p2 == (n2 << 4)) || (p1
                == n1 && p2 == n2)) && p1 == p2,
    ;
}

} // verus!
