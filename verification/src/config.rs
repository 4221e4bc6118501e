use vstd::prelude::*;

use crate::bitmap::{BitMap, DataPlacement, NibbleStrategy};

verus! {

/// How a rendered frame reaches the expander over the bus.
#[derive(Clone, Copy, Debug)]
pub enum AddressingMode {
    /// The frame byte is the entire bus payload.
    Direct,
    /// Every frame is written as the payload of `output_register`;
    /// `polarity_register` and `config_register` each get one setup write
    /// during `begin`.
    Registered { output_register: u8, polarity_register: u8, config_register: u8 },
}

/// Delay budget of one expander variant, in whole microseconds. These are
/// lower bounds mandated by the controller's datasheet, reproduced exactly
/// per variant; they are not tunable per call.
#[derive(Clone, Copy, Debug)]
pub struct TimingProfile {
    /// Wait after each expander bring-up write.
    pub expander_settle_us: u64,
    /// Wait before the cold-boot nibble sequence starts.
    pub power_on_us: u64,
    /// Wait after the first legacy 8-bit-mode pulse.
    pub reset_first_us: u64,
    /// Wait after the second legacy 8-bit-mode pulse.
    pub reset_second_us: u64,
    /// Wait after the third legacy 8-bit-mode pulse.
    pub reset_third_us: u64,
    /// Wait after the switch to 4-bit mode.
    pub mode_switch_us: u64,
    /// Settle after an ordinary command.
    pub short_settle_us: u64,
    /// Settle after `clear` or `home`, which run long in the controller.
    pub long_settle_us: u64,
    /// Settle after a data byte.
    pub data_settle_us: u64,
    /// Width of the enable-high half of a pulse.
    pub enable_pulse_us: u64,
    /// Gap between the two nibble transfers of one byte.
    pub nibble_gap_us: u64,
}

/// Complete immutable description of one expander variant: bit layout,
/// addressing policy and timing budget. Selected at construction time;
/// every original wiring is one value of this type.
#[derive(Clone, Copy, Debug)]
pub struct Config {
    pub bitmap: BitMap,
    pub addressing: AddressingMode,
    pub timing: TimingProfile,
}

impl Config {
    pub open spec fn wf(self) -> bool {
        self.bitmap.wf()
    }

    /// Runtime mirror of [`Config::wf`] for unverified callers.
    pub fn is_well_formed(&self) -> (r: bool)
        ensures
            r == self.wf(),
    {
        self.bitmap.is_well_formed()
    }

    /// The shared timing budget of the stock variants, taken from the
    /// controller's worst-case figures.
    pub open spec fn spec_standard_timing() -> TimingProfile {
        TimingProfile {
            expander_settle_us: 10000u64,
            power_on_us: 50000u64,
            reset_first_us: 5000u64,
            reset_second_us: 150u64,
            reset_third_us: 37u64,
            mode_switch_us: 37u64,
            short_settle_us: 37u64,
            long_settle_us: 2000u64,
            data_settle_us: 41u64,
            enable_pulse_us: 1u64,
            nibble_gap_us: 37u64,
        }
    }

    /// The bit layout shared by the stock variants: RS, R/W, Enable and
    /// Backlight on the four low bits, data nibble on the four high bits.
    pub open spec fn spec_standard_bitmap(strategy: NibbleStrategy) -> BitMap {
        BitMap {
            rs_mask: 0x01u8,
            rw_mask: 0x02u8,
            enable_mask: 0x04u8,
            backlight_mask: 0x08u8,
            data_placement: DataPlacement::HighBits,
            strategy,
        }
    }

    /// Register-addressed expander (TCA9534-style): every frame is written
    /// to the output register, and `begin` first programs the direction,
    /// polarity and output registers.
    pub open spec fn spec_registered_tca9534() -> Config {
        Config {
            bitmap: Self::spec_standard_bitmap(NibbleStrategy::SelectorDriven),
            addressing: AddressingMode::Registered {
                output_register: 0x01u8,
                polarity_register: 0x02u8,
                config_register: 0x03u8,
            },
            timing: Self::spec_standard_timing(),
        }
    }

    /// Builds [`Config::spec_registered_tca9534`].
    pub fn registered_tca9534() -> (c: Config)
        ensures
            c == Self::spec_registered_tca9534(),
            c.wf(),
    {
        let c = Config {
            bitmap: BitMap {
                rs_mask: 0x01,
                rw_mask: 0x02,
                enable_mask: 0x04,
                backlight_mask: 0x08,
                data_placement: DataPlacement::HighBits,
                strategy: NibbleStrategy::SelectorDriven,
            },
            addressing: AddressingMode::Registered {
                output_register: 0x01,
                polarity_register: 0x02,
                config_register: 0x03,
            },
            timing: TimingProfile {
                expander_settle_us: 10000,
                power_on_us: 50000,
                reset_first_us: 5000,
                reset_second_us: 150,
                reset_third_us: 37,
                mode_switch_us: 37,
                short_settle_us: 37,
                long_settle_us: 2000,
                data_settle_us: 41,
                enable_pulse_us: 1,
                nibble_gap_us: 37,
            },
        };
        proof {
            crate::bitmap::lemma_low_ctrl_high_data_wf(c.bitmap);
        }
        c
    }

    /// Direct-write expander: the frame byte is the whole bus payload, and
    /// the transfer machine pre-shifts the low nibble itself.
    pub open spec fn spec_direct_expander() -> Config {
        Config {
            bitmap: Self::spec_standard_bitmap(NibbleStrategy::CallerPreshifted),
            addressing: AddressingMode::Direct,
            timing: Self::spec_standard_timing(),
        }
    }

    /// Builds [`Config::spec_direct_expander`].
    pub fn direct_expander() -> (c: Config)
        ensures
            c == Self::spec_direct_expander(),
            c.wf(),
    {
        let c = Config {
            bitmap: BitMap {
                rs_mask: 0x01,
                rw_mask: 0x02,
                enable_mask: 0x04,
                backlight_mask: 0x08,
                data_placement: DataPlacement::HighBits,
                strategy: NibbleStrategy::CallerPreshifted,
            },
            addressing: AddressingMode::Direct,
            timing: TimingProfile {
                expander_settle_us: 10000,
                power_on_us: 50000,
                reset_first_us: 5000,
                reset_second_us: 150,
                reset_third_us: 37,
                mode_switch_us: 37,
                short_settle_us: 37,
                long_settle_us: 2000,
                data_settle_us: 41,
                enable_pulse_us: 1,
                nibble_gap_us: 37,
            },
        };
        proof {
            crate::bitmap::lemma_low_ctrl_high_data_wf(c.bitmap);
        }
        c
    }
}

} // verus!
