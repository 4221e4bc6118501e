use vstd::prelude::*;

use crate::action::{steps_of, BusAction, BusStep};
use crate::bitmap::{
    lemma_preshift_frame, spec_frame, BitMap, NibbleHalf, NibbleStrategy, OutputState,
};
use crate::config::{AddressingMode, Config};
use vstd::string::StringSliceAdditionalSpecFns;

verus! {

// HD44780 command opcodes.
pub const CMD_CLEAR: u8 = 0x01;

pub const CMD_HOME: u8 = 0x02;

pub const CMD_ENTRY_MODE: u8 = 0x04;

pub const CMD_DISPLAY_CONTROL: u8 = 0x08;

pub const CMD_SCROLL_LEFT: u8 = 0x18;

pub const CMD_SCROLL_RIGHT: u8 = 0x1C;

pub const CMD_FUNCTION_SET: u8 = 0x20;

pub const CMD_SET_CGRAM: u8 = 0x40;

pub const CMD_SET_DDRAM: u8 = 0x80;

// Flag bits accumulated in the display-control register.
pub const DISPLAY_ON: u8 = 0x04;

pub const CURSOR_ON: u8 = 0x02;

pub const BLINK_ON: u8 = 0x01;

// Flag bits accumulated in the entry-mode register.
pub const ENTRY_INCREMENT: u8 = 0x02;

pub const ENTRY_AUTOSCROLL: u8 = 0x01;

// Flag bit accumulated in the function-set register.
pub const FUNCTION_TWO_LINES: u8 = 0x08;

// Cold-boot patterns: the legacy 8-bit function set, sent three times as a
// half transfer, and the switch to 4-bit mode.
pub const BOOT_EIGHT_BIT: u8 = 0x30;

pub const BOOT_FOUR_BIT: u8 = 0x20;

/// The bytes of one bus transaction that carries `frame`, per the
/// addressing policy.
pub open spec fn payload_of(a: AddressingMode, frame: u8) -> Seq<u8> {
    match a {
        AddressingMode::Direct => seq![frame],
        AddressingMode::Registered { output_register, .. } => seq![output_register, frame],
    }
}

/// The bus step that carries `frame`.
pub open spec fn write_step(a: AddressingMode, frame: u8) -> BusStep {
    BusStep::Write(payload_of(a, frame))
}

/// One enable pulse: the frame with Enable high, the pulse-width wait, then
/// the same frame with Enable low, which latches the nibble.
pub open spec fn half_steps(
    c: Config,
    rs: bool,
    rw: bool,
    led: bool,
    data: u8,
    half: NibbleHalf,
) -> Seq<BusStep> {
    seq![
        write_step(c.addressing, spec_frame(c.bitmap, rs, rw, true, led, data, half)),
        BusStep::Delay(c.timing.enable_pulse_us),
        write_step(c.addressing, spec_frame(c.bitmap, rs, rw, false, led, data, half)),
    ]
}

/// One controller byte on the 4-bit bus: the high-nibble pulse, the
/// inter-nibble gap, then the low-nibble pulse. During cold boot
/// (`init_only`) the controller is not yet in 4-bit mode, so only the
/// high-nibble pulse is sent.
pub open spec fn transfer_steps(
    c: Config,
    rs: bool,
    rw: bool,
    led: bool,
    byte: u8,
    init_only: bool,
) -> Seq<BusStep> {
    if init_only {
        half_steps(c, rs, rw, led, byte, NibbleHalf::High)
    } else {
        half_steps(c, rs, rw, led, byte, NibbleHalf::High) + seq![
            BusStep::Delay(c.timing.nibble_gap_us),
        ] + half_steps(c, rs, rw, led, byte, NibbleHalf::Low)
    }
}

/// A full command: RS low, both nibbles, then the command's settle delay.
pub open spec fn command_steps(c: Config, led: bool, byte: u8, settle_us: u64) -> Seq<BusStep> {
    transfer_steps(c, false, false, led, byte, false) + seq![BusStep::Delay(settle_us)]
}

/// A full data byte: RS high, both nibbles, then the data settle delay.
pub open spec fn data_steps(c: Config, led: bool, byte: u8) -> Seq<BusStep> {
    transfer_steps(c, true, false, led, byte, false) + seq![BusStep::Delay(c.timing.data_settle_us)]
}

/// The data bytes of `bytes`, sent in order.
pub open spec fn text_steps(c: Config, led: bool, bytes: Seq<u8>) -> Seq<BusStep>
    decreases bytes.len(),
{
    if bytes.len() == 0 {
        Seq::<BusStep>::empty()
    } else {
        data_steps(c, led, bytes[0]) + text_steps(c, led, bytes.drop_first())
    }
}

/// What the data-line shadow holds once a transfer of `byte` is done: the
/// caller-preshifted strategy leaves the re-staged low nibble behind.
pub open spec fn staged_after(m: BitMap, byte: u8, init_only: bool) -> u8 {
    if init_only {
        byte
    } else {
        match m.strategy {
            NibbleStrategy::SelectorDriven => byte,
            NibbleStrategy::CallerPreshifted => byte << 4,
        }
    }
}

pub proof fn lemma_text_steps_push(c: Config, led: bool, bytes: Seq<u8>, b: u8)
    ensures
        text_steps(c, led, bytes.push(b)) =~= text_steps(c, led, bytes) + data_steps(c, led, b),
    decreases bytes.len(),
{
    if bytes.len() == 0 {
        let pb = bytes.push(b);
        assert(pb[0] == b);
        assert(pb.drop_first() =~= Seq::<u8>::empty());
        assert(text_steps(c, led, pb) == data_steps(c, led, pb[0]) + text_steps(
            c,
            led,
            pb.drop_first(),
        ));
        assert(text_steps(c, led, pb) =~= data_steps(c, led, b));
    } else {
        assert(bytes.push(b).drop_first() =~= bytes.drop_first().push(b));
        lemma_text_steps_push(c, led, bytes.drop_first(), b);
    }
}

/// Driver for one HD44780 display behind one expander. Owns the software
/// shadow of every write-only hardware register: the pin state and the
/// three cumulative controller registers, which can never be read back and
/// so must be recomputed from here on every change. After a failed bus
/// write the hardware may hold other values than these; the only recovery
/// is to run `begin` again.
pub struct LcdI2c {
    /// Fixed 7-bit bus address of the expander.
    pub address: u8,
    /// The expander variant: bit layout, addressing policy, timing budget.
    pub cfg: Config,
    /// Number of physical display rows, 1 to 4.
    pub rows: u8,
    /// Start address in display RAM of each row.
    pub row_offsets: [u8; 4],
    /// Shadow of the expander's output pins.
    pub output: OutputState,
    /// Accumulated display-control flags (display, cursor, blink).
    pub display_state: u8,
    /// Accumulated entry-mode flags (direction, autoscroll).
    pub entry_state: u8,
    /// Accumulated function-set flags (line count).
    pub function_state: u8,
}

impl LcdI2c {
    pub open spec fn wf(self) -> bool {
        &&& self.cfg.wf()
        &&& 1 <= self.rows <= 4
        &&& self.row_offsets@[0] == 0
    }

    /// A fresh driver: nothing on the pins, zeroed controller registers,
    /// the standard row-offset table for a `cols`-wide display. Real
    /// register values first appear during `begin`.
    pub fn new(cfg: Config, address: u8, cols: u8, rows: u8) -> (d: LcdI2c)
        requires
            cfg.wf(),
            1 <= rows <= 4,
            cols <= 0xBF,
        ensures
            d.wf(),
            d.address == address,
            d.cfg == cfg,
            d.rows == rows,
            d.row_offsets@ == seq![0u8, 0x40u8, cols, ((0x40 + cols) as u8)],
            d.output == (OutputState { rs: false, rw: false, e: false, led: false, data: 0u8 }),
            d.display_state == 0,
            d.entry_state == 0,
            d.function_state == 0,
    {
        let row_offsets: [u8; 4] = [0, 0x40, cols, 0x40 + cols];
        proof {
            assert(row_offsets@ =~= seq![0u8, 0x40u8, cols, ((0x40 + cols) as u8)]);
        }
        LcdI2c {
            address,
            cfg,
            rows,
            row_offsets,
            output: OutputState::new(),
            display_state: 0,
            entry_state: 0,
            function_state: 0,
        }
    }

    /// Formats one frame per the addressing policy — bare for a
    /// direct-write expander, prefixed with the output register's address
    /// otherwise — and appends the bus write.
    pub fn i2c_write(&self, frame: u8, acts: &mut Vec<BusAction>)
        ensures
            steps_of(final(acts)@) == steps_of(old(acts)@).push(
                write_step(self.cfg.addressing, frame),
            ),
    {
        let ghost pre = acts@;
        let mut payload: Vec<u8> = Vec::new();
        match self.cfg.addressing {
            AddressingMode::Direct => {
                payload.push(frame);
                proof {
                    assert(payload@ =~= payload_of(self.cfg.addressing, frame));
                }
            },
            AddressingMode::Registered { output_register, .. } => {
                payload.push(output_register);
                payload.push(frame);
                proof {
                    assert(payload@ =~= payload_of(self.cfg.addressing, frame));
                }
            },
        }
        acts.push(BusAction::Write(payload));
        proof {
            assert(steps_of(acts@) =~= steps_of(pre).push(write_step(self.cfg.addressing, frame)));
        }
    }

    /// Drives one byte (or, during cold boot, only its high nibble) through
    /// the enable-pulse transfer machine, appending every write and wait.
    fn lcd_write(&mut self, byte: u8, initialization: bool, acts: &mut Vec<BusAction>)
        ensures
            steps_of(final(acts)@) == steps_of(old(acts)@) + transfer_steps(
                old(self).cfg,
                old(self).output.rs,
                old(self).output.rw,
                old(self).output.led,
                byte,
                initialization,
            ),
            *final(self) == (LcdI2c {
                output: (OutputState {
                    e: false,
                    data: staged_after(old(self).cfg.bitmap, byte, initialization),
                    ..old(self).output
                }),
                ..*old(self)
            }),
    {
        let ghost pre = acts@;
        self.output.data = byte;
        self.output.e = true;
        let hi_latch: u8 = self.output.get_high_data(&self.cfg.bitmap);
        self.i2c_write(hi_latch, acts);
        push_delay(self.cfg.timing.enable_pulse_us, acts);
        self.output.e = false;
        let hi_rest: u8 = self.output.get_high_data(&self.cfg.bitmap);
        self.i2c_write(hi_rest, acts);
        if !initialization {
            push_delay(self.cfg.timing.nibble_gap_us, acts);
            match self.cfg.bitmap.strategy {
                NibbleStrategy::SelectorDriven => {
                    self.output.e = true;
                    let lo_latch: u8 = self.output.get_low_data(&self.cfg.bitmap);
                    self.i2c_write(lo_latch, acts);
                    push_delay(self.cfg.timing.enable_pulse_us, acts);
                    self.output.e = false;
                    let lo_rest: u8 = self.output.get_low_data(&self.cfg.bitmap);
                    self.i2c_write(lo_rest, acts);
                },
                NibbleStrategy::CallerPreshifted => {
                    self.output.data = byte << 4;
                    self.output.e = true;
                    let lo_latch: u8 = self.output.get_high_data(&self.cfg.bitmap);
                    self.i2c_write(lo_latch, acts);
                    push_delay(self.cfg.timing.enable_pulse_us, acts);
                    self.output.e = false;
                    let lo_rest: u8 = self.output.get_high_data(&self.cfg.bitmap);
                    self.i2c_write(lo_rest, acts);
                    proof {
                        lemma_preshift_frame(
                            old(self).cfg.bitmap,
                            old(self).output.rs,
                            old(self).output.rw,
                            true,
                            old(self).output.led,
                            byte,
                        );
                        lemma_preshift_frame(
                            old(self).cfg.bitmap,
                            old(self).output.rs,
                            old(self).output.rw,
                            false,
                            old(self).output.led,
                            byte,
                        );
                    }
                },
            }
        }
        proof {
            assert(steps_of(acts@) =~~= steps_of(pre) + transfer_steps(
                old(self).cfg,
                old(self).output.rs,
                old(self).output.rw,
                old(self).output.led,
                byte,
                initialization,
            ));
        }
    }
}

impl LcdI2c {
    /// Issues one controller command: RS low, both nibbles, then `settle_us`.
    fn command_into(&mut self, byte: u8, settle_us: u64, acts: &mut Vec<BusAction>)
        ensures
            steps_of(final(acts)@) == steps_of(old(acts)@) + command_steps(
                old(self).cfg,
                old(self).output.led,
                byte,
                settle_us,
            ),
            *final(self) == (LcdI2c {
                output: (OutputState {
                    rs: false,
                    rw: false,
                    e: false,
                    data: staged_after(old(self).cfg.bitmap, byte, false),
                    ..old(self).output
                }),
                ..*old(self)
            }),
    {
        self.output.rs = false;
        self.output.rw = false;
        self.lcd_write(byte, false, acts);
        push_delay(settle_us, acts);
        proof {
            assert(steps_of(acts@) =~~= steps_of(old(acts)@) + command_steps(
                old(self).cfg,
                old(self).output.led,
                byte,
                settle_us,
            ));
        }
    }

    /// Sends one data byte: RS high, both nibbles, then the data settle.
    fn data_into(&mut self, byte: u8, acts: &mut Vec<BusAction>)
        ensures
            steps_of(final(acts)@) == steps_of(old(acts)@) + data_steps(
                old(self).cfg,
                old(self).output.led,
                byte,
            ),
            *final(self) == (LcdI2c {
                output: (OutputState {
                    rs: true,
                    rw: false,
                    e: false,
                    data: staged_after(old(self).cfg.bitmap, byte, false),
                    ..old(self).output
                }),
                ..*old(self)
            }),
    {
        self.output.rs = true;
        self.output.rw = false;
        self.lcd_write(byte, false, acts);
        push_delay(self.cfg.timing.data_settle_us, acts);
        proof {
            assert(steps_of(acts@) =~~= steps_of(old(acts)@) + data_steps(
                old(self).cfg,
                old(self).output.led,
                byte,
            ));
        }
    }

    /// One controller command in a fresh script.
    fn command(&mut self, byte: u8, settle_us: u64) -> (acts: Vec<BusAction>)
        ensures
            steps_of(acts@) == command_steps(old(self).cfg, old(self).output.led, byte, settle_us),
            *final(self) == (LcdI2c {
                output: (OutputState {
                    rs: false,
                    rw: false,
                    e: false,
                    data: staged_after(old(self).cfg.bitmap, byte, false),
                    ..old(self).output
                }),
                ..*old(self)
            }),
    {
        let mut acts: Vec<BusAction> = Vec::new();
        self.command_into(byte, settle_us, &mut acts);
        proof {
            assert(steps_of(acts@) =~~= command_steps(
                old(self).cfg,
                old(self).output.led,
                byte,
                settle_us,
            ));
        }
        acts
    }
}

/// The row actually addressed: an out-of-range request clamps to the last
/// configured row instead of failing.
pub open spec fn clamped_row(rows: u8, row: u8) -> u8 {
    if row < rows {
        row
    } else {
        (rows - 1) as u8
    }
}

/// The set-address command for the cell `col` places past `offset`,
/// wrapping as 8-bit hardware address arithmetic does.
pub open spec fn ddram_command(offset: u8, col: u8) -> u8 {
    CMD_SET_DDRAM | (((offset + col) % 256) as u8)
}

impl LcdI2c {
    /// Clears the entire display and homes the address counter. The
    /// controller runs long on this command, so the long settle follows.
    pub fn clear(&mut self) -> (acts: Vec<BusAction>)
        ensures
            steps_of(acts@) == command_steps(
                old(self).cfg,
                old(self).output.led,
                CMD_CLEAR,
                old(self).cfg.timing.long_settle_us,
            ),
            *final(self) == (LcdI2c {
                output: (OutputState {
                    rs: false,
                    rw: false,
                    e: false,
                    data: staged_after(old(self).cfg.bitmap, CMD_CLEAR, false),
                    ..old(self).output
                }),
                ..*old(self)
            }),
    {
        let settle: u64 = self.cfg.timing.long_settle_us;
        self.command(CMD_CLEAR, settle)
    }

    /// Returns cursor and display window to the origin; long-running like
    /// `clear`.
    pub fn home(&mut self) -> (acts: Vec<BusAction>)
        ensures
            steps_of(acts@) == command_steps(
                old(self).cfg,
                old(self).output.led,
                CMD_HOME,
                old(self).cfg.timing.long_settle_us,
            ),
            *final(self) == (LcdI2c {
                output: (OutputState {
                    rs: false,
                    rw: false,
                    e: false,
                    data: staged_after(old(self).cfg.bitmap, CMD_HOME, false),
                    ..old(self).output
                }),
                ..*old(self)
            }),
    {
        let settle: u64 = self.cfg.timing.long_settle_us;
        self.command(CMD_HOME, settle)
    }

    /// Sets one bit in the display-control register and re-issues the
    /// whole register: the controller has no addressable sub-fields.
    fn display_control(&mut self, set_mask: u8, clear_mask: u8) -> (acts: Vec<BusAction>)
        ensures
            final(self).display_state == (old(self).display_state | set_mask) & !clear_mask,
            steps_of(acts@) == command_steps(
                old(self).cfg,
                old(self).output.led,
                CMD_DISPLAY_CONTROL | ((old(self).display_state | set_mask) & !clear_mask),
                old(self).cfg.timing.short_settle_us,
            ),
            *final(self) == (LcdI2c {
                display_state: (old(self).display_state | set_mask) & !clear_mask,
                output: (OutputState {
                    rs: false,
                    rw: false,
                    e: false,
                    data: staged_after(
                        old(self).cfg.bitmap,
                        CMD_DISPLAY_CONTROL | ((old(self).display_state | set_mask) & !clear_mask),
                        false,
                    ),
                    ..old(self).output
                }),
                ..*old(self)
            }),
    {
        self.display_state = (self.display_state | set_mask) & !clear_mask;
        let byte: u8 = CMD_DISPLAY_CONTROL | self.display_state;
        let settle: u64 = self.cfg.timing.short_settle_us;
        self.command(byte, settle)
    }

    /// Likewise for the entry-mode register.
    fn entry_mode(&mut self, set_mask: u8, clear_mask: u8) -> (acts: Vec<BusAction>)
        ensures
            final(self).entry_state == (old(self).entry_state | set_mask) & !clear_mask,
            steps_of(acts@) == command_steps(
                old(self).cfg,
                old(self).output.led,
                CMD_ENTRY_MODE | ((old(self).entry_state | set_mask) & !clear_mask),
                old(self).cfg.timing.short_settle_us,
            ),
            *final(self) == (LcdI2c {
                entry_state: (old(self).entry_state | set_mask) & !clear_mask,
                output: (OutputState {
                    rs: false,
                    rw: false,
                    e: false,
                    data: staged_after(
                        old(self).cfg.bitmap,
                        CMD_ENTRY_MODE | ((old(self).entry_state | set_mask) & !clear_mask),
                        false,
                    ),
                    ..old(self).output
                }),
                ..*old(self)
            }),
    {
        self.entry_state = (self.entry_state | set_mask) & !clear_mask;
        let byte: u8 = CMD_ENTRY_MODE | self.entry_state;
        let settle: u64 = self.cfg.timing.short_settle_us;
        self.command(byte, settle)
    }

    /// Turns the display on.
    pub fn display(&mut self) -> (acts: Vec<BusAction>)
        ensures
            final(self).display_state == old(self).display_state | DISPLAY_ON,
            steps_of(acts@) == command_steps(
                old(self).cfg,
                old(self).output.led,
                CMD_DISPLAY_CONTROL | (old(self).display_state | DISPLAY_ON),
                old(self).cfg.timing.short_settle_us,
            ),
            *final(self) == (LcdI2c {
                display_state: old(self).display_state | DISPLAY_ON,
                output: (OutputState {
                    rs: false,
                    rw: false,
                    e: false,
                    data: staged_after(
                        old(self).cfg.bitmap,
                        CMD_DISPLAY_CONTROL | (old(self).display_state | DISPLAY_ON),
                        false,
                    ),
                    ..old(self).output
                }),
                ..*old(self)
            }),
    {
        let acts = self.display_control(DISPLAY_ON, 0x00);
        proof {
            assert(forall|x: u8| #![auto] x & !0u8 == x) by (bit_vector);
        }
        acts
    }

    /// Turns the display off without losing its contents.
    pub fn no_display(&mut self) -> (acts: Vec<BusAction>)
        ensures
            final(self).display_state == old(self).display_state & !DISPLAY_ON,
            steps_of(acts@) == command_steps(
                old(self).cfg,
                old(self).output.led,
                CMD_DISPLAY_CONTROL | (old(self).display_state & !DISPLAY_ON),
                old(self).cfg.timing.short_settle_us,
            ),
            *final(self) == (LcdI2c {
                display_state: old(self).display_state & !DISPLAY_ON,
                output: (OutputState {
                    rs: false,
                    rw: false,
                    e: false,
                    data: staged_after(
                        old(self).cfg.bitmap,
                        CMD_DISPLAY_CONTROL | (old(self).display_state & !DISPLAY_ON),
                        false,
                    ),
                    ..old(self).output
                }),
                ..*old(self)
            }),
    {
        let acts = self.display_control(0x00, DISPLAY_ON);
        proof {
            assert(forall|x: u8| #![auto] x | 0u8 == x) by (bit_vector);
        }
        acts
    }

    /// Shows the underline cursor.
    pub fn cursor(&mut self) -> (acts: Vec<BusAction>)
        ensures
            final(self).display_state == old(self).display_state | CURSOR_ON,
            steps_of(acts@) == command_steps(
                old(self).cfg,
                old(self).output.led,
                CMD_DISPLAY_CONTROL | (old(self).display_state | CURSOR_ON),
                old(self).cfg.timing.short_settle_us,
            ),
            *final(self) == (LcdI2c {
                display_state: old(self).display_state | CURSOR_ON,
                output: (OutputState {
                    rs: false,
                    rw: false,
                    e: false,
                    data: staged_after(
                        old(self).cfg.bitmap,
                        CMD_DISPLAY_CONTROL | (old(self).display_state | CURSOR_ON),
                        false,
                    ),
                    ..old(self).output
                }),
                ..*old(self)
            }),
    {
        let acts = self.display_control(CURSOR_ON, 0x00);
        proof {
            assert(forall|x: u8| #![auto] x & !0u8 == x) by (bit_vector);
        }
        acts
    }

    /// Hides the underline cursor.
    pub fn no_cursor(&mut self) -> (acts: Vec<BusAction>)
        ensures
            final(self).display_state == old(self).display_state & !CURSOR_ON,
            steps_of(acts@) == command_steps(
                old(self).cfg,
                old(self).output.led,
                CMD_DISPLAY_CONTROL | (old(self).display_state & !CURSOR_ON),
                old(self).cfg.timing.short_settle_us,
            ),
            *final(self) == (LcdI2c {
                display_state: old(self).display_state & !CURSOR_ON,
                output: (OutputState {
                    rs: false,
                    rw: false,
                    e: false,
                    data: staged_after(
                        old(self).cfg.bitmap,
                        CMD_DISPLAY_CONTROL | (old(self).display_state & !CURSOR_ON),
                        false,
                    ),
                    ..old(self).output
                }),
                ..*old(self)
            }),
    {
        let acts = self.display_control(0x00, CURSOR_ON);
        proof {
            assert(forall|x: u8| #![auto] x | 0u8 == x) by (bit_vector);
        }
        acts
    }

    /// Makes the cursor cell blink.
    pub fn blink(&mut self) -> (acts: Vec<BusAction>)
        ensures
            final(self).display_state == old(self).display_state | BLINK_ON,
            steps_of(acts@) == command_steps(
                old(self).cfg,
                old(self).output.led,
                CMD_DISPLAY_CONTROL | (old(self).display_state | BLINK_ON),
                old(self).cfg.timing.short_settle_us,
            ),
            *final(self) == (LcdI2c {
                display_state: old(self).display_state | BLINK_ON,
                output: (OutputState {
                    rs: false,
                    rw: false,
                    e: false,
                    data: staged_after(
                        old(self).cfg.bitmap,
                        CMD_DISPLAY_CONTROL | (old(self).display_state | BLINK_ON),
                        false,
                    ),
                    ..old(self).output
                }),
                ..*old(self)
            }),
    {
        let acts = self.display_control(BLINK_ON, 0x00);
        proof {
            assert(forall|x: u8| #![auto] x & !0u8 == x) by (bit_vector);
        }
        acts
    }

    /// Stops the cursor cell blinking.
    pub fn no_blink(&mut self) -> (acts: Vec<BusAction>)
        ensures
            final(self).display_state == old(self).display_state & !BLINK_ON,
            steps_of(acts@) == command_steps(
                old(self).cfg,
                old(self).output.led,
                CMD_DISPLAY_CONTROL | (old(self).display_state & !BLINK_ON),
                old(self).cfg.timing.short_settle_us,
            ),
            *final(self) == (LcdI2c {
                display_state: old(self).display_state & !BLINK_ON,
                output: (OutputState {
                    rs: false,
                    rw: false,
                    e: false,
                    data: staged_after(
                        old(self).cfg.bitmap,
                        CMD_DISPLAY_CONTROL | (old(self).display_state & !BLINK_ON),
                        false,
                    ),
                    ..old(self).output
                }),
                ..*old(self)
            }),
    {
        let acts = self.display_control(0x00, BLINK_ON);
        proof {
            assert(forall|x: u8| #![auto] x | 0u8 == x) by (bit_vector);
        }
        acts
    }

    /// Text runs left to right from the cursor.
    pub fn left_to_right(&mut self) -> (acts: Vec<BusAction>)
        ensures
            final(self).entry_state == old(self).entry_state | ENTRY_INCREMENT,
            steps_of(acts@) == command_steps(
                old(self).cfg,
                old(self).output.led,
                CMD_ENTRY_MODE | (old(self).entry_state | ENTRY_INCREMENT),
                old(self).cfg.timing.short_settle_us,
            ),
            *final(self) == (LcdI2c {
                entry_state: old(self).entry_state | ENTRY_INCREMENT,
                output: (OutputState {
                    rs: false,
                    rw: false,
                    e: false,
                    data: staged_after(
                        old(self).cfg.bitmap,
                        CMD_ENTRY_MODE | (old(self).entry_state | ENTRY_INCREMENT),
                        false,
                    ),
                    ..old(self).output
                }),
                ..*old(self)
            }),
    {
        let acts = self.entry_mode(ENTRY_INCREMENT, 0x00);
        proof {
            assert(forall|x: u8| #![auto] x & !0u8 == x) by (bit_vector);
        }
        acts
    }

    /// Text runs right to left from the cursor.
    pub fn right_to_left(&mut self) -> (acts: Vec<BusAction>)
        ensures
            final(self).entry_state == old(self).entry_state & !ENTRY_INCREMENT,
            steps_of(acts@) == command_steps(
                old(self).cfg,
                old(self).output.led,
                CMD_ENTRY_MODE | (old(self).entry_state & !ENTRY_INCREMENT),
                old(self).cfg.timing.short_settle_us,
            ),
            *final(self) == (LcdI2c {
                entry_state: old(self).entry_state & !ENTRY_INCREMENT,
                output: (OutputState {
                    rs: false,
                    rw: false,
                    e: false,
                    data: staged_after(
                        old(self).cfg.bitmap,
                        CMD_ENTRY_MODE | (old(self).entry_state & !ENTRY_INCREMENT),
                        false,
                    ),
                    ..old(self).output
                }),
                ..*old(self)
            }),
    {
        let acts = self.entry_mode(0x00, ENTRY_INCREMENT);
        proof {
            assert(forall|x: u8| #![auto] x | 0u8 == x) by (bit_vector);
        }
        acts
    }

    /// Each written byte also shifts the display window.
    pub fn autoscroll(&mut self) -> (acts: Vec<BusAction>)
        ensures
            final(self).entry_state == old(self).entry_state | ENTRY_AUTOSCROLL,
            steps_of(acts@) == command_steps(
                old(self).cfg,
                old(self).output.led,
                CMD_ENTRY_MODE | (old(self).entry_state | ENTRY_AUTOSCROLL),
                old(self).cfg.timing.short_settle_us,
            ),
            *final(self) == (LcdI2c {
                entry_state: old(self).entry_state | ENTRY_AUTOSCROLL,
                output: (OutputState {
                    rs: false,
                    rw: false,
                    e: false,
                    data: staged_after(
                        old(self).cfg.bitmap,
                        CMD_ENTRY_MODE | (old(self).entry_state | ENTRY_AUTOSCROLL),
                        false,
                    ),
                    ..old(self).output
                }),
                ..*old(self)
            }),
    {
        let acts = self.entry_mode(ENTRY_AUTOSCROLL, 0x00);
        proof {
            assert(forall|x: u8| #![auto] x & !0u8 == x) by (bit_vector);
        }
        acts
    }

    /// Written bytes no longer shift the display window.
    pub fn no_autoscroll(&mut self) -> (acts: Vec<BusAction>)
        ensures
            final(self).entry_state == old(self).entry_state & !ENTRY_AUTOSCROLL,
            steps_of(acts@) == command_steps(
                old(self).cfg,
                old(self).output.led,
                CMD_ENTRY_MODE | (old(self).entry_state & !ENTRY_AUTOSCROLL),
                old(self).cfg.timing.short_settle_us,
            ),
            *final(self) == (LcdI2c {
                entry_state: old(self).entry_state & !ENTRY_AUTOSCROLL,
                output: (OutputState {
                    rs: false,
                    rw: false,
                    e: false,
                    data: staged_after(
                        old(self).cfg.bitmap,
                        CMD_ENTRY_MODE | (old(self).entry_state & !ENTRY_AUTOSCROLL),
                        false,
                    ),
                    ..old(self).output
                }),
                ..*old(self)
            }),
    {
        let acts = self.entry_mode(0x00, ENTRY_AUTOSCROLL);
        proof {
            assert(forall|x: u8| #![auto] x | 0u8 == x) by (bit_vector);
        }
        acts
    }

    /// Shifts the whole display window one cell left.
    pub fn scroll_display_left(&mut self) -> (acts: Vec<BusAction>)
        ensures
            steps_of(acts@) == command_steps(
                old(self).cfg,
                old(self).output.led,
                CMD_SCROLL_LEFT,
                old(self).cfg.timing.short_settle_us,
            ),
            *final(self) == (LcdI2c {
                output: (OutputState {
                    rs: false,
                    rw: false,
                    e: false,
                    data: staged_after(old(self).cfg.bitmap, CMD_SCROLL_LEFT, false),
                    ..old(self).output
                }),
                ..*old(self)
            }),
    {
        let settle: u64 = self.cfg.timing.short_settle_us;
        self.command(CMD_SCROLL_LEFT, settle)
    }

    /// Shifts the whole display window one cell right.
    pub fn scroll_display_right(&mut self) -> (acts: Vec<BusAction>)
        ensures
            steps_of(acts@) == command_steps(
                old(self).cfg,
                old(self).output.led,
                CMD_SCROLL_RIGHT,
                old(self).cfg.timing.short_settle_us,
            ),
            *final(self) == (LcdI2c {
                output: (OutputState {
                    rs: false,
                    rw: false,
                    e: false,
                    data: staged_after(old(self).cfg.bitmap, CMD_SCROLL_RIGHT, false),
                    ..old(self).output
                }),
                ..*old(self)
            }),
    {
        let settle: u64 = self.cfg.timing.short_settle_us;
        self.command(CMD_SCROLL_RIGHT, settle)
    }

    /// Lights the backlight. No controller command: only the backlight
    /// line is reasserted on the wire, immediately.
    pub fn backlight(&mut self) -> (acts: Vec<BusAction>)
        ensures
            steps_of(acts@) == seq![
                write_step(
                    old(self).cfg.addressing,
                    spec_frame(
                        old(self).cfg.bitmap,
                        false,
                        false,
                        false,
                        true,
                        0u8,
                        NibbleHalf::High,
                    ),
                ),
            ],
            *final(self) == (LcdI2c {
                output: (OutputState { led: true, ..old(self).output }),
                ..*old(self)
            }),
    {
        self.output.led = true;
        let probe = OutputState { rs: false, rw: false, e: false, led: true, data: 0 };
        let frame: u8 = probe.get_high_data(&self.cfg.bitmap);
        let mut acts: Vec<BusAction> = Vec::new();
        self.i2c_write(frame, &mut acts);
        proof {
            assert(steps_of(acts@) =~~= seq![
                write_step(
                    old(self).cfg.addressing,
                    spec_frame(
                        old(self).cfg.bitmap,
                        false,
                        false,
                        false,
                        true,
                        0u8,
                        NibbleHalf::High,
                    ),
                ),
            ]);
        }
        acts
    }

    /// Darkens the backlight, the same way.
    pub fn no_backlight(&mut self) -> (acts: Vec<BusAction>)
        ensures
            steps_of(acts@) == seq![
                write_step(
                    old(self).cfg.addressing,
                    spec_frame(
                        old(self).cfg.bitmap,
                        false,
                        false,
                        false,
                        false,
                        0u8,
                        NibbleHalf::High,
                    ),
                ),
            ],
            *final(self) == (LcdI2c {
                output: (OutputState { led: false, ..old(self).output }),
                ..*old(self)
            }),
    {
        self.output.led = false;
        let probe = OutputState { rs: false, rw: false, e: false, led: false, data: 0 };
        let frame: u8 = probe.get_high_data(&self.cfg.bitmap);
        let mut acts: Vec<BusAction> = Vec::new();
        self.i2c_write(frame, &mut acts);
        proof {
            assert(steps_of(acts@) =~~= seq![
                write_step(
                    old(self).cfg.addressing,
                    spec_frame(
                        old(self).cfg.bitmap,
                        false,
                        false,
                        false,
                        false,
                        0u8,
                        NibbleHalf::High,
                    ),
                ),
            ]);
        }
        acts
    }

    /// Moves the cursor to `col` in `row`. A row at or past the configured
    /// row count clamps to the last row; it never fails and never indexes
    /// out of bounds.
    pub fn set_cursor(&mut self, col: u8, row: u8) -> (acts: Vec<BusAction>)
        requires
            old(self).wf(),
        ensures
            steps_of(acts@) == command_steps(
                old(self).cfg,
                old(self).output.led,
                ddram_command(
                    old(self).row_offsets@[clamped_row(old(self).rows, row) as int],
                    col,
                ),
                old(self).cfg.timing.short_settle_us,
            ),
            *final(self) == (LcdI2c {
                output: (OutputState {
                    rs: false,
                    rw: false,
                    e: false,
                    data: staged_after(
                        old(self).cfg.bitmap,
                        ddram_command(
                            old(self).row_offsets@[clamped_row(old(self).rows, row) as int],
                            col,
                        ),
                        false,
                    ),
                    ..old(self).output
                }),
                ..*old(self)
            }),
    {
        let r: u8 = if row < self.rows {
            row
        } else {
            self.rows - 1
        };
        let offset: u8 = self.row_offsets[r as usize];
        let sum: u16 = offset as u16 + col as u16;
        let addr: u8 = (sum % 256) as u8;
        let byte: u8 = CMD_SET_DDRAM | addr;
        let settle: u64 = self.cfg.timing.short_settle_us;
        self.command(byte, settle)
    }

    /// Sends one byte as data to the current address: a character to the
    /// display, or one glyph line while a glyph-memory address is set.
    pub fn write_byte(&mut self, byte: u8) -> (acts: Vec<BusAction>)
        ensures
            steps_of(acts@) == data_steps(old(self).cfg, old(self).output.led, byte),
            *final(self) == (LcdI2c {
                output: (OutputState {
                    rs: true,
                    rw: false,
                    e: false,
                    data: staged_after(old(self).cfg.bitmap, byte, false),
                    ..old(self).output
                }),
                ..*old(self)
            }),
    {
        let mut acts: Vec<BusAction> = Vec::new();
        self.data_into(byte, &mut acts);
        proof {
            assert(steps_of(acts@) =~~= data_steps(old(self).cfg, old(self).output.led, byte));
        }
        acts
    }
}

/// Frames of one data byte on the lossy streaming path: the same four
/// frames as a timed transfer, with no waits at all.
pub open spec fn stream_byte_steps(c: Config, led: bool, byte: u8) -> Seq<BusStep> {
    seq![
        write_step(
            c.addressing,
            spec_frame(c.bitmap, true, false, true, led, byte, NibbleHalf::High),
        ),
        write_step(
            c.addressing,
            spec_frame(c.bitmap, true, false, false, led, byte, NibbleHalf::High),
        ),
        write_step(
            c.addressing,
            spec_frame(c.bitmap, true, false, true, led, byte, NibbleHalf::Low),
        ),
        write_step(
            c.addressing,
            spec_frame(c.bitmap, true, false, false, led, byte, NibbleHalf::Low),
        ),
    ]
}

/// The lossy streaming frames of `bytes`, in order.
pub open spec fn stream_steps(c: Config, led: bool, bytes: Seq<u8>) -> Seq<BusStep>
    decreases bytes.len(),
{
    if bytes.len() == 0 {
        Seq::<BusStep>::empty()
    } else {
        stream_byte_steps(c, led, bytes[0]) + stream_steps(c, led, bytes.drop_first())
    }
}

pub proof fn lemma_stream_steps_push(c: Config, led: bool, bytes: Seq<u8>, b: u8)
    ensures
        stream_steps(c, led, bytes.push(b)) =~= stream_steps(c, led, bytes) + stream_byte_steps(
            c,
            led,
            b,
        ),
    decreases bytes.len(),
{
    if bytes.len() == 0 {
        let pb = bytes.push(b);
        assert(pb[0] == b);
        assert(pb.drop_first() =~= Seq::<u8>::empty());
        assert(stream_steps(c, led, pb) == stream_byte_steps(c, led, pb[0]) + stream_steps(
            c,
            led,
            pb.drop_first(),
        ));
        assert(stream_steps(c, led, pb) =~= stream_byte_steps(c, led, b));
    } else {
        assert(bytes.push(b).drop_first() =~= bytes.drop_first().push(b));
        lemma_stream_steps_push(c, led, bytes.drop_first(), b);
    }
}

/// The driver state once a run of data bytes has gone out: unchanged when
/// there were none, else the pin shadow records the last byte's transfer.
pub open spec fn text_final(d: LcdI2c, bytes: Seq<u8>) -> LcdI2c {
    if bytes.len() == 0 {
        d
    } else {
        LcdI2c {
            output: (OutputState {
                rs: true,
                rw: false,
                e: false,
                data: staged_after(d.cfg.bitmap, bytes.last(), false),
                ..d.output
            }),
            ..d
        }
    }
}

/// The function-set register value for a display of `rows` rows: 4-bit
/// bus, 5x8 font, and the two-line bit whenever more than one row exists.
pub open spec fn function_set_byte(rows: u8) -> u8 {
    CMD_FUNCTION_SET | (if rows > 1 {
        FUNCTION_TWO_LINES
    } else {
        0u8
    })
}

/// The expander bring-up phase of `begin`. A register-addressed expander
/// gets its three one-time configuration writes — direction, polarity,
/// output — each followed by a settle; a direct-write expander gets the
/// equivalent all-outputs-low byte.
pub open spec fn expander_init_steps(c: Config) -> Seq<BusStep> {
    match c.addressing {
        AddressingMode::Direct => seq![
            BusStep::Write(seq![0u8]),
            BusStep::Delay(c.timing.expander_settle_us),
        ],
        AddressingMode::Registered { output_register, polarity_register, config_register } => seq![
            BusStep::Write(seq![config_register, 0u8]),
            BusStep::Delay(c.timing.expander_settle_us),
            BusStep::Write(seq![polarity_register, 0u8]),
            BusStep::Delay(c.timing.expander_settle_us),
            BusStep::Write(seq![output_register, 0u8]),
            BusStep::Delay(c.timing.expander_settle_us),
        ],
    }
}

/// The controller cold boot, after the expander is up: the power-on wait,
/// the legacy 8-bit function set pulsed three times as half transfers with
/// the datasheet's decreasing waits, the switch to 4-bit mode, then the
/// first real register values — function set, display on, clear,
/// left-to-right entry.
pub open spec fn boot_steps(c: Config, led: bool, rows: u8) -> Seq<BusStep> {
    seq![BusStep::Delay(c.timing.power_on_us)] + transfer_steps(
        c,
        false,
        false,
        led,
        BOOT_EIGHT_BIT,
        true,
    ) + seq![BusStep::Delay(c.timing.reset_first_us)] + transfer_steps(
        c,
        false,
        false,
        led,
        BOOT_EIGHT_BIT,
        true,
    ) + seq![BusStep::Delay(c.timing.reset_second_us)] + transfer_steps(
        c,
        false,
        false,
        led,
        BOOT_EIGHT_BIT,
        true,
    ) + seq![BusStep::Delay(c.timing.reset_third_us)] + transfer_steps(
        c,
        false,
        false,
        led,
        BOOT_FOUR_BIT,
        true,
    ) + seq![BusStep::Delay(c.timing.mode_switch_us)] + command_steps(
        c,
        led,
        function_set_byte(rows),
        c.timing.short_settle_us,
    ) + command_steps(c, led, CMD_DISPLAY_CONTROL | DISPLAY_ON, c.timing.short_settle_us)
        + command_steps(c, led, CMD_CLEAR, c.timing.long_settle_us) + command_steps(
        c,
        led,
        CMD_ENTRY_MODE | ENTRY_INCREMENT,
        c.timing.short_settle_us,
    )
}

/// Everything `begin` puts on the bus.
pub open spec fn begin_steps(c: Config, led: bool, rows: u8) -> Seq<BusStep> {
    expander_init_steps(c) + boot_steps(c, led, rows)
}

impl LcdI2c {
    /// Uploads one 5x8 glyph into glyph-memory slot `location` (masked to
    /// the 8 existing slots), then points the address counter back at
    /// display RAM row 0, column 0, so that the next write shows on
    /// screen instead of landing in glyph memory.
    pub fn create_char(&mut self, location: u8, charmap: &[u8; 8]) -> (acts: Vec<BusAction>)
        ensures
            steps_of(acts@) == command_steps(
                old(self).cfg,
                old(self).output.led,
                CMD_SET_CGRAM | ((location % 8) << 3),
                old(self).cfg.timing.short_settle_us,
            ) + text_steps(old(self).cfg, old(self).output.led, charmap@) + command_steps(
                old(self).cfg,
                old(self).output.led,
                ddram_command(old(self).row_offsets@[0], 0),
                old(self).cfg.timing.short_settle_us,
            ),
            *final(self) == (LcdI2c {
                output: (OutputState {
                    rs: false,
                    rw: false,
                    e: false,
                    data: staged_after(
                        old(self).cfg.bitmap,
                        ddram_command(old(self).row_offsets@[0], 0),
                        false,
                    ),
                    ..old(self).output
                }),
                ..*old(self)
            }),
    {
        let loc: u8 = location % 8;
        let cgram: u8 = CMD_SET_CGRAM | (loc << 3);
        let settle: u64 = self.cfg.timing.short_settle_us;
        let mut acts: Vec<BusAction> = Vec::new();
        self.command_into(cgram, settle, &mut acts);
        let ghost mid: LcdI2c = *self;
        let ghost cmd_part: Seq<BusStep> = steps_of(acts@);
        let mut i: usize = 0;
        while i < 8
            invariant
                i <= 8,
                steps_of(acts@) == cmd_part + text_steps(
                    mid.cfg,
                    mid.output.led,
                    charmap@.take(i as int),
                ),
                *self == text_final(mid, charmap@.take(i as int)),
            decreases 8 - i,
        {
            let b: u8 = charmap[i];
            self.data_into(b, &mut acts);
            proof {
                lemma_text_steps_push(
                    mid.cfg,
                    mid.output.led,
                    charmap@.take(i as int),
                    charmap@[i as int],
                );
                assert(charmap@.take(i as int + 1) =~= charmap@.take(i as int).push(
                    charmap@[i as int],
                ));
                assert(*self == text_final(mid, charmap@.take(i as int + 1)));
            }
            i += 1;
        }
        proof {
            assert(charmap@.take(8) =~= charmap@);
        }
        let offset0: u8 = self.row_offsets[0];
        let home0: u8 = CMD_SET_DDRAM | offset0;
        self.command_into(home0, settle, &mut acts);
        proof {
            assert((offset0 + 0) % 256 == offset0);
            assert(steps_of(acts@) =~~= command_steps(
                old(self).cfg,
                old(self).output.led,
                CMD_SET_CGRAM | ((location % 8) << 3),
                old(self).cfg.timing.short_settle_us,
            ) + text_steps(old(self).cfg, old(self).output.led, charmap@) + command_steps(
                old(self).cfg,
                old(self).output.led,
                ddram_command(old(self).row_offsets@[0], 0),
                old(self).cfg.timing.short_settle_us,
            ));
        }
        acts
    }

    /// Sends every byte of `s` as data, each with its settle delay.
    pub fn write_str(&mut self, s: &str) -> (acts: Vec<BusAction>)
        ensures
            steps_of(acts@) == text_steps(old(self).cfg, old(self).output.led, s.spec_bytes()),
            *final(self) == text_final(*old(self), s.spec_bytes()),
    {
        let bytes: &[u8] = s.as_bytes();
        let n: usize = bytes.len();
        let mut acts: Vec<BusAction> = Vec::new();
        let mut i: usize = 0;
        while i < n
            invariant
                i <= n,
                n == bytes@.len(),
                bytes@ == s.spec_bytes(),
                steps_of(acts@) == text_steps(
                    old(self).cfg,
                    old(self).output.led,
                    bytes@.take(i as int),
                ),
                *self == text_final(*old(self), bytes@.take(i as int)),
            decreases n - i,
        {
            let b: u8 = bytes[i];
            self.data_into(b, &mut acts);
            proof {
                lemma_text_steps_push(
                    old(self).cfg,
                    old(self).output.led,
                    bytes@.take(i as int),
                    bytes@[i as int],
                );
                assert(bytes@.take(i as int + 1) =~= bytes@.take(i as int).push(bytes@[i as int]));
                assert(*self == text_final(*old(self), bytes@.take(i as int + 1)));
            }
            i += 1;
        }
        proof {
            assert(bytes@.take(n as int) =~= bytes@);
        }
        acts
    }

    /// One data byte on the lossy streaming path: four frames back to
    /// back, with none of the waits the timed path holds between them.
    fn stream_byte_into(&mut self, byte: u8, acts: &mut Vec<BusAction>)
        ensures
            steps_of(final(acts)@) == steps_of(old(acts)@) + stream_byte_steps(
                old(self).cfg,
                old(self).output.led,
                byte,
            ),
            *final(self) == (LcdI2c {
                output: (OutputState {
                    rs: true,
                    rw: false,
                    e: false,
                    data: staged_after(old(self).cfg.bitmap, byte, false),
                    ..old(self).output
                }),
                ..*old(self)
            }),
    {
        self.output.rs = true;
        self.output.rw = false;
        self.output.data = byte;
        self.output.e = true;
        let hi_latch: u8 = self.output.get_high_data(&self.cfg.bitmap);
        self.i2c_write(hi_latch, acts);
        self.output.e = false;
        let hi_rest: u8 = self.output.get_high_data(&self.cfg.bitmap);
        self.i2c_write(hi_rest, acts);
        match self.cfg.bitmap.strategy {
            NibbleStrategy::SelectorDriven => {
                self.output.e = true;
                let lo_latch: u8 = self.output.get_low_data(&self.cfg.bitmap);
                self.i2c_write(lo_latch, acts);
                self.output.e = false;
                let lo_rest: u8 = self.output.get_low_data(&self.cfg.bitmap);
                self.i2c_write(lo_rest, acts);
            },
            NibbleStrategy::CallerPreshifted => {
                self.output.data = byte << 4;
                self.output.e = true;
                let lo_latch: u8 = self.output.get_high_data(&self.cfg.bitmap);
                self.i2c_write(lo_latch, acts);
                self.output.e = false;
                let lo_rest: u8 = self.output.get_high_data(&self.cfg.bitmap);
                self.i2c_write(lo_rest, acts);
                proof {
                    lemma_preshift_frame(
                        old(self).cfg.bitmap,
                        true,
                        false,
                        true,
                        old(self).output.led,
                        byte,
                    );
                    lemma_preshift_frame(
                        old(self).cfg.bitmap,
                        true,
                        false,
                        false,
                        old(self).output.led,
                        byte,
                    );
                }
            },
        }
        proof {
            assert(steps_of(acts@) =~~= steps_of(old(acts)@) + stream_byte_steps(
                old(self).cfg,
                old(self).output.led,
                byte,
            ));
        }
    }

    /// Streams every byte of `s` as data with no waits at all: the
    /// best-effort sink for a formatting stream. Lossy by design — it
    /// leaves the controller no settle time between frames, so rapid
    /// consecutive writes can corrupt characters on marginal hardware;
    /// prefer `write_str` wherever timing matters.
    pub fn stream_str(&mut self, s: &str) -> (acts: Vec<BusAction>)
        ensures
            steps_of(acts@) == stream_steps(old(self).cfg, old(self).output.led, s.spec_bytes()),
            *final(self) == text_final(*old(self), s.spec_bytes()),
    {
        let bytes: &[u8] = s.as_bytes();
        let n: usize = bytes.len();
        let mut acts: Vec<BusAction> = Vec::new();
        let mut i: usize = 0;
        while i < n
            invariant
                i <= n,
                n == bytes@.len(),
                bytes@ == s.spec_bytes(),
                steps_of(acts@) == stream_steps(
                    old(self).cfg,
                    old(self).output.led,
                    bytes@.take(i as int),
                ),
                *self == text_final(*old(self), bytes@.take(i as int)),
            decreases n - i,
        {
            let b: u8 = bytes[i];
            self.stream_byte_into(b, &mut acts);
            proof {
                lemma_stream_steps_push(
                    old(self).cfg,
                    old(self).output.led,
                    bytes@.take(i as int),
                    bytes@[i as int],
                );
                assert(bytes@.take(i as int + 1) =~= bytes@.take(i as int).push(bytes@[i as int]));
                assert(*self == text_final(*old(self), bytes@.take(i as int + 1)));
            }
            i += 1;
        }
        proof {
            assert(bytes@.take(n as int) =~= bytes@);
        }
        acts
    }

    /// Brings the expander to a known state, then runs the controller's
    /// cold boot and leaves the three controller registers at their
    /// datasheet defaults: display on, cursor and blink off, left-to-right
    /// entry, no autoscroll. A bus failure at any step means the hardware
    /// is in an unknown state; the only recovery is to run `begin` again.
    pub fn begin(&mut self) -> (acts: Vec<BusAction>)
        ensures
            steps_of(acts@) == begin_steps(old(self).cfg, old(self).output.led, old(self).rows),
            *final(self) == (LcdI2c {
                display_state: DISPLAY_ON,
                entry_state: ENTRY_INCREMENT,
                function_state: (if old(self).rows > 1 {
                    FUNCTION_TWO_LINES
                } else {
                    0u8
                }),
                output: (OutputState {
                    rs: false,
                    rw: false,
                    e: false,
                    data: staged_after(
                        old(self).cfg.bitmap,
                        CMD_ENTRY_MODE | ENTRY_INCREMENT,
                        false,
                    ),
                    ..old(self).output
                }),
                ..*old(self)
            }),
    {
        let mut acts: Vec<BusAction> = Vec::new();
        match self.cfg.addressing {
            AddressingMode::Direct => {
                self.i2c_write(0x00, &mut acts);
                let exp: u64 = self.cfg.timing.expander_settle_us;
                push_delay(exp, &mut acts);
            },
            AddressingMode::Registered { output_register, polarity_register, config_register } => {
                let exp: u64 = self.cfg.timing.expander_settle_us;
                push_setup_write(config_register, 0x00, &mut acts);
                push_delay(exp, &mut acts);
                push_setup_write(polarity_register, 0x00, &mut acts);
                push_delay(exp, &mut acts);
                push_setup_write(output_register, 0x00, &mut acts);
                push_delay(exp, &mut acts);
            },
        }
        proof {
            assert(steps_of(acts@) =~~= expander_init_steps(old(self).cfg));
        }
        self.initialize_lcd(&mut acts);
        proof {
            assert(steps_of(acts@) =~~= begin_steps(
                old(self).cfg,
                old(self).output.led,
                old(self).rows,
            ));
        }
        acts
    }

    /// The controller cold boot of the datasheet's 4-bit initialization
    /// flow. The three legacy pulses and the mode switch are half
    /// transfers: the controller is not yet in 4-bit mode, and a low
    /// nibble here would be taken for a command of its own.
    fn initialize_lcd(&mut self, acts: &mut Vec<BusAction>)
        ensures
            steps_of(final(acts)@) == steps_of(old(acts)@) + boot_steps(
                old(self).cfg,
                old(self).output.led,
                old(self).rows,
            ),
            *final(self) == (LcdI2c {
                display_state: DISPLAY_ON,
                entry_state: ENTRY_INCREMENT,
                function_state: (if old(self).rows > 1 {
                    FUNCTION_TWO_LINES
                } else {
                    0u8
                }),
                output: (OutputState {
                    rs: false,
                    rw: false,
                    e: false,
                    data: staged_after(
                        old(self).cfg.bitmap,
                        CMD_ENTRY_MODE | ENTRY_INCREMENT,
                        false,
                    ),
                    ..old(self).output
                }),
                ..*old(self)
            }),
    {
        self.output.rs = false;
        self.output.rw = false;
        push_delay(self.cfg.timing.power_on_us, acts);
        self.lcd_write(BOOT_EIGHT_BIT, true, acts);
        push_delay(self.cfg.timing.reset_first_us, acts);
        self.lcd_write(BOOT_EIGHT_BIT, true, acts);
        push_delay(self.cfg.timing.reset_second_us, acts);
        self.lcd_write(BOOT_EIGHT_BIT, true, acts);
        push_delay(self.cfg.timing.reset_third_us, acts);
        self.lcd_write(BOOT_FOUR_BIT, true, acts);
        push_delay(self.cfg.timing.mode_switch_us, acts);
        self.function_state = if self.rows > 1 {
            FUNCTION_TWO_LINES
        } else {
            0
        };
        let fset: u8 = CMD_FUNCTION_SET | self.function_state;
        let short: u64 = self.cfg.timing.short_settle_us;
        let long: u64 = self.cfg.timing.long_settle_us;
        self.command_into(fset, short, acts);
        self.display_state = DISPLAY_ON;
        let dctl: u8 = CMD_DISPLAY_CONTROL | self.display_state;
        self.command_into(dctl, short, acts);
        self.command_into(CMD_CLEAR, long, acts);
        self.entry_state = ENTRY_INCREMENT;
        let emode: u8 = CMD_ENTRY_MODE | self.entry_state;
        self.command_into(emode, short, acts);
        proof {
            assert(steps_of(acts@) =~~= steps_of(old(acts)@) + boot_steps(
                old(self).cfg,
                old(self).output.led,
                old(self).rows,
            ));
        }
    }
}

/// `clear`'s script always ends by suspending for the variant's long
/// settle: whatever a caller issues next comes only after that wait, never
/// while the controller still runs the long clear internally. (`clear`'s
/// own contract says its script is exactly this `command_steps` value.)
pub proof fn lemma_clear_long_settle(c: Config, led: bool)
    ensures
        command_steps(c, led, CMD_CLEAR, c.timing.long_settle_us).len() > 0,
        command_steps(c, led, CMD_CLEAR, c.timing.long_settle_us).last() == BusStep::Delay(
            c.timing.long_settle_us,
        ),
{
}

/// Calling `cursor` twice in a row issues the display-control command
/// twice, both times with the cursor bit set, and the second call sends
/// the very same register value: there is no double-toggle. (`cursor`'s
/// contract sets the register to `flags | CURSOR_ON` and issues
/// `CMD_DISPLAY_CONTROL` OR'd with it.)
pub proof fn lemma_cursor_toggle_idempotent(flags: u8)
    ensures
        (flags | CURSOR_ON) | CURSOR_ON == flags | CURSOR_ON,
        (CMD_DISPLAY_CONTROL | (flags | CURSOR_ON)) & CURSOR_ON == CURSOR_ON,
{
    assert((flags | CURSOR_ON) | CURSOR_ON == flags | CURSOR_ON) by (bit_vector);
    assert((CMD_DISPLAY_CONTROL | (flags | CURSOR_ON)) & CURSOR_ON == CURSOR_ON) by (bit_vector);
}

/// `cursor` then `no_cursor` restores exactly the display-control byte
/// that stood before, whenever the cursor bit was clear to begin with.
/// (With the bit already set, `cursor` changes nothing and `no_cursor`
/// clears it, so the pair lands on `flags & !CURSOR_ON` instead.)
pub proof fn lemma_cursor_round_trip(flags: u8)
    requires
        flags & CURSOR_ON == 0,
    ensures
        (flags | CURSOR_ON) & !CURSOR_ON == flags,
{
    assert(flags & CURSOR_ON == 0 ==> (flags | CURSOR_ON) & !CURSOR_ON == flags) by (bit_vector);
}

/// Appends one two-byte configuration write, used while bringing up a
/// register-addressed expander.
fn push_setup_write(first: u8, second: u8, acts: &mut Vec<BusAction>)
    ensures
        steps_of(final(acts)@) == steps_of(old(acts)@).push(BusStep::Write(seq![first, second])),
{
    let ghost pre = acts@;
    let mut payload: Vec<u8> = Vec::new();
    payload.push(first);
    payload.push(second);
    proof {
        assert(payload@ =~= seq![first, second]);
    }
    acts.push(BusAction::Write(payload));
    proof {
        assert(steps_of(acts@) =~= steps_of(pre).push(BusStep::Write(seq![first, second])));
    }
}

/// Appends one wait to the script.
fn push_delay(us: u64, acts: &mut Vec<BusAction>)
    ensures
        steps_of(final(acts)@) == steps_of(old(acts)@).push(BusStep::Delay(us)),
{
    let ghost pre = acts@;
    acts.push(BusAction::DelayMicros(us));
    proof {
        assert(steps_of(acts@) =~= steps_of(pre).push(BusStep::Delay(us)));
    }
}

} // verus!
