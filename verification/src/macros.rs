use vstd::prelude::*;
use crate::config::Config;
use crate::config::ShiftlockKey;

verus! {

/// Virtual key code of the period key.
pub const VK_PERIOD: u16 = 0xBE;

/// Virtual key code of the left shift key.
pub const VK_LSHIFT: u16 = 0xA0;

/// Virtual key code of the left control key.
pub const VK_LCONTROL: u16 = 0xA2;

/// Virtual key code of the W key.
pub const VK_W: u16 = 0x57;

/// One primitive of a macro sequence: a synthetic key-down or key-up
/// event for a virtual key code, or a blocking wait in milliseconds.
#[derive(Debug, Clone, Copy, PartialEq, Eq, Structural)]
pub enum InputStep {
    KeyDown(u16),
    KeyUp(u16),
    Wait(u64),
}

/// A tap: press, a short settle wait, release.
pub open spec fn tap_steps(vk: u16) -> Seq<InputStep> {
    seq![InputStep::KeyDown(vk), InputStep::Wait(10), InputStep::KeyUp(vk)]
}

/// Virtual key code of the digit key for emote slot 1..=8.
pub open spec fn emote_vk(slot: u8) -> u16 {
    (0x30 + slot) as u16
}

/// Virtual key code of the digit key written as the character '0'..='9'.
pub open spec fn gear_vk(c: char) -> u16 {
    (c as u32) as u16
}

/// Virtual key code of the chosen shiftlock modifier.
pub open spec fn shiftlock_vk(k: ShiftlockKey) -> u16 {
    match k {
        ShiftlockKey::Shift => VK_LSHIFT,
        ShiftlockKey::Control => VK_LCONTROL,
    }
}

/// The full step sequence of the offset action: tap the period key,
/// tap the emote-slot digit, wait the configured peak delay, tap the
/// gear-slot digit, and tap it a second time when unequipping is on.
pub open spec fn com_offset_seq(c: Config) -> Seq<InputStep> {
    tap_steps(VK_PERIOD) + seq![InputStep::Wait(50)] + tap_steps(emote_vk(c.emote_slot))
        + seq![InputStep::Wait(50)] + seq![InputStep::Wait(c.peak_delay_ms)] + tap_steps(
        gear_vk(c.gear_slot@[0]),
    ) + if c.unequip_after {
        seq![InputStep::Wait(100)] + tap_steps(gear_vk(c.gear_slot@[0]))
    } else {
        Seq::<InputStep>::empty()
    }
}

/// The full step sequence of the clip action: tap the period key, tap
/// the emote-slot digit, wait the peak delay, hold the shiftlock
/// modifier, hold W, dwell, release W, release the modifier, and tap
/// the modifier once more when unshiftlocking is on.
pub open spec fn wall_clip_seq(c: Config) -> Seq<InputStep> {
    tap_steps(VK_PERIOD) + seq![InputStep::Wait(50)] + tap_steps(emote_vk(c.emote_slot))
        + seq![InputStep::Wait(50)] + seq![InputStep::Wait(c.peak_delay_ms)] + seq![
        InputStep::KeyDown(shiftlock_vk(c.shiftlock_key)),
        InputStep::Wait(20),
        InputStep::KeyDown(VK_W),
        InputStep::Wait(250),
        InputStep::KeyUp(VK_W),
        InputStep::Wait(20),
        InputStep::KeyUp(shiftlock_vk(c.shiftlock_key)),
    ] + if c.unshiftlock_after {
        seq![InputStep::Wait(100)] + tap_steps(shiftlock_vk(c.shiftlock_key))
    } else {
        Seq::<InputStep>::empty()
    }
}

/// The offset action's order, for every configuration with
/// unequipping on: the period tap comes first, then the emote-slot
/// tap, then the configured peak wait, then the gear-slot tap, then
/// the same gear-slot tap a second time.
pub proof fn lemma_com_offset_order(c: Config)
    requires
        c.unequip_after,
    ensures
        com_offset_seq(c).len() == 16,
        com_offset_seq(c).subrange(0, 3) == tap_steps(VK_PERIOD),
        com_offset_seq(c).subrange(4, 7) == tap_steps(emote_vk(c.emote_slot)),
        com_offset_seq(c)[8] == InputStep::Wait(c.peak_delay_ms),
        com_offset_seq(c).subrange(9, 12) == tap_steps(gear_vk(c.gear_slot@[0])),
        com_offset_seq(c).subrange(13, 16) == tap_steps(gear_vk(c.gear_slot@[0])),
{
    let s = com_offset_seq(c);
    assert(s.subrange(0, 3) =~= tap_steps(VK_PERIOD));
    assert(s.subrange(4, 7) =~= tap_steps(emote_vk(c.emote_slot)));
    assert(s.subrange(9, 12) =~= tap_steps(gear_vk(c.gear_slot@[0])));
    assert(s.subrange(13, 16) =~= tap_steps(gear_vk(c.gear_slot@[0])));
}

/// The clip action's order, for every configuration: the shiftlock
/// modifier goes down before the movement key, the movement key comes
/// up before the modifier does, and with unshiftlocking on the
/// sequence ends with one extra tap of the modifier.
pub proof fn lemma_wall_clip_order(c: Config)
    ensures
        wall_clip_seq(c).len() == (if c.unshiftlock_after {
            20int
        } else {
            16int
        }),
        wall_clip_seq(c)[9] == InputStep::KeyDown(shiftlock_vk(c.shiftlock_key)),
        wall_clip_seq(c)[11] == InputStep::KeyDown(VK_W),
        wall_clip_seq(c)[13] == InputStep::KeyUp(VK_W),
        wall_clip_seq(c)[15] == InputStep::KeyUp(shiftlock_vk(c.shiftlock_key)),
        c.unshiftlock_after ==> wall_clip_seq(c).subrange(17, 20) == tap_steps(
            shiftlock_vk(c.shiftlock_key),
        ),
{
    let s = wall_clip_seq(c);
    if c.unshiftlock_after {
        assert(s.subrange(17, 20) =~= tap_steps(shiftlock_vk(c.shiftlock_key)));
    }
}

/// Records the exact, deterministic step sequence of a macro run.
/// A host-side driver performs the recorded steps in order; nothing
/// here touches the operating system.
pub struct MacroExecutor {
    pub steps: Vec<InputStep>,
}

impl MacroExecutor {
    /// Always succeeds with an empty recording; the `Result` mirrors
    /// the construction interface the driver expects.
    pub fn new() -> (r: Result<Self, String>)
        ensures
            r is Ok,
            r->Ok_0.steps@ == Seq::<InputStep>::empty(),
    {
        Ok(Self { steps: Vec::new() })
    }

    /// Press and release: a key-down, a short settle wait, a key-up.
    pub fn press_key(&mut self, vk_code: u16)
        ensures
            final(self).steps@ == old(self).steps@ + tap_steps(vk_code),
    {
        self.steps.push(InputStep::KeyDown(vk_code));
        self.steps.push(InputStep::Wait(10));
        self.steps.push(InputStep::KeyUp(vk_code));
        proof {
            assert(self.steps@ =~= old(self).steps@ + tap_steps(vk_code));
        }
    }

    /// A key-down with no matching key-up.
    pub fn hold_key(&mut self, vk_code: u16)
        ensures
            final(self).steps@ == old(self).steps@.push(InputStep::KeyDown(vk_code)),
    {
        self.steps.push(InputStep::KeyDown(vk_code));
    }

    /// The key-up that ends an earlier hold.
    pub fn release_key(&mut self, vk_code: u16)
        ensures
            final(self).steps@ == old(self).steps@.push(InputStep::KeyUp(vk_code)),
    {
        self.steps.push(InputStep::KeyUp(vk_code));
    }

    /// A blocking wait of the given number of milliseconds.
    pub fn wait(&mut self, ms: u64)
        ensures
            final(self).steps@ == old(self).steps@.push(InputStep::Wait(ms)),
    {
        self.steps.push(InputStep::Wait(ms));
    }

    /// Validates the configuration and, when it passes, appends the
    /// offset action's steps. On a validation failure nothing is
    /// appended: no partial sequence is ever produced.
    pub fn execute_com_offset(&mut self, config: &Config) -> (r: Result<(), String>)
        ensures
            r is Ok <==> config.all_ok(),
            r is Err ==> r->Err_0@ == config.first_error()->0
                && final(self).steps@ == old(self).steps@,
            r is Ok ==> final(self).steps@ == old(self).steps@ + com_offset_seq(*config),
    {
        config.validate_all()?;
        self.press_key(VK_PERIOD);
        self.wait(50);
        let emote_vk_code: u16 = 0x30 + (config.emote_slot as u16);
        self.press_key(emote_vk_code);
        self.wait(50);
        self.wait(config.peak_delay_ms);
        let gear_char = config.gear_slot.as_str().get_char(0);
        let gear_vk_code: u16 = (gear_char as u32) as u16;
        self.press_key(gear_vk_code);
        if config.unequip_after {
            self.wait(100);
            self.press_key(gear_vk_code);
        }
        proof {
            assert(self.steps@ =~= old(self).steps@ + com_offset_seq(*config));
        }
        Ok(())
    }

    /// Validates the configuration and, when it passes, appends the
    /// clip action's steps. On a validation failure nothing is
    /// appended: no partial sequence is ever produced.
    pub fn execute_wall_clip(&mut self, config: &Config) -> (r: Result<(), String>)
        ensures
            r is Ok <==> config.all_ok(),
            r is Err ==> r->Err_0@ == config.first_error()->0
                && final(self).steps@ == old(self).steps@,
            r is Ok ==> final(self).steps@ == old(self).steps@ + wall_clip_seq(*config),
    {
        config.validate_all()?;
        self.press_key(VK_PERIOD);
        self.wait(50);
        let emote_vk_code: u16 = 0x30 + (config.emote_slot as u16);
        self.press_key(emote_vk_code);
        self.wait(50);
        self.wait(config.peak_delay_ms);
        let shift_vk = match config.shiftlock_key {
            ShiftlockKey::Shift => VK_LSHIFT,
            ShiftlockKey::Control => VK_LCONTROL,
        };
        self.hold_key(shift_vk);
        self.wait(20);
        self.hold_key(VK_W);
        self.wait(250);
        self.release_key(VK_W);
        self.wait(20);
        self.release_key(shift_vk);
        if config.unshiftlock_after {
            self.wait(100);
            self.press_key(shift_vk);
        }
        proof {
            assert(self.steps@ =~= old(self).steps@ + wall_clip_seq(*config));
        }
        Ok(())
    }
}

} // verus!
