use vstd::prelude::*;

verus! {

/// Which modifier key the wall-clip sequence holds while moving.
#[derive(Debug, Clone, Copy, PartialEq, Eq, Structural)]
pub enum ShiftlockKey {
    Shift,
    Control,
}

/// User-tunable parameters for the two macro sequences.
///
/// The peak delay is kept in whole milliseconds; the valid range
/// 50..=5000 ms corresponds to the 0.05..=5.0 second setting that the
/// interface exposes.
#[derive(Debug, Clone)]
pub struct Config {
    pub emote_slot: u8,
    pub gear_slot: String,
    pub peak_delay_ms: u64,
    pub unequip_after: bool,
    pub unshiftlock_after: bool,
    pub shiftlock_key: ShiftlockKey,
    pub com_hotkey: String,
    pub clip_hotkey: String,
}

pub open spec fn emote_slot_message() -> Seq<char> {
    "Emote slot must be between 1-8"@
}

pub open spec fn gear_slot_length_message() -> Seq<char> {
    "Gear slot must be a single character"@
}

pub open spec fn gear_slot_charset_message() -> Seq<char> {
    "Gear slot must be 1-9 or 0"@
}

pub open spec fn delay_message() -> Seq<char> {
    "Peak delay must be between 0.05-5.0 seconds"@
}

pub open spec fn is_digit_char(c: char) -> bool {
    '0' <= c && c <= '9'
}

impl Config {
    pub open spec fn emote_slot_ok(self) -> bool {
        1 <= self.emote_slot <= 8
    }

    pub open spec fn gear_slot_ok(self) -> bool {
        self.gear_slot@.len() == 1 && is_digit_char(self.gear_slot@[0])
    }

    pub open spec fn delay_ok(self) -> bool {
        50 <= self.peak_delay_ms <= 5000
    }

    pub open spec fn all_ok(self) -> bool {
        self.emote_slot_ok() && self.gear_slot_ok() && self.delay_ok()
    }

    /// The message of the first failing field validator, in the fixed
    /// order emote slot, gear slot, delay; `None` when every field is valid.
    pub open spec fn first_error(self) -> Option<Seq<char>> {
        if !self.emote_slot_ok() {
            Some(emote_slot_message())
        } else if self.gear_slot@.len() != 1 {
            Some(gear_slot_length_message())
        } else if !is_digit_char(self.gear_slot@[0]) {
            Some(gear_slot_charset_message())
        } else if !self.delay_ok() {
            Some(delay_message())
        } else {
            None
        }
    }

    pub fn validate_emote_slot(&self) -> (r: Result<(), String>)
        ensures
            r is Ok <==> self.emote_slot_ok(),
            r is Err ==> r->Err_0@ == emote_slot_message(),
    {
        if self.emote_slot < 1 || self.emote_slot > 8 {
            return Err(String::from_str("Emote slot must be between 1-8"));
        }
        Ok(())
    }

    pub fn validate_gear_slot(&self) -> (r: Result<(), String>)
        ensures
            r is Ok <==> self.gear_slot_ok(),
            self.gear_slot@.len() != 1 ==> r is Err && r->Err_0@ == gear_slot_length_message(),
            self.gear_slot@.len() == 1 && !is_digit_char(self.gear_slot@[0]) ==> r is Err
                && r->Err_0@ == gear_slot_charset_message(),
    {
        if self.gear_slot.as_str().unicode_len() != 1 {
            return Err(String::from_str("Gear slot must be a single character"));
        }
        let c = self.gear_slot.as_str().get_char(0);
        if c < '0' || c > '9' {
            return Err(String::from_str("Gear slot must be 1-9 or 0"));
        }
        Ok(())
    }

    pub fn validate_delay(&self) -> (r: Result<(), String>)
        ensures
            r is Ok <==> self.delay_ok(),
            r is Err ==> r->Err_0@ == delay_message(),
    {
        if self.peak_delay_ms < 50 || self.peak_delay_ms > 5000 {
            return Err(String::from_str("Peak delay must be between 0.05-5.0 seconds"));
        }
        Ok(())
    }

    /// Runs the field validators in a fixed order and stops at the first
    /// failure, so an earlier field's message always wins.
    pub fn validate_all(&self) -> (r: Result<(), String>)
        ensures
            r is Ok <==> self.all_ok(),
            r is Err <==> self.first_error() is Some,
            r is Err ==> r->Err_0@ == self.first_error()->0,
    {
        self.validate_emote_slot()?;
        self.validate_gear_slot()?;
        self.validate_delay()?;
        Ok(())
    }
}

impl Default for Config {
    fn default() -> (c: Self)
        ensures
            c.emote_slot == 1,
            c.gear_slot@ == "1"@,
            c.peak_delay_ms == 970,
            c.unequip_after == true,
            c.unshiftlock_after == false,
            c.shiftlock_key == ShiftlockKey::Shift,
            c.com_hotkey@ == "f7"@,
            c.clip_hotkey@ == "f8"@,
            c.all_ok(),
    {
        let c = Config {
            emote_slot: 1,
            gear_slot: String::from_str("1"),
            peak_delay_ms: 970,
            unequip_after: true,
            unshiftlock_after: false,
            shiftlock_key: ShiftlockKey::Shift,
            com_hotkey: String::from_str("f7"),
            clip_hotkey: String::from_str("f8"),
        };
        proof {
            reveal_strlit("1");
        }
        c
    }
}

/// Aggregate validation short-circuits: when the emote slot is out of
/// range, the reported message is the emote-slot message, whatever the
/// other fields hold.
pub proof fn lemma_validation_short_circuits(c: Config)
    requires
        !c.emote_slot_ok(),
    ensures
        c.first_error() == Some(emote_slot_message()),
{
}

} // verus!
