use vstd::prelude::*;
use crate::text::{decimal, u32_to_decimal};

verus! {

/// The battery row: the level it holds, its label, and its level bar
/// (a value out of 100, and whether the bar is active).
pub struct BatteryLevelIndicator {
    pub battery_level: i8,
    pub label: String,
    pub bar_value: u8,
    pub sensitive: bool,
}

/// The level kept for a reported one: -1 (unavailable) up to 100.
pub open spec fn clamped_level(level: i8) -> i8 {
    if level < -1 {
        -1i8
    } else if level > 100 {
        100i8
    } else {
        level
    }
}

/// The label for a kept level.
pub open spec fn battery_label_text(level: i8) -> Seq<char> {
    if level < 0 {
        "Battery: Unavailable"@
    } else {
        "Battery: "@ + decimal(level as nat) + "%"@
    }
}

impl BatteryLevelIndicator {
    /// The row as first built: `Battery: Unavailable`, an empty active bar,
    /// and the level property at its default 0.
    pub fn new() -> (r: BatteryLevelIndicator)
        ensures
            r.battery_level == 0,
            r.label@ == "Battery: Unavailable"@,
            r.bar_value == 0,
            r.sensitive,
    {
        BatteryLevelIndicator {
            battery_level: 0,
            label: "Battery: Unavailable".to_string(),
            bar_value: 0,
            sensitive: true,
        }
    }

    /// Shows a reported battery level. The level is clamped to -1..=100; -1
    /// means unavailable: a full, inactive bar and `Battery: Unavailable`.
    /// Otherwise the bar is active at the level and the label gives it in percent.
    pub fn set_battery_level_from_i8(&mut self, level: i8)
        ensures
            final(self).battery_level == clamped_level(level),
            final(self).label@ == battery_label_text(clamped_level(level)),
            final(self).bar_value == (if clamped_level(level) < 0 {
                100
            } else {
                clamped_level(level) as u8
            }),
            final(self).sensitive == (clamped_level(level) >= 0),
    {
        let level: i8 = if level < -1 {
            -1
        } else if level > 100 {
            100
        } else {
            level
        };
        if level == -1 {
            self.bar_value = 100;
            self.sensitive = false;
            self.label = "Battery: Unavailable".to_string();
        } else {
            self.sensitive = true;
            self.bar_value = level as u8;
            let mut text = "Battery: ".to_string();
            let digits = u32_to_decimal(level as u32);
            text.append(digits.as_str());
            text.append("%");
            self.label = text;
        }
        self.battery_level = level;
    }

    /// Shows a reported battery level (as `set_battery_level_from_i8`).
    pub fn set_indicator_battery_level(&mut self, level: i8)
        ensures
            final(self).battery_level == clamped_level(level),
            final(self).label@ == battery_label_text(clamped_level(level)),
            final(self).bar_value == (if clamped_level(level) < 0 {
                100
            } else {
                clamped_level(level) as u8
            }),
            final(self).sensitive == (clamped_level(level) >= 0),
    {
        self.set_battery_level_from_i8(level);
    }
}

/// Showing the level that the row holds again changes nothing: every state
/// that a report leaves is one that reporting its own level leaves too.
pub proof fn law_battery_level_settles(level: i8)
    ensures
        clamped_level(clamped_level(level)) == clamped_level(level),
        -1 <= clamped_level(level) <= 100,
{
}

} // verus!
