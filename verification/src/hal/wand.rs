//! The wand's own light thresholds and the full indicator line.

use vstd::prelude::*;
use vstd::string::StringExecFns;
use crate::hal::hitachi_board::bit_char;
use crate::hal::ledc::clamp_percent;

verus! {

/// The thresholds above which each light is lit, in the order bottom,
/// mid-low, mid-high, top.
#[derive(Clone, Copy, Debug, PartialEq, Eq)]
pub struct LightMappings {
    pub thresholds: [i64; 4],
}

impl Default for LightMappings {
    fn default() -> (mappings: Self)
        ensures
            mappings.thresholds@ == seq![-1i64, 25, 50, 75],
    {
        let mappings = LightMappings { thresholds: [-1, 25, 50, 75] };
        assert(mappings.thresholds@ =~= seq![-1i64, 25, 50, 75]);
        mappings
    }
}

/// The state of the four indicator lights.
#[derive(Clone, Copy, Debug, PartialEq, Eq, Structural)]
pub struct Lights {
    pub mid_low: bool,
    pub mid_high: bool,
    pub top: bool,
    pub bottom: bool,
}

impl Default for Lights {
    fn default() -> (lights: Self)
        ensures
            !lights.mid_low && !lights.mid_high && !lights.top && !lights.bottom,
    {
        Lights { mid_low: false, mid_high: false, top: false, bottom: false }
    }
}

impl Lights {
    /// The indicator line: one character per light in the order mid-low,
    /// mid-high, top, bottom, then carriage return and line feed.
    pub open spec fn line(&self) -> Seq<char> {
        seq![
            bit_char(self.mid_low),
            bit_char(self.mid_high),
            bit_char(self.top),
            bit_char(self.bottom),
            '\r',
            '\n',
        ]
    }

    /// The lights for a duty value: each light is lit where the value
    /// exceeds its threshold.
    pub open spec fn lit_by(val: i64, mapping: [i64; 4]) -> Lights {
        Lights {
            mid_low: val > mapping[1],
            mid_high: val > mapping[2],
            top: val > mapping[3],
            bottom: val > mapping[0],
        }
    }

    /// The lights for a duty value under the thresholds `mapping`.
    pub fn from_mapping(val: i64, mapping: &[i64; 4]) -> (lights: Self)
        ensures
            lights == Self::lit_by(val, *mapping),
    {
        Lights {
            mid_low: val > mapping[1],
            mid_high: val > mapping[2],
            top: val > mapping[3],
            bottom: val > mapping[0],
        }
    }

    /// Appends the indicator line of these lights to `out`.
    pub fn write_into(&self, out: &mut String)
        ensures
            final(out)@ == old(out)@ + self.line(),
    {
        proof {
            reveal_strlit("1");
            reveal_strlit("0");
            reveal_strlit("\r\n");
        }
        let ghost before = out@;
        out.append(if self.mid_low { "1" } else { "0" });
        out.append(if self.mid_high { "1" } else { "0" });
        out.append(if self.top { "1" } else { "0" });
        out.append(if self.bottom { "1" } else { "0" });
        out.append("\r\n");
        assert(out@ =~= before + self.line());
    }
}

/// The wand: its duty, shown on the lights whenever it changes.
#[derive(Clone, Copy, Debug, PartialEq, Eq, Structural)]
pub struct Wand {
    pub percent: i64,
}

impl Wand {
    pub fn get_percent(&self) -> (percent: i64)
        ensures
            percent == self.percent,
    {
        self.percent
    }

    /// Sets the duty to `percent`, clamped to `0..=100`, and returns the
    /// lights that show the new duty under `mappings`.
    pub fn set_percent(&mut self, percent: i64, mappings: &LightMappings) -> (lights: Lights)
        ensures
            final(self).percent == clamp_percent(percent as int),
            lights == Lights::lit_by(final(self).percent, mappings.thresholds),
    {
        let percent: i64 = if percent > 100 {
            100
        } else if percent < 0 {
            0
        } else {
            percent
        };
        self.percent = percent;
        Lights::from_mapping(percent, &mappings.thresholds)
    }
}

} // verus!
