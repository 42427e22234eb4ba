//! The companion board: four indicator lights and two increment buttons.

use vstd::prelude::*;
use vstd::string::StringExecFns;

verus! {

/// The character that stands for one light on the serial link.
pub open spec fn bit_char(lit: bool) -> char {
    if lit {
        '1'
    } else {
        '0'
    }
}

/// The state of the four indicator lights.
#[derive(Clone, Copy, Debug, PartialEq, Eq, Structural)]
pub struct Lights {
    pub mid_low: bool,
    pub mid_high: bool,
    pub top: bool,
    pub bottom: bool,
}

impl Lights {
    /// The four characters that stand for these lights on the serial link,
    /// in the order mid-low, mid-high, top, bottom.
    pub open spec fn pattern(&self) -> Seq<char> {
        seq![
            bit_char(self.mid_low),
            bit_char(self.mid_high),
            bit_char(self.top),
            bit_char(self.bottom),
        ]
    }

    /// The lights for a duty value: each light is lit where the value
    /// exceeds its threshold. `mapping` holds the thresholds in the order
    /// bottom, mid-low, mid-high, top.
    pub open spec fn lit_by(val: i64, mapping: [i64; 4]) -> Lights {
        Lights {
            mid_low: val > mapping[1],
            mid_high: val > mapping[2],
            top: val > mapping[3],
            bottom: val > mapping[0],
        }
    }

    /// The lights for a duty value under the thresholds `mapping`.
    pub fn from_mapping(val: i64, mapping: &[i64; 4]) -> (lights: Self)
        ensures
            lights == Self::lit_by(val, *mapping),
    {
        Lights {
            mid_low: val > mapping[1],
            mid_high: val > mapping[2],
            top: val > mapping[3],
            bottom: val > mapping[0],
        }
    }

    /// Appends the four-character pattern of these lights to `out`.
    pub fn write_into(&self, out: &mut String)
        ensures
            final(out)@ == old(out)@ + self.pattern(),
    {
        proof {
            reveal_strlit("1");
            reveal_strlit("0");
        }
        let ghost before = out@;
        out.append(if self.mid_low { "1" } else { "0" });
        out.append(if self.mid_high { "1" } else { "0" });
        out.append(if self.top { "1" } else { "0" });
        out.append(if self.bottom { "1" } else { "0" });
        assert(out@ =~= before + self.pattern());
    }
}

/// The board's configuration.
#[derive(Clone, Copy, Debug, PartialEq, Eq)]
pub struct HitachiConfig {
    /// Thresholds of the lights, in the order bottom, mid-low, mid-high, top.
    pub light_mappings: [i64; 4],
    /// By how much the lower and the upper button change the duty.
    pub button_mappings: [i64; 2],
}

impl HitachiConfig {
    /// The configuration of a board that has none stored.
    pub fn default() -> (config: Option<Self>)
        ensures
            config matches Some(c) && c.light_mappings@ == seq![0i64, 25, 50, 75]
                && c.button_mappings@ == seq![-100i64, 100],
    {
        let config = HitachiConfig { light_mappings: [0, 25, 50, 75], button_mappings: [-100, 100] };
        assert(config.light_mappings@ =~= seq![0i64, 25, 50, 75]);
        assert(config.button_mappings@ =~= seq![-100i64, 100]);
        Some(config)
    }
}

} // verus!
