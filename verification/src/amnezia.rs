//! AmneziaWG obfuscation values: nine unsigned tuning parameters, a
//! validator that checks them in a fixed order and names the first offending
//! field, a randomized constructor drawing from the recommended ranges, and
//! the rendering of the parameter block.

use vstd::prelude::*;
use vstd::string::StringExecFns;

use crate::error::{WireguardError, WireguardResult};
use crate::export::ExportConfig;
use crate::text::{dec_str, render_u64};

verus! {

/// AmneziaWG obfuscation values. The fields are plain and may transiently
/// hold an invalid combination; `new` and `validate` enforce the rule set.
#[derive(Clone, Copy, PartialEq, Eq, Structural, Debug)]
pub struct AmneziaSettings {
    /// Junk packet count; valid when `1 <= jc <= 128`.
    pub jc: usize,
    /// Junk packet minimum size; valid when `jmin < jmax`.
    pub jmin: usize,
    /// Junk packet maximum size; valid when `jmax <= 1280`.
    pub jmax: usize,
    /// Init packet junk size; valid when `s1 < 1280` and `s1 + 56 != s2`.
    pub s1: usize,
    /// Response packet junk size; valid when `s2 < 1280`.
    pub s2: usize,
    /// Init packet magic header; the four headers must be pairwise distinct.
    pub h1: usize,
    /// Response packet magic header.
    pub h2: usize,
    /// Underload packet magic header.
    pub h3: usize,
    /// Transport packet magic header.
    pub h4: usize,
}

/// The name of the first field, in checking order, whose rule the settings
/// break; `None` when all rules hold.
pub open spec fn first_violation(s: AmneziaSettings) -> Option<Seq<char>> {
    if !(1 <= s.jc && s.jc <= 128) {
        Some("Jc"@)
    } else if !(s.jmin < s.jmax) {
        Some("Jmin"@)
    } else if !(s.jmax <= 1280) {
        Some("Jmax"@)
    } else if !(s.s1 < 1280 && s.s1 + 56 != s.s2) {
        Some("S1"@)
    } else if !(s.s2 < 1280) {
        Some("S2"@)
    } else if !(s.h1 != s.h2 && s.h1 != s.h3 && s.h1 != s.h4 && s.h2 != s.h3 && s.h2 != s.h4
        && s.h3 != s.h4) {
        Some("H1/H2/H3/H4"@)
    } else {
        None
    }
}

/// The rendered parameter block: nine `Name = value` lines.
pub open spec fn render_amnezia(s: AmneziaSettings) -> Seq<char> {
    "Jc = "@ + dec_str(s.jc as nat) + "\n"@ + "Jmin = "@ + dec_str(s.jmin as nat) + "\n"@
        + "Jmax = "@ + dec_str(s.jmax as nat) + "\n"@ + "S1 = "@ + dec_str(s.s1 as nat) + "\n"@
        + "S2 = "@ + dec_str(s.s2 as nat) + "\n"@ + "H1 = "@ + dec_str(s.h1 as nat) + "\n"@
        + "H2 = "@ + dec_str(s.h2 as nat) + "\n"@ + "H3 = "@ + dec_str(s.h3 as nat) + "\n"@
        + "H4 = "@ + dec_str(s.h4 as nat) + "\n"@
}

/// Relies on rand::random_range with the thread-local CSPRNG: a value in the
/// inclusive range. It panics only on an empty range, which the precondition
/// rules out; nothing more is assumed of the value.
#[verifier::external_body]
fn random_in_range(lo: usize, hi: usize) -> (r: usize)
    requires
        lo <= hi,
    ensures
        lo <= r <= hi,
{
    rand::random_range(lo..=hi)
}

impl AmneziaSettings {
    /// Builds settings from the nine values, accepting exactly the
    /// combinations with no violation and otherwise naming the first
    /// offending field.
    pub fn new(
        jc: usize,
        jmin: usize,
        jmax: usize,
        s1: usize,
        s2: usize,
        h1: usize,
        h2: usize,
        h3: usize,
        h4: usize,
    ) -> (r: WireguardResult<AmneziaSettings>)
        ensures
            ({
                let s = AmneziaSettings { jc, jmin, jmax, s1, s2, h1, h2, h3, h4 };
                match r {
                    Ok(out) => out == s && first_violation(s) is None,
                    Err(e) => first_violation(s) matches Some(name) && (e matches
                        WireguardError::InvalidAmneziaSetting(m) && m@ == name),
                }
            }),
    {
        let settings = AmneziaSettings { jc, jmin, jmax, s1, s2, h1, h2, h3, h4 };
        match settings.validate() {
            Ok(()) => Ok(settings),
            Err(e) => Err(e),
        }
    }

    /// Draws settings from the documented recommended sub-ranges. The four
    /// header values are drawn independently, so they are not guaranteed
    /// pairwise distinct; every other rule holds of the result.
    pub fn random() -> (r: AmneziaSettings)
        ensures
            3 <= r.jc <= 10,
            40 <= r.jmin <= 60,
            r.jmin + 10 <= r.jmax <= 90,
            15 <= r.s1 <= 150,
            1 <= r.s2 <= 150,
            r.s1 + 56 != r.s2,
            10 <= r.h1 <= 2147483640,
            10 <= r.h2 <= 2147483640,
            10 <= r.h3 <= 2147483640,
            10 <= r.h4 <= 2147483640,
    {
        let jc = random_in_range(3, 10);
        let jmin = random_in_range(40, 60);
        let jmax = random_in_range(jmin + 10, 90);
        let s1 = random_in_range(15, 150);
        // s2 is uniform over [1, 150] with the one forbidden value s1 + 56
        // skipped, so that s1 + 56 != s2 always holds
        let s2: usize = if s1 + 56 <= 150 {
            let v = random_in_range(1, 149);
            if v >= s1 + 56 {
                v + 1
            } else {
                v
            }
        } else {
            random_in_range(1, 150)
        };
        let h1 = random_in_range(10, 2147483640);
        let h2 = random_in_range(10, 2147483640);
        let h3 = random_in_range(10, 2147483640);
        let h4 = random_in_range(10, 2147483640);
        AmneziaSettings { jc, jmin, jmax, s1, s2, h1, h2, h3, h4 }
    }

    /// Checks the rules in their fixed order; the first violation wins.
    /// Returns `Ok` exactly when every rule holds, else the name of the
    /// first offending field.
    pub fn validate(&self) -> (r: WireguardResult<()>)
        ensures
            match r {
                Ok(()) => first_violation(*self) is None,
                Err(e) => first_violation(*self) matches Some(name) && (e matches
                    WireguardError::InvalidAmneziaSetting(m) && m@ == name),
            },
    {
        if !(1 <= self.jc && self.jc <= 128) {
            return Err(WireguardError::InvalidAmneziaSetting(String::from_str("Jc")));
        }
        if !(self.jmin < self.jmax) {
            return Err(WireguardError::InvalidAmneziaSetting(String::from_str("Jmin")));
        }
        if !(self.jmax <= 1280) {
            return Err(WireguardError::InvalidAmneziaSetting(String::from_str("Jmax")));
        }
        if !(self.s1 < 1280 && self.s1 + 56 != self.s2) {
            return Err(WireguardError::InvalidAmneziaSetting(String::from_str("S1")));
        }
        if !(self.s2 < 1280) {
            return Err(WireguardError::InvalidAmneziaSetting(String::from_str("S2")));
        }
        if !(self.h1 != self.h2 && self.h1 != self.h3 && self.h1 != self.h4 && self.h2 != self.h3
            && self.h2 != self.h4 && self.h3 != self.h4) {
            return Err(WireguardError::InvalidAmneziaSetting(String::from_str("H1/H2/H3/H4")));
        }
        Ok(())
    }
}

impl ExportConfig for AmneziaSettings {
    /// Rendering the parameter block needs nothing of the values.
    open spec fn config_wf(&self) -> bool {
        true
    }

    /// The parameter block: nine `Name = value` lines.
    open spec fn config_spec(&self) -> Seq<char> {
        render_amnezia(*self)
    }

    /// Renders the nine parameter lines.
    fn config(&self) -> (r: String) {
        let mut out = String::new();
        out.append("Jc = ");
        out.append(render_u64(self.jc as u64).as_str());
        out.append("\n");
        out.append("Jmin = ");
        out.append(render_u64(self.jmin as u64).as_str());
        out.append("\n");
        out.append("Jmax = ");
        out.append(render_u64(self.jmax as u64).as_str());
        out.append("\n");
        out.append("S1 = ");
        out.append(render_u64(self.s1 as u64).as_str());
        out.append("\n");
        out.append("S2 = ");
        out.append(render_u64(self.s2 as u64).as_str());
        out.append("\n");
        out.append("H1 = ");
        out.append(render_u64(self.h1 as u64).as_str());
        out.append("\n");
        out.append("H2 = ");
        out.append(render_u64(self.h2 as u64).as_str());
        out.append("\n");
        out.append("H3 = ");
        out.append(render_u64(self.h3 as u64).as_str());
        out.append("\n");
        out.append("H4 = ");
        out.append(render_u64(self.h4 as u64).as_str());
        out.append("\n");
        proof {
            assert(out@ =~= render_amnezia(*self));
        }
        out
    }
}

} // verus!
