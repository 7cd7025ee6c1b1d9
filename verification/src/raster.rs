//! The rasterizer's configuration and how its environment setting is read.

use vstd::prelude::*;
use vstd::string::StringSliceAdditionalSpecFns;
use crate::text::{eq_ignore_ascii_case, spec_eq_ignore_ascii_case};

verus! {

/// The rasterizer's options.
#[derive(Clone, Copy, PartialEq, Eq, Structural, Debug)]
pub struct RasterizerOptions {
    pub force_geometry_shader: bool,
}

impl Default for RasterizerOptions {
    /// The stock options: tessellation shaders, not the geometry shader.
    fn default() -> (r: RasterizerOptions)
        ensures
            r.force_geometry_shader == false,
    {
        RasterizerOptions { force_geometry_shader: false }
    }
}

/// Whether a setting value switches the geometry shader on, up to ASCII
/// letter case.
pub open spec fn spec_truthy(s: &str) -> bool {
    ||| spec_eq_ignore_ascii_case(s.spec_bytes(), "on".spec_bytes())
    ||| spec_eq_ignore_ascii_case(s.spec_bytes(), "yes".spec_bytes())
    ||| spec_eq_ignore_ascii_case(s.spec_bytes(), "1".spec_bytes())
}

/// Whether a setting value switches it off, up to ASCII letter case.
pub open spec fn spec_falsy(s: &str) -> bool {
    ||| spec_eq_ignore_ascii_case(s.spec_bytes(), "off".spec_bytes())
    ||| spec_eq_ignore_ascii_case(s.spec_bytes(), "no".spec_bytes())
    ||| spec_eq_ignore_ascii_case(s.spec_bytes(), "0".spec_bytes())
}

impl RasterizerOptions {
    /// Reads the options from the environment's setting, where the host
    /// found one: on/yes/1 force the geometry shader, off/no/0 and an
    /// absent setting do not, and anything else is an error.
    pub fn from_setting(value: Option<&str>) -> (r: Result<RasterizerOptions, ()>)
        ensures
            r == (match value {
                Some(s) => if spec_truthy(s) {
                    Ok(RasterizerOptions { force_geometry_shader: true })
                } else if spec_falsy(s) {
                    Ok(RasterizerOptions { force_geometry_shader: false })
                } else {
                    Err::<RasterizerOptions, ()>(())
                },
                None => Ok::<RasterizerOptions, ()>(RasterizerOptions {
                    force_geometry_shader: false,
                }),
            }),
    {
        let force_geometry_shader = match value {
            Some(s) => {
                if eq_ignore_ascii_case(s, "on")
                    || eq_ignore_ascii_case(s, "yes")
                    || eq_ignore_ascii_case(s, "1") {
                    true
                } else if eq_ignore_ascii_case(s, "off")
                    || eq_ignore_ascii_case(s, "no")
                    || eq_ignore_ascii_case(s, "0") {
                    false
                } else {
                    return Err(());
                }
            },
            None => false,
        };
        Ok(RasterizerOptions { force_geometry_shader })
    }
}

} // verus!
