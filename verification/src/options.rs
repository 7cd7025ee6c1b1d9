//! The demo's configuration surface: job count, camera mode, input path,
//! UI visibility, background scheme and the pipeline flag, together with
//! how command-line values override the defaults.

use vstd::prelude::*;
use crate::camera::Mode;
use crate::text::{parse_usize, spec_parse_usize, str_eq};

verus! {

/// How much of the demo UI is drawn.
#[derive(Clone, Copy, PartialEq, Eq, Structural, Debug)]
pub enum UIVisibility {
    /// No UI at all.
    Hidden,
    Stats,
    All,
}

/// The background colour scheme behind the scene.
#[derive(Clone, Copy, PartialEq, Eq, Structural, Debug)]
pub enum Background {
    /// No background: nothing but a black clear.
    Blank,
    Dark,
    Light,
}

impl Background {
    pub open spec fn spec_from_u8(val: u8) -> Background {
        if val == 1 {
            Background::Dark
        } else if val == 2 {
            Background::Light
        } else {
            Background::Blank
        }
    }
}

impl From<u8> for Background {
    /// The scheme a stored numeric setting selects; unknown values mean none.
    fn from(val: u8) -> (r: Background) {
        match val {
            1 => Background::Dark,
            2 => Background::Light,
            _ => Background::Blank,
        }
    }
}

impl vstd::std_specs::convert::FromSpecImpl<u8> for Background {
    open spec fn obeys_from_spec() -> bool {
        true
    }

    open spec fn from_spec(val: u8) -> Background {
        Background::spec_from_u8(val)
    }
}

/// Where the vector scene comes from: the bundled default, a named
/// resource, or a path on disk.
#[derive(Clone, PartialEq, Debug)]
pub enum SvgPath {
    Default,
    Resource(String),
    Path(String),
}

/// The demo's configuration.
#[derive(Clone, Debug)]
pub struct Options {
    /// Thread-pool size: unset means default parallelism, one forces
    /// strictly sequential builds.
    pub jobs: Option<usize>,
    pub mode: Mode,
    pub input_path: SvgPath,
    pub ui: UIVisibility,
    pub background: Background,
    /// Whether the very first tick sends one build ahead of need.
    pub pipeline: bool,
}

impl Default for Options {
    /// The stock configuration: 2D, default scene, full UI, light
    /// background, pipelining on.
    fn default() -> (r: Options)
        ensures
            r.jobs is None,
            r.mode == Mode::TwoD,
            r.input_path == SvgPath::Default,
            r.ui == UIVisibility::All,
            r.background == Background::Light,
            r.pipeline == true,
    {
        Options {
            jobs: None,
            mode: Mode::TwoD,
            input_path: SvgPath::Default,
            ui: UIVisibility::All,
            background: Background::Light,
            pipeline: true,
        }
    }
}

/// The command-line values the argument parser hands over: the raw strings
/// and flags, interpreted and applied here.
#[derive(Clone, Debug)]
pub struct CommandLineOverrides {
    pub jobs: Option<String>,
    pub three_d: bool,
    pub vr: bool,
    pub ui: Option<String>,
    pub background: Option<String>,
    pub pipeline: bool,
    pub no_pipeline: bool,
    pub input: Option<String>,
}

/// The visibility a command-line value selects.
pub open spec fn spec_ui_visibility_of(s: Seq<char>) -> UIVisibility {
    if s == "none"@ {
        UIVisibility::Hidden
    } else if s == "stats"@ {
        UIVisibility::Stats
    } else {
        UIVisibility::All
    }
}

/// The background a command-line value selects.
pub open spec fn spec_background_of(s: Seq<char>) -> Background {
    if s == "dark"@ {
        Background::Dark
    } else if s == "light"@ {
        Background::Light
    } else {
        Background::Blank
    }
}

impl Options {
    /// Applies the command-line overrides: a jobs value replaces the job
    /// count with its parse (or clears it when unparsable), the mode flags
    /// pick 3D before VR, and the remaining values map as documented.
    pub fn command_line_overrides(&mut self, overrides: &CommandLineOverrides)
        ensures
            final(self).jobs == (match overrides.jobs {
                Some(s) => spec_parse_usize(s@),
                None => old(self).jobs,
            }),
            final(self).mode == (if overrides.three_d {
                Mode::ThreeD
            } else if overrides.vr {
                Mode::VR
            } else {
                old(self).mode
            }),
            final(self).ui == (match overrides.ui {
                Some(s) => spec_ui_visibility_of(s@),
                None => old(self).ui,
            }),
            final(self).background == (match overrides.background {
                Some(s) => spec_background_of(s@),
                None => old(self).background,
            }),
            final(self).pipeline == (if overrides.pipeline {
                true
            } else if overrides.no_pipeline {
                false
            } else {
                old(self).pipeline
            }),
            (match overrides.input {
                Some(p) => final(self).input_path matches SvgPath::Path(q) && q@ == p@,
                None => final(self).input_path == old(self).input_path,
            }),
    {
        match &overrides.jobs {
            Some(jobs) => {
                self.jobs = parse_usize(jobs.as_str());
            },
            None => {},
        }

        if overrides.three_d {
            self.mode = Mode::ThreeD;
        } else if overrides.vr {
            self.mode = Mode::VR;
        }

        match &overrides.ui {
            Some(ui) => {
                self.ui = if str_eq(ui.as_str(), "none") {
                    UIVisibility::Hidden
                } else if str_eq(ui.as_str(), "stats") {
                    UIVisibility::Stats
                } else {
                    UIVisibility::All
                };
            },
            None => {},
        }

        match &overrides.background {
            Some(bg) => {
                self.background = if str_eq(bg.as_str(), "dark") {
                    Background::Dark
                } else if str_eq(bg.as_str(), "light") {
                    Background::Light
                } else {
                    Background::Blank
                };
            },
            None => {},
        }

        if overrides.pipeline {
            self.pipeline = true;
        } else if overrides.no_pipeline {
            self.pipeline = false;
        }

        match &overrides.input {
            Some(path) => {
                self.input_path = SvgPath::Path(path.clone());
            },
            None => {},
        }
    }
}

} // verus!
