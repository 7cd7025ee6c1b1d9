//! The immersive demo's thin pieces: the head-mounted display capability
//! interface its render loop runs against, and the platform handle and
//! result helpers the bindings are built from.

use vstd::prelude::*;

verus! {

/// The bit pattern of an invalid platform handle.
pub const ML_HANDLE_INVALID_BITS: u64 = 0xFFFF_FFFF_FFFF_FFFF;

/// An opaque platform handle.
#[derive(Clone, Copy, PartialEq, Eq, Structural, Debug)]
pub struct MLHandle(pub u64);

impl MLHandle {
    /// Takes the handle out, leaving zero behind; an invalid handle yields
    /// nothing and stays as it is.
    pub fn take(&mut self) -> (r: Option<MLHandle>)
        ensures
            old(self).0 == ML_HANDLE_INVALID_BITS ==> r is None && *final(self) == *old(self),
            old(self).0 != ML_HANDLE_INVALID_BITS ==> r == Some(*old(self)) && final(self).0 == 0,
    {
        if self.0 == ML_HANDLE_INVALID_BITS {
            None
        } else {
            let result = Some(*self);
            self.0 = 0;
            result
        }
    }
}

/// A platform result code; zero means success.
#[derive(Clone, Copy, PartialEq, Eq, Structural, Debug)]
pub struct MLResult(pub u32);

impl MLResult {
    /// Success as a `Result`: fine for code zero, otherwise the code itself
    /// as the error.
    pub fn ok(self) -> (r: Result<(), MLResult>)
        ensures
            self.0 == 0 ==> r == Result::<(), MLResult>::Ok(()),
            self.0 != 0 ==> r == Result::<(), MLResult>::Err(self),
    {
        if self.0 == 0 {
            Ok(())
        } else {
            Err(self)
        }
    }
}

/// The platform's log severities, most severe first.
#[derive(Clone, Copy, PartialEq, Eq, Structural, Debug)]
pub enum MLLogLevel {
    Fatal,
    Error,
    Warning,
    Info,
    Debug,
    Verbose,
}

impl MLLogLevel {
    pub open spec fn spec_code(self) -> u32 {
        match self {
            MLLogLevel::Fatal => 0,
            MLLogLevel::Error => 1,
            MLLogLevel::Warning => 2,
            MLLogLevel::Info => 3,
            MLLogLevel::Debug => 4,
            MLLogLevel::Verbose => 5,
        }
    }

    /// The numeric severity the platform's log call takes.
    pub fn code(self) -> (c: u32)
        ensures
            c == self.spec_code(),
    {
        match self {
            MLLogLevel::Fatal => 0,
            MLLogLevel::Error => 1,
            MLLogLevel::Warning => 2,
            MLLogLevel::Info => 3,
            MLLogLevel::Debug => 4,
            MLLogLevel::Verbose => 5,
        }
    }
}

/// The narrow capability interface an immersive display offers the demo
/// loop: whether it still runs, and rendering one scene. A display bounds
/// how many frames remain so the loop provably ends; a device that stops
/// reports it through `running`.
pub trait Display: Sized {
    type Error;

    /// An upper bound on the frames this display will still render.
    spec fn frames_left(&self) -> nat;

    /// Whether the display still runs; a display that reports running has
    /// at least one frame left.
    fn running(&self) -> (r: bool)
        ensures
            r ==> self.frames_left() > 0,
    ;

    /// Renders one scene; a successful render consumes one frame.
    fn render_scene(&mut self) -> (r: Result<(), Self::Error>)
        ensures
            r is Ok ==> final(self).frames_left() < old(self).frames_left(),
    ;
}

/// The immersive demo's loop: render scene after scene while the display
/// runs, stopping at its first error.
pub fn run<D: Display>(display: D) -> (r: Result<(), D::Error>)
{
    let mut demo = display;
    while demo.running()
        decreases demo.frames_left(),
    {
        match demo.render_scene() {
            Ok(()) => {},
            Err(e) => {
                return Err(e);
            },
        }
    }
    Ok(())
}

/// A model display that renders a fixed number of frames; the demo loop
/// runs it to completion, and a render past the last frame is an error.
pub struct CountdownDisplay {
    pub frames_remaining: u64,
}

impl Display for CountdownDisplay {
    type Error = u32;

    open spec fn frames_left(&self) -> nat {
        self.frames_remaining as nat
    }

    fn running(&self) -> (r: bool)
        ensures
            r ==> self.frames_left() > 0,
    {
        self.frames_remaining > 0
    }

    fn render_scene(&mut self) -> (r: Result<(), u32>)
        ensures
            r is Ok ==> final(self).frames_left() < old(self).frames_left(),
    {
        if self.frames_remaining == 0 {
            return Err(0);
        }
        self.frames_remaining = self.frames_remaining - 1;
        Ok(())
    }
}

} // verus!
