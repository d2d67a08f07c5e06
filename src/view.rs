use vstd::prelude::*;

verus! {

/// Zoom levels above this are not reached by zooming out.
pub const MAX_ZOOM_LEVEL: i32 = 1000;

/// What the user has chosen to see: how far zoomed out, and whether
/// composite numbers are drawn.
#[derive(Clone, Copy, Debug, PartialEq, Eq, Structural)]
pub struct Configs {
    pub zoom_level: i32,
    pub draw_nonprimes: bool,
}

/// The discrete input edges the view reacts to.
#[derive(Clone, Copy, Debug, PartialEq, Eq, Structural)]
pub enum Input {
    ZoomIn,
    ZoomOut,
    ToggleFullscreen,
    ToggleDrawNonprimes,
    Quit,
}

/// What the rendering host must do after an input.
#[derive(Clone, Copy, Debug, PartialEq, Eq, Structural)]
pub enum HostAction {
    Nothing,
    ToggleFullscreen,
    Quit,
}

/// The state after `input`, and what the host is asked to do.
pub open spec fn step(c: Configs, input: Input) -> (Configs, HostAction) {
    match input {
        Input::ZoomIn => (
            Configs { zoom_level: if c.zoom_level > 0 { (c.zoom_level - 1) as i32 } else { c.zoom_level }, ..c },
            HostAction::Nothing,
        ),
        Input::ZoomOut => (
            Configs {
                zoom_level: if c.zoom_level <= MAX_ZOOM_LEVEL { (c.zoom_level + 1) as i32 } else { c.zoom_level },
                ..c
            },
            HostAction::Nothing,
        ),
        Input::ToggleFullscreen => (
            Configs {
                zoom_level: if c.zoom_level < i32::MAX { (c.zoom_level + 1) as i32 } else { c.zoom_level },
                ..c
            },
            HostAction::ToggleFullscreen,
        ),
        Input::ToggleDrawNonprimes => (
            Configs { draw_nonprimes: !c.draw_nonprimes, ..c },
            HostAction::Nothing,
        ),
        Input::Quit => (c, HostAction::Quit),
    }
}

impl Configs {
    /// Zoomed all the way in, composites shown.
    pub fn initial() -> (r: Configs)
        ensures
            r.zoom_level == 0,
            r.draw_nonprimes,
    {
        Configs { zoom_level: 0, draw_nonprimes: true }
    }

    /// Applies one input edge. Zooming in stops at level 0; zooming out
    /// stops one above `MAX_ZOOM_LEVEL`; a fullscreen toggle also zooms out
    /// by one (saturating at `i32::MAX`).
    pub fn apply(&mut self, input: Input) -> (r: HostAction)
        ensures
            (*final(self), r) == step(*old(self), input),
    {
        match input {
            Input::ZoomIn => {
                if self.zoom_level > 0 {
                    self.zoom_level = self.zoom_level - 1;
                }
                HostAction::Nothing
            },
            Input::ZoomOut => {
                if self.zoom_level <= MAX_ZOOM_LEVEL {
                    self.zoom_level = self.zoom_level + 1;
                }
                HostAction::Nothing
            },
            Input::ToggleFullscreen => {
                if self.zoom_level < i32::MAX {
                    self.zoom_level = self.zoom_level + 1;
                }
                HostAction::ToggleFullscreen
            },
            Input::ToggleDrawNonprimes => {
                self.draw_nonprimes = !self.draw_nonprimes;
                HostAction::Nothing
            },
            Input::Quit => HostAction::Quit,
        }
    }
}

/// Zooming in at level 0 changes nothing, and from any level in
/// `[0, MAX_ZOOM_LEVEL + 1]` zooming in or out stays in that range.
pub proof fn lemma_zoom_stays_in_range(c: Configs)
    ensures
        c.zoom_level == 0 ==> step(c, Input::ZoomIn).0 == c,
        0 <= c.zoom_level <= MAX_ZOOM_LEVEL + 1 ==> {
            &&& 0 <= step(c, Input::ZoomIn).0.zoom_level <= MAX_ZOOM_LEVEL + 1
            &&& 0 <= step(c, Input::ZoomOut).0.zoom_level <= MAX_ZOOM_LEVEL + 1
        },
{
}

} // verus!
