//! The dimming overlay shown around the zoomed region during live zoom: it
//! darkens the screen except for a hole over the area being recorded, and
//! hides while the camera is not zoomed.
use vstd::prelude::*;
use crossbeam_channel::Receiver;
use crate::channel::{channel_try_recv, DRAIN_LIMIT};

verus! {

/// The region update the compositor sends each frame:
/// `(left, top, right, bottom, is_zoomed)`.
pub type OverlayRegion = (i32, i32, i32, i32, bool);

/// What the overlay window must do this frame.
#[derive(Debug, Clone, Copy, PartialEq, Eq, Structural)]
pub enum OverlayCommand {
    /// Nothing changed.
    Keep,
    /// Cover the screen except the rectangle, showing the window first when
    /// `show` is set.
    CutHole { show: bool, left: i32, top: i32, right: i32, bottom: i32 },
    /// Hide the window and clear its region.
    Hide,
}

/// The overlay's visibility.
pub struct OverlayWindow {
    pub showing: bool,
}

/// The command for the latest region update `latest` while the window is
/// `showing`.
pub open spec fn spec_overlay_command(showing: bool, latest: Option<OverlayRegion>) -> OverlayCommand {
    match latest {
        None => OverlayCommand::Keep,
        Some((left, top, right, bottom, zoomed)) => if zoomed {
            OverlayCommand::CutHole { show: !showing, left, top, right, bottom }
        } else if showing {
            OverlayCommand::Hide
        } else {
            OverlayCommand::Keep
        },
    }
}

impl OverlayWindow {
    /// The overlay starts hidden.
    pub fn new() -> (w: Self)
        ensures
            !w.showing,
    {
        OverlayWindow { showing: false }
    }

    /// Decides the window update for the latest region and records the new
    /// visibility.
    pub fn update(&mut self, latest: Option<OverlayRegion>) -> (c: OverlayCommand)
        ensures
            c == spec_overlay_command(old(self).showing, latest),
            final(self).showing == match latest {
                None => old(self).showing,
                Some(r) => r.4,
            },
    {
        match latest {
            None => OverlayCommand::Keep,
            Some((left, top, right, bottom, zoomed)) => {
                if zoomed {
                    let show = !self.showing;
                    self.showing = true;
                    OverlayCommand::CutHole { show, left, top, right, bottom }
                } else if self.showing {
                    self.showing = false;
                    OverlayCommand::Hide
                } else {
                    OverlayCommand::Keep
                }
            },
        }
    }
}

/// The last of the region updates `drained`, or `None` when there is none.
pub open spec fn spec_last_region(drained: Seq<OverlayRegion>) -> Option<OverlayRegion> {
    if drained.len() == 0 {
        None
    } else {
        Some(drained.last())
    }
}

/// The last region update of `drained`, if any: the one the overlay applies.
pub fn last_region(drained: &Vec<OverlayRegion>) -> (r: Option<OverlayRegion>)
    ensures
        r == spec_last_region(drained@),
{
    let n = drained.len();
    if n == 0 {
        None
    } else {
        Some(drained[n - 1])
    }
}

/// Takes every pending region update off `rx` (up to `DRAIN_LIMIT`), in the
/// order they were sent, and returns them together with the last one, if
/// any arrived.
pub fn latest_region(rx: &Receiver<OverlayRegion>) -> (r: (Vec<OverlayRegion>, Option<OverlayRegion>))
    ensures
        r.1 == spec_last_region(r.0@),
{
    let mut drained: Vec<OverlayRegion> = Vec::new();
    let mut budget: usize = DRAIN_LIMIT;
    while budget > 0
        decreases budget,
    {
        match channel_try_recv(rx) {
            Some(region) => {
                drained.push(region);
                budget = budget - 1;
            },
            None => {
                break;
            },
        }
    }
    let latest = last_region(&drained);
    (drained, latest)
}

/// Of the updates drained in one frame only the last one counts: nothing
/// changes when none arrived, and two batches that end with the same update
/// lead to the same command.
pub proof fn lemma_only_last_region_applies(showing: bool, drained: Seq<OverlayRegion>, other: Seq<OverlayRegion>)
    ensures
        drained.len() == 0 ==> spec_overlay_command(showing, spec_last_region(drained)) == OverlayCommand::Keep,
        drained.len() > 0 ==> spec_overlay_command(showing, spec_last_region(drained))
            == spec_overlay_command(showing, Some(drained.last())),
        drained.len() > 0 && other.len() > 0 && drained.last() == other.last()
            ==> spec_overlay_command(showing, spec_last_region(drained))
            == spec_overlay_command(showing, spec_last_region(other)),
{
}

/// The window is shown exactly while the latest update is zoomed, and is
/// shown again (never twice) when zoom resumes.
pub proof fn lemma_overlay_follows_zoom(showing: bool, r: OverlayRegion)
    ensures
        r.4 ==> (spec_overlay_command(showing, Some(r)) matches OverlayCommand::CutHole { show, .. } && show == !showing),
        !r.4 && showing ==> spec_overlay_command(showing, Some(r)) == OverlayCommand::Hide,
        !r.4 && !showing ==> spec_overlay_command(showing, Some(r)) == OverlayCommand::Keep,
{
}

} // verus!
