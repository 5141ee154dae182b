use vstd::prelude::*;

use crate::Error;
use crate::frame::{Frame, encodings_compatible, frame_transformed, iterate};

verus! {

/// The direct render path: iterate the whole requested extent with the
/// encodings bound to the command. This legacy path never receives float
/// buffers, so a float pair fails like any other unsupported pair.
pub fn render(input: &Frame, output: &mut Frame, extent: usize, amount: i64) -> (r: Result<
    (),
    Error,
>)
    requires
        input.wf(),
        old(output).wf(),
        input.width == old(output).width,
        input.height == old(output).height,
        extent <= old(output).height,
    ensures
        final(output).wf(),
        final(output).width == old(output).width,
        final(output).height == old(output).height,
        encodings_compatible(input.data, old(output).data, false) ==> r == Ok::<(), Error>(())
            && frame_transformed(*input, *old(output), *final(output), extent as int, amount as int),
        !encodings_compatible(input.data, old(output).data, false) ==> r == Err::<(), Error>(
            Error::BadCallbackParameter,
        ) && *final(output) == *old(output),
{
    iterate(input, output, extent, amount, false)
}

/// The smart render iteration: the same dispatch, but the smart path is the
/// only one that receives float buffers, so the float pair is processed
/// directly in canonical space.
pub fn smart_render_iterate(input: &Frame, output: &mut Frame, extent: usize, amount: i64) -> (r:
    Result<(), Error>)
    requires
        input.wf(),
        old(output).wf(),
        input.width == old(output).width,
        input.height == old(output).height,
        extent <= old(output).height,
    ensures
        final(output).wf(),
        final(output).width == old(output).width,
        final(output).height == old(output).height,
        encodings_compatible(input.data, old(output).data, true) ==> r == Ok::<(), Error>(())
            && frame_transformed(*input, *old(output), *final(output), extent as int, amount as int),
        !encodings_compatible(input.data, old(output).data, true) ==> r == Err::<(), Error>(
            Error::BadCallbackParameter,
        ) && *final(output) == *old(output),
{
    iterate(input, output, extent, amount, true)
}

/// An axis-aligned rectangle in layer coordinates, as the host describes
/// regions of interest.
#[derive(Clone, Copy, Debug, PartialEq, Eq, Structural)]
pub struct Rect {
    pub left: i32,
    pub top: i32,
    pub right: i32,
    pub bottom: i32,
}

/// A rectangle with no area.
pub open spec fn rect_empty(r: Rect) -> bool {
    r.right <= r.left || r.bottom <= r.top
}

/// The union of two region rectangles: an empty side leaves the other
/// unchanged; otherwise the smallest rectangle covering both.
pub open spec fn rect_union(a: Rect, b: Rect) -> Rect {
    if rect_empty(a) {
        b
    } else if rect_empty(b) {
        a
    } else {
        Rect {
            left: if a.left <= b.left {
                a.left
            } else {
                b.left
            },
            top: if a.top <= b.top {
                a.top
            } else {
                b.top
            },
            right: if a.right >= b.right {
                a.right
            } else {
                b.right
            },
            bottom: if a.bottom >= b.bottom {
                a.bottom
            } else {
                b.bottom
            },
        }
    }
}

/// Union two region rectangles.
pub fn union_rect(a: Rect, b: Rect) -> (r: Rect)
    ensures
        r == rect_union(a, b),
{
    let a_empty = a.right <= a.left || a.bottom <= a.top;
    let b_empty = b.right <= b.left || b.bottom <= b.top;
    if a_empty {
        b
    } else if b_empty {
        a
    } else {
        Rect {
            left: if a.left <= b.left {
                a.left
            } else {
                b.left
            },
            top: if a.top <= b.top {
                a.top
            } else {
                b.top
            },
            right: if a.right >= b.right {
                a.right
            } else {
                b.right
            },
            bottom: if a.bottom >= b.bottom {
                a.bottom
            } else {
                b.bottom
            },
        }
    }
}

/// What the host reports for a checked-out input layer.
#[derive(Clone, Copy, Debug, PartialEq, Eq, Structural)]
pub struct CheckoutResult {
    pub result_rect: Rect,
    pub max_result_rect: Rect,
}

/// The pre-render response under negotiation: how much of the frame the
/// effect declares as affected.
#[derive(Clone, Copy, Debug, PartialEq, Eq, Structural)]
pub struct PreRenderOutput {
    pub result_rect: Rect,
    pub max_result_rect: Rect,
}

/// The pre-render negotiation step: the full input layer was requested for
/// the output region; on a successful checkout both returned rectangles are
/// unioned into the response (the effect is global, so the full rectangle is
/// declared). On checkout failure the step fails with `InterruptCancel`, the
/// response is left untouched, and no rendering proceeds for this frame.
pub fn pre_render(checkout: Option<CheckoutResult>, response: &mut PreRenderOutput) -> (r: Result<
    (),
    Error,
>)
    ensures
        match checkout {
            Some(c) => r == Ok::<(), Error>(()) && final(response).result_rect == rect_union(
                old(response).result_rect,
                c.result_rect,
            ) && final(response).max_result_rect == rect_union(
                old(response).max_result_rect,
                c.max_result_rect,
            ),
            None => r == Err::<(), Error>(Error::InterruptCancel)
                && *final(response) == *old(response),
        },
{
    match checkout {
        Some(c) => {
            response.result_rect = union_rect(response.result_rect, c.result_rect);
            response.max_result_rect = union_rect(response.max_result_rect, c.max_result_rect);
            Ok(())
        },
        None => Err(Error::InterruptCancel),
    }
}

/// The next host call a smart-render driver must make.
#[derive(Clone, Copy, Debug, PartialEq, Eq, Structural)]
pub enum SmartAction {
    /// Check out the input layer pixels (layer index 0).
    CheckoutPixels,
    /// Check out the output buffer.
    CheckoutOutput,
    /// Read the current amount parameter.
    ReadAmount,
    /// Run the iteration over the output extent.
    Iterate,
    /// Check the input layer pixels back in.
    CheckinPixels,
    /// The request is complete; report the outcome to the host.
    Finished,
}

/// The smart-render request state machine. It tells the driver which host
/// call to make next and is told each call's outcome; it decides the order of
/// the calls and the result returned to the host. Its scoped-resource
/// contract: every successful pixel checkout is paired with exactly one
/// checkin before the request finishes, on every exit path, success or
/// failure.
#[derive(Clone, Copy, Debug)]
pub struct SmartRender {
    /// The next call to make.
    pub action: SmartAction,
    /// The result to report, once decided; the first failure wins.
    pub pending: Result<(), Error>,
    /// Whether the input layer pixels were ever checked out.
    pub pixels_checked_out: bool,
    /// Whether the input layer pixels are held right now.
    pub pixels_held: bool,
    /// How many checkins were issued.
    pub checkins: u8,
}

impl SmartRender {
    /// The state machine's invariant: pixels are held from a successful
    /// checkout until the one checkin, and a finished request holds nothing.
    pub open spec fn wf(self) -> bool {
        &&& self.checkins <= 1
        &&& (!self.pixels_checked_out ==> self.checkins == 0)
        &&& (self.pixels_held <==> (self.pixels_checked_out && self.checkins == 0))
        &&& (self.action == SmartAction::CheckoutPixels ==> !self.pixels_checked_out)
        &&& (self.action == SmartAction::CheckoutOutput ==> self.pixels_held)
        &&& (self.action == SmartAction::ReadAmount ==> self.pixels_held)
        &&& (self.action == SmartAction::Iterate ==> self.pixels_held)
        &&& (self.action == SmartAction::CheckinPixels ==> self.pixels_held)
        &&& (self.action == SmartAction::Finished ==> !self.pixels_held)
        &&& (self.action == SmartAction::Finished ==> self.checkins == (
            if self.pixels_checked_out {
                1int
            } else {
                0int
            }))
    }

    /// A fresh smart-render request: the first call checks out the input
    /// layer pixels.
    pub fn new() -> (m: SmartRender)
        ensures
            m.wf(),
            m.action == SmartAction::CheckoutPixels,
            !m.pixels_checked_out,
            m.checkins == 0,
    {
        SmartRender {
            action: SmartAction::CheckoutPixels,
            pending: Ok(()),
            pixels_checked_out: false,
            pixels_held: false,
            checkins: 0,
        }
    }

    /// Record the outcome of the pixel checkout. On success the output buffer
    /// is checked out next; on failure the request finishes with the host's
    /// error, and since nothing was checked out, nothing is checked in.
    pub fn on_pixels(&mut self, result: Result<(), Error>)
        requires
            old(self).wf(),
            old(self).action == SmartAction::CheckoutPixels,
        ensures
            final(self).wf(),
            final(self).checkins == old(self).checkins,
            match result {
                Ok(()) => final(self).action == SmartAction::CheckoutOutput
                    && final(self).pixels_checked_out,
                Err(e) => final(self).action == SmartAction::Finished && final(self).pending
                    == Err::<(), Error>(e) && !final(self).pixels_checked_out,
            },
    {
        match result {
            Ok(_) => {
                self.action = SmartAction::CheckoutOutput;
                self.pixels_checked_out = true;
                self.pixels_held = true;
            },
            Err(e) => {
                self.action = SmartAction::Finished;
                self.pending = Err(e);
            },
        }
    }

    /// Record the outcome of the output checkout. On failure the held pixels
    /// are still checked in before the request finishes with the error.
    pub fn on_output(&mut self, result: Result<(), Error>)
        requires
            old(self).wf(),
            old(self).action == SmartAction::CheckoutOutput,
        ensures
            final(self).wf(),
            final(self).checkins == old(self).checkins,
            final(self).pixels_checked_out == old(self).pixels_checked_out,
            match result {
                Ok(()) => final(self).action == SmartAction::ReadAmount && final(self).pending
                    == old(self).pending,
                Err(e) => final(self).action == SmartAction::CheckinPixels && final(self).pending
                    == Err::<(), Error>(e),
            },
    {
        match result {
            Ok(_) => {
                self.action = SmartAction::ReadAmount;
            },
            Err(e) => {
                self.action = SmartAction::CheckinPixels;
                self.pending = Err(e);
            },
        }
    }

    /// Record the outcome of the parameter read. On failure the held pixels
    /// are still checked in before the request finishes with the error.
    pub fn on_amount(&mut self, result: Result<(), Error>)
        requires
            old(self).wf(),
            old(self).action == SmartAction::ReadAmount,
        ensures
            final(self).wf(),
            final(self).checkins == old(self).checkins,
            final(self).pixels_checked_out == old(self).pixels_checked_out,
            match result {
                Ok(()) => final(self).action == SmartAction::Iterate
                    && final(self).pending == old(self).pending,
                Err(e) => final(self).action == SmartAction::CheckinPixels && final(self).pending
                    == Err::<(), Error>(e),
            },
    {
        match result {
            Ok(_) => {
                self.action = SmartAction::Iterate;
            },
            Err(e) => {
                self.action = SmartAction::CheckinPixels;
                self.pending = Err(e);
            },
        }
    }

    /// Record the outcome of the iteration. Whatever it was, the held pixels
    /// are checked in next; a failure becomes the pending result.
    pub fn on_iterated(&mut self, result: Result<(), Error>)
        requires
            old(self).wf(),
            old(self).action == SmartAction::Iterate,
        ensures
            final(self).wf(),
            final(self).checkins == old(self).checkins,
            final(self).pixels_checked_out == old(self).pixels_checked_out,
            final(self).action == SmartAction::CheckinPixels,
            final(self).pending == (match result {
                Ok(()) => old(self).pending,
                Err(e) => Err::<(), Error>(e),
            }),
    {
        self.action = SmartAction::CheckinPixels;
        if let Err(e) = result {
            self.pending = Err(e);
        }
    }

    /// Record the checkin of the input layer pixels: the request finishes.
    /// An earlier failure takes precedence over a checkin failure.
    pub fn on_checked_in(&mut self, result: Result<(), Error>)
        requires
            old(self).wf(),
            old(self).action == SmartAction::CheckinPixels,
        ensures
            final(self).wf(),
            final(self).action == SmartAction::Finished,
            final(self).checkins == old(self).checkins + 1,
            final(self).pixels_checked_out == old(self).pixels_checked_out,
            final(self).pending == (match old(self).pending {
                Ok(()) => result,
                Err(e) => Err::<(), Error>(e),
            }),
    {
        self.action = SmartAction::Finished;
        self.pixels_held = false;
        self.checkins = self.checkins + 1;
        if let Ok(_) = self.pending {
            self.pending = result;
        }
    }

    /// The result reported to the host for a finished request.
    pub fn outcome(&self) -> (r: Result<(), Error>)
        requires
            self.action == SmartAction::Finished,
        ensures
            r == self.pending,
    {
        self.pending
    }
}

/// Law: every finished smart-render request checked the input layer pixels
/// back in exactly once if their checkout succeeded — even when a later step
/// failed — and never checked in pixels it did not check out.
pub proof fn lemma_checkin_discipline(m: SmartRender)
    requires
        m.wf(),
        m.action == SmartAction::Finished,
    ensures
        m.pixels_checked_out ==> m.checkins == 1,
        !m.pixels_checked_out ==> m.checkins == 0,
{
}

} // verus!
