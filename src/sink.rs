//! What the virtual pointer is sent for each operation.
//!
//! Every operation is a short frame of input events closed by a sync report;
//! the device itself only writes them.

use vstd::prelude::*;
use crate::translator::SinkOp;

verus! {

/// One input event of a frame. Motion is in whole units.
#[derive(Clone, Copy, Debug, PartialEq, Eq, Structural)]
pub enum InputFrame {
    /// The left button, pressed or released.
    LeftButton { pressed: bool },
    RelX(i32),
    RelY(i32),
    /// The report that closes a frame.
    Sync,
}

/// The frame for `op`: button then sync; or relative X, relative Y, sync.
pub open spec fn frame_of(op: SinkOp) -> Seq<InputFrame> {
    match op {
        SinkOp::Press => seq![InputFrame::LeftButton { pressed: true }, InputFrame::Sync],
        SinkOp::Release => seq![InputFrame::LeftButton { pressed: false }, InputFrame::Sync],
        SinkOp::Move { dx, dy } => seq![InputFrame::RelX(dx), InputFrame::RelY(dy), InputFrame::Sync],
    }
}

/// The events to write to the device for `op`, in order.
pub fn frame(op: SinkOp) -> (r: Vec<InputFrame>)
    ensures
        r@ == frame_of(op),
{
    let r = match op {
        SinkOp::Press => vec![InputFrame::LeftButton { pressed: true }, InputFrame::Sync],
        SinkOp::Release => vec![InputFrame::LeftButton { pressed: false }, InputFrame::Sync],
        SinkOp::Move { dx, dy } => vec![InputFrame::RelX(dx), InputFrame::RelY(dy), InputFrame::Sync],
    };
    assert(r@ =~= frame_of(op));
    r
}

/// Whether the device holds the button after writing `op`, given whether it
/// held it before.
pub open spec fn held_after(held: bool, op: SinkOp) -> bool {
    match op {
        SinkOp::Press => true,
        SinkOp::Release => false,
        SinkOp::Move { .. } => held,
    }
}

/// The device's own record of the button after a successful write of `op`.
pub fn button_after(held: bool, op: SinkOp) -> (r: bool)
    ensures
        r == held_after(held, op),
{
    match op {
        SinkOp::Press => true,
        SinkOp::Release => false,
        SinkOp::Move { .. } => held,
    }
}

} // verus!
