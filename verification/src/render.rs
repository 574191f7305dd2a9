//! What is painted: the calls on the drawing surface for one step and for the
//! completion, as plain values that a host carries out in order.

use vstd::prelude::*;
use vstd::string::*;
use crate::geometry::{Point, Position, MAX_X, MAX_Y, SCALE};
use crate::status::{color_text, color_text_spec, elapsed_seconds, elapsed_text, elapsed_text_spec};
use crate::status::{steps_text, steps_text_spec, whole_seconds};

verus! {

/// Where the texts start, from the left border, for the completion message
/// and for the steps that are left.
pub const TEXT_X: u64 = 20 * SCALE;

/// Where the text of the elapsed time starts, from the left border.
pub const ELAPSED_X: u64 = 150 * SCALE;

/// The line of the completion message, from the top border.
pub const COMPLETION_Y: u64 = 20 * SCALE;

/// The line of the status texts, from the top border: in the strip below the
/// canvas.
pub const STATUS_Y: u64 = 750 * SCALE;

/// One call on the drawing surface. Places and lengths are in lattice units.
#[derive(Debug, PartialEq, Eq)]
pub enum DrawCommand {
    /// Sets the fill style for what follows.
    SetFillStyle { style: String },
    /// Fills a rectangle.
    FillRect { x: u64, y: u64, width: u64, height: u64 },
    /// Clears a rectangle.
    ClearRect { x: u64, y: u64, width: u64, height: u64 },
    /// Writes a text that starts at a place.
    FillText { text: String, x: u64, y: u64 },
}

/// The mathematical value of a [`DrawCommand`].
pub enum DrawOp {
    SetFillStyle { style: Seq<char> },
    FillRect { x: int, y: int, width: int, height: int },
    ClearRect { x: int, y: int, width: int, height: int },
    FillText { text: Seq<char>, x: int, y: int },
}

impl View for DrawCommand {
    type V = DrawOp;

    open spec fn view(&self) -> DrawOp {
        match *self {
            DrawCommand::SetFillStyle { style } => DrawOp::SetFillStyle { style: style@ },
            DrawCommand::FillRect { x, y, width, height } => DrawOp::FillRect {
                x: x as int,
                y: y as int,
                width: width as int,
                height: height as int,
            },
            DrawCommand::ClearRect { x, y, width, height } => DrawOp::ClearRect {
                x: x as int,
                y: y as int,
                width: width as int,
                height: height as int,
            },
            DrawCommand::FillText { text, x, y } => DrawOp::FillText {
                text: text@,
                x: x as int,
                y: y as int,
            },
        }
    }
}

/// The values of a list of commands, in order.
pub open spec fn ops(commands: Seq<DrawCommand>) -> Seq<DrawOp> {
    commands.map_values(|command: DrawCommand| command@)
}

/// What one step paints: a mark of one pixel at the new point in the drawn
/// colour, then, in black, the status line anew: the strip below the canvas
/// cleared, the steps that are left and the whole seconds that have passed.
pub open spec fn step_ops(point: Position, color: nat, remaining: nat, elapsed_ms: nat) -> Seq<
    DrawOp,
> {
    seq![
        DrawOp::SetFillStyle { style: color_text_spec(color) },
        DrawOp::FillRect { x: point.x, y: point.y, width: SCALE as int, height: SCALE as int },
        DrawOp::SetFillStyle { style: "#000"@ },
        DrawOp::ClearRect { x: 0, y: MAX_Y as int, width: MAX_X as int, height: MAX_Y as int },
        DrawOp::FillText {
            text: steps_text_spec(remaining),
            x: TEXT_X as int,
            y: STATUS_Y as int,
        },
        DrawOp::FillText {
            text: elapsed_text_spec(whole_seconds(elapsed_ms)),
            x: ELAPSED_X as int,
            y: STATUS_Y as int,
        },
    ]
}

/// What the completion paints: the one message.
pub open spec fn completion_ops() -> Seq<DrawOp> {
    seq![DrawOp::FillText { text: "All done!"@, x: TEXT_X as int, y: COMPLETION_Y as int }]
}

/// The commands that paint one step: the mark at `point` in `color`, and the
/// status line for `remaining` steps left after `elapsed_ms` milliseconds.
pub fn step_commands(point: Point, color: u64, remaining: u32, elapsed_ms: u64) -> (commands: Vec<
    DrawCommand,
>)
    ensures
        ops(commands@) == step_ops(point@, color as nat, remaining as nat, elapsed_ms as nat),
{
    let mut commands: Vec<DrawCommand> = Vec::new();
    commands.push(DrawCommand::SetFillStyle { style: color_text(color) });
    commands.push(
        DrawCommand::FillRect { x: point.x(), y: point.y(), width: SCALE, height: SCALE },
    );
    commands.push(DrawCommand::SetFillStyle { style: String::from_str("#000") });
    commands.push(DrawCommand::ClearRect { x: 0, y: MAX_Y, width: MAX_X, height: MAX_Y });
    commands.push(
        DrawCommand::FillText { text: steps_text(remaining), x: TEXT_X, y: STATUS_Y },
    );
    commands.push(
        DrawCommand::FillText {
            text: elapsed_text(elapsed_seconds(elapsed_ms)),
            x: ELAPSED_X,
            y: STATUS_Y,
        },
    );
    assert(ops(commands@) =~= step_ops(
        point@,
        color as nat,
        remaining as nat,
        elapsed_ms as nat,
    ));
    commands
}

/// The commands that paint the completion message.
pub fn completion_commands() -> (commands: Vec<DrawCommand>)
    ensures
        ops(commands@) == completion_ops(),
{
    let mut commands: Vec<DrawCommand> = Vec::new();
    commands.push(
        DrawCommand::FillText { text: String::from_str("All done!"), x: TEXT_X, y: COMPLETION_Y },
    );
    assert(ops(commands@) =~= completion_ops());
    commands
}

} // verus!
