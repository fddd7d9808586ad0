//! From drawing commands to a closed outline in segment-pair form.
//!
//! An outline is a flat list of points in which each consecutive pair is one
//! line segment. A pen walks over the commands of a path: a move only
//! relocates the pen, a line records the pen's position before and after it.
//! When at least one line was drawn, a last segment from the first recorded
//! point to the pen's final position closes the loop.

use crate::vec2::Vec2;
use vstd::prelude::*;

verus! {

/// How the coordinates of a command are to be read.
#[derive(Clone, Copy, Debug, PartialEq, Eq, Structural)]
pub enum Placement {
    /// The coordinates are the new pen position.
    Absolute,
    /// The coordinates are an offset from the current pen position.
    Relative,
}

/// One drawing command of a path.
#[derive(Clone, Copy, Debug, PartialEq, Eq, Structural)]
pub enum PathCommand {
    /// Relocate the pen without drawing.
    Move(Placement, Vec2),
    /// Draw a straight line to the new pen position.
    Line(Placement, Vec2),
    /// Any other command (curves, arcs, close); it leaves no trace.
    Other,
}

/// What the pen has done so far.
pub struct Pen {
    /// Where the pen is.
    pub cursor: Vec2,
    /// Where the first line started, once a line has been drawn.
    pub first: Option<Vec2>,
    /// The segment endpoints recorded so far.
    pub points: Seq<Vec2>,
}

/// Where the pen goes from `cursor` for coordinates `to`.
pub open spec fn spec_destination(cursor: Vec2, placement: Placement, to: Vec2) -> Vec2 {
    match placement {
        Placement::Absolute => to,
        Placement::Relative => cursor.plus(to),
    }
}

/// Where the pen goes from `cursor` for coordinates `to`.
#[verifier::when_used_as_spec(spec_destination)]
pub fn destination(cursor: Vec2, placement: Placement, to: Vec2) -> (r: Vec2)
    ensures
        r == spec_destination(cursor, placement, to),
{
    match placement {
        Placement::Absolute => to,
        Placement::Relative => cursor.plus(to),
    }
}

/// The pen before any command: at the origin, nothing recorded.
pub open spec fn fresh_pen() -> Pen {
    Pen { cursor: Vec2::zero(), first: None, points: Seq::empty() }
}

/// The pen after one more command.
pub open spec fn pen_step(pen: Pen, command: PathCommand) -> Pen {
    match command {
        PathCommand::Move(placement, to) => Pen {
            cursor: destination(pen.cursor, placement, to),
            ..pen
        },
        PathCommand::Line(placement, to) => {
            let next = destination(pen.cursor, placement, to);
            Pen {
                cursor: next,
                first: if pen.first is None {
                    Some(pen.cursor)
                } else {
                    pen.first
                },
                points: pen.points.push(pen.cursor).push(next),
            }
        },
        PathCommand::Other => pen,
    }
}

/// The pen after the first `count` commands.
pub open spec fn pen_after(commands: Seq<PathCommand>, count: int) -> Pen
    decreases count,
{
    if count <= 0 {
        fresh_pen()
    } else {
        pen_step(pen_after(commands, count - 1), commands[count - 1])
    }
}

/// The outline that the commands trace: the recorded segments, followed by
/// the closing segment if a line was drawn.
pub open spec fn outline_of(commands: Seq<PathCommand>) -> Seq<Vec2> {
    let pen = pen_after(commands, commands.len() as int);
    match pen.first {
        Some(start) => pen.points.push(start).push(pen.cursor),
        None => pen.points,
    }
}

/// How many of the first `count` commands are lines.
pub open spec fn line_count(commands: Seq<PathCommand>, count: int) -> nat
    decreases count,
{
    if count <= 0 {
        0
    } else {
        line_count(commands, count - 1) + if commands[count - 1] is Line {
            1nat
        } else {
            0nat
        }
    }
}

/// The pen has recorded two points per line, and remembers a first point
/// exactly when a line has been drawn.
pub proof fn pen_records_two_points_per_line(commands: Seq<PathCommand>, count: int)
    requires
        0 <= count <= commands.len(),
    ensures
        pen_after(commands, count).points.len() == 2 * line_count(commands, count),
        pen_after(commands, count).first is Some <==> line_count(commands, count) > 0,
    decreases count,
{
    if count > 0 {
        pen_records_two_points_per_line(commands, count - 1);
    }
}

/// An outline holds two points per line command plus the closing pair, and
/// is empty when no line was drawn. Its length is therefore always even.
pub proof fn outline_length(commands: Seq<PathCommand>)
    ensures
        line_count(commands, commands.len() as int) == 0 ==> outline_of(commands).len() == 0,
        line_count(commands, commands.len() as int) > 0 ==> outline_of(commands).len() == 2
            * line_count(commands, commands.len() as int) + 2,
        outline_of(commands).len() % 2 == 0,
{
    pen_records_two_points_per_line(commands, commands.len() as int);
}

/// Traces `commands` into an outline in segment-pair form.
pub fn svg_to_vector(commands: &Vec<PathCommand>) -> (outline: Vec<Vec2>)
    ensures
        outline@ == outline_of(commands@),
        outline.len() % 2 == 0,
        line_count(commands@, commands.len() as int) == 0 ==> outline.len() == 0,
{
    let mut points: Vec<Vec2> = Vec::new();
    let mut cursor = Vec2::zero();
    let mut first: Option<Vec2> = None;
    let mut i: usize = 0;
    while i < commands.len()
        invariant
            i <= commands.len(),
            pen_after(commands@, i as int) == (Pen { cursor, first, points: points@ }),
        decreases commands.len() - i,
    {
        match commands[i] {
            PathCommand::Move(placement, to) => {
                cursor = destination(cursor, placement, to);
            },
            PathCommand::Line(placement, to) => {
                if first.is_none() {
                    first = Some(cursor);
                }
                points.push(cursor);
                cursor = destination(cursor, placement, to);
                points.push(cursor);
            },
            PathCommand::Other => {},
        }
        i += 1;
    }
    if let Some(start) = first {
        points.push(start);
        points.push(cursor);
    }
    proof {
        outline_length(commands@);
    }
    points
}

} // verus!
