use vstd::prelude::*;

verus! {

/// The colours the view paints with.
#[derive(Clone, Copy, Debug, PartialEq, Eq, Structural)]
pub enum Color {
    Black,
    Gray,
    LightGray,
    Green,
    Blue,
    Red,
    Yellow,
}

/// One primitive operation on the drawing surface.
pub enum DrawCommand {
    Text { text: String, x: i64, y: i64, font_size: i64, color: Color },
    Rect { x: i64, y: i64, width: i64, height: i64, color: Color },
}

/// A drawing operation as a mathematical value.
pub enum DrawOp {
    Text { text: Seq<char>, x: int, y: int, font_size: int, color: Color },
    Rect { x: int, y: int, width: int, height: int, color: Color },
}

impl View for DrawCommand {
    type V = DrawOp;

    open spec fn view(&self) -> DrawOp {
        match self {
            DrawCommand::Text { text, x, y, font_size, color } => DrawOp::Text {
                text: text@,
                x: *x as int,
                y: *y as int,
                font_size: *font_size as int,
                color: *color,
            },
            DrawCommand::Rect { x, y, width, height, color } => DrawOp::Rect {
                x: *x as int,
                y: *y as int,
                width: *width as int,
                height: *height as int,
                color: *color,
            },
        }
    }
}

/// The operations that a list of commands performs, in order.
pub open spec fn ops(cmds: Seq<DrawCommand>) -> Seq<DrawOp> {
    cmds.map_values(|c: DrawCommand| c@)
}

/// Appends a command; the operations grow by its view.
pub fn emit(out: &mut Vec<DrawCommand>, cmd: DrawCommand)
    ensures
        ops(final(out)@) == ops(old(out)@).push(cmd@),
{
    let ghost v = cmd@;
    out.push(cmd);
    assert(ops(final(out)@) =~= ops(old(out)@).push(v));
}

} // verus!
