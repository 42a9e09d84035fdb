//! Per-window log of drawing operations, filtered against the active clip region.
use vstd::prelude::*;

use crate::types::{sat, Color, Rect, Vec2};

verus! {

/// Horizontal placement of a label relative to its position.
#[derive(Clone, Copy, Debug, PartialEq, Eq, Structural)]
pub enum Aligment {
    Left,
    Center,
}

impl Default for Aligment {
    fn default() -> (r: Aligment)
        ensures
            r == Aligment::Left,
    {
        Aligment::Left
    }
}

/// How a label is drawn.
#[derive(Clone, Copy, Debug, PartialEq, Eq, Structural)]
pub struct LabelParams {
    pub color: Color,
    pub aligment: Aligment,
}

/// Opaque black, the color of a label when none is given.
pub open spec fn spec_black() -> Color {
    Color { r: 0, g: 0, b: 0, a: 255 }
}

impl Default for LabelParams {
    fn default() -> (r: LabelParams)
        ensures
            r == (LabelParams { color: spec_black(), aligment: Aligment::Left }),
    {
        LabelParams { color: Color::from_rgba(0, 0, 0, 255), aligment: Aligment::Left }
    }
}

impl From<Option<Color>> for LabelParams {
    fn from(color: Option<Color>) -> (r: LabelParams) {
        let color = match color {
            Some(c) => c,
            None => Color::from_rgba(0, 0, 0, 255),
        };
        LabelParams { color, aligment: Aligment::Left }
    }
}

impl vstd::std_specs::convert::FromSpecImpl<Option<Color>> for LabelParams {
    open spec fn obeys_from_spec() -> bool {
        true
    }

    open spec fn from_spec(color: Option<Color>) -> LabelParams {
        LabelParams {
            color: match color {
                Some(c) => c,
                None => spec_black(),
            },
            aligment: Aligment::Left,
        }
    }
}

impl From<Color> for LabelParams {
    fn from(color: Color) -> (r: LabelParams) {
        LabelParams { color, aligment: Aligment::Left }
    }
}

impl vstd::std_specs::convert::FromSpecImpl<Color> for LabelParams {
    open spec fn obeys_from_spec() -> bool {
        true
    }

    open spec fn from_spec(color: Color) -> LabelParams {
        LabelParams { color, aligment: Aligment::Left }
    }
}

impl From<(Color, Aligment)> for LabelParams {
    fn from(pair: (Color, Aligment)) -> (r: LabelParams) {
        LabelParams { color: pair.0, aligment: pair.1 }
    }
}

impl vstd::std_specs::convert::FromSpecImpl<(Color, Aligment)> for LabelParams {
    open spec fn obeys_from_spec() -> bool {
        true
    }

    open spec fn from_spec(pair: (Color, Aligment)) -> LabelParams {
        LabelParams { color: pair.0, aligment: pair.1 }
    }
}

/// One recorded drawing operation.
#[derive(Debug, Clone)]
#[allow(inconsistent_fields)]
pub enum DrawCommand {
    DrawLabel { position: Vec2, label: String, params: LabelParams },
    DrawCharacter { position: Vec2, character: char, color: Color },
    DrawRect { rect: Rect, stroke: Option<Color>, fill: Option<Color> },
    DrawLine { start: Vec2, end: Vec2, color: Color },
    DrawRawTexture { position: Vec2, size: Vec2, texture: u32 },
    Clip { rect: Option<Rect> },
}

/// A draw command as plain values: a label is its text as characters.
#[allow(inconsistent_fields)]
pub enum CommandView {
    Label { position: Vec2, label: Seq<char>, params: LabelParams },
    Character { position: Vec2, character: char, color: Color },
    Rect { rect: Rect, stroke: Option<Color>, fill: Option<Color> },
    Line { start: Vec2, end: Vec2, color: Color },
    RawTexture { position: Vec2, size: Vec2, texture: u32 },
    Clip { rect: Option<Rect> },
}

/// The optional rect moved by `v`.
pub open spec fn offset_clip(rect: Option<Rect>, v: Vec2) -> Option<Rect> {
    match rect {
        Some(r) => Some(r.spec_offset(v)),
        None => None,
    }
}

impl CommandView {
    /// The command drawn `v` further right and down; sizes, texts and colors stay.
    pub open spec fn offset(self, v: Vec2) -> CommandView {
        match self {
            CommandView::Label { position, label, params } => CommandView::Label {
                position: position.spec_add(v),
                label,
                params,
            },
            CommandView::Character { position, character, color } => CommandView::Character {
                position: position.spec_add(v),
                character,
                color,
            },
            CommandView::Rect { rect, stroke, fill } => CommandView::Rect {
                rect: rect.spec_offset(v),
                stroke,
                fill,
            },
            CommandView::Line { start, end, color } => CommandView::Line {
                start: start.spec_add(v),
                end: end.spec_add(v),
                color,
            },
            CommandView::RawTexture { position, size, texture } => CommandView::RawTexture {
                position: position.spec_add(v),
                size,
                texture,
            },
            CommandView::Clip { rect } => CommandView::Clip { rect: offset_clip(rect, v) },
        }
    }
}

impl View for DrawCommand {
    type V = CommandView;

    open spec fn view(&self) -> CommandView {
        match self {
            DrawCommand::DrawLabel { position, label, params } => CommandView::Label {
                position: *position,
                label: label@,
                params: *params,
            },
            DrawCommand::DrawCharacter { position, character, color } => CommandView::Character {
                position: *position,
                character: *character,
                color: *color,
            },
            DrawCommand::DrawRect { rect, stroke, fill } => CommandView::Rect {
                rect: *rect,
                stroke: *stroke,
                fill: *fill,
            },
            DrawCommand::DrawLine { start, end, color } => CommandView::Line {
                start: *start,
                end: *end,
                color: *color,
            },
            DrawCommand::DrawRawTexture { position, size, texture } => CommandView::RawTexture {
                position: *position,
                size: *size,
                texture: *texture,
            },
            DrawCommand::Clip { rect } => CommandView::Clip { rect: *rect },
        }
    }
}

impl DrawCommand {
    /// A copy of the command moved by `offset`.
    pub fn offset(&self, offset: Vec2) -> (r: DrawCommand)
        ensures
            r@ == self@.offset(offset),
    {
        match self {
            DrawCommand::DrawLabel { position, label, params } => DrawCommand::DrawLabel {
                position: position.add(offset),
                label: label.clone(),
                params: *params,
            },
            DrawCommand::DrawCharacter { position, character, color } => {
                DrawCommand::DrawCharacter {
                    position: position.add(offset),
                    character: *character,
                    color: *color,
                }
            },
            DrawCommand::DrawRect { rect, stroke, fill } => DrawCommand::DrawRect {
                rect: rect.offset(offset),
                stroke: *stroke,
                fill: *fill,
            },
            DrawCommand::DrawLine { start, end, color } => DrawCommand::DrawLine {
                start: start.add(offset),
                end: end.add(offset),
                color: *color,
            },
            DrawCommand::DrawRawTexture { position, size, texture } => {
                DrawCommand::DrawRawTexture {
                    position: position.add(offset),
                    size: *size,
                    texture: *texture,
                }
            },
            DrawCommand::Clip { rect } => DrawCommand::Clip {
                rect: match rect {
                    Some(r) => Some(r.offset(offset)),
                    None => None,
                },
            },
        }
    }
}

/// The area around a label's position that must meet the clip region for it to be kept.
pub open spec fn label_probe(position: Vec2) -> Rect {
    Rect { x: sat(position.x - 150) as i32, y: sat(position.y - 25) as i32, w: 200, h: 50 }
}

/// Whether a shape whose extent is `r` can be seen through the clip region.
pub open spec fn clip_admits(clip: Option<Rect>, r: Rect) -> bool {
    match clip {
        Some(c) => c.spec_overlaps(r),
        None => true,
    }
}

/// Whether a line between two points can be seen through the clip region: the
/// clip region meets the box that bounds the line.
pub open spec fn clip_admits_line(clip: Option<Rect>, start: Vec2, end: Vec2) -> bool {
    match clip {
        Some(c) => {
            let (lo_x, hi_x) = if start.x <= end.x { (start.x, end.x) } else { (end.x, start.x) };
            let (lo_y, hi_y) = if start.y <= end.y { (start.y, end.y) } else { (end.y, start.y) };
            c.x <= hi_x && c.spec_right() >= lo_x && c.y <= hi_y && c.spec_bottom() >= lo_y
        },
        None => true,
    }
}

/// An ordered log of draw commands and the clip region in force at its end.
#[derive(Debug)]
pub struct DrawList {
    pub commands: Vec<DrawCommand>,
    pub clipping_zone: Option<Rect>,
}

impl DrawList {
    /// The recorded commands as plain values.
    pub open spec fn log(&self) -> Seq<CommandView> {
        self.commands@.map_values(|c: DrawCommand| c@)
    }

    /// An empty list with no clipping.
    pub fn new() -> (r: DrawList)
        ensures
            r.log() == Seq::<CommandView>::empty(),
            r.clipping_zone.is_none(),
    {
        DrawList { commands: Vec::new(), clipping_zone: None }
    }

    /// Forgets every command and the clip region.
    pub fn clear(&mut self)
        ensures
            final(self).log() == Seq::<CommandView>::empty(),
            final(self).clipping_zone.is_none(),
    {
        self.commands.clear();
        self.clipping_zone = None;
        assert(self.log() =~= Seq::<CommandView>::empty());
    }

    /// Appends a command as it is.
    pub fn add_command(&mut self, cmd: DrawCommand)
        ensures
            final(self).log() == old(self).log().push(cmd@),
            final(self).clipping_zone == old(self).clipping_zone,
    {
        self.commands.push(cmd);
        assert(self.log() =~= old(self).log().push(cmd@));
    }

    /// Records a label unless it lies far outside the clip region.
    pub fn draw_label(&mut self, label: &str, position: Vec2, params: LabelParams)
        ensures
            final(self).clipping_zone == old(self).clipping_zone,
            final(self).log() == if clip_admits(old(self).clipping_zone, label_probe(position)) {
                old(self).log().push(CommandView::Label { position, label: label@, params })
            } else {
                old(self).log()
            },
    {
        let probe = Rect::new(
            crate::types::saturate(position.x as i64 - 150),
            crate::types::saturate(position.y as i64 - 25),
            200,
            50,
        );
        if let Some(clip) = self.clipping_zone {
            if !clip.overlaps(&probe) {
                return;
            }
        }
        self.add_command(DrawCommand::DrawLabel { position, label: label.to_owned(), params });
    }

    /// Records one character unless it lies far outside the clip region.
    pub fn draw_character(&mut self, character: char, position: Vec2, color: Color)
        ensures
            final(self).clipping_zone == old(self).clipping_zone,
            final(self).log() == if clip_admits(old(self).clipping_zone, label_probe(position)) {
                old(self).log().push(CommandView::Character { position, character, color })
            } else {
                old(self).log()
            },
    {
        let probe = Rect::new(
            crate::types::saturate(position.x as i64 - 150),
            crate::types::saturate(position.y as i64 - 25),
            200,
            50,
        );
        if let Some(clip) = self.clipping_zone {
            if !clip.overlaps(&probe) {
                return;
            }
        }
        self.add_command(DrawCommand::DrawCharacter { position, character, color });
    }

    /// Records a textured quad unless it lies outside the clip region.
    pub fn draw_raw_texture(&mut self, texture: u32, position: Vec2, size: Vec2)
        ensures
            final(self).clipping_zone == old(self).clipping_zone,
            final(self).log() == if clip_admits(
                old(self).clipping_zone,
                Rect { x: position.x, y: position.y, w: size.x, h: size.y },
            ) {
                old(self).log().push(CommandView::RawTexture { position, size, texture })
            } else {
                old(self).log()
            },
    {
        if let Some(clip) = self.clipping_zone {
            if !clip.overlaps(&Rect::from_parts(position, size)) {
                return;
            }
        }
        self.add_command(DrawCommand::DrawRawTexture { position, size, texture });
    }

    /// Records a rect unless it lies outside the clip region.
    pub fn draw_rect(&mut self, rect: Rect, stroke: Option<Color>, fill: Option<Color>)
        ensures
            final(self).clipping_zone == old(self).clipping_zone,
            final(self).log() == if clip_admits(old(self).clipping_zone, rect) {
                old(self).log().push(CommandView::Rect { rect, stroke, fill })
            } else {
                old(self).log()
            },
    {
        if let Some(clip) = self.clipping_zone {
            if !clip.overlaps(&rect) {
                return;
            }
        }
        self.add_command(DrawCommand::DrawRect { rect, stroke, fill });
    }

    /// Records a line unless the box that bounds it lies outside the clip region.
    pub fn draw_line(&mut self, start: Vec2, end: Vec2, color: Color)
        ensures
            final(self).clipping_zone == old(self).clipping_zone,
            final(self).log() == if clip_admits_line(old(self).clipping_zone, start, end) {
                old(self).log().push(CommandView::Line { start, end, color })
            } else {
                old(self).log()
            },
    {
        if let Some(clip) = self.clipping_zone {
            let (lo_x, hi_x) = if start.x <= end.x { (start.x, end.x) } else { (end.x, start.x) };
            let (lo_y, hi_y) = if start.y <= end.y { (start.y, end.y) } else { (end.y, start.y) };
            if !(clip.left() <= hi_x as i64 && clip.right() >= lo_x as i64 && clip.top() <= hi_y as i64
                && clip.bottom() >= lo_y as i64) {
                return;
            }
        }
        self.add_command(DrawCommand::DrawLine { start, end, color });
    }

    /// Sets the clip region for what follows, and records the change.
    pub fn clip(&mut self, rect: Option<Rect>)
        ensures
            final(self).clipping_zone == rect,
            final(self).log() == old(self).log().push(CommandView::Clip { rect }),
    {
        self.clipping_zone = rect;
        self.add_command(DrawCommand::Clip { rect });
    }
}

} // verus!
