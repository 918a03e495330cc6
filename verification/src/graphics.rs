//! The client of the graphics service: drawing requests and their replies.

use crate::wire::{lemma_split, spec_bits16, spec_signed16, word_from_i16, word_to_i16};
use crate::wire::{spec_lendable, spec_two_words, Buffer, Call, Error, MemoryMessageView};
use crate::wire::{Message, MessageView, Reply};
use vstd::pervasive::unreached;
use vstd::prelude::*;
use vstd::string::StringSliceAdditionalSpecFns;

verus! {

/// A place on a canvas, in pixels.
#[derive(Clone, Copy, Debug, PartialEq, Eq, Structural)]
pub struct Point {
    pub x: i16,
    pub y: i16,
}

impl Point {
    /// The wire word of a point: `x` in bits 0..16, `y` in bits 16..32.
    pub open spec fn spec_word(self) -> int {
        spec_bits16(self.x as int) + spec_bits16(self.y as int) * 0x1_0000
    }

    /// The point that a wire word stands for. Bits from 32 up are ignored.
    pub open spec fn spec_from_word(w: int) -> Point {
        Point {
            x: spec_signed16(w % 0x1_0000) as i16,
            y: spec_signed16((w / 0x1_0000) % 0x1_0000) as i16,
        }
    }

    pub fn new(x: i16, y: i16) -> (p: Point)
        ensures
            p == (Point { x, y }),
    {
        Point { x, y }
    }

    /// Packs the point into one wire word.
    pub fn to_usize(&self) -> (w: usize)
        ensures
            w == self.spec_word(),
            Point::spec_from_word(w as int) == *self,
    {
        proof {
            lemma_point_round_trip(*self);
        }
        word_from_i16(self.x) + word_from_i16(self.y) * 0x1_0000
    }

    /// Unpacks a point from one wire word.
    pub fn from_usize(w: usize) -> (p: Point)
        ensures
            p == Point::spec_from_word(w as int),
    {
        Point { x: word_to_i16(w), y: word_to_i16(w / 0x1_0000) }
    }
}

/// Packing a point into its wire word and unpacking it gives the point back.
pub proof fn lemma_point_round_trip(p: Point)
    ensures
        Point::spec_from_word(p.spec_word()) == p,
{
    let x = spec_bits16(p.x as int);
    let y = spec_bits16(p.y as int);
    lemma_split(x, y, 0x1_0000);
    lemma_split(y, 0, 0x1_0000);
}

#[derive(Clone, Copy, Debug, PartialEq, Eq, Structural)]
pub enum PixelColor {
    Dark,
    Light,
}

/// The two-bit code of an optional color: 0 for none, 1 for dark, 2 for light.
pub open spec fn spec_color_code(c: Option<PixelColor>) -> int {
    match c {
        None => 0,
        Some(PixelColor::Dark) => 1,
        Some(PixelColor::Light) => 2,
    }
}

/// The optional color of a two-bit code. The unused code 3 stands for none.
pub open spec fn spec_color_from_code(code: int) -> Option<PixelColor> {
    if code == 1 {
        Some(PixelColor::Dark)
    } else if code == 2 {
        Some(PixelColor::Light)
    } else {
        None
    }
}

fn color_code(c: Option<PixelColor>) -> (code: usize)
    ensures
        code == spec_color_code(c),
        code < 3,
{
    match c {
        None => 0,
        Some(PixelColor::Dark) => 1,
        Some(PixelColor::Light) => 2,
    }
}

fn color_from_code(code: usize) -> (c: Option<PixelColor>)
    ensures
        c == spec_color_from_code(code as int),
{
    if code == 1 {
        Some(PixelColor::Dark)
    } else if code == 2 {
        Some(PixelColor::Light)
    } else {
        None
    }
}

/// How a shape is filled and outlined.
#[derive(Clone, Copy, Debug, PartialEq, Eq, Structural)]
pub struct DrawStyle {
    pub fill_color: Option<PixelColor>,
    pub stroke_color: Option<PixelColor>,
    pub stroke_width: i16,
}

impl DrawStyle {
    /// The wire word of a style: the fill color's code in bits 0..2, the
    /// stroke color's in bits 2..4, the stroke width in bits 16..32.
    pub open spec fn spec_word(self) -> int {
        spec_color_code(self.fill_color) + spec_color_code(self.stroke_color) * 4 + spec_bits16(
            self.stroke_width as int,
        ) * 0x1_0000
    }

    /// The style that a wire word stands for.
    pub open spec fn spec_from_word(w: int) -> DrawStyle {
        DrawStyle {
            fill_color: spec_color_from_code(w % 4),
            stroke_color: spec_color_from_code((w / 4) % 4),
            stroke_width: spec_signed16((w / 0x1_0000) % 0x1_0000) as i16,
        }
    }

    pub fn new(fill: PixelColor, stroke: PixelColor, width: i16) -> (s: DrawStyle)
        ensures
            s == (DrawStyle {
                fill_color: Some(fill),
                stroke_color: Some(stroke),
                stroke_width: width,
            }),
    {
        DrawStyle { fill_color: Some(fill), stroke_color: Some(stroke), stroke_width: width }
    }

    /// Packs the style into one wire word.
    pub fn to_usize(&self) -> (w: usize)
        ensures
            w == self.spec_word(),
            DrawStyle::spec_from_word(w as int) == *self,
    {
        proof {
            lemma_draw_style_round_trip(*self);
        }
        color_code(self.fill_color) + color_code(self.stroke_color) * 4 + word_from_i16(
            self.stroke_width,
        ) * 0x1_0000
    }

    /// Unpacks a style from one wire word.
    pub fn from_usize(w: usize) -> (s: DrawStyle)
        ensures
            s == DrawStyle::spec_from_word(w as int),
    {
        DrawStyle {
            fill_color: color_from_code(w % 4),
            stroke_color: color_from_code((w / 4) % 4),
            stroke_width: word_to_i16(w / 0x1_0000),
        }
    }
}

/// Packing a style into its wire word and unpacking it gives the style back.
pub proof fn lemma_draw_style_round_trip(s: DrawStyle)
    ensures
        DrawStyle::spec_from_word(s.spec_word()) == s,
{
    let fill = spec_color_code(s.fill_color);
    let stroke = spec_color_code(s.stroke_color);
    let width = spec_bits16(s.stroke_width as int);
    lemma_split(fill, stroke + width * 0x4000, 4);
    lemma_split(stroke, width * 0x1000, 4);
    lemma_split(fill + stroke * 4, width, 0x1_0000);
    lemma_split(width, 0, 0x1_0000);
}

#[derive(Clone, Copy, Debug, PartialEq, Eq, Structural)]
pub struct Line {
    pub start: Point,
    pub end: Point,
    pub style: DrawStyle,
}

impl Line {
    pub fn new_with_style(start: Point, end: Point, style: DrawStyle) -> (l: Line)
        ensures
            l == (Line { start, end, style }),
    {
        Line { start, end, style }
    }
}

#[derive(Clone, Copy, Debug, PartialEq, Eq, Structural)]
pub struct Circle {
    pub center: Point,
    pub radius: i16,
    pub style: DrawStyle,
}

/// A rectangle, by its top left and bottom right corners.
#[derive(Clone, Copy, Debug, PartialEq, Eq, Structural)]
pub struct Rectangle {
    pub tl: Point,
    pub br: Point,
    pub style: DrawStyle,
}

/// The style of a shape that is given none: dark outline of width one on a
/// dark fill.
pub open spec fn spec_default_style() -> DrawStyle {
    DrawStyle {
        fill_color: Some(PixelColor::Dark),
        stroke_color: Some(PixelColor::Dark),
        stroke_width: 1,
    }
}

impl Rectangle {
    pub fn new(tl: Point, br: Point) -> (r: Rectangle)
        ensures
            r == (Rectangle { tl, br, style: spec_default_style() }),
    {
        Rectangle { tl, br, style: DrawStyle::new(PixelColor::Dark, PixelColor::Dark, 1) }
    }
}

#[derive(Clone, Copy, Debug, PartialEq, Eq, Structural)]
pub struct RoundedRectangle {
    pub border: Rectangle,
    pub radius: i16,
}

/// A place in a text layout, in pixels.
#[derive(Clone, Copy, Debug, PartialEq, Eq, Structural)]
pub struct Pt {
    pub x: u32,
    pub y: u32,
}

/// The region that text is clipped to.
#[derive(Clone, Copy, Debug, PartialEq, Eq, Structural)]
pub struct ClipRect {
    pub min: Pt,
    pub max: Pt,
}

/// Where the next glyph goes, and the height of the line it stands in.
#[derive(Clone, Copy, Debug, PartialEq, Eq, Structural)]
pub struct Cursor {
    pub pt: Pt,
    pub line_height: usize,
}

impl Cursor {
    pub fn new(x: u32, y: u32, line_height: usize) -> (c: Cursor)
        ensures
            c == (Cursor { pt: Pt { x, y }, line_height }),
    {
        Cursor { pt: Pt { x, y }, line_height }
    }
}

/// The size and weight of the glyphs that text is drawn in.
#[derive(Clone, Copy, Debug, PartialEq, Eq, Structural)]
pub enum GlyphStyle {
    Small,
    Regular,
    Bold,
}

impl GlyphStyle {
    /// The wire word of a glyph style: its place in the list.
    pub open spec fn spec_word(self) -> usize {
        match self {
            GlyphStyle::Small => 0,
            GlyphStyle::Regular => 1,
            GlyphStyle::Bold => 2,
        }
    }

    /// The glyph style that a wire word stands for; `Regular` for a word that
    /// stands for none.
    pub open spec fn spec_from_word(w: usize) -> GlyphStyle {
        if w == 0 {
            GlyphStyle::Small
        } else if w == 2 {
            GlyphStyle::Bold
        } else {
            GlyphStyle::Regular
        }
    }

    /// The wire word of the glyph style.
    pub fn to_usize(&self) -> (w: usize)
        ensures
            w == self.spec_word(),
            GlyphStyle::spec_from_word(w) == *self,
    {
        match self {
            GlyphStyle::Small => 0,
            GlyphStyle::Regular => 1,
            GlyphStyle::Bold => 2,
        }
    }

    /// The glyph style that a wire word stands for.
    pub fn from_usize(w: usize) -> (g: GlyphStyle)
        ensures
            g == GlyphStyle::spec_from_word(w),
    {
        if w == 0 {
            GlyphStyle::Small
        } else if w == 2 {
            GlyphStyle::Bold
        } else {
            GlyphStyle::Regular
        }
    }
}

/// The name of a canvas.
#[derive(Clone, Copy, Debug, PartialEq, Eq)]
pub struct Gid {
    pub gid: [u32; 4],
}

impl Gid {
    pub fn new(id: [u32; 4]) -> (g: Gid)
        ensures
            g.gid == id,
    {
        Gid { gid: id }
    }
}

/// Where a text view may lie.
#[derive(Clone, Copy, Debug, PartialEq, Eq)]
pub enum TextBounds {
    /// Inside this rectangle.
    BoundingBox(Rectangle),
    /// Growing up and to the left from this bottom right corner, to at most
    /// this width.
    GrowableFromBr(Point, u16),
    /// Growing down and to the right from this top left corner.
    GrowableFromTl(Point, u16),
    /// Growing up and to the right from this bottom left corner.
    GrowableFromBl(Point, u16),
}

/// A piece of text with its layout, as the graphics service draws it.
#[derive(Clone, Debug, PartialEq, Eq)]
pub struct TextView {
    pub canvas: Gid,
    /// Whether the text comes from outside the trusted services.
    pub untrusted: bool,
    pub bounds_hint: TextBounds,
    /// The rectangle that the service laid the text out in, once it has.
    pub bounds_computed: Option<Rectangle>,
    pub style: GlyphStyle,
    /// Where the service stopped drawing.
    pub cursor: Cursor,
    pub draw_border: bool,
    pub margin: Point,
    pub text: String,
}

impl TextView {
    /// A view on `canvas` without text: untrusted, regular glyphs, a border,
    /// and a margin of four pixels.
    pub fn new(canvas: Gid, bounds_hint: TextBounds) -> (tv: TextView)
        ensures
            tv.canvas == canvas,
            tv.untrusted,
            tv.bounds_hint == bounds_hint,
            tv.bounds_computed is None,
            tv.style == GlyphStyle::Regular,
            tv.cursor == (Cursor { pt: Pt { x: 0, y: 0 }, line_height: 0 }),
            tv.draw_border,
            tv.margin == (Point { x: 4, y: 4 }),
            tv.text@ == Seq::<char>::empty(),
    {
        TextView {
            canvas,
            untrusted: true,
            bounds_hint,
            bounds_computed: None,
            style: GlyphStyle::Regular,
            cursor: Cursor::new(0, 0, 0),
            draw_border: true,
            margin: Point::new(4, 4),
            text: String::new(),
        }
    }

    /// Removes the text and leaves the layout.
    pub fn clear_str(&mut self)
        ensures
            final(self).text@ == Seq::<char>::empty(),
            final(self).canvas == old(self).canvas,
            final(self).untrusted == old(self).untrusted,
            final(self).bounds_hint == old(self).bounds_hint,
            final(self).bounds_computed == old(self).bounds_computed,
            final(self).style == old(self).style,
            final(self).cursor == old(self).cursor,
            final(self).draw_border == old(self).draw_border,
            final(self).margin == old(self).margin,
    {
        self.text = String::new();
    }
}

/// The wire number of the request that carries text in a lent region.
pub const TEXT_ID: usize = 12;

/// The wire number of the request that carries a text view in a lent region.
pub const DRAW_TEXT_VIEW_ID: usize = 13;

/// The requests that the graphics service takes, each with its payload.
#[derive(Clone, Debug, PartialEq, Eq)]
pub enum Opcode {
    /// Put what was drawn on the screen.
    Flush,
    Line(Line),
    Rectangle(Rectangle),
    Circle(Circle),
    RoundedRectangle(RoundedRectangle),
    SetGlyphStyle(GlyphStyle),
    SetCursor(Cursor),
    /// Answered with the cursor's place in one word and its line height in
    /// another.
    GetCursor,
    SetStringClipping(ClipRect),
    /// Answered with the screen's width and height.
    ScreenSize,
    /// Answered with the glyph style and its height.
    QueryGlyphStyle,
    /// Answered with the glyph style and its height.
    QueryGlyphProps(GlyphStyle),
    /// Draw this text at the cursor; travels in a lent region.
    Text(String),
    /// Lay out and draw this view; travels in a lent region, and comes back
    /// in it with the computed bounds and the cursor filled in.
    DrawTextView(TextView),
}

impl Opcode {
    /// The wire number of the request: its place in the list.
    pub open spec fn spec_id(self) -> usize {
        match self {
            Opcode::Flush => 0,
            Opcode::Line(_) => 1,
            Opcode::Rectangle(_) => 2,
            Opcode::Circle(_) => 3,
            Opcode::RoundedRectangle(_) => 4,
            Opcode::SetGlyphStyle(_) => 5,
            Opcode::SetCursor(_) => 6,
            Opcode::GetCursor => 7,
            Opcode::SetStringClipping(_) => 8,
            Opcode::ScreenSize => 9,
            Opcode::QueryGlyphStyle => 10,
            Opcode::QueryGlyphProps(_) => 11,
            Opcode::Text(_) => TEXT_ID,
            Opcode::DrawTextView(_) => DRAW_TEXT_VIEW_ID,
        }
    }

    /// Whether the payload fits the four words of a scalar message.
    pub open spec fn spec_scalar(self) -> bool {
        !(self is Text) && !(self is DrawTextView)
    }

    /// Whether the sender waits for an answer.
    pub open spec fn spec_blocking(self) -> bool {
        self is GetCursor || self is ScreenSize || self is QueryGlyphStyle
            || self is QueryGlyphProps
    }

    /// The four payload words of a scalar request; unused words are zero.
    pub open spec fn spec_args(self) -> (int, int, int, int) {
        match self {
            Opcode::Line(l) => (l.start.spec_word(), l.end.spec_word(), l.style.spec_word(), 0),
            Opcode::Rectangle(r) => (r.tl.spec_word(), r.br.spec_word(), r.style.spec_word(), 0),
            Opcode::Circle(c) => (
                c.center.spec_word(),
                spec_bits16(c.radius as int),
                c.style.spec_word(),
                0,
            ),
            Opcode::RoundedRectangle(rr) => (
                rr.border.tl.spec_word(),
                rr.border.br.spec_word(),
                rr.border.style.spec_word(),
                spec_bits16(rr.radius as int),
            ),
            Opcode::SetGlyphStyle(g) => (g.spec_word() as int, 0, 0, 0),
            Opcode::SetCursor(c) => (c.pt.x as int, c.pt.y as int, c.line_height as int, 0),
            Opcode::SetStringClipping(r) => (
                r.min.x as int,
                r.min.y as int,
                r.max.x as int,
                r.max.y as int,
            ),
            Opcode::QueryGlyphProps(g) => (g.spec_word() as int, 0, 0, 0),
            _ => (0, 0, 0, 0),
        }
    }

    /// The message of a scalar request.
    pub open spec fn spec_message(self) -> MessageView {
        let a = self.spec_args();
        if self.spec_blocking() {
            MessageView::blocking_scalar(
                self.spec_id(),
                a.0 as usize,
                a.1 as usize,
                a.2 as usize,
                a.3 as usize,
            )
        } else {
            MessageView::scalar(
                self.spec_id(),
                a.0 as usize,
                a.1 as usize,
                a.2 as usize,
                a.3 as usize,
            )
        }
    }

    /// The wire number of the request.
    pub fn id(&self) -> (id: usize)
        ensures
            id == self.spec_id(),
    {
        match self {
            Opcode::Flush => 0,
            Opcode::Line(_) => 1,
            Opcode::Rectangle(_) => 2,
            Opcode::Circle(_) => 3,
            Opcode::RoundedRectangle(_) => 4,
            Opcode::SetGlyphStyle(_) => 5,
            Opcode::SetCursor(_) => 6,
            Opcode::GetCursor => 7,
            Opcode::SetStringClipping(_) => 8,
            Opcode::ScreenSize => 9,
            Opcode::QueryGlyphStyle => 10,
            Opcode::QueryGlyphProps(_) => 11,
            Opcode::Text(_) => TEXT_ID,
            Opcode::DrawTextView(_) => DRAW_TEXT_VIEW_ID,
        }
    }

    /// The message of a scalar request: its wire number, its payload in up
    /// to four words, blocking where an answer is due.
    fn to_message(&self) -> (m: Message)
        requires
            self.spec_scalar(),
        ensures
            m@ == self.spec_message(),
    {
        let id = self.id();
        match self {
            Opcode::Line(l) => Message::new_scalar(
                id,
                l.start.to_usize(),
                l.end.to_usize(),
                l.style.to_usize(),
                0,
            ),
            Opcode::Rectangle(r) => Message::new_scalar(
                id,
                r.tl.to_usize(),
                r.br.to_usize(),
                r.style.to_usize(),
                0,
            ),
            Opcode::Circle(c) => Message::new_scalar(
                id,
                c.center.to_usize(),
                word_from_i16(c.radius),
                c.style.to_usize(),
                0,
            ),
            Opcode::RoundedRectangle(rr) => Message::new_scalar(
                id,
                rr.border.tl.to_usize(),
                rr.border.br.to_usize(),
                rr.border.style.to_usize(),
                word_from_i16(rr.radius),
            ),
            Opcode::SetGlyphStyle(g) => Message::new_scalar(id, g.to_usize(), 0, 0, 0),
            Opcode::SetCursor(c) => Message::new_scalar(
                id,
                c.pt.x as usize,
                c.pt.y as usize,
                c.line_height,
                0,
            ),
            Opcode::SetStringClipping(r) => Message::new_scalar(
                id,
                r.min.x as usize,
                r.min.y as usize,
                r.max.x as usize,
                r.max.y as usize,
            ),
            Opcode::QueryGlyphProps(g) => Message::new_blocking_scalar(id, g.to_usize(), 0, 0, 0),
            Opcode::GetCursor | Opcode::ScreenSize | Opcode::QueryGlyphStyle => {
                Message::new_blocking_scalar(id, 0, 0, 0, 0)
            },
            _ => Message::new_scalar(id, 0, 0, 0, 0),
        }
    }
}

/// A scalar request suspends its sender exactly when an answer is due, and
/// carries the wire number of its opcode.
pub proof fn lemma_request_blocks_for_its_answer(op: Opcode)
    requires
        op.spec_scalar(),
    ensures
        op.spec_message().is_blocking() == op.spec_blocking(),
        op.spec_message().id() == op.spec_id(),
{
}

/// The request to draw `line`, to send on `cid`.
pub fn draw_line(cid: u32, line: Line) -> (call: Call)
    ensures
        call.sends(cid, Opcode::Line(line).spec_message()),
{
    Call { conn: cid, message: Opcode::Line(line).to_message() }
}

/// The request to draw `circ`, to send on `cid`.
pub fn draw_circle(cid: u32, circ: Circle) -> (call: Call)
    ensures
        call.sends(cid, Opcode::Circle(circ).spec_message()),
{
    Call { conn: cid, message: Opcode::Circle(circ).to_message() }
}

/// The request to draw `rect`, to send on `cid`.
pub fn draw_rectangle(cid: u32, rect: Rectangle) -> (call: Call)
    ensures
        call.sends(cid, Opcode::Rectangle(rect).spec_message()),
{
    Call { conn: cid, message: Opcode::Rectangle(rect).to_message() }
}

/// The request to draw `rr`, to send on `cid`.
pub fn draw_rounded_rectangle(cid: u32, rr: RoundedRectangle) -> (call: Call)
    ensures
        call.sends(cid, Opcode::RoundedRectangle(rr).spec_message()),
{
    Call { conn: cid, message: Opcode::RoundedRectangle(rr).to_message() }
}

/// The request to put what was drawn on the screen, to send on `cid`.
pub fn flush(cid: u32) -> (call: Call)
    ensures
        call.sends(cid, Opcode::Flush.spec_message()),
{
    Call { conn: cid, message: Opcode::Flush.to_message() }
}

/// The request to clip text to `r`, to send on `cid`.
pub fn set_string_clipping(cid: u32, r: ClipRect) -> (call: Call)
    ensures
        call.sends(cid, Opcode::SetStringClipping(r).spec_message()),
{
    Call { conn: cid, message: Opcode::SetStringClipping(r).to_message() }
}

/// The request to move the cursor to `c`, to send on `cid`.
pub fn set_cursor(cid: u32, c: Cursor) -> (call: Call)
    ensures
        call.sends(cid, Opcode::SetCursor(c).spec_message()),
{
    Call { conn: cid, message: Opcode::SetCursor(c).to_message() }
}

/// The request for the cursor, to send on `cid`; `get_cursor_reply` reads
/// the answer.
pub fn get_cursor(cid: u32) -> (call: Call)
    ensures
        call.sends(cid, Opcode::GetCursor.spec_message()),
{
    Call { conn: cid, message: Opcode::GetCursor.to_message() }
}

/// A signed 16-bit value widened to 32 bits, the sign filling the upper half.
pub open spec fn spec_widen(v: i16) -> u32 {
    if v < 0 {
        (v + 0x1_0000_0000) as u32
    } else {
        v as u32
    }
}

fn widen(v: i16) -> (w: u32)
    ensures
        w == spec_widen(v),
{
    if v < 0 {
        (v as i64 + 0x1_0000_0000) as u32
    } else {
        v as u32
    }
}

/// The cursor that two answer words stand for: its place packed as a point
/// in the first, its line height in the second.
pub open spec fn spec_cursor_of(place: usize, line_height: usize) -> Cursor {
    let p = Point::spec_from_word(place as int);
    Cursor { pt: Pt { x: spec_widen(p.x), y: spec_widen(p.y) }, line_height }
}

/// Reads the answer to `get_cursor`. A kernel error is passed on. An answer
/// of another shape than two words means that the two ends were built from
/// different opcode tables, and must not be handed in.
pub fn get_cursor_reply(response: Result<Reply, Error>) -> (r: Result<Cursor, Error>)
    requires
        spec_two_words(response),
    ensures
        response matches Ok(Reply::Scalar2(place, h)) ==> r == Ok::<Cursor, Error>(
            spec_cursor_of(place, h),
        ),
        response matches Err(e) ==> r == Err::<Cursor, Error>(e),
{
    match response {
        Ok(Reply::Scalar2(place, h)) => {
            let p = Point::from_usize(place);
            Ok(Cursor::new(widen(p.x), widen(p.y), h))
        },
        Ok(_) => unreached(),
        Err(e) => Err(e),
    }
}

/// The request to set the glyph style, to send on `cid`.
pub fn set_glyph_style(cid: u32, glyph: GlyphStyle) -> (call: Call)
    ensures
        call.sends(cid, Opcode::SetGlyphStyle(glyph).spec_message()),
{
    Call { conn: cid, message: Opcode::SetGlyphStyle(glyph).to_message() }
}

/// The request for the screen's size, to send on `cid`; `screen_size_reply`
/// reads the answer.
pub fn screen_size(cid: u32) -> (call: Call)
    ensures
        call.sends(cid, Opcode::ScreenSize.spec_message()),
{
    Call { conn: cid, message: Opcode::ScreenSize.to_message() }
}

/// Reads the answer to `screen_size`: the low 16 bits of each word, as the
/// coordinates of the screen's far corner.
pub fn screen_size_reply(response: Result<Reply, Error>) -> (r: Result<Point, Error>)
    requires
        spec_two_words(response),
    ensures
        response matches Ok(Reply::Scalar2(x, y)) ==> r == Ok::<Point, Error>(
            Point {
                x: spec_signed16(x as int % 0x1_0000) as i16,
                y: spec_signed16(y as int % 0x1_0000) as i16,
            },
        ),
        response matches Err(e) ==> r == Err::<Point, Error>(e),
{
    match response {
        Ok(Reply::Scalar2(x, y)) => Ok(Point::new(word_to_i16(x), word_to_i16(y))),
        Ok(_) => unreached(),
        Err(e) => Err(e),
    }
}

/// The request for the glyph style in use, to send on `cid`;
/// `query_glyph_reply` reads the answer.
pub fn query_glyph(cid: u32) -> (call: Call)
    ensures
        call.sends(cid, Opcode::QueryGlyphStyle.spec_message()),
{
    Call { conn: cid, message: Opcode::QueryGlyphStyle.to_message() }
}

/// Reads the answer to `query_glyph`: the glyph style and its height.
pub fn query_glyph_reply(response: Result<Reply, Error>) -> (r: Result<(GlyphStyle, usize), Error>)
    requires
        spec_two_words(response),
    ensures
        response matches Ok(Reply::Scalar2(glyph, h)) ==> r == Ok::<(GlyphStyle, usize), Error>(
            (GlyphStyle::spec_from_word(glyph), h),
        ),
        response matches Err(e) ==> r == Err::<(GlyphStyle, usize), Error>(e),
{
    match response {
        Ok(Reply::Scalar2(glyph, h)) => Ok((GlyphStyle::from_usize(glyph), h)),
        Ok(_) => unreached(),
        Err(e) => Err(e),
    }
}

/// The request for the height of `glyph`, to send on `cid`;
/// `glyph_height_hint_reply` reads the answer.
pub fn glyph_height_hint(cid: u32, glyph: GlyphStyle) -> (call: Call)
    ensures
        call.sends(cid, Opcode::QueryGlyphProps(glyph).spec_message()),
{
    Call { conn: cid, message: Opcode::QueryGlyphProps(glyph).to_message() }
}

/// Reads the answer to `glyph_height_hint`: the height, from the second word.
pub fn glyph_height_hint_reply(response: Result<Reply, Error>) -> (r: Result<usize, Error>)
    requires
        spec_two_words(response),
    ensures
        response matches Ok(Reply::Scalar2(_, h)) ==> r == Ok::<usize, Error>(h),
        response matches Err(e) ==> r == Err::<usize, Error>(e),
{
    match response {
        Ok(Reply::Scalar2(_, h)) => Ok(h),
        Ok(_) => unreached(),
        Err(e) => Err(e),
    }
}

/// The most bytes of text that one `draw_string` request carries.
pub const MAX_STRING_LEN: usize = 4096;

/// The request to draw the text `s`, whose archive is `archive` with its root
/// at `offset`, to send on `cid`. Text longer than `MAX_STRING_LEN` bytes is
/// refused with `AccessDenied`, and an archive that cannot be lent with
/// `InternalError`; nothing is lent then.
pub fn draw_string(cid: u32, s: &str, archive: Vec<u8>, offset: usize) -> (r: Result<Call, Error>)
    ensures
        match r {
            Ok(call) => s.spec_bytes().len() <= MAX_STRING_LEN && spec_lendable(
                archive@.len(),
                offset,
            ) && call.sends(
                cid,
                MessageView::Borrow(
                    MemoryMessageView { id: TEXT_ID, buf: archive@, offset },
                ),
            ),
            Err(e) => if s.spec_bytes().len() > MAX_STRING_LEN {
                e == Error::AccessDenied
            } else {
                !spec_lendable(archive@.len(), offset) && e == Error::InternalError
            },
        },
{
    if s.as_bytes().len() > MAX_STRING_LEN {
        return Err(Error::AccessDenied);
    }
    match Buffer::from_archive(archive, offset) {
        Ok(buffer) => Ok(buffer.lend(cid, TEXT_ID)),
        Err(e) => Err(e),
    }
}

/// The request to lay out and draw a text view, whose archive as a
/// `DrawTextView` request is `archive` with its root at `offset`, to send on
/// `cid`. The region is lent for the service to write the result into. An
/// archive that cannot be lent is refused with `InternalError`.
pub fn draw_textview(cid: u32, archive: Vec<u8>, offset: usize) -> (r: Result<Call, Error>)
    ensures
        match r {
            Ok(call) => spec_lendable(archive@.len(), offset) && call.sends(
                cid,
                MessageView::MutableBorrow(
                    MemoryMessageView { id: DRAW_TEXT_VIEW_ID, buf: archive@, offset },
                ),
            ),
            Err(e) => !spec_lendable(archive@.len(), offset) && e
                == Error::InternalError,
        },
{
    match Buffer::from_archive(archive, offset) {
        Ok(buffer) => Ok(buffer.lend_mut(cid, DRAW_TEXT_VIEW_ID)),
        Err(e) => Err(e),
    }
}

/// Takes over what the service wrote into the region lent by
/// `draw_textview`: the computed bounds and the cursor of the returned view.
/// `returned` is the request found in the region once it came back, or the
/// error of the lend or of reading the region, which is passed on with `tv`
/// left as it was. A request of another kind than `DrawTextView` means that
/// the two ends were built from different opcode tables, and must not be
/// handed in.
pub fn draw_textview_reply(tv: &mut TextView, returned: Result<Opcode, Error>) -> (r: Result<
    (),
    Error,
>)
    requires
        returned matches Ok(op) ==> op is DrawTextView,
    ensures
        returned matches Ok(Opcode::DrawTextView(result)) ==> r == Ok::<(), Error>(())
            && *final(tv) == (TextView {
            bounds_computed: result.bounds_computed,
            cursor: result.cursor,
            ..*old(tv)
        }),
        returned matches Err(e) ==> r == Err::<(), Error>(e) && *final(tv) == *old(tv),
{
    match returned {
        Ok(Opcode::DrawTextView(result)) => {
            tv.bounds_computed = result.bounds_computed;
            tv.cursor = result.cursor;
            Ok(())
        },
        Ok(_) => unreached(),
        Err(e) => Err(e),
    }
}

} // verus!
