use ipc_bridge::graphics::{draw_circle, draw_line, draw_rectangle, draw_rounded_rectangle};
use ipc_bridge::graphics::{draw_string, draw_textview, draw_textview_reply, flush, get_cursor};
use ipc_bridge::graphics::{get_cursor_reply, glyph_height_hint, glyph_height_hint_reply};
use ipc_bridge::graphics::{query_glyph, query_glyph_reply, screen_size, screen_size_reply};
use ipc_bridge::graphics::{set_cursor, set_glyph_style, set_string_clipping};
use ipc_bridge::graphics::{Circle, ClipRect, Cursor, DrawStyle, Gid, GlyphStyle, Line, Opcode};
use ipc_bridge::graphics::{PixelColor, Point, Pt, Rectangle, RoundedRectangle, TextBounds, TextView};
use ipc_bridge::graphics::MAX_STRING_LEN;
use ipc_bridge::wire::{Error, MemoryMessage, Message, Reply, ScalarMessage};

fn scalar(id: usize, arg1: usize, arg2: usize, arg3: usize, arg4: usize) -> Message {
    Message::Scalar(ScalarMessage { id, arg1, arg2, arg3, arg4 })
}

fn blocking(id: usize, arg1: usize) -> Message {
    Message::BlockingScalar(ScalarMessage { id, arg1, arg2: 0, arg3: 0, arg4: 0 })
}

fn dark() -> DrawStyle {
    DrawStyle::new(PixelColor::Dark, PixelColor::Dark, 1)
}

fn sample_view() -> TextView {
    let mut tv = TextView::new(
        Gid::new([1, 2, 3, 4]),
        TextBounds::BoundingBox(Rectangle::new(Point::new(0, 0), Point::new(100, 20))),
    );
    tv.text = String::from("hello");
    tv
}

#[test]
fn point_word_holds_both_coordinates() {
    assert_eq!(Point::new(3, 5).to_usize(), 0x0005_0003);
    assert_eq!(Point::new(0, 0).to_usize(), 0);
    assert_eq!(Point::new(-1, 0).to_usize(), 0x0000_ffff);
    assert_eq!(Point::new(0, -1).to_usize(), 0xffff_0000);
    assert_eq!(Point::new(i16::MIN, i16::MAX).to_usize(), 0x7fff_8000);
}

#[test]
fn point_is_read_from_a_word() {
    assert_eq!(Point::from_usize(0x0005_0003), Point { x: 3, y: 5 });
    assert_eq!(Point::from_usize(0xffff_fffe), Point { x: -2, y: -1 });
    assert_eq!(Point::from_usize(0x8000_7fff), Point { x: i16::MAX, y: i16::MIN });
}

#[test]
fn point_round_trip() {
    let values = [i16::MIN, -336, -1, 0, 1, 336, i16::MAX];
    for x in values {
        for y in values {
            let p = Point::new(x, y);
            assert_eq!(Point::from_usize(p.to_usize()), p);
        }
    }
}

#[test]
fn draw_style_word_holds_colors_and_width() {
    assert_eq!(dark().to_usize(), 0x0001_0005);
    assert_eq!(DrawStyle::new(PixelColor::Light, PixelColor::Dark, 2).to_usize(), 0x0002_0006);
    let bare = DrawStyle { fill_color: None, stroke_color: None, stroke_width: 0 };
    assert_eq!(bare.to_usize(), 0);
    let outline = DrawStyle { fill_color: None, stroke_color: Some(PixelColor::Light), stroke_width: -1 };
    assert_eq!(outline.to_usize(), 0xffff_0008);
}

#[test]
fn draw_style_round_trip() {
    let colors = [None, Some(PixelColor::Dark), Some(PixelColor::Light)];
    for fill_color in colors {
        for stroke_color in colors {
            for stroke_width in [i16::MIN, -1, 0, 1, 7, i16::MAX] {
                let s = DrawStyle { fill_color, stroke_color, stroke_width };
                assert_eq!(DrawStyle::from_usize(s.to_usize()), s);
            }
        }
    }
}

#[test]
fn draw_style_unused_color_code_is_none() {
    assert_eq!(
        DrawStyle::from_usize(0x0001_000f),
        DrawStyle { fill_color: None, stroke_color: None, stroke_width: 1 }
    );
}

#[test]
fn glyph_style_words() {
    assert_eq!(GlyphStyle::Small.to_usize(), 0);
    assert_eq!(GlyphStyle::Regular.to_usize(), 1);
    assert_eq!(GlyphStyle::Bold.to_usize(), 2);
    assert_eq!(GlyphStyle::from_usize(0), GlyphStyle::Small);
    assert_eq!(GlyphStyle::from_usize(1), GlyphStyle::Regular);
    assert_eq!(GlyphStyle::from_usize(2), GlyphStyle::Bold);
}

#[test]
fn glyph_style_of_unknown_word_is_regular() {
    assert_eq!(GlyphStyle::from_usize(3), GlyphStyle::Regular);
    assert_eq!(GlyphStyle::from_usize(usize::MAX), GlyphStyle::Regular);
}

#[test]
fn opcode_ids_are_positions() {
    let tv = sample_view();
    let line = Line::new_with_style(Point::new(0, 0), Point::new(1, 1), dark());
    let rect = Rectangle::new(Point::new(0, 0), Point::new(1, 1));
    let ops = vec![
        Opcode::Flush,
        Opcode::Line(line),
        Opcode::Rectangle(rect),
        Opcode::Circle(Circle { center: Point::new(0, 0), radius: 1, style: dark() }),
        Opcode::RoundedRectangle(RoundedRectangle { border: rect, radius: 1 }),
        Opcode::SetGlyphStyle(GlyphStyle::Bold),
        Opcode::SetCursor(Cursor::new(0, 0, 0)),
        Opcode::GetCursor,
        Opcode::SetStringClipping(ClipRect { min: Pt { x: 0, y: 0 }, max: Pt { x: 1, y: 1 } }),
        Opcode::ScreenSize,
        Opcode::QueryGlyphStyle,
        Opcode::QueryGlyphProps(GlyphStyle::Small),
        Opcode::Text(String::from("t")),
        Opcode::DrawTextView(tv),
    ];
    for (i, op) in ops.iter().enumerate() {
        assert_eq!(op.id(), i);
    }
}

#[test]
fn line_request() {
    let line = Line::new_with_style(Point::new(1, 2), Point::new(3, 4), dark());
    let call = draw_line(11, line);
    assert_eq!(call.conn, 11);
    assert_eq!(call.message, scalar(1, 0x0002_0001, 0x0004_0003, 0x0001_0005, 0));
}

#[test]
fn circle_request() {
    let call = draw_circle(11, Circle { center: Point::new(10, 20), radius: 5, style: dark() });
    assert_eq!(call.conn, 11);
    assert_eq!(call.message, scalar(3, 0x0014_000a, 5, 0x0001_0005, 0));
}

#[test]
fn rectangle_request() {
    let call = draw_rectangle(12, Rectangle::new(Point::new(0, 0), Point::new(335, 535)));
    assert_eq!(call.conn, 12);
    assert_eq!(call.message, scalar(2, 0, 0x0217_014f, 0x0001_0005, 0));
}

#[test]
fn rounded_rectangle_request() {
    let rr = RoundedRectangle {
        border: Rectangle::new(Point::new(1, 1), Point::new(2, 2)),
        radius: 8,
    };
    let call = draw_rounded_rectangle(12, rr);
    assert_eq!(call.message, scalar(4, 0x0001_0001, 0x0002_0002, 0x0001_0005, 8));
}

#[test]
fn flush_request() {
    let call = flush(1);
    assert_eq!(call.conn, 1);
    assert_eq!(call.message, scalar(0, 0, 0, 0, 0));
}

#[test]
fn string_clipping_request() {
    let r = ClipRect { min: Pt { x: 1, y: 2 }, max: Pt { x: 300, y: 400 } };
    assert_eq!(set_string_clipping(1, r).message, scalar(8, 1, 2, 300, 400));
}

#[test]
fn set_cursor_request() {
    assert_eq!(set_cursor(1, Cursor::new(5, 6, 14)).message, scalar(6, 5, 6, 14, 0));
}

#[test]
fn set_glyph_style_request() {
    assert_eq!(set_glyph_style(1, GlyphStyle::Bold).message, scalar(5, 2, 0, 0, 0));
}

#[test]
fn queries_block() {
    assert_eq!(get_cursor(4).message, blocking(7, 0));
    assert_eq!(screen_size(4).message, blocking(9, 0));
    assert_eq!(query_glyph(4).message, blocking(10, 0));
    assert_eq!(glyph_height_hint(4, GlyphStyle::Bold).message, blocking(11, 2));
    assert!(get_cursor(4).message.is_blocking());
    assert_eq!(get_cursor(4).conn, 4);
}

#[test]
fn drawing_requests_do_not_block() {
    assert!(!flush(1).message.is_blocking());
    assert!(!set_glyph_style(1, GlyphStyle::Small).message.is_blocking());
}

#[test]
fn cursor_is_read_from_two_words() {
    assert_eq!(
        get_cursor_reply(Ok(Reply::Scalar2(0x0006_0005, 14))),
        Ok(Cursor { pt: Pt { x: 5, y: 6 }, line_height: 14 })
    );
}

#[test]
fn cursor_of_negative_place_is_sign_extended() {
    assert_eq!(
        get_cursor_reply(Ok(Reply::Scalar2(0xffff_fffe, 0))),
        Ok(Cursor { pt: Pt { x: 0xffff_fffe, y: 0xffff_ffff }, line_height: 0 })
    );
}

#[test]
fn cursor_reply_passes_the_error_on() {
    assert_eq!(get_cursor_reply(Err(Error::ServerNotFound)), Err(Error::ServerNotFound));
}

#[test]
fn screen_size_is_read_from_two_words() {
    assert_eq!(screen_size_reply(Ok(Reply::Scalar2(336, 536))), Ok(Point { x: 336, y: 536 }));
    assert_eq!(screen_size_reply(Ok(Reply::Scalar2(0x1_0001, 0xffff))), Ok(Point { x: 1, y: -1 }));
    assert_eq!(screen_size_reply(Err(Error::Other(13))), Err(Error::Other(13)));
}

#[test]
fn glyph_query_reply() {
    assert_eq!(query_glyph_reply(Ok(Reply::Scalar2(2, 16))), Ok((GlyphStyle::Bold, 16)));
    assert_eq!(query_glyph_reply(Ok(Reply::Scalar2(0, 12))), Ok((GlyphStyle::Small, 12)));
    assert_eq!(query_glyph_reply(Ok(Reply::Scalar2(9, 15))), Ok((GlyphStyle::Regular, 15)));
    assert_eq!(query_glyph_reply(Err(Error::ServerNotFound)), Err(Error::ServerNotFound));
}

#[test]
fn glyph_height_is_the_second_word() {
    assert_eq!(glyph_height_hint_reply(Ok(Reply::Scalar2(1, 15))), Ok(15));
    assert_eq!(glyph_height_hint_reply(Ok(Reply::Scalar2(15, 1))), Ok(1));
    assert_eq!(glyph_height_hint_reply(Err(Error::ServerNotFound)), Err(Error::ServerNotFound));
}

#[test]
fn string_is_lent() {
    let call = draw_string(3, "hello", vec![9, 9, 9], 3).unwrap();
    assert_eq!(call.conn, 3);
    assert_eq!(
        call.message,
        Message::Borrow(MemoryMessage { id: 12, buf: vec![9, 9, 9], offset: 3 })
    );
}

#[test]
fn string_too_long_is_denied() {
    let s = "y".repeat(MAX_STRING_LEN + 1);
    assert_eq!(draw_string(3, &s, vec![0; 16], 0), Err(Error::AccessDenied));
    let s = "y".repeat(MAX_STRING_LEN);
    assert!(draw_string(3, &s, vec![0; 16], 0).is_ok());
}

#[test]
fn string_archive_over_the_bound_is_not_lent() {
    assert_eq!(draw_string(3, "hello", vec![0; 4097], 0), Err(Error::InternalError));
}

#[test]
fn textview_is_lent_for_writing() {
    let call = draw_textview(3, vec![1, 2, 3, 4, 5], 5).unwrap();
    assert_eq!(call.conn, 3);
    assert_eq!(
        call.message,
        Message::MutableBorrow(MemoryMessage { id: 13, buf: vec![1, 2, 3, 4, 5], offset: 5 })
    );
}

#[test]
fn textview_archive_over_the_bound_is_not_lent() {
    assert_eq!(draw_textview(3, vec![0; 5000], 0), Err(Error::InternalError));
    assert_eq!(draw_textview(3, vec![0; 10], 11), Err(Error::InternalError));
}

#[test]
fn new_textview_defaults() {
    let bounds = TextBounds::GrowableFromTl(Point::new(1, 2), 100);
    let tv = TextView::new(Gid::new([1, 2, 3, 4]), bounds);
    assert_eq!(tv.canvas, Gid { gid: [1, 2, 3, 4] });
    assert!(tv.untrusted);
    assert_eq!(tv.bounds_hint, bounds);
    assert_eq!(tv.bounds_computed, None);
    assert_eq!(tv.style, GlyphStyle::Regular);
    assert_eq!(tv.cursor, Cursor { pt: Pt { x: 0, y: 0 }, line_height: 0 });
    assert!(tv.draw_border);
    assert_eq!(tv.margin, Point { x: 4, y: 4 });
    assert_eq!(tv.text, "");
}

#[test]
fn clear_str_leaves_the_layout() {
    let mut tv = sample_view();
    tv.cursor = Cursor::new(1, 2, 3);
    let mut expected = tv.clone();
    expected.text = String::new();
    tv.clear_str();
    assert_eq!(tv, expected);
}

#[test]
fn textview_takes_bounds_and_cursor_from_the_reply() {
    let mut tv = sample_view();
    let mut result = sample_view();
    result.bounds_computed = Some(Rectangle::new(Point::new(0, 0), Point::new(50, 12)));
    result.cursor = Cursor::new(50, 0, 12);
    result.text = String::from("changed by the service");
    result.draw_border = false;
    let mut expected = sample_view();
    expected.bounds_computed = result.bounds_computed;
    expected.cursor = result.cursor;
    assert_eq!(draw_textview_reply(&mut tv, Ok(Opcode::DrawTextView(result))), Ok(()));
    assert_eq!(tv, expected);
}

#[test]
fn textview_is_untouched_by_a_failed_lend() {
    let mut tv = sample_view();
    assert_eq!(draw_textview_reply(&mut tv, Err(Error::ServerNotFound)), Err(Error::ServerNotFound));
    assert_eq!(tv, sample_view());
    assert_eq!(draw_textview_reply(&mut tv, Err(Error::InternalError)), Err(Error::InternalError));
    assert_eq!(tv, sample_view());
}

#[test]
fn rectangle_has_the_default_style() {
    let r = Rectangle::new(Point::new(1, 2), Point::new(3, 4));
    assert_eq!(r, Rectangle { tl: Point { x: 1, y: 2 }, br: Point { x: 3, y: 4 }, style: dark() });
}
