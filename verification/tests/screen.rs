use renderer::frame::canvas::ScreenImage;
use renderer::frame::PartImage;
use renderer::movers::blit;
use renderer::pixel::{black, blue, green, red, transparent, white, PartPixel, ScreenPixel};
use renderer::frame::fill;
use renderer::screen::{blend_part, compose, Drawable, PartContent, Screen};
use renderer::widgets::message::{
    dispatch, msg_handler, ClockMessage, Dispatch, FlyerMessage, GifMessage, MoveMessage,
    NeoClockMessage, PartChange, WidgetMessage,
};
use renderer::widgets::solid_widget::SolidWidget;
use renderer::widgets::{Widget, WidgetConf};

fn solid(x: u32, y: u32, width: u32, height: u32, color: PartPixel) -> WidgetConf {
    WidgetConf { x, y, visible: None, widget: Widget::Solid(SolidWidget { width, height, color }) }
}

fn rgb(r: u8, g: u8, b: u8) -> ScreenPixel {
    ScreenPixel { r, g, b }
}

fn screen_with_frames(width: u32, height: u32, widgets: Vec<WidgetConf>) -> Screen {
    let mut screen = Screen::new(width, height, &widgets);
    for (idx, conf) in widgets.iter().enumerate() {
        if let Widget::Solid(s) = &conf.widget {
            screen.publish(idx, Some(s.tick()));
        }
    }
    screen
}

fn all_pixels_are(canvas: &ScreenImage, color: ScreenPixel) -> bool {
    for x in 0..canvas.width() {
        for y in 0..canvas.height() {
            if canvas.get_pixel(x, y) != color {
                return false;
            }
        }
    }
    true
}

#[test]
fn test_image() {
    let parts = vec![
        solid(0, 0, 32, 32, PartPixel { r: 255, g: 0, b: 0, a: 255 }),
        solid(32, 0, 32, 32, PartPixel { r: 0, g: 255, b: 0, a: 127 }),
        solid(0, 32, 64, 32, PartPixel { r: 0, g: 0, b: 255, a: 127 }),
    ];
    let s = screen_with_frames(64, 64, parts);
    let img = s.render();
    assert_eq!(img.get_pixel(0, 0), rgb(255, 0, 0));
    assert_eq!(img.get_pixel(31, 31), rgb(255, 0, 0));
    assert_eq!(img.get_pixel(32, 31), rgb(0, 127, 0));
    assert_eq!(img.get_pixel(63, 0), rgb(0, 127, 0));
    assert_eq!(img.get_pixel(0, 32), rgb(0, 0, 127));
    assert_eq!(img.get_pixel(0, 63), rgb(0, 0, 127));
    assert_eq!(img.get_pixel(63, 63), rgb(0, 0, 127));
}

#[test]
fn fresh_part_is_visible_and_has_no_frame() {
    let part = PartContent::new(3, 4, None);
    assert_eq!((part.x, part.y), (3, 4));
    assert!(part.visible);
    assert!(part.image.is_none());
    assert!(PartContent::new(0, 0, Some(true)).visible);
    assert!(!PartContent::new(0, 0, Some(false)).visible);
}

#[test]
fn new_screen_has_one_fresh_part_per_widget() {
    let mut hidden = solid(5, 6, 2, 2, red());
    hidden.visible = Some(false);
    let widgets = vec![solid(1, 2, 2, 2, red()), hidden];
    let screen = Screen::new(8, 8, &widgets);
    assert_eq!(screen.len(), 2);
    let first = screen.part(0).unwrap();
    assert_eq!((first.x, first.y, first.visible), (1, 2, true));
    assert!(first.image.is_none());
    let second = screen.part(1).unwrap();
    assert_eq!((second.x, second.y, second.visible), (5, 6, false));
    assert!(second.image.is_none());
    assert!(screen.part(2).is_none());
}

#[test]
fn screen_without_frames_is_background() {
    let widgets = vec![solid(0, 0, 4, 4, red()), solid(2, 2, 4, 4, green())];
    let screen = Screen::new(8, 8, &widgets);
    assert!(all_pixels_are(&screen.render(), rgb(0, 0, 0)));
    let empty = Screen::new(8, 8, &Vec::new());
    let canvas = empty.render();
    assert_eq!((canvas.width(), canvas.height()), (8, 8));
    assert!(all_pixels_are(&canvas, rgb(0, 0, 0)));
}

#[test]
fn screen_with_all_parts_hidden_is_background() {
    let widgets = vec![solid(0, 0, 4, 4, red()), solid(2, 2, 4, 4, green())];
    let mut screen = screen_with_frames(8, 8, widgets);
    screen.control(NeoClockMessage::Hide(0));
    screen.control(NeoClockMessage::Hide(1));
    assert!(all_pixels_are(&screen.render(), rgb(0, 0, 0)));
}

#[test]
fn opaque_red_over_black() {
    let screen = screen_with_frames(4, 4, vec![solid(0, 0, 2, 2, red())]);
    let canvas = screen.render();
    for x in 0..4 {
        for y in 0..4 {
            let expected = if x < 2 && y < 2 { rgb(255, 0, 0) } else { rgb(0, 0, 0) };
            assert_eq!(canvas.get_pixel(x, y), expected);
        }
    }
}

#[test]
fn half_green_over_black() {
    let half_green = PartPixel { r: 0, g: 255, b: 0, a: 127 };
    let screen = screen_with_frames(4, 4, vec![solid(0, 0, 2, 2, half_green)]);
    let canvas = screen.render();
    assert_eq!(canvas.get_pixel(0, 0), rgb(0, 127, 0));
    assert_eq!(canvas.get_pixel(1, 1), rgb(0, 127, 0));
    assert_eq!(canvas.get_pixel(2, 2), rgb(0, 0, 0));
}

#[test]
fn transparent_frame_leaves_the_canvas() {
    let widgets = vec![solid(0, 0, 2, 2, red()), solid(0, 0, 2, 2, transparent())];
    let canvas = screen_with_frames(2, 2, widgets).render();
    assert!(all_pixels_are(&canvas, rgb(255, 0, 0)));
}

#[test]
fn later_widget_paints_over_earlier() {
    let widgets = vec![solid(0, 0, 3, 3, red()), solid(1, 1, 3, 3, blue())];
    let canvas = screen_with_frames(4, 4, widgets).render();
    assert_eq!(canvas.get_pixel(0, 0), rgb(255, 0, 0));
    assert_eq!(canvas.get_pixel(1, 1), rgb(0, 0, 255));
    assert_eq!(canvas.get_pixel(3, 3), rgb(0, 0, 255));
    assert_eq!(canvas.get_pixel(0, 3), rgb(0, 0, 0));
}

#[test]
fn frame_partly_outside_is_clipped() {
    let canvas = screen_with_frames(4, 4, vec![solid(3, 2, 5, 5, white())]).render();
    assert_eq!((canvas.width(), canvas.height()), (4, 4));
    for x in 0..4 {
        for y in 0..4 {
            let expected = if x >= 3 && y >= 2 { rgb(255, 255, 255) } else { rgb(0, 0, 0) };
            assert_eq!(canvas.get_pixel(x, y), expected);
        }
    }
}

#[test]
fn frame_wholly_outside_paints_nothing() {
    let far = solid(u32::MAX, u32::MAX, 2, 2, white());
    let canvas = screen_with_frames(4, 4, vec![solid(4, 0, 2, 2, white()), far]).render();
    assert!(all_pixels_are(&canvas, rgb(0, 0, 0)));
}

#[test]
fn compose_equals_render() {
    let widgets = vec![solid(0, 0, 2, 2, red()), solid(1, 1, 2, 2, green())];
    let screen = screen_with_frames(3, 3, widgets);
    let parts: Vec<PartContent> = screen.parts.iter().map(|p| p.snapshot()).collect();
    let a = screen.render();
    let b = compose(3, 3, &parts);
    for x in 0..3 {
        for y in 0..3 {
            assert_eq!(a.get_pixel(x, y), b.get_pixel(x, y));
        }
    }
}

#[test]
fn blend_part_keeps_pixels_it_does_not_cover() {
    let mut canvas = PartImage::new(3, 1);
    fill(&mut canvas, blue());
    let mut part = PartContent::new(1, 0, None);
    let mut frame = PartImage::new(1, 1);
    fill(&mut frame, red());
    part.image = Some(frame);
    blend_part(&mut canvas, &part);
    assert_eq!(canvas.get_pixel(0, 0), blue());
    assert_eq!(canvas.get_pixel(1, 0), red());
    assert_eq!(canvas.get_pixel(2, 0), blue());
}

#[test]
fn blit_copies_and_clips() {
    let mut src = PartImage::new(2, 2);
    fill(&mut src, red());
    let mut dest = PartImage::new(3, 3);
    fill(&mut dest, black());
    blit(&src, &mut dest, 2, -1);
    assert_eq!(dest.get_pixel(2, 0), red());
    assert_eq!(dest.get_pixel(2, 1), black());
    assert_eq!(dest.get_pixel(1, 0), black());
    blit(&src, &mut dest, -1, 2);
    assert_eq!(dest.get_pixel(0, 2), red());
    assert_eq!(dest.get_pixel(1, 2), black());
    blit(&src, &mut dest, 5, 5);
    blit(&src, &mut dest, -2, -2);
    assert_eq!(dest.get_pixel(0, 0), black());
    assert_eq!(dest.get_pixel(1, 1), black());
}

#[test]
fn blit_copies_transparent_pixels_too() {
    let src = PartImage::new(1, 1);
    let mut dest = PartImage::new(1, 1);
    fill(&mut dest, red());
    blit(&src, &mut dest, 0, 0);
    assert_eq!(dest.get_pixel(0, 0), transparent());
}

struct Recorder {
    calls: Vec<(u32, u32, u8, u8, u8)>,
}

impl Drawable for Recorder {
    fn told(&self, x: u32, y: u32) -> Option<ScreenPixel> {
        self.calls
            .iter()
            .rev()
            .find(|call| (call.0, call.1) == (x, y))
            .map(|call| ScreenPixel { r: call.2, g: call.3, b: call.4 })
    }

    fn set_pixel(&mut self, x: u32, y: u32, r: u8, g: u8, b: u8) {
        self.calls.push((x, y, r, g, b));
    }
}

#[test]
fn render_to_hands_every_pixel_to_the_sink() {
    let screen = screen_with_frames(2, 2, vec![solid(1, 0, 1, 1, red())]);
    let mut sink = Recorder { calls: Vec::new() };
    screen.render_to(&mut sink);
    assert_eq!(
        sink.calls,
        vec![(0, 0, 0, 0, 0), (0, 1, 0, 0, 0), (1, 0, 255, 0, 0), (1, 1, 0, 0, 0)]
    );
}

#[test]
fn render_to_tells_the_sink_what_the_canvas_shows() {
    let widgets = vec![solid(0, 0, 2, 2, red()), solid(1, 1, 2, 2, green())];
    let screen = screen_with_frames(3, 2, widgets);
    let mut sink = Recorder { calls: vec![(0, 0, 9, 9, 9), (7, 7, 1, 2, 3)] };
    screen.render_to(&mut sink);
    let canvas = screen.render();
    for x in 0..3 {
        for y in 0..2 {
            assert_eq!(sink.told(x, y), Some(canvas.get_pixel(x, y)));
        }
    }
    assert_eq!(sink.told(0, 0), Some(rgb(255, 0, 0)));
    assert_eq!(sink.told(1, 1), Some(rgb(0, 255, 0)));
    assert_eq!(sink.told(2, 0), Some(rgb(0, 0, 0)));
    assert_eq!(sink.told(7, 7), Some(rgb(1, 2, 3)));
    assert_eq!(sink.told(3, 0), None);
    assert_eq!(sink.told(0, 2), None);
    assert_eq!(sink.calls.len(), 8);
}

#[test]
fn render_to_an_empty_canvas_tells_the_sink_nothing() {
    let screen = screen_with_frames(0, 5, vec![solid(0, 0, 2, 2, red())]);
    let mut sink = Recorder { calls: Vec::new() };
    screen.render_to(&mut sink);
    assert!(sink.calls.is_empty());
    assert_eq!(sink.told(0, 0), None);
}

#[test]
fn show_hide_move_change_only_their_part() {
    let widgets = vec![solid(0, 0, 1, 1, red()), solid(1, 1, 1, 1, green()), solid(2, 2, 1, 1, blue())];
    let mut screen = screen_with_frames(4, 4, widgets);
    screen.control(NeoClockMessage::Hide(1));
    assert!(screen.part(0).unwrap().visible);
    assert!(!screen.part(1).unwrap().visible);
    assert!(screen.part(2).unwrap().visible);
    screen.control(NeoClockMessage::Move(MoveMessage { id: 2, x: 3, y: 0 }));
    let moved = screen.part(2).unwrap();
    assert_eq!((moved.x, moved.y, moved.visible), (3, 0, true));
    assert_eq!(moved.image.as_ref().unwrap().get_pixel(0, 0), blue());
    let first = screen.part(0).unwrap();
    assert_eq!((first.x, first.y, first.visible), (0, 0, true));
    let second = screen.part(1).unwrap();
    assert_eq!((second.x, second.y, second.visible), (1, 1, false));
    screen.control(NeoClockMessage::Show(1));
    assert!(screen.part(1).unwrap().visible);
    let canvas = screen.render();
    assert_eq!(canvas.get_pixel(3, 0), rgb(0, 0, 255));
    assert_eq!(canvas.get_pixel(2, 2), rgb(0, 0, 0));
    assert_eq!(canvas.get_pixel(1, 1), rgb(0, 255, 0));
}

#[test]
fn message_to_a_missing_part_changes_nothing() {
    let mut parts = vec![PartContent::new(1, 2, None), PartContent::new(3, 4, Some(false))];
    for msg in [
        NeoClockMessage::Show(2),
        NeoClockMessage::Hide(2),
        NeoClockMessage::Move(MoveMessage { id: 7, x: 9, y: 9 }),
        NeoClockMessage::Clock { id: 2, msg: ClockMessage },
    ] {
        assert!(matches!(msg_handler(&mut parts, msg), Dispatch::Drop));
        assert_eq!(parts.len(), 2);
        assert_eq!((parts[0].x, parts[0].y, parts[0].visible), (1, 2, true));
        assert_eq!((parts[1].x, parts[1].y, parts[1].visible), (3, 4, false));
    }
}

#[test]
fn dispatch_tells_changes_from_payloads() {
    assert!(matches!(
        dispatch(NeoClockMessage::Show(1), 2),
        Dispatch::Change { id: 1, change: PartChange::Show }
    ));
    assert!(matches!(
        dispatch(NeoClockMessage::Hide(0), 2),
        Dispatch::Change { id: 0, change: PartChange::Hide }
    ));
    assert!(matches!(
        dispatch(NeoClockMessage::Move(MoveMessage { id: 1, x: 5, y: 6 }), 2),
        Dispatch::Change { id: 1, change: PartChange::Move { x: 5, y: 6 } }
    ));
    let gif = NeoClockMessage::Gif { id: 1, msg: GifMessage { url: "a.gif".to_string() } };
    match dispatch(gif, 2) {
        Dispatch::Forward { id, payload: WidgetMessage::Gif(m) } => {
            assert_eq!(id, 1);
            assert_eq!(m.url, "a.gif");
        }
        _ => panic!(),
    }
    let flyer = NeoClockMessage::Flyer { id: 0, msg: FlyerMessage { text: "Hahaha".to_string(), ttl: 10 } };
    match dispatch(flyer, 1) {
        Dispatch::Forward { id, payload: WidgetMessage::Flyer(m) } => {
            assert_eq!(id, 0);
            assert_eq!(m.text, "Hahaha");
            assert_eq!(m.ttl, 10);
        }
        _ => panic!(),
    }
    assert!(matches!(dispatch(NeoClockMessage::Show(2), 2), Dispatch::Drop));
}

#[test]
fn payload_messages_leave_the_parts_alone() {
    let mut parts = vec![PartContent::new(1, 2, None)];
    let d = msg_handler(&mut parts, NeoClockMessage::Clock { id: 0, msg: ClockMessage });
    assert!(matches!(d, Dispatch::Forward { id: 0, payload: WidgetMessage::Clock(_) }));
    assert_eq!((parts[0].x, parts[0].y, parts[0].visible), (1, 2, true));
}

#[test]
fn publish_replaces_only_the_frame() {
    let mut screen = Screen::new(2, 2, &vec![solid(1, 1, 1, 1, red()), solid(0, 0, 1, 1, green())]);
    let mut frame = PartImage::new(1, 1);
    fill(&mut frame, red());
    screen.publish(0, Some(frame));
    screen.publish(5, Some(PartImage::new(1, 1)));
    assert!(screen.part(0).unwrap().image.is_some());
    assert!(screen.part(1).unwrap().image.is_none());
    assert_eq!((screen.part(0).unwrap().x, screen.part(0).unwrap().y), (1, 1));
    assert_eq!(screen.render().get_pixel(1, 1), rgb(255, 0, 0));
    screen.publish(0, None);
    assert_eq!(screen.render().get_pixel(1, 1), rgb(0, 0, 0));
}

#[test]
fn snapshot_copies_the_part() {
    let mut part = PartContent::new(4, 5, Some(false));
    let mut frame = PartImage::new(2, 1);
    frame.put_pixel(1, 0, red());
    part.image = Some(frame);
    let copy = part.snapshot();
    assert_eq!((copy.x, copy.y, copy.visible), (4, 5, false));
    let img = copy.image.unwrap();
    assert_eq!((img.width(), img.height()), (2, 1));
    assert_eq!(img.get_pixel(1, 0), red());
    assert_eq!(img.get_pixel(0, 0), transparent());
}
