use ili9486::{
    BusOp, DisplayMode, DisplaySize, DisplaySize240x320, Flip, Orientation, Pixel, Point,
    PrimitiveStyle, Rectangle, Size, StyledRectangle, Transaction, ILI9486,
};

struct Panel3x2;

impl DisplaySize for Panel3x2 {
    const WIDTH: usize = 3;
    const HEIGHT: usize = 2;

    fn addressable() {}
}

fn succeed<T>(mut t: Transaction<T>) -> T {
    while t.next_op().is_some() {
        t.complete(true);
    }
    match t.finish() {
        Some(Ok(value)) => value,
        _ => panic!("the transaction did not succeed"),
    }
}

fn display() -> ILI9486 {
    succeed(ILI9486::new(DisplayMode::default(), DisplaySize240x320))
}

fn window(x0: u16, y0: u16, x1: u16, y1: u16) -> Vec<BusOp> {
    vec![
        BusOp::Command(0x2a),
        BusOp::Data(vec![(x0 >> 8) as u8, x0 as u8, (x1 >> 8) as u8, x1 as u8]),
        BusOp::Command(0x2b),
        BusOp::Data(vec![(y0 >> 8) as u8, y0 as u8, (y1 >> 8) as u8, y1 as u8]),
    ]
}

fn drawing(x0: u16, y0: u16, x1: u16, y1: u16, pixels: Vec<u16>) -> Vec<BusOp> {
    let mut ops = window(x0, y0, x1, y1);
    ops.push(BusOp::Command(0x2c));
    ops.push(BusOp::Data(vec![]));
    ops.push(BusOp::Pixels(pixels));
    ops
}

fn rectangle(x0: i32, y0: i32, x1: i32, y1: i32) -> Rectangle {
    Rectangle { top_left: Point { x: x0, y: y0 }, bottom_right: Point { x: x1, y: y1 } }
}

fn filled(shape: Rectangle, color: u16) -> StyledRectangle {
    StyledRectangle {
        primitive: shape,
        style: PrimitiveStyle { fill_color: Some(color), stroke_color: None, stroke_width: 0 },
    }
}

fn outlined(shape: Rectangle, color: u16, width: u32) -> StyledRectangle {
    StyledRectangle {
        primitive: shape,
        style: PrimitiveStyle { fill_color: None, stroke_color: Some(color), stroke_width: width },
    }
}

#[test]
fn set_window_sends_both_address_ranges_high_byte_first() {
    let mut ops = Vec::new();
    ILI9486::set_window(&mut ops, 0x0001, 0x0002, 0x0123, 0x01DF);
    assert_eq!(
        ops,
        vec![
            BusOp::Command(0x2a),
            BusOp::Data(vec![0x00, 0x01, 0x01, 0x23]),
            BusOp::Command(0x2b),
            BusOp::Data(vec![0x00, 0x02, 0x01, 0xDF]),
        ]
    );
}

#[test]
fn set_window_appends_to_the_plan_and_does_not_validate() {
    let mut ops = vec![BusOp::DelayUs(5)];
    ILI9486::set_window(&mut ops, 0xFFFF, 0xABCD, 0x0000, 0x0001);
    assert_eq!(
        ops,
        vec![
            BusOp::DelayUs(5),
            BusOp::Command(0x2a),
            BusOp::Data(vec![0xFF, 0xFF, 0x00, 0x00]),
            BusOp::Command(0x2b),
            BusOp::Data(vec![0xAB, 0xCD, 0x00, 0x01]),
        ]
    );
}

#[test]
fn draw_raw_slice_selects_the_window_and_streams_the_values() {
    let t = display().draw_raw_slice(1, 2, 0x0123, 0x01DF, &[0xF800, 0x001F]);
    assert_eq!(
        t.ops(),
        &vec![
            BusOp::Command(0x2a),
            BusOp::Data(vec![0x00, 0x01, 0x01, 0x23]),
            BusOp::Command(0x2b),
            BusOp::Data(vec![0x00, 0x02, 0x01, 0xDF]),
            BusOp::Command(0x2c),
            BusOp::Data(vec![]),
            BusOp::Pixels(vec![0xF800, 0x001F]),
        ]
    );
    assert_eq!(t.performed(), 0);
}

#[test]
fn draw_raw_iter_passes_any_number_of_values_through() {
    let none = display().draw_raw_iter(0, 0, 9, 9, Vec::new());
    assert_eq!(none.ops(), &drawing(0, 0, 9, 9, vec![]));
    let many = display().draw_raw_iter(5, 5, 5, 5, vec![1, 2, 3, 4, 5]);
    assert_eq!(many.ops(), &drawing(5, 5, 5, 5, vec![1, 2, 3, 4, 5]));
}

#[test]
fn size_is_the_current_width_and_height() {
    let mut display = display();
    assert_eq!(display.size(), Size { width: 240, height: 320 });
    display.set_display_mode(DisplayMode {
        orientation: Orientation::Landscape,
        flip: Flip::No,
        inverted_rgb: false,
    });
    assert_eq!(display.size(), Size { width: 320, height: 240 });
}

#[test]
fn pixel_off_the_screen_is_skipped() {
    let display = display();
    for (x, y) in [(-1, 0), (0, -1), (240, 0), (0, 320), (-7, -9), (1000, 1000), (i32::MIN, 5), (5, i32::MAX)] {
        let t = display.draw_pixel(Pixel(Point { x, y }, 0xFFFF));
        assert!(t.ops().is_empty());
        assert!(t.next_op().is_none());
        assert_eq!(t.finish(), Some(Ok(())));
    }
}

#[test]
fn pixel_in_the_first_corner_is_one_window_and_one_value() {
    let t = display().draw_pixel(Pixel(Point { x: 0, y: 0 }, 0xF800));
    assert_eq!(
        t.ops(),
        &vec![
            BusOp::Command(0x2a),
            BusOp::Data(vec![0, 0, 0, 0]),
            BusOp::Command(0x2b),
            BusOp::Data(vec![0, 0, 0, 0]),
            BusOp::Command(0x2c),
            BusOp::Data(vec![]),
            BusOp::Pixels(vec![0xF800]),
        ]
    );
}

#[test]
fn pixel_in_the_last_corner_is_one_window_and_one_value() {
    let t = display().draw_pixel(Pixel(Point { x: 239, y: 319 }, 0x07E0));
    assert_eq!(
        t.ops(),
        &vec![
            BusOp::Command(0x2a),
            BusOp::Data(vec![0x00, 0xEF, 0x00, 0xEF]),
            BusOp::Command(0x2b),
            BusOp::Data(vec![0x01, 0x3F, 0x01, 0x3F]),
            BusOp::Command(0x2c),
            BusOp::Data(vec![]),
            BusOp::Pixels(vec![0x07E0]),
        ]
    );
}

#[test]
fn oversized_rectangle_is_clamped_to_the_screen() {
    let item = filled(rectangle(-5, -5, 245, 325), 0x07E0);
    assert!(item.is_iterable());
    let t = display().draw_rectangle(&item);
    assert_eq!(t.ops(), &drawing(0, 0, 239, 319, vec![0x07E0; 240 * 320]));
}

#[test]
fn oversized_outline_leaves_nothing_to_stream() {
    let item = outlined(rectangle(-5, -5, 245, 325), 0xF800, 1);
    let t = display().draw_rectangle(&item);
    assert_eq!(t.ops(), &drawing(0, 0, 239, 319, vec![]));
}

#[test]
fn rectangle_right_of_the_screen_is_skipped() {
    let t = display().draw_rectangle(&filled(rectangle(240, 0, 250, 10), 0xFFFF));
    assert!(t.ops().is_empty());
    assert_eq!(t.finish(), Some(Ok(())));
}

#[test]
fn rectangle_below_the_screen_is_skipped() {
    let t = display().draw_rectangle(&filled(rectangle(0, 320, 10, 330), 0xFFFF));
    assert!(t.ops().is_empty());
    let t = display().draw_rectangle(&filled(rectangle(500, 500, 510, 510), 0xFFFF));
    assert!(t.ops().is_empty());
}

#[test]
fn outlined_rectangle_streams_its_border_only() {
    let t = display().draw_rectangle(&outlined(rectangle(2, 2, 4, 4), 0xF800, 1));
    assert_eq!(t.ops(), &drawing(2, 2, 4, 4, vec![0xF800; 8]));
}

#[test]
fn filled_and_outlined_rectangle_streams_row_by_row() {
    let item = StyledRectangle {
        primitive: rectangle(10, 20, 12, 22),
        style: PrimitiveStyle {
            fill_color: Some(0x001F),
            stroke_color: Some(0xF800),
            stroke_width: 1,
        },
    };
    let t = display().draw_rectangle(&item);
    assert_eq!(
        t.ops(),
        &drawing(
            10,
            20,
            12,
            22,
            vec![0xF800, 0xF800, 0xF800, 0xF800, 0x001F, 0xF800, 0xF800, 0xF800, 0xF800]
        )
    );
}

#[test]
fn rectangle_colors_keep_all_sixteen_bits() {
    for color in [0x0000u16, 0xFFFF, 0x8001, 0x1234, 0xABCD] {
        let t = display().draw_rectangle(&filled(rectangle(0, 0, 1, 0), color));
        assert_eq!(t.ops(), &drawing(0, 0, 1, 0, vec![color, color]));
    }
}

#[test]
fn rectangle_over_the_far_corner_is_clipped() {
    let t = display().draw_rectangle(&filled(rectangle(238, 318, 241, 321), 0x1234));
    assert_eq!(t.ops(), &drawing(238, 318, 239, 319, vec![0x1234; 4]));
}

#[test]
fn rectangle_over_the_origin_is_clipped() {
    let t = display().draw_rectangle(&filled(rectangle(-2, -2, 1, 1), 0x4321));
    assert_eq!(t.ops(), &drawing(0, 0, 1, 1, vec![0x4321; 4]));
}

#[test]
fn rectangle_left_of_the_screen_selects_a_window_and_streams_nothing() {
    let t = display().draw_rectangle(&filled(rectangle(-10, -10, -5, -5), 0x4321));
    assert_eq!(t.ops(), &drawing(0, 0, 0, 0, vec![]));
}

#[test]
fn rectangle_without_style_streams_nothing() {
    let item = StyledRectangle {
        primitive: rectangle(1, 1, 3, 3),
        style: PrimitiveStyle { fill_color: None, stroke_color: None, stroke_width: 4 },
    };
    let t = display().draw_rectangle(&item);
    assert_eq!(t.ops(), &drawing(1, 1, 3, 3, vec![]));
}

#[test]
fn enumerated_pixels_are_filtered_in_order() {
    let pixels = vec![
        Pixel(Point { x: -1, y: 0 }, 1),
        Pixel(Point { x: 0, y: 0 }, 2),
        Pixel(Point { x: 239, y: 319 }, 3),
        Pixel(Point { x: 240, y: 319 }, 4),
        Pixel(Point { x: 239, y: 320 }, 5),
        Pixel(Point { x: 7, y: -3 }, 6),
        Pixel(Point { x: 7, y: 3 }, 7),
    ];
    let t = display().draw_rectangle_pixels(&rectangle(-1, -3, 300, 400), &pixels);
    assert_eq!(t.ops(), &drawing(0, 0, 239, 319, vec![2, 3, 7]));
    let skipped = display().draw_rectangle_pixels(&rectangle(240, 0, 300, 400), &pixels);
    assert!(skipped.ops().is_empty());
}

#[test]
fn iterable_rectangles_leave_room_for_the_arithmetic() {
    assert!(filled(rectangle(0, 0, 10, 10), 1).is_iterable());
    assert!(filled(rectangle(i32::MIN, i32::MIN, i32::MAX - 1, i32::MAX - 1), 1).is_iterable());
    assert!(!filled(rectangle(0, 0, i32::MAX, 10), 1).is_iterable());
    assert!(!filled(rectangle(0, 0, 10, i32::MAX), 1).is_iterable());
    assert!(!filled(rectangle(i32::MAX, 0, 10, 10), 1).is_iterable());
    assert!(filled(rectangle(0, 5, i32::MAX, 4), 1).is_iterable());
    assert!(outlined(rectangle(0, 0, 10, 10), 1, u32::MAX).is_iterable());
    assert!(outlined(rectangle(1, 0, 10, 10), 1, u32::MAX).is_iterable());
    assert!(!outlined(rectangle(0, 1, 10, 10), 1, u32::MAX).is_iterable());
    assert!(outlined(rectangle(i32::MAX - 3, 0, 10, 10), 1, 6).is_iterable());
    assert!(!outlined(rectangle(i32::MAX - 3, 0, 10, 10), 1, 5).is_iterable());
    assert!(!outlined(rectangle(i32::MAX - 3, 0, 10, 10), 1, 4).is_iterable());
    assert!(outlined(rectangle(i32::MAX - 3, 0, 10, 10), 1, 3).is_iterable());
    assert!(outlined(rectangle(i32::MAX - 4, 0, 10, 10), 1, 4).is_iterable());
    assert!(outlined(rectangle(0, i32::MIN, 10, i32::MIN + 1), 1, 7).is_iterable());
    let bare = StyledRectangle {
        primitive: rectangle(i32::MAX, i32::MAX, i32::MAX, i32::MAX),
        style: PrimitiveStyle { fill_color: None, stroke_color: None, stroke_width: u32::MAX },
    };
    assert!(bare.is_iterable());
}

#[test]
fn outline_wider_than_the_rectangle_paints_all_of_it() {
    let t = display().draw_rectangle(&outlined(rectangle(1, 0, 10, 10), 0x7BEF, u32::MAX));
    assert_eq!(t.ops(), &drawing(1, 0, 10, 10, vec![0x7BEF; 110]));
}

#[test]
fn rectangle_with_corners_exchanged_has_one_column() {
    let t = display().draw_rectangle(&filled(rectangle(3, 0, 1, 4), 0x0F0F));
    assert_eq!(t.ops(), &drawing(3, 0, 1, 4, vec![0x0F0F; 5]));
    let t = display().draw_rectangle(&filled(rectangle(3, 4, 5, 0), 0x0F0F));
    assert_eq!(t.ops(), &drawing(3, 4, 5, 0, vec![]));
}

#[test]
fn rectangle_beyond_the_screen_need_not_be_iterable() {
    let item = filled(rectangle(i32::MAX, i32::MAX, i32::MAX, i32::MAX), 0xFFFF);
    assert!(!item.is_iterable());
    let t = display().draw_rectangle(&item);
    assert!(t.ops().is_empty());
}

#[test]
fn rectangle_far_left_of_the_screen_streams_nothing() {
    let item = outlined(rectangle(i32::MIN, i32::MIN, i32::MIN + 2, i32::MIN + 1), 0xFFFF, 1);
    assert!(item.is_iterable());
    let t = display().draw_rectangle(&item);
    assert_eq!(t.ops(), &drawing(0, 0, 0, 0, vec![]));
}

#[test]
fn clear_streams_one_value_per_pixel() {
    let t = display().clear(0x001F);
    assert_eq!(t.ops(), &drawing(0, 0, 239, 319, vec![0x001F; 240 * 320]));
}

#[test]
fn clear_of_a_tiny_panel() {
    let display = succeed(ILI9486::new(DisplayMode::default(), Panel3x2));
    let t = display.clear(0xBEEF);
    assert_eq!(
        t.ops(),
        &vec![
            BusOp::Command(0x2a),
            BusOp::Data(vec![0, 0, 0, 2]),
            BusOp::Command(0x2b),
            BusOp::Data(vec![0, 0, 0, 1]),
            BusOp::Command(0x2c),
            BusOp::Data(vec![]),
            BusOp::Pixels(vec![0xBEEF; 6]),
        ]
    );
}

#[test]
fn clear_in_landscape_covers_the_exchanged_screen() {
    let landscape =
        DisplayMode { orientation: Orientation::Landscape, flip: Flip::No, inverted_rgb: false };
    let display = succeed(ILI9486::new(landscape, DisplaySize240x320));
    let t = display.clear(0);
    assert_eq!(t.ops(), &drawing(0, 0, 319, 239, vec![0; 320 * 240]));
}
