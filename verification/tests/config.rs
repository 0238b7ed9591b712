use eve_multibox::config::{detect_display_size, read_resolution, Config, Rect};
use eve_multibox::text::to_chars;

const XRANDR: &str = "Screen 0: minimum 320 x 200, current 7680 x 2160, maximum 16384 x 16384\n\
DP-0 connected primary 7680x2160+0+0 (normal left inverted right x axis y axis) 1600mm x 450mm\n\
   7680x2160     60.00*+ 120.00\n\
   3840x1080     60.00\n";

#[test]
fn stacking_geometry() {
    let config = Config { display_width: 7680, display_height: 2160, panel_height: 40, eve_width: 4147, eve_height: 2160 };
    assert!(config.is_valid());
    assert_eq!(config.eve_x(), 1766);
    assert_eq!(config.eve_y(), 0);
    assert_eq!(config.eve_height_adjusted(), 2120);
    assert_eq!(config.stack_rect(), Rect { x: 1766, y: 0, width: 4147, height: 2120 });
}

#[test]
fn geometry_at_the_edges() {
    let full = Config { display_width: 1920, display_height: 1080, panel_height: 1080, eve_width: 1920, eve_height: 1080 };
    assert!(full.is_valid());
    assert_eq!(full.stack_rect(), Rect { x: 0, y: 0, width: 1920, height: 0 });
    let odd = Config { display_width: 1921, display_height: 10, panel_height: 0, eve_width: 1920, eve_height: 10 };
    assert_eq!(odd.eve_x(), 0);
    let huge = Config { display_width: u32::MAX, display_height: u32::MAX, panel_height: 0, eve_width: 0, eve_height: 0 };
    assert_eq!(huge.eve_x(), i32::MAX);
    assert_eq!(huge.eve_height_adjusted(), u32::MAX);
}

#[test]
fn sizes_that_do_not_fit() {
    let wide = Config { display_width: 1000, display_height: 1000, panel_height: 0, eve_width: 1001, eve_height: 1000 };
    assert!(!wide.is_valid());
    let tall = Config { display_width: 1000, display_height: 1000, panel_height: 1001, eve_width: 10, eve_height: 10 };
    assert!(!tall.is_valid());
}

#[test]
fn display_size_from_listing() {
    assert_eq!(detect_display_size(Some(XRANDR)), (7680, 2160));
    assert_eq!(detect_display_size(Some("   1920x1200     59.95*+\r\n")), (1920, 1200));
    assert_eq!(detect_display_size(Some("bad*x\n  2560x1440 60.00*\n")), (2560, 1440));
}

#[test]
fn display_size_falls_back() {
    assert_eq!(detect_display_size(None), (1920, 1080));
    assert_eq!(detect_display_size(Some("")), (1920, 1080));
    assert_eq!(detect_display_size(Some("   3840x1080     60.00\n")), (1920, 1080));
    assert_eq!(detect_display_size(Some("connected 10x* y\n")), (1920, 1080));
}

#[test]
fn resolution_of_a_line() {
    assert_eq!(read_resolution(&to_chars("   7680x2160     60.00*+")), Some((7680, 2160)));
    assert_eq!(read_resolution(&to_chars("7680x2160")), None);
    assert_eq!(read_resolution(&to_chars("* 7680 2160 x")), None);
    assert_eq!(read_resolution(&to_chars("7680x2160x3 *")), None);
    assert_eq!(read_resolution(&to_chars("x *")), None);
    assert_eq!(read_resolution(&to_chars("0x0*")), None);
    assert_eq!(read_resolution(&to_chars("0x0 *")), Some((0, 0)));
    assert_eq!(read_resolution(&to_chars("4294967296x1 *")), None);
    assert_eq!(read_resolution(&to_chars("*")), None);
}
