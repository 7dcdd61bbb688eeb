use rqcore::color::{pack_argb, premultiply, to_packed_premul, rq_color};
use rqcore::gradient::{rq_gradient_stop, rq_linear_gradient, POS_ONE};
use rqcore::image::{bilinear_channel, unpack_alpha, unpack_blue, unpack_green, unpack_red, rq_image, rq_pattern};
use rqcore::modes::{
    fill_rule_inside, rq_blend_mode, rq_cap_style, rq_extend_mode, rq_fill_rule, rq_filter_mode,
    rq_join_style, rq_spread_mode,
};
use rqcore::paint::{rq_draw_options, rq_paint, rq_stroke_style};
use rqcore::path::{rect_path, PathCmd, Scalar, rq_path_builder, rq_point};
use rqcore::target::rq_draw_target;
use rqcore::transform::rq_transform;

fn sc(v: f32) -> Scalar {
    Scalar { bits: v.to_bits() }
}

fn pt(x: f32, y: f32) -> rq_point {
    rq_point { x: sc(x), y: sc(y) }
}

fn color(r: u8, g: u8, b: u8, a: u8) -> rq_color {
    rq_color { r, g, b, a }
}

#[test]
fn premultiply_halves_channels_at_half_alpha() {
    let c = premultiply(color(255, 0, 100, 128));
    assert_eq!(c.a, 128);
    assert_eq!(c.r, 128);
    assert_eq!(c.g, 0);
    assert_eq!(c.b, 50); // 100 * 128 / 255 = 50.19... rounds to 50
}

#[test]
fn premultiply_keeps_opaque_colors() {
    let c = color(12, 34, 56, 255);
    assert_eq!(premultiply(c), c);
}

#[test]
fn premultiply_zero_alpha_gives_zero_channels() {
    let c = premultiply(color(255, 255, 255, 0));
    assert_eq!((c.r, c.g, c.b, c.a), (0, 0, 0, 0));
}

#[test]
fn pack_argb_lays_out_bytes() {
    assert_eq!(pack_argb(0x12, 0x34, 0x56, 0x78), 0x12345678);
    assert_eq!(unpack_alpha(0x12345678), 0x12);
    assert_eq!(unpack_red(0x12345678), 0x34);
    assert_eq!(unpack_green(0x12345678), 0x56);
    assert_eq!(unpack_blue(0x12345678), 0x78);
}

#[test]
fn packed_premul_of_opaque_red() {
    assert_eq!(to_packed_premul(color(255, 0, 0, 255)), 0xffff0000);
    assert_eq!(to_packed_premul(color(0, 0, 0, 0)), 0);
}

#[test]
fn builder_ignores_commands_without_current_point() {
    let mut b = rq_path_builder::new();
    b.line_to(pt(1.0, 1.0));
    b.quad_to(pt(1.0, 1.0), pt(2.0, 2.0));
    b.cubic_to(pt(1.0, 1.0), pt(2.0, 2.0), pt(3.0, 3.0));
    b.arc(pt(0.0, 0.0), sc(1.0), sc(0.0), sc(1.0));
    b.close();
    let p = b.finish();
    assert!(p.commands().is_empty());
}

#[test]
fn builder_records_commands_in_order() {
    let mut b = rq_path_builder::new();
    b.move_to(pt(0.0, 0.0));
    b.line_to(pt(4.0, 0.0));
    b.quad_to(pt(5.0, 1.0), pt(4.0, 2.0));
    b.close();
    b.line_to(pt(9.0, 9.0)); // still a current point after close
    let p = b.finish();
    assert_eq!(p.commands().len(), 5);
    assert_eq!(p.commands()[0], PathCmd::MoveTo(pt(0.0, 0.0)));
    assert_eq!(p.commands()[1], PathCmd::LineTo(pt(4.0, 0.0)));
    assert_eq!(p.commands()[2], PathCmd::QuadTo(pt(5.0, 1.0), pt(4.0, 2.0)));
    assert_eq!(p.commands()[3], PathCmd::Close);
    assert_eq!(p.commands()[4], PathCmd::LineTo(pt(9.0, 9.0)));
}

#[test]
fn duplicate_copies_every_command() {
    let mut b = rq_path_builder::new();
    b.move_to(pt(0.0, 0.0));
    b.line_to(pt(4.0, 0.0));
    b.line_to(pt(4.0, 4.0));
    b.close();
    let p = b.finish();
    let q = p.duplicate();
    assert_eq!(p.commands(), q.commands());
}

#[test]
fn rect_path_is_the_closed_four_sided_path() {
    let p = rect_path(sc(1.0), sc(2.0), sc(5.0), sc(6.0));
    assert_eq!(
        p.commands().as_slice(),
        &[
            PathCmd::MoveTo(pt(1.0, 2.0)),
            PathCmd::LineTo(pt(5.0, 2.0)),
            PathCmd::LineTo(pt(5.0, 6.0)),
            PathCmd::LineTo(pt(1.0, 6.0)),
            PathCmd::Close,
        ]
    );
}

#[test]
fn fill_rules_agree_on_simple_windings() {
    for w in [-1, 0, 1] {
        assert_eq!(
            fill_rule_inside(rq_fill_rule::Winding, w),
            fill_rule_inside(rq_fill_rule::EvenOdd, w)
        );
    }
    assert!(fill_rule_inside(rq_fill_rule::Winding, 1));
    assert!(!fill_rule_inside(rq_fill_rule::Winding, 0));
}

#[test]
fn fill_rules_differ_on_even_overlap() {
    for w in [2, -2, 4] {
        assert!(fill_rule_inside(rq_fill_rule::Winding, w));
        assert!(!fill_rule_inside(rq_fill_rule::EvenOdd, w));
    }
}

fn red_blue_gradient(spread: rq_spread_mode) -> rq_linear_gradient {
    let mut g = rq_linear_gradient::new(sc(0.0), sc(0.0), sc(1.0), sc(0.0), spread);
    g.add_stop(0, color(255, 0, 0, 255));
    g.add_stop(POS_ONE, color(0, 0, 255, 255));
    g
}

#[test]
fn gradient_midpoint_interpolates_exactly() {
    let g = red_blue_gradient(rq_spread_mode::Pad);
    let mid = g.eval_at(POS_ONE as i64 / 2);
    assert_eq!((mid.r, mid.g, mid.b, mid.a), (128, 0, 128, 255));
}

#[test]
fn gradient_repeat_wraps_whole_periods() {
    let g = red_blue_gradient(rq_spread_mode::Repeat);
    let half = POS_ONE as i64 / 2;
    assert_eq!(g.eval_at(half + POS_ONE as i64), g.eval_at(half));
    assert_eq!(g.eval_at(half - 2 * POS_ONE as i64), g.eval_at(half));
}

#[test]
fn gradient_pad_clamps_outside_the_axis() {
    let g = red_blue_gradient(rq_spread_mode::Pad);
    let past_end = g.eval_at(POS_ONE as i64 + POS_ONE as i64 / 2);
    assert_eq!((past_end.r, past_end.g, past_end.b, past_end.a), (0, 0, 255, 255));
    let before_start = g.eval_at(-42);
    assert_eq!((before_start.r, before_start.g, before_start.b, before_start.a), (255, 0, 0, 255));
}

#[test]
fn gradient_reflect_folds_back() {
    let g = red_blue_gradient(rq_spread_mode::Reflect);
    let half = POS_ONE as i64 / 2;
    // 1.5 reflects onto 0.5, and a shift by the full period of two is a no-op
    assert_eq!(g.eval_at(3 * half), g.eval_at(half));
    assert_eq!(g.eval_at(half + 2 * POS_ONE as i64), g.eval_at(half));
}

#[test]
fn gradient_with_no_stops_is_transparent_black() {
    let g = rq_linear_gradient::new(sc(0.0), sc(0.0), sc(1.0), sc(0.0), rq_spread_mode::Pad);
    let c = g.eval_at(123);
    assert_eq!((c.r, c.g, c.b, c.a), (0, 0, 0, 0));
}

#[test]
fn gradient_with_one_stop_is_constant() {
    let mut g = rq_linear_gradient::new(sc(0.0), sc(0.0), sc(1.0), sc(0.0), rq_spread_mode::Pad);
    g.add_stop(POS_ONE / 4, color(7, 8, 9, 10));
    for t in [-100i64, 0, 40000, 1 << 40] {
        let c = g.eval_at(t);
        assert_eq!((c.r, c.g, c.b, c.a), (7, 8, 9, 10));
    }
}

#[test]
fn gradient_stops_sort_on_insertion_and_clamp() {
    let mut g = rq_linear_gradient::new(sc(0.0), sc(0.0), sc(1.0), sc(0.0), rq_spread_mode::Pad);
    g.add_stop(POS_ONE, color(3, 3, 3, 255));
    g.add_stop(0, color(1, 1, 1, 255));
    g.add_stop(POS_ONE / 2, color(2, 2, 2, 255));
    g.add_stop(POS_ONE + 9999, color(4, 4, 4, 255)); // clamped onto the axis
    let positions: Vec<u32> = g.stops().iter().map(|s| s.position).collect();
    assert_eq!(positions, vec![0, POS_ONE / 2, POS_ONE, POS_ONE]);
    assert_eq!(g.stops()[3].color, color(4, 4, 4, 255)); // tie placed after
}

#[test]
fn gradient_stop_ties_keep_insertion_order() {
    let mut g = rq_linear_gradient::new(sc(0.0), sc(0.0), sc(1.0), sc(0.0), rq_spread_mode::Pad);
    g.add_stop(5, color(1, 0, 0, 255));
    g.add_stop(5, color(2, 0, 0, 255));
    assert_eq!(g.stops()[0], rq_gradient_stop { position: 5, color: color(1, 0, 0, 255) });
    assert_eq!(g.stops()[1], rq_gradient_stop { position: 5, color: color(2, 0, 0, 255) });
}

#[test]
fn paint_exposes_only_solid_colors() {
    let g = red_blue_gradient(rq_spread_mode::Pad);
    let gradient_paint = rq_paint::LinearGradient(&g);
    assert!(gradient_paint.solid_color().is_none());
    let solid_paint = rq_paint::Solid(color(1, 2, 3, 4));
    assert_eq!(solid_paint.solid_color(), Some(color(1, 2, 3, 4)));
}

#[test]
fn stroke_style_and_draw_options_carry_their_fields() {
    let style = rq_stroke_style {
        width: sc(2.0),
        cap: rq_cap_style::Round,
        join: rq_join_style::Bevel,
        miter_limit: sc(10.0),
        dash_array: vec![sc(1.0), sc(2.0)],
        dash_offset: sc(0.5),
    };
    assert_eq!(style.cap, rq_cap_style::Round);
    assert_eq!(style.join, rq_join_style::Bevel);
    assert_eq!(style.dash_array.len(), 2);
    let options = rq_draw_options { alpha: sc(1.0), blend_mode: rq_blend_mode::SourceCopy };
    assert_eq!(options.blend_mode, rq_blend_mode::SourceCopy);
    assert_eq!(f32::from_bits(options.alpha.bits), 1.0);
}

#[test]
fn image_new_checks_its_dimensions() {
    assert!(rq_image::new(2, 2, vec![0; 4]).is_some());
    assert!(rq_image::new(2, 2, vec![0; 3]).is_none());
    assert!(rq_image::new(-1, 2, vec![0; 4]).is_none());
    // a zero dimension gives an empty image, which is stored but never sampled
    let empty = rq_image::new(0, 2, vec![]).unwrap();
    assert_eq!(empty.width, 0);
    assert!(empty.data.is_empty());
    assert!(rq_image::new(0, 2, vec![0]).is_none());
}

#[test]
fn nearest_sampling_never_reads_out_of_bounds() {
    // row-major 2 x 2: (0,0)=1 (1,0)=2 (0,1)=3 (1,1)=4
    let img = rq_image::new(2, 2, vec![1, 2, 3, 4]).unwrap();
    assert_eq!(img.sample_nearest(0, 0, rq_extend_mode::Pad), 1);
    assert_eq!(img.sample_nearest(-5, -7, rq_extend_mode::Pad), 1);
    assert_eq!(img.sample_nearest(9, 0, rq_extend_mode::Pad), 2);
    assert_eq!(img.sample_nearest(1, 100, rq_extend_mode::Pad), 4);
    assert_eq!(img.sample_nearest(-1, 0, rq_extend_mode::Repeat), 2);
    assert_eq!(img.sample_nearest(2, 3, rq_extend_mode::Repeat), 3);
}

#[test]
fn bilinear_channel_weights_the_four_neighbors() {
    assert_eq!(bilinear_channel(10, 20, 30, 40, 128, 128), 25);
    assert_eq!(bilinear_channel(10, 20, 30, 40, 0, 0), 10);
    assert_eq!(bilinear_channel(10, 20, 30, 40, 255, 255), 40); // nearly all on c11
}

#[test]
fn bilinear_sampling_blends_packed_pixels() {
    // blue channel only: 10, 20, 30, 40
    let img = rq_image::new(2, 2, vec![10, 20, 30, 40]).unwrap();
    let p = img.sample_bilinear(0, 0, 128, 128, rq_extend_mode::Pad);
    assert_eq!(p, 25);
    let q = img.sample(0, 0, 128, 128, rq_extend_mode::Pad, rq_filter_mode::Bilinear);
    assert_eq!(q, 25);
    let n = img.sample(0, 0, 128, 128, rq_extend_mode::Pad, rq_filter_mode::Nearest);
    assert_eq!(n, 10);
}

#[test]
fn pattern_samples_with_its_own_modes() {
    let img = rq_image::new(2, 2, vec![10, 20, 30, 40]).unwrap();
    let ident = rq_transform {
        m11: sc(1.0),
        m12: sc(0.0),
        m21: sc(0.0),
        m22: sc(1.0),
        m31: sc(0.0),
        m32: sc(0.0),
    };
    let pat = rq_pattern::new(img, rq_extend_mode::Repeat, rq_filter_mode::Nearest, ident);
    assert_eq!(pat.eval_at(2, 3, 0, 0), 30);
}

#[test]
fn target_new_rejects_bad_dimensions() {
    assert!(rq_draw_target::new(-1, 4).is_none());
    assert!(rq_draw_target::new(4, -1).is_none());
    assert!(rq_draw_target::new(65536, 65536).is_none()); // pixel count overflows
    let t = rq_draw_target::new(3, 2).unwrap();
    assert_eq!(t.get_width(), 3);
    assert_eq!(t.get_height(), 2);
}

#[test]
fn fresh_target_exports_transparent_black() {
    let t = rq_draw_target::new(2, 2).unwrap();
    assert_eq!(t.get_data().data().as_slice(), &[0u8; 16]);
}

#[test]
fn clear_then_export_repeats_the_color() {
    let mut t = rq_draw_target::new(4, 4).unwrap();
    t.clear(color(255, 128, 0, 255)); // opaque orange
    let bytes = t.get_data();
    assert_eq!(bytes.data().len(), 4 * 4 * 4);
    for px in bytes.data().chunks(4) {
        assert_eq!(px, &[0, 128, 255, 255]); // B, G, R, A
    }
}

#[test]
fn clear_premultiplies_translucent_colors() {
    let mut t = rq_draw_target::new(1, 1).unwrap();
    t.clear(color(255, 0, 100, 128));
    assert_eq!(t.get_data().data().as_slice(), &[50, 0, 128, 128]);
}
