use skia_handles::heap::NativeHeap;
use skia_handles::paint::{
    BlendMode, Cap, FilterQuality, Join, Paint, PaintNative, Shader, Style,
};
use skia_handles::handle::RCHandle;

#[test]
fn test_style_naming() {
    let _ = Style::Fill;
}

#[test]
fn test_cap_naming() {
    let _ = Cap::Butt;
}

#[test]
fn test_join_naming() {
    let _ = Join::Miter;
}

#[test]
fn default_creation() {
    let mut heap = NativeHeap::new();
    let paint = Paint::default(&mut heap);
    paint.release(&mut heap);
    assert_eq!(heap.live_values(), 0);
}

#[test]
fn method_chaining_compiles() {
    let mut heap = NativeHeap::new();
    let mut paint = Paint::default(&mut heap);
    let _paint = paint.reset(&mut heap).reset(&mut heap);
}

#[test]
fn union_flags() {
    let mut heap = NativeHeap::new();
    let mut paint = Paint::default(&mut heap);
    assert!(!paint.is_anti_alias());
    assert!(!paint.is_dither());
    assert_eq!(paint.filter_quality(), FilterQuality::Unfiltered);
    assert_eq!(paint.style(), Style::Fill);

    {
        paint.set_anti_alias(true);

        assert!(paint.is_anti_alias());
        assert!(!paint.is_dither());
        assert_eq!(paint.filter_quality(), FilterQuality::Unfiltered);
        assert_eq!(paint.style(), Style::Fill);

        paint.set_anti_alias(false);
    }

    {
        paint.set_filter_quality(FilterQuality::High);

        assert!(!paint.is_anti_alias());
        assert!(!paint.is_dither());
        assert_eq!(paint.filter_quality(), FilterQuality::High);
        assert_eq!(paint.style(), Style::Fill);

        paint.set_filter_quality(FilterQuality::Unfiltered);
    }

    {
        paint.set_style(Style::StrokeAndFill);

        assert!(!paint.is_anti_alias());
        assert!(!paint.is_dither());
        assert_eq!(paint.filter_quality(), FilterQuality::Unfiltered);
        assert_eq!(paint.style(), Style::StrokeAndFill);

        paint.set_style(Style::Fill);
    }
}

#[test]
fn default_paint_values() {
    let mut heap = NativeHeap::new();
    let paint = Paint::default(&mut heap);
    assert_eq!(paint.stroke_cap(), Cap::Butt);
    assert_eq!(paint.stroke_join(), Join::Miter);
    assert_eq!(paint.blend_mode(), BlendMode::SrcOver);
    assert!(paint.is_src_over());
    assert!(paint.shader(&mut heap).is_none());
    assert!(paint.color_filter(&mut heap).is_none());
    assert!(paint.path_effect(&mut heap).is_none());
    assert!(paint.mask_filter(&mut heap).is_none());
    assert!(paint.image_filter(&mut heap).is_none());
    assert_eq!(heap.live_values(), 1);
}

#[test]
fn setters_change_one_field() {
    let mut heap = NativeHeap::new();
    let mut paint = Paint::default(&mut heap);
    paint.set_stroke(true).set_stroke_cap(Cap::Round).set_stroke_join(Join::Bevel);
    assert_eq!(paint.style(), Style::Stroke);
    assert_eq!(paint.stroke_cap(), Cap::Round);
    assert_eq!(paint.stroke_join(), Join::Bevel);
    paint.set_stroke(false);
    assert_eq!(paint.style(), Style::Fill);
    paint.set_dither(true);
    assert!(paint.is_dither());
    paint.set_blend_mode(BlendMode::Multiply);
    assert_eq!(paint.blend_mode(), BlendMode::Multiply);
    assert!(!paint.is_src_over());
    assert_eq!(paint.stroke_cap(), Cap::Round);
}

#[test]
fn clone_mutate_leaves_original() {
    let mut heap = NativeHeap::new();
    let baseline = heap.live_values();
    let original = Paint::default(&mut heap);
    let mut copy = original.clone(&mut heap);
    assert!(copy.eq(&original));
    assert_eq!(heap.live_values(), baseline + 2);
    copy.native_mut().anti_alias = true;
    copy.native_mut().style = Style::Stroke;
    assert!(!original.is_anti_alias());
    assert_eq!(original.style(), Style::Fill);
    assert!(copy.is_anti_alias());
    assert!(!copy.eq(&original));
    copy.release(&mut heap);
    original.release(&mut heap);
    assert_eq!(heap.live_values(), baseline);
}

#[test]
fn clone_equals_and_hashes_equal() {
    let mut heap = NativeHeap::new();
    let mut paint = Paint::default(&mut heap);
    paint.set_anti_alias(true).set_blend_mode(BlendMode::Screen);
    let copy = paint.clone(&mut heap);
    assert!(copy.eq(&paint));
    assert!(paint.eq(&copy));
    assert_eq!(copy.hash(), paint.hash());
    assert!(paint.is_anti_alias());
    assert_eq!(paint.blend_mode(), BlendMode::Screen);
}

#[test]
fn equal_paints_hash_equal() {
    let mut heap = NativeHeap::new();
    let mut samples: Vec<Paint> = Vec::new();
    for i in 0..16u64 {
        let mut p = Paint::default(&mut heap);
        p.set_anti_alias(i % 2 == 1).set_dither(i % 3 == 0);
        if i % 4 == 0 {
            p.set_style(Style::Stroke);
        }
        samples.push(p);
    }
    for a in &samples {
        for b in &samples {
            if a.eq(b) {
                assert_eq!(a.hash(), b.hash());
            }
        }
    }
    assert_ne!(samples[1].hash(), samples[2].hash());
}

#[test]
fn construct_release_cycles_return_to_baseline() {
    let mut heap = NativeHeap::new();
    let baseline = heap.live_values();
    for _ in 0..100 {
        let p = Paint::default(&mut heap);
        assert_eq!(heap.live_values(), baseline + 1);
        p.release(&mut heap);
    }
    assert_eq!(heap.live_values(), baseline);
}

#[test]
fn shader_slot_shares_reference() {
    let mut heap = NativeHeap::new();
    let p = heap.new_object();
    let shader: Shader = RCHandle::from_owned_pointer(p).unwrap();
    let mut paint = Paint::default(&mut heap);
    paint.set_shader(&mut heap, Some(shader));
    assert_eq!(heap.ref_count(p), 1);
    let got = paint.shader(&mut heap).unwrap();
    assert_eq!(got.native_ptr(), p);
    assert_eq!(heap.ref_count(p), 2);
    got.release(&mut heap);
    assert_eq!(heap.ref_count(p), 1);
    let copy = paint.clone(&mut heap);
    assert_eq!(heap.ref_count(p), 2);
    copy.release(&mut heap);
    assert_eq!(heap.ref_count(p), 1);
    paint.release(&mut heap);
    assert_eq!(heap.ref_count(p), 0);
    assert_eq!(heap.destructions(p), 1);
    assert_eq!(heap.live_values(), 0);
}

#[test]
fn setting_slot_replaces_reference() {
    let mut heap = NativeHeap::new();
    let first = heap.new_object();
    let second = heap.new_object();
    let mut paint = Paint::default(&mut heap);
    paint.set_color_filter(&mut heap, RCHandle::from_owned_pointer(first));
    paint.set_color_filter(&mut heap, RCHandle::from_owned_pointer(second));
    assert_eq!(heap.ref_count(first), 0);
    assert_eq!(heap.destructions(first), 1);
    assert_eq!(heap.ref_count(second), 1);
    paint.set_color_filter(&mut heap, None);
    assert_eq!(heap.destructions(second), 1);
    assert!(paint.color_filter(&mut heap).is_none());
}

#[test]
fn reset_releases_slots() {
    let mut heap = NativeHeap::new();
    let a = heap.new_object();
    let b = heap.new_object();
    let c = heap.new_object();
    let mut paint = Paint::default(&mut heap);
    paint.set_path_effect(&mut heap, RCHandle::from_owned_pointer(a));
    paint.set_mask_filter(&mut heap, RCHandle::from_owned_pointer(b));
    paint.set_image_filter(&mut heap, RCHandle::from_owned_pointer(c));
    paint.set_anti_alias(true);
    paint.reset(&mut heap);
    assert!(!paint.is_anti_alias());
    assert_eq!(heap.destructions(a), 1);
    assert_eq!(heap.destructions(b), 1);
    assert_eq!(heap.destructions(c), 1);
    assert!(paint.path_effect(&mut heap).is_none());
}

#[test]
fn native_value_round_trip() {
    let native = PaintNative {
        anti_alias: true,
        dither: false,
        filter_quality: FilterQuality::Medium,
        style: Style::StrokeAndFill,
        cap: Cap::Square,
        join: Join::Round,
        blend_mode: BlendMode::Xor,
        shader: 0,
        color_filter: 0,
        path_effect: 0,
        mask_filter: 0,
        image_filter: 0,
    };
    let paint = Paint::from_native_c(native);
    assert_eq!(paint.filter_quality(), FilterQuality::Medium);
    assert_eq!(paint.stroke_cap(), Cap::Square);
    assert_eq!(paint.stroke_join(), Join::Round);
    assert_eq!(paint.native().blend_mode, BlendMode::Xor);
    let back = paint.into_native();
    assert!(back.anti_alias);
}
