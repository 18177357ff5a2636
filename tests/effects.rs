use skia_handles::codec::EncodedOrigin;
use skia_handles::handle::{Handle, NativeTransmutable};
use skia_handles::runtime_effect::{
    Options, Uniform, UniformNative, UniformType, Varying, VaryingNative, ARRAY_FLAG, MARKER_FLAG,
};

#[test]
fn options_layout() {
    assert!(Options::test_layout());
}

#[test]
fn test_type_naming() {
    let _ = UniformType::Float2x2;
}

#[test]
fn default_options() {
    let o = Options::default();
    assert!(!o.force_no_inline);
}

fn uniform(ty: UniformType, count: i32, flags: u32) -> Uniform {
    Handle::from_native_c(UniformNative {
        name: String::from("u_color"),
        offset: 16,
        ty,
        count,
        flags,
        marker: 7,
    })
}

#[test]
fn uniform_fields() {
    let u = uniform(UniformType::Float4, 1, MARKER_FLAG);
    assert_eq!(u.name(), "u_color");
    assert_eq!(u.offset(), 16);
    assert_eq!(u.ty(), UniformType::Float4);
    assert_eq!(u.count(), 1);
    assert_eq!(u.flags(), MARKER_FLAG);
    assert_eq!(u.marker(), 7);
    assert!(!u.is_array());
}

#[test]
fn uniform_array_size() {
    let u = uniform(UniformType::Float3x3, 4, ARRAY_FLAG);
    assert!(u.is_array());
    assert_eq!(u.size_in_bytes(), 144);
    assert_eq!(uniform(UniformType::Int2, 3, ARRAY_FLAG).size_in_bytes(), 24);
    assert_eq!(uniform(UniformType::Float, 1, 0).size_in_bytes(), 4);
    assert_eq!(uniform(UniformType::Float4x4, 0, ARRAY_FLAG).size_in_bytes(), 0);
}

#[test]
fn varying_fields() {
    let v: Varying = Handle::from_native_c(VaryingNative { name: String::from("v_uv"), width: 2 });
    assert_eq!(v.name(), "v_uv");
    assert_eq!(v.width(), 2);
}

#[test]
fn encoded_origin_rotation() {
    assert_eq!(EncodedOrigin::default(), EncodedOrigin::TopLeft);
    assert_eq!(EncodedOrigin::DEFAULT, EncodedOrigin::TopLeft);
    assert_eq!(EncodedOrigin::LAST, EncodedOrigin::LeftBottom);
    assert!(!EncodedOrigin::TopLeft.swaps_width_height());
    assert!(!EncodedOrigin::BottomLeft.swaps_width_height());
    assert!(EncodedOrigin::LeftTop.swaps_width_height());
    assert!(EncodedOrigin::RightTop.swaps_width_height());
    assert!(EncodedOrigin::LeftBottom.swaps_width_height());
    assert_eq!(EncodedOrigin::RightBottom.exif(), 7);
}
