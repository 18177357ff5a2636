use skia_handles::handle::{into_ptr_or_null, NativeRefCnt, RCHandle};
use skia_handles::heap::NativeHeap;
use skia_handles::paint::{NativeShader, Shader};
use skia_handles::runtime_effect::{child_index, new_from_ptr, RuntimeEffect};

#[test]
fn adopt_clone_release_scenario() {
    let mut heap = NativeHeap::new();
    let p = heap.new_object();
    assert_eq!(heap.ref_count(p), 1);
    let original: Shader = RCHandle::from_owned_pointer(p).unwrap();
    assert_eq!(heap.ref_count(p), 1);
    let copy = original.clone(&mut heap);
    assert_eq!(heap.ref_count(p), 2);
    copy.release(&mut heap);
    assert_eq!(heap.ref_count(p), 1);
    assert_eq!(heap.destructions(p), 0);
    original.release(&mut heap);
    assert_eq!(heap.ref_count(p), 0);
    assert_eq!(heap.destructions(p), 1);
}

#[test]
fn null_pointer_gives_no_handle() {
    let mut heap = NativeHeap::new();
    let p = heap.new_object();
    assert!(RCHandle::<NativeShader>::from_owned_pointer(0).is_none());
    assert!(RCHandle::<NativeShader>::from_shared_pointer(&mut heap, 0).is_none());
    assert!(RCHandle::<NativeShader>::from_unshared_ptr(&mut heap, 0).is_none());
    assert_eq!(heap.ref_count(p), 1);
    assert_eq!(heap.destructions(p), 0);
}

#[test]
fn shared_then_released_keeps_original() {
    let mut heap = NativeHeap::new();
    let p = heap.new_object();
    let shared: Shader = RCHandle::from_shared_pointer(&mut heap, p).unwrap();
    assert_eq!(shared.native_ptr(), p);
    assert_eq!(heap.ref_count(p), 2);
    shared.release(&mut heap);
    assert_eq!(heap.ref_count(p), 1);
    assert_eq!(heap.destructions(p), 0);
}

#[test]
fn owned_then_released_destroys_once() {
    let mut heap = NativeHeap::new();
    let p = heap.new_object();
    let other = heap.new_object();
    let owned: Shader = RCHandle::from_owned_pointer(p).unwrap();
    owned.release(&mut heap);
    assert_eq!(heap.ref_count(p), 0);
    assert_eq!(heap.destructions(p), 1);
    assert_eq!(heap.ref_count(other), 1);
    assert_eq!(heap.destructions(other), 0);
}

#[test]
fn unshared_view_takes_reference() {
    let mut heap = NativeHeap::new();
    let p = heap.new_object();
    let view: Shader = RCHandle::from_unshared_ptr(&mut heap, p).unwrap();
    assert_eq!(heap.ref_count(p), 2);
    view.release(&mut heap);
    assert_eq!(heap.ref_count(p), 1);
}

#[test]
fn pointers_are_handed_over() {
    let mut heap = NativeHeap::new();
    let p = heap.new_object();
    let q = heap.new_object();
    assert_eq!(p, 1);
    assert_eq!(q, 2);
    let h: Shader = RCHandle::from_owned_pointer(q).unwrap();
    let base: RCHandle<NativeRefCnt> = h.upcast();
    assert_eq!(base.native_ptr(), q);
    assert_eq!(base.into_ptr(), q);
    assert_eq!(into_ptr_or_null::<NativeShader>(None), 0);
    assert_eq!(into_ptr_or_null::<NativeShader>(RCHandle::from_owned_pointer(p)), p);
    assert_eq!(heap.ref_count(q), 1);
}

#[test]
fn runtime_effect_from_factory_result() {
    let failed = new_from_ptr(0, String::from("error: unknown identifier"));
    assert_eq!(failed.err(), Some(String::from("error: unknown identifier")));
    let mut heap = NativeHeap::new();
    let p = heap.new_object();
    let made: RuntimeEffect = new_from_ptr(p, String::new()).unwrap();
    assert_eq!(made.native_ptr(), p);
    made.release(&mut heap);
    assert_eq!(heap.destructions(p), 1);
}

#[test]
fn child_lookup_index() {
    assert_eq!(child_index(-1), None);
    assert_eq!(child_index(0), Some(0));
    assert_eq!(child_index(3), Some(3));
}
