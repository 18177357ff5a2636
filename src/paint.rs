//! Paint: how geometry is drawn. A value-owned handle around the native
//! paint, which refers to up to five shared effect objects.
//!
//! The native paint is modelled by `PaintNative`, the plain values of the
//! fields that this library reads and writes; its copy, equality and hash
//! are the model's own. Colour, stroke width and miter limit are floating-point values on the
//! native side and are not part of this model.

use crate::handle::{
    into_ptr_or_null, Handle, NativeClone, NativeDefault, NativeDrop, NativeHash, NativePartialEq,
    NativeRefCnt, NativeRefCountedBase, RCHandle,
};
use crate::heap::{HeapView, NativeHeap};
use vstd::prelude::*;

verus! {

#[derive(Clone, Copy, Debug, PartialEq, Eq, Structural, Hash)]
pub enum Style {
    Fill,
    Stroke,
    StrokeAndFill,
}

#[derive(Clone, Copy, Debug, PartialEq, Eq, Structural, Hash)]
pub enum Cap {
    Butt,
    Round,
    Square,
}

#[derive(Clone, Copy, Debug, PartialEq, Eq, Structural, Hash)]
pub enum Join {
    Miter,
    Round,
    Bevel,
}

#[derive(Clone, Copy, Debug, PartialEq, Eq, Structural, Hash)]
pub enum FilterQuality {
    Unfiltered,
    Low,
    Medium,
    High,
}

#[derive(Clone, Copy, Debug, PartialEq, Eq, Structural, Hash)]
pub enum BlendMode {
    Clear,
    Src,
    Dst,
    SrcOver,
    DstOver,
    SrcIn,
    DstIn,
    SrcOut,
    DstOut,
    SrcATop,
    DstATop,
    Xor,
    Plus,
    Modulate,
    Screen,
    Overlay,
    Darken,
    Lighten,
    ColorDodge,
    ColorBurn,
    HardLight,
    SoftLight,
    Difference,
    Exclusion,
    Multiply,
    Hue,
    Saturation,
    Color,
    Luminosity,
}

/// Kinds of shared effect objects.
pub struct NativeShader;

pub struct NativeColorFilter;

pub struct NativePathEffect;

pub struct NativeMaskFilter;

pub struct NativeImageFilter;

impl NativeRefCountedBase for NativeShader {
    type Base = NativeRefCnt;

    open spec fn base_offset() -> nat {
        0
    }
}

impl NativeRefCountedBase for NativeColorFilter {
    type Base = NativeRefCnt;

    open spec fn base_offset() -> nat {
        0
    }
}

impl NativeRefCountedBase for NativePathEffect {
    type Base = NativeRefCnt;

    open spec fn base_offset() -> nat {
        0
    }
}

impl NativeRefCountedBase for NativeMaskFilter {
    type Base = NativeRefCnt;

    open spec fn base_offset() -> nat {
        0
    }
}

impl NativeRefCountedBase for NativeImageFilter {
    type Base = NativeRefCnt;

    open spec fn base_offset() -> nat {
        0
    }
}

pub type Shader = RCHandle<NativeShader>;

pub type ColorFilter = RCHandle<NativeColorFilter>;

pub type PathEffect = RCHandle<NativePathEffect>;

pub type MaskFilter = RCHandle<NativeMaskFilter>;

pub type ImageFilter = RCHandle<NativeImageFilter>;

/// The native paint. Each effect slot holds a pointer that owns one
/// reference, or null.
#[derive(PartialEq, Eq, Structural)]
pub struct PaintNative {
    pub anti_alias: bool,
    pub dither: bool,
    pub filter_quality: FilterQuality,
    pub style: Style,
    pub cap: Cap,
    pub join: Join,
    pub blend_mode: BlendMode,
    pub shader: u64,
    pub color_filter: u64,
    pub path_effect: u64,
    pub mask_filter: u64,
    pub image_filter: u64,
}

pub type Paint = Handle<PaintNative>;

/// A slot is empty, or its object is alive and no other slot names it.
pub open spec fn slot_ok(heap: HeapView, p: u64, others: Seq<u64>) -> bool {
    p != 0 ==> heap.live(p) && !others.contains(p)
}

impl PaintNative {
    pub open spec fn slots(&self) -> Seq<u64> {
        seq![self.shader, self.color_filter, self.path_effect, self.mask_filter, self.image_filter]
    }

    pub open spec fn slots_live(&self, heap: HeapView) -> bool {
        forall|i: int|
            0 <= i < 5 ==> slot_ok(heap, #[trigger] self.slots()[i], self.slots().remove(i))
    }

    pub open spec fn slots_room(&self, heap: HeapView) -> bool {
        forall|i: int| 0 <= i < 5 && #[trigger] self.slots()[i] != 0 ==> heap.count(self.slots()[i]) < u64::MAX
    }

    /// A hash of the flags and the effect slots; it depends on the value
    /// alone.
    pub open spec fn hash_of(&self) -> u64 {
        let flags: u64 = (if self.anti_alias { 1u64 } else { 0u64 }) | (if self.dither { 2u64 } else { 0u64 });
        flags ^ self.shader ^ (self.color_filter << 13u64) ^ (self.path_effect << 26u64) ^ (
        self.mask_filter << 39u64) ^ (self.image_filter << 52u64)
    }
}

/// Gives up the reference in one slot, if any.
fn release_slot(heap: &mut NativeHeap, p: u64)
    requires
        old(heap).wf(),
        p != 0 ==> old(heap)@.live(p),
    ensures
        final(heap).wf(),
        p == 0 ==> final(heap)@ == old(heap)@,
        p != 0 ==> final(heap)@ == old(heap)@.with_unref(p),
{
    if p != 0 {
        heap.unref_object(p);
    }
}

/// Takes a further reference in one slot, if any.
fn retain_slot(heap: &mut NativeHeap, p: u64)
    requires
        old(heap).wf(),
        p != 0 ==> old(heap)@.live(p) && old(heap)@.count(p) < u64::MAX,
    ensures
        final(heap).wf(),
        p == 0 ==> final(heap)@ == old(heap)@,
        p != 0 ==> final(heap)@ == old(heap)@.with_ref(p),
{
    if p != 0 {
        heap.ref_object(p);
    }
}

impl NativeDefault for PaintNative {
    open spec fn default_spec() -> PaintNative {
        PaintNative {
            anti_alias: false,
            dither: false,
            filter_quality: FilterQuality::Unfiltered,
            style: Style::Fill,
            cap: Cap::Butt,
            join: Join::Miter,
            blend_mode: BlendMode::SrcOver,
            shader: 0,
            color_filter: 0,
            path_effect: 0,
            mask_filter: 0,
            image_filter: 0,
        }
    }

    fn default() -> (r: PaintNative) {
        PaintNative {
            anti_alias: false,
            dither: false,
            filter_quality: FilterQuality::Unfiltered,
            style: Style::Fill,
            cap: Cap::Butt,
            join: Join::Miter,
            blend_mode: BlendMode::SrcOver,
            shader: 0,
            color_filter: 0,
            path_effect: 0,
            mask_filter: 0,
            image_filter: 0,
        }
    }
}

impl NativeDrop for PaintNative {
    open spec fn refs_live(&self, heap: HeapView) -> bool {
        self.slots_live(heap)
    }

    /// Each slot gives its reference up, in order.
    open spec fn dropped(&self, heap: HeapView) -> HeapView {
        released_slot(
            self.image_filter,
            released_slot(
                self.mask_filter,
                released_slot(
                    self.path_effect,
                    released_slot(self.color_filter, released_slot(self.shader, heap)),
                ),
            ),
        )
    }

    /// Gives up the reference of each slot and leaves the slots empty.
    fn drop(&mut self, heap: &mut NativeHeap) {
        let ghost h0 = heap@;
        let ghost s = self.slots();
        assert(slot_ok(h0, s[0], s.remove(0)));
        assert(slot_ok(h0, s[1], s.remove(1)));
        assert(slot_ok(h0, s[2], s.remove(2)));
        assert(slot_ok(h0, s[3], s.remove(3)));
        assert(slot_ok(h0, s[4], s.remove(4)));
        assert(s.remove(0) =~= seq![s[1], s[2], s[3], s[4]]);
        assert(s.remove(1) =~= seq![s[0], s[2], s[3], s[4]]);
        assert(s.remove(2) =~= seq![s[0], s[1], s[3], s[4]]);
        assert(s.remove(3) =~= seq![s[0], s[1], s[2], s[4]]);
        release_slot(heap, self.shader);
        release_slot(heap, self.color_filter);
        release_slot(heap, self.path_effect);
        release_slot(heap, self.mask_filter);
        release_slot(heap, self.image_filter);
        self.shader = 0;
        self.color_filter = 0;
        self.path_effect = 0;
        self.mask_filter = 0;
        self.image_filter = 0;
    }
}

impl NativeClone for PaintNative {
    open spec fn can_clone(&self, heap: HeapView) -> bool {
        self.slots_live(heap) && self.slots_room(heap)
    }

    /// Each slot takes a further reference, in order.
    open spec fn cloned(&self, heap: HeapView) -> HeapView {
        retained_slot(
            self.image_filter,
            retained_slot(
                self.mask_filter,
                retained_slot(
                    self.path_effect,
                    retained_slot(self.color_filter, retained_slot(self.shader, heap)),
                ),
            ),
        )
    }

    /// Copies the fields; the copy takes a reference of its own in each slot.
    fn clone(&self, heap: &mut NativeHeap) -> (r: PaintNative) {
        let ghost h0 = heap@;
        let ghost s = self.slots();
        assert(slot_ok(h0, s[0], s.remove(0)));
        assert(slot_ok(h0, s[1], s.remove(1)));
        assert(slot_ok(h0, s[2], s.remove(2)));
        assert(slot_ok(h0, s[3], s.remove(3)));
        assert(slot_ok(h0, s[4], s.remove(4)));
        assert(s.remove(0) =~= seq![s[1], s[2], s[3], s[4]]);
        assert(s.remove(1) =~= seq![s[0], s[2], s[3], s[4]]);
        assert(s.remove(2) =~= seq![s[0], s[1], s[3], s[4]]);
        assert(s.remove(3) =~= seq![s[0], s[1], s[2], s[4]]);
        assert(s[0] != 0 ==> h0.count(s[0]) < u64::MAX);
        assert(s[1] != 0 ==> h0.count(s[1]) < u64::MAX);
        assert(s[2] != 0 ==> h0.count(s[2]) < u64::MAX);
        assert(s[3] != 0 ==> h0.count(s[3]) < u64::MAX);
        assert(s[4] != 0 ==> h0.count(s[4]) < u64::MAX);
        retain_slot(heap, self.shader);
        retain_slot(heap, self.color_filter);
        retain_slot(heap, self.path_effect);
        retain_slot(heap, self.mask_filter);
        retain_slot(heap, self.image_filter);
        PaintNative {
            anti_alias: self.anti_alias,
            dither: self.dither,
            filter_quality: self.filter_quality,
            style: self.style,
            cap: self.cap,
            join: self.join,
            blend_mode: self.blend_mode,
            shader: self.shader,
            color_filter: self.color_filter,
            path_effect: self.path_effect,
            mask_filter: self.mask_filter,
            image_filter: self.image_filter,
        }
    }
}

impl NativePartialEq for PaintNative {
    fn eq(&self, rhs: &PaintNative) -> (r: bool) {
        self.anti_alias == rhs.anti_alias && self.dither == rhs.dither && self.filter_quality
            == rhs.filter_quality && self.style == rhs.style && self.cap == rhs.cap && self.join
            == rhs.join && self.blend_mode == rhs.blend_mode && self.shader == rhs.shader
            && self.color_filter == rhs.color_filter && self.path_effect == rhs.path_effect
            && self.mask_filter == rhs.mask_filter && self.image_filter == rhs.image_filter
    }
}

impl NativeHash for PaintNative {
    open spec fn hash_spec(&self) -> u64 {
        self.hash_of()
    }

    fn hash(&self) -> (r: u64) {
        let flags: u64 = (if self.anti_alias { 1u64 } else { 0u64 }) | (if self.dither { 2u64 } else { 0u64 });
        flags ^ self.shader ^ (self.color_filter << 13u64) ^ (self.path_effect << 26u64) ^ (
        self.mask_filter << 39u64) ^ (self.image_filter << 52u64)
    }
}

/// `r` is the handle that a getter of a slot holding `p` returns: none for
/// an empty slot, else a handle to `p` with a reference of its own.
pub open spec fn shared_slot<N>(p: u64, r: Option<RCHandle<N>>, before: HeapView, after: HeapView) -> bool {
    if p == 0 {
        r is None && after == before
    } else {
        r is Some && r.unwrap()@ == p && after == before.with_ref(p)
    }
}

/// What the native side has once a slot holding `p` gives its reference up.
pub open spec fn released_slot(p: u64, before: HeapView) -> HeapView {
    if p == 0 {
        before
    } else {
        before.with_unref(p)
    }
}

/// What the native side has once a slot holding `p` takes a further
/// reference.
pub open spec fn retained_slot(p: u64, before: HeapView) -> HeapView {
    if p == 0 {
        before
    } else {
        before.with_ref(p)
    }
}

/// The pointer that a slot holds after it is handed `r`.
pub open spec fn slot_of<N>(r: Option<RCHandle<N>>) -> u64 {
    match r {
        Some(h) => h@,
        None => 0,
    }
}

impl Handle<PaintNative> {
    /// Back to the defaults, giving up the references of all slots.
    pub fn reset(&mut self, heap: &mut NativeHeap) -> (r: &mut Self)
        requires
            old(heap).wf(),
            old(self)@.refs_live(old(heap)@),
        ensures
            final(heap).wf(),
            final(heap)@ == old(self)@.dropped(old(heap)@),
            final(self)@ == final(r)@,
            r@ == PaintNative::default_spec(),
    {
        let n = self.native_mut();
        n.drop(heap);
        *n = PaintNative::default();
        self
    }

    pub fn is_anti_alias(&self) -> (r: bool)
        ensures
            r == self@.anti_alias,
    {
        self.native().anti_alias
    }

    pub fn set_anti_alias(&mut self, anti_alias: bool) -> (r: &mut Self)
        ensures
            final(self)@ == final(r)@,
            r@ == (PaintNative { anti_alias, ..old(self)@ }),
    {
        self.native_mut().anti_alias = anti_alias;
        self
    }

    pub fn is_dither(&self) -> (r: bool)
        ensures
            r == self@.dither,
    {
        self.native().dither
    }

    pub fn set_dither(&mut self, dither: bool) -> (r: &mut Self)
        ensures
            final(self)@ == final(r)@,
            r@ == (PaintNative { dither, ..old(self)@ }),
    {
        self.native_mut().dither = dither;
        self
    }

    pub fn filter_quality(&self) -> (r: FilterQuality)
        ensures
            r == self@.filter_quality,
    {
        self.native().filter_quality
    }

    pub fn set_filter_quality(&mut self, quality: FilterQuality) -> (r: &mut Self)
        ensures
            final(self)@ == final(r)@,
            r@ == (PaintNative { filter_quality: quality, ..old(self)@ }),
    {
        self.native_mut().filter_quality = quality;
        self
    }

    pub fn style(&self) -> (r: Style)
        ensures
            r == self@.style,
    {
        self.native().style
    }

    pub fn set_style(&mut self, style: Style) -> (r: &mut Self)
        ensures
            final(self)@ == final(r)@,
            r@ == (PaintNative { style, ..old(self)@ }),
    {
        self.native_mut().style = style;
        self
    }

    /// Strokes when `stroke` holds, else fills.
    pub fn set_stroke(&mut self, stroke: bool) -> (r: &mut Self)
        ensures
            final(self)@ == final(r)@,
            r@ == (PaintNative {
                style: if stroke {
                    Style::Stroke
                } else {
                    Style::Fill
                },
                ..old(self)@
            }),
    {
        let style = if stroke {
            Style::Stroke
        } else {
            Style::Fill
        };
        self.set_style(style)
    }

    pub fn stroke_cap(&self) -> (r: Cap)
        ensures
            r == self@.cap,
    {
        self.native().cap
    }

    pub fn set_stroke_cap(&mut self, cap: Cap) -> (r: &mut Self)
        ensures
            final(self)@ == final(r)@,
            r@ == (PaintNative { cap, ..old(self)@ }),
    {
        self.native_mut().cap = cap;
        self
    }

    pub fn stroke_join(&self) -> (r: Join)
        ensures
            r == self@.join,
    {
        self.native().join
    }

    pub fn set_stroke_join(&mut self, join: Join) -> (r: &mut Self)
        ensures
            final(self)@ == final(r)@,
            r@ == (PaintNative { join, ..old(self)@ }),
    {
        self.native_mut().join = join;
        self
    }

    pub fn blend_mode(&self) -> (r: BlendMode)
        ensures
            r == self@.blend_mode,
    {
        self.native().blend_mode
    }

    pub fn is_src_over(&self) -> (r: bool)
        ensures
            r == (self@.blend_mode == BlendMode::SrcOver),
    {
        self.blend_mode() == BlendMode::SrcOver
    }

    pub fn set_blend_mode(&mut self, mode: BlendMode) -> (r: &mut Self)
        ensures
            final(self)@ == final(r)@,
            r@ == (PaintNative { blend_mode: mode, ..old(self)@ }),
    {
        self.native_mut().blend_mode = mode;
        self
    }

    pub fn shader(&self, heap: &mut NativeHeap) -> (r: Option<Shader>)
        requires
            old(heap).wf(),
            self@.shader != 0 ==> old(heap)@.live(self@.shader) && old(heap)@.count(self@.shader) < u64::MAX,
        ensures
            final(heap).wf(),
            shared_slot(self@.shader, r, old(heap)@, final(heap)@),
    {
        RCHandle::from_unshared_ptr(heap, self.native().shader)
    }

    /// Gives up the reference the slot held and takes over the one of `shader`.
    pub fn set_shader(&mut self, heap: &mut NativeHeap, shader: Option<Shader>) -> (r: &mut Self)
        requires
            old(heap).wf(),
            old(self)@.shader != 0 ==> old(heap)@.live(old(self)@.shader),
        ensures
            final(heap).wf(),
            final(heap)@ == released_slot(old(self)@.shader, old(heap)@),
            final(self)@ == final(r)@,
            r@ == (PaintNative { shader: slot_of(shader), ..old(self)@ }),
    {
        let n = self.native_mut();
        release_slot(heap, n.shader);
        n.shader = into_ptr_or_null(shader);
        self
    }

    pub fn color_filter(&self, heap: &mut NativeHeap) -> (r: Option<ColorFilter>)
        requires
            old(heap).wf(),
            self@.color_filter != 0 ==> old(heap)@.live(self@.color_filter) && old(heap)@.count(self@.color_filter) < u64::MAX,
        ensures
            final(heap).wf(),
            shared_slot(self@.color_filter, r, old(heap)@, final(heap)@),
    {
        RCHandle::from_unshared_ptr(heap, self.native().color_filter)
    }

    /// Gives up the reference the slot held and takes over the one of `color_filter`.
    pub fn set_color_filter(&mut self, heap: &mut NativeHeap, color_filter: Option<ColorFilter>) -> (r: &mut Self)
        requires
            old(heap).wf(),
            old(self)@.color_filter != 0 ==> old(heap)@.live(old(self)@.color_filter),
        ensures
            final(heap).wf(),
            final(heap)@ == released_slot(old(self)@.color_filter, old(heap)@),
            final(self)@ == final(r)@,
            r@ == (PaintNative { color_filter: slot_of(color_filter), ..old(self)@ }),
    {
        let n = self.native_mut();
        release_slot(heap, n.color_filter);
        n.color_filter = into_ptr_or_null(color_filter);
        self
    }

    pub fn path_effect(&self, heap: &mut NativeHeap) -> (r: Option<PathEffect>)
        requires
            old(heap).wf(),
            self@.path_effect != 0 ==> old(heap)@.live(self@.path_effect) && old(heap)@.count(self@.path_effect) < u64::MAX,
        ensures
            final(heap).wf(),
            shared_slot(self@.path_effect, r, old(heap)@, final(heap)@),
    {
        RCHandle::from_unshared_ptr(heap, self.native().path_effect)
    }

    /// Gives up the reference the slot held and takes over the one of `path_effect`.
    pub fn set_path_effect(&mut self, heap: &mut NativeHeap, path_effect: Option<PathEffect>) -> (r: &mut Self)
        requires
            old(heap).wf(),
            old(self)@.path_effect != 0 ==> old(heap)@.live(old(self)@.path_effect),
        ensures
            final(heap).wf(),
            final(heap)@ == released_slot(old(self)@.path_effect, old(heap)@),
            final(self)@ == final(r)@,
            r@ == (PaintNative { path_effect: slot_of(path_effect), ..old(self)@ }),
    {
        let n = self.native_mut();
        release_slot(heap, n.path_effect);
        n.path_effect = into_ptr_or_null(path_effect);
        self
    }

    pub fn mask_filter(&self, heap: &mut NativeHeap) -> (r: Option<MaskFilter>)
        requires
            old(heap).wf(),
            self@.mask_filter != 0 ==> old(heap)@.live(self@.mask_filter) && old(heap)@.count(self@.mask_filter) < u64::MAX,
        ensures
            final(heap).wf(),
            shared_slot(self@.mask_filter, r, old(heap)@, final(heap)@),
    {
        RCHandle::from_unshared_ptr(heap, self.native().mask_filter)
    }

    /// Gives up the reference the slot held and takes over the one of `mask_filter`.
    pub fn set_mask_filter(&mut self, heap: &mut NativeHeap, mask_filter: Option<MaskFilter>) -> (r: &mut Self)
        requires
            old(heap).wf(),
            old(self)@.mask_filter != 0 ==> old(heap)@.live(old(self)@.mask_filter),
        ensures
            final(heap).wf(),
            final(heap)@ == released_slot(old(self)@.mask_filter, old(heap)@),
            final(self)@ == final(r)@,
            r@ == (PaintNative { mask_filter: slot_of(mask_filter), ..old(self)@ }),
    {
        let n = self.native_mut();
        release_slot(heap, n.mask_filter);
        n.mask_filter = into_ptr_or_null(mask_filter);
        self
    }

    pub fn image_filter(&self, heap: &mut NativeHeap) -> (r: Option<ImageFilter>)
        requires
            old(heap).wf(),
            self@.image_filter != 0 ==> old(heap)@.live(self@.image_filter) && old(heap)@.count(self@.image_filter) < u64::MAX,
        ensures
            final(heap).wf(),
            shared_slot(self@.image_filter, r, old(heap)@, final(heap)@),
    {
        RCHandle::from_unshared_ptr(heap, self.native().image_filter)
    }

    /// Gives up the reference the slot held and takes over the one of `image_filter`.
    pub fn set_image_filter(&mut self, heap: &mut NativeHeap, image_filter: Option<ImageFilter>) -> (r: &mut Self)
        requires
            old(heap).wf(),
            old(self)@.image_filter != 0 ==> old(heap)@.live(old(self)@.image_filter),
        ensures
            final(heap).wf(),
            final(heap)@ == released_slot(old(self)@.image_filter, old(heap)@),
            final(self)@ == final(r)@,
            r@ == (PaintNative { image_filter: slot_of(image_filter), ..old(self)@ }),
    {
        let n = self.native_mut();
        release_slot(heap, n.image_filter);
        n.image_filter = into_ptr_or_null(image_filter);
        self
    }
}

} // verus!
