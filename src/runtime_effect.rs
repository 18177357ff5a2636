//! Runtime effects: shaders and colour filters compiled from source text.
//! The native side owns the descriptions of an effect's uniforms and
//! varyings; the managed side only looks at them.

use crate::handle::{
    Handle, NativeDrop, NativeRefCnt, NativeRefCountedBase, NativeTransmutable, RCHandle,
};
use crate::heap::{HeapView, NativeHeap};
use vstd::prelude::*;

verus! {

pub const ARRAY_FLAG: u32 = 1;

pub const MARKER_FLAG: u32 = 2;

pub const MARKER_NORMALS_FLAG: u32 = 4;

pub const SRGB_UNPREMUL_FLAG: u32 = 8;

#[derive(Clone, Copy, Debug, PartialEq, Eq, Structural, Hash)]
pub enum UniformType {
    Float,
    Float2,
    Float3,
    Float4,
    Float2x2,
    Float3x3,
    Float4x4,
    Int,
    Int2,
    Int3,
    Int4,
}

/// Bytes that one element of a uniform of type `ty` takes.
pub open spec fn type_size(ty: UniformType) -> nat {
    match ty {
        UniformType::Float => 4,
        UniformType::Float2 => 8,
        UniformType::Float3 => 12,
        UniformType::Float4 => 16,
        UniformType::Float2x2 => 16,
        UniformType::Float3x3 => 36,
        UniformType::Float4x4 => 64,
        UniformType::Int => 4,
        UniformType::Int2 => 8,
        UniformType::Int3 => 12,
        UniformType::Int4 => 16,
    }
}

/// The native description of one uniform.
pub struct UniformNative {
    pub name: String,
    pub offset: usize,
    pub ty: UniformType,
    pub count: i32,
    pub flags: u32,
    pub marker: u32,
}

/// The native description of one varying.
pub struct VaryingNative {
    pub name: String,
    pub width: i32,
}

/// Descriptions belong to their effect: no handle of them is ever released
/// by its holder.
impl NativeDrop for UniformNative {
    open spec fn refs_live(&self, heap: HeapView) -> bool {
        false
    }

    open spec fn dropped(&self, heap: HeapView) -> HeapView {
        heap
    }

    fn drop(&mut self, heap: &mut NativeHeap) {
    }
}

impl NativeDrop for VaryingNative {
    open spec fn refs_live(&self, heap: HeapView) -> bool {
        false
    }

    open spec fn dropped(&self, heap: HeapView) -> HeapView {
        heap
    }

    fn drop(&mut self, heap: &mut NativeHeap) {
    }
}

pub type Uniform = Handle<UniformNative>;

pub type Varying = Handle<VaryingNative>;

impl Handle<UniformNative> {
    pub fn name(&self) -> (r: &str)
        ensures
            r@ == self@.name@,
    {
        self.native().name.as_str()
    }

    pub fn offset(&self) -> (r: usize)
        ensures
            r == self@.offset,
    {
        self.native().offset
    }

    pub fn ty(&self) -> (r: UniformType)
        ensures
            r == self@.ty,
    {
        self.native().ty
    }

    pub fn count(&self) -> (r: i32)
        ensures
            r == self@.count,
    {
        self.native().count
    }

    pub fn flags(&self) -> (r: u32)
        ensures
            r == self@.flags,
    {
        self.native().flags
    }

    pub fn marker(&self) -> (r: u32)
        ensures
            r == self@.marker,
    {
        self.native().marker
    }

    pub fn is_array(&self) -> (r: bool)
        ensures
            r == (self@.flags & ARRAY_FLAG != 0),
    {
        self.native().flags & ARRAY_FLAG != 0
    }

    /// Bytes that the whole uniform takes: its element size times its count.
    pub fn size_in_bytes(&self) -> (r: usize)
        requires
            self@.count >= 0,
            self@.count * type_size(self@.ty) <= usize::MAX,
        ensures
            r == self@.count * type_size(self@.ty),
    {
        let n = self.native();
        let size: usize = match n.ty {
            UniformType::Float => 4,
            UniformType::Float2 => 8,
            UniformType::Float3 => 12,
            UniformType::Float4 => 16,
            UniformType::Float2x2 => 16,
            UniformType::Float3x3 => 36,
            UniformType::Float4x4 => 64,
            UniformType::Int => 4,
            UniformType::Int2 => 8,
            UniformType::Int3 => 12,
            UniformType::Int4 => 16,
        };
        (n.count as usize) * size
    }
}

impl Handle<VaryingNative> {
    pub fn name(&self) -> (r: &str)
        ensures
            r@ == self@.name@,
    {
        self.native().name.as_str()
    }

    pub fn width(&self) -> (r: i32)
        ensures
            r == self@.width,
    {
        self.native().width
    }
}

/// Kind of the shared compiled effect.
pub struct NativeRuntimeEffect;

impl NativeRefCountedBase for NativeRuntimeEffect {
    type Base = NativeRefCnt;

    open spec fn base_offset() -> nat {
        0
    }
}

pub type RuntimeEffect = RCHandle<NativeRuntimeEffect>;

/// Options for compiling an effect.
#[derive(Clone, Copy, Debug, PartialEq, Eq, Structural, Default)]
pub struct Options {
    pub force_no_inline: bool,
}

/// The library's mirror of the native options record.
pub struct OptionsNative {
    pub force_no_inline: bool,
}

impl NativeTransmutable<OptionsNative> for Options {

}

/// The index of a child that the native lookup reported; a negative value
/// means there is no such child.
pub fn child_index(found: i32) -> (r: Option<usize>)
    ensures
        found < 0 ==> r is None,
        found >= 0 ==> r == Some(found as usize),
{
    if found < 0 {
        None
    } else {
        Some(found as usize)
    }
}

/// The result of compiling: the effect that the native factory returned, or
/// the error text it wrote when it returned null.
pub fn new_from_ptr(ptr: u64, error: String) -> (r: Result<RuntimeEffect, String>)
    ensures
        ptr == 0 ==> (r is Err && r->Err_0 == error),
        ptr != 0 ==> (r is Ok && r->Ok_0@ == ptr),
{
    match RCHandle::from_owned_pointer(ptr) {
        Some(effect) => Ok(effect),
        None => Err(error),
    }
}

} // verus!
