//! Uniform names, and handles typed by the value their slot holds.

use core::marker::PhantomData;
use vstd::prelude::*;

verus! {

/// A backend able to resolve uniform slots.
pub trait HasUniform {
    /// The backend's handle to a resolved uniform slot.
    type U;
}

/// Value types that a uniform slot can hold.
pub trait Uniformable {}

impl Uniformable for i32 {}

impl Uniformable for u32 {}

impl Uniformable for bool {}

impl Uniformable for [i32; 2] {}

impl Uniformable for [i32; 3] {}

impl Uniformable for [i32; 4] {}

impl Uniformable for [u32; 2] {}

impl Uniformable for [u32; 3] {}

impl Uniformable for [u32; 4] {}

impl Uniformable for [bool; 2] {}

impl Uniformable for [bool; 3] {}

impl Uniformable for [bool; 4] {}

/// How a uniform is looked up: by its name in the shader source, or by a
/// backend-specific semantic key.
pub enum UniformName {
    StringName(String),
    SemanticName(u32),
}

/// What a `UniformName` identifies, as a mathematical value.
pub enum UniformKey {
    Named(Seq<char>),
    Semantic(u32),
}

impl UniformName {
    /// The key this name stands for.
    pub open spec fn key(&self) -> UniformKey {
        match self {
            UniformName::StringName(s) => UniformKey::Named(s@),
            UniformName::SemanticName(k) => UniformKey::Semantic(*k),
        }
    }
}

/// The name under which a uniform is looked up by its name in the source.
pub fn string_name(name: &str) -> (r: UniformName)
    ensures
        r matches UniformName::StringName(s) && s@ == name@,
        r.key() == UniformKey::Named(name@),
{
    UniformName::StringName(name.to_owned())
}

/// A resolved uniform slot whose values are of type `T`.
pub struct Uniform<C: HasUniform, T> {
    pub repr: C::U,
    pub value_type: PhantomData<T>,
}

impl<C: HasUniform, T> Uniform<C, T> {
    /// Wraps a resolved handle with the type of the values it takes.
    pub fn new(repr: C::U) -> (r: Self)
        ensures
            r.repr == repr,
    {
        Uniform { repr, value_type: PhantomData }
    }
}

/// Turns what the backend resolved into a typed uniform: nothing stays
/// nothing, and a handle is kept as it is under the type tag `T`.
pub fn typed_uniform<C: HasUniform, T: Uniformable>(resolved: Option<C::U>) -> (r: Option<
    Uniform<C, T>,
>)
    ensures
        resolved is None <==> r is None,
        resolved is Some ==> r->Some_0.repr == resolved->Some_0,
{
    match resolved {
        Some(handle) => Some(Uniform::new(handle)),
        None => None,
    }
}

} // verus!
