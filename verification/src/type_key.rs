use vstd::prelude::*;

verus! {

/// Identity of a Rust type, as a plain value.
///
/// Two values describe the same type exactly when their keys are equal.
#[derive(Debug, Clone, Copy, PartialEq, Eq, Structural)]
pub struct TypeKey(pub u64);

/// Identity of a Rust type together with its printable name.
#[derive(Debug, Clone, Copy)]
pub struct TypeInfo {
    /// Key that identifies the type.
    pub key: TypeKey,
    /// Name of the type, as `std::any::type_name` prints it.
    pub name: &'static str,
}

impl TypeInfo {
    /// Creates the description of a type from its key and name.
    pub fn new(key: TypeKey, name: &'static str) -> (r: TypeInfo)
        ensures
            r.key == key,
            r.name == name,
    {
        TypeInfo { key, name }
    }

    /// Tells whether `self` and `other` describe the same type.
    pub fn same_type(&self, other: &TypeInfo) -> (r: bool)
        ensures
            r == (self.key == other.key),
    {
        self.key == other.key
    }
}

/// Type-erased data together with the identity of the type it holds.
#[derive(Debug)]
pub struct TypedData<D> {
    /// The data.
    pub value: D,
    /// The type of the data.
    pub ty: TypeInfo,
}

impl<D> TypedData<D> {
    /// Pairs `value` with the description of its type.
    pub fn new(value: D, ty: TypeInfo) -> (r: TypedData<D>)
        ensures
            r.value == value,
            r.ty == ty,
    {
        TypedData { value, ty }
    }
}

} // verus!
