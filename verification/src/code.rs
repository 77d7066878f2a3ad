//! Types that the library can tell apart by itself.
//!
//! The identity that a contract can speak of is blind to lifetimes: two types
//! that differ only in a lifetime inside them, such as
//! `Box<dyn for<'a> Tr<'a>>` and `Box<dyn Tr<'static>>`, look alike to it, and
//! are two types when a chain is searched. A type listed here has no such
//! twin: it is built from the types below and nothing else, and none of them
//! holds a trait object or a function pointer. Each has a [`Code`], and two
//! of them have the same code only if they are the same type, because every
//! impl below has a variant of [`Code`] of its own.
//!
//! [`Coded`] cannot be implemented outside this crate, so the list is closed.

use crate::sealed::Sealed;
use vstd::prelude::*;

verus! {

/// The name that the library gives to a type it can tell apart by itself.
pub enum Code {
    /// the unit type
    Unit,
    /// `bool`
    Bool,
    /// `char`
    Char,
    /// `u8`
    U8,
    /// `u16`
    U16,
    /// `u32`
    U32,
    /// `u64`
    U64,
    /// `u128`
    U128,
    /// `usize`
    Usize,
    /// `i8`
    I8,
    /// `i16`
    I16,
    /// `i32`
    I32,
    /// `i64`
    I64,
    /// `i128`
    I128,
    /// `isize`
    Isize,
    /// `String`
    Text,
    /// `&'static str`
    Str,
    /// `Vec<T>`, with the code of `T`
    List(Box<Code>),
    /// `Option<T>`, with the code of `T`
    Maybe(Box<Code>),
    /// `Box<T>`, with the code of `T`
    Boxed(Box<Code>),
    /// `(A, B)`, with the codes of `A` and `B`
    Pair(Box<Code>, Box<Code>),
    /// [`crate::key::ByType`] of `V`, with the code of `V`
    ByType(Box<Code>),
    /// [`crate::key::Numbered`] with its number and the code of `V`
    Numbered(u64, Box<Code>),
}

/// A type that the library can tell apart by itself: no other type, whatever
/// its lifetimes, has its code.
pub trait Coded: Sealed + 'static {
    /// The code of this type.
    spec fn code() -> Code;
}

impl Sealed for () {

}

impl Coded for () {
    open spec fn code() -> Code {
        Code::Unit
    }
}

impl Sealed for bool {

}

impl Coded for bool {
    open spec fn code() -> Code {
        Code::Bool
    }
}

impl Sealed for char {

}

impl Coded for char {
    open spec fn code() -> Code {
        Code::Char
    }
}

impl Sealed for u8 {

}

impl Coded for u8 {
    open spec fn code() -> Code {
        Code::U8
    }
}

impl Sealed for u16 {

}

impl Coded for u16 {
    open spec fn code() -> Code {
        Code::U16
    }
}

impl Sealed for u32 {

}

impl Coded for u32 {
    open spec fn code() -> Code {
        Code::U32
    }
}

impl Sealed for u64 {

}

impl Coded for u64 {
    open spec fn code() -> Code {
        Code::U64
    }
}

impl Sealed for u128 {

}

impl Coded for u128 {
    open spec fn code() -> Code {
        Code::U128
    }
}

impl Sealed for usize {

}

impl Coded for usize {
    open spec fn code() -> Code {
        Code::Usize
    }
}

impl Sealed for i8 {

}

impl Coded for i8 {
    open spec fn code() -> Code {
        Code::I8
    }
}

impl Sealed for i16 {

}

impl Coded for i16 {
    open spec fn code() -> Code {
        Code::I16
    }
}

impl Sealed for i32 {

}

impl Coded for i32 {
    open spec fn code() -> Code {
        Code::I32
    }
}

impl Sealed for i64 {

}

impl Coded for i64 {
    open spec fn code() -> Code {
        Code::I64
    }
}

impl Sealed for i128 {

}

impl Coded for i128 {
    open spec fn code() -> Code {
        Code::I128
    }
}

impl Sealed for isize {

}

impl Coded for isize {
    open spec fn code() -> Code {
        Code::Isize
    }
}

impl Sealed for String {

}

impl Coded for String {
    open spec fn code() -> Code {
        Code::Text
    }
}

impl Sealed for &'static str {

}

impl Coded for &'static str {
    open spec fn code() -> Code {
        Code::Str
    }
}

impl<T: Coded> Sealed for Vec<T> {

}

impl<T: Coded> Coded for Vec<T> {
    open spec fn code() -> Code {
        Code::List(Box::new(T::code()))
    }
}

impl<T: Coded> Sealed for Option<T> {

}

impl<T: Coded> Coded for Option<T> {
    open spec fn code() -> Code {
        Code::Maybe(Box::new(T::code()))
    }
}

impl<T: Coded> Sealed for Box<T> {

}

impl<T: Coded> Coded for Box<T> {
    open spec fn code() -> Code {
        Code::Boxed(Box::new(T::code()))
    }
}

impl<A: Coded, B: Coded> Sealed for (A, B) {

}

impl<A: Coded, B: Coded> Coded for (A, B) {
    open spec fn code() -> Code {
        Code::Pair(Box::new(A::code()), Box::new(B::code()))
    }
}

} // verus!
