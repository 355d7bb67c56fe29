use vstd::prelude::*;

verus! {

/// A two-dimensional extent in pixels.
#[derive(Debug, Clone, Copy, PartialEq, Eq, Structural)]
pub struct Size<T> {
    pub width: T,
    pub height: T,
}

/// Construction and decomposition of a `Size` from and into its two fields.
pub trait Sizeable: Sized {
    type T;

    fn new(width: Self::T, height: Self::T) -> (r: Size<Self::T>)
        ensures
            r.width == width,
            r.height == height,
    ;

    fn from_tuple(size: (Self::T, Self::T)) -> (r: Size<Self::T>)
        ensures
            r.width == size.0,
            r.height == size.1,
    ;

    fn to_tuple(&self) -> (&Self::T, &Self::T);
}

impl<T> Sizeable for Size<T> {
    type T = T;

    fn to_tuple(&self) -> (&T, &T) {
        (&self.width, &self.height)
    }

    fn from_tuple(size: (T, T)) -> (r: Size<T>) {
        Size { width: size.0, height: size.1 }
    }

    fn new(width: T, height: T) -> (r: Size<T>) {
        Size { width, height }
    }
}

} // verus!
