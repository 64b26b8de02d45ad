//! A handle to an I2C bus shared through a `RefCell`, so that several sensor
//! drivers can each hold a copy of it.

use vstd::prelude::*;
use core::cell::RefCell;

verus! {

/// The shared cell holding the bus. Verus sees nothing inside it; the library
/// only passes references to it around.
#[verifier::external_type_specification]
#[verifier::external_body]
#[verifier::reject_recursive_types(T)]
pub struct ExRefCell<T: ?Sized>(RefCell<T>);

/// A wrapper for I2C that implements `Clone` by sharing one reference to the bus.
#[verifier::reject_recursive_types(I)]
pub struct I2cWrapper<'a, I> {
    inner: &'a RefCell<I>,
}

impl<'a, I> I2cWrapper<'a, I> {
    /// The bus cell this handle refers to.
    pub closed spec fn cell(&self) -> &'a RefCell<I> {
        self.inner
    }

    /// A handle to the bus held in `i2c`.
    pub fn new(i2c: &'a RefCell<I>) -> (r: Self)
        ensures
            r.cell() == i2c,
    {
        Self { inner: i2c }
    }

    /// The bus cell this handle refers to.
    pub fn inner(&self) -> (r: &'a RefCell<I>)
        ensures
            r == self.cell(),
    {
        self.inner
    }
}

impl<'a, I> Clone for I2cWrapper<'a, I> {
    /// Another handle to the same bus.
    fn clone(&self) -> (r: Self)
        ensures
            r.cell() == self.cell(),
    {
        Self { inner: self.inner }
    }
}

} // verus!
