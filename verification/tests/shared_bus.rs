use core::cell::RefCell;
use self_balancing_robot2::i2c_wrapper::I2cWrapper;

#[test]
fn copies_share_one_bus() {
    let cell = RefCell::new(5u32);
    let a = I2cWrapper::new(&cell);
    let b = a.clone();
    assert!(core::ptr::eq(a.inner(), &cell));
    assert!(core::ptr::eq(b.inner(), &cell));
    *b.inner().borrow_mut() += 1;
    assert_eq!(*a.inner().borrow(), 6);
}
