use async_bindgen::opaque::{CopiedValue, OpaqueData, OpaqueSendable};

fn assert_send<T: ?Sized + Send>() {}

fn assert_unpin<T: ?Sized + Unpin>() {}

// A bound that does not hold makes the second impl inapplicable, so that the
// call below resolves to the first; if it held, the call would be ambiguous
// and the test would not compile.
trait AmbiguousIfSync<A> {
    fn some_item() {}
}

impl<T: ?Sized> AmbiguousIfSync<()> for T {}

impl<T: ?Sized + Sync> AmbiguousIfSync<u8> for T {}

trait AmbiguousIfUnpin<A> {
    fn some_item() {}
}

impl<T: ?Sized> AmbiguousIfUnpin<()> for T {}

impl<T: ?Sized + Unpin> AmbiguousIfUnpin<u8> for T {}

#[test]
fn marker_bounds_are_correct() {
    assert_send::<OpaqueData<CopiedValue>>();
    assert_unpin::<OpaqueData<CopiedValue>>();
    <OpaqueData<CopiedValue> as AmbiguousIfSync<_>>::some_item();

    assert_send::<OpaqueSendable>();
    <OpaqueSendable as AmbiguousIfSync<_>>::some_item();
    <OpaqueSendable as AmbiguousIfUnpin<_>>::some_item();
}
