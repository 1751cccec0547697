use apalis_pubsub::layer::PubSubLayer;

#[test]
fn layer_wraps_the_service_unchanged() {
    let wrapped = PubSubLayer.layer(17u32);
    assert_eq!(*wrapped.get_ref(), 17);
    assert_eq!(wrapped.into_inner(), 17);
}

#[test]
fn wrapped_service_can_be_changed_in_place() {
    let mut wrapped = PubSubLayer.layer(vec![1u8]);
    wrapped.get_mut().push(2);
    assert_eq!(wrapped.get_ref(), &vec![1u8, 2]);
    assert_eq!(wrapped.into_inner(), vec![1u8, 2]);
}

#[test]
fn layer_can_wrap_more_than_once() {
    let layer = PubSubLayer;
    let copy = layer;
    let inner = layer.layer("a");
    let outer = copy.layer(inner);
    assert_eq!(outer.into_inner().into_inner(), "a");
}
