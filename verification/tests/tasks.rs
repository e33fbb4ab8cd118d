use colgado::tasks::TaskBuider;

#[test]
fn a_new_builder_has_nothing_set() {
    let (closure, mapping) = TaskBuider::default().into_parts();
    assert_eq!(closure, None);
    assert_eq!(mapping, None);
}

#[test]
fn setting_the_work_keeps_the_mapping() {
    let builder = TaskBuider::from_parts(Some(1u8), Some("map"));
    let (closure, mapping) = builder.set_closure("work").into_parts();
    assert_eq!(closure, Some("work"));
    assert_eq!(mapping, Some("map"));
}

#[test]
fn the_work_can_be_unset() {
    let builder = TaskBuider::from_parts(Some(1u8), Some("map"));
    let (closure, mapping) = builder.set_closure_option(None::<u16>).into_parts();
    assert_eq!(closure, None);
    assert_eq!(mapping, Some("map"));
    let builder = TaskBuider::from_parts(None::<u8>, Some("map"));
    let (closure, mapping) = builder.set_closure_option(Some(7u16)).into_parts();
    assert_eq!(closure, Some(7));
    assert_eq!(mapping, Some("map"));
}

#[test]
fn setting_the_mapping_keeps_the_work() {
    let builder = TaskBuider::default().set_closure(3u8);
    let (closure, mapping) = builder.set_mapping(|n: u8| n + 1).into_parts();
    assert_eq!(closure, Some(3));
    assert_eq!(mapping.map(|f| f(4)), Some(5));
}
