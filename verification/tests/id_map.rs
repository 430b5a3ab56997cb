use psionic::id_map::InternalIdMap;

#[test]
fn first_registration_wins() {
    let mut m = InternalIdMap::new();
    assert_eq!(m.get_internal_id(&42), None);
    m.add(&42, 1);
    m.add(&42, 2);
    m.add(&7, 3);
    assert_eq!(m.get_internal_id(&42), Some(1));
    assert_eq!(m.get_internal_id(&7), Some(3));
    assert_eq!(m.get_internal_id(&8), None);
}

#[test]
fn ids_are_registered_by_first_position() {
    let ids: Vec<u128> = vec![10, 20, 10, 30, 20];
    let m = InternalIdMap::from_ids(&ids);
    assert_eq!(m.get_internal_id(&10), Some(0));
    assert_eq!(m.get_internal_id(&20), Some(1));
    assert_eq!(m.get_internal_id(&30), Some(3));
    assert_eq!(m.get_internal_id(&40), None);
    let copy = m.clone();
    assert_eq!(copy.get_internal_id(&30), Some(3));
}
