use ferrite::material::{Baked, Material};
use ferrite::uuid_util::create_offline_player_uuid;

#[test]
fn offline_uuid_known_value() {
    let u = create_offline_player_uuid("Notch");
    assert_eq!(u.to_string(), "b50ad385-829d-3141-a216-7e7d7539ba7f");
    assert_eq!(u.get_version_num(), 3);
}

#[test]
fn offline_uuid_depends_on_name() {
    let a = create_offline_player_uuid("alice");
    let b = create_offline_player_uuid("bob");
    assert_ne!(a, b);
    assert_eq!(a, create_offline_player_uuid("alice"));
    assert_eq!(b.get_version_num(), 3);
}

#[test]
fn material_baking() {
    let m = Material::new("block/stone".to_string());
    assert_eq!(m.sprite, "block/stone");
    assert!(!m.force_translucent);
    let t = m.clone().with_force_translucent(true);
    assert!(t.force_translucent);
    let b: Baked = t.into();
    assert_eq!(b, Baked::new("block/stone".to_string(), true));
    let b2: Baked = m.into();
    assert!(!b2.force_translucent);
}
