use portals_api::ids::copy_ids;
use portals_api::schema::page::Grid;
use portals_api::text::{i32_to_string, prefixed_uuid, uuid_to_string};

#[test]
fn uuid_text_is_hyphenated_lowercase() {
    let id: u128 = 0x67e5_5044_10b1_426f_9247_bb68_0e5f_e0c8;
    assert_eq!(uuid_to_string(id), "67e55044-10b1-426f-9247-bb680e5fe0c8");
}

#[test]
fn uuid_text_matches_uuid_display() {
    for id in [0u128, 1, u128::MAX, 0x0123_4567_89ab_cdef_fedc_ba98_7654_3210, 1 << 100] {
        assert_eq!(uuid_to_string(id), uuid::Uuid::from_u128(id).to_string());
    }
}

#[test]
fn nil_uuid_text() {
    assert_eq!(uuid_to_string(0), "00000000-0000-0000-0000-000000000000");
}

#[test]
fn i32_text_matches_display() {
    for v in [0i32, 7, 10, 99, 100, -1, -10, 123456, i32::MIN, i32::MAX] {
        assert_eq!(i32_to_string(v), v.to_string());
    }
}

#[test]
fn prefixed_uuid_joins() {
    assert_eq!(prefixed_uuid("Cell ", 1), "Cell 00000000-0000-0000-0000-000000000001");
}

#[test]
fn new_grid_id_is_random_version() {
    for _ in 0..50 {
        let g = Grid::new();
        assert!(g.rows.is_empty());
        let u = uuid::Uuid::from_u128(g.id);
        assert_eq!(u.get_version_num(), 4);
        assert_eq!(u.get_variant(), uuid::Variant::RFC4122);
    }
}

#[test]
fn new_grid_ids_differ_between_calls() {
    assert_ne!(Grid::new().id, Grid::new().id);
}

#[test]
fn copy_ids_keeps_order() {
    let v = vec![3u128, 1, 2];
    assert_eq!(copy_ids(&v), v);
}
