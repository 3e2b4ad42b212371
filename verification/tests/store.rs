use timber_store::records::{Error, SalesPayload, SalesUpdatePayload, TimberPayload, TimberSize, TimberType, TimberUpdatePayload};
use timber_store::service::Service;

fn timber_payload(ty: &str, size: &str, quantity: u64) -> TimberPayload {
    TimberPayload { timber_type: ty.to_string(), timber_size: size.to_string(), quantity }
}

#[test]
fn get_on_fresh_store_is_not_found() {
    let s = Service::new();
    for id in [0u64, 1, 2, 9999] {
        match s.get_timber(id) {
            Err(Error::TimberNotFound { id: missing }) => assert_eq!(missing, id),
            _ => panic!("expected timber not-found"),
        }
        match s.get_sales(id) {
            Err(Error::SalesNotFound { id: missing }) => assert_eq!(missing, id),
            _ => panic!("expected sales not-found"),
        }
    }
}

#[test]
fn create_then_read_returns_equal_record() {
    let mut s = Service::new();
    let t = s.add_timber(timber_payload("oak", "2x4", 5), 100).unwrap();
    assert_eq!(t.id, 1);
    assert_eq!(t.timber_type, TimberType::Oak);
    assert_eq!(t.timber_size, TimberSize::S2x4);
    assert_eq!(t.quantity, 5);
    assert_eq!(t.created_at, 100);
    assert_eq!(t.updated_at, None);
    let read = s.get_timber(t.id).unwrap();
    assert_eq!(read, t);

    let sale = s
        .add_sales(SalesPayload { timber_id: t.id, quantity: 2, price: 30 }, 101)
        .unwrap();
    assert_eq!(sale.id, 2);
    assert_eq!(sale.timber_id, t.id);
    assert_eq!(sale.created_at, 101);
    assert_eq!(sale.updated_at, None);
    let read_sale = s.get_sales(sale.id).unwrap();
    assert_eq!(read_sale, sale);
}

#[test]
fn delete_twice_succeeds_then_not_found() {
    let mut s = Service::new();
    let t = s.add_timber(timber_payload("pine", "4x4", 3), 5).unwrap();
    let removed = s.delete_timber(t.id).unwrap();
    assert_eq!(removed, t);
    match s.delete_timber(t.id) {
        Err(Error::TimberNotFound { id }) => assert_eq!(id, t.id),
        _ => panic!("second delete must report not-found"),
    }

    let t2 = s.add_timber(timber_payload("cedar", "3x2", 1), 6).unwrap();
    let sale = s
        .add_sales(SalesPayload { timber_id: t2.id, quantity: 1, price: 1 }, 7)
        .unwrap();
    let removed_sale = s.delete_sales(sale.id).unwrap();
    assert_eq!(removed_sale, sale);
    match s.delete_sales(sale.id) {
        Err(Error::SalesNotFound { id }) => assert_eq!(id, sale.id),
        _ => panic!("second sales delete must report not-found"),
    }
}

#[test]
fn sequential_creates_mint_distinct_increasing_ids() {
    let mut s = Service::new();
    let mut ids = Vec::new();
    ids.push(s.add_timber(timber_payload("oak", "2x4", 1), 1).unwrap().id);
    ids.push(s.add_timber(timber_payload("spruce", "10x4", 2), 2).unwrap().id);
    ids.push(
        s.add_sales(SalesPayload { timber_id: ids[0], quantity: 1, price: 9 }, 3)
            .unwrap()
            .id,
    );
    ids.push(s.add_timber(timber_payload("cyprus", "8x2", 4), 4).unwrap().id);
    ids.push(
        s.add_sales(SalesPayload { timber_id: ids[3], quantity: 2, price: 8 }, 5)
            .unwrap()
            .id,
    );
    for w in ids.windows(2) {
        assert!(w[0] < w[1], "identifiers must strictly increase across kinds");
    }
    assert_eq!(ids, vec![1, 2, 3, 4, 5]);
}

#[test]
fn invalid_category_is_rejected_without_mutation() {
    let mut s = Service::new();
    match s.add_timber(timber_payload("bamboo", "2x4", 1), 0) {
        Err(Error::InvalidTimberType { given }) => assert_eq!(given, "bamboo"),
        _ => panic!("bamboo must be rejected as a category"),
    }
    // Nothing was created: the identifier a successful create would have
    // minted is absent.
    assert!(s.get_timber(1).is_err());
    assert!(s.get_sales(1).is_err());
    // And the next successful create still mints the first identifier.
    let t = s.add_timber(timber_payload("oak", "2x4", 1), 0).unwrap();
    assert_eq!(t.id, 1);
}

#[test]
fn invalid_size_and_zero_quantity_are_rejected() {
    let mut s = Service::new();
    match s.add_timber(timber_payload("oak", "9x9", 1), 0) {
        Err(Error::InvalidTimberSize { given }) => assert_eq!(given, "9x9"),
        _ => panic!("9x9 must be rejected as a dimension"),
    }
    match s.add_timber(timber_payload("oak", "2x4", 0), 0) {
        Err(Error::ZeroQuantity) => {}
        _ => panic!("zero quantity must be rejected"),
    }
    assert!(s.get_timber(1).is_err());
}

#[test]
fn sale_with_unknown_timber_is_rejected() {
    let mut s = Service::new();
    match s.add_sales(SalesPayload { timber_id: 9999, quantity: 1, price: 1 }, 0) {
        Err(Error::TimberNotFound { id }) => assert_eq!(id, 9999),
        _ => panic!("a sale of an unknown timber must be rejected"),
    }
    assert!(s.get_sales(1).is_err());
}

#[test]
fn sale_validation_rejects_zero_quantity_and_price() {
    let mut s = Service::new();
    let t = s.add_timber(timber_payload("oak", "2x4", 5), 0).unwrap();
    match s.add_sales(SalesPayload { timber_id: t.id, quantity: 0, price: 1 }, 0) {
        Err(Error::ZeroQuantity) => {}
        _ => panic!("zero sale quantity must be rejected"),
    }
    match s.add_sales(SalesPayload { timber_id: t.id, quantity: 1, price: 0 }, 0) {
        Err(Error::ZeroPrice) => {}
        _ => panic!("zero price must be rejected"),
    }
}

#[test]
fn update_preserves_identity_and_stamps_update_time() {
    let mut s = Service::new();
    let t = s.add_timber(timber_payload("pine", "2x4", 3), 50).unwrap();
    let payload = TimberUpdatePayload {
        id: t.id,
        timber_type: "oak".to_string(),
        timber_size: "4x4".to_string(),
        quantity: 5,
    };
    let updated = s.update_timber(t.id, payload, 60).unwrap();
    assert_eq!(updated.id, t.id);
    assert_eq!(updated.created_at, 50);
    assert_eq!(updated.updated_at, Some(60));
    assert_eq!(updated.timber_type, TimberType::Oak);
    assert_eq!(updated.timber_size, TimberSize::S4x4);
    assert_eq!(updated.quantity, 5);
    let read = s.get_timber(t.id).unwrap();
    assert_eq!(read, updated);
}

#[test]
fn update_sales_preserves_reference_and_creation_time() {
    let mut s = Service::new();
    let t = s.add_timber(timber_payload("oak", "2x4", 5), 1).unwrap();
    let sale = s
        .add_sales(SalesPayload { timber_id: t.id, quantity: 2, price: 10 }, 2)
        .unwrap();
    let updated = s
        .update_sales(sale.id, SalesUpdatePayload { id: sale.id, quantity: 7, price: 99 }, 3)
        .unwrap();
    assert_eq!(updated.id, sale.id);
    assert_eq!(updated.timber_id, t.id);
    assert_eq!(updated.created_at, 2);
    assert_eq!(updated.updated_at, Some(3));
    assert_eq!(updated.quantity, 7);
    assert_eq!(updated.price, 99);
    assert_eq!(s.get_sales(sale.id).unwrap(), updated);
}

#[test]
fn update_of_absent_record_reports_not_found() {
    let mut s = Service::new();
    let payload = TimberUpdatePayload {
        id: 4,
        timber_type: "oak".to_string(),
        timber_size: "4x4".to_string(),
        quantity: 5,
    };
    match s.update_timber(4, payload, 0) {
        Err(Error::TimberNotFound { id }) => assert_eq!(id, 4),
        _ => panic!("updating an absent timber must report not-found"),
    }
    match s.update_sales(4, SalesUpdatePayload { id: 4, quantity: 1, price: 1 }, 0) {
        Err(Error::SalesNotFound { id }) => assert_eq!(id, 4),
        _ => panic!("updating an absent sale must report not-found"),
    }
}

#[test]
fn update_validation_runs_before_lookup() {
    let mut s = Service::new();
    let payload = TimberUpdatePayload {
        id: 1,
        timber_type: "bamboo".to_string(),
        timber_size: "4x4".to_string(),
        quantity: 5,
    };
    match s.update_timber(1, payload, 0) {
        Err(Error::InvalidTimberType { given }) => assert_eq!(given, "bamboo"),
        _ => panic!("update must validate the category"),
    }
    match s.update_sales(1, SalesUpdatePayload { id: 1, quantity: 0, price: 1 }, 0) {
        Err(Error::ZeroQuantity) => {}
        _ => panic!("update must validate the quantity"),
    }
}

#[test]
fn delete_leaves_sales_dangling() {
    let mut s = Service::new();
    let t = s.add_timber(timber_payload("oak", "2x4", 5), 1).unwrap();
    let sale = s
        .add_sales(SalesPayload { timber_id: t.id, quantity: 1, price: 1 }, 2)
        .unwrap();
    s.delete_timber(t.id).unwrap();
    // The sale survives with a dangling reference; no cascading delete.
    let read = s.get_sales(sale.id).unwrap();
    assert_eq!(read.timber_id, t.id);
    assert!(s.get_timber(t.id).is_err());
}

#[test]
fn do_insert_overwrites_silently() {
    let mut s = Service::new();
    let t = s.add_timber(timber_payload("oak", "2x4", 5), 1).unwrap();
    let mut replacement = t;
    replacement.quantity = 9;
    s.do_insert_timber(&replacement);
    assert_eq!(s.get_timber(t.id).unwrap().quantity, 9);
}

#[test]
fn underscore_lookups_match_getters() {
    let mut s = Service::new();
    let t = s.add_timber(timber_payload("cedar", "6x4", 2), 9).unwrap();
    assert_eq!(s._get_timber(&t.id), Some(t));
    assert_eq!(s._get_timber_by_id(&t.id), Some(t));
    assert_eq!(s._get_timber(&77), None);
    let sale = s
        .add_sales(SalesPayload { timber_id: t.id, quantity: 1, price: 4 }, 10)
        .unwrap();
    assert_eq!(s._get_sales(&sale.id), Some(sale));
    assert_eq!(s._get_sales_by_id(&sale.id), Some(sale));
    assert_eq!(s._get_sales(&77), None);
}

#[test]
fn generate_unique_id_counts_up_from_one() {
    let mut s = Service::new();
    assert_eq!(s.generate_unique_id(), 1);
    assert_eq!(s.generate_unique_id(), 2);
    assert_eq!(s.generate_unique_id(), 3);
}
