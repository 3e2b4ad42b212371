use timber_store::records::{SalesPayload, TimberPayload, TimberSize, TimberType};
use timber_store::service::Service;

fn add(s: &mut Service, ty: &str, size: &str, quantity: u64, now: u64) -> u64 {
    s.add_timber(
        TimberPayload { timber_type: ty.to_string(), timber_size: size.to_string(), quantity },
        now,
    )
    .unwrap()
    .id
}

#[test]
fn conjunction_of_category_and_quantity() {
    let mut s = Service::new();
    let a = add(&mut s, "oak", "2x4", 5, 0);
    let b = add(&mut s, "oak", "4x4", 5, 0);
    let _c = add(&mut s, "pine", "2x4", 5, 0);
    let hits = s._get_timber_by_type_and_quantity("oak", &5);
    let ids: Vec<u64> = hits.iter().map(|t| t.id).collect();
    assert_eq!(ids, vec![a, b], "exactly the two oak records, ascending by id");
}

#[test]
fn query_by_single_fields() {
    let mut s = Service::new();
    let a = add(&mut s, "oak", "2x4", 5, 10);
    let b = add(&mut s, "pine", "2x4", 7, 11);
    let c = add(&mut s, "oak", "4x6", 7, 10);

    let oaks: Vec<u64> = s._get_timber_by_type("oak").iter().map(|t| t.id).collect();
    assert_eq!(oaks, vec![a, c]);

    let small: Vec<u64> = s._get_timber_by_size("2x4").iter().map(|t| t.id).collect();
    assert_eq!(small, vec![a, b]);

    let sevens: Vec<u64> = s._get_timber_by_quantity(&7).iter().map(|t| t.id).collect();
    assert_eq!(sevens, vec![b, c]);

    let at_ten: Vec<u64> = s._get_timber_by_created_at(&10).iter().map(|t| t.id).collect();
    assert_eq!(at_ten, vec![a, c]);

    assert!(s._get_timber_by_type("cedar").is_empty());
    assert!(s._get_timber_by_type("bamboo").is_empty());
}

#[test]
fn query_by_updated_at_sees_only_updated_records() {
    let mut s = Service::new();
    let a = add(&mut s, "oak", "2x4", 5, 0);
    let _b = add(&mut s, "oak", "2x4", 5, 0);
    assert!(s._get_timber_by_updated_at(&42).is_empty());
    let payload = timber_store::records::TimberUpdatePayload {
        id: a,
        timber_type: "oak".to_string(),
        timber_size: "2x4".to_string(),
        quantity: 6,
    };
    s.update_timber(a, payload, 42).unwrap();
    let hits = s._get_timber_by_updated_at(&42);
    assert_eq!(hits.len(), 1);
    assert_eq!(hits[0].id, a);
    assert_eq!(hits[0].updated_at, Some(42));
}

#[test]
fn conjunction_queries_narrow_stepwise() {
    let mut s = Service::new();
    let a = add(&mut s, "oak", "2x4", 5, 0);
    let b = add(&mut s, "oak", "2x4", 9, 0);
    let c = add(&mut s, "oak", "4x4", 5, 0);
    let _d = add(&mut s, "pine", "2x4", 5, 0);

    let ts: Vec<u64> = s._get_timber_by_type_and_size("oak", "2x4").iter().map(|t| t.id).collect();
    assert_eq!(ts, vec![a, b]);

    let sq: Vec<u64> =
        s._get_timber_by_size_and_quantity("2x4", &5).iter().map(|t| t.id).collect();
    assert_eq!(sq, vec![a, _d]);

    let tsq: Vec<u64> = s
        ._get_timber_by_type_and_size_and_quantity("oak", "2x4", &5)
        .iter()
        .map(|t| t.id)
        .collect();
    assert_eq!(tsq, vec![a]);

    let tq: Vec<u64> = s._get_timber_by_type_and_quantity("oak", &5).iter().map(|t| t.id).collect();
    assert_eq!(tq, vec![a, c]);
}

#[test]
fn sales_queries_filter_each_field() {
    let mut s = Service::new();
    let t1 = add(&mut s, "oak", "2x4", 5, 0);
    let t2 = add(&mut s, "pine", "2x4", 5, 0);
    let s1 = s.add_sales(SalesPayload { timber_id: t1, quantity: 1, price: 10 }, 100).unwrap();
    let s2 = s.add_sales(SalesPayload { timber_id: t2, quantity: 2, price: 10 }, 101).unwrap();
    let s3 = s.add_sales(SalesPayload { timber_id: t1, quantity: 2, price: 20 }, 100).unwrap();

    let by_timber: Vec<u64> =
        s._get_sales_by_timber_id(&t1).iter().map(|x| x.id).collect();
    assert_eq!(by_timber, vec![s1.id, s3.id]);

    let by_price: Vec<u64> = s._get_sales_by_price(&10).iter().map(|x| x.id).collect();
    assert_eq!(by_price, vec![s1.id, s2.id]);

    let by_quantity: Vec<u64> = s._get_sales_by_quantity(&2).iter().map(|x| x.id).collect();
    assert_eq!(by_quantity, vec![s2.id, s3.id]);

    let by_created: Vec<u64> = s._get_sales_by_created_at(&100).iter().map(|x| x.id).collect();
    assert_eq!(by_created, vec![s1.id, s3.id]);

    assert!(s._get_sales_by_updated_at(&7).is_empty());
    let upd = s
        .update_sales(
            s2.id,
            timber_store::records::SalesUpdatePayload { id: s2.id, quantity: 2, price: 11 },
            7,
        )
        .unwrap();
    let by_updated: Vec<u64> = s._get_sales_by_updated_at(&7).iter().map(|x| x.id).collect();
    assert_eq!(by_updated, vec![upd.id]);
}

#[test]
fn query_results_are_full_records() {
    let mut s = Service::new();
    add(&mut s, "spruce", "10x2", 3, 77);
    let hits = s._get_timber_by_type("spruce");
    assert_eq!(hits.len(), 1);
    assert_eq!(hits[0].timber_type, TimberType::Spruce);
    assert_eq!(hits[0].timber_size, TimberSize::S10x2);
    assert_eq!(hits[0].quantity, 3);
    assert_eq!(hits[0].created_at, 77);
}

#[test]
fn scan_order_is_by_identifier_not_insertion() {
    let mut s = Service::new();
    let a = add(&mut s, "oak", "2x4", 5, 0);
    let b = add(&mut s, "oak", "2x4", 5, 0);
    let c = add(&mut s, "oak", "2x4", 5, 0);
    // Remove the lowest identifier and put it back, so it is the most
    // recently inserted entry; the scan must still yield ascending ids.
    let first = s.delete_timber(a).unwrap();
    s.do_insert_timber(&first);
    let ids: Vec<u64> = s._get_timber_by_type("oak").iter().map(|t| t.id).collect();
    assert_eq!(ids, vec![a, b, c]);
}
