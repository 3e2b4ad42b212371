//! Linear-scan queries: a full scan of one record kind's durable map,
//! filtered by a conjunction of optional field constraints, returned in
//! ascending identifier order.
use vstd::prelude::*;
use crate::codec::{decode_sales, decode_timber, spec_decode_sales, spec_decode_timber};
use crate::records::{str_eq, timber_size_text, timber_type_text, Sales, Timber};
use crate::service::Service;

verus! {

/// A conjunction of optional constraints on timber fields; a record matches
/// when every present constraint holds of it.
pub struct TimberQuery {
    pub ty: Option<String>,
    pub size: Option<String>,
    pub quantity: Option<u64>,
    pub created_at: Option<u64>,
    pub updated_at: Option<u64>,
}

/// A conjunction of optional constraints on sale fields.
pub struct SalesQuery {
    pub timber_id: Option<u64>,
    pub quantity: Option<u64>,
    pub price: Option<u64>,
    pub created_at: Option<u64>,
    pub updated_at: Option<u64>,
}

/// The predicate a timber query stands for: each present constraint compares
/// one field, string constraints by the record's boundary text.
pub open spec fn timber_pred(
    ty: Option<Seq<char>>,
    size: Option<Seq<char>>,
    quantity: Option<u64>,
    created_at: Option<u64>,
    updated_at: Option<u64>,
) -> spec_fn(Timber) -> bool {
    |t: Timber|
        {
            &&& (ty matches Some(s) ==> timber_type_text(t.timber_type) == s)
            &&& (size matches Some(s) ==> timber_size_text(t.timber_size) == s)
            &&& (quantity matches Some(q) ==> t.quantity == q)
            &&& (created_at matches Some(c) ==> t.created_at == c)
            &&& (updated_at matches Some(u) ==> t.updated_at == Some(u))
        }
}

/// The predicate a sales query stands for.
pub open spec fn sales_pred(
    timber_id: Option<u64>,
    quantity: Option<u64>,
    price: Option<u64>,
    created_at: Option<u64>,
    updated_at: Option<u64>,
) -> spec_fn(Sales) -> bool {
    |s: Sales|
        {
            &&& (timber_id matches Some(v) ==> s.timber_id == v)
            &&& (quantity matches Some(q) ==> s.quantity == q)
            &&& (price matches Some(p) ==> s.price == p)
            &&& (created_at matches Some(c) ==> s.created_at == c)
            &&& (updated_at matches Some(u) ==> s.updated_at == Some(u))
        }
}

/// What a query returns: exactly the records of the store that satisfy the
/// predicate, each under its own identifier, in strictly ascending
/// identifier order.
pub open spec fn timber_query_result(
    m: Map<u64, Timber>,
    p: spec_fn(Timber) -> bool,
    r: Seq<Timber>,
) -> bool {
    &&& forall|i: int|
        0 <= i < r.len() ==> m.contains_key((#[trigger] r[i]).id) && r[i] == m[r[i].id] && p(r[i])
    &&& forall|k: u64|
        #[trigger] m.contains_key(k) && p(m[k]) ==> exists|i: int|
            0 <= i < r.len() && (#[trigger] r[i]).id == k
    &&& forall|i: int, j: int| 0 <= i < j < r.len() ==> r[i].id < r[j].id
}

/// What a sales query returns, in the same sense.
pub open spec fn sales_query_result(
    m: Map<u64, Sales>,
    p: spec_fn(Sales) -> bool,
    r: Seq<Sales>,
) -> bool {
    &&& forall|i: int|
        0 <= i < r.len() ==> m.contains_key((#[trigger] r[i]).id) && r[i] == m[r[i].id] && p(r[i])
    &&& forall|k: u64|
        #[trigger] m.contains_key(k) && p(m[k]) ==> exists|i: int|
            0 <= i < r.len() && (#[trigger] r[i]).id == k
    &&& forall|i: int, j: int| 0 <= i < j < r.len() ==> r[i].id < r[j].id
}

/// Decides whether a timber record satisfies a query.
fn timber_matches(q: &TimberQuery, t: &Timber) -> (r: bool)
    ensures
        r == timber_pred(
            q.ty.deep_view(),
            q.size.deep_view(),
            q.quantity,
            q.created_at,
            q.updated_at,
        )(*t),
{
    let ty_ok = match &q.ty {
        Some(s) => {
            let tx = t.timber_type.to_text();
            str_eq(s.as_str(), tx.as_str())
        },
        None => true,
    };
    let size_ok = match &q.size {
        Some(s) => {
            let zx = t.timber_size.to_text();
            str_eq(s.as_str(), zx.as_str())
        },
        None => true,
    };
    let quantity_ok = match &q.quantity {
        Some(v) => t.quantity == *v,
        None => true,
    };
    let created_ok = match &q.created_at {
        Some(v) => t.created_at == *v,
        None => true,
    };
    let updated_ok = match (&q.updated_at, &t.updated_at) {
        (Some(v), Some(u)) => *u == *v,
        (Some(_), None) => false,
        (None, _) => true,
    };
    ty_ok && size_ok && quantity_ok && created_ok && updated_ok
}

/// Decides whether a sale record satisfies a query.
fn sales_matches(q: &SalesQuery, s: &Sales) -> (r: bool)
    ensures
        r == sales_pred(q.timber_id, q.quantity, q.price, q.created_at, q.updated_at)(*s),
{
    let timber_ok = match &q.timber_id {
        Some(v) => s.timber_id == *v,
        None => true,
    };
    let quantity_ok = match &q.quantity {
        Some(v) => s.quantity == *v,
        None => true,
    };
    let price_ok = match &q.price {
        Some(v) => s.price == *v,
        None => true,
    };
    let created_ok = match &q.created_at {
        Some(v) => s.created_at == *v,
        None => true,
    };
    let updated_ok = match (&q.updated_at, &s.updated_at) {
        (Some(v), Some(u)) => *u == *v,
        (Some(_), None) => false,
        (None, _) => true,
    };
    timber_ok && quantity_ok && price_ok && created_ok && updated_ok
}

impl Service {
    /// Scans the timber map and keeps the records the query matches, in
    /// ascending identifier order.
    pub fn filter_timbers(&self, q: &TimberQuery) -> (r: Vec<Timber>)
        requires
            self.wf(),
        ensures
            timber_query_result(
                self.timber_records(),
                timber_pred(
                    q.ty.deep_view(),
                    q.size.deep_view(),
                    q.quantity,
                    q.created_at,
                    q.updated_at,
                ),
                r@,
            ),
    {
        let ghost m = self.timber_records();
        let ghost p = timber_pred(
            q.ty.deep_view(),
            q.size.deep_view(),
            q.quantity,
            q.created_at,
            q.updated_at,
        );
        let entries = self.timbers.entries();
        proof {
            assert forall|j: int| 0 <= j < entries@.len() implies {
                &&& m.contains_key((#[trigger] entries@[j]).0)
                &&& spec_decode_timber(entries@[j].1@) == Some(m[entries@[j].0])
                &&& m[entries@[j].0].id == entries@[j].0
            } by {
                let k = entries@[j].0;
                assert(self.timber_bytes().contains_key(k));
                assert(m[k] == spec_decode_timber(self.timber_bytes()[k]).unwrap());
            }
            assert forall|k: u64| #[trigger] m.contains_key(k) implies exists|j: int|
                0 <= j < entries@.len() && (#[trigger] entries@[j]).0 == k by {
                assert(self.timber_bytes().contains_key(k));
            }
        }
        let mut out: Vec<Timber> = Vec::new();
        let mut i: usize = 0;
        while i < entries.len()
            invariant
                i <= entries@.len(),
                p == timber_pred(
                    q.ty.deep_view(),
                    q.size.deep_view(),
                    q.quantity,
                    q.created_at,
                    q.updated_at,
                ),
                forall|j: int|
                    0 <= j < entries@.len() ==> {
                        &&& m.contains_key((#[trigger] entries@[j]).0)
                        &&& spec_decode_timber(entries@[j].1@) == Some(m[entries@[j].0])
                        &&& m[entries@[j].0].id == entries@[j].0
                    },
                forall|k: u64|
                    #[trigger] m.contains_key(k) ==> exists|j: int|
                        0 <= j < entries@.len() && (#[trigger] entries@[j]).0 == k,
                forall|j1: int, j2: int|
                    0 <= j1 < j2 < entries@.len() ==> entries@[j1].0 < entries@[j2].0,
                forall|l: int|
                    0 <= l < out@.len() ==> m.contains_key((#[trigger] out@[l]).id) && out@[l]
                        == m[out@[l].id] && p(out@[l]),
                forall|l: int|
                    #![trigger out@[l]]
                    0 <= l < out@.len() ==> exists|j: int|
                        0 <= j < i && (#[trigger] entries@[j]).0 == out@[l].id,
                forall|j: int|
                    0 <= j < i && p(m[(#[trigger] entries@[j]).0]) ==> exists|l: int|
                        0 <= l < out@.len() && (#[trigger] out@[l]).id == entries@[j].0,
                forall|l1: int, l2: int| 0 <= l1 < l2 < out@.len() ==> out@[l1].id < out@[l2].id,
            decreases entries@.len() - i,
        {
            let k = entries[i].0;
            let t = decode_timber(entries[i].1.as_slice()).unwrap();
            proof {
                assert(t == m[k]);
                assert(t.id == k);
            }
            let ghost out0 = out@;
            let matched = timber_matches(q, &t);
            if matched {
                proof {
                    assert forall|l: int| 0 <= l < out@.len() implies (#[trigger] out@[l]).id
                        < t.id by {
                        let j = choose|j: int| 0 <= j < i && (#[trigger] entries@[j]).0
                            == out@[l].id;
                        assert(entries@[j].0 < entries@[i as int].0);
                    }
                }
                out.push(t);
                proof {
                    assert(out@ == out0.push(t));
                }
            }
            proof {
                assert forall|j: int|
                    0 <= j <= i as int && p(m[(#[trigger] entries@[j]).0]) implies exists|l: int|
                    0 <= l < out@.len() && (#[trigger] out@[l]).id == entries@[j].0 by {
                    if j == i as int {
                        assert(matched);
                        assert(out@[out@.len() - 1].id == k);
                    } else {
                        let l = choose|l: int|
                            0 <= l < out0.len() && (#[trigger] out0[l]).id == entries@[j].0;
                        assert(out@[l].id == entries@[j].0);
                    }
                }
            }
            i = i + 1;
        }
        proof {
            assert forall|k: u64| #[trigger] m.contains_key(k) && p(m[k]) implies exists|l: int|
                0 <= l < out@.len() && (#[trigger] out@[l]).id == k by {
                let j = choose|j: int|
                    0 <= j < entries@.len() && (#[trigger] entries@[j]).0 == k;
                assert(p(m[entries@[j].0]));
            }
        }
        out
    }

    /// Scans the sales map and keeps the records the query matches, in
    /// ascending identifier order.
    pub fn filter_sales(&self, q: &SalesQuery) -> (r: Vec<Sales>)
        requires
            self.wf(),
        ensures
            sales_query_result(
                self.sales_records(),
                sales_pred(q.timber_id, q.quantity, q.price, q.created_at, q.updated_at),
                r@,
            ),
    {
        let ghost m = self.sales_records();
        let ghost p = sales_pred(q.timber_id, q.quantity, q.price, q.created_at, q.updated_at);
        let entries = self.sales.entries();
        proof {
            assert forall|j: int| 0 <= j < entries@.len() implies {
                &&& m.contains_key((#[trigger] entries@[j]).0)
                &&& spec_decode_sales(entries@[j].1@) == Some(m[entries@[j].0])
                &&& m[entries@[j].0].id == entries@[j].0
            } by {
                let k = entries@[j].0;
                assert(self.sales_bytes().contains_key(k));
                assert(m[k] == spec_decode_sales(self.sales_bytes()[k]).unwrap());
            }
            assert forall|k: u64| #[trigger] m.contains_key(k) implies exists|j: int|
                0 <= j < entries@.len() && (#[trigger] entries@[j]).0 == k by {
                assert(self.sales_bytes().contains_key(k));
            }
        }
        let mut out: Vec<Sales> = Vec::new();
        let mut i: usize = 0;
        while i < entries.len()
            invariant
                i <= entries@.len(),
                p == sales_pred(q.timber_id, q.quantity, q.price, q.created_at, q.updated_at),
                forall|j: int|
                    0 <= j < entries@.len() ==> {
                        &&& m.contains_key((#[trigger] entries@[j]).0)
                        &&& spec_decode_sales(entries@[j].1@) == Some(m[entries@[j].0])
                        &&& m[entries@[j].0].id == entries@[j].0
                    },
                forall|k: u64|
                    #[trigger] m.contains_key(k) ==> exists|j: int|
                        0 <= j < entries@.len() && (#[trigger] entries@[j]).0 == k,
                forall|j1: int, j2: int|
                    0 <= j1 < j2 < entries@.len() ==> entries@[j1].0 < entries@[j2].0,
                forall|l: int|
                    0 <= l < out@.len() ==> m.contains_key((#[trigger] out@[l]).id) && out@[l]
                        == m[out@[l].id] && p(out@[l]),
                forall|l: int|
                    #![trigger out@[l]]
                    0 <= l < out@.len() ==> exists|j: int|
                        0 <= j < i && (#[trigger] entries@[j]).0 == out@[l].id,
                forall|j: int|
                    0 <= j < i && p(m[(#[trigger] entries@[j]).0]) ==> exists|l: int|
                        0 <= l < out@.len() && (#[trigger] out@[l]).id == entries@[j].0,
                forall|l1: int, l2: int| 0 <= l1 < l2 < out@.len() ==> out@[l1].id < out@[l2].id,
            decreases entries@.len() - i,
        {
            let k = entries[i].0;
            let s = decode_sales(entries[i].1.as_slice()).unwrap();
            proof {
                assert(s == m[k]);
                assert(s.id == k);
            }
            let ghost out0 = out@;
            let matched = sales_matches(q, &s);
            if matched {
                proof {
                    assert forall|l: int| 0 <= l < out@.len() implies (#[trigger] out@[l]).id
                        < s.id by {
                        let j = choose|j: int| 0 <= j < i && (#[trigger] entries@[j]).0
                            == out@[l].id;
                        assert(entries@[j].0 < entries@[i as int].0);
                    }
                }
                out.push(s);
                proof {
                    assert(out@ == out0.push(s));
                }
            }
            proof {
                assert forall|j: int|
                    0 <= j <= i as int && p(m[(#[trigger] entries@[j]).0]) implies exists|l: int|
                    0 <= l < out@.len() && (#[trigger] out@[l]).id == entries@[j].0 by {
                    if j == i as int {
                        assert(matched);
                        assert(out@[out@.len() - 1].id == k);
                    } else {
                        let l = choose|l: int|
                            0 <= l < out0.len() && (#[trigger] out0[l]).id == entries@[j].0;
                        assert(out@[l].id == entries@[j].0);
                    }
                }
            }
            i = i + 1;
        }
        proof {
            assert forall|k: u64| #[trigger] m.contains_key(k) && p(m[k]) implies exists|l: int|
                0 <= l < out@.len() && (#[trigger] out@[l]).id == k by {
                let j = choose|j: int|
                    0 <= j < entries@.len() && (#[trigger] entries@[j]).0 == k;
                assert(p(m[entries@[j].0]));
            }
        }
        out
    }
}

impl Service {
    /// All timber records of one category, in ascending identifier order.
    pub fn _get_timber_by_type(&self, timber_type: &str) -> (r: Vec<Timber>)
        requires
            self.wf(),
        ensures
            timber_query_result(
                self.timber_records(),
                timber_pred(Some(timber_type@), None, None, None, None),
                r@,
            ),
    {
        let q = TimberQuery {
            ty: Some(timber_type.to_owned()),
            size: None,
            quantity: None,
            created_at: None,
            updated_at: None,
        };
        let r = self.filter_timbers(&q);
        proof {
            assert(q.ty.deep_view() == Some(timber_type@));
            assert(q.size.deep_view() == None::<Seq<char>>);
        }
        r
    }

    /// All timber records of one dimension, in ascending identifier order.
    pub fn _get_timber_by_size(&self, timber_size: &str) -> (r: Vec<Timber>)
        requires
            self.wf(),
        ensures
            timber_query_result(
                self.timber_records(),
                timber_pred(None, Some(timber_size@), None, None, None),
                r@,
            ),
    {
        let q = TimberQuery {
            ty: None,
            size: Some(timber_size.to_owned()),
            quantity: None,
            created_at: None,
            updated_at: None,
        };
        let r = self.filter_timbers(&q);
        proof {
            assert(q.ty.deep_view() == None::<Seq<char>>);
            assert(q.size.deep_view() == Some(timber_size@));
        }
        r
    }

    /// All timber records of one quantity, in ascending identifier order.
    pub fn _get_timber_by_quantity(&self, quantity: &u64) -> (r: Vec<Timber>)
        requires
            self.wf(),
        ensures
            timber_query_result(
                self.timber_records(),
                timber_pred(None, None, Some(*quantity), None, None),
                r@,
            ),
    {
        let q = TimberQuery {
            ty: None,
            size: None,
            quantity: Some(*quantity),
            created_at: None,
            updated_at: None,
        };
        let r = self.filter_timbers(&q);
        proof {
            assert(q.ty.deep_view() == None::<Seq<char>>);
            assert(q.size.deep_view() == None::<Seq<char>>);
        }
        r
    }

    /// All timber records with one creation time, in ascending identifier
    /// order.
    pub fn _get_timber_by_created_at(&self, created_at: &u64) -> (r: Vec<Timber>)
        requires
            self.wf(),
        ensures
            timber_query_result(
                self.timber_records(),
                timber_pred(None, None, None, Some(*created_at), None),
                r@,
            ),
    {
        let q = TimberQuery {
            ty: None,
            size: None,
            quantity: None,
            created_at: Some(*created_at),
            updated_at: None,
        };
        let r = self.filter_timbers(&q);
        proof {
            assert(q.ty.deep_view() == None::<Seq<char>>);
            assert(q.size.deep_view() == None::<Seq<char>>);
        }
        r
    }

    /// All timber records last updated at one time, in ascending identifier
    /// order.
    pub fn _get_timber_by_updated_at(&self, updated_at: &u64) -> (r: Vec<Timber>)
        requires
            self.wf(),
        ensures
            timber_query_result(
                self.timber_records(),
                timber_pred(None, None, None, None, Some(*updated_at)),
                r@,
            ),
    {
        let q = TimberQuery {
            ty: None,
            size: None,
            quantity: None,
            created_at: None,
            updated_at: Some(*updated_at),
        };
        let r = self.filter_timbers(&q);
        proof {
            assert(q.ty.deep_view() == None::<Seq<char>>);
            assert(q.size.deep_view() == None::<Seq<char>>);
        }
        r
    }

    /// All timber records of one category and dimension, in ascending
    /// identifier order.
    pub fn _get_timber_by_type_and_size(&self, timber_type: &str, timber_size: &str) -> (r: Vec<
        Timber,
    >)
        requires
            self.wf(),
        ensures
            timber_query_result(
                self.timber_records(),
                timber_pred(Some(timber_type@), Some(timber_size@), None, None, None),
                r@,
            ),
    {
        let q = TimberQuery {
            ty: Some(timber_type.to_owned()),
            size: Some(timber_size.to_owned()),
            quantity: None,
            created_at: None,
            updated_at: None,
        };
        let r = self.filter_timbers(&q);
        proof {
            assert(q.ty.deep_view() == Some(timber_type@));
            assert(q.size.deep_view() == Some(timber_size@));
        }
        r
    }

    /// All timber records of one category and quantity, in ascending
    /// identifier order.
    pub fn _get_timber_by_type_and_quantity(&self, timber_type: &str, quantity: &u64) -> (r: Vec<
        Timber,
    >)
        requires
            self.wf(),
        ensures
            timber_query_result(
                self.timber_records(),
                timber_pred(Some(timber_type@), None, Some(*quantity), None, None),
                r@,
            ),
    {
        let q = TimberQuery {
            ty: Some(timber_type.to_owned()),
            size: None,
            quantity: Some(*quantity),
            created_at: None,
            updated_at: None,
        };
        let r = self.filter_timbers(&q);
        proof {
            assert(q.ty.deep_view() == Some(timber_type@));
            assert(q.size.deep_view() == None::<Seq<char>>);
        }
        r
    }

    /// All timber records of one dimension and quantity, in ascending
    /// identifier order.
    pub fn _get_timber_by_size_and_quantity(&self, timber_size: &str, quantity: &u64) -> (r: Vec<
        Timber,
    >)
        requires
            self.wf(),
        ensures
            timber_query_result(
                self.timber_records(),
                timber_pred(None, Some(timber_size@), Some(*quantity), None, None),
                r@,
            ),
    {
        let q = TimberQuery {
            ty: None,
            size: Some(timber_size.to_owned()),
            quantity: Some(*quantity),
            created_at: None,
            updated_at: None,
        };
        let r = self.filter_timbers(&q);
        proof {
            assert(q.ty.deep_view() == None::<Seq<char>>);
            assert(q.size.deep_view() == Some(timber_size@));
        }
        r
    }

    /// All timber records of one category, dimension and quantity, in
    /// ascending identifier order.
    pub fn _get_timber_by_type_and_size_and_quantity(
        &self,
        timber_type: &str,
        timber_size: &str,
        quantity: &u64,
    ) -> (r: Vec<Timber>)
        requires
            self.wf(),
        ensures
            timber_query_result(
                self.timber_records(),
                timber_pred(Some(timber_type@), Some(timber_size@), Some(*quantity), None, None),
                r@,
            ),
    {
        let q = TimberQuery {
            ty: Some(timber_type.to_owned()),
            size: Some(timber_size.to_owned()),
            quantity: Some(*quantity),
            created_at: None,
            updated_at: None,
        };
        let r = self.filter_timbers(&q);
        proof {
            assert(q.ty.deep_view() == Some(timber_type@));
            assert(q.size.deep_view() == Some(timber_size@));
        }
        r
    }

    /// All sales referencing one timber identifier, in ascending identifier
    /// order.
    pub fn _get_sales_by_timber_id(&self, timber_id: &u64) -> (r: Vec<Sales>)
        requires
            self.wf(),
        ensures
            sales_query_result(
                self.sales_records(),
                sales_pred(Some(*timber_id), None, None, None, None),
                r@,
            ),
    {
        let q = SalesQuery {
            timber_id: Some(*timber_id),
            quantity: None,
            price: None,
            created_at: None,
            updated_at: None,
        };
        self.filter_sales(&q)
    }

    /// All sales of one price, in ascending identifier order.
    pub fn _get_sales_by_price(&self, price: &u64) -> (r: Vec<Sales>)
        requires
            self.wf(),
        ensures
            sales_query_result(
                self.sales_records(),
                sales_pred(None, None, Some(*price), None, None),
                r@,
            ),
    {
        let q = SalesQuery {
            timber_id: None,
            quantity: None,
            price: Some(*price),
            created_at: None,
            updated_at: None,
        };
        self.filter_sales(&q)
    }

    /// All sales of one quantity, in ascending identifier order.
    pub fn _get_sales_by_quantity(&self, quantity: &u64) -> (r: Vec<Sales>)
        requires
            self.wf(),
        ensures
            sales_query_result(
                self.sales_records(),
                sales_pred(None, Some(*quantity), None, None, None),
                r@,
            ),
    {
        let q = SalesQuery {
            timber_id: None,
            quantity: Some(*quantity),
            price: None,
            created_at: None,
            updated_at: None,
        };
        self.filter_sales(&q)
    }

    /// All sales with one creation time, in ascending identifier order.
    pub fn _get_sales_by_created_at(&self, created_at: &u64) -> (r: Vec<Sales>)
        requires
            self.wf(),
        ensures
            sales_query_result(
                self.sales_records(),
                sales_pred(None, None, None, Some(*created_at), None),
                r@,
            ),
    {
        let q = SalesQuery {
            timber_id: None,
            quantity: None,
            price: None,
            created_at: Some(*created_at),
            updated_at: None,
        };
        self.filter_sales(&q)
    }

    /// All sales last updated at one time, in ascending identifier order.
    pub fn _get_sales_by_updated_at(&self, updated_at: &u64) -> (r: Vec<Sales>)
        requires
            self.wf(),
        ensures
            sales_query_result(
                self.sales_records(),
                sales_pred(None, None, None, None, Some(*updated_at)),
                r@,
            ),
    {
        let q = SalesQuery {
            timber_id: None,
            quantity: None,
            price: None,
            created_at: None,
            updated_at: Some(*updated_at),
        };
        self.filter_sales(&q)
    }
}

} // verus!
