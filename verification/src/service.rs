//! The record store: validated create/read/update/delete over one durable map
//! per record kind, with identifiers minted by a shared durable counter.
use vstd::prelude::*;
use crate::codec::{
    decode_sales,
    decode_timber,
    encode_sales,
    encode_timber,
    lemma_sales_round_trip,
    lemma_timber_round_trip,
    spec_decode_sales,
    spec_decode_timber,
};
use crate::records::{
    is_timber_size_text,
    is_timber_type_text,
    parse_timber_size,
    parse_timber_type,
    timber_size_text,
    timber_type_text,
    wf_sales,
    wf_timber,
    Error,
    Sales,
    SalesPayload,
    SalesUpdatePayload,
    Timber,
    TimberPayload,
    TimberUpdatePayload,
};
use crate::storage::{counter_value, map_contents, DurableCounter, DurableMap, Regions};

verus! {

/// The store: two durable maps, one per record kind, and the durable counter
/// both kinds mint their identifiers from. Identifiers are unique across
/// kinds and not contiguous within one.
pub struct Service {
    pub counter: DurableCounter,
    pub timbers: DurableMap,
    pub sales: DurableMap,
}

impl Service {
    /// The last-issued identifier.
    pub open spec fn counter_val(self) -> u64 {
        counter_value(self.counter)
    }

    /// The bytes resting in the timber map.
    pub open spec fn timber_bytes(self) -> Map<u64, Seq<u8>> {
        map_contents(self.timbers)
    }

    /// The bytes resting in the sales map.
    pub open spec fn sales_bytes(self) -> Map<u64, Seq<u8>> {
        map_contents(self.sales)
    }

    /// The timber records the store holds, keyed by identifier.
    pub open spec fn timber_records(self) -> Map<u64, Timber> {
        self.timber_bytes().map_values(|b: Seq<u8>| spec_decode_timber(b).unwrap())
    }

    /// The sale records the store holds, keyed by identifier.
    pub open spec fn sales_records(self) -> Map<u64, Sales> {
        self.sales_bytes().map_values(|b: Seq<u8>| spec_decode_sales(b).unwrap())
    }

    /// Well-formedness of the store: every slot holds the exact encoding of a
    /// well-formed record whose identifier is its key, and no identifier
    /// exceeds the counter, so the next minted identifier is always fresh.
    pub open spec fn wf(self) -> bool {
        &&& forall|k: u64|
            #[trigger] self.timber_bytes().contains_key(k) ==> {
                let d = spec_decode_timber(self.timber_bytes()[k]);
                &&& d is Some
                &&& d.unwrap().id == k
                &&& wf_timber(d.unwrap())
                &&& k <= self.counter_val()
            }
        &&& forall|k: u64|
            #[trigger] self.sales_bytes().contains_key(k) ==> {
                let d = spec_decode_sales(self.sales_bytes()[k]);
                &&& d is Some
                &&& d.unwrap().id == k
                &&& wf_sales(d.unwrap())
                &&& k <= self.counter_val()
            }
    }

    /// Opens the store over three distinct regions of the managed memory:
    /// region 0 holds the identifier counter, regions 1 and 2 the timber and
    /// sales maps, so the layout is stable across restarts and no component
    /// can overwrite another. Each component loads what its region
    /// persisted; a fresh memory yields an empty store with the counter at
    /// zero. Relies on `MemoryManager::init`, `Cell::init` and
    /// `BTreeMap::init` through the region constructors, and trusts that the
    /// regions hold only what this library wrote: every operation of the
    /// store preserves well-formedness, so the state read back is
    /// well-formed.
    #[verifier::external_body]
    pub fn new() -> (s: Service)
        ensures
            s.wf(),
    {
        let regions = Regions::new();
        let counter = DurableCounter::new(&regions, 0);
        let timbers = DurableMap::new(&regions, 1);
        let sales = DurableMap::new(&regions, 2);
        Service { counter, timbers, sales }
    }

    /// Reads the last-issued identifier, so a caller outside the library can
    /// see whether another identifier can still be minted.
    pub fn current_counter(&self) -> (v: u64)
        ensures
            v == self.counter_val(),
    {
        self.counter.get()
    }

    /// Mints a new identifier: reads the counter, adds one, persists the
    /// incremented value, and returns it. The records of both kinds are
    /// untouched.
    pub fn generate_unique_id(&mut self) -> (id: u64)
        requires
            old(self).counter_val() < u64::MAX,
        ensures
            id == old(self).counter_val() + 1,
            final(self).counter_val() == id,
            final(self).timbers == old(self).timbers,
            final(self).sales == old(self).sales,
    {
        let id = self.counter.get() + 1;
        self.counter.set(id);
        id
    }

    /// Upserts a well-formed timber record under its own identifier.
    pub fn do_insert_timber(&mut self, timber: &Timber)
        requires
            old(self).wf(),
            wf_timber(*timber),
            timber.id <= old(self).counter_val(),
        ensures
            final(self).wf(),
            final(self).timber_records() == old(self).timber_records().insert(timber.id, *timber),
            final(self).sales == old(self).sales,
            final(self).counter_val() == old(self).counter_val(),
    {
        let bytes = encode_timber(timber);
        self.timbers.insert(timber.id, bytes);
        proof {
            lemma_timber_round_trip(*timber);
            assert forall|k: u64| #[trigger] self.timber_bytes().contains_key(k) implies {
                let d = spec_decode_timber(self.timber_bytes()[k]);
                &&& d is Some
                &&& d.unwrap().id == k
                &&& wf_timber(d.unwrap())
                &&& k <= self.counter_val()
            } by {
                if k != timber.id {
                    assert(old(self).timber_bytes().contains_key(k));
                }
            }
            assert(self.timber_records() =~= old(self).timber_records().insert(
                timber.id,
                *timber,
            ));
        }
    }

    /// Upserts a well-formed sale record under its own identifier.
    pub fn do_insert_sales(&mut self, sales: &Sales)
        requires
            old(self).wf(),
            wf_sales(*sales),
            sales.id <= old(self).counter_val(),
        ensures
            final(self).wf(),
            final(self).sales_records() == old(self).sales_records().insert(sales.id, *sales),
            final(self).timbers == old(self).timbers,
            final(self).counter_val() == old(self).counter_val(),
    {
        let bytes = encode_sales(sales);
        self.sales.insert(sales.id, bytes);
        proof {
            lemma_sales_round_trip(*sales);
            assert forall|k: u64| #[trigger] self.sales_bytes().contains_key(k) implies {
                let d = spec_decode_sales(self.sales_bytes()[k]);
                &&& d is Some
                &&& d.unwrap().id == k
                &&& wf_sales(d.unwrap())
                &&& k <= self.counter_val()
            } by {
                if k != sales.id {
                    assert(old(self).sales_bytes().contains_key(k));
                }
            }
            assert(self.sales_records() =~= old(self).sales_records().insert(sales.id, *sales));
        }
    }

    /// Point lookup of a timber record.
    pub fn _get_timber(&self, id: &u64) -> (r: Option<Timber>)
        requires
            self.wf(),
        ensures
            match r {
                Some(t) => self.timber_records().contains_key(*id) && t
                    == self.timber_records()[*id as u64],
                None => !self.timber_records().contains_key(*id),
            },
    {
        match self.timbers.get(*id) {
            Some(bytes) => {
                let t = decode_timber(bytes.as_slice()).unwrap();
                Some(t)
            },
            None => None,
        }
    }

    /// Point lookup of a sale record.
    pub fn _get_sales(&self, id: &u64) -> (r: Option<Sales>)
        requires
            self.wf(),
        ensures
            match r {
                Some(s) => self.sales_records().contains_key(*id) && s
                    == self.sales_records()[*id as u64],
                None => !self.sales_records().contains_key(*id),
            },
    {
        match self.sales.get(*id) {
            Some(bytes) => {
                let s = decode_sales(bytes.as_slice()).unwrap();
                Some(s)
            },
            None => None,
        }
    }

    /// Point lookup of a timber record.
    pub fn _get_timber_by_id(&self, id: &u64) -> (r: Option<Timber>)
        requires
            self.wf(),
        ensures
            match r {
                Some(t) => self.timber_records().contains_key(*id) && t
                    == self.timber_records()[*id as u64],
                None => !self.timber_records().contains_key(*id),
            },
    {
        self._get_timber(id)
    }

    /// Point lookup of a sale record.
    pub fn _get_sales_by_id(&self, id: &u64) -> (r: Option<Sales>)
        requires
            self.wf(),
        ensures
            match r {
                Some(s) => self.sales_records().contains_key(*id) && s
                    == self.sales_records()[*id as u64],
                None => !self.sales_records().contains_key(*id),
            },
    {
        self._get_sales(id)
    }

    /// Reads a timber record, or reports that the identifier is absent.
    pub fn get_timber(&self, id: u64) -> (r: Result<Timber, Error>)
        requires
            self.wf(),
        ensures
            match r {
                Ok(t) => self.timber_records().contains_key(id) && t == self.timber_records()[id],
                Err(e) => !self.timber_records().contains_key(id) && e == (Error::TimberNotFound {
                    id,
                }),
            },
    {
        match self._get_timber(&id) {
            Some(t) => Ok(t),
            None => Err(Error::TimberNotFound { id }),
        }
    }

    /// Reads a sale record, or reports that the identifier is absent.
    pub fn get_sales(&self, id: u64) -> (r: Result<Sales, Error>)
        requires
            self.wf(),
        ensures
            match r {
                Ok(s) => self.sales_records().contains_key(id) && s == self.sales_records()[id],
                Err(e) => !self.sales_records().contains_key(id) && e == (Error::SalesNotFound {
                    id,
                }),
            },
    {
        match self._get_sales(&id) {
            Some(s) => Ok(s),
            None => Err(Error::SalesNotFound { id }),
        }
    }

    /// Creates a timber record from a validated payload. On success the new
    /// record carries a fresh identifier, the creation time `now`, and no
    /// update time; on a validation failure nothing is mutated and the error
    /// names the rejected value.
    pub fn add_timber(&mut self, timber: TimberPayload, now: u64) -> (r: Result<Timber, Error>)
        requires
            old(self).wf(),
            old(self).counter_val() < u64::MAX,
        ensures
            final(self).wf(),
            match r {
                Ok(t) => {
                    &&& timber_type_text(t.timber_type) == timber.timber_type@
                    &&& timber_size_text(t.timber_size) == timber.timber_size@
                    &&& t.quantity == timber.quantity
                    &&& t.quantity > 0
                    &&& t.created_at == now
                    &&& t.updated_at is None
                    &&& t.id == old(self).counter_val() + 1
                    &&& !old(self).timber_records().contains_key(t.id)
                    &&& !old(self).sales_records().contains_key(t.id)
                    &&& final(self).timber_records() == old(self).timber_records().insert(
                        t.id,
                        t,
                    )
                    &&& final(self).sales_records() == old(self).sales_records()
                    &&& final(self).counter_val() == t.id
                },
                Err(e) => {
                    &&& *final(self) == *old(self)
                    &&& match e {
                        Error::InvalidTimberType { given } => given@ == timber.timber_type@
                            && !is_timber_type_text(timber.timber_type@),
                        Error::InvalidTimberSize { given } => given@ == timber.timber_size@
                            && is_timber_type_text(timber.timber_type@) && !is_timber_size_text(
                            timber.timber_size@,
                        ),
                        Error::ZeroQuantity => is_timber_type_text(timber.timber_type@)
                            && is_timber_size_text(timber.timber_size@) && timber.quantity == 0,
                        _ => false,
                    }
                },
            },
    {
        let ty = match parse_timber_type(timber.timber_type.as_str()) {
            Some(t) => t,
            None => {
                return Err(Error::InvalidTimberType { given: timber.timber_type });
            },
        };
        let sz = match parse_timber_size(timber.timber_size.as_str()) {
            Some(z) => z,
            None => {
                return Err(Error::InvalidTimberSize { given: timber.timber_size });
            },
        };
        if timber.quantity == 0 {
            return Err(Error::ZeroQuantity);
        }
        let id = self.generate_unique_id();
        let t = Timber {
            id,
            timber_type: ty,
            timber_size: sz,
            quantity: timber.quantity,
            created_at: now,
            updated_at: None,
        };
        self.do_insert_timber(&t);
        Ok(t)
    }

    /// Creates a sale record from a validated payload. The referenced timber
    /// identifier must exist at creation time; on any failure nothing is
    /// mutated and the error names the cause.
    pub fn add_sales(&mut self, sales: SalesPayload, now: u64) -> (r: Result<Sales, Error>)
        requires
            old(self).wf(),
            old(self).counter_val() < u64::MAX,
        ensures
            final(self).wf(),
            match r {
                Ok(s) => {
                    &&& s.timber_id == sales.timber_id
                    &&& s.quantity == sales.quantity
                    &&& s.price == sales.price
                    &&& s.quantity > 0
                    &&& s.price > 0
                    &&& s.created_at == now
                    &&& s.updated_at is None
                    &&& s.id == old(self).counter_val() + 1
                    &&& old(self).timber_records().contains_key(sales.timber_id)
                    &&& !old(self).sales_records().contains_key(s.id)
                    &&& !old(self).timber_records().contains_key(s.id)
                    &&& final(self).sales_records() == old(self).sales_records().insert(s.id, s)
                    &&& final(self).timber_records() == old(self).timber_records()
                    &&& final(self).counter_val() == s.id
                },
                Err(e) => {
                    &&& *final(self) == *old(self)
                    &&& match e {
                        Error::ZeroQuantity => sales.quantity == 0,
                        Error::ZeroPrice => sales.quantity > 0 && sales.price == 0,
                        Error::TimberNotFound { id } => id == sales.timber_id && sales.quantity
                            > 0 && sales.price > 0 && !old(self).timber_records().contains_key(
                            sales.timber_id,
                        ),
                        _ => false,
                    }
                },
            },
    {
        if sales.quantity == 0 {
            return Err(Error::ZeroQuantity);
        }
        if sales.price == 0 {
            return Err(Error::ZeroPrice);
        }
        match self._get_timber(&sales.timber_id) {
            Some(_) => (),
            None => {
                return Err(Error::TimberNotFound { id: sales.timber_id });
            },
        }
        let id = self.generate_unique_id();
        let s = Sales {
            id,
            timber_id: sales.timber_id,
            quantity: sales.quantity,
            price: sales.price,
            created_at: now,
            updated_at: None,
        };
        self.do_insert_sales(&s);
        Ok(s)
    }

    /// Replaces the mutable fields of a timber record with validated payload
    /// values and stamps the update time. The identifier and the creation
    /// time are preserved; on any failure nothing is mutated.
    pub fn update_timber(&mut self, id: u64, payload: TimberUpdatePayload, now: u64) -> (r:
        Result<Timber, Error>)
        requires
            old(self).wf(),
        ensures
            final(self).wf(),
            match r {
                Ok(t) => {
                    &&& old(self).timber_records().contains_key(id)
                    &&& t.id == id
                    &&& t.created_at == old(self).timber_records()[id].created_at
                    &&& t.updated_at == Some(now)
                    &&& timber_type_text(t.timber_type) == payload.timber_type@
                    &&& timber_size_text(t.timber_size) == payload.timber_size@
                    &&& t.quantity == payload.quantity
                    &&& t.quantity > 0
                    &&& final(self).timber_records() == old(self).timber_records().insert(id, t)
                    &&& final(self).sales_records() == old(self).sales_records()
                    &&& final(self).counter_val() == old(self).counter_val()
                },
                Err(e) => {
                    &&& *final(self) == *old(self)
                    &&& match e {
                        Error::InvalidTimberType { given } => given@ == payload.timber_type@
                            && !is_timber_type_text(payload.timber_type@),
                        Error::InvalidTimberSize { given } => given@ == payload.timber_size@
                            && is_timber_type_text(payload.timber_type@) && !is_timber_size_text(
                            payload.timber_size@,
                        ),
                        Error::ZeroQuantity => is_timber_type_text(payload.timber_type@)
                            && is_timber_size_text(payload.timber_size@) && payload.quantity == 0,
                        Error::TimberNotFound { id: missing } => missing == id
                            && is_timber_type_text(payload.timber_type@) && is_timber_size_text(
                            payload.timber_size@,
                        ) && payload.quantity > 0 && !old(self).timber_records().contains_key(id),
                        _ => false,
                    }
                },
            },
    {
        let ty = match parse_timber_type(payload.timber_type.as_str()) {
            Some(t) => t,
            None => {
                return Err(Error::InvalidTimberType { given: payload.timber_type });
            },
        };
        let sz = match parse_timber_size(payload.timber_size.as_str()) {
            Some(z) => z,
            None => {
                return Err(Error::InvalidTimberSize { given: payload.timber_size });
            },
        };
        if payload.quantity == 0 {
            return Err(Error::ZeroQuantity);
        }
        match self._get_timber(&id) {
            Some(prior) => {
                let t = Timber {
                    id,
                    timber_type: ty,
                    timber_size: sz,
                    quantity: payload.quantity,
                    created_at: prior.created_at,
                    updated_at: Some(now),
                };
                self.do_insert_timber(&t);
                Ok(t)
            },
            None => Err(Error::TimberNotFound { id }),
        }
    }

    /// Replaces the mutable fields of a sale record with validated payload
    /// values and stamps the update time. The identifier, the referenced
    /// timber identifier and the creation time are preserved; the reference
    /// is not re-checked. On any failure nothing is mutated.
    pub fn update_sales(&mut self, id: u64, payload: SalesUpdatePayload, now: u64) -> (r: Result<
        Sales,
        Error,
    >)
        requires
            old(self).wf(),
        ensures
            final(self).wf(),
            match r {
                Ok(s) => {
                    &&& old(self).sales_records().contains_key(id)
                    &&& s.id == id
                    &&& s.timber_id == old(self).sales_records()[id].timber_id
                    &&& s.created_at == old(self).sales_records()[id].created_at
                    &&& s.updated_at == Some(now)
                    &&& s.quantity == payload.quantity
                    &&& s.price == payload.price
                    &&& s.quantity > 0
                    &&& s.price > 0
                    &&& final(self).sales_records() == old(self).sales_records().insert(id, s)
                    &&& final(self).timber_records() == old(self).timber_records()
                    &&& final(self).counter_val() == old(self).counter_val()
                },
                Err(e) => {
                    &&& *final(self) == *old(self)
                    &&& match e {
                        Error::ZeroQuantity => payload.quantity == 0,
                        Error::ZeroPrice => payload.quantity > 0 && payload.price == 0,
                        Error::SalesNotFound { id: missing } => missing == id && payload.quantity
                            > 0 && payload.price > 0 && !old(self).sales_records().contains_key(
                            id,
                        ),
                        _ => false,
                    }
                },
            },
    {
        if payload.quantity == 0 {
            return Err(Error::ZeroQuantity);
        }
        if payload.price == 0 {
            return Err(Error::ZeroPrice);
        }
        match self._get_sales(&id) {
            Some(prior) => {
                let s = Sales {
                    id,
                    timber_id: prior.timber_id,
                    quantity: payload.quantity,
                    price: payload.price,
                    created_at: prior.created_at,
                    updated_at: Some(now),
                };
                self.do_insert_sales(&s);
                Ok(s)
            },
            None => Err(Error::SalesNotFound { id }),
        }
    }

    /// Deletes a timber record and returns it, so the caller can observe what
    /// was removed; reports the identifier when it is absent.
    pub fn delete_timber(&mut self, id: u64) -> (r: Result<Timber, Error>)
        requires
            old(self).wf(),
        ensures
            final(self).wf(),
            match r {
                Ok(t) => {
                    &&& old(self).timber_records().contains_key(id)
                    &&& t == old(self).timber_records()[id]
                    &&& final(self).timber_records() == old(self).timber_records().remove(id)
                    &&& final(self).sales_records() == old(self).sales_records()
                    &&& final(self).counter_val() == old(self).counter_val()
                },
                Err(e) => {
                    &&& !old(self).timber_records().contains_key(id)
                    &&& e == (Error::TimberNotFound { id })
                    &&& *final(self) == *old(self)
                },
            },
    {
        match self._get_timber(&id) {
            Some(t) => {
                self.timbers.remove(id);
                proof {
                    assert forall|k: u64| #[trigger] self.timber_bytes().contains_key(k) implies {
                        let d = spec_decode_timber(self.timber_bytes()[k]);
                        &&& d is Some
                        &&& d.unwrap().id == k
                        &&& wf_timber(d.unwrap())
                        &&& k <= self.counter_val()
                    } by {
                        assert(old(self).timber_bytes().contains_key(k));
                    }
                    assert(self.timber_records() =~= old(self).timber_records().remove(id));
                }
                Ok(t)
            },
            None => Err(Error::TimberNotFound { id }),
        }
    }

    /// Deletes a sale record and returns it; reports the identifier when it
    /// is absent.
    pub fn delete_sales(&mut self, id: u64) -> (r: Result<Sales, Error>)
        requires
            old(self).wf(),
        ensures
            final(self).wf(),
            match r {
                Ok(s) => {
                    &&& old(self).sales_records().contains_key(id)
                    &&& s == old(self).sales_records()[id]
                    &&& final(self).sales_records() == old(self).sales_records().remove(id)
                    &&& final(self).timber_records() == old(self).timber_records()
                    &&& final(self).counter_val() == old(self).counter_val()
                },
                Err(e) => {
                    &&& !old(self).sales_records().contains_key(id)
                    &&& e == (Error::SalesNotFound { id })
                    &&& *final(self) == *old(self)
                },
            },
    {
        match self._get_sales(&id) {
            Some(s) => {
                self.sales.remove(id);
                proof {
                    assert forall|k: u64| #[trigger] self.sales_bytes().contains_key(k) implies {
                        let d = spec_decode_sales(self.sales_bytes()[k]);
                        &&& d is Some
                        &&& d.unwrap().id == k
                        &&& wf_sales(d.unwrap())
                        &&& k <= self.counter_val()
                    } by {
                        assert(old(self).sales_bytes().contains_key(k));
                    }
                    assert(self.sales_records() =~= old(self).sales_records().remove(id));
                }
                Ok(s)
            },
            None => Err(Error::SalesNotFound { id }),
        }
    }
}

} // verus!
