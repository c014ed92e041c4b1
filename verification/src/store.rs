//! The key-value store contract: the fixed single row, the shape of every
//! read and write against it, and an in-memory model of the store that the
//! service's tests and demo front end run against.
//!
//! The service keeps at most one logical row, addressed by the fixed
//! partition value `"main_garage"` under the attribute `"garage_name"` in the
//! table `"garage_status"`; the row's `"status"` attribute holds the encoded
//! door state. No part of the key is ever taken from a request.

use crate::status::{encode_status, spec_encode, GarageDoorStatus};
use vstd::prelude::*;
use vstd::string::StringExecFns;

verus! {

/// A point read of the single row: the table and the full key, fixed.
pub struct ReadRequest {
    pub table: String,
    pub partition_attr: String,
    pub partition_value: String,
}

/// A point write of the single row: an unconditional upsert of the fixed key
/// with the encoded status as its one value attribute.
pub struct PutRecord {
    pub table: String,
    pub partition_attr: String,
    pub partition_value: String,
    pub status_attr: String,
    pub status_value: String,
}

pub fn build_read_request() -> (r: ReadRequest)
    ensures
        r.table@ == "garage_status"@,
        r.partition_attr@ == "garage_name"@,
        r.partition_value@ == "main_garage"@,
{
    ReadRequest {
        table: String::from_str("garage_status"),
        partition_attr: String::from_str("garage_name"),
        partition_value: String::from_str("main_garage"),
    }
}

pub fn build_put_record(g: &GarageDoorStatus) -> (r: PutRecord)
    ensures
        r.table@ == "garage_status"@,
        r.partition_attr@ == "garage_name"@,
        r.partition_value@ == "main_garage"@,
        r.status_attr@ == "status"@,
        r.status_value@ == spec_encode(g.status),
{
    PutRecord {
        table: String::from_str("garage_status"),
        partition_attr: String::from_str("garage_name"),
        partition_value: String::from_str("main_garage"),
        status_attr: String::from_str("status"),
        status_value: encode_status(g.status),
    }
}

/// The store contents after an unconditional upsert of the single row.
pub open spec fn spec_after_put(stored: Option<Seq<char>>, v: Seq<char>) -> Option<Seq<char>> {
    Some(v)
}

/// An in-memory stand-in for the key-value store: the one logical row it can
/// ever hold, a fault switch that makes every call fail with a fixed
/// description, and counters of the calls issued against it.
pub struct StoreModel {
    /// The `"status"` attribute of the single row; no value when no row exists.
    pub stored: Option<String>,
    /// When set, every call fails with this description and writes nothing.
    pub fault: Option<String>,
    /// How many point reads were issued.
    pub gets: u64,
    /// How many point writes were issued.
    pub puts: u64,
}

/// The contents of a store: the raw status attribute of the single row.
pub open spec fn store_contents(s: StoreModel) -> Option<Seq<char>> {
    match s.stored {
        Some(v) => Some(v@),
        None => None,
    }
}

impl StoreModel {
    /// A fresh store: no row, no fault, nothing issued yet.
    pub fn new() -> (r: StoreModel)
        ensures
            r.stored is None,
            r.fault is None,
            r.gets == 0,
            r.puts == 0,
    {
        StoreModel { stored: None, fault: None, gets: 0, puts: 0 }
    }

    /// Arms the fault switch: every later call fails with `msg`.
    pub fn set_fault(&mut self, msg: String)
        ensures
            final(self).stored == old(self).stored,
            final(self).gets == old(self).gets,
            final(self).puts == old(self).puts,
            final(self).fault matches Some(m) && m@ == msg@,
    {
        self.fault = Some(msg);
    }

    /// A point read of the single row.
    pub fn get(&mut self) -> (r: Result<Option<String>, String>)
        requires
            old(self).gets < u64::MAX,
        ensures
            final(self).stored == old(self).stored,
            final(self).fault == old(self).fault,
            final(self).puts == old(self).puts,
            final(self).gets == old(self).gets + 1,
            match old(self).fault {
                Some(m) => r matches Err(e) && e@ == m@,
                None => r matches Ok(v) && v == old(self).stored,
            },
    {
        self.gets = self.gets + 1;
        match &self.fault {
            Some(m) => Err(m.clone()),
            None => match &self.stored {
                Some(v) => Ok(Some(v.clone())),
                None => Ok(None),
            },
        }
    }

    /// A point write of the single row: an unconditional upsert. On a fault
    /// nothing at all is written.
    pub fn put(&mut self, rec: &PutRecord) -> (r: Result<(), String>)
        requires
            old(self).puts < u64::MAX,
        ensures
            final(self).fault == old(self).fault,
            final(self).gets == old(self).gets,
            final(self).puts == old(self).puts + 1,
            match old(self).fault {
                Some(m) => r matches Err(e) && e@ == m@ && final(self).stored == old(
                    self,
                ).stored,
                None => r matches Ok(u) && store_contents(*final(self)) == spec_after_put(
                    store_contents(*old(self)),
                    rec.status_value@,
                ),
            },
    {
        self.puts = self.puts + 1;
        match &self.fault {
            Some(m) => Err(m.clone()),
            None => {
                self.stored = Some(rec.status_value.clone());
                Ok(())
            },
        }
    }
}

/// Law: the write is idempotent — upserting the same value twice leaves the
/// stored row exactly as upserting it once does.
pub proof fn lemma_put_idempotent(stored: Option<Seq<char>>, v: Seq<char>)
    ensures
        spec_after_put(spec_after_put(stored, v), v) == spec_after_put(stored, v),
{
}

} // verus!
