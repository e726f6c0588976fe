//! Reads of the cache of hashes by file identity.
use vstd::prelude::*;
use vstd::string::*;

use crate::db::convert::{
    first_fault, hash_fault, hash_opt_fault, is_hash_opt, parse_optional_hash,
};
use crate::db::lookups::Lookup;
use crate::db::sql::{uuid_value, SqlCall, SqlValue};
use crate::db::writer::cache::{key_bound, key_size, size_refused};
use crate::errors::CoreError;
use crate::ports::identity_cache::{CacheEntry, CacheKey};
use crate::types::BlakeHash;

verus! {

/// A row of the query that finds an entry.
#[derive(Clone, Debug)]
pub struct CacheRow {
    pub quick_hash: String,
    pub full_hash: Option<String>,
}

impl CacheRow {
    /// Whether an entry says what the row says.
    pub open spec fn read_as(self, entry: CacheEntry) -> bool {
        entry.quick_hash.hex() == self.quick_hash@ && is_hash_opt(self.full_hash, entry.full_hash)
    }
}

/// The query for the entry under a key. A size that cannot be stored is refused.
pub fn lookup_query(key: &CacheKey) -> (r: Result<SqlCall, CoreError>)
    ensures
        match r {
            Ok(call) => key.size_bytes <= i64::MAX && call.is(Lookup::CacheEntry.sql(), key_bound(*key)),
            Err(e) => size_refused(*key, e),
        },
{
    match key_size(key) {
        Ok(size) => {
            let params: Vec<SqlValue> = vec![
                uuid_value(key.device_id.0),
                uuid_value(key.volume_id.0),
                SqlValue::Int(key.fs_file_id),
                SqlValue::Int(size),
                SqlValue::Int(key.mtime_ns),
            ];
            Ok(Lookup::CacheEntry.shape().call(params))
        },
        Err(e) => Err(e),
    }
}

/// Reads what the query found.
pub fn lookup(row: &Option<CacheRow>) -> (r: Result<Option<CacheEntry>, CoreError>)
    ensures
        match *row {
            None => r matches Ok(None),
            Some(c) => match first_fault(hash_fault(c.quick_hash@), hash_opt_fault(c.full_hash)) {
                None => r matches Ok(Some(entry)) && c.read_as(entry),
                Some(f) => r matches Err(e) && f.reported_by(e),
            },
        },
{
    match row {
        None => Ok(None),
        Some(c) => {
            let quick_hash = match BlakeHash::parse_hex(c.quick_hash.as_str()) {
                Ok(h) => h,
                Err(e) => return Err(e),
            };
            match parse_optional_hash(&c.full_hash) {
                Ok(full_hash) => Ok(Some(CacheEntry { quick_hash, full_hash })),
                Err(e) => Err(e),
            }
        },
    }
}

} // verus!
