//! Conversions between domain values and stored columns.
use vstd::prelude::*;
use vstd::string::*;

use crate::errors::CoreError;
use crate::ids::{uuid_parse, Uuid};
use crate::text::{cat, cat3, dec_int, dec_nat, i64_text, same_text, u64_text};
use crate::types::{parse_hash, BlakeHash, FileSize, FileUuid, LocationStatus, VolumeId};

verus! {

/// What is wrong with a stored value.
pub enum Fault {
    Internal(Seq<char>),
    InvalidHash(Seq<char>),
}

impl Fault {
    /// Whether an error reports this fault.
    pub open spec fn reported_by(self, e: CoreError) -> bool {
        match self {
            Fault::Internal(m) => e.is_internal(m),
            Fault::InvalidHash(m) => e.is_invalid_hash(m),
        }
    }
}

/// The first of two faults.
pub open spec fn first_fault(a: Option<Fault>, b: Option<Fault>) -> Option<Fault> {
    if a is Some {
        a
    } else {
        b
    }
}

/// The stored text of a status.
pub open spec fn status_text(status: LocationStatus) -> Seq<char> {
    match status {
        LocationStatus::Active => "active"@,
        LocationStatus::Missing => "missing"@,
        LocationStatus::Moved => "moved"@,
        LocationStatus::Stale => "stale"@,
    }
}

/// The status that a stored text stands for.
pub open spec fn status_of_text(s: Seq<char>) -> Option<LocationStatus> {
    if s == "active"@ {
        Some(LocationStatus::Active)
    } else if s == "missing"@ {
        Some(LocationStatus::Missing)
    } else if s == "moved"@ {
        Some(LocationStatus::Moved)
    } else if s == "stale"@ {
        Some(LocationStatus::Stale)
    } else {
        None
    }
}

/// What is wrong with a stored status.
pub open spec fn status_fault(s: Seq<char>) -> Option<Fault> {
    if status_of_text(s) is None {
        Some(Fault::Internal("unknown location status: "@ + s))
    } else {
        None
    }
}

/// Each status is stored under its own name, in lowercase.
pub proof fn law_status_names()
    ensures
        status_text(LocationStatus::Active) == "active"@,
        status_text(LocationStatus::Missing) == "missing"@,
        status_text(LocationStatus::Moved) == "moved"@,
        status_text(LocationStatus::Stale) == "stale"@,
{
}

/// The text of a status stands for that status.
pub proof fn law_status_round_trip(status: LocationStatus)
    ensures
        status_of_text(status_text(status)) == Some(status),
{
    reveal_strlit("active");
    reveal_strlit("missing");
    reveal_strlit("moved");
    reveal_strlit("stale");
    assert("active"@[0] == 'a' && "missing"@[0] == 'm' && "moved"@[0] == 'm' && "stale"@[0] == 's');
    assert("missing"@[1] == 'i' && "moved"@[1] == 'o');
}

/// Writes a status as it is stored.
pub fn status_to_str(status: LocationStatus) -> (r: &'static str)
    ensures
        r@ == status_text(status),
{
    match status {
        LocationStatus::Active => "active",
        LocationStatus::Missing => "missing",
        LocationStatus::Moved => "moved",
        LocationStatus::Stale => "stale",
    }
}

/// Reads a stored status; an unknown text counts as active.
pub fn str_to_status(s: &str) -> (r: LocationStatus)
    ensures
        r == match status_of_text(s@) {
            Some(status) => status,
            None => LocationStatus::Active,
        },
{
    proof {
        law_status_round_trip(LocationStatus::Missing);
        law_status_round_trip(LocationStatus::Moved);
        law_status_round_trip(LocationStatus::Stale);
    }
    if same_text(s, "missing") {
        LocationStatus::Missing
    } else if same_text(s, "moved") {
        LocationStatus::Moved
    } else if same_text(s, "stale") {
        LocationStatus::Stale
    } else {
        LocationStatus::Active
    }
}

/// Reads a stored status; an unknown text is an error.
pub fn status_from_str(s: &str) -> (r: Result<LocationStatus, CoreError>)
    ensures
        match status_of_text(s@) {
            Some(status) => r == Ok::<LocationStatus, CoreError>(status),
            None => r matches Err(e) && status_fault(s@)->0.reported_by(e),
        },
{
    if same_text(s, "active") {
        Ok(LocationStatus::Active)
    } else if same_text(s, "missing") {
        Ok(LocationStatus::Missing)
    } else if same_text(s, "moved") {
        Ok(LocationStatus::Moved)
    } else if same_text(s, "stale") {
        Ok(LocationStatus::Stale)
    } else {
        Err(CoreError::Internal(cat("unknown location status: ", s)))
    }
}

/// A number in 64 signed bits; what does not fit is an error that starts with
/// `what`.
pub fn u64_to_i64(v: u64, what: &str) -> (r: Result<i64, CoreError>)
    ensures
        match r {
            Ok(n) => n == v,
            Err(e) => v > i64::MAX && e.is_internal(
                what@ + " "@ + dec_nat(v as nat) + " overflows i64"@,
            ),
        },
{
    if v <= 0x7fff_ffff_ffff_ffff {
        Ok(v as i64)
    } else {
        let digits = u64_text(v);
        let mut s = cat3(what, " ", digits.as_str());
        s.append(" overflows i64");
        Err(CoreError::Internal(s))
    }
}

/// A file size as it is stored.
pub fn size_to_i64(size: FileSize) -> (r: Result<i64, CoreError>)
    ensures
        match r {
            Ok(n) => n == size.0,
            Err(e) => size.0 > i64::MAX && e.is_internal(
                "file size"@ + " "@ + dec_nat(size.0 as nat) + " overflows i64"@,
            ),
        },
{
    u64_to_i64(size.0, "file size")
}

/// A volume capacity as it is stored.
pub fn capacity_to_i64(capacity: u64) -> (r: Result<i64, CoreError>)
    ensures
        match r {
            Ok(n) => n == capacity,
            Err(e) => capacity > i64::MAX && e.is_internal(
                "capacity"@ + " "@ + dec_nat(capacity as nat) + " overflows i64"@,
            ),
        },
{
    u64_to_i64(capacity, "capacity")
}

/// What is wrong with a stored size.
pub open spec fn size_fault(v: i64) -> Option<Fault> {
    if v < 0 {
        Some(Fault::Internal("stored file_size "@ + dec_int(v as int) + " is negative"@))
    } else {
        None
    }
}

/// Reads a stored size.
pub fn i64_to_size(v: i64) -> (r: Result<FileSize, CoreError>)
    ensures
        match size_fault(v) {
            None => r matches Ok(size) && size.0 == v,
            Some(f) => r matches Err(e) && f.reported_by(e),
        },
{
    if v < 0 {
        let digits = i64_text(v);
        Err(CoreError::Internal(cat3("stored file_size ", digits.as_str(), " is negative")))
    } else {
        Ok(FileSize(v as u64))
    }
}

/// A stored row count; below zero it is an error.
pub fn i64_to_count(n: i64) -> (r: Result<u64, CoreError>)
    ensures
        match r {
            Ok(c) => c == n,
            Err(e) => n < 0 && e.is_internal("count "@ + dec_int(n as int) + " is negative"@),
        },
{
    if n < 0 {
        let digits = i64_text(n);
        Err(CoreError::Internal(cat3("count ", digits.as_str(), " is negative")))
    } else {
        Ok(n as u64)
    }
}

/// A limit as a query takes it: what exceeds 63 bits is as good as none.
pub fn limit_to_i64(limit: usize) -> (r: i64)
    ensures
        r == if limit <= i64::MAX {
            limit as int
        } else {
            i64::MAX as int
        },
{
    if limit as u64 <= 0x7fff_ffff_ffff_ffff {
        limit as i64
    } else {
        i64::MAX
    }
}

/// What is wrong with a stored UUID, as an error that starts with `what`.
pub open spec fn uuid_fault(s: Seq<char>, what: Seq<char>) -> Option<Fault> {
    match uuid_parse(s) {
        Ok(_) => None,
        Err(m) => Some(Fault::Internal(what + m)),
    }
}

/// The UUID that a stored text stands for, where it stands for one.
pub open spec fn stored_uuid(s: Seq<char>) -> Uuid {
    match uuid_parse(s) {
        Ok(u) => Uuid(u),
        Err(_) => Uuid(0),
    }
}

/// Reads a stored UUID; the error starts with `what`.
pub fn parse_uuid_column(s: &str, what: &str) -> (r: Result<Uuid, CoreError>)
    ensures
        match uuid_fault(s@, what@) {
            None => r == Ok::<Uuid, CoreError>(stored_uuid(s@)),
            Some(f) => r matches Err(e) && f.reported_by(e),
        },
{
    match Uuid::parse_str(s) {
        Ok(u) => Ok(u),
        Err(m) => Err(CoreError::Internal(cat(what, m.as_str()))),
    }
}

/// Reads the identifier of a file.
pub fn parse_file_uuid(s: &str) -> (r: Result<FileUuid, CoreError>)
    ensures
        match uuid_fault(s@, "bad file_uuid: "@) {
            None => r == Ok::<FileUuid, CoreError>(FileUuid(stored_uuid(s@))),
            Some(f) => r matches Err(e) && f.reported_by(e),
        },
{
    match parse_uuid_column(s, "bad file_uuid: ") {
        Ok(u) => Ok(FileUuid(u)),
        Err(e) => Err(e),
    }
}

/// Reads the identifier of a volume.
pub fn parse_volume_id(s: &str) -> (r: Result<VolumeId, CoreError>)
    ensures
        match uuid_fault(s@, "bad volume uuid: "@) {
            None => r == Ok::<VolumeId, CoreError>(VolumeId(stored_uuid(s@))),
            Some(f) => r matches Err(e) && f.reported_by(e),
        },
{
    match parse_uuid_column(s, "bad volume uuid: ") {
        Ok(u) => Ok(VolumeId(u)),
        Err(e) => Err(e),
    }
}

/// What is wrong with a stored hash.
pub open spec fn hash_fault(s: Seq<char>) -> Option<Fault> {
    match parse_hash(s) {
        Ok(_) => None,
        Err(m) => Some(Fault::InvalidHash(m)),
    }
}

/// What is wrong with a stored hash that may be absent.
pub open spec fn hash_opt_fault(s: Option<String>) -> Option<Fault> {
    match s {
        Some(t) => hash_fault(t@),
        None => None,
    }
}

/// Whether a hash is the one that a stored text stands for.
pub open spec fn is_hash_opt(s: Option<String>, h: Option<BlakeHash>) -> bool {
    match s {
        Some(t) => h matches Some(hash) && hash.hex() == t@,
        None => h is None,
    }
}

/// Reads a stored hash that may be absent.
pub fn parse_optional_hash(s: &Option<String>) -> (r: Result<Option<BlakeHash>, CoreError>)
    ensures
        match hash_opt_fault(*s) {
            None => r matches Ok(h) && is_hash_opt(*s, h),
            Some(f) => r matches Err(e) && f.reported_by(e),
        },
{
    match s {
        Some(hex) => match BlakeHash::parse_hex(hex.as_str()) {
            Ok(h) => Ok(Some(h)),
            Err(e) => Err(e),
        },
        None => Ok(None),
    }
}

/// What is wrong with a stored number that should fit 32 bits.
pub open spec fn u32_opt_fault(v: Option<i64>) -> Option<Fault> {
    match v {
        Some(n) => if 0 <= n <= u32::MAX {
            None
        } else {
            Some(Fault::Internal("stored u32 column value "@ + dec_int(n as int) + " out of range"@))
        },
        None => None,
    }
}

/// Reads a stored 32-bit number that may be absent.
pub fn i64_to_u32_opt(v: Option<i64>) -> (r: Result<Option<u32>, CoreError>)
    ensures
        match u32_opt_fault(v) {
            None => match v {
                Some(n) => r matches Ok(Some(x)) && x == n,
                None => r == Ok::<Option<u32>, CoreError>(None),
            },
            Some(f) => r matches Err(e) && f.reported_by(e),
        },
{
    match v {
        Some(n) => {
            if 0 <= n && n <= 0xffff_ffff {
                Ok(Some(n as u32))
            } else {
                let digits = i64_text(n);
                Err(
                    CoreError::Internal(
                        cat3("stored u32 column value ", digits.as_str(), " out of range"),
                    ),
                )
            }
        },
        None => Ok(None),
    }
}

/// What is wrong with a stored number that should not be negative.
pub open spec fn u64_opt_fault(v: Option<i64>) -> Option<Fault> {
    match v {
        Some(n) => if 0 <= n {
            None
        } else {
            Some(Fault::Internal("stored u64 column value "@ + dec_int(n as int) + " out of range"@))
        },
        None => None,
    }
}

/// Reads a stored non-negative number that may be absent.
pub fn i64_to_u64_opt(v: Option<i64>) -> (r: Result<Option<u64>, CoreError>)
    ensures
        match u64_opt_fault(v) {
            None => match v {
                Some(n) => r matches Ok(Some(x)) && x == n,
                None => r == Ok::<Option<u64>, CoreError>(None),
            },
            Some(f) => r matches Err(e) && f.reported_by(e),
        },
{
    match v {
        Some(n) => {
            if 0 <= n {
                Ok(Some(n as u64))
            } else {
                let digits = i64_text(n);
                Err(
                    CoreError::Internal(
                        cat3("stored u64 column value ", digits.as_str(), " out of range"),
                    ),
                )
            }
        },
        None => Ok(None),
    }
}

} // verus!
