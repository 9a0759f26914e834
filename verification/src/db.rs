//! The tunnel records of the relay server's database: how rows become records,
//! and the decisions around subdomain conflicts and missing tunnels. The SQL
//! itself runs in the caller.
use vstd::prelude::*;
use crate::protocol::CourierError;
use crate::text::{copy_text, concat2, concat3, strip_prefix_text};

verus! {

/// A tunnel record (legacy shape, without an owner).
#[derive(Debug, Clone)]
pub struct Courier {
    pub id: String,
    pub subdomain: String,
    pub auth_token: String,
    pub local_port: u16,
    pub status: String,
    pub created_at_iso: String,
    pub bytes_transferred: u64,
}

/// A tunnel record.
#[derive(Debug, Clone)]
pub struct Tunnel {
    pub id: String,
    pub subdomain: String,
    pub auth_token: String,
    pub local_port: u16,
    /// "active" or "disconnected".
    pub status: String,
    /// Creation time in RFC 3339, empty when the stored time is out of range.
    pub created_at_iso: String,
    pub bytes_transferred: u64,
    pub user_id: Option<String>,
}

/// Status of a tunnel whose client is connected.
pub const STATUS_ACTIVE: &'static str = "active";

/// Status of a tunnel whose client is gone.
pub const STATUS_DISCONNECTED: &'static str = "disconnected";

/// The RFC 3339 text of a Unix time in seconds, in UTC, as `chrono` writes it;
/// `None` when the time is out of `chrono`'s range.
pub uninterp spec fn rfc3339_of(secs: i64) -> Option<Seq<char>>;

/// `DateTime::<Utc>::from_timestamp(secs, 0)` then `to_rfc3339` (`chrono`): a
/// function of the time alone.
#[verifier::external_body]
fn rfc3339_from_unix(secs: i64) -> (r: Option<String>)
    ensures
        match r {
            Some(t) => rfc3339_of(secs) == Some(t@),
            None => rfc3339_of(secs) is None,
        },
{
    match chrono::DateTime::<chrono::Utc>::from_timestamp(secs, 0) {
        Some(dt) => Some(dt.to_rfc3339()),
        None => None,
    }
}

/// The creation time text stored in a record: RFC 3339, or empty when out of range.
pub open spec fn created_text(secs: i64) -> Seq<char> {
    match rfc3339_of(secs) {
        Some(t) => t,
        None => Seq::empty(),
    }
}

/// The RFC 3339 text of a Unix time, empty when out of range.
pub fn created_at_text(secs: i64) -> (r: String)
    ensures
        r@ == created_text(secs),
{
    match rfc3339_from_unix(secs) {
        Some(t) => t,
        None => String::new(),
    }
}

/// A tunnel record from the columns of its row; the port and byte count are
/// read back with the casts the row's integer types call for.
pub fn tunnel_from_row(
    id: String,
    subdomain: String,
    auth_token: String,
    local_port: i32,
    status: String,
    created_at: i64,
    bytes_transferred: i64,
) -> (r: Tunnel)
    ensures
        r.id@ == id@,
        r.subdomain@ == subdomain@,
        r.auth_token@ == auth_token@,
        r.local_port == local_port as u16,
        r.status@ == status@,
        r.created_at_iso@ == created_text(created_at),
        r.bytes_transferred == bytes_transferred as u64,
        r.user_id is None,
{
    Tunnel {
        id,
        subdomain,
        auth_token,
        local_port: local_port as u16,
        status,
        created_at_iso: created_at_text(created_at),
        bytes_transferred: bytes_transferred as u64,
        user_id: None,
    }
}

/// After counting the tunnels that use `subdomain`: taken when any does.
pub fn subdomain_conflict_result(count: i64, subdomain: &str) -> (r: Result<(), CourierError>)
    ensures
        count > 0 ==> (r matches Err(CourierError::SubdomainConflict(m)) && m@ == subdomain@),
        count <= 0 ==> r is Ok,
{
    if count > 0 {
        return Err(CourierError::SubdomainConflict(copy_text(subdomain)));
    }
    Ok(())
}

/// After looking for a stored tunnel with `subdomain`: taken when one exists.
pub fn unique_subdomain_result(taken: bool, subdomain: &str) -> (r: Result<(), CourierError>)
    ensures
        taken ==> (r matches Err(CourierError::SubdomainConflict(m)) && m@ == "子域名 "@ + subdomain@ + " 已被占用"@),
        !taken ==> r is Ok,
{
    if taken {
        return Err(CourierError::SubdomainConflict(concat3("子域名 ", subdomain, " 已被占用")));
    }
    Ok(())
}

/// A looked-up record, or the error that tunnel `courier_id` does not exist.
pub fn tunnel_or_not_found(row: Option<Tunnel>, courier_id: &str) -> (r: Result<Tunnel, CourierError>)
    ensures
        match row {
            Some(t) => r == Ok::<Tunnel, CourierError>(t),
            None => r matches Err(CourierError::TunnelNotFound(m)) && m@ == courier_id@,
        },
{
    match row {
        Some(t) => Ok(t),
        None => Err(CourierError::TunnelNotFound(copy_text(courier_id))),
    }
}

/// Whether a database path names the in-memory database.
pub fn is_in_memory(db_path: &str) -> (r: bool)
    ensures
        r == (db_path@.len() >= 8 && db_path@.subrange(0, 8) == ":memory:"@),
{
    proof { reveal_strlit(":memory:"); }
    strip_prefix_text(db_path, ":memory:").is_some()
}

/// The connection URL of a database path: the in-memory database for a path
/// starting with ":memory:", else the SQLite file at the path.
pub fn database_url(db_path: &str) -> (r: String)
    ensures
        (db_path@.len() >= 8 && db_path@.subrange(0, 8) == ":memory:"@) ==> r@ == "sqlite::memory:"@,
        !(db_path@.len() >= 8 && db_path@.subrange(0, 8) == ":memory:"@) ==> r@ == "sqlite:"@ + db_path@,
{
    if is_in_memory(db_path) {
        copy_text("sqlite::memory:")
    } else {
        concat2("sqlite:", db_path)
    }
}

} // verus!
