//! The decisions taken once at startup: which backend serves the requests,
//! and where the routes are mounted.
use vstd::prelude::*;

verus! {

/// The storage backends compiled into the gateway.
#[derive(PartialEq, Eq, Structural, Clone, Copy, Debug)]
pub enum BackendKind {
    PostgreSql,
    Sqlite,
}

/// A fatal error of startup: the gateway serves nothing.
#[derive(Debug)]
pub enum StartupError {
    /// The configured database kind names no compiled-in backend.
    UnsupportedDatabase { db_type: String },
}

/// The backend that a configured database kind selects, if any.
pub open spec fn backend_kind_of(db_type: Seq<char>) -> Option<BackendKind> {
    if db_type == "postgresql"@ {
        Some(BackendKind::PostgreSql)
    } else if db_type == "sqlite"@ {
        Some(BackendKind::Sqlite)
    } else {
        None
    }
}

/// The prefix under which the routes are mounted when none is configured.
pub open spec fn default_url_prefix() -> Seq<char> {
    "/"@
}

pub open spec fn url_prefix_of(url_prefix: Option<String>) -> Seq<char> {
    match url_prefix {
        Some(p) => p@,
        None => default_url_prefix(),
    }
}

/// The path under which remote-procedure resources are mounted.
pub open spec fn rpc_mount_of(prefix: Seq<char>) -> Seq<char> {
    prefix + "/rpc"@
}

/// The logical name under which the backend is initialized.
pub open spec fn backend_name() -> Seq<char> {
    "default"@
}

/// An exhaustive match of the configured database kind on the compiled-in
/// backends; any other kind is a fatal error.
pub fn select_backend(db_type: &String) -> (r: Result<BackendKind, StartupError>)
    ensures
        r is Ok <==> backend_kind_of(db_type@) is Some,
        r matches Ok(k) ==> backend_kind_of(db_type@) == Some(k),
        r matches Err(StartupError::UnsupportedDatabase { db_type: t }) ==> t@ == db_type@,
{
    if *db_type == String::from_str("postgresql") {
        Ok(BackendKind::PostgreSql)
    } else if *db_type == String::from_str("sqlite") {
        Ok(BackendKind::Sqlite)
    } else {
        Err(StartupError::UnsupportedDatabase { db_type: db_type.clone() })
    }
}

/// The configured prefix of the routes, "/" when none is.
pub fn url_prefix_or_default(url_prefix: Option<String>) -> (r: String)
    ensures
        r@ == url_prefix_of(url_prefix),
{
    match url_prefix {
        Some(p) => p,
        None => String::from_str("/"),
    }
}

/// The mount point of remote-procedure resources under a prefix.
pub fn rpc_mount(prefix: &String) -> (r: String)
    ensures
        r@ == rpc_mount_of(prefix@),
{
    prefix.clone().concat("/rpc")
}

/// What startup settles before the listener opens.
pub struct StartupPlan {
    pub backend: BackendKind,
    pub backend_name: String,
    pub api_mount: String,
    pub rpc_mount: String,
}

/// Settles the backend and the mount points from the extracted configuration.
/// An unsupported database kind yields no plan, and so no listener.
pub fn plan_startup(db_type: &String, url_prefix: Option<String>) -> (r: Result<
    StartupPlan,
    StartupError,
>)
    ensures
        r is Ok <==> backend_kind_of(db_type@) is Some,
        r matches Ok(p) ==> {
            &&& backend_kind_of(db_type@) == Some(p.backend)
            &&& p.backend_name@ == backend_name()
            &&& p.api_mount@ == url_prefix_of(url_prefix)
            &&& p.rpc_mount@ == rpc_mount_of(url_prefix_of(url_prefix))
        },
        r matches Err(StartupError::UnsupportedDatabase { db_type: t }) ==> t@ == db_type@,
{
    let api_mount = url_prefix_or_default(url_prefix);
    let backend = match select_backend(db_type) {
        Ok(k) => k,
        Err(e) => {
            return Err(e);
        },
    };
    let rpc_mount = rpc_mount(&api_mount);
    Ok(StartupPlan { backend, backend_name: String::from_str("default"), api_mount, rpc_mount })
}

} // verus!
