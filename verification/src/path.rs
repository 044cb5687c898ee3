//! Where a test node keeps its state on disk.

use vstd::prelude::*;

verus! {

/// Name of the environment variable that designates a durable state directory.
pub const DB_BASE_PATH: &'static str = "DB_BASE_PATH";

/// Root directory under which a node stores its keystore and database.
#[derive(Clone, Debug, PartialEq, Eq)]
pub enum BasePath {
    /// A directory the caller named, as the bytes of its path; it is used
    /// verbatim, whether or not the bytes are valid Unicode, and never
    /// cleaned up.
    Permanent(Vec<u8>),
    /// A fresh, uniquely named temporary directory, removed when its handle
    /// is dropped.
    Temporary,
}

/// Mathematical value of a [`BasePath`].
pub enum BasePathView {
    Permanent(Seq<u8>),
    Temporary,
}

impl View for BasePath {
    type V = BasePathView;

    open spec fn view(&self) -> BasePathView {
        match self {
            BasePath::Permanent(dir) => BasePathView::Permanent(dir@),
            BasePath::Temporary => BasePathView::Temporary,
        }
    }
}

/// The base path that a value of the `DB_BASE_PATH` variable resolves to.
pub open spec fn resolved(db_base_path: Option<Seq<u8>>) -> BasePathView {
    match db_base_path {
        Some(dir) => BasePathView::Permanent(dir),
        None => BasePathView::Temporary,
    }
}

/// View of the value of a variable that may be unset.
pub open spec fn bytes_of(value: Option<Vec<u8>>) -> Option<Seq<u8>> {
    match value {
        Some(bytes) => Some(bytes@),
        None => None,
    }
}

/// Resolves the node's base path from the bytes of the value of
/// `DB_BASE_PATH`, if the variable is set: a set variable is taken as it
/// stands, an unset one asks for a temporary directory.
pub fn base_path(db_base_path: Option<Vec<u8>>) -> (path: BasePath)
    ensures
        path@ == resolved(bytes_of(db_base_path)),
{
    match db_base_path {
        Some(dir) => BasePath::Permanent(dir),
        None => BasePath::Temporary,
    }
}

} // verus!
