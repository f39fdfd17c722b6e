//! Options of single-shot reads and writes.

use vstd::prelude::*;

verus! {

/// How a write treats an existing object.
#[derive(Clone, Debug, PartialEq, Eq)]
pub enum PutModeNif {
    /// Replace whatever is there.
    Overwrite,
    /// Fail if the object already exists.
    Create,
    /// Replace only the version identified by `etag` / `version`.
    Update { etag: Option<String>, version: Option<String> },
}

/// Conditions and shape of a read.
#[derive(Clone, Debug, PartialEq, Eq)]
pub struct GetOptionsNif {
    /// Only return if the ETag matches.
    pub if_match: Option<String>,
    /// Only return if the ETag differs.
    pub if_none_match: Option<String>,
    /// Only return if modified after this time (seconds since the epoch).
    pub if_modified_since: Option<i64>,
    /// Only return if not modified since this time (seconds since the epoch).
    pub if_unmodified_since: Option<i64>,
    /// Byte range to fetch.
    pub range: Option<RangeNif>,
    /// Specific object version.
    pub version: Option<String>,
    /// Return metadata only.
    pub head: bool,
}

/// A byte range `[start, end)`.
#[derive(Clone, Copy, Debug, PartialEq, Eq, Structural)]
pub struct RangeNif {
    pub start: u64,
    pub end: u64,
}

pub open spec fn overwrite_name() -> Seq<char> {
    seq!['o', 'v', 'e', 'r', 'w', 'r', 'i', 't', 'e']
}

pub open spec fn create_name() -> Seq<char> {
    seq!['c', 'r', 'e', 'a', 't', 'e']
}

impl PutModeNif {
    /// The mode that a bare name selects: `overwrite` or `create`; any other
    /// name selects none.
    pub fn from_name(name: &String) -> (r: Option<PutModeNif>)
        ensures
            name@ == overwrite_name() ==> r == Some(PutModeNif::Overwrite),
            name@ == create_name() ==> r == Some(PutModeNif::Create),
            name@ != overwrite_name() && name@ != create_name() ==> r is None,
    {
        let overwrite = "overwrite".to_owned();
        let create = "create".to_owned();
        proof {
            reveal_strlit("overwrite");
            reveal_strlit("create");
            assert(overwrite@ =~= overwrite_name());
            assert(create@ =~= create_name());
        }
        if *name == overwrite {
            Some(PutModeNif::Overwrite)
        } else if *name == create {
            Some(PutModeNif::Create)
        } else {
            None
        }
    }
}

} // verus!
