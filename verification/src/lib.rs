use vstd::prelude::*;

pub mod bodies;
pub mod enums;
pub mod endpoints;
pub mod fields;
pub mod json;
pub mod num;
pub mod params;
pub mod parse;
pub mod query;
pub mod responses;
pub mod schema_core;
pub mod schema_fingerprints;
pub mod schema_minecraft;
pub mod schema_mods;
pub mod text;

verus! {

broadcast use vstd::seq::group_seq_axioms;

/// Errors surfaced by the client: a bad API key at construction, a non-2xx
/// response status, or a success body that does not decode.
#[derive(Debug, Clone, PartialEq, Eq)]
pub enum ApiError {
    ConfigurationError,
    RemoteApiError(u16),
    DecodingError,
}

/// Whether a character may stand in a request-header value: a tab, or any
/// character that is neither a control character nor delete. Characters
/// above delete are carried in bytes of 128 and more, which a header
/// accepts.
pub open spec fn valid_header_char(c: char) -> bool {
    c == '\t' || (32 <= c as u32 && c as u32 != 127)
}

/// Whether a whole string may stand in a request-header value.
pub open spec fn valid_header_value(s: Seq<char>) -> bool {
    forall|i: int| 0 <= i < s.len() ==> valid_header_char(#[trigger] s[i])
}

/// The client: an API key fixed at construction and attached to every
/// request that the surrounding program sends.
pub struct CurseForge {
    api_key: String,
}

impl CurseForge {
    /// The key that every request carries.
    pub closed spec fn key(self) -> Seq<char> {
        self.api_key@
    }

    /// Builds a client from an API key. Fails with `ConfigurationError`
    /// exactly when the key cannot stand in a header value; on success the
    /// client carries the key unchanged.
    pub fn new(api_key: &str) -> (r: Result<CurseForge, ApiError>)
        ensures
            match r {
                Result::Ok(c) => valid_header_value(api_key@) && c.key() == api_key@,
                Result::Err(e) => e == ApiError::ConfigurationError && !valid_header_value(
                    api_key@,
                ),
            },
    {
        let cs = crate::text::str_chars(api_key);
        let mut i: usize = 0;
        while i < cs.len()
            invariant
                i <= cs@.len(),
                cs@ == api_key@,
                forall|k: int| 0 <= k < i ==> valid_header_char(#[trigger] api_key@[k]),
            decreases cs@.len() - i,
        {
            let c = cs[i];
            let v = c as u32;
            if !(c == '\t' || (32 <= v && v != 127)) {
                return Result::Err(ApiError::ConfigurationError);
            }
            i = i + 1;
        }
        Result::Ok(CurseForge { api_key: api_key.to_owned() })
    }

    /// The key as a string, for the transport layer to attach.
    pub fn api_key(&self) -> (r: &str)
        ensures
            r@ == self.key(),
    {
        self.api_key.as_str()
    }
}

} // verus!
