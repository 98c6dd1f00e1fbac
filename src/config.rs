use vstd::prelude::*;
use crate::bounded::BoundedBytes;
use crate::types::{AccountId, PromptId, ResourceId, ServerId, ToolId};

verus! {

/// Limits the host hands to the registry; each is a hard ceiling.
#[derive(Clone, Copy, Debug, PartialEq, Eq, Structural)]
pub struct Config {
    pub max_servers_per_owner: u32,
    pub max_tools_per_server: u32,
    pub max_prompts_per_server: u32,
    pub max_resources_per_server: u32,
    pub max_name_length: u32,
    pub max_description_length: u32,
    pub max_schema_length: u32,
    pub max_template_length: u32,
    pub max_uri_length: u32,
    pub max_cid_length: u32,
}

impl Config {
    /// Every length limit is positive.
    pub open spec fn valid(&self) -> bool {
        self.max_name_length > 0 && self.max_description_length > 0 && self.max_schema_length > 0
            && self.max_template_length > 0 && self.max_uri_length > 0 && self.max_cid_length > 0
    }

    pub fn is_valid(&self) -> (r: bool)
        ensures
            r == self.valid(),
    {
        self.max_name_length > 0 && self.max_description_length > 0 && self.max_schema_length > 0
            && self.max_template_length > 0 && self.max_uri_length > 0 && self.max_cid_length > 0
    }
}

/// Why a request was rejected. A rejected request changes nothing.
#[derive(Clone, Copy, Debug, PartialEq, Eq, Structural)]
pub enum Error {
    TooLong,
    UnsupportedVersion,
    MissingContentReference,
    NotOwner,
    NotFound,
    ServerNotFound,
    ServerInactive,
    QuotaExceeded,
}

/// A lifecycle notification, one for each applied request.
#[derive(Clone, Copy, Debug, PartialEq, Eq, Structural)]
pub enum Event {
    ServerRegistered { server_id: ServerId, owner: AccountId },
    ServerUpdated { server_id: ServerId },
    ServerDeactivated { server_id: ServerId },
    ToolRegistered { tool_id: ToolId, server_id: ServerId },
    ToolUpdated { tool_id: ToolId },
    ToolDeactivated { tool_id: ToolId },
    PromptRegistered { prompt_id: PromptId, server_id: ServerId },
    PromptUpdated { prompt_id: PromptId },
    PromptDeactivated { prompt_id: PromptId },
    ResourceRegistered { resource_id: ResourceId, server_id: ServerId },
    ResourceUpdated { resource_id: ResourceId },
    ResourceDeactivated { resource_id: ResourceId },
}

/// A value fits when it is within both the configured limit and the
/// capacity of the field that holds it.
pub open spec fn fits(b: Seq<u8>, limit: u32, cap: usize) -> bool {
    b.len() <= limit && b.len() <= cap
}

pub open spec fn opt_fits(b: Option<Seq<u8>>, limit: u32, cap: usize) -> bool {
    match b {
        Some(s) => fits(s, limit, cap),
        None => true,
    }
}

/// Takes `v` into a field of capacity `N` under the configured `limit`.
pub fn bounded<const N: usize>(v: Vec<u8>, limit: u32) -> (r: Result<BoundedBytes<N>, Error>)
    ensures
        r is Ok <==> fits(v@, limit, N),
        r matches Ok(b) ==> b@ == v@,
        r matches Err(e) ==> e == Error::TooLong,
{
    if v.len() as u64 > limit as u64 {
        return Err(Error::TooLong);
    }
    match BoundedBytes::<N>::try_from_vec(v) {
        Ok(b) => Ok(b),
        Err(_) => Err(Error::TooLong),
    }
}

/// As `bounded`, for a field that may be absent.
pub fn bounded_opt<const N: usize>(v: Option<Vec<u8>>, limit: u32) -> (r: Result<
    Option<BoundedBytes<N>>,
    Error,
>)
    ensures
        r is Ok <==> opt_fits(crate::types::opt_bytes(v), limit, N),
        r matches Ok(b) ==> crate::types::opt_view(b) == crate::types::opt_bytes(v),
        r matches Err(e) ==> e == Error::TooLong,
{
    match v {
        None => Ok(None),
        Some(b) => match bounded::<N>(b, limit) {
            Ok(x) => Ok(Some(x)),
            Err(e) => Err(e),
        },
    }
}

/// How many times `k` occurs in `keys`.
pub open spec fn count_key(keys: Seq<u64>, k: u64) -> nat
    decreases keys.len(),
{
    if keys.len() == 0 {
        0
    } else {
        count_key(keys.drop_last(), k) + if keys.last() == k {
            1nat
        } else {
            0nat
        }
    }
}

pub proof fn lemma_count_push(keys: Seq<u64>, x: u64, k: u64)
    ensures
        count_key(keys.push(x), k) == count_key(keys, k) + if x == k {
            1nat
        } else {
            0nat
        },
{
    assert(keys.push(x).drop_last() =~= keys);
}

pub proof fn lemma_count_prefix(keys: Seq<u64>, i: int, k: u64)
    requires
        0 <= i < keys.len(),
    ensures
        count_key(keys.subrange(0, i + 1), k) == count_key(keys.subrange(0, i), k) + if keys[i]
            == k {
            1nat
        } else {
            0nat
        },
{
    assert(keys.subrange(0, i + 1).drop_last() =~= keys.subrange(0, i));
}

} // verus!
