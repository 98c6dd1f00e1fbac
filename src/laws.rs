use vstd::prelude::*;
use crate::config::{fits, lemma_count_push, opt_fits, Error};
use crate::registry::tools::tool_fields_error;
use crate::registry::{owners, server_fields_error, Pallet};
use crate::types::{AccountId, ServerId, ServerInfo, ToolId};

verus! {

/// A server registration with any field over its limit is rejected as too
/// long, whatever the state of the registry; a rejected registration leaves
/// the registry unchanged (see `register_server`).
pub proof fn lemma_server_too_long(
    p: Pallet,
    owner: AccountId,
    name: Seq<u8>,
    description: Option<Seq<u8>>,
    protocol_version: Seq<u8>,
    metadata_cid: Option<Seq<u8>>,
)
    requires
        !fits(name, p.config_spec().max_name_length, 64) || !opt_fits(
            description,
            p.config_spec().max_description_length,
            256,
        ) || !opt_fits(metadata_cid, p.config_spec().max_cid_length, 64),
    ensures
        p.register_server_error(owner, name, description, protocol_version, metadata_cid) == Some(
            Error::TooLong,
        ),
{
}

/// A tool registration with any field over its limit is rejected as too
/// long, whatever the state of the registry.
pub proof fn lemma_tool_too_long(
    p: Pallet,
    caller: AccountId,
    server_id: ServerId,
    name: Seq<u8>,
    description: Option<Seq<u8>>,
    input_schema: Seq<u8>,
    output_schema: Option<Seq<u8>>,
    metadata_cid: Option<Seq<u8>>,
)
    requires
        !fits(name, p.config_spec().max_name_length, 64) || !opt_fits(
            description,
            p.config_spec().max_description_length,
            256,
        ) || !fits(input_schema, p.config_spec().max_schema_length, 2048) || !opt_fits(
            output_schema,
            p.config_spec().max_schema_length,
            2048,
        ) || !opt_fits(metadata_cid, p.config_spec().max_cid_length, 64),
    ensures
        p.register_tool_error(
            caller,
            server_id,
            name,
            description,
            input_schema,
            output_schema,
            metadata_cid,
        ) == Some(Error::TooLong),
{
}

/// With well-formed fields, an owner below the per-owner quota can register
/// a server, and an owner at the quota cannot.
pub proof fn lemma_server_quota(
    p: Pallet,
    owner: AccountId,
    name: Seq<u8>,
    description: Option<Seq<u8>>,
    protocol_version: Seq<u8>,
    metadata_cid: Option<Seq<u8>>,
)
    requires
        server_fields_error(p.config_spec(), name, description, protocol_version, metadata_cid)
            is None,
        p.server_seq().len() < u64::MAX,
    ensures
        p.servers_owned(owner) < p.config_spec().max_servers_per_owner ==> p.register_server_error(
            owner,
            name,
            description,
            protocol_version,
            metadata_cid,
        ) is None,
        p.servers_owned(owner) >= p.config_spec().max_servers_per_owner
            ==> p.register_server_error(
            owner,
            name,
            description,
            protocol_version,
            metadata_cid,
        ) == Some(Error::QuotaExceeded),
{
}

/// Each registered server counts once towards its owner's quota and not
/// towards anyone else's; its identifier differs from every earlier one.
pub proof fn lemma_server_registration_counts(old: Pallet, new: Pallet, s: ServerInfo, other: AccountId)
    requires
        new.server_seq() == old.server_seq().push(s),
    ensures
        new.servers_owned(s.owner) == old.servers_owned(s.owner) + 1,
        other != s.owner ==> new.servers_owned(other) == old.servers_owned(other),
        forall|id: ServerId| #[trigger] old.server_of(id) is Some ==> id < old.server_seq().len() + 1,
        old.server_seq().len() < u64::MAX ==> new.server_of((old.server_seq().len() + 1) as u64)
            == Some(s),
{
    assert(owners(new.server_seq()) =~= owners(old.server_seq()).push(s.owner));
    lemma_count_push(owners(old.server_seq()), s.owner, s.owner);
    lemma_count_push(owners(old.server_seq()), s.owner, other);
}

/// An update of a server by anyone but its owner is refused as `NotOwner`,
/// whatever it supplies; a refused update leaves the registry unchanged
/// (see `update_server`).
pub proof fn lemma_update_by_non_owner(
    p: Pallet,
    caller: AccountId,
    id: ServerId,
    name: Option<Seq<u8>>,
    description: Option<Seq<u8>>,
    protocol_version: Option<Seq<u8>>,
    metadata_cid: Option<Seq<u8>>,
)
    requires
        p.server_of(id) matches Some(s) && s.owner != caller,
    ensures
        p.update_server_error(caller, id, name, description, protocol_version, metadata_cid)
            == Some(Error::NotOwner),
{
}

/// Once server `sid` is deactivated, every tool stays stored as it was, none
/// of its tools is usable, and a new tool under it is refused as
/// `ServerInactive` unless its fields are already too long.
pub proof fn lemma_deactivated_server(
    old: Pallet,
    new: Pallet,
    sid: ServerId,
    t: ToolId,
    caller: AccountId,
    name: Seq<u8>,
    description: Option<Seq<u8>>,
    input_schema: Seq<u8>,
    output_schema: Option<Seq<u8>>,
    metadata_cid: Option<Seq<u8>>,
)
    requires
        new.only_server_changed(&old, sid),
        !new.server_seq()[sid - 1].active,
        tool_fields_error(
            new.config_spec(),
            Some(name),
            description,
            Some(input_schema),
            output_schema,
            metadata_cid,
        ) is None,
    ensures
        new.tool_of(t) == old.tool_of(t),
        new.tool_of(t) matches Some(x) ==> (x.server_id == sid ==> !new.usable_under(
            x.server_id,
            x.active,
        )),
        new.register_tool_error(
            caller,
            sid,
            name,
            description,
            input_schema,
            output_schema,
            metadata_cid,
        ) == Some(Error::ServerInactive),
{
}

/// One successful `register_server` for `owner` leads from `a` to `b`:
/// one server owned by `owner` is appended, under the same configuration.
pub open spec fn server_registration_step(a: Pallet, b: Pallet, owner: AccountId) -> bool {
    &&& b.server_seq().len() == a.server_seq().len() + 1
    &&& b.server_seq().drop_last() == a.server_seq()
    &&& b.server_seq().last().owner == owner
    &&& b.config_spec() == a.config_spec()
}

/// Along a run of successful registrations for one owner, the owner's count
/// grows by one per step and every step hands out a new identifier
/// (`server_seq().len() + 1` of the state it starts from).
pub proof fn lemma_server_registration_run(run: Seq<Pallet>, owner: AccountId)
    requires
        run.len() >= 1,
        forall|i: int|
            0 <= i < run.len() - 1 ==> server_registration_step(
                #[trigger] run[i],
                run[i + 1],
                owner,
            ),
    ensures
        run.last().servers_owned(owner) == run[0].servers_owned(owner) + run.len() - 1,
        run.last().config_spec() == run[0].config_spec(),
        forall|i: int|
            0 <= i < run.len() ==> #[trigger] run[i].server_seq().len() == run[0].server_seq().len()
                + i,
        forall|i: int, j: int|
            0 <= i < j < run.len() ==> run[i].server_seq().len() + 1 != run[j].server_seq().len()
                + 1,
    decreases run.len(),
{
    if run.len() > 1 {
        let prefix = run.drop_last();
        assert forall|i: int| 0 <= i < prefix.len() - 1 implies server_registration_step(
            #[trigger] prefix[i],
            prefix[i + 1],
            owner,
        ) by {
            assert(prefix[i] == run[i] && prefix[i + 1] == run[i + 1]);
        }
        lemma_server_registration_run(prefix, owner);
        let a = run[run.len() - 2];
        let b = run.last();
        assert(server_registration_step(a, b, owner));
        let s = b.server_seq().last();
        assert(b.server_seq() =~= a.server_seq().push(s));
        lemma_server_registration_counts(a, b, s, owner);
        assert forall|i: int| 0 <= i < run.len() implies #[trigger] run[i].server_seq().len()
            == run[0].server_seq().len() + i by {
            if i < run.len() - 1 {
                assert(run[i] == prefix[i]);
            }
        }
    }
}

} // verus!
