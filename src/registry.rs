pub mod prompts;
pub mod resources;
pub mod tools;

use vstd::prelude::*;
use crate::config::{
    bounded, bounded_opt, count_key, fits, lemma_count_prefix, opt_fits, Config, Error, Event,
};
use crate::protocol::{parse_version, ProtocolVersion};
use crate::types::{
    opt_bytes, opt_view, AccountId, PromptId, PromptTemplate, ResourceId, ResourceInfo,
    ServerCapabilities, ServerId, ServerInfo, ToolId, ToolInfo, TransportConfig,
};

verus! {

/// The registry: every server, tool, prompt and resource ever registered,
/// the notifications emitted, and the logical clock.
///
/// Records are never removed. The record with identifier `k` of a kind
/// sits at position `k - 1` of that kind's list, so identifiers of a kind
/// are handed out as 1, 2, 3, ... and never reused.
pub struct Pallet {
    config: Config,
    servers: Vec<ServerInfo>,
    tools: Vec<ToolInfo>,
    prompts: Vec<PromptTemplate>,
    resources: Vec<ResourceInfo>,
    events: Vec<Event>,
    now: u64,
}

/// The owner of each server, in identifier order.
pub open spec fn owners(s: Seq<ServerInfo>) -> Seq<u64> {
    s.map_values(|x: ServerInfo| x.owner)
}

/// The record at identifier `id` of a list, if there is one.
pub open spec fn at_id<T>(s: Seq<T>, id: u64) -> Option<T> {
    if 1 <= id && id <= s.len() {
        Some(s[id - 1])
    } else {
        None
    }
}

/// Why a server registration is rejected before the registry is consulted.
pub open spec fn server_fields_error(
    cfg: Config,
    name: Seq<u8>,
    description: Option<Seq<u8>>,
    protocol_version: Seq<u8>,
    metadata_cid: Option<Seq<u8>>,
) -> Option<Error> {
    if !fits(name, cfg.max_name_length, 64) || !opt_fits(
        description,
        cfg.max_description_length,
        256,
    ) || !opt_fits(metadata_cid, cfg.max_cid_length, 64) {
        Some(Error::TooLong)
    } else if parse_version(protocol_version) is None {
        Some(Error::UnsupportedVersion)
    } else {
        None
    }
}

/// Why a partial update is rejected on its fields alone.
pub open spec fn update_fields_error(
    cfg: Config,
    name: Option<Seq<u8>>,
    description: Option<Seq<u8>>,
    protocol_version: Option<Seq<u8>>,
    metadata_cid: Option<Seq<u8>>,
) -> Option<Error> {
    if !opt_fits(name, cfg.max_name_length, 64) || !opt_fits(
        description,
        cfg.max_description_length,
        256,
    ) || !opt_fits(metadata_cid, cfg.max_cid_length, 64) {
        Some(Error::TooLong)
    } else if protocol_version matches Some(v) && parse_version(v) is None {
        Some(Error::UnsupportedVersion)
    } else {
        None
    }
}

/// A supplied value replaces the old one; an absent one keeps it.
pub open spec fn replaced<T>(new: Option<T>, old: T) -> T {
    match new {
        Some(v) => v,
        None => old,
    }
}

/// Like `replaced`, for a field that may itself be absent.
pub open spec fn replaced_opt<T>(new: Option<T>, old: Option<T>) -> Option<T> {
    match new {
        Some(v) => Some(v),
        None => old,
    }
}

impl Pallet {
    pub closed spec fn config_spec(&self) -> Config {
        self.config
    }

    pub closed spec fn server_seq(&self) -> Seq<ServerInfo> {
        self.servers@
    }

    pub closed spec fn tool_seq(&self) -> Seq<ToolInfo> {
        self.tools@
    }

    pub closed spec fn prompt_seq(&self) -> Seq<PromptTemplate> {
        self.prompts@
    }

    pub closed spec fn resource_seq(&self) -> Seq<ResourceInfo> {
        self.resources@
    }

    pub closed spec fn event_seq(&self) -> Seq<Event> {
        self.events@
    }

    pub closed spec fn clock(&self) -> u64 {
        self.now
    }

    /// Every record was stamped no later than the clock, and every child
    /// points at a registered server.
    pub open spec fn wf(&self) -> bool {
        &&& forall|i: int|
            0 <= i < self.server_seq().len() ==> #[trigger] self.server_seq()[i].created_at
                <= self.server_seq()[i].updated_at <= self.clock()
        &&& forall|i: int|
            0 <= i < self.tool_seq().len() ==> at_id(
                self.server_seq(),
                #[trigger] self.tool_seq()[i].server_id,
            ) is Some
        &&& forall|i: int|
            0 <= i < self.prompt_seq().len() ==> at_id(
                self.server_seq(),
                #[trigger] self.prompt_seq()[i].server_id,
            ) is Some
        &&& forall|i: int|
            0 <= i < self.resource_seq().len() ==> at_id(
                self.server_seq(),
                #[trigger] self.resource_seq()[i].server_id,
            ) is Some
    }

    pub open spec fn server_of(&self, id: ServerId) -> Option<ServerInfo> {
        at_id(self.server_seq(), id)
    }

    pub open spec fn tool_of(&self, id: ToolId) -> Option<ToolInfo> {
        at_id(self.tool_seq(), id)
    }

    pub open spec fn prompt_of(&self, id: PromptId) -> Option<PromptTemplate> {
        at_id(self.prompt_seq(), id)
    }

    pub open spec fn resource_of(&self, id: ResourceId) -> Option<ResourceInfo> {
        at_id(self.resource_seq(), id)
    }

    /// How many servers `owner` has registered, active or not.
    pub open spec fn servers_owned(&self, owner: AccountId) -> nat {
        count_key(owners(self.server_seq()), owner)
    }

    /// Why `register_server` rejects its request, if it does.
    pub open spec fn register_server_error(
        &self,
        owner: AccountId,
        name: Seq<u8>,
        description: Option<Seq<u8>>,
        protocol_version: Seq<u8>,
        metadata_cid: Option<Seq<u8>>,
    ) -> Option<Error> {
        match server_fields_error(
            self.config_spec(),
            name,
            description,
            protocol_version,
            metadata_cid,
        ) {
            Some(e) => Some(e),
            None => if self.servers_owned(owner) >= self.config_spec().max_servers_per_owner
                || self.server_seq().len() >= u64::MAX {
                Some(Error::QuotaExceeded)
            } else {
                None
            },
        }
    }

    /// Only the server list and the notifications may differ.
    pub open spec fn servers_frame(&self, other: &Pallet) -> bool {
        &&& self.config_spec() == other.config_spec()
        &&& self.tool_seq() == other.tool_seq()
        &&& self.prompt_seq() == other.prompt_seq()
        &&& self.resource_seq() == other.resource_seq()
        &&& self.clock() == other.clock()
    }

    /// An empty registry under `config`, or `None` when a length limit is zero.
    pub fn new(config: Config) -> (r: Option<Pallet>)
        ensures
            r is Some <==> config.valid(),
            r matches Some(p) ==> {
                &&& p.wf()
                &&& p.config_spec() == config
                &&& p.server_seq().len() == 0
                &&& p.tool_seq().len() == 0
                &&& p.prompt_seq().len() == 0
                &&& p.resource_seq().len() == 0
                &&& p.event_seq().len() == 0
                &&& p.clock() == 0
            },
    {
        if !config.is_valid() {
            return None;
        }
        Some(
            Pallet {
                config,
                servers: Vec::new(),
                tools: Vec::new(),
                prompts: Vec::new(),
                resources: Vec::new(),
                events: Vec::new(),
                now: 0,
            },
        )
    }

    pub fn config(&self) -> (r: Config)
        ensures
            r == self.config_spec(),
    {
        self.config
    }

    /// The current tick of the logical clock.
    pub fn now(&self) -> (r: u64)
        ensures
            r == self.clock(),
    {
        self.now
    }

    /// Moves the clock to `tick` when that is not in the past; returns whether it moved.
    pub fn set_now(&mut self, tick: u64) -> (r: bool)
        requires
            old(self).wf(),
        ensures
            final(self).wf(),
            r == (tick >= old(self).clock()),
            final(self).clock() == if r {
                tick
            } else {
                old(self).clock()
            },
            final(self).server_seq() == old(self).server_seq(),
            final(self).tool_seq() == old(self).tool_seq(),
            final(self).prompt_seq() == old(self).prompt_seq(),
            final(self).resource_seq() == old(self).resource_seq(),
            final(self).event_seq() == old(self).event_seq(),
            final(self).config_spec() == old(self).config_spec(),
    {
        if tick >= self.now {
            self.now = tick;
            true
        } else {
            false
        }
    }

    pub fn events(&self) -> (r: &Vec<Event>)
        ensures
            r@ == self.event_seq(),
    {
        &self.events
    }

    pub fn server_count(&self) -> (r: usize)
        ensures
            r == self.server_seq().len(),
    {
        self.servers.len()
    }

    pub fn server(&self, id: ServerId) -> (r: Option<&ServerInfo>)
        ensures
            r matches Some(s) ==> self.server_of(id) == Some(*s),
            r is None ==> self.server_of(id) is None,
    {
        if id >= 1 && id <= self.servers.len() as u64 {
            Some(&self.servers[(id - 1) as usize])
        } else {
            None
        }
    }

    fn count_servers_of(&self, owner: AccountId) -> (r: usize)
        ensures
            r == self.servers_owned(owner),
    {
        let ghost keys = owners(self.servers@);
        let mut i: usize = 0;
        let mut c: usize = 0;
        while i < self.servers.len()
            invariant
                keys == owners(self.servers@),
                i <= self.servers@.len(),
                c <= i,
                c == count_key(keys.subrange(0, i as int), owner),
            decreases self.servers@.len() - i,
        {
            proof {
                lemma_count_prefix(keys, i as int, owner);
            }
            if self.servers[i].owner == owner {
                c = c + 1;
            }
            i = i + 1;
        }
        assert(keys.subrange(0, i as int) == keys);
        c
    }

    /// Registers a server for `owner`, stamped with the current tick.
    pub fn register_server(
        &mut self,
        owner: AccountId,
        name: Vec<u8>,
        description: Option<Vec<u8>>,
        protocol_version: Vec<u8>,
        capabilities: ServerCapabilities,
        transport: TransportConfig,
        metadata_cid: Option<Vec<u8>>,
    ) -> (r: Result<ServerId, Error>)
        requires
            old(self).wf(),
        ensures
            final(self).wf(),
            r matches Err(e) ==> old(self).register_server_error(
                owner,
                name@,
                opt_bytes(description),
                protocol_version@,
                opt_bytes(metadata_cid),
            ) == Some(e) && *final(self) == *old(self),
            r is Ok <==> old(self).register_server_error(
                owner,
                name@,
                opt_bytes(description),
                protocol_version@,
                opt_bytes(metadata_cid),
            ) is None,
            r matches Ok(id) ==> {
                let s = final(self).server_seq().last();
                &&& id == old(self).server_seq().len() + 1
                &&& final(self).server_of(id) == Some(s)
                &&& final(self).server_seq().len() == old(self).server_seq().len() + 1
                &&& final(self).server_seq().drop_last() == old(self).server_seq()
                &&& s.owner == owner
                &&& s.name@ == name@
                &&& opt_view(s.description) == opt_bytes(description)
                &&& parse_version(protocol_version@) == Some(s.protocol_version)
                &&& s.capabilities == capabilities
                &&& s.transport == transport
                &&& opt_view(s.metadata_cid) == opt_bytes(metadata_cid)
                &&& s.active
                &&& s.created_at == old(self).clock()
                &&& s.updated_at == old(self).clock()
                &&& final(self).servers_frame(old(self))
                &&& final(self).event_seq() == old(self).event_seq().push(
                    Event::ServerRegistered { server_id: id, owner },
                )
            },
    {
        let name = match bounded::<64>(name, self.config.max_name_length) {
            Ok(b) => b,
            Err(e) => return Err(e),
        };
        let description = match bounded_opt::<256>(description, self.config.max_description_length) {
            Ok(b) => b,
            Err(e) => return Err(e),
        };
        let metadata_cid = match bounded_opt::<64>(metadata_cid, self.config.max_cid_length) {
            Ok(b) => b,
            Err(e) => return Err(e),
        };
        let protocol_version = match ProtocolVersion::new(protocol_version.as_slice()) {
            Ok(v) => v,
            Err(_) => return Err(Error::UnsupportedVersion),
        };
        let owned = self.count_servers_of(owner);
        if owned as u64 >= self.config.max_servers_per_owner as u64 || self.servers.len() as u64
            >= u64::MAX {
            return Err(Error::QuotaExceeded);
        }
        let id = self.servers.len() as u64 + 1;
        let record = ServerInfo {
            owner,
            name,
            description,
            protocol_version,
            capabilities,
            transport,
            metadata_cid,
            active: true,
            created_at: self.now,
            updated_at: self.now,
        };
        self.servers.push(record);
        self.events.push(Event::ServerRegistered { server_id: id, owner });
        proof {
            assert(self.servers@.drop_last() =~= old(self).servers@);
            assert forall|i: int| 0 <= i < self.tools@.len() implies at_id(
                self.servers@,
                #[trigger] self.tools@[i].server_id,
            ) is Some by {
                assert(at_id(old(self).servers@, self.tools@[i].server_id) is Some);
            }
            assert forall|i: int| 0 <= i < self.prompts@.len() implies at_id(
                self.servers@,
                #[trigger] self.prompts@[i].server_id,
            ) is Some by {
                assert(at_id(old(self).servers@, self.prompts@[i].server_id) is Some);
            }
            assert forall|i: int| 0 <= i < self.resources@.len() implies at_id(
                self.servers@,
                #[trigger] self.resources@[i].server_id,
            ) is Some by {
                assert(at_id(old(self).servers@, self.resources@[i].server_id) is Some);
            }
        }
        Ok(id)
    }

    /// Why a request of `caller` on server `id` is refused, before its fields are read.
    pub open spec fn server_access_error(&self, caller: AccountId, id: ServerId) -> Option<Error> {
        match self.server_of(id) {
            None => Some(Error::NotFound),
            Some(s) => if s.owner != caller {
                Some(Error::NotOwner)
            } else {
                None
            },
        }
    }

    /// Why `update_server` rejects its request, if it does.
    pub open spec fn update_server_error(
        &self,
        caller: AccountId,
        id: ServerId,
        name: Option<Seq<u8>>,
        description: Option<Seq<u8>>,
        protocol_version: Option<Seq<u8>>,
        metadata_cid: Option<Seq<u8>>,
    ) -> Option<Error> {
        match self.server_access_error(caller, id) {
            Some(e) => Some(e),
            None => update_fields_error(
                self.config_spec(),
                name,
                description,
                protocol_version,
                metadata_cid,
            ),
        }
    }

    /// Only server `id` changed, and nothing else but the notifications.
    pub open spec fn only_server_changed(&self, old: &Pallet, id: ServerId) -> bool {
        &&& self.servers_frame(old)
        &&& 1 <= id <= old.server_seq().len()
        &&& self.server_seq() == old.server_seq().update(id - 1, self.server_seq()[id - 1])
    }

    fn check_server_access(&self, caller: AccountId, id: ServerId) -> (r: Result<usize, Error>)
        ensures
            r is Ok <==> self.server_access_error(caller, id) is None,
            r matches Err(e) ==> self.server_access_error(caller, id) == Some(e),
            r matches Ok(i) ==> i == id - 1 && i < self.server_seq().len(),
    {
        if id < 1 || id > self.servers.len() as u64 {
            return Err(Error::NotFound);
        }
        let i = (id - 1) as usize;
        if self.servers[i].owner != caller {
            return Err(Error::NotOwner);
        }
        Ok(i)
    }

    /// Overwrites the supplied fields of server `id` and stamps it with the current tick.
    pub fn update_server(
        &mut self,
        caller: AccountId,
        id: ServerId,
        name: Option<Vec<u8>>,
        description: Option<Vec<u8>>,
        protocol_version: Option<Vec<u8>>,
        capabilities: Option<ServerCapabilities>,
        transport: Option<TransportConfig>,
        metadata_cid: Option<Vec<u8>>,
    ) -> (r: Result<(), Error>)
        requires
            old(self).wf(),
        ensures
            final(self).wf(),
            r matches Err(e) ==> old(self).update_server_error(
                caller,
                id,
                opt_bytes(name),
                opt_bytes(description),
                opt_bytes(protocol_version),
                opt_bytes(metadata_cid),
            ) == Some(e) && *final(self) == *old(self),
            r is Ok <==> old(self).update_server_error(
                caller,
                id,
                opt_bytes(name),
                opt_bytes(description),
                opt_bytes(protocol_version),
                opt_bytes(metadata_cid),
            ) is None,
            r is Ok ==> {
                let o = old(self).server_seq()[id - 1];
                let s = final(self).server_seq()[id - 1];
                &&& final(self).only_server_changed(old(self), id)
                &&& s.owner == o.owner
                &&& s.name@ == replaced(opt_bytes(name), o.name@)
                &&& opt_view(s.description) == replaced_opt(
                    opt_bytes(description),
                    opt_view(o.description),
                )
                &&& protocol_version matches Some(v) ==> parse_version(v@) == Some(
                    s.protocol_version,
                )
                &&& protocol_version is None ==> s.protocol_version == o.protocol_version
                &&& s.capabilities == replaced(capabilities, o.capabilities)
                &&& s.transport == replaced(transport, o.transport)
                &&& opt_view(s.metadata_cid) == replaced_opt(
                    opt_bytes(metadata_cid),
                    opt_view(o.metadata_cid),
                )
                &&& s.active == o.active
                &&& s.created_at == o.created_at
                &&& s.updated_at == old(self).clock()
                &&& final(self).event_seq() == old(self).event_seq().push(
                    Event::ServerUpdated { server_id: id },
                )
            },
    {
        let i = match self.check_server_access(caller, id) {
            Ok(i) => i,
            Err(e) => return Err(e),
        };
        let name = match name {
            None => None,
            Some(n) => match bounded::<64>(n, self.config.max_name_length) {
                Ok(b) => Some(b),
                Err(e) => return Err(e),
            },
        };
        let description = match bounded_opt::<256>(description, self.config.max_description_length) {
            Ok(b) => b,
            Err(e) => return Err(e),
        };
        let metadata_cid = match bounded_opt::<64>(metadata_cid, self.config.max_cid_length) {
            Ok(b) => b,
            Err(e) => return Err(e),
        };
        let protocol_version = match protocol_version {
            None => None,
            Some(v) => match ProtocolVersion::new(v.as_slice()) {
                Ok(p) => Some(p),
                Err(_) => return Err(Error::UnsupportedVersion),
            },
        };
        if let Some(n) = name {
            self.servers[i].name = n;
        }
        if let Some(d) = description {
            self.servers[i].description = Some(d);
        }
        if let Some(p) = protocol_version {
            self.servers[i].protocol_version = p;
        }
        if let Some(c) = capabilities {
            self.servers[i].capabilities = c;
        }
        if let Some(t) = transport {
            self.servers[i].transport = t;
        }
        if let Some(m) = metadata_cid {
            self.servers[i].metadata_cid = Some(m);
        }
        self.servers[i].updated_at = self.now;
        self.events.push(Event::ServerUpdated { server_id: id });
        proof {
            assert(self.servers@ =~= old(self).servers@.update(i as int, self.servers@[i as int]));
            self.lemma_servers_replaced(old(self), i as int);
        }
        Ok(())
    }

    /// Deactivates server `id`. Its tools, prompts and resources stay
    /// stored but are no longer usable.
    pub fn deactivate_server(&mut self, caller: AccountId, id: ServerId) -> (r: Result<(), Error>)
        requires
            old(self).wf(),
        ensures
            final(self).wf(),
            r matches Err(e) ==> old(self).server_access_error(caller, id) == Some(e)
                && *final(self) == *old(self),
            r is Ok <==> old(self).server_access_error(caller, id) is None,
            r is Ok ==> {
                let o = old(self).server_seq()[id - 1];
                let s = final(self).server_seq()[id - 1];
                &&& final(self).only_server_changed(old(self), id)
                &&& s == (ServerInfo { active: false, updated_at: old(self).clock(), ..o })
                &&& final(self).event_seq() == old(self).event_seq().push(
                    Event::ServerDeactivated { server_id: id },
                )
            },
    {
        let i = match self.check_server_access(caller, id) {
            Ok(i) => i,
            Err(e) => return Err(e),
        };
        self.servers[i].active = false;
        self.servers[i].updated_at = self.now;
        self.events.push(Event::ServerDeactivated { server_id: id });
        proof {
            assert(self.servers@ =~= old(self).servers@.update(i as int, self.servers@[i as int]));
            self.lemma_servers_replaced(old(self), i as int);
        }
        Ok(())
    }

    /// Replacing one server by one stamped no earlier than its creation,
    /// and no later than the clock, keeps the registry well formed.
    proof fn lemma_servers_replaced(&self, old: &Pallet, i: int)
        requires
            old.wf(),
            0 <= i < old.server_seq().len(),
            self.server_seq() == old.server_seq().update(i, self.server_seq()[i]),
            self.server_seq()[i].created_at == old.server_seq()[i].created_at,
            self.server_seq()[i].updated_at == old.clock(),
            self.servers_frame(old),
        ensures
            self.wf(),
    {
        assert forall|j: int| 0 <= j < self.tool_seq().len() implies at_id(
            self.server_seq(),
            #[trigger] self.tool_seq()[j].server_id,
        ) is Some by {
            assert(at_id(old.server_seq(), self.tool_seq()[j].server_id) is Some);
        }
        assert forall|j: int| 0 <= j < self.prompt_seq().len() implies at_id(
            self.server_seq(),
            #[trigger] self.prompt_seq()[j].server_id,
        ) is Some by {
            assert(at_id(old.server_seq(), self.prompt_seq()[j].server_id) is Some);
        }
        assert forall|j: int| 0 <= j < self.resource_seq().len() implies at_id(
            self.server_seq(),
            #[trigger] self.resource_seq()[j].server_id,
        ) is Some by {
            assert(at_id(old.server_seq(), self.resource_seq()[j].server_id) is Some);
        }
    }

    /// Why `caller` may not add a child to server `server_id`.
    pub open spec fn parent_error(&self, caller: AccountId, server_id: ServerId) -> Option<Error> {
        match self.server_of(server_id) {
            None => Some(Error::ServerNotFound),
            Some(s) => if !s.active {
                Some(Error::ServerInactive)
            } else if s.owner != caller {
                Some(Error::NotOwner)
            } else {
                None
            },
        }
    }

    /// Why `caller` may not change a child whose parent is `parent`
    /// (`None` when there is no such child).
    pub open spec fn child_access_error(&self, caller: AccountId, parent: Option<ServerId>) -> Option<
        Error,
    > {
        match parent {
            None => Some(Error::NotFound),
            Some(sid) => match self.server_of(sid) {
                Some(s) => if s.owner != caller {
                    Some(Error::NotOwner)
                } else {
                    None
                },
                None => Some(Error::NotFound),
            },
        }
    }

    fn check_parent(&self, caller: AccountId, server_id: ServerId) -> (r: Result<(), Error>)
        ensures
            r is Ok <==> self.parent_error(caller, server_id) is None,
            r matches Err(e) ==> self.parent_error(caller, server_id) == Some(e),
    {
        if server_id < 1 || server_id > self.servers.len() as u64 {
            return Err(Error::ServerNotFound);
        }
        let s = &self.servers[(server_id - 1) as usize];
        if !s.active {
            return Err(Error::ServerInactive);
        }
        if s.owner != caller {
            return Err(Error::NotOwner);
        }
        Ok(())
    }

    fn check_child_access(&self, caller: AccountId, parent: ServerId) -> (r: Result<(), Error>)
        ensures
            r is Ok <==> self.child_access_error(caller, Some(parent)) is None,
            r matches Err(e) ==> self.child_access_error(caller, Some(parent)) == Some(e),
    {
        if parent < 1 || parent > self.servers.len() as u64 {
            return Err(Error::NotFound);
        }
        if self.servers[(parent - 1) as usize].owner != caller {
            return Err(Error::NotOwner);
        }
        Ok(())
    }

    /// Whether a child of server `server_id` can be used: it is active and so is its server.
    pub open spec fn usable_under(&self, server_id: ServerId, active: bool) -> bool {
        active && (self.server_of(server_id) matches Some(s) && s.active)
    }
}

} // verus!
