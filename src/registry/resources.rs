use vstd::prelude::*;
use crate::config::{
    bounded, bounded_opt, count_key, lemma_count_prefix, opt_fits, Config, Error, Event,
};
use crate::registry::{at_id, replaced, replaced_opt, Pallet};
use crate::types::{opt_bytes, opt_view, AccountId, ServerId, ResourceId, ResourceInfo};

verus! {

/// The parent server of each resource, in identifier order.
pub open spec fn resource_parents(s: Seq<ResourceInfo>) -> Seq<u64> {
    s.map_values(|x: ResourceInfo| x.server_id)
}

/// Why a resource's fields are rejected; absent fields are not checked.
/// A content reference, when given, must not be empty.
pub open spec fn resource_fields_error(
    cfg: Config,
    name: Option<Seq<u8>>,
    description: Option<Seq<u8>>,
    uri: Option<Seq<u8>>,
    mime_type: Option<Seq<u8>>,
    content_cid: Option<Seq<u8>>,
    metadata_cid: Option<Seq<u8>>,
) -> Option<Error> {
    if !opt_fits(name, cfg.max_name_length, 64) || !opt_fits(
        description,
        cfg.max_description_length,
        256,
    ) || !opt_fits(uri, cfg.max_uri_length, 256) || !opt_fits(mime_type, 64, 64) || !opt_fits(
        content_cid,
        cfg.max_cid_length,
        64,
    ) || !opt_fits(metadata_cid, cfg.max_cid_length, 64) {
        Some(Error::TooLong)
    } else if content_cid matches Some(c) && c.len() == 0 {
        Some(Error::MissingContentReference)
    } else {
        None
    }
}

impl Pallet {
    /// Only the resource list and the notifications may differ.
    pub open spec fn resources_frame(&self, old: &Pallet) -> bool {
        &&& self.config_spec() == old.config_spec()
        &&& self.server_seq() == old.server_seq()
        &&& self.tool_seq() == old.tool_seq()
        &&& self.prompt_seq() == old.prompt_seq()
        &&& self.clock() == old.clock()
    }

    /// How many resources server `server_id` holds, active or not.
    pub open spec fn resources_of(&self, server_id: ServerId) -> nat {
        count_key(resource_parents(self.resource_seq()), server_id)
    }

    /// Why `register_resource` rejects its request, if it does.
    pub open spec fn register_resource_error(
        &self,
        caller: AccountId,
        server_id: ServerId,
        name: Seq<u8>,
        description: Option<Seq<u8>>,
        uri: Seq<u8>,
        mime_type: Option<Seq<u8>>,
        content_cid: Seq<u8>,
        metadata_cid: Option<Seq<u8>>,
    ) -> Option<Error> {
        match resource_fields_error(
            self.config_spec(),
            Some(name),
            description,
            Some(uri),
            mime_type,
            Some(content_cid),
            metadata_cid,
        ) {
            Some(e) => Some(e),
            None => match self.parent_error(caller, server_id) {
                Some(e) => Some(e),
                None => if self.resources_of(server_id) >= self.config_spec().max_resources_per_server
                    || self.resource_seq().len() >= u64::MAX {
                    Some(Error::QuotaExceeded)
                } else {
                    None
                },
            },
        }
    }

    pub fn resource_count(&self) -> (r: usize)
        ensures
            r == self.resource_seq().len(),
    {
        self.resources.len()
    }

    pub fn resource(&self, id: ResourceId) -> (r: Option<&ResourceInfo>)
        ensures
            r matches Some(x) ==> self.resource_of(id) == Some(*x),
            r is None ==> self.resource_of(id) is None,
    {
        if id >= 1 && id <= self.resources.len() as u64 {
            Some(&self.resources[(id - 1) as usize])
        } else {
            None
        }
    }

    /// Whether resource `id` exists, is active, and belongs to an active server.
    pub fn resource_usable(&self, id: ResourceId) -> (r: bool)
        ensures
            r <==> (self.resource_of(id) matches Some(x) && self.usable_under(x.server_id, x.active)),
    {
        if id < 1 || id > self.resources.len() as u64 {
            return false;
        }
        let x = &self.resources[(id - 1) as usize];
        x.active && match self.server(x.server_id) {
            Some(s) => s.active,
            None => false,
        }
    }

    fn count_resources_of(&self, server_id: ServerId) -> (r: usize)
        ensures
            r == self.resources_of(server_id),
    {
        let ghost keys = resource_parents(self.resources@);
        let mut i: usize = 0;
        let mut c: usize = 0;
        while i < self.resources.len()
            invariant
                keys == resource_parents(self.resources@),
                i <= self.resources@.len(),
                c <= i,
                c == count_key(keys.subrange(0, i as int), server_id),
            decreases self.resources@.len() - i,
        {
            proof {
                lemma_count_prefix(keys, i as int, server_id);
            }
            if self.resources[i].server_id == server_id {
                c = c + 1;
            }
            i = i + 1;
        }
        assert(keys.subrange(0, i as int) == keys);
        c
    }

    /// Registers a resource under server `server_id`, which must be active and owned by `caller`.
    pub fn register_resource(
        &mut self,
        caller: AccountId,
        server_id: ServerId,
        name: Vec<u8>,
        description: Option<Vec<u8>>,
        uri: Vec<u8>,
        mime_type: Option<Vec<u8>>,
        content_cid: Vec<u8>,
        metadata_cid: Option<Vec<u8>>,
    ) -> (r: Result<ResourceId, Error>)
        requires
            old(self).wf(),
        ensures
            final(self).wf(),
            r matches Err(e) ==> old(self).register_resource_error(
                caller,
                server_id,
                name@,
                opt_bytes(description),
                uri@,
                opt_bytes(mime_type),
                content_cid@,
                opt_bytes(metadata_cid),
            ) == Some(e) && *final(self) == *old(self),
            r is Ok <==> old(self).register_resource_error(
                caller,
                server_id,
                name@,
                opt_bytes(description),
                uri@,
                opt_bytes(mime_type),
                content_cid@,
                opt_bytes(metadata_cid),
            ) is None,
            r matches Ok(id) ==> {
                let x = final(self).resource_seq().last();
                &&& id == old(self).resource_seq().len() + 1
                &&& final(self).resource_seq().len() == old(self).resource_seq().len() + 1
                &&& final(self).resource_seq().drop_last() == old(self).resource_seq()
                &&& final(self).resource_of(id) == Some(x)
                &&& x.server_id == server_id
                &&& x.name@ == name@
                &&& opt_view(x.description) == opt_bytes(description)
                &&& x.uri@ == uri@
                &&& opt_view(x.mime_type) == opt_bytes(mime_type)
                &&& x.content_cid@ == content_cid@
                &&& opt_view(x.metadata_cid) == opt_bytes(metadata_cid)
                &&& x.active
                &&& final(self).resources_frame(old(self))
                &&& final(self).event_seq() == old(self).event_seq().push(
                    Event::ResourceRegistered { resource_id: id, server_id },
                )
            },
    {
        let name = match bounded::<64>(name, self.config.max_name_length) {
            Ok(b) => b,
            Err(e) => return Err(e),
        };
        let description = match bounded_opt::<256>(description, self.config.max_description_length) {
            Ok(b) => b,
            Err(e) => return Err(e),
        };
        let uri = match bounded::<256>(uri, self.config.max_uri_length) {
            Ok(b) => b,
            Err(e) => return Err(e),
        };
        let mime_type = match bounded_opt::<64>(mime_type, 64) {
            Ok(b) => b,
            Err(e) => return Err(e),
        };
        let content_cid = match bounded::<64>(content_cid, self.config.max_cid_length) {
            Ok(b) => b,
            Err(e) => return Err(e),
        };
        let metadata_cid = match bounded_opt::<64>(metadata_cid, self.config.max_cid_length) {
            Ok(b) => b,
            Err(e) => return Err(e),
        };
        if content_cid.is_empty() {
            return Err(Error::MissingContentReference);
        }
        match self.check_parent(caller, server_id) {
            Ok(()) => {},
            Err(e) => return Err(e),
        }
        let held = self.count_resources_of(server_id);
        if held as u64 >= self.config.max_resources_per_server as u64 || self.resources.len() as u64 >= u64::MAX {
            return Err(Error::QuotaExceeded);
        }
        let id = self.resources.len() as u64 + 1;
        let record = ResourceInfo {
            server_id,
            name,
            description,
            uri,
            mime_type,
            content_cid,
            metadata_cid,
            active: true,
        };
        self.resources.push(record);
        self.events.push(Event::ResourceRegistered { resource_id: id, server_id });
        proof {
            assert(self.resources@.drop_last() =~= old(self).resources@);
            assert forall|i: int| 0 <= i < self.resources@.len() implies at_id(
                self.servers@,
                #[trigger] self.resources@[i].server_id,
            ) is Some by {
                if i < old(self).resources@.len() {
                    assert(self.resources@[i] == old(self).resources@[i]);
                }
            }
        }
        Ok(id)
    }

    /// Why `update_resource` or `deactivate_resource` is refused before fields are read.
    pub open spec fn resource_access_error(&self, caller: AccountId, id: ResourceId) -> Option<Error> {
        self.child_access_error(
            caller,
            match self.resource_of(id) {
                Some(x) => Some(x.server_id),
                None => None,
            },
        )
    }

    /// Only resource `id` changed, and nothing else but the notifications.
    pub open spec fn only_resource_changed(&self, old: &Pallet, id: ResourceId) -> bool {
        &&& self.resources_frame(old)
        &&& 1 <= id <= old.resource_seq().len()
        &&& self.resource_seq() == old.resource_seq().update(id - 1, self.resource_seq()[id - 1])
    }

    fn check_resource_access(&self, caller: AccountId, id: ResourceId) -> (r: Result<usize, Error>)
        ensures
            r is Ok <==> self.resource_access_error(caller, id) is None,
            r matches Err(e) ==> self.resource_access_error(caller, id) == Some(e),
            r matches Ok(i) ==> i == id - 1 && i < self.resource_seq().len(),
    {
        if id < 1 || id > self.resources.len() as u64 {
            return Err(Error::NotFound);
        }
        let i = (id - 1) as usize;
        match self.check_child_access(caller, self.resources[i].server_id) {
            Ok(()) => Ok(i),
            Err(e) => Err(e),
        }
    }

    /// Overwrites the supplied fields of resource `id`; only its server's owner may.
    pub fn update_resource(
        &mut self,
        caller: AccountId,
        id: ResourceId,
        name: Option<Vec<u8>>,
        description: Option<Vec<u8>>,
        uri: Option<Vec<u8>>,
        mime_type: Option<Vec<u8>>,
        content_cid: Option<Vec<u8>>,
        metadata_cid: Option<Vec<u8>>,
    ) -> (r: Result<(), Error>)
        requires
            old(self).wf(),
        ensures
            final(self).wf(),
            r matches Err(e) ==> (match old(self).resource_access_error(caller, id) {
                Some(a) => a,
                None => resource_fields_error(
                    old(self).config_spec(),
                    opt_bytes(name),
                    opt_bytes(description),
                    opt_bytes(uri),
                    opt_bytes(mime_type),
                    opt_bytes(content_cid),
                    opt_bytes(metadata_cid),
                ).unwrap(),
            }) == e && *final(self) == *old(self),
            r is Ok <==> old(self).resource_access_error(caller, id) is None && resource_fields_error(
                old(self).config_spec(),
                opt_bytes(name),
                opt_bytes(description),
                opt_bytes(uri),
                opt_bytes(mime_type),
                opt_bytes(content_cid),
                opt_bytes(metadata_cid),
            ) is None,
            r is Ok ==> {
                let o = old(self).resource_seq()[id - 1];
                let x = final(self).resource_seq()[id - 1];
                &&& final(self).only_resource_changed(old(self), id)
                &&& x.server_id == o.server_id
                &&& x.name@ == replaced(opt_bytes(name), o.name@)
                &&& opt_view(x.description) == replaced_opt(opt_bytes(description), opt_view(o.description))
                &&& x.uri@ == replaced(opt_bytes(uri), o.uri@)
                &&& opt_view(x.mime_type) == replaced_opt(opt_bytes(mime_type), opt_view(o.mime_type))
                &&& x.content_cid@ == replaced(opt_bytes(content_cid), o.content_cid@)
                &&& opt_view(x.metadata_cid) == replaced_opt(opt_bytes(metadata_cid), opt_view(o.metadata_cid))
                &&& x.active == o.active
                &&& final(self).event_seq() == old(self).event_seq().push(
                    Event::ResourceUpdated { resource_id: id },
                )
            },
    {
        let i = match self.check_resource_access(caller, id) {
            Ok(i) => i,
            Err(e) => return Err(e),
        };
        let name = match bounded_opt::<64>(name, self.config.max_name_length) {
            Ok(b) => b,
            Err(e) => return Err(e),
        };
        let description = match bounded_opt::<256>(description, self.config.max_description_length) {
            Ok(b) => b,
            Err(e) => return Err(e),
        };
        let uri = match bounded_opt::<256>(uri, self.config.max_uri_length) {
            Ok(b) => b,
            Err(e) => return Err(e),
        };
        let mime_type = match bounded_opt::<64>(mime_type, 64) {
            Ok(b) => b,
            Err(e) => return Err(e),
        };
        let content_cid = match bounded_opt::<64>(content_cid, self.config.max_cid_length) {
            Ok(b) => b,
            Err(e) => return Err(e),
        };
        let metadata_cid = match bounded_opt::<64>(metadata_cid, self.config.max_cid_length) {
            Ok(b) => b,
            Err(e) => return Err(e),
        };
        match &content_cid {
            Some(c) => if c.is_empty() {
                return Err(Error::MissingContentReference);
            },
            None => {},
        }
        if let Some(v) = name {
            self.resources[i].name = v;
        }
        if let Some(v) = description {
            self.resources[i].description = Some(v);
        }
        if let Some(v) = uri {
            self.resources[i].uri = v;
        }
        if let Some(v) = mime_type {
            self.resources[i].mime_type = Some(v);
        }
        if let Some(v) = content_cid {
            self.resources[i].content_cid = v;
        }
        if let Some(v) = metadata_cid {
            self.resources[i].metadata_cid = Some(v);
        }
        self.events.push(Event::ResourceUpdated { resource_id: id });
        proof {
            assert(self.resources@ =~= old(self).resources@.update(i as int, self.resources@[i as int]));
            self.lemma_resource_replaced(old(self), i as int);
        }
        Ok(())
    }

    /// Deactivates resource `id`; only its server's owner may. The record stays stored.
    pub fn deactivate_resource(&mut self, caller: AccountId, id: ResourceId) -> (r: Result<(), Error>)
        requires
            old(self).wf(),
        ensures
            final(self).wf(),
            r matches Err(e) ==> old(self).resource_access_error(caller, id) == Some(e)
                && *final(self) == *old(self),
            r is Ok <==> old(self).resource_access_error(caller, id) is None,
            r is Ok ==> {
                &&& final(self).only_resource_changed(old(self), id)
                &&& final(self).resource_seq()[id - 1] == (ResourceInfo {
                    active: false,
                    ..old(self).resource_seq()[id - 1]
                })
                &&& final(self).event_seq() == old(self).event_seq().push(
                    Event::ResourceDeactivated { resource_id: id },
                )
            },
    {
        let i = match self.check_resource_access(caller, id) {
            Ok(i) => i,
            Err(e) => return Err(e),
        };
        self.resources[i].active = false;
        self.events.push(Event::ResourceDeactivated { resource_id: id });
        proof {
            assert(self.resources@ =~= old(self).resources@.update(i as int, self.resources@[i as int]));
            self.lemma_resource_replaced(old(self), i as int);
        }
        Ok(())
    }

    proof fn lemma_resource_replaced(&self, old: &Pallet, i: int)
        requires
            old.wf(),
            0 <= i < old.resource_seq().len(),
            self.resource_seq() == old.resource_seq().update(i, self.resource_seq()[i]),
            self.resource_seq()[i].server_id == old.resource_seq()[i].server_id,
            self.resources_frame(old),
        ensures
            self.wf(),
    {
        assert forall|j: int| 0 <= j < self.resource_seq().len() implies at_id(
            self.server_seq(),
            #[trigger] self.resource_seq()[j].server_id,
        ) is Some by {
            assert(at_id(old.server_seq(), old.resource_seq()[j].server_id) is Some);
        }
    }
}

} // verus!
