use vstd::prelude::*;
use crate::config::{
    bounded, bounded_opt, count_key, lemma_count_prefix, opt_fits, Config, Error, Event,
};
use crate::registry::{at_id, replaced, replaced_opt, Pallet};
use crate::types::{opt_bytes, opt_view, AccountId, ServerId, ToolId, ToolInfo, ToolAnnotations};

verus! {

/// The parent server of each tool, in identifier order.
pub open spec fn tool_parents(s: Seq<ToolInfo>) -> Seq<u64> {
    s.map_values(|x: ToolInfo| x.server_id)
}

/// Why a tool's fields are rejected; absent fields are not checked.
pub open spec fn tool_fields_error(
    cfg: Config,
    name: Option<Seq<u8>>,
    description: Option<Seq<u8>>,
    input_schema: Option<Seq<u8>>,
    output_schema: Option<Seq<u8>>,
    metadata_cid: Option<Seq<u8>>,
) -> Option<Error> {
    if !opt_fits(name, cfg.max_name_length, 64) || !opt_fits(
        description,
        cfg.max_description_length,
        256,
    ) || !opt_fits(input_schema, cfg.max_schema_length, 2048) || !opt_fits(
        output_schema,
        cfg.max_schema_length,
        2048,
    ) || !opt_fits(metadata_cid, cfg.max_cid_length, 64) {
        Some(Error::TooLong)
    } else {
        None
    }
}

impl Pallet {
    /// Only the tool list and the notifications may differ.
    pub open spec fn tools_frame(&self, old: &Pallet) -> bool {
        &&& self.config_spec() == old.config_spec()
        &&& self.server_seq() == old.server_seq()
        &&& self.prompt_seq() == old.prompt_seq()
        &&& self.resource_seq() == old.resource_seq()
        &&& self.clock() == old.clock()
    }

    /// How many tools server `server_id` holds, active or not.
    pub open spec fn tools_of(&self, server_id: ServerId) -> nat {
        count_key(tool_parents(self.tool_seq()), server_id)
    }

    /// Why `register_tool` rejects its request, if it does.
    pub open spec fn register_tool_error(
        &self,
        caller: AccountId,
        server_id: ServerId,
        name: Seq<u8>,
        description: Option<Seq<u8>>,
        input_schema: Seq<u8>,
        output_schema: Option<Seq<u8>>,
        metadata_cid: Option<Seq<u8>>,
    ) -> Option<Error> {
        match tool_fields_error(
            self.config_spec(),
            Some(name),
            description,
            Some(input_schema),
            output_schema,
            metadata_cid,
        ) {
            Some(e) => Some(e),
            None => match self.parent_error(caller, server_id) {
                Some(e) => Some(e),
                None => if self.tools_of(server_id) >= self.config_spec().max_tools_per_server
                    || self.tool_seq().len() >= u64::MAX {
                    Some(Error::QuotaExceeded)
                } else {
                    None
                },
            },
        }
    }

    pub fn tool_count(&self) -> (r: usize)
        ensures
            r == self.tool_seq().len(),
    {
        self.tools.len()
    }

    pub fn tool(&self, id: ToolId) -> (r: Option<&ToolInfo>)
        ensures
            r matches Some(t) ==> self.tool_of(id) == Some(*t),
            r is None ==> self.tool_of(id) is None,
    {
        if id >= 1 && id <= self.tools.len() as u64 {
            Some(&self.tools[(id - 1) as usize])
        } else {
            None
        }
    }

    /// Whether tool `id` exists, is active, and belongs to an active server.
    pub fn tool_usable(&self, id: ToolId) -> (r: bool)
        requires
            self.wf(),
        ensures
            r <==> (self.tool_of(id) matches Some(t) && self.usable_under(t.server_id, t.active)),
    {
        if id < 1 || id > self.tools.len() as u64 {
            return false;
        }
        let t = &self.tools[(id - 1) as usize];
        t.active && match self.server(t.server_id) {
            Some(s) => s.active,
            None => false,
        }
    }

    fn count_tools_of(&self, server_id: ServerId) -> (r: usize)
        ensures
            r == self.tools_of(server_id),
    {
        let ghost keys = tool_parents(self.tools@);
        let mut i: usize = 0;
        let mut c: usize = 0;
        while i < self.tools.len()
            invariant
                keys == tool_parents(self.tools@),
                i <= self.tools@.len(),
                c <= i,
                c == count_key(keys.subrange(0, i as int), server_id),
            decreases self.tools@.len() - i,
        {
            proof {
                lemma_count_prefix(keys, i as int, server_id);
            }
            if self.tools[i].server_id == server_id {
                c = c + 1;
            }
            i = i + 1;
        }
        assert(keys.subrange(0, i as int) == keys);
        c
    }

    /// Registers a tool under server `server_id`, which must be active and owned by `caller`.
    pub fn register_tool(
        &mut self,
        caller: AccountId,
        server_id: ServerId,
        name: Vec<u8>,
        description: Option<Vec<u8>>,
        input_schema: Vec<u8>,
        output_schema: Option<Vec<u8>>,
        annotations: Option<ToolAnnotations>,
        metadata_cid: Option<Vec<u8>>,
    ) -> (r: Result<ToolId, Error>)
        requires
            old(self).wf(),
        ensures
            final(self).wf(),
            r matches Err(e) ==> old(self).register_tool_error(
                caller,
                server_id,
                name@,
                opt_bytes(description),
                input_schema@,
                opt_bytes(output_schema),
                opt_bytes(metadata_cid),
            ) == Some(e) && *final(self) == *old(self),
            r is Ok <==> old(self).register_tool_error(
                caller,
                server_id,
                name@,
                opt_bytes(description),
                input_schema@,
                opt_bytes(output_schema),
                opt_bytes(metadata_cid),
            ) is None,
            r matches Ok(id) ==> {
                let t = final(self).tool_seq().last();
                &&& id == old(self).tool_seq().len() + 1
                &&& final(self).tool_seq().len() == old(self).tool_seq().len() + 1
                &&& final(self).tool_seq().drop_last() == old(self).tool_seq()
                &&& final(self).tool_of(id) == Some(t)
                &&& t.server_id == server_id
                &&& t.name@ == name@
                &&& opt_view(t.description) == opt_bytes(description)
                &&& t.input_schema@ == input_schema@
                &&& opt_view(t.output_schema) == opt_bytes(output_schema)
                &&& t.annotations == annotations
                &&& opt_view(t.metadata_cid) == opt_bytes(metadata_cid)
                &&& t.active
                &&& final(self).tools_frame(old(self))
                &&& final(self).event_seq() == old(self).event_seq().push(
                    Event::ToolRegistered { tool_id: id, server_id },
                )
            },
    {
        let name = match bounded::<64>(name, self.config.max_name_length) {
            Ok(b) => b,
            Err(e) => return Err(e),
        };
        let description = match bounded_opt::<256>(description, self.config.max_description_length) {
            Ok(b) => b,
            Err(e) => return Err(e),
        };
        let input_schema = match bounded::<2048>(input_schema, self.config.max_schema_length) {
            Ok(b) => b,
            Err(e) => return Err(e),
        };
        let output_schema = match bounded_opt::<2048>(output_schema, self.config.max_schema_length) {
            Ok(b) => b,
            Err(e) => return Err(e),
        };
        let metadata_cid = match bounded_opt::<64>(metadata_cid, self.config.max_cid_length) {
            Ok(b) => b,
            Err(e) => return Err(e),
        };
        match self.check_parent(caller, server_id) {
            Ok(()) => {},
            Err(e) => return Err(e),
        }
        let held = self.count_tools_of(server_id);
        if held as u64 >= self.config.max_tools_per_server as u64 || self.tools.len() as u64
            >= u64::MAX {
            return Err(Error::QuotaExceeded);
        }
        let id = self.tools.len() as u64 + 1;
        let record = ToolInfo {
            server_id,
            name,
            description,
            input_schema,
            output_schema,
            annotations,
            metadata_cid,
            active: true,
        };
        self.tools.push(record);
        self.events.push(Event::ToolRegistered { tool_id: id, server_id });
        proof {
            assert(self.tools@.drop_last() =~= old(self).tools@);
            assert forall|i: int| 0 <= i < self.tools@.len() implies at_id(
                self.servers@,
                #[trigger] self.tools@[i].server_id,
            ) is Some by {
                if i < old(self).tools@.len() {
                    assert(self.tools@[i] == old(self).tools@[i]);
                }
            }
        }
        Ok(id)
    }

    /// Why `update_tool` or `deactivate_tool` is refused before fields are read.
    pub open spec fn tool_access_error(&self, caller: AccountId, id: ToolId) -> Option<Error> {
        self.child_access_error(
            caller,
            match self.tool_of(id) {
                Some(t) => Some(t.server_id),
                None => None,
            },
        )
    }

    /// Only tool `id` changed, and nothing else but the notifications.
    pub open spec fn only_tool_changed(&self, old: &Pallet, id: ToolId) -> bool {
        &&& self.tools_frame(old)
        &&& 1 <= id <= old.tool_seq().len()
        &&& self.tool_seq() == old.tool_seq().update(id - 1, self.tool_seq()[id - 1])
    }

    fn check_tool_access(&self, caller: AccountId, id: ToolId) -> (r: Result<usize, Error>)
        ensures
            r is Ok <==> self.tool_access_error(caller, id) is None,
            r matches Err(e) ==> self.tool_access_error(caller, id) == Some(e),
            r matches Ok(i) ==> i == id - 1 && i < self.tool_seq().len(),
    {
        if id < 1 || id > self.tools.len() as u64 {
            return Err(Error::NotFound);
        }
        let i = (id - 1) as usize;
        match self.check_child_access(caller, self.tools[i].server_id) {
            Ok(()) => Ok(i),
            Err(e) => Err(e),
        }
    }

    /// Overwrites the supplied fields of tool `id`; only its server's owner may.
    pub fn update_tool(
        &mut self,
        caller: AccountId,
        id: ToolId,
        name: Option<Vec<u8>>,
        description: Option<Vec<u8>>,
        input_schema: Option<Vec<u8>>,
        output_schema: Option<Vec<u8>>,
        annotations: Option<ToolAnnotations>,
        metadata_cid: Option<Vec<u8>>,
    ) -> (r: Result<(), Error>)
        requires
            old(self).wf(),
        ensures
            final(self).wf(),
            r matches Err(e) ==> (match old(self).tool_access_error(caller, id) {
                Some(a) => a,
                None => tool_fields_error(
                    old(self).config_spec(),
                    opt_bytes(name),
                    opt_bytes(description),
                    opt_bytes(input_schema),
                    opt_bytes(output_schema),
                    opt_bytes(metadata_cid),
                ).unwrap(),
            }) == e && *final(self) == *old(self),
            r is Ok <==> old(self).tool_access_error(caller, id) is None && tool_fields_error(
                old(self).config_spec(),
                opt_bytes(name),
                opt_bytes(description),
                opt_bytes(input_schema),
                opt_bytes(output_schema),
                opt_bytes(metadata_cid),
            ) is None,
            r is Ok ==> {
                let o = old(self).tool_seq()[id - 1];
                let t = final(self).tool_seq()[id - 1];
                &&& final(self).only_tool_changed(old(self), id)
                &&& t.server_id == o.server_id
                &&& t.name@ == replaced(opt_bytes(name), o.name@)
                &&& opt_view(t.description) == replaced_opt(
                    opt_bytes(description),
                    opt_view(o.description),
                )
                &&& t.input_schema@ == replaced(opt_bytes(input_schema), o.input_schema@)
                &&& opt_view(t.output_schema) == replaced_opt(
                    opt_bytes(output_schema),
                    opt_view(o.output_schema),
                )
                &&& t.annotations == replaced_opt(annotations, o.annotations)
                &&& opt_view(t.metadata_cid) == replaced_opt(
                    opt_bytes(metadata_cid),
                    opt_view(o.metadata_cid),
                )
                &&& t.active == o.active
                &&& final(self).event_seq() == old(self).event_seq().push(
                    Event::ToolUpdated { tool_id: id },
                )
            },
    {
        let i = match self.check_tool_access(caller, id) {
            Ok(i) => i,
            Err(e) => return Err(e),
        };
        let name = match bounded_opt::<64>(name, self.config.max_name_length) {
            Ok(b) => b,
            Err(e) => return Err(e),
        };
        let description = match bounded_opt::<256>(description, self.config.max_description_length) {
            Ok(b) => b,
            Err(e) => return Err(e),
        };
        let input_schema = match bounded_opt::<2048>(input_schema, self.config.max_schema_length) {
            Ok(b) => b,
            Err(e) => return Err(e),
        };
        let output_schema = match bounded_opt::<2048>(output_schema, self.config.max_schema_length) {
            Ok(b) => b,
            Err(e) => return Err(e),
        };
        let metadata_cid = match bounded_opt::<64>(metadata_cid, self.config.max_cid_length) {
            Ok(b) => b,
            Err(e) => return Err(e),
        };
        if let Some(n) = name {
            self.tools[i].name = n;
        }
        if let Some(d) = description {
            self.tools[i].description = Some(d);
        }
        if let Some(x) = input_schema {
            self.tools[i].input_schema = x;
        }
        if let Some(x) = output_schema {
            self.tools[i].output_schema = Some(x);
        }
        if let Some(a) = annotations {
            self.tools[i].annotations = Some(a);
        }
        if let Some(m) = metadata_cid {
            self.tools[i].metadata_cid = Some(m);
        }
        self.events.push(Event::ToolUpdated { tool_id: id });
        proof {
            assert(self.tools@ =~= old(self).tools@.update(i as int, self.tools@[i as int]));
            self.lemma_tool_replaced(old(self), i as int);
        }
        Ok(())
    }

    /// Deactivates tool `id`; only its server's owner may. The record stays stored.
    pub fn deactivate_tool(&mut self, caller: AccountId, id: ToolId) -> (r: Result<(), Error>)
        requires
            old(self).wf(),
        ensures
            final(self).wf(),
            r matches Err(e) ==> old(self).tool_access_error(caller, id) == Some(e)
                && *final(self) == *old(self),
            r is Ok <==> old(self).tool_access_error(caller, id) is None,
            r is Ok ==> {
                &&& final(self).only_tool_changed(old(self), id)
                &&& final(self).tool_seq()[id - 1] == (ToolInfo {
                    active: false,
                    ..old(self).tool_seq()[id - 1]
                })
                &&& final(self).event_seq() == old(self).event_seq().push(
                    Event::ToolDeactivated { tool_id: id },
                )
            },
    {
        let i = match self.check_tool_access(caller, id) {
            Ok(i) => i,
            Err(e) => return Err(e),
        };
        self.tools[i].active = false;
        self.events.push(Event::ToolDeactivated { tool_id: id });
        proof {
            assert(self.tools@ =~= old(self).tools@.update(i as int, self.tools@[i as int]));
            self.lemma_tool_replaced(old(self), i as int);
        }
        Ok(())
    }

    proof fn lemma_tool_replaced(&self, old: &Pallet, i: int)
        requires
            old.wf(),
            0 <= i < old.tool_seq().len(),
            self.tool_seq() == old.tool_seq().update(i, self.tool_seq()[i]),
            self.tool_seq()[i].server_id == old.tool_seq()[i].server_id,
            self.tools_frame(old),
        ensures
            self.wf(),
    {
        assert forall|j: int| 0 <= j < self.tool_seq().len() implies at_id(
            self.server_seq(),
            #[trigger] self.tool_seq()[j].server_id,
        ) is Some by {
            assert(at_id(old.server_seq(), old.tool_seq()[j].server_id) is Some);
        }
    }
}

} // verus!
