use vstd::prelude::*;
use crate::config::{
    bounded, bounded_opt, count_key, lemma_count_prefix, opt_fits, Config, Error, Event,
};
use crate::registry::{at_id, replaced, replaced_opt, Pallet};
use crate::types::{opt_bytes, opt_view, AccountId, ServerId, PromptId, PromptTemplate};

verus! {

/// The parent server of each prompt, in identifier order.
pub open spec fn prompt_parents(s: Seq<PromptTemplate>) -> Seq<u64> {
    s.map_values(|x: PromptTemplate| x.server_id)
}

/// Why a prompt's fields are rejected; absent fields are not checked.
pub open spec fn prompt_fields_error(
    cfg: Config,
    name: Option<Seq<u8>>,
    description: Option<Seq<u8>>,
    template: Option<Seq<u8>>,
    parameter_schema: Option<Seq<u8>>,
    category: Option<Seq<u8>>,
    metadata_cid: Option<Seq<u8>>,
) -> Option<Error> {
    if !opt_fits(name, cfg.max_name_length, 64) || !opt_fits(
        description,
        cfg.max_description_length,
        256,
    ) || !opt_fits(template, cfg.max_template_length, 2048) || !opt_fits(
        parameter_schema,
        cfg.max_schema_length,
        1024,
    ) || !opt_fits(category, 32, 32) || !opt_fits(metadata_cid, cfg.max_cid_length, 64) {
        Some(Error::TooLong)
    } else {
        None
    }
}

impl Pallet {
    /// Only the prompt list and the notifications may differ.
    pub open spec fn prompts_frame(&self, old: &Pallet) -> bool {
        &&& self.config_spec() == old.config_spec()
        &&& self.server_seq() == old.server_seq()
        &&& self.tool_seq() == old.tool_seq()
        &&& self.resource_seq() == old.resource_seq()
        &&& self.clock() == old.clock()
    }

    /// How many prompts server `server_id` holds, active or not.
    pub open spec fn prompts_of(&self, server_id: ServerId) -> nat {
        count_key(prompt_parents(self.prompt_seq()), server_id)
    }

    /// Why `register_prompt` rejects its request, if it does.
    pub open spec fn register_prompt_error(
        &self,
        caller: AccountId,
        server_id: ServerId,
        name: Seq<u8>,
        description: Option<Seq<u8>>,
        template: Seq<u8>,
        parameter_schema: Option<Seq<u8>>,
        category: Option<Seq<u8>>,
        metadata_cid: Option<Seq<u8>>,
    ) -> Option<Error> {
        match prompt_fields_error(
            self.config_spec(),
            Some(name),
            description,
            Some(template),
            parameter_schema,
            category,
            metadata_cid,
        ) {
            Some(e) => Some(e),
            None => match self.parent_error(caller, server_id) {
                Some(e) => Some(e),
                None => if self.prompts_of(server_id) >= self.config_spec().max_prompts_per_server
                    || self.prompt_seq().len() >= u64::MAX {
                    Some(Error::QuotaExceeded)
                } else {
                    None
                },
            },
        }
    }

    pub fn prompt_count(&self) -> (r: usize)
        ensures
            r == self.prompt_seq().len(),
    {
        self.prompts.len()
    }

    pub fn prompt(&self, id: PromptId) -> (r: Option<&PromptTemplate>)
        ensures
            r matches Some(x) ==> self.prompt_of(id) == Some(*x),
            r is None ==> self.prompt_of(id) is None,
    {
        if id >= 1 && id <= self.prompts.len() as u64 {
            Some(&self.prompts[(id - 1) as usize])
        } else {
            None
        }
    }

    /// Whether prompt `id` exists, is active, and belongs to an active server.
    pub fn prompt_usable(&self, id: PromptId) -> (r: bool)
        ensures
            r <==> (self.prompt_of(id) matches Some(x) && self.usable_under(x.server_id, x.active)),
    {
        if id < 1 || id > self.prompts.len() as u64 {
            return false;
        }
        let x = &self.prompts[(id - 1) as usize];
        x.active && match self.server(x.server_id) {
            Some(s) => s.active,
            None => false,
        }
    }

    fn count_prompts_of(&self, server_id: ServerId) -> (r: usize)
        ensures
            r == self.prompts_of(server_id),
    {
        let ghost keys = prompt_parents(self.prompts@);
        let mut i: usize = 0;
        let mut c: usize = 0;
        while i < self.prompts.len()
            invariant
                keys == prompt_parents(self.prompts@),
                i <= self.prompts@.len(),
                c <= i,
                c == count_key(keys.subrange(0, i as int), server_id),
            decreases self.prompts@.len() - i,
        {
            proof {
                lemma_count_prefix(keys, i as int, server_id);
            }
            if self.prompts[i].server_id == server_id {
                c = c + 1;
            }
            i = i + 1;
        }
        assert(keys.subrange(0, i as int) == keys);
        c
    }

    /// Registers a prompt under server `server_id`, which must be active and owned by `caller`.
    pub fn register_prompt(
        &mut self,
        caller: AccountId,
        server_id: ServerId,
        name: Vec<u8>,
        description: Option<Vec<u8>>,
        template: Vec<u8>,
        parameter_schema: Option<Vec<u8>>,
        category: Option<Vec<u8>>,
        metadata_cid: Option<Vec<u8>>,
    ) -> (r: Result<PromptId, Error>)
        requires
            old(self).wf(),
        ensures
            final(self).wf(),
            r matches Err(e) ==> old(self).register_prompt_error(
                caller,
                server_id,
                name@,
                opt_bytes(description),
                template@,
                opt_bytes(parameter_schema),
                opt_bytes(category),
                opt_bytes(metadata_cid),
            ) == Some(e) && *final(self) == *old(self),
            r is Ok <==> old(self).register_prompt_error(
                caller,
                server_id,
                name@,
                opt_bytes(description),
                template@,
                opt_bytes(parameter_schema),
                opt_bytes(category),
                opt_bytes(metadata_cid),
            ) is None,
            r matches Ok(id) ==> {
                let x = final(self).prompt_seq().last();
                &&& id == old(self).prompt_seq().len() + 1
                &&& final(self).prompt_seq().len() == old(self).prompt_seq().len() + 1
                &&& final(self).prompt_seq().drop_last() == old(self).prompt_seq()
                &&& final(self).prompt_of(id) == Some(x)
                &&& x.server_id == server_id
                &&& x.name@ == name@
                &&& opt_view(x.description) == opt_bytes(description)
                &&& x.template@ == template@
                &&& opt_view(x.parameter_schema) == opt_bytes(parameter_schema)
                &&& opt_view(x.category) == opt_bytes(category)
                &&& opt_view(x.metadata_cid) == opt_bytes(metadata_cid)
                &&& x.active
                &&& final(self).prompts_frame(old(self))
                &&& final(self).event_seq() == old(self).event_seq().push(
                    Event::PromptRegistered { prompt_id: id, server_id },
                )
            },
    {
        let name = match bounded::<64>(name, self.config.max_name_length) {
            Ok(b) => b,
            Err(e) => return Err(e),
        };
        let description = match bounded_opt::<256>(description, self.config.max_description_length) {
            Ok(b) => b,
            Err(e) => return Err(e),
        };
        let template = match bounded::<2048>(template, self.config.max_template_length) {
            Ok(b) => b,
            Err(e) => return Err(e),
        };
        let parameter_schema = match bounded_opt::<1024>(parameter_schema, self.config.max_schema_length) {
            Ok(b) => b,
            Err(e) => return Err(e),
        };
        let category = match bounded_opt::<32>(category, 32) {
            Ok(b) => b,
            Err(e) => return Err(e),
        };
        let metadata_cid = match bounded_opt::<64>(metadata_cid, self.config.max_cid_length) {
            Ok(b) => b,
            Err(e) => return Err(e),
        };
        match self.check_parent(caller, server_id) {
            Ok(()) => {},
            Err(e) => return Err(e),
        }
        let held = self.count_prompts_of(server_id);
        if held as u64 >= self.config.max_prompts_per_server as u64 || self.prompts.len() as u64 >= u64::MAX {
            return Err(Error::QuotaExceeded);
        }
        let id = self.prompts.len() as u64 + 1;
        let record = PromptTemplate {
            server_id,
            name,
            description,
            template,
            parameter_schema,
            category,
            metadata_cid,
            active: true,
        };
        self.prompts.push(record);
        self.events.push(Event::PromptRegistered { prompt_id: id, server_id });
        proof {
            assert(self.prompts@.drop_last() =~= old(self).prompts@);
            assert forall|i: int| 0 <= i < self.prompts@.len() implies at_id(
                self.servers@,
                #[trigger] self.prompts@[i].server_id,
            ) is Some by {
                if i < old(self).prompts@.len() {
                    assert(self.prompts@[i] == old(self).prompts@[i]);
                }
            }
        }
        Ok(id)
    }

    /// Why `update_prompt` or `deactivate_prompt` is refused before fields are read.
    pub open spec fn prompt_access_error(&self, caller: AccountId, id: PromptId) -> Option<Error> {
        self.child_access_error(
            caller,
            match self.prompt_of(id) {
                Some(x) => Some(x.server_id),
                None => None,
            },
        )
    }

    /// Only prompt `id` changed, and nothing else but the notifications.
    pub open spec fn only_prompt_changed(&self, old: &Pallet, id: PromptId) -> bool {
        &&& self.prompts_frame(old)
        &&& 1 <= id <= old.prompt_seq().len()
        &&& self.prompt_seq() == old.prompt_seq().update(id - 1, self.prompt_seq()[id - 1])
    }

    fn check_prompt_access(&self, caller: AccountId, id: PromptId) -> (r: Result<usize, Error>)
        ensures
            r is Ok <==> self.prompt_access_error(caller, id) is None,
            r matches Err(e) ==> self.prompt_access_error(caller, id) == Some(e),
            r matches Ok(i) ==> i == id - 1 && i < self.prompt_seq().len(),
    {
        if id < 1 || id > self.prompts.len() as u64 {
            return Err(Error::NotFound);
        }
        let i = (id - 1) as usize;
        match self.check_child_access(caller, self.prompts[i].server_id) {
            Ok(()) => Ok(i),
            Err(e) => Err(e),
        }
    }

    /// Overwrites the supplied fields of prompt `id`; only its server's owner may.
    pub fn update_prompt(
        &mut self,
        caller: AccountId,
        id: PromptId,
        name: Option<Vec<u8>>,
        description: Option<Vec<u8>>,
        template: Option<Vec<u8>>,
        parameter_schema: Option<Vec<u8>>,
        category: Option<Vec<u8>>,
        metadata_cid: Option<Vec<u8>>,
    ) -> (r: Result<(), Error>)
        requires
            old(self).wf(),
        ensures
            final(self).wf(),
            r matches Err(e) ==> (match old(self).prompt_access_error(caller, id) {
                Some(a) => a,
                None => prompt_fields_error(
                    old(self).config_spec(),
                    opt_bytes(name),
                    opt_bytes(description),
                    opt_bytes(template),
                    opt_bytes(parameter_schema),
                    opt_bytes(category),
                    opt_bytes(metadata_cid),
                ).unwrap(),
            }) == e && *final(self) == *old(self),
            r is Ok <==> old(self).prompt_access_error(caller, id) is None && prompt_fields_error(
                old(self).config_spec(),
                opt_bytes(name),
                opt_bytes(description),
                opt_bytes(template),
                opt_bytes(parameter_schema),
                opt_bytes(category),
                opt_bytes(metadata_cid),
            ) is None,
            r is Ok ==> {
                let o = old(self).prompt_seq()[id - 1];
                let x = final(self).prompt_seq()[id - 1];
                &&& final(self).only_prompt_changed(old(self), id)
                &&& x.server_id == o.server_id
                &&& x.name@ == replaced(opt_bytes(name), o.name@)
                &&& opt_view(x.description) == replaced_opt(opt_bytes(description), opt_view(o.description))
                &&& x.template@ == replaced(opt_bytes(template), o.template@)
                &&& opt_view(x.parameter_schema) == replaced_opt(opt_bytes(parameter_schema), opt_view(o.parameter_schema))
                &&& opt_view(x.category) == replaced_opt(opt_bytes(category), opt_view(o.category))
                &&& opt_view(x.metadata_cid) == replaced_opt(opt_bytes(metadata_cid), opt_view(o.metadata_cid))
                &&& x.active == o.active
                &&& final(self).event_seq() == old(self).event_seq().push(
                    Event::PromptUpdated { prompt_id: id },
                )
            },
    {
        let i = match self.check_prompt_access(caller, id) {
            Ok(i) => i,
            Err(e) => return Err(e),
        };
        let name = match bounded_opt::<64>(name, self.config.max_name_length) {
            Ok(b) => b,
            Err(e) => return Err(e),
        };
        let description = match bounded_opt::<256>(description, self.config.max_description_length) {
            Ok(b) => b,
            Err(e) => return Err(e),
        };
        let template = match bounded_opt::<2048>(template, self.config.max_template_length) {
            Ok(b) => b,
            Err(e) => return Err(e),
        };
        let parameter_schema = match bounded_opt::<1024>(parameter_schema, self.config.max_schema_length) {
            Ok(b) => b,
            Err(e) => return Err(e),
        };
        let category = match bounded_opt::<32>(category, 32) {
            Ok(b) => b,
            Err(e) => return Err(e),
        };
        let metadata_cid = match bounded_opt::<64>(metadata_cid, self.config.max_cid_length) {
            Ok(b) => b,
            Err(e) => return Err(e),
        };
        if let Some(v) = name {
            self.prompts[i].name = v;
        }
        if let Some(v) = description {
            self.prompts[i].description = Some(v);
        }
        if let Some(v) = template {
            self.prompts[i].template = v;
        }
        if let Some(v) = parameter_schema {
            self.prompts[i].parameter_schema = Some(v);
        }
        if let Some(v) = category {
            self.prompts[i].category = Some(v);
        }
        if let Some(v) = metadata_cid {
            self.prompts[i].metadata_cid = Some(v);
        }
        self.events.push(Event::PromptUpdated { prompt_id: id });
        proof {
            assert(self.prompts@ =~= old(self).prompts@.update(i as int, self.prompts@[i as int]));
            self.lemma_prompt_replaced(old(self), i as int);
        }
        Ok(())
    }

    /// Deactivates prompt `id`; only its server's owner may. The record stays stored.
    pub fn deactivate_prompt(&mut self, caller: AccountId, id: PromptId) -> (r: Result<(), Error>)
        requires
            old(self).wf(),
        ensures
            final(self).wf(),
            r matches Err(e) ==> old(self).prompt_access_error(caller, id) == Some(e)
                && *final(self) == *old(self),
            r is Ok <==> old(self).prompt_access_error(caller, id) is None,
            r is Ok ==> {
                &&& final(self).only_prompt_changed(old(self), id)
                &&& final(self).prompt_seq()[id - 1] == (PromptTemplate {
                    active: false,
                    ..old(self).prompt_seq()[id - 1]
                })
                &&& final(self).event_seq() == old(self).event_seq().push(
                    Event::PromptDeactivated { prompt_id: id },
                )
            },
    {
        let i = match self.check_prompt_access(caller, id) {
            Ok(i) => i,
            Err(e) => return Err(e),
        };
        self.prompts[i].active = false;
        self.events.push(Event::PromptDeactivated { prompt_id: id });
        proof {
            assert(self.prompts@ =~= old(self).prompts@.update(i as int, self.prompts@[i as int]));
            self.lemma_prompt_replaced(old(self), i as int);
        }
        Ok(())
    }

    proof fn lemma_prompt_replaced(&self, old: &Pallet, i: int)
        requires
            old.wf(),
            0 <= i < old.prompt_seq().len(),
            self.prompt_seq() == old.prompt_seq().update(i, self.prompt_seq()[i]),
            self.prompt_seq()[i].server_id == old.prompt_seq()[i].server_id,
            self.prompts_frame(old),
        ensures
            self.wf(),
    {
        assert forall|j: int| 0 <= j < self.prompt_seq().len() implies at_id(
            self.server_seq(),
            #[trigger] self.prompt_seq()[j].server_id,
        ) is Some by {
            assert(at_id(old.server_seq(), old.prompt_seq()[j].server_id) is Some);
        }
    }
}

} // verus!
