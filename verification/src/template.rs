//! Stream templates: saved pairs of rate and duration from which streams are
//! created, and the registry that keeps them.

use vstd::prelude::*;
use crate::error::StreamError;
use crate::identity::Identity;
use crate::ledger::{consistent, Ledger};
use crate::stream::{capped, StreamModel};

verus! {

/// The mathematical model of a template.
pub struct TemplateModel {
    /// The id under which the registry keeps the template.
    pub id: nat,
    /// The name of the template.
    pub name: Seq<char>,
    /// What the template is for, in its creator's words.
    pub description: Seq<char>,
    /// How long a stream made from the template lasts, in seconds.
    pub duration_secs: nat,
    /// The amount that a stream made from the template releases per second.
    pub sats_per_sec: nat,
    /// The party that created the template.
    pub creator: Seq<u8>,
    /// When the template was created.
    pub created_at: nat,
    /// How many streams were made from the template.
    pub usage_count: nat,
}

impl TemplateModel {
    /// A template as it stands right after its creation at time `now`: no
    /// stream was made from it yet.
    pub open spec fn created(
        id: nat,
        name: Seq<char>,
        description: Seq<char>,
        duration_secs: nat,
        sats_per_sec: nat,
        creator: Seq<u8>,
        now: nat,
    ) -> TemplateModel {
        TemplateModel {
            id,
            name,
            description,
            duration_secs,
            sats_per_sec,
            creator,
            created_at: now,
            usage_count: 0,
        }
    }

    /// The template after one more stream was made from it. Only the count of
    /// uses moves; it stops at the largest count that can be told.
    pub open spec fn used(self) -> TemplateModel {
        TemplateModel { usage_count: capped(self.usage_count + 1), ..self }
    }

    /// The stream that is made from this template at time `now`, under the id
    /// `id`: rate and duration come from the template, the parties and the
    /// locked amount from the request.
    pub open spec fn instantiated(
        self,
        id: nat,
        sender: Seq<u8>,
        recipient: Seq<u8>,
        total_locked: nat,
        now: nat,
    ) -> StreamModel {
        StreamModel::opened(
            id,
            sender,
            recipient,
            self.sats_per_sec,
            self.duration_secs,
            total_locked,
            now,
        )
    }
}

/// A reusable bundle of stream parameters.
#[derive(Debug)]
pub struct StreamTemplate {
    id: u64,
    name: String,
    description: String,
    duration_secs: u64,
    sats_per_sec: u64,
    creator: Identity,
    created_at: u64,
    usage_count: u64,
}

impl View for StreamTemplate {
    type V = TemplateModel;

    closed spec fn view(&self) -> TemplateModel {
        TemplateModel {
            id: self.id as nat,
            name: self.name@,
            description: self.description@,
            duration_secs: self.duration_secs as nat,
            sats_per_sec: self.sats_per_sec as nat,
            creator: self.creator@,
            created_at: self.created_at as nat,
            usage_count: self.usage_count as nat,
        }
    }
}

impl StreamTemplate {
    /// Counts one more stream made from this template.
    fn record_use(&mut self)
        ensures
            final(self)@ == old(self)@.used(),
    {
        self.usage_count = self.usage_count.saturating_add(1);
    }

    /// The id that the registry gave this template.
    pub fn id(&self) -> (value: u64)
        ensures
            value == self@.id,
    {
        self.id
    }

    /// The name of the template.
    pub fn name(&self) -> (text: &str)
        ensures
            text@ == self@.name,
    {
        self.name.as_str()
    }

    /// What the template is for, in its creator's words.
    pub fn description(&self) -> (text: &str)
        ensures
            text@ == self@.description,
    {
        self.description.as_str()
    }

    /// How long a stream made from this template lasts, in seconds.
    pub fn duration_secs(&self) -> (value: u64)
        ensures
            value == self@.duration_secs,
    {
        self.duration_secs
    }

    /// The amount that a stream made from this template releases per second.
    pub fn sats_per_sec(&self) -> (value: u64)
        ensures
            value == self@.sats_per_sec,
    {
        self.sats_per_sec
    }

    /// The party that created the template.
    pub fn creator(&self) -> (who: &Identity)
        ensures
            who@ == self@.creator,
    {
        &self.creator
    }

    /// When the template was created, in seconds.
    pub fn created_at(&self) -> (value: u64)
        ensures
            value == self@.created_at,
    {
        self.created_at
    }

    /// How many streams were made from this template.
    pub fn usage_count(&self) -> (value: u64)
        ensures
            value == self@.usage_count,
    {
        self.usage_count
    }
}

impl Clone for StreamTemplate {
    /// A snapshot of the template: a record of its own with the same contents.
    fn clone(&self) -> (copy: StreamTemplate)
        ensures
            copy@ == self@,
    {
        StreamTemplate {
            id: self.id,
            name: self.name.clone(),
            description: self.description.clone(),
            duration_secs: self.duration_secs,
            sats_per_sec: self.sats_per_sec,
            creator: self.creator.clone(),
            created_at: self.created_at,
            usage_count: self.usage_count,
        }
    }
}

/// What holds of the templates of a registry at all times: the template in
/// place `i` carries the id `i`.
pub open spec fn numbered(templates: Seq<TemplateModel>) -> bool {
    forall|i: int| 0 <= i < templates.len() ==> (#[trigger] templates[i]).id == i
}

/// The models of a sequence of template records, in the same order.
pub open spec fn template_models(records: Seq<StreamTemplate>) -> Seq<TemplateModel> {
    Seq::new(records.len(), |i: int| records[i]@)
}

/// All templates, each in the place of its id. Templates are never removed.
#[derive(Debug)]
pub struct Registry {
    templates: Vec<StreamTemplate>,
}

impl View for Registry {
    type V = Seq<TemplateModel>;

    closed spec fn view(&self) -> Seq<TemplateModel> {
        template_models(self.templates@)
    }
}

impl Registry {
    #[verifier::type_invariant]
    spec fn sound(self) -> bool {
        numbered(template_models(self.templates@))
    }

    /// A registry without templates.
    pub fn new() -> (registry: Registry)
        ensures
            registry@ == Seq::<TemplateModel>::empty(),
            numbered(registry@),
    {
        Registry { templates: Vec::new() }
    }

    /// The id that the next template will get, which is the number of
    /// templates created so far.
    pub fn next_id(&self) -> (id: u64)
        ensures
            id == self@.len(),
    {
        self.templates.len() as u64
    }

    /// Saves a template for `creator` at time `now` and returns its id. This
    /// always succeeds: nothing about the name, the rate or the duration is
    /// checked.
    pub fn create_template(
        &mut self,
        name: String,
        description: String,
        duration_secs: u64,
        sats_per_sec: u64,
        creator: Identity,
        now: u64,
    ) -> (id: u64)
        ensures
            id == old(self)@.len(),
            final(self)@ == old(self)@.push(
                TemplateModel::created(
                    id as nat,
                    name@,
                    description@,
                    duration_secs as nat,
                    sats_per_sec as nat,
                    creator@,
                    now as nat,
                ),
            ),
            numbered(final(self)@),
    {
        proof {
            use_type_invariant(&*self);
        }
        let id: u64 = self.templates.len() as u64;
        let template = StreamTemplate {
            id,
            name,
            description,
            duration_secs,
            sats_per_sec,
            creator,
            created_at: now,
            usage_count: 0,
        };
        let mut templates: Vec<StreamTemplate> = Vec::new();
        std::mem::swap(&mut templates, &mut self.templates);
        let ghost before = templates@;
        templates.push(template);
        proof {
            assert(template_models(templates@) =~= template_models(before).push(template@));
        }
        self.templates = templates;
        id
    }

    /// Creates a stream in `ledger` from template `template_id` at time `now`
    /// and returns the stream's id. Rate and duration are the template's;
    /// `caller`, not the template's creator, is the sender. The template's
    /// count of uses goes up by one. If no template has that id, the request
    /// is refused as `NotFound` and neither the registry nor the ledger
    /// changes.
    pub fn create_stream_from_template(
        &mut self,
        ledger: &mut Ledger,
        template_id: u64,
        caller: Identity,
        recipient: Identity,
        total_locked: u64,
        now: u64,
    ) -> (outcome: Result<u64, StreamError>)
        ensures
            match outcome {
                Ok(id) => {
                    &&& template_id < old(self)@.len()
                    &&& id == old(ledger)@.len()
                    &&& final(self)@ == old(self)@.update(
                        template_id as int,
                        old(self)@[template_id as int].used(),
                    )
                    &&& final(ledger)@ == old(ledger)@.push(
                        old(self)@[template_id as int].instantiated(
                            id as nat,
                            caller@,
                            recipient@,
                            total_locked as nat,
                            now as nat,
                        ),
                    )
                },
                Err(reason) => {
                    &&& reason == StreamError::NotFound
                    &&& template_id >= old(self)@.len()
                    &&& final(self)@ == old(self)@
                    &&& final(ledger)@ == old(ledger)@
                },
            },
            numbered(final(self)@),
            consistent(final(ledger)@),
    {
        proof {
            use_type_invariant(&*self);
            use_type_invariant(&*ledger);
        }
        if template_id >= self.templates.len() as u64 {
            return Err(StreamError::NotFound);
        }
        let mut templates: Vec<StreamTemplate> = Vec::new();
        std::mem::swap(&mut templates, &mut self.templates);
        let ghost before = template_models(templates@);
        let sats_per_sec: u64 = templates[template_id as usize].sats_per_sec;
        let duration_secs: u64 = templates[template_id as usize].duration_secs;
        templates[template_id as usize].record_use();
        proof {
            assert(template_models(templates@) =~= before.update(
                template_id as int,
                before[template_id as int].used(),
            ));
        }
        self.templates = templates;
        let id = ledger.create_stream(
            caller,
            recipient,
            sats_per_sec,
            duration_secs,
            total_locked,
            now,
        );
        Ok(id)
    }

    /// Snapshots of all templates, by rising id.
    pub fn list_templates(&self) -> (found: Vec<StreamTemplate>)
        ensures
            template_models(found@) == self@,
    {
        let mut found: Vec<StreamTemplate> = Vec::new();
        let mut i: usize = 0;
        while i < self.templates.len()
            invariant
                i <= self.templates.len(),
                found@.len() == i,
                forall|j: int| 0 <= j < i ==> (#[trigger] found@[j])@ == self.templates@[j]@,
            decreases self.templates.len() - i,
        {
            found.push(self.templates[i].clone());
            i += 1;
        }
        proof {
            assert(template_models(found@) =~= self@);
        }
        found
    }
}

} // verus!
