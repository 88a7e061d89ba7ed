//! The two sides of the proof as modules of a shared orchestrator: what they
//! absorb, draw, claim and write, phase by phase.
use crate::fields::{sf_sum, sf_zero, SecureField};
use crate::pipeline::claim::{ComponentClaims, P256CurrentAirProofClaim};
use crate::pipeline::columns::{
    all_cells, append_groups, cells, first_position, law_first_column_stays, lemma_first_position,
    names, select_preprocessed_columns,
};
use crate::pipeline::components::{
    all_read, consistent, interaction_sizes, largest_bound, read_as, trace_sizes, ComponentShape,
    P256CurrentAirComponents, TreeLayout,
};
use crate::pipeline::config::{p256_stark_monolithic_profile_config, profile_config, PcsConfig};
use crate::pipeline::draft::{artifacts, first_error, P256ProofDraft};
use crate::pipeline::error::P256ProofError;
use crate::pipeline::interaction_claim::{absorb_messages, P256CurrentAirInteractionClaim};
use crate::pipeline::public_providers::{
    misses_poles, providable, provided, reduced_statements, scalar_z_provider_claimed_sum,
    scalar_z_tuples, stated_balance,
};
use crate::pipeline::relations::{
    drawn, drawn_at, lemma_relations_at, lemma_same_instances, relations_at, LookupRelation,
    P256CurrentAirRelations, RELATION_BLOCKS,
};
use crate::pipeline::traces::{
    appended_columns, appended_names, base_groups, concatenated, gen_current_air_base_trace,
    gen_current_air_preprocessed_trace, lemma_appended_names, matching_parts, named_groups,
    part_cells, ColumnsOutcome, NamedColumns, P256CurrentAirBaseTrace, TableUses, BASE_PARTS,
    PREPROCESSED_PARTS,
};
use crate::pipeline::verify::{
    final_digest, law_statement_gate, open_relations, own_balance, own_providable,
    relations_digest, replay_interaction, root_failure, statement_failure, trace_digest,
    P256CurrentAirProof,
};
use crate::pipeline::wiring::{wire_components, wiring_plan, ComponentWiring};
use crate::range_checks::trace::{range_values, ColumnEval};
use crate::range_checks::PreProcessedColumnId;
use crate::transcript::{absorb_words, blake2s_mix_root, Transcript, MAX_DRAW_BLOCKS};
use vstd::prelude::*;

verus! {

/// The state that both sides share: the claim, the identifiers of its fixed
/// columns, and the relations once they are drawn.
#[derive(Clone, Debug)]
pub struct ModuleState {
    pub proof_claim: P256CurrentAirProofClaim,
    pub ids: Vec<PreProcessedColumnId>,
    pub relations: Option<P256CurrentAirRelations>,
    /// Whether the message scalar is bound to another module.
    pub bind_z: bool,
    /// The relation shared with that module, once it is drawn.
    pub scalar_z: Option<LookupRelation>,
    pub hinted_mul_preprocessed_namespace: Option<String>,
}

impl ModuleState {
    /// A fresh module for a claim.
    pub fn new(proof_claim: P256CurrentAirProofClaim) -> (r: ModuleState)
        ensures
            r.proof_claim == proof_claim,
            names(r.ids@) == append_groups(Seq::empty(), proof_claim.column_groups()),
            r.relations is None,
            !r.bind_z,
            r.scalar_z is None,
            r.hinted_mul_preprocessed_namespace is None,
    {
        let ids: Vec<PreProcessedColumnId> = proof_claim.preprocessed_column_ids();
        ModuleState {
            proof_claim,
            ids,
            relations: None,
            bind_z: false,
            scalar_z: None,
            hinted_mul_preprocessed_namespace: None,
        }
    }

    /// The module binds the message scalar to another module.
    pub fn with_z_binding(self) -> (r: ModuleState)
        ensures
            r == (ModuleState { bind_z: true, ..self }),
    {
        ModuleState { bind_z: true, ..self }
    }

    /// The module names its schedule columns in a namespace. The renamed list is
    /// given along.
    pub fn with_preprocessed_namespace(
        self,
        namespace: String,
        renamed: Vec<PreProcessedColumnId>,
    ) -> (r: ModuleState)
        ensures
            r == (ModuleState {
                ids: renamed,
                hinted_mul_preprocessed_namespace: Some(namespace),
                ..self
            }),
    {
        ModuleState {
            ids: renamed,
            hinted_mul_preprocessed_namespace: Some(namespace),
            ..self
        }
    }

    /// Absorbs the claim.
    pub fn mix_public(&self, channel: &mut Transcript)
        ensures
            final(channel).digest@ == absorb_words(
                old(channel).digest@,
                self.proof_claim.transcript_words(),
            ),
            final(channel).blocks == 0,
    {
        self.proof_claim.mix_into(channel);
    }

    /// Draws the relations, and after them the shared one where the module is
    /// bound, so that binding leaves the module's own relations as they are.
    pub fn draw_relations(&mut self, channel: &mut Transcript, gamma_max_values: usize)
        requires
            old(channel).blocks + RELATION_BLOCKS + 1 < MAX_DRAW_BLOCKS,
        ensures
            final(self).relations matches Some(relations) && drawn_at(
                relations,
                old(channel).digest@,
                old(channel).blocks as int,
                gamma_max_values,
            ),
            final(self).scalar_z == (if old(self).bind_z {
                Some(
                    drawn(old(channel).digest@, old(channel).blocks + RELATION_BLOCKS),
                )
            } else {
                old(self).scalar_z
            }),
            final(self).proof_claim == old(self).proof_claim,
            final(self).ids == old(self).ids,
            final(self).bind_z == old(self).bind_z,
            final(self).hinted_mul_preprocessed_namespace == old(
                self,
            ).hinted_mul_preprocessed_namespace,
            final(channel).digest@ == old(channel).digest@,
            final(channel).blocks == old(channel).blocks + RELATION_BLOCKS + (if old(self).bind_z {
                1int
            } else {
                0
            }),
    {
        let relations = P256CurrentAirRelations::draw(channel, gamma_max_values);
        self.relations = Some(relations);
        if self.bind_z {
            self.scalar_z = Some(LookupRelation::draw(channel));
        }
    }

    /// The relations, once they are drawn.
    pub fn relations(&self) -> (r: &P256CurrentAirRelations)
        requires
            self.relations is Some,
        ensures
            *r == self.relations->0,
    {
        match &self.relations {
            Some(relations) => relations,
            None => {
                assert(false);
                vstd::pervasive::unreached()
            },
        }
    }

    /// What the module's components are wired to, once the relations are drawn.
    pub fn build_components(&self, interaction_claim: &P256CurrentAirInteractionClaim) -> (r: Vec<
        ComponentWiring,
    >)
        requires
            self.relations is Some,
        ensures
            r@.map_values(|w: ComponentWiring| w.spec_wiring()) == wiring_plan(
                self.proof_claim,
                *interaction_claim,
                self.relations->0,
            ),
    {
        wire_components(&self.proof_claim, interaction_claim, self.relations())
    }

    /// The relations are drawn and reduced, with the shared one where the module
    /// is bound, and so are the statements.
    pub open spec fn can_balance(&self) -> bool {
        &&& self.relations matches Some(relations) && relations.public_inputs.wf()
            && relations.ecdsa_result.wf()
        &&& self.bind_z ==> (self.scalar_z matches Some(relation) && relation.wf())
        &&& reduced_statements(self.proof_claim.public_inputs.instances@)
    }

    /// No statement of the module meets a pole.
    pub open spec fn meets_no_pole(&self) -> bool {
        &&& providable(self.proof_claim.public_inputs.instances@, self.relations->0)
        &&& self.bind_z ==> misses_poles(
            self.scalar_z->0,
            scalar_z_tuples(self.proof_claim.public_inputs.instances@),
        )
    }

    /// What the module adds to the balance of the composed proof: the balance of
    /// its claim for its own statements, and what they provide of the message
    /// scalar where it is bound.
    pub open spec fn module_balance(
        &self,
        interaction_claim: P256CurrentAirInteractionClaim,
    ) -> SecureField {
        let stated = self.proof_claim.public_inputs.instances@;
        let balance = stated_balance(interaction_claim, stated, self.relations->0);
        if self.bind_z {
            sf_sum(balance, provided(self.scalar_z->0, scalar_z_tuples(stated)))
        } else {
            balance
        }
    }

    /// The balance of the module as one entry. There is none where a statement
    /// meets a pole.
    fn sums_of(&self, interaction_claim: &P256CurrentAirInteractionClaim) -> (r: Option<
        Vec<SecureField>,
    >)
        requires
            interaction_claim.wf(),
            self.can_balance(),
        ensures
            r is Some <==> self.meets_no_pole(),
            r matches Some(sums) ==> sums@ == seq![self.module_balance(*interaction_claim)],
    {
        let instances = &self.proof_claim.public_inputs.instances;
        let mut sum: SecureField = match interaction_claim.lookup_sum(instances, self.relations()) {
            Some(sum) => sum,
            None => {
                return None;
            },
        };
        if self.bind_z {
            match &self.scalar_z {
                Some(relation) => {
                    match scalar_z_provider_claimed_sum(instances, relation) {
                        Some(provided) => {
                            sum = sum.plus(provided);
                        },
                        None => {
                            return None;
                        },
                    }
                },
                None => {
                    assert(false);
                },
            }
        }
        let mut sums: Vec<SecureField> = Vec::new();
        sums.push(sum);
        Some(sums)
    }

    /// The identifiers of the module's fixed columns.
    pub fn preprocessed_column_ids(&self) -> (r: Vec<PreProcessedColumnId>)
        ensures
            names(r@) == names(self.ids@),
    {
        let mut ids: Vec<PreProcessedColumnId> = Vec::new();
        let mut i: usize = 0;
        while i < self.ids.len()
            invariant
                i <= self.ids@.len(),
                names(ids@) == names(self.ids@).take(i as int),
            decreases self.ids@.len() - i,
        {
            let ghost before = ids@;
            ids.push(self.ids[i].duplicate());
            proof {
                assert(names(ids@) =~= names(before).push(names(self.ids@)[i as int]));
                assert(names(self.ids@).take(i + 1) =~= names(self.ids@).take(i as int).push(
                    names(self.ids@)[i as int],
                ));
            }
            i = i + 1;
        }
        proof {
            assert(names(self.ids@).take(i as int) =~= names(self.ids@));
        }
        ids
    }

    /// Sizes of the module's columns, per tree.
    pub fn layout(&self, components: &P256CurrentAirComponents<ComponentShape>) -> (r: TreeLayout)
        requires
            forall|c: int|
                0 <= c < components.spec_components().len() ==> (
                #[trigger] components.spec_components()[c]).wf(self.ids@.len() as int),
            consistent(components.spec_components()),
            all_read(components.spec_components(), self.ids@.len() as int),
        ensures
            r.preprocessed@.len() == self.ids@.len(),
            forall|column: int, log_size: u32|
                0 <= column < self.ids@.len() && #[trigger] read_as(
                    components.spec_components(),
                    column,
                    log_size,
                ) ==> r.preprocessed@[column] == log_size,
            r.trace@ == trace_sizes(components.spec_components()),
            r.interaction@ == interaction_sizes(components.spec_components()),
    {
        self.proof_claim.trace_log_degree_bounds(&self.ids, components)
    }
}

/// The prepared columns of a proof, before it is committed.
#[derive(Clone, Debug)]
pub struct P256PreparedColumns {
    pub proof_claim: P256CurrentAirProofClaim,
    pub max_constraint_bound: u32,
    pub preprocessed: Vec<ColumnEval>,
    pub base: P256CurrentAirBaseTrace,
}

/// The prover's side.
#[derive(Clone, Debug)]
pub struct P256Prover {
    pub state: ModuleState,
    pub max_constraint_bound: u32,
    pub preprocessed: Option<Vec<ColumnEval>>,
    pub base: Option<P256CurrentAirBaseTrace>,
    pub interaction_claim: Option<P256CurrentAirInteractionClaim>,
}

impl P256Prover {
    /// There is one fixed column per identifier, until they are written.
    pub open spec fn holds_columns(&self) -> bool {
        self.preprocessed matches Some(columns) && columns@.len() == self.state.ids@.len()
    }

    /// A prover for the columns of a task.
    pub fn new(task: P256ColumnTask) -> (r: Result<P256Prover, P256ProofError>)
        requires
            task.wf(),
        ensures
            match first_error(task.preprocessed_parts@) {
                Some(e) => r == Err::<P256Prover, P256ProofError>(e),
                None => match first_error(task.base_parts@) {
                    Some(e) => r == Err::<P256Prover, P256ProofError>(e),
                    None => r matches Ok(prover) && exists|prepared: P256PreparedColumns|
                        #[trigger] task.prepares(prepared) && prover.starts_from(prepared),
                },
            },
    {
        match task.run() {
            Ok(prepared) => {
                let prover = P256Prover::from_prepared(prepared);
                assert(task.prepares(prepared));
                Ok(prover)
            },
            Err(e) => Err(e),
        }
    }

    /// A prover that holds prepared columns and has not drawn or claimed
    /// anything.
    pub open spec fn starts_from(&self, prepared: P256PreparedColumns) -> bool {
        &&& self.state.proof_claim == prepared.proof_claim
        &&& names(self.state.ids@) == append_groups(
            Seq::empty(),
            prepared.proof_claim.column_groups(),
        )
        &&& self.state.relations is None
        &&& !self.state.bind_z
        &&& self.state.scalar_z is None
        &&& self.state.hinted_mul_preprocessed_namespace is None
        &&& self.max_constraint_bound == prepared.max_constraint_bound
        &&& self.preprocessed == Some(prepared.preprocessed)
        &&& self.base == Some(prepared.base)
        &&& self.interaction_claim is None
    }

    /// A prover for prepared columns.
    pub fn from_prepared(prepared: P256PreparedColumns) -> (r: P256Prover)
        ensures
            r.starts_from(prepared),
    {
        P256Prover {
            state: ModuleState::new(prepared.proof_claim),
            max_constraint_bound: prepared.max_constraint_bound,
            preprocessed: Some(prepared.preprocessed),
            base: Some(prepared.base),
            interaction_claim: None,
        }
    }

    /// The prover binds the message scalar to another module.
    pub fn with_z_binding(self) -> (r: P256Prover)
        ensures
            r == (P256Prover { state: ModuleState { bind_z: true, ..self.state }, ..self }),
    {
        P256Prover { state: self.state.with_z_binding(), ..self }
    }

    /// The module names its schedule columns in a namespace. The renamed list is
    /// given along.
    pub fn with_preprocessed_namespace(
        self,
        namespace: String,
        renamed: Vec<PreProcessedColumnId>,
    ) -> (r: P256Prover)
        ensures
            r == (P256Prover {
                state: ModuleState {
                    ids: renamed,
                    hinted_mul_preprocessed_namespace: Some(namespace),
                    ..self.state
                },
                ..self
            }),
    {
        P256Prover { state: self.state.with_preprocessed_namespace(namespace, renamed), ..self }
    }

    /// The parameters that the proof is made with.
    pub fn pcs_config(&self) -> (r: PcsConfig)
        ensures
            r == profile_config(),
    {
        p256_stark_monolithic_profile_config(self.max_constraint_bound)
    }

    /// The claim of the proof.
    pub fn proof_claim(&self) -> (r: &P256CurrentAirProofClaim)
        ensures
            *r == self.state.proof_claim,
    {
        &self.state.proof_claim
    }

    /// The interaction claim, once the interaction phase has run.
    pub fn interaction_claim(&self) -> (r: &P256CurrentAirInteractionClaim)
        requires
            self.interaction_claim is Some,
        ensures
            *r == self.interaction_claim->0,
    {
        match &self.interaction_claim {
            Some(claim) => claim,
            None => {
                assert(false);
                vstd::pervasive::unreached()
            },
        }
    }

    /// The constraint degree that the domain is sized from.
    pub fn max_constraint_log_degree_bound(&self) -> (r: u32)
        ensures
            r == self.max_constraint_bound,
    {
        self.max_constraint_bound
    }

    /// The logarithm of the largest size, which the domain is not sized from.
    pub fn max_log_size(&self) -> (r: u32)
        ensures
            r == self.max_constraint_bound,
    {
        self.max_constraint_bound
    }

    /// Lifting needs the polynomial coefficients.
    pub fn store_polynomial_coefficients(&self) -> (r: bool)
        ensures
            r,
    {
        true
    }

    /// Hands out the fixed columns under the selected names, in their order. They
    /// can be handed out once.
    pub fn write_selected_preprocessed(&mut self, selected_ids: &Vec<PreProcessedColumnId>) -> (r:
        Vec<ColumnEval>)
        requires
            old(self).holds_columns(),
            forall|i: int|
                0 <= i < selected_ids@.len() ==> names(old(self).state.ids@).contains(
                    (#[trigger] selected_ids@[i]).id@,
                ),
        ensures
            r@.len() == selected_ids@.len(),
            forall|i: int|
                0 <= i < selected_ids@.len() ==> cells(#[trigger] r@[i]) == cells(
                    old(self).preprocessed->0@[first_position(
                        names(old(self).state.ids@),
                        selected_ids@[i].id@,
                    )],
                ),
            *final(self) == (P256Prover { preprocessed: None, ..*old(self) }),
    {
        let columns: Vec<ColumnEval> = match self.preprocessed.take() {
            Some(columns) => columns,
            None => {
                assert(false);
                vstd::pervasive::unreached()
            },
        };
        select_preprocessed_columns(&self.state.ids, &columns, selected_ids)
    }

    /// Hands out all fixed columns, in the order of their identifiers. They can be
    /// handed out once.
    pub fn write_preprocessed(&mut self) -> (r: Vec<ColumnEval>)
        requires
            old(self).preprocessed is Some,
        ensures
            r == old(self).preprocessed->0,
            *final(self) == (P256Prover { preprocessed: None, ..*old(self) }),
    {
        match self.preprocessed.take() {
            Some(columns) => columns,
            None => {
                assert(false);
                vstd::pervasive::unreached()
            },
        }
    }

    /// Hands out the base columns; the rest of the base trace stays for the
    /// interaction phase.
    pub fn write_trace(&mut self) -> (r: Vec<ColumnEval>)
        requires
            old(self).base is Some,
        ensures
            r == old(self).base->0.columns,
            final(self).base matches Some(base) && base.columns@.len() == 0 && base == (
            P256CurrentAirBaseTrace { columns: base.columns, ..old(self).base->0 }),
            *final(self) == (P256Prover { base: final(self).base, ..*old(self) }),
    {
        match self.base.take() {
            Some(base) => {
                let columns: Vec<ColumnEval> = base.columns;
                self.base = Some(P256CurrentAirBaseTrace { columns: Vec::new(), ..base });
                columns
            },
            None => {
                assert(false);
                vstd::pervasive::unreached()
            },
        }
    }

    /// Keeps the interaction claim of the generated interaction trace.
    pub fn write_interaction(
        &mut self,
        trace: (Vec<ColumnEval>, P256CurrentAirInteractionClaim),
    ) -> (r: Vec<ColumnEval>)
        ensures
            r == trace.0,
            *final(self) == (P256Prover { interaction_claim: Some(trace.1), ..*old(self) }),
    {
        self.interaction_claim = Some(trace.1);
        trace.0
    }

    /// The balance of the prover's claim for its own statements, as one entry.
    /// There is none where a statement meets a pole.
    pub fn claimed_sums(&self) -> (r: Option<Vec<SecureField>>)
        requires
            self.interaction_claim matches Some(claim) && claim.wf(),
            self.state.can_balance(),
        ensures
            r is Some <==> self.state.meets_no_pole(),
            r matches Some(sums) ==> sums@ == seq![
                self.state.module_balance(self.interaction_claim->0),
            ],
    {
        self.state.sums_of(self.interaction_claim())
    }

    /// Opens the transcript once the fixed columns and the trace are committed,
    /// and draws the relations: the transcript is the one that the verifier
    /// replays.
    pub fn open_transcript(
        &mut self,
        preprocessed_root: &[u8; 32],
        trace_root: &[u8; 32],
        gamma_max_values: usize,
    ) -> (r: Transcript)
        ensures
            r.digest@ == trace_digest(
                preprocessed_root@,
                old(self).state.proof_claim,
                trace_root@,
            ),
            final(self).state.relations == Some(relations_at(r.digest@, 0, gamma_max_values)),
            final(self).state.scalar_z == (if old(self).state.bind_z {
                Some(drawn(r.digest@, RELATION_BLOCKS as int))
            } else {
                old(self).state.scalar_z
            }),
            final(self).state.proof_claim == old(self).state.proof_claim,
            final(self).state.ids == old(self).state.ids,
            final(self).state.bind_z == old(self).state.bind_z,
            final(self).state.hinted_mul_preprocessed_namespace == old(
                self,
            ).state.hinted_mul_preprocessed_namespace,
            *final(self) == (P256Prover { state: final(self).state, ..*old(self) }),
    {
        let mut channel = Transcript::new();
        channel.mix_root(preprocessed_root);
        self.state.mix_public(&mut channel);
        channel.mix_root(trace_root);
        self.state.draw_relations(&mut channel, gamma_max_values);
        proof {
            lemma_relations_at(self.state.relations->0, channel.digest@, 0, gamma_max_values);
        }
        channel
    }

    /// Closes the transcript once the interaction columns are committed: the
    /// proof system goes on from there.
    pub fn close_transcript(&self, channel: &mut Transcript, interaction_root: &[u8; 32])
        requires
            self.interaction_claim is Some,
        ensures
            final(channel).digest@ == blake2s_mix_root(
                absorb_messages(
                    old(channel).digest@,
                    self.interaction_claim->0.transcript_messages(),
                ),
                interaction_root@,
            ),
            final(channel).blocks == 0,
    {
        self.mix_claimed_sums(channel);
        channel.mix_root(interaction_root);
    }

    /// Absorbs the interaction claim.
    pub fn mix_claimed_sums(&self, channel: &mut Transcript)
        requires
            self.interaction_claim is Some,
        ensures
            final(channel).digest@ == absorb_messages(
                old(channel).digest@,
                self.interaction_claim->0.transcript_messages(),
            ),
            final(channel).blocks == 0,
    {
        self.interaction_claim().mix_into(channel);
    }
}

/// The verifier's side.
#[derive(Clone, Debug)]
pub struct P256Verifier {
    pub state: ModuleState,
    pub interaction_claim: P256CurrentAirInteractionClaim,
}

impl P256Verifier {
    /// A verifier for the two claims of a proof.
    pub fn new(
        proof_claim: P256CurrentAirProofClaim,
        interaction_claim: P256CurrentAirInteractionClaim,
    ) -> (r: P256Verifier)
        ensures
            r.state.proof_claim == proof_claim,
            names(r.state.ids@) == append_groups(Seq::empty(), proof_claim.column_groups()),
            r.state.relations is None,
            !r.state.bind_z,
            r.state.scalar_z is None,
            r.state.hinted_mul_preprocessed_namespace is None,
            r.interaction_claim == interaction_claim,
    {
        P256Verifier { state: ModuleState::new(proof_claim), interaction_claim }
    }

    /// The verifier binds the message scalar to another module.
    pub fn with_z_binding(self) -> (r: P256Verifier)
        ensures
            r == (P256Verifier { state: ModuleState { bind_z: true, ..self.state }, ..self }),
    {
        P256Verifier { state: self.state.with_z_binding(), ..self }
    }

    /// The module names its schedule columns in a namespace. The renamed list is
    /// given along.
    pub fn with_preprocessed_namespace(
        self,
        namespace: String,
        renamed: Vec<PreProcessedColumnId>,
    ) -> (r: P256Verifier)
        ensures
            r == (P256Verifier {
                state: ModuleState {
                    ids: renamed,
                    hinted_mul_preprocessed_namespace: Some(namespace),
                    ..self.state
                },
                ..self
            }),
    {
        P256Verifier { state: self.state.with_preprocessed_namespace(namespace, renamed), ..self }
    }

    /// The parameters that the proof must have been made with.
    pub fn expected_pcs_config(&self, components: &P256CurrentAirComponents<ComponentShape>) -> (r:
        PcsConfig)
        ensures
            r == profile_config(),
    {
        p256_stark_monolithic_profile_config(
            self.state.proof_claim.max_constraint_log_degree_bound(components),
        )
    }

    /// The balance of the proof's claim for its own statements, as one entry.
    /// There is none where a statement meets a pole.
    pub fn claimed_sums(&self) -> (r: Option<Vec<SecureField>>)
        requires
            self.interaction_claim.wf(),
            self.state.can_balance(),
        ensures
            r is Some <==> self.state.meets_no_pole(),
            r matches Some(sums) ==> sums@ == seq![
                self.state.module_balance(self.interaction_claim),
            ],
    {
        self.state.sums_of(&self.interaction_claim)
    }

    /// Absorbs the interaction claim.
    pub fn mix_claimed_sums(&self, channel: &mut Transcript)
        ensures
            final(channel).digest@ == absorb_messages(
                old(channel).digest@,
                self.interaction_claim.transcript_messages(),
            ),
            final(channel).blocks == 0,
    {
        self.interaction_claim.mix_into(channel);
    }
}

/// What a proof's columns are prepared from: its claim, the shapes of its
/// components, and the generated parts.
pub struct P256ColumnTask {
    pub proof_claim: P256CurrentAirProofClaim,
    pub components: P256CurrentAirComponents<ComponentShape>,
    pub preprocessed_parts: Vec<ColumnsOutcome>,
    pub base_parts: Vec<ColumnsOutcome>,
    pub uses: TableUses,
}

impl P256ColumnTask {
    pub fn new(
        proof_claim: P256CurrentAirProofClaim,
        components: P256CurrentAirComponents<ComponentShape>,
        preprocessed_parts: Vec<ColumnsOutcome>,
        base_parts: Vec<ColumnsOutcome>,
        uses: TableUses,
    ) -> (r: P256ColumnTask)
        ensures
            r == (P256ColumnTask {
                proof_claim,
                components,
                preprocessed_parts,
                base_parts,
                uses,
            }),
    {
        P256ColumnTask { proof_claim, components, preprocessed_parts, base_parts, uses }
    }

    /// The parts fit the claim and the tables.
    pub open spec fn wf(&self) -> bool {
        &&& self.preprocessed_parts@.len() == PREPROCESSED_PARTS
        &&& first_error(self.preprocessed_parts@) is None ==> matching_parts(
            self.proof_claim.column_groups(),
            artifacts(self.preprocessed_parts@),
        )
        &&& 1 <= self.proof_claim.prepared_point_range7.log_size
        &&& self.proof_claim.prepared_point_range7.wf()
        &&& self.base_parts@.len() == BASE_PARTS
        &&& self.uses.wf()
    }

    /// Prepares the fixed columns and the base trace. The error is that of the
    /// first part that failed, the fixed columns first.
    pub fn run(self) -> (r: Result<P256PreparedColumns, P256ProofError>)
        requires
            self.wf(),
        ensures
            match first_error(self.preprocessed_parts@) {
                Some(e) => r == Err::<P256PreparedColumns, P256ProofError>(e),
                None => match first_error(self.base_parts@) {
                    Some(e) => r == Err::<P256PreparedColumns, P256ProofError>(e),
                    None => r matches Ok(prepared) && self.prepares(prepared),
                },
            },
    {
        let ids: Vec<PreProcessedColumnId> = self.proof_claim.preprocessed_column_ids();
        let max_constraint_bound: u32 = self.proof_claim.max_constraint_log_degree_bound(
            &self.components,
        );
        let ghost list = append_groups(Seq::empty(), self.proof_claim.column_groups());
        proof {
            assert forall|i: int| 0 <= i < ids@.len() implies list.contains(
                (#[trigger] ids@[i]).id@,
            ) by {
                assert(names(ids@)[i] == ids@[i].id@);
            }
        }
        let preprocessed: Vec<ColumnEval> = match gen_current_air_preprocessed_trace(
            &self.proof_claim,
            self.preprocessed_parts,
            &ids,
        ) {
            Ok(columns) => columns,
            Err(e) => {
                return Err(e);
            },
        };
        let base = match gen_current_air_base_trace(self.base_parts, self.uses) {
            Ok(base) => base,
            Err(e) => {
                return Err(e);
            },
        };
        let prepared = P256PreparedColumns {
            proof_claim: self.proof_claim,
            max_constraint_bound,
            preprocessed,
            base,
        };
        proof {
            let range7 = choose|range7: ColumnEval|
                #[trigger] range7.stores(
                    self.proof_claim.prepared_point_range7.log_size as nat,
                    range_values(self.proof_claim.prepared_point_range7.log_size as nat),
                ) && {
                    let groups = named_groups(
                        self.proof_claim.column_groups(),
                        part_cells(artifacts(self.preprocessed_parts@)),
                        cells(range7),
                    );
                    &&& preprocessed@.len() == ids@.len()
                    &&& forall|i: int|
                        0 <= i < preprocessed@.len() ==> cells(#[trigger] preprocessed@[i])
                            == appended_columns(groups)[first_position(list, ids@[i].id@)]
                };
            let groups = named_groups(
                self.proof_claim.column_groups(),
                part_cells(artifacts(self.preprocessed_parts@)),
                cells(range7),
            );
            lemma_groups_match(groups, self.proof_claim.column_groups());
            assert forall|i: int| 0 <= i < ids@.len() implies all_cells(preprocessed@)[i]
                == appended_columns(groups)[i] by {
                assert(names(ids@)[i] == ids@[i].id@);
                lemma_first_position(list, ids@[i].id@);
                let p = first_position(list, ids@[i].id@);
                assert(list[i] == ids@[i].id@);
                assert(list[p] == list[i]);
                if p < i {
                    assert(list[p] != list[i]);
                }
                assert(p == i);
                assert(cells(preprocessed@[i]) == appended_columns(groups)[p]);
            }
            assert(all_cells(preprocessed@) =~= appended_columns(groups));
            assert(self.prepares(prepared));
        }
        Ok(prepared)
    }

    /// The prepared columns are those of the parts.
    pub open spec fn prepares(&self, prepared: P256PreparedColumns) -> bool {
        &&& prepared.proof_claim == self.proof_claim
        &&& prepared.max_constraint_bound == largest_bound(self.components.spec_components())
        &&& exists|range7: ColumnEval|
            #[trigger] range7.stores(
                self.proof_claim.prepared_point_range7.log_size as nat,
                range_values(self.proof_claim.prepared_point_range7.log_size as nat),
            ) && all_cells(prepared.preprocessed@) == appended_columns(
                named_groups(
                    self.proof_claim.column_groups(),
                    part_cells(artifacts(self.preprocessed_parts@)),
                    cells(range7),
                ),
            )
        &&& prepared.base.uses == self.uses
        &&& prepared.base.parts@ == artifacts(self.base_parts@)
        &&& prepared.base.counts_uses()
        &&& all_cells(prepared.base.columns@) == concatenated(
            base_groups(
                part_cells(artifacts(self.base_parts@)),
                prepared.base.table_cells(),
            ),
        )
    }
}

/// As many columns stay as names.
proof fn lemma_groups_match(groups: Seq<NamedColumns>, name_groups: Seq<Seq<Seq<char>>>)
    requires
        groups.len() == name_groups.len(),
        forall|i: int|
            0 <= i < groups.len() ==> (#[trigger] groups[i]).0 == name_groups[i] && groups[i].0.len()
                == groups[i].1.len(),
    ensures
        appended_columns(groups).len() == append_groups(Seq::empty(), name_groups).len(),
{
    lemma_appended_lengths(groups);
    lemma_appended_names(groups);
    assert(groups.map_values(|g: NamedColumns| g.0) =~= name_groups);
}

proof fn lemma_appended_lengths(groups: Seq<NamedColumns>)
    requires
        forall|i: int|
            0 <= i < groups.len() ==> (#[trigger] groups[i]).0.len() == groups[i].1.len(),
    ensures
        appended_columns(groups).len() == appended_names(groups).len(),
    decreases groups.len(),
{
    if groups.len() > 0 {
        let front = groups.drop_last();
        assert forall|i: int| 0 <= i < front.len() implies (#[trigger] front[i]).0.len()
            == front[i].1.len() by {
            assert(front[i] == groups[i]);
        }
        lemma_appended_lengths(front);
        assert(groups[groups.len() - 1].0.len() == groups[groups.len() - 1].1.len());
        law_first_column_stays(
            appended_names(front),
            appended_columns(front),
            groups.last().0,
            groups.last().1,
        );
    }
}

/// What the proof system hands back: its commitments.
#[derive(Clone, Copy, Debug)]
pub struct StarkCommitments {
    pub preprocessed_root: [u8; 32],
    pub trace_root: [u8; 32],
    pub interaction_root: [u8; 32],
}

/// The proof holds the claims, the pinned parameters and the commitments.
pub open spec fn packs(
    proof: P256CurrentAirProof,
    claim: P256CurrentAirProofClaim,
    interaction_claim: P256CurrentAirInteractionClaim,
    commitments: StarkCommitments,
) -> bool {
    &&& proof.claim == claim
    &&& proof.interaction_claim == interaction_claim
    &&& proof.config == profile_config()
    &&& proof.preprocessed_root == commitments.preprocessed_root
    &&& proof.trace_root == commitments.trace_root
    &&& proof.interaction_root == commitments.interaction_root
}

/// Packs a proof made through the shared orchestrator.
pub fn prove_current_air(prover: P256Prover, stark: Result<StarkCommitments, String>) -> (r: Result<
    P256CurrentAirProof,
    P256ProofError,
>)
    requires
        prover.interaction_claim is Some,
    ensures
        match stark {
            Err(message) => r == Err::<P256CurrentAirProof, P256ProofError>(
                P256ProofError::ProofLayer(message),
            ),
            Ok(commitments) => r matches Ok(proof) && packs(
                proof,
                prover.state.proof_claim,
                prover.interaction_claim->0,
                commitments,
            ),
        },
{
    let config = prover.pcs_config();
    let interaction_claim = *prover.interaction_claim();
    match stark {
        Err(message) => Err(P256ProofError::ProofLayer(message)),
        Ok(commitments) => Ok(
            P256CurrentAirProof {
                claim: prover.state.proof_claim,
                interaction_claim,
                config,
                preprocessed_root: commitments.preprocessed_root,
                trace_root: commitments.trace_root,
                interaction_root: commitments.interaction_root,
            },
        ),
    }
}

/// The outcome of proving, for a claim and its commitments: the balance comes
/// before the answer of the proof system.
pub open spec fn proved(
    r: Option<Result<P256CurrentAirProof, P256ProofError>>,
    claim: P256CurrentAirProofClaim,
    interaction_claim: P256CurrentAirInteractionClaim,
    gamma_max_values: usize,
    commitments: StarkCommitments,
    stark: Result<(), String>,
) -> bool {
    let relations = relations_at(
        trace_digest(commitments.preprocessed_root@, claim, commitments.trace_root@),
        0,
        gamma_max_values,
    );
    let stated = claim.public_inputs.instances@;
    if !providable(stated, relations) {
        r is None
    } else if stated_balance(interaction_claim, stated, relations) != sf_zero() {
        r == Some(
            Err::<P256CurrentAirProof, P256ProofError>(
                P256ProofError::RelationImbalance { relation: "LookupSum" },
            ),
        )
    } else {
        match stark {
            Err(message) => r == Some(
                Err::<P256CurrentAirProof, P256ProofError>(P256ProofError::ProofLayer(message)),
            ),
            Ok(_) => r matches Some(Ok(proof)) && packs(
                proof,
                claim,
                interaction_claim,
                commitments,
            ),
        }
    }
}

impl P256ProofDraft {
    /// Packs a proof of the draft before the proof system is asked: arranges its
    /// claim, draws the relations over the commitments, checks the balance of
    /// the claimed sums for the draft's statements, and gives the transcript from
    /// which the proof system goes on. There is none where a statement meets a
    /// pole.
    pub fn seal_monolithic(
        &self,
        components: ComponentClaims,
        interaction_claim: P256CurrentAirInteractionClaim,
        max_constraint_log_degree_bound: u32,
        gamma_max_values: usize,
        commitments: &StarkCommitments,
    ) -> (r: Option<Result<(P256CurrentAirProof, Transcript), P256ProofError>>)
        requires
            interaction_claim.wf(),
            reduced_statements(self.claim.public_inputs.instances@),
        ensures
            exists|claim: P256CurrentAirProofClaim|
                #[trigger] claim.arranges(self.claim, components) && {
                    let relations = relations_at(
                        trace_digest(
                            commitments.preprocessed_root@,
                            claim,
                            commitments.trace_root@,
                        ),
                        0,
                        gamma_max_values,
                    );
                    let stated = self.claim.public_inputs.instances@;
                    if !providable(stated, relations) {
                        r is None
                    } else if stated_balance(interaction_claim, stated, relations) != sf_zero() {
                        r == Some(
                            Err::<(P256CurrentAirProof, Transcript), P256ProofError>(
                                P256ProofError::RelationImbalance { relation: "LookupSum" },
                            ),
                        )
                    } else {
                        r matches Some(Ok(sealed)) && packs(
                            sealed.0,
                            claim,
                            interaction_claim,
                            *commitments,
                        ) && sealed.1.digest@ == final_digest(sealed.0) && sealed.1.blocks == 0
                    }
                },
    {
        let claim = P256CurrentAirProofClaim::from_claim(&self.claim, components);
        assert(claim.arranges(self.claim, components));
        let config = p256_stark_monolithic_profile_config(max_constraint_log_degree_bound);
        let (mut channel, relations) = open_relations(
            &claim,
            &commitments.preprocessed_root,
            &commitments.trace_root,
            gamma_max_values,
        );
        match interaction_claim.verify_balanced(&claim.public_inputs.instances, &relations) {
            None => None,
            Some(Err(e)) => Some(Err(e)),
            Some(Ok(())) => {
                let sealed = P256CurrentAirProof {
                    claim,
                    interaction_claim,
                    config,
                    preprocessed_root: commitments.preprocessed_root,
                    trace_root: commitments.trace_root,
                    interaction_root: commitments.interaction_root,
                };
                replay_interaction(&sealed, &mut channel);
                Some(Ok((sealed, channel)))
            },
        }
    }

    /// Packs a proof of the draft, made in one piece: seals it, and takes the
    /// answer of the proof system.
    pub fn prove_current_air_monolithic(
        &self,
        components: ComponentClaims,
        interaction_claim: P256CurrentAirInteractionClaim,
        max_constraint_log_degree_bound: u32,
        gamma_max_values: usize,
        commitments: &StarkCommitments,
        stark: Result<(), String>,
    ) -> (r: Option<Result<P256CurrentAirProof, P256ProofError>>)
        requires
            interaction_claim.wf(),
            reduced_statements(self.claim.public_inputs.instances@),
        ensures
            exists|claim: P256CurrentAirProofClaim|
                #[trigger] claim.arranges(self.claim, components) && proved(
                    r,
                    claim,
                    interaction_claim,
                    gamma_max_values,
                    *commitments,
                    stark,
                ),
    {
        match self.seal_monolithic(
            components,
            interaction_claim,
            max_constraint_log_degree_bound,
            gamma_max_values,
            commitments,
        ) {
            None => None,
            Some(Err(e)) => Some(Err(e)),
            Some(Ok((sealed, _channel))) => match stark {
                Err(message) => Some(Err(P256ProofError::ProofLayer(message))),
                Ok(()) => Some(Ok(sealed)),
            },
        }
    }
}

/// Law: what the prover packs, the verifier lets through. A proof that was
/// proved for canonical statements passes every gate for them, and the verifier
/// answers what the proof system answers.
pub proof fn law_packed_proofs_pass_the_gates(
    proof: P256CurrentAirProof,
    claim: P256CurrentAirProofClaim,
    interaction_claim: P256CurrentAirInteractionClaim,
    gamma_max_values: usize,
    commitments: StarkCommitments,
    stark: Result<(), String>,
)
    requires
        proved(
            Some(Ok(proof)),
            claim,
            interaction_claim,
            gamma_max_values,
            commitments,
            stark,
        ),
        forall|i: int|
            0 <= i < claim.public_inputs.instances@.len() ==> (
            #[trigger] claim.public_inputs.instances@[i]).spec_non_canonical_field() is None,
    ensures
        statement_failure(
            proof.claim.public_inputs.instances@,
            claim.public_inputs.instances@,
        ) is None,
        proof.config == profile_config(),
        own_providable(proof, gamma_max_values),
        own_balance(proof, gamma_max_values) == sf_zero(),
        !root_failure(proof.preprocessed_root, Some(commitments.preprocessed_root)),
        stark is Ok,
{
    law_statement_gate(
        proof.claim.public_inputs.instances@,
        claim.public_inputs.instances@,
    );
}

/// Law: the prover's transcript is the one that the verifier replays. Over the
/// commitments of a packed proof, the transcript from which the prover draws its
/// relations, and the one from which its proof system goes on, are those of the
/// proof.
pub proof fn law_prover_transcript_is_replayed(
    proof: P256CurrentAirProof,
    claim: P256CurrentAirProofClaim,
    interaction_claim: P256CurrentAirInteractionClaim,
    commitments: StarkCommitments,
)
    requires
        packs(proof, claim, interaction_claim, commitments),
    ensures
        ({
            let opened = trace_digest(
                commitments.preprocessed_root@,
                claim,
                commitments.trace_root@,
            );
            &&& relations_digest(proof) == opened
            &&& final_digest(proof) == blake2s_mix_root(
                absorb_messages(opened, interaction_claim.transcript_messages()),
                commitments.interaction_root@,
            )
        }),
{
}

/// Law: the balance that the orchestrator asks of an unbound verifier is the
/// one that the monolithic verifier computes.
pub proof fn law_module_balance_is_the_proof_balance(
    proof: P256CurrentAirProof,
    state: ModuleState,
    gamma_max_values: usize,
)
    requires
        state.proof_claim == proof.claim,
        !state.bind_z,
        state.relations == Some(relations_at(relations_digest(proof), 0, gamma_max_values)),
    ensures
        state.meets_no_pole() <==> own_providable(proof, gamma_max_values),
        state.module_balance(proof.interaction_claim) == own_balance(proof, gamma_max_values),
{
}

/// Law: the prover and the verifier draw the same relations from the same place
/// of the same transcript, whether or not they bind the message scalar.
pub proof fn law_both_sides_draw_alike(
    a: P256CurrentAirRelations,
    b: P256CurrentAirRelations,
    digest: Seq<u8>,
    block: int,
    gamma_max_values: usize,
)
    requires
        drawn_at(a, digest, block, gamma_max_values),
        drawn_at(b, digest, block, gamma_max_values),
    ensures
        a == b,
{
    lemma_same_instances(a, b);
}

} // verus!
