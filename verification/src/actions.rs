//! Reconciling menu interactions with the configuration store and the
//! outbound event channel.
//!
//! Every interactive menu item carries a [`MenuAction`], a tagged value from
//! a small closed set, interpreted by one central handler.  The handler
//! mutates the configuration store (assign, then persist, in that order and
//! within one exclusive-access scope), queues outbound events for the main
//! loop, or reports that a free-form numeric prompt is needed.  The prompt
//! itself, the lock, the asynchronous persistence call and the channel are
//! run by the embedding application, which feeds the prompt's outcome back
//! through [`apply_custom_outcome`].

use vstd::prelude::*;

use crate::config::{
    spec_field_value, spec_set_field, value_fits_field, Config, Field, FieldValue,
    field_is_numeric,
};
use crate::options::OptionEntry;

verus! {

/// An event sent to the main loop over its single outbound channel.
#[derive(Clone, Copy, Debug, PartialEq, Eq, Structural)]
pub enum ActionEvent {
    SaveReplay,
    ChangeReplayPath,
    Quit,
}

/// What activating a menu item does.
#[derive(Clone, Copy, Debug, PartialEq, Eq, Structural)]
pub enum MenuAction {
    /// Assign a predefined value to a configuration field and persist.
    SetField { field: Field, value: FieldValue },
    /// Ask the user for a free-form numeric value for `field`; the outcome
    /// is applied through [`apply_custom_outcome`].
    PromptCustom { field: Field },
    /// Send one event to the main loop.
    Dispatch { event: ActionEvent },
    /// Show version and licence information; touches no shared state.
    ShowAbout,
}

/// How the free-form numeric prompt ended.
#[derive(Clone, Copy, Debug, PartialEq, Eq, Structural)]
pub enum CustomPromptOutcome {
    /// The user entered a number.
    Value(u64),
    /// The user cancelled the prompt.
    Cancelled,
    /// The prompt itself failed; the failure is logged by the caller and
    /// the configuration is left unchanged.
    Failed,
}

/// One observable operation on the configuration store, recorded in order.
#[derive(Clone, Copy, Debug, PartialEq, Eq, Structural)]
pub enum StoreOp {
    /// A value was assigned to the field.
    Assign(Field),
    /// The persistence call ran to completion.
    Save,
}

/// The configuration store as this crate sees it: the current record plus
/// the ordered log of assignments and completed persistence calls.  The
/// embedding application holds the real store behind a read-write lock and
/// performs the asynchronous persistence; the log lets both proofs and test
/// doubles state the ordering discipline of spec'd mutations.
pub struct ConfigStore {
    pub config: Config,
    pub ops: Vec<StoreOp>,
}

/// A menu action is well formed when any value it assigns fits its field
/// and any custom prompt it requests is for a numeric field.
pub open spec fn action_wf(action: MenuAction) -> bool {
    match action {
        MenuAction::SetField { field, value } => value_fits_field(field, value),
        MenuAction::PromptCustom { field } => field_is_numeric(field),
        MenuAction::Dispatch { event } => true,
        MenuAction::ShowAbout => true,
    }
}

/// Every assignment in the log is followed by a completed persistence call:
/// the write lock is never released between an assignment and its save.
pub open spec fn every_assign_persisted(ops: Seq<StoreOp>) -> bool {
    forall|i: int|
        0 <= i < ops.len() && ops[i] is Assign ==> exists|j: int|
            i < j < ops.len() && #[trigger] ops[j] is Save
}

impl ConfigStore {
    /// A fresh store holding `config`, with nothing logged yet.
    pub fn new(config: Config) -> (store: Self)
        ensures
            store.config == config,
            store.ops@ == Seq::<StoreOp>::empty(),
    {
        ConfigStore { config, ops: Vec::new() }
    }

    /// Assign `value` to `field` and persist, one atomic step of the
    /// reconciliation protocol: the persistence call completes before the
    /// exclusive access ends, so the log grows by exactly
    /// `[Assign(field), Save]`.
    pub fn assign_and_save(&mut self, field: Field, value: FieldValue)
        requires
            value_fits_field(field, value),
        ensures
            final(self).config == spec_set_field(old(self).config, field, value),
            final(self).ops@ == old(self).ops@ + seq![StoreOp::Assign(field), StoreOp::Save],
    {
        self.config.set_field(field, value);
        self.ops.push(StoreOp::Assign(field));
        self.ops.push(StoreOp::Save);
    }
}

/// Map a selection index back to an action: an index within the entry list
/// assigns that entry's value; the index one past the end (the sentinel
/// slot) asks for a custom value.
pub fn decide_selection(entries: &Vec<OptionEntry>, field: Field, index: usize) -> (action:
    MenuAction)
    ensures
        index < entries@.len() ==> action == (MenuAction::SetField {
            field,
            value: entries@[index as int].value,
        }),
        index >= entries@.len() ==> action == (MenuAction::PromptCustom { field }),
{
    if index < entries.len() {
        MenuAction::SetField { field, value: entries[index].value }
    } else {
        MenuAction::PromptCustom { field }
    }
}

/// The central handler: interpret one menu action against the store and the
/// queue of events not yet sent.  A `SetField` assigns and persists;
/// a `Dispatch` queues exactly one event and touches no configuration;
/// `PromptCustom` changes nothing here and returns the field the embedding
/// application must prompt for; `ShowAbout` changes nothing here.
pub fn handle_action(
    store: &mut ConfigStore,
    pending: &mut Vec<ActionEvent>,
    action: MenuAction,
) -> (prompt: Option<Field>)
    requires
        action_wf(action),
    ensures
        match action {
            MenuAction::SetField { field, value } => {
                &&& final(store).config == spec_set_field(old(store).config, field, value)
                &&& final(store).ops@ == old(store).ops@ + seq![
                    StoreOp::Assign(field),
                    StoreOp::Save,
                ]
                &&& final(pending)@ == old(pending)@
                &&& prompt is None
            },
            MenuAction::PromptCustom { field } => {
                &&& *final(store) == *old(store)
                &&& final(pending)@ == old(pending)@
                &&& prompt == Some(field)
            },
            MenuAction::Dispatch { event } => {
                &&& *final(store) == *old(store)
                &&& final(pending)@ == old(pending)@.push(event)
                &&& prompt is None
            },
            MenuAction::ShowAbout => {
                &&& *final(store) == *old(store)
                &&& final(pending)@ == old(pending)@
                &&& prompt is None
            },
        },
{
    match action {
        MenuAction::SetField { field, value } => {
            store.assign_and_save(field, value);
            None
        },
        MenuAction::PromptCustom { field } => Some(field),
        MenuAction::Dispatch { event } => {
            pending.push(event);
            None
        },
        MenuAction::ShowAbout => None,
    }
}

/// The configuration that results from a prompt outcome: a confirmed
/// number is assigned to the prompted field; cancellation and failure
/// change nothing.
pub open spec fn custom_outcome_config(
    c: Config,
    field: Field,
    outcome: CustomPromptOutcome,
) -> Config {
    match outcome {
        CustomPromptOutcome::Value(n) => spec_set_field(c, field, FieldValue::Count(n)),
        CustomPromptOutcome::Cancelled => c,
        CustomPromptOutcome::Failed => c,
    }
}

/// Apply the outcome of the free-form numeric prompt for `field`.  A value
/// is assigned and persisted; cancellation and prompt failure leave the
/// store untouched — no assignment, no persistence call.
pub fn apply_custom_outcome(store: &mut ConfigStore, field: Field, outcome: CustomPromptOutcome)
    requires
        field_is_numeric(field),
    ensures
        final(store).config == custom_outcome_config(old(store).config, field, outcome),
        match outcome {
            CustomPromptOutcome::Value(n) => {
                &&& final(store).config == spec_set_field(
                    old(store).config,
                    field,
                    FieldValue::Count(n),
                )
                &&& final(store).ops@ == old(store).ops@ + seq![
                    StoreOp::Assign(field),
                    StoreOp::Save,
                ]
            },
            CustomPromptOutcome::Cancelled => *final(store) == *old(store),
            CustomPromptOutcome::Failed => *final(store) == *old(store),
        },
{
    match outcome {
        CustomPromptOutcome::Value(n) => {
            store.assign_and_save(field, FieldValue::Count(n));
        },
        CustomPromptOutcome::Cancelled => {
        },
        CustomPromptOutcome::Failed => {
        },
    }
}

/// Run one full selection callback: map the picked index to an action and
/// interpret it.  Returns the field to prompt for when the sentinel slot
/// was picked.
pub fn handle_selection(
    store: &mut ConfigStore,
    pending: &mut Vec<ActionEvent>,
    entries: &Vec<OptionEntry>,
    field: Field,
    index: usize,
) -> (prompt: Option<Field>)
    requires
        forall|i: int|
            0 <= i < entries@.len() ==> value_fits_field(field, entries@[i].value),
        field_is_numeric(field) || index < entries@.len(),
    ensures
        index < entries@.len() ==> {
            &&& final(store).config == spec_set_field(
                old(store).config,
                field,
                entries@[index as int].value,
            )
            &&& final(store).ops@ == old(store).ops@ + seq![
                StoreOp::Assign(field),
                StoreOp::Save,
            ]
            &&& final(pending)@ == old(pending)@
            &&& prompt is None
        },
        index >= entries@.len() ==> {
            &&& *final(store) == *old(store)
            &&& final(pending)@ == old(pending)@
            &&& prompt == Some(field)
        },
{
    let action = decide_selection(entries, field, index);
    handle_action(store, pending, action)
}

/// Law of the sentinel slot: whatever the prompt's outcome, cancellation
/// or failure leaves the configuration exactly as it was, and a confirmed
/// number alters exactly the prompted field — that field then holds the
/// entered number and every other field keeps its old value.
pub proof fn lemma_custom_prompt_law(c: Config, field: Field, outcome: CustomPromptOutcome)
    requires
        field_is_numeric(field),
    ensures
        outcome is Cancelled || outcome is Failed ==> custom_outcome_config(c, field, outcome)
            == c,
        outcome matches CustomPromptOutcome::Value(n) ==> {
            &&& spec_field_value(custom_outcome_config(c, field, outcome), field)
                == FieldValue::Count(n)
            &&& forall|g: Field|
                g != field ==> spec_field_value(custom_outcome_config(c, field, outcome), g)
                    == spec_field_value(c, g)
        },
{
}

/// Persistence ordering is preserved by every step the handlers take: the
/// log either stays as it is or grows by an assignment immediately followed
/// by a completed persistence call, so in any reachable log every
/// assignment is followed by a save before exclusive access ends.
pub proof fn lemma_persistence_ordering(ops0: Seq<StoreOp>, ops1: Seq<StoreOp>, field: Field)
    requires
        every_assign_persisted(ops0),
        ops1 == ops0 || ops1 == ops0 + seq![StoreOp::Assign(field), StoreOp::Save],
    ensures
        every_assign_persisted(ops1),
{
    if ops1 != ops0 {
        assert forall|i: int|
            0 <= i < ops1.len() && ops1[i] is Assign implies exists|j: int|
            i < j < ops1.len() && #[trigger] ops1[j] is Save by {
            if i < ops0.len() {
                if ops0[i] is Assign {
                    let j = choose|j: int| i < j < ops0.len() && #[trigger] ops0[j] is Save;
                    assert(ops1[j] is Save);
                }
            } else {
                let j = ops0.len() + 1;
                assert(ops1[j as int] is Save);
            }
        }
    }
}

/// A fresh store's log satisfies the persistence-ordering discipline.
pub proof fn lemma_persistence_ordering_empty()
    ensures
        every_assign_persisted(Seq::<StoreOp>::empty()),
{
}

} // verus!
