//! Rendering an ordered list of option entries into a selection group.
//!
//! Each settable configuration field is presented as a single-selection
//! group: a fixed, ordered list of labelled values, optionally followed by a
//! sentinel "Custom..." slot for entering a value not in the list.  The
//! renderer computes which entry (if any) matches the current configuration
//! value; the first match wins.  When no entry matches, the selected index is
//! one past the last entry — which, when the sentinel slot is shown, is
//! exactly the sentinel, signalling that a non-listed value is active.

use vstd::prelude::*;

use crate::config::{
    lemma_set_field_frame, spec_field_value, spec_set_field, value_fits_field, Config, Field,
    FieldValue,
};

verus! {

/// One selectable entry of an option group: a display label paired with the
/// strongly typed value it stands for.
#[derive(Debug)]
pub struct OptionEntry {
    pub label: String,
    pub value: FieldValue,
}

/// An immutable rendering of one option group: the labels in their original
/// order (with the sentinel label appended when custom values are allowed)
/// and the index marked as selected.  It describes widgets only; producing
/// it performs no mutation.
#[derive(Debug)]
pub struct OptionGroup {
    /// Labels of the entries, in the order given, followed by the sentinel
    /// label when `has_custom` is set.
    pub labels: Vec<String>,
    /// Index of the selected entry; `labels.len()` when `has_custom` is
    /// false and nothing matched, i.e. nothing is visibly selected.
    pub selected: usize,
    /// Whether the last label is the sentinel "custom value" slot.
    pub has_custom: bool,
}

/// The label shown on the sentinel slot.
pub open spec fn custom_label() -> Seq<char> {
    "Custom..."@
}

/// `selected` is the index of the first entry of `entries` whose value is
/// `current`, or `entries.len()` when no entry matches.
pub open spec fn selects_first_match(
    entries: Seq<OptionEntry>,
    current: FieldValue,
    selected: int,
) -> bool {
    &&& 0 <= selected <= entries.len()
    &&& selected < entries.len() ==> entries[selected].value == current
    &&& forall|j: int| 0 <= j < selected ==> entries[j].value != current
}

/// `group` is the rendering of `entries` against the current value
/// `current` with the sentinel slot iff `allow_custom`: labels in order,
/// the sentinel label appended when allowed, and the first matching entry
/// selected (or the slot one past the end when none matches).
pub open spec fn group_renders(
    entries: Seq<OptionEntry>,
    group: OptionGroup,
    current: FieldValue,
    allow_custom: bool,
) -> bool {
    &&& group.has_custom == allow_custom
    &&& group.labels@.len() == entries.len() + if allow_custom {
        1int
    } else {
        0int
    }
    &&& forall|i: int| 0 <= i < entries.len() ==> group.labels@[i]@ == entries[i].label@
    &&& allow_custom ==> group.labels@[entries.len() as int]@ == custom_label()
    &&& selects_first_match(entries, current, group.selected as int)
}

/// No two entries of the group carry the same value.  Option groups are
/// built this way; ties are not defined behaviour.
pub open spec fn distinct_values(entries: Seq<OptionEntry>) -> bool {
    forall|i: int, j: int|
        0 <= i < j < entries.len() ==> entries[i].value != entries[j].value
}

/// Render `entries` against the current configuration value into a
/// selection group, appending the sentinel "custom value" slot when
/// `allow_custom` is set.
pub fn render_group(
    entries: &Vec<OptionEntry>,
    current: FieldValue,
    allow_custom: bool,
) -> (group: OptionGroup)
    ensures
        group_renders(entries@, group, current, allow_custom),
{
    let mut selected: usize = entries.len();
    let mut i: usize = 0;
    while i < entries.len()
        invariant
            0 <= i <= entries.len(),
            selected == entries.len() || (selected < i && entries@[selected as int].value
                == current),
            forall|j: int| 0 <= j < i && j < selected ==> entries@[j].value != current,
            selected == entries.len() ==> forall|j: int|
                0 <= j < i ==> entries@[j].value != current,
        decreases entries.len() - i,
    {
        if selected == entries.len() && entries[i].value == current {
            selected = i;
        }
        i = i + 1;
    }
    let mut labels: Vec<String> = Vec::new();
    let mut k: usize = 0;
    while k < entries.len()
        invariant
            0 <= k <= entries.len(),
            labels@.len() == k,
            forall|j: int| 0 <= j < k ==> labels@[j]@ == entries@[j].label@,
        decreases entries.len() - k,
    {
        labels.push(entries[k].label.clone());
        k = k + 1;
    }
    if allow_custom {
        labels.push(String::from_str("Custom..."));
    }
    OptionGroup { labels, selected, has_custom: allow_custom }
}

/// A matching entry with a distinct value is selected at exactly its own
/// index: whenever a group renders `entries` against a current value equal
/// to `entries[i].value` and no two entries share a value, the marked index
/// is `i`.
pub proof fn lemma_selected_is_match(
    entries: Seq<OptionEntry>,
    group: OptionGroup,
    current: FieldValue,
    allow_custom: bool,
    i: int,
)
    requires
        group_renders(entries, group, current, allow_custom),
        distinct_values(entries),
        0 <= i < entries.len(),
        entries[i].value == current,
    ensures
        group.selected == i,
{
    let s = group.selected as int;
    if s < i {
        assert(entries[s].value == current);
        assert(entries[s].value != entries[i].value);
        assert(false);
    } else if s > i {
        assert(entries[i].value != current);
        assert(false);
    }
}

/// Round trip: assigning a listed entry's value to its field and
/// re-rendering the group against the field's new current value marks that
/// entry's own index again — selection is idempotent when no other
/// mutation intervenes.
pub proof fn lemma_round_trip(
    c: Config,
    field: Field,
    entries: Seq<OptionEntry>,
    i: int,
    group: OptionGroup,
    allow_custom: bool,
)
    requires
        distinct_values(entries),
        0 <= i < entries.len(),
        value_fits_field(field, entries[i].value),
        group_renders(
            entries,
            group,
            spec_field_value(spec_set_field(c, field, entries[i].value), field),
            allow_custom,
        ),
    ensures
        group.selected == i,
{
    lemma_set_field_frame(c, field, entries[i].value);
    lemma_selected_is_match(entries, group, entries[i].value, allow_custom, i);
}

} // verus!
