//! Assembling the full tray menu tree from a configuration snapshot.
//!
//! The host environment requests the menu anew on every interaction, so the
//! builder is a pure function of the configuration snapshot: it reads the
//! scalar values once and produces, in fixed order, the save-replay action,
//! a separator, the settings submenu (framerate, duration, quality and
//! container groups plus the output-path action), the about action, a
//! separator, and the quit action.  Changing the output path is dispatched
//! as an event to the main loop rather than handled inline: the platform's
//! file picker must be opened from the main execution context, not from a
//! tray callback.

use vstd::prelude::*;

use crate::actions::{ActionEvent, MenuAction};
use crate::config::{Config, Container, Field, FieldValue, Quality, value_fits_field};
use crate::options::{group_renders, render_group, OptionEntry, OptionGroup, distinct_values};

verus! {

/// One node of the menu tree handed to the host tray protocol.
#[derive(Debug)]
pub enum MenuNode {
    /// A plain activatable item.
    Action { label: String, icon: String, action: MenuAction },
    /// A visual separator.
    Separator,
    /// A submenu holding further nodes.
    Submenu { label: String, icon: String, children: Vec<MenuNode> },
    /// A single-selection option group for one configuration field.  The
    /// entry list is the one the group was rendered from, kept so that a
    /// selection callback can be mapped back to a value.
    Options {
        label: String,
        icon: String,
        field: Field,
        entries: Vec<OptionEntry>,
        group: OptionGroup,
    },
}

/// The entries pair the given labels with the given values, in order.
pub open spec fn entries_match(
    entries: Seq<OptionEntry>,
    labels: Seq<Seq<char>>,
    values: Seq<FieldValue>,
) -> bool {
    &&& entries.len() == labels.len()
    &&& entries.len() == values.len()
    &&& forall|i: int|
        0 <= i < entries.len() ==> entries[i].label@ == labels[i] && #[trigger] entries[i].value
            == values[i]
}

/// Labels of the framerate choices.
pub open spec fn framerate_labels() -> Seq<Seq<char>> {
    seq!["30"@, "60"@]
}

/// Values of the framerate choices, in frames per second.
pub open spec fn framerate_values() -> Seq<FieldValue> {
    seq![FieldValue::Count(30), FieldValue::Count(60)]
}

/// Labels of the replay-duration choices.
pub open spec fn duration_labels() -> Seq<Seq<char>> {
    seq!["30s"@, "1min"@, "2min"@, "3min"@, "5min"@]
}

/// Values of the replay-duration choices, in seconds.
pub open spec fn duration_values() -> Seq<FieldValue> {
    seq![
        FieldValue::Count(30),
        FieldValue::Count(60),
        FieldValue::Count(120),
        FieldValue::Count(180),
        FieldValue::Count(300),
    ]
}

/// Labels of the quality presets.
pub open spec fn quality_labels() -> Seq<Seq<char>> {
    seq!["Medium"@, "High"@, "Very high"@, "Ultra"@]
}

/// Values of the quality presets.
pub open spec fn quality_values() -> Seq<FieldValue> {
    seq![
        FieldValue::Quality(Quality::Medium),
        FieldValue::Quality(Quality::High),
        FieldValue::Quality(Quality::VeryHigh),
        FieldValue::Quality(Quality::Ultra),
    ]
}

/// Labels of the container formats.
pub open spec fn container_labels() -> Seq<Seq<char>> {
    seq!["MKV"@, "MP4"@, "WEBM"@, "FLV"@]
}

/// Values of the container formats.
pub open spec fn container_values() -> Seq<FieldValue> {
    seq![
        FieldValue::Container(Container::MKV),
        FieldValue::Container(Container::MP4),
        FieldValue::Container(Container::WEBM),
        FieldValue::Container(Container::FLV),
    ]
}

/// `node` is the plain action item with the given label, icon and action.
pub open spec fn is_action_node(
    node: MenuNode,
    label: Seq<char>,
    icon: Seq<char>,
    action: MenuAction,
) -> bool {
    node matches MenuNode::Action { label: l, icon: ic, action: a } && l@ == label && ic@ == icon
        && a == action
}

/// `node` is the option group for `field` with the given labels and
/// values, rendered against the current value `current`, with the sentinel
/// custom slot iff `custom`.  The entries carry distinct, well-typed
/// values, so a selection maps back to exactly one of them.
pub open spec fn is_options_node(
    node: MenuNode,
    label: Seq<char>,
    icon: Seq<char>,
    field: Field,
    labels: Seq<Seq<char>>,
    values: Seq<FieldValue>,
    custom: bool,
    current: FieldValue,
) -> bool {
    node matches MenuNode::Options { label: l, icon: ic, field: f, entries, group } && {
        &&& l@ == label
        &&& ic@ == icon
        &&& f == field
        &&& entries_match(entries@, labels, values)
        &&& distinct_values(entries@)
        &&& forall|i: int|
            0 <= i < entries@.len() ==> value_fits_field(field, #[trigger] entries@[i].value)
        &&& group_renders(entries@, group, current, custom)
    }
}

/// The settings submenu: the four option groups, then the output-path
/// action, which dispatches an event so the main loop can open the file
/// picker from its own context.
pub open spec fn is_settings_menu(children: Seq<MenuNode>, snapshot: Config) -> bool {
    &&& children.len() == 5
    &&& is_options_node(
        children[0],
        "Framerate"@,
        "speedometer"@,
        Field::Framerate,
        framerate_labels(),
        framerate_values(),
        true,
        FieldValue::Count(snapshot.framerate),
    )
    &&& is_options_node(
        children[1],
        "Duration"@,
        "clock"@,
        Field::ReplayDurationSecs,
        duration_labels(),
        duration_values(),
        true,
        FieldValue::Count(snapshot.replay_duration_secs),
    )
    &&& is_options_node(
        children[2],
        "Quality"@,
        "star-new-symbolic"@,
        Field::Quality,
        quality_labels(),
        quality_values(),
        false,
        FieldValue::Quality(snapshot.quality),
    )
    &&& is_options_node(
        children[3],
        "Container"@,
        "archive-extract"@,
        Field::Container,
        container_labels(),
        container_values(),
        false,
        FieldValue::Container(snapshot.container),
    )
    &&& is_action_node(
        children[4],
        "Path"@,
        "inode-directory"@,
        MenuAction::Dispatch { event: ActionEvent::ChangeReplayPath },
    )
}

/// The whole menu in its fixed order: save replay, separator, settings,
/// about, separator, quit.
pub open spec fn is_full_menu(menu: Seq<MenuNode>, snapshot: Config) -> bool {
    &&& menu.len() == 6
    &&& is_action_node(
        menu[0],
        "Save replay"@,
        "document-save"@,
        MenuAction::Dispatch { event: ActionEvent::SaveReplay },
    )
    &&& menu[1] is Separator
    &&& menu[2] matches MenuNode::Submenu { label, icon, children } && label@ == "Settings"@
        && icon@ == "configure"@ && is_settings_menu(children@, snapshot)
    &&& is_action_node(menu[3], "About"@, "help-about"@, MenuAction::ShowAbout)
    &&& menu[4] is Separator
    &&& is_action_node(
        menu[5],
        "Quit"@,
        "gtk-quit"@,
        MenuAction::Dispatch { event: ActionEvent::Quit },
    )
}

/// The predefined framerate choices: 30 and 60 frames per second, with the
/// custom slot offered.
pub fn framerate_entries() -> (entries: Vec<OptionEntry>)
    ensures
        entries_match(entries@, framerate_labels(), framerate_values()),
{
    let mut entries: Vec<OptionEntry> = Vec::new();
    entries.push(OptionEntry { label: String::from_str("30"), value: FieldValue::Count(30) });
    entries.push(OptionEntry { label: String::from_str("60"), value: FieldValue::Count(60) });
    entries
}

/// The predefined replay-duration choices, from 30 seconds to 5 minutes.
pub fn duration_entries() -> (entries: Vec<OptionEntry>)
    ensures
        entries_match(entries@, duration_labels(), duration_values()),
{
    let mut entries: Vec<OptionEntry> = Vec::new();
    entries.push(OptionEntry { label: String::from_str("30s"), value: FieldValue::Count(30) });
    entries.push(OptionEntry { label: String::from_str("1min"), value: FieldValue::Count(60) });
    entries.push(OptionEntry { label: String::from_str("2min"), value: FieldValue::Count(120) });
    entries.push(OptionEntry { label: String::from_str("3min"), value: FieldValue::Count(180) });
    entries.push(OptionEntry { label: String::from_str("5min"), value: FieldValue::Count(300) });
    entries
}

/// The quality presets, from medium to ultra.
pub fn quality_entries() -> (entries: Vec<OptionEntry>)
    ensures
        entries_match(entries@, quality_labels(), quality_values()),
{
    let mut entries: Vec<OptionEntry> = Vec::new();
    entries.push(
        OptionEntry {
            label: String::from_str("Medium"),
            value: FieldValue::Quality(Quality::Medium),
        },
    );
    entries.push(
        OptionEntry { label: String::from_str("High"), value: FieldValue::Quality(Quality::High) },
    );
    entries.push(
        OptionEntry {
            label: String::from_str("Very high"),
            value: FieldValue::Quality(Quality::VeryHigh),
        },
    );
    entries.push(
        OptionEntry {
            label: String::from_str("Ultra"),
            value: FieldValue::Quality(Quality::Ultra),
        },
    );
    entries
}

/// The container formats offered.
pub fn container_entries() -> (entries: Vec<OptionEntry>)
    ensures
        entries_match(entries@, container_labels(), container_values()),
{
    let mut entries: Vec<OptionEntry> = Vec::new();
    entries.push(
        OptionEntry {
            label: String::from_str("MKV"),
            value: FieldValue::Container(Container::MKV),
        },
    );
    entries.push(
        OptionEntry {
            label: String::from_str("MP4"),
            value: FieldValue::Container(Container::MP4),
        },
    );
    entries.push(
        OptionEntry {
            label: String::from_str("WEBM"),
            value: FieldValue::Container(Container::WEBM),
        },
    );
    entries.push(
        OptionEntry {
            label: String::from_str("FLV"),
            value: FieldValue::Container(Container::FLV),
        },
    );
    entries
}

/// Build one option-group node for `field` from its entry list and the
/// value the snapshot currently holds.
fn options_node(
    label: &str,
    icon: &str,
    field: Field,
    entries: Vec<OptionEntry>,
    current: FieldValue,
    allow_custom: bool,
) -> (node: MenuNode)
    requires
        distinct_values(entries@),
        forall|i: int|
            0 <= i < entries@.len() ==> value_fits_field(field, #[trigger] entries@[i].value),
    ensures
        (node matches MenuNode::Options { label: l, icon: ic, field: f, entries: es, group } && {
            &&& l@ == label@
            &&& ic@ == icon@
            &&& f == field
            &&& es@ == entries@
            &&& group_renders(entries@, group, current, allow_custom)
        }),
{
    let group = render_group(&entries, current, allow_custom);
    MenuNode::Options {
        label: String::from_str(label),
        icon: String::from_str(icon),
        field,
        entries,
        group,
    }
}

/// Build one plain action node.
fn action_node(label: &str, icon: &str, action: MenuAction) -> (node: MenuNode)
    ensures
        is_action_node(node, label@, icon@, action),
{
    MenuNode::Action { label: String::from_str(label), icon: String::from_str(icon), action }
}

/// Assemble the full menu tree from one consistent configuration snapshot.
/// Self-contained and idempotent: the same snapshot gives the same tree,
/// and nothing is retained between builds.
pub fn build_menu(snapshot: &Config) -> (menu: Vec<MenuNode>)
    ensures
        is_full_menu(menu@, *snapshot),
{
    let framerate = framerate_entries();
    let duration = duration_entries();
    let quality = quality_entries();
    let container = container_entries();

    let mut settings: Vec<MenuNode> = Vec::new();
    settings.push(
        options_node(
            "Framerate",
            "speedometer",
            Field::Framerate,
            framerate,
            FieldValue::Count(snapshot.framerate),
            true,
        ),
    );
    settings.push(
        options_node(
            "Duration",
            "clock",
            Field::ReplayDurationSecs,
            duration,
            FieldValue::Count(snapshot.replay_duration_secs),
            true,
        ),
    );
    settings.push(
        options_node(
            "Quality",
            "star-new-symbolic",
            Field::Quality,
            quality,
            FieldValue::Quality(snapshot.quality),
            false,
        ),
    );
    settings.push(
        options_node(
            "Container",
            "archive-extract",
            Field::Container,
            container,
            FieldValue::Container(snapshot.container),
            false,
        ),
    );
    settings.push(
        action_node(
            "Path",
            "inode-directory",
            MenuAction::Dispatch { event: ActionEvent::ChangeReplayPath },
        ),
    );

    let mut menu: Vec<MenuNode> = Vec::new();
    menu.push(
        action_node(
            "Save replay",
            "document-save",
            MenuAction::Dispatch { event: ActionEvent::SaveReplay },
        ),
    );
    menu.push(MenuNode::Separator);
    menu.push(
        MenuNode::Submenu {
            label: String::from_str("Settings"),
            icon: String::from_str("configure"),
            children: settings,
        },
    );
    menu.push(action_node("About", "help-about", MenuAction::ShowAbout));
    menu.push(MenuNode::Separator);
    menu.push(
        action_node("Quit", "gtk-quit", MenuAction::Dispatch { event: ActionEvent::Quit }),
    );
    menu
}

} // verus!
