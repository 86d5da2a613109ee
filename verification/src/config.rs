//! The configuration of the application, as far as the shell reads and
//! writes it: whether the widget is visible.

use crate::json::{
    empty_object, json_bool, json_empty_object, json_member, json_object_insert, json_u64,
    json_view, JsonModel,
};
use vstd::prelude::*;

verus! {

/// The version of the layout of the configuration.
pub const CONFIG_SCHEMA_VERSION: u32 = 1;

/// The name under which the configuration keeps the version of its layout.
pub const CONFIG_KEY_SCHEMA_VERSION: &'static str = "schemaVersion";

/// The name under which the configuration keeps whether the widget is
/// visible.
pub const CONFIG_KEY_WIDGET_VISIBLE: &'static str = "widgetVisible";

/// The members that a configuration is built on: those of the object that
/// was read; none where nothing was read or what was read is no object.
pub open spec fn config_members(config: Option<serde_json::Value>) -> Map<Seq<char>, JsonModel> {
    match config {
        Some(value) => match json_view(value) {
            JsonModel::Object(members) => members,
            _ => empty_object(),
        },
        None => empty_object(),
    }
}

/// The configuration that records the visibility of the widget: what was
/// there, with the version of the layout and the visibility set.
pub open spec fn config_with_visibility(
    config: Option<serde_json::Value>,
    visible: bool,
) -> JsonModel {
    JsonModel::Object(
        config_members(config).insert(
            CONFIG_KEY_SCHEMA_VERSION@,
            JsonModel::Integer(CONFIG_SCHEMA_VERSION as int),
        ).insert(CONFIG_KEY_WIDGET_VISIBLE@, JsonModel::Bool(visible)),
    )
}

/// The configuration that records the visibility of the widget, built on
/// the configuration that was read.
pub fn record_widget_visibility(config: Option<serde_json::Value>, visible: bool) -> (next:
    serde_json::Value)
    ensures
        json_view(next) == config_with_visibility(config, visible),
{
    let mut next_config = match config {
        Some(value) => value,
        None => json_empty_object(),
    };
    if !next_config.is_object() {
        next_config = json_empty_object();
    }
    json_object_insert(
        &mut next_config,
        CONFIG_KEY_SCHEMA_VERSION,
        json_u64(CONFIG_SCHEMA_VERSION as u64),
    );
    json_object_insert(&mut next_config, CONFIG_KEY_WIDGET_VISIBLE, json_bool(visible));
    next_config
}

/// What a configuration says of the visibility of the widget: the boolean
/// under the name, and hidden where there is none.
pub open spec fn configured_visibility(config: Option<serde_json::Value>) -> bool {
    match config {
        Some(value) => match json_view(value) {
            JsonModel::Object(members) => members.contains_key(CONFIG_KEY_WIDGET_VISIBLE@)
                && members[CONFIG_KEY_WIDGET_VISIBLE@] == JsonModel::Bool(true),
            _ => false,
        },
        None => false,
    }
}

/// Whether the widget is visible at startup, by the configuration that was
/// read.
pub fn initial_widget_visible(config: Option<&serde_json::Value>) -> (visible: bool)
    ensures
        visible == configured_visibility(
            match config {
                Some(value) => Some(*value),
                None => None,
            },
        ),
{
    match config {
        Some(value) => match json_member(value, CONFIG_KEY_WIDGET_VISIBLE) {
            Some(member) => match member.as_bool() {
                Some(flag) => flag,
                None => false,
            },
            None => false,
        },
        None => false,
    }
}

/// A configuration that was written for a visibility says that visibility.
pub proof fn lemma_visibility_is_read_back(
    config: Option<serde_json::Value>,
    visible: bool,
    written: serde_json::Value,
)
    requires
        json_view(written) == config_with_visibility(config, visible),
    ensures
        configured_visibility(Some(written)) == visible,
{
}

/// A configuration that was written for a visibility carries the version
/// of the layout.
pub proof fn lemma_recorded_configuration_has_version(
    config: Option<serde_json::Value>,
    visible: bool,
)
    ensures
        config_with_visibility(config, visible) matches JsonModel::Object(members)
            && members.contains_key(CONFIG_KEY_SCHEMA_VERSION@)
            && members[CONFIG_KEY_SCHEMA_VERSION@] == JsonModel::Integer(1)
            && members.contains_key(CONFIG_KEY_WIDGET_VISIBLE@)
            && members[CONFIG_KEY_WIDGET_VISIBLE@] == JsonModel::Bool(visible),
{
    reveal_strlit("schemaVersion");
    reveal_strlit("widgetVisible");
    assert("schemaVersion"@[0] == 's');
    assert("widgetVisible"@[0] == 'w');
}

/// Recording the visibility keeps every other member of the configuration,
/// but for the version of the layout.
pub proof fn lemma_visibility_keeps_other_members(
    config: Option<serde_json::Value>,
    visible: bool,
    name: Seq<char>,
)
    requires
        name != CONFIG_KEY_SCHEMA_VERSION@,
        name != CONFIG_KEY_WIDGET_VISIBLE@,
    ensures
        config_with_visibility(config, visible) matches JsonModel::Object(members)
            && members.contains_key(name) == config_members(config).contains_key(name) && (
        members.contains_key(name) ==> members[name] == config_members(config)[name]),
{
}

} // verus!
