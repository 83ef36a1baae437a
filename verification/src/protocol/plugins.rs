use serde_json::Value;
use vstd::prelude::*;
use crate::json::{as_array, member, spec_json, spec_jsons, Json};
use crate::protocol::language::{
    spec_strings_member, spec_view_member, strings_member, view_member,
};
use crate::protocol::view_id::ViewId;
use crate::protocol::wire::{
    bool_member, spec_bool_member, spec_string_member, spec_texts, string_member,
};

verus! {

/// A plugin of the peer and whether it runs.
#[derive(Clone, Debug, PartialEq)]
pub struct Plugin {
    pub name: String,
    pub running: bool,
}

impl View for Plugin {
    type V = (Seq<char>, bool);

    /// The name of the plugin and whether it runs.
    open spec fn view(&self) -> (Seq<char>, bool) {
        (self.name@, self.running)
    }
}

/// The values of a sequence of plugins, in order.
pub open spec fn spec_plugins(plugins: Seq<Plugin>) -> Seq<(Seq<char>, bool)> {
    plugins.map_values(|p: Plugin| p@)
}

/// The plugins that a view can use.
#[derive(Clone, Debug, PartialEq)]
pub struct AvailablePlugins {
    pub view_id: ViewId,
    pub plugins: Vec<Plugin>,
}

impl View for AvailablePlugins {
    type V = (ViewId, Seq<(Seq<char>, bool)>);

    /// The view and its plugins.
    open spec fn view(&self) -> (ViewId, Seq<(Seq<char>, bool)>) {
        (self.view_id, spec_plugins(self.plugins@))
    }
}

/// A plugin started for a view.
#[derive(Clone, Debug, PartialEq)]
pub struct PluginStarted {
    pub view_id: ViewId,
    pub plugin: String,
}

impl View for PluginStarted {
    type V = (ViewId, Seq<char>);

    /// The view and the name of the plugin.
    open spec fn view(&self) -> (ViewId, Seq<char>) {
        (self.view_id, self.plugin@)
    }
}

/// A plugin stopped for a view.
#[derive(Clone, Debug, PartialEq)]
pub struct PluginStoped {
    pub view_id: ViewId,
    pub plugin: String,
}

impl View for PluginStoped {
    type V = (ViewId, Seq<char>);

    /// The view and the name of the plugin.
    open spec fn view(&self) -> (ViewId, Seq<char>) {
        (self.view_id, self.plugin@)
    }
}

/// The commands that a plugin offers for a view.
#[derive(Clone, Debug, PartialEq)]
pub struct UpdateCmds {
    pub cmds: Vec<String>,
    pub plugin: String,
    pub view_id: ViewId,
}

/// Mathematical value of an [`UpdateCmds`].
pub struct UpdateCmdsView {
    pub cmds: Seq<Seq<char>>,
    pub plugin: Seq<char>,
    pub view_id: ViewId,
}

impl View for UpdateCmds {
    type V = UpdateCmdsView;

    open spec fn view(&self) -> UpdateCmdsView {
        UpdateCmdsView { cmds: spec_texts(self.cmds@), plugin: self.plugin@, view_id: self.view_id }
    }
}

/// The plugin that a document describes: its name in `name`, and whether
/// it runs in `running`.
pub open spec fn spec_plugin(json: Json) -> Option<(Seq<char>, bool)> {
    match (spec_string_member(json, "name"@), spec_bool_member(json, "running"@)) {
        (Some(name), Some(running)) => Some((name, running)),
        _ => None,
    }
}

/// The plugins that a document lists: `None` where the document is no
/// array or an item is no plugin.
pub open spec fn spec_plugin_list(json: Json) -> Option<Seq<(Seq<char>, bool)>> {
    match json.as_array() {
        Some(items) => if forall|i: int|
            0 <= i < items.len() ==> spec_plugin(#[trigger] items[i]) is Some {
            Some(Seq::new(items.len(), |i: int| spec_plugin(items[i])->0))
        } else {
            None
        },
        None => None,
    }
}

/// The available plugins that a document describes: the view in
/// `view_id`, the plugins in `plugins`.
pub open spec fn spec_available_plugins(json: Json) -> Option<(ViewId, Seq<(Seq<char>, bool)>)> {
    let plugins = match json.member("plugins"@) {
        Some(found) => spec_plugin_list(found),
        None => None,
    };
    match (spec_view_member(json), plugins) {
        (Some(view_id), Some(plugins)) => Some((view_id, plugins)),
        _ => None,
    }
}

/// The view and the plugin that a document names: the view in `view_id`,
/// the plugin in `plugin`.
pub open spec fn spec_plugin_of_view(json: Json) -> Option<(ViewId, Seq<char>)> {
    match (spec_view_member(json), spec_string_member(json, "plugin"@)) {
        (Some(view_id), Some(plugin)) => Some((view_id, plugin)),
        _ => None,
    }
}

/// The commands of a plugin that a document describes: the commands in
/// `cmds`, the plugin in `plugin`, the view in `view_id`.
pub open spec fn spec_update_cmds(json: Json) -> Option<UpdateCmdsView> {
    match (
        spec_strings_member(json, "cmds"@),
        spec_string_member(json, "plugin"@),
        spec_view_member(json),
    ) {
        (Some(cmds), Some(plugin), Some(view_id)) => Some(UpdateCmdsView { cmds, plugin, view_id }),
        _ => None,
    }
}

impl Plugin {
    /// Reads a plugin from a JSON value.
    pub fn from_value(value: &Value) -> (r: Option<Plugin>)
        ensures
            match r {
                Some(plugin) => spec_plugin(spec_json(*value)) == Some(plugin@),
                None => spec_plugin(spec_json(*value)) is None,
            },
    {
        let name: String = match string_member(value, "name") {
            Some(name) => name,
            None => return None,
        };
        match bool_member(value, "running") {
            Some(running) => Some(Plugin { name, running }),
            None => None,
        }
    }
}

/// Reads a list of plugins from a JSON value.
pub fn plugins_from_value(value: &Value) -> (r: Option<Vec<Plugin>>)
    ensures
        match r {
            Some(plugins) => spec_plugin_list(spec_json(*value)) == Some(spec_plugins(plugins@)),
            None => spec_plugin_list(spec_json(*value)) is None,
        },
{
    let items = match as_array(value) {
        Some(items) => items,
        None => return None,
    };
    let ghost docs = spec_jsons(items@);
    let mut plugins: Vec<Plugin> = Vec::new();
    let mut i: usize = 0;
    while i < items.len()
        invariant
            i <= items.len(),
            docs == spec_jsons(items@),
            spec_json(*value).as_array() == Some(docs),
            plugins@.len() == i,
            forall|k: int| 0 <= k < i ==> spec_plugin(#[trigger] docs[k]) == Some(plugins@[k]@),
        decreases items.len() - i,
    {
        match Plugin::from_value(&items[i]) {
            Some(plugin) => plugins.push(plugin),
            None => {
                assert(spec_plugin(docs[i as int]) is None);
                return None;
            },
        }
        i += 1;
    }
    assert(spec_plugin_list(spec_json(*value))->0 =~= spec_plugins(plugins@));
    Some(plugins)
}

impl AvailablePlugins {
    /// Reads the plugins of a view from a JSON value.
    pub fn from_value(value: &Value) -> (r: Option<AvailablePlugins>)
        ensures
            match r {
                Some(found) => spec_available_plugins(spec_json(*value)) == Some(found@),
                None => spec_available_plugins(spec_json(*value)) is None,
            },
    {
        let view_id: ViewId = match view_member(value) {
            Some(view_id) => view_id,
            None => return None,
        };
        match member(value, "plugins") {
            Some(found) => match plugins_from_value(found) {
                Some(plugins) => Some(AvailablePlugins { view_id, plugins }),
                None => None,
            },
            None => None,
        }
    }
}

impl PluginStarted {
    /// Reads the start of a plugin from a JSON value.
    pub fn from_value(value: &Value) -> (r: Option<PluginStarted>)
        ensures
            match r {
                Some(found) => spec_plugin_of_view(spec_json(*value)) == Some(found@),
                None => spec_plugin_of_view(spec_json(*value)) is None,
            },
    {
        let view_id: ViewId = match view_member(value) {
            Some(view_id) => view_id,
            None => return None,
        };
        match string_member(value, "plugin") {
            Some(plugin) => Some(PluginStarted { view_id, plugin }),
            None => None,
        }
    }
}

impl PluginStoped {
    /// Reads the stop of a plugin from a JSON value.
    pub fn from_value(value: &Value) -> (r: Option<PluginStoped>)
        ensures
            match r {
                Some(found) => spec_plugin_of_view(spec_json(*value)) == Some(found@),
                None => spec_plugin_of_view(spec_json(*value)) is None,
            },
    {
        let view_id: ViewId = match view_member(value) {
            Some(view_id) => view_id,
            None => return None,
        };
        match string_member(value, "plugin") {
            Some(plugin) => Some(PluginStoped { view_id, plugin }),
            None => None,
        }
    }
}

impl UpdateCmds {
    /// Reads the commands of a plugin from a JSON value.
    pub fn from_value(value: &Value) -> (r: Option<UpdateCmds>)
        ensures
            match r {
                Some(found) => spec_update_cmds(spec_json(*value)) == Some(found@),
                None => spec_update_cmds(spec_json(*value)) is None,
            },
    {
        let cmds: Vec<String> = match strings_member(value, "cmds") {
            Some(cmds) => cmds,
            None => return None,
        };
        let plugin: String = match string_member(value, "plugin") {
            Some(plugin) => plugin,
            None => return None,
        };
        match view_member(value) {
            Some(view_id) => Some(UpdateCmds { cmds, plugin, view_id }),
            None => None,
        }
    }
}

} // verus!
