use serde_json::Value;
use syntect::highlighting::ThemeSettings;
use vstd::prelude::*;
use crate::json::{spec_json, Json};
use crate::protocol::alert::{spec_alert, Alert};
use crate::protocol::config::{spec_config_changed, ConfigChanged, ConfigChangesView};
use crate::protocol::findreplace::{
    spec_find_status, spec_replace_status, FindStatus, QueryView, ReplaceStatus,
};
use crate::protocol::language::{
    spec_available_languages, spec_language_changed, AvailableLanguages, LanguageChanged,
};
use crate::protocol::plugins::{
    spec_available_plugins, spec_plugin_of_view, spec_update_cmds, AvailablePlugins,
    PluginStarted, PluginStoped, UpdateCmds, UpdateCmdsView,
};
use crate::protocol::scroll_to::{spec_scroll_to, ScrollTo};
use crate::protocol::style::{spec_style, Style};
use crate::protocol::theme::{
    spec_available_themes, spec_theme_changed, AvailableThemes, ThemeChanged,
};
use crate::protocol::update::{spec_update_notification, UpdateNotification, UpdateView};
use crate::protocol::view_id::ViewId;
use crate::text::str_eq;

verus! {

/// What the peer tells the front-end, by kind.
#[derive(Debug, PartialEq)]
pub enum XiNotification {
    Update(UpdateNotification),
    ScrollTo(ScrollTo),
    DefStyle(Style),
    AvailablePlugins(AvailablePlugins),
    UpdateCmds(UpdateCmds),
    PluginStarted(PluginStarted),
    PluginStoped(PluginStoped),
    ConfigChanged(ConfigChanged),
    ThemeChanged(ThemeChanged),
    Alert(Alert),
    AvailableThemes(AvailableThemes),
    FindStatus(FindStatus),
    ReplaceStatus(ReplaceStatus),
    AvailableLanguages(AvailableLanguages),
    LanguageChanged(LanguageChanged),
}

/// Mathematical value of an [`XiNotification`].
pub enum XiNotificationView {
    Update(UpdateView, ViewId),
    ScrollTo(ScrollTo),
    DefStyle(Style),
    AvailablePlugins(ViewId, Seq<(Seq<char>, bool)>),
    UpdateCmds(UpdateCmdsView),
    PluginStarted(ViewId, Seq<char>),
    PluginStoped(ViewId, Seq<char>),
    ConfigChanged(ViewId, ConfigChangesView),
    ThemeChanged(Seq<char>, ThemeSettings),
    Alert(Seq<char>),
    AvailableThemes(Seq<Seq<char>>),
    FindStatus(ViewId, Seq<QueryView>),
    ReplaceStatus(ViewId, (Seq<char>, Option<bool>)),
    AvailableLanguages(Seq<Seq<char>>),
    LanguageChanged(ViewId, Seq<char>),
}

impl View for XiNotification {
    type V = XiNotificationView;

    open spec fn view(&self) -> XiNotificationView {
        match self {
            XiNotification::Update(n) => XiNotificationView::Update(n.update@, n.view_id),
            XiNotification::ScrollTo(n) => XiNotificationView::ScrollTo(*n),
            XiNotification::DefStyle(n) => XiNotificationView::DefStyle(*n),
            XiNotification::AvailablePlugins(n) => XiNotificationView::AvailablePlugins(
                n@.0,
                n@.1,
            ),
            XiNotification::UpdateCmds(n) => XiNotificationView::UpdateCmds(n@),
            XiNotification::PluginStarted(n) => XiNotificationView::PluginStarted(n@.0, n@.1),
            XiNotification::PluginStoped(n) => XiNotificationView::PluginStoped(n@.0, n@.1),
            XiNotification::ConfigChanged(n) => XiNotificationView::ConfigChanged(n@.0, n@.1),
            XiNotification::ThemeChanged(n) => XiNotificationView::ThemeChanged(n@.0, n@.1),
            XiNotification::Alert(n) => XiNotificationView::Alert(n@),
            XiNotification::AvailableThemes(n) => XiNotificationView::AvailableThemes(n@),
            XiNotification::FindStatus(n) => XiNotificationView::FindStatus(n@.0, n@.1),
            XiNotification::ReplaceStatus(n) => XiNotificationView::ReplaceStatus(n@.0, n@.1),
            XiNotification::AvailableLanguages(n) => XiNotificationView::AvailableLanguages(n@),
            XiNotification::LanguageChanged(n) => XiNotificationView::LanguageChanged(n@.0, n@.1),
        }
    }
}

/// The notification of kind `kind` that the parameters `json` describe;
/// `None` where they describe none of that kind.
pub open spec fn spec_notification(kind: NotificationKind, json: Json) -> Option<
    XiNotificationView,
> {
    match kind {
        NotificationKind::Update => match spec_update_notification(json) {
            Some(n) => Some(XiNotificationView::Update(n.0, n.1)),
            None => None,
        },
        NotificationKind::ScrollTo => match spec_scroll_to(json) {
            Some(n) => Some(XiNotificationView::ScrollTo(n)),
            None => None,
        },
        NotificationKind::DefStyle => match spec_style(json) {
            Some(n) => Some(XiNotificationView::DefStyle(n)),
            None => None,
        },
        NotificationKind::AvailablePlugins => match spec_available_plugins(json) {
            Some(n) => Some(XiNotificationView::AvailablePlugins(n.0, n.1)),
            None => None,
        },
        NotificationKind::UpdateCmds => match spec_update_cmds(json) {
            Some(n) => Some(XiNotificationView::UpdateCmds(n)),
            None => None,
        },
        NotificationKind::PluginStarted => match spec_plugin_of_view(json) {
            Some(n) => Some(XiNotificationView::PluginStarted(n.0, n.1)),
            None => None,
        },
        NotificationKind::PluginStoped => match spec_plugin_of_view(json) {
            Some(n) => Some(XiNotificationView::PluginStoped(n.0, n.1)),
            None => None,
        },
        NotificationKind::ConfigChanged => match spec_config_changed(json) {
            Some(n) => Some(XiNotificationView::ConfigChanged(n.0, n.1)),
            None => None,
        },
        NotificationKind::ThemeChanged => match spec_theme_changed(json) {
            Some(n) => Some(XiNotificationView::ThemeChanged(n.0, n.1)),
            None => None,
        },
        NotificationKind::Alert => match spec_alert(json) {
            Some(n) => Some(XiNotificationView::Alert(n)),
            None => None,
        },
        NotificationKind::AvailableThemes => match spec_available_themes(json) {
            Some(n) => Some(XiNotificationView::AvailableThemes(n)),
            None => None,
        },
        NotificationKind::FindStatus => match spec_find_status(json) {
            Some(n) => Some(XiNotificationView::FindStatus(n.0, n.1)),
            None => None,
        },
        NotificationKind::ReplaceStatus => match spec_replace_status(json) {
            Some(n) => Some(XiNotificationView::ReplaceStatus(n.0, n.1)),
            None => None,
        },
        NotificationKind::AvailableLanguages => match spec_available_languages(json) {
            Some(n) => Some(XiNotificationView::AvailableLanguages(n)),
            None => None,
        },
        NotificationKind::LanguageChanged => match spec_language_changed(json) {
            Some(n) => Some(XiNotificationView::LanguageChanged(n.0, n.1)),
            None => None,
        },
    }
}

/// The kinds of notification that the peer sends.
#[derive(Clone, Copy, Debug, PartialEq, Eq, Structural)]
pub enum NotificationKind {
    Update,
    ScrollTo,
    DefStyle,
    AvailablePlugins,
    UpdateCmds,
    PluginStarted,
    PluginStoped,
    ConfigChanged,
    ThemeChanged,
    Alert,
    AvailableThemes,
    FindStatus,
    ReplaceStatus,
    AvailableLanguages,
    LanguageChanged,
}

impl NotificationKind {
    /// The method name under which a notification of this kind travels.
    pub open spec fn spec_method(self) -> Seq<char> {
        match self {
            NotificationKind::Update => "update"@,
            NotificationKind::ScrollTo => "scroll_to"@,
            NotificationKind::DefStyle => "def_style"@,
            NotificationKind::AvailablePlugins => "available_plugins"@,
            NotificationKind::UpdateCmds => "update_cmds"@,
            NotificationKind::PluginStarted => "plugin_started"@,
            NotificationKind::PluginStoped => "plugin_stoped"@,
            NotificationKind::ConfigChanged => "config_changed"@,
            NotificationKind::ThemeChanged => "theme_changed"@,
            NotificationKind::Alert => "alert"@,
            NotificationKind::AvailableThemes => "available_themes"@,
            NotificationKind::FindStatus => "find_status"@,
            NotificationKind::ReplaceStatus => "replace_status"@,
            NotificationKind::AvailableLanguages => "available_languages"@,
            NotificationKind::LanguageChanged => "language_changed"@,
        }
    }

    /// The method name under which a notification of this kind travels.
    pub fn method(self) -> (r: &'static str)
        ensures
            r@ == self.spec_method(),
    {
        match self {
            NotificationKind::Update => "update",
            NotificationKind::ScrollTo => "scroll_to",
            NotificationKind::DefStyle => "def_style",
            NotificationKind::AvailablePlugins => "available_plugins",
            NotificationKind::UpdateCmds => "update_cmds",
            NotificationKind::PluginStarted => "plugin_started",
            NotificationKind::PluginStoped => "plugin_stoped",
            NotificationKind::ConfigChanged => "config_changed",
            NotificationKind::ThemeChanged => "theme_changed",
            NotificationKind::Alert => "alert",
            NotificationKind::AvailableThemes => "available_themes",
            NotificationKind::FindStatus => "find_status",
            NotificationKind::ReplaceStatus => "replace_status",
            NotificationKind::AvailableLanguages => "available_languages",
            NotificationKind::LanguageChanged => "language_changed",
        }
    }

    /// The kind of notification that travels under a method name: the one
    /// whose method it is, and none for any other name.
    pub open spec fn spec_of(method: Seq<char>) -> Option<NotificationKind> {
        if method == "update"@ {
            Some(NotificationKind::Update)
        } else if method == "scroll_to"@ {
            Some(NotificationKind::ScrollTo)
        } else if method == "def_style"@ {
            Some(NotificationKind::DefStyle)
        } else if method == "available_plugins"@ {
            Some(NotificationKind::AvailablePlugins)
        } else if method == "plugin_started"@ {
            Some(NotificationKind::PluginStarted)
        } else if method == "plugin_stoped"@ {
            Some(NotificationKind::PluginStoped)
        } else if method == "update_cmds"@ {
            Some(NotificationKind::UpdateCmds)
        } else if method == "config_changed"@ {
            Some(NotificationKind::ConfigChanged)
        } else if method == "theme_changed"@ {
            Some(NotificationKind::ThemeChanged)
        } else if method == "alert"@ {
            Some(NotificationKind::Alert)
        } else if method == "available_themes"@ {
            Some(NotificationKind::AvailableThemes)
        } else if method == "find_status"@ {
            Some(NotificationKind::FindStatus)
        } else if method == "replace_status"@ {
            Some(NotificationKind::ReplaceStatus)
        } else if method == "available_languages"@ {
            Some(NotificationKind::AvailableLanguages)
        } else if method == "language_changed"@ {
            Some(NotificationKind::LanguageChanged)
        } else {
            None
        }
    }

    /// The kind of notification that travels under `method`; `None` for a
    /// method that no kind has.
    pub fn of(method: &str) -> (r: Option<NotificationKind>)
        ensures
            r == NotificationKind::spec_of(method@),
    {
        if str_eq(method, "update") {
            Some(NotificationKind::Update)
        } else if str_eq(method, "scroll_to") {
            Some(NotificationKind::ScrollTo)
        } else if str_eq(method, "def_style") {
            Some(NotificationKind::DefStyle)
        } else if str_eq(method, "available_plugins") {
            Some(NotificationKind::AvailablePlugins)
        } else if str_eq(method, "plugin_started") {
            Some(NotificationKind::PluginStarted)
        } else if str_eq(method, "plugin_stoped") {
            Some(NotificationKind::PluginStoped)
        } else if str_eq(method, "update_cmds") {
            Some(NotificationKind::UpdateCmds)
        } else if str_eq(method, "config_changed") {
            Some(NotificationKind::ConfigChanged)
        } else if str_eq(method, "theme_changed") {
            Some(NotificationKind::ThemeChanged)
        } else if str_eq(method, "alert") {
            Some(NotificationKind::Alert)
        } else if str_eq(method, "available_themes") {
            Some(NotificationKind::AvailableThemes)
        } else if str_eq(method, "find_status") {
            Some(NotificationKind::FindStatus)
        } else if str_eq(method, "replace_status") {
            Some(NotificationKind::ReplaceStatus)
        } else if str_eq(method, "available_languages") {
            Some(NotificationKind::AvailableLanguages)
        } else if str_eq(method, "language_changed") {
            Some(NotificationKind::LanguageChanged)
        } else {
            None
        }
    }
}

/// Every kind of notification is found again by its method: no two kinds
/// share one.
pub proof fn lemma_kind_of_method(kind: NotificationKind)
    ensures
        NotificationKind::spec_of(kind.spec_method()) == Some(kind),
{
    reveal_strlit("update");
    reveal_strlit("scroll_to");
    reveal_strlit("def_style");
    reveal_strlit("available_plugins");
    reveal_strlit("update_cmds");
    reveal_strlit("plugin_started");
    reveal_strlit("plugin_stoped");
    reveal_strlit("config_changed");
    reveal_strlit("theme_changed");
    reveal_strlit("alert");
    reveal_strlit("available_themes");
    reveal_strlit("find_status");
    reveal_strlit("replace_status");
    reveal_strlit("available_languages");
    reveal_strlit("language_changed");
    assert("update"@.len() == 6);
    assert("scroll_to"@.len() == 9 && "scroll_to"@[0] == 's');
    assert("def_style"@.len() == 9 && "def_style"@[0] == 'd');
    assert("available_plugins"@.len() == 17);
    assert("update_cmds"@.len() == 11 && "update_cmds"@[0] == 'u');
    assert("plugin_started"@.len() == 14 && "plugin_started"@[0] == 'p');
    assert("plugin_stoped"@.len() == 13 && "plugin_stoped"@[0] == 'p');
    assert("config_changed"@.len() == 14 && "config_changed"@[0] == 'c');
    assert("theme_changed"@.len() == 13 && "theme_changed"@[0] == 't');
    assert("alert"@.len() == 5);
    assert("available_themes"@.len() == 16 && "available_themes"@[0] == 'a');
    assert("find_status"@.len() == 11 && "find_status"@[0] == 'f');
    assert("replace_status"@.len() == 14 && "replace_status"@[0] == 'r');
    assert("available_languages"@.len() == 19);
    assert("language_changed"@.len() == 16 && "language_changed"@[0] == 'l');
}

impl XiNotification {
    /// Reads the notification of kind `kind` from its parameters; `None`
    /// where the parameters do not describe one.
    pub fn from_value(kind: NotificationKind, params: &Value) -> (r: Option<XiNotification>)
        ensures
            match r {
                Some(note) => spec_notification(kind, spec_json(*params)) == Some(note@),
                None => spec_notification(kind, spec_json(*params)) is None,
            },
    {
        match kind {
            NotificationKind::Update => match UpdateNotification::from_value(params) {
                Some(n) => Some(XiNotification::Update(n)),
                None => None,
            },
            NotificationKind::ScrollTo => match ScrollTo::from_value(params) {
                Some(n) => Some(XiNotification::ScrollTo(n)),
                None => None,
            },
            NotificationKind::DefStyle => match Style::from_value(params) {
                Some(n) => Some(XiNotification::DefStyle(n)),
                None => None,
            },
            NotificationKind::AvailablePlugins => match AvailablePlugins::from_value(params) {
                Some(n) => Some(XiNotification::AvailablePlugins(n)),
                None => None,
            },
            NotificationKind::UpdateCmds => match UpdateCmds::from_value(params) {
                Some(n) => Some(XiNotification::UpdateCmds(n)),
                None => None,
            },
            NotificationKind::PluginStarted => match PluginStarted::from_value(params) {
                Some(n) => Some(XiNotification::PluginStarted(n)),
                None => None,
            },
            NotificationKind::PluginStoped => match PluginStoped::from_value(params) {
                Some(n) => Some(XiNotification::PluginStoped(n)),
                None => None,
            },
            NotificationKind::ConfigChanged => match ConfigChanged::from_value(params) {
                Some(n) => Some(XiNotification::ConfigChanged(n)),
                None => None,
            },
            NotificationKind::ThemeChanged => match ThemeChanged::from_value(params) {
                Some(n) => Some(XiNotification::ThemeChanged(n)),
                None => None,
            },
            NotificationKind::Alert => match Alert::from_value(params) {
                Some(n) => Some(XiNotification::Alert(n)),
                None => None,
            },
            NotificationKind::AvailableThemes => match AvailableThemes::from_value(params) {
                Some(n) => Some(XiNotification::AvailableThemes(n)),
                None => None,
            },
            NotificationKind::FindStatus => match FindStatus::from_value(params) {
                Some(n) => Some(XiNotification::FindStatus(n)),
                None => None,
            },
            NotificationKind::ReplaceStatus => match ReplaceStatus::from_value(params) {
                Some(n) => Some(XiNotification::ReplaceStatus(n)),
                None => None,
            },
            NotificationKind::AvailableLanguages => match AvailableLanguages::from_value(params) {
                Some(n) => Some(XiNotification::AvailableLanguages(n)),
                None => None,
            },
            NotificationKind::LanguageChanged => match LanguageChanged::from_value(params) {
                Some(n) => Some(XiNotification::LanguageChanged(n)),
                None => None,
            },
        }
    }

    /// The kind of the notification.
    pub fn kind(&self) -> (r: NotificationKind)
        ensures
            r == self.spec_kind(),
    {
        match self {
            XiNotification::Update(_) => NotificationKind::Update,
            XiNotification::ScrollTo(_) => NotificationKind::ScrollTo,
            XiNotification::DefStyle(_) => NotificationKind::DefStyle,
            XiNotification::AvailablePlugins(_) => NotificationKind::AvailablePlugins,
            XiNotification::UpdateCmds(_) => NotificationKind::UpdateCmds,
            XiNotification::PluginStarted(_) => NotificationKind::PluginStarted,
            XiNotification::PluginStoped(_) => NotificationKind::PluginStoped,
            XiNotification::ConfigChanged(_) => NotificationKind::ConfigChanged,
            XiNotification::ThemeChanged(_) => NotificationKind::ThemeChanged,
            XiNotification::Alert(_) => NotificationKind::Alert,
            XiNotification::AvailableThemes(_) => NotificationKind::AvailableThemes,
            XiNotification::FindStatus(_) => NotificationKind::FindStatus,
            XiNotification::ReplaceStatus(_) => NotificationKind::ReplaceStatus,
            XiNotification::AvailableLanguages(_) => NotificationKind::AvailableLanguages,
            XiNotification::LanguageChanged(_) => NotificationKind::LanguageChanged,
        }
    }

    /// The kind of the notification.
    pub open spec fn spec_kind(&self) -> NotificationKind {
        match self {
            XiNotification::Update(_) => NotificationKind::Update,
            XiNotification::ScrollTo(_) => NotificationKind::ScrollTo,
            XiNotification::DefStyle(_) => NotificationKind::DefStyle,
            XiNotification::AvailablePlugins(_) => NotificationKind::AvailablePlugins,
            XiNotification::UpdateCmds(_) => NotificationKind::UpdateCmds,
            XiNotification::PluginStarted(_) => NotificationKind::PluginStarted,
            XiNotification::PluginStoped(_) => NotificationKind::PluginStoped,
            XiNotification::ConfigChanged(_) => NotificationKind::ConfigChanged,
            XiNotification::ThemeChanged(_) => NotificationKind::ThemeChanged,
            XiNotification::Alert(_) => NotificationKind::Alert,
            XiNotification::AvailableThemes(_) => NotificationKind::AvailableThemes,
            XiNotification::FindStatus(_) => NotificationKind::FindStatus,
            XiNotification::ReplaceStatus(_) => NotificationKind::ReplaceStatus,
            XiNotification::AvailableLanguages(_) => NotificationKind::AvailableLanguages,
            XiNotification::LanguageChanged(_) => NotificationKind::LanguageChanged,
        }
    }
}

} // verus!
