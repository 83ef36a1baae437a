use vstd::prelude::*;
use vstd::view::View as _;
use crate::api::patch::{spec_patched, CacheError, CacheView};
use crate::api::render::{CharRef, LineRef};
use crate::api::style_cache::StyleCache;
use crate::api::view::{spec_draws, spec_draws_chars, spec_first_row, spec_rows, View};
use crate::api::view_list::{ViewList, ViewListView};
use crate::api::viewport::{spec_scrolled, ViewPort};
use crate::json::{as_u64, member, spec_json};
use crate::protocol::message::{Message, Notification, Request};
use crate::frontend::{handle_notification, NotificationAction};
use crate::protocol::notification::{spec_notification, NotificationKind, XiNotification};
use crate::protocol::operation::spec_operations;
use crate::protocol::plugins::Plugin;
use crate::protocol::theme::ThemeChanged;
use crate::protocol::view_id::ViewId;
use crate::text::str_eq;

verus! {

/// What a front-end knows of the editor: its views, and what the peer
/// offers in styles, themes, languages and plugins.
pub struct Editor {
    pub styles: StyleCache,
    pub views: ViewList,
    pub languages: Vec<String>,
    pub requests: Vec<Request>,
    pub plugins: Vec<Plugin>,
    pub themes: Vec<String>,
    pub theme: Option<ThemeChanged>,
}

impl Default for Editor {
    fn default() -> (r: Editor)
        ensures
            r.styles@ == Map::<u64, crate::protocol::style::Style>::empty(),
            r.views@.index is None,
            r.views@.views.len() == 0,
            r.languages@.len() == 0,
            r.requests@.len() == 0,
            r.plugins@.len() == 0,
            r.themes@.len() == 0,
            r.theme is None,
    {
        Editor {
            styles: StyleCache::default(),
            views: ViewList::default(),
            languages: Vec::new(),
            requests: Vec::new(),
            plugins: Vec::new(),
            themes: Vec::new(),
            theme: None,
        }
    }
}

/// The place in `list` of the view that `view` names: the view of that id,
/// or the current view where no id is given.
pub open spec fn spec_target(list: ViewListView, view: Option<ViewId>) -> Option<int> {
    match view {
        Some(id) => list.place(id),
        None => list.current_place(),
    }
}

/// Whether `view` is what is known of the view `id` when it opens.
pub open spec fn spec_is_new(view: View, id: ViewId) -> bool {
    &&& view.id == id
    &&& view.language is None
    &&& view.cache@ == CacheView::empty()
    &&& view.viewport == (ViewPort { width: 0, height: 0, horizontal_offset: 0, vertical_offset: 0 })
    &&& view.config is None
    &&& view.plugins@.len() == 0
    &&& view.find_status is None
    &&& view.replace_status is None
}

/// The names of a list of plugins.
pub open spec fn spec_names(plugins: Seq<String>) -> Seq<Seq<char>> {
    plugins.map_values(|p: String| p@)
}

/// Those of `names` that are not `gone`, in order.
pub open spec fn spec_without(names: Seq<Seq<char>>, gone: Seq<char>) -> Seq<Seq<char>>
    decreases names.len(),
{
    if names.len() == 0 {
        Seq::empty()
    } else if names.last() == gone {
        spec_without(names.drop_last(), gone)
    } else {
        spec_without(names.drop_last(), gone).push(names.last())
    }
}

/// The view that a notification is about: `Some(Some(id))` for the view
/// of an id, `Some(None)` for the current view, `None` for a notification
/// that is about no view.
pub open spec fn spec_subject(note: XiNotification) -> Option<Option<ViewId>> {
    match note {
        XiNotification::Update(update) => Some(Some(update.view_id)),
        XiNotification::ConfigChanged(conf) => Some(Some(conf.view_id)),
        XiNotification::LanguageChanged(lang) => Some(Some(lang.view_id)),
        XiNotification::PluginStarted(plugin) => Some(Some(plugin.view_id)),
        XiNotification::PluginStoped(plugin) => Some(Some(plugin.view_id)),
        XiNotification::FindStatus(find) => Some(Some(find.view_id)),
        XiNotification::ReplaceStatus(status) => Some(Some(status.view_id)),
        XiNotification::ScrollTo(_) => Some(None),
        _ => None,
    }
}

/// Whether `after` is `before` but for the line cache.
pub open spec fn spec_same_but_cache(before: View, after: View) -> bool {
    &&& after.id == before.id
    &&& after.language == before.language
    &&& after.viewport == before.viewport
    &&& after.config == before.config
    &&& after.plugins == before.plugins
    &&& after.find_status == before.find_status
    &&& after.replace_status == before.replace_status
}

/// Whether `after` is `before` but for the plugins.
pub open spec fn spec_same_but_plugins(before: View, after: View) -> bool {
    &&& after.id == before.id
    &&& after.language == before.language
    &&& after.cache == before.cache
    &&& after.viewport == before.viewport
    &&& after.config == before.config
    &&& after.find_status == before.find_status
    &&& after.replace_status == before.replace_status
}

/// Whether `after` is the view `before` once it took the notification
/// `note`, with the outcome `r`. Only an update can fail, and a failed
/// update leaves the cache as it was.
pub open spec fn spec_view_notified(
    before: View,
    after: View,
    note: XiNotification,
    r: Result<(), CacheError>,
) -> bool {
    match note {
        XiNotification::Update(update) => {
            &&& spec_same_but_cache(before, after)
            &&& match spec_patched(before.cache@, spec_operations(update.update.operations@)) {
                Ok(new) => r is Ok && after.cache@ == new,
                Err(e) => r == Err::<(), CacheError>(e) && after.cache@ == before.cache@,
            }
        },
        XiNotification::ConfigChanged(conf) => r is Ok && after == (View {
            config: Some(conf.changes),
            ..before
        }),
        XiNotification::LanguageChanged(lang) => r is Ok && after == (View {
            language: Some(lang.language_id),
            ..before
        }),
        XiNotification::PluginStarted(plugin) => {
            &&& r is Ok
            &&& spec_same_but_plugins(before, after)
            &&& after.plugins@ == before.plugins@.push(plugin.plugin)
        },
        XiNotification::PluginStoped(plugin) => {
            &&& r is Ok
            &&& spec_same_but_plugins(before, after)
            &&& spec_names(after.plugins@) == spec_without(
                spec_names(before.plugins@),
                plugin.plugin@,
            )
        },
        XiNotification::FindStatus(find) => r is Ok && after == (View {
            find_status: Some(find),
            ..before
        }),
        XiNotification::ReplaceStatus(status) => r is Ok && after == (View {
            replace_status: Some(status.status),
            ..before
        }),
        XiNotification::ScrollTo(scroll) => r is Ok && after == (View {
            viewport: ViewPort {
                vertical_offset: spec_scrolled(
                    before.viewport.vertical_offset,
                    before.viewport.height,
                    scroll.line,
                ),
                horizontal_offset: spec_scrolled(
                    before.viewport.horizontal_offset,
                    before.viewport.width,
                    scroll.column,
                ),
                ..before.viewport
            },
            ..before
        }),
        _ => r is Ok && after == before,
    }
}

/// Whether `after` is the editor `before` once it took a notification
/// about the editor as a whole.
pub open spec fn spec_editor_notified(before: Editor, after: Editor, note: XiNotification) -> bool {
    match note {
        XiNotification::DefStyle(style) => {
            &&& after.styles@ == before.styles@.insert(style.id, style)
            &&& after.views == before.views
            &&& after.languages == before.languages
            &&& after.requests == before.requests
            &&& after.plugins == before.plugins
            &&& after.themes == before.themes
            &&& after.theme == before.theme
        },
        XiNotification::AvailablePlugins(plugins) => after == (Editor {
            plugins: plugins.plugins,
            ..before
        }),
        XiNotification::AvailableThemes(themes) => after == (Editor {
            themes: themes.themes,
            ..before
        }),
        XiNotification::AvailableLanguages(langs) => after == (Editor {
            languages: langs.languages,
            ..before
        }),
        XiNotification::ThemeChanged(theme) => after == (Editor { theme: Some(theme), ..before }),
        _ => after == before,
    }
}

/// Whether `after` is the editor `before` once it took the notification
/// `note`, with the outcome `r`. A notification about a view that is not
/// in the list changes nothing.
pub open spec fn spec_notified(
    before: Editor,
    after: Editor,
    note: XiNotification,
    r: Result<(), CacheError>,
) -> bool {
    match spec_subject(note) {
        None => r is Ok && spec_editor_notified(before, after, note),
        Some(subject) => {
            &&& after.styles == before.styles
            &&& after.languages == before.languages
            &&& after.requests == before.requests
            &&& after.plugins == before.plugins
            &&& after.themes == before.themes
            &&& after.theme == before.theme
            &&& after.views@.index == before.views@.index
            &&& match spec_target(before.views@, subject) {
                None => r is Ok && after.views@.views == before.views@.views,
                Some(i) => exists|view: View|
                    {
                        &&& #[trigger] spec_view_notified(before.views@.views[i].1, view, note, r)
                        &&& after.views@.views == before.views@.views.update(
                            i,
                            (before.views@.views[i].0, view),
                        )
                    },
            }
        },
    }
}

/// The first `n` names without `gone`, with one more name.
proof fn lemma_without_step(names: Seq<Seq<char>>, gone: Seq<char>, n: int)
    requires
        0 <= n < names.len(),
    ensures
        spec_without(names.subrange(0, n + 1), gone) == if names[n] == gone {
            spec_without(names.subrange(0, n), gone)
        } else {
            spec_without(names.subrange(0, n), gone).push(names[n])
        },
{
    assert(names.subrange(0, n + 1).drop_last() =~= names.subrange(0, n));
}

/// The plugins of `plugins` that are not called `gone`, in order.
fn without(plugins: Vec<String>, gone: &String) -> (r: Vec<String>)
    ensures
        spec_names(r@) == spec_without(spec_names(plugins@), gone@),
{
    let ghost names = spec_names(plugins@);
    let mut kept: Vec<String> = Vec::new();
    assert(spec_names(kept@) =~= spec_without(names.subrange(0, 0), gone@));
    for plugin in it: plugins.into_iter()
        invariant
            it.seq() == plugins@,
            names == spec_names(plugins@),
            spec_names(kept@) == spec_without(names.subrange(0, it.index()), gone@),
    {
        proof {
            lemma_without_step(names, gone@, it.index());
        }
        assert(plugin == plugins@[it.index()]);
        if plugin != *gone {
            let ghost before = kept@;
            kept.push(plugin);
            assert(spec_names(kept@) =~= spec_names(before).push(plugin@));
        }
    }
    assert(names.subrange(0, names.len() as int) =~= names);
    kept
}

/// Whether one of `requests` has the id `id` and asked for a new view.
pub open spec fn spec_asked_for_view(requests: Seq<Request>, id: u64) -> bool {
    exists|i: int|
        0 <= i < requests.len() && (#[trigger] requests[i]).id == id && requests[i].method@
            == "new_view"@
}

/// The id of the view that the response `res` opens: the response must
/// answer one of `requests` that asked for a new view, report success,
/// and name the view by a number in the member `view_id` of its result.
pub open spec fn spec_opened(
    requests: Seq<Request>,
    res: crate::protocol::message::Response,
) -> Option<ViewId> {
    if spec_asked_for_view(requests, res.id) {
        match res.result {
            Ok(value) => match spec_json(value).member("view_id"@) {
                Some(view_id) => match view_id.as_u64() {
                    Some(num) => Some(ViewId(num as usize)),
                    None => None,
                },
                None => None,
            },
            Err(_) => None,
        }
    } else {
        None
    }
}

/// Whether `after` is the list of views `before` once the editor, having
/// sent `requests`, took the response `res`. Only a response that opens a
/// view changes the list: the view is added as it is when it opens, and
/// is the current one.
pub open spec fn spec_views_after(
    before: ViewListView,
    after: ViewListView,
    requests: Seq<Request>,
    res: crate::protocol::message::Response,
) -> bool {
    match spec_opened(requests, res) {
        Some(id) => exists|view: View| #[trigger]
            spec_is_new(view, id) && after == before.added(id, view),
        None => after == before,
    }
}

/// Whether `after` is `before` in every part.
pub open spec fn spec_untouched(before: Editor, after: Editor) -> bool {
    &&& after.styles == before.styles
    &&& after.views == before.views
    &&& after.languages == before.languages
    &&& after.requests == before.requests
    &&& after.plugins == before.plugins
    &&& after.themes == before.themes
    &&& after.theme == before.theme
}

/// Whether `after` is the editor `before` once it took the notification
/// frame `frame`, with the outcome `r`. A frame that reads as a
/// notification is taken as that notification is. Any other frame changes
/// nothing.
pub open spec fn spec_took(
    before: Editor,
    after: Editor,
    frame: Notification,
    r: Result<(), CacheError>,
) -> bool {
    let read = match NotificationKind::spec_of(frame.method@) {
        Some(kind) => spec_notification(kind, spec_json(frame.params)),
        None => None,
    };
    match read {
        Some(value) => exists|note: XiNotification|
            note@ == value && #[trigger] spec_notified(before, after, note, r),
        None => r is Ok && spec_untouched(before, after),
    }
}

impl Editor {
    /// The view that `view` names, to be changed in place: the view of
    /// that id, or the current view where no id is given.
    pub fn with(&mut self, view: Option<ViewId>) -> (r: Option<&mut View>)
        ensures
            final(self).views@.index == old(self).views@.index,
            final(self).styles == old(self).styles,
            final(self).languages == old(self).languages,
            final(self).requests == old(self).requests,
            final(self).plugins == old(self).plugins,
            final(self).themes == old(self).themes,
            final(self).theme == old(self).theme,
            match r {
                Some(found) => {
                    let i = spec_target(old(self).views@, view);
                    &&& i is Some
                    &&& *found == old(self).views@.views[i->0].1
                    &&& final(self).views@.views == old(self).views@.views.update(
                        i->0,
                        (old(self).views@.views[i->0].0, *final(found)),
                    )
                },
                None => spec_target(old(self).views@, view) is None && final(self).views@.views
                    == old(self).views@.views,
            },
    {
        match view {
            Some(id) => {
                let found = self.views.get_mut(&id);
                found
            },
            None => self.views.get_current_mut(),
        }
    }

    /// Opens a view under the id `id` and makes it the current one.
    pub fn new_view(&mut self, id: ViewId)
        ensures
            exists|view: View| #[trigger]
                spec_is_new(view, id) && final(self).views@ == old(self).views@.added(id, view),
            final(self).styles == old(self).styles,
            final(self).languages == old(self).languages,
            final(self).requests == old(self).requests,
            final(self).plugins == old(self).plugins,
            final(self).themes == old(self).themes,
            final(self).theme == old(self).theme,
    {
        let view = View::new(id);
        let ghost fresh = view;
        self.views.add(id, view);
        assert(spec_is_new(fresh, id) && self.views@ == old(self).views@.added(id, fresh));
    }

    /// Takes a frame of the peer. A request is kept. A response to a
    /// request for a new view opens the view that it names and makes it
    /// current. A notification is read and taken as
    /// [`Editor::xi_notification`] takes it; one that cannot be read, or
    /// whose method is unknown, is dropped.
    pub fn xi_message(&mut self, msg: Message) -> (r: Result<(), CacheError>)
        ensures
            match msg {
                Message::Notification(note) => spec_took(*old(self), *final(self), note, r),
                Message::Request(req) => {
                    &&& r is Ok
                    &&& final(self).styles == old(self).styles
                    &&& final(self).views == old(self).views
                    &&& final(self).languages == old(self).languages
                    &&& final(self).requests@ == old(self).requests@.push(req)
                    &&& final(self).plugins == old(self).plugins
                    &&& final(self).themes == old(self).themes
                    &&& final(self).theme == old(self).theme
                },
                Message::Response(res) => {
                    &&& r is Ok
                    &&& final(self).styles == old(self).styles
                    &&& final(self).languages == old(self).languages
                    &&& final(self).requests == old(self).requests
                    &&& final(self).plugins == old(self).plugins
                    &&& final(self).themes == old(self).themes
                    &&& final(self).theme == old(self).theme
                    &&& spec_views_after(
                        old(self).views@,
                        final(self).views@,
                        old(self).requests@,
                        res,
                    )
                },
            },
    {
        match msg {
            Message::Notification(note) => match handle_notification(
                note.method.as_str(),
                &note.params,
            ) {
                NotificationAction::Deliver(read) => {
                    let r = self.xi_notification(read);
                    assert(read@ == spec_notification(
                        NotificationKind::spec_of(note.method@)->0,
                        spec_json(note.params),
                    )->0 && spec_notified(*old(self), *self, read, r));
                    r
                },
                NotificationAction::Invalid(_) => Ok(()),
                NotificationAction::Unknown => Ok(()),
            },
            Message::Request(req) => {
                self.requests.push(req);
                Ok(())
            },
            Message::Response(res) => {
                let mut asked: bool = false;
                let mut i: usize = 0;
                while i < self.requests.len()
                    invariant
                        *self == *old(self),
                        i <= self.requests.len(),
                        asked == spec_asked_for_view(self.requests@.subrange(0, i as int), res.id),
                    decreases self.requests.len() - i,
                {
                    let found: bool = self.requests[i].id == res.id && str_eq(
                        self.requests[i].method.as_str(),
                        "new_view",
                    );
                    proof {
                        let before = self.requests@.subrange(0, i as int);
                        let after = self.requests@.subrange(0, i as int + 1);
                        assert(after[i as int] == self.requests@[i as int]);
                        assert forall|k: int| 0 <= k < i implies after[k] == before[k] by {}
                        if spec_asked_for_view(before, res.id) {
                            let k = choose|k: int|
                                0 <= k < before.len() && (#[trigger] before[k]).id == res.id
                                    && before[k].method@ == "new_view"@;
                            assert(after[k].id == res.id);
                        }
                        if spec_asked_for_view(after, res.id) && !found {
                            let k = choose|k: int|
                                0 <= k < after.len() && (#[trigger] after[k]).id == res.id
                                    && after[k].method@ == "new_view"@;
                            assert(before[k].id == res.id);
                        }
                    }
                    asked = asked || found;
                    i += 1;
                }
                assert(self.requests@.subrange(0, i as int) =~= self.requests@);
                if asked {
                    if let Ok(value) = &res.result {
                        if let Some(view_id) = member(value, "view_id") {
                            if let Some(num) = as_u64(view_id) {
                                self.new_view(ViewId(num as usize));
                            }
                        }
                    }
                }
                Ok(())
            },
        }
    }

    /// Takes a notification of the peer. A notification about a view
    /// changes that view, if it is in the list; the others change what the
    /// editor knows as a whole. Only an update can fail: it is refused
    /// when it does not fit the line cache of its view.
    pub fn xi_notification(&mut self, msg: XiNotification) -> (r: Result<(), CacheError>)
        ensures
            spec_notified(*old(self), *final(self), msg, r),
    {
        match msg {
            XiNotification::Update(update) => {
                match self.with(Some(update.view_id)) {
                    Some(view) => {
                        let ghost before = *view;
                        let r = view.update(update);
                        assert(spec_view_notified(before, *view, msg, r));
                        r
                    },
                    None => Ok(()),
                }
            },
            XiNotification::DefStyle(style) => {
                self.styles.insert(style.id, style);
                Ok(())
            },
            XiNotification::AvailablePlugins(plugins) => {
                self.plugins = plugins.plugins;
                Ok(())
            },
            XiNotification::AvailableThemes(themes) => {
                self.themes = themes.themes;
                Ok(())
            },
            XiNotification::AvailableLanguages(langs) => {
                self.languages = langs.languages;
                Ok(())
            },
            XiNotification::ThemeChanged(theme) => {
                self.theme = Some(theme);
                Ok(())
            },
            XiNotification::ConfigChanged(conf) => {
                if let Some(view) = self.with(Some(conf.view_id)) {
                    let ghost before = *view;
                    view.config = Some(conf.changes);
                    assert(spec_view_notified(before, *view, msg, Ok(())));
                }
                Ok(())
            },
            XiNotification::LanguageChanged(lang) => {
                if let Some(view) = self.with(Some(lang.view_id)) {
                    let ghost before = *view;
                    view.language = Some(lang.language_id);
                    assert(spec_view_notified(before, *view, msg, Ok(())));
                }
                Ok(())
            },
            XiNotification::PluginStarted(plugin) => {
                if let Some(view) = self.with(Some(plugin.view_id)) {
                    let ghost before = *view;
                    view.plugins.push(plugin.plugin);
                    assert(spec_view_notified(before, *view, msg, Ok(())));
                }
                Ok(())
            },
            XiNotification::PluginStoped(plugin) => {
                if let Some(view) = self.with(Some(plugin.view_id)) {
                    let ghost before = *view;
                    let mut plugins: Vec<String> = Vec::new();
                    std::mem::swap(&mut plugins, &mut view.plugins);
                    view.plugins = without(plugins, &plugin.plugin);
                    assert(spec_view_notified(before, *view, msg, Ok(())));
                }
                Ok(())
            },
            XiNotification::FindStatus(find) => {
                if let Some(view) = self.with(Some(find.view_id)) {
                    let ghost before = *view;
                    view.find_status = Some(find);
                    assert(spec_view_notified(before, *view, msg, Ok(())));
                }
                Ok(())
            },
            XiNotification::ReplaceStatus(status) => {
                if let Some(view) = self.with(Some(status.view_id)) {
                    let ghost before = *view;
                    view.replace_status = Some(status.status);
                    assert(spec_view_notified(before, *view, msg, Ok(())));
                }
                Ok(())
            },
            XiNotification::ScrollTo(scroll) => {
                if let Some(view) = self.with(None) {
                    let ghost before = *view;
                    view.viewport.scroll_to(scroll);
                    assert(spec_view_notified(before, *view, msg, Ok(())));
                }
                Ok(())
            },
            XiNotification::UpdateCmds(_) => Ok(()),
            XiNotification::Alert(_) => Ok(()),
        }
    }

    /// Renders the current view line by line; `None` without one.
    pub fn render_lines(&self) -> (r: Option<Vec<LineRef<'_>>>)
        requires
            self.views@.current_place() matches Some(i) ==> self.views@.views[i].1.spec_can_render(),
        ensures
            match self.views@.current_place() {
                Some(i) => {
                    let view = self.views@.views[i].1;
                    &&& r matches Some(lines)
                    &&& lines@.len() == spec_rows(view.cache@, view.viewport)
                    &&& forall|k: int|
                        0 <= k < lines@.len() ==> spec_draws(
                            #[trigger] lines@[k],
                            view.cache@.lines[spec_first_row(view.cache@, view.viewport) + k],
                            view.viewport.horizontal_offset,
                        )
                },
                None => r is None,
            },
    {
        match self.views.get_current() {
            Some(view) => Some(view.render_lines()),
            None => None,
        }
    }

    /// Renders the current view character by character; `None` without
    /// one.
    pub fn render_chars(&self) -> (r: Option<Vec<Vec<CharRef>>>)
        requires
            self.views@.current_place() matches Some(i) ==> self.views@.views[i].1.spec_can_render(),
        ensures
            match self.views@.current_place() {
                Some(i) => {
                    let view = self.views@.views[i].1;
                    &&& r matches Some(rows)
                    &&& rows@.len() == spec_rows(view.cache@, view.viewport)
                    &&& forall|y: int|
                        0 <= y < rows@.len() ==> spec_draws_chars(
                            (#[trigger] rows@[y])@,
                            view.cache@.lines[spec_first_row(view.cache@, view.viewport) + y],
                            view.viewport.horizontal_offset,
                            y,
                        )
                },
                None => r is None,
            },
    {
        match self.views.get_current() {
            Some(view) => Some(view.render_chars()),
            None => None,
        }
    }
}

} // verus!
