//! Application state: the screens, input modes, data records, and the
//! aggregate `App` value that the reducer owns, together with the ghost
//! model (`AppV` and friends) that contracts are stated over.

use crate::text::is_substring;
use crate::text::lower_of;
use vstd::prelude::*;
use vstd::string::StringExecFns;

verus! {

/// Which top-level screen is shown.
#[derive(Debug, Clone, Copy, PartialEq, Eq, Structural)]
pub enum CurrentScreen {
    Launcher,
    Search,
}

/// How keyboard input is currently interpreted.
#[derive(Debug, Clone, Copy, PartialEq, Eq, Structural)]
pub enum InputMode {
    /// Launcher navigation.
    Normal,
    /// Add/edit modal form.
    Editing,
    /// Launcher filter entry.
    Filtering,
    /// One-off command modal.
    AdHocCmd,
    /// Typing a search query.
    SearchInput,
    /// Navigating the history/settings sidebar.
    SearchSidebar,
    /// Scrolling the chat transcript.
    ChatHistory,
}

/// Which auxiliary panel the search screen shows.
#[derive(Debug, Clone, Copy, PartialEq, Eq, Structural)]
pub enum SearchSidebarState {
    Hidden,
    History,
    Settings,
}

/// Who produced a chat message.
#[derive(Debug, Clone, Copy, PartialEq, Eq, Structural)]
pub enum Role {
    User,
    Assistant,
    System,
}

impl DeepView for CurrentScreen {
    type V = CurrentScreen;

    open spec fn deep_view(&self) -> CurrentScreen {
        *self
    }
}

impl DeepView for InputMode {
    type V = InputMode;

    open spec fn deep_view(&self) -> InputMode {
        *self
    }
}

impl DeepView for SearchSidebarState {
    type V = SearchSidebarState;

    open spec fn deep_view(&self) -> SearchSidebarState {
        *self
    }
}

impl DeepView for Role {
    type V = Role;

    open spec fn deep_view(&self) -> Role {
        *self
    }
}

/// A registered application in the launcher registry.
#[derive(Debug, Clone, PartialEq)]
pub struct AppModel {
    pub id: String,
    pub name: String,
    pub description: Option<String>,
    pub command: String,
    pub url: String,
}

/// Model of an [`AppModel`].
#[verifier::ext_equal]
pub ghost struct AppModelV {
    pub id: Seq<char>,
    pub name: Seq<char>,
    pub description: Option<Seq<char>>,
    pub command: Seq<char>,
    pub url: Seq<char>,
}

impl DeepView for AppModel {
    type V = AppModelV;

    open spec fn deep_view(&self) -> AppModelV {
        AppModelV {
            id: self.id.deep_view(),
            name: self.name.deep_view(),
            description: self.description.deep_view(),
            command: self.command.deep_view(),
            url: self.url.deep_view(),
        }
    }
}

/// The outcome of launching a registered application.
#[derive(Debug, Clone, PartialEq)]
pub struct LaunchResponse {
    pub success: bool,
    pub message: String,
    pub stdout: String,
    pub stderr: String,
}

impl LaunchResponse {
    /// The log text a launch outcome produces.
    pub fn launch_output(&self) -> (r: String)
        ensures
            self.success ==> r@ == "Success:\n"@ + self.stdout@,
            !self.success ==> r@ == "Failed:\n"@ + self.message@ + "\n"@ + self.stderr@,
    {
        if self.success {
            crate::text::concat2("Success:\n", self.stdout.as_str())
        } else {
            let mut s = crate::text::concat3("Failed:\n", self.message.as_str(), "\n");
            s.append(self.stderr.as_str());
            s
        }
    }

    /// The log text an ad-hoc run produces.
    pub fn adhoc_output(&self) -> (r: String)
        ensures
            self.success ==> r@ == self.stdout@ + "\n"@ + self.stderr@,
            !self.success ==> r@ == "Failed: "@ + self.message@ + "\n"@ + self.stderr@,
    {
        if self.success {
            crate::text::concat3(self.stdout.as_str(), "\n", self.stderr.as_str())
        } else {
            let mut s = crate::text::concat3("Failed: ", self.message.as_str(), "\n");
            s.append(self.stderr.as_str());
            s
        }
    }
}

/// A conversation summary from the search service.
#[derive(Debug, Clone, PartialEq)]
pub struct Conversation {
    pub id: i64,
    pub title: String,
}

/// Model of a [`Conversation`].
#[verifier::ext_equal]
pub ghost struct ConversationV {
    pub id: i64,
    pub title: Seq<char>,
}

impl DeepView for Conversation {
    type V = ConversationV;

    open spec fn deep_view(&self) -> ConversationV {
        ConversationV { id: self.id, title: self.title.deep_view() }
    }
}

/// A language model offered by a provider.
#[derive(Debug, Clone, PartialEq)]
pub struct Model {
    pub id: String,
    pub name: String,
}

/// Model of a [`Model`].
#[verifier::ext_equal]
pub ghost struct ModelV {
    pub id: Seq<char>,
    pub name: Seq<char>,
}

impl DeepView for Model {
    type V = ModelV;

    open spec fn deep_view(&self) -> ModelV {
        ModelV { id: self.id.deep_view(), name: self.name.deep_view() }
    }
}

/// A search-source provider with its enabled flag.
#[derive(Debug, Clone, PartialEq)]
pub struct ProviderConfig {
    pub id: i64,
    pub name: String,
    pub type_: String,
    pub is_enabled: bool,
}

/// Model of a [`ProviderConfig`].
#[verifier::ext_equal]
pub ghost struct ProviderConfigV {
    pub id: i64,
    pub name: Seq<char>,
    pub type_: Seq<char>,
    pub is_enabled: bool,
}

impl DeepView for ProviderConfig {
    type V = ProviderConfigV;

    open spec fn deep_view(&self) -> ProviderConfigV {
        ProviderConfigV {
            id: self.id,
            name: self.name.deep_view(),
            type_: self.type_.deep_view(),
            is_enabled: self.is_enabled,
        }
    }
}

/// One search result attached to an assistant message.
#[derive(Debug, Clone, PartialEq)]
pub struct SearchSource {
    pub title: String,
    pub url: String,
    pub content: String,
    pub engine: String,
}

/// Model of a [`SearchSource`].
#[verifier::ext_equal]
pub ghost struct SearchSourceV {
    pub title: Seq<char>,
    pub url: Seq<char>,
    pub content: Seq<char>,
    pub engine: Seq<char>,
}

impl DeepView for SearchSource {
    type V = SearchSourceV;

    open spec fn deep_view(&self) -> SearchSourceV {
        SearchSourceV {
            title: self.title.deep_view(),
            url: self.url.deep_view(),
            content: self.content.deep_view(),
            engine: self.engine.deep_view(),
        }
    }
}

/// One entry of the conversation transcript.
#[derive(Debug, Clone, PartialEq)]
pub struct ChatMessage {
    pub role: Role,
    pub content: String,
    pub sources: Vec<SearchSource>,
}

/// Model of a [`ChatMessage`].
#[verifier::ext_equal]
pub ghost struct ChatMessageV {
    pub role: Role,
    pub content: Seq<char>,
    pub sources: Seq<SearchSourceV>,
}

impl DeepView for ChatMessage {
    type V = ChatMessageV;

    open spec fn deep_view(&self) -> ChatMessageV {
        ChatMessageV {
            role: self.role,
            content: self.content.deep_view(),
            sources: self.sources.deep_view(),
        }
    }
}

/// The add/edit modal's form buffer.
#[derive(Debug, Clone, PartialEq)]
pub struct AppForm {
    pub id: String,
    pub name: String,
    pub desc: String,
    pub cmd: String,
    pub url: String,
    pub focus_idx: usize,
}

/// Model of an [`AppForm`].
#[verifier::ext_equal]
pub ghost struct AppFormV {
    pub id: Seq<char>,
    pub name: Seq<char>,
    pub desc: Seq<char>,
    pub cmd: Seq<char>,
    pub url: Seq<char>,
    pub focus_idx: usize,
}

impl DeepView for AppForm {
    type V = AppFormV;

    open spec fn deep_view(&self) -> AppFormV {
        AppFormV {
            id: self.id.deep_view(),
            name: self.name.deep_view(),
            desc: self.desc.deep_view(),
            cmd: self.cmd.deep_view(),
            url: self.url.deep_view(),
            focus_idx: self.focus_idx,
        }
    }
}

/// The form an add-modal opens with.
pub open spec fn init_form() -> AppFormV {
    AppFormV {
        id: Seq::empty(),
        name: Seq::empty(),
        desc: Seq::empty(),
        cmd: Seq::empty(),
        url: "http://localhost"@,
        focus_idx: 0,
    }
}

impl Default for AppForm {
    fn default() -> (r: Self)
        ensures
            r.deep_view() == init_form(),
    {
        let r = AppForm {
            id: String::new(),
            name: String::new(),
            desc: String::new(),
            cmd: String::new(),
            url: "http://localhost".to_owned(),
            focus_idx: 0,
        };
        proof {
            assert(r.deep_view() =~= init_form());
        }
        r
    }
}

/// The whole application state, owned by the reducer.
pub struct App {
    pub should_quit: bool,
    pub current_screen: CurrentScreen,
    pub input_mode: InputMode,
    pub apps: Vec<AppModel>,
    pub filtered_apps: Vec<usize>,
    pub apps_idx: usize,
    pub launcher_logs: Vec<String>,
    pub is_loading_apps: bool,
    pub filter_input: String,
    pub active_form: AppForm,
    pub adhoc_input: String,
    pub search_input: String,
    pub messages: Vec<ChatMessage>,
    /// Index of the assistant message currently receiving streamed
    /// tokens, if any. Stream fragments apply only here, never to the
    /// list tail.
    pub open_message: Option<usize>,
    pub is_searching: bool,
    pub search_sidebar: SearchSidebarState,
    pub chat_scroll: u16,
    pub chat_auto_scroll: bool,
    pub current_convo_id: Option<i64>,
    pub conversations: Vec<Conversation>,
    pub conversation_idx: usize,
    pub llm_providers: Vec<String>,
    pub selected_llm_provider: String,
    pub models: Vec<Model>,
    pub selected_model: String,
    pub search_providers: Vec<ProviderConfig>,
    pub settings_idx: usize,
}

/// Model of the whole [`App`] state.
#[verifier::ext_equal]
pub ghost struct AppV {
    pub should_quit: bool,
    pub current_screen: CurrentScreen,
    pub input_mode: InputMode,
    pub apps: Seq<AppModelV>,
    pub filtered_apps: Seq<usize>,
    pub apps_idx: usize,
    pub launcher_logs: Seq<Seq<char>>,
    pub is_loading_apps: bool,
    pub filter_input: Seq<char>,
    pub active_form: AppFormV,
    pub adhoc_input: Seq<char>,
    pub search_input: Seq<char>,
    pub messages: Seq<ChatMessageV>,
    pub open_message: Option<usize>,
    pub is_searching: bool,
    pub search_sidebar: SearchSidebarState,
    pub chat_scroll: u16,
    pub chat_auto_scroll: bool,
    pub current_convo_id: Option<i64>,
    pub conversations: Seq<ConversationV>,
    pub conversation_idx: usize,
    pub llm_providers: Seq<Seq<char>>,
    pub selected_llm_provider: Seq<char>,
    pub models: Seq<ModelV>,
    pub selected_model: Seq<char>,
    pub search_providers: Seq<ProviderConfigV>,
    pub settings_idx: usize,
}

impl DeepView for App {
    type V = AppV;

    open spec fn deep_view(&self) -> AppV {
        AppV {
            should_quit: self.should_quit,
            current_screen: self.current_screen,
            input_mode: self.input_mode,
            apps: self.apps.deep_view(),
            filtered_apps: self.filtered_apps.deep_view(),
            apps_idx: self.apps_idx,
            launcher_logs: self.launcher_logs.deep_view(),
            is_loading_apps: self.is_loading_apps,
            filter_input: self.filter_input.deep_view(),
            active_form: self.active_form.deep_view(),
            adhoc_input: self.adhoc_input.deep_view(),
            search_input: self.search_input.deep_view(),
            messages: self.messages.deep_view(),
            open_message: self.open_message,
            is_searching: self.is_searching,
            search_sidebar: self.search_sidebar,
            chat_scroll: self.chat_scroll,
            chat_auto_scroll: self.chat_auto_scroll,
            current_convo_id: self.current_convo_id,
            conversations: self.conversations.deep_view(),
            conversation_idx: self.conversation_idx,
            llm_providers: self.llm_providers.deep_view(),
            selected_llm_provider: self.selected_llm_provider.deep_view(),
            models: self.models.deep_view(),
            selected_model: self.selected_model.deep_view(),
            search_providers: self.search_providers.deep_view(),
            settings_idx: self.settings_idx,
        }
    }
}

/// The lowercase form of an optional description; absent reads as empty.
pub open spec fn opt_lower(d: Option<Seq<char>>) -> Seq<char> {
    match d {
        Some(s) => lower_of(s),
        None => Seq::empty(),
    }
}

/// Whether an app matches the (already lowercased) filter query:
/// an empty query matches everything, otherwise the query must occur in
/// the lowercased name or description.
pub open spec fn app_matches(a: AppModelV, q: Seq<char>) -> bool {
    ||| q.len() == 0
    ||| is_substring(q, lower_of(a.name))
    ||| is_substring(q, opt_lower(a.description))
}

/// The indices, in order, of the apps that match the query.
pub open spec fn filtered_indices(apps: Seq<AppModelV>, q: Seq<char>) -> Seq<usize>
    decreases apps.len(),
{
    if apps.len() == 0 {
        Seq::empty()
    } else {
        let pre = filtered_indices(apps.drop_last(), q);
        if app_matches(apps.last(), q) {
            pre.push((apps.len() - 1) as usize)
        } else {
            pre
        }
    }
}

pub proof fn lemma_filtered_indices_bounds(apps: Seq<AppModelV>, q: Seq<char>)
    requires
        apps.len() <= usize::MAX,
    ensures
        forall|j: int|
            0 <= j < filtered_indices(apps, q).len() ==> (filtered_indices(apps, q)[j] as int)
                < apps.len(),
    decreases apps.len(),
{
    if apps.len() > 0 {
        lemma_filtered_indices_bounds(apps.drop_last(), q);
        let pre = filtered_indices(apps.drop_last(), q);
        assert forall|j: int|
            0 <= j < filtered_indices(apps, q).len() implies (filtered_indices(apps, q)[j] as int)
            < apps.len() by {
            if j < pre.len() {
                assert(filtered_indices(apps, q)[j] == pre[j]);
            }
        }
    }
}

/// The state invariant: the filtered list never diverges from
/// `(apps, filter)`, every selection index is in range, and an open
/// streaming target always points at an assistant message while the
/// busy flag is set.
pub open spec fn wf(s: AppV) -> bool {
    &&& s.filtered_apps == filtered_indices(s.apps, lower_of(s.filter_input))
    &&& (s.filtered_apps.len() == 0 ==> s.apps_idx == 0)
    &&& (s.filtered_apps.len() > 0 ==> (s.apps_idx as int) < s.filtered_apps.len())
    &&& s.active_form.focus_idx < 4
    &&& (s.conversation_idx as int) <= s.conversations.len()
    &&& s.conversations.len() + 1 <= usize::MAX
    &&& (s.settings_idx as int) < 2 + s.search_providers.len()
    &&& s.search_providers.len() + 2 <= usize::MAX
    &&& s.llm_providers.len() > 0
    &&& (s.open_message matches Some(i) ==> (i as int) < s.messages.len() && s.messages[
        i as int
    ].role == Role::Assistant)
    &&& (!s.is_searching ==> s.open_message is None)
}

/// The text the transcript opens with.
pub open spec fn welcome_text() -> Seq<char> {
    "Welcome to bplus search.\n\n- Press **Tab** to cycle focus (Sidebar -> Chat -> Input).\n- Use **Up/Down/PgUp/PgDn** to scroll chat when focused."@
}

/// The state the application starts in.
pub open spec fn init_state() -> AppV {
    AppV {
        should_quit: false,
        current_screen: CurrentScreen::Launcher,
        input_mode: InputMode::Normal,
        apps: Seq::empty(),
        filtered_apps: Seq::empty(),
        apps_idx: 0,
        launcher_logs: seq!["Ready."@],
        is_loading_apps: false,
        filter_input: Seq::empty(),
        active_form: init_form(),
        adhoc_input: Seq::empty(),
        search_input: Seq::empty(),
        messages: seq![
            ChatMessageV { role: Role::System, content: welcome_text(), sources: Seq::empty() },
        ],
        open_message: None,
        is_searching: false,
        search_sidebar: SearchSidebarState::Hidden,
        chat_scroll: 0,
        chat_auto_scroll: true,
        current_convo_id: None,
        conversations: Seq::empty(),
        conversation_idx: 0,
        llm_providers: seq!["lmstudio"@, "openai"@, "openrouter"@, "google"@],
        selected_llm_provider: "lmstudio"@,
        models: Seq::empty(),
        selected_model: "Loading..."@,
        search_providers: Seq::empty(),
        settings_idx: 0,
    }
}

pub proof fn lemma_init_wf()
    ensures
        wf(init_state()),
{
    assert(filtered_indices(Seq::empty(), lower_of(Seq::empty())) =~= Seq::<usize>::empty());
}

impl App {
    /// A fresh application state with all defaults.
    pub fn new() -> (r: App)
        ensures
            r.deep_view() == init_state(),
            wf(r.deep_view()),
    {
        let mut launcher_logs: Vec<String> = Vec::new();
        launcher_logs.push("Ready.".to_owned());
        let mut messages: Vec<ChatMessage> = Vec::new();
        messages.push(
            ChatMessage {
                role: Role::System,
                content: "Welcome to bplus search.\n\n- Press **Tab** to cycle focus (Sidebar -> Chat -> Input).\n- Use **Up/Down/PgUp/PgDn** to scroll chat when focused.".to_owned(),
                sources: Vec::new(),
            },
        );
        let mut llm_providers: Vec<String> = Vec::new();
        llm_providers.push("lmstudio".to_owned());
        llm_providers.push("openai".to_owned());
        llm_providers.push("openrouter".to_owned());
        llm_providers.push("google".to_owned());
        let r = App {
            should_quit: false,
            current_screen: CurrentScreen::Launcher,
            input_mode: InputMode::Normal,
            apps: Vec::new(),
            filtered_apps: Vec::new(),
            apps_idx: 0,
            launcher_logs,
            is_loading_apps: false,
            filter_input: String::new(),
            active_form: AppForm::default(),
            adhoc_input: String::new(),
            search_input: String::new(),
            messages,
            open_message: None,
            is_searching: false,
            search_sidebar: SearchSidebarState::Hidden,
            chat_scroll: 0,
            chat_auto_scroll: true,
            current_convo_id: None,
            conversations: Vec::new(),
            conversation_idx: 0,
            llm_providers,
            selected_llm_provider: "lmstudio".to_owned(),
            models: Vec::new(),
            selected_model: "Loading...".to_owned(),
            search_providers: Vec::new(),
            settings_idx: 0,
        };
        proof {
            assert(r.deep_view() =~~= init_state());
            lemma_init_wf();
        }
        r
    }

    /// The app the selection rests on, if the filtered list is not empty.
    pub fn get_selected_app(&self) -> (r: Option<&AppModel>)
        requires
            wf(self.deep_view()),
        ensures
            self.filtered_apps@.len() == 0 ==> r is None,
            self.filtered_apps@.len() > 0 ==> (r matches Some(a) && a.deep_view()
                == self.deep_view().apps[self.deep_view().filtered_apps[self.apps_idx as int] as int]),
    {
        if self.filtered_apps.len() == 0 {
            return None;
        }
        let n_apps = self.apps.len();
        proof {
            assert(self.deep_view().apps.len() == n_apps);
            lemma_filtered_indices_bounds(
                self.deep_view().apps,
                lower_of(self.deep_view().filter_input),
            );
            assert(self.filtered_apps.deep_view() =~= self.filtered_apps@);
        }
        let idx = self.filtered_apps[self.apps_idx];
        Some(&self.apps[idx])
    }

    /// The scroll offset the next redraw uses: pinned to the bottom
    /// while auto-follow is on, otherwise clamped to the maximum.
    pub fn project_scroll(&mut self, total_lines: u16, view_height: u16)
        ensures
            final(self).chat_scroll == (if old(self).chat_auto_scroll {
                max_scroll_of(total_lines, view_height)
            } else if old(self).chat_scroll > max_scroll_of(total_lines, view_height) {
                max_scroll_of(total_lines, view_height)
            } else {
                old(self).chat_scroll
            }),
            *final(self) == (App { chat_scroll: final(self).chat_scroll, ..*old(self) }),
    {
        let max_scroll = total_lines.saturating_sub(view_height);
        if self.chat_auto_scroll {
            self.chat_scroll = max_scroll;
        } else if self.chat_scroll > max_scroll {
            self.chat_scroll = max_scroll;
        }
    }
}

/// The largest scroll offset a transcript of `total` lines allows in a
/// viewport of `height` lines.
pub open spec fn max_scroll_of(total: u16, height: u16) -> u16 {
    if total >= height {
        (total - height) as u16
    } else {
        0
    }
}

} // verus!
