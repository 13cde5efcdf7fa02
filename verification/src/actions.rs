//! The closed set of events that can change state (`AppAction`), the
//! background requests a transition can ask for (`Effect`), and the
//! abstract keyboard alphabet (`Key`), with their ghost models.

use crate::state::AppModel;
use crate::state::AppModelV;
use crate::state::ChatMessage;
use crate::state::ChatMessageV;
use crate::state::Conversation;
use crate::state::ConversationV;
use crate::state::Model;
use crate::state::ModelV;
use crate::state::ProviderConfig;
use crate::state::ProviderConfigV;
use crate::state::SearchSource;
use crate::state::SearchSourceV;
use vstd::prelude::*;

verus! {

/// One state-changing event. Every keyboard gesture, timer tick and
/// background-task completion is turned into one of these before it
/// touches the state.
#[derive(Debug, Clone)]
pub enum AppAction {
    Tick,
    Quit,
    SwitchTab,
    // Launcher
    LoadApps,
    AppsLoaded(Vec<AppModel>),
    SelectNext,
    SelectPrev,
    ToggleFilter,
    EnterFilterChar(char),
    BackspaceFilter,
    OpenAddModal,
    OpenEditModal,
    ConfirmDelete,
    CloseModal,
    CycleFormFocus,
    FormChar(char),
    FormBackspace,
    SubmitForm,
    LaunchSelected,
    LaunchResult(String),
    OpenAdHocModal,
    AdHocChar(char),
    AdHocBackspace,
    SubmitAdHoc(String),
    // Search navigation
    ToggleSearchSidebar,
    CycleSearchFocus,
    SidebarNext,
    SidebarPrev,
    SidebarSelect,
    NewConversation,
    // Search data loading
    LoadSearchState,
    ConversationsLoaded(Vec<Conversation>),
    ProvidersLoaded(Vec<ProviderConfig>),
    ModelsLoaded(Vec<Model>),
    ConversationCreated(i64),
    LoadConversation(i64),
    ConversationLoaded(Vec<ChatMessage>),
    // Search interaction
    EnterSearchChar(char),
    DeleteSearchChar,
    SubmitSearch,
    ScrollChat(i16),
    SearchSourcesReceived(Vec<SearchSource>),
    SearchStreamToken(String),
    SearchError(String),
    SearchDone,
}

/// Model of an [`AppAction`].
#[verifier::ext_equal]
pub ghost enum ActionV {
    Tick,
    Quit,
    SwitchTab,
    LoadApps,
    AppsLoaded(Seq<AppModelV>),
    SelectNext,
    SelectPrev,
    ToggleFilter,
    EnterFilterChar(char),
    BackspaceFilter,
    OpenAddModal,
    OpenEditModal,
    ConfirmDelete,
    CloseModal,
    CycleFormFocus,
    FormChar(char),
    FormBackspace,
    SubmitForm,
    LaunchSelected,
    LaunchResult(Seq<char>),
    OpenAdHocModal,
    AdHocChar(char),
    AdHocBackspace,
    SubmitAdHoc(Seq<char>),
    ToggleSearchSidebar,
    CycleSearchFocus,
    SidebarNext,
    SidebarPrev,
    SidebarSelect,
    NewConversation,
    LoadSearchState,
    ConversationsLoaded(Seq<ConversationV>),
    ProvidersLoaded(Seq<ProviderConfigV>),
    ModelsLoaded(Seq<ModelV>),
    ConversationCreated(i64),
    LoadConversation(i64),
    ConversationLoaded(Seq<ChatMessageV>),
    EnterSearchChar(char),
    DeleteSearchChar,
    SubmitSearch,
    ScrollChat(i16),
    SearchSourcesReceived(Seq<SearchSourceV>),
    SearchStreamToken(Seq<char>),
    SearchError(Seq<char>),
    SearchDone,
}

impl DeepView for AppAction {
    type V = ActionV;

    open spec fn deep_view(&self) -> ActionV {
        match self {
            AppAction::Tick => ActionV::Tick,
            AppAction::Quit => ActionV::Quit,
            AppAction::SwitchTab => ActionV::SwitchTab,
            AppAction::LoadApps => ActionV::LoadApps,
            AppAction::AppsLoaded(v) => ActionV::AppsLoaded(v.deep_view()),
            AppAction::SelectNext => ActionV::SelectNext,
            AppAction::SelectPrev => ActionV::SelectPrev,
            AppAction::ToggleFilter => ActionV::ToggleFilter,
            AppAction::EnterFilterChar(c) => ActionV::EnterFilterChar(*c),
            AppAction::BackspaceFilter => ActionV::BackspaceFilter,
            AppAction::OpenAddModal => ActionV::OpenAddModal,
            AppAction::OpenEditModal => ActionV::OpenEditModal,
            AppAction::ConfirmDelete => ActionV::ConfirmDelete,
            AppAction::CloseModal => ActionV::CloseModal,
            AppAction::CycleFormFocus => ActionV::CycleFormFocus,
            AppAction::FormChar(c) => ActionV::FormChar(*c),
            AppAction::FormBackspace => ActionV::FormBackspace,
            AppAction::SubmitForm => ActionV::SubmitForm,
            AppAction::LaunchSelected => ActionV::LaunchSelected,
            AppAction::LaunchResult(s) => ActionV::LaunchResult(s.deep_view()),
            AppAction::OpenAdHocModal => ActionV::OpenAdHocModal,
            AppAction::AdHocChar(c) => ActionV::AdHocChar(*c),
            AppAction::AdHocBackspace => ActionV::AdHocBackspace,
            AppAction::SubmitAdHoc(s) => ActionV::SubmitAdHoc(s.deep_view()),
            AppAction::ToggleSearchSidebar => ActionV::ToggleSearchSidebar,
            AppAction::CycleSearchFocus => ActionV::CycleSearchFocus,
            AppAction::SidebarNext => ActionV::SidebarNext,
            AppAction::SidebarPrev => ActionV::SidebarPrev,
            AppAction::SidebarSelect => ActionV::SidebarSelect,
            AppAction::NewConversation => ActionV::NewConversation,
            AppAction::LoadSearchState => ActionV::LoadSearchState,
            AppAction::ConversationsLoaded(v) => ActionV::ConversationsLoaded(v.deep_view()),
            AppAction::ProvidersLoaded(v) => ActionV::ProvidersLoaded(v.deep_view()),
            AppAction::ModelsLoaded(v) => ActionV::ModelsLoaded(v.deep_view()),
            AppAction::ConversationCreated(id) => ActionV::ConversationCreated(*id),
            AppAction::LoadConversation(id) => ActionV::LoadConversation(*id),
            AppAction::ConversationLoaded(v) => ActionV::ConversationLoaded(v.deep_view()),
            AppAction::EnterSearchChar(c) => ActionV::EnterSearchChar(*c),
            AppAction::DeleteSearchChar => ActionV::DeleteSearchChar,
            AppAction::SubmitSearch => ActionV::SubmitSearch,
            AppAction::ScrollChat(d) => ActionV::ScrollChat(*d),
            AppAction::SearchSourcesReceived(v) => ActionV::SearchSourcesReceived(v.deep_view()),
            AppAction::SearchStreamToken(s) => ActionV::SearchStreamToken(s.deep_view()),
            AppAction::SearchError(s) => ActionV::SearchError(s.deep_view()),
            AppAction::SearchDone => ActionV::SearchDone,
        }
    }
}

/// A request for one background task. The reducer never performs these
/// itself: the outer loop runs each one and posts the resulting
/// [`AppAction`] back onto the queue.
#[derive(Debug, Clone)]
pub enum Effect {
    /// Fetch the app registry; completion is `AppsLoaded` or a
    /// `LaunchResult` error line.
    FetchApps,
    /// Create a registry entry; success is followed by `LoadApps`.
    CreateApp(AppModel),
    /// Update a registry entry; success is followed by `LoadApps`.
    UpdateApp(AppModel),
    /// Delete a registry entry, then reload the registry.
    DeleteApp(String),
    /// Launch the app with this id; completion is a `LaunchResult`.
    LaunchApp(String),
    /// Run a one-off command through a temporary registry entry.
    RunAdHoc(String),
    /// Fetch conversation summaries and provider configuration.
    LoadConversationsAndProviders,
    /// Fetch the models of this provider; completion is `ModelsLoaded`.
    FetchModels(String),
    /// Refresh the conversation summaries only.
    FetchConversations,
    /// Fetch one conversation transcript; completion is
    /// `ConversationLoaded` or `SearchError`.
    FetchTranscript(i64),
    /// Open a streaming query against the search service.
    StartStream {
        query: String,
        convo_id: Option<i64>,
        model: String,
        provider: String,
        active_providers: Vec<i64>,
    },
}

/// Model of an [`Effect`].
#[verifier::ext_equal]
pub ghost enum EffectV {
    FetchApps,
    CreateApp(AppModelV),
    UpdateApp(AppModelV),
    DeleteApp(Seq<char>),
    LaunchApp(Seq<char>),
    RunAdHoc(Seq<char>),
    LoadConversationsAndProviders,
    FetchModels(Seq<char>),
    FetchConversations,
    FetchTranscript(i64),
    StartStream {
        query: Seq<char>,
        convo_id: Option<i64>,
        model: Seq<char>,
        provider: Seq<char>,
        active_providers: Seq<i64>,
    },
}

impl DeepView for Effect {
    type V = EffectV;

    open spec fn deep_view(&self) -> EffectV {
        match self {
            Effect::FetchApps => EffectV::FetchApps,
            Effect::CreateApp(a) => EffectV::CreateApp(a.deep_view()),
            Effect::UpdateApp(a) => EffectV::UpdateApp(a.deep_view()),
            Effect::DeleteApp(id) => EffectV::DeleteApp(id.deep_view()),
            Effect::LaunchApp(id) => EffectV::LaunchApp(id.deep_view()),
            Effect::RunAdHoc(cmd) => EffectV::RunAdHoc(cmd.deep_view()),
            Effect::LoadConversationsAndProviders => EffectV::LoadConversationsAndProviders,
            Effect::FetchModels(p) => EffectV::FetchModels(p.deep_view()),
            Effect::FetchConversations => EffectV::FetchConversations,
            Effect::FetchTranscript(id) => EffectV::FetchTranscript(*id),
            Effect::StartStream { query, convo_id, model, provider, active_providers } => {
                EffectV::StartStream {
                    query: query.deep_view(),
                    convo_id: *convo_id,
                    model: model.deep_view(),
                    provider: provider.deep_view(),
                    active_providers: active_providers.deep_view(),
                }
            },
        }
    }
}

/// The machine-limit bound an incoming action must respect: a loaded
/// list leaves room for the sentinel rows its selection index counts.
pub open spec fn action_fits(a: ActionV) -> bool {
    match a {
        ActionV::ConversationsLoaded(cs) => cs.len() + 1 <= usize::MAX,
        ActionV::ProvidersLoaded(ps) => ps.len() + 2 <= usize::MAX,
        _ => true,
    }
}

/// The keys the interface distinguishes, already freed from any
/// terminal encoding.
#[derive(Debug, Clone, Copy, PartialEq, Eq, Structural)]
pub enum Key {
    Tab,
    Esc,
    Enter,
    Backspace,
    Up,
    Down,
    PageUp,
    PageDown,
    Char(char),
}

} // verus!
