use bplus_tui::actions::AppAction;
use bplus_tui::actions::Effect;
use bplus_tui::actions::Key;
use bplus_tui::state::App;
use bplus_tui::state::AppModel;
use bplus_tui::state::Conversation;
use bplus_tui::state::CurrentScreen;
use bplus_tui::state::InputMode;
use bplus_tui::state::Role;
use bplus_tui::state::SearchSidebarState;
use bplus_tui::state::SearchSource;

fn sample_apps() -> Vec<AppModel> {
    vec![
        AppModel {
            id: "1".to_string(),
            name: "Firefox".to_string(),
            description: Some("Web #browser".to_string()),
            command: "firefox".to_string(),
            url: "http://localhost".to_string(),
        },
        AppModel {
            id: "2".to_string(),
            name: "Terminal".to_string(),
            description: None,
            command: "term".to_string(),
            url: "http://localhost".to_string(),
        },
        AppModel {
            id: "3".to_string(),
            name: "editor".to_string(),
            description: Some("Fires up FILES".to_string()),
            command: "edit".to_string(),
            url: "http://localhost".to_string(),
        },
    ]
}

fn source(tag: &str) -> SearchSource {
    SearchSource {
        title: format!("title-{}", tag),
        url: format!("url-{}", tag),
        content: format!("content-{}", tag),
        engine: format!("engine-{}", tag),
    }
}

#[test]
fn initial_state_defaults() {
    let app = App::new();
    assert!(!app.should_quit);
    assert_eq!(app.current_screen, CurrentScreen::Launcher);
    assert_eq!(app.input_mode, InputMode::Normal);
    assert_eq!(app.launcher_logs, vec!["Ready.".to_string()]);
    assert_eq!(app.messages.len(), 1);
    assert_eq!(app.messages[0].role, Role::System);
    assert!(app.chat_auto_scroll);
    assert!(!app.is_searching);
    assert_eq!(app.selected_llm_provider, "lmstudio");
    assert_eq!(app.llm_providers.len(), 4);
}

#[test]
fn filter_is_case_insensitive_and_resets_selection() {
    let mut app = App::new();
    app.update(AppAction::AppsLoaded(sample_apps()));
    assert_eq!(app.filtered_apps, vec![0, 1, 2]);
    app.update(AppAction::SelectNext);
    assert_eq!(app.apps_idx, 1);
    app.update(AppAction::ToggleFilter);
    assert_eq!(app.input_mode, InputMode::Filtering);
    app.update(AppAction::EnterFilterChar('F'));
    app.update(AppAction::EnterFilterChar('I'));
    // "FI" lowercased matches "Firefox" by name and "Fires up FILES" in
    // a description, never "Terminal".
    assert_eq!(app.filtered_apps, vec![0, 2]);
    assert_eq!(app.apps_idx, 0);
    app.update(AppAction::BackspaceFilter);
    app.update(AppAction::BackspaceFilter);
    assert_eq!(app.filtered_apps, vec![0, 1, 2]);
}

#[test]
fn selection_wraps_in_launcher() {
    let mut app = App::new();
    app.update(AppAction::AppsLoaded(sample_apps()));
    app.update(AppAction::SelectPrev);
    assert_eq!(app.apps_idx, 2);
    app.update(AppAction::SelectNext);
    assert_eq!(app.apps_idx, 0);
    let selected = app.get_selected_app().expect("a selection");
    assert_eq!(selected.name, "Firefox");
}

#[test]
fn streaming_merge_example() {
    let mut app = App::new();
    app.update(AppAction::SwitchTab);
    app.update(AppAction::EnterSearchChar('h'));
    app.update(AppAction::EnterSearchChar('i'));
    let before = app.messages.len();
    let (_, effects) = app.update(AppAction::SubmitSearch);
    assert!(app.is_searching);
    assert_eq!(app.messages.len(), before + 2);
    assert!(app.search_input.is_empty());
    assert!(matches!(effects[0], Effect::StartStream { .. }));
    let s1 = source("a");
    let s2 = source("b");
    app.update(AppAction::SearchSourcesReceived(vec![s1.clone(), s2.clone()]));
    app.update(AppAction::SearchStreamToken("Hel".to_string()));
    app.update(AppAction::SearchStreamToken("lo".to_string()));
    app.update(AppAction::SearchDone);
    let last = app.messages.last().expect("a message");
    assert_eq!(last.role, Role::Assistant);
    assert_eq!(last.content, "Hello");
    assert_eq!(last.sources, vec![s1, s2]);
    assert!(!app.is_searching);
}

#[test]
fn blank_query_is_not_submitted() {
    let mut app = App::new();
    app.update(AppAction::SwitchTab);
    app.update(AppAction::EnterSearchChar(' '));
    app.update(AppAction::EnterSearchChar('\t'));
    let before = app.messages.len();
    let (_, effects) = app.update(AppAction::SubmitSearch);
    assert!(effects.is_empty());
    assert!(!app.is_searching);
    assert_eq!(app.messages.len(), before);
}

#[test]
fn completion_when_idle_changes_nothing() {
    let mut app = App::new();
    let msgs_before = app.messages.len();
    app.update(AppAction::SearchDone);
    assert!(!app.is_searching);
    assert_eq!(app.messages.len(), msgs_before);
    app.update(AppAction::SearchError("late".to_string()));
    assert!(!app.is_searching);
    assert_eq!(app.messages.len(), msgs_before);
}

#[test]
fn stream_error_appends_one_system_message() {
    let mut app = App::new();
    app.update(AppAction::SwitchTab);
    app.update(AppAction::EnterSearchChar('x'));
    app.update(AppAction::SubmitSearch);
    let before = app.messages.len();
    app.update(AppAction::SearchError("boom".to_string()));
    assert!(!app.is_searching);
    assert_eq!(app.messages.len(), before + 1);
    let last = app.messages.last().unwrap();
    assert_eq!(last.role, Role::System);
    assert_eq!(last.content, "Error: boom");
    // a duplicate error after the flag cleared is ignored
    app.update(AppAction::SearchError("boom".to_string()));
    assert_eq!(app.messages.len(), before + 1);
}

#[test]
fn late_tokens_after_done_are_dropped() {
    let mut app = App::new();
    app.update(AppAction::SwitchTab);
    app.update(AppAction::EnterSearchChar('x'));
    app.update(AppAction::SubmitSearch);
    app.update(AppAction::SearchStreamToken("par".to_string()));
    app.update(AppAction::SearchDone);
    let content_after_done = app.messages.last().unwrap().content.clone();
    app.update(AppAction::SearchStreamToken("tial".to_string()));
    assert_eq!(app.messages.last().unwrap().content, content_after_done);
}

#[test]
fn scroll_example() {
    let mut app = App::new();
    assert!(app.chat_auto_scroll);
    app.project_scroll(50, 10);
    assert_eq!(app.chat_scroll, 40);
    app.update(AppAction::ScrollChat(-5));
    assert!(!app.chat_auto_scroll);
    assert_eq!(app.chat_scroll, 35);
    app.project_scroll(50, 10);
    assert_eq!(app.chat_scroll, 35);
    app.update(AppAction::NewConversation);
    assert!(app.chat_auto_scroll);
}

#[test]
fn scroll_clamps_at_both_ends() {
    let mut app = App::new();
    app.update(AppAction::ScrollChat(-10));
    assert_eq!(app.chat_scroll, 0);
    app.update(AppAction::ScrollChat(7));
    app.update(AppAction::ScrollChat(-3));
    assert_eq!(app.chat_scroll, 4);
    app.project_scroll(5, 10);
    assert_eq!(app.chat_scroll, 0);
}

#[test]
fn sidebar_wraparound_example() {
    let mut app = App::new();
    app.update(AppAction::SwitchTab);
    let convos = vec![
        Conversation { id: 10, title: "one".to_string() },
        Conversation { id: 11, title: "two".to_string() },
        Conversation { id: 12, title: "three".to_string() },
    ];
    app.update(AppAction::ConversationsLoaded(convos));
    app.update(AppAction::ToggleSearchSidebar);
    assert_eq!(app.search_sidebar, SearchSidebarState::History);
    assert_eq!(app.input_mode, InputMode::SearchSidebar);
    let mut seen = Vec::new();
    for _ in 0..5 {
        app.update(AppAction::SidebarNext);
        seen.push(app.conversation_idx);
    }
    assert_eq!(seen, vec![1, 2, 3, 0, 1]);
    app.update(AppAction::SidebarPrev);
    assert_eq!(app.conversation_idx, 0);
    app.update(AppAction::SidebarPrev);
    assert_eq!(app.conversation_idx, 3);
}

#[test]
fn sidebar_select_on_sentinel_enqueues_new_conversation() {
    let mut app = App::new();
    app.update(AppAction::SwitchTab);
    app.update(AppAction::ToggleSearchSidebar);
    let (follow_ups, _) = app.update(AppAction::SidebarSelect);
    assert!(matches!(follow_ups[0], AppAction::NewConversation));
    app.update(AppAction::NewConversation);
    assert_eq!(app.messages.len(), 1);
    assert_eq!(app.messages[0].content, "New conversation started.");
    assert_eq!(app.search_sidebar, SearchSidebarState::Hidden);
    assert_eq!(app.input_mode, InputMode::SearchInput);
}

#[test]
fn focus_cycle_example() {
    let mut app = App::new();
    app.update(AppAction::SwitchTab);
    assert_eq!(app.current_screen, CurrentScreen::Search);
    assert_eq!(app.input_mode, InputMode::SearchInput);
    // sidebar hidden: input -> chat -> input
    app.update(AppAction::CycleSearchFocus);
    assert_eq!(app.input_mode, InputMode::ChatHistory);
    app.update(AppAction::CycleSearchFocus);
    assert_eq!(app.input_mode, InputMode::SearchInput);
    // sidebar visible: input -> sidebar
    app.update(AppAction::ToggleSearchSidebar);
    app.update(AppAction::CycleSearchFocus);
    assert_eq!(app.input_mode, InputMode::ChatHistory);
    app.update(AppAction::CycleSearchFocus);
    assert_eq!(app.input_mode, InputMode::SearchInput);
    app.update(AppAction::CycleSearchFocus);
    assert_eq!(app.input_mode, InputMode::SearchSidebar);
}

#[test]
fn switch_tab_loads_search_config_once() {
    let mut app = App::new();
    let (follow_ups, _) = app.update(AppAction::SwitchTab);
    assert!(matches!(follow_ups[0], AppAction::LoadSearchState));
    app.update(AppAction::ProvidersLoaded(vec![bplus_tui::state::ProviderConfig {
        id: 1,
        name: "ddg".to_string(),
        type_: "web".to_string(),
        is_enabled: true,
    }]));
    app.update(AppAction::SwitchTab);
    let (follow_ups, _) = app.update(AppAction::SwitchTab);
    assert!(follow_ups.is_empty());
}

#[test]
fn launch_result_splits_lines_and_trims_log() {
    let mut app = App::new();
    app.update(AppAction::LaunchResult("one\ntwo\r\nthree".to_string()));
    assert_eq!(
        app.launcher_logs,
        vec!["Ready.".to_string(), "one".to_string(), "two".to_string(), "three".to_string()],
    );
    let long = "line\n".repeat(150);
    app.update(AppAction::LaunchResult(long));
    assert_eq!(app.launcher_logs.len(), 100);
    assert_eq!(app.launcher_logs[0], "line");
}

#[test]
fn form_edit_and_submit_update_effect() {
    let mut app = App::new();
    app.update(AppAction::AppsLoaded(sample_apps()));
    app.update(AppAction::OpenEditModal);
    assert_eq!(app.input_mode, InputMode::Editing);
    assert_eq!(app.active_form.id, "1");
    assert_eq!(app.active_form.name, "Firefox");
    app.update(AppAction::FormChar('!'));
    assert_eq!(app.active_form.name, "Firefox!");
    app.update(AppAction::CycleFormFocus);
    app.update(AppAction::FormChar('x'));
    assert_eq!(app.active_form.desc, "Web #browserx");
    let (_, effects) = app.update(AppAction::SubmitForm);
    assert_eq!(app.input_mode, InputMode::Normal);
    match &effects[0] {
        Effect::UpdateApp(m) => {
            assert_eq!(m.id, "1");
            assert_eq!(m.name, "Firefox!");
            assert_eq!(m.description.as_deref(), Some("Web #browserx"));
        },
        other => panic!("expected an update effect, got {:?}", other),
    }
}

#[test]
fn add_form_submit_creates() {
    let mut app = App::new();
    app.update(AppAction::OpenAddModal);
    assert_eq!(app.active_form.url, "http://localhost");
    app.update(AppAction::FormChar('n'));
    let (_, effects) = app.update(AppAction::SubmitForm);
    assert!(matches!(effects[0], Effect::CreateApp(_)));
}

#[test]
fn adhoc_command_flow() {
    let mut app = App::new();
    app.update(AppAction::OpenAdHocModal);
    assert_eq!(app.input_mode, InputMode::AdHocCmd);
    app.update(AppAction::AdHocChar('l'));
    app.update(AppAction::AdHocChar('s'));
    let submit = app.map_key(Key::Enter, false).expect("an action");
    match &submit {
        AppAction::SubmitAdHoc(cmd) => assert_eq!(cmd, "ls"),
        other => panic!("expected an ad-hoc submit, got {:?}", other),
    }
    let (_, effects) = app.update(submit);
    assert_eq!(app.input_mode, InputMode::Normal);
    assert_eq!(app.launcher_logs.last().unwrap(), "Running ad-hoc: ls");
    match &effects[0] {
        Effect::RunAdHoc(cmd) => assert_eq!(cmd, "ls"),
        other => panic!("expected an ad-hoc effect, got {:?}", other),
    }
}

#[test]
fn key_dispatch_per_mode() {
    let mut app = App::new();
    assert!(matches!(app.map_key(Key::Tab, false), Some(AppAction::SwitchTab)));
    assert!(matches!(app.map_key(Key::Char('q'), false), Some(AppAction::Quit)));
    assert!(matches!(app.map_key(Key::Char('j'), false), Some(AppAction::SelectNext)));
    assert!(matches!(app.map_key(Key::Char('z'), false), None));
    app.update(AppAction::SwitchTab);
    assert!(matches!(app.map_key(Key::Char('z'), false), Some(AppAction::EnterSearchChar('z'))));
    assert!(matches!(app.map_key(Key::Char('s'), true), Some(AppAction::ToggleSearchSidebar)));
    assert!(matches!(app.map_key(Key::Char('q'), true), Some(AppAction::Quit)));
    assert!(matches!(app.map_key(Key::Esc, false), Some(AppAction::SwitchTab)));
    app.update(AppAction::CycleSearchFocus);
    assert!(matches!(app.map_key(Key::PageUp, false), Some(AppAction::ScrollChat(-10))));
    assert!(matches!(app.map_key(Key::Char('j'), false), Some(AppAction::ScrollChat(1))));
}

#[test]
fn launch_output_formats() {
    let ok = bplus_tui::state::LaunchResponse {
        success: true,
        message: "fine".to_string(),
        stdout: "out".to_string(),
        stderr: "err".to_string(),
    };
    assert_eq!(ok.launch_output(), "Success:\nout");
    assert_eq!(ok.adhoc_output(), "out\nerr");
    let bad = bplus_tui::state::LaunchResponse { success: false, ..ok };
    assert_eq!(bad.launch_output(), "Failed:\nfine\nerr");
    assert_eq!(bad.adhoc_output(), "Failed: fine\nerr");
}

#[test]
fn quit_sets_flag() {
    let mut app = App::new();
    app.update(AppAction::Quit);
    assert!(app.should_quit);
}

#[test]
fn models_loaded_picks_first() {
    let mut app = App::new();
    app.update(AppAction::ModelsLoaded(vec![
        bplus_tui::state::Model { id: "m1".to_string(), name: "One".to_string() },
        bplus_tui::state::Model { id: "m2".to_string(), name: "Two".to_string() },
    ]));
    assert_eq!(app.selected_model, "m1");
    app.update(AppAction::ModelsLoaded(vec![]));
    assert_eq!(app.selected_model, "default");
}

#[test]
fn settings_cycle_provider_and_toggle_source() {
    let mut app = App::new();
    app.update(AppAction::SwitchTab);
    app.update(AppAction::ProvidersLoaded(vec![
        bplus_tui::state::ProviderConfig {
            id: 7,
            name: "ddg".to_string(),
            type_: "web".to_string(),
            is_enabled: false,
        },
    ]));
    app.update(AppAction::ToggleSearchSidebar);
    app.update(AppAction::ToggleSearchSidebar);
    assert_eq!(app.search_sidebar, SearchSidebarState::Settings);
    let (_, effects) = app.update(AppAction::SidebarSelect);
    assert_eq!(app.selected_llm_provider, "openai");
    match &effects[0] {
        Effect::FetchModels(p) => assert_eq!(p, "openai"),
        other => panic!("expected a model fetch, got {:?}", other),
    }
    app.update(AppAction::SidebarNext);
    app.update(AppAction::SidebarNext);
    assert_eq!(app.settings_idx, 2);
    app.update(AppAction::SidebarSelect);
    assert!(app.search_providers[0].is_enabled);
    app.update(AppAction::SidebarNext);
    assert_eq!(app.settings_idx, 0);
}

#[test]
fn load_conversation_reseeds_transcript() {
    let mut app = App::new();
    app.update(AppAction::SwitchTab);
    let (_, effects) = app.update(AppAction::LoadConversation(42));
    assert_eq!(app.current_convo_id, Some(42));
    assert_eq!(app.messages.len(), 1);
    assert_eq!(app.messages[0].content, "Loading conversation...");
    assert_eq!(app.input_mode, InputMode::ChatHistory);
    assert!(app.chat_auto_scroll);
    assert!(matches!(effects[0], Effect::FetchTranscript(42)));
}

#[test]
fn enabled_providers_fill_stream_request() {
    let mut app = App::new();
    app.update(AppAction::SwitchTab);
    app.update(AppAction::ProvidersLoaded(vec![
        bplus_tui::state::ProviderConfig {
            id: 1,
            name: "a".to_string(),
            type_: "web".to_string(),
            is_enabled: true,
        },
        bplus_tui::state::ProviderConfig {
            id: 2,
            name: "b".to_string(),
            type_: "web".to_string(),
            is_enabled: false,
        },
        bplus_tui::state::ProviderConfig {
            id: 3,
            name: "c".to_string(),
            type_: "web".to_string(),
            is_enabled: true,
        },
    ]));
    app.update(AppAction::EnterSearchChar('q'));
    let (_, effects) = app.update(AppAction::SubmitSearch);
    match &effects[0] {
        Effect::StartStream { query, convo_id, provider, active_providers, .. } => {
            assert_eq!(query, "q");
            assert_eq!(*convo_id, None);
            assert_eq!(provider, "lmstudio");
            assert_eq!(active_providers, &vec![1, 3]);
        },
        other => panic!("expected a stream effect, got {:?}", other),
    }
}

#[test]
fn character_input_outside_text_entry_is_ignored() {
    let mut app = App::new();
    // launcher normal mode: no text field has focus
    app.update(AppAction::EnterSearchChar('x'));
    app.update(AppAction::FormChar('x'));
    app.update(AppAction::AdHocChar('x'));
    assert!(app.search_input.is_empty());
    assert!(app.active_form.name.is_empty());
    assert!(app.adhoc_input.is_empty());
    // search input accepts query characters but not form or ad-hoc ones
    app.update(AppAction::SwitchTab);
    app.update(AppAction::EnterSearchChar('y'));
    app.update(AppAction::FormChar('y'));
    app.update(AppAction::AdHocChar('y'));
    assert_eq!(app.search_input, "y");
    assert!(app.active_form.name.is_empty());
    assert!(app.adhoc_input.is_empty());
    app.update(AppAction::AdHocBackspace);
    app.update(AppAction::DeleteSearchChar);
    assert!(app.search_input.is_empty());
}

#[test]
fn modal_blocks_tab_switch() {
    let mut app = App::new();
    app.update(AppAction::OpenAddModal);
    app.update(AppAction::SwitchTab);
    assert_eq!(app.current_screen, CurrentScreen::Launcher);
    assert_eq!(app.input_mode, InputMode::Editing);
    app.update(AppAction::CloseModal);
    assert_eq!(app.input_mode, InputMode::Normal);
}
