//! The transition function: the complete mathematical model of how one
//! action transforms the application state, which follow-up actions it
//! enqueues, and which background tasks it requests. `App::update`
//! implements exactly this function, so a sequence of actions replayed
//! from the same state always reaches the same state.

use crate::actions::action_fits;
use crate::actions::ActionV;
use crate::actions::EffectV;
use crate::state::wf;
use crate::state::app_matches;
use crate::state::filtered_indices;
use crate::state::init_form;
use crate::state::AppFormV;
use crate::state::AppModelV;
use crate::state::AppV;
use crate::state::ChatMessageV;
use crate::state::CurrentScreen;
use crate::state::InputMode;
use crate::state::ModelV;
use crate::state::ProviderConfigV;
use crate::state::Role;
use crate::state::SearchSidebarState;
use crate::text::blank;
use crate::text::lower_of;
use crate::text::split_lines;
use vstd::prelude::*;

verus! {

/// The launcher keeps at most this many log lines.
pub const LOG_LIMIT: usize = 100;

/// What one action yields: the next state, the follow-up actions to
/// enqueue (in order), and the background tasks to start (in order).
#[verifier::ext_equal]
pub ghost struct Step {
    pub s: AppV,
    pub fol: Seq<ActionV>,
    pub eff: Seq<EffectV>,
}

/// A transition that neither enqueues nor spawns.
pub open spec fn just(s: AppV) -> Step {
    Step { s, fol: Seq::empty(), eff: Seq::empty() }
}

/// A description read as text, absent read as empty.
pub open spec fn opt_or_empty(d: Option<Seq<char>>) -> Seq<char> {
    match d {
        Some(x) => x,
        None => Seq::empty(),
    }
}

/// Recomputes the filtered list from `(apps, filter)` and resets the
/// selection.
pub open spec fn refilter(s: AppV) -> AppV {
    AppV { filtered_apps: filtered_indices(s.apps, lower_of(s.filter_input)), apps_idx: 0, ..s }
}

/// The app record the launcher selection rests on.
pub open spec fn selected_app(s: AppV) -> AppModelV {
    s.apps[s.filtered_apps[s.apps_idx as int] as int]
}

/// Logs trimmed to the newest `LOG_LIMIT` lines.
pub open spec fn trim_logs(logs: Seq<Seq<char>>) -> Seq<Seq<char>> {
    if logs.len() > LOG_LIMIT {
        logs.skip(logs.len() - LOG_LIMIT)
    } else {
        logs
    }
}

/// A system-role message with this text.
pub open spec fn sys_msg(content: Seq<char>) -> ChatMessageV {
    ChatMessageV { role: Role::System, content, sources: Seq::empty() }
}

/// A user-role message with this text.
pub open spec fn user_msg(content: Seq<char>) -> ChatMessageV {
    ChatMessageV { role: Role::User, content, sources: Seq::empty() }
}

/// The empty assistant message a stream opens with.
pub open spec fn assistant_empty() -> ChatMessageV {
    ChatMessageV { role: Role::Assistant, content: Seq::empty(), sources: Seq::empty() }
}

/// The model record a submitted form describes.
pub open spec fn model_of_form(f: AppFormV) -> AppModelV {
    AppModelV { id: f.id, name: f.name, description: Some(f.desc), command: f.cmd, url: f.url }
}

/// One character typed into whichever form field has focus.
pub open spec fn form_push(f: AppFormV, c: char) -> AppFormV {
    if f.focus_idx == 0 {
        AppFormV { name: f.name.push(c), ..f }
    } else if f.focus_idx == 1 {
        AppFormV { desc: f.desc.push(c), ..f }
    } else if f.focus_idx == 2 {
        AppFormV { cmd: f.cmd.push(c), ..f }
    } else if f.focus_idx == 3 {
        AppFormV { url: f.url.push(c), ..f }
    } else {
        f
    }
}

/// One character deleted from whichever form field has focus.
pub open spec fn form_pop(f: AppFormV) -> AppFormV {
    if f.focus_idx == 0 {
        AppFormV { name: pop_seq(f.name), ..f }
    } else if f.focus_idx == 1 {
        AppFormV { desc: pop_seq(f.desc), ..f }
    } else if f.focus_idx == 2 {
        AppFormV { cmd: pop_seq(f.cmd), ..f }
    } else if f.focus_idx == 3 {
        AppFormV { url: pop_seq(f.url), ..f }
    } else {
        f
    }
}

/// A sequence with its last element removed, if it has one.
pub open spec fn pop_seq(s: Seq<char>) -> Seq<char> {
    if s.len() > 0 {
        s.drop_last()
    } else {
        s
    }
}

/// The sidebar cycle: hidden, history, settings, hidden.
pub open spec fn next_sidebar(sb: SearchSidebarState) -> SearchSidebarState {
    match sb {
        SearchSidebarState::Hidden => SearchSidebarState::History,
        SearchSidebarState::History => SearchSidebarState::Settings,
        SearchSidebarState::Settings => SearchSidebarState::Hidden,
    }
}

/// The focus cycle within the search screen: input, sidebar (skipped
/// while hidden), chat, and back to input.
pub open spec fn next_focus(mode: InputMode, sb: SearchSidebarState) -> InputMode {
    match mode {
        InputMode::SearchInput => if sb != SearchSidebarState::Hidden {
            InputMode::SearchSidebar
        } else {
            InputMode::ChatHistory
        },
        InputMode::SearchSidebar => InputMode::ChatHistory,
        InputMode::ChatHistory => InputMode::SearchInput,
        _ => InputMode::SearchInput,
    }
}

/// Index of the first entry equal to `x`, or `ss.len()` if none is.
pub open spec fn find_text(ss: Seq<Seq<char>>, x: Seq<char>) -> nat
    decreases ss.len(),
{
    if ss.len() == 0 {
        0
    } else if ss[0] == x {
        0
    } else {
        1 + find_text(ss.skip(1), x)
    }
}

pub proof fn lemma_find_text(ss: Seq<Seq<char>>, x: Seq<char>)
    ensures
        find_text(ss, x) <= ss.len(),
        find_text(ss, x) < ss.len() ==> ss[find_text(ss, x) as int] == x,
        forall|i: int| 0 <= i < find_text(ss, x) ==> ss[i] != x,
    decreases ss.len(),
{
    if ss.len() > 0 && ss[0] != x {
        lemma_find_text(ss.skip(1), x);
        assert forall|i: int| 0 <= i < find_text(ss, x) implies ss[i] != x by {
            if i > 0 {
                assert(ss.skip(1)[i - 1] == ss[i]);
            }
        }
    }
}

/// Index of the first model whose id is `x`, or `ms.len()` if none is.
pub open spec fn find_model(ms: Seq<ModelV>, x: Seq<char>) -> nat
    decreases ms.len(),
{
    if ms.len() == 0 {
        0
    } else if ms[0].id == x {
        0
    } else {
        1 + find_model(ms.skip(1), x)
    }
}

pub proof fn lemma_find_model(ms: Seq<ModelV>, x: Seq<char>)
    ensures
        find_model(ms, x) <= ms.len(),
        find_model(ms, x) < ms.len() ==> ms[find_model(ms, x) as int].id == x,
        forall|i: int| 0 <= i < find_model(ms, x) ==> ms[i].id != x,
    decreases ms.len(),
{
    if ms.len() > 0 && ms[0].id != x {
        lemma_find_model(ms.skip(1), x);
        assert forall|i: int| 0 <= i < find_model(ms, x) implies ms[i].id != x by {
            if i > 0 {
                assert(ms.skip(1)[i - 1] == ms[i]);
            }
        }
    }
}

/// The provider the selection cycle advances to.
pub open spec fn next_llm_provider(s: AppV) -> Seq<char> {
    let found = find_text(s.llm_providers, s.selected_llm_provider);
    let curr: int = if found < s.llm_providers.len() {
        found as int
    } else {
        0
    };
    s.llm_providers[(curr + 1) % (s.llm_providers.len() as int)]
}

/// The model id the selection cycle advances to.
pub open spec fn next_model_id(s: AppV) -> Seq<char> {
    let found = find_model(s.models, s.selected_model);
    let curr: int = if found < s.models.len() {
        found as int
    } else {
        0
    };
    s.models[(curr + 1) % (s.models.len() as int)].id
}

/// The ids of the enabled search providers, in order.
pub open spec fn enabled_ids(ps: Seq<ProviderConfigV>) -> Seq<i64>
    decreases ps.len(),
{
    if ps.len() == 0 {
        Seq::empty()
    } else {
        let pre = enabled_ids(ps.drop_last());
        if ps.last().is_enabled {
            pre.push(ps.last().id)
        } else {
            pre
        }
    }
}

/// A manual scroll by `d` lines, saturating at both ends.
pub open spec fn scrolled(x: u16, d: i16) -> u16 {
    if d < 0 {
        let m = -(d as int);
        if x as int >= m {
            (x as int - m) as u16
        } else {
            0
        }
    } else {
        if x as int + d as int <= u16::MAX as int {
            (x as int + d as int) as u16
        } else {
            u16::MAX
        }
    }
}

/// The transition function. Every clause mirrors one action; actions
/// inapplicable in the current context leave the state unchanged.
pub open spec fn step(s: AppV, a: ActionV) -> Step {
    match a {
        ActionV::Tick => just(s),
        ActionV::Quit => just(AppV { should_quit: true, ..s }),
        ActionV::SwitchTab => {
            if s.input_mode == InputMode::Editing {
                just(s)
            } else {
                match s.current_screen {
                    CurrentScreen::Launcher => Step {
                        s: AppV {
                            current_screen: CurrentScreen::Search,
                            input_mode: InputMode::SearchInput,
                            ..s
                        },
                        fol: if s.search_providers.len() == 0 {
                            seq![ActionV::LoadSearchState]
                        } else {
                            Seq::empty()
                        },
                        eff: Seq::empty(),
                    },
                    CurrentScreen::Search => just(
                        AppV {
                            current_screen: CurrentScreen::Launcher,
                            input_mode: InputMode::Normal,
                            ..s
                        },
                    ),
                }
            }
        },
        ActionV::LoadApps => Step {
            s: AppV { is_loading_apps: true, ..s },
            fol: Seq::empty(),
            eff: seq![EffectV::FetchApps],
        },
        ActionV::AppsLoaded(apps) => just(refilter(AppV { apps, is_loading_apps: false, ..s })),
        ActionV::SelectNext => {
            if s.filtered_apps.len() > 0 {
                just(
                    AppV {
                        apps_idx: (((s.apps_idx + 1) as int) % (s.filtered_apps.len() as int)) as usize,
                        ..s
                    },
                )
            } else {
                just(s)
            }
        },
        ActionV::SelectPrev => {
            if s.filtered_apps.len() > 0 {
                just(
                    AppV {
                        apps_idx: if s.apps_idx == 0 {
                            (s.filtered_apps.len() - 1) as usize
                        } else {
                            (s.apps_idx - 1) as usize
                        },
                        ..s
                    },
                )
            } else {
                just(s)
            }
        },
        ActionV::ToggleFilter => {
            if s.input_mode == InputMode::Filtering {
                just(AppV { input_mode: InputMode::Normal, ..s })
            } else {
                just(
                    refilter(
                        AppV {
                            filter_input: Seq::empty(),
                            input_mode: InputMode::Filtering,
                            ..s
                        },
                    ),
                )
            }
        },
        ActionV::EnterFilterChar(c) => just(
            refilter(AppV { filter_input: s.filter_input.push(c), ..s }),
        ),
        ActionV::BackspaceFilter => just(
            refilter(AppV { filter_input: pop_seq(s.filter_input), ..s }),
        ),
        ActionV::OpenAddModal => just(
            AppV { active_form: init_form(), input_mode: InputMode::Editing, ..s },
        ),
        ActionV::OpenEditModal => {
            if s.filtered_apps.len() > 0 {
                let a = selected_app(s);
                just(
                    AppV {
                        active_form: AppFormV {
                            id: a.id,
                            name: a.name,
                            desc: opt_or_empty(a.description),
                            cmd: a.command,
                            url: a.url,
                            focus_idx: 0,
                        },
                        input_mode: InputMode::Editing,
                        ..s
                    },
                )
            } else {
                just(s)
            }
        },
        ActionV::CloseModal => just(AppV { input_mode: InputMode::Normal, ..s }),
        ActionV::CycleFormFocus => just(
            AppV {
                active_form: AppFormV {
                    focus_idx: (((s.active_form.focus_idx + 1) as int) % 4) as usize,
                    ..s.active_form
                },
                ..s
            },
        ),
        ActionV::FormChar(c) => {
            if s.input_mode == InputMode::Editing {
                just(AppV { active_form: form_push(s.active_form, c), ..s })
            } else {
                just(s)
            }
        },
        ActionV::FormBackspace => {
            if s.input_mode == InputMode::Editing {
                just(AppV { active_form: form_pop(s.active_form), ..s })
            } else {
                just(s)
            }
        },
        ActionV::SubmitForm => Step {
            s: AppV { input_mode: InputMode::Normal, ..s },
            fol: Seq::empty(),
            eff: seq![
                if s.active_form.id.len() == 0 {
                    EffectV::CreateApp(model_of_form(s.active_form))
                } else {
                    EffectV::UpdateApp(model_of_form(s.active_form))
                },
            ],
        },
        ActionV::ConfirmDelete => {
            if s.filtered_apps.len() > 0 {
                Step { s, fol: Seq::empty(), eff: seq![EffectV::DeleteApp(selected_app(s).id)] }
            } else {
                just(s)
            }
        },
        ActionV::LaunchSelected => {
            if s.filtered_apps.len() > 0 {
                let a = selected_app(s);
                Step {
                    s: AppV {
                        launcher_logs: s.launcher_logs.push("Executing '"@ + a.name + "'..."@),
                        ..s
                    },
                    fol: Seq::empty(),
                    eff: seq![EffectV::LaunchApp(a.id)],
                }
            } else {
                just(s)
            }
        },
        ActionV::LaunchResult(msg) => just(
            AppV { launcher_logs: trim_logs(s.launcher_logs + split_lines(msg)), ..s },
        ),
        ActionV::OpenAdHocModal => just(
            AppV { adhoc_input: Seq::empty(), input_mode: InputMode::AdHocCmd, ..s },
        ),
        ActionV::AdHocChar(c) => {
            if s.input_mode == InputMode::AdHocCmd {
                just(AppV { adhoc_input: s.adhoc_input.push(c), ..s })
            } else {
                just(s)
            }
        },
        ActionV::AdHocBackspace => {
            if s.input_mode == InputMode::AdHocCmd {
                just(AppV { adhoc_input: pop_seq(s.adhoc_input), ..s })
            } else {
                just(s)
            }
        },
        ActionV::SubmitAdHoc(cmd) => Step {
            s: AppV {
                input_mode: InputMode::Normal,
                launcher_logs: s.launcher_logs.push("Running ad-hoc: "@ + cmd),
                ..s
            },
            fol: Seq::empty(),
            eff: seq![EffectV::RunAdHoc(cmd)],
        },
        ActionV::LoadSearchState => Step {
            s,
            fol: Seq::empty(),
            eff: seq![
                EffectV::LoadConversationsAndProviders,
                EffectV::FetchModels(s.selected_llm_provider),
            ],
        },
        ActionV::ConversationsLoaded(cs) => just(
            AppV {
                conversations: cs,
                conversation_idx: if s.conversation_idx as int <= cs.len() {
                    s.conversation_idx
                } else {
                    cs.len() as usize
                },
                ..s
            },
        ),
        ActionV::ProvidersLoaded(ps) => just(
            AppV {
                search_providers: ps,
                settings_idx: if (s.settings_idx as int) < 2 + ps.len() {
                    s.settings_idx
                } else {
                    (ps.len() + 1) as usize
                },
                ..s
            },
        ),
        ActionV::ModelsLoaded(ms) => just(
            AppV {
                models: ms,
                selected_model: if ms.len() > 0 {
                    ms[0].id
                } else {
                    "default"@
                },
                ..s
            },
        ),
        ActionV::ToggleSearchSidebar => {
            let sb = next_sidebar(s.search_sidebar);
            just(
                AppV {
                    search_sidebar: sb,
                    input_mode: if sb == SearchSidebarState::Hidden {
                        InputMode::SearchInput
                    } else {
                        InputMode::SearchSidebar
                    },
                    ..s
                },
            )
        },
        ActionV::CycleSearchFocus => just(
            AppV { input_mode: next_focus(s.input_mode, s.search_sidebar), ..s },
        ),
        ActionV::SidebarNext => {
            match s.search_sidebar {
                SearchSidebarState::History => just(
                    AppV {
                        conversation_idx: if s.conversation_idx as int >= s.conversations.len() {
                            0
                        } else {
                            (s.conversation_idx + 1) as usize
                        },
                        ..s
                    },
                ),
                SearchSidebarState::Settings => just(
                    AppV {
                        settings_idx: if s.settings_idx as int + 1 >= 2
                            + s.search_providers.len() {
                            0
                        } else {
                            (s.settings_idx + 1) as usize
                        },
                        ..s
                    },
                ),
                SearchSidebarState::Hidden => just(s),
            }
        },
        ActionV::SidebarPrev => {
            match s.search_sidebar {
                SearchSidebarState::History => just(
                    AppV {
                        conversation_idx: if s.conversation_idx == 0 {
                            s.conversations.len() as usize
                        } else {
                            (s.conversation_idx - 1) as usize
                        },
                        ..s
                    },
                ),
                SearchSidebarState::Settings => just(
                    AppV {
                        settings_idx: if s.settings_idx == 0 {
                            (s.search_providers.len() + 1) as usize
                        } else {
                            (s.settings_idx - 1) as usize
                        },
                        ..s
                    },
                ),
                SearchSidebarState::Hidden => just(s),
            }
        },
        ActionV::SidebarSelect => {
            match s.search_sidebar {
                SearchSidebarState::History => {
                    if s.conversation_idx == 0 {
                        Step { s, fol: seq![ActionV::NewConversation], eff: Seq::empty() }
                    } else if s.conversation_idx as int - 1 < s.conversations.len() {
                        Step {
                            s,
                            fol: seq![
                                ActionV::LoadConversation(
                                    s.conversations[s.conversation_idx as int - 1].id,
                                ),
                            ],
                            eff: Seq::empty(),
                        }
                    } else {
                        just(s)
                    }
                },
                SearchSidebarState::Settings => {
                    if s.settings_idx == 0 {
                        let p = next_llm_provider(s);
                        Step {
                            s: AppV { selected_llm_provider: p, ..s },
                            fol: Seq::empty(),
                            eff: seq![EffectV::FetchModels(p)],
                        }
                    } else if s.settings_idx == 1 {
                        if s.models.len() > 0 {
                            just(AppV { selected_model: next_model_id(s), ..s })
                        } else {
                            just(s)
                        }
                    } else {
                        let k = s.settings_idx as int - 2;
                        if k < s.search_providers.len() {
                            let p = s.search_providers[k];
                            just(
                                AppV {
                                    search_providers: s.search_providers.update(
                                        k,
                                        ProviderConfigV { is_enabled: !p.is_enabled, ..p },
                                    ),
                                    ..s
                                },
                            )
                        } else {
                            just(s)
                        }
                    }
                },
                SearchSidebarState::Hidden => just(s),
            }
        },
        ActionV::NewConversation => just(
            AppV {
                current_convo_id: None,
                messages: seq![sys_msg("New conversation started."@)],
                open_message: None,
                chat_auto_scroll: true,
                search_sidebar: SearchSidebarState::Hidden,
                input_mode: InputMode::SearchInput,
                ..s
            },
        ),
        ActionV::ConversationCreated(id) => Step {
            s: AppV { current_convo_id: Some(id), ..s },
            fol: Seq::empty(),
            eff: seq![EffectV::FetchConversations],
        },
        ActionV::LoadConversation(id) => Step {
            s: AppV {
                current_convo_id: Some(id),
                messages: seq![sys_msg("Loading conversation..."@)],
                open_message: None,
                chat_auto_scroll: true,
                input_mode: InputMode::ChatHistory,
                ..s
            },
            fol: Seq::empty(),
            eff: seq![EffectV::FetchTranscript(id)],
        },
        ActionV::ConversationLoaded(msgs) => just(
            AppV { messages: msgs, open_message: None, chat_auto_scroll: true, ..s },
        ),
        ActionV::EnterSearchChar(c) => {
            if s.input_mode == InputMode::SearchInput {
                just(AppV { search_input: s.search_input.push(c), ..s })
            } else {
                just(s)
            }
        },
        ActionV::DeleteSearchChar => {
            if s.input_mode == InputMode::SearchInput {
                just(AppV { search_input: pop_seq(s.search_input), ..s })
            } else {
                just(s)
            }
        },
        ActionV::SubmitSearch => {
            if !blank(s.search_input) && !s.is_searching && s.messages.len() + 2 <= usize::MAX {
                let q = s.search_input;
                let msgs = s.messages.push(user_msg(q)).push(assistant_empty());
                Step {
                    s: AppV {
                        messages: msgs,
                        open_message: Some((msgs.len() - 1) as usize),
                        search_input: Seq::empty(),
                        is_searching: true,
                        chat_auto_scroll: true,
                        ..s
                    },
                    fol: Seq::empty(),
                    eff: seq![
                        EffectV::StartStream {
                            query: q,
                            convo_id: s.current_convo_id,
                            model: s.selected_model,
                            provider: s.selected_llm_provider,
                            active_providers: enabled_ids(s.search_providers),
                        },
                    ],
                }
            } else {
                just(s)
            }
        },
        ActionV::ScrollChat(d) => just(
            AppV { chat_auto_scroll: false, chat_scroll: scrolled(s.chat_scroll, d), ..s },
        ),
        ActionV::SearchSourcesReceived(srcs) => {
            match s.open_message {
                Some(i) => {
                    if (i as int) < s.messages.len() {
                        just(
                            AppV {
                                messages: s.messages.update(
                                    i as int,
                                    ChatMessageV { sources: srcs, ..s.messages[i as int] },
                                ),
                                ..s
                            },
                        )
                    } else {
                        just(s)
                    }
                },
                None => just(s),
            }
        },
        ActionV::SearchStreamToken(t) => {
            match s.open_message {
                Some(i) => {
                    if (i as int) < s.messages.len() {
                        just(
                            AppV {
                                messages: s.messages.update(
                                    i as int,
                                    ChatMessageV {
                                        content: s.messages[i as int].content + t,
                                        ..s.messages[i as int]
                                    },
                                ),
                                ..s
                            },
                        )
                    } else {
                        just(s)
                    }
                },
                None => just(s),
            }
        },
        ActionV::SearchError(e) => {
            if s.is_searching {
                just(
                    AppV {
                        messages: s.messages.push(sys_msg("Error: "@ + e)),
                        is_searching: false,
                        open_message: None,
                        ..s
                    },
                )
            } else {
                just(s)
            }
        },
        ActionV::SearchDone => just(AppV { is_searching: false, open_message: None, ..s }),
    }
}

/// Every transition keeps the state invariant.
#[verifier::rlimit(100)]
#[verifier::spinoff_prover]
pub proof fn lemma_step_preserves_wf(s: AppV, a: ActionV)
    requires
        wf(s),
        action_fits(a),
    ensures
        wf(step(s, a).s),
{
    match a {
        ActionV::Tick => assert(wf(step(s, a).s)),
        ActionV::Quit => assert(wf(step(s, a).s)),
        ActionV::SwitchTab => assert(wf(step(s, a).s)),
        ActionV::LoadApps => assert(wf(step(s, a).s)),
        ActionV::AppsLoaded(apps) => assert(wf(step(s, a).s)),
        ActionV::SelectNext => {
            if s.filtered_apps.len() > 0 {
                vstd::arithmetic::div_mod::lemma_mod_bound(
                    (s.apps_idx + 1) as int,
                    s.filtered_apps.len() as int,
                );
            }
            assert(wf(step(s, a).s));
        },
        ActionV::SelectPrev => assert(wf(step(s, a).s)),
        ActionV::ToggleFilter => assert(wf(step(s, a).s)),
        ActionV::EnterFilterChar(c) => assert(wf(step(s, a).s)),
        ActionV::BackspaceFilter => assert(wf(step(s, a).s)),
        ActionV::OpenAddModal => assert(wf(step(s, a).s)),
        ActionV::OpenEditModal => assert(wf(step(s, a).s)),
        ActionV::ConfirmDelete => assert(wf(step(s, a).s)),
        ActionV::CloseModal => assert(wf(step(s, a).s)),
        ActionV::CycleFormFocus => assert(wf(step(s, a).s)),
        ActionV::FormChar(c) => assert(wf(step(s, a).s)),
        ActionV::FormBackspace => assert(wf(step(s, a).s)),
        ActionV::SubmitForm => assert(wf(step(s, a).s)),
        ActionV::LaunchSelected => assert(wf(step(s, a).s)),
        ActionV::LaunchResult(msg) => assert(wf(step(s, a).s)),
        ActionV::OpenAdHocModal => assert(wf(step(s, a).s)),
        ActionV::AdHocChar(c) => assert(wf(step(s, a).s)),
        ActionV::AdHocBackspace => assert(wf(step(s, a).s)),
        ActionV::SubmitAdHoc(cmd) => assert(wf(step(s, a).s)),
        ActionV::ToggleSearchSidebar => assert(wf(step(s, a).s)),
        ActionV::CycleSearchFocus => assert(wf(step(s, a).s)),
        ActionV::SidebarNext => assert(wf(step(s, a).s)),
        ActionV::SidebarPrev => assert(wf(step(s, a).s)),
        ActionV::SidebarSelect => assert(wf(step(s, a).s)),
        ActionV::NewConversation => assert(wf(step(s, a).s)),
        ActionV::LoadSearchState => assert(wf(step(s, a).s)),
        ActionV::ConversationsLoaded(cs) => assert(wf(step(s, a).s)),
        ActionV::ProvidersLoaded(ps) => assert(wf(step(s, a).s)),
        ActionV::ModelsLoaded(ms) => assert(wf(step(s, a).s)),
        ActionV::ConversationCreated(id) => assert(wf(step(s, a).s)),
        ActionV::LoadConversation(id) => assert(wf(step(s, a).s)),
        ActionV::ConversationLoaded(msgs) => assert(wf(step(s, a).s)),
        ActionV::EnterSearchChar(c) => assert(wf(step(s, a).s)),
        ActionV::DeleteSearchChar => assert(wf(step(s, a).s)),
        ActionV::SubmitSearch => assert(wf(step(s, a).s)),
        ActionV::ScrollChat(d) => assert(wf(step(s, a).s)),
        ActionV::SearchSourcesReceived(srcs) => assert(wf(step(s, a).s)),
        ActionV::SearchStreamToken(t) => assert(wf(step(s, a).s)),
        ActionV::SearchError(e) => assert(wf(step(s, a).s)),
        ActionV::SearchDone => assert(wf(step(s, a).s)),
    }
}

} // verus!
