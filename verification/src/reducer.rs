//! The reducer: the single owner of state mutation. `App::update`
//! applies one action and returns the follow-up actions to enqueue and
//! the background tasks to start; its behaviour is exactly the
//! transition function [`step`].

use crate::actions::action_fits;
use crate::actions::ActionV;
use crate::actions::AppAction;
use crate::actions::Effect;
use crate::state::app_matches;
use crate::state::filtered_indices;
use crate::state::wf;
use crate::state::App;
use crate::state::AppForm;
use crate::state::AppModel;
use crate::state::ChatMessage;
use crate::state::CurrentScreen;
use crate::state::InputMode;
use crate::state::ProviderConfig;
use crate::state::Role;
use crate::state::SearchSidebarState;
use crate::text::contains_substr;
use crate::text::concat2;
use crate::text::concat3;
use crate::text::is_blank;
use crate::text::is_substring;
use crate::text::lower_of;
use crate::text::lowercase;
use crate::text::pop_char;
use crate::text::push_char;
use crate::text::split_into_lines;
use crate::text::str_eq;
use crate::transition::enabled_ids;
use crate::transition::find_model;
use crate::transition::find_text;
use crate::transition::lemma_find_model;
use crate::transition::lemma_find_text;
use crate::transition::lemma_step_preserves_wf;
use crate::transition::next_llm_provider;
use crate::transition::next_model_id;
use crate::transition::step;
use vstd::prelude::*;
use vstd::string::StringExecFns;

verus! {

impl App {
    /// Recomputes `filtered_apps` from `(apps, filter_input)` and
    /// resets the selection, as the filter invariant demands.
    fn update_filter(&mut self)
        ensures
            final(self).deep_view() == crate::transition::refilter(old(self).deep_view()),
    {
        let ghost pre = self.deep_view();
        let ghost qv = lower_of(pre.filter_input);
        let q = lowercase(self.filter_input.as_str());
        let mut filtered: Vec<usize> = Vec::new();
        let n = self.apps.len();
        let mut i: usize = 0;
        while i < n
            invariant
                *self == *old(self),
                n == pre.apps.len(),
                i <= n,
                self.deep_view() == pre,
                q@ == qv,
                filtered@ == filtered_indices(pre.apps.take(i as int), qv),
            decreases n - i,
        {
            let mut matches_filter: bool = false;
            if q.as_str().is_empty() {
                matches_filter = true;
            } else {
                let name_l = lowercase(self.apps[i].name.as_str());
                if contains_substr(name_l.as_str(), q.as_str()) {
                    matches_filter = true;
                } else {
                    match &self.apps[i].description {
                        Some(d) => {
                            let d_l = lowercase(d.as_str());
                            matches_filter = contains_substr(d_l.as_str(), q.as_str());
                        },
                        None => {
                            proof {
                                assert(!is_substring(qv, Seq::<char>::empty()));
                            }
                        },
                    }
                }
            }
            proof {
                assert(pre.apps[i as int] == self.apps[i as int].deep_view());
                assert(matches_filter == app_matches(pre.apps[i as int], qv));
            }
            if matches_filter {
                filtered.push(i);
            }
            proof {
                assert(pre.apps.take(i + 1).drop_last() =~= pre.apps.take(i as int));
                assert(pre.apps.take(i + 1).last() == pre.apps[i as int]);
                assert(filtered@ == filtered_indices(pre.apps.take(i + 1), qv));
            }
            i += 1;
        }
        self.filtered_apps = filtered;
        self.apps_idx = 0;
        proof {
            assert(pre.apps.take(n as int) =~= pre.apps);
            assert(self.filtered_apps.deep_view() =~= self.filtered_apps@);
            assert(self.deep_view() =~~= crate::transition::refilter(pre));
        }
    }

    /// The position the provider cycle advances to, and the provider
    /// name there.
    fn cycle_llm_provider(&self) -> (r: String)
        requires
            wf(self.deep_view()),
        ensures
            r@ == next_llm_provider(self.deep_view()),
    {
        let ghost sv = self.deep_view();
        let n = self.llm_providers.len();
        let mut i: usize = 0;
        while i < n && !str_eq(self.llm_providers[i].as_str(), self.selected_llm_provider.as_str())
            invariant
                n == sv.llm_providers.len(),
                i <= n,
                sv == self.deep_view(),
                forall|k: int| 0 <= k < i ==> sv.llm_providers[k] != sv.selected_llm_provider,
            decreases n - i,
        {
            i += 1;
        }
        proof {
            lemma_find_text(sv.llm_providers, sv.selected_llm_provider);
            let f = find_text(sv.llm_providers, sv.selected_llm_provider);
            if i < n {
                assert(sv.llm_providers[i as int] == sv.selected_llm_provider);
                if f < i as nat {
                    assert(sv.llm_providers[f as int] == sv.selected_llm_provider);
                }
                if f > i as nat {
                    assert(sv.llm_providers[i as int] != sv.selected_llm_provider);
                }
            } else {
                if f < i as nat {
                    assert(sv.llm_providers[f as int] == sv.selected_llm_provider);
                }
            }
            assert(f == i as nat);
        }
        let curr = if i < n {
            i
        } else {
            0
        };
        let next = (curr + 1) % n;
        self.llm_providers[next].clone()
    }

    /// The model id the model cycle advances to.
    fn cycle_model(&self) -> (r: String)
        requires
            wf(self.deep_view()),
            self.models@.len() > 0,
        ensures
            r@ == next_model_id(self.deep_view()),
    {
        let ghost sv = self.deep_view();
        let n = self.models.len();
        let mut i: usize = 0;
        while i < n && !str_eq(self.models[i].id.as_str(), self.selected_model.as_str())
            invariant
                n == sv.models.len(),
                i <= n,
                sv == self.deep_view(),
                forall|k: int| 0 <= k < i ==> sv.models[k].id != sv.selected_model,
            decreases n - i,
        {
            i += 1;
        }
        proof {
            lemma_find_model(sv.models, sv.selected_model);
            let f = find_model(sv.models, sv.selected_model);
            if i < n {
                assert(sv.models[i as int].id == sv.selected_model);
                if f < i as nat {
                    assert(sv.models[f as int].id == sv.selected_model);
                }
                if f > i as nat {
                    assert(sv.models[i as int].id != sv.selected_model);
                }
            } else {
                if f < i as nat {
                    assert(sv.models[f as int].id == sv.selected_model);
                }
            }
            assert(f == i as nat);
        }
        let curr = if i < n {
            i
        } else {
            0
        };
        let next = (curr + 1) % n;
        self.models[next].id.clone()
    }

    /// The ids of the enabled search providers, in order.
    fn collect_enabled_ids(&self) -> (r: Vec<i64>)
        ensures
            r.deep_view() == enabled_ids(self.deep_view().search_providers),
    {
        let ghost pv = self.deep_view().search_providers;
        let n = self.search_providers.len();
        let mut ids: Vec<i64> = Vec::new();
        let mut i: usize = 0;
        while i < n
            invariant
                n == pv.len(),
                i <= n,
                pv == self.deep_view().search_providers,
                ids@ == enabled_ids(pv.take(i as int)),
            decreases n - i,
        {
            if self.search_providers[i].is_enabled {
                ids.push(self.search_providers[i].id);
            }
            proof {
                assert(pv.take(i + 1).drop_last() =~= pv.take(i as int));
                assert(pv.take(i + 1).last() == pv[i as int]);
                assert(ids@ == enabled_ids(pv.take(i + 1)));
            }
            i += 1;
        }
        proof {
            assert(pv.take(n as int) =~= pv);
            assert(ids.deep_view() =~= ids@);
        }
        ids
    }

    /// Applies one action: mutates the state as [`step`] says, and
    /// returns the follow-up actions to enqueue and the background
    /// tasks to start, in order.
    pub fn update(&mut self, action: AppAction) -> (r: (Vec<AppAction>, Vec<Effect>))
        requires
            wf(old(self).deep_view()),
            action_fits(action.deep_view()),
        ensures
            ({
                let t = step(old(self).deep_view(), action.deep_view());
                &&& final(self).deep_view() == t.s
                &&& r.0.deep_view() == t.fol
                &&& r.1.deep_view() == t.eff
            }),
            wf(final(self).deep_view()),
    {
        proof {
            lemma_step_preserves_wf(self.deep_view(), action.deep_view());
        }
        let group: u8 = match &action {
            AppAction::Tick => 0,
            AppAction::Quit => 0,
            AppAction::SwitchTab => 0,
            AppAction::LoadApps => 0,
            AppAction::AppsLoaded(..) => 0,
            AppAction::SelectNext => 0,
            AppAction::SelectPrev => 0,
            AppAction::ToggleFilter => 0,
            AppAction::EnterFilterChar(..) => 1,
            AppAction::BackspaceFilter => 1,
            AppAction::OpenAddModal => 1,
            AppAction::OpenEditModal => 1,
            AppAction::CloseModal => 1,
            AppAction::CycleFormFocus => 1,
            AppAction::FormChar(..) => 1,
            AppAction::FormBackspace => 1,
            AppAction::SubmitForm => 2,
            AppAction::ConfirmDelete => 2,
            AppAction::LaunchSelected => 2,
            AppAction::LaunchResult(..) => 2,
            AppAction::OpenAdHocModal => 2,
            AppAction::AdHocChar(..) => 2,
            AppAction::AdHocBackspace => 2,
            AppAction::SubmitAdHoc(..) => 2,
            AppAction::LoadSearchState => 3,
            AppAction::ConversationsLoaded(..) => 3,
            AppAction::ProvidersLoaded(..) => 3,
            AppAction::ModelsLoaded(..) => 3,
            AppAction::ToggleSearchSidebar => 4,
            AppAction::CycleSearchFocus => 4,
            AppAction::SidebarNext => 4,
            AppAction::SidebarPrev => 4,
            AppAction::SidebarSelect => 4,
            AppAction::NewConversation => 4,
            AppAction::ConversationCreated(..) => 4,
            AppAction::LoadConversation(..) => 4,
            AppAction::ConversationLoaded(..) => 4,
            AppAction::EnterSearchChar(..) => 5,
            AppAction::DeleteSearchChar => 5,
            AppAction::SubmitSearch => 5,
            AppAction::ScrollChat(..) => 5,
            AppAction::SearchSourcesReceived(..) => 5,
            AppAction::SearchStreamToken(..) => 5,
            AppAction::SearchError(..) => 5,
            AppAction::SearchDone => 5,
        };
        if group == 0 {
            self.update_launcher(action)
        } else if group == 1 {
            self.update_form(action)
        } else if group == 2 {
            self.update_launch(action)
        } else if group == 3 {
            self.update_search_nav(action)
        } else if group == 4 {
            self.update_sidebar(action)
        } else {
            self.update_stream(action)
        }
    }

    /// Launcher-side actions: navigation, filter, form, launch and logs.
    #[verifier::rlimit(100)]
    #[verifier::spinoff_prover]
    fn update_launcher(&mut self, action: AppAction) -> (r: (Vec<AppAction>, Vec<Effect>))
        requires
            wf(old(self).deep_view()),
            action_fits(action.deep_view()),
            launcher_action(action.deep_view()),
        ensures
            ({
                let t = step(old(self).deep_view(), action.deep_view());
                &&& final(self).deep_view() == t.s
                &&& r.0.deep_view() == t.fol
                &&& r.1.deep_view() == t.eff
            }),
    {
        let ghost pre = self.deep_view();
        let ghost av = action.deep_view();
        let ghost t = step(pre, av);
        let mut fol: Vec<AppAction> = Vec::new();
        let mut eff: Vec<Effect> = Vec::new();
        proof {
            assert(fol.deep_view() =~= Seq::<ActionV>::empty());
            assert(eff.deep_view() =~= Seq::<crate::actions::EffectV>::empty());
        }
        match action {
            AppAction::Tick => {
                proof {
                    assert(self.deep_view() =~~= t.s);
                }
            },
            AppAction::Quit => {
                self.should_quit = true;
                proof {
                    assert(self.deep_view() =~~= t.s);
                }
            },
            AppAction::SwitchTab => {
                if self.input_mode != InputMode::Editing {
                    match self.current_screen {
                        CurrentScreen::Launcher => {
                            self.input_mode = InputMode::SearchInput;
                            if self.search_providers.is_empty() {
                                fol.push(AppAction::LoadSearchState);
                                proof {
                                    assert(fol.deep_view() =~= seq![ActionV::LoadSearchState]);
                                }
                            }
                            self.current_screen = CurrentScreen::Search;
                        },
                        CurrentScreen::Search => {
                            self.input_mode = InputMode::Normal;
                            self.current_screen = CurrentScreen::Launcher;
                        },
                    }
                }
                proof {
                    assert(self.deep_view() =~~= t.s);
                }
            },
            AppAction::LoadApps => {
                self.is_loading_apps = true;
                eff.push(Effect::FetchApps);
                proof {
                    assert(self.deep_view() =~~= t.s);
                    assert(eff.deep_view() =~= t.eff);
                }
            },
            AppAction::AppsLoaded(apps) => {
                self.apps = apps;
                self.is_loading_apps = false;
                self.update_filter();
                proof {
                    assert(self.deep_view() =~~= t.s);
                }
            },
            AppAction::SelectNext => {
                if self.filtered_apps.len() > 0 {
                    self.apps_idx = (self.apps_idx + 1) % self.filtered_apps.len();
                }
                proof {
                    assert(self.deep_view() =~~= t.s);
                }
            },
            AppAction::SelectPrev => {
                if self.filtered_apps.len() > 0 {
                    if self.apps_idx == 0 {
                        self.apps_idx = self.filtered_apps.len() - 1;
                    } else {
                        self.apps_idx = self.apps_idx - 1;
                    }
                }
                proof {
                    assert(self.deep_view() =~~= t.s);
                }
            },
            AppAction::ToggleFilter => {
                if self.input_mode == InputMode::Filtering {
                    self.input_mode = InputMode::Normal;
                } else {
                    self.filter_input = String::new();
                    self.input_mode = InputMode::Filtering;
                    self.update_filter();
                }
                proof {
                    assert(self.deep_view() =~~= t.s);
                }
            },
            _ => {
                proof {
                    assert(false);
                }
            },
        }
        (fol, eff)
    }

    /// Filter editing and the add/edit form.
    #[verifier::rlimit(100)]
    #[verifier::spinoff_prover]
    fn update_form(&mut self, action: AppAction) -> (r: (Vec<AppAction>, Vec<Effect>))
        requires
            wf(old(self).deep_view()),
            action_fits(action.deep_view()),
            form_action(action.deep_view()),
        ensures
            ({
                let t = step(old(self).deep_view(), action.deep_view());
                &&& final(self).deep_view() == t.s
                &&& r.0.deep_view() == t.fol
                &&& r.1.deep_view() == t.eff
            }),
    {
        let ghost pre = self.deep_view();
        let ghost av = action.deep_view();
        let ghost t = step(pre, av);
        let mut fol: Vec<AppAction> = Vec::new();
        let mut eff: Vec<Effect> = Vec::new();
        proof {
            assert(fol.deep_view() =~= Seq::<ActionV>::empty());
            assert(eff.deep_view() =~= Seq::<crate::actions::EffectV>::empty());
        }
        match action {
            AppAction::EnterFilterChar(c) => {
                push_char(&mut self.filter_input, c);
                self.update_filter();
                proof {
                    assert(self.deep_view() =~~= t.s);
                }
            },
            AppAction::BackspaceFilter => {
                pop_char(&mut self.filter_input);
                self.update_filter();
                proof {
                    assert(self.deep_view() =~~= t.s);
                }
            },
            AppAction::OpenAddModal => {
                self.active_form = AppForm::default();
                self.input_mode = InputMode::Editing;
                proof {
                    assert(self.deep_view() =~~= t.s);
                }
            },
            AppAction::OpenEditModal => {
                if self.filtered_apps.len() > 0 {
                    let napps = self.apps.len();
                    proof {
                        assert(pre.apps.len() == napps);
                        crate::state::lemma_filtered_indices_bounds(
                            pre.apps,
                            lower_of(pre.filter_input),
                        );
                        assert(self.filtered_apps.deep_view() =~= self.filtered_apps@);
                    }
                    let k = self.filtered_apps[self.apps_idx];
                    let id = self.apps[k].id.clone();
                    let name = self.apps[k].name.clone();
                    let desc = match &self.apps[k].description {
                        Some(d) => d.clone(),
                        None => String::new(),
                    };
                    let cmd = self.apps[k].command.clone();
                    let url = self.apps[k].url.clone();
                    self.active_form = AppForm { id, name, desc, cmd, url, focus_idx: 0 };
                    self.input_mode = InputMode::Editing;
                }
                proof {
                    assert(self.deep_view() =~~= t.s);
                }
            },
            AppAction::CloseModal => {
                self.input_mode = InputMode::Normal;
                proof {
                    assert(self.deep_view() =~~= t.s);
                }
            },
            AppAction::CycleFormFocus => {
                self.active_form.focus_idx = (self.active_form.focus_idx + 1) % 4;
                proof {
                    assert(self.deep_view() =~~= t.s);
                }
            },
            AppAction::FormChar(c) => {
                if self.input_mode == InputMode::Editing {
                    if self.active_form.focus_idx == 0 {
                        push_char(&mut self.active_form.name, c);
                    } else if self.active_form.focus_idx == 1 {
                        push_char(&mut self.active_form.desc, c);
                    } else if self.active_form.focus_idx == 2 {
                        push_char(&mut self.active_form.cmd, c);
                    } else if self.active_form.focus_idx == 3 {
                        push_char(&mut self.active_form.url, c);
                    }
                }
                proof {
                    assert(self.deep_view() =~~= t.s);
                }
            },
            AppAction::FormBackspace => {
                if self.input_mode == InputMode::Editing {
                    if self.active_form.focus_idx == 0 {
                        pop_char(&mut self.active_form.name);
                    } else if self.active_form.focus_idx == 1 {
                        pop_char(&mut self.active_form.desc);
                    } else if self.active_form.focus_idx == 2 {
                        pop_char(&mut self.active_form.cmd);
                    } else if self.active_form.focus_idx == 3 {
                        pop_char(&mut self.active_form.url);
                    }
                }
                proof {
                    assert(self.deep_view() =~~= t.s);
                }
            },
            _ => {
                proof {
                    assert(false);
                }
            },
        }
        (fol, eff)
    }

    /// Form submission, launching, and the output log.
    #[verifier::rlimit(100)]
    #[verifier::spinoff_prover]
    fn update_launch(&mut self, action: AppAction) -> (r: (Vec<AppAction>, Vec<Effect>))
        requires
            wf(old(self).deep_view()),
            action_fits(action.deep_view()),
            launch_action(action.deep_view()),
        ensures
            ({
                let t = step(old(self).deep_view(), action.deep_view());
                &&& final(self).deep_view() == t.s
                &&& r.0.deep_view() == t.fol
                &&& r.1.deep_view() == t.eff
            }),
    {
        let ghost pre = self.deep_view();
        let ghost av = action.deep_view();
        let ghost t = step(pre, av);
        let mut fol: Vec<AppAction> = Vec::new();
        let mut eff: Vec<Effect> = Vec::new();
        proof {
            assert(fol.deep_view() =~= Seq::<ActionV>::empty());
            assert(eff.deep_view() =~= Seq::<crate::actions::EffectV>::empty());
        }
        match action {
            AppAction::SubmitForm => {
                let model = AppModel {
                    id: self.active_form.id.clone(),
                    name: self.active_form.name.clone(),
                    description: Some(self.active_form.desc.clone()),
                    command: self.active_form.cmd.clone(),
                    url: self.active_form.url.clone(),
                };
                let create = self.active_form.id.as_str().is_empty();
                self.input_mode = InputMode::Normal;
                if create {
                    eff.push(Effect::CreateApp(model));
                } else {
                    eff.push(Effect::UpdateApp(model));
                }
                proof {
                    assert(self.deep_view() =~~= t.s);
                    assert(eff.deep_view() =~= t.eff);
                }
            },
            AppAction::ConfirmDelete => {
                if self.filtered_apps.len() > 0 {
                    let napps = self.apps.len();
                    proof {
                        assert(pre.apps.len() == napps);
                        crate::state::lemma_filtered_indices_bounds(
                            pre.apps,
                            lower_of(pre.filter_input),
                        );
                        assert(self.filtered_apps.deep_view() =~= self.filtered_apps@);
                    }
                    let k = self.filtered_apps[self.apps_idx];
                    eff.push(Effect::DeleteApp(self.apps[k].id.clone()));
                }
                proof {
                    assert(self.deep_view() =~~= t.s);
                    assert(eff.deep_view() =~= t.eff);
                }
            },
            AppAction::LaunchSelected => {
                if self.filtered_apps.len() > 0 {
                    let napps = self.apps.len();
                    proof {
                        assert(pre.apps.len() == napps);
                        crate::state::lemma_filtered_indices_bounds(
                            pre.apps,
                            lower_of(pre.filter_input),
                        );
                        assert(self.filtered_apps.deep_view() =~= self.filtered_apps@);
                    }
                    let k = self.filtered_apps[self.apps_idx];
                    let line = concat3("Executing '", self.apps[k].name.as_str(), "'...");
                    self.launcher_logs.push(line);
                    eff.push(Effect::LaunchApp(self.apps[k].id.clone()));
                }
                proof {
                    assert(self.deep_view() =~~= t.s);
                    assert(eff.deep_view() =~= t.eff);
                }
            },
            AppAction::LaunchResult(msg) => {
                let mut lines = split_into_lines(msg.as_str());
                self.launcher_logs.append(&mut lines);
                if self.launcher_logs.len() > crate::transition::LOG_LIMIT {
                    let cut = self.launcher_logs.len() - crate::transition::LOG_LIMIT;
                    let tail = self.launcher_logs.split_off(cut);
                    self.launcher_logs = tail;
                }
                proof {
                    assert(self.launcher_logs.deep_view() =~= crate::transition::trim_logs(
                        pre.launcher_logs + crate::text::split_lines(av->LaunchResult_0),
                    ));
                    assert(self.deep_view() =~~= t.s);
                }
            },
            AppAction::OpenAdHocModal => {
                self.adhoc_input = String::new();
                self.input_mode = InputMode::AdHocCmd;
                proof {
                    assert(self.deep_view() =~~= t.s);
                }
            },
            AppAction::AdHocChar(c) => {
                if self.input_mode == InputMode::AdHocCmd {
                    push_char(&mut self.adhoc_input, c);
                }
                proof {
                    assert(self.deep_view() =~~= t.s);
                }
            },
            AppAction::AdHocBackspace => {
                if self.input_mode == InputMode::AdHocCmd {
                    pop_char(&mut self.adhoc_input);
                }
                proof {
                    assert(self.deep_view() =~~= t.s);
                }
            },
            AppAction::SubmitAdHoc(cmd) => {
                self.input_mode = InputMode::Normal;
                let line = concat2("Running ad-hoc: ", cmd.as_str());
                self.launcher_logs.push(line);
                eff.push(Effect::RunAdHoc(cmd));
                proof {
                    assert(self.deep_view() =~~= t.s);
                    assert(eff.deep_view() =~= t.eff);
                }
            },
            _ => {
                proof {
                    assert(false);
                }
            },
        }
        (fol, eff)
    }

    /// Search-screen navigation and configuration-loading actions.
    #[verifier::rlimit(100)]
    #[verifier::spinoff_prover]
    fn update_search_nav(&mut self, action: AppAction) -> (r: (Vec<AppAction>, Vec<Effect>))
        requires
            wf(old(self).deep_view()),
            action_fits(action.deep_view()),
            search_nav_action(action.deep_view()),
        ensures
            ({
                let t = step(old(self).deep_view(), action.deep_view());
                &&& final(self).deep_view() == t.s
                &&& r.0.deep_view() == t.fol
                &&& r.1.deep_view() == t.eff
            }),
    {
        let ghost pre = self.deep_view();
        let ghost av = action.deep_view();
        let ghost t = step(pre, av);
        let mut fol: Vec<AppAction> = Vec::new();
        let mut eff: Vec<Effect> = Vec::new();
        proof {
            assert(fol.deep_view() =~= Seq::<ActionV>::empty());
            assert(eff.deep_view() =~= Seq::<crate::actions::EffectV>::empty());
        }
        match action {
            AppAction::LoadSearchState => {
                eff.push(Effect::LoadConversationsAndProviders);
                eff.push(Effect::FetchModels(self.selected_llm_provider.clone()));
                proof {
                    assert(self.deep_view() =~~= t.s);
                    assert(eff.deep_view() =~= t.eff);
                }
            },
            AppAction::ConversationsLoaded(convos) => {
                let len = convos.len();
                self.conversations = convos;
                if self.conversation_idx > len {
                    self.conversation_idx = len;
                }
                proof {
                    assert(self.deep_view() =~~= t.s);
                }
            },
            AppAction::ProvidersLoaded(provs) => {
                let len = provs.len();
                self.search_providers = provs;
                if self.settings_idx >= len + 2 {
                    self.settings_idx = len + 1;
                }
                proof {
                    assert(self.deep_view() =~~= t.s);
                }
            },
            AppAction::ModelsLoaded(models) => {
                self.models = models;
                if self.models.len() > 0 {
                    self.selected_model = self.models[0].id.clone();
                } else {
                    self.selected_model = "default".to_owned();
                }
                proof {
                    assert(self.deep_view() =~~= t.s);
                }
            },
            _ => {
                proof {
                    assert(false);
                }
            },
        }
        (fol, eff)
    }

    /// Sidebar navigation and conversation selection.
    #[verifier::rlimit(100)]
    #[verifier::spinoff_prover]
    fn update_sidebar(&mut self, action: AppAction) -> (r: (Vec<AppAction>, Vec<Effect>))
        requires
            wf(old(self).deep_view()),
            action_fits(action.deep_view()),
            sidebar_action(action.deep_view()),
        ensures
            ({
                let t = step(old(self).deep_view(), action.deep_view());
                &&& final(self).deep_view() == t.s
                &&& r.0.deep_view() == t.fol
                &&& r.1.deep_view() == t.eff
            }),
    {
        let ghost pre = self.deep_view();
        let ghost av = action.deep_view();
        let ghost t = step(pre, av);
        let mut fol: Vec<AppAction> = Vec::new();
        let mut eff: Vec<Effect> = Vec::new();
        proof {
            assert(fol.deep_view() =~= Seq::<ActionV>::empty());
            assert(eff.deep_view() =~= Seq::<crate::actions::EffectV>::empty());
        }
        match action {
            AppAction::ToggleSearchSidebar => {
                self.search_sidebar = match self.search_sidebar {
                    SearchSidebarState::Hidden => SearchSidebarState::History,
                    SearchSidebarState::History => SearchSidebarState::Settings,
                    SearchSidebarState::Settings => SearchSidebarState::Hidden,
                };
                if self.search_sidebar != SearchSidebarState::Hidden {
                    self.input_mode = InputMode::SearchSidebar;
                } else {
                    self.input_mode = InputMode::SearchInput;
                }
                proof {
                    assert(self.deep_view() =~~= t.s);
                }
            },
            AppAction::CycleSearchFocus => {
                self.input_mode = match self.input_mode {
                    InputMode::SearchInput => {
                        if self.search_sidebar != SearchSidebarState::Hidden {
                            InputMode::SearchSidebar
                        } else {
                            InputMode::ChatHistory
                        }
                    },
                    InputMode::SearchSidebar => InputMode::ChatHistory,
                    InputMode::ChatHistory => InputMode::SearchInput,
                    _ => InputMode::SearchInput,
                };
                proof {
                    assert(self.deep_view() =~~= t.s);
                }
            },
            AppAction::SidebarNext => {
                match self.search_sidebar {
                    SearchSidebarState::History => {
                        if self.conversation_idx >= self.conversations.len() {
                            self.conversation_idx = 0;
                        } else {
                            self.conversation_idx = self.conversation_idx + 1;
                        }
                    },
                    SearchSidebarState::Settings => {
                        if self.settings_idx + 1 >= self.search_providers.len() + 2 {
                            self.settings_idx = 0;
                        } else {
                            self.settings_idx = self.settings_idx + 1;
                        }
                    },
                    SearchSidebarState::Hidden => {},
                }
                proof {
                    assert(self.deep_view() =~~= t.s);
                }
            },
            AppAction::SidebarPrev => {
                match self.search_sidebar {
                    SearchSidebarState::History => {
                        if self.conversation_idx == 0 {
                            self.conversation_idx = self.conversations.len();
                        } else {
                            self.conversation_idx = self.conversation_idx - 1;
                        }
                    },
                    SearchSidebarState::Settings => {
                        if self.settings_idx == 0 {
                            self.settings_idx = self.search_providers.len() + 1;
                        } else {
                            self.settings_idx = self.settings_idx - 1;
                        }
                    },
                    SearchSidebarState::Hidden => {},
                }
                proof {
                    assert(self.deep_view() =~~= t.s);
                }
            },
            AppAction::SidebarSelect => {
                match self.search_sidebar {
                    SearchSidebarState::History => {
                        if self.conversation_idx == 0 {
                            fol.push(AppAction::NewConversation);
                        } else {
                            let cid = self.conversations[self.conversation_idx - 1].id;
                            fol.push(AppAction::LoadConversation(cid));
                        }
                    },
                    SearchSidebarState::Settings => {
                        if self.settings_idx == 0 {
                            let p = self.cycle_llm_provider();
                            let p2 = p.clone();
                            self.selected_llm_provider = p;
                            eff.push(Effect::FetchModels(p2));
                        } else if self.settings_idx == 1 {
                            if self.models.len() > 0 {
                                self.selected_model = self.cycle_model();
                            }
                        } else {
                            let k = self.settings_idx - 2;
                            if k < self.search_providers.len() {
                                let mut p = self.search_providers.remove(k);
                                p.is_enabled = !p.is_enabled;
                                self.search_providers.insert(k, p);
                                proof {
                                    assert(self.search_providers.deep_view()
                                        =~= pre.search_providers.update(
                                        k as int,
                                        crate::state::ProviderConfigV {
                                            is_enabled: !pre.search_providers[k as int].is_enabled,
                                            ..pre.search_providers[k as int]
                                        },
                                    ));
                                }
                            }
                        }
                    },
                    SearchSidebarState::Hidden => {},
                }
                proof {
                    assert(self.deep_view() =~~= t.s);
                    assert(fol.deep_view() =~= t.fol);
                    assert(eff.deep_view() =~= t.eff);
                }
            },
            AppAction::NewConversation => {
                self.current_convo_id = None;
                self.messages.clear();
                self.messages.push(
                    ChatMessage {
                        role: Role::System,
                        content: "New conversation started.".to_owned(),
                        sources: Vec::new(),
                    },
                );
                self.open_message = None;
                self.chat_auto_scroll = true;
                self.search_sidebar = SearchSidebarState::Hidden;
                self.input_mode = InputMode::SearchInput;
                proof {
                    assert(self.deep_view() =~~= t.s);
                }
            },
            AppAction::ConversationCreated(id) => {
                self.current_convo_id = Some(id);
                eff.push(Effect::FetchConversations);
                proof {
                    assert(self.deep_view() =~~= t.s);
                    assert(eff.deep_view() =~= t.eff);
                }
            },
            AppAction::LoadConversation(id) => {
                self.current_convo_id = Some(id);
                self.messages.clear();
                self.messages.push(
                    ChatMessage {
                        role: Role::System,
                        content: "Loading conversation...".to_owned(),
                        sources: Vec::new(),
                    },
                );
                self.open_message = None;
                self.chat_auto_scroll = true;
                self.input_mode = InputMode::ChatHistory;
                eff.push(Effect::FetchTranscript(id));
                proof {
                    assert(self.deep_view() =~~= t.s);
                    assert(eff.deep_view() =~= t.eff);
                }
            },
            AppAction::ConversationLoaded(msgs) => {
                self.messages = msgs;
                self.open_message = None;
                self.chat_auto_scroll = true;
                proof {
                    assert(self.deep_view() =~~= t.s);
                }
            },
            _ => {
                proof {
                    assert(false);
                }
            },
        }
        (fol, eff)
    }

    /// Query entry, scrolling, and stream-progress actions.
    #[verifier::rlimit(100)]
    #[verifier::spinoff_prover]
    fn update_stream(&mut self, action: AppAction) -> (r: (Vec<AppAction>, Vec<Effect>))
        requires
            wf(old(self).deep_view()),
            action_fits(action.deep_view()),
            stream_action(action.deep_view()),
        ensures
            ({
                let t = step(old(self).deep_view(), action.deep_view());
                &&& final(self).deep_view() == t.s
                &&& r.0.deep_view() == t.fol
                &&& r.1.deep_view() == t.eff
            }),
    {
        let ghost pre = self.deep_view();
        let ghost av = action.deep_view();
        let ghost t = step(pre, av);
        let mut fol: Vec<AppAction> = Vec::new();
        let mut eff: Vec<Effect> = Vec::new();
        proof {
            assert(fol.deep_view() =~= Seq::<ActionV>::empty());
            assert(eff.deep_view() =~= Seq::<crate::actions::EffectV>::empty());
        }
        match action {
            AppAction::EnterSearchChar(c) => {
                if self.input_mode == InputMode::SearchInput {
                    push_char(&mut self.search_input, c);
                }
                proof {
                    assert(self.deep_view() =~~= t.s);
                }
            },
            AppAction::DeleteSearchChar => {
                if self.input_mode == InputMode::SearchInput {
                    pop_char(&mut self.search_input);
                }
                proof {
                    assert(self.deep_view() =~~= t.s);
                }
            },
            AppAction::SubmitSearch => {
                if !is_blank(self.search_input.as_str()) && !self.is_searching
                    && self.messages.len() <= usize::MAX - 2 {
                    let query = self.search_input.clone();
                    let shown = self.search_input.clone();
                    self.messages.push(
                        ChatMessage { role: Role::User, content: shown, sources: Vec::new() },
                    );
                    self.messages.push(
                        ChatMessage {
                            role: Role::Assistant,
                            content: String::new(),
                            sources: Vec::new(),
                        },
                    );
                    self.open_message = Some(self.messages.len() - 1);
                    self.search_input = String::new();
                    self.is_searching = true;
                    self.chat_auto_scroll = true;
                    let active_providers = self.collect_enabled_ids();
                    eff.push(
                        Effect::StartStream {
                            query,
                            convo_id: self.current_convo_id,
                            model: self.selected_model.clone(),
                            provider: self.selected_llm_provider.clone(),
                            active_providers,
                        },
                    );
                }
                proof {
                    assert(self.deep_view() =~~= t.s);
                    assert(eff.deep_view() =~~= t.eff);
                }
            },
            AppAction::ScrollChat(delta) => {
                self.chat_auto_scroll = false;
                if delta < 0 {
                    let mag = (-(delta as i32)) as u16;
                    self.chat_scroll = self.chat_scroll.saturating_sub(mag);
                } else {
                    self.chat_scroll = self.chat_scroll.saturating_add(delta as u16);
                }
                proof {
                    assert(self.deep_view() =~~= t.s);
                }
            },
            AppAction::SearchSourcesReceived(sources) => {
                if let Some(i) = self.open_message {
                    if i < self.messages.len() {
                        let mut m = self.messages.remove(i);
                        m.sources = sources;
                        self.messages.insert(i, m);
                        proof {
                            assert(self.messages.deep_view() =~= pre.messages.update(
                                i as int,
                                crate::state::ChatMessageV {
                                    sources: av->SearchSourcesReceived_0,
                                    ..pre.messages[i as int]
                                },
                            ));
                        }
                    }
                }
                proof {
                    assert(self.deep_view() =~~= t.s);
                }
            },
            AppAction::SearchStreamToken(text) => {
                if let Some(i) = self.open_message {
                    if i < self.messages.len() {
                        let mut m = self.messages.remove(i);
                        m.content.append(text.as_str());
                        self.messages.insert(i, m);
                        proof {
                            assert(self.messages.deep_view() =~= pre.messages.update(
                                i as int,
                                crate::state::ChatMessageV {
                                    content: pre.messages[i as int].content + text@,
                                    ..pre.messages[i as int]
                                },
                            ));
                        }
                    }
                }
                proof {
                    assert(self.deep_view() =~~= t.s);
                }
            },
            AppAction::SearchError(err) => {
                if self.is_searching {
                    let line = concat2("Error: ", err.as_str());
                    self.messages.push(
                        ChatMessage { role: Role::System, content: line, sources: Vec::new() },
                    );
                    self.is_searching = false;
                    self.open_message = None;
                }
                proof {
                    assert(self.deep_view() =~~= t.s);
                }
            },
            AppAction::SearchDone => {
                self.is_searching = false;
                self.open_message = None;
                proof {
                    assert(self.deep_view() =~~= t.s);
                }
            },
            _ => {
                proof {
                    assert(false);
                }
            },
        }
        (fol, eff)
    }
}

/// Launcher navigation and registry loading.
pub open spec fn launcher_action(a: ActionV) -> bool {
    ||| a is Tick
    ||| a is Quit
    ||| a is SwitchTab
    ||| a is LoadApps
    ||| a is AppsLoaded
    ||| a is SelectNext
    ||| a is SelectPrev
    ||| a is ToggleFilter
}

/// Filter editing and the add/edit form.
pub open spec fn form_action(a: ActionV) -> bool {
    ||| a is EnterFilterChar
    ||| a is BackspaceFilter
    ||| a is OpenAddModal
    ||| a is OpenEditModal
    ||| a is CloseModal
    ||| a is CycleFormFocus
    ||| a is FormChar
    ||| a is FormBackspace
}

/// Form submission, launching, and the output log.
pub open spec fn launch_action(a: ActionV) -> bool {
    ||| a is SubmitForm
    ||| a is ConfirmDelete
    ||| a is LaunchSelected
    ||| a is LaunchResult
    ||| a is OpenAdHocModal
    ||| a is AdHocChar
    ||| a is AdHocBackspace
    ||| a is SubmitAdHoc
}

/// Search configuration loading.
pub open spec fn search_nav_action(a: ActionV) -> bool {
    ||| a is LoadSearchState
    ||| a is ConversationsLoaded
    ||| a is ProvidersLoaded
    ||| a is ModelsLoaded
}

/// Sidebar navigation and conversation selection.
pub open spec fn sidebar_action(a: ActionV) -> bool {
    ||| a is ToggleSearchSidebar
    ||| a is CycleSearchFocus
    ||| a is SidebarNext
    ||| a is SidebarPrev
    ||| a is SidebarSelect
    ||| a is NewConversation
    ||| a is ConversationCreated
    ||| a is LoadConversation
    ||| a is ConversationLoaded
}

/// Query entry, scrolling, and stream-progress actions.
pub open spec fn stream_action(a: ActionV) -> bool {
    ||| a is EnterSearchChar
    ||| a is DeleteSearchChar
    ||| a is SubmitSearch
    ||| a is ScrollChat
    ||| a is SearchSourcesReceived
    ||| a is SearchStreamToken
    ||| a is SearchError
    ||| a is SearchDone
}

} // verus!
