//! The laws the engine is stated to obey, each proved from the
//! transition function alone.

use crate::actions::ActionV;
use crate::state::app_matches;
use crate::state::filtered_indices;
use crate::state::lemma_filtered_indices_bounds;
use crate::state::AppModelV;
use crate::state::wf;
use crate::state::AppV;
use crate::state::ChatMessageV;
use crate::state::CurrentScreen;
use crate::state::InputMode;
use crate::state::Role;
use crate::state::SearchSidebarState;
use crate::state::SearchSourceV;
use crate::text::blank;
use crate::text::lower_of;
use crate::transition::lemma_step_preserves_wf;
use crate::transition::step;
use vstd::prelude::*;

verus! {

/// The state after replaying a sequence of actions, first to last.
pub open spec fn replay(s: AppV, acts: Seq<ActionV>) -> AppV
    decreases acts.len(),
{
    if acts.len() == 0 {
        s
    } else {
        replay(step(s, acts[0]).s, acts.skip(1))
    }
}

/// Determinism: the state a sequence of actions ends in is a function
/// of the initial state and the sequence alone, so two replays of the
/// same actions from the same state end in the same state.
pub proof fn lemma_replay_deterministic(s: AppV, acts: Seq<ActionV>, t1: AppV, t2: AppV)
    requires
        t1 == replay(s, acts),
        t2 == replay(s, acts),
    ensures
        t1 == t2,
{
}

/// Replaying one more action is one more step: the whole run is the
/// fold of the transition function.
pub proof fn lemma_replay_snoc(s: AppV, acts: Seq<ActionV>, a: ActionV)
    ensures
        replay(s, acts.push(a)) == step(replay(s, acts), a).s,
    decreases acts.len(),
{
    if acts.len() == 0 {
        assert(acts.push(a)[0] == a);
        assert(acts.push(a).skip(1) =~= Seq::<ActionV>::empty());
        assert(replay(s, acts.push(a)) == replay(step(s, a).s, Seq::<ActionV>::empty()));
        assert(replay(s, acts) == s);
    } else {
        assert(acts.push(a)[0] == acts[0]);
        assert(acts.push(a).skip(1) =~= acts.skip(1).push(a));
        lemma_replay_snoc(step(s, acts[0]).s, acts.skip(1), a);
        assert(replay(s, acts.push(a)) == replay(step(s, acts[0]).s, acts.skip(1).push(a)));
        assert(replay(s, acts) == replay(step(s, acts[0]).s, acts.skip(1)));
    }
}

/// Idempotence of stream completion: when the busy flag is already
/// clear, a completion or error action leaves the state untouched —
/// the flag stays clear and no duplicate system message is appended.
pub proof fn lemma_completion_idempotent(s: AppV, e: Seq<char>)
    requires
        wf(s),
        !s.is_searching,
    ensures
        step(s, ActionV::SearchDone).s == s,
        step(s, ActionV::SearchError(e)).s == s,
{
    assert(s.open_message is None);
    assert(step(s, ActionV::SearchDone).s =~~= s);
}

/// The filter invariant: after any filter-editing or registry-load
/// action the filtered list is exactly the indices of the apps that
/// match the filter, and editing or loading resets the selection.
pub proof fn lemma_filter_coherent(s: AppV, a: ActionV)
    requires
        wf(s),
        a is EnterFilterChar || a is BackspaceFilter || a is ToggleFilter || a is AppsLoaded,
    ensures
        ({
            let p = step(s, a).s;
            p.filtered_apps == filtered_indices(p.apps, lower_of(p.filter_input))
        }),
        (a is EnterFilterChar || a is BackspaceFilter || a is AppsLoaded) ==> step(s, a).s.apps_idx
            == 0,
{
    lemma_step_preserves_wf(s, a);
}

/// Streaming merge: from a fresh submission, a source batch, two text
/// fragments, and completion leave the last message an assistant
/// message holding exactly the concatenated text and the batch's
/// sources, with the busy flag clear.
#[verifier::rlimit(100)]
#[verifier::spinoff_prover]
pub proof fn lemma_stream_merge(s0: AppV, srcs: Seq<SearchSourceV>, t1: Seq<char>, t2: Seq<char>)
    requires
        wf(s0),
        !s0.is_searching,
        !blank(s0.search_input),
        s0.messages.len() + 2 <= usize::MAX,
    ensures
        ({
            let s1 = step(s0, ActionV::SubmitSearch).s;
            let s2 = step(s1, ActionV::SearchSourcesReceived(srcs)).s;
            let s3 = step(s2, ActionV::SearchStreamToken(t1)).s;
            let s4 = step(s3, ActionV::SearchStreamToken(t2)).s;
            let s5 = step(s4, ActionV::SearchDone).s;
            &&& s5.messages.len() == s0.messages.len() + 2
            &&& s5.messages.last() == (ChatMessageV {
                role: Role::Assistant,
                content: t1 + t2,
                sources: srcs,
            })
            &&& !s5.is_searching
            &&& s5.open_message is None
        }),
{
    let s1 = step(s0, ActionV::SubmitSearch).s;
    let s2 = step(s1, ActionV::SearchSourcesReceived(srcs)).s;
    let s3 = step(s2, ActionV::SearchStreamToken(t1)).s;
    let s4 = step(s3, ActionV::SearchStreamToken(t2)).s;
    let s5 = step(s4, ActionV::SearchDone).s;
    let i = s0.messages.len() as int + 1;
    assert(s1.messages[i].content =~= Seq::<char>::empty());
    assert(s3.messages[i].content =~= t1);
    assert(s4.messages[i].content =~= t1 + t2);
    assert(s5.messages.last() =~~= (ChatMessageV {
        role: Role::Assistant,
        content: t1 + t2,
        sources: srcs,
    }));
}

/// The filtered list characterized in full: strictly increasing (and
/// so duplicate-free), and holding an index exactly when the app there
/// matches the query. With [`lemma_filter_coherent`] this is the
/// filter invariant in its general form.
pub proof fn lemma_filtered_indices_exact(apps: Seq<AppModelV>, q: Seq<char>)
    requires
        apps.len() <= usize::MAX,
    ensures
        forall|j: int, k: int|
            0 <= j < k < filtered_indices(apps, q).len() ==> (filtered_indices(apps, q)[j] as int)
                < (filtered_indices(apps, q)[k] as int),
        forall|i: int|
            0 <= i < apps.len() ==> (app_matches(apps[i], q) <==> filtered_indices(
                apps,
                q,
            ).contains(i as usize)),
    decreases apps.len(),
{
    if apps.len() > 0 {
        lemma_filtered_indices_exact(apps.drop_last(), q);
        lemma_filtered_indices_bounds(apps.drop_last(), q);
        let pre = filtered_indices(apps.drop_last(), q);
        let f = filtered_indices(apps, q);
        let last_i = apps.len() - 1;
        assert forall|j: int, k: int|
            0 <= j < k < f.len() implies (f[j] as int) < (f[k] as int) by {
            if k < pre.len() {
                assert(f[j] == pre[j] && f[k] == pre[k]);
            } else {
                assert(f[j] == pre[j]);
                assert((pre[j] as int) < apps.drop_last().len());
            }
        }
        assert forall|i: int|
            0 <= i < apps.len() implies (app_matches(apps[i], q) <==> f.contains(i as usize)) by {
            if i < last_i {
                assert(apps.drop_last()[i] == apps[i]);
                if pre.contains(i as usize) {
                    let w = choose|w: int| 0 <= w < pre.len() && pre[w] == i as usize;
                    assert(f[w] == i as usize);
                }
                if f.contains(i as usize) {
                    let w = choose|w: int| 0 <= w < f.len() && f[w] == i as usize;
                    if w < pre.len() {
                        assert(pre[w] == i as usize);
                    } else {
                        assert(f[w] == (last_i as usize));
                    }
                }
            } else {
                if app_matches(apps[i], q) {
                    assert(f[f.len() - 1] == (last_i as usize));
                }
                if f.contains(i as usize) && !app_matches(apps[i], q) {
                    let w = choose|w: int| 0 <= w < f.len() && f[w] == i as usize;
                    assert(pre[w] == i as usize);
                    assert((pre[w] as int) < apps.drop_last().len());
                }
            }
        }
    }
}

/// Manual scrolling switches auto-follow off; starting a new
/// conversation, loading one, or submitting a query switches it back
/// on.
pub proof fn lemma_auto_follow(s: AppV, d: i16)
    requires
        wf(s),
    ensures
        !step(s, ActionV::ScrollChat(d)).s.chat_auto_scroll,
        step(s, ActionV::NewConversation).s.chat_auto_scroll,
        (!blank(s.search_input) && !s.is_searching && s.messages.len() + 2 <= usize::MAX) ==> step(
            s,
            ActionV::SubmitSearch,
        ).s.chat_auto_scroll,
{
}

/// Wrap-around: in the history sidebar the selection steps through the
/// list and its one sentinel row cyclically, in both directions.
pub proof fn lemma_sidebar_wraparound(s: AppV)
    requires
        wf(s),
        s.search_sidebar == SearchSidebarState::History,
    ensures
        step(s, ActionV::SidebarNext).s.conversation_idx == (if s.conversation_idx as int
            >= s.conversations.len() {
            0int
        } else {
            s.conversation_idx as int + 1
        }),
        s.conversation_idx == 0 ==> step(s, ActionV::SidebarPrev).s.conversation_idx as int
            == s.conversations.len(),
{
}

/// The focus cycle: from the query input, focus moves to the sidebar
/// when one is shown and to the chat when none is; from the chat it
/// always returns to the input.
pub proof fn lemma_focus_cycle(s: AppV)
    requires
        wf(s),
    ensures
        (s.input_mode == InputMode::SearchInput && s.search_sidebar == SearchSidebarState::Hidden)
            ==> step(s, ActionV::CycleSearchFocus).s.input_mode == InputMode::ChatHistory,
        (s.input_mode == InputMode::SearchInput && s.search_sidebar != SearchSidebarState::Hidden)
            ==> step(s, ActionV::CycleSearchFocus).s.input_mode == InputMode::SearchSidebar,
        s.input_mode == InputMode::ChatHistory ==> step(s, ActionV::CycleSearchFocus).s.input_mode
            == InputMode::SearchInput,
{
}

/// Entering the search screen: a tab switch from the launcher outside
/// a modal lands in the query input, and loads the search
/// configuration only when none is present yet.
pub proof fn lemma_switch_to_search(s: AppV)
    requires
        wf(s),
        s.current_screen == CurrentScreen::Launcher,
        s.input_mode != InputMode::Editing,
    ensures
        step(s, ActionV::SwitchTab).s.current_screen == CurrentScreen::Search,
        step(s, ActionV::SwitchTab).s.input_mode == InputMode::SearchInput,
        s.search_providers.len() == 0 ==> step(s, ActionV::SwitchTab).fol =~= seq![
            ActionV::LoadSearchState,
        ],
        s.search_providers.len() > 0 ==> step(s, ActionV::SwitchTab).fol =~= Seq::<ActionV>::empty(),
{
}

} // verus!
