//! What holds of the orchestration in every state: laws proved from the
//! rules.

use crate::cache::{in_flight, memoized, KeyedCacheView};
use crate::frame::{
    blank_frame, ApplyPanelView, ApplyResultView, BuildsPanelView, BuildsResultView, BulkPanel,
    CommandsView, CompletionView, EffectView,
};
use crate::model::{
    champion_alias, style_icon, ApiErrorView, AuthContextView, BuildKeyView, BuildSectionView,
    FetchErrorView, PerkView, RuneStyleView,
};
use crate::rules::{
    apply_clicked, apply_step, builds_step, bulk_step, catalog_step, champion_picked, completed,
    cycle, endpoint_of, icon_slot, icon_url_of, initial_state, primary_icon, rune_row, rune_rows,
    section_rows, selection_complete, selection_step, source_changed, sources_step, UiModel,
};
use crate::task::{Poll, TaskModel};
use crate::web::RuneView;
use vstd::prelude::*;

verus! {

/// The cache remembers a result for `key`: it holds a value, or a handle
/// that resolved to one.
pub open spec fn remembered<V, E>(cache: KeyedCacheView<V, E>, key: Seq<char>) -> bool {
    exists|value: V| memoized(cache, key, value)
}

/// The icon fetches that a run of queries starts are in order: every effect
/// fetches an icon from its address at the game client; no icon is fetched
/// that was in flight or remembered before the run; no icon is fetched
/// twice; every fetched icon is in flight after the run; and what was in
/// flight or memoized before the run still is after it.
pub open spec fn icons_fetched_once(
    before: KeyedCacheView<Seq<u8>, FetchErrorView>,
    after: KeyedCacheView<Seq<u8>, FetchErrorView>,
    effects: Seq<EffectView>,
    base_url: Seq<char>,
) -> bool {
    &&& forall|path: Seq<char>| in_flight(before, path) ==> in_flight(after, path)
    &&& forall|path: Seq<char>, bytes: Seq<u8>| #[trigger]
        memoized(before, path, bytes) ==> memoized(after, path, bytes)
    &&& forall|i: int|
        0 <= i < effects.len() ==> {
            &&& #[trigger] effects[i] is FetchIcon
            &&& effects[i]->url == icon_url_of(base_url, effects[i]->path)
            &&& !in_flight(before, effects[i]->path)
            &&& !remembered(before, effects[i]->path)
            &&& in_flight(after, effects[i]->path)
        }
    &&& forall|i: int, j: int|
        0 <= i < j < effects.len() ==> (#[trigger] effects[i])->path != (#[trigger] effects[j])->path
}

/// Two runs of queries in order, one after the other, are in order together.
proof fn lemma_icons_fetched_once_chain(
    first: KeyedCacheView<Seq<u8>, FetchErrorView>,
    second: KeyedCacheView<Seq<u8>, FetchErrorView>,
    third: KeyedCacheView<Seq<u8>, FetchErrorView>,
    early: Seq<EffectView>,
    late: Seq<EffectView>,
    base_url: Seq<char>,
)
    requires
        icons_fetched_once(first, second, early, base_url),
        icons_fetched_once(second, third, late, base_url),
    ensures
        icons_fetched_once(first, third, early + late, base_url),
{
    let all = early + late;
    assert forall|i: int| 0 <= i < all.len() implies {
        &&& #[trigger] all[i] is FetchIcon
        &&& all[i]->url == icon_url_of(base_url, all[i]->path)
        &&& !in_flight(first, all[i]->path)
        &&& !remembered(first, all[i]->path)
        &&& in_flight(third, all[i]->path)
    } by {
        if i < early.len() {
            assert(all[i] == early[i]);
        } else {
            let late_i = late[i - early.len()];
            assert(all[i] == late_i);
            if remembered(first, late_i->path) {
                let bytes = choose|bytes: Seq<u8>| memoized(first, late_i->path, bytes);
                assert(memoized(second, late_i->path, bytes));
            }
        }
    }
    assert forall|i: int, j: int| 0 <= i < j < all.len() implies (#[trigger] all[i])->path != (
    #[trigger] all[j])->path by {
        if j < early.len() {
            assert(all[i] == early[i] && all[j] == early[j]);
        } else if i >= early.len() {
            assert(all[i] == late[i - early.len()] && all[j] == late[j - early.len()]);
        } else {
            assert(all[i] == early[i] && all[j] == late[j - early.len()]);
            assert(in_flight(second, early[i]->path));
        }
    }
}

/// No query at all is in order.
proof fn lemma_no_effect_is_in_order(
    cache: KeyedCacheView<Seq<u8>, FetchErrorView>,
    base_url: Seq<char>,
)
    ensures
        icons_fetched_once(cache, cache, Seq::empty(), base_url),
{
}

/// The query of one icon slot is in order.
proof fn lemma_icon_slot_fetches_once(
    cache: KeyedCacheView<Seq<u8>, FetchErrorView>,
    path: Option<Seq<char>>,
    base_url: Seq<char>,
)
    ensures
        icons_fetched_once(
            cache,
            icon_slot(cache, path, base_url).cache,
            icon_slot(cache, path, base_url).effects,
            base_url,
        ),
{
    let step = icon_slot(cache, path, base_url);
    if path is Some {
        let key = path->0;
        assert forall|i: int| 0 <= i < step.effects.len() implies !remembered(
            cache,
            (#[trigger] step.effects[i])->path,
        ) by {
            if remembered(cache, key) {
                let bytes = choose|bytes: Seq<u8>| memoized(cache, key, bytes);
                assert(memoized(cache, key, bytes));
            }
        }
    }
}

/// In one pass over a build list every icon is fetched at most once: see
/// [`icons_fetched_once`].
pub proof fn law_icons_fetched_once(
    cache: KeyedCacheView<Seq<u8>, FetchErrorView>,
    sections: Seq<BuildSectionView>,
    perks: Seq<PerkView>,
    styles: Seq<RuneStyleView>,
    base_url: Seq<char>,
)
    ensures
        icons_fetched_once(
            cache,
            section_rows(cache, sections, perks, styles, base_url).cache,
            section_rows(cache, sections, perks, styles, base_url).effects,
            base_url,
        ),
    decreases sections.len(),
{
    if sections.len() == 0 {
        lemma_no_effect_is_in_order(cache, base_url);
    } else {
        let before = section_rows(cache, sections.drop_last(), perks, styles, base_url);
        let last = rune_rows(before.cache, sections.last().runes, perks, styles, base_url);
        law_icons_fetched_once(cache, sections.drop_last(), perks, styles, base_url);
        lemma_rune_rows_fetch_once(before.cache, sections.last().runes, perks, styles, base_url);
        lemma_icons_fetched_once_chain(
            cache,
            before.cache,
            last.cache,
            before.effects,
            last.effects,
            base_url,
        );
    }
}

/// The queries of a list of rune pages are in order.
proof fn lemma_rune_rows_fetch_once(
    cache: KeyedCacheView<Seq<u8>, FetchErrorView>,
    runes: Seq<RuneView>,
    perks: Seq<PerkView>,
    styles: Seq<RuneStyleView>,
    base_url: Seq<char>,
)
    ensures
        icons_fetched_once(
            cache,
            rune_rows(cache, runes, perks, styles, base_url).cache,
            rune_rows(cache, runes, perks, styles, base_url).effects,
            base_url,
        ),
    decreases runes.len(),
{
    if runes.len() == 0 {
        lemma_no_effect_is_in_order(cache, base_url);
    } else {
        let before = rune_rows(cache, runes.drop_last(), perks, styles, base_url);
        let last = rune_row(before.cache, runes.last(), perks, styles, base_url);
        lemma_rune_rows_fetch_once(cache, runes.drop_last(), perks, styles, base_url);
        let first = icon_slot(before.cache, primary_icon(runes.last(), perks), base_url);
        let second = icon_slot(
            first.cache,
            style_icon(styles, runes.last().sub_style_id),
            base_url,
        );
        lemma_icon_slot_fetches_once(
            before.cache,
            primary_icon(runes.last(), perks),
            base_url,
        );
        lemma_icon_slot_fetches_once(
            first.cache,
            style_icon(styles, runes.last().sub_style_id),
            base_url,
        );
        lemma_icons_fetched_once_chain(
            before.cache,
            first.cache,
            second.cache,
            first.effects,
            second.effects,
            base_url,
        );
        lemma_icons_fetched_once_chain(
            cache,
            before.cache,
            last.cache,
            before.effects,
            last.effects,
            base_url,
        );
    }
}

/// Without a connection a cycle does nothing: the state is unchanged,
/// nothing is drawn and no operation is started, whatever the champion and
/// the commands.
pub proof fn law_disconnected_cycle_is_idle(
    state: UiModel,
    auth: AuthContextView,
    champion_id: Option<i64>,
    commands: CommandsView,
)
    requires
        auth.base_url.len() == 0,
    ensures
        cycle(state, auth, champion_id, commands).state == state,
        cycle(state, auth, champion_id, commands).frame == blank_frame(),
        cycle(state, auth, champion_id, commands).frame.effects.len() == 0,
{
}

/// A change of the champion clears what depended on the champion and
/// nothing else: the build list and its handle, the rune page waiting to be
/// applied, the handle of its write and the handle of a bulk apply go; the
/// icon cache, the catalog, the source list and the selected source stay.
pub proof fn law_champion_change_clears(state: UiModel, champion_id: Option<i64>)
    requires
        state.prev_champion_id != champion_id,
    ensures
        selection_step(state, champion_id) == (UiModel {
            builds: Seq::empty(),
            list_builds_task: None,
            rune_to_apply: None,
            apply_rune_task: None,
            apply_builds_task: None,
            prev_champion_id: champion_id,
            ..state
        }),
        selection_step(state, champion_id).rune_images == state.rune_images,
        selection_step(state, champion_id).fetch_catalog_task == state.fetch_catalog_task,
        selection_step(state, champion_id).all_perks == state.all_perks,
        selection_step(state, champion_id).all_champions == state.all_champions,
        selection_step(state, champion_id).all_styles == state.all_styles,
        selection_step(state, champion_id).selected_source == state.selected_source,
{
}

/// While the champion stays the same the selection tracker changes nothing.
pub proof fn law_same_champion_keeps_all(state: UiModel, champion_id: Option<i64>)
    requires
        state.prev_champion_id == champion_id,
    ensures
        selection_step(state, champion_id) == state,
{
}

/// A cycle in which the champion changed leaves nothing behind that
/// belonged to the old champion: a build-list handle or a bulk-apply handle
/// that the state holds afterwards was started in this very cycle, no rune
/// page waits and no write of one is under way. The icon cache is untouched
/// and the catalog handle, if there was one, is the same.
pub proof fn law_cycle_after_champion_change(
    state: UiModel,
    auth: AuthContextView,
    champion_id: Option<i64>,
    commands: CommandsView,
)
    requires
        auth.base_url.len() > 0,
        state.prev_champion_id != champion_id,
    ensures
        ({
            let after = cycle(state, auth, champion_id, commands);
            &&& after.state.prev_champion_id == champion_id
            &&& after.state.list_builds_task is Some ==> after.frame.builds is Started
                && after.state.list_builds_task->0.poll is Pending
            &&& after.state.rune_to_apply is None
            &&& after.state.apply_rune_task is None
            &&& after.state.apply_builds_task is Some ==> after.state.apply_builds_task->0.poll
                is Pending && after.frame.effects.len() > 0 && after.frame.effects.last()
                is ApplyBuilds
            &&& after.state.rune_images == state.rune_images
            &&& state.fetch_catalog_task is Some ==> after.state.fetch_catalog_task
                == state.fetch_catalog_task
        }),
{
}

/// A change of the selected source clears the build list, its handle and
/// the handle of a bulk apply, and nothing else: the champion seen last,
/// the icon cache, the catalog and the rune page waiting to be applied stay.
pub proof fn law_source_change_clears(state: UiModel, value: Seq<char>)
    ensures
        source_changed(state, value) == (UiModel {
            selected_source: value,
            builds: Seq::empty(),
            list_builds_task: None,
            apply_builds_task: None,
            ..state
        }),
        source_changed(state, value).prev_champion_id == state.prev_champion_id,
        source_changed(state, value).rune_images == state.rune_images,
        source_changed(state, value).fetch_catalog_task == state.fetch_catalog_task,
        source_changed(state, value).rune_to_apply == state.rune_to_apply,
        source_changed(state, value).apply_rune_task == state.apply_rune_task,
{
}

/// The step of the source list never touches the champion seen last, the
/// icon cache, the rune page waiting to be applied or the catalog handle.
/// Where it changes the selection from one source to another, the user
/// picked that other source, and the build list, its handle and the handle
/// of a bulk apply are cleared; where it leaves a selected source in place,
/// it leaves those three in place too.
pub proof fn law_sources_step_follows_pick(state: UiModel, pick: Option<Seq<char>>)
    ensures
        ({
            let after = sources_step(state, pick).state;
            &&& after.prev_champion_id == state.prev_champion_id
            &&& after.rune_images == state.rune_images
            &&& after.rune_to_apply == state.rune_to_apply
            &&& after.fetch_catalog_task == state.fetch_catalog_task
            &&& after.selected_source != state.selected_source && state.selected_source.len() > 0
                ==> {
                &&& pick == Some(after.selected_source)
                &&& after.list_builds_task is None
                &&& after.builds.len() == 0
                &&& after.apply_builds_task is None
            }
            &&& after.selected_source == state.selected_source && state.selected_source.len() > 0
                ==> {
                &&& after.list_builds_task == state.list_builds_task
                &&& after.builds == state.builds
                &&& after.apply_builds_task == state.apply_builds_task
            }
        }),
{
}

/// A failed fetch of the build list does not stay in the cache: the step
/// that finds the failure reports it and drops the handle, and the next
/// step for the same source and champion starts the fetch anew.
pub proof fn law_failed_builds_are_fetched_again(
    state: UiModel,
    base_url: Seq<char>,
    champion_id: i64,
    click: Option<RuneView>,
    later_click: Option<RuneView>,
    error: FetchErrorView,
)
    requires
        champion_alias(state.all_champions, champion_id) is Some,
        state.list_builds_task == Some(
            TaskModel {
                key: BuildKeyView {
                    source: state.selected_source,
                    alias: champion_alias(state.all_champions, champion_id)->0,
                },
                poll: Poll::<BuildsResultView>::Ready(Err(error)),
            },
        ),
    ensures
        ({
            let failed = builds_step(state, base_url, champion_id, click);
            let again = builds_step(failed.state, base_url, champion_id, later_click);
            let alias = champion_alias(state.all_champions, champion_id)->0;
            &&& failed.panel == BuildsPanelView::Failed(error)
            &&& failed.effects.len() == 0
            &&& failed.state == (UiModel { list_builds_task: None, ..state })
            &&& again.panel == BuildsPanelView::Started
            &&& again.effects == seq![
                EffectView::FetchBuilds { source: state.selected_source, alias },
            ]
            &&& again.state.list_builds_task == Some(
                TaskModel {
                    key: BuildKeyView { source: state.selected_source, alias },
                    poll: Poll::<BuildsResultView>::Pending,
                },
            )
        }),
{
}

/// No effect of the sequence fetches a build list.
pub open spec fn fetches_no_builds(effects: Seq<EffectView>) -> bool {
    forall|i: int| 0 <= i < effects.len() ==> !((#[trigger] effects[i]) is FetchBuilds)
}

/// No effect of the sequence fetches the catalog.
pub open spec fn fetches_no_catalog(effects: Seq<EffectView>) -> bool {
    forall|i: int| 0 <= i < effects.len() ==> !((#[trigger] effects[i]) is FetchCatalog)
}

/// While no champion is picked no build list is fetched, whatever source is
/// selected: a cycle draws no build list, starts no fetch of one, and
/// creates no handle for one.
pub proof fn law_no_champion_no_build_list(
    state: UiModel,
    auth: AuthContextView,
    champion_id: Option<i64>,
    commands: CommandsView,
)
    requires
        !champion_picked(champion_id),
    ensures
        ({
            let after = cycle(state, auth, champion_id, commands);
            &&& after.frame.builds is Hidden
            &&& fetches_no_builds(after.frame.effects)
            &&& after.state.list_builds_task is Some ==> after.state.list_builds_task
                == state.list_builds_task
        }),
{
}

/// The catalog is fetched at most once: a cycle starts its fetch only when
/// the state holds no handle for it, and afterwards the state holds one; no
/// cycle and no delivery removes the handle. So once a connected cycle has
/// run, no later cycle fetches the catalog again, whether the fetch
/// succeeds, fails in part or fails altogether.
pub proof fn law_catalog_fetched_once(
    state: UiModel,
    auth: AuthContextView,
    champion_id: Option<i64>,
    commands: CommandsView,
    completion: CompletionView,
)
    ensures
        ({
            let after = cycle(state, auth, champion_id, commands);
            &&& state.fetch_catalog_task is Some ==> fetches_no_catalog(after.frame.effects)
                && after.state.fetch_catalog_task is Some
            &&& auth.base_url.len() > 0 ==> after.state.fetch_catalog_task is Some
            &&& state.fetch_catalog_task is Some ==> completed(
                state,
                completion,
            ).fetch_catalog_task is Some
        }),
{
    let after = cycle(state, auth, champion_id, commands);
    if state.fetch_catalog_task is Some && auth.base_url.len() > 0 {
        let endpoint = endpoint_of(auth.base_url);
        let catalog = catalog_step(state, endpoint, champion_id);
        let sources = sources_step(catalog.state, commands.select_source);
        let settled = selection_step(sources.state, champion_id);
        if selection_complete(settled, champion_id) {
            let builds = builds_step(settled, auth.base_url, champion_id->0, commands.apply_rune);
            lemma_builds_step_effects(settled, auth.base_url, champion_id->0, commands.apply_rune);
            let apply = apply_step(builds.state, endpoint);
            let bulk = bulk_step(apply.state, auth, champion_id->0, commands.bulk_apply);
            assert(fetches_no_catalog(after.frame.effects));
        }
    }
}

/// The build step starts nothing but the fetch of a build list or fetches
/// of icons.
proof fn lemma_builds_step_effects(
    state: UiModel,
    base_url: Seq<char>,
    champion_id: i64,
    click: Option<RuneView>,
)
    ensures
        forall|i: int|
            0 <= i < builds_step(state, base_url, champion_id, click).effects.len() ==> {
                ||| (#[trigger] builds_step(state, base_url, champion_id, click).effects[i])
                    is FetchBuilds
                ||| builds_step(state, base_url, champion_id, click).effects[i] is FetchIcon
            },
{
    let step = builds_step(state, base_url, champion_id, click);
    if step.panel is Listed {
        let sections = state.list_builds_task->0.poll->Ready_0->Ok_0;
        law_icons_fetched_once(
            state.rune_images,
            sections,
            state.all_perks,
            state.all_styles,
            base_url,
        );
    }
}

/// A result that arrives for a rune page other than the one whose write is
/// under way is discarded: the state is unchanged. So is any result that
/// arrives when no write is under way.
pub proof fn law_stale_apply_result_is_discarded(
    state: UiModel,
    rune: RuneView,
    result: ApplyResultView,
)
    requires
        state.apply_rune_task is None || state.apply_rune_task->0.key != rune,
    ensures
        completed(state, CompletionView::ApplyRune { rune, result }) == state,
{
}

/// A click on another displayed rune page supersedes the page that waited:
/// the new page waits in its place, and the next apply step starts a write
/// of its own for it, whatever became of the write for the old page.
pub proof fn law_click_supersedes(
    state: UiModel,
    rune: RuneView,
    endpoint: Seq<char>,
)
    requires
        state.apply_rune_task is Some ==> state.apply_rune_task->0.key != rune,
    ensures
        ({
            let clicked = apply_clicked(state, rune);
            let applied = apply_step(clicked, endpoint);
            &&& clicked.rune_to_apply == Some(rune)
            &&& applied.panel == ApplyPanelView::Started
            &&& applied.effects == seq![EffectView::ApplyRune { endpoint, rune }]
            &&& applied.state.rune_to_apply == Some(rune)
            &&& applied.state.apply_rune_task == Some(
                TaskModel { key: rune, poll: Poll::<ApplyResultView>::Pending },
            )
        }),
{
}

/// A failed write leaves the rune page waiting and is not tried again by
/// itself: every further apply step reports the same failure and starts
/// nothing, until the user clicks "apply" again, which drops the failed
/// handle so that the next step starts a new write with the same page.
pub proof fn law_failed_apply_waits_for_click(
    state: UiModel,
    endpoint: Seq<char>,
    error: ApiErrorView,
)
    requires
        state.rune_to_apply is Some,
        state.apply_rune_task == Some(
            TaskModel {
                key: state.rune_to_apply->0,
                poll: Poll::<ApplyResultView>::Ready(Err(error)),
            },
        ),
    ensures
        ({
            let rune = state.rune_to_apply->0;
            let failed = apply_step(state, endpoint);
            let retried = apply_step(apply_clicked(state, rune), endpoint);
            &&& failed.state == state
            &&& failed.panel == ApplyPanelView::Failed(error)
            &&& failed.effects.len() == 0
            &&& retried.panel == ApplyPanelView::Started
            &&& retried.effects == seq![EffectView::ApplyRune { endpoint, rune }]
        }),
{
}

/// A successful write clears both the rune page that waited and the handle.
pub proof fn law_applied_rune_is_cleared(state: UiModel, endpoint: Seq<char>)
    requires
        state.rune_to_apply is Some,
        state.apply_rune_task == Some(
            TaskModel {
                key: state.rune_to_apply->0,
                poll: Poll::<ApplyResultView>::Ready(Ok(())),
            },
        ),
    ensures
        apply_step(state, endpoint).state == (UiModel {
            rune_to_apply: None,
            apply_rune_task: None,
            ..state
        }),
        apply_step(state, endpoint).panel == ApplyPanelView::Applied,
        apply_step(state, endpoint).effects.len() == 0,
{
}

/// What the icon cache has memoized it keeps for good: no cycle and no
/// delivery, whatever their inputs, makes the state forget the bytes that
/// an icon resolved to, and no cycle fetches that icon again.
pub proof fn law_icons_are_memoized_for_good(
    state: UiModel,
    path: Seq<char>,
    bytes: Seq<u8>,
    auth: AuthContextView,
    champion_id: Option<i64>,
    commands: CommandsView,
    completion: CompletionView,
)
    requires
        memoized(state.rune_images, path, bytes),
    ensures
        memoized(cycle(state, auth, champion_id, commands).state.rune_images, path, bytes),
        memoized(completed(state, completion).rune_images, path, bytes),
        forall|i: int|
            0 <= i < cycle(state, auth, champion_id, commands).frame.effects.len() ==> !({
                &&& (#[trigger] cycle(state, auth, champion_id, commands).frame.effects[i])
                    is FetchIcon
                &&& cycle(state, auth, champion_id, commands).frame.effects[i]->path == path
            }),
{
    let after = cycle(state, auth, champion_id, commands);
    if auth.base_url.len() > 0 {
        let endpoint = endpoint_of(auth.base_url);
        let catalog = catalog_step(state, endpoint, champion_id);
        let sources = sources_step(catalog.state, commands.select_source);
        let settled = selection_step(sources.state, champion_id);
        assert(settled.rune_images == state.rune_images);
        if selection_complete(settled, champion_id) {
            let builds = builds_step(settled, auth.base_url, champion_id->0, commands.apply_rune);
            let apply = apply_step(builds.state, endpoint);
            let bulk = bulk_step(apply.state, auth, champion_id->0, commands.bulk_apply);
            if builds.panel is Listed {
                let sections = settled.list_builds_task->0.poll->Ready_0->Ok_0;
                law_icons_fetched_once(
                    settled.rune_images,
                    sections,
                    settled.all_perks,
                    settled.all_styles,
                    auth.base_url,
                );
                assert(remembered(settled.rune_images, path));
            }
            assert(after.state.rune_images == builds.state.rune_images);
            assert forall|i: int| 0 <= i < after.frame.effects.len() implies !({
                &&& (#[trigger] after.frame.effects[i]) is FetchIcon
                &&& after.frame.effects[i]->path == path
            }) by {
                let head = catalog.effects + sources.effects;
                if i >= head.len() && i < head.len() + builds.effects.len() {
                    assert(after.frame.effects[i] == builds.effects[i - head.len()]);
                }
            }
        }
    }
}

/// The build list is fetched at most once at a time: the step that starts
/// the fetch leaves a handle for its key, and while that handle is there
/// and the selection stays, no further step starts a fetch, whether the
/// handle is pending or has resolved to a list.
pub proof fn law_build_list_single_flight(
    state: UiModel,
    base_url: Seq<char>,
    champion_id: i64,
    click: Option<RuneView>,
    later_click: Option<RuneView>,
)
    ensures
        ({
            let first = builds_step(state, base_url, champion_id, click);
            let second = builds_step(first.state, base_url, champion_id, later_click);
            &&& first.panel is Started ==> second.panel is Loading && second.effects.len() == 0
                && second.state == first.state
            &&& first.panel is Loading ==> first.effects.len() == 0 && first.state == state
            &&& fetches_no_builds(first.effects) || first.panel is Started
        }),
{
    let first = builds_step(state, base_url, champion_id, click);
    if first.panel is Listed {
        law_icons_fetched_once(
            state.rune_images,
            state.list_builds_task->0.poll->Ready_0->Ok_0,
            state.all_perks,
            state.all_styles,
            base_url,
        );
    }
}

/// No build list is asked for before the catalog can name the champion:
/// while the catalog does not hold the champion, the step changes nothing
/// and starts nothing.
pub proof fn law_build_list_waits_for_catalog(
    state: UiModel,
    base_url: Seq<char>,
    champion_id: i64,
    click: Option<RuneView>,
)
    requires
        champion_alias(state.all_champions, champion_id) is None,
    ensures
        builds_step(state, base_url, champion_id, click).state == state,
        builds_step(state, base_url, champion_id, click).panel == BuildsPanelView::Waiting,
        builds_step(state, base_url, champion_id, click).effects.len() == 0,
{
}

/// A bulk apply is started at most once per trigger and only while none is
/// running: without a trigger the step starts nothing; while a bulk apply
/// runs the step starts nothing and keeps its handle, whatever the trigger;
/// and a step never starts more than one.
pub proof fn law_bulk_apply_once_per_trigger(
    state: UiModel,
    auth: AuthContextView,
    champion_id: i64,
    trigger: Option<Seq<char>>,
)
    ensures
        ({
            let step = bulk_step(state, auth, champion_id, trigger);
            &&& step.effects.len() <= 1
            &&& trigger is None ==> step.effects.len() == 0
            &&& state.apply_builds_task is Some && state.apply_builds_task->0.poll is Pending ==> {
                &&& step.effects.len() == 0
                &&& step.state == state
                &&& step.panel == BulkPanel::Spinner
            }
            &&& step.effects.len() == 1 ==> {
                &&& step.effects[0] == (EffectView::ApplyBuilds {
                    install_dir: auth.install_dir,
                    source: trigger->0,
                    alias: champion_alias(state.all_champions, champion_id)->0,
                    is_alternate_region: auth.is_alternate_region,
                })
                &&& champion_alias(state.all_champions, champion_id) is Some
                &&& step.state.apply_builds_task is Some
                &&& step.state.apply_builds_task->0.poll is Pending
            }
        }),
{
}

/// A bulk apply that has ended is cleared, whether it succeeded or failed:
/// after the step the state holds no resolved handle of a bulk apply.
pub proof fn law_finished_bulk_apply_is_cleared(
    state: UiModel,
    auth: AuthContextView,
    champion_id: i64,
    trigger: Option<Seq<char>>,
)
    ensures
        ({
            let step = bulk_step(state, auth, champion_id, trigger);
            &&& step.state.apply_builds_task is Some ==> step.state.apply_builds_task->0.poll
                is Pending
            &&& (step.outcome is Unfinished) == !(state.apply_builds_task is Some
                && state.apply_builds_task->0.poll is Ready)
        }),
{
}

/// What happens to the orchestration from outside: a cycle runs, or the
/// result of an operation is delivered.
pub enum Event {
    Cycle { auth: AuthContextView, champion_id: Option<i64>, commands: CommandsView },
    Delivery { completion: CompletionView },
}

/// The state after one event.
pub open spec fn state_after(state: UiModel, event: Event) -> UiModel {
    match event {
        Event::Cycle { auth, champion_id, commands } => cycle(
            state,
            auth,
            champion_id,
            commands,
        ).state,
        Event::Delivery { completion } => completed(state, completion),
    }
}

/// The operations that one event starts: those of the cycle's frame, and
/// none for a delivery.
pub open spec fn effects_at(state: UiModel, event: Event) -> Seq<EffectView> {
    match event {
        Event::Cycle { auth, champion_id, commands } => cycle(
            state,
            auth,
            champion_id,
            commands,
        ).frame.effects,
        Event::Delivery { completion } => Seq::empty(),
    }
}

/// The state after a run of events.
pub open spec fn state_after_all(state: UiModel, events: Seq<Event>) -> UiModel
    decreases events.len(),
{
    if events.len() == 0 {
        state
    } else {
        state_after(state_after_all(state, events.drop_last()), events.last())
    }
}

/// All operations that a run of events starts, in order.
pub open spec fn effects_of_all(state: UiModel, events: Seq<Event>) -> Seq<EffectView>
    decreases events.len(),
{
    if events.len() == 0 {
        Seq::empty()
    } else {
        effects_of_all(state, events.drop_last()) + effects_at(
            state_after_all(state, events.drop_last()),
            events.last(),
        )
    }
}

/// For the rest of a session a memoized icon stays memoized and is never
/// fetched again: after any run of cycles and deliveries the icon cache
/// still remembers the bytes, and no cycle of the run starts a fetch of the
/// icon.
pub proof fn law_session_keeps_icons(
    state: UiModel,
    events: Seq<Event>,
    path: Seq<char>,
    bytes: Seq<u8>,
)
    requires
        memoized(state.rune_images, path, bytes),
    ensures
        memoized(state_after_all(state, events).rune_images, path, bytes),
        forall|i: int|
            0 <= i < effects_of_all(state, events).len() ==> !({
                &&& (#[trigger] effects_of_all(state, events)[i]) is FetchIcon
                &&& effects_of_all(state, events)[i]->path == path
            }),
    decreases events.len(),
{
    if events.len() > 0 {
        let earlier = events.drop_last();
        law_session_keeps_icons(state, earlier, path, bytes);
        let before = state_after_all(state, earlier);
        let early = effects_of_all(state, earlier);
        let late = effects_at(before, events.last());
        match events.last() {
            Event::Cycle { auth, champion_id, commands } => {
                law_icons_are_memoized_for_good(
                    before,
                    path,
                    bytes,
                    auth,
                    champion_id,
                    commands,
                    CompletionView::Sources(Ok(Seq::empty())),
                );
            },
            Event::Delivery { completion } => {
                law_icons_are_memoized_for_good(
                    before,
                    path,
                    bytes,
                    AuthContextView {
                        base_url: Seq::empty(),
                        is_alternate_region: false,
                        install_dir: Seq::empty(),
                    },
                    None,
                    CommandsView { select_source: None, apply_rune: None, bulk_apply: None },
                    completion,
                );
            },
        }
        assert forall|i: int| 0 <= i < (early + late).len() implies !({
            &&& (#[trigger] (early + late)[i]) is FetchIcon
            &&& (early + late)[i]->path == path
        }) by {
            if i < early.len() {
                assert((early + late)[i] == early[i]);
            } else {
                assert((early + late)[i] == late[i - early.len()]);
            }
        }
    }
}

/// In a session the catalog is fetched at most once: whatever cycles run
/// and whatever results are delivered, of all the operations started from
/// the initial state at most one fetches the catalog.
pub proof fn law_session_fetches_catalog_once(events: Seq<Event>)
    ensures
        forall|i: int, j: int|
            0 <= i < j < effects_of_all(initial_state(), events).len() ==> !({
                &&& (#[trigger] effects_of_all(initial_state(), events)[i]) is FetchCatalog
                &&& (#[trigger] effects_of_all(initial_state(), events)[j]) is FetchCatalog
            }),
{
    lemma_catalog_handle_settles(events);
}

/// Along a run from the initial state: while the state holds no catalog
/// handle, no fetch of the catalog has been started yet; and at most one
/// has been started at any point.
proof fn lemma_catalog_handle_settles(events: Seq<Event>)
    ensures
        state_after_all(initial_state(), events).fetch_catalog_task is None ==> fetches_no_catalog(
            effects_of_all(initial_state(), events),
        ),
        forall|i: int, j: int|
            0 <= i < j < effects_of_all(initial_state(), events).len() ==> !({
                &&& (#[trigger] effects_of_all(initial_state(), events)[i]) is FetchCatalog
                &&& (#[trigger] effects_of_all(initial_state(), events)[j]) is FetchCatalog
            }),
    decreases events.len(),
{
    if events.len() > 0 {
        let earlier = events.drop_last();
        lemma_catalog_handle_settles(earlier);
        let before = state_after_all(initial_state(), earlier);
        let early = effects_of_all(initial_state(), earlier);
        let late = effects_at(before, events.last());
        let all = early + late;
        match events.last() {
            Event::Cycle { auth, champion_id, commands } => {
                law_catalog_fetched_once(
                    before,
                    auth,
                    champion_id,
                    commands,
                    CompletionView::Sources(Ok(Seq::empty())),
                );
                lemma_cycle_fetches_catalog_first(before, auth, champion_id, commands);
            },
            Event::Delivery { completion } => {
                law_catalog_fetched_once(
                    before,
                    AuthContextView {
                        base_url: Seq::empty(),
                        is_alternate_region: false,
                        install_dir: Seq::empty(),
                    },
                    None,
                    CommandsView { select_source: None, apply_rune: None, bulk_apply: None },
                    completion,
                );
            },
        }
        assert forall|i: int, j: int| 0 <= i < j < all.len() implies !({
            &&& (#[trigger] all[i]) is FetchCatalog
            &&& (#[trigger] all[j]) is FetchCatalog
        }) by {
            if j < early.len() {
                assert(all[i] == early[i] && all[j] == early[j]);
            } else if i < early.len() {
                assert(all[i] == early[i] && all[j] == late[j - early.len()]);
            } else {
                assert(all[i] == late[i - early.len()] && all[j] == late[j - early.len()]);
            }
        }
        if state_after_all(initial_state(), events).fetch_catalog_task is None {
            assert forall|i: int| 0 <= i < all.len() implies !((#[trigger] all[i])
                is FetchCatalog) by {
                if i < early.len() {
                    assert(all[i] == early[i]);
                } else {
                    assert(all[i] == late[i - early.len()]);
                }
            }
        }
    }
}

/// A cycle fetches the catalog at most as its first operation, and only
/// when the state holds no catalog handle; afterwards the state holds one
/// unless the cycle ran without a connection.
proof fn lemma_cycle_fetches_catalog_first(
    state: UiModel,
    auth: AuthContextView,
    champion_id: Option<i64>,
    commands: CommandsView,
)
    ensures
        ({
            let after = cycle(state, auth, champion_id, commands);
            &&& forall|i: int|
                1 <= i < after.frame.effects.len() ==> !((#[trigger] after.frame.effects[i])
                    is FetchCatalog)
            &&& after.frame.effects.len() > 0 && after.frame.effects[0] is FetchCatalog
                ==> state.fetch_catalog_task is None
            &&& after.state.fetch_catalog_task is None ==> after.frame.effects.len() == 0
                && state.fetch_catalog_task is None
        }),
{
    let after = cycle(state, auth, champion_id, commands);
    if auth.base_url.len() > 0 {
        let endpoint = endpoint_of(auth.base_url);
        let catalog = catalog_step(state, endpoint, champion_id);
        let sources = sources_step(catalog.state, commands.select_source);
        let settled = selection_step(sources.state, champion_id);
        if selection_complete(settled, champion_id) {
            lemma_builds_step_effects(settled, auth.base_url, champion_id->0, commands.apply_rune);
        }
    }
}

} // verus!
