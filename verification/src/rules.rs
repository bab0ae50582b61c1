//! The rules of the orchestration, as functions on mathematical values: what
//! each step of a cycle does to the state, what it draws and what it starts.

use crate::cache::{
    keyed_delivered, keyed_lookup, single_delivered, KeyedCacheView, Lookup,
};
use crate::frame::{
    blank_frame, ApplyPanelView, ApplyResultView, BuildsPanelView, BuildsResultView,
    BulkOutcomeView, BulkPanel, BulkResultView, CatalogPanelView, CatalogReportView, CommandsView,
    CompletionView, EffectView, FrameView, IconSlotView, RuneRowView, SourcesPanelView,
    SourcesResultView,
};
use crate::model::{
    champion_alias, perk_icon, style_icon, ApiErrorView, AuthContextView, BuildKeyView,
    BuildSectionView, CatalogOutcomeView, ChampionView, FetchErrorView, PerkView, RuneStyleView,
};
use crate::task::{resolved, Poll, TaskModel};
use crate::web::{RuneView, SourceView};
use vstd::prelude::*;

verus! {

/// The mathematical value of the orchestration's state.
pub struct UiModel {
    /// The sources on offer, once their list has been fetched.
    pub sources: Seq<SourceView>,
    /// The handle of the fetch of the source list.
    pub fetch_sources_task: Option<Poll<SourcesResultView>>,
    /// The perks, champions and rune trees of the catalog, each as far as it
    /// has been fetched.
    pub all_perks: Seq<PerkView>,
    pub all_champions: Seq<ChampionView>,
    pub all_styles: Seq<RuneStyleView>,
    /// The handle of the compound fetch of the catalog.
    pub fetch_catalog_task: Option<Poll<CatalogOutcomeView>>,
    /// The selected source; empty while none is selected.
    pub selected_source: Seq<char>,
    /// The build list of the selected source and current champion, once it
    /// has been fetched.
    pub builds: Seq<BuildSectionView>,
    /// The handle of the fetch of the build list, with its key.
    pub list_builds_task: Option<TaskModel<BuildKeyView, BuildsResultView>>,
    /// The rune page that the user asked to apply.
    pub rune_to_apply: Option<RuneView>,
    /// The handle of the write of a rune page, with that page.
    pub apply_rune_task: Option<TaskModel<RuneView, ApplyResultView>>,
    /// The champion id seen in the last cycle.
    pub prev_champion_id: Option<i64>,
    /// The handle of a bulk apply, with its source and champion.
    pub apply_builds_task: Option<TaskModel<BuildKeyView, BulkResultView>>,
    /// The icons by path, and the handles of their fetches.
    pub rune_images: KeyedCacheView<Seq<u8>, FetchErrorView>,
}

/// What one step of a cycle yields: the state after it, what it draws, and
/// the operations it starts.
pub struct Step<P> {
    pub state: UiModel,
    pub panel: P,
    pub effects: Seq<EffectView>,
}

/// The state before any cycle: nothing fetched, nothing selected, no handle.
pub open spec fn initial_state() -> UiModel {
    UiModel {
        sources: Seq::empty(),
        fetch_sources_task: None,
        all_perks: Seq::empty(),
        all_champions: Seq::empty(),
        all_styles: Seq::empty(),
        fetch_catalog_task: None,
        selected_source: Seq::empty(),
        builds: Seq::empty(),
        list_builds_task: None,
        rune_to_apply: None,
        apply_rune_task: None,
        prev_champion_id: None,
        apply_builds_task: None,
        rune_images: KeyedCacheView { values: Map::empty(), tasks: Map::empty() },
    }
}

/// The address of the game client with the given base.
pub open spec fn endpoint_of(base_url: Seq<char>) -> Seq<char> {
    "https://"@ + base_url
}

/// The address at which the game client serves the icon with the given path.
pub open spec fn icon_url_of(base_url: Seq<char>, path: Seq<char>) -> Seq<char> {
    "https://"@ + base_url + path
}

/// The address of the picture of the champion with the given alias.
pub open spec fn avatar_url_of(alias: Seq<char>) -> Seq<char> {
    "https://game.gtimg.cn/images/lol/act/img/champion/"@ + alias + ".png"@
}

/// A champion is picked: there is an id and it is positive.
pub open spec fn champion_picked(champion_id: Option<i64>) -> bool {
    champion_id matches Some(id) && id > 0
}

/// The steps that depend on the selection run: a source is selected and a
/// champion is picked.
pub open spec fn selection_complete(state: UiModel, champion_id: Option<i64>) -> bool {
    state.selected_source.len() > 0 && champion_picked(champion_id)
}

/// The state after the result of an operation is delivered.
///
/// The result goes to the handle that was started for the same request; if
/// no such handle is left, the result is discarded and the state is
/// unchanged. A handle that is already resolved keeps its first result.
pub open spec fn completed(state: UiModel, completion: CompletionView) -> UiModel {
    match completion {
        CompletionView::Catalog(outcome) => UiModel {
            fetch_catalog_task: single_delivered(state.fetch_catalog_task, outcome),
            ..state
        },
        CompletionView::Sources(result) => UiModel {
            fetch_sources_task: single_delivered(state.fetch_sources_task, result),
            ..state
        },
        CompletionView::Builds { source, alias, result } => {
            if state.list_builds_task matches Some(task) && task.key == (BuildKeyView {
                source,
                alias,
            }) {
                let task = state.list_builds_task->0;
                UiModel {
                    list_builds_task: Some(
                        TaskModel { key: task.key, poll: resolved(task.poll, result) },
                    ),
                    ..state
                }
            } else {
                state
            }
        },
        CompletionView::Icon { path, result } => UiModel {
            rune_images: keyed_delivered(state.rune_images, path, result),
            ..state
        },
        CompletionView::ApplyRune { rune, result } => {
            if state.apply_rune_task matches Some(task) && task.key == rune {
                let task = state.apply_rune_task->0;
                UiModel {
                    apply_rune_task: Some(
                        TaskModel { key: task.key, poll: resolved(task.poll, result) },
                    ),
                    ..state
                }
            } else {
                state
            }
        },
        CompletionView::ApplyBuilds { source, alias, result } => {
            if state.apply_builds_task matches Some(task) && task.key == (BuildKeyView {
                source,
                alias,
            }) {
                let task = state.apply_builds_task->0;
                UiModel {
                    apply_builds_task: Some(
                        TaskModel { key: task.key, poll: resolved(task.poll, result) },
                    ),
                    ..state
                }
            } else {
                state
            }
        },
    }
}

/// The error of a failed part of the catalog.
pub open spec fn error_of<T>(part: Result<T, ApiErrorView>) -> Option<ApiErrorView> {
    match part {
        Ok(_) => None,
        Err(error) => Some(error),
    }
}

/// The address of the current champion's picture: known once the champions
/// have been fetched, a champion is picked and the list holds it.
pub open spec fn avatar_of(
    champions: Result<Seq<ChampionView>, ApiErrorView>,
    champion_id: Option<i64>,
) -> Option<Seq<char>> {
    match champions {
        Ok(list) => {
            if champion_picked(champion_id) {
                match champion_alias(list, champion_id->0) {
                    Some(alias) => Some(avatar_url_of(alias)),
                    None => None,
                }
            } else {
                None
            }
        },
        Err(_) => None,
    }
}

/// The catalog step, first in a cycle: start its compound fetch if there is no handle;
/// once it has resolved, take over each part that succeeded and report each
/// part that failed. A resolved handle stays, so nothing is fetched again.
pub open spec fn catalog_step(
    state: UiModel,
    endpoint: Seq<char>,
    champion_id: Option<i64>,
) -> Step<CatalogPanelView> {
    match state.fetch_catalog_task {
        None => Step {
            state: UiModel { fetch_catalog_task: Some(Poll::Pending), ..state },
            panel: CatalogPanelView::Started,
            effects: seq![EffectView::FetchCatalog { endpoint }],
        },
        Some(Poll::Pending) => Step {
            state,
            panel: CatalogPanelView::Loading,
            effects: Seq::empty(),
        },
        Some(Poll::Ready(outcome)) => Step {
            state: UiModel {
                all_perks: match outcome.perks {
                    Ok(list) => list,
                    Err(_) => state.all_perks,
                },
                all_champions: match outcome.champions {
                    Ok(list) => list,
                    Err(_) => state.all_champions,
                },
                all_styles: match outcome.styles {
                    Ok(list) => list,
                    Err(_) => state.all_styles,
                },
                ..state
            },
            panel: CatalogPanelView::Resolved(
                CatalogReportView {
                    perks_error: error_of(outcome.perks),
                    champions_error: error_of(outcome.champions),
                    styles_error: error_of(outcome.styles),
                    avatar_url: avatar_of(outcome.champions, champion_id),
                },
            ),
            effects: Seq::empty(),
        },
    }
}

/// The sources offer the given value.
pub open spec fn offers(sources: Seq<SourceView>, value: Seq<char>) -> bool {
    exists|i: int| 0 <= i < sources.len() && (#[trigger] sources[i]).value == value
}

/// The state after the user changed the selected source: the build list and
/// its handle are dropped, and so is the handle of a bulk apply. Nothing
/// else changes.
pub open spec fn source_changed(state: UiModel, value: Seq<char>) -> UiModel {
    UiModel {
        selected_source: value,
        builds: Seq::empty(),
        list_builds_task: None,
        apply_builds_task: None,
        ..state
    }
}

/// The state after the selection control has been shown with the fetched
/// sources: while no source is selected the first one becomes selected, and
/// then the user's pick, if it is on offer and differs from the selection,
/// changes the selected source.
pub open spec fn sources_offered(
    state: UiModel,
    sources: Seq<SourceView>,
    pick: Option<Seq<char>>,
) -> UiModel {
    let selected = if state.selected_source.len() == 0 && sources.len() > 0 {
        sources[0].value
    } else {
        state.selected_source
    };
    let shown = UiModel { sources, selected_source: selected, ..state };
    if pick matches Some(value) && offers(sources, value) && value != selected {
        source_changed(shown, pick->0)
    } else {
        shown
    }
}

/// The source step, second in a cycle: start its fetch if there is no handle; once it
/// has resolved, offer the sources and follow the user's pick, or report
/// the failure. A resolved handle stays, so nothing is fetched again.
pub open spec fn sources_step(state: UiModel, pick: Option<Seq<char>>) -> Step<SourcesPanelView> {
    match state.fetch_sources_task {
        None => Step {
            state: UiModel { fetch_sources_task: Some(Poll::Pending), ..state },
            panel: SourcesPanelView::Started,
            effects: seq![EffectView::FetchSources],
        },
        Some(Poll::Pending) => Step {
            state,
            panel: SourcesPanelView::Loading,
            effects: Seq::empty(),
        },
        Some(Poll::Ready(Ok(list))) => {
            let after = sources_offered(state, list, pick);
            Step {
                state: after,
                panel: SourcesPanelView::Selector {
                    sources: after.sources,
                    selected: after.selected_source,
                },
                effects: Seq::empty(),
            }
        },
        Some(Poll::Ready(Err(error))) => Step {
            state,
            panel: SourcesPanelView::Failed(error),
            effects: Seq::empty(),
        },
    }
}

/// The selection step, third in a cycle: when the champion id differs from the one
/// seen in the last cycle, drop what depended on it (the build list and its
/// handle, the rune page waiting to be applied, the handle of its write and
/// the handle of a bulk apply) and remember the new id.
pub open spec fn selection_step(state: UiModel, champion_id: Option<i64>) -> UiModel {
    if state.prev_champion_id != champion_id {
        UiModel {
            builds: Seq::empty(),
            list_builds_task: None,
            rune_to_apply: None,
            apply_rune_task: None,
            apply_builds_task: None,
            prev_champion_id: champion_id,
            ..state
        }
    } else {
        state
    }
}

/// What an icon slot shows, the cache after the query, and the fetch that
/// the query starts.
pub struct SlotStep {
    pub cache: KeyedCacheView<Seq<u8>, FetchErrorView>,
    pub slot: IconSlotView,
    pub effects: Seq<EffectView>,
}

/// One icon: without a path there is none; otherwise the icon cache is
/// queried, which starts the fetch if the icon is neither there nor on its
/// way.
pub open spec fn icon_slot(
    cache: KeyedCacheView<Seq<u8>, FetchErrorView>,
    path: Option<Seq<char>>,
    base_url: Seq<char>,
) -> SlotStep {
    match path {
        None => SlotStep { cache, slot: IconSlotView::Absent, effects: Seq::empty() },
        Some(path) => {
            let found = keyed_lookup(cache, path);
            match found.1 {
                Lookup::Started => SlotStep {
                    cache: found.0,
                    slot: IconSlotView::Started,
                    effects: seq![EffectView::FetchIcon { path, url: icon_url_of(base_url, path) }],
                },
                Lookup::InFlight => SlotStep {
                    cache: found.0,
                    slot: IconSlotView::Spinner,
                    effects: Seq::empty(),
                },
                Lookup::Failed(error) => SlotStep {
                    cache: found.0,
                    slot: IconSlotView::Failed(error),
                    effects: Seq::empty(),
                },
                Lookup::Cached => SlotStep {
                    cache: found.0,
                    slot: IconSlotView::Image { path, bytes: found.0.values[path] },
                    effects: Seq::empty(),
                },
            }
        },
    }
}

/// The icon path of a rune page's first perk, if the page has a perk and
/// the catalog knows it.
pub open spec fn primary_icon(rune: RuneView, perks: Seq<PerkView>) -> Option<Seq<char>> {
    if rune.selected_perk_ids.len() > 0 {
        perk_icon(perks, rune.selected_perk_ids[0])
    } else {
        None
    }
}

/// The rows shown for some rune pages, the cache after their queries, and
/// the fetches that the queries start.
pub struct RowsStep {
    pub cache: KeyedCacheView<Seq<u8>, FetchErrorView>,
    pub rows: Seq<RuneRowView>,
    pub effects: Seq<EffectView>,
}

/// The row of one rune page: first its primary icon, then its secondary.
pub open spec fn rune_row(
    cache: KeyedCacheView<Seq<u8>, FetchErrorView>,
    rune: RuneView,
    perks: Seq<PerkView>,
    styles: Seq<RuneStyleView>,
    base_url: Seq<char>,
) -> RowsStep {
    let first = icon_slot(cache, primary_icon(rune, perks), base_url);
    let second = icon_slot(first.cache, style_icon(styles, rune.sub_style_id), base_url);
    RowsStep {
        cache: second.cache,
        rows: seq![RuneRowView { rune, primary: first.slot, secondary: second.slot }],
        effects: first.effects + second.effects,
    }
}

/// The rows of a list of rune pages, in order, each query seeing the cache
/// as the queries before it left it.
pub open spec fn rune_rows(
    cache: KeyedCacheView<Seq<u8>, FetchErrorView>,
    runes: Seq<RuneView>,
    perks: Seq<PerkView>,
    styles: Seq<RuneStyleView>,
    base_url: Seq<char>,
) -> RowsStep
    decreases runes.len(),
{
    if runes.len() == 0 {
        RowsStep { cache, rows: Seq::empty(), effects: Seq::empty() }
    } else {
        let before = rune_rows(cache, runes.drop_last(), perks, styles, base_url);
        let last = rune_row(before.cache, runes.last(), perks, styles, base_url);
        RowsStep {
            cache: last.cache,
            rows: before.rows + last.rows,
            effects: before.effects + last.effects,
        }
    }
}

/// The rows of all rune pages of a build list, section after section.
pub open spec fn section_rows(
    cache: KeyedCacheView<Seq<u8>, FetchErrorView>,
    sections: Seq<BuildSectionView>,
    perks: Seq<PerkView>,
    styles: Seq<RuneStyleView>,
    base_url: Seq<char>,
) -> RowsStep
    decreases sections.len(),
{
    if sections.len() == 0 {
        RowsStep { cache, rows: Seq::empty(), effects: Seq::empty() }
    } else {
        let before = section_rows(cache, sections.drop_last(), perks, styles, base_url);
        let last = rune_rows(before.cache, sections.last().runes, perks, styles, base_url);
        RowsStep {
            cache: last.cache,
            rows: before.rows + last.rows,
            effects: before.effects + last.effects,
        }
    }
}

/// The build list displays the given rune page.
pub open spec fn displays(sections: Seq<BuildSectionView>, rune: RuneView) -> bool {
    exists|i: int, j: int|
        0 <= i < sections.len() && 0 <= j < sections[i].runes.len() && (
        #[trigger] sections[i].runes[j]) == rune
}

/// The state after the user clicked "apply" on a displayed rune page: the
/// page waits to be applied, in place of any that waited before. A handle
/// of an earlier write that has resolved is dropped, so that the click gets
/// an attempt of its own; a write that is still running stays.
pub open spec fn apply_clicked(state: UiModel, rune: RuneView) -> UiModel {
    UiModel {
        rune_to_apply: Some(rune),
        apply_rune_task: if state.apply_rune_task matches Some(task) && task.poll is Ready {
            None
        } else {
            state.apply_rune_task
        },
        ..state
    }
}

/// The build step, fourth in a cycle, for a picked champion: while the
/// catalog does not hold the champion, nothing happens. Otherwise the build
/// list of the selected source and the champion's alias is fetched unless a
/// handle for that key is there; once it has resolved, its rune pages are
/// shown with their icons and a click on one of them is taken, or the
/// failure is reported and the handle dropped, so that the next cycle
/// fetches again.
pub open spec fn builds_step(
    state: UiModel,
    base_url: Seq<char>,
    champion_id: i64,
    click: Option<RuneView>,
) -> Step<BuildsPanelView> {
    match champion_alias(state.all_champions, champion_id) {
        None => Step { state, panel: BuildsPanelView::Waiting, effects: Seq::empty() },
        Some(alias) => {
            let key = BuildKeyView { source: state.selected_source, alias };
            if state.list_builds_task matches Some(task) && task.key == key {
                match state.list_builds_task->0.poll {
                    Poll::Pending => Step {
                        state,
                        panel: BuildsPanelView::Loading,
                        effects: Seq::empty(),
                    },
                    Poll::Ready(Err(error)) => Step {
                        state: UiModel { list_builds_task: None, ..state },
                        panel: BuildsPanelView::Failed(error),
                        effects: Seq::empty(),
                    },
                    Poll::Ready(Ok(list)) => {
                        let sections = list;
                        let shown = section_rows(
                            state.rune_images,
                            sections,
                            state.all_perks,
                            state.all_styles,
                            base_url,
                        );
                        let listed = UiModel { builds: sections, rune_images: shown.cache, ..state };
                        Step {
                            state: if click matches Some(rune) && displays(sections, rune) {
                                apply_clicked(listed, click->0)
                            } else {
                                listed
                            },
                            panel: BuildsPanelView::Listed(shown.rows),
                            effects: shown.effects,
                        }
                    },
                }
            } else {
                Step {
                    state: UiModel {
                        list_builds_task: Some(TaskModel { key, poll: Poll::Pending }),
                        ..state
                    },
                    panel: BuildsPanelView::Started,
                    effects: seq![EffectView::FetchBuilds { source: key.source, alias: key.alias }],
                }
            }
        },
    }
}

/// The apply step, fifth in a cycle: while a page waits, its write is started
/// unless a handle for that very page is there. A success clears the page
/// and the handle; a failure is reported and leaves both in place.
pub open spec fn apply_step(state: UiModel, endpoint: Seq<char>) -> Step<ApplyPanelView> {
    match state.rune_to_apply {
        None => Step { state, panel: ApplyPanelView::Idle, effects: Seq::empty() },
        Some(rune) => {
            if state.apply_rune_task matches Some(task) && task.key == rune {
                match state.apply_rune_task->0.poll {
                    Poll::Pending => Step {
                        state,
                        panel: ApplyPanelView::Applying,
                        effects: Seq::empty(),
                    },
                    Poll::Ready(Ok(_)) => Step {
                        state: UiModel { rune_to_apply: None, apply_rune_task: None, ..state },
                        panel: ApplyPanelView::Applied,
                        effects: Seq::empty(),
                    },
                    Poll::Ready(Err(error)) => Step {
                        state,
                        panel: ApplyPanelView::Failed(error),
                        effects: Seq::empty(),
                    },
                }
            } else {
                Step {
                    state: UiModel {
                        apply_rune_task: Some(TaskModel { key: rune, poll: Poll::Pending }),
                        ..state
                    },
                    panel: ApplyPanelView::Started,
                    effects: seq![EffectView::ApplyRune { endpoint, rune }],
                }
            }
        },
    }
}

/// What the bulk step yields.
pub struct BulkStep {
    pub state: UiModel,
    pub panel: BulkPanel,
    pub outcome: BulkOutcomeView,
    pub effects: Seq<EffectView>,
}

/// How a bulk apply ended, as far as its handle has resolved.
pub open spec fn bulk_outcome_of(
    task: Option<TaskModel<BuildKeyView, BulkResultView>>,
) -> BulkOutcomeView {
    match task {
        Some(TaskModel { key: _, poll: Poll::Ready(Ok(_)) }) => BulkOutcomeView::Succeeded,
        Some(TaskModel { key: _, poll: Poll::Ready(Err(error)) }) => BulkOutcomeView::Failed(error),
        _ => BulkOutcomeView::Unfinished,
    }
}

/// The bulk step, last in a cycle, for a picked champion: a handle
/// that has resolved is dropped, whether the bulk apply succeeded or
/// failed. Then, on the user's trigger and unless a bulk apply is running,
/// one is started for the triggered source and the champion's alias, if the
/// catalog holds the champion. While one runs, a spinner stands in place of
/// the button.
pub open spec fn bulk_step(
    state: UiModel,
    auth: AuthContextView,
    champion_id: i64,
    trigger: Option<Seq<char>>,
) -> BulkStep {
    let outcome = bulk_outcome_of(state.apply_builds_task);
    let polled = if outcome is Unfinished {
        state
    } else {
        UiModel { apply_builds_task: None, ..state }
    };
    let found = champion_alias(state.all_champions, champion_id);
    if trigger is Some && polled.apply_builds_task is None && found is Some {
        let source = trigger->0;
        let alias = found->0;
        BulkStep {
            state: UiModel {
                apply_builds_task: Some(
                    TaskModel { key: BuildKeyView { source, alias }, poll: Poll::Pending },
                ),
                ..polled
            },
            panel: BulkPanel::Spinner,
            outcome,
            effects: seq![
                EffectView::ApplyBuilds {
                    install_dir: auth.install_dir,
                    source,
                    alias,
                    is_alternate_region: auth.is_alternate_region,
                },
            ],
        }
    } else {
        BulkStep {
            state: polled,
            panel: if polled.apply_builds_task is Some {
                BulkPanel::Spinner
            } else {
                BulkPanel::Button
            },
            outcome,
            effects: Seq::empty(),
        }
    }
}

/// What a cycle yields: the state after it and its frame.
pub struct Cycle {
    pub state: UiModel,
    pub frame: FrameView,
}

/// One cycle of the orchestration.
///
/// Without a connection (an empty base address) nothing is drawn, nothing
/// is started and the state is unchanged. Otherwise the steps run in their
/// fixed order: catalog, source list, selection tracker, and, once a source
/// is selected and a champion picked, build list, rune page and bulk apply.
pub open spec fn cycle(
    state: UiModel,
    auth: AuthContextView,
    champion_id: Option<i64>,
    commands: CommandsView,
) -> Cycle {
    if auth.base_url.len() == 0 {
        Cycle { state, frame: blank_frame() }
    } else {
        let endpoint = endpoint_of(auth.base_url);
        let catalog = catalog_step(state, endpoint, champion_id);
        let sources = sources_step(catalog.state, commands.select_source);
        let settled = selection_step(sources.state, champion_id);
        if selection_complete(settled, champion_id) {
            let builds = builds_step(settled, auth.base_url, champion_id->0, commands.apply_rune);
            let apply = apply_step(builds.state, endpoint);
            let bulk = bulk_step(apply.state, auth, champion_id->0, commands.bulk_apply);
            Cycle {
                state: bulk.state,
                frame: FrameView {
                    catalog: catalog.panel,
                    sources: sources.panel,
                    builds: builds.panel,
                    apply: apply.panel,
                    bulk: bulk.panel,
                    bulk_outcome: bulk.outcome,
                    effects: catalog.effects + sources.effects + builds.effects + apply.effects
                        + bulk.effects,
                },
            }
        } else {
            Cycle {
                state: settled,
                frame: FrameView {
                    catalog: catalog.panel,
                    sources: sources.panel,
                    builds: BuildsPanelView::Hidden,
                    apply: ApplyPanelView::Hidden,
                    bulk: BulkPanel::Hidden,
                    bulk_outcome: BulkOutcomeView::Unfinished,
                    effects: catalog.effects + sources.effects,
                },
            }
        }
    }
}

} // verus!
