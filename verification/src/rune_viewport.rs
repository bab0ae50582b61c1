//! The orchestration's state and its per-cycle reconciliation.

use crate::cache::{KeyedCache, Lookup, SingletonCache, Status};
use crate::frame::{
    append_effects, apply_result_view, builds_result_view, bulk_result_view, sources_result_view,
    ApplyPanel, ApplyResult, BuildsPanel, BuildsResult, BulkOutcome, BulkPanel, BulkResult,
    CatalogPanel, CatalogReport, Commands, Completion, Effect, EffectView, Frame, IconSlot,
    RuneRow, SourcesPanel, SourcesResult,
};
use crate::model::{
    clone_bytes, clone_champions, clone_perks, clone_sections, clone_sources, clone_styles,
    find_champion_alias, find_perk_icon, find_style_icon, ApiError, AuthContext, BuildKey,
    BuildSection, CatalogOutcome, Champion, FetchError, Perk, RuneStyle,
};
use crate::rules::{
    apply_step, avatar_of, avatar_url_of, builds_step, bulk_step, catalog_step, completed, cycle,
    displays, endpoint_of, icon_slot, icon_url_of, initial_state, offers, rune_row, rune_rows,
    section_rows, selection_step, sources_step, UiModel,
};
use crate::selection::SelectionTracker;
use crate::task::{slot_map, task_model, KeyedTask, TaskHandle};
use crate::web::{Rune, Source};
use vstd::prelude::*;
use vstd::string::*;

verus! {

/// The state of the orchestration: what has been fetched, what is selected,
/// and the handles of the operations under way.
#[derive(Debug)]
pub struct RuneUIState {
    pub sources: Vec<Source>,
    pub fetch_sources_task: SingletonCache<SourcesResult>,
    pub all_champions: Vec<Champion>,
    pub all_perks: Vec<Perk>,
    pub all_styles: Vec<RuneStyle>,
    pub fetch_catalog_task: SingletonCache<CatalogOutcome>,
    pub selected_source: String,
    pub builds: Vec<BuildSection>,
    pub list_builds_task: Option<KeyedTask<BuildKey, BuildsResult>>,
    pub apply_rune_task: Option<KeyedTask<Rune, ApplyResult>>,
    pub rune_to_apply: Option<Rune>,
    pub prev_champion_id: SelectionTracker,
    pub apply_builds_task: Option<KeyedTask<BuildKey, BulkResult>>,
    pub rune_images: KeyedCache<Vec<u8>, FetchError>,
}

impl View for RuneUIState {
    type V = UiModel;

    open spec fn view(&self) -> UiModel {
        UiModel {
            sources: self.sources.deep_view(),
            fetch_sources_task: slot_map(
                self.fetch_sources_task@,
                |result: SourcesResult| sources_result_view(result),
            ),
            all_perks: self.all_perks.deep_view(),
            all_champions: self.all_champions.deep_view(),
            all_styles: self.all_styles.deep_view(),
            fetch_catalog_task: slot_map(
                self.fetch_catalog_task@,
                |outcome: CatalogOutcome| outcome@,
            ),
            selected_source: self.selected_source@,
            builds: self.builds.deep_view(),
            list_builds_task: task_model(
                self.list_builds_task,
                |result: BuildsResult| builds_result_view(result),
            ),
            rune_to_apply: self.rune_to_apply.deep_view(),
            apply_rune_task: task_model(
                self.apply_rune_task,
                |result: ApplyResult| apply_result_view(result),
            ),
            prev_champion_id: self.prev_champion_id@,
            apply_builds_task: task_model(
                self.apply_builds_task,
                |result: BulkResult| bulk_result_view(result),
            ),
            rune_images: self.rune_images@,
        }
    }
}

impl Default for RuneUIState {
    fn default() -> (state: Self)
        ensures
            state@ == initial_state(),
    {
        RuneUIState::new()
    }
}

/// The address of the game client with the given base.
pub fn endpoint_url(base_url: &String) -> (url: String)
    ensures
        url@ == endpoint_of(base_url@),
{
    String::from_str("https://").concat(base_url.as_str())
}

/// The address at which the game client serves the icon with the given path.
pub fn icon_url(base_url: &String, path: &String) -> (url: String)
    ensures
        url@ == icon_url_of(base_url@, path@),
{
    String::from_str("https://").concat(base_url.as_str()).concat(path.as_str())
}

/// The address of the picture of the champion with the given alias.
pub fn avatar_url(alias: &String) -> (url: String)
    ensures
        url@ == avatar_url_of(alias@),
{
    String::from_str("https://game.gtimg.cn/images/lol/act/img/champion/").concat(
        alias.as_str(),
    ).concat(".png")
}

fn one_effect(effect: Effect) -> (effects: Vec<Effect>)
    ensures
        effects.deep_view() == seq![effect@],
{
    let mut effects = Vec::new();
    effects.push(effect);
    effects
}

fn no_effect() -> (effects: Vec<Effect>)
    ensures
        effects.deep_view() == Seq::<EffectView>::empty(),
{
    let effects = Vec::new();
    effects
}

fn part_error<T>(part: &Result<T, ApiError>) -> (error: Option<ApiError>)
    ensures
        error.deep_view() == (match *part {
            Ok(_) => None,
            Err(error) => Some(error@),
        }),
{
    match part {
        Ok(_) => None,
        Err(error) => Some(error.clone()),
    }
}

fn avatar_for(champions: &Result<Vec<Champion>, ApiError>, champion_id: Option<i64>) -> (url:
    Option<String>)
    ensures
        url.deep_view() == avatar_of(
            match *champions {
                Ok(list) => Ok(list.deep_view()),
                Err(error) => Err(error@),
            },
            champion_id,
        ),
{
    match champions {
        Ok(list) => match champion_id {
            Some(id) => {
                if id > 0 {
                    match find_champion_alias(list, id) {
                        Some(alias) => Some(avatar_url(&alias)),
                        None => None,
                    }
                } else {
                    None
                }
            },
            None => None,
        },
        Err(_) => None,
    }
}

impl RuneUIState {
    /// The state before any cycle.
    pub fn new() -> (state: Self)
        ensures
            state@ == initial_state(),
    {
        let state = RuneUIState {
            sources: Vec::new(),
            fetch_sources_task: SingletonCache::new(),
            all_champions: Vec::new(),
            all_perks: Vec::new(),
            all_styles: Vec::new(),
            fetch_catalog_task: SingletonCache::new(),
            selected_source: String::new(),
            builds: Vec::new(),
            list_builds_task: None,
            apply_rune_task: None,
            rune_to_apply: None,
            prev_champion_id: SelectionTracker::new(),
            apply_builds_task: None,
            rune_images: KeyedCache::new(),
        };
        assert(state@.sources =~= Seq::empty());
        assert(state@.all_perks =~= Seq::empty());
        assert(state@.all_champions =~= Seq::empty());
        assert(state@.all_styles =~= Seq::empty());
        assert(state@.builds =~= Seq::empty());
        state
    }

    /// Delivers the result of an operation that the caller had started.
    pub fn complete(&mut self, completion: Completion)
        ensures
            final(self)@ == completed(old(self)@, completion@),
    {
        match completion {
            Completion::Catalog(outcome) => {
                self.fetch_catalog_task.complete(outcome);
            },
            Completion::Sources(result) => {
                self.fetch_sources_task.complete(result);
            },
            Completion::Builds { source, alias, result } => {
                let mut slot = None;
                std::mem::swap(&mut slot, &mut self.list_builds_task);
                match slot {
                    Some(mut task) => {
                        if task.key.is(&source, &alias) {
                            task.handle.resolve(result);
                        }
                        self.list_builds_task = Some(task);
                    },
                    None => {},
                }
            },
            Completion::Icon { path, result } => {
                self.rune_images.complete(&path, result);
            },
            Completion::ApplyRune { rune, result } => {
                let mut slot = None;
                std::mem::swap(&mut slot, &mut self.apply_rune_task);
                match slot {
                    Some(mut task) => {
                        if task.key.same_as(&rune) {
                            task.handle.resolve(result);
                        }
                        self.apply_rune_task = Some(task);
                    },
                    None => {},
                }
            },
            Completion::ApplyBuilds { source, alias, result } => {
                let mut slot = None;
                std::mem::swap(&mut slot, &mut self.apply_builds_task);
                match slot {
                    Some(mut task) => {
                        if task.key.is(&source, &alias) {
                            task.handle.resolve(result);
                        }
                        self.apply_builds_task = Some(task);
                    },
                    None => {},
                }
            },
        }
    }

    /// Drops the handle of the catalog fetch, so that the next cycle fetches
    /// the catalog anew. What has been fetched stays.
    pub fn reset_catalog(&mut self)
        ensures
            final(self)@ == (UiModel { fetch_catalog_task: None, ..old(self)@ }),
    {
        self.fetch_catalog_task.reset();
    }

    /// Drops the handle of the fetch of the source list, so that the next
    /// cycle fetches the list anew. What has been fetched stays.
    pub fn reset_sources(&mut self)
        ensures
            final(self)@ == (UiModel { fetch_sources_task: None, ..old(self)@ }),
    {
        self.fetch_sources_task.reset();
    }

    /// The catalog step of a cycle.
    pub fn reconcile_catalog(&mut self, endpoint: &String, champion_id: Option<i64>) -> (out: (
        CatalogPanel,
        Vec<Effect>,
    ))
        ensures
            final(self)@ == catalog_step(old(self)@, endpoint@, champion_id).state,
            out.0@ == catalog_step(old(self)@, endpoint@, champion_id).panel,
            out.1.deep_view() == catalog_step(old(self)@, endpoint@, champion_id).effects,
    {
        match self.fetch_catalog_task.get_or_start() {
            Status::Started => (
                CatalogPanel::Started,
                one_effect(Effect::FetchCatalog { endpoint: endpoint.clone() }),
            ),
            Status::InFlight => (CatalogPanel::Loading, no_effect()),
            Status::Resolved => {
                let outcome = self.fetch_catalog_task.poll().unwrap();
                let report = CatalogReport {
                    perks_error: part_error(&outcome.perks),
                    champions_error: part_error(&outcome.champions),
                    styles_error: part_error(&outcome.styles),
                    avatar_url: avatar_for(&outcome.champions, champion_id),
                };
                match &outcome.perks {
                    Ok(list) => {
                        self.all_perks = clone_perks(list);
                    },
                    Err(_) => {},
                }
                match &outcome.champions {
                    Ok(list) => {
                        self.all_champions = clone_champions(list);
                    },
                    Err(_) => {},
                }
                match &outcome.styles {
                    Ok(list) => {
                        self.all_styles = clone_styles(list);
                    },
                    Err(_) => {},
                }
                (CatalogPanel::Resolved(report), no_effect())
            },
        }
    }

    /// The source step of a cycle, with the source that the user
    /// picked in the selection control, if any.
    pub fn reconcile_sources(&mut self, pick: &Option<String>) -> (out: (SourcesPanel, Vec<Effect>))
        ensures
            final(self)@ == sources_step(old(self)@, pick.deep_view()).state,
            out.0@ == sources_step(old(self)@, pick.deep_view()).panel,
            out.1.deep_view() == sources_step(old(self)@, pick.deep_view()).effects,
    {
        match self.fetch_sources_task.get_or_start() {
            Status::Started => (SourcesPanel::Started, one_effect(Effect::FetchSources)),
            Status::InFlight => (SourcesPanel::Loading, no_effect()),
            Status::Resolved => {
                match self.fetch_sources_task.poll().unwrap() {
                    Err(error) => (SourcesPanel::Failed(error.clone()), no_effect()),
                    Ok(list) => {
                        let sources = clone_sources(list);
                        if self.selected_source.as_str().is_empty() && sources.len() > 0 {
                            self.selected_source = sources[0].value.clone();
                        }
                        match pick {
                            Some(value) => {
                                if offers_value(&sources, value) && *value
                                    != self.selected_source {
                                    self.selected_source = value.clone();
                                    self.builds = Vec::new();
                                    self.list_builds_task = None;
                                    self.apply_builds_task = None;
                                    assert(self.builds.deep_view() =~= Seq::empty());
                                }
                            },
                            None => {},
                        }
                        let shown = clone_sources(&sources);
                        self.sources = sources;
                        (
                            SourcesPanel::Selector {
                                sources: shown,
                                selected: self.selected_source.clone(),
                            },
                            no_effect(),
                        )
                    },
                }
            },
        }
    }

    /// The selection step of a cycle.
    pub fn reconcile_selection(&mut self, champion_id: Option<i64>)
        ensures
            final(self)@ == selection_step(old(self)@, champion_id),
    {
        if self.prev_champion_id.observe(champion_id) {
            self.builds = Vec::new();
            self.list_builds_task = None;
            self.rune_to_apply = None;
            self.apply_rune_task = None;
            self.apply_builds_task = None;
            assert(self.builds.deep_view() =~= Seq::empty());
        }
    }

    /// The apply step of a cycle: the rune page that waits to be applied.
    pub fn reconcile_apply(&mut self, endpoint: &String) -> (out: (ApplyPanel, Vec<Effect>))
        ensures
            final(self)@ == apply_step(old(self)@, endpoint@).state,
            out.0@ == apply_step(old(self)@, endpoint@).panel,
            out.1.deep_view() == apply_step(old(self)@, endpoint@).effects,
    {
        let rune = match &self.rune_to_apply {
            None => {
                return (ApplyPanel::Idle, no_effect());
            },
            Some(rune) => rune.clone(),
        };
        let mut slot = None;
        std::mem::swap(&mut slot, &mut self.apply_rune_task);
        match slot {
            Some(task) => {
                if task.key.same_as(&rune) {
                    match task.handle.poll() {
                        None => {
                            self.apply_rune_task = Some(task);
                            return (ApplyPanel::Applying, no_effect());
                        },
                        Some(Ok(_)) => {
                            self.rune_to_apply = None;
                            return (ApplyPanel::Applied, no_effect());
                        },
                        Some(Err(error)) => {
                            let panel = ApplyPanel::Failed(error.clone());
                            self.apply_rune_task = Some(task);
                            return (panel, no_effect());
                        },
                    }
                }
            },
            None => {},
        }
        let started = rune.clone();
        self.apply_rune_task = Some(KeyedTask { key: rune, handle: TaskHandle::spawn() });
        (
            ApplyPanel::Started,
            one_effect(Effect::ApplyRune { endpoint: endpoint.clone(), rune: started }),
        )
    }

    /// The bulk step of a cycle, for the picked champion and with
    /// the source that the user triggered it for, if any.
    pub fn reconcile_bulk_apply(
        &mut self,
        auth: &AuthContext,
        champion_id: i64,
        trigger: &Option<String>,
    ) -> (out: (BulkPanel, BulkOutcome, Vec<Effect>))
        ensures
            final(self)@ == bulk_step(old(self)@, auth@, champion_id, trigger.deep_view()).state,
            out.0 == bulk_step(old(self)@, auth@, champion_id, trigger.deep_view()).panel,
            out.1@ == bulk_step(old(self)@, auth@, champion_id, trigger.deep_view()).outcome,
            out.2.deep_view() == bulk_step(
                old(self)@,
                auth@,
                champion_id,
                trigger.deep_view(),
            ).effects,
    {
        let mut slot = None;
        std::mem::swap(&mut slot, &mut self.apply_builds_task);
        let outcome = match slot {
            Some(task) => {
                let outcome = match task.handle.poll() {
                    None => BulkOutcome::Unfinished,
                    Some(Ok(_)) => BulkOutcome::Succeeded,
                    Some(Err(error)) => BulkOutcome::Failed(error.clone()),
                };
                if task.handle.is_pending() {
                    self.apply_builds_task = Some(task);
                }
                outcome
            },
            None => BulkOutcome::Unfinished,
        };
        if self.apply_builds_task.is_none() {
            match trigger {
                Some(source) => {
                    match find_champion_alias(&self.all_champions, champion_id) {
                        Some(alias) => {
                            let effect = Effect::ApplyBuilds {
                                install_dir: auth.install_dir.clone(),
                                source: source.clone(),
                                alias: alias.clone(),
                                is_alternate_region: auth.is_alternate_region,
                            };
                            self.apply_builds_task = Some(
                                KeyedTask {
                                    key: BuildKey { source: source.clone(), alias },
                                    handle: TaskHandle::spawn(),
                                },
                            );
                            return (BulkPanel::Spinner, outcome, one_effect(effect));
                        },
                        None => {},
                    }
                },
                None => {},
            }
            (BulkPanel::Button, outcome, no_effect())
        } else {
            (BulkPanel::Spinner, outcome, no_effect())
        }
    }
}

fn offers_value(sources: &Vec<Source>, value: &String) -> (offered: bool)
    ensures
        offered == offers(sources.deep_view(), value@),
{
    let mut i: usize = 0;
    while i < sources.len()
        invariant
            i <= sources@.len(),
            forall|j: int| 0 <= j < i ==> (#[trigger] sources.deep_view()[j]).value != value@,
        decreases sources@.len() - i,
    {
        if sources[i].value == *value {
            assert(sources.deep_view()[i as int].value == value@);
            return true;
        }
        i += 1;
    }
    false
}

fn show_icon(
    icons: &mut KeyedCache<Vec<u8>, FetchError>,
    path: Option<String>,
    base_url: &String,
    effects: &mut Vec<Effect>,
) -> (slot: IconSlot)
    ensures
        final(icons)@ == icon_slot(old(icons)@, path.deep_view(), base_url@).cache,
        slot@ == icon_slot(old(icons)@, path.deep_view(), base_url@).slot,
        final(effects).deep_view() == old(effects).deep_view() + icon_slot(
            old(icons)@,
            path.deep_view(),
            base_url@,
        ).effects,
{
    let path = match path {
        None => {
            return IconSlot::Absent;
        },
        Some(path) => path,
    };
    match icons.get_or_start(&path) {
        Lookup::Started => {
            effects.push(Effect::FetchIcon { url: icon_url(base_url, &path), path });
            IconSlot::Started
        },
        Lookup::InFlight => IconSlot::Spinner,
        Lookup::Failed(error) => IconSlot::Failed(error),
        Lookup::Cached => {
            let bytes = clone_bytes(icons.get(&path).unwrap());
            IconSlot::Image { path, bytes }
        },
    }
}

fn show_rune(
    icons: &mut KeyedCache<Vec<u8>, FetchError>,
    rune: &Rune,
    perks: &Vec<Perk>,
    styles: &Vec<RuneStyle>,
    base_url: &String,
    effects: &mut Vec<Effect>,
) -> (row: RuneRow)
    ensures
        final(icons)@ == rune_row(
            old(icons)@,
            rune@,
            perks.deep_view(),
            styles.deep_view(),
            base_url@,
        ).cache,
        seq![row@] == rune_row(
            old(icons)@,
            rune@,
            perks.deep_view(),
            styles.deep_view(),
            base_url@,
        ).rows,
        final(effects).deep_view() == old(effects).deep_view() + rune_row(
            old(icons)@,
            rune@,
            perks.deep_view(),
            styles.deep_view(),
            base_url@,
        ).effects,
{
    let primary_path = if rune.selected_perk_ids.len() > 0 {
        find_perk_icon(perks, rune.selected_perk_ids[0])
    } else {
        None
    };
    let primary = show_icon(icons, primary_path, base_url, effects);
    let secondary_path = find_style_icon(styles, rune.sub_style_id);
    let secondary = show_icon(icons, secondary_path, base_url, effects);
    RuneRow { rune: rune.clone(), primary, secondary }
}

fn show_runes(
    icons: &mut KeyedCache<Vec<u8>, FetchError>,
    runes: &Vec<Rune>,
    perks: &Vec<Perk>,
    styles: &Vec<RuneStyle>,
    base_url: &String,
    rows: &mut Vec<RuneRow>,
    effects: &mut Vec<Effect>,
)
    ensures
        final(icons)@ == rune_rows(
            old(icons)@,
            runes.deep_view(),
            perks.deep_view(),
            styles.deep_view(),
            base_url@,
        ).cache,
        final(rows).deep_view() == old(rows).deep_view() + rune_rows(
            old(icons)@,
            runes.deep_view(),
            perks.deep_view(),
            styles.deep_view(),
            base_url@,
        ).rows,
        final(effects).deep_view() == old(effects).deep_view() + rune_rows(
            old(icons)@,
            runes.deep_view(),
            perks.deep_view(),
            styles.deep_view(),
            base_url@,
        ).effects,
{
    let ghost all = runes.deep_view();
    let ghost start = icons@;
    let ghost p = perks.deep_view();
    let ghost s = styles.deep_view();
    let mut i: usize = 0;
    while i < runes.len()
        invariant
            i <= runes@.len(),
            all == runes.deep_view(),
            p == perks.deep_view(),
            s == styles.deep_view(),
            icons@ == rune_rows(start, all.take(i as int), p, s, base_url@).cache,
            rows.deep_view() == old(rows).deep_view() + rune_rows(
                start,
                all.take(i as int),
                p,
                s,
                base_url@,
            ).rows,
            effects.deep_view() == old(effects).deep_view() + rune_rows(
                start,
                all.take(i as int),
                p,
                s,
                base_url@,
            ).effects,
        decreases runes@.len() - i,
    {
        let ghost rows_before = rows.deep_view();
        let row = show_rune(icons, &runes[i], perks, styles, base_url, effects);
        rows.push(row);
        assert(all.take(i + 1).drop_last() =~= all.take(i as int));
        assert(rows.deep_view() =~= rows_before + seq![row@]);
        i += 1;
    }
    assert(all.take(i as int) =~= all);
}

fn show_sections(
    icons: &mut KeyedCache<Vec<u8>, FetchError>,
    sections: &Vec<BuildSection>,
    perks: &Vec<Perk>,
    styles: &Vec<RuneStyle>,
    base_url: &String,
    rows: &mut Vec<RuneRow>,
    effects: &mut Vec<Effect>,
)
    ensures
        final(icons)@ == section_rows(
            old(icons)@,
            sections.deep_view(),
            perks.deep_view(),
            styles.deep_view(),
            base_url@,
        ).cache,
        final(rows).deep_view() == old(rows).deep_view() + section_rows(
            old(icons)@,
            sections.deep_view(),
            perks.deep_view(),
            styles.deep_view(),
            base_url@,
        ).rows,
        final(effects).deep_view() == old(effects).deep_view() + section_rows(
            old(icons)@,
            sections.deep_view(),
            perks.deep_view(),
            styles.deep_view(),
            base_url@,
        ).effects,
{
    let ghost all = sections.deep_view();
    let ghost start = icons@;
    let ghost p = perks.deep_view();
    let ghost s = styles.deep_view();
    let mut i: usize = 0;
    while i < sections.len()
        invariant
            i <= sections@.len(),
            all == sections.deep_view(),
            p == perks.deep_view(),
            s == styles.deep_view(),
            icons@ == section_rows(start, all.take(i as int), p, s, base_url@).cache,
            rows.deep_view() == old(rows).deep_view() + section_rows(
                start,
                all.take(i as int),
                p,
                s,
                base_url@,
            ).rows,
            effects.deep_view() == old(effects).deep_view() + section_rows(
                start,
                all.take(i as int),
                p,
                s,
                base_url@,
            ).effects,
        decreases sections@.len() - i,
    {
        show_runes(icons, &sections[i].runes, perks, styles, base_url, rows, effects);
        assert(all.take(i + 1).drop_last() =~= all.take(i as int));
        i += 1;
    }
    assert(all.take(i as int) =~= all);
}

fn displays_rune(sections: &Vec<BuildSection>, rune: &Rune) -> (displayed: bool)
    ensures
        displayed == displays(sections.deep_view(), rune@),
{
    let mut i: usize = 0;
    while i < sections.len()
        invariant
            i <= sections@.len(),
            forall|a: int, b: int|
                0 <= a < i && 0 <= b < sections.deep_view()[a].runes.len() ==> (
                #[trigger] sections.deep_view()[a].runes[b]) != rune@,
        decreases sections@.len() - i,
    {
        let runes = &sections[i].runes;
        let mut j: usize = 0;
        while j < runes.len()
            invariant
                i < sections@.len(),
                j <= runes@.len(),
                runes == &sections@[i as int].runes,
                forall|b: int|
                    0 <= b < j ==> (#[trigger] sections.deep_view()[i as int].runes[b]) != rune@,
            decreases runes@.len() - j,
        {
            if runes[j].same_as(rune) {
                assert(sections.deep_view()[i as int].runes[j as int] == rune@);
                return true;
            }
            j += 1;
        }
        i += 1;
    }
    false
}

impl RuneUIState {
    /// The build step of a cycle, for the picked champion and with
    /// the rune page on which the user clicked "apply", if any.
    pub fn reconcile_builds(
        &mut self,
        base_url: &String,
        champion_id: i64,
        click: &Option<Rune>,
    ) -> (out: (BuildsPanel, Vec<Effect>))
        ensures
            final(self)@ == builds_step(old(self)@, base_url@, champion_id, click.deep_view()).state,
            out.0@ == builds_step(old(self)@, base_url@, champion_id, click.deep_view()).panel,
            out.1.deep_view() == builds_step(
                old(self)@,
                base_url@,
                champion_id,
                click.deep_view(),
            ).effects,
    {
        let alias = match find_champion_alias(&self.all_champions, champion_id) {
            None => {
                return (BuildsPanel::Waiting, no_effect());
            },
            Some(alias) => alias,
        };
        let mut slot = None;
        std::mem::swap(&mut slot, &mut self.list_builds_task);
        match slot {
            Some(task) => {
                if task.key.is(&self.selected_source, &alias) {
                    match task.handle.poll() {
                        None => {
                            self.list_builds_task = Some(task);
                            return (BuildsPanel::Loading, no_effect());
                        },
                        Some(Err(error)) => {
                            return (BuildsPanel::Failed(error.clone()), no_effect());
                        },
                        Some(Ok(list)) => {
                            let sections = clone_sections(list);
                            let mut rows = Vec::new();
                            let mut effects = Vec::new();
                            show_sections(
                                &mut self.rune_images,
                                &sections,
                                &self.all_perks,
                                &self.all_styles,
                                base_url,
                                &mut rows,
                                &mut effects,
                            );
                            match click {
                                Some(rune) => {
                                    if displays_rune(&sections, rune) {
                                        self.rune_to_apply = Some(rune.clone());
                                        let finished = match &self.apply_rune_task {
                                            Some(earlier) => !earlier.handle.is_pending(),
                                            None => false,
                                        };
                                        if finished {
                                            self.apply_rune_task = None;
                                        }
                                    }
                                },
                                None => {},
                            }
                            self.builds = sections;
                            self.list_builds_task = Some(task);
                            return (BuildsPanel::Listed(rows), effects);
                        },
                    }
                }
            },
            None => {},
        }
        let effect = Effect::FetchBuilds {
            source: self.selected_source.clone(),
            alias: alias.clone(),
        };
        self.list_builds_task = Some(
            KeyedTask {
                key: BuildKey { source: self.selected_source.clone(), alias },
                handle: TaskHandle::spawn(),
            },
        );
        (BuildsPanel::Started, one_effect(effect))
    }
}

/// Runs one cycle of the orchestration: reconciles the state with the
/// connection, the champion that the player has picked and the user's
/// commands, and hands out what to draw and what to start.
pub fn render_runes_ui(
    ui_state: &mut RuneUIState,
    lcu_auth: &AuthContext,
    champion_id: Option<i64>,
    commands: &Commands,
) -> (frame: Frame)
    ensures
        final(ui_state)@ == cycle(old(ui_state)@, lcu_auth@, champion_id, commands@).state,
        frame@ == cycle(old(ui_state)@, lcu_auth@, champion_id, commands@).frame,
{
    if lcu_auth.connection().is_err() {
        return Frame {
            catalog: CatalogPanel::Hidden,
            sources: SourcesPanel::Hidden,
            builds: BuildsPanel::Hidden,
            apply: ApplyPanel::Hidden,
            bulk: BulkPanel::Hidden,
            bulk_outcome: BulkOutcome::Unfinished,
            effects: no_effect(),
        };
    }
    let endpoint = endpoint_url(&lcu_auth.base_url);
    let (catalog, mut effects) = ui_state.reconcile_catalog(&endpoint, champion_id);
    let (sources, more) = ui_state.reconcile_sources(&commands.select_source);
    append_effects(&mut effects, more);
    ui_state.reconcile_selection(champion_id);
    let picked = match champion_id {
        Some(id) => id > 0,
        None => false,
    };
    if !ui_state.selected_source.as_str().is_empty() && picked {
        let id = champion_id.unwrap();
        let (builds, more) = ui_state.reconcile_builds(&lcu_auth.base_url, id, &commands.apply_rune);
        append_effects(&mut effects, more);
        let (apply, more) = ui_state.reconcile_apply(&endpoint);
        append_effects(&mut effects, more);
        let (bulk, bulk_outcome, more) = ui_state.reconcile_bulk_apply(
            lcu_auth,
            id,
            &commands.bulk_apply,
        );
        append_effects(&mut effects, more);
        Frame { catalog, sources, builds, apply, bulk, bulk_outcome, effects }
    } else {
        Frame {
            catalog,
            sources,
            builds: BuildsPanel::Hidden,
            apply: ApplyPanel::Hidden,
            bulk: BulkPanel::Hidden,
            bulk_outcome: BulkOutcome::Unfinished,
            effects,
        }
    }
}

} // verus!
