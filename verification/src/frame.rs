//! What one cycle of the orchestration takes in and hands out: the user's
//! commands, the operations to start, and what to draw.

use crate::cache::result_view;
use crate::model::{
    ApiError, ApiErrorView, BuildSection, BuildSectionView, CatalogOutcome, CatalogOutcomeView,
    FetchError, FetchErrorView,
};
use crate::web::{Rune, RuneView, Source, SourceView};
use vstd::prelude::*;

verus! {

/// The result of fetching the source list.
pub type SourcesResult = Result<Vec<Source>, FetchError>;

/// The result of fetching a build list.
pub type BuildsResult = Result<Vec<BuildSection>, FetchError>;

/// The result of fetching an icon.
pub type IconResult = Result<Vec<u8>, FetchError>;

/// The result of writing a rune page.
pub type ApplyResult = Result<(), ApiError>;

/// The result of applying a source's builds in bulk.
pub type BulkResult = Result<(), FetchError>;

/// The mathematical value of a [`SourcesResult`].
pub type SourcesResultView = Result<Seq<SourceView>, FetchErrorView>;

/// The mathematical value of a [`BuildsResult`].
pub type BuildsResultView = Result<Seq<BuildSectionView>, FetchErrorView>;

/// The mathematical value of an [`IconResult`].
pub type IconResultView = Result<Seq<u8>, FetchErrorView>;

/// The mathematical value of an [`ApplyResult`].
pub type ApplyResultView = Result<(), ApiErrorView>;

/// The mathematical value of a [`BulkResult`].
pub type BulkResultView = Result<(), FetchErrorView>;

/// The mathematical value of the result of fetching the source list.
pub open spec fn sources_result_view(result: SourcesResult) -> SourcesResultView {
    match result {
        Ok(list) => Ok(list.deep_view()),
        Err(error) => Err(error@),
    }
}

/// The mathematical value of the result of fetching a build list.
pub open spec fn builds_result_view(result: BuildsResult) -> BuildsResultView {
    match result {
        Ok(list) => Ok(list.deep_view()),
        Err(error) => Err(error@),
    }
}

/// The mathematical value of the result of writing a rune page.
pub open spec fn apply_result_view(result: ApplyResult) -> ApplyResultView {
    match result {
        Ok(done) => Ok(done),
        Err(error) => Err(error@),
    }
}

/// The mathematical value of the result of a bulk apply.
pub open spec fn bulk_result_view(result: BulkResult) -> BulkResultView {
    match result {
        Ok(done) => Ok(done),
        Err(error) => Err(error@),
    }
}

/// The result of an operation that the caller had started, labelled with
/// what the operation was started for.
#[derive(Debug)]
#[allow(inconsistent_fields)]
pub enum Completion {
    Catalog(CatalogOutcome),
    Sources(SourcesResult),
    Builds { source: String, alias: String, result: BuildsResult },
    Icon { path: String, result: IconResult },
    ApplyRune { rune: Rune, result: ApplyResult },
    ApplyBuilds { source: String, alias: String, result: BulkResult },
}

/// The mathematical value of a [`Completion`].
#[allow(inconsistent_fields)]
pub enum CompletionView {
    Catalog(CatalogOutcomeView),
    Sources(SourcesResultView),
    Builds { source: Seq<char>, alias: Seq<char>, result: BuildsResultView },
    Icon { path: Seq<char>, result: IconResultView },
    ApplyRune { rune: RuneView, result: ApplyResultView },
    ApplyBuilds { source: Seq<char>, alias: Seq<char>, result: BulkResultView },
}

impl View for Completion {
    type V = CompletionView;

    open spec fn view(&self) -> CompletionView {
        match *self {
            Completion::Catalog(outcome) => CompletionView::Catalog(outcome@),
            Completion::Sources(result) => CompletionView::Sources(sources_result_view(result)),
            Completion::Builds { source, alias, result } => CompletionView::Builds {
                source: source@,
                alias: alias@,
                result: builds_result_view(result),
            },
            Completion::Icon { path, result } => CompletionView::Icon {
                path: path@,
                result: result_view(result),
            },
            Completion::ApplyRune { rune, result } => CompletionView::ApplyRune {
                rune: rune@,
                result: apply_result_view(result),
            },
            Completion::ApplyBuilds { source, alias, result } => CompletionView::ApplyBuilds {
                source: source@,
                alias: alias@,
                result: bulk_result_view(result),
            },
        }
    }
}

/// What the user asked for since the last cycle. Each command is consumed by
/// the cycle it is handed to.
#[derive(Debug, PartialEq, Eq)]
pub struct Commands {
    /// The source picked in the selection control.
    pub select_source: Option<String>,
    /// The displayed rune page on which "apply" was clicked.
    pub apply_rune: Option<Rune>,
    /// The source whose builds are to be applied in bulk.
    pub bulk_apply: Option<String>,
}

/// The mathematical value of [`Commands`].
pub struct CommandsView {
    pub select_source: Option<Seq<char>>,
    pub apply_rune: Option<RuneView>,
    pub bulk_apply: Option<Seq<char>>,
}

impl View for Commands {
    type V = CommandsView;

    open spec fn view(&self) -> CommandsView {
        CommandsView {
            select_source: self.select_source.deep_view(),
            apply_rune: self.apply_rune.deep_view(),
            bulk_apply: self.bulk_apply.deep_view(),
        }
    }
}

impl Commands {
    /// Asks for a bulk apply of the builds of `source`, in place of any
    /// source asked for before. The window's button and the tray command
    /// both come in here.
    pub fn trigger_bulk_apply(&mut self, source: String)
        ensures
            final(self)@ == (CommandsView { bulk_apply: Some(source@), ..old(self)@ }),
    {
        self.bulk_apply = Some(source);
    }

    /// No command.
    pub fn none() -> (commands: Self)
        ensures
            commands@ == (CommandsView { select_source: None, apply_rune: None, bulk_apply: None }),
    {
        Commands { select_source: None, apply_rune: None, bulk_apply: None }
    }
}

/// An operation that the caller is to start. Its result comes back as the
/// completion of the same kind and key.
#[derive(Debug, PartialEq, Eq)]
pub enum Effect {
    /// List perks, the player's champions and rune trees at the game client.
    FetchCatalog { endpoint: String },
    /// List the build sources.
    FetchSources,
    /// List the builds that `source` has for the champion `alias`.
    FetchBuilds { source: String, alias: String },
    /// Fetch the icon with this path from `url`.
    FetchIcon { path: String, url: String },
    /// Write the rune page to the game client.
    ApplyRune { endpoint: String, rune: Rune },
    /// Apply all builds that `source` has for the champion `alias`.
    ApplyBuilds { install_dir: String, source: String, alias: String, is_alternate_region: bool },
}

/// The mathematical value of an [`Effect`].
pub enum EffectView {
    FetchCatalog { endpoint: Seq<char> },
    FetchSources,
    FetchBuilds { source: Seq<char>, alias: Seq<char> },
    FetchIcon { path: Seq<char>, url: Seq<char> },
    ApplyRune { endpoint: Seq<char>, rune: RuneView },
    ApplyBuilds {
        install_dir: Seq<char>,
        source: Seq<char>,
        alias: Seq<char>,
        is_alternate_region: bool,
    },
}

impl View for Effect {
    type V = EffectView;

    open spec fn view(&self) -> EffectView {
        match *self {
            Effect::FetchCatalog { endpoint } => EffectView::FetchCatalog { endpoint: endpoint@ },
            Effect::FetchSources => EffectView::FetchSources,
            Effect::FetchBuilds { source, alias } => EffectView::FetchBuilds {
                source: source@,
                alias: alias@,
            },
            Effect::FetchIcon { path, url } => EffectView::FetchIcon { path: path@, url: url@ },
            Effect::ApplyRune { endpoint, rune } => EffectView::ApplyRune {
                endpoint: endpoint@,
                rune: rune@,
            },
            Effect::ApplyBuilds { install_dir, source, alias, is_alternate_region } => EffectView::ApplyBuilds {
                install_dir: install_dir@,
                source: source@,
                alias: alias@,
                is_alternate_region,
            },
        }
    }
}

impl DeepView for Effect {
    type V = EffectView;

    open spec fn deep_view(&self) -> EffectView {
        self@
    }
}

/// What stands in the place of one icon.
#[derive(Debug, PartialEq, Eq)]
pub enum IconSlot {
    /// The rune page names no known perk or rune tree here: there is no icon.
    Absent,
    /// The fetch of the icon starts with this cycle; nothing is drawn.
    Started,
    /// The icon is being fetched: a spinner.
    Spinner,
    /// The fetch of the icon failed; nothing is drawn.
    Failed(FetchError),
    /// The icon's image.
    Image { path: String, bytes: Vec<u8> },
}

/// The mathematical value of an [`IconSlot`].
pub enum IconSlotView {
    Absent,
    Started,
    Spinner,
    Failed(FetchErrorView),
    Image { path: Seq<char>, bytes: Seq<u8> },
}

impl View for IconSlot {
    type V = IconSlotView;

    open spec fn view(&self) -> IconSlotView {
        match *self {
            IconSlot::Absent => IconSlotView::Absent,
            IconSlot::Started => IconSlotView::Started,
            IconSlot::Spinner => IconSlotView::Spinner,
            IconSlot::Failed(error) => IconSlotView::Failed(error@),
            IconSlot::Image { path, bytes } => IconSlotView::Image { path: path@, bytes: bytes@ },
        }
    }
}

/// One displayed rune page: its name, the icon of its first perk, the icon
/// of its secondary rune tree, and an "apply" button.
#[derive(Debug, PartialEq, Eq)]
pub struct RuneRow {
    pub rune: Rune,
    pub primary: IconSlot,
    pub secondary: IconSlot,
}

/// The mathematical value of a [`RuneRow`].
pub struct RuneRowView {
    pub rune: RuneView,
    pub primary: IconSlotView,
    pub secondary: IconSlotView,
}

impl View for RuneRow {
    type V = RuneRowView;

    open spec fn view(&self) -> RuneRowView {
        RuneRowView { rune: self.rune@, primary: self.primary@, secondary: self.secondary@ }
    }
}

impl DeepView for RuneRow {
    type V = RuneRowView;

    open spec fn deep_view(&self) -> RuneRowView {
        self@
    }
}

/// What a resolved catalog fetch shows: an error label for each part that
/// failed, and the address of the current champion's picture.
#[derive(Debug, PartialEq, Eq)]
pub struct CatalogReport {
    pub perks_error: Option<ApiError>,
    pub champions_error: Option<ApiError>,
    pub styles_error: Option<ApiError>,
    pub avatar_url: Option<String>,
}

/// The mathematical value of a [`CatalogReport`].
pub struct CatalogReportView {
    pub perks_error: Option<ApiErrorView>,
    pub champions_error: Option<ApiErrorView>,
    pub styles_error: Option<ApiErrorView>,
    pub avatar_url: Option<Seq<char>>,
}

impl View for CatalogReport {
    type V = CatalogReportView;

    open spec fn view(&self) -> CatalogReportView {
        CatalogReportView {
            perks_error: self.perks_error.deep_view(),
            champions_error: self.champions_error.deep_view(),
            styles_error: self.styles_error.deep_view(),
            avatar_url: self.avatar_url.deep_view(),
        }
    }
}

/// The part of the window that belongs to the catalog.
#[derive(Debug, PartialEq, Eq)]
pub enum CatalogPanel {
    /// Not connected: nothing is drawn.
    Hidden,
    /// The catalog fetch starts with this cycle; nothing is drawn.
    Started,
    /// The catalog is being fetched: a spinner.
    Loading,
    /// The catalog fetch has resolved.
    Resolved(CatalogReport),
}

/// The mathematical value of a [`CatalogPanel`].
pub enum CatalogPanelView {
    Hidden,
    Started,
    Loading,
    Resolved(CatalogReportView),
}

impl View for CatalogPanel {
    type V = CatalogPanelView;

    open spec fn view(&self) -> CatalogPanelView {
        match *self {
            CatalogPanel::Hidden => CatalogPanelView::Hidden,
            CatalogPanel::Started => CatalogPanelView::Started,
            CatalogPanel::Loading => CatalogPanelView::Loading,
            CatalogPanel::Resolved(report) => CatalogPanelView::Resolved(report@),
        }
    }
}

/// The part of the window that belongs to the source list.
#[derive(Debug, PartialEq, Eq)]
pub enum SourcesPanel {
    /// Not connected: nothing is drawn.
    Hidden,
    /// The fetch of the source list starts with this cycle.
    Started,
    /// The source list is being fetched: a spinner.
    Loading,
    /// The selection control, with the sources on offer and the one selected.
    Selector { sources: Vec<Source>, selected: String },
    /// The fetch of the source list failed: an error label.
    Failed(FetchError),
}

/// The mathematical value of a [`SourcesPanel`].
pub enum SourcesPanelView {
    Hidden,
    Started,
    Loading,
    Selector { sources: Seq<SourceView>, selected: Seq<char> },
    Failed(FetchErrorView),
}

impl View for SourcesPanel {
    type V = SourcesPanelView;

    open spec fn view(&self) -> SourcesPanelView {
        match *self {
            SourcesPanel::Hidden => SourcesPanelView::Hidden,
            SourcesPanel::Started => SourcesPanelView::Started,
            SourcesPanel::Loading => SourcesPanelView::Loading,
            SourcesPanel::Selector { sources, selected } => SourcesPanelView::Selector {
                sources: sources.deep_view(),
                selected: selected@,
            },
            SourcesPanel::Failed(error) => SourcesPanelView::Failed(error@),
        }
    }
}

/// The part of the window that belongs to the build list.
#[derive(Debug, PartialEq, Eq)]
pub enum BuildsPanel {
    /// No source is selected or no champion is picked: nothing is drawn.
    Hidden,
    /// The champion is not in the catalog yet: nothing is drawn or fetched.
    Waiting,
    /// The fetch of the build list starts with this cycle.
    Started,
    /// The build list is being fetched: a spinner.
    Loading,
    /// The rune pages of the build list.
    Listed(Vec<RuneRow>),
    /// The fetch of the build list failed: an error label.
    Failed(FetchError),
}

/// The mathematical value of a [`BuildsPanel`].
pub enum BuildsPanelView {
    Hidden,
    Waiting,
    Started,
    Loading,
    Listed(Seq<RuneRowView>),
    Failed(FetchErrorView),
}

impl View for BuildsPanel {
    type V = BuildsPanelView;

    open spec fn view(&self) -> BuildsPanelView {
        match *self {
            BuildsPanel::Hidden => BuildsPanelView::Hidden,
            BuildsPanel::Waiting => BuildsPanelView::Waiting,
            BuildsPanel::Started => BuildsPanelView::Started,
            BuildsPanel::Loading => BuildsPanelView::Loading,
            BuildsPanel::Listed(rows) => BuildsPanelView::Listed(rows.deep_view()),
            BuildsPanel::Failed(error) => BuildsPanelView::Failed(error@),
        }
    }
}

/// The state of the rune page that the user asked to apply.
#[derive(Debug, PartialEq, Eq)]
pub enum ApplyPanel {
    /// No source is selected or no champion is picked.
    Hidden,
    /// No rune page is waiting to be applied.
    Idle,
    /// The write of the rune page starts with this cycle.
    Started,
    /// The rune page is being written: a spinner.
    Applying,
    /// The rune page was written; nothing waits any more.
    Applied,
    /// The write failed. The rune page keeps waiting until the user clicks
    /// "apply" again.
    Failed(ApiError),
}

/// The mathematical value of an [`ApplyPanel`].
pub enum ApplyPanelView {
    Hidden,
    Idle,
    Started,
    Applying,
    Applied,
    Failed(ApiErrorView),
}

impl View for ApplyPanel {
    type V = ApplyPanelView;

    open spec fn view(&self) -> ApplyPanelView {
        match *self {
            ApplyPanel::Hidden => ApplyPanelView::Hidden,
            ApplyPanel::Idle => ApplyPanelView::Idle,
            ApplyPanel::Started => ApplyPanelView::Started,
            ApplyPanel::Applying => ApplyPanelView::Applying,
            ApplyPanel::Applied => ApplyPanelView::Applied,
            ApplyPanel::Failed(error) => ApplyPanelView::Failed(error@),
        }
    }
}

/// The place of the button that applies a source's builds in bulk.
#[derive(Debug, PartialEq, Eq, Clone, Copy)]
pub enum BulkPanel {
    /// No source is selected or no champion is picked.
    Hidden,
    /// The button.
    Button,
    /// A bulk apply is running: a spinner in place of the button.
    Spinner,
}

/// How a bulk apply ended.
#[derive(Debug, PartialEq, Eq)]
pub enum BulkOutcome {
    /// No bulk apply ended in this cycle.
    Unfinished,
    /// A bulk apply succeeded.
    Succeeded,
    /// A bulk apply failed; the failure is to be logged.
    Failed(FetchError),
}

/// The mathematical value of a [`BulkOutcome`].
pub enum BulkOutcomeView {
    Unfinished,
    Succeeded,
    Failed(FetchErrorView),
}

impl View for BulkOutcome {
    type V = BulkOutcomeView;

    open spec fn view(&self) -> BulkOutcomeView {
        match *self {
            BulkOutcome::Unfinished => BulkOutcomeView::Unfinished,
            BulkOutcome::Succeeded => BulkOutcomeView::Succeeded,
            BulkOutcome::Failed(error) => BulkOutcomeView::Failed(error@),
        }
    }
}

/// What one cycle hands out: what to draw, part by part, and the operations
/// to start.
#[derive(Debug, PartialEq, Eq)]
pub struct Frame {
    pub catalog: CatalogPanel,
    pub sources: SourcesPanel,
    pub builds: BuildsPanel,
    pub apply: ApplyPanel,
    pub bulk: BulkPanel,
    pub bulk_outcome: BulkOutcome,
    pub effects: Vec<Effect>,
}

/// The mathematical value of a [`Frame`].
pub struct FrameView {
    pub catalog: CatalogPanelView,
    pub sources: SourcesPanelView,
    pub builds: BuildsPanelView,
    pub apply: ApplyPanelView,
    pub bulk: BulkPanel,
    pub bulk_outcome: BulkOutcomeView,
    pub effects: Seq<EffectView>,
}

impl View for Frame {
    type V = FrameView;

    open spec fn view(&self) -> FrameView {
        FrameView {
            catalog: self.catalog@,
            sources: self.sources@,
            builds: self.builds@,
            apply: self.apply@,
            bulk: self.bulk,
            bulk_outcome: self.bulk_outcome@,
            effects: self.effects.deep_view(),
        }
    }
}

/// The frame of a cycle without a connection: nothing is drawn and nothing
/// is started.
pub open spec fn blank_frame() -> FrameView {
    FrameView {
        catalog: CatalogPanelView::Hidden,
        sources: SourcesPanelView::Hidden,
        builds: BuildsPanelView::Hidden,
        apply: ApplyPanelView::Hidden,
        bulk: BulkPanel::Hidden,
        bulk_outcome: BulkOutcomeView::Unfinished,
        effects: Seq::empty(),
    }
}

/// A message sent to the window shell.
#[derive(Debug, Clone, PartialEq, Eq)]
pub struct Payload {
    pub message: String,
}

/// Appends `more` to `effects`.
pub fn append_effects(effects: &mut Vec<Effect>, more: Vec<Effect>)
    ensures
        final(effects).deep_view() == old(effects).deep_view() + more.deep_view(),
{
    let mut rest = more;
    effects.append(&mut rest);
}

} // verus!
