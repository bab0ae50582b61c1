//! Data of the local game client and of the build sources, as the
//! orchestration reads it.

use crate::seqs::{first_where, lemma_first_where_is, lemma_first_where_none};
use crate::web::{Rune, RuneView, Source};
use vstd::prelude::*;

verus! {

/// How the local game client is reached. An empty `base_url` means that no
/// client has been found yet.
#[derive(Debug, PartialEq, Eq)]
pub struct AuthContext {
    pub base_url: String,
    pub is_alternate_region: bool,
    pub install_dir: String,
}

/// The mathematical value of an [`AuthContext`].
pub struct AuthContextView {
    pub base_url: Seq<char>,
    pub is_alternate_region: bool,
    pub install_dir: Seq<char>,
}

impl View for AuthContext {
    type V = AuthContextView;

    open spec fn view(&self) -> AuthContextView {
        AuthContextView {
            base_url: self.base_url@,
            is_alternate_region: self.is_alternate_region,
            install_dir: self.install_dir@,
        }
    }
}

/// The game client has not been found: there is nothing to connect to. This
/// is no failure but the state in which the orchestration rests.
#[derive(Debug, PartialEq, Eq, Clone, Copy)]
pub struct ConnectionError;

impl AuthContext {
    /// Whether the game client can be reached: an error while the base
    /// address is empty.
    pub fn connection(&self) -> (state: Result<(), ConnectionError>)
        ensures
            state is Ok <==> self@.base_url.len() > 0,
    {
        if self.base_url.as_str().is_empty() {
            Err(ConnectionError)
        } else {
            Ok(())
        }
    }
}

/// What a build list is fetched for: a source and a champion.
#[derive(Debug, PartialEq, Eq)]
pub struct BuildKey {
    pub source: String,
    pub alias: String,
}

/// The mathematical value of a [`BuildKey`].
pub struct BuildKeyView {
    pub source: Seq<char>,
    pub alias: Seq<char>,
}

impl View for BuildKey {
    type V = BuildKeyView;

    open spec fn view(&self) -> BuildKeyView {
        BuildKeyView { source: self.source@, alias: self.alias@ }
    }
}

impl BuildKey {
    /// Whether this is the key of the given source and champion.
    pub fn is(&self, source: &String, alias: &String) -> (same: bool)
        ensures
            same == (self@ == (BuildKeyView { source: source@, alias: alias@ })),
    {
        self.source == *source && self.alias == *alias
    }
}

/// The three lists that the game client is asked for together. Each may
/// fail by itself.
#[derive(Debug, PartialEq, Eq)]
pub struct CatalogOutcome {
    pub perks: Result<Vec<Perk>, ApiError>,
    pub champions: Result<Vec<Champion>, ApiError>,
    pub styles: Result<Vec<RuneStyle>, ApiError>,
}

/// The mathematical value of a [`CatalogOutcome`].
pub struct CatalogOutcomeView {
    pub perks: Result<Seq<PerkView>, ApiErrorView>,
    pub champions: Result<Seq<ChampionView>, ApiErrorView>,
    pub styles: Result<Seq<RuneStyleView>, ApiErrorView>,
}

impl View for CatalogOutcome {
    type V = CatalogOutcomeView;

    open spec fn view(&self) -> CatalogOutcomeView {
        CatalogOutcomeView {
            perks: match self.perks {
                Ok(list) => Ok(list.deep_view()),
                Err(error) => Err(error@),
            },
            champions: match self.champions {
                Ok(list) => Ok(list.deep_view()),
                Err(error) => Err(error@),
            },
            styles: match self.styles {
                Ok(list) => Ok(list.deep_view()),
                Err(error) => Err(error@),
            },
        }
    }
}

/// A failure to reach a build source or to read its answer.
#[derive(Debug, PartialEq, Eq)]
pub struct FetchError {
    pub message: String,
}

/// The mathematical value of a [`FetchError`].
pub struct FetchErrorView {
    pub message: Seq<char>,
}

impl View for FetchError {
    type V = FetchErrorView;

    open spec fn view(&self) -> FetchErrorView {
        FetchErrorView { message: self.message@ }
    }
}

impl DeepView for FetchError {
    type V = FetchErrorView;

    open spec fn deep_view(&self) -> FetchErrorView {
        self@
    }
}

impl Clone for FetchError {
    fn clone(&self) -> (copy: Self)
        ensures
            copy@ == self@,
    {
        FetchError { message: self.message.clone() }
    }
}

/// A failure of a call to the local game client.
#[derive(Debug, PartialEq, Eq)]
pub struct ApiError {
    pub message: String,
}

/// The mathematical value of an [`ApiError`].
pub struct ApiErrorView {
    pub message: Seq<char>,
}

impl View for ApiError {
    type V = ApiErrorView;

    open spec fn view(&self) -> ApiErrorView {
        ApiErrorView { message: self.message@ }
    }
}

impl DeepView for ApiError {
    type V = ApiErrorView;

    open spec fn deep_view(&self) -> ApiErrorView {
        self@
    }
}

impl Clone for ApiError {
    fn clone(&self) -> (copy: Self)
        ensures
            copy@ == self@,
    {
        ApiError { message: self.message.clone() }
    }
}

/// A rune of the game, as far as the orchestration reads it.
#[derive(Debug, PartialEq, Eq)]
pub struct Perk {
    pub id: u32,
    pub icon_path: String,
}

/// The mathematical value of a [`Perk`].
pub struct PerkView {
    pub id: u32,
    pub icon_path: Seq<char>,
}

impl View for Perk {
    type V = PerkView;

    open spec fn view(&self) -> PerkView {
        PerkView { id: self.id, icon_path: self.icon_path@ }
    }
}

impl DeepView for Perk {
    type V = PerkView;

    open spec fn deep_view(&self) -> PerkView {
        self@
    }
}

impl Clone for Perk {
    fn clone(&self) -> (copy: Self)
        ensures
            copy@ == self@,
    {
        Perk { id: self.id, icon_path: self.icon_path.clone() }
    }
}

/// A rune tree of the game, as far as the orchestration reads it.
#[derive(Debug, PartialEq, Eq)]
pub struct RuneStyle {
    pub id: u32,
    pub icon_path: String,
}

/// The mathematical value of a [`RuneStyle`].
pub struct RuneStyleView {
    pub id: u32,
    pub icon_path: Seq<char>,
}

impl View for RuneStyle {
    type V = RuneStyleView;

    open spec fn view(&self) -> RuneStyleView {
        RuneStyleView { id: self.id, icon_path: self.icon_path@ }
    }
}

impl DeepView for RuneStyle {
    type V = RuneStyleView;

    open spec fn deep_view(&self) -> RuneStyleView {
        self@
    }
}

impl Clone for RuneStyle {
    fn clone(&self) -> (copy: Self)
        ensures
            copy@ == self@,
    {
        RuneStyle { id: self.id, icon_path: self.icon_path.clone() }
    }
}

/// A champion that the player can pick, as far as the orchestration reads
/// it.
#[derive(Debug, PartialEq, Eq)]
pub struct Champion {
    pub id: i64,
    pub alias: String,
}

/// The mathematical value of a [`Champion`].
pub struct ChampionView {
    pub id: i64,
    pub alias: Seq<char>,
}

impl View for Champion {
    type V = ChampionView;

    open spec fn view(&self) -> ChampionView {
        ChampionView { id: self.id, alias: self.alias@ }
    }
}

impl DeepView for Champion {
    type V = ChampionView;

    open spec fn deep_view(&self) -> ChampionView {
        self@
    }
}

impl Clone for Champion {
    fn clone(&self) -> (copy: Self)
        ensures
            copy@ == self@,
    {
        Champion { id: self.id, alias: self.alias.clone() }
    }
}

/// The rune pages that one source recommends for one champion.
#[derive(Debug, PartialEq, Eq)]
pub struct BuildSection {
    pub runes: Vec<Rune>,
}

/// The mathematical value of a [`BuildSection`].
pub struct BuildSectionView {
    pub runes: Seq<RuneView>,
}

impl View for BuildSection {
    type V = BuildSectionView;

    open spec fn view(&self) -> BuildSectionView {
        BuildSectionView { runes: self.runes.deep_view() }
    }
}

impl DeepView for BuildSection {
    type V = BuildSectionView;

    open spec fn deep_view(&self) -> BuildSectionView {
        self@
    }
}

impl Clone for BuildSection {
    fn clone(&self) -> (copy: Self)
        ensures
            copy@ == self@,
    {
        let runes = self.runes.clone();
        BuildSection { runes }
    }
}

/// A copy of a list of sources.
pub fn clone_sources(sources: &Vec<Source>) -> (copy: Vec<Source>)
    ensures
        copy.deep_view() == sources.deep_view(),
{
    let copy = sources.clone();
    copy
}

/// A copy of a list of perks.
pub fn clone_perks(perks: &Vec<Perk>) -> (copy: Vec<Perk>)
    ensures
        copy.deep_view() == perks.deep_view(),
{
    let copy = perks.clone();
    copy
}

/// A copy of a list of rune trees.
pub fn clone_styles(styles: &Vec<RuneStyle>) -> (copy: Vec<RuneStyle>)
    ensures
        copy.deep_view() == styles.deep_view(),
{
    let copy = styles.clone();
    copy
}

/// A copy of a list of champions.
pub fn clone_champions(champions: &Vec<Champion>) -> (copy: Vec<Champion>)
    ensures
        copy.deep_view() == champions.deep_view(),
{
    let copy = champions.clone();
    copy
}

/// A copy of a list of build sections.
pub fn clone_sections(sections: &Vec<BuildSection>) -> (copy: Vec<BuildSection>)
    ensures
        copy.deep_view() == sections.deep_view(),
{
    let copy = sections.clone();
    copy
}

/// A copy of a run of bytes.
pub fn clone_bytes(bytes: &Vec<u8>) -> (copy: Vec<u8>)
    ensures
        copy@ == bytes@,
{
    let copy = bytes.clone();
    copy
}

/// The alias of the first champion in `champions` that has the given id.
pub open spec fn champion_alias(champions: Seq<ChampionView>, id: i64) -> Option<Seq<char>> {
    match first_where(champions, |c: ChampionView| c.id == id) {
        Some(at) => Some(champions[at].alias),
        None => None,
    }
}

/// The icon path of the first perk in `perks` that has the given id.
pub open spec fn perk_icon(perks: Seq<PerkView>, id: u32) -> Option<Seq<char>> {
    match first_where(perks, |p: PerkView| p.id == id) {
        Some(at) => Some(perks[at].icon_path),
        None => None,
    }
}

/// The icon path of the first rune tree in `styles` that has the given id.
pub open spec fn style_icon(styles: Seq<RuneStyleView>, id: u32) -> Option<Seq<char>> {
    match first_where(styles, |s: RuneStyleView| s.id == id) {
        Some(at) => Some(styles[at].icon_path),
        None => None,
    }
}

/// Looks up the alias of the champion with the given id.
pub fn find_champion_alias(champions: &Vec<Champion>, id: i64) -> (alias: Option<String>)
    ensures
        alias.deep_view() == champion_alias(champions.deep_view(), id),
{
    let ghost wanted = |c: ChampionView| c.id == id;
    let mut i: usize = 0;
    while i < champions.len()
        invariant
            i <= champions@.len(),
            wanted == (|c: ChampionView| c.id == id),
            forall|j: int| 0 <= j < i ==> !wanted(#[trigger] champions.deep_view()[j]),
        decreases champions@.len() - i,
    {
        if champions[i].id == id {
            proof {
                lemma_first_where_is(champions.deep_view(), wanted, i as int);
            }
            return Some(champions[i].alias.clone());
        }
        i += 1;
    }
    proof {
        lemma_first_where_none(champions.deep_view(), wanted);
    }
    None
}

/// Looks up the icon path of the perk with the given id.
pub fn find_perk_icon(perks: &Vec<Perk>, id: u32) -> (icon: Option<String>)
    ensures
        icon.deep_view() == perk_icon(perks.deep_view(), id),
{
    let ghost wanted = |p: PerkView| p.id == id;
    let mut i: usize = 0;
    while i < perks.len()
        invariant
            i <= perks@.len(),
            wanted == (|p: PerkView| p.id == id),
            forall|j: int| 0 <= j < i ==> !wanted(#[trigger] perks.deep_view()[j]),
        decreases perks@.len() - i,
    {
        if perks[i].id == id {
            proof {
                lemma_first_where_is(perks.deep_view(), wanted, i as int);
            }
            return Some(perks[i].icon_path.clone());
        }
        i += 1;
    }
    proof {
        lemma_first_where_none(perks.deep_view(), wanted);
    }
    None
}

/// Looks up the icon path of the rune tree with the given id.
pub fn find_style_icon(styles: &Vec<RuneStyle>, id: u32) -> (icon: Option<String>)
    ensures
        icon.deep_view() == style_icon(styles.deep_view(), id),
{
    let ghost wanted = |s: RuneStyleView| s.id == id;
    let mut i: usize = 0;
    while i < styles.len()
        invariant
            i <= styles@.len(),
            wanted == (|s: RuneStyleView| s.id == id),
            forall|j: int| 0 <= j < i ==> !wanted(#[trigger] styles.deep_view()[j]),
        decreases styles@.len() - i,
    {
        if styles[i].id == id {
            proof {
                lemma_first_where_is(styles.deep_view(), wanted, i as int);
            }
            return Some(styles[i].icon_path.clone());
        }
        i += 1;
    }
    proof {
        lemma_first_where_none(styles.deep_view(), wanted);
    }
    None
}

} // verus!
