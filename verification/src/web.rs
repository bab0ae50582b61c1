//! Data served by the build and game-data CDNs, the addresses it is served
//! from, and lookups in it.

use crate::decimal::{decimal, decimal_string};
use crate::seqs::{first_where, lemma_first_where, lemma_first_where_is, lemma_first_where_none};
use crate::strmap::StrMap;
use vstd::prelude::*;
use vstd::string::*;

verus! {

/// Base address of the package CDN that serves the build files.
pub const CDN_UNPKG: &'static str = "https://unpkg.com";

/// Base address of the game-data CDN.
pub const CDN_DDRAGON: &'static str = "https://ddragon.leagueoflegends.com";

/// A provider of builds.
#[derive(Debug, PartialEq, Eq)]
pub struct Source {
    pub label: String,
    pub value: String,
    pub is_aram: Option<bool>,
    pub is_urf: Option<bool>,
}

/// The mathematical value of a [`Source`].
pub struct SourceView {
    pub label: Seq<char>,
    pub value: Seq<char>,
    pub is_aram: Option<bool>,
    pub is_urf: Option<bool>,
}

impl View for Source {
    type V = SourceView;

    open spec fn view(&self) -> SourceView {
        SourceView {
            label: self.label@,
            value: self.value@,
            is_aram: self.is_aram,
            is_urf: self.is_urf,
        }
    }
}

impl DeepView for Source {
    type V = SourceView;

    open spec fn deep_view(&self) -> SourceView {
        self@
    }
}

impl Clone for Source {
    fn clone(&self) -> (copy: Self)
        ensures
            copy@ == self@,
    {
        Source {
            label: self.label.clone(),
            value: self.value.clone(),
            is_aram: self.is_aram,
            is_urf: self.is_urf,
        }
    }
}

/// The champion list as the game-data CDN serves it.
#[derive(Debug, Clone, Default)]
pub struct ChampListResp {
    pub type_field: String,
    pub format: String,
    pub version: String,
    pub data: StrMap<ChampInfo>,
}

/// One champion of the champion list.
#[derive(Debug, Clone, PartialEq, Default)]
pub struct ChampInfo {
    pub version: String,
    pub id: String,
    pub key: String,
    pub name: String,
    pub title: String,
    pub image: Image,
    pub tags: Vec<String>,
}

/// Where a champion's picture lies in its sprite sheet.
#[derive(Debug, Clone, PartialEq, Default)]
pub struct Image {
    pub full: String,
    pub sprite: String,
    pub group: String,
    pub x: u32,
    pub y: u32,
    pub w: u32,
    pub h: u32,
}

/// One rune tree of the rune list.
#[derive(Debug, Clone, PartialEq, Default)]
pub struct RuneListItem {
    pub id: i64,
    pub key: String,
    pub icon: String,
    pub name: String,
    pub slots: Vec<Slot>,
}

/// One row of a rune tree.
#[derive(Debug, Clone, PartialEq, Default)]
pub struct Slot {
    pub runes: Vec<SlotRuneItem>,
}

/// One rune of a rune tree.
#[derive(Debug, Clone, PartialEq, Default)]
pub struct SlotRuneItem {
    pub id: i64,
    pub key: String,
    pub icon: String,
    pub name: String,
    pub short_desc: String,
    pub long_desc: String,
}

/// One block of an item build.
#[derive(Debug, Clone, PartialEq, Default)]
pub struct Block {
    pub type_field: String,
    pub items: Option<Vec<Item>>,
}

/// One item of a block.
#[derive(Debug, Clone, PartialEq, Default)]
pub struct Item {
    pub id: String,
    pub count: u64,
}

/// A recommended rune page.
///
/// `score_bits` holds the bit pattern of the page's score, a 64-bit float.
#[derive(Debug, PartialEq, Eq)]
pub struct Rune {
    pub alias: String,
    pub name: String,
    pub position: String,
    pub pick_count: u64,
    pub win_rate: String,
    pub primary_style_id: u32,
    pub sub_style_id: u32,
    pub selected_perk_ids: Vec<u32>,
    pub score_bits: u64,
}

/// The mathematical value of a [`Rune`].
pub struct RuneView {
    pub alias: Seq<char>,
    pub name: Seq<char>,
    pub position: Seq<char>,
    pub pick_count: u64,
    pub win_rate: Seq<char>,
    pub primary_style_id: u32,
    pub sub_style_id: u32,
    pub selected_perk_ids: Seq<u32>,
    pub score_bits: u64,
}

impl View for Rune {
    type V = RuneView;

    open spec fn view(&self) -> RuneView {
        RuneView {
            alias: self.alias@,
            name: self.name@,
            position: self.position@,
            pick_count: self.pick_count,
            win_rate: self.win_rate@,
            primary_style_id: self.primary_style_id,
            sub_style_id: self.sub_style_id,
            selected_perk_ids: self.selected_perk_ids@,
            score_bits: self.score_bits,
        }
    }
}

impl DeepView for Rune {
    type V = RuneView;

    open spec fn deep_view(&self) -> RuneView {
        self@
    }
}

impl Clone for Rune {
    fn clone(&self) -> (copy: Self)
        ensures
            copy@ == self@,
    {
        let selected_perk_ids = self.selected_perk_ids.clone();
        Rune {
            alias: self.alias.clone(),
            name: self.name.clone(),
            position: self.position.clone(),
            pick_count: self.pick_count,
            win_rate: self.win_rate.clone(),
            primary_style_id: self.primary_style_id,
            sub_style_id: self.sub_style_id,
            selected_perk_ids,
            score_bits: self.score_bits,
        }
    }
}

/// Whether two lists of perk ids hold the same ids in the same order.
fn same_ids(left: &Vec<u32>, right: &Vec<u32>) -> (same: bool)
    ensures
        same == (left@ == right@),
{
    if left.len() != right.len() {
        return false;
    }
    let mut i: usize = 0;
    while i < left.len()
        invariant
            left@.len() == right@.len(),
            i <= left@.len(),
            forall|j: int| 0 <= j < i ==> left@[j] == right@[j],
        decreases left@.len() - i,
    {
        if left[i] != right[i] {
            return false;
        }
        i += 1;
    }
    assert(left@ =~= right@);
    true
}

impl Rune {
    /// Whether `other` is the same rune page, field by field.
    pub fn same_as(&self, other: &Rune) -> (same: bool)
        ensures
            same == (self@ == other@),
    {
        self.alias == other.alias && self.name == other.name && self.position == other.position
            && self.pick_count == other.pick_count && self.win_rate == other.win_rate
            && self.primary_style_id == other.primary_style_id && self.sub_style_id
            == other.sub_style_id && same_ids(&self.selected_perk_ids, &other.selected_perk_ids)
            && self.score_bits == other.score_bits
    }
}

/// Address of the list of game versions, newest first.
pub fn versions_url() -> (url: String)
    ensures
        url@ == CDN_DDRAGON@ + "/api/versions.json"@,
{
    String::from_str(CDN_DDRAGON).concat("/api/versions.json")
}

/// The newest of a list of game versions that has the newest first, if the
/// list has any.
pub fn latest_version(versions: &Vec<String>) -> (version: Option<String>)
    ensures
        version.deep_view() == (if versions@.len() > 0 {
            Some(versions@[0]@)
        } else {
            None
        }),
{
    if versions.len() > 0 {
        Some(versions[0].clone())
    } else {
        None
    }
}

/// Address of the champion list of one game version.
pub fn champ_list_url(version: &String) -> (url: String)
    ensures
        url@ == CDN_DDRAGON@ + "/cdn/"@ + version@ + "/data/en_US/champion.json"@,
{
    String::from_str(CDN_DDRAGON).concat("/cdn/").concat(version.as_str()).concat(
        "/data/en_US/champion.json",
    )
}

/// Address of the rune list of one game version.
pub fn rune_list_url(version: &String) -> (url: String)
    ensures
        url@ == CDN_DDRAGON@ + "/cdn/"@ + version@ + "/data/en_US/runesReforged.json"@,
{
    String::from_str(CDN_DDRAGON).concat("/cdn/").concat(version.as_str()).concat(
        "/data/en_US/runesReforged.json",
    )
}

/// Address of the builds that `source` publishes for one champion in the
/// given version of its package.
pub fn champ_file_url(source: &String, version: &String, champ_name: &String) -> (url: String)
    ensures
        url@ == CDN_UNPKG@ + "/"@ + source@ + "@"@ + version@ + "/"@ + champ_name@ + ".json"@,
{
    String::from_str(CDN_UNPKG).concat("/").concat(source.as_str()).concat("@").concat(
        version.as_str(),
    ).concat("/").concat(champ_name.as_str()).concat(".json")
}

/// Address of the description of the newest package of `source`.
pub fn source_version_url(source: &String) -> (url: String)
    ensures
        url@ == "https://mirrors.cloud.tencent.com/npm/@champ-r/"@ + source@ + "/latest"@,
{
    String::from_str("https://mirrors.cloud.tencent.com/npm/@champ-r/").concat(
        source.as_str(),
    ).concat("/latest")
}

/// Whether the map lists, under `alias`, the champion with the given id: the
/// entry's key is the id's decimal text.
pub open spec fn lists_champion(
    champions: Map<Seq<char>, ChampInfo>,
    champion_id: i64,
) -> spec_fn(Seq<char>) -> bool {
    |alias: Seq<char>| champions[alias].key@ == decimal(champion_id as int)
}

/// The alias under which `champions` lists the champion with the given id:
/// the first alias in `aliases` whose entry has the id's decimal text as its
/// key, and the empty string if no entry has.
pub open spec fn alias_of_champion(
    aliases: Seq<Seq<char>>,
    champions: Map<Seq<char>, ChampInfo>,
    champion_id: i64,
) -> Seq<char> {
    match first_where(aliases, lists_champion(champions, champion_id)) {
        Some(at) => aliases[at],
        None => Seq::empty(),
    }
}

/// Looks a champion up by its numeric id and returns the alias under which
/// the map lists it, or the empty string if the map does not list it.
pub fn get_alias_from_champion_map(champion_map: &StrMap<ChampInfo>, champion_id: i64) -> (alias:
    String)
    ensures
        alias@ == alias_of_champion(champion_map.key_order(), champion_map@, champion_id),
{
    let wanted = decimal_string(champion_id);
    let ghost aliases = champion_map.key_order();
    let ghost listed = lists_champion(champion_map@, champion_id);
    let mut i: usize = 0;
    while i < champion_map.len()
        invariant
            aliases == champion_map.key_order(),
            listed == lists_champion(champion_map@, champion_id),
            wanted@ == decimal(champion_id as int),
            i <= aliases.len(),
            forall|j: int| 0 <= j < i ==> !listed(#[trigger] aliases[j]),
        decreases aliases.len() - i,
    {
        if champion_map.value_at(i).unwrap().key == wanted {
            proof {
                lemma_first_where_is(aliases, listed, i as int);
            }
            return champion_map.key_at(i).unwrap().clone();
        }
        i += 1;
    }
    proof {
        lemma_first_where_none(aliases, listed);
    }
    String::new()
}

/// Whatever the order of the map's keys: if the map lists the champion with
/// the given id under some alias, the alias found is one under which it
/// lists that champion; and if it lists the champion under no alias, the
/// alias found is the empty string.
pub proof fn law_alias_is_listed(champion_map: &StrMap<ChampInfo>, champion_id: i64)
    ensures
        ({
            let found = alias_of_champion(
                champion_map.key_order(),
                champion_map@,
                champion_id,
            );
            let listed = lists_champion(champion_map@, champion_id);
            if exists|alias: Seq<char>| champion_map@.contains_key(alias) && listed(alias) {
                champion_map@.contains_key(found) && listed(found)
            } else {
                found == Seq::<char>::empty()
            }
        }),
{
    let aliases = champion_map.key_order();
    let listed = lists_champion(champion_map@, champion_id);
    champion_map.lemma_keys();
    lemma_first_where(aliases, listed);
    if exists|alias: Seq<char>| champion_map@.contains_key(alias) && listed(alias) {
        let alias = choose|alias: Seq<char>| champion_map@.contains_key(alias) && listed(alias);
        assert(aliases.contains(alias));
        let at = choose|at: int| 0 <= at < aliases.len() && aliases[at] == alias;
        assert(listed(aliases[at]));
        let first = first_where(aliases, listed)->0;
        assert(aliases.contains(aliases[first]));
    } else {
        if first_where(aliases, listed) is Some {
            let first = first_where(aliases, listed)->0;
            assert(aliases.contains(aliases[first]));
        }
    }
}

} // verus!
