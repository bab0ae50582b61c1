use champr::frame::{
    ApplyPanel, BuildsPanel, BulkOutcome, BulkPanel, CatalogPanel, CatalogReport, Commands,
    Completion, Effect, Frame, IconSlot, Payload, RuneRow, SourcesPanel,
};
use champr::model::{
    ApiError, AuthContext, BuildSection, CatalogOutcome, Champion, ConnectionError, FetchError,
    Perk, RuneStyle,
};
use champr::rune_viewport::{avatar_url, endpoint_url, icon_url, render_runes_ui, RuneUIState};
use champr::web::{Rune, Source};

const BASE: &str = "127.0.0.1:51234";
const ENDPOINT: &str = "https://127.0.0.1:51234";

fn auth() -> AuthContext {
    AuthContext {
        base_url: BASE.to_string(),
        is_alternate_region: true,
        install_dir: "C:/Games/Client".to_string(),
    }
}

fn no_auth() -> AuthContext {
    AuthContext {
        base_url: String::new(),
        is_alternate_region: false,
        install_dir: String::new(),
    }
}

fn source(label: &str, value: &str) -> Source {
    Source { label: label.to_string(), value: value.to_string(), is_aram: None, is_urf: Some(false) }
}

fn sources() -> Vec<Source> {
    vec![source("OP.GG", "op.gg"), source("U.GG", "u.gg"), source("OP.GG ARAM", "op.gg-aram")]
}

fn perks() -> Vec<Perk> {
    vec![
        Perk { id: 8010, icon_path: "/perks/8010.png".to_string() },
        Perk { id: 8112, icon_path: "/perks/8112.png".to_string() },
    ]
}

fn styles() -> Vec<RuneStyle> {
    vec![
        RuneStyle { id: 8400, icon_path: "/styles/8400.png".to_string() },
        RuneStyle { id: 8300, icon_path: "/styles/8300.png".to_string() },
    ]
}

fn champions() -> Vec<Champion> {
    vec![
        Champion { id: 266, alias: "Aatrox".to_string() },
        Champion { id: 103, alias: "Ahri".to_string() },
    ]
}

fn catalog() -> CatalogOutcome {
    CatalogOutcome { perks: Ok(perks()), champions: Ok(champions()), styles: Ok(styles()) }
}

fn rune(name: &str, first_perk: u32, sub_style: u32) -> Rune {
    Rune {
        alias: "Aatrox".to_string(),
        name: name.to_string(),
        position: "top".to_string(),
        pick_count: 10,
        win_rate: "50%".to_string(),
        primary_style_id: 8000,
        sub_style_id: sub_style,
        selected_perk_ids: vec![first_perk, 9111],
        score_bits: 1.5f64.to_bits(),
    }
}

fn builds() -> Vec<BuildSection> {
    vec![
        BuildSection { runes: vec![rune("R1", 8010, 8400), rune("R2", 8112, 8400)] },
        BuildSection { runes: vec![rune("R3", 8010, 8300)] },
    ]
}

fn fetch_error(text: &str) -> FetchError {
    FetchError { message: text.to_string() }
}

fn api_error(text: &str) -> ApiError {
    ApiError { message: text.to_string() }
}

fn idle() -> Commands {
    Commands::none()
}

fn run(state: &mut RuneUIState, champion: Option<i64>) -> Frame {
    render_runes_ui(state, &auth(), champion, &idle())
}

fn builds_done(source: &str, alias: &str, result: Result<Vec<BuildSection>, FetchError>) -> Completion {
    Completion::Builds { source: source.to_string(), alias: alias.to_string(), result }
}

fn icon_done(path: &str, result: Result<Vec<u8>, FetchError>) -> Completion {
    Completion::Icon { path: path.to_string(), result }
}

fn fetch_icon(path: &str) -> Effect {
    Effect::FetchIcon { path: path.to_string(), url: format!("{}{}", ENDPOINT, path) }
}

fn image(path: &str, bytes: Vec<u8>) -> IconSlot {
    IconSlot::Image { path: path.to_string(), bytes }
}

/// A state with the catalog and the source list fetched and "op.gg"
/// selected, after a cycle with no champion.
fn loaded() -> RuneUIState {
    let mut state = RuneUIState::new();
    run(&mut state, None);
    state.complete(Completion::Catalog(catalog()));
    state.complete(Completion::Sources(Ok(sources())));
    run(&mut state, None);
    state
}

/// A state that shows the build list of "op.gg" for Aatrox, with all four
/// icons in flight.
fn listed() -> RuneUIState {
    let mut state = loaded();
    run(&mut state, Some(266));
    state.complete(builds_done("op.gg", "Aatrox", Ok(builds())));
    run(&mut state, Some(266));
    state
}

fn click(rune: Rune) -> Commands {
    Commands { select_source: None, apply_rune: Some(rune), bulk_apply: None }
}

fn pick(value: &str) -> Commands {
    Commands { select_source: Some(value.to_string()), apply_rune: None, bulk_apply: None }
}

fn bulk(value: &str) -> Commands {
    Commands { select_source: None, apply_rune: None, bulk_apply: Some(value.to_string()) }
}

fn blank() -> Frame {
    Frame {
        catalog: CatalogPanel::Hidden,
        sources: SourcesPanel::Hidden,
        builds: BuildsPanel::Hidden,
        apply: ApplyPanel::Hidden,
        bulk: BulkPanel::Hidden,
        bulk_outcome: BulkOutcome::Unfinished,
        effects: vec![],
    }
}

#[test]
fn addresses_are_exact() {
    assert_eq!(endpoint_url(&BASE.to_string()), ENDPOINT);
    assert_eq!(
        icon_url(&BASE.to_string(), &"/perks/8010.png".to_string()),
        "https://127.0.0.1:51234/perks/8010.png"
    );
    assert_eq!(
        avatar_url(&"Aatrox".to_string()),
        "https://game.gtimg.cn/images/lol/act/img/champion/Aatrox.png"
    );
}

#[test]
fn without_a_connection_nothing_happens() {
    let mut state = RuneUIState::new();
    let commands = Commands {
        select_source: Some("op.gg".to_string()),
        apply_rune: Some(rune("R1", 8010, 8400)),
        bulk_apply: Some("op.gg".to_string()),
    };
    for champion in [None, Some(0), Some(266)] {
        let frame = render_runes_ui(&mut state, &no_auth(), champion, &commands);
        assert_eq!(frame, blank());
        assert!(frame.effects.is_empty());
    }
    assert_eq!(state.fetch_catalog_task.poll(), None);
    assert_eq!(state.prev_champion_id.previous(), None);
    assert_eq!(state.selected_source, "");
    // Nothing was started while disconnected: the first connected cycle starts both fetches.
    let frame = run(&mut state, None);
    assert_eq!(frame.effects.len(), 2);
}

#[test]
fn a_lost_connection_freezes_a_running_session() {
    let mut state = listed();
    let frame = render_runes_ui(&mut state, &no_auth(), Some(103), &bulk("op.gg"));
    assert_eq!(frame, blank());
    assert_eq!(state.prev_champion_id.previous(), Some(266));
    assert!(state.list_builds_task.is_some());
    assert_eq!(state.builds, builds());
}

#[test]
fn the_first_connected_cycle_starts_catalog_and_sources() {
    let mut state = RuneUIState::new();
    let frame = run(&mut state, None);
    assert_eq!(frame.catalog, CatalogPanel::Started);
    assert_eq!(frame.sources, SourcesPanel::Started);
    assert_eq!(frame.builds, BuildsPanel::Hidden);
    assert_eq!(frame.apply, ApplyPanel::Hidden);
    assert_eq!(frame.bulk, BulkPanel::Hidden);
    assert_eq!(
        frame.effects,
        vec![Effect::FetchCatalog { endpoint: ENDPOINT.to_string() }, Effect::FetchSources]
    );
}

#[test]
fn running_fetches_show_spinners_and_start_nothing() {
    let mut state = RuneUIState::new();
    run(&mut state, None);
    for _ in 0..3 {
        let frame = run(&mut state, None);
        assert_eq!(frame.catalog, CatalogPanel::Loading);
        assert_eq!(frame.sources, SourcesPanel::Loading);
        assert!(frame.effects.is_empty());
    }
}

#[test]
fn a_resolved_catalog_fills_the_state() {
    let mut state = RuneUIState::new();
    run(&mut state, None);
    state.complete(Completion::Catalog(catalog()));
    let frame = run(&mut state, None);
    assert_eq!(
        frame.catalog,
        CatalogPanel::Resolved(CatalogReport {
            perks_error: None,
            champions_error: None,
            styles_error: None,
            avatar_url: None,
        })
    );
    assert_eq!(state.all_perks, perks());
    assert_eq!(state.all_champions, champions());
    assert_eq!(state.all_styles, styles());
}

#[test]
fn the_avatar_of_the_picked_champion_is_shown() {
    let mut state = loaded();
    let frame = run(&mut state, Some(103));
    match frame.catalog {
        CatalogPanel::Resolved(report) => assert_eq!(
            report.avatar_url,
            Some("https://game.gtimg.cn/images/lol/act/img/champion/Ahri.png".to_string())
        ),
        other => panic!("unexpected panel {:?}", other),
    }
    let frame = run(&mut state, Some(999));
    match frame.catalog {
        CatalogPanel::Resolved(report) => assert_eq!(report.avatar_url, None),
        other => panic!("unexpected panel {:?}", other),
    }
}

#[test]
fn a_partly_failed_catalog_keeps_what_succeeded_and_is_not_retried() {
    let mut state = RuneUIState::new();
    run(&mut state, Some(266));
    state.complete(Completion::Catalog(CatalogOutcome {
        perks: Ok(perks()),
        champions: Err(api_error("no summoner")),
        styles: Ok(styles()),
    }));
    for _ in 0..4 {
        let frame = run(&mut state, Some(266));
        assert_eq!(
            frame.catalog,
            CatalogPanel::Resolved(CatalogReport {
                perks_error: None,
                champions_error: Some(api_error("no summoner")),
                styles_error: None,
                avatar_url: None,
            })
        );
        assert!(!frame.effects.iter().any(|e| matches!(e, Effect::FetchCatalog { .. })));
    }
    assert_eq!(state.all_perks, perks());
    assert_eq!(state.all_styles, styles());
    assert!(state.all_champions.is_empty());
}

#[test]
fn a_failed_part_leaves_the_earlier_list_in_place() {
    let mut state = loaded();
    state.reset_catalog();
    let frame = run(&mut state, None);
    assert_eq!(frame.catalog, CatalogPanel::Started);
    assert_eq!(frame.effects, vec![Effect::FetchCatalog { endpoint: ENDPOINT.to_string() }]);
    state.complete(Completion::Catalog(CatalogOutcome {
        perks: Err(api_error("p")),
        champions: Ok(vec![Champion { id: 1, alias: "Annie".to_string() }]),
        styles: Err(api_error("s")),
    }));
    let frame = run(&mut state, None);
    assert_eq!(
        frame.catalog,
        CatalogPanel::Resolved(CatalogReport {
            perks_error: Some(api_error("p")),
            champions_error: None,
            styles_error: Some(api_error("s")),
            avatar_url: None,
        })
    );
    assert_eq!(state.all_perks, perks());
    assert_eq!(state.all_styles, styles());
    assert_eq!(state.all_champions.len(), 1);
}

#[test]
fn a_second_catalog_result_is_ignored() {
    let mut state = loaded();
    state.complete(Completion::Catalog(CatalogOutcome {
        perks: Ok(vec![]),
        champions: Ok(vec![]),
        styles: Ok(vec![]),
    }));
    run(&mut state, None);
    assert_eq!(state.all_perks, perks());
    assert_eq!(state.all_champions, champions());
}

#[test]
fn the_first_source_becomes_the_default() {
    let mut state = RuneUIState::new();
    run(&mut state, None);
    state.complete(Completion::Sources(Ok(sources())));
    let frame = run(&mut state, None);
    assert_eq!(
        frame.sources,
        SourcesPanel::Selector { sources: sources(), selected: "op.gg".to_string() }
    );
    assert_eq!(state.sources, sources());
    assert_eq!(state.selected_source, "op.gg");
}

#[test]
fn an_empty_source_list_selects_nothing() {
    let mut state = RuneUIState::new();
    run(&mut state, Some(266));
    state.complete(Completion::Catalog(catalog()));
    state.complete(Completion::Sources(Ok(vec![])));
    let frame = run(&mut state, Some(266));
    assert_eq!(frame.sources, SourcesPanel::Selector { sources: vec![], selected: String::new() });
    assert_eq!(state.selected_source, "");
    assert_eq!(frame.builds, BuildsPanel::Hidden);
    assert!(frame.effects.is_empty());
}

#[test]
fn a_failed_source_list_is_reported_and_not_retried() {
    let mut state = RuneUIState::new();
    run(&mut state, None);
    state.complete(Completion::Sources(Err(fetch_error("offline"))));
    for _ in 0..3 {
        let frame = run(&mut state, None);
        assert_eq!(frame.sources, SourcesPanel::Failed(fetch_error("offline")));
        assert!(!frame.effects.contains(&Effect::FetchSources));
    }
    state.reset_sources();
    let frame = run(&mut state, None);
    assert_eq!(frame.sources, SourcesPanel::Started);
    assert_eq!(frame.effects, vec![Effect::FetchSources]);
}

#[test]
fn no_champion_means_no_build_list() {
    for champion in [None, Some(0), Some(-1)] {
        let mut state = loaded();
        assert_eq!(state.selected_source, "op.gg");
        for commands in [idle(), pick("u.gg"), bulk("u.gg"), click(rune("R1", 8010, 8400))] {
            let frame = render_runes_ui(&mut state, &auth(), champion, &commands);
            assert_eq!(frame.builds, BuildsPanel::Hidden);
            assert_eq!(frame.apply, ApplyPanel::Hidden);
            assert_eq!(frame.bulk, BulkPanel::Hidden);
            assert!(frame.effects.is_empty());
            assert!(state.list_builds_task.is_none());
            assert!(state.apply_builds_task.is_none());
        }
    }
}

#[test]
fn no_source_means_no_build_list() {
    let mut state = RuneUIState::new();
    run(&mut state, Some(266));
    state.complete(Completion::Catalog(catalog()));
    let frame = run(&mut state, Some(266));
    assert_eq!(frame.sources, SourcesPanel::Loading);
    assert_eq!(frame.builds, BuildsPanel::Hidden);
    assert!(frame.effects.is_empty());
}

#[test]
fn a_champion_that_the_catalog_lacks_waits() {
    let mut state = RuneUIState::new();
    run(&mut state, Some(266));
    state.complete(Completion::Sources(Ok(sources())));
    let frame = run(&mut state, Some(266));
    assert_eq!(frame.catalog, CatalogPanel::Loading);
    assert_eq!(frame.builds, BuildsPanel::Waiting);
    assert_eq!(frame.bulk, BulkPanel::Button);
    assert!(frame.effects.is_empty());
    assert!(state.list_builds_task.is_none());
    // Once the catalog arrives, the same cycle that takes it over starts the build list.
    state.complete(Completion::Catalog(catalog()));
    let frame = run(&mut state, Some(266));
    assert_eq!(frame.builds, BuildsPanel::Started);
    assert_eq!(
        frame.effects,
        vec![Effect::FetchBuilds { source: "op.gg".to_string(), alias: "Aatrox".to_string() }]
    );
}

#[test]
fn the_build_list_is_fetched_once_per_key() {
    let mut state = loaded();
    let frame = run(&mut state, Some(266));
    assert_eq!(frame.builds, BuildsPanel::Started);
    assert_eq!(frame.apply, ApplyPanel::Idle);
    assert_eq!(frame.bulk, BulkPanel::Button);
    assert_eq!(
        frame.effects,
        vec![Effect::FetchBuilds { source: "op.gg".to_string(), alias: "Aatrox".to_string() }]
    );
    for _ in 0..3 {
        let frame = run(&mut state, Some(266));
        assert_eq!(frame.builds, BuildsPanel::Loading);
        assert!(frame.effects.is_empty());
    }
}

#[test]
fn a_resolved_build_list_shows_rows_and_fetches_each_icon_once() {
    let mut state = loaded();
    run(&mut state, Some(266));
    state.complete(builds_done("op.gg", "Aatrox", Ok(builds())));
    let frame = run(&mut state, Some(266));
    assert_eq!(
        frame.builds,
        BuildsPanel::Listed(vec![
            RuneRow {
                rune: rune("R1", 8010, 8400),
                primary: IconSlot::Started,
                secondary: IconSlot::Started,
            },
            RuneRow {
                rune: rune("R2", 8112, 8400),
                primary: IconSlot::Started,
                secondary: IconSlot::Spinner,
            },
            RuneRow {
                rune: rune("R3", 8010, 8300),
                primary: IconSlot::Spinner,
                secondary: IconSlot::Started,
            },
        ])
    );
    assert_eq!(
        frame.effects,
        vec![
            fetch_icon("/perks/8010.png"),
            fetch_icon("/styles/8400.png"),
            fetch_icon("/perks/8112.png"),
            fetch_icon("/styles/8300.png"),
        ]
    );
    assert_eq!(state.builds, builds());
    let frame = run(&mut state, Some(266));
    assert!(frame.effects.is_empty());
    match frame.builds {
        BuildsPanel::Listed(rows) => {
            assert_eq!(rows.len(), 3);
            for row in rows {
                assert_eq!(row.primary, IconSlot::Spinner);
                assert_eq!(row.secondary, IconSlot::Spinner);
            }
        },
        other => panic!("unexpected panel {:?}", other),
    }
}

#[test]
fn a_fetched_icon_is_shown_and_never_fetched_again() {
    let mut state = listed();
    state.complete(icon_done("/perks/8010.png", Ok(vec![1, 2, 3])));
    for _ in 0..3 {
        let frame = run(&mut state, Some(266));
        assert!(frame.effects.is_empty());
        match frame.builds {
            BuildsPanel::Listed(rows) => {
                assert_eq!(rows[0].primary, image("/perks/8010.png", vec![1, 2, 3]));
                assert_eq!(rows[0].secondary, IconSlot::Spinner);
                assert_eq!(rows[1].primary, IconSlot::Spinner);
                assert_eq!(rows[2].primary, image("/perks/8010.png", vec![1, 2, 3]));
            },
            other => panic!("unexpected panel {:?}", other),
        }
    }
    assert_eq!(state.rune_images.get(&"/perks/8010.png".to_string()), Some(&vec![1, 2, 3]));
    // Later results for the same icon change nothing.
    state.complete(icon_done("/perks/8010.png", Ok(vec![9])));
    state.complete(icon_done("/perks/8010.png", Err(fetch_error("late"))));
    // Neither does a change of champion or source.
    run(&mut state, Some(103));
    render_runes_ui(&mut state, &auth(), Some(103), &pick("u.gg"));
    state.complete(builds_done("u.gg", "Ahri", Ok(builds())));
    let frame = run(&mut state, Some(103));
    assert!(!frame.effects.contains(&fetch_icon("/perks/8010.png")));
    match frame.builds {
        BuildsPanel::Listed(rows) => {
            assert_eq!(rows[0].primary, image("/perks/8010.png", vec![1, 2, 3]));
        },
        other => panic!("unexpected panel {:?}", other),
    }
    assert_eq!(state.rune_images.get(&"/perks/8010.png".to_string()), Some(&vec![1, 2, 3]));
}

#[test]
fn a_failed_icon_is_reported_once_and_fetched_again() {
    let mut state = listed();
    state.complete(icon_done("/styles/8400.png", Err(fetch_error("404"))));
    let frame = run(&mut state, Some(266));
    match frame.builds {
        BuildsPanel::Listed(rows) => {
            assert_eq!(rows[0].secondary, IconSlot::Failed(fetch_error("404")));
            // The second page with the same icon starts the fetch anew in the same pass.
            assert_eq!(rows[1].secondary, IconSlot::Started);
        },
        other => panic!("unexpected panel {:?}", other),
    }
    assert_eq!(frame.effects, vec![fetch_icon("/styles/8400.png")]);
    let frame = run(&mut state, Some(266));
    assert!(frame.effects.is_empty());
}

#[test]
fn a_rune_page_without_known_perk_or_style_has_no_icons() {
    let mut state = loaded();
    run(&mut state, Some(266));
    let mut bare = rune("Bare", 8010, 1);
    bare.selected_perk_ids = vec![];
    let unknown = rune("Unknown", 7, 8400);
    state.complete(builds_done(
        "op.gg",
        "Aatrox",
        Ok(vec![
            BuildSection { runes: vec![] },
            BuildSection { runes: vec![bare.clone(), unknown.clone()] },
        ]),
    ));
    let frame = run(&mut state, Some(266));
    assert_eq!(
        frame.builds,
        BuildsPanel::Listed(vec![
            RuneRow { rune: bare, primary: IconSlot::Absent, secondary: IconSlot::Absent },
            RuneRow { rune: unknown, primary: IconSlot::Absent, secondary: IconSlot::Started },
        ])
    );
    assert_eq!(frame.effects, vec![fetch_icon("/styles/8400.png")]);
}

#[test]
fn an_empty_build_list_shows_no_rows() {
    let mut state = loaded();
    run(&mut state, Some(266));
    state.complete(builds_done("op.gg", "Aatrox", Ok(vec![])));
    let frame = run(&mut state, Some(266));
    assert_eq!(frame.builds, BuildsPanel::Listed(vec![]));
    assert!(frame.effects.is_empty());
}

#[test]
fn a_failed_build_list_is_fetched_again_in_the_next_cycle() {
    let mut state = loaded();
    run(&mut state, Some(266));
    state.complete(builds_done("op.gg", "Aatrox", Err(fetch_error("503"))));
    let frame = run(&mut state, Some(266));
    assert_eq!(frame.builds, BuildsPanel::Failed(fetch_error("503")));
    assert!(frame.effects.is_empty());
    assert!(state.list_builds_task.is_none());
    let frame = run(&mut state, Some(266));
    assert_eq!(frame.builds, BuildsPanel::Started);
    assert_eq!(
        frame.effects,
        vec![Effect::FetchBuilds { source: "op.gg".to_string(), alias: "Aatrox".to_string() }]
    );
    state.complete(builds_done("op.gg", "Aatrox", Ok(vec![])));
    let frame = run(&mut state, Some(266));
    assert_eq!(frame.builds, BuildsPanel::Listed(vec![]));
}

#[test]
fn a_build_list_for_another_key_is_discarded() {
    let mut state = loaded();
    run(&mut state, Some(266));
    state.complete(builds_done("op.gg", "Ahri", Ok(builds())));
    state.complete(builds_done("u.gg", "Aatrox", Ok(builds())));
    let frame = run(&mut state, Some(266));
    assert_eq!(frame.builds, BuildsPanel::Loading);
    // A result without any handle is discarded too.
    let mut fresh = loaded();
    fresh.complete(builds_done("op.gg", "Aatrox", Ok(builds())));
    assert!(fresh.list_builds_task.is_none());
    let frame = run(&mut fresh, Some(266));
    assert_eq!(frame.builds, BuildsPanel::Started);
}

#[test]
fn a_change_of_champion_clears_what_depended_on_it() {
    let mut state = listed();
    state.complete(icon_done("/perks/8010.png", Ok(vec![1, 2, 3])));
    render_runes_ui(&mut state, &auth(), Some(266), &click(rune("R1", 8010, 8400)));
    render_runes_ui(&mut state, &auth(), Some(266), &bulk("op.gg"));
    assert!(state.rune_to_apply.is_some());
    assert!(state.apply_rune_task.is_some());
    assert!(state.apply_builds_task.is_some());
    assert!(state.list_builds_task.is_some());

    state.reconcile_selection(Some(103));
    assert!(state.list_builds_task.is_none());
    assert!(state.builds.is_empty());
    assert!(state.rune_to_apply.is_none());
    assert!(state.apply_rune_task.is_none());
    assert!(state.apply_builds_task.is_none());
    assert_eq!(state.prev_champion_id.previous(), Some(103));
    // The icon cache, the catalog and the sources are untouched.
    assert_eq!(state.rune_images.get(&"/perks/8010.png".to_string()), Some(&vec![1, 2, 3]));
    assert_eq!(state.all_perks, perks());
    assert_eq!(state.all_champions, champions());
    assert_eq!(state.all_styles, styles());
    assert!(state.fetch_catalog_task.poll().is_some());
    assert_eq!(state.sources, sources());
    assert_eq!(state.selected_source, "op.gg");
}

#[test]
fn a_cycle_with_a_new_champion_fetches_its_build_list() {
    let mut state = listed();
    render_runes_ui(&mut state, &auth(), Some(266), &click(rune("R1", 8010, 8400)));
    let frame = run(&mut state, Some(103));
    assert_eq!(frame.builds, BuildsPanel::Started);
    assert_eq!(frame.apply, ApplyPanel::Idle);
    assert_eq!(
        frame.effects,
        vec![Effect::FetchBuilds { source: "op.gg".to_string(), alias: "Ahri".to_string() }]
    );
    assert!(state.rune_to_apply.is_none());
    assert!(state.apply_rune_task.is_none());
    // The result for the old champion is discarded.
    state.complete(builds_done("op.gg", "Aatrox", Ok(builds())));
    let frame = run(&mut state, Some(103));
    assert_eq!(frame.builds, BuildsPanel::Loading);
}

#[test]
fn the_same_champion_clears_nothing() {
    let mut state = listed();
    state.reconcile_selection(Some(266));
    assert!(state.list_builds_task.is_some());
    assert_eq!(state.builds, builds());
}

#[test]
fn a_change_of_source_clears_build_list_and_bulk_apply_only() {
    let mut state = listed();
    state.complete(icon_done("/perks/8010.png", Ok(vec![1, 2, 3])));
    render_runes_ui(&mut state, &auth(), Some(266), &click(rune("R1", 8010, 8400)));
    render_runes_ui(&mut state, &auth(), Some(266), &bulk("op.gg"));
    assert!(state.apply_builds_task.is_some());

    let out = state.reconcile_sources(&Some("u.gg".to_string()));
    assert_eq!(
        out.0,
        SourcesPanel::Selector { sources: sources(), selected: "u.gg".to_string() }
    );
    assert!(out.1.is_empty());
    assert_eq!(state.selected_source, "u.gg");
    assert!(state.list_builds_task.is_none());
    assert!(state.builds.is_empty());
    assert!(state.apply_builds_task.is_none());
    // The champion, the icon cache and the rune page that waits are untouched.
    assert_eq!(state.prev_champion_id.previous(), Some(266));
    assert_eq!(state.rune_images.get(&"/perks/8010.png".to_string()), Some(&vec![1, 2, 3]));
    assert_eq!(state.rune_to_apply, Some(rune("R1", 8010, 8400)));
    assert!(state.apply_rune_task.is_some());
    assert_eq!(state.all_champions, champions());
}

#[test]
fn a_cycle_with_a_new_source_fetches_its_build_list() {
    let mut state = listed();
    let frame = render_runes_ui(&mut state, &auth(), Some(266), &pick("u.gg"));
    assert_eq!(
        frame.sources,
        SourcesPanel::Selector { sources: sources(), selected: "u.gg".to_string() }
    );
    assert_eq!(frame.builds, BuildsPanel::Started);
    assert_eq!(
        frame.effects,
        vec![Effect::FetchBuilds { source: "u.gg".to_string(), alias: "Aatrox".to_string() }]
    );
    assert_eq!(state.prev_champion_id.previous(), Some(266));
}

#[test]
fn picking_the_selected_or_an_unknown_source_changes_nothing() {
    for value in ["op.gg", "nowhere", ""] {
        let mut state = listed();
        let frame = render_runes_ui(&mut state, &auth(), Some(266), &pick(value));
        assert_eq!(state.selected_source, "op.gg");
        assert!(matches!(frame.builds, BuildsPanel::Listed(_)));
        assert!(state.list_builds_task.is_some());
        assert_eq!(state.builds, builds());
    }
}

#[test]
fn a_click_applies_a_displayed_rune_page() {
    let mut state = listed();
    let frame = render_runes_ui(&mut state, &auth(), Some(266), &click(rune("R2", 8112, 8400)));
    assert_eq!(frame.apply, ApplyPanel::Started);
    assert_eq!(
        frame.effects,
        vec![Effect::ApplyRune { endpoint: ENDPOINT.to_string(), rune: rune("R2", 8112, 8400) }]
    );
    assert_eq!(state.rune_to_apply, Some(rune("R2", 8112, 8400)));
    for _ in 0..3 {
        let frame = run(&mut state, Some(266));
        assert_eq!(frame.apply, ApplyPanel::Applying);
        assert!(frame.effects.is_empty());
    }
    state.complete(Completion::ApplyRune { rune: rune("R2", 8112, 8400), result: Ok(()) });
    let frame = run(&mut state, Some(266));
    assert_eq!(frame.apply, ApplyPanel::Applied);
    assert!(frame.effects.is_empty());
    assert!(state.rune_to_apply.is_none());
    assert!(state.apply_rune_task.is_none());
    let frame = run(&mut state, Some(266));
    assert_eq!(frame.apply, ApplyPanel::Idle);
}

#[test]
fn a_click_on_a_page_that_is_not_displayed_is_ignored() {
    let mut state = listed();
    let frame = render_runes_ui(&mut state, &auth(), Some(266), &click(rune("R9", 8010, 8400)));
    assert_eq!(frame.apply, ApplyPanel::Idle);
    assert!(frame.effects.is_empty());
    assert!(state.rune_to_apply.is_none());
    // While the build list is still loading nothing is displayed.
    let mut loading = loaded();
    run(&mut loading, Some(266));
    let frame = render_runes_ui(&mut loading, &auth(), Some(266), &click(rune("R1", 8010, 8400)));
    assert_eq!(frame.builds, BuildsPanel::Loading);
    assert_eq!(frame.apply, ApplyPanel::Idle);
    assert!(loading.rune_to_apply.is_none());
}

#[test]
fn a_failed_apply_waits_for_another_click() {
    let mut state = listed();
    render_runes_ui(&mut state, &auth(), Some(266), &click(rune("R1", 8010, 8400)));
    state.complete(Completion::ApplyRune {
        rune: rune("R1", 8010, 8400),
        result: Err(api_error("rejected")),
    });
    for _ in 0..3 {
        let frame = run(&mut state, Some(266));
        assert_eq!(frame.apply, ApplyPanel::Failed(api_error("rejected")));
        assert!(frame.effects.is_empty());
        assert_eq!(state.rune_to_apply, Some(rune("R1", 8010, 8400)));
    }
    let frame = render_runes_ui(&mut state, &auth(), Some(266), &click(rune("R1", 8010, 8400)));
    assert_eq!(frame.apply, ApplyPanel::Started);
    assert_eq!(
        frame.effects,
        vec![Effect::ApplyRune { endpoint: ENDPOINT.to_string(), rune: rune("R1", 8010, 8400) }]
    );
    state.complete(Completion::ApplyRune { rune: rune("R1", 8010, 8400), result: Ok(()) });
    let frame = run(&mut state, Some(266));
    assert_eq!(frame.apply, ApplyPanel::Applied);
}

#[test]
fn a_second_click_on_the_page_being_applied_starts_nothing() {
    let mut state = listed();
    render_runes_ui(&mut state, &auth(), Some(266), &click(rune("R1", 8010, 8400)));
    let frame = render_runes_ui(&mut state, &auth(), Some(266), &click(rune("R1", 8010, 8400)));
    assert_eq!(frame.apply, ApplyPanel::Applying);
    assert!(frame.effects.is_empty());
}

#[test]
fn a_click_on_another_page_supersedes_the_first() {
    let mut state = listed();
    let r1 = rune("R1", 8010, 8400);
    let r2 = rune("R2", 8112, 8400);
    render_runes_ui(&mut state, &auth(), Some(266), &click(r1.clone()));
    let frame = render_runes_ui(&mut state, &auth(), Some(266), &click(r2.clone()));
    assert_eq!(state.rune_to_apply, Some(r2.clone()));
    assert_eq!(frame.apply, ApplyPanel::Started);
    assert_eq!(
        frame.effects,
        vec![Effect::ApplyRune { endpoint: ENDPOINT.to_string(), rune: r2.clone() }]
    );
    // The first write resolves: its result is discarded.
    state.complete(Completion::ApplyRune { rune: r1.clone(), result: Ok(()) });
    assert_eq!(state.rune_to_apply, Some(r2.clone()));
    let frame = run(&mut state, Some(266));
    assert_eq!(frame.apply, ApplyPanel::Applying);
    assert!(frame.effects.is_empty());
    assert_eq!(state.rune_to_apply, Some(r2.clone()));
    state.complete(Completion::ApplyRune { rune: r1, result: Err(api_error("late")) });
    let frame = run(&mut state, Some(266));
    assert_eq!(frame.apply, ApplyPanel::Applying);
    // The second write resolves: the page is applied.
    state.complete(Completion::ApplyRune { rune: r2, result: Ok(()) });
    let frame = run(&mut state, Some(266));
    assert_eq!(frame.apply, ApplyPanel::Applied);
    assert!(state.rune_to_apply.is_none());
}

#[test]
fn an_apply_result_without_a_pending_page_is_discarded() {
    let mut state = listed();
    state.complete(Completion::ApplyRune { rune: rune("R1", 8010, 8400), result: Ok(()) });
    assert!(state.apply_rune_task.is_none());
    let frame = run(&mut state, Some(266));
    assert_eq!(frame.apply, ApplyPanel::Idle);
}

#[test]
fn a_bulk_apply_runs_once_per_trigger() {
    let mut state = listed();
    let frame = render_runes_ui(&mut state, &auth(), Some(266), &bulk("op.gg-aram"));
    assert_eq!(frame.bulk, BulkPanel::Spinner);
    assert_eq!(frame.bulk_outcome, BulkOutcome::Unfinished);
    assert_eq!(
        frame.effects,
        vec![Effect::ApplyBuilds {
            install_dir: "C:/Games/Client".to_string(),
            source: "op.gg-aram".to_string(),
            alias: "Aatrox".to_string(),
            is_alternate_region: true,
        }]
    );
    // While it runs, further triggers start nothing.
    for commands in [idle(), bulk("op.gg-aram"), bulk("u.gg")] {
        let frame = render_runes_ui(&mut state, &auth(), Some(266), &commands);
        assert_eq!(frame.bulk, BulkPanel::Spinner);
        assert!(frame.effects.is_empty());
    }
    state.complete(Completion::ApplyBuilds {
        source: "op.gg-aram".to_string(),
        alias: "Aatrox".to_string(),
        result: Ok(()),
    });
    let frame = run(&mut state, Some(266));
    assert_eq!(frame.bulk, BulkPanel::Button);
    assert_eq!(frame.bulk_outcome, BulkOutcome::Succeeded);
    assert!(state.apply_builds_task.is_none());
    let frame = run(&mut state, Some(266));
    assert_eq!(frame.bulk, BulkPanel::Button);
    assert_eq!(frame.bulk_outcome, BulkOutcome::Unfinished);
}

#[test]
fn a_failed_bulk_apply_is_logged_and_cleared() {
    let mut state = listed();
    render_runes_ui(&mut state, &auth(), Some(266), &bulk("op.gg"));
    state.complete(Completion::ApplyBuilds {
        source: "u.gg".to_string(),
        alias: "Aatrox".to_string(),
        result: Ok(()),
    });
    let frame = run(&mut state, Some(266));
    assert_eq!(frame.bulk, BulkPanel::Spinner);
    state.complete(Completion::ApplyBuilds {
        source: "op.gg".to_string(),
        alias: "Aatrox".to_string(),
        result: Err(fetch_error("disk full")),
    });
    // The trigger that comes with the cycle that finds the failure starts a new run.
    let frame = render_runes_ui(&mut state, &auth(), Some(266), &bulk("op.gg"));
    assert_eq!(frame.bulk_outcome, BulkOutcome::Failed(fetch_error("disk full")));
    assert_eq!(frame.bulk, BulkPanel::Spinner);
    assert_eq!(frame.effects.len(), 1);
}

#[test]
fn a_bulk_apply_needs_the_champion_in_the_catalog() {
    let mut state = loaded();
    let frame = render_runes_ui(&mut state, &auth(), Some(999), &bulk("op.gg"));
    assert_eq!(frame.builds, BuildsPanel::Waiting);
    assert_eq!(frame.bulk, BulkPanel::Button);
    assert!(frame.effects.is_empty());
    assert!(state.apply_builds_task.is_none());
}

#[test]
fn the_steps_run_in_their_fixed_order() {
    let mut state = RuneUIState::new();
    run(&mut state, None);
    state.complete(Completion::Catalog(catalog()));
    state.complete(Completion::Sources(Ok(sources())));
    // One cycle takes over catalog and sources, picks the default source and starts
    // both the build list and the bulk apply, in this order.
    let frame = render_runes_ui(&mut state, &auth(), Some(103), &bulk("u.gg"));
    assert_eq!(
        frame.effects,
        vec![
            Effect::FetchBuilds { source: "op.gg".to_string(), alias: "Ahri".to_string() },
            Effect::ApplyBuilds {
                install_dir: "C:/Games/Client".to_string(),
                source: "u.gg".to_string(),
                alias: "Ahri".to_string(),
                is_alternate_region: true,
            },
        ]
    );
}

#[test]
fn the_default_state_is_the_initial_state() {
    let mut state = RuneUIState::default();
    assert!(state.sources.is_empty());
    assert!(state.all_perks.is_empty());
    assert!(state.all_champions.is_empty());
    assert!(state.all_styles.is_empty());
    assert!(state.builds.is_empty());
    assert_eq!(state.selected_source, "");
    assert!(state.list_builds_task.is_none());
    assert!(state.apply_rune_task.is_none());
    assert!(state.apply_builds_task.is_none());
    assert!(state.rune_to_apply.is_none());
    assert_eq!(state.prev_champion_id.previous(), None);
    assert_eq!(state.fetch_catalog_task.poll(), None);
    assert_eq!(state.fetch_sources_task.poll(), None);
    assert_eq!(state.rune_images.get(&"/perks/8010.png".to_string()), None);
    let frame = run(&mut state, None);
    assert_eq!(frame.effects.len(), 2);
}

#[test]
fn no_command_is_no_command() {
    assert_eq!(
        Commands::none(),
        Commands { select_source: None, apply_rune: None, bulk_apply: None }
    );
}

#[test]
fn a_payload_carries_its_message() {
    let payload = Payload { message: "toggle".to_string() };
    assert_eq!(payload.clone().message, "toggle");
}

#[test]
fn copies_keep_every_field() {
    let s = source("OP.GG", "op.gg");
    assert_eq!(s.clone(), s);
    assert_eq!(perks()[0].clone(), perks()[0]);
    assert_eq!(styles()[1].clone(), styles()[1]);
    assert_eq!(champions()[1].clone(), champions()[1]);
    assert_eq!(builds()[0].clone(), builds()[0]);
    assert_eq!(fetch_error("x").clone(), fetch_error("x"));
    assert_eq!(api_error("y").clone(), api_error("y"));
}

#[test]
fn an_empty_base_address_is_no_connection() {
    assert_eq!(no_auth().connection(), Err(ConnectionError));
    assert_eq!(auth().connection(), Ok(()));
    let mut install_only = no_auth();
    install_only.install_dir = "C:/Games/Client".to_string();
    install_only.is_alternate_region = true;
    assert_eq!(install_only.connection(), Err(ConnectionError));
}

#[test]
fn a_bulk_trigger_replaces_the_one_before() {
    let mut commands = pick("u.gg");
    commands.trigger_bulk_apply("op.gg".to_string());
    commands.trigger_bulk_apply("op.gg-aram".to_string());
    assert_eq!(
        commands,
        Commands {
            select_source: Some("u.gg".to_string()),
            apply_rune: None,
            bulk_apply: Some("op.gg-aram".to_string()),
        }
    );
    let mut state = listed();
    let frame = render_runes_ui(&mut state, &auth(), Some(266), &commands);
    assert_eq!(
        frame.effects,
        vec![
            Effect::FetchBuilds { source: "u.gg".to_string(), alias: "Aatrox".to_string() },
            Effect::ApplyBuilds {
                install_dir: "C:/Games/Client".to_string(),
                source: "op.gg-aram".to_string(),
                alias: "Aatrox".to_string(),
                is_alternate_region: true,
            },
        ]
    );
}
