use league_guider::data::champion::{Champion, ChampionData, ChampionInfo, ChampionStats};
use league_guider::data::error::SyncError;
use league_guider::data::item::{Item, ItemData, ItemGold, KeyedItem};
use league_guider::data::keys::all_distinct;
use league_guider::data::manager::{entry_url, latest_of, status_of, DataManager, DataStatus};
use league_guider::data::order::{bytes_precede, name_precedes};
use league_guider::data::store::{
    marker_version, update_plan, CacheStore, RecordKind, StoreWrite, StoredBlob,
};
use league_guider::data::{
    get_champions, sort_by_name, Image, LeagueDataState, Reloaded,
};

fn image() -> Image {
    Image {
        full: "a.png".to_string(),
        sprite: "s.png".to_string(),
        group: "champion".to_string(),
        x: 0,
        y: 48,
        w: 48,
        h: 48,
    }
}

fn stats() -> ChampionStats {
    ChampionStats {
        hp: 640.0f64.to_bits(),
        hp_per_level: 0,
        mp: 0,
        mp_per_level: 0,
        move_speed: 0,
        armor: 0,
        armor_per_level: 0,
        spell_block: 0,
        spell_block_per_level: 0,
        attack_range: 0,
        hp_regen: 0,
        hp_regen_per_level: 0,
        mp_regen: 0,
        mp_regen_per_level: 0,
        crit: 0,
        crit_per_level: 0,
        attack_damage: 0,
        attack_damage_per_level: 0,
        attack_speed_per_level: 0,
        attack_speed: 0,
    }
}

fn champion(id: &str, name: &str) -> Champion {
    Champion {
        id: id.to_string(),
        key: "1".to_string(),
        name: name.to_string(),
        title: "the Tested".to_string(),
        version: "15.1.1".to_string(),
        blurb: String::new(),
        info: ChampionInfo { attack: 1, defense: 2, magic: 3, difficulty: 4 },
        image: image(),
        tags: vec!["Mage".to_string()],
        partype: "Mana".to_string(),
        stats: stats(),
    }
}

fn champion_set(version: &str, names: &[&str]) -> ChampionData {
    ChampionData {
        data_type: "champion".to_string(),
        format: "standAloneComplex".to_string(),
        version: version.to_string(),
        data: names.iter().map(|n| champion(n, n)).collect(),
    }
}

fn blank_item() -> Item {
    Item {
        name: String::new(),
        description: String::new(),
        colloq: String::new(),
        plaintext: String::new(),
        into: vec![],
        from: vec![],
        image: None,
        gold: ItemGold::default(),
        tags: vec![],
        maps: vec![],
        stats: vec![],
        effect: None,
        depth: None,
        consumed: false,
        stacks: 0,
        consume_on_full: false,
        special_recipe: None,
        in_store: None,
        hide_from_all: false,
        required_champion: None,
        required_ally: None,
        rune: None,
    }
}

fn item_set(version: &str) -> ItemData {
    ItemData {
        data_type: "item".to_string(),
        version: version.to_string(),
        basic: blank_item(),
        data: vec![],
        groups: vec![],
        tree: vec![],
    }
}

fn names(records: &[&Champion]) -> Vec<String> {
    records.iter().map(|c| c.name.clone()).collect()
}

#[test]
fn champions_come_back_sorted_by_name() {
    let mut state = LeagueDataState::new();
    state.replace(champion_set("15.1.1", &["Zed", "Ashe", "Brand"]), item_set("15.1.1"));
    let out = get_champions(&state).unwrap();
    assert_eq!(names(&out), vec!["Ashe", "Brand", "Zed"]);
}

#[test]
fn sorting_is_case_sensitive_byte_order() {
    let set = champion_set("1", &["ashe", "Zed", "Ashe", "", "Zed"]);
    let out = sort_by_name(&set.data);
    assert_eq!(names(&out), vec!["", "Ashe", "Zed", "Zed", "ashe"]);
}

#[test]
fn sorting_keeps_every_record() {
    let set = champion_set("1", &["b", "a", "c", "a"]);
    let out = sort_by_name(&set.data);
    assert_eq!(out.len(), 4);
    let mut ids: Vec<String> = out.iter().map(|c| c.id.clone()).collect();
    ids.sort();
    assert_eq!(ids, vec!["a", "a", "b", "c"]);
}

#[test]
fn sorting_nothing_gives_nothing() {
    let set = champion_set("1", &[]);
    assert!(sort_by_name(&set.data).is_empty());
}

#[test]
fn byte_order_on_concrete_names() {
    assert!(name_precedes("Ashe", "Brand"));
    assert!(!name_precedes("Brand", "Ashe"));
    assert!(name_precedes("Ash", "Ashe"));
    assert!(!name_precedes("Ashe", "Ash"));
    assert!(name_precedes("Zed", "Zed"));
    assert!(name_precedes("Zed", "ashe"));
    assert!(name_precedes("z", "\u{e9}"));
    assert!(bytes_precede(&[], &[0]));
    assert!(!bytes_precede(&[1], &[0, 9]));
}

#[test]
fn query_before_load_is_not_loaded() {
    let state = LeagueDataState::new();
    assert_eq!(get_champions(&state).err(), Some(SyncError::NotLoaded));
    assert_eq!(state.snapshot().err(), Some(SyncError::NotLoaded));
}

#[test]
fn replace_swaps_the_whole_snapshot() {
    let mut state = LeagueDataState::new();
    state.replace(champion_set("1", &["A"]), item_set("1"));
    state.replace(champion_set("2", &["B", "C"]), item_set("2"));
    let (champions, items) = state.snapshot().unwrap();
    assert_eq!(champions.version, "2");
    assert_eq!(items.version, "2");
    assert_eq!(champions.data.len(), 2);
}

#[test]
fn install_reports_parser_failure_and_keeps_snapshot() {
    let mut state = LeagueDataState::new();
    state.replace(champion_set("1", &["A"]), item_set("1"));
    let r = state.install(Reloaded::Malformed("Champ Parse: EOF".to_string()));
    assert_eq!(r, Err(SyncError::Malformed("Champ Parse: EOF".to_string())));
    assert_eq!(state.snapshot().unwrap().0.version, "1");
    assert_eq!(state.install(Reloaded::Missing), Err(SyncError::NotFound));
    assert_eq!(state.install(Reloaded::Unreadable), Err(SyncError::IoFailure));
    assert_eq!(state.snapshot().unwrap().0.version, "1");
    let r = state.install(Reloaded::Parsed(champion_set("2", &["B"]), item_set("2")));
    assert_eq!(r, Ok(()));
    assert_eq!(state.snapshot().unwrap().0.version, "2");
}

#[test]
fn latest_is_first_of_list() {
    let manager = DataManager::new(CacheStore::new());
    let r = manager.fetch_latest_version(Some("[\"15.2.1\", \"15.1.1\", \"14.24.1\"]"));
    assert_eq!(r, Ok("15.2.1".to_string()));
    assert_eq!(
        latest_of(Some(vec!["b".to_string(), "a".to_string()])),
        Ok("b".to_string())
    );
}

#[test]
fn latest_fails_as_unavailable_or_empty() {
    let manager = DataManager::new(CacheStore::new());
    assert_eq!(manager.fetch_latest_version(None), Err(SyncError::Unavailable));
    assert_eq!(manager.fetch_latest_version(Some("not json")), Err(SyncError::Unavailable));
    assert_eq!(manager.fetch_latest_version(Some("{\"a\": 1}")), Err(SyncError::Unavailable));
    assert_eq!(manager.fetch_latest_version(Some("[1, 2]")), Err(SyncError::Unavailable));
    assert_eq!(manager.fetch_latest_version(Some("[]")), Err(SyncError::Empty));
    assert_eq!(latest_of(None), Err(SyncError::Unavailable));
    assert_eq!(latest_of(Some(vec![])), Err(SyncError::Empty));
}

#[test]
fn status_without_local_data() {
    let manager = DataManager::new(CacheStore::new());
    let status = manager.check_status(Some("[\"15.1.1\"]")).unwrap();
    assert_eq!(
        status,
        DataStatus {
            current_version: None,
            latest_version: "15.1.1".to_string(),
            is_up_to_date: false,
        }
    );
}

#[test]
fn status_compares_marker_with_latest() {
    let mut manager = DataManager::new(CacheStore::new());
    manager
        .update_data("15.1.1".to_string(), Some("c".to_string()), Some("i".to_string()))
        .unwrap();
    let current = manager.check_status(Some("[\"15.1.1\", \"15.0.1\"]")).unwrap();
    assert!(current.is_up_to_date);
    assert_eq!(current.current_version, Some("15.1.1".to_string()));
    let stale = manager.check_status(Some("[\"15.2.1\", \"15.1.1\"]")).unwrap();
    assert!(!stale.is_up_to_date);
    assert_eq!(stale.latest_version, "15.2.1");
    assert_eq!(manager.check_status(None), Err(SyncError::Unavailable));
    assert!(status_of(Some("a".to_string()), "a".to_string()).is_up_to_date);
    assert!(!status_of(Some("a".to_string()), "A".to_string()).is_up_to_date);
}

#[test]
fn marker_follows_each_successful_update() {
    let mut manager = DataManager::new(CacheStore::new());
    for v in ["15.1.1", "15.2.1", "15.3.1"] {
        manager
            .update_data(v.to_string(), Some(format!("c{}", v)), Some(format!("i{}", v)))
            .unwrap();
        assert_eq!(manager.get_local_version(), Some(v.to_string()));
    }
    let raw = manager.load_data().unwrap();
    assert_eq!(raw.version, "15.3.1");
    assert_eq!(raw.champions, "c15.3.1");
    assert_eq!(raw.items, "i15.3.1");
    assert!(manager.store.entry_exists(&"15.1.1".to_string()));
}

#[test]
fn interrupted_update_keeps_marker() {
    let mut manager = DataManager::new(CacheStore::new());
    manager
        .update_data("15.1.1".to_string(), Some("c1".to_string()), Some("i1".to_string()))
        .unwrap();
    let r = manager.update_data("15.2.1".to_string(), Some("c2".to_string()), None);
    assert_eq!(r, Err(SyncError::Unavailable));
    assert_eq!(manager.get_local_version(), Some("15.1.1".to_string()));
    assert!(!manager.store.entry_exists(&"15.2.1".to_string()));
    assert_eq!(
        manager.store.read_entry(&"15.2.1".to_string(), RecordKind::Champion),
        Ok("c2".to_string())
    );
    let status = manager.check_status(Some("[\"15.2.1\"]")).unwrap();
    assert_eq!(status.current_version, Some("15.1.1".to_string()));
    assert!(!status.is_up_to_date);
    let raw = manager.load_data().unwrap();
    assert_eq!(raw.champions, "c1");
    let r = manager.update_data("15.2.1".to_string(), None, Some("i2".to_string()));
    assert_eq!(r, Err(SyncError::Unavailable));
    assert_eq!(manager.get_local_version(), Some("15.1.1".to_string()));
}

#[test]
fn prefix_of_plan_keeps_marker() {
    let version = "15.2.1".to_string();
    let plan = update_plan(&version, "c2".to_string(), "i2".to_string());
    assert_eq!(plan.len(), 3);
    let mut store = CacheStore::new();
    store.write_marker("15.1.1");
    for write in plan.iter().take(2) {
        store.apply(write.clone());
        assert_eq!(store.read_marker(), Some("15.1.1".to_string()));
    }
    store.apply(plan[2].clone());
    assert_eq!(store.read_marker(), Some(version.clone()));
    assert!(store.entry_exists(&version));
}

#[test]
fn plan_writes_blobs_before_marker() {
    let version = "15.2.1".to_string();
    let plan = update_plan(&version, "c2".to_string(), "i2".to_string());
    assert_eq!(
        plan[0],
        StoreWrite::Entry(StoredBlob {
            version: version.clone(),
            kind: RecordKind::Champion,
            bytes: "c2".to_string()
        })
    );
    assert_eq!(
        plan[1],
        StoreWrite::Entry(StoredBlob {
            version: version.clone(),
            kind: RecordKind::Item,
            bytes: "i2".to_string()
        })
    );
    match &plan[2] {
        StoreWrite::Marker(text) => {
            let value: serde_json::Value = serde_json::from_str(text).unwrap();
            assert_eq!(value["version"].as_str(), Some("15.2.1"));
        }
        other => panic!("marker expected, found {:?}", other),
    }
}

#[test]
fn reload_matches_update() {
    let mut manager = DataManager::new(CacheStore::new());
    manager
        .update_data("15.1.1".to_string(), Some("{\"c\":1}".to_string()), Some("{}".to_string()))
        .unwrap();
    let raw = manager.load_data().unwrap();
    assert_eq!(raw.version, "15.1.1");
    assert_eq!(raw.champions, "{\"c\":1}");
    assert_eq!(raw.items, "{}");
}

#[test]
fn load_without_marker_is_no_local_data() {
    let manager = DataManager::new(CacheStore::new());
    assert_eq!(manager.load_data(), Err(SyncError::NoLocalData));
    assert_eq!(manager.get_local_version(), None);
}

#[test]
fn load_with_marker_but_missing_blob_is_not_found() {
    let mut store = CacheStore::new();
    store.write_marker("15.1.1");
    store.write_entry("15.1.1".to_string(), RecordKind::Champion, "c".to_string());
    let manager = DataManager::new(store);
    assert_eq!(manager.load_data(), Err(SyncError::NotFound));
}

#[test]
fn marker_text_that_names_no_version_reads_as_none() {
    let mut store = CacheStore::new();
    store.write_marker_text("garbage".to_string());
    assert_eq!(store.read_marker(), None);
    store.write_marker_text("{\"version\": 3}".to_string());
    assert_eq!(store.read_marker(), None);
    store.write_marker_text("[\"version\"]".to_string());
    assert_eq!(store.read_marker(), None);
    store.write_marker_text("{\"version\": \"15.1.1\"}".to_string());
    assert_eq!(store.read_marker(), Some("15.1.1".to_string()));
}

#[test]
fn marker_round_trips_awkward_versions() {
    let mut store = CacheStore::new();
    for v in ["", "a\"b", "back\\slash", "line\nbreak", "\u{e9}\u{1F600}"] {
        store.write_marker(v);
        assert_eq!(store.read_marker(), Some(v.to_string()));
    }
}

#[test]
fn read_entry_returns_latest_write() {
    let mut store = CacheStore::new();
    let v = "15.1.1".to_string();
    assert_eq!(store.read_entry(&v, RecordKind::Item), Err(SyncError::NotFound));
    store.write_entry(v.clone(), RecordKind::Item, "one".to_string());
    store.write_entry("other".to_string(), RecordKind::Item, "x".to_string());
    store.write_entry(v.clone(), RecordKind::Item, "two".to_string());
    assert_eq!(store.read_entry(&v, RecordKind::Item), Ok("two".to_string()));
    assert_eq!(store.read_entry(&v, RecordKind::Champion), Err(SyncError::NotFound));
    assert!(!store.entry_exists(&v));
    assert_eq!(store.read_marker(), None);
}

#[test]
fn apply_all_runs_in_order() {
    let mut store = CacheStore::new();
    let v = "1".to_string();
    store.apply_all(vec![
        StoreWrite::Marker("{\"version\": \"0\"}".to_string()),
        StoreWrite::Entry(StoredBlob { version: v.clone(), kind: RecordKind::Item, bytes: "a".to_string() }),
        StoreWrite::Entry(StoredBlob { version: v.clone(), kind: RecordKind::Item, bytes: "b".to_string() }),
        StoreWrite::Marker("{\"version\": \"1\"}".to_string()),
    ]);
    assert_eq!(store.read_marker(), Some(v.clone()));
    assert_eq!(store.read_entry(&v, RecordKind::Item), Ok("b".to_string()));
}

#[test]
fn entry_urls() {
    assert_eq!(
        entry_url("15.1.1", RecordKind::Champion),
        "https://ddragon.leagueoflegends.com/cdn/15.1.1/data/en_US/champion.json"
    );
    assert_eq!(
        entry_url("15.1.1", RecordKind::Item),
        "https://ddragon.leagueoflegends.com/cdn/15.1.1/data/en_US/item.json"
    );
    assert_eq!(RecordKind::Item.file_name(), "item.json");
}

#[test]
fn error_messages() {
    assert_eq!(SyncError::Empty.message(), "No versions found");
    assert_eq!(SyncError::NoLocalData.message(), "No local data found. Please update.");
    assert_eq!(
        SyncError::NotLoaded.message(),
        "Champion data not loaded in memory. Please load data first."
    );
    assert_eq!(
        SyncError::Malformed("Item Parse: x".to_string()).message(),
        "Local data is malformed: Item Parse: x"
    );
    assert_eq!(SyncError::Unavailable.message(), "Remote version source unavailable");
    assert_eq!(SyncError::NotFound.message(), "Cache entry not found");
    assert_eq!(SyncError::IoFailure.message(), "Storage read or write failed");
}

#[test]
fn marker_version_reads_the_named_version() {
    assert_eq!(marker_version(None), None);
    assert_eq!(marker_version(Some("")), None);
    assert_eq!(marker_version(Some("{\n  \"version\": \"15.1.1\"\n}")), Some("15.1.1".to_string()));
    assert_eq!(marker_version(Some("{\"other\": \"15.1.1\"}")), None);
    assert_eq!(marker_version(Some("{\"version\": null}")), None);
}

#[test]
fn commit_stores_blobs_then_marker() {
    let mut store = CacheStore::new();
    store.write_marker("15.0.1");
    let v = "15.1.1".to_string();
    store.commit(&v, "champions".to_string(), "items".to_string());
    assert_eq!(store.read_marker(), Some(v.clone()));
    assert!(store.entry_exists(&v));
    assert_eq!(store.read_entry(&v, RecordKind::Champion), Ok("champions".to_string()));
    assert_eq!(store.read_entry(&v, RecordKind::Item), Ok("items".to_string()));
    assert!(!store.entry_exists(&"15.0.1".to_string()));
}

#[test]
fn interleaved_updates_leave_whole_blobs() {
    let v = "15.1.1".to_string();
    let a = update_plan(&v, "champions-a".to_string(), "items-a".to_string());
    let b = update_plan(&v, "champions-b".to_string(), "items-b".to_string());
    let mut store = CacheStore::new();
    for write in [&a[0], &b[0], &b[1], &a[1], &a[2], &b[2]] {
        store.apply(write.clone());
    }
    assert_eq!(store.read_marker(), Some(v.clone()));
    assert_eq!(store.read_entry(&v, RecordKind::Champion), Ok("champions-b".to_string()));
    assert_eq!(store.read_entry(&v, RecordKind::Item), Ok("items-a".to_string()));
}

#[test]
fn records_of_one_name_keep_their_order() {
    let mut set = champion_set("1", &[]);
    for (id, name) in [("1", "b"), ("2", "a"), ("3", "b"), ("4", "a"), ("5", "")] {
        set.data.push(champion(id, name));
    }
    let out = sort_by_name(&set.data);
    let ids: Vec<&str> = out.iter().map(|c| c.id.as_str()).collect();
    assert_eq!(ids, vec!["5", "2", "4", "1", "3"]);
    let again = sort_by_name(&set.data);
    assert_eq!(out, again);
}

#[test]
fn update_to_the_current_version_leaves_the_entry_as_committed() {
    let mut manager = DataManager::new(CacheStore::new());
    let v = "15.1.1".to_string();
    manager.update_data(v.clone(), Some("c1".to_string()), Some("i1".to_string())).unwrap();
    for (champions, items) in [
        (Some("c2".to_string()), None),
        (None, Some("i2".to_string())),
        (None, None),
        (Some("c2".to_string()), Some("i2".to_string())),
    ] {
        assert_eq!(manager.update_data(v.clone(), champions, items), Ok(()));
        assert_eq!(manager.get_local_version(), Some(v.clone()));
        assert_eq!(manager.store.read_entry(&v, RecordKind::Champion), Ok("c1".to_string()));
        assert_eq!(manager.store.read_entry(&v, RecordKind::Item), Ok("i1".to_string()));
    }
    let mut store = manager.store;
    assert!(store.names(&v));
    assert!(!store.names(&"15.2.1".to_string()));
    store.commit(&v, "c3".to_string(), "i3".to_string());
    assert_eq!(store.read_entry(&v, RecordKind::Champion), Ok("c1".to_string()));
}

#[test]
fn failed_update_to_another_version_leaves_the_committed_entry() {
    let mut manager = DataManager::new(CacheStore::new());
    let v = "15.1.1".to_string();
    manager.update_data(v.clone(), Some("c1".to_string()), Some("i1".to_string())).unwrap();
    let r = manager.update_data("15.2.1".to_string(), Some("c2".to_string()), None);
    assert_eq!(r, Err(SyncError::Unavailable));
    assert_eq!(manager.get_local_version(), Some(v.clone()));
    assert_eq!(manager.store.read_entry(&v, RecordKind::Champion), Ok("c1".to_string()));
    assert_eq!(manager.store.read_entry(&v, RecordKind::Item), Ok("i1".to_string()));
}

#[test]
fn record_sets_with_a_key_twice_are_not_installed() {
    let mut state = LeagueDataState::new();
    state.replace(champion_set("1", &["A"]), item_set("1"));
    let twice = champion_set("2", &["B", "C", "B"]);
    assert!(!twice.has_unique_keys());
    assert!(champion_set("2", &["B", "C", "b"]).has_unique_keys());
    assert!(champion_set("2", &[]).has_unique_keys());
    let r = state.install(Reloaded::Parsed(twice, item_set("2")));
    assert_eq!(r, Err(SyncError::Malformed("A record key occurs twice".to_string())));
    assert_eq!(state.snapshot().unwrap().0.version, "1");

    let mut items = item_set("2");
    for key in ["1001", "1004", "1001"] {
        items.data.push(KeyedItem { key: key.to_string(), item: blank_item() });
    }
    assert!(!items.has_unique_keys());
    let r = state.install(Reloaded::Parsed(champion_set("2", &["B"]), items));
    assert_eq!(r, Err(SyncError::Malformed("A record key occurs twice".to_string())));
    assert_eq!(state.snapshot().unwrap().1.version, "1");

    let mut items = item_set("2");
    for key in ["1001", "1004"] {
        items.data.push(KeyedItem { key: key.to_string(), item: blank_item() });
    }
    assert!(items.has_unique_keys());
    assert_eq!(state.install(Reloaded::Parsed(champion_set("2", &["B"]), items)), Ok(()));
    assert_eq!(state.snapshot().unwrap().0.version, "2");
}

#[test]
fn distinct_keys() {
    let a = "a".to_string();
    let b = "b".to_string();
    let a2 = "a".to_string();
    assert!(all_distinct(&vec![]));
    assert!(all_distinct(&vec![&a]));
    assert!(all_distinct(&vec![&a, &b]));
    assert!(!all_distinct(&vec![&a, &b, &a2]));
    assert!(!all_distinct(&vec![&b, &a, &a2]));
}
