use league_guider::ai::context::{ChampionContext, ItemContext};
use league_guider::ai::{
    api_error_message, bearer, check_response, find_profile, is_new_profile, key_or_message,
    key_step, key_step_of,
    remove_profile, upsert_profile, verify_stored_key, AiProfile, KeyLookup, KeyStep,
};
use league_guider::data::champion::{Champion, ChampionInfo, ChampionStats};
use league_guider::data::item::{Item, ItemGold, ItemStat};
use league_guider::data::Image;

fn profile(id: &str, name: &str) -> AiProfile {
    AiProfile {
        id: id.to_string(),
        name: name.to_string(),
        endpoint: "https://example.invalid/v1/chat".to_string(),
        model: "m".to_string(),
    }
}

#[test]
fn upsert_replaces_in_place_or_appends() {
    let mut list = vec![profile("a", "one"), profile("b", "two")];
    upsert_profile(&mut list, profile("a", "changed"));
    assert_eq!(list, vec![profile("a", "changed"), profile("b", "two")]);
    upsert_profile(&mut list, profile("c", "three"));
    assert_eq!(list, vec![profile("a", "changed"), profile("b", "two"), profile("c", "three")]);
    let mut empty = vec![];
    upsert_profile(&mut empty, profile("x", "y"));
    assert_eq!(empty, vec![profile("x", "y")]);
}

#[test]
fn find_and_is_new() {
    let list = vec![profile("a", "one"), profile("b", "two"), profile("a", "again")];
    assert_eq!(find_profile(&list, &"a".to_string()), Some(0));
    assert_eq!(find_profile(&list, &"b".to_string()), Some(1));
    assert_eq!(find_profile(&list, &"z".to_string()), None);
    assert!(is_new_profile(&list, &"z".to_string()));
    assert!(!is_new_profile(&list, &"b".to_string()));
}

#[test]
fn remove_drops_every_profile_with_the_id() {
    let list = vec![profile("a", "1"), profile("b", "2"), profile("a", "3"), profile("c", "4")];
    assert_eq!(remove_profile(list.clone(), &"a".to_string()), vec![profile("b", "2"), profile("c", "4")]);
    assert_eq!(remove_profile(list.clone(), &"z".to_string()), list);
    assert_eq!(remove_profile(vec![], &"a".to_string()), vec![]);
}

#[test]
fn stored_key_verification() {
    let key = "sk-test".to_string();
    assert_eq!(verify_stored_key(&key, Ok("sk-test".to_string())), Ok(()));
    assert_eq!(
        verify_stored_key(&key, Ok("other".to_string())),
        Err("Secure storage data mismatch (saved vs read).".to_string())
    );
    assert_eq!(
        verify_stored_key(&key, Err("locked".to_string())),
        Err("Secure storage verification failed. The OS did not persist the key: locked"
            .to_string())
    );
}

#[test]
fn key_lookup_messages() {
    assert_eq!(key_or_message(KeyLookup::Found("k".to_string())), Ok("k".to_string()));
    assert_eq!(
        key_or_message(KeyLookup::NoEntry),
        Err("API Key not found in storage. Please Edit the profile and re-enter the key."
            .to_string())
    );
    assert_eq!(
        key_or_message(KeyLookup::Ambiguous),
        Err("Multiple keys found for this ID. Storage is ambiguous.".to_string())
    );
    assert_eq!(
        key_or_message(KeyLookup::Failed("boom".to_string())),
        Err("OS Secure Storage Error: boom".to_string())
    );
}

#[test]
fn header_and_error_texts() {
    assert_eq!(bearer("abc"), "Bearer abc");
    assert_eq!(api_error_message(Some("quota".to_string())), "API Error: quota");
    assert_eq!(api_error_message(None), "API Error: Unknown error");
}

fn item(description: &str, plaintext: &str) -> Item {
    Item {
        name: "Long Sword".to_string(),
        description: description.to_string(),
        colloq: String::new(),
        plaintext: plaintext.to_string(),
        into: vec!["3031".to_string()],
        from: vec!["1036".to_string()],
        image: None,
        gold: ItemGold { base: 350, total: 1300, sell: 910, purchasable: true },
        tags: vec!["Damage".to_string()],
        maps: vec![],
        stats: vec![ItemStat { name: "FlatPhysicalDamageMod".to_string(), bits: 10.0f64.to_bits() }],
        effect: None,
        depth: Some(2),
        consumed: false,
        stacks: 0,
        consume_on_full: false,
        special_recipe: None,
        in_store: None,
        hide_from_all: false,
        required_champion: Some("Gangplank".to_string()),
        required_ally: None,
        rune: None,
    }
}

#[test]
fn item_context_prefers_description() {
    let c = ItemContext::from(item("<b>details</b>", "plain"));
    assert_eq!(c.description, "<b>details</b>");
    assert_eq!(c.gold_cost, 1300);
    assert_eq!(c.builds_from, vec!["1036".to_string()]);
    assert_eq!(c.builds_into, vec!["3031".to_string()]);
    assert_eq!(c.required_champion, Some("Gangplank".to_string()));
    assert_eq!(f64::from_bits(c.stats[0].bits), 10.0);
    let c = ItemContext::from(item("", "plain"));
    assert_eq!(c.description, "plain");
    let c = ItemContext::from(item("", ""));
    assert_eq!(c.description, "");
}

#[test]
fn champion_context_keeps_fields() {
    let champion = Champion {
        id: "Ashe".to_string(),
        key: "22".to_string(),
        name: "Ashe".to_string(),
        title: "the Frost Archer".to_string(),
        version: "15.1.1".to_string(),
        blurb: "Iceborn warmother".to_string(),
        info: ChampionInfo { attack: 7, defense: 3, magic: 2, difficulty: 4 },
        image: Image {
            full: "Ashe.png".to_string(),
            sprite: "champion0.png".to_string(),
            group: "champion".to_string(),
            x: 1,
            y: 2,
            w: 48,
            h: 48,
        },
        tags: vec!["Marksman".to_string(), "Support".to_string()],
        partype: "Mana".to_string(),
        stats: ChampionStats {
            hp: 1,
            hp_per_level: 2,
            mp: 3,
            mp_per_level: 4,
            move_speed: 5,
            armor: 6,
            armor_per_level: 7,
            spell_block: 8,
            spell_block_per_level: 9,
            attack_range: 10,
            hp_regen: 11,
            hp_regen_per_level: 12,
            mp_regen: 13,
            mp_regen_per_level: 14,
            crit: 15,
            crit_per_level: 16,
            attack_damage: 17,
            attack_damage_per_level: 18,
            attack_speed_per_level: 19,
            attack_speed: 20,
        },
    };
    let c = ChampionContext::from(champion);
    assert_eq!(c.name, "Ashe");
    assert_eq!(c.title, "the Frost Archer");
    assert_eq!(c.lore_snippet, "Iceborn warmother");
    assert_eq!(c.roles, vec!["Marksman".to_string(), "Support".to_string()]);
    assert_eq!(c.resource_type, "Mana");
    assert_eq!(
        (c.role_info.attack, c.role_info.defense, c.role_info.magic, c.role_info.difficulty),
        (7, 3, 2, 4)
    );
    assert_eq!((c.stats.hp, c.stats.hp_per_level, c.stats.mp, c.stats.mp_per_level), (1, 2, 3, 4));
    assert_eq!((c.stats.move_speed, c.stats.armor, c.stats.armor_per_level), (5, 6, 7));
    assert_eq!((c.stats.spell_block, c.stats.spell_block_per_level, c.stats.attack_range), (8, 9, 10));
    assert_eq!((c.stats.hp_regen, c.stats.hp_regen_per_level, c.stats.mp_regen), (11, 12, 13));
    assert_eq!((c.stats.mp_regen_per_level, c.stats.crit, c.stats.crit_per_level), (14, 15, 16));
    assert_eq!((c.stats.attack_damage, c.stats.attack_damage_per_level), (17, 18));
    assert_eq!((c.stats.attack_speed_per_level, c.stats.attack_speed), (19, 20));
}

#[test]
fn key_step_trims_and_decides() {
    assert_eq!(key_step("  sk-1 \n", true), KeyStep::Store("sk-1".to_string()));
    assert_eq!(key_step("sk 2", false), KeyStep::Store("sk 2".to_string()));
    assert_eq!(key_step(" \t\n", true), KeyStep::WarnMissing);
    assert_eq!(key_step("", true), KeyStep::WarnMissing);
    assert_eq!(key_step("   ", false), KeyStep::Keep);
}

#[test]
fn key_step_of_decides_on_the_clean_key() {
    assert_eq!(key_step_of("sk-1".to_string(), true), KeyStep::Store("sk-1".to_string()));
    assert_eq!(key_step_of(" ".to_string(), false), KeyStep::Store(" ".to_string()));
    assert_eq!(key_step_of(String::new(), true), KeyStep::WarnMissing);
    assert_eq!(key_step_of(String::new(), false), KeyStep::Keep);
}

#[test]
fn trimming_follows_unicode_white_space() {
    let spaces = "\u{9}\u{a}\u{b}\u{c}\u{d} \u{85}\u{a0}\u{1680}\u{2000}\u{2005}\u{200a}\u{2028}\u{2029}\u{202f}\u{205f}\u{3000}";
    let key = format!("{}a b{}", spaces, spaces);
    assert_eq!(key_step(&key, true), KeyStep::Store("a b".to_string()));
    assert_eq!(key_step(spaces, true), KeyStep::WarnMissing);
    // These are no white space, and stay.
    for kept in ["\u{200b}", "\u{180e}", "\u{feff}", "\u{1f}", "\u{8}"] {
        assert_eq!(key_step(kept, false), KeyStep::Store(kept.to_string()));
    }
}

#[test]
fn response_check() {
    assert_eq!(check_response(true, Some("{}".to_string())), Ok(Some("{}".to_string())));
    assert_eq!(check_response(true, None), Ok(None));
    assert_eq!(check_response(false, Some("quota".to_string())), Err("API Error: quota".to_string()));
    assert_eq!(check_response(false, None), Err("API Error: Unknown error".to_string()));
}
