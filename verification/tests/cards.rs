use descentinel::cards::{
    parse_card_type, Language, OverlordCard, OverlordCardRaw, OverlordCardTranslation,
    OverlordCardType, OverlordCards, Trap, TreacheryColour,
};

fn text_field(value: &serde_json::Value, key: &str) -> Option<String> {
    value.get(key).and_then(|v| v.as_str()).map(|s| s.to_string())
}

fn language_of(name: &str) -> Language {
    match name {
        "de" | "De" => Language::De,
        other => panic!("unknown language {other}"),
    }
}

fn colour_of(name: &str) -> TreacheryColour {
    match name {
        "purple" | "Purple" => TreacheryColour::Purple,
        "green" | "Green" => TreacheryColour::Green,
        "red" | "Red" => TreacheryColour::Red,
        other => panic!("unknown colour {other}"),
    }
}

fn raw_card_from_json(text: &str) -> OverlordCardRaw {
    let value: serde_json::Value = serde_json::from_str(text).unwrap();
    let translations = value["translations"]
        .as_array()
        .unwrap()
        .iter()
        .map(|t| OverlordCardTranslation {
            language: language_of(t["language"].as_str().unwrap()),
            name: text_field(t, "name").unwrap(),
            effect: text_field(t, "effect").unwrap(),
            overlord_tactic: text_field(t, "Overlord_tactic")
                .or_else(|| text_field(t, "overlord_tactic")),
            heroes_tactic: text_field(t, "Heroes_tactic").or_else(|| text_field(t, "heroes_tactic")),
        })
        .collect();
    OverlordCardRaw {
        name: text_field(&value, "name").unwrap(),
        card_type: text_field(&value, "type")
            .or_else(|| text_field(&value, "card_type"))
            .unwrap(),
        threat_cost: value["threat_cost"].as_u64().unwrap() as u32,
        discard_value: value["discard_value"].as_u64().unwrap() as u32,
        treachery_cost: value.get("treachery_cost").and_then(|v| v.as_u64()).map(|v| v as u32),
        treachery_colour: value
            .get("treachery_colour")
            .and_then(|v| v.as_str())
            .map(colour_of),
        effect: text_field(&value, "effect").unwrap(),
        overlord_tactic: text_field(&value, "Overlord_tactic")
            .or_else(|| text_field(&value, "overlord_tactic")),
        heroes_tactic: text_field(&value, "Heroes_tactic")
            .or_else(|| text_field(&value, "heroes_tactic")),
        translations,
    }
}

const AIM: &str = r#"
        {
            "name": "Aim",
            "type": "Event",
            "threat_cost": 2,
            "discard_value": 1,
            "effect": "Play immediately after declaring an attack but before rolling any dice. Your attack is an aimed attack.",
            "Overlord_tactic": "This low cost card is useful when you are attacking a weak hero and want to make sure to deal the final blow. It is also useful to counter the dodge ready action.",
            "Heroes_tactic": "None. Pray that the re-roll is worst than the first roll.",
            "translations": [
                {
                    "language": "de",
                    "name": "Zielen",
                    "effect": "Spiele die Karte nachdem Du einen Angriff deklariert hast aber bevor Du würfelst. Der Angriff ist ein gezielter Angriff.",
                    "Overlord_tactic": "Diese kostengünstige Karte ist nützlich, wenn Du einen schwachen Helden angreifen und fertig machen möchtest. Es ist auch nützlich, um der Ausweichaktion entgegenzuwirken.",
                    "Heroes_tactic": "Keine. Betet, dass der Wiederholungswurf schlechter ist als der erste Wurf."
                }
            ]
        }"#;

fn aim() -> OverlordCard {
    OverlordCard::from_raw(raw_card_from_json(AIM)).unwrap()
}

#[test]
fn basic_overlord_card_parsing_works() {
    let as_card = aim();
    assert_eq!(as_card.name, "Aim");
    assert!(matches!(as_card.card_type, OverlordCardType::Event));
    assert_eq!(as_card.threat_cost, 2);
    assert_eq!(as_card.discard_value, 1);
    assert!(as_card.effect.contains("Play immediately"));
    assert!(as_card
        .overlord_tactic
        .clone()
        .is_some_and(|t| t.contains("This low")));
    assert!(as_card
        .heroes_tactic
        .clone()
        .is_some_and(|t| t.contains("None. Pray")));
    assert_eq!(as_card.translations.len(), 1);
    assert_eq!(as_card.translations[0].name, "Zielen");
    assert!(matches!(as_card.translations[0].language, Language::De));
    assert!(as_card.translations[0].effect.contains("Spiele die"));
    assert!(as_card.translations[0]
        .overlord_tactic
        .clone()
        .is_some_and(|t| t.contains("Diese kostengün")));
    assert!(as_card.translations[0]
        .heroes_tactic
        .clone()
        .is_some_and(|t| t.contains("Keine.")))
}

#[test]
fn translations_into_german_are_found() {
    let card = aim();
    assert_eq!(card.translate_name(Language::De), Some("Zielen".to_string()));
    assert!(card
        .translate_effect(Language::De)
        .is_some_and(|t| t.starts_with("Spiele die Karte")));
    assert!(card
        .translate_overlord_tactic(Language::De)
        .is_some_and(|t| t.starts_with("Diese kostengünstige")));
    assert!(card
        .translate_heroes_tactic(Language::De)
        .is_some_and(|t| t.starts_with("Keine.")));
    let translation = card.translate(Language::De).unwrap();
    assert_eq!(translation.name, "Zielen");
}

#[test]
fn card_without_translations_has_none() {
    let mut card = aim();
    card.translations.clear();
    assert!(card.translate(Language::De).is_none());
    assert!(card.translate_name(Language::De).is_none());
    assert!(card.translate_effect(Language::De).is_none());
    assert!(card.translate_overlord_tactic(Language::De).is_none());
    assert!(card.translate_heroes_tactic(Language::De).is_none());
}

#[test]
fn missing_tactic_in_translation_gives_none() {
    let mut card = aim();
    card.translations[0].heroes_tactic = None;
    assert!(card.translate_heroes_tactic(Language::De).is_none());
    assert_eq!(card.translate_name(Language::De), Some("Zielen".to_string()));
}

#[test]
fn every_catalogue_card_type_name_is_read() {
    assert_eq!(parse_card_type("Power"), Some(OverlordCardType::Power));
    assert_eq!(parse_card_type("Event"), Some(OverlordCardType::Event));
    assert_eq!(parse_card_type("Spawn"), Some(OverlordCardType::Spawn));
    assert_eq!(parse_card_type("Trap"), Some(OverlordCardType::Trap(Trap::Generic)));
    assert_eq!(parse_card_type("Trap (Chest)"), Some(OverlordCardType::Trap(Trap::Chest)));
    assert_eq!(parse_card_type("Trap (Door)"), Some(OverlordCardType::Trap(Trap::Door)));
    assert_eq!(parse_card_type("Trap (Space)"), Some(OverlordCardType::Trap(Trap::Space)));
    assert_eq!(
        parse_card_type("Trap (Treasure)"),
        Some(OverlordCardType::Trap(Trap::Treasure))
    );
    assert_eq!(parse_card_type("power"), None);
    assert_eq!(parse_card_type("Trap (Chest"), None);
    assert_eq!(parse_card_type(""), None);
}

#[test]
fn unknown_card_type_is_refused_with_its_name() {
    let mut raw = raw_card_from_json(AIM);
    raw.card_type = "Curse".to_string();
    let err = OverlordCard::from_raw(raw).unwrap_err();
    assert_eq!(err.name, "Curse");
}

#[test]
fn treachery_fields_are_kept() {
    let mut raw = raw_card_from_json(AIM);
    raw.card_type = "Trap (Door)".to_string();
    raw.treachery_cost = Some(1);
    raw.treachery_colour = Some(TreacheryColour::Purple);
    let card = OverlordCard::from_raw(raw).unwrap();
    assert!(matches!(card.card_type, OverlordCardType::Trap(Trap::Door)));
    assert!(card.treachery_cost.is_some_and(|c| c == 1));
    assert!(card
        .treachery_colour
        .is_some_and(|c| matches!(c, TreacheryColour::Purple)));
}

#[test]
fn card_table_gives_back_what_was_stored() {
    let mut cards = OverlordCards::new();
    assert_eq!(cards.len(), 0);
    cards.insert("aim".to_string(), aim());
    assert_eq!(cards.len(), 1);
    assert_eq!(cards.get("aim").unwrap().name, "Aim");
    assert!(cards.get("doom").is_none());
    let mut other = aim();
    other.name = "Aim again".to_string();
    cards.insert("aim".to_string(), other);
    assert_eq!(cards.len(), 1);
    assert_eq!(cards.get("aim").unwrap().name, "Aim again");
    cards.insert("doom".to_string(), aim());
    assert_eq!(cards.len(), 2);
    assert_eq!(cards.get("doom").unwrap().name, "Aim");
    assert_eq!(cards.get("aim").unwrap().name, "Aim again");
}
