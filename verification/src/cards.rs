//! Overlord cards: their data, their translations and the mapping from the
//! card-type names of the card catalogue to card types.
use vstd::prelude::*;
use crate::table::KeyedTable;
use crate::text::text_equal;

verus! {

/// The kinds of trap card.
#[derive(Debug, Clone, Copy, PartialEq, Eq, Structural)]
pub enum Trap {
    Generic,
    Space,
    Chest,
    Door,
    Treasure,
}

/// The kind of an overlord card.
#[derive(Debug, Clone, Copy, PartialEq, Eq, Structural)]
pub enum OverlordCardType {
    Event,
    Power,
    Spawn,
    Trap(Trap),
}

/// The colour of a treachery card.
#[derive(Debug, Clone, Copy, PartialEq, Eq, Structural)]
pub enum TreacheryColour {
    Purple,
    Green,
    Red,
}

/// The languages that card texts are translated into.
#[derive(Debug, Clone, Copy, PartialEq, Eq, Structural)]
pub enum Language {
    De,
}

/// The texts of a card in one language.
#[derive(Debug, Clone)]
pub struct OverlordCardTranslation {
    pub language: Language,
    pub name: String,
    pub effect: String,
    pub overlord_tactic: Option<String>,
    pub heroes_tactic: Option<String>,
}

/// An overlord card as the card catalogue describes it.
#[derive(Debug, Clone)]
pub struct OverlordCard {
    pub name: String,
    pub card_type: OverlordCardType,
    pub threat_cost: u32,
    pub discard_value: u32,
    pub treachery_cost: Option<u32>,
    pub treachery_colour: Option<TreacheryColour>,
    pub effect: String,
    pub overlord_tactic: Option<String>,
    pub heroes_tactic: Option<String>,
    pub translations: Vec<OverlordCardTranslation>,
}

/// A catalogue entry before its card type name is checked: the card type is
/// still the text the catalogue gives for it.
#[derive(Debug, Clone)]
pub struct OverlordCardRaw {
    pub name: String,
    pub card_type: String,
    pub threat_cost: u32,
    pub discard_value: u32,
    pub treachery_cost: Option<u32>,
    pub treachery_colour: Option<TreacheryColour>,
    pub effect: String,
    pub overlord_tactic: Option<String>,
    pub heroes_tactic: Option<String>,
    pub translations: Vec<OverlordCardTranslation>,
}

/// A card type name that the catalogue may not use.
#[derive(Debug, Clone)]
pub struct UnknownCardType {
    pub name: String,
}

/// The card catalogue: each card under its keyword.
pub type OverlordCards = KeyedTable<OverlordCard>;

/// The card type that a catalogue card-type name stands for.
pub open spec fn card_type_named(name: Seq<char>) -> Option<OverlordCardType> {
    if name == "Power"@ {
        Some(OverlordCardType::Power)
    } else if name == "Event"@ {
        Some(OverlordCardType::Event)
    } else if name == "Spawn"@ {
        Some(OverlordCardType::Spawn)
    } else if name == "Trap"@ {
        Some(OverlordCardType::Trap(Trap::Generic))
    } else if name == "Trap (Chest)"@ {
        Some(OverlordCardType::Trap(Trap::Chest))
    } else if name == "Trap (Door)"@ {
        Some(OverlordCardType::Trap(Trap::Door))
    } else if name == "Trap (Space)"@ {
        Some(OverlordCardType::Trap(Trap::Space))
    } else if name == "Trap (Treasure)"@ {
        Some(OverlordCardType::Trap(Trap::Treasure))
    } else {
        None
    }
}

/// The first translation in `translations` into `language`.
pub open spec fn first_translation(
    translations: Seq<OverlordCardTranslation>,
    language: Language,
) -> Option<OverlordCardTranslation>
    decreases translations.len(),
{
    if translations.len() == 0 {
        None
    } else if translations[0].language == language {
        Some(translations[0])
    } else {
        first_translation(translations.drop_first(), language)
    }
}

/// A card has a translation into a language exactly when it lists one, and the
/// translation found is the earliest listed in that language.
pub proof fn translation_found_is_first_listed(
    translations: Seq<OverlordCardTranslation>,
    language: Language,
)
    ensures
        first_translation(translations, language) is Some <==> exists|i: int|
            0 <= i < translations.len() && #[trigger] translations[i].language == language,
        first_translation(translations, language) matches Some(t) ==> exists|i: int|
            0 <= i < translations.len() && t == #[trigger] translations[i] && t.language == language
                && forall|j: int| 0 <= j < i ==> translations[j].language != language,
    decreases translations.len(),
{
    if translations.len() > 0 {
        let rest = translations.drop_first();
        translation_found_is_first_listed(rest, language);
        if translations[0].language == language {
            assert(translations[0].language == language);
        } else {
            assert forall|i: int|
                0 <= i < rest.len() && #[trigger] rest[i].language == language implies
                translations[i + 1].language == language by {}
            assert forall|i: int|
                0 < i < translations.len() && #[trigger] translations[i].language == language implies
                rest[i - 1].language == language by {}
            if first_translation(rest, language) is Some {
                let t = first_translation(rest, language)->0;
                let i: int = choose|i: int|
                    0 <= i < rest.len() && t == #[trigger] rest[i] && t.language == language
                        && forall|j: int| 0 <= j < i ==> rest[j].language != language;
                assert(t == translations[i + 1]);
                assert forall|j: int| 0 <= j < i + 1 implies translations[j].language
                    != language by {
                    if j > 0 {
                        assert(translations[j] == rest[j - 1]);
                    }
                }
            }
        }
    }
}

/// A copy of an optional text, equal to it.
fn copy_text_option(text: &Option<String>) -> (res: Option<String>)
    ensures
        res == *text,
{
    match text {
        Some(t) => Some(t.clone()),
        None => None,
    }
}

impl OverlordCardTranslation {
    /// A copy of the translation, equal to it.
    pub fn duplicate(&self) -> (res: OverlordCardTranslation)
        ensures
            res == *self,
    {
        OverlordCardTranslation {
            language: self.language,
            name: self.name.clone(),
            effect: self.effect.clone(),
            overlord_tactic: copy_text_option(&self.overlord_tactic),
            heroes_tactic: copy_text_option(&self.heroes_tactic),
        }
    }
}

/// The card type named `name`, if the catalogue allows that name.
pub fn parse_card_type(name: &str) -> (res: Option<OverlordCardType>)
    ensures
        res == card_type_named(name@),
{
    if text_equal(name, "Power") {
        Some(OverlordCardType::Power)
    } else if text_equal(name, "Event") {
        Some(OverlordCardType::Event)
    } else if text_equal(name, "Spawn") {
        Some(OverlordCardType::Spawn)
    } else if text_equal(name, "Trap") {
        Some(OverlordCardType::Trap(Trap::Generic))
    } else if text_equal(name, "Trap (Chest)") {
        Some(OverlordCardType::Trap(Trap::Chest))
    } else if text_equal(name, "Trap (Door)") {
        Some(OverlordCardType::Trap(Trap::Door))
    } else if text_equal(name, "Trap (Space)") {
        Some(OverlordCardType::Trap(Trap::Space))
    } else if text_equal(name, "Trap (Treasure)") {
        Some(OverlordCardType::Trap(Trap::Treasure))
    } else {
        None
    }
}

impl OverlordCard {
    /// The card that a catalogue entry describes, or the entry's card-type name
    /// when the catalogue does not allow it.
    pub fn from_raw(raw: OverlordCardRaw) -> (res: Result<OverlordCard, UnknownCardType>)
        ensures
            match card_type_named(raw.card_type@) {
                Some(t) => res == Ok::<OverlordCard, UnknownCardType>(
                    OverlordCard {
                        name: raw.name,
                        card_type: t,
                        threat_cost: raw.threat_cost,
                        discard_value: raw.discard_value,
                        treachery_cost: raw.treachery_cost,
                        treachery_colour: raw.treachery_colour,
                        effect: raw.effect,
                        overlord_tactic: raw.overlord_tactic,
                        heroes_tactic: raw.heroes_tactic,
                        translations: raw.translations,
                    },
                ),
                None => res == Err::<OverlordCard, UnknownCardType>(
                    UnknownCardType { name: raw.card_type },
                ),
            },
    {
        match parse_card_type(raw.card_type.as_str()) {
            Some(card_type) => Ok(
                OverlordCard {
                    name: raw.name,
                    card_type,
                    threat_cost: raw.threat_cost,
                    discard_value: raw.discard_value,
                    treachery_cost: raw.treachery_cost,
                    treachery_colour: raw.treachery_colour,
                    effect: raw.effect,
                    overlord_tactic: raw.overlord_tactic,
                    heroes_tactic: raw.heroes_tactic,
                    translations: raw.translations,
                },
            ),
            None => Err(UnknownCardType { name: raw.card_type }),
        }
    }

    /// The card's first translation into `language`, if it has one.
    pub fn translate(&self, language: Language) -> (res: Option<OverlordCardTranslation>)
        ensures
            res == first_translation(self.translations@, language),
    {
        let n: usize = self.translations.len();
        let mut i: usize = 0;
        while i < n
            invariant
                n == self.translations@.len(),
                i <= n,
                first_translation(self.translations@, language) == first_translation(
                    self.translations@.skip(i as int),
                    language,
                ),
            decreases n - i,
        {
            assert(self.translations@.skip(i as int)[0] == self.translations@[i as int]);
            if self.translations[i].language == language {
                return Some(self.translations[i].duplicate());
            }
            assert(self.translations@.skip(i as int).drop_first() =~= self.translations@.skip(
                i + 1,
            ));
            i = i + 1;
        }
        assert(self.translations@.skip(i as int).len() == 0);
        None
    }

    /// The card's name in `language`.
    pub fn translate_name(&self, language: Language) -> (res: Option<String>)
        ensures
            res == (match first_translation(self.translations@, language) {
                Some(t) => Some(t.name),
                None => None,
            }),
    {
        let translation = self.translate(language)?;
        Some(translation.name)
    }

    /// The card's effect text in `language`.
    pub fn translate_effect(&self, language: Language) -> (res: Option<String>)
        ensures
            res == (match first_translation(self.translations@, language) {
                Some(t) => Some(t.effect),
                None => None,
            }),
    {
        let translation = self.translate(language)?;
        Some(translation.effect)
    }

    /// The card's tactic advice for the overlord in `language`.
    pub fn translate_overlord_tactic(&self, language: Language) -> (res: Option<String>)
        ensures
            res == (match first_translation(self.translations@, language) {
                Some(t) => t.overlord_tactic,
                None => None,
            }),
    {
        let translation = self.translate(language)?;
        translation.overlord_tactic
    }

    /// The card's tactic advice for the heroes in `language`.
    pub fn translate_heroes_tactic(&self, language: Language) -> (res: Option<String>)
        ensures
            res == (match first_translation(self.translations@, language) {
                Some(t) => t.heroes_tactic,
                None => None,
            }),
    {
        let translation = self.translate(language)?;
        translation.heroes_tactic
    }
}

} // verus!
