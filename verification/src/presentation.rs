//! The dashboard's conversions: the content of a broadcast message as bytes,
//! text or image, images as PNG data URLs, and the card texts to show for a
//! detected card code.
use vstd::prelude::*;
use crate::cards::{
    first_translation, translation_found_is_first_listed, Language, OverlordCard, OverlordCards,
};
use crate::raster::{decode_image, decoded_image, encode_png, png_encoding, DecodedImage};
use crate::text::{opt_text, strip_prefix_text, text_strip_prefix};
use vstd::string::StringExecFns;
use vstd::utf8::{decode_utf8, encode_utf8, valid_utf8};

verus! {

/// What a JSON text holds under the key `content` when that is an array: for
/// each element, its value when it is a non-negative integer that fits in 64
/// bits, else `None`. `None` when the text is no JSON or has no such array.
pub uninterp spec fn json_content_numbers(input: Seq<char>) -> Option<Seq<Option<u64>>>;

/// Parses the text with `serde_json::from_str` into a `serde_json::Value`, takes
/// `value["content"]` with `Value::as_array` and each element with
/// `Value::as_u64`. Claimed: the result is `json_content_numbers` of the text.
#[verifier::external_body]
fn read_content_numbers(input: &str) -> (res: Option<Vec<Option<u64>>>)
    ensures
        match res {
            Some(items) => json_content_numbers(input@) == Some(items@),
            None => json_content_numbers(input@) is None,
        },
{
    let value: serde_json::Value = serde_json::from_str(input).ok()?;
    let items = value["content"].as_array()?;
    let mut numbers: Vec<Option<u64>> = Vec::new();
    for item in items {
        numbers.push(item.as_u64());
    }
    Some(numbers)
}

/// Turns bytes into a `String` with `String::from_utf8`. Claimed, as its
/// documentation says: it succeeds exactly on valid UTF-8, and the text is what
/// the bytes encode.
#[verifier::external_body]
fn string_from_utf8(bytes: Vec<u8>) -> (res: Option<String>)
    ensures
        match res {
            Some(s) => valid_utf8(bytes@) && s@ == decode_utf8(bytes@),
            None => !valid_utf8(bytes@),
        },
{
    String::from_utf8(bytes).ok()
}

/// Encodes bytes with the standard base64 alphabet and padding, with
/// `base64::engine::general_purpose::STANDARD.encode`. Claimed: the text is
/// `base64_standard` of the bytes (RFC 4648). The engine panics when the length
/// of the text does not fit in `usize`, which the precondition rules out.
#[verifier::external_body]
fn base64_encode(bytes: &[u8]) -> (res: String)
    requires
        base64_fits(bytes@.len()),
    ensures
        res@ == base64_standard(bytes@),
{
    base64::Engine::encode(&base64::engine::general_purpose::STANDARD, bytes)
}

/// The bytes that the content numbers stand for: each number, truncated to its
/// low eight bits, in order; elements that are no such number are left out.
pub open spec fn numbers_to_bytes(items: Seq<Option<u64>>) -> Seq<u8>
    decreases items.len(),
{
    if items.len() == 0 {
        Seq::empty()
    } else {
        let init = numbers_to_bytes(items.drop_last());
        match items.last() {
            Some(n) => init.push((n % 256) as u8),
            None => init,
        }
    }
}

/// The bytes of the content of a JSON message text, empty when it has none.
pub open spec fn content_bytes(input: Seq<char>) -> Seq<u8> {
    match json_content_numbers(input) {
        Some(items) => numbers_to_bytes(items),
        None => Seq::empty(),
    }
}

/// The base64 digit for a value below 64.
pub open spec fn base64_digit(v: int) -> char {
    if v < 26 {
        (65 + v) as char
    } else if v < 52 {
        (97 + v - 26) as char
    } else if v < 62 {
        (48 + v - 52) as char
    } else if v == 62 {
        '+'
    } else {
        '/'
    }
}

/// Standard base64 with padding, three bytes to four digits.
pub open spec fn base64_standard(b: Seq<u8>) -> Seq<char>
    decreases b.len(),
{
    if b.len() == 0 {
        Seq::empty()
    } else {
        let b0 = b[0] as int;
        let b1 = if b.len() > 1 { b[1] as int } else { 0 };
        let b2 = if b.len() > 2 { b[2] as int } else { 0 };
        let d0 = base64_digit(b0 / 4);
        let d1 = base64_digit((b0 % 4) * 16 + b1 / 16);
        let d2 = base64_digit((b1 % 16) * 4 + b2 / 64);
        let d3 = base64_digit(b2 % 64);
        if b.len() == 1 {
            seq![d0, d1, '=', '=']
        } else if b.len() == 2 {
            seq![d0, d1, d2, '=']
        } else {
            seq![d0, d1, d2, d3] + base64_standard(b.skip(3))
        }
    }
}

/// The base64 text of `n` bytes has a length that fits in `usize`.
pub open spec fn base64_fits(n: nat) -> bool {
    4 * ((n + 2) / 3) <= usize::MAX
}

/// The data URL of a PNG file.
pub open spec fn png_data_url(png: Seq<u8>) -> Seq<char> {
    "data:image/png;base64,"@ + base64_standard(png)
}

/// The bytes of a list of content numbers.
pub fn bytes_from_content(items: Option<Vec<Option<u64>>>) -> (res: Vec<u8>)
    ensures
        res@ == (match items {
            Some(v) => numbers_to_bytes(v@),
            None => Seq::empty(),
        }),
{
    let mut bytes: Vec<u8> = Vec::new();
    match items {
        None => bytes,
        Some(numbers) => {
            let n: usize = numbers.len();
            let mut i: usize = 0;
            while i < n
                invariant
                    n == numbers@.len(),
                    i <= n,
                    bytes@ == numbers_to_bytes(numbers@.subrange(0, i as int)),
                decreases n - i,
            {
                assert(numbers@.subrange(0, i + 1).drop_last() =~= numbers@.subrange(
                    0,
                    i as int,
                ));
                if let Some(number) = numbers[i] {
                    bytes.push((number % 256) as u8);
                }
                i = i + 1;
            }
            assert(numbers@.subrange(0, n as int) =~= numbers@);
            bytes
        },
    }
}

/// The bytes of the content of a JSON message text: the numbers of its
/// `content` array, each truncated to a byte; empty when the text is no JSON or
/// has no such array.
pub fn convert_to_array_of_u8(input: &str) -> (res: Vec<u8>)
    ensures
        res@ == content_bytes(input@),
{
    bytes_from_content(read_content_numbers(input))
}

/// The text that the content of a JSON message text encodes. The content must
/// be valid UTF-8.
pub fn convert_to_str(json_input: &str) -> (res: String)
    requires
        valid_utf8(content_bytes(json_input@)),
    ensures
        res@ == decode_utf8(content_bytes(json_input@)),
{
    let arr = convert_to_array_of_u8(json_input);
    string_from_utf8(arr).unwrap()
}

/// The text that the content of a JSON message text encodes, or `None` when
/// the content is not valid UTF-8. The content is read twice: once to test it,
/// once by `convert_to_str`.
pub fn try_convert_to_str(json_input: &str) -> (res: Option<String>)
    ensures
        match res {
            Some(s) => valid_utf8(content_bytes(json_input@)) && s@ == decode_utf8(
                content_bytes(json_input@),
            ),
            None => !valid_utf8(content_bytes(json_input@)),
        },
{
    let arr = convert_to_array_of_u8(json_input);
    match string_from_utf8(arr) {
        Some(_) => Some(convert_to_str(json_input)),
        None => None,
    }
}

/// The image that the content of a JSON message text encodes. The content must
/// be an image that the decoder reads.
pub fn convert_to_image(json_input: &str) -> (res: DecodedImage)
    requires
        decoded_image(content_bytes(json_input@)) is Some,
    ensures
        decoded_image(content_bytes(json_input@)) == Some(res.parts()),
        res.well_formed(),
{
    let bytes = convert_to_array_of_u8(json_input);
    decode_image(bytes.as_slice()).unwrap()
}

/// The image that the content of a JSON message text encodes, or `None` when
/// the content is no image that the decoder reads. The content is decoded
/// twice: once to test it, once by `convert_to_image`.
pub fn try_convert_to_image(json_input: &str) -> (res: Option<DecodedImage>)
    ensures
        match res {
            Some(img) => decoded_image(content_bytes(json_input@)) == Some(img.parts())
                && img.well_formed(),
            None => decoded_image(content_bytes(json_input@)) is None,
        },
{
    let bytes = convert_to_array_of_u8(json_input);
    match decode_image(bytes.as_slice()) {
        Some(_) => Some(convert_to_image(json_input)),
        None => None,
    }
}

/// The data URL of a PNG file: `data:image/png;base64,` and the file in base64.
pub fn data_url_for_png(png: &[u8]) -> (res: String)
    requires
        4 * ((png@.len() + 2) / 3) <= usize::MAX,
    ensures
        res@ == png_data_url(png@),
{
    let encoded = base64_encode(png);
    String::from_str("data:image/png;base64,").concat(encoded.as_str())
}

/// The image as a PNG data URL, the PNG in the image's own layout; `None` when
/// the PNG encoder fails or its file is too long for its base64 text to be held.
pub fn encode_image_to_base64(image: &DecodedImage) -> (res: Option<String>)
    requires
        image.well_formed(),
    ensures
        match png_encoding(image.width, image.height, image.samples@) {
            Some(png) => if 4 * ((png.len() + 2) / 3) <= usize::MAX {
                res matches Some(url) && url@ == png_data_url(png)
            } else {
                res is None
            },
            None => res is None,
        },
{
    let png = encode_png(image)?;
    let n: usize = png.len();
    let chunks: usize = if n % 3 == 0 { n / 3 } else { n / 3 + 1 };
    assert(chunks == (n + 2) / 3);
    if chunks > usize::MAX / 4 {
        return None;
    }
    Some(data_url_for_png(png.as_slice()))
}

/// The keyword of the card that a detected card code names: the code without its
/// `overlordcard/` prefix; empty when there is no code or it lacks the prefix.
pub open spec fn overlord_keyword(detected: Option<Seq<char>>) -> Seq<char> {
    match detected {
        Some(code) => match text_strip_prefix(code, "overlordcard/"@) {
            Some(keyword) => keyword,
            None => Seq::empty(),
        },
        None => Seq::empty(),
    }
}

/// The card keyword for a detected card code.
pub fn convert_to_overlord_card_keyword(maybe_ol_keyword: Option<String>) -> (res: String)
    ensures
        res@ == overlord_keyword(opt_text(maybe_ol_keyword)),
{
    match maybe_ol_keyword {
        Some(keyword) => match strip_prefix_text(keyword.as_str(), "overlordcard/") {
            Some(value) => value,
            None => String::new(),
        },
        None => String::new(),
    }
}

/// The texts that the dashboard shows for a card: name, effect and the two
/// tactics, in German.
#[derive(Debug, Clone)]
pub struct CardView {
    pub name: Option<String>,
    pub effect: Option<String>,
    pub overlord_tactic: Option<String>,
    pub heroes_tactic: Option<String>,
}

/// Each of the four texts is present and empty.
pub open spec fn blank_view(view: CardView) -> bool {
    &&& view.name matches Some(t) && t@ == Seq::<char>::empty()
    &&& view.effect matches Some(t) && t@ == Seq::<char>::empty()
    &&& view.overlord_tactic matches Some(t) && t@ == Seq::<char>::empty()
    &&& view.heroes_tactic matches Some(t) && t@ == Seq::<char>::empty()
}

/// The view holds the German texts of `card`.
pub open spec fn shows_card(view: CardView, card: OverlordCard) -> bool {
    match first_translation(card.translations@, Language::De) {
        Some(t) => {
            &&& view.name == Some(t.name)
            &&& view.effect == Some(t.effect)
            &&& view.overlord_tactic == t.overlord_tactic
            &&& view.heroes_tactic == t.heroes_tactic
        },
        None => {
            &&& view.name is None
            &&& view.effect is None
            &&& view.overlord_tactic is None
            &&& view.heroes_tactic is None
        },
    }
}

/// A view with four empty texts.
fn blank_card_view() -> (res: CardView)
    ensures
        blank_view(res),
{
    CardView {
        name: Some(String::new()),
        effect: Some(String::new()),
        overlord_tactic: Some(String::new()),
        heroes_tactic: Some(String::new()),
    }
}

/// What the dashboard shows for a detected card code: the German texts of the
/// card whose keyword the code names, or four empty texts when no card has that
/// keyword.
pub fn overlord_card_view(keywords_to_ol_cards: &OverlordCards, detected: Option<String>) -> (res:
    CardView)
    ensures
        ({
            let keyword = overlord_keyword(opt_text(detected));
            if keywords_to_ol_cards@.contains_key(keyword) {
                shows_card(res, keywords_to_ol_cards@[keyword])
            } else {
                blank_view(res)
            }
        }),
        ({
            let keyword = overlord_keyword(opt_text(detected));
            keywords_to_ol_cards@.contains_key(keyword) ==> match first_translation(
                keywords_to_ol_cards@[keyword].translations@,
                Language::De,
            ) {
                Some(t) => {
                    &&& res.name == Some(t.name)
                    &&& res.effect == Some(t.effect)
                    &&& res.overlord_tactic == t.overlord_tactic
                    &&& res.heroes_tactic == t.heroes_tactic
                },
                None => res.name is None && res.effect is None && res.overlord_tactic is None
                    && res.heroes_tactic is None,
            }
        }),
{
    let keyword = convert_to_overlord_card_keyword(detected);
    match keywords_to_ol_cards.get(keyword.as_str()) {
        Some(card) => CardView {
            name: card.translate_name(Language::De),
            effect: card.translate_effect(Language::De),
            overlord_tactic: card.translate_overlord_tactic(Language::De),
            heroes_tactic: card.translate_heroes_tactic(Language::De),
        },
        None => blank_card_view(),
    }
}

/// What the dashboard shows for a card that has a German translation: the
/// name, effect and both tactics of the first German translation that the card
/// lists, the heroes tactic included.
pub proof fn card_view_shows_the_first_german_translation(view: CardView, card: OverlordCard, i: int)
    requires
        shows_card(view, card),
        0 <= i < card.translations@.len(),
        card.translations@[i].language == Language::De,
        forall|j: int| 0 <= j < i ==> card.translations@[j].language != Language::De,
    ensures
        view.name == Some(card.translations@[i].name),
        view.effect == Some(card.translations@[i].effect),
        view.overlord_tactic == card.translations@[i].overlord_tactic,
        view.heroes_tactic == card.translations@[i].heroes_tactic,
{
    let ts = card.translations@;
    translation_found_is_first_listed(ts, Language::De);
    assert(ts[i].language == Language::De);
    let t = first_translation(ts, Language::De)->0;
    let k: int = choose|k: int|
        0 <= k < ts.len() && t == #[trigger] ts[k] && t.language == Language::De
            && forall|j: int| 0 <= j < k ==> ts[j].language != Language::De;
    if k < i {
        assert(ts[k].language != Language::De);
    }
    if i < k {
        assert(ts[i].language != Language::De);
    }
    assert(k == i);
}

/// What the dashboard shows for a card without a German translation: no text.
pub proof fn card_view_without_german_translation_is_empty(view: CardView, card: OverlordCard)
    requires
        shows_card(view, card),
        forall|j: int| 0 <= j < card.translations@.len() ==> card.translations@[j].language
            != Language::De,
    ensures
        view.name is None,
        view.effect is None,
        view.overlord_tactic is None,
        view.heroes_tactic is None,
{
    translation_found_is_first_listed(card.translations@, Language::De);
}

/// A message's content comes back from its JSON numbers: when the content array
/// holds each byte as its number, the bytes read from it are the bytes.
pub proof fn content_numbers_give_back_bytes(bytes: Seq<u8>)
    ensures
        numbers_to_bytes(bytes.map_values(|b: u8| Some(b as u64))) == bytes,
    decreases bytes.len(),
{
    if bytes.len() > 0 {
        let items = bytes.map_values(|b: u8| Some(b as u64));
        assert(items.drop_last() =~= bytes.drop_last().map_values(|b: u8| Some(b as u64)));
        content_numbers_give_back_bytes(bytes.drop_last());
        assert(numbers_to_bytes(items) =~= bytes);
    }
}

/// The dashboard finds the keyword that a card code carries: the code
/// `overlordcard/` followed by a keyword leads to that keyword.
pub proof fn keyword_of_card_code(keyword: Seq<char>)
    ensures
        overlord_keyword(Some("overlordcard/"@ + keyword)) == keyword,
{
    let prefix = "overlordcard/"@;
    let code = prefix + keyword;
    assert(code.subrange(0, prefix.len() as int) =~= prefix);
    assert(code.skip(prefix.len() as int) =~= keyword);
}

/// The base64 text of `n` bytes has four digits for every three bytes or part of
/// three bytes.
pub proof fn base64_length(b: Seq<u8>)
    ensures
        base64_standard(b).len() == 4 * ((b.len() + 2) / 3),
    decreases b.len(),
{
    if b.len() >= 3 {
        base64_length(b.skip(3));
    }
}

/// The dashboard reads back the card code that the detection service sent:
/// when a message's JSON holds, as its content numbers, the UTF-8 bytes of a
/// text, that content is valid UTF-8 and decodes to the text.
pub proof fn card_code_reaches_dashboard(code: Seq<char>, json: Seq<char>)
    requires
        json_content_numbers(json) == Some(encode_utf8(code).map_values(|b: u8| Some(b as u64))),
    ensures
        valid_utf8(content_bytes(json)),
        decode_utf8(content_bytes(json)) == code,
{
    content_numbers_give_back_bytes(encode_utf8(code));
    vstd::utf8::encode_utf8_valid_utf8(code);
    vstd::utf8::encode_utf8_decode_utf8(code);
}

} // verus!
