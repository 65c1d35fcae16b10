use std::sync::Arc;

use sudachi_ffi::array::marshal_morphemes;
use sudachi_ffi::array::sudachi_free_tokens;
use sudachi_ffi::handle::sudachi_free_tokenizer;
use sudachi_ffi::handle::SudachiTokenizer;
use sudachi_ffi::mode::Mode;
use sudachi_ffi::mode::SudachiTokenMode;
use sudachi_ffi::morpheme::Morpheme;
use sudachi_ffi::text::CText;
use sudachi_ffi::token::build_token;
use sudachi_ffi::token::marshal_morpheme;
use sudachi_ffi::token::narrow_offset;
use sudachi_ffi::token::pos_field;
use sudachi_ffi::token::sudachi_free_token;
use sudachi_ffi::token::text_field;
use sudachi_ffi::token::SudachiToken;
use sudachi_ffi::tokenize::complete_tokenize;
use sudachi_ffi::tokenize::sudachi_tokenize;
use sudachi_ffi::tokenize::AnalysisRequest;

fn handle() -> SudachiTokenizer<u32, u8> {
    SudachiTokenizer::new(Arc::new(7), 3)
}

fn morpheme(surface: &str, reading: &str, tags: &[&str], begin: usize, end: usize) -> Morpheme {
    Morpheme {
        surface: String::from(surface),
        reading_form: String::from(reading),
        dictionary_form: String::from(surface),
        normalized_form: String::from(surface),
        part_of_speech: tags.iter().map(|t| String::from(*t)).collect(),
        begin,
        end,
    }
}

fn c_text(text: &str) -> Option<CText> {
    Some(CText::new(text).unwrap())
}

/// What an engine answers for "東京都に行く" in medium units.
fn tokyo_answer() -> Vec<Morpheme> {
    vec![
        morpheme("東京都", "トウキョウト", &["名詞", "固有名詞", "地名", "一般", "*", "*"], 0, 9),
        morpheme("に", "ニ", &["助詞", "格助詞", "*", "*", "*", "*"], 9, 12),
        morpheme("行く", "イク", &["動詞", "非自立可能", "*", "*", "五段-カ行", "終止形-一般"], 12, 18),
    ]
}

#[test]
fn test_basic_ffi() {
    let tokenizer = handle();
    let mut count = 0usize;
    let request = sudachi_tokenize(Some(&tokenizer), Some(b"abc"), SudachiTokenMode::B, Some(&mut count));
    assert!(request.is_some());
    let tokens = complete_tokenize(Some(vec![morpheme("abc", "abc", &["名詞"], 0, 3)]), &mut count);
    assert_eq!(count, 1);
    sudachi_free_tokens(tokens);
    sudachi_free_tokenizer(Some(Box::new(tokenizer)));
}

#[test]
fn tokenize_asks_the_engine_for_the_whole_decoded_text() {
    let tokenizer = handle();
    let mut count = 5usize;
    let text = "東京都に行く".as_bytes();
    let request = sudachi_tokenize(Some(&tokenizer), Some(text), SudachiTokenMode::B, Some(&mut count));
    assert_eq!(
        request,
        Some(AnalysisRequest { text: String::from("東京都に行く"), mode: Mode::B, split_sentences: false })
    );
    assert_eq!(count, 5);
}

#[test]
fn tokenize_maps_each_mode() {
    let tokenizer = handle();
    for (mode, expected) in
        [(SudachiTokenMode::A, Mode::A), (SudachiTokenMode::B, Mode::B), (SudachiTokenMode::C, Mode::C)]
    {
        let mut count = 0usize;
        let request = sudachi_tokenize(Some(&tokenizer), Some(b"a"), mode, Some(&mut count)).unwrap();
        assert_eq!(request.mode, expected);
        assert!(!request.split_sentences);
    }
}

#[test]
fn tokenize_with_a_null_handle_returns_null() {
    let mut count = 9usize;
    let request =
        sudachi_tokenize::<u32, u8>(None, Some(b"text"), SudachiTokenMode::B, Some(&mut count));
    assert_eq!(request, None);
    assert_eq!(count, 9);
}

#[test]
fn tokenize_with_a_null_text_returns_null() {
    let tokenizer = handle();
    let mut count = 9usize;
    let request = sudachi_tokenize(Some(&tokenizer), None, SudachiTokenMode::A, Some(&mut count));
    assert_eq!(request, None);
    assert_eq!(count, 9);
}

#[test]
fn tokenize_with_a_null_count_returns_null() {
    let tokenizer = handle();
    let request = sudachi_tokenize(Some(&tokenizer), Some(b"text"), SudachiTokenMode::C, None);
    assert_eq!(request, None);
    let nothing = sudachi_tokenize::<u32, u8>(None, None, SudachiTokenMode::C, None);
    assert_eq!(nothing, None);
}

#[test]
fn tokenize_refuses_text_that_is_not_utf8_with_a_zero_count() {
    let tokenizer = handle();
    let mut count = 9usize;
    let request =
        sudachi_tokenize(Some(&tokenizer), Some(&[b'a', 0xff, b'b']), SudachiTokenMode::B, Some(&mut count));
    assert_eq!(request, None);
    assert_eq!(count, 0);
}

#[test]
fn tokenize_accepts_an_empty_text() {
    let tokenizer = handle();
    let mut count = 9usize;
    let request = sudachi_tokenize(Some(&tokenizer), Some(b""), SudachiTokenMode::B, Some(&mut count));
    assert_eq!(request, Some(AnalysisRequest { text: String::new(), mode: Mode::B, split_sentences: false }));
    let tokens = complete_tokenize(Some(Vec::new()), &mut count);
    assert_eq!(tokens, Some(Vec::new()));
    assert_eq!(count, 0);
}

#[test]
fn an_engine_failure_gives_null_and_a_zero_count() {
    let mut count = 9usize;
    assert_eq!(complete_tokenize(None, &mut count), None);
    assert_eq!(count, 0);
}

#[test]
fn a_short_text_with_a_compound_word_in_medium_units() {
    let tokenizer = handle();
    let text = "東京都に行く";
    let mut count = 0usize;
    let request =
        sudachi_tokenize(Some(&tokenizer), Some(text.as_bytes()), SudachiTokenMode::B, Some(&mut count))
            .unwrap();
    assert_eq!(request.text, text);
    let tokens = complete_tokenize(Some(tokyo_answer()), &mut count).unwrap();
    assert!(count >= 1);
    assert_eq!(count, 3);
    assert_eq!(tokens.len(), count);
    let first = tokens.first().unwrap().as_ref().unwrap();
    let last = tokens.last().unwrap().as_ref().unwrap();
    assert_eq!(first.begin, 0);
    assert_eq!(last.end as usize, text.len());
    for slot in &tokens {
        let t = slot.as_ref().unwrap();
        assert!(
            t.surface.is_some()
                || t.reading.is_some()
                || t.dictionary_form.is_some()
                || t.normalized_form.is_some()
                || t.pos.is_some()
        );
        assert!(t.surface.is_some());
    }
    sudachi_free_tokens(Some(tokens));
}

#[test]
fn a_record_holds_every_field_of_its_morpheme() {
    let m = Morpheme {
        surface: String::from("行っ"),
        reading_form: String::from("イッ"),
        dictionary_form: String::from("行く"),
        normalized_form: String::from("行く"),
        part_of_speech: vec![String::from("動詞"), String::from("一般")],
        begin: 12,
        end: 18,
    };
    let expected = SudachiToken {
        surface: c_text("行っ"),
        reading: c_text("イッ"),
        dictionary_form: c_text("行く"),
        normalized_form: c_text("行く"),
        pos: c_text("[\"動詞\",\"一般\"]"),
        begin: 12,
        end: 18,
    };
    assert_eq!(marshal_morpheme(&m), Some(expected));
}

#[test]
fn tags_are_written_as_a_json_array() {
    let m = morpheme("a", "a", &["名詞", "普通名詞", "一般", "*", "*", "*"], 0, 1);
    let token = marshal_morpheme(&m).unwrap();
    let mut expected = "[\"名詞\",\"普通名詞\",\"一般\",\"*\",\"*\",\"*\"]".as_bytes().to_vec();
    expected.push(0);
    assert_eq!(token.pos.unwrap().into_bytes_with_nul(), expected);
    let none = marshal_morpheme(&morpheme("a", "a", &[], 0, 1)).unwrap();
    assert_eq!(none.pos, c_text("[]"));
    let quoted = marshal_morpheme(&morpheme("a", "a", &["a\"b\\c"], 0, 1)).unwrap();
    assert_eq!(quoted.pos, c_text("[\"a\\\"b\\\\c\"]"));
}

#[test]
fn a_zero_byte_in_a_tag_is_escaped_by_the_serializer() {
    let token = marshal_morpheme(&morpheme("a", "a", &["x\0y"], 0, 1)).unwrap();
    assert_eq!(token.pos, c_text("[\"x\\u0000y\"]"));
}

#[test]
fn a_morpheme_whose_surface_has_a_zero_byte_is_dropped() {
    assert_eq!(marshal_morpheme(&morpheme("a\0b", "x", &["名詞"], 0, 3)), None);
    let answer = vec![
        morpheme("前", "マエ", &["名詞"], 0, 3),
        morpheme("\0", "", &["記号"], 3, 4),
        morpheme("後", "アト", &["名詞"], 4, 7),
    ];
    let mut count = 0usize;
    let tokens = complete_tokenize(Some(answer), &mut count).unwrap();
    assert_eq!(count, 2);
    assert_eq!(tokens.len(), 2);
    assert_eq!(tokens[0].as_ref().unwrap().surface, c_text("前"));
    assert_eq!(tokens[1].as_ref().unwrap().surface, c_text("後"));
    assert_eq!(tokens[1].as_ref().unwrap().begin, 4);
}

#[test]
fn a_zero_byte_in_another_field_empties_that_field_only() {
    let mut m = morpheme("表層", "ヨミ", &["名詞"], 0, 6);
    m.reading_form = String::from("ヨ\0ミ");
    let token = marshal_morpheme(&m).unwrap();
    assert_eq!(token.surface, c_text("表層"));
    assert_eq!(token.reading, None);
    assert_eq!(token.dictionary_form, c_text("表層"));
    assert_eq!(token.normalized_form, c_text("表層"));
    assert_eq!(token.pos, c_text("[\"名詞\"]"));

    let mut m = morpheme("表層", "ヨミ", &["名詞"], 0, 6);
    m.dictionary_form = String::from("\0");
    m.normalized_form = String::from("n\0");
    let token = marshal_morpheme(&m).unwrap();
    assert_eq!(token.reading, c_text("ヨミ"));
    assert_eq!(token.dictionary_form, None);
    assert_eq!(token.normalized_form, None);
}

#[test]
fn a_failed_serialization_empties_the_tag_field_only() {
    let m = morpheme("表層", "ヨミ", &["名詞"], 0, 6);
    let token = build_token(&m, None).unwrap();
    assert_eq!(token.surface, c_text("表層"));
    assert_eq!(token.reading, c_text("ヨミ"));
    assert_eq!(token.pos, None);
    let token = build_token(&m, Some(String::from("[\"名詞\"]"))).unwrap();
    assert_eq!(token.pos, c_text("[\"名詞\"]"));
    let token = build_token(&m, Some(String::from("a\0b"))).unwrap();
    assert_eq!(token.pos, None);
    assert_eq!(build_token(&morpheme("\0", "", &[], 0, 1), Some(String::from("[]"))), None);
}

#[test]
fn field_helpers_follow_the_text() {
    assert_eq!(text_field(&String::from("abc")), c_text("abc"));
    assert_eq!(text_field(&String::from("a\0")), None);
    assert_eq!(pos_field(Some(String::from("[]"))), c_text("[]"));
    assert_eq!(pos_field(Some(String::from("\0"))), None);
    assert_eq!(pos_field(None), None);
}

#[test]
fn offsets_that_fit_are_kept() {
    assert_eq!(narrow_offset(0), 0);
    assert_eq!(narrow_offset(18), 18);
    assert_eq!(narrow_offset(2147483647), i32::MAX);
}

#[test]
fn an_offset_that_does_not_fit_keeps_its_low_32_bits() {
    assert_eq!(narrow_offset(2147483648), i32::MIN);
    assert_eq!(narrow_offset(4294967295), -1);
    assert_eq!(narrow_offset(4294967296), 0);
    assert_eq!(narrow_offset(4294967301), 5);
}

#[test]
fn spans_beyond_the_32_bit_field_lose_their_order() {
    let m = morpheme("a", "a", &[], 2147483647, 2147483648);
    let token = marshal_morpheme(&m).unwrap();
    assert_eq!(token.begin, i32::MAX);
    assert_eq!(token.end, i32::MIN);
    assert!(token.begin > token.end);
}

#[test]
fn records_keep_the_engine_order_and_spans() {
    let tokens = marshal_morphemes(&tokyo_answer());
    let spans: Vec<(i32, i32)> =
        tokens.iter().map(|t| (t.as_ref().unwrap().begin, t.as_ref().unwrap().end)).collect();
    assert_eq!(spans, vec![(0, 9), (9, 12), (12, 18)]);
    for span in &spans {
        assert!(span.0 <= span.1);
    }
    for pair in spans.windows(2) {
        assert!(pair[0].1 <= pair[1].0);
    }
    let surfaces: Vec<Option<CText>> =
        tokens.iter().map(|t| t.as_ref().unwrap().surface.clone()).collect();
    assert_eq!(surfaces, vec![c_text("東京都"), c_text("に"), c_text("行く")]);
}

#[test]
fn tokenizing_again_after_release_gives_an_equal_result() {
    let tokenizer = handle();
    let text = "東京都に行く".as_bytes();
    let mut first_count = 0usize;
    let first_request =
        sudachi_tokenize(Some(&tokenizer), Some(text), SudachiTokenMode::B, Some(&mut first_count));
    let first = complete_tokenize(Some(tokyo_answer()), &mut first_count).unwrap();
    let kept = first.clone();
    for slot in first {
        sudachi_free_token(slot);
    }
    let mut second_count = 0usize;
    let second_request =
        sudachi_tokenize(Some(&tokenizer), Some(text), SudachiTokenMode::B, Some(&mut second_count));
    let second = complete_tokenize(Some(tokyo_answer()), &mut second_count).unwrap();
    assert_eq!(first_request, second_request);
    assert_eq!(first_count, second_count);
    assert_eq!(kept, second);
    sudachi_free_tokens(Some(second));
    sudachi_free_tokens(Some(kept));
}

#[test]
fn releasing_an_empty_array_does_nothing() {
    sudachi_free_tokens(Some(Vec::new()));
}

#[test]
fn releasing_null_does_nothing() {
    sudachi_free_tokens(None);
    sudachi_free_token(None);
    sudachi_free_tokenizer::<u32, u8>(None);
}

#[test]
fn releasing_an_array_skips_empty_slots() {
    let mut tokens = marshal_morphemes(&tokyo_answer());
    tokens.insert(1, None);
    tokens.push(None);
    sudachi_free_tokens(Some(tokens));
}

#[test]
fn releasing_a_record_skips_absent_fields() {
    let bare = SudachiToken {
        surface: None,
        reading: None,
        dictionary_form: None,
        normalized_form: None,
        pos: None,
        begin: 0,
        end: 0,
    };
    sudachi_free_token(Some(Box::new(bare)));
    let partial = SudachiToken {
        surface: c_text("表層"),
        reading: None,
        dictionary_form: c_text("表層"),
        normalized_form: None,
        pos: None,
        begin: 0,
        end: 6,
    };
    sudachi_free_token(Some(Box::new(partial)));
}

#[test]
fn a_handle_gives_access_to_what_it_owns() {
    let dictionary = Arc::new(41u32);
    let tokenizer = SudachiTokenizer::new(dictionary.clone(), 5u8);
    assert_eq!(**tokenizer.dictionary(), 41);
    assert_eq!(*tokenizer.tokenizer(), 5);
    assert_eq!(Arc::strong_count(&dictionary), 2);
    sudachi_free_tokenizer(Some(Box::new(tokenizer)));
    assert_eq!(Arc::strong_count(&dictionary), 1);
}
