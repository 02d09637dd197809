use ordnet::word::{
    detect_word_group, get_prefixed_value, SubstantivGroup, Word, WordGroup, WordSource,
};

#[test]
fn can_detect_group() {
    assert_eq!(
        detect_word_group("substantiv, fælleskøn"),
        WordGroup::Substantiv(SubstantivGroup::Faelleskoen)
    );
    assert_eq!(
        detect_word_group("substantiv, intetkøn"),
        WordGroup::Substantiv(SubstantivGroup::Intetkoen)
    );
    assert_eq!(detect_word_group("verbum"), WordGroup::Verbum);
    assert_eq!(detect_word_group("adjektiv"), WordGroup::Adjektiv);
    assert_eq!(detect_word_group("adverbium"), WordGroup::Adverbium);
    assert_eq!(detect_word_group("unknown"), WordGroup::Ingen);
}

#[test]
fn can_get_prefixed_value() {
    assert_eq!(
        get_prefixed_value("word", &WordGroup::Substantiv(SubstantivGroup::Faelleskoen)),
        "en word"
    );
    assert_eq!(
        get_prefixed_value("word", &WordGroup::Substantiv(SubstantivGroup::Intetkoen)),
        "et word"
    );
}

#[test]
fn prefixes_follow_the_group_table() {
    assert_eq!(
        WordGroup::Substantiv(SubstantivGroup::Faelleskoen).get_prefix(),
        "en"
    );
    assert_eq!(
        WordGroup::Substantiv(SubstantivGroup::Intetkoen).get_prefix(),
        "et"
    );
    assert_eq!(WordGroup::Verbum.get_prefix(), "at");
    assert_eq!(WordGroup::Adjektiv.get_prefix(), "");
    assert_eq!(WordGroup::Adverbium.get_prefix(), "");
    assert_eq!(WordGroup::Ingen.get_prefix(), "");
    assert_eq!(get_prefixed_value("word", &WordGroup::Verbum), "at word");
    assert_eq!(get_prefixed_value("word", &WordGroup::Adverbium), "word");
    assert_eq!(get_prefixed_value("word", &WordGroup::Ingen), "word");
}

#[test]
fn classification_is_total_over_odd_texts() {
    assert_eq!(detect_word_group(""), WordGroup::Ingen);
    assert_eq!(detect_word_group(","), WordGroup::Ingen);
    assert_eq!(detect_word_group("  verbum  "), WordGroup::Verbum);
    assert_eq!(detect_word_group("udråbsord, verbum"), WordGroup::Verbum);
    assert_eq!(
        detect_word_group("substantiv, fælleskøn eller intetkøn"),
        WordGroup::Ingen
    );
    assert_eq!(
        detect_word_group("fælleskøn, verbum"),
        WordGroup::Substantiv(SubstantivGroup::Faelleskoen)
    );
}

fn sample_source(value: &str, group: &str) -> WordSource {
    WordSource {
        value: String::from(value),
        group: String::from(group),
        bending: String::from("-n"),
        pronunciation: String::from("[x]"),
        origin: String::from("origin text"),
        synonyms: vec![String::from("a"), String::from("b")],
        url: String::from("https://ordnet.dk"),
    }
}

#[test]
fn build_normalizes_a_common_gender_noun() {
    let word = Word::build(sample_source("hygge", "substantiv, fælleskøn"));
    assert_eq!(
        word.group,
        WordGroup::Substantiv(SubstantivGroup::Faelleskoen)
    );
    assert_eq!(word.value, "en hygge");
    assert_eq!(word.value_encoded, "en%20hygge");
    assert_eq!(word.source.value, "hygge");
    assert_eq!(word.source.group, "substantiv, fælleskøn");
    assert_eq!(word.source.bending, "-n");
    assert_eq!(word.source.pronunciation, "[x]");
    assert_eq!(word.source.origin, "origin text");
    assert_eq!(word.source.synonyms, vec!["a", "b"]);
    assert_eq!(word.source.url, "https://ordnet.dk");
}

#[test]
fn build_leaves_an_unrecognized_group_unprefixed() {
    let word = Word::build(sample_source("tak", "unknown"));
    assert_eq!(word.group, WordGroup::Ingen);
    assert_eq!(word.value, "tak");
    assert_eq!(word.value_encoded, "tak");
}

#[test]
fn encoding_percent_encodes_reserved_characters() {
    let word = Word::build(sample_source("så vidt", "verbum"));
    assert_eq!(word.value, "at så vidt");
    assert_eq!(word.value_encoded, urlencoding::encode("at så vidt"));
    assert_eq!(word.value_encoded, "at%20s%C3%A5%20vidt");
}

#[test]
fn normalizing_twice_reproduces_the_word() {
    let first = Word::build(sample_source("vokse", "verbum"));
    let again = Word::build(first.source);
    assert_eq!(again.value, first.value);
    assert_eq!(again.group, first.group);
    assert_eq!(again.value_encoded, first.value_encoded);
}
