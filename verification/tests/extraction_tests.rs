use ordnet::dsl_dk;
use ordnet::ordnet::{build_source, build_words};
use ordnet::word::{SubstantivGroup, Word, WordGroup};
use scraper::Html;

fn dsl_entry(value: &str, group: &str, phon: &str, synonyms: &[&str]) -> String {
    let synonym_links: String = synonyms
        .iter()
        .map(|s| format!("<a href=\"#\">{}</a>", s))
        .collect();
    format!(
        "<div class=\"ar\">\
           <div class=\"head\"><span class=\"k\">{}</span></div>\
           <span class=\"pos\">{}</span>\
           <span class=\"phon\">{}</span>\
           <div class=\"synonyms\"><span class=\"k\">{}</span></div>\
         </div>",
        value, group, phon, synonym_links
    )
}

#[test]
fn can_build_source_for_single_variant() {
    let url = "https://ws.dsl.dk/ddo";
    let body = dsl_entry(
        "desuden",
        "adverbium",
        "[desˈuːðən]",
        &["derudover", "desforuden", "ovenikøbet", "i øvrigt", "for resten"],
    );
    let document = Html::parse_document(&format!("<html><body>{}</body></html>", body));
    let word_sources = dsl_dk::build_word_sources(&document, url);

    assert_eq!(word_sources.len(), 1);
    let source = &word_sources[0];
    assert_eq!(source.value, "desuden");
    assert_eq!(source.group, "adverbium");
    assert_eq!(source.bending, "");
    assert_eq!(source.pronunciation, "[desˈuːðən]");
    assert_eq!(
        source.synonyms,
        vec!["derudover", "desforuden", "ovenikøbet", "i øvrigt", "for resten"]
    );
    assert_eq!(source.url, url);
}

#[test]
fn can_build_sources_for_multiple_variants() {
    let url = "https://ws.dsl.dk/ddo";
    let body = format!(
        "{}{}{}",
        dsl_entry("voks", "substantiv, fælleskøn eller intetkøn", "[ˈvʌgs]", &[]),
        dsl_entry("vokse1", "verbum", "[ˈvʌgsə]", &[]),
        dsl_entry("vokse2", "verbum", "[ˈvʌgsə]", &[])
    );
    let document = Html::parse_document(&format!("<html><body>{}</body></html>", body));
    let word_sources = dsl_dk::build_word_sources(&document, url);

    assert_eq!(word_sources.len(), 3);
    let expected = [
        ("voks", "substantiv, fælleskøn eller intetkøn", "[ˈvʌgs]"),
        ("vokse1", "verbum", "[ˈvʌgsə]"),
        ("vokse2", "verbum", "[ˈvʌgsə]"),
    ];
    for (source, (value, group, phon)) in word_sources.iter().zip(expected.iter()) {
        assert_eq!(&source.value, value);
        assert_eq!(&source.group, group);
        assert_eq!(source.bending, "");
        assert_eq!(&source.pronunciation, phon);
        assert_eq!(source.url, url);
    }
}

#[test]
fn multi_entry_fields_stay_in_their_block() {
    let url = "https://ws.dsl.dk/ddo";
    let body = format!(
        "{}{}",
        dsl_entry("voks", "substantiv, fælleskøn", "[ˈvʌgs]", &["stearin"]),
        dsl_entry("vokse1", "verbum", "[ˈvʌgsə]", &["gro", "tiltage"])
    );
    let document = Html::parse_document(&format!("<html><body>{}</body></html>", body));
    let word_sources = dsl_dk::build_word_sources(&document, url);

    assert_eq!(word_sources.len(), 2);
    assert_eq!(word_sources[0].value, "voks");
    assert_eq!(word_sources[0].synonyms, vec!["stearin"]);
    assert_eq!(word_sources[1].value, "vokse1");
    assert_eq!(word_sources[1].synonyms, vec!["gro", "tiltage"]);
}

#[test]
fn multi_entry_document_yields_one_word_per_block() {
    let url = "https://ws.dsl.dk/ddo";
    let body = format!(
        "{}{}{}",
        dsl_entry("voks", "substantiv, fælleskøn eller intetkøn", "[ˈvʌgs]", &[]),
        dsl_entry("vokse1", "verbum", "[ˈvʌgsə]", &[]),
        dsl_entry("vokse2", "verbum", "[ˈvʌgsə]", &[])
    );
    let document = Html::parse_document(&format!("<html><body>{}</body></html>", body));
    let words: Vec<Word> = dsl_dk::build_words(&document, url);

    assert_eq!(words.len(), 3);
    assert_eq!(words[0].group, WordGroup::Ingen);
    assert_eq!(words[0].value, "voks");
    assert_eq!(words[1].group, WordGroup::Verbum);
    assert_eq!(words[1].value, "at vokse1");
    assert_eq!(words[2].group, WordGroup::Verbum);
    assert_eq!(words[2].value, "at vokse2");
}

#[test]
fn a_document_without_entries_yields_no_records() {
    let document = Html::parse_document("<html><body><p>nothing here</p></body></html>");
    let word_sources = dsl_dk::build_word_sources(&document, "https://ws.dsl.dk/ddo");
    assert!(word_sources.is_empty());
}

#[test]
fn single_entry_adverb_ends_unprefixed() {
    let url = "https://ws.dsl.dk/ddo";
    let body = dsl_entry("desuden", "adverbium", "[desˈuːðən]", &[]);
    let document = Html::parse_document(&format!("<html><body>{}</body></html>", body));
    let words = dsl_dk::build_words(&document, url);

    assert_eq!(words.len(), 1);
    assert_eq!(words[0].source.value, "desuden");
    assert_eq!(words[0].source.group, "adverbium");
    assert_eq!(words[0].group, WordGroup::Adverbium);
    assert_eq!(words[0].value, "desuden");
}

fn ordnet_fragment() -> Html {
    Html::parse_document(
        "<html><body><div class=\"artikel\">\
           <span class=\"match\">hygge<span class=\"super\">1</span></span>\
           <div class=\"definitionBoxTop\"><span class=\"tekstmedium\">substantiv, fælleskøn</span></div>\
           <div id=\"id-boj\"><span class=\"tekstmedium\">-n</span></div>\
           <div id=\"id-udt\"><span class=\"tekstmedium\">[ˈhygə]</span></div>\
           <div id=\"id-ety\"><span class=\"tekstmedium\">dannet af hygge</span></div>\
         </div></body></html>",
    )
}

#[test]
fn can_build_source() {
    let url = "https://ordnet.dk";
    let document = ordnet_fragment();
    let word_source = build_source(&document, url);

    assert_eq!(word_source.value, "hygge");
    assert_eq!(word_source.group, "substantiv, fælleskøn");
    assert_eq!(word_source.bending, "-n");
    assert_eq!(word_source.pronunciation, "[ˈhygə]");
    assert_eq!(word_source.origin, "dannet af hygge");
    assert!(word_source.synonyms.is_empty());
    assert_eq!(word_source.url, url);
}

#[test]
fn can_build_word() {
    let url = "https://ordnet.dk";
    let document = ordnet_fragment();
    let word_source = build_source(&document, url);
    let parsed_word = Word::build(word_source);

    assert_eq!(parsed_word.source.value, "hygge");
    assert_eq!(parsed_word.source.group, "substantiv, fælleskøn");
    assert_eq!(parsed_word.source.bending, "-n");
    assert_eq!(parsed_word.source.pronunciation, "[ˈhygə]");
    assert_eq!(parsed_word.source.origin, "dannet af hygge");
    assert_eq!(parsed_word.source.url, url);
    assert_eq!(parsed_word.value, "en hygge");
    assert_eq!(
        parsed_word.group,
        WordGroup::Substantiv(SubstantivGroup::Faelleskoen)
    );
}

#[test]
fn headword_markers_are_stripped() {
    let url = "https://ordnet.dk";
    let document = Html::parse_document(
        "<html><body><div class=\"artikel\">\
           <span class=\"match\">vokse<span class=\"super\">1</span></span>\
         </div></body></html>",
    );
    let word_source = build_source(&document, url);
    assert_eq!(word_source.value, "vokse");
    assert_eq!(word_source.group, "");
    assert_eq!(word_source.origin, "");
}

#[test]
fn ordnet_always_yields_exactly_one_word() {
    let url = "https://ordnet.dk";
    let document = ordnet_fragment();
    let words = build_words(&document, url);
    assert_eq!(words.len(), 1);
    assert_eq!(words[0].value, "en hygge");
}
