use cyrillify::engine::transcribe_word_segment;
use cyrillify::casing::{reapply_case, record_case, Case};
use cyrillify::handler::{cirillify_word, cyrillify};
use cyrillify::rules::{compile_rules, derive_search_rules, Fold, RuleError, RuleSet, SearchRules};
use cyrillify::text::concat_range;
use cyrillify::transcriber::{TranscriberEnum, TranscriberTrait};

fn expected_for(lang: &str) -> Vec<(&'static str, &'static str)> {
    match lang {
        "Тайский" => vec![("A", "А")],
        "Бирманский" => vec![
        ("Sao Shwe Thaik", "Сао Шве Тай"),
        ("Ba U", "Ба У"),
        ("Win Maung", "Вин Маун"),
        ("Ne Win", "Не Вин"),
        ("San Yu", "Сан Ю"),
        ("Sein Lwin", "Сейн Лвин"),
        ("Maung Maung", "Маун Маун"),
        ("Thein Sein", "Тейн Сейн"),
        ("Htin Kyaw", "Тхин Чжо"),
        ("U Nu", "У Ну"),
        ("Ne Win", "Не Вин"),
        ("Sein Win", "Сейн Вин"),
        ("Maung Maung Kha", "Маун Маун Кха"),
        ("Tun Tin", "Тун Тин"),
        ("Saw Maung", "Со Маун"),
        ("Than Shwe", "Тан Шве"),
        ("Khin Nyunt", "Кхин Ньюн"),
        ("Soe Win", "Со Вин"),
        ("Thein Sein", "Тейн Сейн"),
        ("Min Aung Hlaing", "Мин Аун Хлайн"),
        ("Nyo Saw", "Нью Со"),
        ("Bo Let Ya", "Бо Лет Я"),
        ("Kyaw Nyein", "Чжо Ньейн"),
        ("Ne Win", "Не Вин"),
        ("Sao Hkun Hkio", "Сао Кхун Кхио"),
        ("Thein Maung", "Тейн Маун"),
        ("Lun Baw", "Лун Бо"),
        ("U Lwin", "У Лвин"),
        ("Tun Tin", "Тун Тин"),
        ("Thura Kyaw Htin", "Тура Чжо Тхин"),
        ("Than Shwe", "Тан Шве"),
        ("Khin Maung Yin", "Кхин Маун Йин"),
        ("Maung Maung Khin", "Маун Маун Кхин"),
        ("Tun Tin", "Тун Тин"),
        ("Tin Hla", "Тин Хла"),
        ("Soe Win", "Со Вин"),
        ("Mya Tun Oo", "Мья Тун У"),
        ("Tin Aung San", "Тин Аун Сан"),
        ("Win Shein", "Вин Шейн"),
        ("Than Swe", "Тан Шве"),
        ("Maung Maung Aye", "Маун Маун Э"),
        ("Tin Aung Myint Oo", "Тин Аун Мьин У"),
        ("Sai Mauk Kham", "Сайн Мау Кхам"),
        ("Nyan Tun", "Ньян Тун"),
        ("Myint Swe", "Мьин Шве"),
        ("Saw Maung", "Со Маун"),
        ("Maung Aye", "Маун Э"),
        ("Hkun Law", "Кхун Ло"),
        ("Myanmar", "Мьянма"),
        ("Mee-Bone-Pyan U Kyaw Yin", "Ми-Бон-Пьян У Чжо Йин"),
        ("Daw Kin Win Shwe", "До Кин Вин Шве"),
        ("Hain", "Хайн"),
        ("Hoke", "Хоу"),
        ],
        _ => vec![],
    }
}

fn rules(entries: &[(&str, &str)], fold: Fold) -> RuleSet {
    compile_rules(entries, fold).unwrap()
}

#[test]
fn test_langs() {
    for transcriber in TranscriberEnum::all().unwrap() {
        let lang = transcriber.get_lang_name();
        for (from, to) in expected_for(lang) {
            let result = transcriber.transcribe(from);
            assert_eq!(result, to, "'{}': '{}' -> '{}', wrong transcription '{:?}'", lang, from, to, result);
        }
    }
}

#[test]
fn languages_in_order() {
    let all = TranscriberEnum::all().unwrap();
    let names: Vec<&str> = all.iter().map(|t| t.get_lang_name()).collect();
    assert_eq!(names, vec!["Тайский", "Бирманский", "Вьетнамский"]);
}

#[test]
fn language_metadata() {
    let all = TranscriberEnum::all().unwrap();
    assert_eq!(
        all[0].get_search_rules(),
        SearchRules { max_key_len: 3, prefix_start: false, postfix_end: false }
    );
    assert_eq!(
        all[1].get_search_rules(),
        SearchRules { max_key_len: 5, prefix_start: true, postfix_end: true }
    );
    assert_eq!(
        all[2].get_search_rules(),
        SearchRules { max_key_len: 5, prefix_start: true, postfix_end: true }
    );
}

#[test]
fn vietnamese_names() {
    let all = TranscriberEnum::all().unwrap();
    assert_eq!(all[2].transcribe("Nguyen"), "Нгуиен");
    assert_eq!(all[2].transcribe("Trang"), "Чанг");
}

#[test]
fn word_without_case_handling() {
    let all = TranscriberEnum::all().unwrap();
    assert_eq!(all[1].transcribe_word("KYAW"), "ЧЖО");
    assert_eq!(all[1].transcribe_word("kyaw"), "kyaw");
}

#[test]
fn transcription_is_deterministic() {
    let all = TranscriberEnum::all().unwrap();
    let a = all[1].transcribe("Aung San Suu Kyi");
    let b = all[1].transcribe("Aung San Suu Kyi");
    assert_eq!(a, b);
}

#[test]
fn empty_input_gives_empty_output() {
    for t in TranscriberEnum::all().unwrap() {
        assert_eq!(t.transcribe(""), "");
    }
}

#[test]
fn non_alphabetic_text_is_kept_in_place() {
    let all = TranscriberEnum::all().unwrap();
    assert_eq!(all[1].transcribe("Ba-U, 1990 (Ne Win)!"), "Ба-У, 1990 (Не Вин)!");
    assert_eq!(all[0].transcribe(" -- 42 -- "), " -- 42 -- ");
}

#[test]
fn longest_match_beats_prefix() {
    let rs = rules(&[("C", "К"), ("CH", "Ч"), ("A", "А"), ("N", "Н"), ("H", "Х")], Fold::Upper);
    assert_eq!(cyrillify("CHAN", &rs), "ЧАН");
    assert_eq!(cyrillify("HAC", &rs), "ХАК");
}

#[test]
fn start_anchor_takes_precedence_at_word_start() {
    let rs = rules(&[("|KY", "ЧЖ"), ("KY", "Ч"), ("A", "А")], Fold::Upper);
    assert_eq!(cyrillify("KYAKY", &rs), "ЧЖАЧ");
    assert_eq!(cyrillify("AKY", &rs), "АЧ");
}

#[test]
fn end_anchor_applies_only_at_word_end() {
    let rs = rules(&[("NG|", "Н"), ("N", "Н"), ("G", "Г"), ("A", "А")], Fold::Upper);
    assert_eq!(cyrillify("NGANG", &rs), "НГАН");
}

#[test]
fn whole_word_rule_before_single_anchors() {
    let rs = rules(&[("|SAI|", "САЙН"), ("|SAI", "СА"), ("S", "С"), ("A", "А"), ("I", "И")], Fold::Upper);
    assert_eq!(cyrillify("SAI", &rs), "САЙН");
    assert_eq!(cyrillify("SAIS", &rs), "САС");
}

#[test]
fn start_rule_is_not_used_after_a_copied_cluster() {
    let rs = rules(&[("|A", "Я"), ("A", "А")], Fold::Upper);
    assert_eq!(cyrillify("QA", &rs), "QА");
}

#[test]
fn case_round_trip() {
    let rs = rules(&[("name", "имя")], Fold::Lower);
    assert_eq!(cyrillify("name", &rs), "имя");
    assert_eq!(cyrillify("Name", &rs), "Имя");
    assert_eq!(cyrillify("NAME", &rs), "ИМЯ");
    assert_eq!(cyrillify("nAmE", &rs), "Имя");
}

#[test]
fn unmatched_text_passes_through() {
    let rs = rules(&[("Q", "К")], Fold::Upper);
    assert_eq!(cyrillify("Hello, world!", &rs), "Hello, world!");
    assert_eq!(cyrillify("Привет", &rs), "Привет");
}

#[test]
fn concrete_scenario_aing() {
    let rs = rules(&[("A", "А"), ("I", "И"), ("NG|", "Н"), ("N", "Н")], Fold::Upper);
    assert_eq!(cirillify_word("AING", &rs), "АИН");
    assert_eq!(cyrillify("Aing", &rs), "Аин");
}

#[test]
fn combining_marks_stay_with_their_letter() {
    let marked = rules(&[("E\u{301}", "Э"), ("B", "Б")], Fold::Upper);
    assert_eq!(cirillify_word("BE\u{301}B", &marked), "БЭБ");
    let rs = rules(&[("E", "Е")], Fold::Upper);
    assert_eq!(cyrillify("E\u{301}", &rs), "E\u{301}");
    assert_eq!(cyrillify("E", &rs), "Е");
}

#[test]
fn empty_pattern_is_rejected() {
    assert_eq!(compile_rules(&[("A", "А"), ("|", "Х")], Fold::Upper).err(), Some(RuleError::EmptyPattern(1)));
    assert_eq!(compile_rules(&[("||", "Х"), ("", "")], Fold::Upper).err(), Some(RuleError::EmptyPattern(0)));
    assert!(compile_rules(&[], Fold::Upper).is_ok());
}

#[test]
fn search_rules_are_derived() {
    let r = derive_search_rules(&[("|GI|", "ЗИ"), ("CHUYÊ", "ТЮЕ"), ("A", "А")]);
    assert_eq!(r, SearchRules { max_key_len: 5, prefix_start: true, postfix_end: true });
    let r = derive_search_rules(&[("E\u{301}X", "ЭКС"), ("AB|", "АБ")]);
    assert_eq!(r, SearchRules { max_key_len: 2, prefix_start: false, postfix_end: true });
    let r = derive_search_rules(&[]);
    assert_eq!(r, SearchRules { max_key_len: 0, prefix_start: false, postfix_end: false });
}

#[test]
fn case_is_recorded() {
    assert_eq!(record_case("name"), Case::Lower);
    assert_eq!(record_case("Name"), Case::Title);
    assert_eq!(record_case("NAME"), Case::Upper);
    assert_eq!(record_case("nAmE"), Case::Mixed);
    assert_eq!(record_case("NAmE"), Case::Mixed);
    assert_eq!(record_case("A"), Case::Title);
}

#[test]
fn case_is_reapplied() {
    assert_eq!(reapply_case("ИМЯ", Case::Lower), "имя");
    assert_eq!(reapply_case("имя", Case::Upper), "ИМЯ");
    assert_eq!(reapply_case("ИМЯ", Case::Title), "Имя");
    assert_eq!(reapply_case("иМЯ", Case::Mixed), "Имя");
    assert_eq!(reapply_case("", Case::Title), "");
}

#[test]
fn ranges_are_concatenated() {
    let g = vec!["a\u{301}".to_string(), "b".to_string(), "\r\n".to_string()];
    assert_eq!(concat_range(&g, 0, 3), "a\u{301}b\r\n");
    assert_eq!(concat_range(&g, 1, 2), "b");
}

#[test]
fn vietnamese_table_lookups() {
    let all = TranscriberEnum::all().unwrap();
    assert_eq!(all[2].transcribe_word("CHIA"), "ТЬЯ");
    assert_eq!(all[2].transcribe_word("NGH"), "НГ");
    assert_eq!(all[2].transcribe_word("CHUYÊ"), "ТЮЕ");
    assert_eq!(all[2].transcribe_word("Q"), "Q");
}

#[test]
fn word_segment_lookup_follows_anchor_precedence() {
    let rs = rules(&[("KY", "Ч"), ("|KY", "ЧЖ"), ("A", "А")], Fold::Upper);
    let word = vec!["K".to_string(), "Y".to_string(), "A".to_string()];
    assert_eq!(transcribe_word_segment(&rs, &word, 0, 2), Some(1));
    assert_eq!(transcribe_word_segment(&rs, &word, 1, 3), None);
    assert_eq!(transcribe_word_segment(&rs, &word, 2, 3), Some(2));
}
