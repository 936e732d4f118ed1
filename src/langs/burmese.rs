//! Burmese names, romanised after the Myanmar Language Commission system.

use crate::handler::{cirillify_word, cyrillify};
use crate::rules::{
    compile_rules, core_text, entry_views, table_of, Fold, RuleError, RuleSet, RuleSetView,
    SearchRules,
};
use crate::transcriber::TranscriberTrait;
use vstd::prelude::*;

verus! {

/// The rule table, in upper case: `(pattern, replacement)` texts.
pub open spec fn lang_entries() -> Seq<(Seq<char>, Seq<char>)> {
    seq![
        // All names are from wikipedia.org/wiki/name_name
        // ===================================================================
        //  LETTERS
        // ===================================================================
        ("A"@, "А"@), ("B"@, "Б"@), ("C"@, "К"@), ("D"@, "Д"@), ("E"@, "Е"@),
        ("F"@, "Ф"@), ("G"@, "Г"@), ("H"@, "Х"@), ("I"@, "И"@), ("J"@, "ДЖ"@),
        ("K"@, "К"@), ("L"@, "Л"@), ("M"@, "М"@), ("N"@, "Н"@), ("O"@, "О"@),
        ("P"@, "П"@), ("Q"@, "К"@), ("R"@, "Р"@), ("S"@, "С"@), ("T"@, "Т"@),
        ("U"@, "У"@), ("V"@, "В"@), ("W"@, "В"@), ("X"@, "КС"@), ("Y"@, "Й"@),
        ("Z"@, "З"@),

        // ===================================================================
        //  VOWELS & DIPHTONGS
        // ===================================================================
        // Voiced vowels
        ("AE"@, "Э"@),  // Borrowed words
        ("AI"@, "АЙ"@),  // Min Aung Hlaing -> Мин Аун Хлайн (SAC chairman)
        ("AW"@, "О"@),  // Htin Kyaw -> Тхин Чжо (president)
        // Saw Maung -> Со Маун (SPDC chairman)
        ("AY"@, "ЕЙ"@),  // Nay Pyi Taw -> Нейпидо (capital)
        ("AYE"@, "Э"@),  // Maung Aye -> Маун Э (SPDC vice chairman)
        //       Aye Ko -> Е Ко (vice president) <imprecize>
        // "Э" suits better to avoid confusion with "YE" (Е)
        ("EE"@, "И"@),  // Mee-Bone-Pyan U Kyaw Yin ->
        // Ми-Бон-Пьян У Чжо Йин
        ("EI"@, "ЕЙ"@),  // Thein Sein -> Тейн Сейн (president)
        // Sein Lwin -> Сейн Лвин (president)
        ("OE"@, "О"@),  // Soe Win -> Со Вин (prime minister)
        ("OO"@, "У"@),  // Mya Tun Oo -> Мья Тун У (deputy prime minister)
        ("ON"@, "ОУН"@),  // Monywa -> Моунъюа (capital town)
        ("YA"@, "Я"@),  // Yangon -> Янгон (city)
        ("YE"@, "Е"@),  // Ye, Myanmar -> Е, Мьянма (town)
        ("YU"@, "Ю"@),  // San Yu -> Сан Ю (president)
        ("YW"@, "Ю"@),  // Monywa -> Моунъюа (capital town)
        // Unvoiced vowels
        ("ONE|"@, "ОН"@),  // Mee-Bone-Pyan U Kyaw Yin -> Ми-Бон-Пьян У Чжо Йин
        ("OKE|"@, "ОУ"@),  // Hoke -> Хоу
        ("INE|"@, "АЙН"@),  // Hain -> Хайн, -INE is less common that -AING

        // ===================================================================
        //  CONSONANT & ASPIRANTS
        // ===================================================================
        // SH sound
        ("SH"@, "Ш"@),  // Daw Kin Win Shwe -> До Кин Вин Шве
        ("SW"@, "ШВ"@),  // Myint Swe -> Мьин Шве (vice president)
        // Aspiration consonants
        ("HK"@, "КХ"@),  // Hkun Law -> Кхун Ло (king of Martaban)
        ("HP"@, "ПХ"@),  // Hpa-an -> Пхаан (capital town)
        ("HT"@, "ТХ"@),  // Htin Kyaw -> Тхин Чжо (president)
        // Unvoiced consonants
        ("AR"@, "А"@),  // Myanmar -> Мьянма (country)
        ("AUK"@, "АУ"@),  // Sai Mauk Kham -> Сайн Мау Кхан (vice president)
        // Kyaukse -> Чжаусе (town)
        ("AT"@, "А"@),  // Kyat -> Чжа (currency)
        ("IT"@, "И"@),  // Myitkyina -> Мьичина (capital town)
        // Sittaung -> Ситаун (river)
        ("|TH"@, "Т"@),  // Than Shwe -> Тан Шве (prime minister)
        ("INT|"@, "ИН"@),  // Myint Swe -> Мьин Шве (vice president)
        ("NG|"@, "Н"@),  // Thakin Kodaw Hmaing -> Такин Кодо Хмайн (poet)
        ("NT|"@, "Н"@),  // U Thant -> У Тан (UN secretary-general)
        ("AIK|"@, "АЙ"@),  // Sao Shwe Thaik -> Сао Шве Тай (president)
        // Palatalized consontants
        ("CH"@, "Ч"@),  // Borrowed words
        ("GY"@, "ДЖ"@),  // Myo Gyi -> Мьо Джи (musician)
        ("KY"@, "Ч"@),  // Myitkyina -> Мьичина (capital town)
        ("MY"@, "МЬ"@),  // Myanmar -> Мьянма (country)
        ("NY"@, "НЬ"@),  // Paganyaw -> Паганья (ethnic group)
        ("PY"@, "ПЬ"@),  // Pyi -> Пьи (city)
        // Palatalized explosive consonants (position dependent)
        ("|KY"@, "ЧЖ"@),  // Htin Kyaw -> Тхин Чжо (president)
        // Aung San Suu Kyi -> Аун Сан Су Чжи
        // Kyaukse -> Чжаусе (town)

        // ===================================================================
        //  Palatalized consonants * (YA|YU/YO/YW|INE)
        // ===================================================================
        // "KYA" would be "ЧЖА", generalizable with KY+A -> ЧЖ+А
        ("MYA"@, "МЬЯ"@),  // Myanmar -> Мьянма (country)
        ("NYA"@, "НЬЯ"@),  // Nyaung-U -> Ньяун-У (town)
        ("PYA"@, "ПЬЯ"@),  // Bala Pyan -> Бала Пьян (dancer)

        // YU/YO/YW patterns
        ("KYU"@, "ЧЬЮ"@), ("KYO"@, "ЧЬЮ"@), ("KYW"@, "ЧЬЮ"@),
        ("MYU"@, "МЬЮ"@), ("MYO"@, "МЬЮ"@), ("MYW"@, "MЬЮ"@),
        ("NYU"@, "НЬЮ"@), ("NYO"@, "НЬЮ"@), ("NYW"@, "НЬЮ"@),
        ("PYU"@, "ПЬЮ"@), ("PYO"@, "ПЬЮ"@), ("PYW"@, "ПЬЮ"@),
        // + ON pattern
        ("ONYU"@, "ОУНЬЮ"@), ("ONYO"@, "ОУНЬЮ"@), ("ONYW"@, "ОУНЬЮ"@),

        // YINE patterns
        ("KYINE|"@, "ЧЬЯЙН"@),
        ("MYINE|"@, "МЬЯЙН"@),
        ("NYINE|"@, "НЬЯЙН"@),
        ("PYINE|"@, "ПЬЯЙН"@),

        // ===================================================================
        //  Dictionary
        // ===================================================================

        ("|SAI|"@, "САЙН"@),  // Sai Mauk Kham -> Сайн Мау Кхан
        ("|HTET|"@, "ТХE"@),  // Htet Htet Moe Oo -> Тхе Тхе Мьо У (actress)
    ]
}

/// The rule table, in upper case: `(pattern, replacement)`.
pub fn lang_rules() -> (r: Vec<(&'static str, &'static str)>)
    ensures
        entry_views(r@) == lang_entries(),
{
    let r = vec![
        // All names are from wikipedia.org/wiki/name_name
        // ===================================================================
        //  LETTERS
        // ===================================================================
        ("A", "А"), ("B", "Б"), ("C", "К"), ("D", "Д"), ("E", "Е"),
        ("F", "Ф"), ("G", "Г"), ("H", "Х"), ("I", "И"), ("J", "ДЖ"),
        ("K", "К"), ("L", "Л"), ("M", "М"), ("N", "Н"), ("O", "О"),
        ("P", "П"), ("Q", "К"), ("R", "Р"), ("S", "С"), ("T", "Т"),
        ("U", "У"), ("V", "В"), ("W", "В"), ("X", "КС"), ("Y", "Й"),
        ("Z", "З"),

        // ===================================================================
        //  VOWELS & DIPHTONGS
        // ===================================================================
        // Voiced vowels
        ("AE", "Э"),  // Borrowed words
        ("AI", "АЙ"),  // Min Aung Hlaing -> Мин Аун Хлайн (SAC chairman)
        ("AW", "О"),  // Htin Kyaw -> Тхин Чжо (president)
        // Saw Maung -> Со Маун (SPDC chairman)
        ("AY", "ЕЙ"),  // Nay Pyi Taw -> Нейпидо (capital)
        ("AYE", "Э"),  // Maung Aye -> Маун Э (SPDC vice chairman)
        //       Aye Ko -> Е Ко (vice president) <imprecize>
        // "Э" suits better to avoid confusion with "YE" (Е)
        ("EE", "И"),  // Mee-Bone-Pyan U Kyaw Yin ->
        // Ми-Бон-Пьян У Чжо Йин
        ("EI", "ЕЙ"),  // Thein Sein -> Тейн Сейн (president)
        // Sein Lwin -> Сейн Лвин (president)
        ("OE", "О"),  // Soe Win -> Со Вин (prime minister)
        ("OO", "У"),  // Mya Tun Oo -> Мья Тун У (deputy prime minister)
        ("ON", "ОУН"),  // Monywa -> Моунъюа (capital town)
        ("YA", "Я"),  // Yangon -> Янгон (city)
        ("YE", "Е"),  // Ye, Myanmar -> Е, Мьянма (town)
        ("YU", "Ю"),  // San Yu -> Сан Ю (president)
        ("YW", "Ю"),  // Monywa -> Моунъюа (capital town)
        // Unvoiced vowels
        ("ONE|", "ОН"),  // Mee-Bone-Pyan U Kyaw Yin -> Ми-Бон-Пьян У Чжо Йин
        ("OKE|", "ОУ"),  // Hoke -> Хоу
        ("INE|", "АЙН"),  // Hain -> Хайн, -INE is less common that -AING

        // ===================================================================
        //  CONSONANT & ASPIRANTS
        // ===================================================================
        // SH sound
        ("SH", "Ш"),  // Daw Kin Win Shwe -> До Кин Вин Шве
        ("SW", "ШВ"),  // Myint Swe -> Мьин Шве (vice president)
        // Aspiration consonants
        ("HK", "КХ"),  // Hkun Law -> Кхун Ло (king of Martaban)
        ("HP", "ПХ"),  // Hpa-an -> Пхаан (capital town)
        ("HT", "ТХ"),  // Htin Kyaw -> Тхин Чжо (president)
        // Unvoiced consonants
        ("AR", "А"),  // Myanmar -> Мьянма (country)
        ("AUK", "АУ"),  // Sai Mauk Kham -> Сайн Мау Кхан (vice president)
        // Kyaukse -> Чжаусе (town)
        ("AT", "А"),  // Kyat -> Чжа (currency)
        ("IT", "И"),  // Myitkyina -> Мьичина (capital town)
        // Sittaung -> Ситаун (river)
        ("|TH", "Т"),  // Than Shwe -> Тан Шве (prime minister)
        ("INT|", "ИН"),  // Myint Swe -> Мьин Шве (vice president)
        ("NG|", "Н"),  // Thakin Kodaw Hmaing -> Такин Кодо Хмайн (poet)
        ("NT|", "Н"),  // U Thant -> У Тан (UN secretary-general)
        ("AIK|", "АЙ"),  // Sao Shwe Thaik -> Сао Шве Тай (president)
        // Palatalized consontants
        ("CH", "Ч"),  // Borrowed words
        ("GY", "ДЖ"),  // Myo Gyi -> Мьо Джи (musician)
        ("KY", "Ч"),  // Myitkyina -> Мьичина (capital town)
        ("MY", "МЬ"),  // Myanmar -> Мьянма (country)
        ("NY", "НЬ"),  // Paganyaw -> Паганья (ethnic group)
        ("PY", "ПЬ"),  // Pyi -> Пьи (city)
        // Palatalized explosive consonants (position dependent)
        ("|KY", "ЧЖ"),  // Htin Kyaw -> Тхин Чжо (president)
        // Aung San Suu Kyi -> Аун Сан Су Чжи
        // Kyaukse -> Чжаусе (town)

        // ===================================================================
        //  Palatalized consonants * (YA|YU/YO/YW|INE)
        // ===================================================================
        // "KYA" would be "ЧЖА", generalizable with KY+A -> ЧЖ+А
        ("MYA", "МЬЯ"),  // Myanmar -> Мьянма (country)
        ("NYA", "НЬЯ"),  // Nyaung-U -> Ньяун-У (town)
        ("PYA", "ПЬЯ"),  // Bala Pyan -> Бала Пьян (dancer)

        // YU/YO/YW patterns
        ("KYU", "ЧЬЮ"), ("KYO", "ЧЬЮ"), ("KYW", "ЧЬЮ"),
        ("MYU", "МЬЮ"), ("MYO", "МЬЮ"), ("MYW", "MЬЮ"),
        ("NYU", "НЬЮ"), ("NYO", "НЬЮ"), ("NYW", "НЬЮ"),
        ("PYU", "ПЬЮ"), ("PYO", "ПЬЮ"), ("PYW", "ПЬЮ"),
        // + ON pattern
        ("ONYU", "ОУНЬЮ"), ("ONYO", "ОУНЬЮ"), ("ONYW", "ОУНЬЮ"),

        // YINE patterns
        ("KYINE|", "ЧЬЯЙН"),
        ("MYINE|", "МЬЯЙН"),
        ("NYINE|", "НЬЯЙН"),
        ("PYINE|", "ПЬЯЙН"),

        // ===================================================================
        //  Dictionary
        // ===================================================================

        ("|SAI|", "САЙН"),  // Sai Mauk Kham -> Сайн Мау Кхан
        ("|HTET|", "ТХE"),  // Htet Htet Moe Oo -> Тхе Тхе Мьо У (actress)
    ];
    assert(entry_views(r@) =~= lang_entries());
    r
}

/// The Burmese transcriber.
pub struct Transcriber {
    rules: RuleSet,
}

impl Transcriber {
    /// Compiles the Burmese table.
    pub fn new() -> (r: Result<Transcriber, RuleError>)
        ensures
            r is Ok,
            r matches Ok(t) ==> t.rule_set() == (RuleSetView {
                table: table_of(lang_entries()),
                fold: Fold::Upper,
            }),
    {
        let table = lang_rules();
        proof {
            reveal_strlit("A");
            reveal_strlit("B");
            reveal_strlit("C");
            reveal_strlit("D");
            reveal_strlit("E");
            reveal_strlit("F");
            reveal_strlit("G");
            reveal_strlit("H");
            reveal_strlit("I");
            reveal_strlit("J");
            reveal_strlit("K");
            reveal_strlit("L");
            reveal_strlit("M");
            reveal_strlit("N");
            reveal_strlit("O");
            reveal_strlit("P");
            reveal_strlit("Q");
            reveal_strlit("R");
            reveal_strlit("S");
            reveal_strlit("T");
            reveal_strlit("U");
            reveal_strlit("V");
            reveal_strlit("W");
            reveal_strlit("X");
            reveal_strlit("Y");
            reveal_strlit("Z");
            reveal_strlit("AE");
            reveal_strlit("AI");
            reveal_strlit("AW");
            reveal_strlit("AY");
            reveal_strlit("AYE");
            reveal_strlit("EE");
            reveal_strlit("EI");
            reveal_strlit("OE");
            reveal_strlit("OO");
            reveal_strlit("ON");
            reveal_strlit("YA");
            reveal_strlit("YE");
            reveal_strlit("YU");
            reveal_strlit("YW");
            reveal_strlit("ONE|");
            reveal_strlit("OKE|");
            reveal_strlit("INE|");
            reveal_strlit("SH");
            reveal_strlit("SW");
            reveal_strlit("HK");
            reveal_strlit("HP");
            reveal_strlit("HT");
            reveal_strlit("AR");
            reveal_strlit("AUK");
            reveal_strlit("AT");
            reveal_strlit("IT");
            reveal_strlit("|TH");
            reveal_strlit("INT|");
            reveal_strlit("NG|");
            reveal_strlit("NT|");
            reveal_strlit("AIK|");
            reveal_strlit("CH");
            reveal_strlit("GY");
            reveal_strlit("KY");
            reveal_strlit("MY");
            reveal_strlit("NY");
            reveal_strlit("PY");
            reveal_strlit("|KY");
            reveal_strlit("MYA");
            reveal_strlit("NYA");
            reveal_strlit("PYA");
            reveal_strlit("KYU");
            reveal_strlit("KYO");
            reveal_strlit("KYW");
            reveal_strlit("MYU");
            reveal_strlit("MYO");
            reveal_strlit("MYW");
            reveal_strlit("NYU");
            reveal_strlit("NYO");
            reveal_strlit("NYW");
            reveal_strlit("PYU");
            reveal_strlit("PYO");
            reveal_strlit("PYW");
            reveal_strlit("ONYU");
            reveal_strlit("ONYO");
            reveal_strlit("ONYW");
            reveal_strlit("KYINE|");
            reveal_strlit("MYINE|");
            reveal_strlit("NYINE|");
            reveal_strlit("PYINE|");
            reveal_strlit("|SAI|");
            reveal_strlit("|HTET|");
            assert forall|i: int| 0 <= i < table@.len() implies #[trigger] core_text(
                table@[i].0@,
            ).len() > 0 by {
                assert(table@[i].0@ == lang_entries()[i].0);
            }
        }
        let rules = compile_rules(table.as_slice(), Fold::Upper)?;
        Ok(Transcriber { rules })
    }
}

impl TranscriberTrait for Transcriber {
    closed spec fn rule_set(&self) -> RuleSetView {
        self.rules@
    }

    open spec fn lang_name(&self) -> Seq<char> {
        "Бирманский"@
    }

    fn get_lang_name(&self) -> (r: &'static str) {
        "Бирманский"
    }

    fn get_search_rules(&self) -> (r: SearchRules) {
        self.rules.search_rules()
    }

    fn transcribe_word(&self, input: &str) -> (r: String) {
        cirillify_word(input, &self.rules)
    }

    fn transcribe(&self, input: &str) -> (r: String) {
        cyrillify(input, &self.rules)
    }
}

} // verus!
