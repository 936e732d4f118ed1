//! Vietnamese names.

use crate::handler::{cirillify_word, cyrillify};
use crate::rules::{
    compile_rules, core_text, entry_views, table_of, Fold, RuleError, RuleSet, RuleSetView,
    SearchRules,
};
use crate::transcriber::TranscriberTrait;
use vstd::prelude::*;

verus! {

/// The rule table, in upper case: `(pattern, replacement)` texts.
pub open spec fn lang_entries() -> Seq<(Seq<char>, Seq<char>)> {
    seq![
        // LATIN LETTERS + đ/ư
        ("A"@, "А"@), ("B"@, "Б"@), ("C"@, "К"@), ("D"@, "З"@),
        ("E"@, "Е"@), ("F"@, "Ф"@), ("G"@, "Г"@), ("H"@, "Х"@),
        ("I"@, "И"@), ("J"@, "Ч"@), ("K"@, "К"@), ("L"@, "Л"@),
        ("M"@, "М"@), ("N"@, "Н"@), ("O"@, "О"@), ("P"@, "П"@),
        ("R"@, "Р"@), ("S"@, "Ш"@), ("T"@, "Т"@), ("U"@, "У"@),
        ("V"@, "В"@), ("W"@, "В"@), ("X"@, "С"@), ("Y"@, "И"@),
        ("Z"@, "З"@), ("Đ"@, "Д"@), ("Ư"@, "Ы"@),

        // Silent "h"
        ("GH"@, "Г"@),
        ("PH"@, "Ф"@),

        // Voiced "h"
        ("TH"@, "ТХ"@),

        // T sound
        ("CH"@, "Т"@),
        ("CH|"@, "ТЬ"@),
        ("CHA"@, "ТЯ"@),
        ("CHI"@, "ТИ"@),
        ("CHIA"@, "ТЬЯ"@),
        ("CHIE"@, "ТЬЕ"@),
        ("CHIO"@, "ТЁ"@),
        ("CHIU"@, "ТЬЮ"@),
        ("CHO"@, "ТЁ"@),
        ("CHÔ"@, "ТЁ"@),
        ("CHƠ"@, "ТЁ"@),
        ("CHU"@, "ТЬЮ"@),
        ("CHƯ"@, "ТЬЫ"@),

        // Z sound
        ("GI"@, "З"@),
        ("|GI|"@, "ЗИ"@),
        ("GIÊ"@, "ЗЬЕ"@),
        ("GIƯ"@, "ЗЬЫ"@),
        ("GIA"@, "ЗЯ"@),
        ("GIE"@, "ЗЕ"@),
        ("GIO"@, "ЗЁ"@),
        ("GIÔ"@, "ЗЁ"@),
        ("GIƠ"@, "ЗЁ"@),
        ("GIU"@, "ЗЮ"@),

        // N sound
        ("NGH"@, "НГ"@),
        ("NH"@, "НЬ"@),
        ("NHA"@, "НЯ"@),
        ("NHE"@, "НЕ"@),
        ("NHI"@, "НИ"@),
        ("NHO"@, "НЁ"@),
        ("NHÔ"@, "НЁ"@),
        ("NHƠ"@, "НЁ"@),
        ("NHU"@, "НЮ"@),

        // CH sound
        ("TR"@, "Ч"@),

        // AY/EY
        ("ÂY"@, "АЙ"@),
        ("TÂY"@, "ТЭЙ"@),
        ("PLÂY"@, "ПЛЕЙ"@),

        // E
        ("|E"@, "Э"@),
        ("AE"@, "АЭ"@),
        ("IE"@, "ИЭ"@),
        ("OE"@, "ОЭ"@),
        ("UE"@, "УЭ"@),
        ("ƯE"@, "ЫЭ"@),

        // Ê
        // "" => "",

        // IÊ
        ("|IÊ"@, "ЙЕ"@),
        ("IÊ"@, "ЬЕ"@),

        // UI/UY
        ("UI"@, "УЙ"@), ("UY"@, "УИ"@),

        ("QUI"@, "КУИ"@), ("QUY"@, "КУИ"@),

        ("HUI"@, "ХЮИ"@), ("HUY"@, "ХЮИ"@),
        ("KHUI"@, "КЮИ"@), ("KHUY"@, "КЮИ"@),
        ("THUI"@, "ТЮИ"@), ("THUY"@, "ТЮИ"@),

        ("CHUI"@, "ТЮЙ"@), ("CHUY"@, "ТЮИ"@),
        ("NHUI"@, "НЮЙ"@), ("NHUY"@, "НЮИ"@),
        ("GIUI"@, "ЗЮЙ"@), ("GIUY"@, "ЗЮИ"@),
        ("LUI"@, "ЛЮЙ"@), ("LUY"@, "ЛЮИ"@),
        ("XUI"@, "СЮЙ"@), ("XUY"@, "СЮИ"@),

        // UE
        ("XUE"@, "СЮЭ"@),

        // YÊ
        ("YÊ"@, "ЙЕ"@),

        // Y
        ("|Y"@, "Й"@),
        ("AY"@, "АЙ"@),

        ("EY"@, "ЕЙ"@),
        ("AEY"@, "АЭЙ"@),
        ("EEY"@, "ЭЭЙ"@),
        ("IEY"@, "ИЭЙ"@),
        ("OEY"@, "ОЭЙ"@),
        ("UEY"@, "УЭЙ"@),

        ("IY"@, "ИЙ"@),
        ("OY"@, "ОЙ"@),

        // UYÊ
        ("UYÊ"@, "УЕ"@),

        ("HUYÊ"@, "ХЮЕ"@),
        ("CHUYÊ"@, "ТЮЕ"@),
        ("NHUYÊ"@, "НЮЕ"@),
        ("GIUYÊ"@, "ЗЮЕ"@),
        ("LUYÊ"@, "ЛЮЕ"@),
        ("XUYÊ"@, "СЮЕ"@),
    ]
}

/// The rule table, in upper case: `(pattern, replacement)`.
pub fn lang_rules() -> (r: Vec<(&'static str, &'static str)>)
    ensures
        entry_views(r@) == lang_entries(),
{
    let r = vec![
        // LATIN LETTERS + đ/ư
        ("A", "А"), ("B", "Б"), ("C", "К"), ("D", "З"),
        ("E", "Е"), ("F", "Ф"), ("G", "Г"), ("H", "Х"),
        ("I", "И"), ("J", "Ч"), ("K", "К"), ("L", "Л"),
        ("M", "М"), ("N", "Н"), ("O", "О"), ("P", "П"),
        ("R", "Р"), ("S", "Ш"), ("T", "Т"), ("U", "У"),
        ("V", "В"), ("W", "В"), ("X", "С"), ("Y", "И"),
        ("Z", "З"), ("Đ", "Д"), ("Ư", "Ы"),

        // Silent "h"
        ("GH", "Г"),
        ("PH", "Ф"),

        // Voiced "h"
        ("TH", "ТХ"),

        // T sound
        ("CH", "Т"),
        ("CH|", "ТЬ"),
        ("CHA", "ТЯ"),
        ("CHI", "ТИ"),
        ("CHIA", "ТЬЯ"),
        ("CHIE", "ТЬЕ"),
        ("CHIO", "ТЁ"),
        ("CHIU", "ТЬЮ"),
        ("CHO", "ТЁ"),
        ("CHÔ", "ТЁ"),
        ("CHƠ", "ТЁ"),
        ("CHU", "ТЬЮ"),
        ("CHƯ", "ТЬЫ"),

        // Z sound
        ("GI", "З"),
        ("|GI|", "ЗИ"),
        ("GIÊ", "ЗЬЕ"),
        ("GIƯ", "ЗЬЫ"),
        ("GIA", "ЗЯ"),
        ("GIE", "ЗЕ"),
        ("GIO", "ЗЁ"),
        ("GIÔ", "ЗЁ"),
        ("GIƠ", "ЗЁ"),
        ("GIU", "ЗЮ"),

        // N sound
        ("NGH", "НГ"),
        ("NH", "НЬ"),
        ("NHA", "НЯ"),
        ("NHE", "НЕ"),
        ("NHI", "НИ"),
        ("NHO", "НЁ"),
        ("NHÔ", "НЁ"),
        ("NHƠ", "НЁ"),
        ("NHU", "НЮ"),

        // CH sound
        ("TR", "Ч"),

        // AY/EY
        ("ÂY", "АЙ"),
        ("TÂY", "ТЭЙ"),
        ("PLÂY", "ПЛЕЙ"),

        // E
        ("|E", "Э"),
        ("AE", "АЭ"),
        ("IE", "ИЭ"),
        ("OE", "ОЭ"),
        ("UE", "УЭ"),
        ("ƯE", "ЫЭ"),

        // Ê
        // "" => "",

        // IÊ
        ("|IÊ", "ЙЕ"),
        ("IÊ", "ЬЕ"),

        // UI/UY
        ("UI", "УЙ"), ("UY", "УИ"),

        ("QUI", "КУИ"), ("QUY", "КУИ"),

        ("HUI", "ХЮИ"), ("HUY", "ХЮИ"),
        ("KHUI", "КЮИ"), ("KHUY", "КЮИ"),
        ("THUI", "ТЮИ"), ("THUY", "ТЮИ"),

        ("CHUI", "ТЮЙ"), ("CHUY", "ТЮИ"),
        ("NHUI", "НЮЙ"), ("NHUY", "НЮИ"),
        ("GIUI", "ЗЮЙ"), ("GIUY", "ЗЮИ"),
        ("LUI", "ЛЮЙ"), ("LUY", "ЛЮИ"),
        ("XUI", "СЮЙ"), ("XUY", "СЮИ"),

        // UE
        ("XUE", "СЮЭ"),

        // YÊ
        ("YÊ", "ЙЕ"),

        // Y
        ("|Y", "Й"),
        ("AY", "АЙ"),

        ("EY", "ЕЙ"),
        ("AEY", "АЭЙ"),
        ("EEY", "ЭЭЙ"),
        ("IEY", "ИЭЙ"),
        ("OEY", "ОЭЙ"),
        ("UEY", "УЭЙ"),

        ("IY", "ИЙ"),
        ("OY", "ОЙ"),

        // UYÊ
        ("UYÊ", "УЕ"),

        ("HUYÊ", "ХЮЕ"),
        ("CHUYÊ", "ТЮЕ"),
        ("NHUYÊ", "НЮЕ"),
        ("GIUYÊ", "ЗЮЕ"),
        ("LUYÊ", "ЛЮЕ"),
        ("XUYÊ", "СЮЕ"),
    ];
    assert(entry_views(r@) =~= lang_entries());
    r
}

/// The Vietnamese transcriber.
pub struct Transcriber {
    rules: RuleSet,
}

impl Transcriber {
    /// Compiles the Vietnamese table.
    pub fn new() -> (r: Result<Transcriber, RuleError>)
        ensures
            r is Ok,
            r matches Ok(t) ==> t.rule_set() == (RuleSetView {
                table: table_of(lang_entries()),
                fold: Fold::Upper,
            }),
    {
        let table = lang_rules();
        proof {
            reveal_strlit("A");
            reveal_strlit("B");
            reveal_strlit("C");
            reveal_strlit("D");
            reveal_strlit("E");
            reveal_strlit("F");
            reveal_strlit("G");
            reveal_strlit("H");
            reveal_strlit("I");
            reveal_strlit("J");
            reveal_strlit("K");
            reveal_strlit("L");
            reveal_strlit("M");
            reveal_strlit("N");
            reveal_strlit("O");
            reveal_strlit("P");
            reveal_strlit("R");
            reveal_strlit("S");
            reveal_strlit("T");
            reveal_strlit("U");
            reveal_strlit("V");
            reveal_strlit("W");
            reveal_strlit("X");
            reveal_strlit("Y");
            reveal_strlit("Z");
            reveal_strlit("Đ");
            reveal_strlit("Ư");
            reveal_strlit("GH");
            reveal_strlit("PH");
            reveal_strlit("TH");
            reveal_strlit("CH");
            reveal_strlit("CH|");
            reveal_strlit("CHA");
            reveal_strlit("CHI");
            reveal_strlit("CHIA");
            reveal_strlit("CHIE");
            reveal_strlit("CHIO");
            reveal_strlit("CHIU");
            reveal_strlit("CHO");
            reveal_strlit("CHÔ");
            reveal_strlit("CHƠ");
            reveal_strlit("CHU");
            reveal_strlit("CHƯ");
            reveal_strlit("GI");
            reveal_strlit("|GI|");
            reveal_strlit("GIÊ");
            reveal_strlit("GIƯ");
            reveal_strlit("GIA");
            reveal_strlit("GIE");
            reveal_strlit("GIO");
            reveal_strlit("GIÔ");
            reveal_strlit("GIƠ");
            reveal_strlit("GIU");
            reveal_strlit("NGH");
            reveal_strlit("NH");
            reveal_strlit("NHA");
            reveal_strlit("NHE");
            reveal_strlit("NHI");
            reveal_strlit("NHO");
            reveal_strlit("NHÔ");
            reveal_strlit("NHƠ");
            reveal_strlit("NHU");
            reveal_strlit("TR");
            reveal_strlit("ÂY");
            reveal_strlit("TÂY");
            reveal_strlit("PLÂY");
            reveal_strlit("|E");
            reveal_strlit("AE");
            reveal_strlit("IE");
            reveal_strlit("OE");
            reveal_strlit("UE");
            reveal_strlit("ƯE");
            reveal_strlit("|IÊ");
            reveal_strlit("IÊ");
            reveal_strlit("UI");
            reveal_strlit("UY");
            reveal_strlit("QUI");
            reveal_strlit("QUY");
            reveal_strlit("HUI");
            reveal_strlit("HUY");
            reveal_strlit("KHUI");
            reveal_strlit("KHUY");
            reveal_strlit("THUI");
            reveal_strlit("THUY");
            reveal_strlit("CHUI");
            reveal_strlit("CHUY");
            reveal_strlit("NHUI");
            reveal_strlit("NHUY");
            reveal_strlit("GIUI");
            reveal_strlit("GIUY");
            reveal_strlit("LUI");
            reveal_strlit("LUY");
            reveal_strlit("XUI");
            reveal_strlit("XUY");
            reveal_strlit("XUE");
            reveal_strlit("YÊ");
            reveal_strlit("|Y");
            reveal_strlit("AY");
            reveal_strlit("EY");
            reveal_strlit("AEY");
            reveal_strlit("EEY");
            reveal_strlit("IEY");
            reveal_strlit("OEY");
            reveal_strlit("UEY");
            reveal_strlit("IY");
            reveal_strlit("OY");
            reveal_strlit("UYÊ");
            reveal_strlit("HUYÊ");
            reveal_strlit("CHUYÊ");
            reveal_strlit("NHUYÊ");
            reveal_strlit("GIUYÊ");
            reveal_strlit("LUYÊ");
            reveal_strlit("XUYÊ");
            assert forall|i: int| 0 <= i < table@.len() implies #[trigger] core_text(
                table@[i].0@,
            ).len() > 0 by {
                assert(table@[i].0@ == lang_entries()[i].0);
            }
        }
        let rules = compile_rules(table.as_slice(), Fold::Upper)?;
        Ok(Transcriber { rules })
    }
}

impl TranscriberTrait for Transcriber {
    closed spec fn rule_set(&self) -> RuleSetView {
        self.rules@
    }

    open spec fn lang_name(&self) -> Seq<char> {
        "Вьетнамский"@
    }

    fn get_lang_name(&self) -> (r: &'static str) {
        "Вьетнамский"
    }

    fn get_search_rules(&self) -> (r: SearchRules) {
        self.rules.search_rules()
    }

    fn transcribe_word(&self, input: &str) -> (r: String) {
        cirillify_word(input, &self.rules)
    }

    fn transcribe(&self, input: &str) -> (r: String) {
        cyrillify(input, &self.rules)
    }
}

} // verus!
