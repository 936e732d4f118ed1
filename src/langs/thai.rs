//! Thai names, romanised.

use crate::handler::{cirillify_word, cyrillify};
use crate::rules::{
    compile_rules, core_text, entry_views, table_of, Fold, RuleError, RuleSet, RuleSetView,
    SearchRules,
};
use crate::transcriber::TranscriberTrait;
use vstd::prelude::*;

verus! {

/// The rule table, in upper case: `(pattern, replacement)` texts.
pub open spec fn lang_entries() -> Seq<(Seq<char>, Seq<char>)> {
    seq![
        // LATIN LETTERS
        ("A"@, "А"@), ("B"@, "Б"@), ("C"@, "К"@), ("D"@, "Д"@),
        ("E"@, "Е"@), ("F"@, "Ф"@), ("G"@, "Г"@), ("H"@, "Х"@),
        ("I"@, "И"@), ("J"@, "Ч"@), ("K"@, "К"@), ("L"@, "Л"@),
        ("M"@, "М"@), ("N"@, "Н"@), ("O"@, "О"@), ("P"@, "П"@),
        ("Q"@, "КВ"@), ("R"@, "Р"@), ("S"@, "С"@), ("T"@, "Т"@),
        ("U"@, "У"@), ("V"@, "В"@), ("W"@, "В"@), ("X"@, "КС"@),
        ("Y"@, "Й"@), ("Z"@, "З"@),
        // A sound
        ("AE"@, "Э"@), ("AEO"@, "ЭУ"@), ("AI"@, "АЙ"@), ("AO"@, "АУ"@),
        // I sound
        ("IA"@, "ИА"@), ("IAO"@, "ИО"@), ("IU"@, "ИУ"@),
        // O sound
        ("OE"@, "Е"@), ("OEI"@, "ЕЙ"@), ("OI"@, "ОЙ"@),
        // U sound
        ("UA"@, "УА"@), ("UAI"@, "УАЙ"@), ("UE"@, "Ы"@), ("UEA"@, "ЫА"@),
        // CH sound
        ("CH"@, "Ч"@), ("ÇH"@, "Ч"@),
    ]
}

/// The rule table, in upper case: `(pattern, replacement)`.
pub fn lang_rules() -> (r: Vec<(&'static str, &'static str)>)
    ensures
        entry_views(r@) == lang_entries(),
{
    let r = vec![
        // LATIN LETTERS
        ("A", "А"), ("B", "Б"), ("C", "К"), ("D", "Д"),
        ("E", "Е"), ("F", "Ф"), ("G", "Г"), ("H", "Х"),
        ("I", "И"), ("J", "Ч"), ("K", "К"), ("L", "Л"),
        ("M", "М"), ("N", "Н"), ("O", "О"), ("P", "П"),
        ("Q", "КВ"), ("R", "Р"), ("S", "С"), ("T", "Т"),
        ("U", "У"), ("V", "В"), ("W", "В"), ("X", "КС"),
        ("Y", "Й"), ("Z", "З"),
        // A sound
        ("AE", "Э"), ("AEO", "ЭУ"), ("AI", "АЙ"), ("AO", "АУ"),
        // I sound
        ("IA", "ИА"), ("IAO", "ИО"), ("IU", "ИУ"),
        // O sound
        ("OE", "Е"), ("OEI", "ЕЙ"), ("OI", "ОЙ"),
        // U sound
        ("UA", "УА"), ("UAI", "УАЙ"), ("UE", "Ы"), ("UEA", "ЫА"),
        // CH sound
        ("CH", "Ч"), ("ÇH", "Ч"),
    ];
    assert(entry_views(r@) =~= lang_entries());
    r
}

/// The Thai transcriber.
pub struct Transcriber {
    rules: RuleSet,
}

impl Transcriber {
    /// Compiles the Thai table.
    pub fn new() -> (r: Result<Transcriber, RuleError>)
        ensures
            r is Ok,
            r matches Ok(t) ==> t.rule_set() == (RuleSetView {
                table: table_of(lang_entries()),
                fold: Fold::Upper,
            }),
    {
        let table = lang_rules();
        proof {
            reveal_strlit("A");
            reveal_strlit("B");
            reveal_strlit("C");
            reveal_strlit("D");
            reveal_strlit("E");
            reveal_strlit("F");
            reveal_strlit("G");
            reveal_strlit("H");
            reveal_strlit("I");
            reveal_strlit("J");
            reveal_strlit("K");
            reveal_strlit("L");
            reveal_strlit("M");
            reveal_strlit("N");
            reveal_strlit("O");
            reveal_strlit("P");
            reveal_strlit("Q");
            reveal_strlit("R");
            reveal_strlit("S");
            reveal_strlit("T");
            reveal_strlit("U");
            reveal_strlit("V");
            reveal_strlit("W");
            reveal_strlit("X");
            reveal_strlit("Y");
            reveal_strlit("Z");
            reveal_strlit("AE");
            reveal_strlit("AEO");
            reveal_strlit("AI");
            reveal_strlit("AO");
            reveal_strlit("IA");
            reveal_strlit("IAO");
            reveal_strlit("IU");
            reveal_strlit("OE");
            reveal_strlit("OEI");
            reveal_strlit("OI");
            reveal_strlit("UA");
            reveal_strlit("UAI");
            reveal_strlit("UE");
            reveal_strlit("UEA");
            reveal_strlit("CH");
            reveal_strlit("ÇH");
            assert forall|i: int| 0 <= i < table@.len() implies #[trigger] core_text(
                table@[i].0@,
            ).len() > 0 by {
                assert(table@[i].0@ == lang_entries()[i].0);
            }
        }
        let rules = compile_rules(table.as_slice(), Fold::Upper)?;
        Ok(Transcriber { rules })
    }
}

impl TranscriberTrait for Transcriber {
    closed spec fn rule_set(&self) -> RuleSetView {
        self.rules@
    }

    open spec fn lang_name(&self) -> Seq<char> {
        "Тайский"@
    }

    fn get_lang_name(&self) -> (r: &'static str) {
        "Тайский"
    }

    fn get_search_rules(&self) -> (r: SearchRules) {
        self.rules.search_rules()
    }

    fn transcribe_word(&self, input: &str) -> (r: String) {
        cirillify_word(input, &self.rules)
    }

    fn transcribe(&self, input: &str) -> (r: String) {
        cyrillify(input, &self.rules)
    }
}

} // verus!
