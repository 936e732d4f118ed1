//! Per-language transcribers behind one interface.

use crate::engine::word_output;
use crate::handler::transcription;
use crate::langs::{burmese, thai, vietnamese};
use crate::rules::{
    has_end_rule, has_start_rule, max_len_of, table_of, Fold, RuleError, RuleSetView, SearchRules,
};
use crate::text::graphemes_of;
use vstd::prelude::*;

verus! {

/// A language transcriber: a named, compiled rule table.
pub trait TranscriberTrait {
    /// The rule table that this transcriber applies.
    spec fn rule_set(&self) -> RuleSetView;

    /// The name of the language, in Russian.
    spec fn lang_name(&self) -> Seq<char>;

    /// The name of the language, in Russian.
    fn get_lang_name(&self) -> (r: &'static str)
        ensures
            r@ == self.lang_name(),
    ;

    /// The metadata of the rule table.
    fn get_search_rules(&self) -> (r: SearchRules)
        ensures
            r.max_key_len == max_len_of(self.rule_set().table),
            r.prefix_start == has_start_rule(self.rule_set().table),
            r.postfix_end == has_end_rule(self.rule_set().table),
    ;

    /// Transcribes one word, taken as it is (no case folding).
    fn transcribe_word(&self, input: &str) -> (r: String)
        ensures
            r@ == word_output(self.rule_set().table, graphemes_of(input@)),
    ;

    /// Transcribes a whole text.
    fn transcribe(&self, input: &str) -> (r: String)
        ensures
            r@ == transcription(self.rule_set(), input@),
    ;
}

/// The languages that can be transcribed.
pub enum TranscriberEnum {
    Thai(thai::Transcriber),
    Burmese(burmese::Transcriber),
    Vietnamese(vietnamese::Transcriber),
}

impl TranscriberEnum {
    /// A transcriber for each language, in the order Thai, Burmese, Vietnamese.
    pub fn all() -> (r: Result<Vec<TranscriberEnum>, RuleError>)
        ensures
            r is Ok,
            r matches Ok(v) ==> {
                &&& v.len() == 3
                &&& v[0] is Thai
                &&& v[1] is Burmese
                &&& v[2] is Vietnamese
                &&& v[0].rule_set() == (RuleSetView {
                    table: table_of(thai::lang_entries()),
                    fold: Fold::Upper,
                })
                &&& v[1].rule_set() == (RuleSetView {
                    table: table_of(burmese::lang_entries()),
                    fold: Fold::Upper,
                })
                &&& v[2].rule_set() == (RuleSetView {
                    table: table_of(vietnamese::lang_entries()),
                    fold: Fold::Upper,
                })
                &&& v[0].lang_name() == "Тайский"@
                &&& v[1].lang_name() == "Бирманский"@
                &&& v[2].lang_name() == "Вьетнамский"@
            },
    {
        let thai = thai::Transcriber::new()?;
        let burmese = burmese::Transcriber::new()?;
        let vietnamese = vietnamese::Transcriber::new()?;
        let mut v: Vec<TranscriberEnum> = Vec::new();
        v.push(TranscriberEnum::Thai(thai));
        v.push(TranscriberEnum::Burmese(burmese));
        v.push(TranscriberEnum::Vietnamese(vietnamese));
        Ok(v)
    }
}

impl TranscriberTrait for TranscriberEnum {
    open spec fn rule_set(&self) -> RuleSetView {
        match self {
            TranscriberEnum::Thai(t) => t.rule_set(),
            TranscriberEnum::Burmese(t) => t.rule_set(),
            TranscriberEnum::Vietnamese(t) => t.rule_set(),
        }
    }

    open spec fn lang_name(&self) -> Seq<char> {
        match self {
            TranscriberEnum::Thai(t) => t.lang_name(),
            TranscriberEnum::Burmese(t) => t.lang_name(),
            TranscriberEnum::Vietnamese(t) => t.lang_name(),
        }
    }

    fn get_lang_name(&self) -> (r: &'static str) {
        match self {
            TranscriberEnum::Thai(t) => t.get_lang_name(),
            TranscriberEnum::Burmese(t) => t.get_lang_name(),
            TranscriberEnum::Vietnamese(t) => t.get_lang_name(),
        }
    }

    fn get_search_rules(&self) -> (r: SearchRules) {
        match self {
            TranscriberEnum::Thai(t) => t.get_search_rules(),
            TranscriberEnum::Burmese(t) => t.get_search_rules(),
            TranscriberEnum::Vietnamese(t) => t.get_search_rules(),
        }
    }

    fn transcribe_word(&self, input: &str) -> (r: String) {
        match self {
            TranscriberEnum::Thai(t) => t.transcribe_word(input),
            TranscriberEnum::Burmese(t) => t.transcribe_word(input),
            TranscriberEnum::Vietnamese(t) => t.transcribe_word(input),
        }
    }

    fn transcribe(&self, input: &str) -> (r: String) {
        match self {
            TranscriberEnum::Thai(t) => t.transcribe(input),
            TranscriberEnum::Burmese(t) => t.transcribe(input),
            TranscriberEnum::Vietnamese(t) => t.transcribe(input),
        }
    }
}

} // verus!
