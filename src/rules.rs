//! Rule tables: parsing of anchored patterns, compilation, derived metadata and
//! lookup.
//!
//! A pattern is written with an optional leading `|` (the rule applies only at
//! the start of a word) and an optional trailing `|` (only at the end of one).
//! What is left once the markers are stripped is the pattern's core, matched
//! grapheme cluster by grapheme cluster.

use crate::text::{graphemes_of, split_graphemes};
use vstd::prelude::*;

verus! {

/// Where in a word a rule may apply.
#[derive(PartialEq, Eq, Structural, Clone, Copy, Debug)]
pub enum Anchor {
    /// Anywhere.
    Free,
    /// Only where the match starts the word (`|X`).
    Start,
    /// Only where the match ends the word (`X|`).
    End,
    /// Only where the match is the whole word (`|X|`).
    Both,
}

/// The case that a rule table is written in; words are folded to it before
/// they are matched.
#[derive(PartialEq, Eq, Structural, Clone, Copy, Debug)]
pub enum Fold {
    Lower,
    Upper,
}

/// Why a rule table could not be compiled.
#[derive(PartialEq, Eq, Structural, Clone, Copy, Debug)]
pub enum RuleError {
    /// The pattern at this position of the table is empty once its anchor
    /// markers are stripped.
    EmptyPattern(usize),
}

/// Metadata derived from a rule table.
#[derive(PartialEq, Eq, Structural, Clone, Copy, Debug)]
pub struct SearchRules {
    /// The length, in grapheme clusters, of the longest pattern core.
    pub max_key_len: usize,
    /// Some pattern is anchored at the start of a word.
    pub prefix_start: bool,
    /// Some pattern is anchored at the end of a word.
    pub postfix_end: bool,
}

/// `p` carries the start-of-word marker.
pub open spec fn anchored_start(p: Seq<char>) -> bool {
    p.len() > 0 && p[0] == '|'
}

/// `p` without its start-of-word marker.
pub open spec fn after_start(p: Seq<char>) -> Seq<char> {
    if anchored_start(p) {
        p.drop_first()
    } else {
        p
    }
}

/// `p` carries the end-of-word marker (after the start marker, if any).
pub open spec fn anchored_end(p: Seq<char>) -> bool {
    let q = after_start(p);
    q.len() > 0 && q.last() == '|'
}

/// The core of pattern `p`: `p` without its markers.
pub open spec fn core_text(p: Seq<char>) -> Seq<char> {
    let q = after_start(p);
    if anchored_end(p) {
        q.drop_last()
    } else {
        q
    }
}

/// The anchor that the markers of `p` ask for.
pub open spec fn anchor_of(p: Seq<char>) -> Anchor {
    if anchored_start(p) && anchored_end(p) {
        Anchor::Both
    } else if anchored_start(p) {
        Anchor::Start
    } else if anchored_end(p) {
        Anchor::End
    } else {
        Anchor::Free
    }
}

/// The length in grapheme clusters of the core of `p`.
pub open spec fn core_len(p: Seq<char>) -> nat {
    graphemes_of(core_text(p)).len()
}

/// The patterns of a table of `(pattern, replacement)` entries.
pub open spec fn patterns_of(entries: Seq<(&str, &str)>) -> Seq<Seq<char>> {
    entries.map_values(|e: (&str, &str)| e.0@)
}

/// The longest core length among `pats`, or 0 for no pattern.
pub open spec fn max_core_len(pats: Seq<Seq<char>>) -> nat
    decreases pats.len(),
{
    if pats.len() == 0 {
        0
    } else {
        let m = max_core_len(pats.drop_last());
        let l = core_len(pats.last());
        if l > m {
            l
        } else {
            m
        }
    }
}

/// The metadata that a table with patterns `pats` has.
pub open spec fn search_rules_of(pats: Seq<Seq<char>>, r: SearchRules) -> bool {
    &&& r.max_key_len == max_core_len(pats)
    &&& r.prefix_start == exists|i: int| 0 <= i < pats.len() && #[trigger] anchored_start(pats[i])
    &&& r.postfix_end == exists|i: int| 0 <= i < pats.len() && #[trigger] anchored_end(pats[i])
}

/// Splits a pattern into its core and its anchor.
pub fn parse_pattern(p: &str) -> (r: (&str, Anchor))
    ensures
        r.0@ == core_text(p@),
        r.1 == anchor_of(p@),
{
    let n = p.unicode_len();
    let mut from: usize = 0;
    let mut to: usize = n;
    let start = n > 0 && p.get_char(0) == '|';
    if start {
        from = 1;
    }
    let end = from < n && p.get_char(n - 1) == '|';
    if end {
        to = n - 1;
    }
    proof {
        let q = after_start(p@);
        assert(q =~= p@.subrange(from as int, n as int));
        if end {
            assert(q.last() == p@[n - 1]);
        }
    }
    let core = p.substring_char(from, to);
    proof {
        let q = after_start(p@);
        if end {
            assert(core@ =~= q.drop_last());
        } else {
            assert(core@ =~= q);
        }
    }
    let anchor = if start && end {
        Anchor::Both
    } else if start {
        Anchor::Start
    } else if end {
        Anchor::End
    } else {
        Anchor::Free
    };
    (core, anchor)
}

/// Derives the longest core length and the two anchor flags of a table. A
/// table with an empty core is ill-formed and has no metadata.
pub fn derive_search_rules(rules: &[(&str, &str)]) -> (r: SearchRules)
    requires
        forall|i: int| 0 <= i < rules@.len() ==> #[trigger] core_text(rules@[i].0@).len() > 0,
    ensures
        search_rules_of(patterns_of(rules@), r),
{
    let ghost pats = patterns_of(rules@);
    let mut max_key_len: usize = 0;
    let mut prefix_start = false;
    let mut postfix_end = false;
    let mut i: usize = 0;
    while i < rules.len()
        invariant
            i <= rules@.len(),
            pats == patterns_of(rules@),
            max_key_len == max_core_len(pats.take(i as int)),
            prefix_start == exists|j: int| 0 <= j < i && #[trigger] anchored_start(pats[j]),
            postfix_end == exists|j: int| 0 <= j < i && #[trigger] anchored_end(pats[j]),
        decreases rules@.len() - i,
    {
        let pattern = rules[i].0;
        assert(pattern@ == pats[i as int]);
        let (core, anchor) = parse_pattern(pattern);
        let len = split_graphemes(core).len();
        if anchor == Anchor::Start || anchor == Anchor::Both {
            prefix_start = true;
        }
        if anchor == Anchor::End || anchor == Anchor::Both {
            postfix_end = true;
        }
        proof {
            assert(pats.take(i + 1).drop_last() =~= pats.take(i as int));
            assert(pats.take(i + 1).last() == pats[i as int]);
        }
        if len > max_key_len {
            max_key_len = len;
        }
        i = i + 1;
    }
    assert(pats.take(i as int) =~= pats);
    SearchRules { max_key_len, prefix_start, postfix_end }
}

/// A compiled rule: the clusters of its core, its anchor and its replacement.
pub struct Rule {
    pub core: Vec<String>,
    pub anchor: Anchor,
    pub replacement: String,
}

/// The mathematical value of a [`Rule`].
pub struct RuleView {
    pub core: Seq<Seq<char>>,
    pub anchor: Anchor,
    pub replacement: Seq<char>,
}

impl View for Rule {
    type V = RuleView;

    open spec fn view(&self) -> RuleView {
        RuleView { core: self.core.deep_view(), anchor: self.anchor, replacement: self.replacement@ }
    }
}

/// The rule that the entry `(p, rep)` compiles to.
pub open spec fn rule_of(p: Seq<char>, rep: Seq<char>) -> RuleView {
    RuleView { core: graphemes_of(core_text(p)), anchor: anchor_of(p), replacement: rep }
}

/// The `(pattern, replacement)` texts of a table of entries.
pub open spec fn entry_views(entries: Seq<(&str, &str)>) -> Seq<(Seq<char>, Seq<char>)> {
    entries.map_values(|e: (&str, &str)| (e.0@, e.1@))
}

/// The rules that a table of `(pattern, replacement)` texts compiles to, in
/// table order.
pub open spec fn table_of(entries: Seq<(Seq<char>, Seq<char>)>) -> Seq<RuleView> {
    entries.map_values(|e: (Seq<char>, Seq<char>)| rule_of(e.0, e.1))
}

/// The replacement of the first rule of `table` with this core and anchor.
pub open spec fn lookup(table: Seq<RuleView>, core: Seq<Seq<char>>, anchor: Anchor) -> Option<
    Seq<char>,
>
    decreases table.len(),
{
    if table.len() == 0 {
        None
    } else if table[0].core == core && table[0].anchor == anchor {
        Some(table[0].replacement)
    } else {
        lookup(table.drop_first(), core, anchor)
    }
}

/// The longest core length in `table`, or 0 for an empty table.
pub open spec fn max_len_of(table: Seq<RuleView>) -> nat
    decreases table.len(),
{
    if table.len() == 0 {
        0
    } else {
        let m = max_len_of(table.drop_last());
        let l = table.last().core.len();
        if l > m {
            l
        } else {
            m
        }
    }
}

/// Some rule of `table` applies at the start of a word only.
pub open spec fn has_start_rule(table: Seq<RuleView>) -> bool {
    exists|i: int|
        0 <= i < table.len() && (#[trigger] table[i].anchor == Anchor::Start || table[i].anchor
            == Anchor::Both)
}

/// Some rule of `table` applies at the end of a word only.
pub open spec fn has_end_rule(table: Seq<RuleView>) -> bool {
    exists|i: int|
        0 <= i < table.len() && (#[trigger] table[i].anchor == Anchor::End || table[i].anchor
            == Anchor::Both)
}

/// The mathematical value of a [`RuleSet`]: its rules in table order and the
/// case that words are folded to.
pub struct RuleSetView {
    pub table: Seq<RuleView>,
    pub fold: Fold,
}

/// A compiled, immutable rule table for one language.
pub struct RuleSet {
    rules: Vec<Rule>,
    search: SearchRules,
    fold: Fold,
}

impl View for RuleSet {
    type V = RuleSetView;

    closed spec fn view(&self) -> RuleSetView {
        RuleSetView { table: self.rules@.map_values(|r: Rule| r@), fold: self.fold }
    }
}

/// Every core of `table` has at least one cluster.
pub open spec fn cores_nonempty(table: Seq<RuleView>) -> bool {
    forall|i: int| 0 <= i < table.len() ==> #[trigger] table[i].core.len() > 0
}

impl RuleSet {
    #[verifier::type_invariant]
    closed spec fn wf(&self) -> bool {
        let table = self.rules@.map_values(|r: Rule| r@);
        &&& cores_nonempty(table)
        &&& self.search.max_key_len == max_len_of(table)
        &&& self.search.prefix_start == has_start_rule(table)
        &&& self.search.postfix_end == has_end_rule(table)
    }

    /// The metadata of this table.
    pub fn search_rules(&self) -> (r: SearchRules)
        ensures
            r.max_key_len == max_len_of(self@.table),
            r.prefix_start == has_start_rule(self@.table),
            r.postfix_end == has_end_rule(self@.table),
            cores_nonempty(self@.table),
    {
        proof {
            use_type_invariant(self);
        }
        self.search
    }

    /// The case that this table is written in.
    pub fn fold(&self) -> (r: Fold)
        ensures
            r == self@.fold,
    {
        self.fold
    }

    /// The replacement of the rule at `index`.
    pub fn replacement(&self, index: usize) -> (r: &str)
        requires
            index < self@.table.len(),
        ensures
            r@ == self@.table[index as int].replacement,
    {
        self.rules[index].replacement.as_str()
    }

    /// Finds the first rule whose core is `word[from..to]` and whose anchor
    /// is `anchor`.
    pub fn find(&self, word: &Vec<String>, from: usize, to: usize, anchor: Anchor) -> (r: Option<
        usize,
    >)
        requires
            from <= to <= word.len(),
        ensures
            match r {
                Some(i) => i < self@.table.len() && lookup(
                    self@.table,
                    word.deep_view().subrange(from as int, to as int),
                    anchor,
                ) == Some(self@.table[i as int].replacement),
                None => lookup(
                    self@.table,
                    word.deep_view().subrange(from as int, to as int),
                    anchor,
                ) is None,
            },
    {
        let ghost table = self@.table;
        let ghost key = word.deep_view().subrange(from as int, to as int);
        let n = self.rules.len();
        assert(table.subrange(0, n as int) =~= table);
        let mut i: usize = 0;
        while i < n
            invariant
                i <= n == table.len(),
                table == self@.table,
                key == word.deep_view().subrange(from as int, to as int),
                from <= to <= word.len(),
                lookup(table, key, anchor) == lookup(table.subrange(i as int, n as int), key, anchor),
            decreases n - i,
        {
            let rule = &self.rules[i];
            assert(rule@ == table[i as int]);
            assert(table.subrange(i as int, n as int).drop_first() =~= table.subrange(
                i + 1,
                n as int,
            ));
            if rule.anchor == anchor && same_clusters(&rule.core, word, from, to) {
                return Some(i);
            }
            i = i + 1;
        }
        None
    }
}

/// `core` equals the clusters `word[from..to]`.
fn same_clusters(core: &Vec<String>, word: &Vec<String>, from: usize, to: usize) -> (r: bool)
    requires
        from <= to <= word.len(),
    ensures
        r == (core.deep_view() == word.deep_view().subrange(from as int, to as int)),
{
    let ghost key = word.deep_view().subrange(from as int, to as int);
    if core.len() != to - from {
        assert(core.deep_view().len() != key.len());
        return false;
    }
    let mut j: usize = 0;
    while j < core.len()
        invariant
            core.len() == to - from,
            from <= to <= word.len(),
            key == word.deep_view().subrange(from as int, to as int),
            j <= core.len(),
            forall|k: int| 0 <= k < j ==> core.deep_view()[k] == key[k],
        decreases core.len() - j,
    {
        if core[j] != word[from + j] {
            assert(core.deep_view()[j as int] != key[j as int]);
            return false;
        }
        j = j + 1;
    }
    assert(core.deep_view() =~= key);
    true
}

/// Equal core lengths give equal maxima.
proof fn lemma_max_len(table: Seq<RuleView>, pats: Seq<Seq<char>>)
    requires
        table.len() == pats.len(),
        forall|i: int| 0 <= i < table.len() ==> #[trigger] table[i].core.len() == core_len(pats[i]),
    ensures
        max_len_of(table) == max_core_len(pats),
    decreases table.len(),
{
    if table.len() > 0 {
        lemma_max_len(table.drop_last(), pats.drop_last());
    }
}

/// Compiles a table of `(pattern, replacement)` entries whose patterns are
/// written in case `fold`. Fails on the first pattern whose core is empty.
pub fn compile_rules(entries: &[(&str, &str)], fold: Fold) -> (r: Result<RuleSet, RuleError>)
    ensures
        match r {
            Ok(rs) => {
                &&& forall|i: int|
                    0 <= i < entries@.len() ==> #[trigger] core_text(entries@[i].0@).len() > 0
                &&& rs@.table == table_of(entry_views(entries@))
                &&& rs@.fold == fold
            },
            Err(RuleError::EmptyPattern(i)) => {
                &&& i < entries@.len()
                &&& core_text(entries@[i as int].0@).len() == 0
                &&& forall|j: int| 0 <= j < i ==> #[trigger] core_text(entries@[j].0@).len() > 0
            },
        },
{
    let ghost pats = patterns_of(entries@);
    let ghost want = table_of(entry_views(entries@));
    let mut rules: Vec<Rule> = Vec::new();
    let mut i: usize = 0;
    while i < entries.len()
        invariant
            i <= entries@.len(),
            pats == patterns_of(entries@),
            want == table_of(entry_views(entries@)),
            rules@.len() == i,
            forall|j: int| 0 <= j < i ==> #[trigger] rules@[j]@ == want[j],
            forall|j: int| 0 <= j < i ==> #[trigger] core_text(entries@[j].0@).len() > 0,
            forall|j: int| 0 <= j < i ==> #[trigger] rules@[j]@.core.len() > 0,
        decreases entries@.len() - i,
    {
        let (pattern, replacement) = entries[i];
        let (core, anchor) = parse_pattern(pattern);
        if core.unicode_len() == 0 {
            return Err(RuleError::EmptyPattern(i));
        }
        let clusters = split_graphemes(core);
        proof {
            if clusters.deep_view().len() == 0 {
                assert(clusters.deep_view().flatten() =~= Seq::<char>::empty());
            }
        }
        let rule = Rule { core: clusters, anchor, replacement: String::from_str(replacement) };
        rules.push(rule);
        i = i + 1;
    }
    let search = derive_search_rules(entries);
    let ghost table = rules@.map_values(|r: Rule| r@);
    proof {
        assert(table =~= want);
        assert forall|j: int| 0 <= j < table.len() implies #[trigger] table[j].core.len()
            == core_len(pats[j]) by {}
        lemma_max_len(table, pats);
        if search.prefix_start {
            let j = choose|j: int| 0 <= j < pats.len() && #[trigger] anchored_start(pats[j]);
            assert(table[j].anchor == Anchor::Start || table[j].anchor == Anchor::Both);
        }
        if has_start_rule(table) {
            let j = choose|j: int|
                0 <= j < table.len() && (#[trigger] table[j].anchor == Anchor::Start
                    || table[j].anchor == Anchor::Both);
            assert(anchored_start(pats[j]));
        }
        if search.postfix_end {
            let j = choose|j: int| 0 <= j < pats.len() && #[trigger] anchored_end(pats[j]);
            assert(table[j].anchor == Anchor::End || table[j].anchor == Anchor::Both);
        }
        if has_end_rule(table) {
            let j = choose|j: int|
                0 <= j < table.len() && (#[trigger] table[j].anchor == Anchor::End
                    || table[j].anchor == Anchor::Both);
            assert(anchored_end(pats[j]));
        }
    }
    Ok(RuleSet { rules, search, fold })
}

} // verus!
