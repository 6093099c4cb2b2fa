//! Extraction of Dofus item stats from OCR text.
use vstd::prelude::*;

use crate::errors::AppError;
use crate::text::{
    all_white_space, ascii_lower_code, chars_contain, chars_eq_ignore_ascii_case, chars_of,
    eq_ignoring_ascii_case, is_white_space, lemma_trimmed_idempotent,
    lemma_trimmed_ignores_surrounding_white_space, lemma_trimmed_of_clean_text, lowercased,
    occurs_in, split_lines, text_lines, to_lowercase_text, trim_text, trimmed,
};

verus! {

/// A stat line such as `+15 Force` or `-5 Intelligence`: optional sign,
/// number, label.
pub const SIMPLE_STAT_PATTERN: &'static str = r"(?m)^\s*([+\-])?\s*(\d+(?:\.\d+)?)\s+([[:alpha:]%][[:alpha:]% éàâêîôùûçèïœæ/()'-]+?)\s*$";

/// A ranged stat line such as `10 à 20 Sagesse`: optional sign, low number,
/// `à`, high number, label.
pub const RANGE_STAT_PATTERN: &'static str = r"(?m)^\s*([+\-])?\s*(\d+(?:\.\d+)?)\s+à\s+(\d+(?:\.\d+)?)\s+([[:alpha:]%][[:alpha:]% éàâêîôùûçèïœæ/()'-]+?)\s*$";

/// The capture groups of each successive non-overlapping match of the
/// regular expression `pattern` in `text`, as `regex::Regex::captures_iter`
/// yields them: group 0 (the whole match) first, `None` for a group that did
/// not take part in the match.
pub uninterp spec fn regex_capture_groups(pattern: Seq<char>, text: Seq<char>) -> Seq<Seq<Option<Seq<char>>>>;

/// A number as the stat patterns capture it (`\d+(?:\.\d+)?`): not empty,
/// and without a sign.
pub open spec fn unsigned_number(t: Seq<char>) -> bool {
    t.len() > 0 && forall|i: int| 0 <= i < t.len() ==> #[trigger] t[i] != '+' && t[i] != '-'
}

/// A match of the simple stat pattern holds its four groups, the number and
/// the label always present, the number unsigned.
pub open spec fn simple_groups_present(m: Seq<Option<Seq<char>>>) -> bool {
    &&& m.len() == 4
    &&& m[2] is Some
    &&& m[3] is Some
    &&& unsigned_number(m[2]->0)
}

/// A match of the ranged stat pattern holds its five groups, both numbers
/// and the label always present, both numbers unsigned.
pub open spec fn range_groups_present(m: Seq<Option<Seq<char>>>) -> bool {
    &&& m.len() == 5
    &&& m[2] is Some
    &&& m[3] is Some
    &&& m[4] is Some
    &&& unsigned_number(m[2]->0)
    &&& unsigned_number(m[3]->0)
}

/// Compiles one of the two stat patterns with `regex::Regex::new` (both are
/// valid, so this does not fail) and collects `regex::Regex::captures_iter`
/// on `text`, each match as the text of its groups. Claims that the result is
/// `regex_capture_groups`, that each match holds as many groups as the
/// pattern has plus one, those outside an optional part present, and that
/// the number groups hold digits and at most a dot, never a sign.
#[verifier::external_body]
fn regex_captures(pattern: &str, text: &str) -> (caps: Vec<Vec<Option<String>>>)
    requires
        pattern@ == SIMPLE_STAT_PATTERN@ || pattern@ == RANGE_STAT_PATTERN@,
    ensures
        caps.deep_view() == regex_capture_groups(pattern@, text@),
        pattern@ == SIMPLE_STAT_PATTERN@ ==> forall|i: int|
            0 <= i < caps.len() ==> simple_groups_present(#[trigger] caps.deep_view()[i]),
        pattern@ == RANGE_STAT_PATTERN@ ==> forall|i: int|
            0 <= i < caps.len() ==> range_groups_present(#[trigger] caps.deep_view()[i]),
{
    let re = regex::Regex::new(pattern).expect("stat patterns are valid regular expressions");
    re.captures_iter(text).map(|c| c.iter().map(|g| g.map(|g| g.as_str().to_string())).collect()).collect()
}

/// Canonical Dofus stat labels, in the order in which they are tried.
pub open spec fn known_stat_labels() -> Seq<Seq<char>> {
    seq![
        "Force"@, "Intelligence"@, "Chance"@, "Agilité"@, "Vitalité"@, "Sagesse"@,
        "Puissance"@, "Dommages"@, "Soins"@, "PA"@, "PM"@, "Portée"@, "Invocations"@,
        "Prospection"@, "Initiative"@, "Pods"@, "% Résistance Terre"@, "% Résistance Feu"@,
        "% Résistance Eau"@, "% Résistance Air"@, "% Résistance Neutre"@,
        "Résistance Terre"@, "Résistance Feu"@, "Résistance Eau"@, "Résistance Air"@,
        "Résistance Neutre"@, "Esquive PA"@, "Esquive PM"@, "Retrait PA"@, "Retrait PM"@,
        "Tacle"@, "Fuite"@,
    ]
}

fn known_stat_label_list() -> (v: Vec<&'static str>)
    ensures
        v@.map_values(|s: &str| s@) == known_stat_labels(),
{
    let v = vec![
        "Force", "Intelligence", "Chance", "Agilité", "Vitalité", "Sagesse",
        "Puissance", "Dommages", "Soins", "PA", "PM", "Portée", "Invocations",
        "Prospection", "Initiative", "Pods", "% Résistance Terre", "% Résistance Feu",
        "% Résistance Eau", "% Résistance Air", "% Résistance Neutre",
        "Résistance Terre", "Résistance Feu", "Résistance Eau", "Résistance Air",
        "Résistance Neutre", "Esquive PA", "Esquive PM", "Retrait PA", "Retrait PM",
        "Tacle", "Fuite",
    ];
    assert(v@.map_values(|s: &str| s@) =~= known_stat_labels());
    v
}

/// The first known label from position `i` on that equals `label` up to
/// ASCII case.
pub open spec fn exact_label_from(label: Seq<char>, i: int) -> Option<Seq<char>>
    decreases known_stat_labels().len() - i,
{
    if i < 0 || i >= known_stat_labels().len() {
        None
    } else if eq_ignoring_ascii_case(known_stat_labels()[i], label) {
        Some(known_stat_labels()[i])
    } else {
        exact_label_from(label, i + 1)
    }
}

/// The first known label from position `i` on whose lower-case form holds
/// `lower`.
pub open spec fn fragment_label_from(lower: Seq<char>, i: int) -> Option<Seq<char>>
    decreases known_stat_labels().len() - i,
{
    if i < 0 || i >= known_stat_labels().len() {
        None
    } else if occurs_in(lower, lowercased(known_stat_labels()[i])) {
        Some(known_stat_labels()[i])
    } else {
        fragment_label_from(lower, i + 1)
    }
}

/// The canonical form of a trimmed OCR label: the known label equal to it up
/// to ASCII case; failing that, the first known label whose lower-case form
/// holds the lower-case label; failing that, the label itself.
pub open spec fn canonical_label(label: Seq<char>) -> Seq<char> {
    match exact_label_from(label, 0) {
        Some(k) => k,
        None => match fragment_label_from(lowercased(label), 0) {
            Some(k) => k,
            None => label,
        },
    }
}

/// The canonical form of a raw OCR stat label: the raw label trimmed, then
/// canonicalised.
pub open spec fn spec_normalise_stat_name(raw: Seq<char>) -> Seq<char> {
    canonical_label(trimmed(raw))
}

/// Normalises a raw stat name from OCR to its canonical form when possible.
pub fn normalise_stat_name(raw: &str) -> (r: String)
    ensures
        r@ == spec_normalise_stat_name(raw@),
        r@ != trimmed(raw@) ==> {
            &&& known_stat_labels().contains(r@)
            &&& (eq_ignoring_ascii_case(r@, trimmed(raw@)) || occurs_in(lowercased(trimmed(raw@)), lowercased(r@)))
        },
        (forall|j: int|
            0 <= j < known_stat_labels().len() ==> !eq_ignoring_ascii_case(
                #[trigger] known_stat_labels()[j],
                trimmed(raw@),
            ) && !occurs_in(lowercased(trimmed(raw@)), lowercased(known_stat_labels()[j])))
            ==> r@ == trimmed(raw@),
{
    proof {
        lemma_normalised_label_stands_for_raw(raw@);
    }
    let label = trim_text(raw);
    let label_chars = chars_of(label);
    let labels = known_stat_label_list();
    let ghost known = known_stat_labels();
    let mut i: usize = 0;
    while i < labels.len()
        invariant
            labels@.map_values(|s: &str| s@) == known,
            known == known_stat_labels(),
            label@ == trimmed(raw@),
            label_chars@ == label@,
            i <= labels.len(),
            exact_label_from(label@, 0) == exact_label_from(label@, i as int),
        decreases labels.len() - i,
    {
        let candidate = labels[i];
        assert(candidate@ == known[i as int]);
        let candidate_chars = chars_of(candidate);
        if chars_eq_ignore_ascii_case(&candidate_chars, &label_chars) {
            return String::from_str(candidate);
        }
        i = i + 1;
    }
    let lower = to_lowercase_text(label);
    let lower_chars = chars_of(lower.as_str());
    let mut i: usize = 0;
    while i < labels.len()
        invariant
            labels@.map_values(|s: &str| s@) == known,
            known == known_stat_labels(),
            exact_label_from(label@, 0) is None,
            label@ == trimmed(raw@),
            lower@ == lowercased(label@),
            lower_chars@ == lower@,
            i <= labels.len(),
            fragment_label_from(lower@, 0) == fragment_label_from(lower@, i as int),
        decreases labels.len() - i,
    {
        let candidate = labels[i];
        assert(candidate@ == known[i as int]);
        let candidate_lower = to_lowercase_text(candidate);
        let candidate_lower_chars = chars_of(candidate_lower.as_str());
        if chars_contain(&candidate_lower_chars, &lower_chars) {
            return String::from_str(candidate);
        }
        i = i + 1;
    }
    String::from_str(label)
}

/// The known labels are pairwise different even up to ASCII case, and none
/// begins or ends with white space.
proof fn lemma_known_labels_distinct_and_clean()
    ensures
        forall|i: int|
            0 <= i < known_stat_labels().len() ==> {
                let k = #[trigger] known_stat_labels()[i];
                k.len() > 0 && !is_white_space(k[0]) && !is_white_space(k.last())
            },
        forall|i: int, j: int|
            0 <= j < i < known_stat_labels().len() ==> !eq_ignoring_ascii_case(
                #[trigger] known_stat_labels()[j],
                #[trigger] known_stat_labels()[i],
            ),
{
    reveal_strlit("Force");
    reveal_strlit("Intelligence");
    reveal_strlit("Chance");
    reveal_strlit("Agilité");
    reveal_strlit("Vitalité");
    reveal_strlit("Sagesse");
    reveal_strlit("Puissance");
    reveal_strlit("Dommages");
    reveal_strlit("Soins");
    reveal_strlit("PA");
    reveal_strlit("PM");
    reveal_strlit("Portée");
    reveal_strlit("Invocations");
    reveal_strlit("Prospection");
    reveal_strlit("Initiative");
    reveal_strlit("Pods");
    reveal_strlit("% Résistance Terre");
    reveal_strlit("% Résistance Feu");
    reveal_strlit("% Résistance Eau");
    reveal_strlit("% Résistance Air");
    reveal_strlit("% Résistance Neutre");
    reveal_strlit("Résistance Terre");
    reveal_strlit("Résistance Feu");
    reveal_strlit("Résistance Eau");
    reveal_strlit("Résistance Air");
    reveal_strlit("Résistance Neutre");
    reveal_strlit("Esquive PA");
    reveal_strlit("Esquive PM");
    reveal_strlit("Retrait PA");
    reveal_strlit("Retrait PM");
    reveal_strlit("Tacle");
    reveal_strlit("Fuite");
    let known = known_stat_labels();
    assert forall|i: int, j: int| 0 <= j < i < known.len() implies !eq_ignoring_ascii_case(
        #[trigger] known[j],
        #[trigger] known[i],
    ) by {
        let a = known[j];
        let b = known[i];
        if eq_ignoring_ascii_case(a, b) {
            assert(ascii_lower_code(a[0]) == ascii_lower_code(b[0]));
            if a.len() > 1 {
                assert(ascii_lower_code(a[1]) == ascii_lower_code(b[1]));
            }
            if a.len() > 9 {
                assert(ascii_lower_code(a[9]) == ascii_lower_code(b[9]));
            }
            if a.len() > 11 {
                assert(ascii_lower_code(a[11]) == ascii_lower_code(b[11]));
            }
            if a.len() > 13 {
                assert(ascii_lower_code(a[13]) == ascii_lower_code(b[13]));
            }
        }
    }
}

proof fn lemma_exact_label_from(label: Seq<char>, i: int)
    requires
        0 <= i,
    ensures
        exact_label_from(label, i) matches Some(k) ==> known_stat_labels().contains(k)
            && eq_ignoring_ascii_case(k, label),
        exact_label_from(label, i) is None ==> forall|j: int|
            i <= j < known_stat_labels().len() ==> !eq_ignoring_ascii_case(#[trigger] known_stat_labels()[j], label),
    decreases known_stat_labels().len() - i,
{
    if 0 <= i < known_stat_labels().len() {
        if eq_ignoring_ascii_case(known_stat_labels()[i], label) {
            assert(known_stat_labels().contains(known_stat_labels()[i]));
        } else {
            lemma_exact_label_from(label, i + 1);
        }
    }
}

proof fn lemma_fragment_label_from(lower: Seq<char>, i: int)
    requires
        0 <= i,
    ensures
        fragment_label_from(lower, i) matches Some(k) ==> known_stat_labels().contains(k) && occurs_in(
            lower,
            lowercased(k),
        ),
        fragment_label_from(lower, i) is None ==> forall|j: int|
            i <= j < known_stat_labels().len() ==> !occurs_in(lower, lowercased(#[trigger] known_stat_labels()[j])),
    decreases known_stat_labels().len() - i,
{
    if 0 <= i < known_stat_labels().len() {
        if occurs_in(lower, lowercased(known_stat_labels()[i])) {
            assert(known_stat_labels().contains(known_stat_labels()[i]));
        } else {
            lemma_fragment_label_from(lower, i + 1);
        }
    }
}

/// What normalising gives: a label other than the trimmed raw label is a
/// known label that equals the trimmed label up to ASCII case or whose lower
/// case holds the lower-cased trimmed label; when no known label does either,
/// the result is the trimmed label itself.
pub proof fn lemma_normalised_label_stands_for_raw(raw: Seq<char>)
    ensures
        spec_normalise_stat_name(raw) != trimmed(raw) ==> {
            &&& known_stat_labels().contains(spec_normalise_stat_name(raw))
            &&& (eq_ignoring_ascii_case(spec_normalise_stat_name(raw), trimmed(raw)) || occurs_in(
                lowercased(trimmed(raw)),
                lowercased(spec_normalise_stat_name(raw)),
            ))
        },
        (forall|j: int|
            0 <= j < known_stat_labels().len() ==> !eq_ignoring_ascii_case(
                #[trigger] known_stat_labels()[j],
                trimmed(raw),
            ) && !occurs_in(lowercased(trimmed(raw)), lowercased(known_stat_labels()[j])))
            ==> spec_normalise_stat_name(raw) == trimmed(raw),
{
    let t = trimmed(raw);
    lemma_exact_label_from(t, 0);
    lemma_fragment_label_from(lowercased(t), 0);
    if exact_label_from(t, 0) is Some {
        let k = exact_label_from(t, 0)->0;
        let j = choose|j: int| 0 <= j < known_stat_labels().len() && known_stat_labels()[j] == k;
        assert(eq_ignoring_ascii_case(known_stat_labels()[j], t));
    } else if fragment_label_from(lowercased(t), 0) is Some {
        let k = fragment_label_from(lowercased(t), 0)->0;
        let j = choose|j: int| 0 <= j < known_stat_labels().len() && known_stat_labels()[j] == k;
        assert(occurs_in(lowercased(t), lowercased(known_stat_labels()[j])));
    }
}

/// When the known label at `i` equals `label` up to ASCII case and none
/// between `m` and `i` does, the exact search from `m` finds the one at `i`.
proof fn lemma_exact_label_finds(label: Seq<char>, i: int, m: int)
    requires
        0 <= m <= i < known_stat_labels().len(),
        eq_ignoring_ascii_case(known_stat_labels()[i], label),
        forall|j: int| m <= j < i ==> !eq_ignoring_ascii_case(#[trigger] known_stat_labels()[j], label),
    ensures
        exact_label_from(label, m) == Some(known_stat_labels()[i]),
    decreases i - m,
{
    if m < i {
        lemma_exact_label_finds(label, i, m + 1);
    }
}

/// Every known label is its own canonical form.
pub proof fn lemma_known_label_is_canonical(i: int)
    requires
        0 <= i < known_stat_labels().len(),
    ensures
        spec_normalise_stat_name(known_stat_labels()[i]) == known_stat_labels()[i],
{
    let k = known_stat_labels()[i];
    lemma_known_labels_distinct_and_clean();
    lemma_trimmed_of_clean_text(k);
    lemma_exact_label_finds(k, i, 0);
}

/// White space around a raw label makes no difference to its canonical form.
pub proof fn lemma_normalise_ignores_surrounding_white_space(p: Seq<char>, raw: Seq<char>, q: Seq<char>)
    requires
        all_white_space(p),
        all_white_space(q),
    ensures
        spec_normalise_stat_name(p + raw + q) == spec_normalise_stat_name(raw),
{
    lemma_trimmed_ignores_surrounding_white_space(p, raw, q);
}

/// Normalising a normalised label changes nothing.
pub proof fn lemma_normalise_is_idempotent(raw: Seq<char>)
    ensures
        spec_normalise_stat_name(spec_normalise_stat_name(raw)) == spec_normalise_stat_name(raw),
{
    let n = spec_normalise_stat_name(raw);
    lemma_normalised_is_known_or_trimmed(raw);
    if known_stat_labels().contains(n) {
        let i = choose|i: int| 0 <= i < known_stat_labels().len() && known_stat_labels()[i] == n;
        lemma_known_label_is_canonical(i);
    } else {
        lemma_trimmed_idempotent(raw);
    }
}

/// A normalised label is a known label, or the trimmed raw label itself.
pub proof fn lemma_normalised_is_known_or_trimmed(raw: Seq<char>)
    ensures
        spec_normalise_stat_name(raw) == trimmed(raw) || known_stat_labels().contains(
            spec_normalise_stat_name(raw),
        ),
{
    lemma_exact_label_from(trimmed(raw), 0);
    lemma_fragment_label_from(lowercased(trimmed(raw)), 0);
}

/// The number of a parsed stat, as written in the OCR text.
#[derive(Debug, Clone, PartialEq)]
pub enum StatValue {
    /// A single number (`+15 Force`).
    Single(String),
    /// A range (`10 à 20 Sagesse`): low and high number; the stat's value is
    /// their midpoint.
    Range(String, String),
}

/// A single parsed Dofus stat extracted from OCR text.
#[derive(Debug, Clone, PartialEq)]
pub struct ParsedStat {
    /// Stat label (e.g. "Force", "Intelligence", "% Résistance Feu").
    pub name: String,
    /// The number, or the two numbers of a range, as written.
    pub value: StatValue,
    /// `true` when the stat prefix is `"-"`.
    pub is_negative: bool,
}

/// A complete set of parsed stats for a Dofus item.
#[derive(Debug, Clone, PartialEq)]
pub struct ParsedItemStats {
    /// Item name extracted from the first non-stat line, or `None` if not detected.
    pub item_name: Option<String>,
    /// All recognised stat entries.
    pub stats: Vec<ParsedStat>,
}

/// Model of a stat's number.
pub enum StatValueView {
    Single(Seq<char>),
    Range(Seq<char>, Seq<char>),
}

/// Model of a parsed stat.
pub struct ParsedStatView {
    pub name: Seq<char>,
    pub value: StatValueView,
    pub is_negative: bool,
}

/// Model of a parsed item.
pub struct ParsedItemStatsView {
    pub item_name: Option<Seq<char>>,
    pub stats: Seq<ParsedStatView>,
}

impl View for StatValue {
    type V = StatValueView;

    open spec fn view(&self) -> StatValueView {
        match self {
            StatValue::Single(n) => StatValueView::Single(n@),
            StatValue::Range(lo, hi) => StatValueView::Range(lo@, hi@),
        }
    }
}

impl View for ParsedStat {
    type V = ParsedStatView;

    open spec fn view(&self) -> ParsedStatView {
        ParsedStatView { name: self.name@, value: self.value@, is_negative: self.is_negative }
    }
}

impl View for ParsedItemStats {
    type V = ParsedItemStatsView;

    open spec fn view(&self) -> ParsedItemStatsView {
        ParsedItemStatsView {
            item_name: match self.item_name {
                Some(n) => Some(n@),
                None => None,
            },
            stats: self.stats@.map_values(|s: ParsedStat| s@),
        }
    }
}

/// The sign group of a match marks a negative stat when it is `-`.
pub open spec fn is_minus_sign(sign: Option<Seq<char>>) -> bool {
    sign == Some(seq!['-'])
}

/// The stat that a match of the ranged pattern describes.
pub open spec fn range_stat(m: Seq<Option<Seq<char>>>) -> ParsedStatView {
    ParsedStatView {
        name: spec_normalise_stat_name(m[4]->0),
        value: StatValueView::Range(m[2]->0, m[3]->0),
        is_negative: is_minus_sign(m[1]),
    }
}

/// The stat that a match of the simple pattern describes.
pub open spec fn simple_stat(m: Seq<Option<Seq<char>>>) -> ParsedStatView {
    ParsedStatView {
        name: spec_normalise_stat_name(m[3]->0),
        value: StatValueView::Single(m[2]->0),
        is_negative: is_minus_sign(m[1]),
    }
}

/// The numbers of a parsed stat carry no sign: the sign is in
/// `is_negative`.
pub open spec fn stat_numbers_unsigned(st: ParsedStatView) -> bool {
    match st.value {
        StatValueView::Single(n) => unsigned_number(n),
        StatValueView::Range(lo, hi) => unsigned_number(lo) && unsigned_number(hi),
    }
}

/// Some stat of `stats` has the label `name`.
pub open spec fn has_stat_named(stats: Seq<ParsedStatView>, name: Seq<char>) -> bool {
    exists|j: int| 0 <= j < stats.len() && #[trigger] stats[j].name == name
}

/// `base` followed by the stats of the simple matches `caps`, in order, each
/// left out when a stat with its label is already there.
pub open spec fn add_simple_stats(
    base: Seq<ParsedStatView>,
    caps: Seq<Seq<Option<Seq<char>>>>,
) -> Seq<ParsedStatView>
    decreases caps.len(),
{
    if caps.len() == 0 {
        base
    } else {
        let prev = add_simple_stats(base, caps.drop_last());
        let st = simple_stat(caps.last());
        if has_stat_named(prev, st.name) {
            prev
        } else {
            prev.push(st)
        }
    }
}

/// The stats of `text`: one for each ranged stat line, in order, then one for
/// each simple stat line whose label was not seen before.
pub open spec fn parsed_stats(text: Seq<char>) -> Seq<ParsedStatView> {
    add_simple_stats(
        regex_capture_groups(RANGE_STAT_PATTERN@, text).map_values(|m: Seq<Option<Seq<char>>>| range_stat(m)),
        regex_capture_groups(SIMPLE_STAT_PATTERN@, text),
    )
}

/// Either stat pattern matches somewhere in `line`.
pub open spec fn is_stat_line(line: Seq<char>) -> bool {
    regex_capture_groups(SIMPLE_STAT_PATTERN@, line).len() > 0
        || regex_capture_groups(RANGE_STAT_PATTERN@, line).len() > 0
}

/// `t` begins with an ASCII digit.
pub open spec fn starts_with_ascii_digit(t: Seq<char>) -> bool {
    t.len() > 0 && 48 <= (t[0] as u32) <= 57
}

/// A trimmed line that can name the item: not empty, no stat, not starting
/// with a digit.
pub open spec fn names_item(t: Seq<char>) -> bool {
    t.len() > 0 && !is_stat_line(t) && !starts_with_ascii_digit(t)
}

/// The first of `lines`, trimmed, that can name the item.
pub open spec fn first_item_name(lines: Seq<Seq<char>>) -> Option<Seq<char>>
    decreases lines.len(),
{
    if lines.len() == 0 {
        None
    } else if names_item(trimmed(lines[0])) {
        Some(trimmed(lines[0]))
    } else {
        first_item_name(lines.drop_first())
    }
}

/// What `parse_stats` makes of `text`.
pub open spec fn spec_parse_stats(text: Seq<char>) -> ParsedItemStatsView {
    ParsedItemStatsView {
        item_name: first_item_name(text_lines(text)),
        stats: parsed_stats(text),
    }
}

fn is_minus(sign: &Option<String>) -> (r: bool)
    ensures
        r == is_minus_sign(sign.deep_view()),
{
    match sign {
        Some(s) => {
            let minus = String::from_str("-");
            proof {
                reveal_strlit("-");
                assert("-"@ =~= seq!['-']);
            }
            *s == minus
        },
        None => false,
    }
}

fn group_text(group: &Option<String>) -> (r: String)
    requires
        group is Some,
    ensures
        r@ == group.deep_view()->0,
{
    match group {
        Some(s) => s.clone(),
        None => String::new(),
    }
}

fn has_stat_named_exec(stats: &Vec<ParsedStat>, name: &String) -> (r: bool)
    ensures
        r == has_stat_named(stats@.map_values(|s: ParsedStat| s@), name@),
{
    let ghost views = stats@.map_values(|s: ParsedStat| s@);
    let mut i: usize = 0;
    while i < stats.len()
        invariant
            views == stats@.map_values(|s: ParsedStat| s@),
            i <= stats.len(),
            forall|j: int| 0 <= j < i ==> views[j].name != name@,
        decreases stats.len() - i,
    {
        if stats[i].name == *name {
            assert(views[i as int].name == name@);
            return true;
        }
        i = i + 1;
    }
    false
}

fn stat_line_exec(line: &str) -> (r: bool)
    ensures
        r == is_stat_line(line@),
{
    let simple = regex_captures(SIMPLE_STAT_PATTERN, line);
    if simple.len() > 0 {
        return true;
    }
    let ranged = regex_captures(RANGE_STAT_PATTERN, line);
    ranged.len() > 0
}

fn starts_with_digit(t: &str) -> (r: bool)
    requires
        t@.len() > 0,
    ensures
        r == starts_with_ascii_digit(t@),
{
    let c = t.get_char(0);
    let code = c as u32;
    48 <= code && code <= 57
}

/// The first line of `text`, trimmed, that can name the item.
fn detect_item_name(text: &str) -> (r: Option<String>)
    ensures
        r.deep_view() == first_item_name(text_lines(text@)),
{
    let lines = split_lines(text);
    let ghost all = text_lines(text@);
    assert(all.subrange(0, all.len() as int) =~= all);
    let mut i: usize = 0;
    while i < lines.len()
        invariant
            all == text_lines(text@),
            lines@.map_values(|l: &str| l@) == all,
            i <= lines.len(),
            first_item_name(all) == first_item_name(all.subrange(i as int, all.len() as int)),
        decreases lines.len() - i,
    {
        let line = trim_text(lines[i]);
        assert(all.subrange(i as int, all.len() as int)[0] == lines@[i as int]@);
        assert(all.subrange(i as int, all.len() as int).drop_first() =~= all.subrange(i + 1, all.len() as int));
        if !line.is_empty() && !stat_line_exec(line) && !starts_with_digit(line) {
            let ghost rest = all.subrange(i as int, all.len() as int);
            assert(names_item(trimmed(rest[0])));
            assert(first_item_name(rest) == Some(line@));
            let name = String::from_str(line);
            return Some(name);
        }
        i = i + 1;
    }
    None
}

/// Parses raw OCR text and extracts Dofus item stats.
///
/// The item name is the first line that is not empty, holds no stat pattern
/// and does not start with a digit; the stats are the ranged stat lines
/// followed by the simple stat lines whose label was not already seen.
pub fn parse_stats(text: &str) -> (r: ParsedItemStats)
    ensures
        r@ == spec_parse_stats(text@),
        forall|k: int| 0 <= k < r@.stats.len() ==> stat_numbers_unsigned(#[trigger] r@.stats[k]),
        forall|j: int, k: int|
            #![trigger r@.stats[j], r@.stats[k]]
            regex_capture_groups(RANGE_STAT_PATTERN@, text@).len() <= k < r@.stats.len() && 0 <= j < k
                ==> r@.stats[j].name != r@.stats[k].name,
        r@.item_name matches Some(n) ==> exists|i: int|
            0 <= i < text_lines(text@).len() && trimmed(#[trigger] text_lines(text@)[i]) == n && names_item(n)
                && forall|j: int| 0 <= j < i ==> !names_item(trimmed(#[trigger] text_lines(text@)[j])),
        r@.item_name is None ==> forall|j: int|
            0 <= j < text_lines(text@).len() ==> !names_item(trimmed(#[trigger] text_lines(text@)[j])),
{
    proof {
        lemma_item_name_is_the_first_naming_line(text_lines(text@));
    }
    let mut stats: Vec<ParsedStat> = Vec::new();

    let ranged = regex_captures(RANGE_STAT_PATTERN, text);
    let ghost range_caps = regex_capture_groups(RANGE_STAT_PATTERN@, text@);
    let mut i: usize = 0;
    while i < ranged.len()
        invariant
            ranged.deep_view() == range_caps,
            forall|k: int| 0 <= k < ranged.len() ==> range_groups_present(#[trigger] ranged.deep_view()[k]),
            i <= ranged.len(),
            stats@.map_values(|s: ParsedStat| s@) == range_caps.take(i as int).map_values(
                |m: Seq<Option<Seq<char>>>| range_stat(m),
            ),
            forall|k: int| 0 <= k < stats.len() ==> stat_numbers_unsigned(#[trigger] stats@[k]@),
        decreases ranged.len() - i,
    {
        let cap = &ranged[i];
        assert(cap.deep_view() == range_caps[i as int]);
        assert(range_groups_present(ranged.deep_view()[i as int]));
        let name = normalise_stat_name(group_text(&cap[4]).as_str());
        let low = group_text(&cap[2]);
        let high = group_text(&cap[3]);
        let is_negative = is_minus(&cap[1]);
        let stat = ParsedStat { name, value: StatValue::Range(low, high), is_negative };
        let ghost before = stats@.map_values(|s: ParsedStat| s@);
        stats.push(stat);
        assert(stats@.map_values(|s: ParsedStat| s@) =~= before.push(range_stat(range_caps[i as int])));
        assert(range_caps.take(i + 1).map_values(|m: Seq<Option<Seq<char>>>| range_stat(m))
            =~= range_caps.take(i as int).map_values(|m: Seq<Option<Seq<char>>>| range_stat(m)).push(
            range_stat(range_caps[i as int]),
        ));
        i = i + 1;
    }
    assert(range_caps.take(ranged.len() as int) =~= range_caps);
    let ghost base = stats@.map_values(|s: ParsedStat| s@);

    let simple = regex_captures(SIMPLE_STAT_PATTERN, text);
    let ghost simple_caps = regex_capture_groups(SIMPLE_STAT_PATTERN@, text@);
    let mut i: usize = 0;
    while i < simple.len()
        invariant
            simple.deep_view() == simple_caps,
            forall|k: int| 0 <= k < simple.len() ==> simple_groups_present(#[trigger] simple.deep_view()[k]),
            i <= simple.len(),
            stats@.map_values(|s: ParsedStat| s@) == add_simple_stats(base, simple_caps.take(i as int)),
            forall|k: int| 0 <= k < stats.len() ==> stat_numbers_unsigned(#[trigger] stats@[k]@),
        decreases simple.len() - i,
    {
        let cap = &simple[i];
        assert(cap.deep_view() == simple_caps[i as int]);
        assert(simple_groups_present(simple.deep_view()[i as int]));
        let name = normalise_stat_name(group_text(&cap[3]).as_str());
        let value = group_text(&cap[2]);
        let is_negative = is_minus(&cap[1]);
        assert(simple_caps.take(i + 1).drop_last() =~= simple_caps.take(i as int));
        if !has_stat_named_exec(&stats, &name) {
            let ghost before = stats@.map_values(|s: ParsedStat| s@);
            stats.push(ParsedStat { name, value: StatValue::Single(value), is_negative });
            assert(stats@.map_values(|s: ParsedStat| s@) =~= before.push(simple_stat(simple_caps[i as int])));
        }
        i = i + 1;
    }
    assert(simple_caps.take(simple.len() as int) =~= simple_caps);
    proof {
        lemma_simple_stats_never_repeat_a_label(base, simple_caps);
        assert(base.len() == range_caps.len());
    }

    let item_name = detect_item_name(text);
    let r = ParsedItemStats { item_name, stats };
    assert(r@.item_name == first_item_name(text_lines(text@)));
    r
}

/// The stats added for simple stat lines keep the ones already there, in
/// order, and never repeat a label seen before them.
pub proof fn lemma_simple_stats_never_repeat_a_label(
    base: Seq<ParsedStatView>,
    caps: Seq<Seq<Option<Seq<char>>>>,
)
    ensures
        add_simple_stats(base, caps).len() >= base.len(),
        add_simple_stats(base, caps).subrange(0, base.len() as int) == base,
        forall|k: int, j: int|
            #![trigger add_simple_stats(base, caps)[j], add_simple_stats(base, caps)[k]]
            base.len() <= k < add_simple_stats(base, caps).len() && 0 <= j < k ==> add_simple_stats(
                base,
                caps,
            )[j].name != add_simple_stats(base, caps)[k].name,
    decreases caps.len(),
{
    if caps.len() > 0 {
        let prev = add_simple_stats(base, caps.drop_last());
        lemma_simple_stats_never_repeat_a_label(base, caps.drop_last());
        let st = simple_stat(caps.last());
        if !has_stat_named(prev, st.name) {
            let next = prev.push(st);
            assert(next.subrange(0, base.len() as int) =~= prev.subrange(0, base.len() as int));
            assert forall|k: int, j: int|
                #![trigger next[j], next[k]]
                base.len() <= k < next.len() && 0 <= j < k implies next[j].name != next[k].name by {
                if k == prev.len() {
                    assert(next[j] == prev[j]);
                    if prev[j].name == st.name {
                        assert(has_stat_named(prev, st.name));
                    }
                } else {
                    assert(next[j] == prev[j] && next[k] == prev[k]);
                }
            }
        }
    }
}

/// An item name, when one is found, is the trimmed text of one of the lines:
/// not empty, holding no stat pattern, not starting with a digit.
pub proof fn lemma_item_name_is_a_clean_line(lines: Seq<Seq<char>>)
    ensures
        first_item_name(lines) matches Some(n) ==> {
            &&& names_item(n)
            &&& exists|i: int| 0 <= i < lines.len() && trimmed(#[trigger] lines[i]) == n
        },
    decreases lines.len(),
{
    if lines.len() > 0 {
        if names_item(trimmed(lines[0])) {
            assert(trimmed(lines[0]) == first_item_name(lines)->0);
        } else {
            lemma_item_name_is_a_clean_line(lines.drop_first());
            if first_item_name(lines) is Some {
                let n = first_item_name(lines)->0;
                let i = choose|i: int| 0 <= i < lines.drop_first().len() && trimmed(#[trigger] lines.drop_first()[i]) == n;
                assert(lines[i + 1] == lines.drop_first()[i]);
            }
        }
    }
}

/// The item name is the trimmed text of the first line that can name the
/// item: every line before it, trimmed, is empty, holds a stat pattern or
/// starts with a digit. There is no item name only when no line can name it.
pub proof fn lemma_item_name_is_the_first_naming_line(lines: Seq<Seq<char>>)
    ensures
        first_item_name(lines) matches Some(n) ==> exists|i: int|
            0 <= i < lines.len() && trimmed(#[trigger] lines[i]) == n && names_item(n) && forall|j: int|
                0 <= j < i ==> !names_item(trimmed(#[trigger] lines[j])),
        first_item_name(lines) is None ==> forall|j: int|
            0 <= j < lines.len() ==> !names_item(trimmed(#[trigger] lines[j])),
    decreases lines.len(),
{
    if lines.len() > 0 {
        if names_item(trimmed(lines[0])) {
            assert(trimmed(lines[0]) == first_item_name(lines)->0);
        } else {
            let rest = lines.drop_first();
            lemma_item_name_is_the_first_naming_line(rest);
            if first_item_name(lines) is Some {
                let n = first_item_name(lines)->0;
                let i = choose|i: int|
                    0 <= i < rest.len() && trimmed(#[trigger] rest[i]) == n && names_item(n) && forall|j: int|
                        0 <= j < i ==> !names_item(trimmed(#[trigger] rest[j]));
                assert(lines[i + 1] == rest[i]);
                assert forall|j: int| 0 <= j < i + 1 implies !names_item(trimmed(#[trigger] lines[j])) by {
                    if j > 0 {
                        assert(lines[j] == rest[j - 1]);
                    }
                }
            } else {
                assert forall|j: int| 0 <= j < lines.len() implies !names_item(trimmed(#[trigger] lines[j])) by {
                    if j > 0 {
                        assert(lines[j] == rest[j - 1]);
                    }
                }
            }
        }
    }
}

/// Parses an OCR text string and returns the structured item stats; never
/// fails.
pub fn parse_stats_from_text(text: String) -> (r: Result<ParsedItemStats, AppError>)
    ensures
        r matches Ok(p) && p@ == spec_parse_stats(text@),
{
    Ok(parse_stats(text.as_str()))
}

} // verus!
