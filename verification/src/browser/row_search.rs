//! Incremental search over the semantic rows of one card. Rows whose search
//! label starts with the query come first, then rows that contain it, then
//! the remaining fuzzy matches in the order nucleo ranks them.
use vstd::prelude::*;
use vstd::seq_lib::lemma_seq_contains_after_push;
use nucleo::pattern::{CaseMatching, Normalization, Pattern};
use nucleo::Matcher;
use crate::browser::display::{content_display, content_text};
use crate::explorer::breadcrumb::strings_view;
use crate::explorer::card::{rows_view, CardRowKey, CardRowSnapshot, CardSnapshot, CardView, RowView};
use crate::text::{
    blank, chars_contain, chars_of, chars_start_with, contains_text, is_blank, lowercase,
    pop_char, push_char, push_text, starts_with, to_lowercase,
};

verus! {

/// The score nucleo's matcher (default configuration) gives `label` for the
/// pattern parsed from `query` with smart case and smart normalisation;
/// `None` when the label does not match.
pub uninterp spec fn fuzzy_score(query: Seq<char>, label: Seq<char>) -> Option<u32>;

/// The labels that match `query`, each with its score, in input order.
pub open spec fn scored(query: Seq<char>, labels: Seq<Seq<char>>) -> Seq<(Seq<char>, u32)>
    decreases labels.len(),
{
    if labels.len() == 0 {
        Seq::empty()
    } else {
        let rest = scored(query, labels.drop_last());
        match fuzzy_score(query, labels.last()) {
            Some(score) => rest.push((labels.last(), score)),
            None => rest,
        }
    }
}

/// Inserts `item` into `sorted` (highest score first) after every entry
/// whose score is at least the item's.
pub open spec fn insert_by_score(
    sorted: Seq<(Seq<char>, u32)>,
    item: (Seq<char>, u32),
) -> Seq<(Seq<char>, u32)>
    decreases sorted.len(),
{
    if sorted.len() == 0 {
        seq![item]
    } else if sorted.last().1 >= item.1 {
        sorted.push(item)
    } else {
        insert_by_score(sorted.drop_last(), item).push(sorted.last())
    }
}

/// A stable sort of `items` by descending score.
pub open spec fn by_descending_score(items: Seq<(Seq<char>, u32)>) -> Seq<(Seq<char>, u32)>
    decreases items.len(),
{
    if items.len() == 0 {
        Seq::empty()
    } else {
        insert_by_score(by_descending_score(items.drop_last()), items.last())
    }
}

/// What `Pattern::match_list` returns: the matching labels with their
/// scores, best first, ties in input order.
pub open spec fn fuzzy_ranking(query: Seq<char>, labels: Seq<Seq<char>>) -> Seq<(Seq<char>, u32)> {
    by_descending_score(scored(query, labels))
}

pub open spec fn ranking_view(matched: Seq<(String, u32)>) -> Seq<(Seq<char>, u32)> {
    matched.map_values(|m: (String, u32)| (m.0@, m.1))
}

/// nucleo's `Pattern::parse` (smart case, smart normalisation) and
/// `Pattern::match_list` with a default `Matcher`. The contract claims what
/// the crate's source shows: the labels whose score is `Some`, paired with
/// it, sorted stably by descending score (an empty pattern scores every
/// label 0). The scores themselves are named by `fuzzy_score`, not stated.
#[verifier::external_body]
fn fuzzy_match_list(query: &str, labels: &Vec<String>) -> (matched: Vec<(String, u32)>)
    ensures
        ranking_view(matched@) == fuzzy_ranking(query@, strings_view(labels@)),
        forall|k: int|
            0 <= k < matched@.len() ==> fuzzy_score(query@, #[trigger] matched@[k].0@) == Some(
                matched@[k].1,
            ),
{
    let pattern = Pattern::parse(query, CaseMatching::Smart, Normalization::Smart);
    let mut matcher = Matcher::new(nucleo::Config::DEFAULT);
    pattern.match_list(labels.iter(), &mut matcher).into_iter().map(
        |(label, score)| (label.clone(), score),
    ).collect()
}

/// Indices of the labels that begin with `query`, in order.
pub open spec fn prefix_matches(lowered: Seq<Seq<char>>, query: Seq<char>) -> Seq<usize>
    decreases lowered.len(),
{
    if lowered.len() == 0 {
        Seq::empty()
    } else {
        let rest = prefix_matches(lowered.drop_last(), query);
        if starts_with(lowered.last(), query) {
            rest.push((lowered.len() - 1) as usize)
        } else {
            rest
        }
    }
}

/// Indices of the labels that contain `query` without beginning with it.
pub open spec fn substring_matches(lowered: Seq<Seq<char>>, query: Seq<char>) -> Seq<usize>
    decreases lowered.len(),
{
    if lowered.len() == 0 {
        Seq::empty()
    } else {
        let rest = substring_matches(lowered.drop_last(), query);
        if !starts_with(lowered.last(), query) && contains_text(lowered.last(), query) {
            rest.push((lowered.len() - 1) as usize)
        } else {
            rest
        }
    }
}

/// The first index at or after `from` whose label equals `label` and that
/// is not yet ranked.
pub open spec fn first_free(
    labels: Seq<Seq<char>>,
    label: Seq<char>,
    ranked: Seq<usize>,
    from: nat,
) -> Option<usize>
    decreases labels.len() - from,
{
    if from >= labels.len() {
        None
    } else if labels[from as int] == label && !ranked.contains(from as usize) {
        Some(from as usize)
    } else {
        first_free(labels, label, ranked, from + 1)
    }
}

/// Appends, for each fuzzy match in turn, the first unranked row with that
/// exact label.
pub open spec fn fuzzy_phase(
    labels: Seq<Seq<char>>,
    matched: Seq<Seq<char>>,
    ranked: Seq<usize>,
) -> Seq<usize>
    decreases matched.len(),
{
    if matched.len() == 0 {
        ranked
    } else {
        let before = fuzzy_phase(labels, matched.drop_last(), ranked);
        match first_free(labels, matched.last(), before, 0) {
            Some(index) => before.push(index),
            None => before,
        }
    }
}

pub open spec fn lowered(labels: Seq<Seq<char>>) -> Seq<Seq<char>> {
    labels.map_values(|label: Seq<char>| lowercase(label))
}

/// The order of rows for a non-blank `query`, given the labels that the
/// fuzzy matcher returned, best first.
pub open spec fn ranking(
    query: Seq<char>,
    labels: Seq<Seq<char>>,
    matched: Seq<Seq<char>>,
) -> Seq<usize> {
    let q = lowercase(query);
    fuzzy_phase(
        labels,
        matched,
        prefix_matches(lowered(labels), q) + substring_matches(lowered(labels), q),
    )
}

/// The order of rows for `query`: every row for a blank query, else the
/// ranking with nucleo's matches.
pub open spec fn row_order(query: Seq<char>, labels: Seq<Seq<char>>) -> Seq<usize> {
    if blank(query) {
        Seq::new(labels.len(), |i: int| i as usize)
    } else {
        ranking(query, labels, fuzzy_ranking(query, labels).map_values(|m: (Seq<char>, u32)| m.0))
    }
}

proof fn lemma_first_free(
    labels: Seq<Seq<char>>,
    label: Seq<char>,
    ranked: Seq<usize>,
    from: nat,
)
    requires
        labels.len() <= usize::MAX,
    ensures
        first_free(labels, label, ranked, from) matches Some(index) ==> from <= index
            < labels.len() && labels[index as int] == label && !ranked.contains(index),
    decreases labels.len() - from,
{
    if from < labels.len() {
        lemma_first_free(labels, label, ranked, from + 1);
    }
}

fn lowered_labels(labels: &Vec<String>) -> (lower: Vec<Vec<char>>)
    ensures
        lower@.len() == labels@.len(),
        forall|k: int| 0 <= k < labels@.len() ==> #[trigger] lower@[k]@ == lowercase(labels@[k]@),
{
    let mut lower: Vec<Vec<char>> = Vec::new();
    let mut i: usize = 0;
    while i < labels.len()
        invariant
            i <= labels@.len(),
            lower@.len() == i,
            forall|k: int| 0 <= k < i ==> #[trigger] lower@[k]@ == lowercase(labels@[k]@),
        decreases labels.len() - i,
    {
        let text = to_lowercase(labels[i].as_str());
        lower.push(chars_of(text.as_str()));
        i = i + 1;
    }
    lower
}

/// Ranks the rows labelled `labels` for a non-blank `query`, given the
/// labels nucleo matched (best first): prefix matches of the lowercased
/// label and query, then substring matches, then each fuzzy match's first
/// row not yet ranked.
pub fn rank_with_fuzzy_matches(
    query: &str,
    labels: &Vec<String>,
    matched: &Vec<String>,
) -> (ranked: Vec<usize>)
    ensures
        ranked@ == ranking(query@, strings_view(labels@), strings_view(matched@)),
        forall|k: int| 0 <= k < ranked@.len() ==> #[trigger] ranked@[k] < labels@.len(),
{
    let ghost raw = strings_view(labels@);
    let ghost lw = lowered(raw);
    let lower_query = to_lowercase(query);
    let q = chars_of(lower_query.as_str());
    let lower = lowered_labels(labels);
    let n = labels.len();
    let mut taken: Vec<bool> = Vec::new();
    let mut ranked: Vec<usize> = Vec::new();
    let mut i: usize = 0;
    while i < n
        invariant
            n == labels@.len(),
            raw == strings_view(labels@),
            lw == lowered(raw),
            q@ == lowercase(query@),
            lower@.len() == n,
            forall|k: int| 0 <= k < n ==> #[trigger] lower@[k]@ == lw[k],
            i <= n,
            taken@.len() == i,
            ranked@ == prefix_matches(lw.take(i as int), q@),
            forall|k: int| 0 <= k < i ==> (#[trigger] taken@[k] <==> ranked@.contains(k as usize)),
            forall|k: int| 0 <= k < i ==> (#[trigger] taken@[k] <==> starts_with(lw[k], q@)),
            forall|k: int| 0 <= k < ranked@.len() ==> #[trigger] ranked@[k] < i,
        decreases n - i,
    {
        assert(lw.take(i + 1).drop_last() =~= lw.take(i as int));
        let ghost before = ranked@;
        let starts = chars_start_with(&lower[i], &q);
        if starts {
            ranked.push(i);
        }
        taken.push(starts);
        proof {
            assert forall|k: int| 0 <= k <= i implies (#[trigger] taken@[k] <==> ranked@.contains(
                k as usize,
            )) by {
                lemma_seq_contains_after_push(before, i, k as usize);
            }
        }
        i = i + 1;
    }
    assert(lw.take(n as int) =~= lw);
    let ghost prefix = ranked@;
    let mut i: usize = 0;
    while i < n
        invariant
            n == labels@.len(),
            raw == strings_view(labels@),
            lw == lowered(raw),
            q@ == lowercase(query@),
            lower@.len() == n,
            forall|k: int| 0 <= k < n ==> #[trigger] lower@[k]@ == lw[k],
            i <= n,
            taken@.len() == n,
            prefix == prefix_matches(lw, q@),
            ranked@ == prefix + substring_matches(lw.take(i as int), q@),
            forall|k: int| 0 <= k < n ==> (#[trigger] taken@[k] <==> ranked@.contains(k as usize)),
            forall|k: int| 0 <= k < ranked@.len() ==> #[trigger] ranked@[k] < n,
            forall|k: int| i <= k < n ==> (#[trigger] taken@[k] <==> starts_with(lw[k], q@)),
        decreases n - i,
    {
        assert(lw.take(i + 1).drop_last() =~= lw.take(i as int));
        let ghost before = ranked@;
        if !taken[i] && chars_contain(&lower[i], &q) {
            ranked.push(i);
            taken.set(i, true);
            proof {
                assert forall|k: int| 0 <= k < n implies (#[trigger] taken@[k]
                    <==> ranked@.contains(k as usize)) by {
                    lemma_seq_contains_after_push(before, i, k as usize);
                }
            }
        }
        i = i + 1;
    }
    assert(lw.take(n as int) =~= lw);
    let ghost seeded = ranked@;
    let mut j: usize = 0;
    while j < matched.len()
        invariant
            n == labels@.len(),
            raw == strings_view(labels@),
            taken@.len() == n,
            j <= matched@.len(),
            ranked@ == fuzzy_phase(raw, strings_view(matched@).take(j as int), seeded),
            forall|k: int| 0 <= k < n ==> (#[trigger] taken@[k] <==> ranked@.contains(k as usize)),
            forall|k: int| 0 <= k < ranked@.len() ==> #[trigger] ranked@[k] < n,
        decreases matched.len() - j,
    {
        assert(strings_view(matched@).take(j + 1).drop_last() =~= strings_view(matched@).take(
            j as int,
        ));
        let mut k: usize = 0;
        let mut found: Option<usize> = None;
        while k < n
            invariant_except_break
                found is None,
            invariant
                n == labels@.len(),
                raw == strings_view(labels@),
                taken@.len() == n,
                k <= n,
                j < matched@.len(),
                forall|t: int| 0 <= t < n ==> (#[trigger] taken@[t] <==> ranked@.contains(t as usize)),
                first_free(raw, matched@[j as int]@, ranked@, 0) == first_free(
                    raw,
                    matched@[j as int]@,
                    ranked@,
                    k as nat,
                ),
            ensures
                found == first_free(raw, matched@[j as int]@, ranked@, 0),
            decreases n - k,
        {
            if labels[k] == matched[j] && !taken[k] {
                found = Some(k);
                break;
            }
            k = k + 1;
        }
        proof {
            lemma_first_free(raw, matched@[j as int]@, ranked@, 0);
        }
        let ghost before = ranked@;
        if let Some(index) = found {
            ranked.push(index);
            taken.set(index, true);
            proof {
                assert forall|t: int| 0 <= t < n implies (#[trigger] taken@[t]
                    <==> ranked@.contains(t as usize)) by {
                    lemma_seq_contains_after_push(before, index, t as usize);
                }
            }
        }
        j = j + 1;
    }
    assert(strings_view(matched@).take(matched@.len() as int) =~= strings_view(matched@));
    ranked
}

/// The order in which the rows labelled `labels` are listed for `query`:
/// all of them, in order, when the query is blank; otherwise prefix
/// matches, then substring matches (both ignoring case), then nucleo's
/// remaining fuzzy matches, best first.
pub fn ranked_indices(query: &str, labels: &Vec<String>) -> (ranked: Vec<usize>)
    ensures
        ranked@ == row_order(query@, strings_view(labels@)),
        forall|k: int| 0 <= k < ranked@.len() ==> #[trigger] ranked@[k] < labels@.len(),
{
    if is_blank(query) {
        let mut all: Vec<usize> = Vec::new();
        let mut i: usize = 0;
        while i < labels.len()
            invariant
                i <= labels@.len(),
                all@ == Seq::new(i as nat, |k: int| k as usize),
            decreases labels.len() - i,
        {
            all.push(i);
            i = i + 1;
            assert(all@ =~= Seq::new(i as nat, |k: int| k as usize));
        }
        return all;
    }
    let fuzzy = fuzzy_match_list(query, labels);
    let mut matched: Vec<String> = Vec::new();
    let mut j: usize = 0;
    while j < fuzzy.len()
        invariant
            j <= fuzzy@.len(),
            matched@.len() == j,
            forall|k: int| 0 <= k < j ==> #[trigger] matched@[k]@ == fuzzy@[k].0@,
        decreases fuzzy.len() - j,
    {
        matched.push(fuzzy[j].0.clone());
        j = j + 1;
    }
    assert(strings_view(matched@) =~= fuzzy_ranking(query@, strings_view(labels@)).map_values(
        |m: (Seq<char>, u32)| m.0,
    ));
    rank_with_fuzzy_matches(query, labels, &matched)
}

/// The text a row is searched by: its type (when known), label and content,
/// a defaulted binding reading "default".
pub open spec fn search_label(row: RowView) -> Seq<char> {
    let head = match row.type_label {
        Some(type_label) => "type "@ + type_label.push(' '),
        None => Seq::empty(),
    };
    head + row.label.push(' ') + content_text(row.content, "default"@)
}

pub open spec fn search_labels(rows: Seq<RowView>) -> Seq<Seq<char>> {
    rows.map_values(|row: RowView| search_label(row))
}

/// The keys of the rows of `card` listed for `query`, in order.
pub open spec fn row_matches(card: CardView, query: Seq<char>) -> Seq<CardRowKey> {
    row_order(query, search_labels(card.rows)).map_values(|i: usize| card.rows[i as int].key)
}

/// The search text of `row`.
pub fn row_search_label(row: &CardRowSnapshot) -> (label: String)
    ensures
        label@ == search_label(row@),
{
    let mut label = String::new();
    match row.type_label() {
        Some(type_label) => {
            push_text(&mut label, "type ");
            push_text(&mut label, type_label);
            push_char(&mut label, ' ');
        },
        None => {},
    }
    push_text(&mut label, row.label());
    push_char(&mut label, ' ');
    let content = content_display(row.content(), "default");
    push_text(&mut label, content.as_str());
    proof {
        reveal_strlit("type ");
    }
    assert(label@ =~= search_label(row@));
    label
}

/// The keys of the rows of `card` that match `query`, best first.
pub fn matching_rows(card: &CardSnapshot, query: &str) -> (keys: Vec<CardRowKey>)
    ensures
        keys@ == row_matches(card@, query@),
{
    let rows = card.rows();
    let ghost rv = card@.rows;
    let mut labels: Vec<String> = Vec::new();
    let mut i: usize = 0;
    while i < rows.len()
        invariant
            rows_view(rows@) == rv,
            i <= rows@.len(),
            labels@.len() == i,
            forall|k: int| 0 <= k < i ==> #[trigger] labels@[k]@ == search_label(rv[k]),
        decreases rows.len() - i,
    {
        labels.push(row_search_label(&rows[i]));
        i = i + 1;
    }
    assert(strings_view(labels@) =~= search_labels(rv));
    let order = ranked_indices(query, &labels);
    let mut keys: Vec<CardRowKey> = Vec::new();
    let mut j: usize = 0;
    while j < order.len()
        invariant
            rows_view(rows@) == rv,
            rows@.len() == labels@.len(),
            forall|k: int| 0 <= k < order@.len() ==> #[trigger] order@[k] < labels@.len(),
            j <= order@.len(),
            keys@.len() == j,
            forall|k: int| 0 <= k < j ==> #[trigger] keys@[k] == rv[order@[k] as int].key,
        decreases order.len() - j,
    {
        let index = order[j];
        keys.push(rows[index].key().duplicate());
        j = j + 1;
    }
    assert(keys@ =~= row_matches(card@, query@));
    keys
}

/// Mathematical form of a row search.
pub struct RowSearchView {
    pub query: Seq<char>,
    pub matches: Seq<CardRowKey>,
    pub selected: usize,
}

/// Search state over the rows of the focused card: the query typed so far,
/// the matching row keys in rank order, and the selected match.
pub struct RowSearchState {
    query: String,
    matches: Vec<CardRowKey>,
    selected: usize,
}

impl View for RowSearchState {
    type V = RowSearchView;

    closed spec fn view(&self) -> RowSearchView {
        RowSearchView { query: self.query@, matches: self.matches@, selected: self.selected }
    }
}

/// `selected` moved by `delta` (saturating at zero) and kept on the last of
/// `count` matches; zero when there are none.
pub open spec fn moved_selection(selected: usize, delta: isize, count: nat) -> usize {
    if count == 0 {
        0
    } else {
        let moved = selected + delta;
        let clamped = if moved < 0 { 0 } else { moved };
        if clamped > count - 1 { (count - 1) as usize } else { clamped as usize }
    }
}

impl RowSearchState {
    /// A search of `card` for `query`, selecting the best match.
    pub fn new(card: &CardSnapshot, query: &str) -> (search: RowSearchState)
        ensures
            search@ == (RowSearchView {
                query: query@,
                matches: row_matches(card@, query@),
                selected: 0,
            }),
    {
        let matches = matching_rows(card, query);
        RowSearchState { query: String::from_str(query), matches, selected: 0 }
    }

    /// Recomputes the matches against `card` and selects the best one.
    pub fn refresh(&mut self, card: &CardSnapshot)
        ensures
            final(self)@ == (RowSearchView {
                query: old(self)@.query,
                matches: row_matches(card@, old(self)@.query),
                selected: 0,
            }),
    {
        self.matches = matching_rows(card, self.query.as_str());
        self.selected = 0;
    }

    /// Appends `character` to the query and searches again.
    pub fn push(&mut self, card: &CardSnapshot, character: char)
        ensures
            final(self)@ == (RowSearchView {
                query: old(self)@.query.push(character),
                matches: row_matches(card@, old(self)@.query.push(character)),
                selected: 0,
            }),
    {
        push_char(&mut self.query, character);
        self.refresh(card);
    }

    /// Removes the last character of the query, if any, and searches again.
    pub fn pop(&mut self, card: &CardSnapshot)
        ensures
            final(self)@.query == (if old(self)@.query.len() == 0 {
                old(self)@.query
            } else {
                old(self)@.query.drop_last()
            }),
            final(self)@.matches == row_matches(card@, final(self)@.query),
            final(self)@.selected == 0,
    {
        let _ = pop_char(&mut self.query);
        self.refresh(card);
    }

    /// Moves the selection by `delta` matches, staying within the matches.
    pub fn move_by(&mut self, delta: isize)
        ensures
            final(self)@ == (RowSearchView {
                selected: moved_selection(old(self)@.selected, delta, old(self)@.matches.len()),
                ..old(self)@
            }),
    {
        if self.matches.len() == 0 {
            self.selected = 0;
            return;
        }
        let moved: usize = if delta >= 0 {
            let step: usize = delta as usize;
            if self.selected > usize::MAX - step {
                usize::MAX
            } else {
                self.selected + step
            }
        } else {
            let step: usize = (-(delta + 1)) as usize + 1;
            if step > self.selected {
                0
            } else {
                self.selected - step
            }
        };
        let last = self.matches.len() - 1;
        self.selected = if moved > last { last } else { moved };
    }

    /// Selects the first match, or the last one.
    pub fn move_to_edge(&mut self, first: bool)
        ensures
            final(self)@ == (RowSearchView {
                selected: if first || old(self)@.matches.len() == 0 {
                    0
                } else {
                    (old(self)@.matches.len() - 1) as usize
                },
                ..old(self)@
            }),
    {
        self.selected = if first || self.matches.len() == 0 {
            0
        } else {
            self.matches.len() - 1
        };
    }

    pub fn query(&self) -> (query: &str)
        ensures
            query@ == self@.query,
    {
        self.query.as_str()
    }

    pub fn matches(&self) -> (matches: &[CardRowKey])
        ensures
            matches@ == self@.matches,
    {
        self.matches.as_slice()
    }

    /// Whether Enter activates the focused row: only while the selection
    /// is on a match (the search closes either way).
    pub fn accept_activates(&self) -> (activates: bool)
        ensures
            activates == (self@.selected < self@.matches.len()),
    {
        self.selected < self.matches.len()
    }

    /// Whether the search closes after a Backspace: once its query is empty.
    pub fn closes_after_pop(&self) -> (closes: bool)
        ensures
            closes == (self@.query.len() == 0),
    {
        self.query.as_str().unicode_len() == 0
    }

    /// The selected match, if the selection is on one.
    pub fn selected(&self) -> (key: Option<&CardRowKey>)
        ensures
            key == (if self@.selected < self@.matches.len() {
                Some(&self@.matches[self@.selected as int])
            } else {
                None
            }),
    {
        if self.selected < self.matches.len() {
            Some(&self.matches[self.selected])
        } else {
            None
        }
    }
}

/// No index occurs twice in `ranked`, and each names one of `count` rows.
pub open spec fn distinct_rows(ranked: Seq<usize>, count: nat) -> bool {
    &&& forall|i: int, j: int| 0 <= i < j < ranked.len() ==> ranked[i] != ranked[j]
    &&& forall|i: int| 0 <= i < ranked.len() ==> #[trigger] ranked[i] < count
}

proof fn lemma_prefix_matches(lowered: Seq<Seq<char>>, query: Seq<char>)
    requires
        lowered.len() <= usize::MAX,
    ensures
        distinct_rows(prefix_matches(lowered, query), lowered.len()),
        forall|i: int|
            0 <= i < prefix_matches(lowered, query).len() ==> starts_with(
                lowered[#[trigger] prefix_matches(lowered, query)[i] as int],
                query,
            ),
    decreases lowered.len(),
{
    if lowered.len() > 0 {
        let rest = lowered.drop_last();
        lemma_prefix_matches(rest, query);
        let before = prefix_matches(rest, query);
        assert forall|i: int| 0 <= i < before.len() implies starts_with(
            lowered[#[trigger] before[i] as int],
            query,
        ) by {
            assert(lowered[before[i] as int] == rest[before[i] as int]);
        }
    }
}

proof fn lemma_substring_matches(lowered: Seq<Seq<char>>, query: Seq<char>)
    requires
        lowered.len() <= usize::MAX,
    ensures
        distinct_rows(substring_matches(lowered, query), lowered.len()),
        forall|i: int|
            0 <= i < substring_matches(lowered, query).len() ==> !starts_with(
                lowered[#[trigger] substring_matches(lowered, query)[i] as int],
                query,
            ),
    decreases lowered.len(),
{
    if lowered.len() > 0 {
        let rest = lowered.drop_last();
        lemma_substring_matches(rest, query);
        let before = substring_matches(rest, query);
        assert forall|i: int| 0 <= i < before.len() implies !starts_with(
            lowered[#[trigger] before[i] as int],
            query,
        ) by {
            assert(lowered[before[i] as int] == rest[before[i] as int]);
        }
    }
}

proof fn lemma_fuzzy_phase(labels: Seq<Seq<char>>, matched: Seq<Seq<char>>, ranked: Seq<usize>)
    requires
        labels.len() <= usize::MAX,
        distinct_rows(ranked, labels.len()),
    ensures
        distinct_rows(fuzzy_phase(labels, matched, ranked), labels.len()),
    decreases matched.len(),
{
    if matched.len() > 0 {
        lemma_fuzzy_phase(labels, matched.drop_last(), ranked);
        let before = fuzzy_phase(labels, matched.drop_last(), ranked);
        lemma_first_free(labels, matched.last(), before, 0);
        if let Some(index) = first_free(labels, matched.last(), before, 0) {
            let after = before.push(index);
            assert forall|i: int, j: int| 0 <= i < j < after.len() implies after[i] != after[j] by {
                if j == before.len() {
                    assert(after[i] == before[i]);
                    assert(before.contains(before[i]));
                }
            }
        }
    }
}

/// A search lists each row at most once.
pub proof fn law_rows_listed_at_most_once(query: Seq<char>, labels: Seq<Seq<char>>)
    requires
        labels.len() <= usize::MAX,
    ensures
        distinct_rows(row_order(query, labels), labels.len()),
{
    if blank(query) {
        let all = Seq::new(labels.len(), |i: int| i as usize);
        assert forall|i: int| 0 <= i < all.len() implies #[trigger] all[i] < labels.len() by {}
    } else {
        let q = lowercase(query);
        let lw = lowered(labels);
        lemma_prefix_matches(lw, q);
        lemma_substring_matches(lw, q);
        let prefix = prefix_matches(lw, q);
        let substring = substring_matches(lw, q);
        let seeded = prefix + substring;
        assert forall|i: int, j: int| 0 <= i < j < seeded.len() implies seeded[i] != seeded[j] by {
            if i < prefix.len() && j >= prefix.len() {
                let a = prefix[i];
                let b = substring[j - prefix.len()];
                assert(starts_with(lw[a as int], q));
                assert(!starts_with(lw[b as int], q));
            } else if i >= prefix.len() {
                assert(seeded[i] == substring[i - prefix.len()]);
                assert(seeded[j] == substring[j - prefix.len()]);
            }
        }
        assert forall|i: int| 0 <= i < seeded.len() implies #[trigger] seeded[i] < labels.len() by {
            if i < prefix.len() {
                assert(seeded[i] == prefix[i]);
            } else {
                assert(seeded[i] == substring[i - prefix.len()]);
            }
        }
        lemma_fuzzy_phase(
            labels,
            fuzzy_ranking(query, labels).map_values(|m: (Seq<char>, u32)| m.0),
            seeded,
        );
    }
}


/// Moving the selection keeps it on a match whenever there is one.
pub proof fn law_moves_keep_the_selection_on_a_match(selected: usize, delta: isize, count: nat)
    ensures
        count > 0 ==> moved_selection(selected, delta, count) < count,
        count == 0 ==> moved_selection(selected, delta, count) == 0,
{
}

} // verus!
