//! The picker that fills one builder field: existing compatible values,
//! a new owned value, or a producer function to invoke, narrowed as the
//! user types.
use vstd::prelude::*;
use crate::explorer::ids::SlotId;
use crate::explorer::value_address::{AddressView, ValueAddress};
use crate::text::{
    all_words_occur, chars_between, chars_contain, chars_of, contains_text, is_whitespace,
    is_word, lowercase, pop_char, push_char, push_text, text_before, text_precedes, to_lowercase,
    whitespace,
};

verus! {

/// Whether every whitespace-separated word of `query` occurs in
/// `candidate`, ignoring case. A query without words matches everything.
pub fn fuzzy_tokens_match(candidate: &str, query: &str) -> (matched: bool)
    ensures
        matched == all_words_occur(lowercase(candidate@), lowercase(query@)),
{
    let lower_candidate = to_lowercase(candidate);
    let lower_query = to_lowercase(query);
    let c = chars_of(lower_candidate.as_str());
    let q = chars_of(lower_query.as_str());
    let ghost cs = lowercase(candidate@);
    let ghost qs = lowercase(query@);
    let n = q.len();
    let mut start: Option<usize> = None;
    let mut i: usize = 0;
    while i < n
        invariant
            n == q@.len(),
            cs == lowercase(candidate@),
            qs == lowercase(query@),
            q@ == qs,
            c@ == cs,
            i <= n,
            match start {
                Some(a) => {
                    &&& a < i
                    &&& forall|k: int| a <= k < i ==> !#[trigger] whitespace(qs[k])
                    &&& (a == 0 || whitespace(qs[a - 1]))
                },
                None => i == 0 || whitespace(qs[i - 1]),
            },
            forall|x: int, y: int|
                #[trigger] is_word(qs, x, y) && y < i ==> contains_text(cs, qs.subrange(x, y)),
        decreases n - i,
    {
        if is_whitespace(q[i]) {
            if let Some(a) = start {
                let word = chars_between(&q, a, i);
                assert(is_word(qs, a as int, i as int));
                if !chars_contain(&c, &word) {
                    assert(!contains_text(cs, qs.subrange(a as int, i as int)));
                    assert(!all_words_occur(cs, qs));
                    return false;
                }
                assert forall|x: int, y: int| #[trigger] is_word(qs, x, y) && y == i implies x == a by {
                    if x < a {
                        assert(!whitespace(qs[a - 1]));
                    } else if x > a {
                        assert(!whitespace(qs[x - 1]));
                    }
                }
            }
            start = None;
        } else {
            assert forall|x: int, y: int| #[trigger] is_word(qs, x, y) implies y != i by {}
            if start.is_none() {
                start = Some(i);
            }
        }
        i = i + 1;
    }
    if let Some(a) = start {
        let word = chars_between(&q, a, n);
        assert(is_word(qs, a as int, n as int));
        if !chars_contain(&c, &word) {
            assert(!contains_text(cs, qs.subrange(a as int, n as int)));
            assert(!all_words_occur(cs, qs));
            return false;
        }
        assert forall|x: int, y: int| #[trigger] is_word(qs, x, y) && y == n implies x == a by {
            if x < a {
                assert(!whitespace(qs[a - 1]));
            } else if x > a {
                assert(!whitespace(qs[x - 1]));
            }
        }
    } else {
        assert forall|x: int, y: int| #[trigger] is_word(qs, x, y) implies y != n by {
            if y == n {
                assert(!whitespace(qs[n - 1]));
            }
        }
    }
    true
}

/// A compatible value offered for a field: its display label and address.
#[derive(Clone, Debug, PartialEq, Eq)]
pub struct ValueCandidate {
    label: String,
    address: ValueAddress,
}

pub struct CandidateView {
    pub label: Seq<char>,
    pub address: AddressView,
}

impl View for ValueCandidate {
    type V = CandidateView;

    closed spec fn view(&self) -> CandidateView {
        CandidateView { label: self.label@, address: self.address@ }
    }
}

impl ValueCandidate {
    pub fn new(label: &str, address: ValueAddress) -> (candidate: ValueCandidate)
        ensures
            candidate@ == (CandidateView { label: label@, address: address@ }),
    {
        ValueCandidate { label: String::from_str(label), address }
    }

    pub fn display_label(&self) -> (label: &str)
        ensures
            label@ == self@.label,
    {
        self.label.as_str()
    }

    pub fn address(&self) -> (address: &ValueAddress)
        ensures
            address@ == self@.address,
    {
        &self.address
    }
}

/// A registered function that produces the field's source shape exactly,
/// described by plain values: its identity, input shape name, description,
/// whether its input has a default production plan or an arbitrary
/// constructor, and whether it is itself the source shape's arbitrary
/// constructor.
#[derive(Clone, Debug, PartialEq, Eq)]
pub struct ProducerChoice {
    pub function: u64,
    pub input_shape: String,
    pub description: String,
    pub has_default: bool,
    pub has_arbitrary: bool,
    pub is_arbitrary_constructor: bool,
}

pub struct ProducerView {
    pub function: u64,
    pub input_shape: Seq<char>,
    pub description: Seq<char>,
    pub has_default: bool,
    pub has_arbitrary: bool,
    pub is_arbitrary_constructor: bool,
}

impl View for ProducerChoice {
    type V = ProducerView;

    open spec fn view(&self) -> ProducerView {
        ProducerView {
            function: self.function,
            input_shape: self.input_shape@,
            description: self.description@,
            has_default: self.has_default,
            has_arbitrary: self.has_arbitrary,
            is_arbitrary_constructor: self.is_arbitrary_constructor,
        }
    }
}

/// What choosing a row of the value picker does.
#[derive(Clone, Debug, PartialEq, Eq)]
pub enum ValuePickerChoice {
    CreateNewOwned { shape: String },
    Candidate { address: ValueAddress },
    CreateProducer { function: u64 },
    InvokeDefaultProducer { function: u64 },
    InvokeArbitraryProducer { function: u64 },
}

pub enum ValueChoiceView {
    CreateNewOwned { shape: Seq<char> },
    Candidate { address: AddressView },
    CreateProducer { function: u64 },
    InvokeDefaultProducer { function: u64 },
    InvokeArbitraryProducer { function: u64 },
}

impl View for ValuePickerChoice {
    type V = ValueChoiceView;

    open spec fn view(&self) -> ValueChoiceView {
        match self {
            ValuePickerChoice::CreateNewOwned { shape } => ValueChoiceView::CreateNewOwned {
                shape: shape@,
            },
            ValuePickerChoice::Candidate { address } => ValueChoiceView::Candidate {
                address: address@,
            },
            ValuePickerChoice::CreateProducer { function } => ValueChoiceView::CreateProducer {
                function: *function,
            },
            ValuePickerChoice::InvokeDefaultProducer { function } =>
                ValueChoiceView::InvokeDefaultProducer { function: *function },
            ValuePickerChoice::InvokeArbitraryProducer { function } =>
                ValueChoiceView::InvokeArbitraryProducer { function: *function },
        }
    }
}

impl ValuePickerChoice {
    pub fn duplicate(&self) -> (copy: ValuePickerChoice)
        ensures
            copy@ == self@,
    {
        match self {
            ValuePickerChoice::CreateNewOwned { shape } => ValuePickerChoice::CreateNewOwned {
                shape: shape.clone(),
            },
            ValuePickerChoice::Candidate { address } => ValuePickerChoice::Candidate {
                address: address.duplicate(),
            },
            ValuePickerChoice::CreateProducer { function } => ValuePickerChoice::CreateProducer {
                function: *function,
            },
            ValuePickerChoice::InvokeDefaultProducer { function } =>
                ValuePickerChoice::InvokeDefaultProducer { function: *function },
            ValuePickerChoice::InvokeArbitraryProducer { function } =>
                ValuePickerChoice::InvokeArbitraryProducer { function: *function },
        }
    }

    /// Whether both choices do the same thing: the same shape, address or
    /// function.
    pub fn same_as(&self, other: &ValuePickerChoice) -> (same: bool)
        ensures
            same == (self@ == other@),
    {
        match (self, other) {
            (
                ValuePickerChoice::CreateNewOwned { shape: left },
                ValuePickerChoice::CreateNewOwned { shape: right },
            ) => *left == *right,
            (
                ValuePickerChoice::Candidate { address: left },
                ValuePickerChoice::Candidate { address: right },
            ) => left.same_as(right),
            (
                ValuePickerChoice::CreateProducer { function: left },
                ValuePickerChoice::CreateProducer { function: right },
            ) => *left == *right,
            (
                ValuePickerChoice::InvokeDefaultProducer { function: left },
                ValuePickerChoice::InvokeDefaultProducer { function: right },
            ) => *left == *right,
            (
                ValuePickerChoice::InvokeArbitraryProducer { function: left },
                ValuePickerChoice::InvokeArbitraryProducer { function: right },
            ) => *left == *right,
            _ => false,
        }
    }
}

/// One row of the value picker.
#[derive(Clone, Debug, PartialEq, Eq)]
pub struct ValuePickerRow {
    label: String,
    choice: ValuePickerChoice,
}

pub struct PickerRowView {
    pub label: Seq<char>,
    pub choice: ValueChoiceView,
}

impl View for ValuePickerRow {
    type V = PickerRowView;

    closed spec fn view(&self) -> PickerRowView {
        PickerRowView { label: self.label@, choice: self.choice@ }
    }
}

impl ValuePickerRow {
    pub fn label(&self) -> (label: &str)
        ensures
            label@ == self@.label,
    {
        self.label.as_str()
    }

    pub fn choice(&self) -> (choice: &ValuePickerChoice)
        ensures
            choice@ == self@.choice,
    {
        &self.choice
    }
}

pub open spec fn picker_rows_view(rows: Seq<ValuePickerRow>) -> Seq<PickerRowView> {
    rows.map_values(|row: ValuePickerRow| row@)
}

/// Whether the query narrows to `label`: each of its words occurs in the
/// label, ignoring case.
pub open spec fn value_matches(label: Seq<char>, query: Seq<char>) -> bool {
    all_words_occur(lowercase(label), lowercase(query))
}

/// Inserts `row` after every row whose label does not sort after its own.
pub open spec fn insert_by_label(sorted: Seq<PickerRowView>, row: PickerRowView) -> Seq<PickerRowView>
    decreases sorted.len(),
{
    if sorted.len() == 0 {
        seq![row]
    } else if !text_before(row.label, sorted.last().label) {
        sorted.push(row)
    } else {
        insert_by_label(sorted.drop_last(), row).push(sorted.last())
    }
}

/// `rows` stably sorted by label.
pub open spec fn sorted_by_label(rows: Seq<PickerRowView>) -> Seq<PickerRowView>
    decreases rows.len(),
{
    if rows.len() == 0 {
        Seq::empty()
    } else {
        insert_by_label(sorted_by_label(rows.drop_last()), rows.last())
    }
}

proof fn lemma_insert_by_label_split(sorted: Seq<PickerRowView>, row: PickerRowView, p: int)
    requires
        0 < p <= sorted.len(),
        text_before(row.label, sorted[p - 1].label),
    ensures
        insert_by_label(sorted.take(p), row) + sorted.skip(p) == insert_by_label(
            sorted.take(p - 1),
            row,
        ) + sorted.skip(p - 1),
{
    assert(sorted.take(p).drop_last() =~= sorted.take(p - 1));
    assert(sorted.take(p).last() == sorted[p - 1]);
    assert(insert_by_label(sorted.take(p - 1), row).push(sorted[p - 1]) + sorted.skip(p)
        =~= insert_by_label(sorted.take(p - 1), row) + sorted.skip(p - 1));
}

/// Inserts `row` into `sorted` (sorted by label) after every row whose
/// label does not sort after its own.
fn insert_row_by_label(sorted: &mut Vec<ValuePickerRow>, row: ValuePickerRow)
    ensures
        picker_rows_view(final(sorted)@) == insert_by_label(picker_rows_view(old(sorted)@), row@),
{
    let ghost start = picker_rows_view(sorted@);
    let mut p: usize = sorted.len();
    assert(start.take(p as int) =~= start);
    assert(start.skip(p as int) =~= Seq::<PickerRowView>::empty());
    while p > 0 && text_precedes(row.label.as_str(), sorted[p - 1].label.as_str())
        invariant
            start == picker_rows_view(sorted@),
            p <= sorted@.len(),
            insert_by_label(start, row@) == insert_by_label(start.take(p as int), row@) + start.skip(
                p as int,
            ),
        decreases p,
    {
        proof {
            lemma_insert_by_label_split(start, row@, p as int);
        }
        p = p - 1;
    }
    proof {
        if p == 0 {
            assert(start.take(0) =~= Seq::<PickerRowView>::empty());
        } else {
            assert(start.take(p as int).last() == start[p - 1]);
        }
    }
    sorted.insert(p, row);
    assert(picker_rows_view(sorted@) =~= insert_by_label(start, row@));
}

impl ValuePickerRow {
    fn duplicate(&self) -> (copy: ValuePickerRow)
        ensures
            copy@ == self@,
    {
        ValuePickerRow { label: self.label.clone(), choice: self.choice.duplicate() }
    }
}

/// `rows` sorted stably by label.
pub fn sort_rows_by_label(rows: &Vec<ValuePickerRow>) -> (sorted: Vec<ValuePickerRow>)
    ensures
        picker_rows_view(sorted@) == sorted_by_label(picker_rows_view(rows@)),
{
    let ghost input = picker_rows_view(rows@);
    let mut sorted: Vec<ValuePickerRow> = Vec::new();
    let mut i: usize = 0;
    while i < rows.len()
        invariant
            input == picker_rows_view(rows@),
            i <= rows@.len(),
            picker_rows_view(sorted@) == sorted_by_label(input.take(i as int)),
        decreases rows.len() - i,
    {
        assert(input.take(i + 1).drop_last() =~= input.take(i as int));
        insert_row_by_label(&mut sorted, rows[i].duplicate());
        i = i + 1;
    }
    assert(input.take(rows@.len() as int) =~= input);
    sorted
}

/// The five groups of producer rows, in the order they are listed.
#[derive(Clone, Copy, Debug, PartialEq, Eq, Structural)]
pub enum ProducerGroup {
    Default,
    Create,
    ArbitraryDefault,
    ArbitraryCreate,
    Arbitrary,
}

pub open spec fn create_owned_row(source: Seq<char>) -> PickerRowView {
    PickerRowView {
        label: "+ create new owned "@ + source,
        choice: ValueChoiceView::CreateNewOwned { shape: source },
    }
}

pub open spec fn default_row(producer: ProducerView, target: Seq<char>) -> PickerRowView {
    PickerRowView {
        label: "+ invoke default "@ + producer.input_shape + " for "@ + target,
        choice: ValueChoiceView::InvokeDefaultProducer { function: producer.function },
    }
}

pub open spec fn producer_row(producer: ProducerView, target: Seq<char>) -> PickerRowView {
    PickerRowView {
        label: "+ create "@ + producer.input_shape + " for "@ + target + " via "@
            + producer.description,
        choice: ValueChoiceView::CreateProducer { function: producer.function },
    }
}

pub open spec fn arbitrary_row(producer: ProducerView, target: Seq<char>) -> PickerRowView {
    PickerRowView {
        label: "+ invoke arbitrary "@ + producer.input_shape + " for "@ + target,
        choice: ValueChoiceView::InvokeArbitraryProducer { function: producer.function },
    }
}

/// The row `producer` contributes to `group` for `query`, if any.
pub open spec fn group_row(
    producer: ProducerView,
    target: Seq<char>,
    query: Seq<char>,
    group: ProducerGroup,
) -> Option<PickerRowView> {
    let row = match group {
        ProducerGroup::Default => default_row(producer, target),
        ProducerGroup::ArbitraryDefault => default_row(producer, target),
        ProducerGroup::Create => producer_row(producer, target),
        ProducerGroup::ArbitraryCreate => producer_row(producer, target),
        ProducerGroup::Arbitrary => arbitrary_row(producer, target),
    };
    let offered = match group {
        ProducerGroup::Default => producer.has_default && !producer.is_arbitrary_constructor,
        ProducerGroup::ArbitraryDefault => producer.has_default && producer.is_arbitrary_constructor,
        ProducerGroup::Create => !producer.is_arbitrary_constructor,
        ProducerGroup::ArbitraryCreate => producer.is_arbitrary_constructor,
        ProducerGroup::Arbitrary => producer.has_arbitrary,
    };
    if offered && value_matches(row.label, query) {
        Some(row)
    } else {
        None
    }
}

/// The rows of `group`, in producer order.
pub open spec fn group_rows(
    producers: Seq<ProducerView>,
    target: Seq<char>,
    query: Seq<char>,
    group: ProducerGroup,
) -> Seq<PickerRowView>
    decreases producers.len(),
{
    if producers.len() == 0 {
        Seq::empty()
    } else {
        let rest = group_rows(producers.drop_last(), target, query, group);
        match group_row(producers.last(), target, query, group) {
            Some(row) => rest.push(row),
            None => rest,
        }
    }
}

/// The candidates whose label the query narrows to, as rows.
pub open spec fn candidate_rows(candidates: Seq<CandidateView>, query: Seq<char>) -> Seq<
    PickerRowView,
>
    decreases candidates.len(),
{
    if candidates.len() == 0 {
        Seq::empty()
    } else {
        let rest = candidate_rows(candidates.drop_last(), query);
        let candidate = candidates.last();
        if value_matches(candidate.label, query) {
            rest.push(
                PickerRowView {
                    label: candidate.label,
                    choice: ValueChoiceView::Candidate { address: candidate.address },
                },
            )
        } else {
            rest
        }
    }
}

/// Every row of the picker for `query`. A `String` field lists the new
/// owned value first; any other field lists existing candidates first.
/// Producer groups are each sorted by label.
pub open spec fn picker_rows(
    target_is_string: bool,
    source: Seq<char>,
    query: Seq<char>,
    candidates: Seq<CandidateView>,
    producers: Seq<ProducerView>,
) -> Seq<PickerRowView> {
    let create = if value_matches(create_owned_row(source).label, query) {
        seq![create_owned_row(source)]
    } else {
        Seq::empty()
    };
    let group = |g: ProducerGroup| sorted_by_label(group_rows(producers, source, query, g));
    if target_is_string {
        create + candidate_rows(candidates, query) + group(ProducerGroup::Default) + group(
            ProducerGroup::Create,
        ) + group(ProducerGroup::ArbitraryDefault) + group(ProducerGroup::ArbitraryCreate) + group(
            ProducerGroup::Arbitrary,
        )
    } else {
        candidate_rows(candidates, query) + group(ProducerGroup::Default) + create + group(
            ProducerGroup::Create,
        ) + group(ProducerGroup::ArbitraryDefault) + group(ProducerGroup::ArbitraryCreate) + group(
            ProducerGroup::Arbitrary,
        )
    }
}

/// Index of the first row offering `choice`.
pub open spec fn first_choice_position(rows: Seq<PickerRowView>, choice: ValueChoiceView) -> Option<
    nat,
>
    decreases rows.len(),
{
    if rows.len() == 0 {
        None
    } else {
        match first_choice_position(rows.drop_last(), choice) {
            Some(index) => Some(index),
            None => if rows.last().choice == choice {
                Some((rows.len() - 1) as nat)
            } else {
                None
            },
        }
    }
}

/// The selection after a rebuild: the row offering the preserved choice
/// when there is one, else the first row.
pub open spec fn rebuilt_selection(rows: Seq<PickerRowView>, preserve: Option<ValueChoiceView>) -> nat {
    let position = match preserve {
        Some(choice) => match first_choice_position(rows, choice) {
            Some(index) => index,
            None => 0,
        },
        None => 0,
    };
    if rows.len() == 0 {
        0
    } else if position > rows.len() - 1 {
        (rows.len() - 1) as nat
    } else {
        position
    }
}

pub open spec fn candidates_view(candidates: Seq<ValueCandidate>) -> Seq<CandidateView> {
    candidates.map_values(|c: ValueCandidate| c@)
}

pub open spec fn producers_view(producers: Seq<ProducerChoice>) -> Seq<ProducerView> {
    producers.map_values(|p: ProducerChoice| p@)
}

fn make_row(label: String, choice: ValuePickerChoice) -> (row: ValuePickerRow)
    ensures
        row@ == (PickerRowView { label: label@, choice: choice@ }),
{
    ValuePickerRow { label, choice }
}

fn make_group_row(producer: &ProducerChoice, target: &str, group: ProducerGroup) -> (row:
    ValuePickerRow)
    ensures
        row@ == match group {
            ProducerGroup::Default => default_row(producer@, target@),
            ProducerGroup::ArbitraryDefault => default_row(producer@, target@),
            ProducerGroup::Create => producer_row(producer@, target@),
            ProducerGroup::ArbitraryCreate => producer_row(producer@, target@),
            ProducerGroup::Arbitrary => arbitrary_row(producer@, target@),
        },
{
    match group {
        ProducerGroup::Default | ProducerGroup::ArbitraryDefault => {
            let mut label = String::from_str("+ invoke default ");
            push_text(&mut label, producer.input_shape.as_str());
            push_text(&mut label, " for ");
            push_text(&mut label, target);
            make_row(label, ValuePickerChoice::InvokeDefaultProducer { function: producer.function })
        },
        ProducerGroup::Create | ProducerGroup::ArbitraryCreate => {
            let mut label = String::from_str("+ create ");
            push_text(&mut label, producer.input_shape.as_str());
            push_text(&mut label, " for ");
            push_text(&mut label, target);
            push_text(&mut label, " via ");
            push_text(&mut label, producer.description.as_str());
            make_row(label, ValuePickerChoice::CreateProducer { function: producer.function })
        },
        ProducerGroup::Arbitrary => {
            let mut label = String::from_str("+ invoke arbitrary ");
            push_text(&mut label, producer.input_shape.as_str());
            push_text(&mut label, " for ");
            push_text(&mut label, target);
            make_row(label, ValuePickerChoice::InvokeArbitraryProducer { function: producer.function })
        },
    }
}

fn offered_in(producer: &ProducerChoice, group: ProducerGroup) -> (offered: bool)
    ensures
        offered == match group {
            ProducerGroup::Default => producer@.has_default && !producer@.is_arbitrary_constructor,
            ProducerGroup::ArbitraryDefault => producer@.has_default
                && producer@.is_arbitrary_constructor,
            ProducerGroup::Create => !producer@.is_arbitrary_constructor,
            ProducerGroup::ArbitraryCreate => producer@.is_arbitrary_constructor,
            ProducerGroup::Arbitrary => producer@.has_arbitrary,
        },
{
    match group {
        ProducerGroup::Default => producer.has_default && !producer.is_arbitrary_constructor,
        ProducerGroup::ArbitraryDefault => producer.has_default && producer.is_arbitrary_constructor,
        ProducerGroup::Create => !producer.is_arbitrary_constructor,
        ProducerGroup::ArbitraryCreate => producer.is_arbitrary_constructor,
        ProducerGroup::Arbitrary => producer.has_arbitrary,
    }
}

/// The rows of one producer group for `query`, sorted by label.
fn producer_group_rows(
    producers: &Vec<ProducerChoice>,
    target: &str,
    query: &str,
    group: ProducerGroup,
) -> (rows: Vec<ValuePickerRow>)
    ensures
        picker_rows_view(rows@) == sorted_by_label(
            group_rows(producers_view(producers@), target@, query@, group),
        ),
{
    let ghost all = producers_view(producers@);
    let mut rows: Vec<ValuePickerRow> = Vec::new();
    let mut i: usize = 0;
    while i < producers.len()
        invariant
            all == producers_view(producers@),
            i <= producers@.len(),
            picker_rows_view(rows@) == group_rows(all.take(i as int), target@, query@, group),
        decreases producers.len() - i,
    {
        assert(all.take(i + 1).drop_last() =~= all.take(i as int));
        assert(all.take(i + 1).last() == producers@[i as int]@);
        let producer = &producers[i];
        let row = make_group_row(producer, target, group);
        if offered_in(producer, group) && fuzzy_tokens_match(row.label.as_str(), query) {
            rows.push(row);
            assert(picker_rows_view(rows@) =~= group_rows(all.take(i as int), target@, query@, group).push(row@));
        }
        i = i + 1;
    }
    assert(all.take(producers@.len() as int) =~= all);
    sort_rows_by_label(&rows)
}

/// The candidates the query narrows to, as rows, in order.
fn matching_candidate_rows(candidates: &Vec<ValueCandidate>, query: &str) -> (rows: Vec<
    ValuePickerRow,
>)
    ensures
        picker_rows_view(rows@) == candidate_rows(candidates_view(candidates@), query@),
{
    let ghost all = candidates_view(candidates@);
    let mut rows: Vec<ValuePickerRow> = Vec::new();
    let mut i: usize = 0;
    while i < candidates.len()
        invariant
            all == candidates_view(candidates@),
            i <= candidates@.len(),
            picker_rows_view(rows@) == candidate_rows(all.take(i as int), query@),
        decreases candidates.len() - i,
    {
        assert(all.take(i + 1).drop_last() =~= all.take(i as int));
        assert(all.take(i + 1).last() == candidates@[i as int]@);
        let candidate = &candidates[i];
        if fuzzy_tokens_match(candidate.label.as_str(), query) {
            let row = make_row(
                candidate.label.clone(),
                ValuePickerChoice::Candidate { address: candidate.address.duplicate() },
            );
            rows.push(row);
            assert(picker_rows_view(rows@) =~= candidate_rows(all.take(i as int), query@).push(row@));
        }
        i = i + 1;
    }
    assert(all.take(candidates@.len() as int) =~= all);
    rows
}

/// Mathematical form of a value picker.
pub struct ValuePickerView {
    pub destination: SlotId,
    pub field: usize,
    pub field_name: Seq<char>,
    pub target_shape: Seq<char>,
    pub source_shape: Seq<char>,
    pub target_is_string: bool,
    pub query: Seq<char>,
    pub candidates: Seq<CandidateView>,
    pub producers: Seq<ProducerView>,
    pub has_before: bool,
    pub has_after: bool,
    pub rows: Seq<PickerRowView>,
    pub selected: usize,
    pub received_window: bool,
}

/// Picker-local state over one bounded window of candidates for the field
/// `field` of the builder `destination`. The field's shape `target_shape`
/// is filled from values of `source_shape` (the shape its values are
/// preferably taken from).
pub struct FieldValuePicker {
    destination: SlotId,
    field: usize,
    field_name: String,
    target_shape: String,
    source_shape: String,
    target_is_string: bool,
    query: String,
    candidates: Vec<ValueCandidate>,
    producers: Vec<ProducerChoice>,
    has_before: bool,
    has_after: bool,
    rows: Vec<ValuePickerRow>,
    selected: usize,
    received_window: bool,
}

impl View for FieldValuePicker {
    type V = ValuePickerView;

    closed spec fn view(&self) -> ValuePickerView {
        ValuePickerView {
            destination: self.destination,
            field: self.field,
            field_name: self.field_name@,
            target_shape: self.target_shape@,
            source_shape: self.source_shape@,
            target_is_string: self.target_is_string,
            query: self.query@,
            candidates: candidates_view(self.candidates@),
            producers: producers_view(self.producers@),
            has_before: self.has_before,
            has_after: self.has_after,
            rows: picker_rows_view(self.rows@),
            selected: self.selected,
            received_window: self.received_window,
        }
    }
}

/// The rows of `picker` for its current query, candidates and producers.
pub open spec fn rows_of(picker: ValuePickerView) -> Seq<PickerRowView> {
    picker_rows(
        picker.target_is_string,
        picker.source_shape,
        picker.query,
        picker.candidates,
        picker.producers,
    )
}

/// `picker` with its rows rebuilt, keeping `preserve` selected if offered.
pub open spec fn rebuilt(picker: ValuePickerView, preserve: Option<ValueChoiceView>) -> ValuePickerView {
    ValuePickerView {
        rows: rows_of(picker),
        selected: rebuilt_selection(rows_of(picker), preserve) as usize,
        ..picker
    }
}

impl FieldValuePicker {
    /// A picker for field `field` (`field_name`) of `destination`, whose
    /// shape is `target_shape` (a `String` field when `target_is_string`),
    /// filled from `source_shape` values or by `producers`; no candidates
    /// have been received yet.
    pub fn new(
        destination: SlotId,
        field: usize,
        field_name: &str,
        target_shape: &str,
        source_shape: &str,
        target_is_string: bool,
        producers: Vec<ProducerChoice>,
    ) -> (picker: FieldValuePicker)
        ensures
            picker@ == rebuilt(
                ValuePickerView {
                    destination,
                    field,
                    field_name: field_name@,
                    target_shape: target_shape@,
                    source_shape: source_shape@,
                    target_is_string,
                    query: Seq::empty(),
                    candidates: Seq::empty(),
                    producers: producers_view(producers@),
                    has_before: false,
                    has_after: false,
                    rows: Seq::empty(),
                    selected: 0,
                    received_window: false,
                },
                None,
            ),
    {
        let mut picker = FieldValuePicker {
            destination,
            field,
            field_name: String::from_str(field_name),
            target_shape: String::from_str(target_shape),
            source_shape: String::from_str(source_shape),
            target_is_string,
            query: String::new(),
            candidates: Vec::new(),
            producers,
            has_before: false,
            has_after: false,
            rows: Vec::new(),
            selected: 0,
            received_window: false,
        };
        assert(picker@.candidates =~= Seq::<CandidateView>::empty());
        assert(picker@.rows =~= Seq::<PickerRowView>::empty());
        picker.rebuild(None);
        picker
    }

    pub fn destination(&self) -> (destination: SlotId)
        ensures
            destination == self@.destination,
    {
        self.destination
    }

    pub fn field(&self) -> (field: usize)
        ensures
            field == self@.field,
    {
        self.field
    }

    pub fn field_name(&self) -> (name: &str)
        ensures
            name@ == self@.field_name,
    {
        self.field_name.as_str()
    }

    pub fn target_shape(&self) -> (shape: &str)
        ensures
            shape@ == self@.target_shape,
    {
        self.target_shape.as_str()
    }

    pub fn query(&self) -> (query: &str)
        ensures
            query@ == self@.query,
    {
        self.query.as_str()
    }

    pub fn rows(&self) -> (rows: &[ValuePickerRow])
        ensures
            picker_rows_view(rows@) == self@.rows,
    {
        self.rows.as_slice()
    }

    pub fn selected_index(&self) -> (index: usize)
        ensures
            index == self@.selected,
    {
        self.selected
    }

    /// The selected row, if the selection is on one.
    pub fn selected(&self) -> (row: Option<&ValuePickerRow>)
        ensures
            self@.selected < self@.rows.len() ==> (row matches Some(r) && r@ == self@.rows[self@.selected as int]),
            self@.selected >= self@.rows.len() ==> row is None,
    {
        if self.selected < self.rows.len() {
            Some(&self.rows[self.selected])
        } else {
            None
        }
    }

    pub fn has_before(&self) -> (before: bool)
        ensures
            before == self@.has_before,
    {
        self.has_before
    }

    pub fn has_after(&self) -> (after: bool)
        ensures
            after == self@.has_after,
    {
        self.has_after
    }

    /// Takes a new window of candidates. Once a window has been received,
    /// the selected choice stays selected when it is still offered.
    pub fn replace_window(&mut self, candidates: Vec<ValueCandidate>, has_before: bool, has_after: bool)
        ensures
            final(self)@ == (ValuePickerView {
                received_window: true,
                ..rebuilt(
                    ValuePickerView {
                        candidates: candidates_view(candidates@),
                        has_before,
                        has_after,
                        ..old(self)@
                    },
                    if old(self)@.received_window && old(self)@.selected < old(self)@.rows.len() {
                        Some(old(self)@.rows[old(self)@.selected as int].choice)
                    } else {
                        None
                    },
                )
            }),
    {
        let preserved = if self.received_window && self.selected < self.rows.len() {
            Some(self.rows[self.selected].choice.duplicate())
        } else {
            None
        };
        self.candidates = candidates;
        self.has_before = has_before;
        self.has_after = has_after;
        match &preserved {
            Some(choice) => self.rebuild(Some(choice)),
            None => self.rebuild(None),
        }
        self.received_window = true;
    }

    /// Appends `character` to the query and rebuilds, selecting the first row.
    pub fn push(&mut self, character: char)
        ensures
            final(self)@ == rebuilt(
                ValuePickerView { query: old(self)@.query.push(character), ..old(self)@ },
                None,
            ),
    {
        push_char(&mut self.query, character);
        self.rebuild(None);
    }

    /// Removes the query's last character, if any, and rebuilds.
    pub fn pop(&mut self)
        ensures
            final(self)@ == rebuilt(
                ValuePickerView {
                    query: if old(self)@.query.len() == 0 {
                        old(self)@.query
                    } else {
                        old(self)@.query.drop_last()
                    },
                    ..old(self)@
                },
                None,
            ),
    {
        let _ = pop_char(&mut self.query);
        self.rebuild(None);
    }

    /// Moves the selection down one row, stopping at the last.
    pub fn move_next(&mut self)
        ensures
            final(self)@ == (ValuePickerView {
                selected: if old(self)@.rows.len() == 0 {
                    old(self)@.selected
                } else if old(self)@.selected + 1 > old(self)@.rows.len() - 1 {
                    (old(self)@.rows.len() - 1) as usize
                } else {
                    (old(self)@.selected + 1) as usize
                },
                ..old(self)@
            }),
    {
        if self.rows.len() > 0 {
            let last = self.rows.len() - 1;
            self.selected = if self.selected >= last { last } else { self.selected + 1 };
        }
    }

    /// Moves the selection up one row, stopping at the first.
    pub fn move_previous(&mut self)
        ensures
            final(self)@ == (ValuePickerView {
                selected: if old(self)@.selected == 0 { 0 } else { (old(self)@.selected - 1) as usize },
                ..old(self)@
            }),
    {
        if self.selected > 0 {
            self.selected = self.selected - 1;
        }
    }

    fn rebuild(&mut self, preserve: Option<&ValuePickerChoice>)
        ensures
            final(self)@ == rebuilt(
                old(self)@,
                match preserve {
                    Some(choice) => Some(choice@),
                    None => None,
                },
            ),
    {
        let source = self.source_shape.as_str();
        let query = self.query.as_str();
        let mut create_label = String::from_str("+ create new owned ");
        push_text(&mut create_label, source);
        let create = make_row(
            create_label,
            ValuePickerChoice::CreateNewOwned { shape: String::from_str(source) },
        );
        let mut create_rows: Vec<ValuePickerRow> = Vec::new();
        if fuzzy_tokens_match(create.label.as_str(), query) {
            create_rows.push(create);
        }
        let mut candidates = matching_candidate_rows(&self.candidates, query);
        let mut defaults = producer_group_rows(&self.producers, source, query, ProducerGroup::Default);
        let mut creates = producer_group_rows(&self.producers, source, query, ProducerGroup::Create);
        let mut arbitrary_defaults = producer_group_rows(
            &self.producers,
            source,
            query,
            ProducerGroup::ArbitraryDefault,
        );
        let mut arbitrary_creates = producer_group_rows(
            &self.producers,
            source,
            query,
            ProducerGroup::ArbitraryCreate,
        );
        let mut arbitraries = producer_group_rows(&self.producers, source, query, ProducerGroup::Arbitrary);
        let mut rows: Vec<ValuePickerRow> = Vec::new();
        if self.target_is_string {
            rows.append(&mut create_rows);
            rows.append(&mut candidates);
            rows.append(&mut defaults);
        } else {
            rows.append(&mut candidates);
            rows.append(&mut defaults);
            rows.append(&mut create_rows);
        }
        rows.append(&mut creates);
        rows.append(&mut arbitrary_defaults);
        rows.append(&mut arbitrary_creates);
        rows.append(&mut arbitraries);
        let ghost expected = rows_of(self@);
        assert(picker_rows_view(rows@) =~= expected);
        let mut position: usize = 0;
        match preserve {
            Some(choice) => {
                let mut k: usize = 0;
                while k < rows.len()
                    invariant
                        k <= rows@.len(),
                        first_choice_position(picker_rows_view(rows@).take(k as int), choice@) is None,
                    ensures
                        k <= rows@.len(),
                        first_choice_position(picker_rows_view(rows@).take(k as int), choice@) is None,
                        k < rows@.len() ==> rows@[k as int]@.choice == choice@,
                    decreases rows.len() - k,
                {
                    assert(picker_rows_view(rows@).take(k + 1).drop_last() =~= picker_rows_view(rows@).take(k as int));
                    if rows[k].choice.same_as(choice) {
                        break;
                    }
                    k = k + 1;
                }
                if k < rows.len() {
                    assert(picker_rows_view(rows@).take(k + 1).drop_last() =~= picker_rows_view(rows@).take(k as int));
                    assert(first_choice_position(picker_rows_view(rows@).take(k + 1), choice@) == Some(k as nat));
                    proof {
                        lemma_first_position_prefix(picker_rows_view(rows@), choice@, k as int + 1);
                    }
                    position = k;
                } else {
                    assert(picker_rows_view(rows@).take(k as int) =~= picker_rows_view(rows@));
                }
            },
            None => {},
        }
        let count = rows.len();
        self.rows = rows;
        self.selected = if count == 0 {
            0
        } else if position > count - 1 {
            count - 1
        } else {
            position
        };
    }
}

proof fn lemma_first_position_prefix(rows: Seq<PickerRowView>, choice: ValueChoiceView, n: int)
    requires
        0 <= n <= rows.len(),
        first_choice_position(rows.take(n), choice) is Some,
    ensures
        first_choice_position(rows, choice) == first_choice_position(rows.take(n), choice),
    decreases rows.len() - n,
{
    if n < rows.len() {
        assert(rows.take(n + 1).drop_last() =~= rows.take(n));
        lemma_first_position_prefix(rows, choice, n + 1);
    } else {
        assert(rows.take(n) =~= rows);
    }
}


/// After a rebuild the selection is on a row whenever there is one, and a
/// preserved choice that is still offered stays selected.
pub proof fn law_rebuilt_selection_is_on_a_row(rows: Seq<PickerRowView>, preserve: Option<ValueChoiceView>)
    ensures
        rows.len() > 0 ==> rebuilt_selection(rows, preserve) < rows.len(),
        match preserve {
            Some(choice) => first_choice_position(rows, choice) is Some ==> rows[rebuilt_selection(
                rows,
                preserve,
            ) as int].choice == choice,
            None => true,
        },
{
    if let Some(choice) = preserve {
        lemma_first_position_bound(rows, choice);
    }
}

proof fn lemma_first_position_bound(rows: Seq<PickerRowView>, choice: ValueChoiceView)
    ensures
        first_choice_position(rows, choice) matches Some(index) ==> index < rows.len()
            && rows[index as int].choice == choice,
    decreases rows.len(),
{
    if rows.len() > 0 {
        lemma_first_position_bound(rows.drop_last(), choice);
    }
}

} // verus!
