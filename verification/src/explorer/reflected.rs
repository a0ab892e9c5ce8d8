//! Topology of reflected values: which child addresses a value exposes, and
//! which child one path step selects. Reflection itself stays outside the
//! library; what it reports of one value is handed in as a `ChildLayout`.
use vstd::prelude::*;
use crate::explorer::arena::{Arena, ArenaError, ArenaSlotState, kind_of};
use crate::explorer::ids::SlotId;
use crate::explorer::revision::RootRevision;
use crate::explorer::value_address::{AddressView, SegmentView, ValueAddress, ValuePathSegment};

verus! {

/// What reflection reports of one value's children.
#[derive(Clone, Debug, PartialEq, Eq)]
pub enum ChildLayout {
    /// A scalar, or any value without walkable children.
    Leaf,
    /// A list, array, slice or set of `len` elements, addressed by position.
    Elements(usize),
    /// A struct, or the active variant of an enum: its field names in order.
    Fields(Vec<String>),
    /// An enum whose active variant could not be read.
    UnreadableVariant,
    /// A tuple of `len` fields, addressed by position.
    Tuple(usize),
    /// A map: the text of each key, in iteration order.
    Keys(Vec<String>),
}

pub enum LayoutView {
    Leaf,
    Elements(nat),
    Fields(Seq<Seq<char>>),
    UnreadableVariant,
    Tuple(nat),
    Keys(Seq<Seq<char>>),
}

pub open spec fn texts_view(texts: Seq<String>) -> Seq<Seq<char>> {
    texts.map_values(|text: String| text@)
}

impl View for ChildLayout {
    type V = LayoutView;

    open spec fn view(&self) -> LayoutView {
        match self {
            ChildLayout::Leaf => LayoutView::Leaf,
            ChildLayout::Elements(len) => LayoutView::Elements(*len as nat),
            ChildLayout::Fields(names) => LayoutView::Fields(texts_view(names@)),
            ChildLayout::UnreadableVariant => LayoutView::UnreadableVariant,
            ChildLayout::Tuple(len) => LayoutView::Tuple(*len as nat),
            ChildLayout::Keys(keys) => LayoutView::Keys(texts_view(keys@)),
        }
    }
}

/// The path steps to the children of a value, in reflection order.
pub open spec fn child_segments(layout: LayoutView) -> Seq<SegmentView> {
    match layout {
        LayoutView::Elements(len) => Seq::new(len, |i: int| SegmentView::Index(i as nat)),
        LayoutView::Tuple(len) => Seq::new(len, |i: int| SegmentView::Index(i as nat)),
        LayoutView::Fields(names) => names.map_values(|name: Seq<char>| SegmentView::Field(name)),
        LayoutView::Keys(keys) => keys.map_values(|key: Seq<char>| SegmentView::Key(key)),
        _ => Seq::empty(),
    }
}

/// The address one step below `parent`.
pub open spec fn child_view(parent: AddressView, segment: SegmentView) -> AddressView {
    AddressView { root: parent.root, path: parent.path.push(segment) }
}

/// Number of children of a value with this layout.
pub fn child_count(layout: &ChildLayout) -> (count: usize)
    ensures
        count == child_segments(layout@).len(),
{
    match layout {
        ChildLayout::Elements(len) => *len,
        ChildLayout::Tuple(len) => *len,
        ChildLayout::Fields(names) => names.len(),
        ChildLayout::Keys(keys) => keys.len(),
        _ => 0,
    }
}

/// The path step to child `ordinal` of a value with this layout.
pub fn child_segment(layout: &ChildLayout, ordinal: usize) -> (segment: ValuePathSegment)
    requires
        ordinal < child_segments(layout@).len(),
    ensures
        segment@ == child_segments(layout@)[ordinal as int],
{
    match layout {
        ChildLayout::Fields(names) => ValuePathSegment::Field(names[ordinal].clone()),
        ChildLayout::Keys(keys) => ValuePathSegment::Key(keys[ordinal].clone()),
        _ => ValuePathSegment::Index(ordinal),
    }
}

/// The children of one reflected value, produced one at a time on demand so
/// that a value with a million elements costs nothing until it is walked.
pub struct ChildAddresses {
    parent: ValueAddress,
    layout: ChildLayout,
}

impl ChildAddresses {
    pub closed spec fn parent_view(&self) -> AddressView {
        self.parent@
    }

    pub closed spec fn segments(&self) -> Seq<SegmentView> {
        child_segments(self.layout@)
    }

    pub fn len(&self) -> (len: usize)
        ensures
            len == self.segments().len(),
    {
        child_count(&self.layout)
    }

    /// Child `ordinal`, or `None` past the last child.
    pub fn get(&self, ordinal: usize) -> (child: Option<ValueAddress>)
        ensures
            ordinal < self.segments().len() ==> (child matches Some(c) && c@ == child_view(
                self.parent_view(),
                self.segments()[ordinal as int],
            )),
            ordinal >= self.segments().len() ==> child is None,
    {
        if ordinal < child_count(&self.layout) {
            let segment = child_segment(&self.layout, ordinal);
            Some(self.parent.duplicate().child(segment))
        } else {
            None
        }
    }
}

/// The children reflection exposes below `parent`: none when the value is
/// read through a proxy (`proxied`) or has no children, else one address per
/// element, field or key, in reflection order.
pub fn child_addresses(parent: ValueAddress, proxied: bool, layout: ChildLayout) -> (children:
    Option<ChildAddresses>)
    ensures
        (proxied || child_segments(layout@).len() == 0) ==> children is None,
        !(proxied || child_segments(layout@).len() == 0) ==> (children matches Some(c)
            && c.parent_view() == parent@ && c.segments() == child_segments(layout@)),
{
    if proxied || child_count(&layout) == 0 {
        None
    } else {
        Some(ChildAddresses { parent, layout })
    }
}

/// Why an address did not resolve to a value.
#[derive(Clone, Debug, PartialEq, Eq)]
pub enum ValueResolutionError {
    Root(ArenaError),
    StaleRootRevision { root: SlotId, expected: RootRevision, actual: RootRevision },
    MissingField { parent: ValueAddress, field: String },
    IndexOutOfRange { parent: ValueAddress, index: usize, len: usize },
    MissingKey { parent: ValueAddress, key: String },
    SegmentNotSupported { parent: ValueAddress, segment: ValuePathSegment },
    Reflection { parent: ValueAddress },
}

/// What one path step selects below a value.
pub enum StepOutcome {
    Child(nat),
    MissingField,
    IndexOutOfRange(nat, nat),
    MissingKey,
    NotSupported,
    Unreadable,
}

/// Whether `i` is the first position holding `text`.
pub open spec fn is_first_match(texts: Seq<Seq<char>>, text: Seq<char>, i: int) -> bool {
    &&& 0 <= i < texts.len()
    &&& texts[i] == text
    &&& forall|j: int| 0 <= j < i ==> texts[j] != text
}

pub open spec fn lookup(texts: Seq<Seq<char>>, text: Seq<char>) -> StepOutcome {
    if exists|i: int| is_first_match(texts, text, i) {
        StepOutcome::Child((choose|i: int| is_first_match(texts, text, i)) as nat)
    } else {
        StepOutcome::NotSupported
    }
}

/// The child a path step selects: a field by its first matching name, an
/// element or tuple field by position, a map entry by its first matching
/// key; any other pairing of step and value is unsupported.
pub open spec fn step_outcome(layout: LayoutView, segment: SegmentView) -> StepOutcome {
    match segment {
        SegmentView::Field(name) => match layout {
            LayoutView::Fields(names) => if texts_contain(names, name) {
                lookup(names, name)
            } else {
                StepOutcome::MissingField
            },
            LayoutView::UnreadableVariant => StepOutcome::Unreadable,
            _ => StepOutcome::NotSupported,
        },
        SegmentView::Index(index) => match layout {
            LayoutView::Elements(len) => if index < len {
                StepOutcome::Child(index)
            } else {
                StepOutcome::IndexOutOfRange(index, len)
            },
            LayoutView::Tuple(len) => if index < len {
                StepOutcome::Child(index)
            } else {
                StepOutcome::IndexOutOfRange(index, len)
            },
            _ => StepOutcome::NotSupported,
        },
        SegmentView::Key(key) => match layout {
            LayoutView::Keys(keys) => if texts_contain(keys, key) {
                lookup(keys, key)
            } else {
                StepOutcome::MissingKey
            },
            _ => StepOutcome::NotSupported,
        },
    }
}

pub open spec fn texts_contain(texts: Seq<Seq<char>>, text: Seq<char>) -> bool {
    exists|i: int| 0 <= i < texts.len() && texts[i] == text
}

/// The error a failed step reports, given the address of the value stepped from.
pub open spec fn step_error_matches(
    error: ValueResolutionError,
    parent: AddressView,
    segment: SegmentView,
    outcome: StepOutcome,
) -> bool {
    match outcome {
        StepOutcome::MissingField => error matches ValueResolutionError::MissingField { parent: p, field }
            && p@ == parent && SegmentView::Field(field@) == segment,
        StepOutcome::IndexOutOfRange(index, len) => error matches ValueResolutionError::IndexOutOfRange {
            parent: p,
            index: i,
            len: l,
        } && p@ == parent && i == index && l == len,
        StepOutcome::MissingKey => error matches ValueResolutionError::MissingKey { parent: p, key } && p@
            == parent && SegmentView::Key(key@) == segment,
        StepOutcome::NotSupported => error matches ValueResolutionError::SegmentNotSupported {
            parent: p,
            segment: s,
        } && p@ == parent && s@ == segment,
        StepOutcome::Unreadable => error matches ValueResolutionError::Reflection { parent: p } && p@
            == parent,
        StepOutcome::Child(_) => false,
    }
}

fn find_text(texts: &Vec<String>, text: &String) -> (found: Option<usize>)
    ensures
        found matches Some(i) ==> is_first_match(texts_view(texts@), text@, i as int),
        found is None ==> !texts_contain(texts_view(texts@), text@),
{
    let ghost view = texts_view(texts@);
    let mut i: usize = 0;
    while i < texts.len()
        invariant
            i <= texts.len(),
            view == texts_view(texts@),
            forall|j: int| 0 <= j < i ==> view[j] != text@,
        decreases texts.len() - i,
    {
        if texts[i] == *text {
            return Some(i);
        }
        i = i + 1;
    }
    None
}

proof fn lemma_first_match_unique(texts: Seq<Seq<char>>, text: Seq<char>, i: int)
    requires
        is_first_match(texts, text, i),
    ensures
        lookup(texts, text) == StepOutcome::Child(i as nat),
{
    let c = choose|k: int| is_first_match(texts, text, k);
    assert(is_first_match(texts, text, c));
    if c < i {
        assert(texts[c] != text);
    } else if i < c {
        assert(texts[i] != text);
    }
}

/// The position of the child that `segment` selects below the value at
/// `parent`, whose children reflection reports as `layout`.
pub fn resolve_step(parent: &ValueAddress, layout: &ChildLayout, segment: &ValuePathSegment) -> (result:
    Result<usize, ValueResolutionError>)
    ensures
        match step_outcome(layout@, segment@) {
            StepOutcome::Child(i) => result == Ok::<usize, ValueResolutionError>(i as usize),
            outcome => result matches Err(e) && step_error_matches(e, parent@, segment@, outcome),
        },
{
    let unsupported = ValueResolutionError::SegmentNotSupported {
        parent: parent.duplicate(),
        segment: segment.duplicate(),
    };
    match segment {
        ValuePathSegment::Field(name) => match layout {
            ChildLayout::Fields(names) => match find_text(names, name) {
                Some(i) => {
                    proof {
                        lemma_first_match_unique(texts_view(names@), name@, i as int);
                    }
                    Ok(i)
                },
                None => Err(
                    ValueResolutionError::MissingField { parent: parent.duplicate(), field: name.clone() },
                ),
            },
            ChildLayout::UnreadableVariant => Err(
                ValueResolutionError::Reflection { parent: parent.duplicate() },
            ),
            _ => Err(unsupported),
        },
        ValuePathSegment::Index(index) => match layout {
            ChildLayout::Elements(len) | ChildLayout::Tuple(len) => if *index < *len {
                Ok(*index)
            } else {
                Err(
                    ValueResolutionError::IndexOutOfRange {
                        parent: parent.duplicate(),
                        index: *index,
                        len: *len,
                    },
                )
            },
            _ => Err(unsupported),
        },
        ValuePathSegment::Key(key) => match layout {
            ChildLayout::Keys(keys) => match find_text(keys, key) {
                Some(i) => {
                    proof {
                        lemma_first_match_unique(texts_view(keys@), key@, i as int);
                    }
                    Ok(i)
                },
                None => Err(
                    ValueResolutionError::MissingKey { parent: parent.duplicate(), key: key.clone() },
                ),
            },
            _ => Err(unsupported),
        },
    }
}

/// Every child a value lists resolves again from its own path step, to a
/// child that the same step names (the first one, when names repeat).
pub proof fn law_listed_children_resolve(layout: LayoutView, ordinal: int)
    requires
        0 <= ordinal < child_segments(layout).len(),
    ensures
        step_outcome(layout, child_segments(layout)[ordinal]) matches StepOutcome::Child(p) && p
            < child_segments(layout).len() && child_segments(layout)[p as int] == child_segments(
            layout,
        )[ordinal],
{
    match layout {
        LayoutView::Fields(names) => {
            let name = names[ordinal];
            assert(texts_contain(names, name));
            lemma_first_exists(names, name, ordinal);
            let p = choose|k: int| is_first_match(names, name, k);
            lemma_first_match_unique(names, name, p);
        },
        LayoutView::Keys(keys) => {
            let key = keys[ordinal];
            assert(texts_contain(keys, key));
            lemma_first_exists(keys, key, ordinal);
            let p = choose|k: int| is_first_match(keys, key, k);
            lemma_first_match_unique(keys, key, p);
        },
        _ => {},
    }
}

proof fn lemma_first_exists(texts: Seq<Seq<char>>, text: Seq<char>, i: int)
    requires
        0 <= i < texts.len(),
        texts[i] == text,
    ensures
        exists|k: int| is_first_match(texts, text, k),
    decreases i,
{
    if exists|j: int| 0 <= j < i && texts[j] == text {
        let j = choose|j: int| 0 <= j < i && texts[j] == text;
        lemma_first_exists(texts, text, j);
    } else {
        assert(is_first_match(texts, text, i));
    }
}

/// The revision and value of the root `address` starts from. With
/// `expected`, a root whose revision moved on since it was observed is
/// reported stale before its state is read.
pub fn resolve_root_at<'a, V>(arena: &'a Arena<V>, address: &ValueAddress, expected: Option<RootRevision>) -> (result:
    Result<(&'a V, RootRevision), ValueResolutionError>)
    requires
        arena.wf(),
    ensures
        ({
            let slot = address@.root;
            if slot >= arena@.root_revisions.len() {
                result == Err::<(&V, RootRevision), ValueResolutionError>(
                    ValueResolutionError::Root(ArenaError::UnknownSlot(SlotId(slot))),
                )
            } else if expected matches Some(e) && e.0 != arena@.root_revisions[slot as int] {
                result == Err::<(&V, RootRevision), ValueResolutionError>(
                    ValueResolutionError::StaleRootRevision {
                        root: SlotId(slot),
                        expected: expected.unwrap(),
                        actual: RootRevision(arena@.root_revisions[slot as int]),
                    },
                )
            } else {
                match arena@.states[slot as int] {
                    ArenaSlotState::Ready(v) => result == Ok::<(&V, RootRevision), ValueResolutionError>(
                        (&v, RootRevision(arena@.root_revisions[slot as int])),
                    ),
                    ArenaSlotState::Tombstone { previous } => result == Err::<
                        (&V, RootRevision),
                        ValueResolutionError,
                    >(ValueResolutionError::Root(ArenaError::Tombstone { slot: SlotId(slot), previous })),
                    state => result == Err::<(&V, RootRevision), ValueResolutionError>(
                        ValueResolutionError::Root(
                            ArenaError::RootNotReady { slot: SlotId(slot), state: kind_of(state) },
                        ),
                    ),
                }
            }
        }),
{
    let root = address.root_id();
    proof {
        arena.lemma_one_revision_per_root();
    }
    let actual = match arena.root_revision(root) {
        Some(revision) => revision,
        None => return Err(ValueResolutionError::Root(ArenaError::UnknownSlot(root))),
    };
    if let Some(expected) = expected {
        if expected.0 != actual.0 {
            return Err(ValueResolutionError::StaleRootRevision { root, expected, actual });
        }
    }
    match arena.resolve_root(root) {
        Ok(value) => Ok((value, actual)),
        Err(error) => Err(ValueResolutionError::Root(error)),
    }
}

} // verus!
