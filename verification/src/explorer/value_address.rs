//! Reflected addresses: an arena root plus a path of field, element and map
//! key steps into the value owned by that root.
use vstd::prelude::*;
use crate::explorer::ids::SlotId;
use crate::text::{decimal, push_char, push_decimal, push_text};

verus! {

/// One step from a reflected value to one of its children.
#[derive(Clone, Debug, PartialEq, Eq, Hash)]
pub enum ValuePathSegment {
    Field(String),
    Index(usize),
    Key(String),
}

/// Mathematical form of a path step.
pub enum SegmentView {
    Field(Seq<char>),
    Index(nat),
    Key(Seq<char>),
}

impl View for ValuePathSegment {
    type V = SegmentView;

    open spec fn view(&self) -> SegmentView {
        match self {
            ValuePathSegment::Field(name) => SegmentView::Field(name@),
            ValuePathSegment::Index(index) => SegmentView::Index(*index as nat),
            ValuePathSegment::Key(key) => SegmentView::Key(key@),
        }
    }
}

impl ValuePathSegment {
    /// An equal copy of this step.
    pub fn duplicate(&self) -> (copy: ValuePathSegment)
        ensures
            copy@ == self@,
    {
        match self {
            ValuePathSegment::Field(name) => ValuePathSegment::Field(name.clone()),
            ValuePathSegment::Index(index) => ValuePathSegment::Index(*index),
            ValuePathSegment::Key(key) => ValuePathSegment::Key(key.clone()),
        }
    }

    /// Whether two steps are the same step.
    pub fn same_as(&self, other: &ValuePathSegment) -> (same: bool)
        ensures
            same == (self@ == other@),
    {
        match (self, other) {
            (ValuePathSegment::Field(a), ValuePathSegment::Field(b)) => *a == *b,
            (ValuePathSegment::Index(a), ValuePathSegment::Index(b)) => *a == *b,
            (ValuePathSegment::Key(a), ValuePathSegment::Key(b)) => *a == *b,
            _ => false,
        }
    }
}

/// The steps of a path, as views.
pub open spec fn segments_view(segments: Seq<ValuePathSegment>) -> Seq<SegmentView> {
    segments.map_values(|segment: ValuePathSegment| segment@)
}

/// A path from an arena root into the value it owns.
#[derive(Clone, Debug, PartialEq, Eq, Hash)]
pub struct ValuePath {
    pub segments: Vec<ValuePathSegment>,
}

impl View for ValuePath {
    type V = Seq<SegmentView>;

    open spec fn view(&self) -> Seq<SegmentView> {
        segments_view(self.segments@)
    }
}

impl ValuePath {
    pub fn segments(&self) -> (segments: &[ValuePathSegment])
        ensures
            segments@ == self.segments@,
    {
        self.segments.as_slice()
    }

    /// An equal copy of this path.
    pub fn duplicate(&self) -> (copy: ValuePath)
        ensures
            copy@ == self@,
    {
        let mut segments: Vec<ValuePathSegment> = Vec::new();
        let mut i: usize = 0;
        while i < self.segments.len()
            invariant
                i <= self.segments.len(),
                segments@.len() == i,
                forall|k: int| 0 <= k < i ==> #[trigger] segments@[k]@ == self.segments@[k]@,
            decreases self.segments.len() - i,
        {
            segments.push(self.segments[i].duplicate());
            i = i + 1;
        }
        assert(segments_view(segments@) =~= segments_view(self.segments@));
        ValuePath { segments }
    }

    /// Whether two paths have the same steps.
    pub fn same_as(&self, other: &ValuePath) -> (same: bool)
        ensures
            same == (self@ == other@),
    {
        if self.segments.len() != other.segments.len() {
            assert(self@.len() != other@.len());
            return false;
        }
        let mut i: usize = 0;
        while i < self.segments.len()
            invariant
                i <= self.segments.len(),
                self.segments.len() == other.segments.len(),
                forall|k: int| 0 <= k < i ==> self@[k] == other@[k],
            decreases self.segments.len() - i,
        {
            if !self.segments[i].same_as(&other.segments[i]) {
                assert(self@[i as int] != other@[i as int]);
                return false;
            }
            i = i + 1;
        }
        assert(self@ =~= other@);
        true
    }
}

/// Mathematical form of an address.
pub struct AddressView {
    pub root: u64,
    pub path: Seq<SegmentView>,
}

/// Logical identity of one reflected value: its owning root and the path to
/// it. Addresses never own or copy the value they name.
#[derive(Clone, Debug, PartialEq, Eq, Hash)]
pub struct ValueAddress {
    pub root: SlotId,
    pub path: ValuePath,
}

impl View for ValueAddress {
    type V = AddressView;

    open spec fn view(&self) -> AddressView {
        AddressView { root: self.root.0, path: self.path@ }
    }
}

/// Text of one path step: `.field`, `[index]` or `["key"]`.
pub open spec fn segment_text(segment: SegmentView) -> Seq<char> {
    match segment {
        SegmentView::Field(name) => seq!['.'] + name,
        SegmentView::Index(index) => seq!['['] + decimal(index) + seq![']'],
        SegmentView::Key(key) => seq!['[', '"'] + key + seq!['"', ']'],
    }
}

/// Text of a sequence of path steps.
pub open spec fn path_text(path: Seq<SegmentView>) -> Seq<char>
    decreases path.len(),
{
    if path.len() == 0 {
        seq![]
    } else {
        path_text(path.drop_last()) + segment_text(path.last())
    }
}

/// Text of an address: `slot N` followed by its path steps.
pub open spec fn address_text(address: AddressView) -> Seq<char> {
    seq!['s', 'l', 'o', 't', ' '] + decimal(address.root as nat) + path_text(address.path)
}

impl ValueAddress {
    /// The address of an arena root itself.
    pub fn root(slot: SlotId) -> (address: ValueAddress)
        ensures
            address@.root == slot.0,
            address@.path == Seq::<SegmentView>::empty(),
    {
        let address = ValueAddress { root: slot, path: ValuePath { segments: Vec::new() } };
        assert(address@.path =~= Seq::<SegmentView>::empty());
        address
    }

    /// The address one step below this one.
    pub fn child(self, segment: ValuePathSegment) -> (address: ValueAddress)
        ensures
            address@.root == self@.root,
            address@.path == self@.path.push(segment@),
    {
        let ghost old_segments = self.path.segments@;
        let mut segments = self.path.segments;
        segments.push(segment);
        let address = ValueAddress { root: self.root, path: ValuePath { segments } };
        assert(address@.path =~= segments_view(old_segments).push(segment@));
        address
    }

    pub fn root_id(&self) -> (root: SlotId)
        ensures
            root.0 == self@.root,
    {
        self.root
    }

    pub fn path(&self) -> (path: &ValuePath)
        ensures
            path@ == self@.path,
    {
        &self.path
    }

    /// Whether this address names a root rather than a reflected descendant.
    pub fn is_root(&self) -> (root: bool)
        ensures
            root == (self@.path.len() == 0),
    {
        self.path.segments.len() == 0
    }

    /// An equal copy of this address.
    pub fn duplicate(&self) -> (copy: ValueAddress)
        ensures
            copy@ == self@,
    {
        ValueAddress { root: self.root, path: self.path.duplicate() }
    }

    /// Whether two addresses name the same value.
    pub fn same_as(&self, other: &ValueAddress) -> (same: bool)
        ensures
            same == (self@ == other@),
    {
        self.root.0 == other.root.0 && self.path.same_as(&other.path)
    }

    /// Text form of this address, such as `slot 3.members[2]`.
    pub fn text(&self) -> (text: String)
        ensures
            text@ == address_text(self@),
    {
        let mut text = String::new();
        push_char(&mut text, 's');
        push_char(&mut text, 'l');
        push_char(&mut text, 'o');
        push_char(&mut text, 't');
        push_char(&mut text, ' ');
        push_decimal(&mut text, self.root.0);
        let ghost head = text@;
        assert(head =~= seq!['s', 'l', 'o', 't', ' '] + decimal(self.root.0 as nat));
        let mut i: usize = 0;
        while i < self.path.segments.len()
            invariant
                i <= self.path.segments.len(),
                text@ == head + path_text(self@.path.take(i as int)),
            decreases self.path.segments.len() - i,
        {
            let ghost before = text@;
            match &self.path.segments[i] {
                ValuePathSegment::Field(name) => {
                    push_char(&mut text, '.');
                    push_text(&mut text, name.as_str());
                },
                ValuePathSegment::Index(index) => {
                    push_char(&mut text, '[');
                    push_decimal(&mut text, *index as u64);
                    push_char(&mut text, ']');
                },
                ValuePathSegment::Key(key) => {
                    push_char(&mut text, '[');
                    push_char(&mut text, '"');
                    push_text(&mut text, key.as_str());
                    push_char(&mut text, '"');
                    push_char(&mut text, ']');
                },
            }
            assert(self@.path.take(i + 1).drop_last() =~= self@.path.take(i as int));
            assert(text@ =~= before + segment_text(self@.path[i as int]));
            i = i + 1;
        }
        assert(self@.path.take(i as int) =~= self@.path);
        text
    }
}

} // verus!
