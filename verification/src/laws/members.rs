//! What marks the members of an object trait.

use vstd::prelude::*;
use crate::object_trait::{
    attribute_outer_doc, is_member_tag_attribute, member_kind, outer_docs, take_member, tagged,
    trait_fn_item, untagged, Attribute, AttributeValue, MemberKind, ObjectTrait, TraitItem,
};

verus! {

/// Methods, signals and properties are marked by these names.
pub proof fn names_of_marks(kind: &MemberKind, tag: String)
    requires
        call_ensures(MemberKind::tag_text, (kind,), tag),
    ensures
        match kind {
            MemberKind::Method => tag@ == "method"@,
            MemberKind::Signal => tag@ == "signal"@,
            MemberKind::Property => tag@ == "property"@,
        },
{
}

/// Whether an attribute marks a member of a kind: it stands before it, and its path is `qi` and the
/// name of the kind.
pub open spec fn marks<T>(attr: Attribute<T>, kind: MemberKind) -> bool {
    &&& attr.outer
    &&& attr.path@.len() == 2
    &&& attr.path@[0]@ == "qi"@
    &&& attr.path@[1]@ == (match kind {
        MemberKind::Method => "method"@,
        MemberKind::Signal => "signal"@,
        MemberKind::Property => "property"@,
    })
}

/// An attribute marks a member exactly where its path says so, whatever its value.
pub proof fn attributes_mark_members<T>(attr: &Attribute<T>, kind: MemberKind, answer: bool)
    requires
        call_ensures(is_member_tag_attribute::<T>, (attr, kind), answer),
    ensures
        answer <==> marks(*attr, kind),
{
}

/// Whether an attribute documents what it stands before, with a text.
pub open spec fn documents<T>(attr: Attribute<T>, text: Seq<char>) -> bool {
    &&& attr.outer
    &&& attr.plain
    &&& attr.path@.len() == 1
    &&& attr.path@[0]@ == "doc"@
    &&& attr.value matches AttributeValue::Text(words) && words@ == text
}

/// The text of an attribute that documents what it stands before is its value; no other attribute
/// has one.
pub proof fn attributes_document<T>(attr: &Attribute<T>, doc: Option<String>)
    requires
        call_ensures(attribute_outer_doc::<T>, (attr,), doc),
    ensures
        doc matches Some(text) ==> documents(*attr, text@),
        doc is None ==> forall|text: Seq<char>| !(#[trigger] documents(*attr, text)),
{
}

/// Whether any attribute of a list marks a member of a kind.
pub open spec fn any_marks<T>(attrs: Seq<Attribute<T>>, kind: MemberKind) -> bool {
    exists|i: int| 0 <= i < attrs.len() && marks(#[trigger] attrs[i], kind)
}

/// Whether a list is another one without the marks of a kind: none is left, all else is, and it
/// stands as it stood.
pub open spec fn marks_taken_off<T>(
    attrs: Seq<Attribute<T>>,
    kind: MemberKind,
    left: Seq<Attribute<T>>,
) -> bool {
    left == attrs.filter(|attr: Attribute<T>| !marks(attr, kind))
}

/// Two filters that agree give the same.
proof fn same_filter<T>(
    list: Seq<Attribute<T>>,
    p: spec_fn(Attribute<T>) -> bool,
    q: spec_fn(Attribute<T>) -> bool,
)
    requires
        forall|x: Attribute<T>| #[trigger] p(x) == q(x),
    ensures
        list.filter(p) == list.filter(q),
    decreases list.len(),
{
    reveal(Seq::filter);
    if list.len() > 0 {
        same_filter(list.drop_last(), p, q);
        assert(p(list.last()) == q(list.last()));
    }
}

/// What is left of a list without tags is what is left without marks.
proof fn untagged_is_unmarked<T>(attrs: Seq<Attribute<T>>, kind: MemberKind)
    ensures
        marks_taken_off(attrs, kind, untagged(attrs, kind)),
        tagged(attrs, kind) <==> any_marks(attrs, kind),
{
    let by_tag = |attr: Attribute<T>| !crate::object_trait::is_tag(attr, kind);
    let by_mark = |attr: Attribute<T>| !marks(attr, kind);
    assert forall|x: Attribute<T>| #[trigger] by_tag(x) == by_mark(x) by {}
    same_filter(attrs, by_tag, by_mark);
    assert(untagged(attrs, kind) == attrs.filter(by_tag));
    if tagged(attrs, kind) {
        let i = choose|i: int|
            0 <= i < attrs.len() && crate::object_trait::is_tag(#[trigger] attrs[i], kind);
        assert(marks(attrs[i], kind));
    }
    if any_marks(attrs, kind) {
        let i = choose|i: int| 0 <= i < attrs.len() && marks(#[trigger] attrs[i], kind);
        assert(crate::object_trait::is_tag(attrs[i], kind));
    }
}

/// The marks of a kind are taken off a function, which is a member of that kind exactly where there
/// were any. What is no function is no member.
pub proof fn marks_are_taken_off_functions<T>(
    item: TraitItem<T>,
    kind: MemberKind,
    result: (TraitItem<T>, bool),
)
    requires
        call_ensures(trait_fn_item::<T>, (item, kind), result),
    ensures
        item matches TraitItem::Fn(func) ==> {
            &&& result.0 matches TraitItem::Fn(left) && marks_taken_off(
                func.attrs@,
                kind,
                left.attrs@,
            )
            &&& result.1 <==> any_marks(func.attrs@, kind)
        },
        item is Other ==> result.0 is Other && !result.1,
{
    if let TraitItem::Fn(func) = item {
        untagged_is_unmarked(func.attrs@, kind);
    }
}

/// The kind of member that attributes make of a function: that of the marks that it has, methods
/// before signals and signals before properties.
pub open spec fn kind_by_marks<T>(item: TraitItem<T>) -> Option<MemberKind> {
    match item {
        TraitItem::Fn(func) => if any_marks(func.attrs@, MemberKind::Method) {
            Some(MemberKind::Method)
        } else if any_marks(func.attrs@, MemberKind::Signal) {
            Some(MemberKind::Signal)
        } else if any_marks(func.attrs@, MemberKind::Property) {
            Some(MemberKind::Property)
        } else {
            None
        },
        TraitItem::Other => None,
    }
}

/// Whether an item is what is left of another one as a member: the marks of its kind are taken off,
/// and those of other kinds stay.
pub open spec fn left_of<T>(item: TraitItem<T>, rest: TraitItem<T>) -> bool {
    match item {
        TraitItem::Fn(func) => rest matches TraitItem::Fn(left) && match kind_by_marks(item) {
            Some(kind) => marks_taken_off(func.attrs@, kind, left.attrs@),
            None => left.attrs@ == func.attrs@,
        },
        TraitItem::Other => rest is Other,
    }
}

/// The kind of a member in contracts is the one by its marks.
proof fn kind_in_contracts<T>(item: TraitItem<T>)
    ensures
        member_kind(item) == kind_by_marks(item),
        forall|rest: TraitItem<T>| #[trigger]
            crate::object_trait::stripped(item, rest) ==> left_of(item, rest),
{
    if let TraitItem::Fn(func) = item {
        untagged_is_unmarked(func.attrs@, MemberKind::Method);
        untagged_is_unmarked(func.attrs@, MemberKind::Signal);
        untagged_is_unmarked(func.attrs@, MemberKind::Property);
    }
}

/// An item is taken as a member of the kind of its marks, which are taken off it.
pub proof fn members_are_taken_by_their_marks<T>(
    item: TraitItem<T>,
    result: (TraitItem<T>, Option<MemberKind>),
)
    requires
        call_ensures(take_member::<T>, (item,), result),
    ensures
        result.1 == kind_by_marks(item),
        left_of(item, result.0),
{
    kind_in_contracts(item);
}

/// Whether positions are those of all members of a kind, in their order.
pub open spec fn positions_are_of<T>(
    positions: Seq<usize>,
    items: Seq<TraitItem<T>>,
    kind: MemberKind,
) -> bool {
    &&& forall|i: int, j: int|
        0 <= i < j < positions.len() ==> (#[trigger] positions[i]) < (#[trigger] positions[j])
    &&& forall|i: int|
        0 <= i < positions.len() ==> (#[trigger] positions[i]) < items.len()
    &&& forall|i: int|
        0 <= i < positions.len() ==> kind_by_marks(items[(#[trigger] positions[i]) as int]) == Some(
            kind,
        )
    &&& forall|k: int|
        0 <= k < items.len() && kind_by_marks(#[trigger] items[k]) == Some(kind) ==> exists|i: int|
            0 <= i < positions.len() && #[trigger] positions[i] == k
}

/// Positions in contracts are those by marks.
proof fn positions_in_contracts<T>(
    positions: Seq<usize>,
    items: Seq<TraitItem<T>>,
    kind: MemberKind,
)
    requires
        crate::object_trait::positions_of(positions, items, kind, items.len() as int),
    ensures
        positions_are_of(positions, items, kind),
{
    assert forall|i: int| 0 <= i < positions.len() implies kind_by_marks(
        items[(#[trigger] positions[i]) as int],
    ) == Some(kind) by {
        kind_in_contracts(items[positions[i] as int]);
    }
    assert forall|k: int| 0 <= k < items.len() && kind_by_marks(#[trigger] items[k]) == Some(
        kind,
    ) implies exists|i: int| 0 <= i < positions.len() && #[trigger] positions[i] == k by {
        kind_in_contracts(items[k]);
        assert(member_kind(items[k]) == Some(kind));
    }
}

/// A trait keeps its name and its items, each without the marks of the kind of member that it is;
/// its methods, signals and properties are all items of those kinds, in their order.
pub proof fn traits_are_sorted_into_members<T>(
    name: String,
    attrs: &Vec<Attribute<T>>,
    items: Vec<TraitItem<T>>,
    object: ObjectTrait<T>,
)
    requires
        call_ensures(ObjectTrait::<T>::parse, (name, attrs, items), object),
    ensures
        object.name@ == name@,
        object.items@.len() == items@.len(),
        forall|i: int| 0 <= i < items@.len() ==> left_of(items@[i], #[trigger] object.items@[i]),
        positions_are_of(object.methods@, items@, MemberKind::Method),
        positions_are_of(object.signals@, items@, MemberKind::Signal),
        positions_are_of(object.properties@, items@, MemberKind::Property),
{
    assert forall|i: int| 0 <= i < items@.len() implies left_of(
        items@[i],
        #[trigger] object.items@[i],
    ) by {
        kind_in_contracts(items@[i]);
        assert(crate::object_trait::stripped(items@[i], object.items@[i]));
    }
    positions_in_contracts(object.methods@, items@, MemberKind::Method);
    positions_in_contracts(object.signals@, items@, MemberKind::Signal);
    positions_in_contracts(object.properties@, items@, MemberKind::Property);
}

/// The description of a trait is made of the texts of all attributes that document it, in their
/// order.
pub proof fn descriptions_hold_all_documentation<T>(
    name: String,
    attrs: &Vec<Attribute<T>>,
    items: Vec<TraitItem<T>>,
    object: ObjectTrait<T>,
)
    requires
        call_ensures(ObjectTrait::<T>::parse, (name, attrs, items), object),
    ensures
        object.description@.len() == attrs@.filter(
            |attr: Attribute<T>| is_documentation(attr),
        ).len(),
        forall|i: int|
            0 <= i < object.description@.len() ==> documents(
                attrs@.filter(|attr: Attribute<T>| is_documentation(attr))[i],
                (#[trigger] object.description@[i])@,
            ),
{
    let texts = object.description@.map_values(|doc: String| doc@);
    docs_are_documentation(attrs@);
    assert(texts.len() == object.description@.len());
    assert forall|i: int| 0 <= i < object.description@.len() implies documents(
        attrs@.filter(|attr: Attribute<T>| is_documentation(attr))[i],
        (#[trigger] object.description@[i])@,
    ) by {
        assert(texts[i] == object.description@[i]@);
    }
}

/// Whether an attribute documents what it stands before.
pub open spec fn is_documentation<T>(attr: Attribute<T>) -> bool {
    attr.outer && attr.plain && attr.path@.len() == 1 && attr.path@[0]@ == "doc"@ && attr.value
        is Text
}

/// The texts of a list are those of its documentation.
proof fn docs_are_documentation<T>(attrs: Seq<Attribute<T>>)
    ensures
        ({
            let kept = attrs.filter(|attr: Attribute<T>| is_documentation(attr));
            &&& outer_docs(attrs).len() == kept.len()
            &&& forall|i: int|
                0 <= i < kept.len() ==> documents(#[trigger] kept[i], outer_docs(attrs)[i])
        }),
    decreases attrs.len(),
{
    reveal(Seq::filter);
    if attrs.len() > 0 {
        docs_are_documentation(attrs.drop_last());
    }
}

} // verus!
