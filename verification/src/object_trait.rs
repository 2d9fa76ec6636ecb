//! What the members of an object trait are: its methods, signals and properties, by the attributes
//! of the functions of the trait.

use vstd::prelude::*;

verus! {

/// What follows the path of an attribute.
#[derive(PartialEq, Eq, Debug)]
pub enum AttributeValue {
    /// Nothing, or arguments in brackets.
    Absent,
    /// A string literal behind an equals sign.
    Text(String),
    /// Something else behind an equals sign.
    Other,
}

/// An attribute. `T` stands for its tokens.
#[derive(Debug)]
pub struct Attribute<T> {
    /// Whether the attribute stands before what it is about, and not inside.
    pub outer: bool,
    /// The names of the path of the attribute.
    pub path: Vec<String>,
    /// Whether the path is made of its names only, without a leading separator and without
    /// generic arguments.
    pub plain: bool,
    pub value: AttributeValue,
    pub tokens: T,
}

/// The kinds of members of an object trait.
#[derive(Clone, Copy, PartialEq, Eq, Structural, Debug)]
pub enum MemberKind {
    Method,
    Signal,
    Property,
}

impl MemberKind {
    /// The name by which an attribute marks a member of this kind.
    pub open spec fn tag(self) -> Seq<char> {
        match self {
            MemberKind::Method => "method"@,
            MemberKind::Signal => "signal"@,
            MemberKind::Property => "property"@,
        }
    }

    /// The name by which an attribute marks a member of this kind.
    pub fn tag_text(&self) -> (tag: String)
        ensures
            tag@ == self.tag(),
    {
        match self {
            MemberKind::Method => "method".to_owned(),
            MemberKind::Signal => "signal".to_owned(),
            MemberKind::Property => "property".to_owned(),
        }
    }
}

/// A function of a trait. `T` stands for the tokens of an attribute.
#[derive(Debug)]
pub struct TraitItemFn<T> {
    pub attrs: Vec<Attribute<T>>,
}

/// An item of a trait. `T` stands for the tokens of an attribute.
#[derive(Debug)]
pub enum TraitItem<T> {
    Fn(TraitItemFn<T>),
    Other,
}

/// The text of an attribute that documents what it stands before.
pub open spec fn outer_doc<T>(attr: Attribute<T>) -> Option<Seq<char>> {
    match attr.value {
        AttributeValue::Text(text) => if attr.outer && attr.plain && attr.path@.len() == 1
            && attr.path@[0]@ == "doc"@ {
            Some(text@)
        } else {
            None
        },
        _ => None,
    }
}

/// Whether an attribute marks a member of a kind: its path is `qi` and the name of the kind.
pub open spec fn is_tag<T>(attr: Attribute<T>, kind: MemberKind) -> bool {
    attr.outer && attr.path@.len() == 2 && attr.path@[0]@ == "qi"@ && attr.path@[1]@ == kind.tag()
}

/// The text of an attribute that documents what it stands before.
pub fn attribute_outer_doc<T>(attr: &Attribute<T>) -> (doc: Option<String>)
    ensures
        match doc {
            Some(text) => outer_doc(*attr) == Some(text@),
            None => outer_doc(*attr) is None,
        },
{
    if !attr.outer {
        return None;
    }
    match &attr.value {
        AttributeValue::Text(text) => if attr.plain && attr.path.len() == 1 && attr.path[0]
            == "doc".to_owned() {
            Some(text.clone())
        } else {
            None
        },
        _ => None,
    }
}

/// Tells whether an attribute marks a member of a kind.
pub fn is_member_tag_attribute<T>(attr: &Attribute<T>, kind: MemberKind) -> (answer: bool)
    ensures
        answer == is_tag(*attr, kind),
{
    if !attr.outer {
        return false;
    }
    if attr.path.len() != 2 {
        return false;
    }
    attr.path[0] == "qi".to_owned() && attr.path[1] == kind.tag_text()
}

/// The attributes of a list that do not mark a member of a kind, in the same order.
pub open spec fn untagged<T>(attrs: Seq<Attribute<T>>, kind: MemberKind) -> Seq<Attribute<T>> {
    attrs.filter(|attr: Attribute<T>| !is_tag(attr, kind))
}

/// Whether an attribute of a list marks a member of a kind.
pub open spec fn tagged<T>(attrs: Seq<Attribute<T>>, kind: MemberKind) -> bool {
    exists|i: int| 0 <= i < attrs.len() && is_tag(#[trigger] attrs[i], kind)
}

/// Takes the attributes off an item that mark it as a member of a kind, and tells whether there
/// were any. An item that is no function is no member.
pub fn trait_fn_item<T>(item: TraitItem<T>, kind: MemberKind) -> (result: (TraitItem<T>, bool))
    ensures
        match item {
            TraitItem::Fn(func) => {
                &&& result.0 matches TraitItem::Fn(rest) && rest.attrs@ == untagged(
                    func.attrs@,
                    kind,
                )
                &&& result.1 == tagged(func.attrs@, kind)
            },
            TraitItem::Other => result.0 is Other && !result.1,
        },
{
    match item {
        TraitItem::Fn(func) => {
            let ghost all = func.attrs@;
            let mut rest: Vec<Attribute<T>> = func.attrs;
            let mut kept: Vec<Attribute<T>> = Vec::new();
            let mut found = false;
            proof {
                reveal(Seq::filter);
                assert(all.skip(0) =~= all);
                assert(untagged(all.take(0), kind) =~= Seq::<Attribute<T>>::empty());
            }
            while rest.len() > 0
                invariant
                    rest@.len() <= all.len(),
                    rest@ == all.skip(all.len() - rest@.len()),
                    kept@ == untagged(all.take(all.len() - rest@.len()), kind),
                    found == tagged(all.take(all.len() - rest@.len()), kind),
                decreases rest@.len(),
            {
                let ghost done = all.len() - rest@.len();
                let ghost before = all.take(done);
                let ghost next = all.take(done + 1);
                let attr = rest.remove(0);
                let ghost this = attr;
                if is_member_tag_attribute(&attr, kind) {
                    found = true;
                } else {
                    kept.push(attr);
                }
                proof {
                    reveal(Seq::filter);
                    assert(this == all[done]);
                    assert(rest@ =~= all.skip(done + 1));
                    assert(next.drop_last() =~= before);
                    assert(kept@ =~= untagged(next, kind));
                    if tagged(next, kind) && !is_tag(this, kind) {
                        let i = choose|i: int|
                            0 <= i < next.len() && is_tag(#[trigger] next[i], kind);
                        assert(before[i] == next[i]);
                    }
                    if tagged(before, kind) {
                        let i = choose|i: int|
                            0 <= i < before.len() && is_tag(#[trigger] before[i], kind);
                        assert(next[i] == before[i]);
                    }
                    if is_tag(this, kind) {
                        assert(is_tag(next[done], kind));
                    }
                }
            }
            assert(all.take(all.len() as int) =~= all);
            (TraitItem::Fn(TraitItemFn { attrs: kept }), found)
        },
        TraitItem::Other => (TraitItem::Other, false),
    }
}

/// The kind of member that an item is: the first one in the order of methods, signals and
/// properties by which it is marked.
pub open spec fn member_kind<T>(item: TraitItem<T>) -> Option<MemberKind> {
    match item {
        TraitItem::Fn(func) => if tagged(func.attrs@, MemberKind::Method) {
            Some(MemberKind::Method)
        } else if tagged(func.attrs@, MemberKind::Signal) {
            Some(MemberKind::Signal)
        } else if tagged(func.attrs@, MemberKind::Property) {
            Some(MemberKind::Property)
        } else {
            None
        },
        TraitItem::Other => None,
    }
}

/// Whether an item is what is left of another one: without the attributes that mark it as the kind
/// of member that it is.
pub open spec fn stripped<T>(item: TraitItem<T>, rest: TraitItem<T>) -> bool {
    match item {
        TraitItem::Fn(func) => rest matches TraitItem::Fn(left) && left.attrs@ == (match member_kind(
            item,
        ) {
            Some(kind) => untagged(func.attrs@, kind),
            None => func.attrs@,
        }),
        TraitItem::Other => rest is Other,
    }
}

/// A list without marks of a kind is left as it is.
proof fn untagged_where_none<T>(attrs: Seq<Attribute<T>>, kind: MemberKind)
    requires
        !tagged(attrs, kind),
    ensures
        untagged(attrs, kind) == attrs,
    decreases attrs.len(),
{
    reveal(Seq::filter);
    if attrs.len() > 0 {
        let front = attrs.drop_last();
        assert forall|i: int| 0 <= i < front.len() implies !is_tag(#[trigger] front[i], kind) by {
            assert(front[i] == attrs[i]);
        }
        untagged_where_none(front, kind);
        assert(!is_tag(attrs[attrs.len() - 1], kind));
        assert(attrs =~= front.push(attrs.last()));
    } else {
        assert(untagged(attrs, kind) =~= attrs);
    }
}

/// Takes an item as a member: what is left of it, and the kind of member that it is.
pub fn take_member<T>(item: TraitItem<T>) -> (result: (TraitItem<T>, Option<MemberKind>))
    ensures
        stripped(item, result.0),
        result.1 == member_kind(item),
{
    proof {
        if item is Fn {
            let attrs = item->Fn_0.attrs@;
            if !tagged(attrs, MemberKind::Method) {
                untagged_where_none(attrs, MemberKind::Method);
            }
            if !tagged(attrs, MemberKind::Signal) {
                untagged_where_none(attrs, MemberKind::Signal);
            }
            if !tagged(attrs, MemberKind::Property) {
                untagged_where_none(attrs, MemberKind::Property);
            }
        }
    }
    let (item, found) = trait_fn_item(item, MemberKind::Method);
    if found {
        return (item, Some(MemberKind::Method));
    }
    let (item, found) = trait_fn_item(item, MemberKind::Signal);
    if found {
        return (item, Some(MemberKind::Signal));
    }
    let (item, found) = trait_fn_item(item, MemberKind::Property);
    if found {
        return (item, Some(MemberKind::Property));
    }
    (item, None)
}

/// The members of an object trait, by the positions of their items, and what documents it.
#[derive(Debug)]
pub struct ObjectTrait<T> {
    pub name: String,
    pub items: Vec<TraitItem<T>>,
    pub methods: Vec<usize>,
    pub signals: Vec<usize>,
    pub properties: Vec<usize>,
    pub description: Vec<String>,
}

/// Whether positions are those of the items of a kind among the first ones, in order.
pub open spec fn positions_of<T>(
    positions: Seq<usize>,
    items: Seq<TraitItem<T>>,
    kind: MemberKind,
    count: int,
) -> bool {
    &&& forall|i: int, j: int|
        0 <= i < j < positions.len() ==> (#[trigger] positions[i]) < (#[trigger] positions[j])
    &&& forall|i: int|
        0 <= i < positions.len() ==> (#[trigger] positions[i]) < count && member_kind(
            items[positions[i] as int],
        ) == Some(kind)
    &&& forall|k: int|
        0 <= k < count && member_kind(#[trigger] items[k]) == Some(kind) ==> exists|i: int|
            0 <= i < positions.len() && #[trigger] positions[i] == k
}

/// The texts of the attributes of a list that document what they stand before, in order.
pub open spec fn outer_docs<T>(attrs: Seq<Attribute<T>>) -> Seq<Seq<char>>
    decreases attrs.len(),
{
    if attrs.len() == 0 {
        Seq::empty()
    } else {
        let docs = outer_docs(attrs.drop_last());
        match outer_doc(attrs.last()) {
            Some(text) => docs.push(text),
            None => docs,
        }
    }
}

/// The texts of the attributes of a list that document what they stand before.
fn collect_docs<T>(attrs: &Vec<Attribute<T>>) -> (docs: Vec<String>)
    ensures
        docs@.map_values(|doc: String| doc@) == outer_docs(attrs@),
{
    let mut docs: Vec<String> = Vec::new();
    let mut i: usize = 0;
    assert(docs@.map_values(|doc: String| doc@) =~= outer_docs(attrs@.take(0)));
    while i < attrs.len()
        invariant
            i <= attrs@.len(),
            docs@.map_values(|doc: String| doc@) == outer_docs(attrs@.take(i as int)),
        decreases attrs@.len() - i,
    {
        let ghost before = docs@;
        if let Some(text) = attribute_outer_doc(&attrs[i]) {
            docs.push(text);
        }
        proof {
            let next = attrs@.take(i + 1);
            assert(next.drop_last() =~= attrs@.take(i as int));
            assert(next.last() == attrs@[i as int]);
            assert(docs@.map_values(|doc: String| doc@) =~= outer_docs(next));
        }
        i += 1;
    }
    assert(attrs@.take(attrs@.len() as int) =~= attrs@);
    docs
}

/// Adds a position to a list where it is that of the next item of the kind.
proof fn position_added<T>(
    before: Seq<usize>,
    after: Seq<usize>,
    items: Seq<TraitItem<T>>,
    kind: MemberKind,
    count: usize,
)
    requires
        count < items.len(),
        positions_of(before, items, kind, count as int),
        after == (if member_kind(items[count as int]) == Some(kind) {
            before.push(count)
        } else {
            before
        }),
    ensures
        positions_of(after, items, kind, count + 1),
{
    assert forall|k: int| 0 <= k < count + 1 && member_kind(#[trigger] items[k]) == Some(
        kind,
    ) implies exists|i: int| 0 <= i < after.len() && #[trigger] after[i] == k by {
        if k < count {
            let i = choose|i: int| 0 <= i < before.len() && #[trigger] before[i] == k;
            assert(after[i] == k);
        } else {
            assert(after[before.len() as int] == k);
        }
    }
}

impl<T> ObjectTrait<T> {
    /// Sorts the items of a trait into members, and takes the attributes off them that mark them
    /// as such.
    pub fn parse(name: String, attrs: &Vec<Attribute<T>>, items: Vec<TraitItem<T>>) -> (object: ObjectTrait<
        T,
    >)
        ensures
            object.name == name,
            object.items@.len() == items@.len(),
            forall|i: int|
                0 <= i < items@.len() ==> stripped(items@[i], #[trigger] object.items@[i]),
            positions_of(object.methods@, items@, MemberKind::Method, items@.len() as int),
            positions_of(object.signals@, items@, MemberKind::Signal, items@.len() as int),
            positions_of(object.properties@, items@, MemberKind::Property, items@.len() as int),
            object.description@.map_values(|doc: String| doc@) == outer_docs(attrs@),
    {
        let description = collect_docs(attrs);
        let ghost all = items@;
        let mut rest: Vec<TraitItem<T>> = items;
        let mut left: Vec<TraitItem<T>> = Vec::new();
        let mut methods: Vec<usize> = Vec::new();
        let mut signals: Vec<usize> = Vec::new();
        let mut properties: Vec<usize> = Vec::new();
        assert(all.skip(0) =~= all);
        while rest.len() > 0
            invariant
                rest@ == all.skip(left@.len() as int),
                left@.len() + rest@.len() == all.len(),
                forall|i: int| 0 <= i < left@.len() ==> stripped(all[i], #[trigger] left@[i]),
                positions_of(methods@, all, MemberKind::Method, left@.len() as int),
                positions_of(signals@, all, MemberKind::Signal, left@.len() as int),
                positions_of(properties@, all, MemberKind::Property, left@.len() as int),
            decreases rest@.len(),
        {
            let position: usize = left.len();
            let ghost m = methods@;
            let ghost s = signals@;
            let ghost p = properties@;
            let item = rest.remove(0);
            assert(item == all[position as int]);
            let (item, kind) = take_member(item);
            left.push(item);
            match kind {
                Some(MemberKind::Method) => {
                    methods.push(position);
                },
                Some(MemberKind::Signal) => {
                    signals.push(position);
                },
                Some(MemberKind::Property) => {
                    properties.push(position);
                },
                None => {},
            }
            proof {
                assert(rest@ =~= all.skip(left@.len() as int));
                position_added(m, methods@, all, MemberKind::Method, position);
                position_added(s, signals@, all, MemberKind::Signal, position);
                position_added(p, properties@, all, MemberKind::Property, position);
            }
        }
        ObjectTrait { name, items: left, methods, signals, properties, description }
    }
}

/// No item of a trait is a member of two kinds.
pub proof fn member_has_one_kind<T>(
    items: Seq<TraitItem<T>>,
    first: Seq<usize>,
    first_kind: MemberKind,
    second: Seq<usize>,
    second_kind: MemberKind,
    i: int,
    j: int,
)
    requires
        positions_of(first, items, first_kind, items.len() as int),
        positions_of(second, items, second_kind, items.len() as int),
        first_kind != second_kind,
        0 <= i < first.len(),
        0 <= j < second.len(),
    ensures
        first[i] != second[j],
{
}

} // verus!
