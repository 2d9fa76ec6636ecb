//! What an object tells of itself: its methods, signals and properties.

use vstd::prelude::*;
use crate::text::{decimal, decimal_text};
use crate::value::{Signature, TypeView};

verus! {

/// The identifier of an action of an object.
#[derive(Clone, Copy, PartialEq, Eq, Structural, PartialOrd, Ord, Hash, Debug, Default)]
pub struct ActionId(pub u32);

impl ActionId {
    /// Takes the current identifier and moves on to the following one, unless there is none.
    pub fn next(&mut self) -> (id: Option<ActionId>)
        ensures
            old(self).0 < u32::MAX ==> id == Some(*old(self)) && final(self).0 == old(self).0 + 1,
            old(self).0 == u32::MAX ==> id is None && *final(self) == *old(self),
    {
        let current: u32 = self.0;
        match current.checked_add(1) {
            Some(following) => {
                *self = ActionId(following);
                Some(ActionId(current))
            },
            None => None,
        }
    }

    /// Takes the current identifier and moves on to the following one, which is zero after
    /// the last one.
    pub fn wrapping_next(&mut self) -> (id: ActionId)
        ensures
            id == *old(self),
            final(self).0 == (if old(self).0 == u32::MAX { 0 } else { old(self).0 + 1 }),
    {
        let current: u32 = self.0;
        *self = ActionId(current.wrapping_add(1));
        ActionId(current)
    }
}

/// How a request names an action.
#[derive(PartialEq, Eq, Debug)]
pub enum ActionNameOrId {
    Id(ActionId),
    Name(String),
}

/// The name of an action in contracts.
pub enum ActionName {
    Id(ActionId),
    Name(Seq<char>),
}

impl View for ActionNameOrId {
    type V = ActionName;

    open spec fn view(&self) -> ActionName {
        match self {
            ActionNameOrId::Id(id) => ActionName::Id(*id),
            ActionNameOrId::Name(name) => ActionName::Name(name@),
        }
    }
}

impl ActionName {
    /// The text of the name or identifier.
    pub open spec fn text(self) -> Seq<char> {
        match self {
            ActionName::Id(id) => decimal(id.0 as nat),
            ActionName::Name(name) => name,
        }
    }

    /// Whether the action with the given identifier and name is the one that is meant.
    pub open spec fn designates(self, uid: ActionId, name: Seq<char>) -> bool {
        match self {
            ActionName::Id(id) => id == uid,
            ActionName::Name(n) => n == name,
        }
    }
}

impl ActionNameOrId {
    /// Tells whether the action with the given identifier and name is the one that is meant.
    pub fn designates(&self, uid: ActionId, name: &String) -> (answer: bool)
        ensures
            answer == self@.designates(uid, name@),
    {
        match self {
            ActionNameOrId::Id(id) => *id == uid,
            ActionNameOrId::Name(n) => *n == *name,
        }
    }
}

impl ActionNameOrId {
    /// Renders the name or identifier.
    pub fn to_text(&self) -> (text: String)
        ensures
            text@ == self@.text(),
    {
        match self {
            ActionNameOrId::Id(id) => decimal_text(id.0),
            ActionNameOrId::Name(name) => name.clone(),
        }
    }
}

impl Clone for ActionNameOrId {
    fn clone(&self) -> (copy: ActionNameOrId)
        ensures
            copy == *self,
    {
        match self {
            ActionNameOrId::Id(id) => ActionNameOrId::Id(*id),
            ActionNameOrId::Name(name) => ActionNameOrId::Name(name.clone()),
        }
    }
}

/// What an object tells of one of its methods.
#[derive(PartialEq, Eq, Debug)]
pub struct MetaMethod {
    pub uid: ActionId,
    pub name: String,
    pub parameters_signature: Signature,
    pub return_signature: Signature,
}

/// A method in contracts.
#[verifier::ext_equal]
pub struct MethodView {
    pub uid: ActionId,
    pub name: Seq<char>,
    pub parameters: Option<TypeView>,
    pub result: Option<TypeView>,
}

impl MetaMethod {
    /// The method in contracts.
    pub open spec fn view(&self) -> MethodView {
        MethodView {
            uid: self.uid,
            name: self.name@,
            parameters: self.parameters_signature.view(),
            result: self.return_signature.view(),
        }
    }
}

/// What an object tells of one of its signals.
#[derive(PartialEq, Eq, Debug)]
pub struct MetaSignal {
    pub uid: ActionId,
    pub name: String,
    pub signature: Signature,
}

/// A signal in contracts.
#[verifier::ext_equal]
pub struct SignalView {
    pub uid: ActionId,
    pub name: Seq<char>,
    pub value: Option<TypeView>,
}

impl MetaSignal {
    /// The signal in contracts.
    pub open spec fn view(&self) -> SignalView {
        SignalView { uid: self.uid, name: self.name@, value: self.signature.view() }
    }
}

/// What an object tells of one of its properties.
#[derive(PartialEq, Eq, Debug)]
pub struct MetaProperty {
    pub uid: ActionId,
    pub name: String,
    pub signature: Signature,
}

/// What an object tells of itself.
#[derive(PartialEq, Eq, Debug)]
pub struct MetaObject {
    pub methods: Vec<MetaMethod>,
    pub signals: Vec<MetaSignal>,
    pub properties: Vec<MetaProperty>,
}

/// The first method of a list that is meant.
pub open spec fn find_method(methods: Seq<MetaMethod>, ident: ActionName) -> Option<MetaMethod>
    decreases methods.len(),
{
    if methods.len() == 0 {
        None
    } else if ident.designates(methods.first().uid, methods.first().name@) {
        Some(methods.first())
    } else {
        find_method(methods.drop_first(), ident)
    }
}

/// The first signal of a list that is meant.
pub open spec fn find_signal(signals: Seq<MetaSignal>, ident: ActionName) -> Option<MetaSignal>
    decreases signals.len(),
{
    if signals.len() == 0 {
        None
    } else if ident.designates(signals.first().uid, signals.first().name@) {
        Some(signals.first())
    } else {
        find_signal(signals.drop_first(), ident)
    }
}

/// A method that is found is one of the list and is the one that is meant; none is found only
/// where none is meant.
pub proof fn found_method(methods: Seq<MetaMethod>, ident: ActionName)
    ensures
        match find_method(methods, ident) {
            Some(method) => methods.contains(method) && ident.designates(method.uid, method.name@),
            None => forall|i: int|
                0 <= i < methods.len() ==> !ident.designates(
                    (#[trigger] methods[i]).uid,
                    methods[i].name@,
                ),
        },
    decreases methods.len(),
{
    if methods.len() > 0 && !ident.designates(methods.first().uid, methods.first().name@) {
        let others = methods.drop_first();
        found_method(others, ident);
        match find_method(others, ident) {
            Some(method) => {
                let i = others.index_of(method);
                assert(methods[i + 1] == method);
            },
            None => {
                assert forall|i: int| 0 <= i < methods.len() implies !ident.designates(
                    (#[trigger] methods[i]).uid,
                    methods[i].name@,
                ) by {
                    if i > 0 {
                        assert(others[i - 1] == methods[i]);
                    }
                }
            },
        }
    } else if methods.len() > 0 {
        assert(methods[0] == methods.first());
    }
}

impl MetaObject {
    /// An object without methods, signals and properties.
    pub fn new() -> (meta: MetaObject)
        ensures
            meta.methods@ == Seq::<MetaMethod>::empty(),
            meta.signals@ == Seq::<MetaSignal>::empty(),
            meta.properties@ == Seq::<MetaProperty>::empty(),
    {
        MetaObject { methods: Vec::new(), signals: Vec::new(), properties: Vec::new() }
    }

    /// The method that is meant.
    pub fn method(&self, ident: &ActionNameOrId) -> (method: Option<&MetaMethod>)
        ensures
            match method {
                Some(method) => find_method(self.methods@, ident@) == Some(*method),
                None => find_method(self.methods@, ident@) is None,
            },
    {
        let mut i: usize = 0;
        assert(self.methods@.skip(0) =~= self.methods@);
        while i < self.methods.len()
            invariant
                i <= self.methods@.len(),
                find_method(self.methods@, ident@) == find_method(
                    self.methods@.skip(i as int),
                    ident@,
                ),
            decreases self.methods@.len() - i,
        {
            let ghost rest = self.methods@.skip(i as int);
            assert(rest.first() == self.methods@[i as int]);
            assert(rest.drop_first() =~= self.methods@.skip(i + 1));
            if ident.designates(self.methods[i].uid, &self.methods[i].name) {
                return Some(&self.methods[i]);
            }
            i += 1;
        }
        None
    }

    /// The signal that is meant.
    pub fn signal(&self, ident: &ActionNameOrId) -> (signal: Option<&MetaSignal>)
        ensures
            match signal {
                Some(signal) => find_signal(self.signals@, ident@) == Some(*signal),
                None => find_signal(self.signals@, ident@) is None,
            },
    {
        let mut i: usize = 0;
        assert(self.signals@.skip(0) =~= self.signals@);
        while i < self.signals.len()
            invariant
                i <= self.signals@.len(),
                find_signal(self.signals@, ident@) == find_signal(
                    self.signals@.skip(i as int),
                    ident@,
                ),
            decreases self.signals@.len() - i,
        {
            let ghost rest = self.signals@.skip(i as int);
            assert(rest.first() == self.signals@[i as int]);
            assert(rest.drop_first() =~= self.signals@.skip(i + 1));
            if ident.designates(self.signals[i].uid, &self.signals[i].name) {
                return Some(&self.signals[i]);
            }
            i += 1;
        }
        None
    }
}

/// Whether no two methods of a list have the same identifier.
pub open spec fn distinct_method_ids(methods: Seq<MetaMethod>) -> bool {
    forall|i: int, j: int|
        0 <= i < j < methods.len() ==> (#[trigger] methods[i]).uid != (#[trigger] methods[j]).uid
}

/// The method that is found under any name is found under its identifier too: a caller that
/// resolves a name and a callee that resolves the identifier mean the same method.
pub proof fn method_found_by_its_id(methods: Seq<MetaMethod>, ident: ActionName)
    requires
        distinct_method_ids(methods),
        find_method(methods, ident) is Some,
    ensures
        find_method(methods, ActionName::Id(find_method(methods, ident)->Some_0.uid))
            == find_method(methods, ident),
    decreases methods.len(),
{
    let found = find_method(methods, ident)->Some_0;
    let first = methods.first();
    if !ident.designates(first.uid, first.name@) {
        let others = methods.drop_first();
        assert(distinct_method_ids(others)) by {
            assert forall|i: int, j: int| 0 <= i < j < others.len() implies (#[trigger] others[i]).uid
                != (#[trigger] others[j]).uid by {
                assert(others[i] == methods[i + 1] && others[j] == methods[j + 1]);
            }
        }
        method_found_by_its_id(others, ident);
        found_method(others, ident);
        let i = others.index_of(found);
        assert(methods[i + 1] == found);
        assert(methods[0].uid != methods[i + 1].uid);
    }
}

/// Where no earlier method has its identifier, a method is found under its identifier.
pub proof fn method_found_at(methods: Seq<MetaMethod>, i: int)
    requires
        0 <= i < methods.len(),
        forall|j: int| 0 <= j < i ==> (#[trigger] methods[j]).uid != methods[i].uid,
    ensures
        find_method(methods, ActionName::Id(methods[i].uid)) == Some(methods[i]),
    decreases i,
{
    if i > 0 {
        let others = methods.drop_first();
        assert(methods[0].uid != methods[i].uid);
        assert forall|j: int| 0 <= j < i - 1 implies (#[trigger] others[j]).uid
            != others[i - 1].uid by {
            assert(others[j] == methods[j + 1]);
        }
        method_found_at(others, i - 1);
    }
}

} // verus!
