//! Which action of an object is meant.

use vstd::prelude::*;
use crate::meta::{
    find_method, find_signal, ActionId, ActionNameOrId, MetaMethod, MetaObject, MetaSignal,
};

verus! {

/// Identifiers of actions are given one after the other, and the last number never.
pub proof fn action_ids_follow_each_other(current: &mut ActionId, id: Option<ActionId>)
    requires
        call_ensures(ActionId::next, (current,), id),
    ensures
        id is None <==> old(current).0 == 0xffff_ffff,
        id is None ==> final(current).0 == old(current).0,
        id is Some ==> id->Some_0.0 == old(current).0 && final(current).0 == old(current).0 + 1,
{
}

/// Identifiers of actions that start over come after each other, and zero after the last number.
pub proof fn action_ids_start_over(current: &mut ActionId, id: ActionId)
    requires
        call_ensures(ActionId::wrapping_next, (current,), id),
    ensures
        id.0 == old(current).0,
        final(current).0 == (old(current).0 + 1) % 0x1_0000_0000,
{
}

/// Whether a request that names an action means the one with an identifier and a name.
pub open spec fn means(ident: ActionNameOrId, uid: u32, name: Seq<char>) -> bool {
    match ident {
        ActionNameOrId::Id(id) => id.0 == uid,
        ActionNameOrId::Name(asked) => asked@ == name,
    }
}

/// An action is meant by its identifier or by its name, whichever the request holds.
pub proof fn action_is_meant_by_id_or_name(
    ident: &ActionNameOrId,
    uid: ActionId,
    name: &String,
    answer: bool,
)
    requires
        call_ensures(ActionNameOrId::designates, (ident, uid, name), answer),
    ensures
        answer == means(*ident, uid.0, name@),
{
}

/// An object that is told nothing of has no methods, signals and properties.
pub proof fn new_object_has_nothing(meta: MetaObject)
    requires
        call_ensures(MetaObject::new, (), meta),
    ensures
        meta.methods@.len() == 0,
        meta.signals@.len() == 0,
        meta.properties@.len() == 0,
{
}

/// What names an action is rendered as its name, or the digits of its identifier.
pub proof fn text_of_action(ident: &ActionNameOrId, text: String)
    requires
        call_ensures(ActionNameOrId::to_text, (ident,), text),
    ensures
        match *ident {
            ActionNameOrId::Id(id) => text@ == crate::text::decimal(id.0 as nat),
            ActionNameOrId::Name(name) => text@ == name@,
        },
{
}

/// A method that is found is of the list, is meant, and is the first that is; where none is found,
/// no method of the list is meant.
pub proof fn first_meant_method_is_found(
    meta: &MetaObject,
    ident: &ActionNameOrId,
    found: Option<&MetaMethod>,
)
    requires
        call_ensures(MetaObject::method, (meta, ident), found),
    ensures
        match found {
            Some(method) => exists|i: int|
                #![trigger meta.methods@[i]]
                {
                    &&& 0 <= i < meta.methods@.len()
                    &&& meta.methods@[i] == *method
                    &&& means(*ident, method.uid.0, method.name@)
                    &&& forall|j: int|
                        0 <= j < i ==> !means(
                            *ident,
                            (#[trigger] meta.methods@[j]).uid.0,
                            meta.methods@[j].name@,
                        )
                },
            None => forall|i: int|
                0 <= i < meta.methods@.len() ==> !means(
                    *ident,
                    (#[trigger] meta.methods@[i]).uid.0,
                    meta.methods@[i].name@,
                ),
        },
{
    method_search(meta.methods@, *ident);
}

/// A signal that is found is of the list, is meant, and is the first that is; where none is found,
/// no signal of the list is meant.
pub proof fn first_meant_signal_is_found(
    meta: &MetaObject,
    ident: &ActionNameOrId,
    found: Option<&MetaSignal>,
)
    requires
        call_ensures(MetaObject::signal, (meta, ident), found),
    ensures
        match found {
            Some(signal) => exists|i: int|
                #![trigger meta.signals@[i]]
                {
                    &&& 0 <= i < meta.signals@.len()
                    &&& meta.signals@[i] == *signal
                    &&& means(*ident, signal.uid.0, signal.name@)
                    &&& forall|j: int|
                        0 <= j < i ==> !means(
                            *ident,
                            (#[trigger] meta.signals@[j]).uid.0,
                            meta.signals@[j].name@,
                        )
                },
            None => forall|i: int|
                0 <= i < meta.signals@.len() ==> !means(
                    *ident,
                    (#[trigger] meta.signals@[i]).uid.0,
                    meta.signals@[i].name@,
                ),
        },
{
    signal_search(meta.signals@, *ident);
}

/// The first method of a list that is meant, by its place.
pub(crate) proof fn method_search(methods: Seq<MetaMethod>, ident: ActionNameOrId)
    ensures
        match find_method(methods, ident@) {
            Some(method) => exists|i: int|
                #![trigger methods[i]]
                {
                    &&& 0 <= i < methods.len()
                    &&& methods[i] == method
                    &&& means(ident, method.uid.0, method.name@)
                    &&& forall|j: int|
                        0 <= j < i ==> !means(
                            ident,
                            (#[trigger] methods[j]).uid.0,
                            methods[j].name@,
                        )
                },
            None => forall|i: int|
                0 <= i < methods.len() ==> !means(
                    ident,
                    (#[trigger] methods[i]).uid.0,
                    methods[i].name@,
                ),
        },
    decreases methods.len(),
{
    if methods.len() > 0 {
        let first = methods.first();
        assert(methods[0] == first);
        if !ident@.designates(first.uid, first.name@) {
            let others = methods.drop_first();
            method_search(others, ident);
            match find_method(others, ident@) {
                Some(method) => {
                    let i = choose|i: int|
                        #![trigger others[i]]
                        {
                            &&& 0 <= i < others.len()
                            &&& others[i] == method
                            &&& means(ident, method.uid.0, method.name@)
                            &&& forall|j: int|
                                0 <= j < i ==> !means(
                                    ident,
                                    (#[trigger] others[j]).uid.0,
                                    others[j].name@,
                                )
                        };
                    assert(methods[i + 1] == method);
                    assert forall|j: int| 0 <= j < i + 1 implies !means(
                        ident,
                        (#[trigger] methods[j]).uid.0,
                        methods[j].name@,
                    ) by {
                        if j > 0 {
                            assert(others[j - 1] == methods[j]);
                        }
                    }
                },
                None => {
                    assert forall|j: int| 0 <= j < methods.len() implies !means(
                        ident,
                        (#[trigger] methods[j]).uid.0,
                        methods[j].name@,
                    ) by {
                        if j > 0 {
                            assert(others[j - 1] == methods[j]);
                        }
                    }
                },
            }
        }
    }
}

/// The first signal of a list that is meant, by its place.
pub(crate) proof fn signal_search(signals: Seq<MetaSignal>, ident: ActionNameOrId)
    ensures
        match find_signal(signals, ident@) {
            Some(signal) => exists|i: int|
                #![trigger signals[i]]
                {
                    &&& 0 <= i < signals.len()
                    &&& signals[i] == signal
                    &&& means(ident, signal.uid.0, signal.name@)
                    &&& forall|j: int|
                        0 <= j < i ==> !means(
                            ident,
                            (#[trigger] signals[j]).uid.0,
                            signals[j].name@,
                        )
                },
            None => forall|i: int|
                0 <= i < signals.len() ==> !means(
                    ident,
                    (#[trigger] signals[i]).uid.0,
                    signals[i].name@,
                ),
        },
    decreases signals.len(),
{
    if signals.len() > 0 {
        let first = signals.first();
        assert(signals[0] == first);
        if !ident@.designates(first.uid, first.name@) {
            let others = signals.drop_first();
            signal_search(others, ident);
            match find_signal(others, ident@) {
                Some(signal) => {
                    let i = choose|i: int|
                        #![trigger others[i]]
                        {
                            &&& 0 <= i < others.len()
                            &&& others[i] == signal
                            &&& means(ident, signal.uid.0, signal.name@)
                            &&& forall|j: int|
                                0 <= j < i ==> !means(
                                    ident,
                                    (#[trigger] others[j]).uid.0,
                                    others[j].name@,
                                )
                        };
                    assert(signals[i + 1] == signal);
                    assert forall|j: int| 0 <= j < i + 1 implies !means(
                        ident,
                        (#[trigger] signals[j]).uid.0,
                        signals[j].name@,
                    ) by {
                        if j > 0 {
                            assert(others[j - 1] == signals[j]);
                        }
                    }
                },
                None => {
                    assert forall|j: int| 0 <= j < signals.len() implies !means(
                        ident,
                        (#[trigger] signals[j]).uid.0,
                        signals[j].name@,
                    ) by {
                        if j > 0 {
                            assert(others[j - 1] == signals[j]);
                        }
                    }
                },
            }
        }
    }
}

} // verus!
