//! Resolving the objects a workflow pays with: either a caller-supplied
//! object identifier used verbatim, or the first object in listing order that
//! matches the fungible-token type filter; and, after the transfer, the first
//! balance change of the receive kind, whose coin pays for the mint.

use crate::ident::ObjectId;
use crate::ident::ID_LEN;
use vstd::prelude::*;
use vstd::string::StringExecFns;

verus! {

/// The type filter for a funding object: the network's fungible token.
pub open spec fn coin_type_spec() -> Seq<char> {
    "0x2::coin::Coin<0x2::sui::SUI>"@
}

/// An object listed as owned by an address: its identifier and its type tag.
pub struct OwnedObject {
    pub id: ObjectId,
    pub type_tag: String,
}

/// The spec view of a listed object.
pub struct OwnedObjectModel {
    pub id: Seq<u8>,
    pub type_tag: Seq<char>,
}

impl View for OwnedObject {
    type V = OwnedObjectModel;

    open spec fn view(&self) -> OwnedObjectModel {
        OwnedObjectModel { id: self.id.bytes@, type_tag: self.type_tag@ }
    }
}

/// The identifier of the first listed object whose type tag is the fungible
/// token, if any.
pub open spec fn first_coin_spec(objs: Seq<OwnedObjectModel>) -> Option<Seq<u8>>
    decreases objs.len(),
{
    if objs.len() == 0 {
        None
    } else if objs[0].type_tag == coin_type_spec() {
        Some(objs[0].id)
    } else {
        first_coin_spec(objs.skip(1))
    }
}

/// How a balance change affected an owner.
#[derive(Clone, Copy, PartialEq, Eq, Structural, Debug)]
pub enum ChangeKind {
    Gas,
    Pay,
    Receive,
}

/// One balance change reported among a transfer's effects.
pub struct BalanceChange {
    pub kind: ChangeKind,
    pub coin_object_id: ObjectId,
}

/// The spec view of a balance change.
pub struct BalanceChangeModel {
    pub kind: ChangeKind,
    pub coin_object_id: Seq<u8>,
}

impl View for BalanceChange {
    type V = BalanceChangeModel;

    open spec fn view(&self) -> BalanceChangeModel {
        BalanceChangeModel { kind: self.kind, coin_object_id: self.coin_object_id.bytes@ }
    }
}

/// The coin of the first balance change of the receive kind, if any.
pub open spec fn first_receive_spec(changes: Seq<BalanceChangeModel>) -> Option<Seq<u8>>
    decreases changes.len(),
{
    if changes.len() == 0 {
        None
    } else if changes[0].kind == ChangeKind::Receive {
        Some(changes[0].coin_object_id)
    } else {
        first_receive_spec(changes.skip(1))
    }
}

/// The spec view of a listing.
pub open spec fn owned_view(objs: Seq<OwnedObject>) -> Seq<OwnedObjectModel> {
    objs.map_values(|o: OwnedObject| o@)
}

/// The spec view of a list of balance changes.
pub open spec fn changes_view(changes: Seq<BalanceChange>) -> Seq<BalanceChangeModel> {
    changes.map_values(|c: BalanceChange| c@)
}

/// Every identifier in a listing is well-formed.
pub open spec fn owned_wf(objs: Seq<OwnedObjectModel>) -> bool {
    forall|i: int| 0 <= i < objs.len() ==> (#[trigger] objs[i]).id.len() == ID_LEN
}

/// Every coin identifier in a list of balance changes is well-formed.
pub open spec fn changes_wf(changes: Seq<BalanceChangeModel>) -> bool {
    forall|i: int| 0 <= i < changes.len() ==> (#[trigger] changes[i]).coin_object_id.len() == ID_LEN
}

/// A funding object picked from a well-formed listing is well-formed.
pub proof fn lemma_first_coin_wf(objs: Seq<OwnedObjectModel>)
    requires
        owned_wf(objs),
        first_coin_spec(objs) is Some,
    ensures
        first_coin_spec(objs)->Some_0.len() == ID_LEN,
    decreases objs.len(),
{
    if objs.len() > 0 && objs[0].type_tag != coin_type_spec() {
        assert(forall|i: int|
            0 <= i < objs.skip(1).len() ==> objs.skip(1)[i] == objs[i + 1]);
        lemma_first_coin_wf(objs.skip(1));
    }
}

/// A fee coin picked from well-formed balance changes is well-formed.
pub proof fn lemma_first_receive_wf(changes: Seq<BalanceChangeModel>)
    requires
        changes_wf(changes),
        first_receive_spec(changes) is Some,
    ensures
        first_receive_spec(changes)->Some_0.len() == ID_LEN,
    decreases changes.len(),
{
    if changes.len() > 0 && changes[0].kind != ChangeKind::Receive {
        assert(forall|i: int|
            0 <= i < changes.skip(1).len() ==> changes.skip(1)[i] == changes[i + 1]);
        lemma_first_receive_wf(changes.skip(1));
    }
}

/// Pick the first listed object of the fungible-token type.
pub fn first_coin(objs: &Vec<OwnedObject>) -> (r: Option<ObjectId>)
    ensures
        match r {
            Some(id) => first_coin_spec(owned_view(objs@)) == Some(id.bytes@),
            None => first_coin_spec(owned_view(objs@)) is None,
        },
{
    let ghost model = owned_view(objs@);
    let coin_type = String::from_str("0x2::coin::Coin<0x2::sui::SUI>");
    let n = objs.len();
    let mut i: usize = 0;
    proof {
        assert(model.skip(0) =~= model);
    }
    while i < n
        invariant
            n == objs@.len(),
            n == model.len(),
            model == owned_view(objs@),
            coin_type@ == coin_type_spec(),
            i <= n,
            first_coin_spec(model) == first_coin_spec(model.skip(i as int)),
        decreases n - i,
    {
        proof {
            assert(model.skip(i as int)[0] == model[i as int]);
            assert(model.skip(i as int).skip(1) =~= model.skip(i as int + 1));
        }
        if objs[i].type_tag.eq(&coin_type) {
            return Some(objs[i].id.clone_id());
        }
        i = i + 1;
    }
    proof {
        assert(model.skip(n as int) =~= Seq::<OwnedObjectModel>::empty());
    }
    None
}

/// Pick the coin of the first balance change of the receive kind.
pub fn first_receive(changes: &Vec<BalanceChange>) -> (r: Option<ObjectId>)
    ensures
        match r {
            Some(id) => first_receive_spec(changes_view(changes@)) == Some(id.bytes@),
            None => first_receive_spec(changes_view(changes@)) is None,
        },
{
    let ghost model = changes_view(changes@);
    let n = changes.len();
    let mut i: usize = 0;
    proof {
        assert(model.skip(0) =~= model);
    }
    while i < n
        invariant
            n == changes@.len(),
            n == model.len(),
            model == changes_view(changes@),
            i <= n,
            first_receive_spec(model) == first_receive_spec(model.skip(i as int)),
        decreases n - i,
    {
        proof {
            assert(model.skip(i as int)[0] == model[i as int]);
            assert(model.skip(i as int).skip(1) =~= model.skip(i as int + 1));
        }
        let is_receive = match changes[i].kind {
            ChangeKind::Receive => true,
            _ => false,
        };
        if is_receive {
            return Some(changes[i].coin_object_id.clone_id());
        }
        i = i + 1;
    }
    proof {
        assert(model.skip(n as int) =~= Seq::<BalanceChangeModel>::empty());
    }
    None
}

} // verus!
