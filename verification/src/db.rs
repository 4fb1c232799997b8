//! The store of promocodes: a list in memory, in the order in which the
//! promocodes were pushed. No two promocodes of a store share an identifier
//! or a name.
//!
//! The store is a plain value. Who shares it between threads puts it
//! behind a lock.

use crate::promocode::rules::well_shaped;
use crate::promocode::shadow::PromocodeView;
use crate::promocode::{
    lemma_promocode_fault_iff_invalid,
    promocode_fault,
    valid_promocode,
    Promocode,
};
use vstd::prelude::*;

verus! {

/// The promocodes that are on offer.
#[derive(Debug)]
pub struct PromocodeStore {
    promocodes: Vec<Promocode>,
}

/// The content of each promocode of a list.
pub open spec fn promocodes_view(list: Seq<Promocode>) -> Seq<PromocodeView> {
    Seq::new(list.len(), |i: int| list[i]@)
}

impl View for PromocodeStore {
    type V = Seq<PromocodeView>;

    closed spec fn view(&self) -> Seq<PromocodeView> {
        promocodes_view(self.promocodes@)
    }
}

/// The identifier or the name of `promocode` is already in the store.
pub open spec fn is_taken(store: Seq<PromocodeView>, promocode: PromocodeView) -> bool {
    exists|i: int|
        0 <= i < store.len() && ((#[trigger] store[i]).id == promocode.id || store[i].name
            == promocode.name)
}

/// The promocode may stand in a store: it is well formed, and its list of
/// restrictions is well shaped.
pub open spec fn storable(promocode: PromocodeView) -> bool {
    valid_promocode(promocode) && well_shaped(promocode.restrictions)
}

/// Every promocode of the store may stand there, and no two of them share
/// an identifier or a name.
pub open spec fn valid_store(store: Seq<PromocodeView>) -> bool {
    &&& forall|i: int| 0 <= i < store.len() ==> storable(#[trigger] store[i])
    &&& forall|i: int, j: int|
        0 <= i < j < store.len() ==> (#[trigger] store[i]).id != (#[trigger] store[j]).id
            && store[i].name != store[j].name
}

/// The message that refuses a promocode whose identifier or name is taken.
pub open spec fn taken_message(id: Seq<char>, name: Seq<char>) -> Seq<char> {
    "Promocode with id `"@ + id + "` or name `"@ + name + "` already exist."@
}

impl PromocodeStore {
    /// The store upholds its rules.
    pub open spec fn wf(&self) -> bool {
        valid_store(self@)
    }

    /// A store without promocodes.
    pub fn new() -> (res: Self)
        ensures
            res@ == Seq::<PromocodeView>::empty(),
            res.wf(),
    {
        let store = PromocodeStore { promocodes: Vec::new() };
        assert(store@ =~= Seq::<PromocodeView>::empty());
        store
    }

    /// How many promocodes the store holds.
    pub fn len(&self) -> (res: usize)
        ensures
            res == self@.len(),
    {
        self.promocodes.len()
    }
}

/// A store without promocodes.
pub fn db() -> (res: PromocodeStore)
    ensures
        res@ == Seq::<PromocodeView>::empty(),
        res.wf(),
{
    PromocodeStore::new()
}

/// A copy of every promocode of the store, in the order of the store.
pub fn db_list(store: &PromocodeStore) -> (res: Vec<Promocode>)
    ensures
        promocodes_view(res@) == store@,
{
    let mut list: Vec<Promocode> = Vec::new();
    let mut i: usize = 0;
    while i < store.promocodes.len()
        invariant
            i <= store.promocodes.len(),
            list@.len() == i,
            forall|j: int| 0 <= j < i ==> (#[trigger] list@[j])@ == store.promocodes@[j]@,
        decreases store.promocodes.len() - i,
    {
        list.push(store.promocodes[i].clone());
        i += 1;
    }
    assert(promocodes_view(list@) =~= store@);
    list
}

/// A copy of the first promocode of the store whose identifier is `id`.
pub fn db_get_by_id(store: &PromocodeStore, id: String) -> (res: Option<Promocode>)
    ensures
        match res {
            Some(promocode) => exists|i: int|
                0 <= i < store@.len() && (#[trigger] store@[i]) == promocode@ && promocode@.id
                    == id@ && forall|j: int| 0 <= j < i ==> (#[trigger] store@[j]).id != id@,
            None => forall|i: int| 0 <= i < store@.len() ==> (#[trigger] store@[i]).id != id@,
        },
{
    let mut i: usize = 0;
    while i < store.promocodes.len()
        invariant
            i <= store.promocodes.len(),
            forall|j: int| 0 <= j < i ==> (#[trigger] store@[j]).id != id@,
        decreases store.promocodes.len() - i,
    {
        assert(store@[i as int] == store.promocodes@[i as int]@);
        if store.promocodes[i].has_id(&id) {
            let found = store.promocodes[i].clone();
            return Some(found);
        }
        i += 1;
    }
    None
}

/// A copy of the first promocode of the store whose name is `name`.
pub fn db_get_by_name(store: &PromocodeStore, name: String) -> (res: Option<Promocode>)
    ensures
        match res {
            Some(promocode) => exists|i: int|
                0 <= i < store@.len() && (#[trigger] store@[i]) == promocode@ && promocode@.name
                    == name@ && forall|j: int| 0 <= j < i ==> (#[trigger] store@[j]).name != name@,
            None => forall|i: int| 0 <= i < store@.len() ==> (#[trigger] store@[i]).name != name@,
        },
{
    let mut i: usize = 0;
    while i < store.promocodes.len()
        invariant
            i <= store.promocodes.len(),
            forall|j: int| 0 <= j < i ==> (#[trigger] store@[j]).name != name@,
        decreases store.promocodes.len() - i,
    {
        assert(store@[i as int] == store.promocodes@[i as int]@);
        if store.promocodes[i].has_name(&name) {
            let found = store.promocodes[i].clone();
            return Some(found);
        }
        i += 1;
    }
    None
}

/// Whether the identifier or the name of `promocode` is already in the
/// store.
pub fn db_is_taken(store: &PromocodeStore, promocode: &Promocode) -> (res: bool)
    ensures
        res == is_taken(store@, promocode@),
{
    let id = promocode._id();
    let name = promocode.name();
    let mut i: usize = 0;
    while i < store.promocodes.len()
        invariant
            i <= store.promocodes.len(),
            id@ == promocode@.id,
            name@ == promocode@.name,
            forall|j: int|
                0 <= j < i ==> (#[trigger] store@[j]).id != promocode@.id && store@[j].name
                    != promocode@.name,
        decreases store.promocodes.len() - i,
    {
        assert(store@[i as int] == store.promocodes@[i as int]@);
        if store.promocodes[i].has_id(&id) || store.promocodes[i].has_name(&name) {
            return true;
        }
        i += 1;
    }
    false
}

/// Adds a promocode at the end of the store. A promocode whose identifier
/// or name is taken is refused; one that is free is checked as `validate`
/// checks it, and refused with its first fault. A store that refuses is
/// left as it was.
pub fn db_push(store: &mut PromocodeStore, promocode: Promocode) -> (res: Result<(), String>)
    ensures
        match res {
            Ok(_) => {
                &&& !is_taken(old(store)@, promocode@)
                &&& promocode_fault(promocode@) is None
                &&& storable(promocode@)
                &&& final(store)@ == old(store)@.push(promocode@)
            },
            Err(err) => {
                &&& final(store)@ == old(store)@
                &&& if is_taken(old(store)@, promocode@) {
                    err@ == taken_message(promocode@.id, promocode@.name)
                } else {
                    promocode_fault(promocode@) == Some(err@)
                }
            },
        },
        old(store).wf() ==> final(store).wf(),
{
    if db_is_taken(store, &promocode) {
        let mut message = String::from_str("Promocode with id `");
        message.append(promocode._id().as_str());
        message.append("` or name `");
        message.append(promocode.name().as_str());
        message.append("` already exist.");
        return Err(message);
    }
    match promocode.validate() {
        Ok(checked) => {
            store.promocodes.push(checked);
            proof {
                lemma_promocode_fault_iff_invalid(promocode@);
                assert(store@ =~= old(store)@.push(promocode@));
                if old(store).wf() {
                    assert forall|i: int, j: int| 0 <= i < j < store@.len() implies (
                    #[trigger] store@[i]).id != (#[trigger] store@[j]).id && store@[i].name
                        != store@[j].name by {
                        if j == store@.len() - 1 {
                            assert(old(store)@[i] == store@[i]);
                        } else {
                            assert(old(store)@[i] == store@[i]);
                            assert(old(store)@[j] == store@[j]);
                        }
                    }
                }
            }
            Ok(())
        },
        Err(err) => Err(err),
    }
}

/// A store that upholds its rules upholds them after promocodes were
/// removed from it.
pub proof fn lemma_filter_keeps_store_valid(
    store: Seq<PromocodeView>,
    kept: spec_fn(PromocodeView) -> bool,
)
    requires
        valid_store(store),
    ensures
        valid_store(store.filter(kept)),
    decreases store.len(),
{
    reveal(Seq::filter);
    if store.len() > 0 {
        let front = store.drop_last();
        let last = store.last();
        assert forall|i: int, j: int| 0 <= i < j < front.len() implies (#[trigger] front[i]).id != (
        #[trigger] front[j]).id && front[i].name != front[j].name by {
            assert(front[i] == store[i] && front[j] == store[j]);
        }
        assert forall|i: int| 0 <= i < front.len() implies storable(
            #[trigger] front[i],
        ) by {
            assert(front[i] == store[i]);
        }
        lemma_filter_keeps_store_valid(front, kept);
        if kept(last) {
            let rest = front.filter(kept);
            let after = rest.push(last);
            assert forall|i: int, j: int| 0 <= i < j < after.len() implies (
            #[trigger] after[i]).id != (#[trigger] after[j]).id && after[i].name
                != after[j].name by {
                assert(after[i] == rest[i]);
                if j < rest.len() {
                    assert(after[j] == rest[j]);
                } else {
                    assert(rest.contains(rest[i]));
                    front.lemma_filter_contains_rev(kept, rest[i]);
                    let k = choose|k: int| 0 <= k < front.len() && front[k] == rest[i];
                    assert(store[k] == front[k]);
                    assert(store[store.len() - 1] == last);
                }
            }
            assert forall|i: int| 0 <= i < after.len() implies storable(
                #[trigger] after[i],
            ) by {
                if i < rest.len() {
                    assert(after[i] == rest[i]);
                } else {
                    assert(store[store.len() - 1] == last);
                }
            }
        }
    }
}

/// Keeps a copy of each promocode that `keep` marks, in order.
fn retain(store: &mut PromocodeStore, keep: &Vec<bool>, Ghost(wanted): Ghost<
    spec_fn(PromocodeView) -> bool,
>)
    requires
        keep@.len() == old(store)@.len(),
        forall|i: int| 0 <= i < keep@.len() ==> keep@[i] == wanted(#[trigger] old(store)@[i]),
    ensures
        final(store)@ == old(store)@.filter(wanted),
{
    let mut kept: Vec<Promocode> = Vec::new();
    let mut i: usize = 0;
    let ghost before = store@;
    assert(before.take(0) =~= Seq::<PromocodeView>::empty());
    proof {
        reveal(Seq::filter);
    }
    while i < store.promocodes.len()
        invariant
            i <= store.promocodes.len(),
            store@ == before,
            keep@.len() == before.len(),
            before.len() == store.promocodes@.len(),
            forall|j: int| 0 <= j < keep@.len() ==> keep@[j] == wanted(#[trigger] before[j]),
            promocodes_view(kept@) == before.take(i as int).filter(wanted),
        decreases store.promocodes.len() - i,
    {
        let ghost previous = promocodes_view(kept@);
        proof {
            reveal(Seq::filter);
            let next = before.take(i + 1);
            assert(next.drop_last() =~= before.take(i as int));
            assert(next.last() == before[i as int]);
            assert(before[i as int] == store.promocodes@[i as int]@);
        }
        if keep[i] {
            kept.push(store.promocodes[i].clone());
            assert(promocodes_view(kept@) =~= previous.push(before[i as int]));
        }
        i += 1;
    }
    assert(before.take(before.len() as int) =~= before);
    store.promocodes = kept;
}

/// Removes every promocode whose identifier is `id`.
pub fn db_delete_by_id(store: &mut PromocodeStore, id: String)
    ensures
        final(store)@ == old(store)@.filter(|promocode: PromocodeView| promocode.id != id@),
        old(store).wf() ==> final(store).wf(),
{
    let mut keep: Vec<bool> = Vec::new();
    let mut i: usize = 0;
    while i < store.promocodes.len()
        invariant
            i <= store.promocodes.len(),
            store@ == old(store)@,
            store@.len() == store.promocodes@.len(),
            keep@.len() == i,
            forall|j: int| 0 <= j < i ==> keep@[j] == ((#[trigger] store@[j]).id != id@),
        decreases store.promocodes.len() - i,
    {
        assert(store@[i as int] == store.promocodes@[i as int]@);
        keep.push(!store.promocodes[i].has_id(&id));
        i += 1;
    }
    retain(store, &keep, Ghost(|promocode: PromocodeView| promocode.id != id@));
    proof {
        if old(store).wf() {
            lemma_filter_keeps_store_valid(
                old(store)@,
                |promocode: PromocodeView| promocode.id != id@,
            );
        }
    }
}

/// Removes every promocode whose name is `name`.
pub fn db_delete_by_name(store: &mut PromocodeStore, name: String)
    ensures
        final(store)@ == old(store)@.filter(|promocode: PromocodeView| promocode.name != name@),
        old(store).wf() ==> final(store).wf(),
{
    let mut keep: Vec<bool> = Vec::new();
    let mut i: usize = 0;
    while i < store.promocodes.len()
        invariant
            i <= store.promocodes.len(),
            store@ == old(store)@,
            store@.len() == store.promocodes@.len(),
            keep@.len() == i,
            forall|j: int| 0 <= j < i ==> keep@[j] == ((#[trigger] store@[j]).name != name@),
        decreases store.promocodes.len() - i,
    {
        assert(store@[i as int] == store.promocodes@[i as int]@);
        keep.push(!store.promocodes[i].has_name(&name));
        i += 1;
    }
    retain(store, &keep, Ghost(|promocode: PromocodeView| promocode.name != name@));
    proof {
        if old(store).wf() {
            lemma_filter_keeps_store_valid(
                old(store)@,
                |promocode: PromocodeView| promocode.name != name@,
            );
        }
    }
}

} // verus!
