use vstd::prelude::*;
use crate::registry::Registry;
use crate::rooms::{ExtraRoomInfo, RoomProjections};
use crate::diff::{DiffOp, apply_ops};
use crate::select::{SelectableList, target_index};

verus! {

/// A room identifier with the three attributes computed for it in one batch.
pub struct RoomUpdate {
    pub room_id: String,
    pub raw_name: Option<String>,
    pub display_name: Option<String>,
    pub is_dm: Option<bool>,
}

/// The attributes held after recording `updates`, first to last, over `m`.
pub open spec fn record_all(m: Map<Seq<char>, ExtraRoomInfo>, updates: Seq<RoomUpdate>) -> Map<
    Seq<char>,
    ExtraRoomInfo,
>
    decreases updates.len(),
{
    if updates.len() == 0 {
        m
    } else {
        let u = updates.last();
        record_all(m, updates.drop_last()).insert(
            u.room_id@,
            ExtraRoomInfo { raw_name: u.raw_name, display_name: u.display_name, is_dm: u.is_dm },
        )
    }
}

/// Overwrites the attributes of every room in `updates`, in order.
pub fn record_rooms(store: &mut RoomProjections, updates: Vec<RoomUpdate>)
    requires
        old(store).wf(),
    ensures
        final(store).wf(),
        final(store).view() == record_all(old(store).view(), updates@),
{
    let mut rest = updates;
    let ghost all = rest@;
    let ghost start = store.view();
    let ghost mut done: int = 0;
    while rest.len() > 0
        invariant
            store.wf(),
            0 <= done <= all.len(),
            rest@ == all.subrange(done, all.len() as int),
            store.view() == record_all(start, all.take(done)),
        decreases rest@.len(),
    {
        let u = rest.remove(0);
        assert(all.take(done + 1).drop_last() =~= all.take(done));
        assert(all.take(done + 1).last() == u);
        store.update(u.room_id, u.raw_name, u.display_name, u.is_dm);
        proof {
            done = done + 1;
        }
        assert(rest@ =~= all.subrange(done, all.len() as int));
    }
    assert(all.take(all.len() as int) =~= all);
}

/// The entries held after adding `entries`, first to last, over `m`.
pub open spec fn insert_all<V>(m: Map<Seq<char>, V>, entries: Seq<(String, V)>) -> Map<
    Seq<char>,
    V,
>
    decreases entries.len(),
{
    if entries.len() == 0 {
        m
    } else {
        insert_all(m, entries.drop_last()).insert(entries.last().0@, entries.last().1)
    }
}

/// Adds the entries built for newly seen rooms to a registry.
pub fn register_all<V>(registry: &mut Registry<V>, entries: Vec<(String, V)>)
    requires
        old(registry).wf(),
    ensures
        final(registry).wf(),
        final(registry).view() == insert_all(old(registry).view(), entries@),
{
    let mut rest = entries;
    let ghost all = rest@;
    let ghost start = registry.view();
    let ghost mut done: int = 0;
    while rest.len() > 0
        invariant
            registry.wf(),
            0 <= done <= all.len(),
            rest@ == all.subrange(done, all.len() as int),
            registry.view() == insert_all(start, all.take(done)),
        decreases rest@.len(),
    {
        let (k, v) = rest.remove(0);
        assert(all.take(done + 1).drop_last() =~= all.take(done));
        assert(all.take(done + 1).last() == (k, v));
        registry.insert(k, v);
        proof {
            done = done + 1;
        }
        assert(rest@ =~= all.subrange(done, all.len() as int));
    }
    assert(all.take(all.len() as int) =~= all);
}

/// A copy of the room identifiers of the list, in order.
pub fn room_ids(list: &SelectableList<String>) -> (r: Vec<String>)
    ensures
        r@ == list.items(),
{
    let items = list.as_slice();
    let mut r: Vec<String> = Vec::new();
    let mut i: usize = 0;
    while i < items.len()
        invariant
            i <= items@.len(),
            items@ == list.items(),
            r@ == items@.take(i as int),
        decreases items@.len() - i,
    {
        r.push(items[i].clone());
        assert(r@ =~= items@.take(i + 1));
        i = i + 1;
    }
    assert(items@.take(items@.len() as int) =~= items@);
    r
}

/// Applies a room list batch and returns the room identifiers it leaves, in
/// order; the cursor stays where it is.
pub fn apply_room_batch(list: &mut SelectableList<String>, batch: Vec<DiffOp<String>>) -> (r: Vec<
    String,
>)
    ensures
        final(list).items() == apply_ops(old(list).items(), batch@),
        final(list).cursor() == old(list).cursor(),
        r@ == final(list).items(),
{
    list.apply_batch(batch);
    room_ids(list)
}

/// The identifier of the room at `index`, or at the cursor where `index` is
/// `None`, if there is a room there.
pub fn selected_room_id(list: &SelectableList<String>, index: Option<usize>) -> (r: Option<String>)
    ensures
        r == (match target_index(index, list.cursor()) {
            Some(i) => if i < list.items().len() { Some(list.items()[i as int]) } else { None },
            None => None,
        }),
{
    match list.target(index) {
        Some(id) => Some(id.clone()),
        None => None,
    }
}

} // verus!
