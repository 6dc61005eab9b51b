//! The record that a match keeps of one player: the fleet commitment, the
//! cells of the player's board that the opponent has targeted, and the
//! outcome of every shot resolved against the player.

use crate::board::{cell_index, in_bounds, mask_index, valid_coordinate, FLEET_CELLS};
use crate::host::{
    digest_bytes, digest_from_array, entry_shape, history_entries, history_new, history_push,
    history_raw, history_shape, history_typed, mask_cells, mask_from_array, mask_get, mask_set,
    mask_to_vec, mask_typed, shape_entry, shapes_entries, shapes_typed,
};
use crate::types::{GameError, ShotRecord};
use vstd::prelude::*;

verus! {

/// The number of hits among the entries of a shot history.
pub open spec fn hit_count(history: Seq<(u32, u32, bool)>) -> nat
    decreases history.len(),
{
    if history.len() == 0 {
        0
    } else {
        hit_count(history.drop_last()) + if history.last().2 {
            1nat
        } else {
            0nat
        }
    }
}

/// Whether some entry of the history targets the cell at mask position `i`.
pub open spec fn targeted(history: Seq<(u32, u32, bool)>, i: int) -> bool {
    exists|j: int| 0 <= j < history.len() && #[trigger] cell_index(history[j].0, history[j].1) == i
}

/// Whether every entry of the history names a cell of the board and no cell
/// is named twice.
pub open spec fn distinct_cells(history: Seq<(u32, u32, bool)>) -> bool {
    &&& forall|j: int|
        0 <= j < history.len() ==> valid_coordinate(#[trigger] history[j].0, history[j].1)
    &&& forall|j: int, k: int|
        0 <= j < k < history.len() ==> cell_index(#[trigger] history[j].0, history[j].1)
            != cell_index(#[trigger] history[k].0, history[k].1)
}

/// A player's record as mathematical values.
pub struct PlayerModel {
    /// The committed digest; all zero until a fleet is committed.
    pub commitment: Seq<u8>,
    /// Whether the player has committed a fleet.
    pub committed: bool,
    /// How many of the player's ship cells have been hit.
    pub hits_received: nat,
    /// For each cell of the player's board, whether it has been targeted.
    pub shot_mask: Seq<bool>,
    /// The shots resolved against the player as `(x, y, hit)`, oldest first.
    pub shot_history: Seq<(u32, u32, bool)>,
}

impl PlayerModel {
    /// The record of a player against whom nothing has happened yet.
    pub open spec fn empty() -> PlayerModel {
        PlayerModel {
            commitment: Seq::new(32, |i: int| 0u8),
            committed: false,
            hits_received: 0,
            shot_mask: Seq::new(100, |i: int| false),
            shot_history: Seq::empty(),
        }
    }

    /// The record's invariant: the mask covers the board and marks exactly
    /// the cells of the history, the history names no cell twice, and the
    /// counter is the number of hits in the history, at most a whole fleet.
    pub open spec fn wf(self) -> bool {
        &&& self.shot_mask.len() == 100
        &&& self.hits_received <= 17
        &&& self.hits_received == hit_count(self.shot_history)
        &&& distinct_cells(self.shot_history)
        &&& forall|i: int|
            0 <= i < 100 ==> (#[trigger] self.shot_mask[i] <==> targeted(self.shot_history, i))
    }

    /// Whether the cell `(x, y)` of this player's board has been targeted.
    pub open spec fn is_shot(self, x: u32, y: u32) -> bool {
        self.shot_mask[cell_index(x, y)]
    }

    /// The record after the player has committed `digest`.
    pub open spec fn commit(self, digest: Seq<u8>) -> Result<PlayerModel, GameError> {
        if self.committed {
            Err(GameError::AlreadyCommitted)
        } else {
            Ok(PlayerModel { commitment: digest, committed: true, ..self })
        }
    }

    /// The record after a shot at `(x, y)` has been resolved as a hit or a
    /// miss.
    pub open spec fn record_shot(self, x: u32, y: u32, is_hit: bool) -> Result<
        PlayerModel,
        GameError,
    > {
        if self.is_shot(x, y) {
            Err(GameError::AlreadyShot)
        } else {
            Ok(
                PlayerModel {
                    hits_received: if is_hit {
                        self.hits_received + 1
                    } else {
                        self.hits_received
                    },
                    shot_mask: self.shot_mask.update(cell_index(x, y), true),
                    shot_history: self.shot_history.push((x, y, is_hit)),
                    ..self
                },
            )
        }
    }
}

/// Appending an entry adds one to the number of hits exactly when the entry
/// is a hit.
pub proof fn hit_count_push(history: Seq<(u32, u32, bool)>, entry: (u32, u32, bool))
    ensures
        hit_count(history.push(entry)) == hit_count(history) + if entry.2 {
            1nat
        } else {
            0nat
        },
{
    assert(history.push(entry).drop_last() =~= history);
}

/// Appending a shot at a cell that the mask does not mark, and marking it,
/// keeps the history free of repeated cells and the mask in step with it.
pub proof fn push_keeps_cover(
    history: Seq<(u32, u32, bool)>,
    mask: Seq<bool>,
    x: u32,
    y: u32,
    is_hit: bool,
)
    requires
        mask.len() == 100,
        distinct_cells(history),
        forall|i: int| 0 <= i < 100 ==> (#[trigger] mask[i] <==> targeted(history, i)),
        valid_coordinate(x, y),
        !mask[cell_index(x, y)],
    ensures
        distinct_cells(history.push((x, y, is_hit))),
        forall|i: int|
            0 <= i < 100 ==> (#[trigger] mask.update(cell_index(x, y), true)[i] <==> targeted(
                history.push((x, y, is_hit)),
                i,
            )),
{
    let longer = history.push((x, y, is_hit));
    let marked = mask.update(cell_index(x, y), true);
    let idx = cell_index(x, y);
    assert(!targeted(history, idx));
    assert forall|j: int, k: int| 0 <= j < k < longer.len() implies cell_index(
        #[trigger] longer[j].0,
        longer[j].1,
    ) != cell_index(#[trigger] longer[k].0, longer[k].1) by {
        if k == history.len() {
            assert(longer[j] == history[j]);
            assert(cell_index(history[j].0, history[j].1) != idx);
        } else {
            assert(longer[j] == history[j]);
            assert(longer[k] == history[k]);
        }
    }
    assert forall|j: int| 0 <= j < longer.len() implies valid_coordinate(
        #[trigger] longer[j].0,
        longer[j].1,
    ) by {
        if j < history.len() {
            assert(longer[j] == history[j]);
        }
    }
    assert forall|i: int| 0 <= i < 100 implies (#[trigger] marked[i] <==> targeted(longer, i)) by {
        if i == idx {
            assert(cell_index(longer[history.len() as int].0, longer[history.len() as int].1) == i);
        } else {
            if targeted(history, i) {
                let j = choose|j: int|
                    0 <= j < history.len() && #[trigger] cell_index(history[j].0, history[j].1)
                        == i;
                assert(longer[j] == history[j]);
                assert(cell_index(longer[j].0, longer[j].1) == i);
            }
            if targeted(longer, i) {
                let j = choose|j: int|
                    0 <= j < longer.len() && #[trigger] cell_index(longer[j].0, longer[j].1) == i;
                assert(j < history.len());
                assert(longer[j] == history[j]);
                assert(cell_index(history[j].0, history[j].1) == i);
            }
        }
    }
}

/// Recording a shot at a cell of the board that has not been targeted keeps
/// a record well formed, as long as it does not take the hits beyond a fleet.
pub proof fn record_shot_preserves_wf(rec: PlayerModel, x: u32, y: u32, is_hit: bool)
    requires
        rec.wf(),
        valid_coordinate(x, y),
        !rec.is_shot(x, y),
        is_hit ==> rec.hits_received < 17,
    ensures
        rec.record_shot(x, y, is_hit) is Ok,
        rec.record_shot(x, y, is_hit)->Ok_0.wf(),
{
    hit_count_push(rec.shot_history, (x, y, is_hit));
    push_keeps_cover(rec.shot_history, rec.shot_mask, x, y, is_hit);
}

/// Behind items that are entries, one more entry is an entry, and the
/// entries are the old ones and the new one.
pub proof fn push_keeps_typed(
    shapes: Seq<Option<Seq<(Option<u32>, Option<bool>)>>>,
    entry: (u32, u32, bool),
)
    ensures
        shape_entry(entry_shape(entry)) == Some(entry),
        shapes_typed(shapes) ==> shapes_typed(shapes.push(entry_shape(entry))),
        shapes_entries(shapes.push(entry_shape(entry))) == shapes_entries(shapes).push(entry),
{
    let parts = entry_shape(entry)->Some_0;
    assert(parts.len() == 3);
    assert(parts[0] == (Some(entry.0), None::<bool>));
    assert(parts[1] == (Some(entry.1), None::<bool>));
    assert(parts[2] == (None::<u32>, Some(entry.2)));
    let longer = shapes.push(entry_shape(entry));
    if shapes_typed(shapes) {
        assert forall|j: int| 0 <= j < longer.len() implies shape_entry(#[trigger] longer[j])
            is Some by {
            if j < shapes.len() {
                assert(longer[j] == shapes[j]);
            }
        }
    }
    assert(shapes_entries(longer) =~= shapes_entries(shapes).push(entry));
}

/// Reads a history: its entries, oldest first, or `None` exactly where an
/// item is not an entry.
pub fn read_history(history: &soroban_sdk::Vec<(u32, u32, bool)>) -> (entries: Option<
    Vec<(u32, u32, bool)>,
>)
    ensures
        match entries {
            Some(v) => history_typed(*history) && v@ == history_entries(*history),
            None => !history_typed(*history),
        },
{
    let raw = history_raw(history);
    let ghost shapes = history_shape(*history);
    let mut out: Vec<(u32, u32, bool)> = Vec::new();
    let mut j: usize = 0;
    while j < raw.len()
        invariant
            j <= raw@.len(),
            raw.deep_view() == shapes,
            shapes == history_shape(*history),
            out@.len() == j,
            forall|k: int| 0 <= k < j ==> shape_entry(#[trigger] shapes[k]) == Some(out@[k]),
        decreases raw@.len() - j,
    {
        proof {
            assert(shapes[j as int] == raw@[j as int].deep_view());
        }
        match &raw[j] {
            None => {
                return None;
            },
            Some(parts) => {
                proof {
                    assert(shapes[j as int] == Some(parts.deep_view()));
                    assert(parts.deep_view().len() == parts@.len());
                }
                if parts.len() != 3 {
                    return None;
                }
                proof {
                    assert(parts.deep_view()[0] == parts@[0].deep_view());
                    assert(parts.deep_view()[1] == parts@[1].deep_view());
                    assert(parts.deep_view()[2] == parts@[2].deep_view());
                }
                let entry = match (parts[0].0, parts[1].0, parts[2].1) {
                    (Some(x), Some(y), Some(hit)) => (x, y, hit),
                    _ => {
                        return None;
                    },
                };
                out.push(entry);
            },
        }
        j = j + 1;
    }
    proof {
        assert(out@ =~= shapes_entries(shapes));
    }
    Some(out)
}

/// The record that a match keeps of one player.
#[derive(Debug, PartialEq, Eq)]
pub struct PlayerState {
    /// The digest that binds the player's hidden fleet.
    pub commitment: soroban_sdk::BytesN<32>,
    /// Whether the player has committed a fleet.
    pub committed: bool,
    /// How many of the player's ship cells have been hit.
    pub hits_received: u32,
    /// For each cell of the player's board, whether it has been targeted.
    pub shot_mask: soroban_sdk::Vec<bool>,
    /// The shots resolved against the player as `(x, y, hit)`, oldest first.
    pub shot_history: soroban_sdk::Vec<(u32, u32, bool)>,
}

impl View for PlayerState {
    type V = PlayerModel;

    open spec fn view(&self) -> PlayerModel {
        PlayerModel {
            commitment: digest_bytes(self.commitment),
            committed: self.committed,
            hits_received: self.hits_received as nat,
            shot_mask: mask_cells(self.shot_mask),
            shot_history: history_entries(self.shot_history),
        }
    }
}

impl Clone for PlayerState {
    fn clone(&self) -> (r: Self)
        ensures
            r == *self,
    {
        PlayerState {
            commitment: self.commitment.clone(),
            committed: self.committed,
            hits_received: self.hits_received,
            shot_mask: self.shot_mask.clone(),
            shot_history: self.shot_history.clone(),
        }
    }
}

impl PlayerState {
    /// Whether the record's host vectors hold items of their item types only,
    /// so that they can be read.
    pub open spec fn typed(&self) -> bool {
        mask_typed(self.shot_mask) && history_typed(self.shot_history)
    }

    /// The record's invariant: it can be read, and what it holds is well
    /// formed.
    pub open spec fn wf(&self) -> bool {
        self.typed() && self@.wf()
    }

    /// The record of a player against whom nothing has happened yet: an
    /// all-zero commitment, no hits, no cell targeted, no history.
    pub fn create_empty(env: &soroban_sdk::Env) -> (rec: PlayerState)
        ensures
            rec@ == PlayerModel::empty(),
            rec.wf(),
    {
        let zero_digest: [u8; 32] = [0u8; 32];
        let no_cells: [bool; 100] = [false; 100];
        let rec = PlayerState {
            commitment: digest_from_array(env, &zero_digest),
            committed: false,
            hits_received: 0,
            shot_mask: mask_from_array(env, no_cells),
            shot_history: history_new(env),
        };
        proof {
            assert(rec@.commitment =~= PlayerModel::empty().commitment);
            assert(rec@.shot_mask =~= PlayerModel::empty().shot_mask);
            assert(rec@.shot_history =~= PlayerModel::empty().shot_history);
            assert(hit_count(rec@.shot_history) == 0);
        }
        rec
    }

    /// Commits the player's fleet: refused with `AlreadyCommitted` when a
    /// fleet was committed before, in which case nothing changes. The mask
    /// and the history stay as they are either way.
    pub fn commit(&mut self, digest: soroban_sdk::BytesN<32>) -> (r: Result<(), GameError>)
        ensures
            match old(self)@.commit(digest_bytes(digest)) {
                Ok(next) => r is Ok && final(self)@ == next,
                Err(e) => r == Err::<(), GameError>(e) && *final(self) == *old(self),
            },
            final(self).shot_mask == old(self).shot_mask,
            final(self).shot_history == old(self).shot_history,
    {
        if self.committed {
            return Err(GameError::AlreadyCommitted);
        }
        self.commitment = digest;
        self.committed = true;
        Ok(())
    }

    /// Decides whether the cell `(x, y)` of this player's board has been
    /// targeted.
    pub fn is_shot(&self, x: u32, y: u32) -> (r: bool)
        requires
            valid_coordinate(x, y),
            mask_typed(self.shot_mask),
            self@.shot_mask.len() == 100,
        ensures
            r == self@.is_shot(x, y),
    {
        let index: u32 = mask_index(x, y);
        match mask_get(&self.shot_mask, index) {
            Some(cell) => cell,
            None => false,
        }
    }

    /// Records the outcome of a shot at `(x, y)`: refused with `AlreadyShot`
    /// when the cell was targeted before, in which case nothing changes;
    /// otherwise the cell is marked, the outcome is appended to the history
    /// and a hit is counted.
    pub fn record_shot(&mut self, x: u32, y: u32, is_hit: bool) -> (r: Result<(), GameError>)
        requires
            old(self).wf(),
            valid_coordinate(x, y),
            is_hit ==> old(self)@.hits_received < 17,
        ensures
            match old(self)@.record_shot(x, y, is_hit) {
                Ok(next) => r is Ok && final(self)@ == next,
                Err(e) => r == Err::<(), GameError>(e) && *final(self) == *old(self),
            },
            final(self).wf(),
    {
        if self.is_shot(x, y) {
            return Err(GameError::AlreadyShot);
        }
        proof {
            record_shot_preserves_wf(self@, x, y, is_hit);
            push_keeps_typed(history_shape(self.shot_history), (x, y, is_hit));
        }
        let index: u32 = mask_index(x, y);
        mask_set(&mut self.shot_mask, index, true);
        history_push(&mut self.shot_history, (x, y, is_hit));
        if is_hit {
            self.hits_received = self.hits_received + 1;
        }
        Ok(())
    }

    /// Decides whether the record can be read.
    pub fn is_typed(&self) -> (ok: bool)
        ensures
            ok == self.typed(),
    {
        mask_to_vec(&self.shot_mask).is_some() && read_history(&self.shot_history).is_some()
    }

    /// Decides whether the record is well formed.
    pub fn is_valid(&self) -> (ok: bool)
        ensures
            ok == self.wf(),
    {
        let cells = match mask_to_vec(&self.shot_mask) {
            Some(cells) => cells,
            None => {
                return false;
            },
        };
        let entries = match read_history(&self.shot_history) {
            Some(entries) => entries,
            None => {
                return false;
            },
        };
        if cells.len() != 100 || self.hits_received > FLEET_CELLS {
            return false;
        }
        let mut seen: [bool; 100] = [false; 100];
        let mut hits: usize = 0;
        let mut j: usize = 0;
        proof {
            assert(entries@.take(0) =~= Seq::empty());
        }
        while j < entries.len()
            invariant
                j <= entries@.len(),
                entries@ == self@.shot_history,
                hits <= j,
                hits == hit_count(entries@.take(j as int)),
                distinct_cells(entries@.take(j as int)),
                forall|i: int|
                    0 <= i < 100 ==> (#[trigger] seen@[i] <==> targeted(
                        entries@.take(j as int),
                        i,
                    )),
            decreases entries@.len() - j,
        {
            let entry = entries[j];
            let ghost before = entries@.take(j as int);
            proof {
                assert(entries@.take(j + 1) =~= before.push(entry));
            }
            if !in_bounds(entry.0, entry.1) {
                proof {
                    assert(!valid_coordinate(entries@[j as int].0, entries@[j as int].1));
                }
                return false;
            }
            let index: usize = mask_index(entry.0, entry.1) as usize;
            if seen[index] {
                proof {
                    assert(targeted(before, index as int));
                    let k = choose|k: int|
                        0 <= k < before.len() && #[trigger] cell_index(before[k].0, before[k].1)
                            == index;
                    assert(before[k] == entries@[k]);
                    assert(cell_index(entries@[k].0, entries@[k].1) == cell_index(
                        entries@[j as int].0,
                        entries@[j as int].1,
                    ));
                }
                return false;
            }
            proof {
                push_keeps_cover(before, seen@, entry.0, entry.1, entry.2);
                hit_count_push(before, entry);
            }
            seen[index] = true;
            if entry.2 {
                hits = hits + 1;
            }
            j = j + 1;
        }
        proof {
            assert(entries@.take(j as int) =~= entries@);
        }
        if hits as u64 != self.hits_received as u64 {
            return false;
        }
        let mut i: usize = 0;
        while i < 100
            invariant
                i <= 100,
                cells@ == self@.shot_mask,
                cells@.len() == 100,
                forall|k: int|
                    0 <= k < 100 ==> (#[trigger] seen@[k] <==> targeted(self@.shot_history, k)),
                forall|k: int| 0 <= k < i ==> self@.shot_mask[k] == #[trigger] seen@[k],
            decreases 100 - i,
        {
            if cells[i] != seen[i] {
                return false;
            }
            i = i + 1;
        }
        proof {
            assert forall|k: int| 0 <= k < 100 implies (#[trigger] self@.shot_mask[k] <==> targeted(
                self@.shot_history,
                k,
            )) by {
                assert(self@.shot_mask[k] == seen@[k]);
            }
        }
        true
    }

    /// The shots resolved against the player, oldest first; `None` where the
    /// history cannot be read.
    pub fn history(&self) -> (records: Option<Vec<ShotRecord>>)
        ensures
            match records {
                Some(list) => {
                    &&& history_typed(self.shot_history)
                    &&& list@.len() == self@.shot_history.len()
                    &&& forall|j: int|
                        0 <= j < list@.len() ==> #[trigger] list@[j] == (ShotRecord {
                            x: self@.shot_history[j].0,
                            y: self@.shot_history[j].1,
                            is_hit: self@.shot_history[j].2,
                        })
                },
                None => !history_typed(self.shot_history),
            },
    {
        let entries = match read_history(&self.shot_history) {
            Some(entries) => entries,
            None => {
                return None;
            },
        };
        let mut records: Vec<ShotRecord> = Vec::new();
        let mut j: usize = 0;
        while j < entries.len()
            invariant
                j <= entries@.len(),
                entries@ == self@.shot_history,
                records@.len() == j,
                forall|k: int|
                    0 <= k < j ==> #[trigger] records@[k] == (ShotRecord {
                        x: entries@[k].0,
                        y: entries@[k].1,
                        is_hit: entries@[k].2,
                    }),
            decreases entries@.len() - j,
        {
            let entry = entries[j];
            records.push(ShotRecord { x: entry.0, y: entry.1, is_hit: entry.2 });
            j = j + 1;
        }
        Some(records)
    }
}

} // verus!
