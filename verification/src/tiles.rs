use vstd::prelude::*;

verus! {

/// The two-valued passability classification stored per cell. Richer
/// categories (ground, rock, water) exist only as generation-time visual
/// detail; for all map and movement logic a cell is one of these two.
#[derive(Clone, Copy, PartialEq, Eq, Structural, Debug)]
pub enum TerrainKind {
    Passable,
    Unpassable,
}

/// A grid coordinate as it appears in specifications.
pub open spec fn coord_view(p: (i32, i32)) -> (int, int) {
    (p.0 as int, p.1 as int)
}

/// The mathematical content of a list of tile entries: later entries
/// override earlier ones at the same coordinate (last write wins).
pub open spec fn entries_map(s: Seq<((i32, i32), TerrainKind)>) -> Map<(int, int), TerrainKind>
    decreases s.len(),
{
    if s.len() == 0 {
        Map::empty()
    } else {
        entries_map(s.drop_last()).insert(coord_view(s.last().0), s.last().1)
    }
}

/// A coordinate is passable under a map exactly when the map holds an
/// entry for it and that entry is `Passable`; an absent coordinate is
/// not passable (the map fails closed, to blocking).
pub open spec fn spec_is_passable(m: Map<(int, int), TerrainKind>, p: (int, int)) -> bool {
    m.contains_key(p) && m[p] == TerrainKind::Passable
}

/// The authoritative mapping from integer grid coordinate to terrain
/// classification. Coordinates are unbounded signed pairs; validity of a
/// cell is defined by map membership, not by any range check.
pub struct TileMap {
    entries: Vec<((i32, i32), TerrainKind)>,
}

impl TileMap {
    /// The map this structure denotes: keys are coordinates, and the value
    /// at a key is the kind most recently inserted there.
    pub closed spec fn view(&self) -> Map<(int, int), TerrainKind> {
        entries_map(self.entries@)
    }

    pub fn new() -> (r: Self)
        ensures
            r@ == Map::<(int, int), TerrainKind>::empty(),
    {
        Self { entries: Vec::new() }
    }

    /// Unconditional overwrite of the entry at `pos`; a later insert at the
    /// same coordinate fully replaces the prior kind.
    pub fn insert(&mut self, pos: (i32, i32), kind: TerrainKind)
        ensures
            final(self)@ == old(self)@.insert(coord_view(pos), kind),
    {
        self.entries.push((pos, kind));
        proof {
            assert(self.entries@.drop_last() =~= old(self).entries@);
            assert(self.entries@.last() == (pos, kind));
        }
    }

    /// Looks the coordinate up; `None` exactly when it was never inserted.
    pub fn get(&self, pos: (i32, i32)) -> (r: Option<TerrainKind>)
        ensures
            r == (if self@.contains_key(coord_view(pos)) {
                Some(self@[coord_view(pos)])
            } else {
                None::<TerrainKind>
            }),
    {
        let ghost k = coord_view(pos);
        let mut i: usize = self.entries.len();
        proof {
            assert(self.entries@.take(i as int) =~= self.entries@);
        }
        while i > 0
            invariant
                k == coord_view(pos),
                i <= self.entries@.len(),
                entries_map(self.entries@).contains_key(k) == entries_map(
                    self.entries@.take(i as int),
                ).contains_key(k),
                entries_map(self.entries@).contains_key(k) ==> entries_map(self.entries@)[k]
                    == entries_map(self.entries@.take(i as int))[k],
            decreases i,
        {
            i = i - 1;
            proof {
                lemma_entries_map_take_step(self.entries@, i as int);
            }
            let e = self.entries[i];
            if e.0.0 == pos.0 && e.0.1 == pos.1 {
                proof {
                    assert(coord_view(e.0) == k);
                }
                return Some(e.1);
            }
            proof {
                assert(coord_view(e.0) != k);
            }
        }
        proof {
            assert(self.entries@.take(0) =~= Seq::<((i32, i32), TerrainKind)>::empty());
        }
        None
    }

    /// Returns true iff an entry exists at `pos` and its kind is `Passable`;
    /// returns false for missing entries and `Unpassable` entries alike.
    pub fn is_passable(&self, pos: (i32, i32)) -> (r: bool)
        ensures
            r == spec_is_passable(self@, coord_view(pos)),
    {
        match self.get(pos) {
            Some(k) => k == TerrainKind::Passable,
            None => false,
        }
    }
}

/// Unfolding step for `entries_map`: the map of a prefix one longer than
/// `s.take(i)` is that prefix's map with entry `i` written on top.
proof fn lemma_entries_map_take_step(s: Seq<((i32, i32), TerrainKind)>, i: int)
    requires
        0 <= i < s.len(),
    ensures
        entries_map(s.take(i + 1)) == entries_map(s.take(i)).insert(coord_view(s[i].0), s[i].1),
{
    assert(s.take(i + 1).drop_last() =~= s.take(i));
    assert(s.take(i + 1).last() == s[i]);
}

/// A coordinate never inserted into a map is not passable.
pub proof fn lemma_absent_never_passable(m: Map<(int, int), TerrainKind>, p: (int, int))
    requires
        !m.contains_key(p),
    ensures
        !spec_is_passable(m, p),
{
}

/// A coordinate inserted with `Passable` and not overwritten afterwards is
/// passable; inserting any other kind there makes it unpassable.
pub proof fn lemma_insert_sets_passability(
    m: Map<(int, int), TerrainKind>,
    p: (int, int),
    k: TerrainKind,
)
    ensures
        spec_is_passable(m.insert(p, k), p) == (k == TerrainKind::Passable),
{
}

/// An insert at one coordinate leaves passability of every other
/// coordinate unchanged.
pub proof fn lemma_insert_preserves_others(
    m: Map<(int, int), TerrainKind>,
    p: (int, int),
    k: TerrainKind,
    q: (int, int),
)
    requires
        q != p,
    ensures
        spec_is_passable(m.insert(p, k), q) == spec_is_passable(m, q),
{
}

/// Last write wins: two inserts at the same coordinate leave exactly the
/// map that the second insert alone would have left.
pub proof fn lemma_last_write_wins(
    m: Map<(int, int), TerrainKind>,
    p: (int, int),
    k1: TerrainKind,
    k2: TerrainKind,
)
    ensures
        m.insert(p, k1).insert(p, k2) == m.insert(p, k2),
{
    assert(m.insert(p, k1).insert(p, k2) =~= m.insert(p, k2));
}

} // verus!
