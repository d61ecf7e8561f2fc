//! The battlefield: it owns the army and takes it from tick to tick.

use vstd::prelude::*;
use crate::army::{army_wf, evolves, in_ranks, lemma_evolves_transitive};
use crate::chance::draw;
use crate::fixed::{spec_sum, sum};
use crate::legion::{SoldierType, Team};
use crate::soldier::{BattleState, Soldier};
use crate::update::{lemma_update_keeps, spec_update};

verus! {

/// The battlefield: the army, in the order in which its soldiers were added,
/// and the number of ticks that have passed.
pub struct App {
    pub frame: u64,
    pub soldiers: Vec<Soldier>,
}

/// What a caller sees of one soldier: handle, side, class, position, and whether
/// it is alive.
pub type Sighting = (u64, Team, SoldierType, [i64; 2], bool);

/// The draw meant for soldier `i`; a soldier for which none was supplied gets zero.
pub open spec fn draw_at(draws: Seq<u32>, i: int) -> u32 {
    if 0 <= i < draws.len() { draws[i] } else { 0 }
}

/// The army after the first `upto` soldiers have lived through the tick, one
/// after the other in the order of their handles, each with its own draw.
pub open spec fn spec_tick(army: Seq<Soldier>, draws: Seq<u32>, upto: int) -> Seq<Soldier>
    decreases upto,
{
    if upto <= 0 {
        army
    } else {
        spec_update(spec_tick(army, draws, upto - 1), upto - 1, draw_at(draws, upto - 1))
    }
}

/// The number of living soldiers of a side.
pub open spec fn spec_alive_count(army: Seq<Soldier>, team: Team) -> nat {
    army.filter(|soldier: Soldier| soldier.alive() && soldier.team == team).len()
}

/// What a caller sees of a soldier.
pub open spec fn spec_sighting(soldier: Soldier) -> Sighting {
    (soldier.id, soldier.team, soldier.legion, soldier.pos, soldier.alive())
}

/// A tick, as far as it has got, keeps the army well formed, and only ages it.
pub proof fn lemma_tick_keeps(army: Seq<Soldier>, draws: Seq<u32>, upto: int)
    requires
        army_wf(army),
        0 <= upto <= army.len(),
    ensures
        army_wf(spec_tick(army, draws, upto)),
        evolves(army, spec_tick(army, draws, upto)),
    decreases upto,
{
    if upto > 0 {
        lemma_tick_keeps(army, draws, upto - 1);
        let before = spec_tick(army, draws, upto - 1);
        lemma_update_keeps(before, upto - 1, draw_at(draws, upto - 1));
        lemma_evolves_transitive(army, before, spec_tick(army, draws, upto));
    }
}

impl App {
    /// The invariant of the battlefield: that of its army.
    pub open spec fn wf(&self) -> bool {
        army_wf(self.soldiers@)
    }

    /// Whether the battlefield is well formed. A caller that has written to the
    /// fields itself can find out with this before it asks for a tick.
    pub fn valid(&self) -> (valid: bool)
        ensures
            valid == self.wf(),
    {
        let count: usize = self.soldiers.len();
        let mut i: usize = 0;
        while i < count
            invariant
                i <= count,
                count == self.soldiers@.len(),
                forall|k: int|
                    #![trigger self.soldiers@[k]]
                    0 <= k < i ==> in_ranks(self.soldiers@, k),
            decreases count - i,
        {
            let soldier: Soldier = self.soldiers[i];
            let refers_well: bool = match soldier.state {
                BattleState::Charging(_, h) => h < count as u64 && h != i as u64,
                BattleState::Attacking(_, h) => h < count as u64 && h != i as u64,
                BattleState::Defending(_, h) => h < count as u64 && h != i as u64,
                _ => true,
            };
            if !soldier.valid() || soldier.id != i as u64 || !refers_well {
                return false;
            }
            i += 1;
        }
        true
    }

    /// An empty battlefield at tick zero.
    pub fn new() -> (app: App)
        ensures
            app.wf(),
            app.frame == 0,
            app.soldiers@.len() == 0,
    {
        App { frame: 0, soldiers: Vec::new() }
    }

    /// Adds a soldier made from explicit draws, and returns its handle.
    pub fn add_soldier_with(
        &mut self,
        team: Team,
        legion: SoldierType,
        pos: [i64; 2],
        draws: [u32; 4],
    ) -> (handle: u64)
        requires
            old(self).wf(),
        ensures
            final(self).wf(),
            final(self).frame == old(self).frame,
            handle == old(self).soldiers@.len(),
            final(self).soldiers@ == old(self).soldiers@.push(
                Soldier::spec_from_draws(team, legion, pos, legion.idle_wait(), handle, draws),
            ),
    {
        let id: u64 = self.soldiers.len() as u64;
        let soldier = Soldier::from_draws(team, legion, pos, legion.idle_wait(), id, draws);
        self.soldiers.push(soldier);
        id
    }

    /// Adds a soldier of the given side and class near the given position, idle
    /// for as long as its class waits, and returns its handle: the number of
    /// soldiers added before it.
    pub fn add_soldier(&mut self, team: Team, legion: SoldierType, pos: [i64; 2]) -> (handle: u64)
        requires
            old(self).wf(),
        ensures
            final(self).wf(),
            final(self).frame == old(self).frame,
            handle == old(self).soldiers@.len(),
            exists|draws: [u32; 4]|
                final(self).soldiers@ == old(self).soldiers@.push(
                    #[trigger] Soldier::spec_from_draws(
                        team,
                        legion,
                        pos,
                        legion.idle_wait(),
                        handle,
                        draws,
                    ),
                ),
    {
        let draws: [u32; 4] = [draw(), draw(), draw(), draw()];
        self.add_soldier_with(team, legion, pos, draws)
    }

    /// Takes the army through one tick, soldier `i` using `draws[i]` as the
    /// chance in its move.
    pub fn update_with(&mut self, draws: &Vec<u32>)
        requires
            old(self).wf(),
            old(self).frame < u64::MAX,
        ensures
            final(self).wf(),
            final(self).frame == old(self).frame + 1,
            final(self).soldiers@ == spec_tick(
                old(self).soldiers@,
                draws@,
                old(self).soldiers@.len() as int,
            ),
            evolves(old(self).soldiers@, final(self).soldiers@),
    {
        self.frame += 1;
        let count: usize = self.soldiers.len();
        let mut i: usize = 0;
        while i < count
            invariant
                i <= count,
                count == old(self).soldiers@.len(),
                count == self.soldiers@.len(),
                self.frame == old(self).frame + 1,
                army_wf(self.soldiers@),
                self.soldiers@ == spec_tick(old(self).soldiers@, draws@, i as int),
            decreases count - i,
        {
            let chance: u32 = if i < draws.len() { draws[i] } else { 0 };
            Soldier::update(&mut self.soldiers, i, chance);
            i += 1;
        }
        proof {
            lemma_tick_keeps(old(self).soldiers@, draws@, count as int);
        }
    }

    /// Takes the army through one tick, with fresh random draws.
    pub fn update(&mut self)
        requires
            old(self).wf(),
            old(self).frame < u64::MAX,
        ensures
            final(self).wf(),
            final(self).frame == old(self).frame + 1,
            exists|draws: Seq<u32>|
                final(self).soldiers@ == #[trigger] spec_tick(
                    old(self).soldiers@,
                    draws,
                    old(self).soldiers@.len() as int,
                ),
            evolves(old(self).soldiers@, final(self).soldiers@),
    {
        let count: usize = self.soldiers.len();
        let mut draws: Vec<u32> = Vec::new();
        while draws.len() < count
            invariant
                draws.len() <= count,
            decreases count - draws.len(),
        {
            draws.push(draw());
        }
        self.update_with(&draws);
    }

    /// The number of ticks that have passed.
    pub fn frame(&self) -> (frame: u64)
        ensures
            frame == self.frame,
    {
        self.frame
    }

    /// The number of living soldiers of a side.
    pub fn alive_count(&self, team: Team) -> (count: usize)
        ensures
            count == spec_alive_count(self.soldiers@, team),
    {
        let ghost counted = |soldier: Soldier| soldier.alive() && soldier.team == team;
        let total: usize = self.soldiers.len();
        let mut count: usize = 0;
        let mut i: usize = 0;
        proof {
            reveal(Seq::filter);
            assert(self.soldiers@.take(0).filter(counted).len() == 0);
        }
        while i < total
            invariant
                i <= total,
                total == self.soldiers@.len(),
                count <= i,
                counted == |soldier: Soldier| soldier.alive() && soldier.team == team,
                count == self.soldiers@.take(i as int).filter(counted).len(),
            decreases total - i,
        {
            let soldier: Soldier = self.soldiers[i];
            proof {
                reveal(Seq::filter);
                let seen = self.soldiers@.take(i + 1);
                assert(seen.drop_last() =~= self.soldiers@.take(i as int));
                assert(seen.last() == soldier);
            }
            if soldier.alive() && soldier.team == team {
                count += 1;
            }
            i += 1;
        }
        assert(self.soldiers@.take(total as int) =~= self.soldiers@);
        count
    }

    /// What a caller may see of every soldier, in the order of the handles.
    pub fn snapshot(&self) -> (view: Vec<Sighting>)
        ensures
            view@ == self.soldiers@.map_values(|soldier: Soldier| spec_sighting(soldier)),
    {
        let total: usize = self.soldiers.len();
        let mut view: Vec<Sighting> = Vec::new();
        let mut i: usize = 0;
        while i < total
            invariant
                i <= total,
                total == self.soldiers@.len(),
                view@.len() == i,
                forall|j: int| 0 <= j < i ==> view@[j] == spec_sighting(self.soldiers@[j]),
            decreases total - i,
        {
            let soldier: Soldier = self.soldiers[i];
            view.push((soldier.id, soldier.team, soldier.legion, soldier.pos, soldier.alive()));
            i += 1;
        }
        assert(view@ =~= self.soldiers@.map_values(|soldier: Soldier| spec_sighting(soldier)));
        view
    }
}

/// The distance between neighbours in a block of soldiers.
pub const SPACING: i64 = 8000;

/// The place in the army of the soldier in the given row and column of a block
/// with `width` columns whose first soldier has the place `first`.
pub open spec fn spec_block_index(first: int, width: int, row: int, col: int) -> int {
    first + row * width + col
}

/// The spot meant for the soldier in the given row and column of a block that
/// starts at `pos`.
pub open spec fn spec_block_spot(pos: [i64; 2], row: int, col: int) -> [i64; 2] {
    [spec_sum(pos[0], (col * SPACING) as i64), spec_sum(pos[1], (row * SPACING) as i64)]
}

/// The soldier is one that was newly made for the given spot and handle.
pub open spec fn recruited(
    soldier: Soldier,
    team: Team,
    legion: SoldierType,
    spot: [i64; 2],
    handle: int,
) -> bool {
    exists|draws: [u32; 4]|
        soldier == #[trigger] Soldier::spec_from_draws(
            team,
            legion,
            spot,
            legion.idle_wait(),
            handle as u64,
            draws,
        )
}

/// Adds a block of soldiers of one side and class: `y` rows of `x` soldiers,
/// row by row, neighbours eight units apart, the first one at `pos`.
pub fn add_block(app: &mut App, pos: [i64; 2], x: u32, y: u32, team: Team, legion: SoldierType)
    requires
        old(app).wf(),
    ensures
        final(app).wf(),
        final(app).frame == old(app).frame,
        final(app).soldiers@.len() == old(app).soldiers@.len() + x * y,
        forall|k: int|
            0 <= k < old(app).soldiers@.len() ==> #[trigger] final(app).soldiers@[k] == old(
                app,
            ).soldiers@[k],
        forall|row: int, col: int|
            #![trigger spec_block_index(old(app).soldiers@.len() as int, x as int, row, col)]
            0 <= row < y && 0 <= col < x ==> recruited(
                final(app).soldiers@[spec_block_index(
                    old(app).soldiers@.len() as int,
                    x as int,
                    row,
                    col,
                )],
                team,
                legion,
                spec_block_spot(pos, row, col),
                spec_block_index(old(app).soldiers@.len() as int, x as int, row, col),
            ),
{
    let ghost first = app.soldiers@.len() as int;
    let ghost width = x as int;
    let mut row: u32 = 0;
    while row < y
        invariant
            row <= y,
            width == x,
            first == old(app).soldiers@.len(),
            app.wf(),
            app.frame == old(app).frame,
            app.soldiers@.len() == first + row * width,
            forall|k: int| 0 <= k < first ==> #[trigger] app.soldiers@[k] == old(app).soldiers@[k],
            forall|r: int, c: int|
                #![trigger spec_block_index(first, width, r, c)]
                0 <= r < row && 0 <= c < x ==> recruited(
                    app.soldiers@[spec_block_index(first, width, r, c)],
                    team,
                    legion,
                    spec_block_spot(pos, r, c),
                    spec_block_index(first, width, r, c),
                ),
        decreases y - row,
    {
        let mut col: u32 = 0;
        while col < x
            invariant
                row < y,
                col <= x,
                width == x,
                first == old(app).soldiers@.len(),
                app.wf(),
                app.frame == old(app).frame,
                app.soldiers@.len() == first + row * width + col,
                forall|k: int|
                    0 <= k < first ==> #[trigger] app.soldiers@[k] == old(app).soldiers@[k],
                forall|r: int, c: int|
                    #![trigger spec_block_index(first, width, r, c)]
                    (0 <= r < row && 0 <= c < x) || (r == row && 0 <= c < col) ==> recruited(
                        app.soldiers@[spec_block_index(first, width, r, c)],
                        team,
                        legion,
                        spec_block_spot(pos, r, c),
                        spec_block_index(first, width, r, c),
                    ),
            decreases x - col,
        {
            let ghost before = app.soldiers@;
            let spot: [i64; 2] = [
                sum(pos[0], (col as i64) * SPACING),
                sum(pos[1], (row as i64) * SPACING),
            ];
            assert(spot == spec_block_spot(pos, row as int, col as int));
            let handle = app.add_soldier(team, legion, spot);
            proof {
                assert(handle == spec_block_index(first, width, row as int, col as int));
                assert forall|r: int, c: int|
                    #![trigger spec_block_index(first, width, r, c)]
                    (0 <= r < row && 0 <= c < x) || (r == row && 0 <= c < col + 1) implies recruited(
                    app.soldiers@[spec_block_index(first, width, r, c)],
                    team,
                    legion,
                    spec_block_spot(pos, r, c),
                    spec_block_index(first, width, r, c),
                ) by {
                    if r == row && c == col {
                    } else {
                        assert(r * width + c < row * width + col) by (nonlinear_arith)
                            requires
                                (0 <= r < row && 0 <= c < width) || (r == row && 0 <= c < col),
                                0 <= col,
                        ;
                        assert(app.soldiers@[spec_block_index(first, width, r, c)]
                            == before[spec_block_index(first, width, r, c)]);
                    }
                }
            }
            col += 1;
        }
        assert((row + 1) * width == row * width + width) by (nonlinear_arith);
        row += 1;
    }
}

} // verus!
