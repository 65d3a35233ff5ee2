use vstd::prelude::*;
use crate::board::{tile_color, BoardState};
use crate::chess::TileColor;
use crate::coord::HexCoord;

verus! {

/// What the renderer should paint a tile with.
#[derive(Clone, Copy, PartialEq, Eq, Structural, Debug)]
pub enum Paint {
    /// The tile's own band colour.
    Base(TileColor),
    /// The marker kept on the board's origin.
    Origin,
    /// The highlight of the selected tile.
    Selected,
}

/// One entry of a highlight diff.
#[derive(Clone, Copy, PartialEq, Eq, Structural, Debug)]
pub struct TileUpdate {
    pub coord: HexCoord,
    pub paint: Paint,
}

/// The selection state: the selected tile, the one selected before it, and
/// the tiles currently highlighted.
pub struct SelectionController {
    pub selected: Option<HexCoord>,
    pub previously_selected: Option<HexCoord>,
    pub highlighted: Vec<HexCoord>,
}

/// The mathematical value of a `SelectionController`.
pub struct SelectionView {
    pub selected: Option<HexCoord>,
    pub previously_selected: Option<HexCoord>,
    pub highlighted: Seq<HexCoord>,
}

impl View for SelectionController {
    type V = SelectionView;

    open spec fn view(&self) -> SelectionView {
        SelectionView {
            selected: self.selected,
            previously_selected: self.previously_selected,
            highlighted: self.highlighted@,
        }
    }
}

/// Whether `input` moves the selection: it names a tile of the board other
/// than the one already selected.
pub open spec fn moves_selection(s: SelectionView, board: BoardState, input: Option<HexCoord>) -> bool {
    match input {
        Some(c) => board.has(c) && s.selected != Some(c),
        None => false,
    }
}

/// The state after `input`.
pub open spec fn next_state(s: SelectionView, board: BoardState, input: Option<HexCoord>) -> SelectionView {
    if moves_selection(s, board, input) {
        SelectionView {
            selected: input,
            previously_selected: s.selected,
            highlighted: seq![input->Some_0],
        }
    } else {
        s
    }
}

/// The updates that revert each highlighted tile to its band colour.
pub open spec fn revert_updates(highlighted: Seq<HexCoord>) -> Seq<TileUpdate> {
    Seq::new(
        highlighted.len(),
        |i: int|
            TileUpdate {
                coord: highlighted[i],
                paint: Paint::Base(tile_color(highlighted[i].q as int, highlighted[i].r as int)),
            },
    )
}

/// The diff emitted on `input`: nothing unless the selection moves; then the
/// old highlights reverted, the origin re-marked, the new tile highlighted.
pub open spec fn diff_of(s: SelectionView, board: BoardState, input: Option<HexCoord>) -> Seq<TileUpdate> {
    if moves_selection(s, board, input) {
        revert_updates(s.highlighted).push(TileUpdate { coord: board.origin, paint: Paint::Origin }).push(
        TileUpdate { coord: input->Some_0, paint: Paint::Selected })
    } else {
        Seq::empty()
    }
}

impl SelectionController {
    /// Every highlighted tile is on `board`.
    pub open spec fn consistent_with(&self, board: BoardState) -> bool {
        forall|i: int| 0 <= i < self.highlighted@.len() ==> board.has(#[trigger] self.highlighted@[i])
    }

    /// Nothing selected, nothing highlighted.
    pub fn new() -> (s: SelectionController)
        ensures
            s.selected is None,
            s.previously_selected is None,
            s.highlighted@.len() == 0,
    {
        SelectionController { selected: None, previously_selected: None, highlighted: Vec::new() }
    }

    /// Feeds one resolved pointer coordinate (`None`: no tile under the
    /// pointer) and returns the highlight diff.
    pub fn update(&mut self, board: &BoardState, input: Option<HexCoord>) -> (diff: Vec<TileUpdate>)
        requires
            board.wf(),
            old(self).consistent_with(*board),
        ensures
            final(self)@ == next_state(old(self)@, *board, input),
            diff@ == diff_of(old(self)@, *board, input),
            final(self).consistent_with(*board),
    {
        let c = match input {
            Some(c) => c,
            None => return Vec::new(),
        };
        if !board.contains(c) {
            return Vec::new();
        }
        let same = match self.selected {
            Some(s) => s == c,
            None => false,
        };
        if same {
            return Vec::new();
        }
        let mut diff: Vec<TileUpdate> = Vec::new();
        let mut k: usize = 0;
        while k < self.highlighted.len()
            invariant
                board.wf(),
                self.consistent_with(*board),
                k <= self.highlighted@.len(),
                diff@ == revert_updates(self.highlighted@).subrange(0, k as int),
            decreases self.highlighted@.len() - k,
        {
            let h = self.highlighted[k];
            assert(board.has(self.highlighted@[k as int]));
            let color = board.tile(h).unwrap().color;
            proof {
                let j = choose|j: int| 0 <= j < board.coords@.len() && board.coords@[j] == h;
                assert(board.tiles@[j].color == tile_color(h.q as int, h.r as int));
            }
            diff.push(TileUpdate { coord: h, paint: Paint::Base(color) });
            k = k + 1;
            proof {
                assert(diff@ =~= revert_updates(self.highlighted@).subrange(0, k as int));
            }
        }
        assert(diff@ =~= revert_updates(self.highlighted@));
        diff.push(TileUpdate { coord: board.origin, paint: Paint::Origin });
        diff.push(TileUpdate { coord: c, paint: Paint::Selected });
        self.previously_selected = self.selected;
        self.selected = Some(c);
        let mut hl: Vec<HexCoord> = Vec::new();
        hl.push(c);
        self.highlighted = hl;
        assert(self.highlighted@ =~= seq![c]);
        diff
    }
}

/// Feeding the same coordinate twice in a row: the second step changes
/// nothing and emits an empty diff.
pub proof fn lemma_repeat_is_quiet(s: SelectionView, board: BoardState, c: HexCoord)
    ensures
        next_state(next_state(s, board, Some(c)), board, Some(c)) == next_state(s, board, Some(c)),
        diff_of(next_state(s, board, Some(c)), board, Some(c)).len() == 0,
{
}

/// An input that names no tile of the board (none at all, or one off the
/// board) leaves the state unchanged and emits an empty diff.
pub proof fn lemma_off_board_is_quiet(s: SelectionView, board: BoardState, input: Option<HexCoord>)
    requires
        input matches Some(c) ==> !board.has(c),
    ensures
        next_state(s, board, input) == s,
        diff_of(s, board, input).len() == 0,
{
}

/// The coordinate to report for a click: the tile under the pointer, when a
/// click happened and the pointer is on a tile of the board.
pub fn click_report(board: &BoardState, input: Option<HexCoord>, clicked: bool) -> (r: Option<HexCoord>)
    ensures
        r == (if clicked && (input matches Some(c) && board.has(c)) {
            input
        } else {
            None
        }),
{
    match input {
        Some(c) => {
            if clicked && board.contains(c) {
                Some(c)
            } else {
                None
            }
        },
        None => None,
    }
}

} // verus!
