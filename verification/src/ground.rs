//! The ground of a room: which cells of the tile grid carry a floor tile.
//!
//! A room is a grid of tiles, `height` rows by `width` columns, counted from the
//! top-left corner. The top row and the left column are wall, and so is everything
//! from column [`RIGHT_WALL_COLUMN`] on; every other cell is floor. The floor tiles
//! are listed row by row, each row from left to right.

use vstd::prelude::*;
use vstd::arithmetic::div_mod::{
    lemma_fundamental_div_mod,
    lemma_fundamental_div_mod_converse,
    lemma_mod_bound,
};

verus! {

/// The first row that carries floor; the row above it is the top wall.
pub const FIRST_FLOOR_ROW: usize = 1;

/// The first column that carries floor; the column left of it is the left wall.
pub const FIRST_FLOOR_COLUMN: usize = 1;

/// The column at which the right wall begins, in a grid wide enough to reach it.
pub const RIGHT_WALL_COLUMN: usize = 15;

/// A cell of the tile grid: row 0 is the topmost, column 0 the leftmost.
#[derive(Clone, Copy, Debug, PartialEq, Eq, Hash, Structural)]
pub struct TilePosition {
    pub row_index: usize,
    pub column_index: usize,
}

/// Whether the cell in this row and column is floor, in a grid that reaches it.
pub open spec fn is_floor(row_index: int, column_index: int) -> bool {
    row_index >= FIRST_FLOOR_ROW && FIRST_FLOOR_COLUMN <= column_index < RIGHT_WALL_COLUMN
}

/// How many of the first `height` rows carry floor.
pub open spec fn floor_rows(height: nat) -> nat {
    if height > FIRST_FLOOR_ROW {
        (height - FIRST_FLOOR_ROW) as nat
    } else {
        0
    }
}

/// How many of the first `width` columns carry floor.
pub open spec fn floor_columns(width: nat) -> nat {
    if width <= FIRST_FLOOR_COLUMN {
        0
    } else if width < RIGHT_WALL_COLUMN {
        (width - FIRST_FLOOR_COLUMN) as nat
    } else {
        (RIGHT_WALL_COLUMN - FIRST_FLOOR_COLUMN) as nat
    }
}

/// How many floor tiles a grid of `height` rows and `width` columns has.
pub open spec fn floor_count(height: nat, width: nat) -> nat {
    floor_rows(height) * floor_columns(width)
}

/// The floor tile that comes at place `index` of the listing, in a grid `width`
/// columns wide.
pub open spec fn floor_tile(width: nat, index: int) -> TilePosition {
    TilePosition {
        row_index: (FIRST_FLOOR_ROW + index / (floor_columns(width) as int)) as usize,
        column_index: (FIRST_FLOOR_COLUMN + index % (floor_columns(width) as int)) as usize,
    }
}

/// The first `count` floor tiles of a grid `width` columns wide.
pub open spec fn floor_prefix(width: nat, count: nat) -> Seq<TilePosition> {
    Seq::new(count, |index: int| floor_tile(width, index))
}

/// The floor tiles of a grid of `height` rows and `width` columns, row by row.
pub open spec fn ground_tiles(height: nat, width: nat) -> Seq<TilePosition> {
    floor_prefix(width, floor_count(height, width))
}

/// Whether the cell in this row and column is floor, in a grid that reaches it.
pub fn is_floor_tile(row_index: usize, column_index: usize) -> (floor: bool)
    ensures
        floor == is_floor(row_index as int, column_index as int),
{
    row_index >= FIRST_FLOOR_ROW && column_index >= FIRST_FLOOR_COLUMN && column_index
        < RIGHT_WALL_COLUMN
}

/// The place in the listing of the floor cell in row `row_index` and column
/// `column_index`.
proof fn lemma_floor_tile_at(width: nat, row_index: int, column_index: int)
    requires
        is_floor(row_index, column_index),
        column_index < width,
        row_index <= usize::MAX,
    ensures
        floor_tile(
            width,
            (row_index - FIRST_FLOOR_ROW) * floor_columns(width) + (column_index
                - FIRST_FLOOR_COLUMN),
        ) == (TilePosition {
            row_index: row_index as usize,
            column_index: column_index as usize,
        }),
{
    let columns = floor_columns(width) as int;
    let index = (row_index - FIRST_FLOOR_ROW) * columns + (column_index - FIRST_FLOOR_COLUMN);
    lemma_fundamental_div_mod_converse(
        index,
        columns,
        row_index - FIRST_FLOOR_ROW,
        column_index - FIRST_FLOOR_COLUMN,
    );
}

/// Appending the next floor tile to a prefix of the listing gives the next prefix.
proof fn lemma_floor_prefix_push(width: nat, count: nat)
    ensures
        floor_prefix(width, count).push(floor_tile(width, count as int)) == floor_prefix(
            width,
            count + 1,
        ),
{
    assert(floor_prefix(width, count).push(floor_tile(width, count as int)) =~= floor_prefix(
        width,
        count + 1,
    ));
}

/// The floor tiles of a room whose grid has `total_tile_height` rows and
/// `total_tile_width` columns, in the order in which they are laid: row by row
/// from the top, each row from the left.
pub fn ground(total_tile_height: usize, total_tile_width: usize) -> (tiles: Vec<TilePosition>)
    ensures
        tiles@ == ground_tiles(total_tile_height as nat, total_tile_width as nat),
        tiles@.len() == floor_count(total_tile_height as nat, total_tile_width as nat),
{
    let ghost width = total_tile_width as nat;
    let ghost columns = floor_columns(width);
    let mut tiles: Vec<TilePosition> = Vec::new();
    let mut row_index: usize = 0;
    proof {
        assert(floor_rows(0) * columns == 0) by (nonlinear_arith)
            requires
                floor_rows(0) == 0,
        ;
        assert(tiles@ =~= floor_prefix(width, 0));
    }
    while row_index < total_tile_height
        invariant
            row_index <= total_tile_height,
            width == total_tile_width as nat,
            columns == floor_columns(width),
            tiles@ == floor_prefix(width, floor_rows(row_index as nat) * columns),
        decreases total_tile_height - row_index,
    {
        let ghost before_row = floor_rows(row_index as nat) * columns;
        let mut column_index: usize = 0;
        while column_index < total_tile_width
            invariant
                row_index < total_tile_height,
                column_index <= total_tile_width,
                width == total_tile_width as nat,
                columns == floor_columns(width),
                before_row == floor_rows(row_index as nat) * columns,
                tiles@ == floor_prefix(
                    width,
                    before_row + (if row_index >= FIRST_FLOOR_ROW {
                        floor_columns(column_index as nat)
                    } else {
                        0
                    }),
                ),
            decreases total_tile_width - column_index,
        {
            if is_floor_tile(row_index, column_index) {
                proof {
                    let count = before_row + floor_columns(column_index as nat);
                    assert(count == (row_index - FIRST_FLOOR_ROW) * columns + (column_index
                        - FIRST_FLOOR_COLUMN));
                    lemma_floor_tile_at(width, row_index as int, column_index as int);
                    lemma_floor_prefix_push(width, count);
                }
                tiles.push(TilePosition { row_index, column_index });
            }
            column_index += 1;
        }
        proof {
            let rows = floor_rows(row_index as nat);
            if row_index >= FIRST_FLOOR_ROW {
                assert(rows * columns + columns == (rows + 1) * columns) by (nonlinear_arith);
            } else {
                assert(floor_rows(1) * columns == 0) by (nonlinear_arith)
                    requires
                        floor_rows(1) == 0,
                ;
            }
        }
        row_index += 1;
    }
    tiles
}

/// Every tile of the listing is a floor cell inside the grid, and stands at the
/// place that its row and column give it.
pub proof fn lemma_ground_tile_is_floor(height: nat, width: nat, index: int)
    requires
        height <= usize::MAX,
        0 <= index < floor_count(height, width),
    ensures
        ground_tiles(height, width)[index].row_index < height,
        ground_tiles(height, width)[index].column_index < width,
        is_floor(
            ground_tiles(height, width)[index].row_index as int,
            ground_tiles(height, width)[index].column_index as int,
        ),
        index == (ground_tiles(height, width)[index].row_index - FIRST_FLOOR_ROW) * floor_columns(
            width,
        ) + (ground_tiles(height, width)[index].column_index - FIRST_FLOOR_COLUMN),
{
    let rows = floor_rows(height) as int;
    let columns = floor_columns(width) as int;
    assert(columns > 0) by (nonlinear_arith)
        requires
            0 <= index < rows * columns,
            0 <= columns,
    ;
    lemma_fundamental_div_mod(index, columns);
    lemma_mod_bound(index, columns);
    let quotient = index / columns;
    assert(0 <= quotient < rows) by (nonlinear_arith)
        requires
            index == columns * quotient + index % columns,
            0 <= index % columns < columns,
            0 <= index < rows * columns,
    ;
    assert(columns * quotient == quotient * columns) by (nonlinear_arith);
}

/// Every floor cell inside the grid is in the listing, at the place that its row
/// and column give it.
pub proof fn lemma_floor_cell_in_ground(height: nat, width: nat, row_index: int, column_index: int)
    requires
        height <= usize::MAX,
        0 <= row_index < height,
        0 <= column_index < width,
        is_floor(row_index, column_index),
    ensures
        0 <= (row_index - FIRST_FLOOR_ROW) * floor_columns(width) + (column_index
            - FIRST_FLOOR_COLUMN) < floor_count(height, width),
        ground_tiles(height, width)[(row_index - FIRST_FLOOR_ROW) * floor_columns(width) + (
        column_index - FIRST_FLOOR_COLUMN)] == (TilePosition {
            row_index: row_index as usize,
            column_index: column_index as usize,
        }),
{
    let rows = floor_rows(height) as int;
    let columns = floor_columns(width) as int;
    let above = row_index - FIRST_FLOOR_ROW;
    let left = column_index - FIRST_FLOOR_COLUMN;
    assert(0 <= above * columns + left < rows * columns) by (nonlinear_arith)
        requires
            0 <= above < rows,
            0 <= left < columns,
    ;
    lemma_floor_tile_at(width, row_index, column_index);
}

/// A cell is in the listing exactly if it lies inside the grid and is floor.
pub proof fn lemma_ground_contains(height: nat, width: nat, tile: TilePosition)
    requires
        height <= usize::MAX,
    ensures
        ground_tiles(height, width).contains(tile) <==> (tile.row_index < height
            && tile.column_index < width && is_floor(
            tile.row_index as int,
            tile.column_index as int,
        )),
{
    let tiles = ground_tiles(height, width);
    if tiles.contains(tile) {
        let index = choose|index: int| 0 <= index < tiles.len() && tiles[index] == tile;
        lemma_ground_tile_is_floor(height, width, index);
    }
    if tile.row_index < height && tile.column_index < width && is_floor(
        tile.row_index as int,
        tile.column_index as int,
    ) {
        lemma_floor_cell_in_ground(
            height,
            width,
            tile.row_index as int,
            tile.column_index as int,
        );
        let index = (tile.row_index - FIRST_FLOOR_ROW) * floor_columns(width) + (tile.column_index
            - FIRST_FLOOR_COLUMN);
        assert(tiles[index] == tile);
    }
}

/// The listing runs row by row from the top and, within a row, from the left: of
/// two tiles, the earlier one lies in a higher row, or in the same row further left.
pub proof fn lemma_ground_row_major(height: nat, width: nat, first: int, second: int)
    requires
        height <= usize::MAX,
        0 <= first < second < floor_count(height, width),
    ensures
        ground_tiles(height, width)[first].row_index < ground_tiles(height, width)[second].row_index
            || (ground_tiles(height, width)[first].row_index == ground_tiles(
            height,
            width,
        )[second].row_index && ground_tiles(height, width)[first].column_index < ground_tiles(
            height,
            width,
        )[second].column_index),
{
    let columns = floor_columns(width) as int;
    let a = ground_tiles(height, width)[first];
    let b = ground_tiles(height, width)[second];
    lemma_ground_tile_is_floor(height, width, first);
    lemma_ground_tile_is_floor(height, width, second);
    if a.row_index > b.row_index {
        assert((a.row_index - FIRST_FLOOR_ROW) * columns >= (b.row_index - FIRST_FLOOR_ROW)
            * columns + columns) by (nonlinear_arith)
            requires
                a.row_index > b.row_index,
                columns >= 0,
        ;
    }
}

/// No cell is listed twice.
pub proof fn lemma_ground_no_duplicates(height: nat, width: nat)
    requires
        height <= usize::MAX,
    ensures
        ground_tiles(height, width).no_duplicates(),
{
    let tiles = ground_tiles(height, width);
    assert forall|first: int, second: int|
        0 <= first < tiles.len() && 0 <= second < tiles.len() && first != second implies tiles[first]
        != tiles[second] by {
        if first < second {
            lemma_ground_row_major(height, width, first, second);
        } else {
            lemma_ground_row_major(height, width, second, first);
        }
    }
}

} // verus!
