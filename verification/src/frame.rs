//! A rendered grid as text: two glyphs for each cell, one line for each row.
use crate::render::background;
use vstd::prelude::*;

verus! {

/// The glyphs of one cell: two dots for a cell that holds the background,
/// two crosses for any other.
pub open spec fn glyphs(cell: Seq<u8>) -> Seq<char> {
    if cell == background() {
        seq!['.', '.']
    } else {
        seq!['X', 'X']
    }
}

/// The line of one row: the glyphs of its cells from left to right, and a
/// line feed after them.
pub open spec fn line(row: Seq<[u8; 3]>) -> Seq<char> {
    row.flat_map(|cell: [u8; 3]| glyphs(cell@)) + seq!['\n']
}

/// The text of a grid: the lines of its rows from top to bottom.
pub open spec fn text_of(grid: Seq<Vec<[u8; 3]>>) -> Seq<char> {
    grid.flat_map(|row: Vec<[u8; 3]>| line(row@))
}

/// Writes the grid out as text.
pub fn draw(vec_2d: &Vec<Vec<[u8; 3]>>) -> (text: String)
    ensures
        text@ == text_of(vec_2d@),
{
    let mut string = String::new();
    let ghost per_cell = |cell: [u8; 3]| glyphs(cell@);
    let ghost per_row = |row: Vec<[u8; 3]>| line(row@);
    let mut i: usize = 0;
    while i < vec_2d.len()
        invariant
            i <= vec_2d.len(),
            per_cell == |cell: [u8; 3]| glyphs(cell@),
            per_row == |row: Vec<[u8; 3]>| line(row@),
            string@ == vec_2d@.take(i as int).flat_map(per_row),
        decreases vec_2d.len() - i,
    {
        let row = &vec_2d[i];
        let ghost done = string@;
        let mut j: usize = 0;
        while j < row.len()
            invariant
                j <= row.len(),
                per_cell == |cell: [u8; 3]| glyphs(cell@),
                string@ == done + row@.take(j as int).flat_map(per_cell),
            decreases row.len() - j,
        {
            let cell = &row[j];
            proof {
                reveal_strlit("..");
                reveal_strlit("XX");
                row@.lemma_flat_map_take_append(per_cell, j as int);
                assert(cell@ == background() <==> cell[0] == 0 && cell[1] == 0 && cell[2] == 0) by {
                    if cell[0] == 0 && cell[1] == 0 && cell[2] == 0 {
                        assert(cell@ =~= background());
                    }
                }
            }
            if cell[0] == 0 && cell[1] == 0 && cell[2] == 0 {
                string.append("..");
                assert(".."@ =~= seq!['.', '.']);
            } else {
                string.append("XX");
                assert("XX"@ =~= seq!['X', 'X']);
            }
            j += 1;
        }
        proof {
            reveal_strlit("\n");
            assert("\n"@ =~= seq!['\n']);
            assert(row@.take(j as int) =~= row@);
            vec_2d@.lemma_flat_map_take_append(per_row, i as int);
        }
        string.append("\n");
        i += 1;
    }
    assert(vec_2d@.take(i as int) =~= vec_2d@);
    string
}

} // verus!
