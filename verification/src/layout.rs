//! The bytes of a metadata file, written down from the tileset they stand
//! for, and the proof that decoding them gives that tileset back.

use vstd::prelude::*;
use crate::reader::byte_at;
use crate::tileset::{
    addressable, cell_valid, decode_layer, file_block, file_cells, file_error, file_height,
    file_layer, file_width, layer_valid, Cell,
};
use crate::texture::lemma_raw_then_make;
use crate::trigger::lemma_code_then_decode;

verus! {

/// The four header bytes of a grid: width, then height, each with its low
/// byte first.
pub open spec fn header_bytes(width: nat, height: nat) -> Seq<u8> {
    seq![(width % 256) as u8, (width / 256) as u8, (height % 256) as u8, (height / 256) as u8]
}

/// The block of a layer: for each cell its tile index, then the raw number of
/// its texture sheet.
pub open spec fn cell_bytes(cells: Seq<Cell>) -> Seq<u8> {
    Seq::new(
        2 * cells.len(),
        |j: int|
            if j % 2 == 0 {
                cells[j / 2].index
            } else {
                cells[j / 2].kind.raw() as u8
            },
    )
}

/// The trigger block of two layers: for each place of the grid the code of
/// the lower cell's trigger, then that of the upper cell's.
pub open spec fn trigger_bytes(lower: Seq<Cell>, upper: Seq<Cell>) -> Seq<u8> {
    Seq::new(
        2 * lower.len(),
        |j: int|
            if j % 2 == 0 {
                lower[j / 2].trigger.code() as u8
            } else {
                upper[j / 2].trigger.code() as u8
            },
    )
}

/// The bytes of the file that holds a grid with these two layers.
pub open spec fn file_of(width: nat, height: nat, lower: Seq<Cell>, upper: Seq<Cell>) -> Seq<u8> {
    header_bytes(width, height) + cell_bytes(lower) + cell_bytes(upper) + trigger_bytes(
        lower,
        upper,
    )
}

/// Whether some byte decodes to the trigger of every cell.
pub open spec fn triggers_decodable(cells: Seq<Cell>) -> bool {
    forall|i: int| 0 <= i < cells.len() ==> (#[trigger] cells[i]).trigger.decodable()
}

/// Decoding reproduces what was written: the file of a grid decodes without
/// error to the same width and height and to the same two layers, with the
/// index, the texture sheet and the trigger of every cell as they were.
pub proof fn lemma_decode_file_of(width: nat, height: nat, lower: Seq<Cell>, upper: Seq<Cell>)
    requires
        width <= 0xFFFF,
        height <= 0xFFFF,
        addressable(width, height),
        lower.len() == width * height,
        upper.len() == width * height,
        triggers_decodable(lower),
        triggers_decodable(upper),
    ensures
        file_error(file_of(width, height, lower, upper)) is None,
        file_width(file_of(width, height, lower, upper)) == width,
        file_height(file_of(width, height, lower, upper)) == height,
        file_layer(file_of(width, height, lower, upper), 0) == lower,
        file_layer(file_of(width, height, lower, upper), 1) == upper,
{
    let data = file_of(width, height, lower, upper);
    let n = width * height;
    let head = header_bytes(width, height);
    assert(data.len() == 4 + 6 * n);
    assert(data[0] == head[0] && data[1] == head[1] && data[2] == head[2] && data[3] == head[3]);
    assert(file_width(data) == width);
    assert(file_height(data) == height);
    assert(file_cells(data) == n);
    let b0 = file_block(data, 0);
    let b1 = file_block(data, 1);
    let b2 = file_block(data, 2);
    assert(b0 =~= cell_bytes(lower)) by {
        assert forall|j: int| 0 <= j < 2 * n implies b0[j] == cell_bytes(lower)[j] by {
            assert(byte_at(data, 4 + j) == data[4 + j]);
        }
    }
    assert(b1 =~= cell_bytes(upper)) by {
        assert forall|j: int| 0 <= j < 2 * n implies b1[j] == cell_bytes(upper)[j] by {
            assert(byte_at(data, 4 + 2 * n + j) == data[4 + 2 * n + j]);
        }
    }
    assert(b2 =~= trigger_bytes(lower, upper)) by {
        assert forall|j: int| 0 <= j < 2 * n implies b2[j] == trigger_bytes(lower, upper)[j] by {
            assert(byte_at(data, 4 + 4 * n + j) == data[4 + 4 * n + j]);
        }
    }
    lemma_cells_back(lower, n);
    lemma_cells_back(upper, n);
    assert(file_layer(data, 0) =~= lower) by {
        assert forall|i: int| 0 <= i < n implies file_layer(data, 0)[i] == lower[i] by {
            lemma_code_then_decode(lower[i].trigger);
            assert(b2[2 * i + 0] == lower[(2 * i) / 2].trigger.code() as u8);
        }
    }
    assert(file_layer(data, 1) =~= upper) by {
        assert forall|i: int| 0 <= i < n implies file_layer(data, 1)[i] == upper[i] by {
            lemma_code_then_decode(upper[i].trigger);
            assert(b2[2 * i + 1] == upper[(2 * i + 1) / 2].trigger.code() as u8);
        }
    }
}

/// The block of a layer is valid, and decodes to the cells of that layer
/// with their triggers unset.
proof fn lemma_cells_back(cells: Seq<Cell>, n: nat)
    requires
        cells.len() == n,
    ensures
        layer_valid(cell_bytes(cells), n),
        forall|i: int|
            0 <= i < n ==> (#[trigger] decode_layer(cell_bytes(cells), n)[i]).index
                == cells[i].index && decode_layer(cell_bytes(cells), n)[i].kind == cells[i].kind,
{
    let block = cell_bytes(cells);
    assert forall|i: int| 0 <= i < n implies #[trigger] cell_valid(block, i) && decode_layer(
        block,
        n,
    )[i].index == cells[i].index && decode_layer(block, n)[i].kind == cells[i].kind by {
        lemma_raw_then_make(cells[i].kind);
        assert(block[2 * i] == cells[(2 * i) / 2].index);
        assert(block[2 * i + 1] == cells[(2 * i + 1) / 2].kind.raw() as u8);
    }
}

} // verus!
