//! The decoded tileset: its cells, its two layers, and the decoding of the
//! layer and trigger blocks that follow the header.

use vstd::prelude::*;
use crate::error::MetaError;
use crate::paths::{
    is_entry, is_parsed, is_resolve_error, lists, parse_texture_paths, path_parent, stem_text, Entry,
};
use crate::reader::{after_read, block_at, lemma_read_on, u16_le, ByteReader};
use crate::texture::TextureKind;
use crate::trigger::TriggerKind;

verus! {

/// One tile of a layer: its position in the texture sheet, the sheet, and
/// what happens on it.
#[derive(Clone, Copy, Debug, PartialEq, Eq, Structural)]
pub struct Cell {
    pub index: u8,
    pub kind: TextureKind,
    pub trigger: TriggerKind,
}

/// One grid of cells in row-major order: the cell in row `r` and column `c`
/// stands at `r * width + c`.
#[derive(Debug, PartialEq, Eq)]
pub struct Layer {
    pub cells: Vec<Cell>,
}

impl View for Layer {
    type V = Seq<Cell>;

    open spec fn view(&self) -> Seq<Cell> {
        self.cells@
    }
}

/// A decoded tileset: the size of its grid, the paths of its three texture
/// sheets, and its layers, the lower one first and the upper one second.
#[derive(Debug, PartialEq, Eq)]
pub struct Tileset {
    pub width: usize,
    pub height: usize,
    pub base: String,
    pub var: String,
    pub anm: String,
    pub layers: Vec<Layer>,
}

/// Whether the pair of bytes for cell `i` of a layer block names a texture
/// sheet.
pub open spec fn cell_valid(block: Seq<u8>, i: int) -> bool {
    TextureKind::from_raw(block[2 * i + 1] as int) is Some
}

/// Whether every one of the first `count` cells of a layer block names a
/// texture sheet.
pub open spec fn layer_valid(block: Seq<u8>, count: nat) -> bool {
    forall|i: int| 0 <= i < count ==> #[trigger] cell_valid(block, i)
}

/// Cell `i` of a layer block: the first byte of its pair is the tile index,
/// the second the texture sheet. Its trigger is not set yet.
pub open spec fn decode_cell(block: Seq<u8>, i: int) -> Cell {
    Cell {
        index: block[2 * i],
        kind: TextureKind::from_raw(block[2 * i + 1] as int)->0,
        trigger: TriggerKind::Uninitialized,
    }
}

/// The `count` cells of a layer block.
pub open spec fn decode_layer(block: Seq<u8>, count: nat) -> Seq<Cell> {
    Seq::new(count, |i: int| decode_cell(block, i))
}

/// `cells` with the triggers of a trigger block: for each of the first
/// `count` cells, byte `which` of its pair, decoded. Nothing else changes.
pub open spec fn with_triggers(cells: Seq<Cell>, block: Seq<u8>, count: nat, which: int) -> Seq<
    Cell,
> {
    Seq::new(
        cells.len(),
        |i: int|
            if i < count {
                Cell { trigger: TriggerKind::decode(block[2 * i + which]), ..cells[i] }
            } else {
                cells[i]
            },
    )
}

/// Decodes one layer block of `count` cells, or reports the first cell that
/// names no texture sheet.
fn decode_block(block: &Vec<u8>, count: usize) -> (r: Result<Layer, MetaError>)
    requires
        block@.len() == 2 * count,
        2 * count <= usize::MAX,
    ensures
        layer_valid(block@, count as nat) ==> r is Ok && r->Ok_0@ == decode_layer(
            block@,
            count as nat,
        ),
        !layer_valid(block@, count as nat) ==> r == Err::<Layer, MetaError>(
            MetaError::InvalidTilesetIndex,
        ),
{
    let mut cells: Vec<Cell> = Vec::new();
    let mut i: usize = 0;
    while i < count
        invariant
            i <= count,
            block@.len() == 2 * count,
            2 * count <= usize::MAX,
            cells@.len() == i,
            forall|k: int| 0 <= k < i ==> #[trigger] cell_valid(block@, k),
            forall|k: int| 0 <= k < i ==> cells@[k] == decode_cell(block@, k),
        decreases count - i,
    {
        let kind = match TextureKind::make(block[i * 2 + 1] as usize) {
            Ok(kind) => kind,
            Err(e) => {
                assert(!cell_valid(block@, i as int));
                return Err(e);
            },
        };
        assert(cell_valid(block@, i as int));
        cells.push(Cell { index: block[i * 2], kind, trigger: TriggerKind::Uninitialized });
        i = i + 1;
    }
    assert(cells@ =~= decode_layer(block@, count as nat));
    Ok(Layer { cells })
}

/// Whether this machine can address one block of a `width` by `height`
/// grid, which holds two bytes for each cell.
pub open spec fn addressable(width: nat, height: nat) -> bool {
    width * height * 2 <= usize::MAX
}

/// The number of cells of a `width` by `height` grid, where its blocks can
/// be addressed.
fn cell_count(width: usize, height: usize) -> (r: Option<usize>)
    ensures
        addressable(width as nat, height as nat) ==> r == Some((width * height) as usize),
        !addressable(width as nat, height as nat) ==> r is None,
{
    match width.checked_mul(height) {
        Some(count) => match count.checked_mul(2) {
            Some(_) => Some(count),
            None => None,
        },
        None => {
            assert(width * height * 2 > usize::MAX) by (nonlinear_arith)
                requires
                    width * height > usize::MAX,
            ;
            None
        },
    }
}

/// What `build_layers` returns for a stream `src` and a grid of `count`
/// cells whose blocks can be addressed.
pub open spec fn built_layers(src: Seq<u8>, count: nat, r: Result<Vec<Layer>, MetaError>) -> bool {
    let lower = block_at(src, 0, 2 * count);
    let upper = block_at(src, 2 * count, 2 * count);
    if layer_valid(lower, count) && layer_valid(upper, count) {
        &&& r is Ok
        &&& r->Ok_0@.len() == 2
        &&& r->Ok_0@[0]@ == decode_layer(lower, count)
        &&& r->Ok_0@[1]@ == decode_layer(upper, count)
    } else {
        r == Err::<Vec<Layer>, MetaError>(MetaError::InvalidTilesetIndex)
    }
}

/// Reads the two layer blocks that follow the header and decodes them: the
/// lower layer first, then the upper one. Each block holds two bytes for each
/// of the `width * height` cells; a stream that ends early counts as zeros.
/// Triggers are left unset. One cell that names no texture sheet fails the
/// whole decoding.
pub fn build_layers(meta: &mut ByteReader, width: usize, height: usize) -> (r: Result<
    Vec<Layer>,
    MetaError,
>)
    ensures
        !addressable(width as nat, height as nat) ==> r == Err::<Vec<Layer>, MetaError>(
            MetaError::TooLarge,
        ) && final(meta).remaining() == old(meta).remaining(),
        addressable(width as nat, height as nat) ==> built_layers(
            old(meta).remaining(),
            (width * height) as nat,
            r,
        ) && final(meta).remaining() == after_read(
            old(meta).remaining(),
            (4 * (width * height)) as nat,
        ),
{
    let count = match cell_count(width, height) {
        Some(count) => count,
        None => {
            return Err(MetaError::TooLarge);
        },
    };
    let lower_block = meta.read_block(count * 2);
    let upper_block = meta.read_block(count * 2);
    proof {
        lemma_read_on(old(meta).remaining(), (count * 2) as nat, 0, (count * 2) as nat);
    }
    let lower = decode_block(&lower_block, count)?;
    let upper = decode_block(&upper_block, count)?;
    let mut layers: Vec<Layer> = Vec::new();
    layers.push(lower);
    layers.push(upper);
    Ok(layers)
}

/// Reads the trigger block and gives every cell of both layers its trigger.
/// The block holds two bytes for each of the `width * height` cells: the
/// first is the trigger of that cell in the lower layer, the second its
/// trigger in the upper layer. A stream that ends early counts as zeros. No
/// other field of a cell changes, and no cell past the grid.
pub fn add_triggers(meta: &mut ByteReader, layers: &mut Vec<Layer>, width: usize, height: usize)
    requires
        addressable(width as nat, height as nat),
        old(layers)@.len() >= 2,
        old(layers)@[0]@.len() >= width * height,
        old(layers)@[1]@.len() >= width * height,
    ensures
        final(meta).remaining() == after_read(
            old(meta).remaining(),
            (2 * (width * height)) as nat,
        ),
        final(layers)@.len() == old(layers)@.len(),
        final(layers)@[0]@ == with_triggers(
            old(layers)@[0]@,
            block_at(old(meta).remaining(), 0, (2 * (width * height)) as nat),
            (width * height) as nat,
            0,
        ),
        final(layers)@[1]@ == with_triggers(
            old(layers)@[1]@,
            block_at(old(meta).remaining(), 0, (2 * (width * height)) as nat),
            (width * height) as nat,
            1,
        ),
        forall|j: int| 2 <= j < old(layers)@.len() ==> final(layers)@[j] == old(layers)@[j],
{
    let count = match cell_count(width, height) {
        Some(count) => count,
        None => {
            return ;
        },
    };
    let block = meta.read_block(count * 2);
    let mut i: usize = 0;
    while i < count
        invariant
            i <= count,
            2 * count <= usize::MAX,
            block@.len() == 2 * count,
            layers@.len() == old(layers)@.len(),
            layers@.len() >= 2,
            layers@[0]@.len() == old(layers)@[0]@.len(),
            layers@[1]@.len() == old(layers)@[1]@.len(),
            layers@[0]@.len() >= count,
            layers@[1]@.len() >= count,
            forall|j: int| 2 <= j < layers@.len() ==> layers@[j] == old(layers)@[j],
            forall|k: int|
                0 <= k < layers@[0]@.len() ==> layers@[0]@[k] == if k < i {
                    with_triggers(old(layers)@[0]@, block@, count as nat, 0)[k]
                } else {
                    old(layers)@[0]@[k]
                },
            forall|k: int|
                0 <= k < layers@[1]@.len() ==> layers@[1]@[k] == if k < i {
                    with_triggers(old(layers)@[1]@, block@, count as nat, 1)[k]
                } else {
                    old(layers)@[1]@[k]
                },
        decreases count - i,
    {
        let lower = TriggerKind::new(block[i * 2]);
        let upper = TriggerKind::new(block[i * 2 + 1]);
        layers[0].cells[i].trigger = lower;
        layers[1].cells[i].trigger = upper;
        i = i + 1;
    }
    assert(layers@[0]@ =~= with_triggers(old(layers)@[0]@, block@, count as nat, 0));
    assert(layers@[1]@ =~= with_triggers(old(layers)@[1]@, block@, count as nat, 1));
}

/// The width that the header of a file gives.
pub open spec fn file_width(data: Seq<u8>) -> nat {
    u16_le(data[0], data[1]) as nat
}

/// The height that the header of a file gives.
pub open spec fn file_height(data: Seq<u8>) -> nat {
    u16_le(data[2], data[3]) as nat
}

/// The number of cells in each layer of a file.
pub open spec fn file_cells(data: Seq<u8>) -> nat {
    file_width(data) * file_height(data)
}

/// The bytes of block `which` of a file. The blocks follow the four header
/// bytes one after the other: the lower layer, the upper layer, the triggers.
/// Each holds two bytes for every cell.
pub open spec fn file_block(data: Seq<u8>, which: nat) -> Seq<u8> {
    block_at(data, 4 + which * (2 * file_cells(data)), 2 * file_cells(data))
}

/// Layer `which` of a file, 0 for the lower and 1 for the upper one, with its
/// triggers.
pub open spec fn file_layer(data: Seq<u8>, which: nat) -> Seq<Cell> {
    with_triggers(
        decode_layer(file_block(data, which), file_cells(data)),
        file_block(data, 2),
        file_cells(data),
        which as int,
    )
}

/// Why a file cannot be decoded, if it cannot: its header is cut short, its
/// grid cannot be addressed, or one of its cells names no texture sheet.
pub open spec fn file_error(data: Seq<u8>) -> Option<MetaError> {
    if data.len() < 4 {
        Some(MetaError::Truncated)
    } else if !addressable(file_width(data), file_height(data)) {
        Some(MetaError::TooLarge)
    } else if !(layer_valid(file_block(data, 0), file_cells(data)) && layer_valid(
        file_block(data, 1),
        file_cells(data),
    )) {
        Some(MetaError::InvalidTilesetIndex)
    } else {
        None
    }
}

/// Whether `r` is what loading gives for the bytes of a file once the search
/// for its texture sheets has ended in `found`: the error of the search, or
/// else the error of the file, or else the tileset that the file holds with
/// the sheets that were found.
pub open spec fn is_loaded(
    found: Result<(String, String, String), MetaError>,
    data: Seq<u8>,
    r: Result<Tileset, MetaError>,
) -> bool {
    match found {
        Err(e) => r == Err::<Tileset, MetaError>(e),
        Ok((base, var, anm)) => match file_error(data) {
            Some(e) => r == Err::<Tileset, MetaError>(e),
            None => r is Ok && r->Ok_0.holds(data, base@, var@, anm@) && r->Ok_0.wf(),
        },
    }
}

impl Tileset {
    /// Whether the tileset has its two layers, each with a cell for every
    /// place of the grid.
    pub open spec fn wf(&self) -> bool {
        &&& self.layers@.len() == 2
        &&& self.layers@[0]@.len() == self.width * self.height
        &&& self.layers@[1]@.len() == self.width * self.height
    }

    /// Whether the tileset is what the bytes of a file hold, with the given
    /// paths of its texture sheets.
    pub open spec fn holds(&self, data: Seq<u8>, base: Seq<char>, var: Seq<char>, anm: Seq<char>) -> bool {
        &&& self.width == file_width(data)
        &&& self.height == file_height(data)
        &&& self.base@ == base
        &&& self.var@ == var
        &&& self.anm@ == anm
        &&& self.layers@.len() == 2
        &&& self.layers@[0]@ == file_layer(data, 0)
        &&& self.layers@[1]@ == file_layer(data, 1)
    }

    /// Puts the parts of a tileset together. Nothing is checked here: the
    /// layers are taken as the earlier steps made them.
    pub fn assemble(
        width: usize,
        height: usize,
        base: String,
        var: String,
        anm: String,
        layers: Vec<Layer>,
    ) -> (r: Tileset)
        ensures
            r.width == width,
            r.height == height,
            r.base == base,
            r.var == var,
            r.anm == anm,
            r.layers == layers,
    {
        Tileset { width, height, base, var, anm, layers }
    }

    /// Decodes the bytes of a metadata file: the header with width and
    /// height, the two layers, and the triggers of their cells. The paths of
    /// the texture sheets are taken as given. A file that ends inside its
    /// header is refused; one that ends later is read as if zeros followed.
    pub fn decode(base: String, var: String, anm: String, data: Vec<u8>) -> (r: Result<
        Tileset,
        MetaError,
    >)
        ensures
            match file_error(data@) {
                Some(e) => r == Err::<Tileset, MetaError>(e),
                None => r is Ok && r->Ok_0.holds(data@, base@, var@, anm@) && r->Ok_0.wf(),
            },
    {
        let ghost src = data@;
        let mut meta = ByteReader::new(data);
        let width = match meta.read_u16() {
            Ok(v) => v as usize,
            Err(e) => {
                return Err(e);
            },
        };
        let height = match meta.read_u16() {
            Ok(v) => v as usize,
            Err(e) => {
                return Err(e);
            },
        };
        assert(src.len() >= 4);
        assert(meta.remaining() =~= src.skip(4));
        let ghost n = file_cells(src);
        assert(n == width * height);
        let mut layers = match build_layers(&mut meta, width, height) {
            Ok(layers) => layers,
            Err(e) => {
                proof {
                    lemma_read_on(src, 4, 0, 2 * n);
                    lemma_read_on(src, 4, 2 * n, 2 * n);
                }
                return Err(e);
            },
        };
        proof {
            lemma_read_on(src, 4, 0, 2 * n);
            lemma_read_on(src, 4, 2 * n, 2 * n);
            lemma_read_on(src.skip(4), 4 * n, 0, 2 * n);
            lemma_read_on(src, 4, 4 * n, 2 * n);
        }
        add_triggers(&mut meta, &mut layers, width, height);
        let tileset = Tileset::assemble(width, height, base, var, anm, layers);
        Ok(tileset)
    }

    /// Loads the tileset of the metadata file at `path`, given the paths of
    /// the entries of its directory and the bytes of the file. The texture
    /// sheets are looked for first, as `parse_texture_paths` does; what goes
    /// wrong there is reported before the bytes are read.
    pub fn load(path: &str, entries: &Vec<String>, data: Vec<u8>) -> (r: Result<
        Tileset,
        MetaError,
    >)
        ensures
            exists|listed: Seq<Entry>, found: Result<(String, String, String), MetaError>|
                lists(listed, entries@) && #[trigger] is_parsed(
                    stem_text(path@),
                    path_parent(path@) is Some,
                    listed,
                    found,
                ) && is_loaded(found, data@, r),
            match r {
                Ok(t) => {
                    &&& file_error(data@) is None
                    &&& t.holds(data@, t.base@, t.var@, t.anm@)
                    &&& t.wf()
                    &&& is_entry(entries@, t.base@)
                    &&& is_entry(entries@, t.var@)
                    &&& is_entry(entries@, t.anm@)
                },
                Err(e) => is_resolve_error(e) || file_error(data@) == Some(e),
            },
            entries@.len() == 0 ==> r is Err,
    {
        let found = parse_texture_paths(path, entries);
        let ghost searched = found;
        let (base, var, anm) = match found {
            Ok(paths) => paths,
            Err(e) => {
                assert(is_loaded(searched, data@, Err(e)));
                return Err(e);
            },
        };
        let r = Tileset::decode(base, var, anm, data);
        assert(is_loaded(searched, data@, r));
        r
    }
}

} // verus!
