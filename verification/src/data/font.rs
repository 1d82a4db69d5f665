//! Font sheets: an image that holds the glyphs of a font in a grid, with
//! the list of characters that the cells stand for.

use vstd::prelude::*;
use vstd::arithmetic::div_mod::{lemma_fundamental_div_mod, lemma_fundamental_div_mod_converse, lemma_mod_bound};
use vstd::string::StrSliceExecFns;
use ahash::AHashMap;
use crate::units::{least, monus};

verus! {

/// `RandomState` of ahash: what the hash of an `AHashMap` is made with.
#[verifier::external_type_specification]
#[verifier::external_body]
pub struct ExRandomState(ahash::RandomState);

/// `AHashMap` of ahash: a hash map. What one holds is only known through
/// the functions below.
#[verifier::external_type_specification]
#[verifier::external_body]
#[verifier::reject_recursive_types(K)]
#[verifier::reject_recursive_types(V)]
#[verifier::reject_recursive_types(S)]
pub struct ExAHashMap<K, V, S>(AHashMap<K, V, S>);

/// A character whose glyph is not of the font's usual size.
#[derive(Debug, Clone, Copy)]
pub struct CustomChars {
    pub id: char,
    pub width: u8,
    pub height: Option<u8>,
}

/// The description of a font sheet.
#[derive(Debug)]
pub struct FontSheetData {
    /// The image file.
    pub file: String,
    /// The number of the font.
    pub id: usize,
    /// Width of a cell, in pixels.
    pub width: u8,
    /// Height of a cell, in pixels.
    pub height: u8,
    /// The characters of the cells, row by row.
    pub chars: String,
    /// The characters with a size of their own.
    pub custom: Vec<CustomChars>,
}

/// Where a glyph lies in the sheet, in pixels.
#[derive(Debug, Clone, Copy, PartialEq, Eq, Structural)]
pub struct Glyph {
    pub x: u32,
    pub y: u32,
    pub width: u8,
    pub height: u8,
}

/// What a map of glyphs holds: for each character that has an entry, its
/// glyph.
pub uninterp spec fn glyphs_in(table: AHashMap<char, Glyph>) -> Map<char, Glyph>;

/// No glyph at all.
pub open spec fn no_glyphs() -> Map<char, Glyph> {
    Map::empty()
}

/// `AHashMap::new` of ahash: a map that holds nothing.
#[verifier::external_body]
fn new_glyphs() -> (table: AHashMap<char, Glyph>)
    ensures
        glyphs_in(table) == no_glyphs(),
{
    AHashMap::new()
}

/// `AHashMap::insert` of ahash: afterwards the map holds `glyph` under
/// `key`, in place of what it held there, and everything else as before.
#[verifier::external_body]
fn insert_glyph(table: &mut AHashMap<char, Glyph>, key: char, glyph: Glyph)
    ensures
        glyphs_in(*final(table)) == glyphs_in(*old(table)).insert(key, glyph),
{
    table.insert(key, glyph);
}

/// `AHashMap::remove` of ahash: takes out what the map holds under `key`
/// and returns it, if there is anything; everything else stays.
#[verifier::external_body]
fn remove_glyph(table: &mut AHashMap<char, Glyph>, key: char) -> (removed: Option<Glyph>)
    ensures
        glyphs_in(*final(table)) == glyphs_in(*old(table)).remove(key),
        removed == (if glyphs_in(*old(table)).contains_key(key) {
            Some(glyphs_in(*old(table))[key])
        } else {
            None
        }),
{
    table.remove(&key)
}

/// `AHashMap::get` of ahash: what the map holds under `key`, if anything.
#[verifier::external_body]
fn get_glyph(table: &AHashMap<char, Glyph>, key: char) -> (found: Option<Glyph>)
    ensures
        found == (if glyphs_in(*table).contains_key(key) {
            Some(glyphs_in(*table)[key])
        } else {
            None
        }),
{
    table.get(&key).copied()
}

/// A font cut from a sheet.
pub struct Font {
    /// Width of a usual glyph, in pixels.
    pub font_width: u8,
    /// Height of a usual glyph, in pixels.
    pub font_height: u8,
    /// Where each character's glyph lies in the sheet.
    pub chars: AHashMap<char, Glyph>,
}

impl Font {
    /// Where the glyph of `c` lies in the sheet, if the font has one.
    pub fn glyph(&self, c: char) -> (glyph: Option<Glyph>)
        ensures
            glyph == (if glyphs_in(self.chars).contains_key(c) {
                Some(glyphs_in(self.chars)[c])
            } else {
                None
            }),
    {
        get_glyph(&self.chars, c)
    }
}

/// How many cells of size `cell` start within `extent` pixels, for a cell
/// that has a size.
pub open spec fn cells(cell: nat, extent: nat) -> nat {
    ((extent + cell - 1) / cell as int) as nat
}

/// How many characters find a cell. A sheet without width or height has
/// no cell. Cells without width or without height lie on top of each other
/// and there is one for every character. Otherwise there are as many cells
/// as start within the sheet.
pub open spec fn placed(len: nat, font_width: nat, font_height: nat, sheet_width: nat, sheet_height: nat) -> nat {
    if sheet_width == 0 || sheet_height == 0 {
        0
    } else if font_width == 0 || font_height == 0 {
        len
    } else {
        least(len, cells(font_width, sheet_width) * cells(font_height, sheet_height))
    }
}

/// Whether laying the sheet out comes to an end with every cell it fills
/// standing for a character: a sheet that has cells names a character, and
/// a sheet without width has rows of some height.
pub open spec fn lays_out(len: nat, font_height: nat, sheet_width: nat, sheet_height: nat) -> bool {
    &&& sheet_width > 0 && sheet_height > 0 ==> len > 0
    &&& sheet_width == 0 && sheet_height > 0 ==> font_height > 0
}

/// The sizes of the characters that have one of their own, from the first
/// `end` entries of `custom`; a later entry for a character replaces an
/// earlier one, and an entry without a height takes the font's.
pub open spec fn custom_sizes(custom: Seq<CustomChars>, font_height: u8, end: int) -> Map<char, (u8, u8)>
    decreases end,
{
    if end <= 0 {
        Map::empty()
    } else {
        custom_sizes(custom, font_height, end - 1).insert(
            custom[end - 1].id,
            (
                custom[end - 1].width,
                match custom[end - 1].height {
                    Some(height) => height,
                    None => font_height,
                },
            ),
        )
    }
}

/// Whether the character of cell `k` stands in no cell before it.
pub open spec fn first_at(chars: Seq<char>, k: int) -> bool {
    forall|j: int| 0 <= j < k ==> chars[j] != chars[k]
}

/// Where cell `k` starts: the cells are counted row by row, and cells
/// without width all start at the top left.
pub open spec fn cell_origin(font_width: u8, font_height: u8, sheet_width: u32, k: int) -> (int, int) {
    if font_width == 0 {
        (0, 0)
    } else {
        let columns = cells(font_width as nat, sheet_width as nat) as int;
        ((k % columns) * font_width, (k / columns) * font_height)
    }
}

/// The glyph of cell `k`: its size is the character's own where it has one
/// and stands in the sheet for the first time, the font's otherwise.
pub open spec fn glyph_at(
    chars: Seq<char>,
    font_width: u8,
    font_height: u8,
    sizes: Map<char, (u8, u8)>,
    sheet_width: u32,
    k: int,
) -> Glyph {
    let origin = cell_origin(font_width, font_height, sheet_width, k);
    let size = if sizes.contains_key(chars[k]) && first_at(chars, k) {
        sizes[chars[k]]
    } else {
        (font_width, font_height)
    };
    Glyph { x: origin.0 as u32, y: origin.1 as u32, width: size.0, height: size.1 }
}

/// The glyphs of the first `n` cells by their characters; where a
/// character stands in several cells, the last one counts.
pub open spec fn sheet(
    chars: Seq<char>,
    font_width: u8,
    font_height: u8,
    sizes: Map<char, (u8, u8)>,
    sheet_width: u32,
    n: int,
) -> Map<char, Glyph>
    decreases n,
{
    if n <= 0 {
        Map::empty()
    } else {
        sheet(chars, font_width, font_height, sizes, sheet_width, n - 1).insert(
            chars[n - 1],
            glyph_at(chars, font_width, font_height, sizes, sheet_width, n - 1),
        )
    }
}

/// The sizes still to be used after the first `k` cells: each is used up
/// by the first cell of its character.
pub open spec fn unused(sizes: Map<char, (u8, u8)>, chars: Seq<char>, k: int) -> Map<char, (u8, u8)>
    decreases k,
{
    if k <= 0 {
        sizes
    } else {
        unused(sizes, chars, k - 1).remove(chars[k - 1])
    }
}

proof fn lemma_unused(sizes: Map<char, (u8, u8)>, chars: Seq<char>, k: int, c: char)
    requires
        0 <= k <= chars.len(),
    ensures
        unused(sizes, chars, k).contains_key(c) == (sizes.contains_key(c) && forall|j: int|
            0 <= j < k ==> chars[j] != c),
        unused(sizes, chars, k).contains_key(c) ==> unused(sizes, chars, k)[c] == sizes[c],
    decreases k,
{
    if k > 0 {
        lemma_unused(sizes, chars, k - 1, c);
    }
}

proof fn lemma_cells(cell: int, extent: int, index: int)
    requires
        cell > 0,
        extent >= 0,
        index >= 0,
    ensures
        (index * cell < extent) == (index < cells(cell as nat, extent as nat)),
{
    let total = extent + cell - 1;
    let q = total / cell;
    let r = total % cell;
    lemma_fundamental_div_mod(total, cell);
    lemma_mod_bound(total, cell);
    assert(total == cell * q + r);
    if index < q {
        assert(index * cell <= (q - 1) * cell) by (nonlinear_arith)
            requires
                index <= q - 1,
                cell > 0,
        ;
        assert((q - 1) * cell == cell * q - cell) by (nonlinear_arith);
    } else {
        assert(index * cell >= q * cell) by (nonlinear_arith)
            requires
                index >= q,
                cell > 0,
        ;
        assert(q * cell == cell * q) by (nonlinear_arith);
    }
}

/// The size stored for the characters that have one of their own.
spec fn as_sizes(glyphs: Map<char, Glyph>) -> Map<char, (u8, u8)> {
    glyphs.map_values(|glyph: Glyph| (glyph.width, glyph.height))
}

/// The characters of `text`, one by one.
pub fn characters(text: &str) -> (chars: Vec<char>)
    ensures
        chars@ == text@,
{
    let len = text.unicode_len();
    let mut chars: Vec<char> = Vec::new();
    let mut i: usize = 0;
    while i < len
        invariant
            i <= len,
            len == text@.len(),
            chars@ == text@.take(i as int),
        decreases len - i,
    {
        chars.push(text.get_char(i));
        assert(chars@ =~= text@.take(i + 1));
        i += 1;
    }
    assert(text@.take(len as int) =~= text@);
    chars
}

/// Lays the characters `chars` out over a sheet of the given size, cell by
/// cell from the top left, and returns where each character's glyph lies.
pub fn iterate_fontsheet(
    chars: String,
    font_width: u8,
    font_height: u8,
    custom: Vec<CustomChars>,
    sheet_width: u32,
    sheet_height: u32,
) -> (charmap: AHashMap<char, Glyph>)
    requires
        lays_out(chars@.len(), font_height as nat, sheet_width as nat, sheet_height as nat),
    ensures
        glyphs_in(charmap) == sheet(
            chars@,
            font_width,
            font_height,
            custom_sizes(custom@, font_height, custom@.len() as int),
            sheet_width,
            placed(
                chars@.len(),
                font_width as nat,
                font_height as nat,
                sheet_width as nat,
                sheet_height as nat,
            ) as int,
        ),
{
    let mut customchars = new_glyphs();
    let mut i: usize = 0;
    assert(as_sizes(glyphs_in(customchars)) =~= custom_sizes(custom@, font_height, 0));
    while i < custom.len()
        invariant
            i <= custom@.len(),
            as_sizes(glyphs_in(customchars)) == custom_sizes(custom@, font_height, i as int),
        decreases custom@.len() - i,
    {
        let height = match custom[i].height {
            Some(height) => height,
            None => font_height,
        };
        let ghost before = glyphs_in(customchars);
        insert_glyph(&mut customchars, custom[i].id, Glyph { x: 0, y: 0, width: custom[i].width, height });
        assert(as_sizes(glyphs_in(customchars)) =~= as_sizes(before).insert(
            custom@[i as int].id,
            (custom@[i as int].width, height),
        ));
        i += 1;
    }
    let ghost sizes = custom_sizes(custom@, font_height, custom@.len() as int);
    let ghost text = chars@;
    let letters = characters(chars.as_str());
    let total: usize = letters.len();
    let ghost columns: int = if font_width > 0 {
        cells(font_width as nat, sheet_width as nat) as int
    } else {
        0
    };
    let ghost lines: int = if font_height > 0 {
        cells(font_height as nat, sheet_height as nat) as int
    } else {
        0
    };

    let mut charmap = new_glyphs();
    let mut counter: usize = 0;
    let mut x: u64 = 0;
    let mut y: u64 = 0;
    let ghost mut line: int = 0;

    assert(as_sizes(glyphs_in(customchars)) =~= unused(sizes, text, 0));
    while y < sheet_height as u64
        invariant
            letters@ == text,
            text == chars@,
            sizes == custom_sizes(custom@, font_height, custom@.len() as int),
            total == text.len(),
            lays_out(text.len(), font_height as nat, sheet_width as nat, sheet_height as nat),
            font_width > 0 ==> columns == cells(font_width as nat, sheet_width as nat),
            font_height > 0 ==> lines == cells(font_height as nat, sheet_height as nat),
            0 <= line,
            font_height > 0 ==> line <= lines,
            x == 0,
            y == line * font_height,
            font_width > 0 ==> counter == line * columns,
            font_width == 0 ==> counter == 0,
            font_width == 0 && sheet_width > 0 ==> line == 0,
            sheet_width > 0 && sheet_height > 0 ==> counter < text.len(),
            sheet_width == 0 ==> counter == 0,
            sheet_height == 0 ==> counter == 0,
            as_sizes(glyphs_in(customchars)) == unused(sizes, text, counter as int),
            glyphs_in(charmap) == sheet(text, font_width, font_height, sizes, sheet_width, counter as int),
        decreases total - counter, monus(sheet_height as nat, y as nat),
    {
        proof {
            if font_height > 0 {
                lemma_cells(font_height as int, sheet_height as int, line);
            }
        }
        let ghost mut column: int = 0;
        let ghost start = counter;
        while x < sheet_width as u64
            invariant
                letters@ == text,
                text == chars@,
                sizes == custom_sizes(custom@, font_height, custom@.len() as int),
                total == text.len(),
                font_width > 0 ==> columns == cells(font_width as nat, sheet_width as nat),
                font_height > 0 ==> lines == cells(font_height as nat, sheet_height as nat),
                0 <= line,
                font_height > 0 ==> line < lines,
                0 <= column,
                font_width > 0 ==> column <= columns,
                x == column * font_width,
                y == line * font_height,
                y < sheet_height,
                font_width > 0 ==> counter == line * columns + column,
                font_width == 0 && sheet_width > 0 ==> line == 0,
                sheet_width > 0 ==> counter < text.len(),
                sheet_width == 0 ==> counter == 0,
                start <= counter,
                column > 0 ==> start < counter,
                as_sizes(glyphs_in(customchars)) == unused(sizes, text, counter as int),
                glyphs_in(charmap) == sheet(text, font_width, font_height, sizes, sheet_width, counter as int),
            decreases total - counter,
        {
            let c = letters[counter];
            proof {
                if font_width > 0 {
                    lemma_cells(font_width as int, sheet_width as int, column);
                    lemma_fundamental_div_mod_converse(counter as int, columns, line, column);
                } else {
                    assert(column * font_width == 0 && line * font_height == 0) by (nonlinear_arith)
                        requires
                            font_width == 0,
                            line == 0,
                    ;
                }
                lemma_unused(sizes, text, counter as int, c);
            }
            let ghost left = as_sizes(glyphs_in(customchars));
            let glyph = match remove_glyph(&mut customchars, c) {
                Some(own) => Glyph { x: x as u32, y: y as u32, width: own.width, height: own.height },
                None => Glyph { x: x as u32, y: y as u32, width: font_width, height: font_height },
            };
            assert(as_sizes(glyphs_in(customchars)) =~= left.remove(c));
            assert(glyph == glyph_at(text, font_width, font_height, sizes, sheet_width, counter as int));
            insert_glyph(&mut charmap, c, glyph);
            x += font_width as u64;
            counter += 1;
            proof {
                assert((column + 1) * font_width == column * font_width + font_width) by (nonlinear_arith);
                column = column + 1;
            }
            if counter >= total {
                proof {
                    if font_width > 0 && font_height > 0 {
                        assert(line * columns + column <= lines * columns) by (nonlinear_arith)
                            requires
                                0 <= line < lines,
                                0 <= column <= columns,
                        ;
                        assert(lines * columns == columns * lines) by (nonlinear_arith);
                    }
                }
                return charmap;
            }
        }
        proof {
            if font_width > 0 {
                lemma_cells(font_width as int, sheet_width as int, column);
                lemma_cells(font_width as int, sheet_width as int, 0);
                assert((line + 1) * columns == line * columns + columns) by (nonlinear_arith);
            } else {
                assert(column * font_width == 0) by (nonlinear_arith)
                    requires
                        font_width == 0,
                ;
            }
            if column == 0 {
                assert(column * font_width == 0) by (nonlinear_arith)
                    requires
                        column == 0,
                ;
            }
            assert((line + 1) * font_height == line * font_height + font_height) by (nonlinear_arith);
            line = line + 1;
        }
        x = 0;
        y += font_height as u64;
    }
    proof {
        if sheet_width > 0 && sheet_height > 0 {
            if font_height == 0 {
                assert(line * font_height == 0) by (nonlinear_arith)
                    requires
                        font_height == 0,
                ;
            }
            if font_width == 0 {
                assert(line * font_height == 0) by (nonlinear_arith)
                    requires
                        line == 0,
                ;
            }
            lemma_cells(font_height as int, sheet_height as int, line);
            assert(lines * columns == columns * lines) by (nonlinear_arith);
        }
    }
    charmap
}

impl FontSheetData {
    /// Whether the description can be laid out over a sheet of the given
    /// size.
    pub open spec fn fits(&self, sheet_width: u32, sheet_height: u32) -> bool {
        lays_out(self.chars@.len(), self.height as nat, sheet_width as nat, sheet_height as nat)
    }

    /// Whether the description can be laid out over a sheet of the given
    /// size.
    pub fn is_valid(&self, sheet_width: u32, sheet_height: u32) -> (valid: bool)
        ensures
            valid == self.fits(sheet_width, sheet_height),
    {
        if sheet_width > 0 && sheet_height > 0 && self.chars.as_str().unicode_len() == 0 {
            return false;
        }
        !(sheet_width == 0 && sheet_height > 0 && self.height == 0)
    }

    /// Cuts the font from a sheet of the given size.
    pub fn into_sheet(self, sheet_width: u32, sheet_height: u32) -> (font: Font)
        requires
            self.fits(sheet_width, sheet_height),
        ensures
            font.font_width == self.width,
            font.font_height == self.height,
            glyphs_in(font.chars) == sheet(
                self.chars@,
                self.width,
                self.height,
                custom_sizes(self.custom@, self.height, self.custom@.len() as int),
                sheet_width,
                placed(
                    self.chars@.len(),
                    self.width as nat,
                    self.height as nat,
                    sheet_width as nat,
                    sheet_height as nat,
                ) as int,
            ),
    {
        Font {
            font_width: self.width,
            font_height: self.height,
            chars: iterate_fontsheet(
                self.chars,
                self.width,
                self.height,
                self.custom,
                sheet_width,
                sheet_height,
            ),
        }
    }
}

} // verus!
