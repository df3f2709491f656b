use vstd::prelude::*;
use vstd::string::StringSliceAdditionalSpecFns;

use crate::common::Color;
use crate::error::GameError;

verus! {

/// Rows of the map.
pub const MAP_HEIGHT: usize = 9;

/// Hexes in each row of the map.
pub const MAP_WIDTH: usize = 13;

/// Bytes from the start of one row of a map source to the start of the next:
/// thirteen symbols, twelve commas and a newline.
pub const ROW_STRIDE: usize = 26;

/// Bytes in a well-formed map source: nine rows of twenty-five bytes joined
/// by newlines.
pub const MAP_SOURCE_LEN: usize = 233;

/// The byte that separates the symbols of a row.
pub const COMMA: u8 = 44;

/// The byte that separates the rows of a map source.
pub const NEWLINE: u8 = 10;

/// What a hex is: land of one color, or water.
#[derive(Clone, Copy, Debug, PartialEq, Eq, Structural)]
pub enum Terrain {
    Land(Color),
    Water,
}

/// One hex of the map; land hexes are named by row letter and number.
#[derive(Debug)]
pub struct Hex {
    pub name: Option<String>,
    pub terrain: Terrain,
}

/// The map, row by row.
pub type HexGrid = Vec<Vec<Hex>>;

/// A (row, column) position on the map.
pub type Pos = (usize, usize);

/// The maps that a game can be played on.
#[derive(Clone, Copy, Debug, PartialEq, Eq, Structural)]
pub enum MapId {
    Base,
    Debug,
}

/// The terrain that a symbol of a map source stands for.
pub open spec fn terrain_of_symbol(b: u8) -> Option<Terrain> {
    if b == 73 {
        Some(Terrain::Water)  // I
    } else if b == 89 {
        Some(Terrain::Land(Color::Yellow))  // Y
    } else if b == 85 {
        Some(Terrain::Land(Color::Brown))  // U
    } else if b == 75 {
        Some(Terrain::Land(Color::Black))  // K
    } else if b == 66 {
        Some(Terrain::Land(Color::Blue))  // B
    } else if b == 71 {
        Some(Terrain::Land(Color::Green))  // G
    } else if b == 83 {
        Some(Terrain::Land(Color::Gray))  // S
    } else if b == 82 {
        Some(Terrain::Land(Color::Red))  // R
    } else {
        None
    }
}

/// The position in a map source of the symbol of row `r`, column `c`.
pub open spec fn symbol_at(r: int, c: int) -> int {
    ROW_STRIDE * r + 2 * c
}

/// Whether `b` is a well-formed map source: nine newline-separated rows of
/// thirteen comma-separated terrain symbols, nothing more.
pub open spec fn map_source_ok(b: Seq<u8>) -> bool {
    &&& b.len() == MAP_SOURCE_LEN
    &&& forall|r: int, c: int|
        0 <= r < MAP_HEIGHT && 0 <= c < MAP_WIDTH ==> (#[trigger] terrain_of_symbol(
            b[symbol_at(r, c)],
        )) is Some
    &&& forall|r: int, c: int|
        0 <= r < MAP_HEIGHT && 0 <= c < MAP_WIDTH - 1 ==> #[trigger] b[symbol_at(r, c) + 1] == 44
    &&& forall|r: int| 0 <= r < MAP_HEIGHT - 1 ==> #[trigger] b[ROW_STRIDE * r + 25] == 10
}

/// The land hexes of row `r` before column `c`.
pub open spec fn land_before(b: Seq<u8>, r: int, c: int) -> nat
    decreases c,
{
    if c <= 0 {
        0
    } else if terrain_of_symbol(b[symbol_at(r, c - 1)]) == Some(Terrain::Water) {
        land_before(b, r, c - 1)
    } else {
        land_before(b, r, c - 1) + 1
    }
}

/// The digit character of `d < 10`.
pub open spec fn digit_char(d: nat) -> char {
    (48 + d) as char
}

/// The decimal digits of `n`, most significant first.
pub open spec fn decimal(n: nat) -> Seq<char>
    decreases n,
{
    if n < 10 {
        seq![digit_char(n)]
    } else {
        decimal(n / 10) + seq![digit_char(n % 10)]
    }
}

/// The letter that names row `r`: `A` for the first row.
pub open spec fn row_letter(r: int) -> char {
    (65 + r) as char
}

/// The name of the `n`th land hex of row `r`, such as `C4`.
pub open spec fn hex_name_of(r: int, n: nat) -> Seq<char> {
    seq![row_letter(r)] + decimal(n)
}

/// Whether `h` is the hex that row `r`, column `c` of the source `b` describes.
pub open spec fn hex_from_source(h: Hex, b: Seq<u8>, r: int, c: int) -> bool {
    let t = terrain_of_symbol(b[symbol_at(r, c)]);
    &&& t == Some(h.terrain)
    &&& match h.name {
        None => h.terrain == Terrain::Water,
        Some(s) => h.terrain != Terrain::Water && s@ == hex_name_of(r, land_before(b, r, c) + 1),
    }
}

/// Whether `m` is the map that the well-formed source `b` describes.
pub open spec fn map_from_source(m: Seq<Vec<Hex>>, b: Seq<u8>) -> bool {
    &&& m.len() == MAP_HEIGHT
    &&& forall|r: int| 0 <= r < MAP_HEIGHT ==> (#[trigger] m[r])@.len() == MAP_WIDTH
    &&& forall|r: int, c: int|
        0 <= r < MAP_HEIGHT && 0 <= c < MAP_WIDTH ==> hex_from_source(
            #[trigger] m[r]@[c],
            b,
            r,
            c,
        )
}

/// Relies on `format!` with `{}` on a `char` and a `u32`: the character
/// followed by the decimal digits of the number.
#[verifier::external_body]
fn hex_name(row_name: char, n: u32) -> (r: String)
    ensures
        r@ == seq![row_name] + decimal(n as nat),
{
    format!("{}{}", row_name, n)
}

/// The terrain of one symbol of a map source.
fn terrain_from_symbol(b: u8) -> (r: Option<Terrain>)
    ensures
        r == terrain_of_symbol(b),
{
    // The symbols I, Y, U, K, B, G, S and R, as bytes.
    match b {
        73 => Some(Terrain::Water),
        89 => Some(Terrain::Land(Color::Yellow)),
        85 => Some(Terrain::Land(Color::Brown)),
        75 => Some(Terrain::Land(Color::Black)),
        66 => Some(Terrain::Land(Color::Blue)),
        71 => Some(Terrain::Land(Color::Green)),
        83 => Some(Terrain::Land(Color::Gray)),
        82 => Some(Terrain::Land(Color::Red)),
        _ => None,
    }
}

/// Parses row `r` of the map source `b`, naming its land hexes in order.
fn parse_row(b: &[u8], r: usize) -> (res: Result<Vec<Hex>, GameError>)
    requires
        b@.len() == MAP_SOURCE_LEN,
        r < MAP_HEIGHT,
    ensures
        res is Ok <==> (forall|c: int|
            0 <= c < MAP_WIDTH ==> (#[trigger] terrain_of_symbol(b@[symbol_at(r as int, c)])) is Some)
            && (forall|c: int|
            0 <= c < MAP_WIDTH - 1 ==> #[trigger] b@[symbol_at(r as int, c) + 1] == 44),
        res is Err ==> res == Err::<Vec<Hex>, GameError>(GameError::MapFormat),
        res matches Ok(row) ==> row@.len() == MAP_WIDTH && forall|c: int|
            0 <= c < MAP_WIDTH ==> hex_from_source(#[trigger] row@[c], b@, r as int, c),
{
    let row_name = (65u8 + r as u8) as char;
    let start = ROW_STRIDE * r;
    let mut row: Vec<Hex> = Vec::new();
    let mut land: u32 = 0;
    let mut c: usize = 0;
    while c < MAP_WIDTH
        invariant
            b@.len() == MAP_SOURCE_LEN,
            r < MAP_HEIGHT,
            start == ROW_STRIDE * r,
            row_name == row_letter(r as int),
            c <= MAP_WIDTH,
            row@.len() == c,
            land == land_before(b@, r as int, c as int),
            land <= c,
            forall|k: int|
                0 <= k < c ==> (#[trigger] terrain_of_symbol(b@[symbol_at(r as int, k)])) is Some,
            forall|k: int| 0 <= k < c - 1 ==> #[trigger] b@[symbol_at(r as int, k) + 1] == 44,
            forall|k: int| 0 <= k < c ==> hex_from_source(#[trigger] row@[k], b@, r as int, k),
        decreases MAP_WIDTH - c,
    {
        if c > 0 && b[start + 2 * c - 1] != COMMA {
            assert(b@[symbol_at(r as int, c - 1) + 1] != 44);
            return Err(GameError::MapFormat);
        }
        let terrain = match terrain_from_symbol(b[start + 2 * c]) {
            Some(t) => t,
            None => {
                assert(terrain_of_symbol(b@[symbol_at(r as int, c as int)]) is None);
                return Err(GameError::MapFormat);
            },
        };
        let name = match terrain {
            Terrain::Water => None,
            Terrain::Land(_) => {
                land = land + 1;
                Some(hex_name(row_name, land))
            },
        };
        row.push(Hex { name, terrain });
        c = c + 1;
    }
    Ok(row)
}

/// Parses a map source given as bytes.
pub fn open_map_from_bytes(b: &[u8]) -> (res: Result<HexGrid, GameError>)
    ensures
        res is Ok <==> map_source_ok(b@),
        res is Err ==> res == Err::<HexGrid, GameError>(GameError::MapFormat),
        res matches Ok(m) ==> map_from_source(m@, b@),
{
    if b.len() != MAP_SOURCE_LEN {
        return Err(GameError::MapFormat);
    }
    let mut res: HexGrid = Vec::new();
    let mut r: usize = 0;
    while r < MAP_HEIGHT
        invariant
            b@.len() == MAP_SOURCE_LEN,
            r <= MAP_HEIGHT,
            res@.len() == r,
            forall|k: int, c: int|
                0 <= k < r && 0 <= c < MAP_WIDTH ==> (#[trigger] terrain_of_symbol(
                    b@[symbol_at(k, c)],
                )) is Some,
            forall|k: int, c: int|
                0 <= k < r && 0 <= c < MAP_WIDTH - 1 ==> #[trigger] b@[symbol_at(k, c) + 1] == 44,
            forall|k: int| 0 <= k < r - 1 ==> #[trigger] b@[ROW_STRIDE * k + 25] == 10,
            forall|k: int| 0 <= k < r ==> (#[trigger] res@[k])@.len() == MAP_WIDTH,
            forall|k: int, c: int|
                0 <= k < r && 0 <= c < MAP_WIDTH ==> hex_from_source(
                    #[trigger] res@[k]@[c],
                    b@,
                    k,
                    c,
                ),
        decreases MAP_HEIGHT - r,
    {
        if r > 0 && b[ROW_STRIDE * r - 1] != NEWLINE {
            assert(b@[ROW_STRIDE * (r - 1) + 25] != 10);
            return Err(GameError::MapFormat);
        }
        let row = match parse_row(b, r) {
            Ok(row) => row,
            Err(e) => {
                return Err(e);
            },
        };
        res.push(row);
        r = r + 1;
    }
    Ok(res)
}

/// Parses a map source: nine newline-separated rows of thirteen
/// comma-separated terrain symbols (`I` water; `Y`, `U`, `K`, `B`, `G`, `S`,
/// `R` land of yellow, brown, black, blue, green, gray and red).
pub fn open_map_from_str(input: &str) -> (res: Result<HexGrid, GameError>)
    ensures
        res is Ok <==> map_source_ok(input.spec_bytes()),
        res is Err ==> res == Err::<HexGrid, GameError>(GameError::MapFormat),
        res matches Ok(m) ==> map_from_source(m@, input.spec_bytes()),
{
    open_map_from_bytes(input.as_bytes())
}

} // verus!
