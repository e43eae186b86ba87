//! The greyscale picture of a key buffer: one column per key, its grey level
//! the top byte of the key, the same row repeated `PICTURE_ROWS` times.
use vstd::prelude::*;
use vstd::endian::{endianness, Endian};

verus! {

/// Columns of the picture: one per key.
pub const PICTURE_WIDTH: usize = 2048;

/// Rows of the picture.
pub const PICTURE_ROWS: usize = 100;

/// Bytes of one row: three channels per column.
pub const ROW_BYTES: usize = 6144;

/// Bytes of the whole RGB picture.
pub const PICTURE_BYTES: usize = 614400;

/// Words the key buffer must hold: key `j` is word `2 * j`.
pub const KEY_WORDS_NEEDED: usize = 4095;

/// The grey level of a key: its most significant byte.
pub open spec fn grey_level(key: u32) -> u8 {
    (key / 16777216) as u8
}

/// Byte `k` of the picture: the grey level of the key of column
/// `(k % ROW_BYTES) / 3`, which is word `2 * column` of the buffer.
pub open spec fn picture_byte(words: Seq<u32>, k: int) -> u8 {
    grey_level(words[2 * ((k % 6144) / 3)])
}

/// The whole picture, row after row, red, green and blue alike.
pub open spec fn spec_grey_picture(words: Seq<u32>) -> Seq<u8> {
    Seq::new(614400, |k: int| picture_byte(words, k))
}

/// `(k + 3 * j) / 3 == j` for a channel `k < 3`.
proof fn lemma_column_of(j: int, t: int)
    requires
        0 <= j,
        0 <= t < 3,
    ensures
        (3 * j + t) / 3 == j,
{
}

/// `(ROW_BYTES * i + c) % ROW_BYTES == c` for `c < ROW_BYTES`.
proof fn lemma_row_offset(i: int, c: int)
    requires
        0 <= i,
        0 <= c < 6144,
    ensures
        (6144 * i + c) % 6144 == c,
{
    assert((6144 * i + c) % 6144 == c) by (nonlinear_arith)
        requires
            0 <= i,
            0 <= c < 6144,
    ;
}

/// The picture of a key buffer, as the program writes it:
/// `rgb[3 * (j + 2048 * i) + c] = (words[2 * j] / 16777216) as u8` for every
/// row `i`, column `j` and channel `c`.
pub fn grey_picture(words: &[u32]) -> (rgb: Vec<u8>)
    requires
        words@.len() >= KEY_WORDS_NEEDED,
    ensures
        rgb@ == spec_grey_picture(words@),
        rgb@.len() == PICTURE_BYTES,
        forall|k: int|
            0 <= k < rgb@.len() ==> (#[trigger] rgb@[k] as int) * 16777216 <= words@[2 * ((k
                % 6144) / 3)] < (rgb@[k] as int + 1) * 16777216,
{
    let mut row: Vec<u8> = Vec::new();
    let mut j: usize = 0;
    while j < PICTURE_WIDTH
        invariant
            j <= PICTURE_WIDTH,
            words@.len() >= KEY_WORDS_NEEDED,
            row@.len() == 3 * j,
            forall|k: int| 0 <= k < row@.len() ==> #[trigger] row@[k] == grey_level(words@[2 * (k / 3)]),
        decreases PICTURE_WIDTH - j,
    {
        let grey: u8 = (words[2 * j] / 16777216) as u8;
        row.push(grey);
        row.push(grey);
        row.push(grey);
        proof {
            assert forall|k: int| 0 <= k < row@.len() implies #[trigger] row@[k] == grey_level(
                words@[2 * (k / 3)],
            ) by {
                if k >= 3 * j {
                    lemma_column_of(j as int, k - 3 * j);
                }
            }
        }
        j = j + 1;
    }
    let mut rgb: Vec<u8> = Vec::new();
    let mut i: usize = 0;
    while i < PICTURE_ROWS
        invariant
            i <= PICTURE_ROWS,
            row@.len() == ROW_BYTES,
            rgb@.len() == ROW_BYTES * i,
            forall|k: int| 0 <= k < rgb@.len() ==> #[trigger] rgb@[k] == row@[k % 6144],
        decreases PICTURE_ROWS - i,
    {
        let mut c: usize = 0;
        while c < ROW_BYTES
            invariant
                i < PICTURE_ROWS,
                c <= ROW_BYTES,
                row@.len() == ROW_BYTES,
                rgb@.len() == ROW_BYTES * i + c,
                forall|k: int| 0 <= k < rgb@.len() ==> #[trigger] rgb@[k] == row@[k % 6144],
            decreases ROW_BYTES - c,
        {
            proof {
                lemma_row_offset(i as int, c as int);
            }
            rgb.push(row[c]);
            c = c + 1;
        }
        i = i + 1;
    }
    proof {
        assert forall|k: int| 0 <= k < rgb@.len() implies #[trigger] rgb@[k] == picture_byte(
            words@,
            k,
        ) by {
            assert(0 <= k % 6144 < 6144);
        }
        assert(rgb@ =~= spec_grey_picture(words@));
        assert forall|k: int| 0 <= k < rgb@.len() implies (#[trigger] rgb@[k] as int) * 16777216
            <= words@[2 * ((k % 6144) / 3)] < (rgb@[k] as int + 1) * 16777216 by {
            assert(0 <= k % 6144 < 6144);
            assert(0 <= (k % 6144) / 3 < 2048);
            lemma_grey_level_is_top_byte(words@[2 * ((k % 6144) / 3)]);
        }
    }
    rgb
}

/// The bytes read four at a time as words, least significant byte first.
pub open spec fn little_endian_words(bytes: Seq<u8>) -> Seq<u32> {
    Seq::new(
        bytes.len() / 4,
        |i: int|
            (bytes[4 * i] + 256 * bytes[4 * i + 1] + 65536 * bytes[4 * i + 2] + 16777216 * bytes[4
                * i + 3]) as u32,
    )
}

/// The bytes read four at a time as words, most significant byte first.
pub open spec fn big_endian_words(bytes: Seq<u8>) -> Seq<u32> {
    Seq::new(
        bytes.len() / 4,
        |i: int|
            (16777216 * bytes[4 * i] + 65536 * bytes[4 * i + 1] + 256 * bytes[4 * i + 2] + bytes[4
                * i + 3]) as u32,
    )
}

/// The bytes read as words in the byte order of the machine that runs the
/// code (vstd's `endianness()`), the same order for every call.
pub open spec fn native_endian_words(bytes: Seq<u8>) -> Seq<u32> {
    match endianness() {
        Endian::Little => little_endian_words(bytes),
        Endian::Big => big_endian_words(bytes),
    }
}

/// `bytemuck::try_cast_slice::<u8, u32>`, copied into a `Vec`. The cast
/// reinterprets the bytes' memory as words in the machine's byte order
/// (`endianness()`: little-endian or big-endian, the only two that Rust's
/// targets use, and the same for every call); which of the two the machine
/// uses is left open. It fails when the length is not a multiple of
/// four; it also fails when the slice does not start on a four-byte
/// boundary, which depends on where the bytes lie in memory, so success is
/// not promised for any input.
#[verifier::external_body]
fn bytes_as_words(bytes: &[u8]) -> (words: Option<Vec<u32>>)
    ensures
        bytes@.len() % 4 != 0 ==> words is None,
        words matches Some(w) ==> (w@ == little_endian_words(bytes@) || w@ == big_endian_words(
            bytes@,
        )),
        words matches Some(w) ==> w@ == native_endian_words(bytes@),
{
    match bytemuck::try_cast_slice::<u8, u32>(bytes) {
        Ok(words) => Some(words.to_vec()),
        Err(_) => None,
    }
}

/// The picture of a key buffer read back from the GPU as raw bytes: the bytes
/// are cast to words in the machine's byte order, then drawn as
/// `grey_picture` does. `None` when the cast fails: when the length is not a
/// multiple of four, or the bytes are not aligned for words.
pub fn grey_picture_of_bytes(bytes: &[u8]) -> (rgb: Option<Vec<u8>>)
    requires
        bytes@.len() >= 4 * KEY_WORDS_NEEDED,
    ensures
        bytes@.len() % 4 != 0 ==> rgb is None,
        rgb matches Some(p) ==> (p@ == spec_grey_picture(little_endian_words(bytes@)) || p@
            == spec_grey_picture(big_endian_words(bytes@))),
        rgb matches Some(p) ==> p@ == spec_grey_picture(native_endian_words(bytes@)),
{
    match bytes_as_words(bytes) {
        Some(words) => Some(grey_picture(words.as_slice())),
        None => None,
    }
}

/// The picture in the program's own indexing: byte `3 * (j + 2048 * i) + c`
/// is the grey level of word `2 * j`, for every row `i < 100`, column
/// `j < 2048` and channel `c < 3`.
pub proof fn lemma_picture_pixels(words: Seq<u32>, i: int, j: int, c: int)
    requires
        0 <= i < 100,
        0 <= j < 2048,
        0 <= c < 3,
    ensures
        0 <= 3 * (j + 2048 * i) + c < 614400,
        spec_grey_picture(words)[3 * (j + 2048 * i) + c] == grey_level(words[2 * j]),
        (spec_grey_picture(words)[3 * (j + 2048 * i) + c] as int) * 16777216 <= words[2 * j] < (
        spec_grey_picture(words)[3 * (j + 2048 * i) + c] as int + 1) * 16777216,
{
    let k = 3 * (j + 2048 * i) + c;
    assert(k == 6144 * i + (3 * j + c));
    assert(0 <= k < 614400) by (nonlinear_arith)
        requires
            k == 6144 * i + (3 * j + c),
            0 <= i < 100,
            0 <= j < 2048,
            0 <= c < 3,
    ;
    lemma_row_offset(i, 3 * j + c);
    lemma_column_of(j, c);
    lemma_grey_level_is_top_byte(words[2 * j]);
}

/// The grey level of a key is its most significant byte: the one level `g`
/// with `g * 2^24 <= key < (g + 1) * 2^24`, the same for odd and even keys.
pub proof fn lemma_grey_level_is_top_byte(key: u32)
    ensures
        (grey_level(key) as int) * 16777216 <= key < (grey_level(key) as int + 1) * 16777216,
        grey_level(key) == (key >> 24u32) as u8,
{
    assert(key / 16777216 < 256);
    assert((key / 16777216) as u8 == key / 16777216);
    assert(key >> 24u32 == key / 16777216) by (bit_vector);
}

} // verus!
