//! The parameter block: the fixed-layout record handed once per frame to the
//! per-pixel evaluator.
//!
//! Real-valued fields are carried as the bit patterns of their IEEE 754
//! encoding: 64 bits for a double-precision field, 32 bits for a
//! single-precision one.  The block is laid out as eight double-precision
//! words followed by four 32-bit words, each in the machine's own byte
//! order.

use crate::double::{DEFAULT_OFFSET_RE, DEFAULT_ZOOM_LEVEL, ZERO};
use crate::view::ViewState;
use vstd::prelude::*;

verus! {

/// Size of the block in bytes.
pub const BLOCK_SIZE: usize = 80;

/// Alignment that the evaluator asks of the block's size.
pub const BLOCK_ALIGNMENT: usize = 16;

/// Bit pattern of a single-precision one: a toggle that is on.
pub const TOGGLE_ON: u32 = 0x3F80_0000;

/// Bit pattern of a single-precision zero: a toggle that is off.
pub const TOGGLE_OFF: u32 = 0;

/// The memory image of a 64-bit word: its eight bytes, lowest first on a
/// little-endian machine (`little`), highest first on a big-endian one.
pub open spec fn wide_word_image(word: u64, little: bool) -> Seq<u8> {
    if little {
        vstd::bytes::spec_u64_to_le_bytes(word)
    } else {
        vstd::bytes::spec_u64_to_le_bytes(word).reverse()
    }
}

/// The memory image of a 32-bit word: its four bytes, lowest first on a
/// little-endian machine (`little`), highest first on a big-endian one.
pub open spec fn narrow_word_image(word: u32, little: bool) -> Seq<u8> {
    if little {
        vstd::bytes::spec_u32_to_le_bytes(word)
    } else {
        vstd::bytes::spec_u32_to_le_bytes(word).reverse()
    }
}

/// Whether `bytes` is the memory image of `words`: eight bytes for each word,
/// the image of each word at eight times its index.
pub open spec fn is_wide_image(bytes: Seq<u8>, words: Seq<u64>, little: bool) -> bool {
    &&& bytes.len() == 8 * words.len()
    &&& forall|i: int|
        0 <= i < words.len() ==> bytes.subrange(8 * i, 8 * i + 8) == wide_word_image(
            #[trigger] words[i],
            little,
        )
}

/// Whether `bytes` is the memory image of `words`: four bytes for each word,
/// the image of each word at four times its index.
pub open spec fn is_narrow_image(bytes: Seq<u8>, words: Seq<u32>, little: bool) -> bool {
    &&& bytes.len() == 4 * words.len()
    &&& forall|i: int|
        0 <= i < words.len() ==> bytes.subrange(4 * i, 4 * i + 4) == narrow_word_image(
            #[trigger] words[i],
            little,
        )
}

/// The fields of the block, in layout order.
#[derive(Clone, Copy, Debug, PartialEq, Eq, Structural)]
pub enum Field {
    /// Width and height of the window, two doubles.
    Resolution,
    /// Seconds since the session began, a double.
    ElapsedSeconds,
    /// Zoom level, a double.
    ZoomLevel,
    /// Centre of the view in the complex plane, two doubles.
    Offset,
    /// Normalized cursor position, two doubles.
    MousePosition,
    /// Mandelbrot toggle, a single.
    IsMandelbrot,
    /// Colour rotation toggle, a single.
    RotateColors,
    /// Iteration budget, an unsigned 32-bit integer.
    MaxIterations,
    /// Unused, an unsigned 32-bit integer.
    Padding,
}

/// Position of a field in layout order.
pub open spec fn field_index(field: Field) -> int {
    match field {
        Field::Resolution => 0,
        Field::ElapsedSeconds => 1,
        Field::ZoomLevel => 2,
        Field::Offset => 3,
        Field::MousePosition => 4,
        Field::IsMandelbrot => 5,
        Field::RotateColors => 6,
        Field::MaxIterations => 7,
        Field::Padding => 8,
    }
}

/// Byte offset of a field from the start of the block.
pub open spec fn field_offset(field: Field) -> int {
    match field {
        Field::Resolution => 0,
        Field::ElapsedSeconds => 16,
        Field::ZoomLevel => 24,
        Field::Offset => 32,
        Field::MousePosition => 48,
        Field::IsMandelbrot => 64,
        Field::RotateColors => 68,
        Field::MaxIterations => 72,
        Field::Padding => 76,
    }
}

/// Size in bytes of one scalar of a field.
pub open spec fn field_scalar_size(field: Field) -> int {
    match field {
        Field::Resolution | Field::ElapsedSeconds | Field::ZoomLevel | Field::Offset
        | Field::MousePosition => 8,
        _ => 4,
    }
}

/// Number of scalars in a field.
pub open spec fn field_scalars(field: Field) -> int {
    match field {
        Field::Resolution | Field::Offset | Field::MousePosition => 2,
        _ => 1,
    }
}

/// Size in bytes of a field.
pub open spec fn field_size(field: Field) -> int {
    field_scalars(field) * field_scalar_size(field)
}

/// Byte offset of a field from the start of the block.
pub fn offset_of(field: Field) -> (r: usize)
    ensures
        r == field_offset(field),
        r + field_size(field) <= BLOCK_SIZE,
{
    match field {
        Field::Resolution => 0,
        Field::ElapsedSeconds => 16,
        Field::ZoomLevel => 24,
        Field::Offset => 32,
        Field::MousePosition => 48,
        Field::IsMandelbrot => 64,
        Field::RotateColors => 68,
        Field::MaxIterations => 72,
        Field::Padding => 76,
    }
}

/// Size in bytes of a field.
pub fn size_of(field: Field) -> (r: usize)
    ensures
        r == field_size(field),
{
    match field {
        Field::Resolution | Field::Offset | Field::MousePosition => 16,
        Field::ElapsedSeconds | Field::ZoomLevel => 8,
        _ => 4,
    }
}

/// The wire value of a toggle.
pub fn toggle_bits(on: bool) -> (bits: u32)
    ensures
        bits == (if on { TOGGLE_ON } else { TOGGLE_OFF }),
{
    if on {
        TOGGLE_ON
    } else {
        TOGGLE_OFF
    }
}

/// The real-valued part of the view and of the frame, each value as the bit
/// pattern of a double.
#[derive(Clone, Copy, Debug, PartialEq, Eq, Structural)]
pub struct FrameValues {
    /// Width of the window.
    pub width: u64,
    /// Height of the window.
    pub height: u64,
    /// Seconds since the session began.
    pub elapsed_seconds: u64,
    /// Zoom level.
    pub zoom_level: u64,
    /// Real part of the centre of the view.
    pub offset_re: u64,
    /// Imaginary part of the centre of the view.
    pub offset_im: u64,
    /// Normalized horizontal cursor position.
    pub mouse_x: u64,
    /// Normalized vertical cursor position.
    pub mouse_y: u64,
}

impl FrameValues {
    /// The real values of a fresh or reset view, before the first frame
    /// stamps the resolution and the elapsed time.
    pub open spec fn initial() -> FrameValues {
        FrameValues {
            width: ZERO,
            height: ZERO,
            elapsed_seconds: ZERO,
            zoom_level: DEFAULT_ZOOM_LEVEL,
            offset_re: DEFAULT_OFFSET_RE,
            offset_im: ZERO,
            mouse_x: ZERO,
            mouse_y: ZERO,
        }
    }

    /// The real values of a fresh or reset view.
    pub fn new() -> (values: FrameValues)
        ensures
            values == Self::initial(),
    {
        FrameValues {
            width: ZERO,
            height: ZERO,
            elapsed_seconds: ZERO,
            zoom_level: DEFAULT_ZOOM_LEVEL,
            offset_re: DEFAULT_OFFSET_RE,
            offset_im: ZERO,
            mouse_x: ZERO,
            mouse_y: ZERO,
        }
    }
}

/// One frame's parameters.
#[derive(Clone, Copy, Debug, PartialEq, Eq, Structural)]
pub struct ParameterBlock {
    pub width: u64,
    pub height: u64,
    pub elapsed_seconds: u64,
    pub zoom_level: u64,
    pub offset_re: u64,
    pub offset_im: u64,
    pub mouse_x: u64,
    pub mouse_y: u64,
    pub is_mandelbrot: u32,
    pub rotate_colors: u32,
    pub max_iterations: u32,
    pub padding: u32,
}

impl ParameterBlock {
    /// The block that shows `view` with the real values `values`.
    pub open spec fn projection(view: ViewState, values: FrameValues) -> ParameterBlock {
        ParameterBlock {
            width: values.width,
            height: values.height,
            elapsed_seconds: values.elapsed_seconds,
            zoom_level: values.zoom_level,
            offset_re: values.offset_re,
            offset_im: values.offset_im,
            mouse_x: values.mouse_x,
            mouse_y: values.mouse_y,
            is_mandelbrot: if view.is_mandelbrot { TOGGLE_ON } else { TOGGLE_OFF },
            rotate_colors: if view.rotate_colors { TOGGLE_ON } else { TOGGLE_OFF },
            max_iterations: view.max_iterations,
            padding: 0,
        }
    }

    /// The double-precision words of the block, in layout order.
    pub open spec fn wide_words(self) -> Seq<u64> {
        seq![
            self.width,
            self.height,
            self.elapsed_seconds,
            self.zoom_level,
            self.offset_re,
            self.offset_im,
            self.mouse_x,
            self.mouse_y,
        ]
    }

    /// The 32-bit words of the block, in layout order.
    pub open spec fn narrow_words(self) -> Seq<u32> {
        seq![self.is_mandelbrot, self.rotate_colors, self.max_iterations, self.padding]
    }

    /// Projects the view and the frame's real values into a block.
    pub fn project(view: &ViewState, values: &FrameValues) -> (block: ParameterBlock)
        ensures
            block == Self::projection(*view, *values),
    {
        ParameterBlock {
            width: values.width,
            height: values.height,
            elapsed_seconds: values.elapsed_seconds,
            zoom_level: values.zoom_level,
            offset_re: values.offset_re,
            offset_im: values.offset_im,
            mouse_x: values.mouse_x,
            mouse_y: values.mouse_y,
            is_mandelbrot: toggle_bits(view.is_mandelbrot),
            rotate_colors: toggle_bits(view.rotate_colors),
            max_iterations: view.max_iterations,
            padding: 0,
        }
    }

    /// The double-precision words of the block, in layout order.
    pub fn wide(&self) -> (words: Vec<u64>)
        ensures
            words@ == self.wide_words(),
    {
        let mut words: Vec<u64> = Vec::new();
        words.push(self.width);
        words.push(self.height);
        words.push(self.elapsed_seconds);
        words.push(self.zoom_level);
        words.push(self.offset_re);
        words.push(self.offset_im);
        words.push(self.mouse_x);
        words.push(self.mouse_y);
        assert(words@ =~= self.wide_words());
        words
    }

    /// The 32-bit words of the block, in layout order.
    pub fn narrow(&self) -> (words: Vec<u32>)
        ensures
            words@ == self.narrow_words(),
    {
        let mut words: Vec<u32> = Vec::new();
        words.push(self.is_mandelbrot);
        words.push(self.rotate_colors);
        words.push(self.max_iterations);
        words.push(self.padding);
        assert(words@ =~= self.narrow_words());
        words
    }

    /// The block as the bytes that the evaluator reads: the memory image of
    /// the wide words in the first 64 bytes, that of the narrow words in the
    /// last 16.  Each word stands at its place in the machine's byte order,
    /// lowest byte first or last.
    pub fn to_bytes(&self) -> (bytes: Vec<u8>)
        ensures
            bytes@.len() == BLOCK_SIZE,
            is_wide_image(bytes@.subrange(0, 64), self.wide_words(), true) || is_wide_image(
                bytes@.subrange(0, 64),
                self.wide_words(),
                false,
            ),
            is_narrow_image(bytes@.subrange(64, 80), self.narrow_words(), true) || is_narrow_image(
                bytes@.subrange(64, 80),
                self.narrow_words(),
                false,
            ),
    {
        let wide = wide_image(&self.wide());
        let narrow = narrow_image(&self.narrow());
        let bytes = assemble(wide, &narrow);
        proof {
            assert(bytes@.subrange(0, 64) =~= wide@);
            assert(bytes@.subrange(64, 80) =~= narrow@);
        }
        bytes
    }
}

impl Default for ParameterBlock {
    /// The block of a fresh view.
    fn default() -> (block: ParameterBlock)
        ensures
            block == ParameterBlock::projection(ViewState::initial(), FrameValues::initial()),
    {
        ParameterBlock::project(&ViewState::new(), &FrameValues::new())
    }
}

/// Joins the memory image of the wide words and that of the narrow words into
/// the image of the block: the first directly followed by the second.
pub fn assemble(wide: Vec<u8>, narrow: &Vec<u8>) -> (bytes: Vec<u8>)
    ensures
        bytes@ == wide@ + narrow@,
{
    let mut bytes = wide;
    bytes.extend_from_slice(narrow.as_slice());
    bytes
}

/// `bytemuck::cast_slice` from 64-bit words to bytes.  Trusted: the result
/// is the words' memory read as bytes, so it has eight bytes for each word,
/// and they are the word's bytes in the machine's byte order, which is either
/// little-endian or big-endian.  A cast to bytes neither raises the alignment
/// nor leaves a remainder, so the call does not panic.
#[verifier::external_body]
fn wide_image(words: &Vec<u64>) -> (bytes: Vec<u8>)
    ensures
        is_wide_image(bytes@, words@, true) || is_wide_image(bytes@, words@, false),
{
    bytemuck::cast_slice::<u64, u8>(words.as_slice()).to_vec()
}

/// `bytemuck::cast_slice` from 32-bit words to bytes.  Trusted: the result
/// is the words' memory read as bytes, so it has four bytes for each word,
/// and they are the word's bytes in the machine's byte order, which is either
/// little-endian or big-endian.  A cast to bytes neither raises the alignment
/// nor leaves a remainder, so the call does not panic.
#[verifier::external_body]
fn narrow_image(words: &Vec<u32>) -> (bytes: Vec<u8>)
    ensures
        is_narrow_image(bytes@, words@, true) || is_narrow_image(bytes@, words@, false),
{
    bytemuck::cast_slice::<u32, u8>(words.as_slice()).to_vec()
}

/// In the bytes of a block every field stands at its offset: a scalar of a
/// field of doubles at the field's offset (the second of two eight bytes
/// further), a 32-bit field at its own.
pub proof fn lemma_image_holds_fields(
    bytes: Seq<u8>,
    block: ParameterBlock,
    wide_little: bool,
    narrow_little: bool,
)
    requires
        bytes.len() == BLOCK_SIZE,
        is_wide_image(bytes.subrange(0, 64), block.wide_words(), wide_little),
        is_narrow_image(bytes.subrange(64, 80), block.narrow_words(), narrow_little),
    ensures
        forall|i: int|
            0 <= i < 8 ==> bytes.subrange(8 * i, 8 * i + 8) == wide_word_image(
                #[trigger] block.wide_words()[i],
                wide_little,
            ),
        forall|i: int|
            0 <= i < 4 ==> bytes.subrange(64 + 4 * i, 64 + 4 * i + 4) == narrow_word_image(
                #[trigger] block.narrow_words()[i],
                narrow_little,
            ),
        bytes.subrange(field_offset(Field::Resolution), field_offset(Field::Resolution) + 8)
            == wide_word_image(block.width, wide_little),
        bytes.subrange(field_offset(Field::Resolution) + 8, field_offset(Field::Resolution) + 16)
            == wide_word_image(block.height, wide_little),
        bytes.subrange(
            field_offset(Field::ElapsedSeconds),
            field_offset(Field::ElapsedSeconds) + 8,
        ) == wide_word_image(block.elapsed_seconds, wide_little),
        bytes.subrange(field_offset(Field::ZoomLevel), field_offset(Field::ZoomLevel) + 8)
            == wide_word_image(block.zoom_level, wide_little),
        bytes.subrange(field_offset(Field::Offset), field_offset(Field::Offset) + 8)
            == wide_word_image(block.offset_re, wide_little),
        bytes.subrange(field_offset(Field::Offset) + 8, field_offset(Field::Offset) + 16)
            == wide_word_image(block.offset_im, wide_little),
        bytes.subrange(field_offset(Field::MousePosition), field_offset(Field::MousePosition) + 8)
            == wide_word_image(block.mouse_x, wide_little),
        bytes.subrange(
            field_offset(Field::MousePosition) + 8,
            field_offset(Field::MousePosition) + 16,
        ) == wide_word_image(block.mouse_y, wide_little),
        bytes.subrange(field_offset(Field::IsMandelbrot), field_offset(Field::IsMandelbrot) + 4)
            == narrow_word_image(block.is_mandelbrot, narrow_little),
        bytes.subrange(field_offset(Field::RotateColors), field_offset(Field::RotateColors) + 4)
            == narrow_word_image(block.rotate_colors, narrow_little),
        bytes.subrange(field_offset(Field::MaxIterations), field_offset(Field::MaxIterations) + 4)
            == narrow_word_image(block.max_iterations, narrow_little),
        bytes.subrange(field_offset(Field::Padding), field_offset(Field::Padding) + 4)
            == narrow_word_image(block.padding, narrow_little),
{
    let wide = bytes.subrange(0, 64);
    let narrow = bytes.subrange(64, 80);
    assert forall|i: int| 0 <= i < 8 implies bytes.subrange(8 * i, 8 * i + 8) == wide_word_image(
        #[trigger] block.wide_words()[i],
        wide_little,
    ) by {
        assert(wide.subrange(8 * i, 8 * i + 8) =~= bytes.subrange(8 * i, 8 * i + 8));
    }
    assert forall|i: int| 0 <= i < 4 implies bytes.subrange(64 + 4 * i, 64 + 4 * i + 4)
        == narrow_word_image(#[trigger] block.narrow_words()[i], narrow_little) by {
        assert(narrow.subrange(4 * i, 4 * i + 4) =~= bytes.subrange(64 + 4 * i, 64 + 4 * i + 4));
    }
    let w = block.wide_words();
    let n = block.narrow_words();
    assert(w[0] == block.width && w[1] == block.height && w[2] == block.elapsed_seconds && w[3]
        == block.zoom_level && w[4] == block.offset_re && w[5] == block.offset_im && w[6]
        == block.mouse_x && w[7] == block.mouse_y);
    assert(n[0] == block.is_mandelbrot && n[1] == block.rotate_colors && n[2]
        == block.max_iterations && n[3] == block.padding);
}

/// The size of the block is a whole number of alignment units.
pub proof fn lemma_block_size_aligned()
    ensures
        BLOCK_SIZE % BLOCK_ALIGNMENT == 0,
        BLOCK_SIZE == 8 * 8 + 4 * 4,
{
}

/// The fields tile the block: the first starts at zero, each starts where the
/// one before it ends, and the last ends at the end of the block.
pub proof fn lemma_fields_tile_block(a: Field, b: Field)
    ensures
        field_index(a) == 0 ==> field_offset(a) == 0,
        field_index(b) == field_index(a) + 1 ==> field_offset(b) == field_offset(a) + field_size(a),
        field_index(a) == 8 ==> field_offset(a) + field_size(a) == BLOCK_SIZE,
{
}

/// Every field starts at a multiple of the size of its scalars.
pub proof fn lemma_fields_naturally_aligned(field: Field)
    ensures
        field_offset(field) % field_scalar_size(field) == 0,
{
}

/// The wide words come first in the layout and the narrow words follow them:
/// a field of doubles starts at eight times its position among the wide
/// words, a 32-bit field at 64 plus four times its position among the narrow
/// words.
pub proof fn lemma_words_follow_layout(block: ParameterBlock)
    ensures
        block.wide_words().len() * 8 + block.narrow_words().len() * 4 == BLOCK_SIZE,
        block.wide_words()[field_offset(Field::Resolution) / 8] == block.width,
        block.wide_words()[field_offset(Field::Resolution) / 8 + 1] == block.height,
        block.wide_words()[field_offset(Field::ElapsedSeconds) / 8] == block.elapsed_seconds,
        block.wide_words()[field_offset(Field::ZoomLevel) / 8] == block.zoom_level,
        block.wide_words()[field_offset(Field::Offset) / 8] == block.offset_re,
        block.wide_words()[field_offset(Field::Offset) / 8 + 1] == block.offset_im,
        block.wide_words()[field_offset(Field::MousePosition) / 8] == block.mouse_x,
        block.wide_words()[field_offset(Field::MousePosition) / 8 + 1] == block.mouse_y,
        block.narrow_words()[(field_offset(Field::IsMandelbrot) - 64) / 4] == block.is_mandelbrot,
        block.narrow_words()[(field_offset(Field::RotateColors) - 64) / 4] == block.rotate_colors,
        block.narrow_words()[(field_offset(Field::MaxIterations) - 64) / 4]
            == block.max_iterations,
        block.narrow_words()[(field_offset(Field::Padding) - 64) / 4] == block.padding,
{
}

} // verus!
