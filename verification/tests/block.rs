use mandelbrot::block::{
    assemble, offset_of, size_of, toggle_bits, Field, FrameValues, ParameterBlock,
    BLOCK_ALIGNMENT, BLOCK_SIZE, TOGGLE_OFF, TOGGLE_ON,
};
use mandelbrot::view::{Event, Key, ViewState};

const FIELDS: [Field; 9] = [
    Field::Resolution,
    Field::ElapsedSeconds,
    Field::ZoomLevel,
    Field::Offset,
    Field::MousePosition,
    Field::IsMandelbrot,
    Field::RotateColors,
    Field::MaxIterations,
    Field::Padding,
];

fn sample_values() -> FrameValues {
    FrameValues {
        width: 1280.0f64.to_bits(),
        height: 720.0f64.to_bits(),
        elapsed_seconds: 12.625f64.to_bits(),
        zoom_level: (-37.5f64).to_bits(),
        offset_re: (-1.999_491_453_530_413f64).to_bits(),
        offset_im: 1.0e-9f64.to_bits(),
        mouse_x: 0.25f64.to_bits(),
        mouse_y: (-0.5f64).to_bits(),
    }
}

#[test]
fn block_size_is_a_multiple_of_sixteen() {
    assert_eq!(BLOCK_ALIGNMENT, 16);
    assert_eq!(BLOCK_SIZE, 80);
    assert_eq!(BLOCK_SIZE % BLOCK_ALIGNMENT, 0);
}

#[test]
fn fields_tile_the_block() {
    let mut next = 0;
    for field in FIELDS {
        assert_eq!(offset_of(field), next);
        next += size_of(field);
    }
    assert_eq!(next, BLOCK_SIZE);
}

#[test]
fn field_offsets() {
    let expected = [0, 16, 24, 32, 48, 64, 68, 72, 76];
    let sizes = [16, 8, 8, 16, 16, 4, 4, 4, 4];
    for (i, field) in FIELDS.into_iter().enumerate() {
        assert_eq!(offset_of(field), expected[i]);
        assert_eq!(size_of(field), sizes[i]);
    }
}

#[test]
fn toggles_are_zero_and_one() {
    assert_eq!(TOGGLE_ON, 1.0f32.to_bits());
    assert_eq!(TOGGLE_OFF, 0.0f32.to_bits());
    assert_eq!(toggle_bits(true), 1.0f32.to_bits());
    assert_eq!(toggle_bits(false), 0.0f32.to_bits());
}

#[test]
fn default_block() {
    let block = ParameterBlock::default();
    assert_eq!(f64::from_bits(block.width), 0.0);
    assert_eq!(f64::from_bits(block.height), 0.0);
    assert_eq!(f64::from_bits(block.elapsed_seconds), 0.0);
    assert_eq!(f64::from_bits(block.zoom_level), 8.0);
    assert_eq!(f64::from_bits(block.offset_re), (0.25 - 2.0) / 2.0);
    assert_eq!(f64::from_bits(block.offset_im), 0.0);
    assert_eq!(f64::from_bits(block.mouse_x), 0.0);
    assert_eq!(f64::from_bits(block.mouse_y), 0.0);
    assert_eq!(f32::from_bits(block.is_mandelbrot), 1.0);
    assert_eq!(f32::from_bits(block.rotate_colors), 1.0);
    assert_eq!(block.max_iterations, 1500);
    assert_eq!(block.padding, 0);
    assert_eq!(block, ParameterBlock::project(&ViewState::new(), &FrameValues::new()));
}

#[test]
fn projection_takes_every_field() {
    let mut view = ViewState::new();
    view.input(Event::Key { key: Key::Space, pressed: true, repeat: false, synthetic: false });
    view.input(Event::Key { key: Key::Comma, pressed: true, repeat: false, synthetic: false });
    let values = sample_values();
    let block = ParameterBlock::project(&view, &values);
    assert_eq!(f64::from_bits(block.width), 1280.0);
    assert_eq!(f64::from_bits(block.height), 720.0);
    assert_eq!(f64::from_bits(block.elapsed_seconds), 12.625);
    assert_eq!(f64::from_bits(block.zoom_level), -37.5);
    assert_eq!(f64::from_bits(block.offset_re), -1.999_491_453_530_413);
    assert_eq!(f64::from_bits(block.offset_im), 1.0e-9);
    assert_eq!(f64::from_bits(block.mouse_x), 0.25);
    assert_eq!(f64::from_bits(block.mouse_y), -0.5);
    assert_eq!(f32::from_bits(block.is_mandelbrot), 0.0);
    assert_eq!(f32::from_bits(block.rotate_colors), 1.0);
    assert_eq!(block.max_iterations, 1400);
    assert_eq!(block.padding, 0);
}

#[test]
fn words_in_layout_order() {
    let block = ParameterBlock::project(&ViewState::new(), &sample_values());
    let v = sample_values();
    assert_eq!(
        block.wide(),
        vec![
            v.width,
            v.height,
            v.elapsed_seconds,
            v.zoom_level,
            v.offset_re,
            v.offset_im,
            v.mouse_x,
            v.mouse_y
        ]
    );
    assert_eq!(block.narrow(), vec![TOGGLE_ON, TOGGLE_ON, 1500, 0]);
}

#[test]
fn bytes_hold_each_field_at_its_offset() {
    let mut view = ViewState::new();
    view.input(Event::Key { key: Key::KeyQ, pressed: true, repeat: false, synthetic: false });
    let block = ParameterBlock::project(&view, &sample_values());
    let bytes = block.to_bytes();
    assert_eq!(bytes.len(), BLOCK_SIZE);

    let double_at = |at: usize| {
        let mut raw = [0u8; 8];
        raw.copy_from_slice(&bytes[at..at + 8]);
        f64::from_ne_bytes(raw)
    };
    let single_at = |at: usize| {
        let mut raw = [0u8; 4];
        raw.copy_from_slice(&bytes[at..at + 4]);
        f32::from_ne_bytes(raw)
    };
    let word_at = |at: usize| {
        let mut raw = [0u8; 4];
        raw.copy_from_slice(&bytes[at..at + 4]);
        u32::from_ne_bytes(raw)
    };

    assert_eq!(double_at(offset_of(Field::Resolution)), 1280.0);
    assert_eq!(double_at(offset_of(Field::Resolution) + 8), 720.0);
    assert_eq!(double_at(offset_of(Field::ElapsedSeconds)), 12.625);
    assert_eq!(double_at(offset_of(Field::ZoomLevel)), -37.5);
    assert_eq!(double_at(offset_of(Field::Offset)), -1.999_491_453_530_413);
    assert_eq!(double_at(offset_of(Field::Offset) + 8), 1.0e-9);
    assert_eq!(double_at(offset_of(Field::MousePosition)), 0.25);
    assert_eq!(double_at(offset_of(Field::MousePosition) + 8), -0.5);
    assert_eq!(single_at(offset_of(Field::IsMandelbrot)), 1.0);
    assert_eq!(single_at(offset_of(Field::RotateColors)), 0.0);
    assert_eq!(word_at(offset_of(Field::MaxIterations)), 1500);
    assert_eq!(word_at(offset_of(Field::Padding)), 0);
}

#[test]
fn bytes_match_the_memory_image_of_the_record() {
    let block = ParameterBlock::default();
    let mut expected: Vec<u8> = Vec::new();
    for word in block.wide() {
        expected.extend_from_slice(&word.to_ne_bytes());
    }
    for word in block.narrow() {
        expected.extend_from_slice(&word.to_ne_bytes());
    }
    assert_eq!(block.to_bytes(), expected);
    assert_eq!(expected.len(), 80);
}

#[test]
fn assemble_joins_the_two_images() {
    assert_eq!(assemble(vec![1, 2, 3], &vec![4, 5]), vec![1, 2, 3, 4, 5]);
    assert_eq!(assemble(Vec::new(), &vec![9]), vec![9]);
    assert_eq!(assemble(vec![7], &Vec::new()), vec![7]);
    assert_eq!(assemble(Vec::new(), &Vec::new()), Vec::<u8>::new());
}

#[test]
fn every_word_stands_at_its_place_in_one_byte_order() {
    let mut view = ViewState::new();
    view.input(Event::Key { key: Key::Period, pressed: true, repeat: false, synthetic: false });
    let block = ParameterBlock::project(&view, &sample_values());
    let bytes = block.to_bytes();
    assert_eq!(bytes.len(), 80);
    for (i, word) in block.wide().into_iter().enumerate() {
        let image = &bytes[8 * i..8 * i + 8];
        assert!(image == word.to_le_bytes() || image == word.to_be_bytes(), "wide word {i}");
    }
    for (i, word) in block.narrow().into_iter().enumerate() {
        let image = &bytes[64 + 4 * i..64 + 4 * i + 4];
        assert!(image == word.to_le_bytes() || image == word.to_be_bytes(), "narrow word {i}");
    }
    assert_ne!(bytes, vec![0u8; 80]);
}
