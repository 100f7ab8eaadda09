use chip8::display::{draw_sprite, from_u8_gray};
use chip8::fault::Fault;
use chip8::machine::Chip8;

#[test]
fn clear_screen_blanks_whatever_was_drawn() {
    let mut m = Chip8::new();
    m.init_mem();
    for &(x, y, digit) in [(0u8, 0u8, 0u8), (13, 7, 0xA), (60, 27, 0xF), (5, 5, 8)].iter() {
        m.v[0] = x;
        m.v[1] = y;
        m.i = 5 * digit as u16;
        m.opcode = 0xD015;
        assert_eq!(m.run(), Ok(()));
    }
    assert!(m.gfx.iter().any(|&b| b != 0));
    m.opcode = 0x00E0;
    let pc = m.pc;
    assert_eq!(m.run(), Ok(()));
    assert!(m.gfx.iter().all(|&b| b == 0));
    assert_eq!(m.pc, pc + 2);

    let mut m = Chip8::new();
    m.gfx = [0xFF; 256];
    m.opcode = 0x00E0;
    assert_eq!(m.run(), Ok(()));
    assert_eq!(m.gfx, [0u8; 256]);
}

#[test]
fn glyph_zero_drawn_twice() {
    let mut m = Chip8::new();
    m.init_mem();
    m.i = 0;
    m.v[0] = 0;
    m.v[1] = 0;
    m.v[0xF] = 1;
    m.opcode = 0xD015;
    assert_eq!(m.run(), Ok(()));
    let mut expected = [0u8; 256];
    expected[0] = 0xF0;
    expected[8] = 0x90;
    expected[16] = 0x90;
    expected[24] = 0x90;
    expected[32] = 0xF0;
    assert_eq!(m.gfx, expected);
    assert_eq!(m.v[0xF], 0);
    assert_eq!(m.pc, 0x202);

    assert_eq!(m.run(), Ok(()));
    assert_eq!(m.gfx, [0u8; 256]);
    assert_eq!(m.v[0xF], 1);
    assert_eq!(m.pc, 0x204);
}

#[test]
fn sprite_straddles_two_bytes() {
    let mut m = Chip8::new();
    m.memory[0x300] = 0b1111_0011;
    m.i = 0x300;
    m.v[2] = 12;
    m.v[3] = 2;
    m.opcode = 0xD231;
    assert_eq!(m.run(), Ok(()));
    let mut expected = [0u8; 256];
    expected[17] = 0b0000_1111;
    expected[18] = 0b0011_0000;
    assert_eq!(m.gfx, expected);
    assert_eq!(m.v[0xF], 0);
}

#[test]
fn sprite_on_a_byte_boundary_touches_one_byte() {
    let mut m = Chip8::new();
    m.memory[0x300] = 0xA5;
    m.i = 0x300;
    m.v[2] = 16;
    m.v[3] = 1;
    m.gfx[11] = 0x0F;
    m.opcode = 0xD231;
    assert_eq!(m.run(), Ok(()));
    let mut expected = [0u8; 256];
    expected[10] = 0xA5;
    expected[11] = 0x0F;
    assert_eq!(m.gfx, expected);
    assert_eq!(m.v[0xF], 0);
}

#[test]
fn sprite_wraps_to_the_start_of_its_row() {
    let mut m = Chip8::new();
    m.memory[0x300] = 0xFF;
    m.i = 0x300;
    m.v[2] = 60;
    m.v[3] = 3;
    m.opcode = 0xD231;
    assert_eq!(m.run(), Ok(()));
    let mut expected = [0u8; 256];
    expected[31] = 0x0F;
    expected[24] = 0xF0;
    assert_eq!(m.gfx, expected);
}

#[test]
fn collision_is_that_of_the_last_row() {
    let mut m = Chip8::new();
    m.memory[0x300] = 0x80;
    m.memory[0x301] = 0x80;
    m.i = 0x300;
    m.gfx[0] = 0x80;
    m.opcode = 0xD012;
    assert_eq!(m.run(), Ok(()));
    assert_eq!((m.gfx[0], m.gfx[8], m.v[0xF]), (0x00, 0x80, 0));

    let mut m = Chip8::new();
    m.memory[0x300] = 0x80;
    m.memory[0x301] = 0x80;
    m.i = 0x300;
    m.gfx[8] = 0x80;
    m.opcode = 0xD012;
    assert_eq!(m.run(), Ok(()));
    assert_eq!((m.gfx[0], m.gfx[8], m.v[0xF]), (0x80, 0x00, 1));
}

#[test]
fn collision_in_the_second_byte() {
    let mut m = Chip8::new();
    m.memory[0x300] = 0x01;
    m.i = 0x300;
    m.v[0] = 1;
    m.gfx[1] = 0x80;
    m.opcode = 0xD011;
    assert_eq!(m.run(), Ok(()));
    assert_eq!((m.gfx[0], m.gfx[1], m.v[0xF]), (0x00, 0x00, 1));
}

#[test]
fn lighting_dark_pixels_is_no_collision() {
    let mut m = Chip8::new();
    m.memory[0x300] = 0x0F;
    m.i = 0x300;
    m.gfx[0] = 0xF0;
    m.v[0xF] = 1;
    m.opcode = 0xD011;
    assert_eq!(m.run(), Ok(()));
    assert_eq!((m.gfx[0], m.v[0xF]), (0xFF, 0));
}

#[test]
fn empty_sprite_draws_nothing_and_keeps_the_flag() {
    let mut m = Chip8::new();
    m.gfx[3] = 0x55;
    m.v[0] = 200;
    m.v[1] = 200;
    m.v[0xF] = 7;
    m.i = 0xFFFF;
    m.opcode = 0xD010;
    let before = m.clone();
    assert_eq!(m.run(), Ok(()));
    let mut expected = before;
    expected.pc = 0x202;
    assert_eq!(m, expected);
}

#[test]
fn coordinates_come_from_the_registers_before_the_flag_changes() {
    let mut m = Chip8::new();
    m.memory[0x300] = 0x80;
    m.memory[0x301] = 0x80;
    m.i = 0x300;
    m.v[0xF] = 8;
    m.gfx[1] = 0x80;
    m.opcode = 0xDF02;
    assert_eq!(m.run(), Ok(()));
    let mut expected = [0u8; 256];
    expected[9] = 0x80;
    assert_eq!(m.gfx, expected);
    assert_eq!(m.v[0xF], 0);
}

#[test]
fn sprite_below_the_display_is_refused() {
    let mut m = Chip8::new();
    m.init_mem();
    m.i = 0;
    m.v[0] = 0;
    m.v[1] = 28;
    m.opcode = 0xD015;
    let before = m.clone();
    assert_eq!(m.run(), Err(Fault::OutOfBounds));
    assert_eq!(m, before);

    m.v[1] = 27;
    assert_eq!(m.run(), Ok(()));
    assert_eq!(m.gfx[8 * 31], 0xF0);
}

#[test]
fn sprite_past_memory_is_refused() {
    let mut m = Chip8::new();
    m.i = 4092;
    m.opcode = 0xD015;
    let before = m.clone();
    assert_eq!(m.run(), Err(Fault::OutOfBounds));
    assert_eq!(m, before);
    m.i = 4091;
    assert_eq!(m.run(), Ok(()));
}

#[test]
fn column_past_the_row_runs_into_the_rows_below() {
    let mut m = Chip8::new();
    m.memory[0x300] = 0xFF;
    m.i = 0x300;
    m.v[0] = 64;
    m.v[1] = 0;
    m.opcode = 0xD011;
    assert_eq!(m.run(), Ok(()));
    let mut expected = [0u8; 256];
    expected[8] = 0xFF;
    assert_eq!(m.gfx, expected);

    let mut m = Chip8::new();
    m.memory[0x300] = 0xFF;
    m.i = 0x300;
    m.v[0] = 64;
    m.v[1] = 31;
    m.opcode = 0xD011;
    assert_eq!(m.run(), Err(Fault::OutOfBounds));
}

#[test]
fn draw_sprite_on_plain_arrays() {
    let mut gfx = [0u8; 256];
    let mut memory = [0u8; 4096];
    memory[10] = 0xC0;
    memory[11] = 0x30;
    assert_eq!(draw_sprite(&mut gfx, &memory, 10, 2, 2, 1), Ok(Some(false)));
    assert_eq!((gfx[8], gfx[16]), (0x30, 0x0C));
    assert_eq!(draw_sprite(&mut gfx, &memory, 10, 2, 2, 1), Ok(Some(true)));
    assert_eq!(gfx, [0u8; 256]);
    assert_eq!(draw_sprite(&mut gfx, &memory, 10, 0, 2, 1), Ok(None));
    assert_eq!(draw_sprite(&mut gfx, &memory, 10, 2, 2, 31), Err(Fault::OutOfBounds));
    assert_eq!(draw_sprite(&mut gfx, &memory, 4095, 2, 0, 0), Err(Fault::OutOfBounds));
    assert_eq!(gfx, [0u8; 256]);
}

#[test]
fn gray_repeats_the_level_in_each_channel() {
    assert_eq!(from_u8_gray(0x00), 0x0000_0000);
    assert_eq!(from_u8_gray(0xFF), 0x00FF_FFFF);
    assert_eq!(from_u8_gray(0x12), 0x0012_1212);
    assert_eq!(from_u8_gray(0x80), 0x0080_8080);
}

#[test]
fn blank_display_is_all_black() {
    let m = Chip8::new();
    let buf = m.color_buffer();
    assert_eq!(buf.len(), 64 * 32);
    assert!(buf.iter().all(|&c| c == 0));
}

#[test]
fn color_buffer_reads_the_highest_bit_first() {
    let mut m = Chip8::new();
    m.gfx[0] = 0b1000_0001;
    m.gfx[1] = 0b0100_0000;
    m.gfx[8] = 0b0000_0010;
    m.gfx[255] = 0b0000_0001;
    let buf = m.color_buffer();
    assert_eq!(buf.len(), 2048);
    for p in 0..2048usize {
        let lit = p == 0 || p == 7 || p == 9 || p == 64 + 6 || p == 2047;
        assert_eq!(buf[p], if lit { 0x00FF_FFFF } else { 0 });
    }
}

#[test]
fn color_buffer_shows_a_drawn_glyph() {
    let mut m = Chip8::new();
    m.init_mem();
    m.i = 5;
    m.v[0] = 10;
    m.v[1] = 4;
    m.opcode = 0xD015;
    assert_eq!(m.run(), Ok(()));
    let buf = m.color_buffer();
    let rows: [u8; 5] = [0x20, 0x60, 0x20, 0x20, 0x70];
    for y in 0..32usize {
        for x in 0..64usize {
            let inside = (4..9).contains(&y) && (10..18).contains(&x);
            let lit = inside && (rows[y - 4] >> (7 - (x - 10))) & 1 == 1;
            assert_eq!(buf[64 * y + x], if lit { 0x00FF_FFFF } else { 0 });
        }
    }
}
