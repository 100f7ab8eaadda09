use chip8::fault::Fault;
use chip8::font::glyph_rows;
use chip8::machine::{Chip8, HEIGHT, PROGRAM_START, WIDTH};

#[test]
fn new_machine_is_zeroed() {
    let m = Chip8::new();
    assert!(m.memory.iter().all(|&b| b == 0));
    assert!(m.v.iter().all(|&b| b == 0));
    assert!(m.stack.iter().all(|&b| b == 0));
    assert!(m.gfx.iter().all(|&b| b == 0));
    assert_eq!(m.delay_timer, 0);
    assert_eq!(m.sound_timer, 0);
    assert_eq!(m.opcode, 0);
    assert_eq!(m.i, 0);
    assert_eq!(m.pc, 0x200);
    assert_eq!(m.sp, -1);
}

#[test]
fn constants_describe_the_machine() {
    let m = Chip8::new();
    assert_eq!(m.memory.len(), 4096);
    assert_eq!(m.gfx.len(), WIDTH / 8 * HEIGHT);
    assert_eq!(m.v.len(), 16);
    assert_eq!(m.stack.len(), 16);
    assert_eq!(m.pc as usize, PROGRAM_START);
    assert_eq!(m.color_buffer().len(), WIDTH * HEIGHT);
}

#[test]
fn font_is_installed_from_address_zero() {
    let mut m = Chip8::new();
    m.init_mem();
    assert_eq!(&m.memory[0..5], &[0xF0, 0x90, 0x90, 0x90, 0xF0]);
    assert_eq!(&m.memory[5..10], &[0x20, 0x60, 0x20, 0x20, 0x70]);
    assert_eq!(&m.memory[10..15], &[0xF0, 0x10, 0xF0, 0x80, 0xF0]);
    assert_eq!(&m.memory[15..20], &[0xF0, 0x10, 0xF0, 0x10, 0xF0]);
    assert_eq!(&m.memory[20..25], &[0x90, 0x90, 0xF0, 0x10, 0x10]);
    assert_eq!(&m.memory[25..30], &[0xF0, 0x80, 0xF0, 0x10, 0xF0]);
    assert_eq!(&m.memory[30..35], &[0xF0, 0x80, 0xF0, 0x90, 0xF0]);
    assert_eq!(&m.memory[35..40], &[0xF0, 0x10, 0x20, 0x40, 0x40]);
    assert_eq!(&m.memory[40..45], &[0xF0, 0x90, 0xF0, 0x90, 0xF0]);
    assert_eq!(&m.memory[45..50], &[0xF0, 0x90, 0xF0, 0x10, 0xF0]);
    assert_eq!(&m.memory[50..55], &[0xF0, 0x90, 0xF0, 0x90, 0x90]);
    assert_eq!(&m.memory[55..60], &[0xE0, 0x90, 0xE0, 0x90, 0xE0]);
    assert_eq!(&m.memory[60..65], &[0xF0, 0x80, 0x80, 0x80, 0xF0]);
    assert_eq!(&m.memory[65..70], &[0xE0, 0x90, 0x90, 0x90, 0xE0]);
    assert_eq!(&m.memory[70..75], &[0xF0, 0x80, 0xF0, 0x80, 0xF0]);
    assert_eq!(&m.memory[75..80], &[0xF0, 0x80, 0xF0, 0x80, 0x80]);
}

#[test]
fn font_leaves_the_rest_alone() {
    let mut m = Chip8::new();
    for a in 0..4096usize {
        m.memory[a] = (a % 251) as u8 + 1;
    }
    m.v[3] = 9;
    m.i = 0x123;
    let before = m.clone();
    m.init_mem();
    assert_eq!(&m.memory[80..], &before.memory[80..]);
    let mut expected = before;
    expected.memory[..80].copy_from_slice(&m.memory[..80]);
    assert_eq!(m, expected);
}

#[test]
fn glyph_rows_agree_with_installed_font() {
    let mut m = Chip8::new();
    m.init_mem();
    for d in 0..16usize {
        assert_eq!(&glyph_rows(d)[..], &m.memory[5 * d..5 * d + 5]);
    }
    assert_eq!(glyph_rows(0x7), [0xF0, 0x10, 0x20, 0x40, 0x40]);
}

#[test]
fn rom_is_copied_to_the_load_address() {
    let mut m = Chip8::new();
    m.init_mem();
    let program: Vec<u8> = vec![0x60, 0x12, 0xA2, 0x34, 0xFF];
    assert_eq!(m.load_rom(&program), Ok(()));
    assert_eq!(&m.memory[0x200..0x205], &[0x60, 0x12, 0xA2, 0x34, 0xFF]);
    assert_eq!(m.memory[0x1FF], 0);
    assert_eq!(m.memory[0x205], 0);
    assert_eq!(&m.memory[0..5], &[0xF0, 0x90, 0x90, 0x90, 0xF0]);
    assert_eq!(m.pc, 0x200);
}

#[test]
fn rom_may_fill_memory_to_the_end() {
    let mut m = Chip8::new();
    let program: Vec<u8> = (0..3584usize).map(|k| (k % 256) as u8).collect();
    assert_eq!(m.load_rom(&program), Ok(()));
    assert_eq!(m.memory[0x200], 0);
    assert_eq!(m.memory[0x201], 1);
    assert_eq!(m.memory[4095], (3583 % 256) as u8);
}

#[test]
fn empty_rom_changes_nothing() {
    let mut m = Chip8::new();
    m.init_mem();
    let before = m.clone();
    assert_eq!(m.load_rom(&Vec::new()), Ok(()));
    assert_eq!(m, before);
}

#[test]
fn oversized_rom_is_refused() {
    let mut m = Chip8::new();
    m.init_mem();
    let before = m.clone();
    let program: Vec<u8> = vec![0xAB; 3585];
    assert_eq!(m.load_rom(&program), Err(Fault::OutOfBounds));
    assert_eq!(m, before);
}

#[test]
fn opcode_is_fetched_big_endian() {
    let mut m = Chip8::new();
    let program: Vec<u8> = vec![0x12, 0x34, 0xAB, 0xCD];
    assert_eq!(m.load_rom(&program), Ok(()));
    assert_eq!(m.load_opcode(), Ok(()));
    assert_eq!(m.opcode, 0x1234);
    assert_eq!(m.pc, 0x200);
    m.pc = 0x202;
    assert_eq!(m.load_opcode(), Ok(()));
    assert_eq!(m.opcode, 0xABCD);
    assert_eq!(m.pc, 0x202);
}

#[test]
fn opcode_fetch_at_the_last_word() {
    let mut m = Chip8::new();
    m.memory[4094] = 0xFF;
    m.memory[4095] = 0x01;
    m.pc = 4094;
    assert_eq!(m.load_opcode(), Ok(()));
    assert_eq!(m.opcode, 0xFF01);
}

#[test]
fn opcode_fetch_past_memory_is_refused() {
    let mut m = Chip8::new();
    m.opcode = 0x1111;
    m.pc = 4095;
    let before = m.clone();
    assert_eq!(m.load_opcode(), Err(Fault::OutOfBounds));
    assert_eq!(m, before);
    m.pc = 0xFFFF;
    assert_eq!(m.load_opcode(), Err(Fault::OutOfBounds));
}

#[test]
fn fetch_then_run_executes_a_program() {
    let mut m = Chip8::new();
    m.init_mem();
    let program: Vec<u8> = vec![0x6A, 0x05, 0x7A, 0x03, 0x12, 0x00];
    assert_eq!(m.load_rom(&program), Ok(()));
    for _ in 0..3 {
        assert_eq!(m.load_opcode(), Ok(()));
        assert_eq!(m.run(), Ok(()));
    }
    assert_eq!(m.v[0xA], 8);
    assert_eq!(m.pc, 0x200);
}
