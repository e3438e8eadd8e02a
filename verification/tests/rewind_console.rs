//! Snapshots, restore, and the rewind tape: LIFO behavior, re-simulation
//! determinism, and the snapshot round trip.

use nes::cartridge::{Cartridge, Mapper, MirroringMode, CHR, PRG};
use nes::console::Console;
use nes::controller::{Button, ButtonState};
use nes::ppu::Screen;
use nes::snapshot::RewindTape;

fn looping_mapper() -> Mapper {
    let mut prg = [0u8; 0x4000];
    // an infinite loop at $8000, entered through the reset vector
    prg[0x0000] = 0x4c; // JMP $8000
    prg[0x0001] = 0x00;
    prg[0x0002] = 0x80;
    prg[0x3ffc] = 0x00;
    prg[0x3ffd] = 0x80;
    let cartridge = Cartridge {
        prg: PRG { banks: vec![prg] },
        chr: CHR::RAM(vec![[0u8; 0x2000]]),
        sram: Vec::new(),
        mirror: MirroringMode::Horizontal,
    };
    nes::cartridge::new(cartridge, 0).unwrap()
}

fn scripted_buttons(frame: usize) -> ButtonState {
    let mut buttons = ButtonState::default();
    if frame % 2 == 0 {
        buttons.set(Button::A);
    }
    if frame % 3 == 0 {
        buttons.set(Button::Right);
    }
    buttons
}

#[test]
fn tape_pops_in_reverse_push_order() {
    // distinct states pushed straight onto a tape come back newest first
    let mut console = Console::new(looping_mapper());
    let mut tape = RewindTape::new(8);
    let mut screen = Screen::new();

    let mut recorded = Vec::new();
    for i in 0..6 {
        console.state.cpu.a = i as u8;
        let state = console.snapshot();
        recorded.push(console.snapshot());
        tape.push_back(state);
    }
    assert_eq!(tape.frames, 6);
    for i in (0..6).rev() {
        let popped = tape.pop_back(&mut screen).unwrap();
        assert_eq!(popped.cpu.a, i as u8);
        assert!(popped == recorded[i as usize]);
    }
    assert_eq!(tape.frames, 0);
    assert!(tape.pop_back(&mut screen).is_none());
}

#[test]
fn tape_rewinds_exactly_through_compressed_stretches() {
    // a tiny cache step forces checkpoints and re-simulation on the way back
    let mut console = Console::new(looping_mapper());
    let mut tape = RewindTape::new(2);
    let mut screen = Screen::new();

    let mut recorded = Vec::new();
    for frame in 0..9 {
        console.update_buttons(scripted_buttons(frame));
        console.state.wait_vblank(&mut screen);
        recorded.push(console.snapshot());
        tape.push_back(console.snapshot());
    }
    assert_eq!(tape.frames, 9);

    // every popped state must equal the state recorded on the way forward
    for frame in (0..9).rev() {
        let popped = tape.pop_back(&mut screen).unwrap();
        assert!(popped == recorded[frame], "rewound frame diverged");
    }
    assert!(tape.pop_back(&mut screen).is_none());
}

#[test]
fn snapshot_restore_replays_the_same_frame() {
    let mut console = Console::new(looping_mapper());
    let buttons = scripted_buttons(1);

    // run a few frames to leave the power-up state behind
    for frame in 0..3 {
        console.update_buttons(scripted_buttons(frame));
        console.next_screen();
    }

    let saved = console.snapshot();
    console.update_buttons(buttons);
    console.next_screen();
    let screen_a = console.screen;
    let state_a = console.snapshot();

    // restore and replay with the same buttons: bit-identical frame and state
    console.restore_snapshot(saved, &Vec::new(), &Vec::new());
    console.update_buttons(buttons);
    console.next_screen();
    assert!(console.screen == screen_a);
    assert!(console.snapshot() == state_a);
}

#[test]
fn restore_preserves_listed_addresses() {
    let mut console = Console::new(looping_mapper());
    console.state.cpu.write_byte(&mut console.state.bus, 0x0040, 0x11);
    let saved = console.snapshot();

    // change the byte, then restore while preserving it
    console.state.cpu.write_byte(&mut console.state.bus, 0x0040, 0x99);
    console.restore_snapshot(saved, &vec![0x0040], &Vec::new());
    let kept = console.state.cpu.read_byte(&mut console.state.bus, 0x0040);
    assert_eq!(kept, 0x99);

    // without a preserve list the snapshot's byte wins
    let saved2 = console.snapshot();
    console.state.cpu.write_byte(&mut console.state.bus, 0x0040, 0x55);
    console.restore_snapshot(saved2, &Vec::new(), &Vec::new());
    let swapped = console.state.cpu.read_byte(&mut console.state.bus, 0x0040);
    assert_eq!(swapped, 0x99);
}

#[test]
fn console_rewind_walks_history_backwards() {
    let mut console = Console::new(looping_mapper());

    let mut recorded = Vec::new();
    for frame in 0..5 {
        console.update_buttons(scripted_buttons(frame));
        console.next_screen();
        recorded.push(console.snapshot());
    }
    assert_eq!(console.tape.frames, 5);

    for frame in (0..5).rev() {
        console.rewind();
        assert!(console.snapshot() == recorded[frame]);
    }
    assert_eq!(console.tape.frames, 0);

    // rewinding an empty tape is a no-op
    let before = console.snapshot();
    console.rewind();
    assert!(console.snapshot() == before);
}

#[test]
fn rewound_frames_are_not_recorded_again() {
    let mut console = Console::new(looping_mapper());
    for frame in 0..4 {
        console.update_buttons(scripted_buttons(frame));
        console.next_screen();
    }
    assert_eq!(console.tape.frames, 4);
    console.rewind();
    assert_eq!(console.tape.frames, 3);
    // the frame after a rewind replays history and is not re-pushed
    console.next_screen();
    assert_eq!(console.tape.frames, 3);
    // after that, recording resumes
    console.next_screen();
    assert_eq!(console.tape.frames, 4);
}
