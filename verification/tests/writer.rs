use tomatos::framebuffer::RenderError;
use tomatos::framebuffer::LIGHT_CYAN_ON_BLACK;
use tomatos::framebuffer::TOTAL_CELL_COUNT;
use tomatos::writer::Phase;
use tomatos::writer::Writer;

fn all_cells(w: &Writer) -> Vec<(u8, u8)> {
    let mut cells = Vec::new();
    let mut i = 0;
    while let Some(cell) = w.read_cell(i) {
        cells.push(cell);
        i += 1;
    }
    cells
}

#[test]
fn writer_starts_in_init_with_blank_display() {
    let w = Writer::new();
    assert_eq!(w.current_phase(), Phase::Init);
    for (character, attribute) in all_cells(&w) {
        assert_eq!(character, 0);
        assert_eq!(attribute, 0);
    }
}

#[test]
fn write_pass_parks_in_idle() {
    let mut w = Writer::new();
    let message = b"Hello World!".to_vec();
    assert_eq!(w.render(&message, LIGHT_CYAN_ON_BLACK), Ok(()));
    assert_eq!(w.current_phase(), Phase::Idle);
    assert_eq!(w.read_cell(0), Some((b'H', 0x0b)));
    assert_eq!(w.read_cell(11), Some((b'!', 0x0b)));
    assert_eq!(w.read_cell(12), Some((0, 0)));
}

#[test]
fn bounds_rejection_keeps_the_phase() {
    let mut w = Writer::new();
    let message: Vec<u8> = vec![b'x'; TOTAL_CELL_COUNT + 1];
    assert_eq!(
        w.render(&message, LIGHT_CYAN_ON_BLACK),
        Err(RenderError::BoundsViolation)
    );
    assert_eq!(w.current_phase(), Phase::Init);
    for (character, attribute) in all_cells(&w) {
        assert_eq!(character, 0);
        assert_eq!(attribute, 0);
    }
}

#[test]
fn fault_blocks_all_further_writes() {
    let mut w = Writer::new();
    let message = b"before the fault".to_vec();
    assert_eq!(w.render(&message, 0x0c), Ok(()));
    let before = all_cells(&w);
    w.fault();
    assert_eq!(w.current_phase(), Phase::Faulted);
    // No further writer call reaches the display, and the machine
    // never leaves the faulted phase.
    assert_eq!(
        w.render(&b"after the fault".to_vec(), 0x0f),
        Err(RenderError::Faulted)
    );
    assert_eq!(w.current_phase(), Phase::Faulted);
    assert_eq!(all_cells(&w), before);
    w.fault();
    assert_eq!(w.current_phase(), Phase::Faulted);
    assert_eq!(all_cells(&w), before);
}
