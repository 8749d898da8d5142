use nvmc_hal::{
    ErasedFlashPage, Error, Nvmc, SimNvmc, BLOCKS_PER_PAGE, BLOCK_SIZE_BYTES, MAX_BLOCK_WRITES,
    NUMBER_OF_PAGES, PAGE_SIZE_BYTES,
};

fn erased_session(page_index: usize) -> ErasedFlashPage<SimNvmc> {
    let nvmc = Nvmc::new(SimNvmc::new());
    match nvmc.erase_page(page_index) {
        Ok(session) => session,
        Err((_, e)) => panic!("erase of a valid page failed: {:?}", e),
    }
}

fn read_bytes(sim: &SimNvmc, address: usize, count: usize) -> Vec<u8> {
    let mut out = Vec::new();
    let mut offset = 0;
    while offset < count {
        let word = sim.read_word(address + offset - offset % 4);
        out.push(word.to_le_bytes()[offset % 4]);
        offset += 1;
    }
    out
}

#[test]
fn new_and_free_round_trip() {
    let sim = SimNvmc::new();
    let sim = Nvmc::new(sim).free();
    // The handle neither read nor wrote anything: the flash is still erased.
    assert_eq!(sim.read_word(0), 0xffff_ffff);
    assert_eq!(
        sim.read_word((NUMBER_OF_PAGES - 1) * PAGE_SIZE_BYTES),
        0xffff_ffff
    );
}

#[test]
fn erase_page_out_of_bounds() {
    let nvmc = Nvmc::new(SimNvmc::new());
    match nvmc.erase_page(NUMBER_OF_PAGES) {
        Ok(_) => panic!("erase past the last page must fail"),
        Err((_, e)) => assert_eq!(e, Error::OutOfBounds),
    }
    let nvmc = Nvmc::new(SimNvmc::new());
    match nvmc.erase_page(usize::MAX) {
        Ok(_) => panic!("erase far past the last page must fail"),
        Err((_, e)) => assert_eq!(e, Error::OutOfBounds),
    }
}

#[test]
fn erase_page_out_of_bounds_leaves_flash_untouched() {
    // Program a marker, then let an out of bounds erase fail: the marker
    // and the handle survive unchanged.
    let mut session = erased_session(0);
    assert_eq!(session.write_block(0, &[0x5a, 0x5a, 0x5a, 0x5a]), Ok(4));
    let nvmc = session.release();
    let nvmc = match nvmc.erase_page(NUMBER_OF_PAGES) {
        Ok(_) => panic!("erase past the last page must fail"),
        Err((nvmc, e)) => {
            assert_eq!(e, Error::OutOfBounds);
            nvmc
        }
    };
    let sim = nvmc.free();
    assert_eq!(sim.read_word(0), 0x5a5a_5a5a);
}

#[test]
fn erase_page_accepts_every_valid_index() {
    let nvmc = Nvmc::new(SimNvmc::new());
    let session = match nvmc.erase_page(0) {
        Ok(session) => session,
        Err((_, e)) => panic!("erase of page 0 failed: {:?}", e),
    };
    let nvmc = session.release();
    match nvmc.erase_page(NUMBER_OF_PAGES - 1) {
        Ok(_) => (),
        Err((_, e)) => panic!("erase of the last page failed: {:?}", e),
    }
}

#[test]
fn erase_resets_every_write_counter() {
    let mut session = erased_session(5);
    for block_id in 0..BLOCKS_PER_PAGE {
        assert_eq!(session.block_writes(block_id), 0);
    }
    // Spend some writes, erase again: the counters start over at zero.
    assert_eq!(session.write_block(2, &[1, 2, 3, 4]), Ok(4));
    assert_eq!(session.write_block(2, &[1, 2, 3, 4]), Ok(4));
    assert_eq!(session.block_writes(2), 2);
    let nvmc = session.release();
    let session = match nvmc.erase_page(5) {
        Ok(session) => session,
        Err((_, e)) => panic!("second erase failed: {:?}", e),
    };
    for block_id in 0..BLOCKS_PER_PAGE {
        assert_eq!(session.block_writes(block_id), 0);
    }
}

#[test]
fn erase_fills_the_page_with_ones() {
    let mut session = erased_session(7);
    assert_eq!(session.write_block(0, &[0, 0, 0, 0]), Ok(4));
    let nvmc = session.release();
    let session = match nvmc.erase_page(7) {
        Ok(session) => session,
        Err((_, e)) => panic!("second erase failed: {:?}", e),
    };
    let sim = session.release().free();
    for word in 0..PAGE_SIZE_BYTES / 4 {
        assert_eq!(sim.read_word(7 * PAGE_SIZE_BYTES + 4 * word), 0xffff_ffff);
    }
}

#[test]
fn write_block_out_of_bounds() {
    let mut session = erased_session(1);
    assert_eq!(session.write_block(8, &[1, 2, 3, 4]), Err(Error::OutOfBounds));
    assert_eq!(
        session.write_block(usize::MAX, &[1, 2, 3, 4]),
        Err(Error::OutOfBounds)
    );
    // Neither hardware nor counters were touched.
    for block_id in 0..BLOCKS_PER_PAGE {
        assert_eq!(session.block_writes(block_id), 0);
    }
    let sim = session.release().free();
    assert_eq!(sim.read_word(PAGE_SIZE_BYTES), 0xffff_ffff);
}

#[test]
fn write_sixteen_bytes_reads_back_exactly() {
    let input: Vec<u8> = (1..=16).collect();
    let mut session = erased_session(3);
    assert_eq!(session.write_block(0, &input), Ok(16));
    let sim = session.release().free();
    assert_eq!(read_bytes(&sim, 3 * PAGE_SIZE_BYTES, 16), input);
}

#[test]
fn write_seventeen_bytes_pads_the_trailing_word() {
    let input: Vec<u8> = (10..=26).collect();
    assert_eq!(input.len(), 17);
    let mut session = erased_session(3);
    assert_eq!(session.write_block(1, &input), Ok(17));
    let sim = session.release().free();
    let block_address = 3 * PAGE_SIZE_BYTES + BLOCK_SIZE_BYTES;
    // The first 16 bytes read back exactly.
    assert_eq!(read_bytes(&sim, block_address, 16), input[..16]);
    // The trailing word holds the 17th byte in its low byte and the
    // erased fill value in the three high bytes.
    let trailing = sim.read_word(block_address + 16);
    assert_eq!(trailing, 0xffff_ff00 | input[16] as u32);
}

#[test]
fn write_full_block_and_truncate_excess() {
    let input: Vec<u8> = (0..600).map(|i| (i % 251) as u8).collect();
    let mut session = erased_session(2);
    // Only the first 512 bytes are written.
    assert_eq!(session.write_block(4, &input), Ok(BLOCK_SIZE_BYTES));
    // The truncated attempt still spent one write.
    assert_eq!(session.block_writes(4), 1);
    let sim = session.release().free();
    let block_address = 2 * PAGE_SIZE_BYTES + 4 * BLOCK_SIZE_BYTES;
    assert_eq!(
        read_bytes(&sim, block_address, BLOCK_SIZE_BYTES),
        input[..BLOCK_SIZE_BYTES]
    );
    // The word after the block is still erased.
    assert_eq!(sim.read_word(block_address + BLOCK_SIZE_BYTES), 0xffff_ffff);
}

#[test]
fn write_empty_buffer_succeeds_and_writes_nothing() {
    let mut session = erased_session(0);
    assert_eq!(session.write_block(0, &[]), Ok(0));
    // The attempt still spent one write of the budget.
    assert_eq!(session.block_writes(0), 1);
    let sim = session.release().free();
    assert_eq!(sim.read_word(0), 0xffff_ffff);
}

#[test]
fn writes_only_clear_bits() {
    let mut session = erased_session(0);
    assert_eq!(session.write_block(0, &[0xf0, 0xff, 0x0f, 0x3c]), Ok(4));
    assert_eq!(session.write_block(0, &[0xff, 0xcc, 0xff, 0xf0]), Ok(4));
    let sim = session.release().free();
    // The second write ANDs onto the first: bits move only from 1 to 0.
    assert_eq!(sim.read_word(0), u32::from_le_bytes([0xf0, 0xcc, 0x0f, 0x30]));
}

#[test]
fn endurance_budget_is_exactly_the_maximum() {
    let mut session = erased_session(6);
    for _ in 0..MAX_BLOCK_WRITES {
        assert_eq!(session.write_block(3, &[0xab, 0xcd, 0xef, 0x12]), Ok(4));
    }
    assert_eq!(session.block_writes(3), MAX_BLOCK_WRITES as u8);
    // The next call is rejected before any hardware access.
    assert_eq!(
        session.write_block(3, &[0, 0, 0, 0]),
        Err(Error::MaxBlockWritesReached)
    );
    assert_eq!(session.block_writes(3), MAX_BLOCK_WRITES as u8);
    let sim = session.release().free();
    // The rejected all-zero write left the contents unchanged.
    let block_address = 6 * PAGE_SIZE_BYTES + 3 * BLOCK_SIZE_BYTES;
    assert_eq!(
        sim.read_word(block_address),
        u32::from_le_bytes([0xab, 0xcd, 0xef, 0x12])
    );
}

#[test]
fn eight_blocks_per_page() {
    let nvmc = Nvmc::new(SimNvmc::new());
    let mut session = match nvmc.erase_page(32) {
        Ok(session) => session,
        Err((_, e)) => panic!("erase of page 32 failed: {:?}", e),
    };
    for block_id in 0..BLOCKS_PER_PAGE {
        let data = [block_id as u8; 8];
        assert_eq!(session.write_block(block_id, &data), Ok(8));
    }
    assert_eq!(session.write_block(8, &[1, 2, 3]), Err(Error::OutOfBounds));
    let sim = session.release().free();
    for block_id in 0..BLOCKS_PER_PAGE {
        let address = 32 * PAGE_SIZE_BYTES + block_id * BLOCK_SIZE_BYTES;
        let b = block_id as u8;
        assert_eq!(sim.read_word(address), u32::from_le_bytes([b, b, b, b]));
    }
}

#[test]
fn writes_stay_inside_their_block() {
    let mut session = erased_session(4);
    assert_eq!(session.write_block(1, &[7, 7, 7, 7]), Ok(4));
    let sim = session.release().free();
    // Block 0 and block 2 around the written block are still erased.
    assert_eq!(sim.read_word(4 * PAGE_SIZE_BYTES), 0xffff_ffff);
    assert_eq!(
        sim.read_word(4 * PAGE_SIZE_BYTES + 2 * BLOCK_SIZE_BYTES),
        0xffff_ffff
    );
    assert_eq!(
        sim.read_word(4 * PAGE_SIZE_BYTES + BLOCK_SIZE_BYTES),
        u32::from_le_bytes([7, 7, 7, 7])
    );
}

#[test]
fn erase_touches_only_its_page() {
    let mut session = erased_session(9);
    assert_eq!(session.write_block(0, &[1, 1, 1, 1]), Ok(4));
    let nvmc = session.release();
    // Erasing the page next door leaves page 9 as it was.
    let session = match nvmc.erase_page(10) {
        Ok(session) => session,
        Err((_, e)) => panic!("erase of page 10 failed: {:?}", e),
    };
    let sim = session.release().free();
    assert_eq!(sim.read_word(9 * PAGE_SIZE_BYTES), u32::from_le_bytes([1, 1, 1, 1]));
    assert_eq!(sim.read_word(10 * PAGE_SIZE_BYTES), 0xffff_ffff);
}
