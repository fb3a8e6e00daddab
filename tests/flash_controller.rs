use sabrelite_userland::{
    ErrorCode, NorFlash, RamNorFlash, SpiNorFlashController, ERASED_BYTE, PAGE_SIZE, REGION_SIZE,
};

fn controller(sectors: u32) -> SpiNorFlashController<RamNorFlash> {
    SpiNorFlashController::new(RamNorFlash::new(sectors), vec![0u8; REGION_SIZE]).unwrap()
}

fn read(c: &mut SpiNorFlashController<RamNorFlash>, region: usize, offset: usize) -> Vec<u8> {
    let mut buf = [0u8; REGION_SIZE];
    c.read_region(region, offset, &mut buf).unwrap();
    buf.to_vec()
}

#[test]
fn scratchpad_smaller_than_a_page_is_refused() {
    let r = SpiNorFlashController::new(RamNorFlash::new(1), vec![0u8; 64]);
    assert_eq!(r.err(), Some(ErrorCode::BufferTooSmall(256)));
    assert_eq!(PAGE_SIZE, 256);
}

#[test]
fn scratchpad_of_one_page_is_enough() {
    assert!(SpiNorFlashController::new(RamNorFlash::new(1), vec![0u8; PAGE_SIZE]).is_ok());
    let r = SpiNorFlashController::new(RamNorFlash::new(1), vec![0u8; PAGE_SIZE - 1]);
    assert_eq!(r.err(), Some(ErrorCode::BufferTooSmall(PAGE_SIZE)));
}

#[test]
fn fresh_flash_reads_erased() {
    let mut c = controller(1);
    assert_eq!(read(&mut c, 0, 0), vec![ERASED_BYTE; REGION_SIZE]);
}

#[test]
fn write_then_read_region_round_trips() {
    let mut c = controller(1);
    let data: Vec<u8> = (0..600u32).map(|i| (i % 251) as u8).collect();
    c.write(256, &data).unwrap();
    let got = read(&mut c, 0, 0);
    assert_eq!(&got[256..856], &data[..]);
    assert!(got[..256].iter().all(|b| *b == ERASED_BYTE));
    assert!(got[856..].iter().all(|b| *b == ERASED_BYTE));
}

#[test]
fn unaligned_short_write_merges_next_page_into_page_start() {
    let mut c = controller(1);
    c.write(512, &vec![0x0Fu8; 256]).unwrap();
    c.write(300, &[0xAAu8; 10]).unwrap();
    let got = read(&mut c, 0, 0);
    assert!(got[256..300].iter().all(|b| *b == 0x0F));
    assert_eq!(&got[300..310], &[0xAAu8; 10]);
    assert!(got[310..512].iter().all(|b| *b == ERASED_BYTE));
}

#[test]
fn unaligned_whole_page_wraps_within_its_page() {
    let mut c = controller(1);
    let data: Vec<u8> = (0..256u32).map(|i| i as u8).collect();
    c.write(16, &data).unwrap();
    let got = read(&mut c, 0, 0);
    assert_eq!(&got[16..256], &data[..240]);
    assert_eq!(&got[0..16], &data[240..]);
    assert!(got[256..].iter().all(|b| *b == ERASED_BYTE));
}

#[test]
fn partial_page_write_keeps_trailing_bytes() {
    let mut c = controller(1);
    c.write(256, &vec![0xF0u8; 256]).unwrap();
    c.write(256, &[0x0Fu8; 10]).unwrap();
    let got = read(&mut c, 0, 0);
    assert_eq!(&got[256..266], &[0u8; 10]);
    assert!(got[266..512].iter().all(|b| *b == 0xF0));
    assert!(got[..256].iter().all(|b| *b == ERASED_BYTE));
}

#[test]
fn programming_only_clears_bits() {
    let mut c = controller(1);
    c.write(0, &[0b1010_1010]).unwrap();
    c.write(0, &[0b1100_1100]).unwrap();
    assert_eq!(read(&mut c, 0, 0)[0], 0b1000_1000);
}

#[test]
fn erase_resets_region() {
    let mut c = controller(1);
    c.write(0, &vec![0u8; REGION_SIZE]).unwrap();
    assert!(read(&mut c, 0, 0).iter().all(|b| *b == 0));
    c.erase_region(0).unwrap();
    assert_eq!(read(&mut c, 0, 0), vec![ERASED_BYTE; REGION_SIZE]);
}

#[test]
fn erase_takes_the_region_number_as_sector_index() {
    let mut c = controller(2);
    c.write(0, &vec![0u8; 2 * REGION_SIZE]).unwrap();
    c.erase_region(1).unwrap();
    let flash = c.into_flash();
    assert_eq!(flash.byte_at(REGION_SIZE - 1), 0);
    assert_eq!(flash.byte_at(REGION_SIZE), ERASED_BYTE);
    assert_eq!(flash.byte_at(2 * REGION_SIZE - 1), ERASED_BYTE);
}

#[test]
fn read_region_starts_at_region_number_plus_offset() {
    let mut c = controller(2);
    let data: Vec<u8> = (0..REGION_SIZE as u32).map(|i| (i % 7) as u8).collect();
    c.write(REGION_SIZE, &data).unwrap();
    let got = read(&mut c, 1, REGION_SIZE - 1);
    assert_eq!(got, data);
}

#[test]
fn read_past_the_chip_fails_with_read_fail() {
    let mut c = controller(1);
    let mut buf = [0u8; REGION_SIZE];
    assert_eq!(c.read_region(0, 1, &mut buf), Err(ErrorCode::ReadFail));
    assert_eq!(c.read_region(1, 0, &mut buf), Err(ErrorCode::ReadFail));
}

#[test]
fn write_past_the_chip_fails() {
    let mut c = controller(1);
    assert_eq!(c.write(REGION_SIZE, &vec![0u8; PAGE_SIZE]), Err(ErrorCode::WriteFail));
    assert_eq!(c.write(REGION_SIZE, &[0u8; 3]), Err(ErrorCode::ReadFail));
}

#[test]
fn erase_past_the_chip_fails_with_erase_fail() {
    let mut c = controller(1);
    assert_eq!(c.erase_region(1), Err(ErrorCode::EraseFail));
}

#[test]
fn empty_write_changes_nothing() {
    let mut c = controller(1);
    c.write(0, &[]).unwrap();
    assert_eq!(read(&mut c, 0, 0), vec![ERASED_BYTE; REGION_SIZE]);
}

#[test]
fn ram_flash_reports_its_size() {
    let mut f = RamNorFlash::new(3);
    assert_eq!(f.capacity(), 3 * REGION_SIZE);
    let mut page = [0u8; 4];
    f.read(8, &mut page).unwrap();
    assert_eq!(page, [ERASED_BYTE; 4]);
}

#[test]
fn failed_write_keeps_pages_already_programmed() {
    let mut c = controller(1);
    let data = vec![0u8; 2 * PAGE_SIZE];
    assert_eq!(c.write(REGION_SIZE - PAGE_SIZE, &data), Err(ErrorCode::WriteFail));
    let got = read(&mut c, 0, 0);
    assert!(got[REGION_SIZE - PAGE_SIZE..].iter().all(|b| *b == 0));
    assert!(got[..REGION_SIZE - PAGE_SIZE].iter().all(|b| *b == ERASED_BYTE));
}
