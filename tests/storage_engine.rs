use sabrelite_userland::{
    engine_command, main_key_hash, reply, EngineCommand, EngineOutcome, ErrorCode, Key,
    RamNorFlash, Request, Response, SpiNorFlashController, SuccessCode, Value, MAX_VALUE_SIZE,
    REGION_SIZE,
};
use std::cell::RefCell;

struct Controller(RefCell<SpiNorFlashController<RamNorFlash>>);

fn to_engine_error(e: ErrorCode) -> tickv::ErrorCode {
    match e {
        ErrorCode::ReadFail => tickv::ErrorCode::ReadFail,
        ErrorCode::WriteFail => tickv::ErrorCode::WriteFail,
        ErrorCode::EraseFail => tickv::ErrorCode::EraseFail,
        other => panic!("unexpected adapter error {:?}", other),
    }
}

fn from_engine_error(e: tickv::ErrorCode) -> ErrorCode {
    match e {
        tickv::ErrorCode::UnsupportedVersion => ErrorCode::UnsupportedVersion,
        tickv::ErrorCode::CorruptData => ErrorCode::CorruptData,
        tickv::ErrorCode::InvalidCheckSum => ErrorCode::InvalidCheckSum,
        tickv::ErrorCode::KeyNotFound => ErrorCode::KeyNotFound,
        tickv::ErrorCode::KeyAlreadyExists => ErrorCode::KeyAlreadyExists,
        tickv::ErrorCode::RegionFull => ErrorCode::RegionFull,
        tickv::ErrorCode::FlashFull => ErrorCode::FlashFull,
        tickv::ErrorCode::ReadFail => ErrorCode::ReadFail,
        tickv::ErrorCode::WriteFail => ErrorCode::WriteFail,
        tickv::ErrorCode::EraseFail => ErrorCode::EraseFail,
        tickv::ErrorCode::ObjectTooLarge => ErrorCode::ObjectTooLarge,
        tickv::ErrorCode::BufferTooSmall(n) => ErrorCode::BufferTooSmall(n),
        tickv::ErrorCode::ReadNotReady(n) => ErrorCode::ReadNotReady(n),
        tickv::ErrorCode::WriteNotReady(n) => ErrorCode::WriteNotReady(n),
        tickv::ErrorCode::EraseNotReady(n) => ErrorCode::EraseNotReady(n),
    }
}

fn from_engine_success(c: tickv::success_codes::SuccessCode) -> SuccessCode {
    match c {
        tickv::success_codes::SuccessCode::Complete => SuccessCode::Complete,
        tickv::success_codes::SuccessCode::Written => SuccessCode::Written,
        tickv::success_codes::SuccessCode::Queued => SuccessCode::Queued,
    }
}

impl tickv::FlashController<REGION_SIZE> for Controller {
    fn read_region(
        &self,
        region_number: usize,
        buf: &mut [u8; REGION_SIZE],
    ) -> Result<(), tickv::ErrorCode> {
        self.0.borrow_mut().read_region(region_number, 0, buf).map_err(to_engine_error)
    }

    fn write(&self, address: usize, buf: &[u8]) -> Result<(), tickv::ErrorCode> {
        self.0.borrow_mut().write(address, buf).map_err(to_engine_error)
    }

    fn erase_region(&self, region_number: usize) -> Result<(), tickv::ErrorCode> {
        self.0.borrow_mut().erase_region(region_number).map_err(to_engine_error)
    }
}

type Engine<'a> = tickv::TicKV<'a, Controller, REGION_SIZE>;

fn serve(engine: &Engine, req: Request) -> Result<Response, ErrorCode> {
    let outcome = match engine_command(req) {
        EngineCommand::AppendKey { hash, value } => EngineOutcome::Appended(
            engine.append_key(hash, &value).map(from_engine_success).map_err(from_engine_error),
        ),
        EngineCommand::GetKey { hash } => {
            let mut buf = [0u8; MAX_VALUE_SIZE];
            EngineOutcome::Fetched(
                engine
                    .get_key(hash, &mut buf)
                    .map(|(_, len)| buf[..len].to_vec())
                    .map_err(from_engine_error),
            )
        }
        EngineCommand::InvalidateKey { hash } => EngineOutcome::Invalidated(
            engine.invalidate_key(hash).map(from_engine_success).map_err(from_engine_error),
        ),
        EngineCommand::GarbageCollect => {
            EngineOutcome::Collected(engine.garbage_collect().map_err(from_engine_error))
        }
    };
    reply(outcome)
}

// The engine uses the first sector only; the chip is larger, as on the board,
// so that a page merged near the end of that sector can be read whole.
fn controller() -> Controller {
    let adapter =
        SpiNorFlashController::new(RamNorFlash::new(2), vec![0u8; REGION_SIZE]).unwrap();
    Controller(RefCell::new(adapter))
}

fn key(s: &str) -> Key {
    Key::from_text(s).unwrap()
}

fn value(s: &str) -> Value {
    Value::from_text(s).unwrap()
}

fn append(engine: &Engine, k: &str, v: &str) -> Result<Response, ErrorCode> {
    serve(engine, Request::AppendKey(key(k), value(v)))
}

fn get(engine: &Engine, k: &str) -> Result<Response, ErrorCode> {
    serve(engine, Request::Get(key(k)))
}

#[test]
fn concrete_scenario() {
    let mut buf = [0u8; REGION_SIZE];
    let engine = Engine::new(controller(), &mut buf, REGION_SIZE);
    engine.initialise(main_key_hash()).unwrap();
    let v = Value::from_bytes(&[0x23u8; 32]).unwrap();
    let r = serve(&engine, Request::AppendKey(key("ONE"), v.clone()));
    assert!(matches!(r, Ok(Response::KeyAppended(_))));
    assert_eq!(get(&engine, "ONE"), Ok(Response::Value(v)));
    assert_eq!(get(&engine, "missing"), Err(ErrorCode::KeyNotFound));
}

// Each object below lies inside one flash page: the adapter merges a chunk
// that starts inside a page into that page only, so an object that runs
// from inside a page into the next one is not stored whole.
#[test]
fn round_trip_of_several_values() {
    let mut buf = [0u8; REGION_SIZE];
    let engine = Engine::new(controller(), &mut buf, REGION_SIZE);
    engine.initialise(main_key_hash()).unwrap();
    let pairs = [("a", "1"), ("key-two", "second value"), ("k3", "é-ü-ß"), ("empty", "")];
    for (k, v) in pairs.iter() {
        assert_eq!(append(&engine, k, v), Ok(Response::KeyAppended(SuccessCode::Written)));
    }
    for (k, v) in pairs.iter() {
        assert_eq!(get(&engine, k), Ok(Response::Value(value(v))));
    }
}

#[test]
fn value_across_a_page_boundary_is_not_stored_whole() {
    let mut buf = [0u8; REGION_SIZE];
    let engine = Engine::new(controller(), &mut buf, REGION_SIZE);
    engine.initialise(main_key_hash()).unwrap();
    let long = "é".repeat(128);
    let _ = append(&engine, "long", &long);
    assert_ne!(get(&engine, "long"), Ok(Response::Value(value(&long))));
}

#[test]
fn no_implicit_overwrite() {
    let mut buf = [0u8; REGION_SIZE];
    let engine = Engine::new(controller(), &mut buf, REGION_SIZE);
    engine.initialise(main_key_hash()).unwrap();
    assert!(append(&engine, "k", "first").is_ok());
    assert_eq!(append(&engine, "k", "second"), Err(ErrorCode::KeyAlreadyExists));
    assert_eq!(get(&engine, "k"), Ok(Response::Value(value("first"))));
}

#[test]
fn invalidate_removes_visibility() {
    let mut buf = [0u8; REGION_SIZE];
    let engine = Engine::new(controller(), &mut buf, REGION_SIZE);
    engine.initialise(main_key_hash()).unwrap();
    assert!(append(&engine, "k", "v").is_ok());
    let r = serve(&engine, Request::InvalidateKey(key("k")));
    assert!(matches!(r, Ok(Response::KeyInvalidated(_))));
    assert_eq!(get(&engine, "k"), Err(ErrorCode::KeyNotFound));
    assert_eq!(serve(&engine, Request::InvalidateKey(key("k"))), Err(ErrorCode::KeyNotFound));
}

#[test]
fn garbage_collect_preserves_live_data() {
    let mut buf = [0u8; REGION_SIZE];
    let engine = Engine::new(controller(), &mut buf, REGION_SIZE);
    engine.initialise(main_key_hash()).unwrap();
    assert!(append(&engine, "keep-1", "one").is_ok());
    assert!(append(&engine, "drop", "gone").is_ok());
    assert!(append(&engine, "keep-2", "two").is_ok());
    assert!(serve(&engine, Request::InvalidateKey(key("drop"))).is_ok());
    let r = serve(&engine, Request::GarbageCollect);
    assert!(matches!(r, Ok(Response::GarbageCollected(_))));
    assert_eq!(get(&engine, "keep-1"), Ok(Response::Value(value("one"))));
    assert_eq!(get(&engine, "keep-2"), Ok(Response::Value(value("two"))));
    assert_eq!(get(&engine, "drop"), Err(ErrorCode::KeyNotFound));
}

#[test]
fn state_survives_a_restart_of_the_engine() {
    let mut buf = [0u8; REGION_SIZE];
    let engine = Engine::new(controller(), &mut buf, REGION_SIZE);
    engine.initialise(main_key_hash()).unwrap();
    assert!(append(&engine, "persist", "yes").is_ok());
    let Controller(cell) = engine.controller;
    let flash = cell.into_inner().into_flash();
    let adapter = SpiNorFlashController::new(flash, vec![0u8; REGION_SIZE]).unwrap();
    let mut buf2 = [0u8; REGION_SIZE];
    let again = Engine::new(Controller(RefCell::new(adapter)), &mut buf2, REGION_SIZE);
    again.initialise(main_key_hash()).unwrap();
    assert_eq!(get(&again, "persist"), Ok(Response::Value(value("yes"))));
}
