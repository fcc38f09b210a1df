use basm_rust_sdk::io::{host_log, log, output_data, Context, HostResult, HostWriter, LogWriter};
use basm_rust_sdk::memory::{leak_to_shared_memory, write_to_host, FatPointer, SharedMemory};

#[test]
fn fat_pointer_packs_offset_and_size() {
    let p = FatPointer::new(3, 5);
    assert_eq!(p.0, (3u64 << 32) | 5);
    assert_eq!(p.offset(), 3);
    assert_eq!(p.size(), 5);
}

#[test]
fn fat_pointer_decodes_raw_value() {
    let p = FatPointer(0x0000_0001_0000_0002);
    assert_eq!(p.offset(), 1);
    assert_eq!(p.size(), 2);
}

#[test]
fn fat_pointer_round_trips_extremes() {
    for (o, n) in [(0u32, 0u32), (u32::MAX, u32::MAX), (u32::MAX, 0), (0, u32::MAX), (123456, 654321)] {
        let p = FatPointer::new(o, n);
        assert_eq!((p.offset(), p.size()), (o, n));
    }
}

#[test]
fn fat_pointer_equality_is_bitwise() {
    assert_eq!(FatPointer::new(7, 9), FatPointer((7u64 << 32) | 9));
    assert_ne!(FatPointer::new(7, 9), FatPointer::new(9, 7));
}

#[test]
fn leak_then_read_gives_back_bytes() {
    let mut mem = SharedMemory::new();
    let p = leak_to_shared_memory(&mut mem, &[1, 2, 3, 250]);
    assert_eq!(p.offset(), 0);
    assert_eq!(p.size(), 4);
    assert_eq!(p.copy_data(&mem), vec![1, 2, 3, 250]);
}

#[test]
fn leak_of_empty_bytes() {
    let mut mem = SharedMemory::new();
    leak_to_shared_memory(&mut mem, b"abc");
    let p = leak_to_shared_memory(&mut mem, &[]);
    assert_eq!(p.offset(), 3);
    assert_eq!(p.size(), 0);
    assert_eq!(p.copy_data(&mem), Vec::<u8>::new());
}

#[test]
fn later_leaks_keep_earlier_buffers() {
    let mut mem = SharedMemory::new();
    let a = leak_to_shared_memory(&mut mem, b"first");
    let b = write_to_host(&mut mem, b"second");
    let c = output_data(&mut mem, b"third");
    assert_eq!(a.copy_data(&mem), b"first".to_vec());
    assert_eq!(b.copy_data(&mem), b"second".to_vec());
    assert_eq!(c.copy_data(&mem), b"third".to_vec());
    assert_eq!(b.offset(), 5);
    assert_eq!(c.offset(), 11);
    assert_eq!(mem.len(), 16);
}

#[test]
fn holds_checks_bounds() {
    let mut mem = SharedMemory::new();
    leak_to_shared_memory(&mut mem, b"0123456789");
    assert!(mem.holds(FatPointer::new(2, 8)));
    assert!(!mem.holds(FatPointer::new(2, 9)));
    assert!(!mem.holds(FatPointer::new(u32::MAX, u32::MAX)));
    assert!(mem.has_room(100));
}

#[test]
fn log_writer_flush_hands_over_buffer_and_clears() {
    let mut mem = SharedMemory::new();
    let mut w = LogWriter::default();
    assert_eq!(w.write(b"ab"), 2);
    assert_eq!(w.write(b"cd"), 2);
    let p = w.flush(&mut mem);
    assert_eq!(p.copy_data(&mem), b"abcd".to_vec());
    w.write(b"e");
    let q = w.flush(&mut mem);
    assert_eq!(q.copy_data(&mem), b"e".to_vec());
}

#[test]
fn host_writer_flush_hands_over_buffer_and_clears() {
    let mut mem = SharedMemory::new();
    let mut w = HostWriter::default();
    w.write(b"hello ");
    w.write(b"host");
    let p = w.flush(&mut mem);
    assert_eq!(p.copy_data(&mem), b"hello host".to_vec());
    let q = w.flush(&mut mem);
    assert_eq!(q.size(), 0);
}

#[test]
fn two_log_calls_flush_separately() {
    let mut mem = SharedMemory::new();
    let p1 = log(&mut mem, "Formatted Log Output, 32");
    let p2 = log(&mut mem, "second");
    assert_ne!(p1, p2);
    assert_eq!(p1.copy_data(&mem), b"Formatted Log Output, 32\n".to_vec());
    assert_eq!(p2.copy_data(&mem), b"second\n".to_vec());
}

#[test]
fn two_host_log_calls_flush_separately() {
    let mut mem = SharedMemory::new();
    let p1 = host_log(&mut mem, "one");
    let p2 = host_log(&mut mem, "twö");
    assert_eq!(p1.copy_data(&mem), b"one\n".to_vec());
    assert_eq!(p2.copy_data(&mem), "twö\n".as_bytes().to_vec());
}

#[test]
fn envelope_ok_gives_value() {
    let h = HostResult { ok: true, error: "ignored".to_string(), value: 42u32 };
    assert_eq!(h.into_result(), Ok(42));
}

#[test]
fn envelope_not_ok_gives_error_verbatim() {
    let h = HostResult { ok: false, error: "timeout".to_string(), value: 0u32 };
    assert_eq!(h.into_result(), Err("timeout".to_string()));
}

#[test]
fn context_holds_input_and_secrets() {
    let c: Context<u8, &str> = Context { input: 1, secrets: "s" };
    assert_eq!(c.input, 1);
    assert_eq!(c.secrets, "s");
}
