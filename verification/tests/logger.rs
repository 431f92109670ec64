use binfmt::Formatter;
use binfmt::GlobalLoggerState;
use binfmt::Logger;
use binfmt::Str;
use binfmt::Write;

#[test]
fn acquire_grants_exactly_once_until_release() {
    let mut logger = GlobalLoggerState::new();

    // three contending call sites: only the first one gets the sink
    let first = logger.acquire();
    assert!(first.is_some());
    assert!(logger.acquire().is_none());
    assert!(logger.acquire().is_none());

    logger.release(first.unwrap());

    // after release, exactly one subsequent acquire succeeds again
    let next = logger.acquire();
    assert!(next.is_some());
    assert!(logger.acquire().is_none());
    logger.release(next.unwrap());
}

#[test]
fn contended_acquire_changes_nothing() {
    let mut logger = GlobalLoggerState::new();
    let mut session = logger.acquire().unwrap();
    session.u8(&9);
    assert!(logger.acquire().is_none());
    logger.release(session);
    assert_eq!(logger.bytes(), &[9]);
}

#[test]
fn released_bytes_accumulate_across_sessions() {
    let mut logger = GlobalLoggerState::new();
    assert_eq!(logger.bytes(), &[] as &[u8]);

    let mut session = logger.acquire().unwrap();
    session.u8(&1);
    logger.release(session);
    assert_eq!(logger.bytes(), &[1]);

    let mut session = logger.acquire().unwrap();
    session.u16(&0x0302);
    logger.release(session);
    assert_eq!(logger.bytes(), &[1, 2, 3]);
}

#[test]
fn one_record_end_to_end() {
    // a full log statement: acquire, timestamp, format-string reference,
    // one argument, release
    let mut logger = GlobalLoggerState::new();
    let mut session = logger.acquire().expect("idle logger must grant the sink");
    session.leb64(42);
    session.istr(&Str::new(100));
    session.u8(&7);
    logger.release(session);

    // the record is the concatenation of each primitive's own output
    let mut expected = Formatter::new();
    expected.leb64(42);
    let mut tail = Formatter::new();
    tail.istr(&Str::new(100));
    let mut arg = Formatter::new();
    arg.u8(&7);
    let mut all = expected.bytes().to_vec();
    all.extend_from_slice(tail.bytes());
    all.extend_from_slice(arg.bytes());

    assert_eq!(logger.bytes(), &all[..]);
    assert_eq!(logger.bytes(), &[42, 100, 7]);
}

#[test]
fn formatter_serves_as_an_in_memory_write_sink() {
    let mut f = Formatter::new();
    Write::write(&mut f, &[10, 20]);
    Write::write(&mut f, &[30]);
    assert_eq!(f.bytes(), &[10, 20, 30]);
}
