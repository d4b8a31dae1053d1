use combid::ClockReading;
use combid::ClockSkew;
use combid::Generator;
use combid::IdError;
use combid::TimeGenerator;
use combid::be_bytes_u32;
use combid::be_bytes_u64;
use combid::combid_from_parts;
use combid::combid_from_reading;
use combid::gen;
use combid::gen_timeid;
use combid::i64_from_be_bytes;
use combid::timeid_from_parts;
use combid::timeid_from_reading;

#[test]
fn valid_readings_always_succeed() {
    let reading = ClockReading { secs: 1_700_000_000, nanos: 123_456_789 };
    assert!(combid_from_reading(Ok(reading), 0xDEADBEEF).is_ok());
    assert!(timeid_from_reading(Ok(reading)).is_ok());

    let zero = ClockReading { secs: 0, nanos: 0 };
    assert!(combid_from_reading(Ok(zero), 0).is_ok());
    assert!(timeid_from_reading(Ok(zero)).is_ok());

    // The live clock stands at or after the epoch on this machine.
    assert!(gen(&mut rand::thread_rng()).is_ok());
    assert!(gen_timeid().is_ok());
}

#[test]
fn slicing_is_deterministic_and_exact() {
    let secs: u64 = 0x0000000157596771;
    let nanos: u32 = 0x12345678;
    let random: u32 = 0xAABBCCDD;

    // byte[4] is the top nanosecond byte, bytes[5..8] the top three random
    // bytes, bytes[0..4] the low four bytes of the second count.
    let sec_bytes = be_bytes_u64(secs);
    let nsec_bytes = be_bytes_u32(nanos);
    let rand_bytes = be_bytes_u32(random);
    assert_eq!(&sec_bytes[4..8], &[0x57, 0x59, 0x67, 0x71]);
    assert_eq!(nsec_bytes[0], 0x12);
    assert_eq!(&rand_bytes[0..3], &[0xAA, 0xBB, 0xCC]);

    let id = combid_from_parts(secs, nanos, random);
    assert_eq!(id, 0x5759677112AABBCC_i64);
    assert_eq!(id, combid_from_parts(secs, nanos, random));

    let tid = timeid_from_parts(secs, nanos);
    assert_eq!(tid, 0x5759677112345678_i64);
    assert_eq!(tid, timeid_from_parts(secs, nanos));
}

#[test]
fn big_endian_read_back() {
    let bytes = be_bytes_u64(0x0102030405060708);
    assert_eq!(bytes, vec![1, 2, 3, 4, 5, 6, 7, 8]);
    assert_eq!(i64_from_be_bytes(&bytes), 0x0102030405060708_i64);

    // The top bit survives as the sign bit of the signed read.
    let neg = be_bytes_u64(0xFFFFFFFFFFFFFFFF);
    assert_eq!(i64_from_be_bytes(&neg), -1_i64);
}

#[test]
fn time_only_ids_order_by_second() {
    let earlier = timeid_from_parts(100, 999_999_999);
    let later = timeid_from_parts(200, 0);
    assert!(earlier < later);

    // Within one second the nanosecond count orders the identifiers.
    assert!(timeid_from_parts(100, 1) < timeid_from_parts(100, 2));
}

#[test]
fn random_backed_ids_are_unique_in_a_sample() {
    // A tight loop lands every draw in the same top-nanosecond-byte window,
    // so only the 2^24 random values separate the identifiers; the sample is
    // sized so that zero duplicates holds with overwhelming probability.
    let mut rng = rand::thread_rng();
    let mut generator = Generator::new(&mut rng);
    let mut ids: Vec<i64> = Vec::with_capacity(64);
    for _ in 0..64 {
        ids.push(generator.next().unwrap().unwrap());
    }
    ids.sort();
    for pair in ids.windows(2) {
        assert_ne!(pair[0], pair[1]);
    }
}

#[test]
fn clock_before_epoch_reports_time_error() {
    let skew = ClockSkew { secs: 5, nanos: 250_000_000 };

    let r = combid_from_reading(Err(skew), 0x12345678);
    assert_eq!(r, Err(IdError::Time(skew)));
    assert!(matches!(r, Err(IdError::Time(_))));

    let r = timeid_from_reading(Err(skew));
    assert_eq!(r, Err(IdError::Time(skew)));
    assert!(matches!(r, Err(IdError::Time(_))));
}

#[test]
fn adapters_never_signal_exhaustion() {
    let mut rng = rand::thread_rng();
    let mut generator = Generator::new(&mut rng);
    for _ in 0..8 {
        assert!(generator.next().is_some());
    }

    let mut gen_time = TimeGenerator {};
    for _ in 0..8 {
        assert!(gen_time.next().is_some());
    }
}
