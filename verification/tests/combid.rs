use combid::Generator;
use combid::IdError;
use combid::TimeGenerator;
use combid::be_bytes_u64;
use combid::gen;
use combid::gen_timeid;

#[test]
// Check the bytes filled at marshaling a time.
fn check_bytes_time() {
    let now = std::time::UNIX_EPOCH.elapsed().unwrap();
    let v_time_sec = be_bytes_u64(now.as_secs());

    // Should be like [0, 0, 0, 0, 87, 89, 71, 199]
    assert_eq!(v_time_sec[3], 0);
}

#[test]
fn generators() {
    let mut rng = rand::thread_rng();

    let id = gen(&mut rng).unwrap();
    assert!(id > 0);

    let id = gen_timeid().unwrap();
    assert!(id > 0);
}

#[test]
fn iterators() {
    let mut rng = rand::thread_rng();
    let mut gen = Generator::new(&mut rng);
    let mut result: Result<i64, IdError>;

    println!("\n== Generating Combids");
    for _ in 0..5 {
        result = gen.next().unwrap();
        println!("{:?}", result);
    }

    println!("\n== Generating time ids");
    let mut gen_time = TimeGenerator {};
    for _ in 0..5 {
        result = gen_time.next().unwrap();
        println!("{:?}", result);
    }
    println!();
}
