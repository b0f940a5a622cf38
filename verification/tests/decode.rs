use linux_personality::{
    decode_personality, Personality, ADDR_NO_RANDOMIZE, PER_LINUX, PER_SVR4, READ_IMPLIES_EXEC,
};

#[test]
fn decode_reports_the_failure_sentinel() {
    assert_eq!(decode_personality(-1), Err(()));
}

#[test]
fn decode_accepts_documented_words() {
    let zero = decode_personality(0).expect("zero word");
    assert_eq!(zero.bits(), PER_LINUX);

    let svr4 = decode_personality(PER_SVR4 as i32).expect("persona word");
    assert_eq!(svr4.bits(), PER_SVR4);

    let combined = decode_personality((ADDR_NO_RANDOMIZE | READ_IMPLIES_EXEC) as i32)
        .expect("flag combination");
    assert_eq!(combined.bits(), ADDR_NO_RANDOMIZE | READ_IMPLIES_EXEC);
}

#[test]
fn decode_keeps_the_randomization_bit_visible() {
    let no_aslr = Personality::from_bits(ADDR_NO_RANDOMIZE).unwrap();
    let reported = decode_personality(ADDR_NO_RANDOMIZE as i32).expect("documented word");
    assert!(reported.contains(no_aslr));
}

#[test]
fn decode_rejects_undocumented_words() {
    assert_eq!(decode_personality(0x1000_0000), Err(()));
    assert_eq!(decode_personality(0x0000_0100), Err(()));
    // any negative return other than -1 carries the undocumented top bit
    assert_eq!(decode_personality(-2), Err(()));
    assert_eq!(decode_personality(i32::MIN), Err(()));
}
