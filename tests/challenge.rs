use socialvoid::challenge::{
    base32_padding, dynamic_truncation, otp_from_code, otp_from_mac, pad_challenge,
};
use socialvoid::{answer_challenge, answer_challenge_at, hotp, totp, totp_at};

const RFC_KEY: &str = "GEZDGNBVGY3TQOJQGEZDGNBVGY3TQOJQ";

#[test]
fn it_should_get_the_correct_number_of_hotp_digits() {
    let digits = 6;
    let counter = 23;
    let otp_string = hotp(String::from("ff"), counter, digits).unwrap();
    println!("{}", otp_string);
    assert_eq!(otp_string.len(), 6);
}

#[test]
fn hotp_of_two_character_key() {
    assert_eq!(hotp(String::from("ff"), 23, 6).unwrap(), "490951");
}

#[test]
fn hotp_matches_rfc4226_vectors() {
    let expected = [
        "755224", "287082", "359152", "969429", "338314", "254676", "287922", "162583",
        "399871", "520489",
    ];
    for (counter, value) in expected.iter().enumerate() {
        assert_eq!(hotp(RFC_KEY.to_string(), counter as u64, 6).unwrap(), *value);
    }
}

#[test]
fn hotp_is_deterministic() {
    let a = hotp(RFC_KEY.to_string(), 7, 6);
    let b = hotp(RFC_KEY.to_string(), 7, 6);
    assert_eq!(a, b);
}

#[test]
fn hotp_upper_cases_the_key() {
    assert_eq!(
        hotp("jbswy3dpehpk3pxp".to_string(), 1, 6),
        hotp("JBSWY3DPEHPK3PXP".to_string(), 1, 6)
    );
    assert_eq!(hotp("jbswy3dpehpk3pxp".to_string(), 1, 6).unwrap(), "996554");
}

#[test]
fn hotp_other_digit_counts() {
    assert_eq!(hotp("JBSWY3DPEHPK3PXP".to_string(), 0, 8).unwrap(), "63282760");
    assert_eq!(hotp("JBSWY3DPEHPK3PXP".to_string(), 0, 0).unwrap(), "");
}

#[test]
fn hotp_rejects_non_base32_key() {
    assert_eq!(hotp("AB1".to_string(), 5, 6), None);
    assert_eq!(hotp("AB CD".to_string(), 5, 6), None);
}

#[test]
fn padding_for_every_remainder() {
    for len in 0usize..=24 {
        let pad = base32_padding(len);
        assert_eq!(pad, (8 - len % 8) % 8);
        assert!(pad < 8);
        assert_eq!((len + pad) % 8, 0);
    }
    assert_eq!(base32_padding(8), 0);
    assert_eq!(base32_padding(9), 7);
    assert_eq!(base32_padding(15), 1);
}

#[test]
fn pad_challenge_upper_cases_and_pads() {
    assert_eq!(pad_challenge("ab"), "AB======");
    assert_eq!(pad_challenge("ABCDEFGH"), "ABCDEFGH");
    assert_eq!(pad_challenge("abcdefghi"), "ABCDEFGHI=======");
    assert_eq!(pad_challenge(""), "");
}

#[test]
fn decoding_succeeds_for_every_remainder() {
    let key = "JBSWY3DPEHPK3PXPJBSWY3DPEHPK3PXP";
    let expected = [
        "219172", "384779", "894286", "894286", "263354", "283276", "283276", "358902",
    ];
    for (i, value) in expected.iter().enumerate() {
        let n = 8 + i;
        assert_eq!(hotp(key[..n].to_string(), 5, 6).unwrap(), *value, "length {}", n);
    }
}

#[test]
fn dynamic_truncation_of_rfc4226_example() {
    let mac: Vec<u8> = vec![
        0x1f, 0x86, 0x98, 0x69, 0x0e, 0x02, 0xca, 0x16, 0x61, 0x85, 0x50, 0xef, 0x7f, 0x19,
        0xda, 0x8e, 0x94, 0x5b, 0x55, 0x5a,
    ];
    assert_eq!(dynamic_truncation(&mac), 1357872921);
    assert_eq!(otp_from_mac(&mac, 6), "872921");
}

#[test]
fn otp_from_code_pads_and_cuts() {
    assert_eq!(otp_from_code(7, 6), "000007");
    assert_eq!(otp_from_code(1234567890, 6), "567890");
    assert_eq!(otp_from_code(123, 8), "00000123");
    assert_eq!(otp_from_code(0, 1), "0");
    assert_eq!(otp_from_code(2147483647, 10), "2147483647");
}

#[test]
fn totp_uses_thirty_second_windows() {
    let key = "JBSWY3DPEHPK3PXP".to_string();
    assert_eq!(totp_at(key.clone(), 59).unwrap(), "996554");
    assert_eq!(totp_at(key.clone(), 59), hotp(key.clone(), 1, 6));
    assert_eq!(totp_at(key.clone(), 60), totp_at(key.clone(), 89));
    assert_eq!(totp_at(key.clone(), 90).unwrap(), "143627");
}

#[test]
fn totp_now_has_six_digits() {
    let code = totp("JBSWY3DPEHPK3PXP".to_string()).unwrap();
    assert_eq!(code.len(), 6);
    assert!(code.chars().all(|c| c.is_ascii_digit()));
    assert_eq!(totp("not base32!".to_string()), None);
}

#[test]
fn answer_is_fixed_within_a_window_and_changes_across() {
    let private_hash = "privatehash".to_string();
    let challenge = "JBSWY3DPEHPK3PXP".to_string();
    let at = |t: u64| answer_challenge_at(private_hash.clone(), challenge.clone(), t).unwrap();
    assert_eq!(at(0), "dec44c925b3b172ca125b960337d2cb6af53384a");
    assert_eq!(at(60), "441574999f5fd364a38542554650b8f2f03a79dd");
    assert_eq!(at(60), at(89));
    assert_ne!(at(89), at(90));
    assert_eq!(at(90), "171f06bedd82049a6f740fbf2d5a52528b3308f6");
    assert_eq!(at(1700000000), "a3e902b7ff81932bce6b111a3b8f6e4dba5837aa");
}

#[test]
fn answer_challenge_now() {
    let answer = answer_challenge("privatehash".to_string(), "JBSWY3DPEHPK3PXP".to_string())
        .unwrap();
    assert_eq!(answer.len(), 40);
    assert!(answer.chars().all(|c| c.is_ascii_hexdigit() && !c.is_ascii_uppercase()));
    assert_eq!(answer_challenge("p".to_string(), "0189".to_string()), None);
}
