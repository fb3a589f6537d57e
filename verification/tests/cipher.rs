use caesar::Caesar;

#[test]
fn check_caesar_enc_pass() {
    let mut c = Caesar::default();
    c.set_shift(7);

    // Test happy case
    let result = c.encrypt("ABCDEFGHIJKLMNOPQRSTUVWXYZ");
    let expected = String::from("HIJKLMNOPQRSTUVWXYZABCDEFG");
    assert!(result.is_some());
    assert_eq!(result, Some(expected));
}

#[test]
fn check_caesar_dec_pass() {
    let mut c = Caesar::default();
    c.set_shift(7);

    // Test happy case
    let expected = c.decrypt("HIJKLMNOPQRSTUVWXYZABCDEFG");
    let result = String::from("ABCDEFGHIJKLMNOPQRSTUVWXYZ");
    assert!(expected.is_some());
    assert_eq!(expected, Some(result));
}

#[test]
fn round_trip_every_shift() {
    let msg = "ATTACK AT ONCE";
    for shift in 0..26 {
        let c = Caesar::new(shift);
        let enc = c.encrypt(msg).unwrap();
        let dec = c.decrypt(&enc).unwrap();
        assert_eq!(dec, msg);
    }
}

#[test]
fn spaces_keep_their_positions() {
    let c = Caesar::new(3);
    let enc = c.encrypt("AB C D").unwrap();
    assert_eq!(enc, "DE F G");
    let dec = c.decrypt("DE F G").unwrap();
    assert_eq!(dec, "AB C D");
}

#[test]
fn lowercase_matches_uppercase() {
    let c = Caesar::new(7);
    let lower = c.encrypt("attack at once").unwrap();
    let upper = c.encrypt("ATTACK AT ONCE").unwrap();
    assert_eq!(lower, upper);
}

#[test]
fn shift_twenty_six_is_identity() {
    let c = Caesar::new(26);
    assert_eq!(c.encrypt("HELLO WORLD"), Some(String::from("HELLO WORLD")));
    assert_eq!(c.decrypt("HELLO WORLD"), Some(String::from("HELLO WORLD")));
    let z = Caesar::new(0);
    assert_eq!(z.encrypt("HELLO WORLD"), Some(String::from("HELLO WORLD")));
    assert_eq!(z.decrypt("HELLO WORLD"), Some(String::from("HELLO WORLD")));
}

#[test]
fn out_of_range_shift_wraps() {
    // 130 is 5 * 26, so it acts as shift 0 ...
    let c = Caesar::new(130);
    assert_eq!(c.encrypt("XYZ"), Some(String::from("XYZ")));
    assert_eq!(c.decrypt("XYZ"), Some(String::from("XYZ")));
    // ... and 33 acts as shift 7, in both directions.
    let d = Caesar::new(33);
    assert_eq!(
        d.encrypt("ABCDEFGHIJKLMNOPQRSTUVWXYZ"),
        Some(String::from("HIJKLMNOPQRSTUVWXYZABCDEFG"))
    );
    assert_eq!(
        d.decrypt("HIJKLMNOPQRSTUVWXYZABCDEFG"),
        Some(String::from("ABCDEFGHIJKLMNOPQRSTUVWXYZ"))
    );
}

#[test]
fn default_matches_explicit_shift_ten() {
    let d = Caesar::default();
    let e = Caesar::new(10);
    assert_eq!(d.encrypt("VERY SECRET"), e.encrypt("VERY SECRET"));
    assert_eq!(d.decrypt("FOBI COMBOD"), e.decrypt("FOBI COMBOD"));
    assert_eq!(d.encrypt("VERY SECRET"), Some(String::from("FOBI COMBOD")));
}

#[test]
fn wraps_past_z() {
    let c = Caesar::new(4);
    assert_eq!(c.encrypt("ATTACKATONCE"), Some(String::from("EXXEGOEXSRGI")));
    assert_eq!(c.decrypt("EXXEGOEXSRGI"), Some(String::from("ATTACKATONCE")));
}

#[test]
fn rejects_characters_outside_the_alphabet() {
    let c = Caesar::new(7);
    assert_eq!(c.encrypt("ATTACK AT 9"), None);
    assert_eq!(c.decrypt("HAAHJR!"), None);
    assert_eq!(c.encrypt("caf\u{e9}"), None);
}

#[test]
fn empty_message() {
    let c = Caesar::new(7);
    assert_eq!(c.encrypt(""), Some(String::new()));
    assert_eq!(c.decrypt(""), Some(String::new()));
}

#[test]
fn set_shift_replaces_the_old_value() {
    let mut c = Caesar::new(1);
    c.set_shift(2);
    assert_eq!(c.encrypt("AZ"), Some(String::from("CB")));
}
