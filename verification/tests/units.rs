use ug_max::{
    buff_size, col_defs, DIGITS, EQUALS, EXCLAMATION, HASH, HYPHEN, LETTERS, PERIOD, PLUS, SPACE,
    SPACING, UNSUPPORTED,
};

fn letter_table() -> Vec<&'static [u8]> {
    let mut table: Vec<&'static [u8]> = Vec::new();
    for glyph in LETTERS.iter() {
        table.push(&glyph[..]);
    }
    table
}

fn symbol_table() -> Vec<&'static [u8]> {
    vec![&EXCLAMATION, &PERIOD, &SPACE, &HYPHEN, &EQUALS, &HASH, &PLUS]
}

fn check_against<const OUTSIZE: usize>(source: &str, sample: &[&[u8]]) {
    let boundary = sample.len() - 1;
    let mut out = [&[0u8; 0] as &[u8]; OUTSIZE];

    col_defs(&source, 0, &mut out);
    let mut out_iter = out.into_iter();

    for i in 0..=boundary {
        let letter = sample[i];

        let mut next = out_iter.next().unwrap();
        assert_eq!(letter, next);

        if i < boundary {
            next = out_iter.next().unwrap();
            assert_eq!(SPACING, next);
        }
    }

    assert_eq!(None, out_iter.next());
}

#[test]
fn letters_symbols() {
    let alphabet1 = "abcdefghijklmnopqrstuvwxyz";
    let alphabet2 = "ABCDEFGHIJKLMNOPQRSTUVWXYZ";
    let symbols = "!. -=#+";

    check_against::<51>(alphabet1, &letter_table());
    check_against::<51>(alphabet2, &letter_table());
    check_against::<13>(symbols, &symbol_table());
}

#[test]
fn numbers() {
    let numbers = "0123456789";

    let mut out = [&[0u8; 0] as &[u8]; 19];

    col_defs(&numbers, 0, &mut out);
    let mut out_iter = out.into_iter();

    for i in 0..10usize {
        let digit = DIGITS[i];

        let mut next = out_iter.next().unwrap();
        assert_eq!(digit, next);

        if i < 9 {
            next = out_iter.next().unwrap();
            assert_eq!(SPACING, next);
        }
    }

    assert_eq!(None, out_iter.next());
}

#[test]
fn unsupported() {
    let mut out = [&[0u8; 0] as &[u8]; 1];
    let text = ">";

    col_defs(&text, 0, &mut out);
    assert_eq!(UNSUPPORTED, out[0]);
}

#[test]
fn final_spacing() {
    let mut out = [&[0u8; 0] as &[u8]; 6];
    let text = " ";

    col_defs(&text, 5, &mut out);

    for i in 1..6 {
        assert_eq!(SPACING, out[i]);
    }
}

#[test]
fn buff_size_const() {
    const TEXT: &str = "abc123";

    let buffer = vec![&[0u8; 0]; buff_size(TEXT, 2)];
    assert_eq!(13, buffer.len());
}

#[test]
fn buff_size_dynam() {
    let text: &str = "abc123";
    assert_eq!(11, buff_size(text, 0));
}
