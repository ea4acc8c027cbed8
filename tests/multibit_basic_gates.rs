use hack_logic::multibit_basic_gates::{
    and16, and4, and8, mux16, mux4, mux8, not16, not4, not8, or16, or4, or8, xor16, xor4, xor8,
};

#[test]
fn test_not16() {
    let input = [true; 16];
    let output = not16(input);
    for i in 0..output.len() {
        assert_eq!(output[i], false);
    }
    let input = [false; 16];
    let output = not16(input);
    for i in 0..output.len() {
        assert_eq!(output[i], true);
    }
}

#[test]
fn test_and16() {
    let a = [true; 16];
    let b = [true; 16];
    let output = and16(a, b);
    for i in 0..output.len() {
        assert_eq!(output[i], true);
    }
    let a = [true; 16];
    let b = [false; 16];
    let output = and16(a, b);
    for i in 0..output.len() {
        assert_eq!(output[i], false);
    }
    let a = [true; 16];
    let b = [
        true, false, false, false, false, true, false, false, false, false, false, false,
        false, false, false, true,
    ];
    let output = and16(a, b);
    assert_eq!(output[0], true);
    assert_eq!(output[1], false);
    assert_eq!(output[2], false);
    assert_eq!(output[3], false);
    assert_eq!(output[4], false);
    assert_eq!(output[5], true);
    assert_eq!(output[6], false);
    assert_eq!(output[7], false);
    assert_eq!(output[8], false);
    assert_eq!(output[9], false);
    assert_eq!(output[10], false);
    assert_eq!(output[11], false);
    assert_eq!(output[12], false);
    assert_eq!(output[13], false);
    assert_eq!(output[14], false);
    assert_eq!(output[15], true);
}

#[test]
fn test_or16() {
    let a = [true; 16];
    let b = [true; 16];
    let output = or16(a, b);
    for i in 0..output.len() {
        assert_eq!(output[i], true);
    }
    let a = [true; 16];
    let b = [false; 16];
    let output = or16(a, b);
    for i in 0..output.len() {
        assert_eq!(output[i], true);
    }
    let a = [false; 16];
    let b = [
        true, false, false, false, false, true, false, false, false, false, false, false,
        false, false, false, true,
    ];
    let output = or16(a, b);
    assert_eq!(output[0], true);
    assert_eq!(output[1], false);
    assert_eq!(output[2], false);
    assert_eq!(output[3], false);
    assert_eq!(output[4], false);
    assert_eq!(output[5], true);
    assert_eq!(output[6], false);
    assert_eq!(output[7], false);
    assert_eq!(output[8], false);
    assert_eq!(output[9], false);
    assert_eq!(output[10], false);
    assert_eq!(output[11], false);
    assert_eq!(output[12], false);
    assert_eq!(output[13], false);
    assert_eq!(output[14], false);
    assert_eq!(output[15], true);
}

#[test]
fn test_xor16() {
    let a = [true; 16];
    let b = [true; 16];
    let output = xor16(a, b);
    for i in 0..output.len() {
        assert_eq!(output[i], false);
    }
    let a = [
        true, true, false, true, true, true, true, true, true, true, true, true, true, true,
        true, false,
    ];
    let b = [
        false, false, true, false, false, false, false, false, false, false, false, false,
        false, false, false, true,
    ];
    let output = xor16(a, b);
    for i in 0..output.len() {
        assert_eq!(output[i], true);
    }
}

#[test]
fn test_mux16() {
    let a = [
        true, true, false, true, true, true, true, false, false, true, false, true, true, true,
        true, false,
    ];
    let b = [
        false, false, true, false, false, false, false, false, false, false, false, false,
        false, false, false, true,
    ];
    let output = mux16(a, b, false);
    for i in 0..output.len() {
        assert_eq!(output[i], a[i]);
    }

    let output = mux16(a, b, true);
    for i in 0..output.len() {
        assert_eq!(output[i], b[i]);
    }
}

#[test]
fn test_not16_mixed() {
    let a = [
        true, false, true, true, false, false, true, false, true, true, true, false, false, false,
        true, false,
    ];
    let output = not16(a);
    for i in 0..output.len() {
        assert_eq!(output[i], !a[i]);
    }
}

#[test]
fn test_xor16_mixed() {
    let a = [
        true, false, true, true, false, false, true, false, true, true, true, false, false, false,
        true, false,
    ];
    let b = [
        true, true, false, true, false, true, true, false, false, true, false, false, true, false,
        true, true,
    ];
    let output = xor16(a, b);
    for i in 0..output.len() {
        assert_eq!(output[i], a[i] != b[i]);
    }
}

#[test]
fn test_four_bit_gates() {
    let a = [true, true, false, false];
    let b = [true, false, true, false];
    assert_eq!(not4(a), [false, false, true, true]);
    assert_eq!(and4(a, b), [true, false, false, false]);
    assert_eq!(or4(a, b), [true, true, true, false]);
    assert_eq!(xor4(a, b), [false, true, true, false]);
    assert_eq!(mux4(a, b, false), a);
    assert_eq!(mux4(a, b, true), b);
}

#[test]
fn test_eight_bit_gates() {
    let a = [true, true, false, false, true, false, true, false];
    let b = [true, false, true, false, false, false, true, true];
    assert_eq!(not8(a), [false, false, true, true, false, true, false, true]);
    assert_eq!(and8(a, b), [true, false, false, false, false, false, true, false]);
    assert_eq!(or8(a, b), [true, true, true, false, true, false, true, true]);
    assert_eq!(xor8(a, b), [false, true, true, false, true, false, false, true]);
    assert_eq!(mux8(a, b, false), a);
    assert_eq!(mux8(a, b, true), b);
}
