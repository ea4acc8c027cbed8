use hack_logic::multiway_basic_gates::{
    and8way, demux4way, demux8way, mux4way16, mux8way16, or16way, or8way,
};

#[test]
fn test_or8way() {
    let input = [true, false, false, false, false, false, false, false];
    let output = or8way(input);
    assert_eq!(output, true);

    let input = [false, false, false, false, true, false, false, false];
    let output = or8way(input);
    assert_eq!(output, true);

    let input = [false; 8];
    let output = or8way(input);
    assert_eq!(output, false);
}
#[test]
fn test_and8way() {
    let input = [true, false, false, false, false, false, false, false];
    let output = and8way(input);
    assert_eq!(output, false);

    let input = [false, false, false, false, true, false, false, false];
    let output = and8way(input);
    assert_eq!(output, false);

    let input = [false; 8];
    let output = and8way(input);
    assert_eq!(output, false);

    let input = [true; 8];
    let output = and8way(input);
    assert_eq!(output, true);
}

#[test]
fn test_mux4way16() {
    let a = [true; 16];
    let b = [false; 16];
    let mut c = [true; 16];
    c[0] = false;
    c[15] = false;
    let mut d = [false; 16];
    d[0] = true;
    d[15] = true;
    let output = mux4way16(a, b, c, d, [false, false]);

    for i in 0..output.len() {
        assert_eq!(output[i], a[i]);
    }

    let output = mux4way16(a, b, c, d, [false, true]);
    for i in 0..output.len() {
        assert_eq!(output[i], b[i]);
    }

    let output = mux4way16(a, b, c, d, [true, false]);
    for i in 0..output.len() {
        assert_eq!(output[i], c[i]);
    }

    let output = mux4way16(a, b, c, d, [true, true]);
    for i in 0..output.len() {
        assert_eq!(output[i], d[i]);
    }
}

#[test]
fn test_mux8way16() {
    let a = [true; 16];
    let b = [false; 16];
    let mut c = [true; 16];
    c[0] = false;
    c[15] = false;
    let mut d = [false; 16];
    d[0] = true;
    d[15] = true;
    let mut e = [true; 16];
    e[1] = false;
    let mut f = [false; 16];
    f[1] = true;
    let mut g = [true; 16];
    g[0] = false;
    g[1] = false;
    g[15] = false;
    let mut h = [false; 16];
    h[0] = true;
    h[1] = true;
    h[15] = true;
    let output = mux8way16(a, b, c, d, e, f, g, h, [false, false, false]);
    for i in 0..output.len() {
        assert_eq!(output[i], a[i]);
    }

    let output = mux8way16(a, b, c, d, e, f, g, h, [false, false, true]);
    for i in 0..output.len() {
        assert_eq!(output[i], b[i]);
    }

    let output = mux8way16(a, b, c, d, e, f, g, h, [false, true, false]);
    for i in 0..output.len() {
        assert_eq!(output[i], c[i]);
    }
    let output = mux8way16(a, b, c, d, e, f, g, h, [false, true, true]);
    for i in 0..output.len() {
        assert_eq!(output[i], d[i]);
    }

    let output = mux8way16(a, b, c, d, e, f, g, h, [true, false, false]);
    for i in 0..output.len() {
        assert_eq!(output[i], e[i]);
    }

    let output = mux8way16(a, b, c, d, e, f, g, h, [true, false, true]);
    for i in 0..output.len() {
        assert_eq!(output[i], f[i]);
    }

    let output = mux8way16(a, b, c, d, e, f, g, h, [true, true, false]);
    for i in 0..output.len() {
        assert_eq!(output[i], g[i]);
    }

    let output = mux8way16(a, b, c, d, e, f, g, h, [true, true, true]);
    for i in 0..output.len() {
        assert_eq!(output[i], h[i]);
    }
}
#[test]
fn test_demux4way() {
    let output = demux4way(true, [false, false]);
    assert_eq!([false, false, false, true], output);

    let output = demux4way(true, [false, true]);
    assert_eq!([false, false, true, false], output);

    let output = demux4way(true, [true, false]);
    assert_eq!([false, true, false, false], output);

    let output = demux4way(true, [true, true]);
    assert_eq!([true, false, false, false], output);

    let output = demux4way(false, [false, false]);
    assert_eq!([false, false, false, false], output);

    let output = demux4way(false, [false, true]);
    assert_eq!([false, false, false, false], output);

    let output = demux4way(false, [true, false]);
    assert_eq!([false, false, false, false], output);

    let output = demux4way(false, [true, true]);
    assert_eq!([false, false, false, false], output);
}

#[test]
fn test_demux8way() {
    let output = demux8way(true, [false, false, false]);
    assert_eq!(
        [false, false, false, false, false, false, false, true],
        output
    );

    let output = demux8way(true, [false, false, true]);
    assert_eq!(
        [false, false, false, false, false, false, true, false],
        output
    );

    let output = demux8way(true, [false, true, false]);
    assert_eq!(
        [false, false, false, false, false, true, false, false],
        output
    );

    let output = demux8way(true, [false, true, true]);
    assert_eq!(
        [false, false, false, false, true, false, false, false],
        output
    );

    let output = demux8way(true, [true, false, false]);
    assert_eq!(
        [false, false, false, true, false, false, false, false],
        output
    );

    let output = demux8way(true, [true, false, true]);
    assert_eq!(
        [false, false, true, false, false, false, false, false],
        output
    );

    let output = demux8way(true, [true, true, false]);
    assert_eq!(
        [false, true, false, false, false, false, false, false],
        output
    );

    let output = demux8way(true, [true, true, true]);
    assert_eq!(
        [true, false, false, false, false, false, false, false],
        output
    );

    let output = demux8way(false, [false, false, false]);
    assert_eq!(
        [false, false, false, false, false, false, false, false],
        output
    );

    let output = demux8way(false, [false, false, true]);
    assert_eq!(
        [false, false, false, false, false, false, false, false],
        output
    );

    let output = demux8way(false, [false, true, false]);
    assert_eq!(
        [false, false, false, false, false, false, false, false],
        output
    );

    let output = demux8way(false, [false, true, true]);
    assert_eq!(
        [false, false, false, false, false, false, false, false],
        output
    );

    let output = demux8way(false, [true, false, false]);
    assert_eq!(
        [false, false, false, false, false, false, false, false],
        output
    );

    let output = demux8way(false, [true, false, true]);
    assert_eq!(
        [false, false, false, false, false, false, false, false],
        output
    );

    let output = demux8way(false, [true, true, false]);
    assert_eq!(
        [false, false, false, false, false, false, false, false],
        output
    );

    let output = demux8way(false, [true, true, true]);
    assert_eq!(
        [false, false, false, false, false, false, false, false],
        output
    );
}

#[test]
fn test_or8way_last_bit() {
    let input = [false, false, false, false, false, false, false, true];
    assert_eq!(or8way(input), true);
    assert_eq!(or8way([true; 8]), true);
}

#[test]
fn test_and8way_one_low() {
    let input = [true, true, true, true, true, true, true, false];
    assert_eq!(and8way(input), false);
}

#[test]
fn test_or16way() {
    assert_eq!(or16way([false; 16]), false);
    assert_eq!(or16way([true; 16]), true);
    for k in 0..16 {
        let mut input = [false; 16];
        input[k] = true;
        assert_eq!(or16way(input), true);
    }
}

#[test]
fn test_demux4way_position_from_selector() {
    let selectors = [[false, false], [false, true], [true, false], [true, true]];
    for (value, s) in selectors.iter().enumerate() {
        let output = demux4way(true, *s);
        for k in 0..4 {
            assert_eq!(output[k], k == 3 - value);
        }
    }
}

#[test]
fn test_demux8way_position_from_selector() {
    for value in 0..8usize {
        let s = [value & 4 != 0, value & 2 != 0, value & 1 != 0];
        let output = demux8way(true, s);
        for k in 0..8 {
            assert_eq!(output[k], k == 7 - value);
        }
        assert_eq!(demux8way(false, s), [false; 8]);
    }
}
