use nag52::int_lookup;
use nag52::maths::{interp, interp_linear, search_value, Map1d, Map2d, Ratio};

fn value(r: &Ratio) -> f32 {
    r.numerator() as f32 / r.denominator() as f32
}

#[test]
pub fn test_lookup_gt() {
    let x = [0, 10i32];
    assert_eq!((0, 1), search_value(5i32, &x));

    let x = [0, 10, 20i32];
    assert_eq!((0, 1), search_value(5i32, &x));
}

#[test]
pub fn test_lookup_gte() {
    let x = [0, 10, 20i32];
    assert_eq!((1, 1), search_value(10i32, &x));
    assert_eq!((2, 2), search_value(20i32, &x));
}

#[test]
pub fn test_1d_map() {
    let x: [u8; 3] = [10, 20, 30];
    let z: [i32; 3] = [-5, 5, 10];

    let lookup: Map1d<'_, _, _> = (&x).into();
    let res = lookup.interp_1d(20, &z);
    assert_eq!(5.0, value(&res));
    let res = lookup.interp_1d(15, &z);
    assert_eq!(0.0, value(&res));
}

#[test]
pub fn test_2d_map() {
    let x: [u8; 3] = [0, 10, 20];
    let y: [i32; 3] = [-100, 0, 100];
    let z: [i32; 9] = [1, 2, 3, 4, 5, 6, 7, 8, 9];

    let map = Map2d::new(&x, &y);
    // Center point test
    let res = map.interp(10, 0, &z);
    assert_eq!(5.0, value(&res));
    // X axis linear test
    let res = map.interp(15, 0, &z);
    assert_eq!(5.5, value(&res));
    // Y axis linear test
    let res = map.interp(10, -50, &z);
    assert_eq!(3.5, value(&res));
    // Both X and Y test together
    let res = map.interp(15, -50, &z);
    assert_eq!(4.0, value(&res));
    // Out of bounds test (Should be clamped)
    let res = map.interp(200, 200, &z);
    assert_eq!(9.0, value(&res));
}

#[test]
fn search_clamps_below_and_above() {
    let x = [0i32, 10, 20];
    assert_eq!((0, 0), search_value(-5i32, &x));
    assert_eq!((2, 2), search_value(25i32, &x));
    assert_eq!((1, 2), search_value(15i32, &x));
}

#[test]
fn interp_linear_exact_values() {
    // Between the points, exactly.
    let r = interp_linear(5i32, 0i32, 10i32, 0i32, 100i32);
    assert_eq!(50.0, value(&r));
    // Clamped to the end values.
    let r = interp_linear(-5i32, 0i32, 10i32, 0i32, 100i32);
    assert_eq!(0.0, value(&r));
    let r = interp_linear(50i32, 0i32, 10i32, 0i32, 100i32);
    assert_eq!(100.0, value(&r));
    // Points given in falling X order.
    let r = interp_linear(2i32, 10i32, 0i32, 100i32, 0i32);
    assert_eq!(20.0, value(&r));
    // Equal X values give the first output.
    let r = interp_linear(3i32, 4i32, 4i32, 7i32, 9i32);
    assert_eq!(7.0, value(&r));
}

#[test]
fn map_nodes_give_table_values() {
    let x: [u8; 3] = [0, 10, 20];
    let y: [i32; 3] = [-100, 0, 100];
    let z: [i32; 9] = [1, 2, 3, 4, 5, 6, 7, 8, 9];
    let map = Map2d::new(&x, &y);
    for (i, xv) in x.iter().enumerate() {
        for (j, yv) in y.iter().enumerate() {
            let r = map.interp(*xv, *yv, &z);
            assert_eq!(z[j * 3 + i] as f32, value(&r));
        }
    }
    // Below both axes: the first value.
    assert_eq!(1.0, value(&map.interp(0, -500, &z)));
}

#[test]
fn table_interp_clamps_and_truncates() {
    let tab = [(0, 0), (10, 100), (20, 50)];
    assert_eq!(0, interp(-5, &tab));
    assert_eq!(50, interp(25, &tab));
    // Inside a window the value lies on the line between its two points.
    assert_eq!(interp(5, &tab), 50);
    assert_eq!(interp(15, &tab), 75);
    assert_eq!(interp(10, &tab), 100);
}

#[test]
fn integer_table_lookup() {
    let tab = [(0, 0), (10, 100), (20, 50)];
    assert_eq!(0, int_lookup::interp(-5, &tab));
    assert_eq!(50, int_lookup::interp(5, &tab));
    assert_eq!(75, int_lookup::interp(15, &tab));
    assert_eq!(50, int_lookup::interp(30, &tab));
    assert_eq!(int_lookup::interp_int(5, 0, 100, 0, 10), 50);
    assert_eq!(int_lookup::interp_int(-3, 0, 100, 0, 10), 0);
    assert_eq!(int_lookup::interp_int(13, 0, 100, 0, 10), 100);
}
