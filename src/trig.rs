use vstd::prelude::*;

verus! {

/// `sin` of each multiple of 15 degrees, times 1000.
pub const SIN_TABLE: [i32; 24] = [
    0, 258, 500, 707, 866, 965, 1000, 965, 866, 707, 500, 258, 0, -258, -500, -707, -866, -965,
    -1000, -965, -866, -707, -500, -258,
];

pub open spec fn sin_table() -> Seq<int> {
    seq![
        0int, 258, 500, 707, 866, 965, 1000, 965, 866, 707, 500, 258, 0, -258, -500, -707, -866,
        -965, -1000, -965, -866, -707, -500, -258,
    ]
}

pub open spec fn abs(v: int) -> int {
    if v < 0 {
        -v
    } else {
        v
    }
}

/// Integer division rounding toward zero, as Rust's `/` does.
pub open spec fn tdiv(a: int, b: int) -> int {
    if a >= 0 {
        a / b
    } else {
        -((-a) / b)
    }
}

/// The table entry for an angle in degrees: whole 15-degree steps of its
/// magnitude, modulo a full turn. A negative angle reads the entry of its
/// magnitude.
pub open spec fn sin_spec(v: int) -> int {
    sin_table()[(abs(v) / 15) % 24]
}

pub open spec fn cos_spec(v: int) -> int {
    sin_spec(v + 90)
}

/// `sin(v) * 1000` for `v` in degrees, from a 15-degree table.
pub fn sin(v: i32) -> (r: i32)
    ensures
        r == sin_spec(v as int),
        -1000 <= r <= 1000,
{
    let a: i64 = if v < 0 {
        -(v as i64)
    } else {
        v as i64
    };
    let idx: i64 = (a / 15) % 24;
    assert(SIN_TABLE@.map_values(|e: i32| e as int) =~= sin_table());
    assert(SIN_TABLE@.map_values(|e: i32| e as int)[idx as int] == SIN_TABLE@[idx as int] as int);
    SIN_TABLE[idx as usize]
}

/// `cos(v) * 1000` for `v` in degrees, read as `sin(v + 90)`.
pub fn cos(v: i32) -> (r: i32)
    requires
        v + 90 <= i32::MAX,
    ensures
        r == cos_spec(v as int),
        -1000 <= r <= 1000,
{
    sin(v + 90)
}

} // verus!
