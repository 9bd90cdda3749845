//! The fixed patterns that a universe can load, as coordinate lists.
use vstd::prelude::*;

verus! {

/// The glider, which moves one cell down and right every four generations.
pub open spec fn glider_cells() -> Seq<(u32, u32)> {
    seq![
        (1u32, 2u32),
        (2u32, 3u32),
        (3u32, 1u32),
        (3u32, 2u32),
        (3u32, 3u32),
    ]
}

/// The beacon, an oscillator of period 2.
pub open spec fn beacon_cells() -> Seq<(u32, u32)> {
    seq![
        (1u32, 1u32),
        (1u32, 2u32),
        (2u32, 1u32),
        (2u32, 2u32),
        (3u32, 3u32),
        (3u32, 4u32),
        (4u32, 3u32),
        (4u32, 4u32),
    ]
}

/// The toad, an oscillator of period 2.
pub open spec fn toad_cells() -> Seq<(u32, u32)> {
    seq![
        (2u32, 2u32),
        (2u32, 3u32),
        (2u32, 4u32),
        (3u32, 1u32),
        (3u32, 2u32),
        (3u32, 3u32),
    ]
}

/// The lightweight spaceship.
pub open spec fn spaceship_cells() -> Seq<(u32, u32)> {
    seq![
        (1u32, 1u32),
        (1u32, 4u32),
        (2u32, 5u32),
        (3u32, 1u32),
        (3u32, 5u32),
        (4u32, 2u32),
        (4u32, 3u32),
        (4u32, 4u32),
        (4u32, 5u32),
    ]
}

/// The pulsar's cells as offsets from the centre of the grid.
pub open spec fn pulsar_offsets() -> Seq<(i32, i32)> {
    seq![
        (-6i32, -4i32),
        (-6i32, -3i32),
        (-6i32, -2i32),
        (-6i32, 2i32),
        (-6i32, 3i32),
        (-6i32, 4i32),
        (-4i32, -6i32),
        (-4i32, -1i32),
        (-4i32, 1i32),
        (-4i32, 6i32),
        (-3i32, -6i32),
        (-3i32, -1i32),
        (-3i32, 1i32),
        (-3i32, 6i32),
        (-2i32, -6i32),
        (-2i32, -1i32),
        (-2i32, 1i32),
        (-2i32, 6i32),
        (-1i32, -4i32),
        (-1i32, -3i32),
        (-1i32, -2i32),
        (-1i32, 2i32),
        (-1i32, 3i32),
        (-1i32, 4i32),
        (1i32, -4i32),
        (1i32, -3i32),
        (1i32, -2i32),
        (1i32, 2i32),
        (1i32, 3i32),
        (1i32, 4i32),
        (2i32, -6i32),
        (2i32, -1i32),
        (2i32, 1i32),
        (2i32, 6i32),
        (3i32, -6i32),
        (3i32, -1i32),
        (3i32, 1i32),
        (3i32, 6i32),
        (4i32, -6i32),
        (4i32, -1i32),
        (4i32, 1i32),
        (4i32, 6i32),
        (6i32, -4i32),
        (6i32, -3i32),
        (6i32, -2i32),
        (6i32, 2i32),
        (6i32, 3i32),
        (6i32, 4i32),
    ]
}

/// `x` moved by `d` on a ring of `n` positions.
pub open spec fn wrap(x: int, d: int, n: int) -> int {
    (x + d + n) % n
}

/// The pulsar, an oscillator of period 3, centred on (`h / 2`, `w / 2`) of a `w` by `h` torus.
pub open spec fn pulsar_cells(w: int, h: int) -> Seq<(u32, u32)> {
    Seq::new(
        pulsar_offsets().len(),
        |k: int|
            (
                wrap(h / 2, pulsar_offsets()[k].0 as int, h) as u32,
                wrap(w / 2, pulsar_offsets()[k].1 as int, w) as u32,
            ),
    )
}

/// The cells that `load_pattern` sets alive for the pattern called `name`;
/// none for an unknown name.
pub open spec fn pattern_cells(name: Seq<char>, w: int, h: int) -> Seq<(u32, u32)> {
    if name == "glider"@ {
        glider_cells()
    } else if name == "pulsar"@ {
        pulsar_cells(w, h)
    } else if name == "beacon"@ {
        beacon_cells()
    } else if name == "toad"@ {
        toad_cells()
    } else if name == "spaceship"@ {
        spaceship_cells()
    } else {
        Seq::empty()
    }
}

/// The grid is large enough for the pattern called `name`: every cell of a fixed
/// pattern lies inside it, and the pulsar needs 13 by 13.
pub open spec fn pattern_fits(name: Seq<char>, w: int, h: int) -> bool {
    if name == "glider"@ {
        h >= 4 && w >= 4
    } else if name == "pulsar"@ {
        h >= 13 && w >= 13
    } else if name == "beacon"@ {
        h >= 5 && w >= 5
    } else if name == "toad"@ {
        h >= 4 && w >= 5
    } else if name == "spaceship"@ {
        h >= 5 && w >= 6
    } else {
        true
    }
}

} // verus!
