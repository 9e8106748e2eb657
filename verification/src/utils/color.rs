//! The player colour palette and colour assignment.
use vstd::prelude::*;

verus! {

/// Number of colours in the palette.
pub const PLAYER_COLOR_COUNT: usize = 16;

/// The predefined player colours (hex format), in palette order.
pub open spec fn palette() -> Seq<Seq<char>> {
    seq![
        "#FF6B6B"@, "#4ECDC4"@, "#45B7D1"@, "#96CEB4"@, "#FFEAA7"@, "#DDA0DD"@, "#98D8C8"@,
        "#F7DC6F"@, "#BB8FCE"@, "#85C1E9"@, "#F8B500"@, "#58D68D"@, "#EC7063"@, "#5DADE2"@,
        "#F1948A"@, "#82E0AA"@,
    ]
}

/// The colour at position `i` of the palette.
pub fn player_color(i: usize) -> (r: &'static str)
    requires
        i < PLAYER_COLOR_COUNT,
    ensures
        r@ == palette()[i as int],
{
    match i {
        0 => "#FF6B6B",
        1 => "#4ECDC4",
        2 => "#45B7D1",
        3 => "#96CEB4",
        4 => "#FFEAA7",
        5 => "#DDA0DD",
        6 => "#98D8C8",
        7 => "#F7DC6F",
        8 => "#BB8FCE",
        9 => "#85C1E9",
        10 => "#F8B500",
        11 => "#58D68D",
        12 => "#EC7063",
        13 => "#5DADE2",
        14 => "#F1948A",
        _ => "#82E0AA",
    }
}

/// Assign a colour to a player based on their position in the game: the palette wraps around.
pub fn assign_player_color(player_index: usize) -> (r: &'static str)
    ensures
        r@ == palette()[(player_index % PLAYER_COLOR_COUNT) as int],
{
    player_color(player_index % PLAYER_COLOR_COUNT)
}

/// Whether palette colour `i` is absent from `taken`.
pub open spec fn color_free(taken: Seq<String>, i: int) -> bool {
    forall|k: int| 0 <= k < taken.len() ==> taken[k]@ != palette()[i]
}

/// Position of the first free palette colour at or after `i`; 0 when there is none.
pub open spec fn first_free_from(taken: Seq<String>, i: int) -> int
    decreases PLAYER_COLOR_COUNT - i,
{
    if i < 0 || i >= PLAYER_COLOR_COUNT {
        0
    } else if color_free(taken, i) {
        i
    } else {
        first_free_from(taken, i + 1)
    }
}

/// The colour a new player gets while `taken` are in use: the first free palette
/// colour, or the first colour when all are taken.
pub open spec fn spec_next_color(taken: Seq<String>) -> Seq<char> {
    palette()[first_free_from(taken, 0)]
}

/// Skipping colours that are all taken does not change the first free one.
proof fn lemma_first_free_skip(taken: Seq<String>, i: int)
    requires
        0 <= i <= PLAYER_COLOR_COUNT,
        forall|j: int| 0 <= j < i ==> !color_free(taken, j),
    ensures
        first_free_from(taken, 0) == first_free_from(taken, i),
    decreases i,
{
    if i > 0 {
        lemma_first_free_skip(taken, i - 1);
    }
}

/// Whether `s` is among `taken`.
fn contains_color(taken: &[String], s: &String) -> (r: bool)
    ensures
        r == exists|k: int| 0 <= k < taken@.len() && taken@[k]@ == s@,
{
    let mut k: usize = 0;
    while k < taken.len()
        invariant
            k <= taken@.len(),
            forall|m: int| 0 <= m < k ==> taken@[m]@ != s@,
        decreases taken@.len() - k,
    {
        if taken[k] == *s {
            return true;
        }
        k = k + 1;
    }
    false
}

/// Position in the palette of the first colour not in `taken`, or 0 when all are taken.
pub fn next_available_color_index(taken: &[String]) -> (r: usize)
    ensures
        r < PLAYER_COLOR_COUNT,
        r == first_free_from(taken@, 0),
        forall|j: int| 0 <= j < r ==> !color_free(taken@, j),
        color_free(taken@, r as int) || (r == 0 && forall|j: int|
            0 <= j < PLAYER_COLOR_COUNT ==> !color_free(taken@, j)),
{
    let mut i: usize = 0;
    while i < PLAYER_COLOR_COUNT
        invariant
            i <= PLAYER_COLOR_COUNT,
            forall|j: int| 0 <= j < i ==> !color_free(taken@, j),
        decreases PLAYER_COLOR_COUNT - i,
    {
        let c = String::from_str(player_color(i));
        if !contains_color(taken, &c) {
            proof {
                lemma_first_free_skip(taken@, i as int);
            }
            return i;
        }
        i = i + 1;
    }
    proof {
        lemma_first_free_skip(taken@, PLAYER_COLOR_COUNT as int);
    }
    0
}

/// Get the first palette colour that has not been taken; the first colour when all are taken.
pub fn get_next_available_color(taken_colors: &[String]) -> (r: &'static str)
    ensures
        r@ == spec_next_color(taken_colors@),
        exists|i: int|
            0 <= i < PLAYER_COLOR_COUNT && r@ == palette()[i] && (forall|j: int|
                0 <= j < i ==> !color_free(taken_colors@, j)) && (color_free(taken_colors@, i) || (
            i == 0 && forall|j: int| 0 <= j < PLAYER_COLOR_COUNT ==> !color_free(taken_colors@, j))),
{
    let i = next_available_color_index(taken_colors);
    player_color(i)
}

/// No two palette colours are the same.
pub proof fn lemma_palette_distinct()
    ensures
        palette().no_duplicates(),
{
    reveal_strlit("#FF6B6B");
    reveal_strlit("#4ECDC4");
    reveal_strlit("#45B7D1");
    reveal_strlit("#96CEB4");
    reveal_strlit("#FFEAA7");
    reveal_strlit("#DDA0DD");
    reveal_strlit("#98D8C8");
    reveal_strlit("#F7DC6F");
    reveal_strlit("#BB8FCE");
    reveal_strlit("#85C1E9");
    reveal_strlit("#F8B500");
    reveal_strlit("#58D68D");
    reveal_strlit("#EC7063");
    reveal_strlit("#5DADE2");
    reveal_strlit("#F1948A");
    reveal_strlit("#82E0AA");
    assert forall|i: int, j: int| 0 <= i < 16 && 0 <= j < 16 && i != j implies palette()[i] != palette()[j] by {
        if palette()[i] == palette()[j] {
            assert(palette()[i][1] == palette()[j][1]);
            assert(palette()[i][2] == palette()[j][2]);
            assert(palette()[i][3] == palette()[j][3]);
            assert(palette()[i][4] == palette()[j][4]);
        }
    }
}

/// With fewer players than colours, some colour is free, so a new player's colour is
/// one that nobody in the game has.
pub proof fn lemma_next_color_is_free(taken: Seq<String>)
    requires
        taken.len() < PLAYER_COLOR_COUNT,
    ensures
        color_free(taken, first_free_from(taken, 0)),
        forall|k: int| 0 <= k < taken.len() ==> taken[k]@ != spec_next_color(taken),
{
    let views = taken.map_values(|t: String| t@);
    if !color_free(taken, first_free_from(taken, 0)) {
        // then no colour is free at all
        assert forall|i: int| 0 <= i < PLAYER_COLOR_COUNT implies !color_free(taken, i) by {
            lemma_first_free_none(taken, 0, i);
        }
        lemma_palette_distinct();
        palette().unique_seq_to_set();
        assert(palette().to_set().subset_of(views.to_set())) by {
            assert forall|c: Seq<char>| palette().to_set().contains(c) implies views.to_set().contains(c) by {
                let i = choose|i: int| 0 <= i < palette().len() && palette()[i] == c;
                assert(!color_free(taken, i));
                let k = choose|k: int| 0 <= k < taken.len() && taken[k]@ == palette()[i];
                assert(views[k] == c);
            }
        }
        views.lemma_cardinality_of_set();
        vstd::seq_lib::seq_to_set_is_finite(views);
        vstd::set_lib::lemma_len_subset(palette().to_set(), views.to_set());
        assert(false);
    }
}

/// When the search from `i` finds no free colour, none at or after `i` is free.
proof fn lemma_first_free_none(taken: Seq<String>, i: int, j: int)
    requires
        0 <= i <= j < PLAYER_COLOR_COUNT,
        !color_free(taken, first_free_from(taken, i)),
    ensures
        !color_free(taken, j),
    decreases j - i,
{
    if color_free(taken, i) {
    } else if i < j {
        lemma_first_free_none(taken, i + 1, j);
    }
}

}
