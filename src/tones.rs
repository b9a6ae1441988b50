use vstd::prelude::*;

verus! {

/// The tone of row `row` of the telephone keypad, in hertz (the lower tone).
pub open spec fn row_hz(row: int) -> u32 {
    if row == 0 {
        697
    } else if row == 1 {
        770
    } else if row == 2 {
        852
    } else {
        941
    }
}

/// The tone of column `col` of the telephone keypad, in hertz (the higher tone).
pub open spec fn column_hz(col: int) -> u32 {
    if col == 0 {
        1209
    } else if col == 1 {
        1336
    } else if col == 2 {
        1477
    } else {
        1633
    }
}

/// The symbol at row `row` and column `col` of the four-by-four keypad.
pub open spec fn key_at(row: int, col: int) -> char {
    let keys = seq![
        seq!['1', '2', '3', 'A'],
        seq!['4', '5', '6', 'B'],
        seq!['7', '8', '9', 'C'],
        seq!['*', '0', '#', 'D'],
    ];
    keys[row][col]
}

/// `row` and `col` name a key of the keypad.
pub open spec fn on_keypad(row: int, col: int) -> bool {
    0 <= row < 4 && 0 <= col < 4
}

/// `c` stands somewhere on the keypad.
pub open spec fn is_key(c: char) -> bool {
    exists|row: int, col: int| #[trigger] on_keypad(row, col) && key_at(row, col) == c
}

/// The pair (higher tone, lower tone) that a symbol sounds, or `None` for a
/// symbol that is not on the keypad.
pub open spec fn tone_pair(c: char) -> Option<(u32, u32)> {
    if is_key(c) {
        let (row, col) = choose|row: int, col: int| #[trigger] on_keypad(row, col) && key_at(row, col) == c;
        Some((column_hz(col), row_hz(row)))
    } else {
        None
    }
}

/// Every key sounds the tone of its column and the tone of its row.
pub proof fn lemma_key_tones(row: int, col: int)
    requires
        on_keypad(row, col),
    ensures
        tone_pair(key_at(row, col)) == Some((column_hz(col), row_hz(row))),
{
    let c = key_at(row, col);
    assert(is_key(c));
    let (r, k) = choose|r: int, k: int| #[trigger] on_keypad(r, k) && key_at(r, k) == c;
    assert(r == row && k == col);
}

/// A character other than the sixteen symbols is not on the keypad.
proof fn lemma_not_key(c: char)
    requires
        !(c == '1' || c == '2' || c == '3' || c == 'A' || c == '4' || c == '5' || c == '6' || c
            == 'B' || c == '7' || c == '8' || c == '9' || c == 'C' || c == '*' || c == '0' || c
            == '#' || c == 'D'),
    ensures
        !is_key(c),
{
    assert forall|row: int, col: int| #[trigger] on_keypad(row, col) implies key_at(row, col) != c by {
        assert(row == 0 || row == 1 || row == 2 || row == 3);
        assert(col == 0 || col == 1 || col == 2 || col == 3);
    }
}

/// The tones of a keypad symbol: `Some((high, low))` in hertz for the sixteen
/// symbols `0`-`9`, `A`-`D`, `*` and `#`, and `None` for any other character.
pub fn to_frequencies(character: char) -> (r: Option<(u32, u32)>)
    ensures
        r == tone_pair(character),
{
    match character {
        '1' => {
            proof {
                lemma_key_tones(0, 0);
            }
            Some((1209, 697))
        },
        '2' => {
            proof {
                lemma_key_tones(0, 1);
            }
            Some((1336, 697))
        },
        '3' => {
            proof {
                lemma_key_tones(0, 2);
            }
            Some((1477, 697))
        },
        'A' => {
            proof {
                lemma_key_tones(0, 3);
            }
            Some((1633, 697))
        },
        '4' => {
            proof {
                lemma_key_tones(1, 0);
            }
            Some((1209, 770))
        },
        '5' => {
            proof {
                lemma_key_tones(1, 1);
            }
            Some((1336, 770))
        },
        '6' => {
            proof {
                lemma_key_tones(1, 2);
            }
            Some((1477, 770))
        },
        'B' => {
            proof {
                lemma_key_tones(1, 3);
            }
            Some((1633, 770))
        },
        '7' => {
            proof {
                lemma_key_tones(2, 0);
            }
            Some((1209, 852))
        },
        '8' => {
            proof {
                lemma_key_tones(2, 1);
            }
            Some((1336, 852))
        },
        '9' => {
            proof {
                lemma_key_tones(2, 2);
            }
            Some((1477, 852))
        },
        'C' => {
            proof {
                lemma_key_tones(2, 3);
            }
            Some((1633, 852))
        },
        '*' => {
            proof {
                lemma_key_tones(3, 0);
            }
            Some((1209, 941))
        },
        '0' => {
            proof {
                lemma_key_tones(3, 1);
            }
            Some((1336, 941))
        },
        '#' => {
            proof {
                lemma_key_tones(3, 2);
            }
            Some((1477, 941))
        },
        'D' => {
            proof {
                lemma_key_tones(3, 3);
            }
            Some((1633, 941))
        },
        _ => {
            proof {
                lemma_not_key(character);
            }
            None
        },
    }
}

} // verus!
