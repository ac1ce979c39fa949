//! Algebraic notation of cells: a column letter followed by a row number.
//!
//! `decode` says which cell a text names and `encode` which text names a
//! cell. Both cover the 121 pairs of a column and a row from 1 to 11, of which
//! 91 name a cell of the board.

use crate::hex::HexCoordinate;
use vstd::prelude::*;
use vstd::string::StrSliceExecFns;
use vstd::string::StringExecFns;

verus! {

/// The column letters from left to right. There is no `J`.
pub open spec fn columns() -> Seq<char> {
    seq!['A', 'B', 'C', 'D', 'E', 'F', 'G', 'H', 'I', 'K', 'L']
}

/// Index of the middle column, which runs through the origin.
pub const COLUMN_OFFSET: i32 = 5;

/// Row number of the origin.
pub const ROW_OFFSET: i32 = 6;

/// ASCII code of `+`.
const PLUS: u8 = 43;

/// ASCII code of `-`.
const MINUS: u8 = 45;

/// ASCII code of `0`.
const ZERO: u8 = 48;

/// ASCII code of `9`.
const NINE: u8 = 57;

/// Position of `letter` among the column letters, if it is one.
pub open spec fn column_of(letter: char) -> Option<int> {
    if columns().contains(letter) {
        Some(columns().index_of(letter))
    } else {
        None
    }
}

/// Whether `c` is a decimal digit.
pub open spec fn is_digit(c: char) -> bool {
    '0' <= c <= '9'
}

/// Whether `text` holds decimal digits only.
pub open spec fn all_digits(text: Seq<char>) -> bool {
    forall|i: int| 0 <= i < text.len() ==> is_digit(#[trigger] text[i])
}

/// The number that the decimal digits `digits` write. Leading zeros count
/// for nothing.
pub open spec fn decimal_value(digits: Seq<char>) -> int
    decreases digits.len(),
{
    if digits.len() == 0 {
        0
    } else {
        10 * decimal_value(digits.drop_last()) + (digits.last() as int - '0' as int)
    }
}

/// The decimal digits of `n`, without leading zeros.
pub open spec fn decimal(n: nat) -> Seq<char>
    decreases n,
{
    if n < 10 {
        seq![('0' as int + n) as char]
    } else {
        decimal(n / 10).push(('0' as int + n % 10) as char)
    }
}

/// The integer that `text` writes: decimal digits, at least one, after at
/// most one sign `+` or `-`. Nothing else may stand in `text`, and the
/// integer has to fit in `i32`.
pub open spec fn integer(text: Seq<char>) -> Option<i32> {
    let signed = text.len() > 0 && (text[0] == '+' || text[0] == '-');
    let digits = if signed {
        text.subrange(1, text.len() as int)
    } else {
        text
    };
    let value = if signed && text[0] == '-' {
        -decimal_value(digits)
    } else {
        decimal_value(digits)
    };
    if digits.len() > 0 && all_digits(digits) && i32::MIN <= value <= i32::MAX {
        Some(value as i32)
    } else {
        None
    }
}

/// The cell in column `column`, counted from 0, and row `row`. Left of the
/// middle column the rows start one cell lower with each column.
pub open spec fn cell(column: int, row: int) -> (int, int) {
    let x = column - COLUMN_OFFSET;
    let y = if column < COLUMN_OFFSET {
        row - x - ROW_OFFSET
    } else {
        row - ROW_OFFSET
    };
    (x, y)
}

/// The cell that `notation` names: its first character is a column letter
/// and the rest writes the row, an integer. The row is not held to the
/// board, so the cell may lie off it. There is no cell where the
/// coordinates leave the range of `i32`.
pub open spec fn decode(notation: Seq<char>) -> Option<HexCoordinate> {
    if notation.len() < 2 {
        None
    } else {
        match (column_of(notation[0]), integer(notation.subrange(1, notation.len() as int))) {
            (Some(column), Some(row)) => {
                let (x, y) = cell(column, row as int);
                if i32::MIN <= y <= i32::MAX {
                    Some(HexCoordinate { x: x as i32, y: y as i32 })
                } else {
                    None
                }
            },
            _ => None,
        }
    }
}

/// The cell in column `column`, counted from 0, and row `row`, as a
/// coordinate.
pub open spec fn cell_at(column: int, row: int) -> HexCoordinate {
    HexCoordinate { x: cell(column, row).0 as i32, y: cell(column, row).1 as i32 }
}

/// Column of `hex`, counted from 0, where it is one of the eleven.
pub open spec fn column_index(hex: HexCoordinate) -> int {
    hex.x + COLUMN_OFFSET
}

/// Row of `hex` in its column.
pub open spec fn row_number(hex: HexCoordinate) -> int {
    if column_index(hex) < COLUMN_OFFSET {
        hex.y + hex.x + ROW_OFFSET
    } else {
        hex.y + ROW_OFFSET
    }
}

/// The text that names `hex`: the letter of its column, then its row in
/// decimal digits. Only the eleven columns and the rows 1 to 11 have a name.
pub open spec fn encode(hex: HexCoordinate) -> Option<Seq<char>> {
    if 0 <= column_index(hex) <= 10 && 1 <= row_number(hex) <= 11 {
        Some(seq![columns()[column_index(hex)]] + decimal(row_number(hex) as nat))
    } else {
        None
    }
}

/// No column letter occurs twice, so a letter stands for one column.
proof fn lemma_column_of_letter(column: int)
    requires
        0 <= column <= 10,
    ensures
        column_of(columns()[column]) == Some(column),
{
    let letter = columns()[column];
    assert(columns().no_duplicates());
    assert(columns().contains(letter));
}

/// A character that is none of the eleven letters stands for no column.
proof fn lemma_not_a_column(letter: char)
    requires
        letter != 'A',
        letter != 'B',
        letter != 'C',
        letter != 'D',
        letter != 'E',
        letter != 'F',
        letter != 'G',
        letter != 'H',
        letter != 'I',
        letter != 'K',
        letter != 'L',
    ensures
        column_of(letter) is None,
{
}

/// Appending a digit multiplies the value by ten and adds the digit.
proof fn lemma_value_of_push(digits: Seq<char>, c: char)
    ensures
        decimal_value(digits.push(c)) == 10 * decimal_value(digits) + (c as int - '0' as int),
{
    assert(digits.push(c).drop_last() == digits);
}

/// Digits write a number that is not negative, and more digits never write
/// a smaller one.
proof fn lemma_value_grows(digits: Seq<char>, k: int)
    requires
        all_digits(digits),
        0 <= k <= digits.len(),
    ensures
        0 <= decimal_value(digits.take(k)) <= decimal_value(digits),
    decreases digits.len() - k,
{
    if k == digits.len() {
        assert(digits.take(k) == digits);
        lemma_value_not_negative(digits);
    } else {
        lemma_value_grows(digits, k + 1);
        let longer = digits.take(k + 1);
        assert(longer.drop_last() == digits.take(k));
        assert(is_digit(digits[k]));
        assert(longer.last() == digits[k]);
        lemma_value_not_negative(digits.take(k));
    }
}

proof fn lemma_value_not_negative(digits: Seq<char>)
    requires
        all_digits(digits),
    ensures
        0 <= decimal_value(digits),
    decreases digits.len(),
{
    if digits.len() > 0 {
        assert(is_digit(digits.last()));
        lemma_value_not_negative(digits.drop_last());
    }
}

/// The digits of `n` are digits, start with no zero unless `n` is 0, and
/// write `n`.
proof fn lemma_decimal_writes(n: nat)
    ensures
        decimal(n).len() >= 1,
        all_digits(decimal(n)),
        decimal_value(decimal(n)) == n,
        n < 10 ==> decimal(n).len() == 1,
        n > 0 ==> decimal(n)[0] != '0',
    decreases n,
{
    if n < 10 {
        let text = decimal(n);
        assert(text.drop_last() =~= Seq::<char>::empty());
        assert(decimal_value(text.drop_last()) == 0);
    } else {
        lemma_decimal_writes(n / 10);
        lemma_value_of_push(decimal(n / 10), ('0' as int + n % 10) as char);
    }
}

/// Digits without a leading zero are the digits of the number they write.
proof fn lemma_decimal_of_value(digits: Seq<char>)
    requires
        digits.len() >= 1,
        all_digits(digits),
        digits.len() == 1 || digits[0] != '0',
    ensures
        decimal(decimal_value(digits) as nat) == digits,
    decreases digits.len(),
{
    let head = digits.drop_last();
    let last = digits.last();
    assert(is_digit(last));
    if digits.len() == 1 {
        assert(head =~= Seq::<char>::empty());
        assert(decimal_value(head) == 0);
        assert(decimal(decimal_value(digits) as nat) =~= digits);
    } else {
        assert(is_digit(head[0]));
        lemma_decimal_of_value(head);
        lemma_value_not_negative(head);
        lemma_leading_digit_counts(head);
        let n = decimal_value(digits) as nat;
        assert(n / 10 == decimal_value(head));
        assert(n % 10 == last as int - '0' as int);
        assert(n >= 10);
        assert(decimal(n) =~= digits);
    }
}

/// Digits that start with no zero write a positive number.
proof fn lemma_leading_digit_counts(digits: Seq<char>)
    requires
        digits.len() >= 1,
        all_digits(digits),
        digits[0] != '0',
    ensures
        decimal_value(digits) >= 1,
    decreases digits.len(),
{
    assert(is_digit(digits.last()));
    if digits.len() == 1 {
        assert(digits.drop_last() =~= Seq::<char>::empty());
        assert(decimal_value(digits.drop_last()) == 0);
    } else {
        assert(is_digit(digits.drop_last()[0]));
        lemma_leading_digit_counts(digits.drop_last());
    }
}

/// Text that writes an integer holds signs and digits only.
proof fn lemma_integer_is_ascii(text: Seq<char>)
    requires
        integer(text) is Some,
    ensures
        vstd::utf8::is_ascii_chars(text),
{
    let signed = text.len() > 0 && (text[0] == '+' || text[0] == '-');
    assert forall|i: int| 0 <= i < text.len() implies '\0' <= #[trigger] text[i] <= '\u{7f}' by {
        if signed {
            if i > 0 {
                assert(is_digit(text.subrange(1, text.len() as int)[i - 1]));
            }
        } else {
            assert(is_digit(text[i]));
        }
    }
}

/// Text that names a cell holds a letter, signs and digits only.
pub proof fn lemma_notation_is_ascii(notation: Seq<char>)
    requires
        decode(notation) is Some,
    ensures
        vstd::utf8::is_ascii_chars(notation),
{
    let rest = notation.subrange(1, notation.len() as int);
    lemma_integer_is_ascii(rest);
    let column = column_of(notation[0])->0;
    assert(columns()[column] == notation[0]);
    assert forall|i: int| 0 <= i < notation.len() implies '\0' <= #[trigger] notation[i]
        <= '\u{7f}' by {
        if i > 0 {
            assert(rest[i - 1] == notation[i]);
        }
    }
}

/// Whether `notation` is written as `encode` writes names: after the first
/// character come digits only, without a sign, the first of them is no zero,
/// and they write a number from 1 to 11.
pub open spec fn is_plain(notation: Seq<char>) -> bool {
    let rest = notation.subrange(1, notation.len() as int);
    &&& notation.len() >= 2
    &&& all_digits(rest)
    &&& rest[0] != '0'
    &&& 1 <= decimal_value(rest) <= 11
}

/// Every cell of the board has a name.
pub proof fn law_board_cells_have_names(hex: HexCoordinate)
    requires
        hex.on_board(),
    ensures
        encode(hex) is Some,
{
}

/// Decoding the name of a cell gives the cell back. This holds of every cell
/// that has a name, so of every cell of the board. Names are written plainly.
pub proof fn law_decode_inverts_encode(hex: HexCoordinate)
    requires
        encode(hex) is Some,
    ensures
        decode(encode(hex)->0) == Some(hex),
        is_plain(encode(hex)->0),
{
    let name = encode(hex)->0;
    let column = column_index(hex);
    let row = row_number(hex);
    let rest = name.subrange(1, name.len() as int);
    lemma_decimal_writes(row as nat);
    lemma_column_of_letter(column);
    assert(rest =~= decimal(row as nat));
    assert(name[0] == columns()[column]);
    assert(is_digit(rest[0]));
    assert(integer(rest) == Some(row as i32));
}

/// Encoding the cell that a text names gives the text back where the text is
/// written plainly, and only there: a row outside 1 to 11 has no name, and a
/// sign or a leading zero is not written back.
pub proof fn law_encode_inverts_decode(notation: Seq<char>)
    requires
        decode(notation) is Some,
    ensures
        encode(decode(notation)->0) == Some(notation) <==> is_plain(notation),
{
    let hex = decode(notation)->0;
    let rest = notation.subrange(1, notation.len() as int);
    let column = column_of(notation[0])->0;
    let row = integer(rest)->0;
    assert(columns()[column] == notation[0]);
    assert(column_index(hex) == column);
    assert(row_number(hex) == row);
    if is_plain(notation) {
        assert(is_digit(rest[0]));
        lemma_decimal_of_value(rest);
        assert(notation =~= seq![columns()[column]] + decimal(row as nat));
    }
    if encode(hex) == Some(notation) {
        law_decode_inverts_encode(hex);
    }
}

/// Position of `letter` among the column letters, if it is one.
pub fn column_position(letter: char) -> (column: Option<usize>)
    ensures
        match column {
            Some(index) => column_of(letter) == Some(index as int),
            None => column_of(letter) is None,
        },
{
    let column: Option<usize> = match letter {
        'A' => Some(0),
        'B' => Some(1),
        'C' => Some(2),
        'D' => Some(3),
        'E' => Some(4),
        'F' => Some(5),
        'G' => Some(6),
        'H' => Some(7),
        'I' => Some(8),
        'K' => Some(9),
        'L' => Some(10),
        _ => None,
    };
    proof {
        match column {
            Some(index) => {
                lemma_column_of_letter(index as int);
            },
            None => {
                lemma_not_a_column(letter);
            },
        }
    }
    column
}

/// The integer that `text` writes, as `str::parse::<i32>` reads it: `None`
/// for text that is empty, holds anything but digits after an optional sign,
/// or writes a number outside `i32`.
pub fn parse_integer(text: &str) -> (value: Option<i32>)
    ensures
        value == integer(text@),
{
    if !text.is_ascii() {
        proof {
            if integer(text@) is Some {
                lemma_integer_is_ascii(text@);
            }
        }
        return None;
    }
    let len = text.unicode_len();
    if len == 0 {
        return None;
    }
    let first = text.get_ascii(0);
    let negative = first == MINUS;
    let start: usize = if first == PLUS || first == MINUS {
        1
    } else {
        0
    };
    let ghost digits = text@.subrange(start as int, len as int);
    proof {
        assert('\0' <= text@[0] <= '\u{7f}');
        assert(negative == (text@[0] == '-'));
        assert(start == 1 <==> text@[0] == '+' || text@[0] == '-');
        if start == 0 {
            assert(digits =~= text@);
        }
    }
    let mut magnitude: i64 = 0;
    let mut i: usize = start;
    while i < len
        invariant
            start <= i <= len,
            start <= 1,
            0 < len == text@.len(),
            text.is_ascii(),
            negative == (text@[0] == '-'),
            start == 1 <==> text@[0] == '+' || text@[0] == '-',
            digits == text@.subrange(start as int, len as int),
            start == 0 ==> digits == text@,
            all_digits(digits.take(i - start)),
            magnitude == decimal_value(digits.take(i - start)),
            0 <= magnitude <= 0x8000_0000,
        decreases len - i,
    {
        let byte = text.get_ascii(i);
        let ghost seen = digits.take(i - start);
        let ghost more = digits.take(i + 1 - start);
        proof {
            assert('\0' <= text@[i as int] <= '\u{7f}');
            assert(digits[i - start] == text@[i as int]);
            assert(more == seen.push(text@[i as int]));
            lemma_value_of_push(seen, text@[i as int]);
        }
        if byte < ZERO || byte > NINE {
            assert(!is_digit(digits[i - start]));
            return None;
        }
        magnitude = magnitude * 10 + (byte - ZERO) as i64;
        proof {
            assert forall|j: int| 0 <= j < more.len() implies is_digit(#[trigger] more[j]) by {
                if j < seen.len() {
                    assert(is_digit(seen[j]));
                }
            }
        }
        if magnitude > 0x8000_0000 {
            proof {
                if all_digits(digits) {
                    lemma_value_grows(digits, i + 1 - start);
                }
            }
            return None;
        }
        i += 1;
    }
    assert(digits.take(len - start) == digits);
    if i == start {
        return None;
    }
    if negative {
        Some((-magnitude) as i32)
    } else if magnitude > 0x7fff_ffff {
        None
    } else {
        Some(magnitude as i32)
    }
}

/// The letter of column `column` as text.
pub(crate) fn column_text(column: usize) -> (text: &'static str)
    requires
        column <= 10,
    ensures
        text@ == seq![columns()[column as int]],
{
    let text = match column {
        0 => "A",
        1 => "B",
        2 => "C",
        3 => "D",
        4 => "E",
        5 => "F",
        6 => "G",
        7 => "H",
        8 => "I",
        9 => "K",
        _ => "L",
    };
    proof {
        reveal_strlit("A");
        reveal_strlit("B");
        reveal_strlit("C");
        reveal_strlit("D");
        reveal_strlit("E");
        reveal_strlit("F");
        reveal_strlit("G");
        reveal_strlit("H");
        reveal_strlit("I");
        reveal_strlit("K");
        reveal_strlit("L");
        assert(text@ =~= seq![columns()[column as int]]);
    }
    text
}

/// One decimal digit as text.
fn digit_text(digit: u32) -> (text: &'static str)
    requires
        digit <= 9,
    ensures
        text@ == seq![('0' as int + digit) as char],
{
    let text = match digit {
        0 => "0",
        1 => "1",
        2 => "2",
        3 => "3",
        4 => "4",
        5 => "5",
        6 => "6",
        7 => "7",
        8 => "8",
        _ => "9",
    };
    proof {
        reveal_strlit("0");
        reveal_strlit("1");
        reveal_strlit("2");
        reveal_strlit("3");
        reveal_strlit("4");
        reveal_strlit("5");
        reveal_strlit("6");
        reveal_strlit("7");
        reveal_strlit("8");
        reveal_strlit("9");
        assert(text@ =~= seq![('0' as int + digit) as char]);
    }
    text
}

/// Appends the decimal digits of `n` to `text`.
pub fn push_decimal(text: &mut String, n: u32)
    ensures
        final(text)@ == old(text)@ + decimal(n as nat),
    decreases n,
{
    if n >= 10 {
        push_decimal(text, n / 10);
    }
    text.append(digit_text(n % 10));
    assert(text@ =~= old(text)@ + decimal(n as nat));
}

} // verus!
