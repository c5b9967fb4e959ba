//! Identifiers of the cells of the S2 hierarchy.
//!
//! An identifier is 64 bits wide. The three highest bits name one of the six
//! faces of the cube; every level below the face adds a pair of bits that
//! picks one of four children; a single marker bit follows the last pair, and
//! all bits behind the marker are zero. A cell of level `k` thus has its
//! marker at bit `2 * (30 - k)`, and a leaf, at level 30, is odd.
use crate::geoip::EncodeError;
use vstd::prelude::*;
use vstd::std_specs::bits::*;

verus! {

/// The level of the leaves, the finest cells.
pub const MAX_LEVEL: u64 = 30;

/// The marker bit of a cell at `level`.
pub open spec fn marker(level: u64) -> u64
    recommends
        level <= MAX_LEVEL,
{
    1u64 << ((2 * (MAX_LEVEL - level)) as u64)
}

/// The lowest bit that is set in `id`, zero when none is.
pub open spec fn lowest_bit(id: u64) -> u64 {
    id & ((!id + 1) as u64)
}

/// The face that the three highest bits name.
pub open spec fn face_of(id: u64) -> u64 {
    id >> 61
}

/// Whether `id` names a cell: its face is one of the six, and its marker bit
/// stands at an even position no higher than that of a face cell.
pub open spec fn is_cell(id: u64) -> bool {
    face_of(id) < 6 && (lowest_bit(id) & 0x1555_5555_5555_5555) != 0
}

/// The level of the cell that `id` names.
pub open spec fn level_of(id: u64) -> int {
    MAX_LEVEL - u64_trailing_zeros(id) / 2
}

/// Whether `id` names a leaf cell.
pub open spec fn is_leaf(id: u64) -> bool {
    is_cell(id) && id & 1 == 1
}

/// The cell at `level` whose identifier shares the face and the first `level`
/// pairs of `id`: all bits below the marker of `level` cleared, the marker set.
pub open spec fn ancestor(id: u64, level: u64) -> u64
    recommends
        level <= MAX_LEVEL,
{
    (id & !((marker(level) - 1) as u64)) | marker(level)
}

/// The cell that stands for `id` when cells no finer than `level` are wanted:
/// the ancestor at `level` of a finer cell, the cell itself otherwise.
pub open spec fn cell_at_level(id: u64, level: u64) -> u64
    recommends
        is_cell(id),
        level <= MAX_LEVEL,
{
    if level_of(id) > level {
        ancestor(id, level)
    } else {
        id
    }
}

/// The sixteen digits of lower-case hexadecimal notation.
pub open spec fn hex_digits() -> Seq<char> {
    seq!['0', '1', '2', '3', '4', '5', '6', '7', '8', '9', 'a', 'b', 'c', 'd', 'e', 'f']
}

/// The four bits of `id` that its digit at place `i` stands for, the highest
/// four at place zero.
pub open spec fn nibble(id: u64, i: int) -> u64 {
    (id >> ((4 * (15 - i)) as u64)) & 0xf
}

/// `id` written with all its sixteen hexadecimal digits, highest first.
pub open spec fn hex16(id: u64) -> Seq<char> {
    Seq::new(16, |i: int| hex_digits()[nibble(id, i) as int])
}

/// `text` without the zeros at its end.
pub open spec fn without_trailing_zeros(text: Seq<char>) -> Seq<char>
    decreases text.len(),
{
    if text.len() > 0 && text.last() == '0' {
        without_trailing_zeros(text.drop_last())
    } else {
        text
    }
}

/// The token of `id`: its sixteen hexadecimal digits without the zeros at
/// their end, and `X` for the identifier zero, which names no cell.
pub open spec fn token_text(id: u64) -> Seq<char> {
    if id == 0 {
        seq!['X']
    } else {
        without_trailing_zeros(hex16(id))
    }
}

/// Whether `c` is a digit of lower-case hexadecimal notation.
pub open spec fn is_hex_digit(c: char) -> bool {
    ('0' <= c <= '9') || ('a' <= c <= 'f')
}

/// What `token_at_level` returns for each identifier and level.
pub open spec fn token_at_level_spec(id: u64, level: usize) -> Result<Seq<char>, EncodeError> {
    if level > MAX_LEVEL {
        Err(EncodeError::InvalidPrecision)
    } else if !is_cell(id) {
        Err(EncodeError::InvalidCell)
    } else {
        Ok(token_text(cell_at_level(id, level as u64)))
    }
}

/// A cell's marker is its lowest set bit, at an even position up to 60.
pub proof fn lemma_cell_marker(id: u64)
    requires
        is_cell(id),
    ensures
        u64_trailing_zeros(id) <= 60,
        u64_trailing_zeros(id) % 2 == 0,
        0 <= level_of(id) <= MAX_LEVEL,
        id != 0,
{
    axiom_u64_trailing_zeros(id);
    let t = u64_trailing_zeros(id) as u64;
    assert(id != 0) by (bit_vector)
        requires
            (id & ((!id + 1) as u64)) & 0x1555_5555_5555_5555 != 0,
    ;
    assert(t <= 60 && t % 2 == 0) by (bit_vector)
        requires
            t < 64,
            (id >> t) & 1 == 1,
            id << ((64 - t) as u64) == 0,
            (id & ((!id + 1) as u64)) & 0x1555_5555_5555_5555 != 0,
    ;
}

/// The ancestor at a level is a cell of that level.
pub proof fn lemma_ancestor_level(id: u64, level: u64)
    requires
        level <= MAX_LEVEL,
    ensures
        u64_trailing_zeros(ancestor(id, level)) == 2 * (MAX_LEVEL - level),
        level_of(ancestor(id, level)) == level,
        face_of(ancestor(id, level)) == face_of(id),
        face_of(id) < 6 ==> is_cell(ancestor(id, level)),
{
    let k = (2 * (MAX_LEVEL - level)) as u64;
    let a = ancestor(id, level);
    let t = u64_trailing_zeros(a) as u64;
    axiom_u64_trailing_zeros(a);
    assert(a != 0 && (a >> k) & 1 == 1 && a >> 61 == id >> 61 && ((a & ((!a + 1) as u64))
        & 0x1555_5555_5555_5555 != 0)) by (bit_vector)
        requires
            k <= 60,
            k % 2 == 0,
            a == (id & !(((1u64 << k) - 1) as u64)) | (1u64 << k),
    ;
    assert(t == k) by (bit_vector)
        requires
            k <= 60,
            t < 64,
            a == (id & !(((1u64 << k) - 1) as u64)) | (1u64 << k),
            (a >> t) & 1 == 1,
            a << ((64 - t) as u64) == 0,
    ;
}

/// A leaf is a cell of the highest level.
pub proof fn lemma_leaf_level(id: u64)
    requires
        is_leaf(id),
    ensures
        level_of(id) == MAX_LEVEL,
{
    axiom_u64_trailing_zeros(id);
    let t = u64_trailing_zeros(id) as u64;
    lemma_cell_marker(id);
    assert(t == 0) by (bit_vector)
        requires
            t < 64,
            id & 1 == 1,
            id << ((64 - t) as u64) == 0,
    ;
}

/// A cell is its own ancestor at its own level.
pub proof fn lemma_ancestor_at_own_level(id: u64)
    requires
        is_cell(id),
    ensures
        ancestor(id, level_of(id) as u64) == id,
{
    lemma_cell_marker(id);
    axiom_u64_trailing_zeros(id);
    let t = u64_trailing_zeros(id) as u64;
    let level = level_of(id) as u64;
    assert((2 * (MAX_LEVEL - level)) as u64 == t);
    assert((id & !(((1u64 << t) - 1) as u64)) | (1u64 << t) == id) by (bit_vector)
        requires
            t < 64,
            (id >> t) & 1 == 1,
            id << ((64 - t) as u64) == 0,
    ;
}

/// Walking up in two steps reaches the same cell as walking up in one.
pub proof fn lemma_ancestor_of_ancestor(id: u64, finer: u64, coarser: u64)
    requires
        coarser <= finer <= MAX_LEVEL,
    ensures
        ancestor(ancestor(id, finer), coarser) == ancestor(id, coarser),
{
    let kf = (2 * (MAX_LEVEL - finer)) as u64;
    let kc = (2 * (MAX_LEVEL - coarser)) as u64;
    assert(((((id & !(((1u64 << kf) - 1) as u64)) | (1u64 << kf)) & !(((1u64 << kc) - 1) as u64))
        | (1u64 << kc)) == ((id & !(((1u64 << kc) - 1) as u64)) | (1u64 << kc))) by (bit_vector)
        requires
            kf <= kc <= 60,
    ;
}

/// Standing for a cell at a level never refines it and never leaves its face:
/// the result is a cell no finer than the one given and no finer than asked.
pub proof fn lemma_cell_at_level(id: u64, level: u64)
    requires
        is_cell(id),
        level <= MAX_LEVEL,
    ensures
        is_cell(cell_at_level(id, level)),
        face_of(cell_at_level(id, level)) == face_of(id),
        level_of(cell_at_level(id, level)) == if level_of(id) > level {
            level as int
        } else {
            level_of(id)
        },
        ancestor(id, level) == ancestor(cell_at_level(id, level), level),
{
    lemma_cell_marker(id);
    lemma_ancestor_level(id, level);
    if level_of(id) > level {
        lemma_ancestor_of_ancestor(id, level, level);
    }
}

/// At every level a leaf is stood for by its ancestor at that level; at the
/// highest level that is the leaf itself.
pub proof fn lemma_leaf_at_level(id: u64, level: u64)
    requires
        is_leaf(id),
        level <= MAX_LEVEL,
    ensures
        cell_at_level(id, level) == ancestor(id, level),
{
    lemma_leaf_level(id);
    lemma_ancestor_at_own_level(id);
}

/// What is left of a text without the zeros at its end is its beginning, up
/// to and with its last character that is no zero.
proof fn lemma_without_trailing_zeros(text: Seq<char>)
    ensures
        without_trailing_zeros(text).len() <= text.len(),
        without_trailing_zeros(text) == text.subrange(
            0,
            without_trailing_zeros(text).len() as int,
        ),
        forall|i: int|
            0 <= i < text.len() && text[i] != '0' ==> i < without_trailing_zeros(text).len(),
    decreases text.len(),
{
    if text.len() > 0 && text.last() == '0' {
        let shorter = text.drop_last();
        lemma_without_trailing_zeros(shorter);
        let kept = without_trailing_zeros(shorter).len() as int;
        assert(shorter.subrange(0, kept) =~= text.subrange(0, kept));
        assert forall|i: int| 0 <= i < text.len() && text[i] != '0' implies i
            < without_trailing_zeros(text).len() by {
            assert(shorter[i] == text[i]);
        }
    } else {
        assert(text.subrange(0, text.len() as int) =~= text);
    }
}

/// A digit of `hex16` is a hexadecimal digit, and it is the zero exactly
/// where the four bits that it stands for are zero.
proof fn lemma_hex_digit(id: u64, i: int)
    requires
        0 <= i < 16,
    ensures
        nibble(id, i) < 16,
        is_hex_digit(hex16(id)[i]),
        hex16(id)[i] == '0' <==> nibble(id, i) == 0,
{
    let shift = (4 * (15 - i)) as u64;
    let four = nibble(id, i);
    assert(four < 16) by (bit_vector)
        requires
            four == (id >> shift) & 0xf,
    ;
    assert(forall|n: int| 0 <= n < 16 ==> is_hex_digit(#[trigger] hex_digits()[n]));
    assert(forall|n: int| 1 <= n < 16 ==> #[trigger] hex_digits()[n] != '0');
}

/// The token of a cell, and of every identifier but zero, is made of one to
/// sixteen hexadecimal digits.
pub proof fn lemma_token_alphabet(id: u64)
    requires
        id != 0,
    ensures
        1 <= token_text(id).len() <= 16,
        forall|i: int| 0 <= i < token_text(id).len() ==> is_hex_digit(#[trigger] token_text(id)[i]),
{
    let digits = hex16(id);
    let token = token_text(id);
    lemma_without_trailing_zeros(digits);
    assert forall|i: int| 0 <= i < token.len() implies is_hex_digit(#[trigger] token[i]) by {
        lemma_hex_digit(id, i);
        assert(token[i] == digits[i]);
    }
    if forall|i: int| 0 <= i < 16 ==> digits[i] == '0' {
        assert forall|i: int| 0 <= i < 16 implies nibble(id, i) == 0 by {
            lemma_hex_digit(id, i);
        }
        assert(nibble(id, 0) == 0 && nibble(id, 1) == 0 && nibble(id, 2) == 0 && nibble(id, 3) == 0
            && nibble(id, 4) == 0 && nibble(id, 5) == 0 && nibble(id, 6) == 0 && nibble(id, 7)
            == 0 && nibble(id, 8) == 0 && nibble(id, 9) == 0 && nibble(id, 10) == 0 && nibble(
            id,
            11,
        ) == 0 && nibble(id, 12) == 0 && nibble(id, 13) == 0 && nibble(id, 14) == 0 && nibble(
            id,
            15,
        ) == 0);
        assert(id == 0) by (bit_vector)
            requires
                (id >> 60) & 0xf == 0,
                (id >> 56) & 0xf == 0,
                (id >> 52) & 0xf == 0,
                (id >> 48) & 0xf == 0,
                (id >> 44) & 0xf == 0,
                (id >> 40) & 0xf == 0,
                (id >> 36) & 0xf == 0,
                (id >> 32) & 0xf == 0,
                (id >> 28) & 0xf == 0,
                (id >> 24) & 0xf == 0,
                (id >> 20) & 0xf == 0,
                (id >> 16) & 0xf == 0,
                (id >> 12) & 0xf == 0,
                (id >> 8) & 0xf == 0,
                (id >> 4) & 0xf == 0,
                (id >> 0) & 0xf == 0,
        ;
    }
}

/// Two identifiers with the same token are the same: a token names one cell
/// and no other.
pub proof fn lemma_token_names_one_cell(a: u64, b: u64)
    requires
        token_text(a) == token_text(b),
    ensures
        a == b,
{
    if a == 0 || b == 0 {
        if a != 0 {
            lemma_token_alphabet(a);
            assert(token_text(a)[0] == 'X');
        }
        if b != 0 {
            lemma_token_alphabet(b);
            assert(token_text(b)[0] == 'X');
        }
    } else {
        lemma_without_trailing_zeros(hex16(a));
        lemma_without_trailing_zeros(hex16(b));
        let kept = token_text(a).len() as int;
        assert forall|i: int| 0 <= i < 16 implies nibble(a, i) == nibble(b, i) by {
            lemma_hex_digit(a, i);
            lemma_hex_digit(b, i);
            if i < kept {
                assert(hex16(a)[i] == token_text(a)[i]);
                assert(hex16(b)[i] == token_text(b)[i]);
                lemma_hex_digits_differ(nibble(a, i), nibble(b, i));
            }
        }
        assert(nibble(a, 0) == nibble(b, 0) && nibble(a, 1) == nibble(b, 1) && nibble(a, 2)
            == nibble(b, 2) && nibble(a, 3) == nibble(b, 3) && nibble(a, 4) == nibble(b, 4)
            && nibble(a, 5) == nibble(b, 5) && nibble(a, 6) == nibble(b, 6) && nibble(a, 7)
            == nibble(b, 7) && nibble(a, 8) == nibble(b, 8) && nibble(a, 9) == nibble(b, 9)
            && nibble(a, 10) == nibble(b, 10) && nibble(a, 11) == nibble(b, 11) && nibble(a, 12)
            == nibble(b, 12) && nibble(a, 13) == nibble(b, 13) && nibble(a, 14) == nibble(b, 14)
            && nibble(a, 15) == nibble(b, 15));
        assert(a == b) by (bit_vector)
            requires
                (a >> 60) & 0xf == (b >> 60) & 0xf,
                (a >> 56) & 0xf == (b >> 56) & 0xf,
                (a >> 52) & 0xf == (b >> 52) & 0xf,
                (a >> 48) & 0xf == (b >> 48) & 0xf,
                (a >> 44) & 0xf == (b >> 44) & 0xf,
                (a >> 40) & 0xf == (b >> 40) & 0xf,
                (a >> 36) & 0xf == (b >> 36) & 0xf,
                (a >> 32) & 0xf == (b >> 32) & 0xf,
                (a >> 28) & 0xf == (b >> 28) & 0xf,
                (a >> 24) & 0xf == (b >> 24) & 0xf,
                (a >> 20) & 0xf == (b >> 20) & 0xf,
                (a >> 16) & 0xf == (b >> 16) & 0xf,
                (a >> 12) & 0xf == (b >> 12) & 0xf,
                (a >> 8) & 0xf == (b >> 8) & 0xf,
                (a >> 4) & 0xf == (b >> 4) & 0xf,
                (a >> 0) & 0xf == (b >> 0) & 0xf,
        ;
    }
}

/// Different numbers below sixteen are written with different digits.
proof fn lemma_hex_digits_differ(m: u64, n: u64)
    requires
        m < 16,
        n < 16,
        hex_digits()[m as int] == hex_digits()[n as int],
    ensures
        m == n,
{
    let digits = hex_digits();
    assert(digits[0] == '0' && digits[1] == '1' && digits[2] == '2' && digits[3] == '3'
        && digits[4] == '4' && digits[5] == '5' && digits[6] == '6' && digits[7] == '7'
        && digits[8] == '8' && digits[9] == '9' && digits[10] == 'a' && digits[11] == 'b'
        && digits[12] == 'c' && digits[13] == 'd' && digits[14] == 'e' && digits[15] == 'f');
}

/// `s2::cellid::CellID::is_valid`: whether the face is below six and the
/// lowest set bit stands at one of the even positions up to 60. The method
/// negates the identifier as a signed number, which overflows for the
/// identifier with only the highest bit set, so that one is left out.
#[verifier::external_body]
fn cell_is_valid(id: u64) -> (ok: bool)
    requires
        id != 0x8000_0000_0000_0000,
    ensures
        ok == is_cell(id),
{
    s2::cellid::CellID(id).is_valid()
}

/// `s2::cellid::CellID::level`: the highest level less half the number of
/// trailing zeros, rounded down. With more than 61 trailing zeros the
/// subtraction would pass below zero.
#[verifier::external_body]
fn cell_level(id: u64) -> (level: u64)
    requires
        u64_trailing_zeros(id) <= 61,
    ensures
        level == level_of(id),
{
    s2::cellid::CellID(id).level()
}

/// `s2::cellid::CellID::parent`: clears every bit below the marker of
/// `level` and sets that marker. A level above the highest would ask for a
/// shift by a negative amount.
#[verifier::external_body]
fn cell_parent(id: u64, level: u64) -> (parent: u64)
    requires
        level <= MAX_LEVEL,
    ensures
        parent == ancestor(id, level),
{
    s2::cellid::CellID(id).parent(level).0
}

/// `s2::cellid::CellID::to_token`: the identifier in sixteen lower-case
/// hexadecimal digits with the zeros at the end removed, or `X` for zero.
#[verifier::external_body]
fn cell_token(id: u64) -> (token: String)
    ensures
        token@ == token_text(id),
{
    s2::cellid::CellID(id).to_token()
}

/// Whether `id` names a cell.
pub fn valid_cell(id: u64) -> (ok: bool)
    ensures
        ok == is_cell(id),
{
    if id == 0x8000_0000_0000_0000 {
        assert(!is_cell(0x8000_0000_0000_0000)) by {
            assert((0x8000_0000_0000_0000u64 & ((!0x8000_0000_0000_0000u64 + 1) as u64))
                & 0x1555_5555_5555_5555 == 0) by (bit_vector);
        }
        false
    } else {
        cell_is_valid(id)
    }
}

/// The cell that stands for `id` at `level`: its ancestor at that level when
/// the cell is finer, the cell itself when it is not. A level above the
/// highest is refused, and so is an identifier that names no cell.
pub fn cell_for_level(id: u64, level: usize) -> (r: Result<u64, EncodeError>)
    ensures
        level > MAX_LEVEL ==> r == Err::<u64, EncodeError>(EncodeError::InvalidPrecision),
        level <= MAX_LEVEL && !is_cell(id) ==> r == Err::<u64, EncodeError>(
            EncodeError::InvalidCell,
        ),
        level <= MAX_LEVEL && is_cell(id) ==> r == Ok::<u64, EncodeError>(
            cell_at_level(id, level as u64),
        ),
{
    if level > MAX_LEVEL as usize {
        return Err(EncodeError::InvalidPrecision);
    }
    if !valid_cell(id) {
        return Err(EncodeError::InvalidCell);
    }
    proof {
        lemma_cell_marker(id);
    }
    let wanted: u64 = level as u64;
    if cell_level(id) > wanted {
        Ok(cell_parent(id, wanted))
    } else {
        Ok(id)
    }
}

/// The token of the cell that stands for `id` at `level`: one to sixteen
/// hexadecimal digits.
pub fn token_at_level(id: u64, level: usize) -> (r: Result<String, EncodeError>)
    ensures
        match r {
            Ok(token) => token_at_level_spec(id, level) == Ok::<Seq<char>, EncodeError>(token@)
                && 1 <= token@.len() <= 16 && forall|i: int|
                0 <= i < token@.len() ==> is_hex_digit(#[trigger] token@[i]),
            Err(e) => token_at_level_spec(id, level) == Err::<Seq<char>, EncodeError>(e),
        },
{
    match cell_for_level(id, level) {
        Ok(cell) => {
            proof {
                lemma_cell_at_level(id, level as u64);
                lemma_cell_marker(cell);
                lemma_token_alphabet(cell);
            }
            Ok(cell_token(cell))
        },
        Err(e) => Err(e),
    }
}

} // verus!
