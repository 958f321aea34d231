//! The text of constant-array declarations: number literals, the list between
//! square brackets, and the declaration around it.

use vstd::prelude::*;
use crate::color::GbaColor;

verus! {

/// The character for a digit below 16: `0` to `9`, then `A` to `F`.
pub open spec fn digit_char(d: int) -> char {
    seq!['0', '1', '2', '3', '4', '5', '6', '7', '8', '9', 'A', 'B', 'C', 'D', 'E', 'F'][d]
}

/// A 16-bit value as `0x` and four upper-case hexadecimal digits.
pub open spec fn hex_word(value: u16) -> Seq<char> {
    seq![
        '0',
        'x',
        digit_char(value as int / 4096),
        digit_char(value as int / 256 % 16),
        digit_char(value as int / 16 % 16),
        digit_char(value as int % 16),
    ]
}

/// A number in decimal, without leading zeros.
pub open spec fn decimal(value: nat) -> Seq<char>
    decreases value,
{
    if value < 10 {
        seq![digit_char(value as int)]
    } else {
        decimal(value / 10).push(digit_char(value as int % 10))
    }
}

/// The items one after another, with a comma and a space between neighbours.
pub open spec fn joined(items: Seq<Seq<char>>) -> Seq<char>
    decreases items.len(),
{
    if items.len() == 0 {
        Seq::empty()
    } else if items.len() == 1 {
        items[0]
    } else {
        joined(items.drop_last()) + ", "@ + items.last()
    }
}

/// The items as a list between square brackets.
pub open spec fn array_literal(items: Seq<Seq<char>>) -> Seq<char> {
    "["@ + joined(items) + "]"@
}

/// The declaration of a public constant `name`, a borrowed slice with
/// elements of type `element`, that holds the items; it ends its line.
pub open spec fn declaration(
    name: Seq<char>,
    element: Seq<char>,
    items: Seq<Seq<char>>,
) -> Seq<char> {
    "pub const "@ + name + ": &["@ + element + "] = &"@ + array_literal(items) + ";\n"@
}

/// The literals of color words, in order.
pub open spec fn color_items(colors: Seq<GbaColor>) -> Seq<Seq<char>> {
    Seq::new(colors.len(), |i: int| hex_word(colors[i].0))
}

/// The literals of palette indexes, in order.
pub open spec fn index_items(indexes: Seq<u8>) -> Seq<Seq<char>> {
    Seq::new(indexes.len(), |i: int| decimal(indexes[i] as nat))
}

/// Joining one item more appends it, after a separator unless it is the first.
pub proof fn lemma_joined_next(items: Seq<Seq<char>>, count: int)
    requires
        0 <= count < items.len(),
    ensures
        joined(items.take(count + 1)) == if count == 0 {
            items[0]
        } else {
            joined(items.take(count)) + ", "@ + items[count]
        },
{
    let next = items.take(count + 1);
    assert(next.last() == items[count]);
    assert(next.drop_last() =~= items.take(count));
}

/// No character of `text` is `c`.
pub open spec fn lacks(text: Seq<char>, c: char) -> bool {
    forall|i: int| 0 <= i < text.len() ==> text[i] != c
}

/// `word` stands somewhere in `text`, character for character.
pub open spec fn occurs_in(word: Seq<char>, text: Seq<char>) -> bool {
    exists|at: int|
        0 <= at && at + word.len() <= text.len() && #[trigger] text.subrange(
            at,
            at + word.len(),
        ) == word
}

/// A word with a character that a text lacks does not stand in that text.
pub proof fn lemma_lacking_text_has_no_word(text: Seq<char>, word: Seq<char>, at: int)
    requires
        0 <= at < word.len(),
        lacks(text, word[at]),
    ensures
        !occurs_in(word, text),
{
    if occurs_in(word, text) {
        let start = choose|start: int|
            0 <= start && start + word.len() <= text.len() && #[trigger] text.subrange(
                start,
                start + word.len(),
            ) == word;
        assert(text.subrange(start, start + word.len())[at] == text[start + at]);
    }
}

/// What two texts lack, the two in a row lack too.
pub proof fn lemma_lacks_concat(first: Seq<char>, second: Seq<char>, c: char)
    requires
        lacks(first, c),
        lacks(second, c),
    ensures
        lacks(first + second, c),
{
}

/// A color word literal holds `0`, `x` and hexadecimal digits only.
pub proof fn lemma_hex_word_chars(value: u16, c: char)
    requires
        !('0' <= c <= '9'),
        !('A' <= c <= 'F'),
        c != 'x',
    ensures
        lacks(hex_word(value), c),
        hex_word(value).len() == 6,
{
}

/// What every item lacks, the joined items lack too, unless it is the comma
/// or the space.
pub proof fn lemma_joined_lacks(items: Seq<Seq<char>>, c: char)
    requires
        forall|i: int| 0 <= i < items.len() ==> lacks(#[trigger] items[i], c),
        c != ',',
        c != ' ',
    ensures
        lacks(joined(items), c),
    decreases items.len(),
{
    reveal_strlit(", ");
    if items.len() >= 2 {
        lemma_joined_lacks(items.drop_last(), c);
        lemma_lacks_concat(joined(items.drop_last()), ", "@, c);
        lemma_lacks_concat(joined(items.drop_last()) + ", "@, items.last(), c);
    }
}

/// Color word literals are six characters each. So a list of them has its
/// `i`-th literal eight characters after the one before, the first right
/// behind the opening bracket, and the length of the list tells their number.
pub proof fn lemma_color_array_layout(colors: Seq<GbaColor>)
    ensures
        array_literal(color_items(colors)).len() == if colors.len() == 0 {
            2
        } else {
            8 * colors.len()
        },
        forall|i: int|
            0 <= i < colors.len() ==> #[trigger] array_literal(color_items(colors)).subrange(
                1 + 8 * i,
                7 + 8 * i,
            ) == hex_word(colors[i].0),
{
    let items = color_items(colors);
    lemma_joined_layout(items);
    reveal_strlit("[");
    reveal_strlit("]");
    let list = array_literal(items);
    assert forall|i: int| 0 <= i < colors.len() implies #[trigger] list.subrange(
        1 + 8 * i,
        7 + 8 * i,
    ) == hex_word(colors[i].0) by {
        assert(joined(items).subrange(8 * i, 8 * i + 6) == items[i]);
        assert(list.subrange(1 + 8 * i, 7 + 8 * i) =~= joined(items).subrange(8 * i, 8 * i + 6));
    }
}

/// Joined items of six characters each start eight characters apart.
proof fn lemma_joined_layout(items: Seq<Seq<char>>)
    requires
        forall|i: int| 0 <= i < items.len() ==> (#[trigger] items[i]).len() == 6,
    ensures
        joined(items).len() == if items.len() == 0 {
            0
        } else {
            8 * items.len() - 2
        },
        forall|i: int|
            0 <= i < items.len() ==> #[trigger] joined(items).subrange(8 * i, 8 * i + 6)
                == items[i],
    decreases items.len(),
{
    reveal_strlit(", ");
    if items.len() == 1 {
        assert(joined(items).subrange(0, 6) =~= items[0]);
    } else if items.len() >= 2 {
        let front = items.drop_last();
        lemma_joined_layout(front);
        let all = joined(items);
        assert forall|i: int| 0 <= i < items.len() implies #[trigger] all.subrange(
            8 * i,
            8 * i + 6,
        ) == items[i] by {
            if i < front.len() {
                assert(joined(front).subrange(8 * i, 8 * i + 6) == front[i]);
                assert(all.subrange(8 * i, 8 * i + 6) =~= joined(front).subrange(8 * i, 8 * i + 6));
            } else {
                assert(all.subrange(8 * i, 8 * i + 6) =~= items.last());
            }
        }
    }
}

/// The one-character string for a digit below 16.
fn digit_str(d: u8) -> (s: &'static str)
    requires
        d < 16,
    ensures
        s@ == seq![digit_char(d as int)],
{
    proof {
        reveal_strlit("0");
        reveal_strlit("1");
        reveal_strlit("2");
        reveal_strlit("3");
        reveal_strlit("4");
        reveal_strlit("5");
        reveal_strlit("6");
        reveal_strlit("7");
        reveal_strlit("8");
        reveal_strlit("9");
        reveal_strlit("A");
        reveal_strlit("B");
        reveal_strlit("C");
        reveal_strlit("D");
        reveal_strlit("E");
        reveal_strlit("F");
    }
    let s = match d {
        0 => "0",
        1 => "1",
        2 => "2",
        3 => "3",
        4 => "4",
        5 => "5",
        6 => "6",
        7 => "7",
        8 => "8",
        9 => "9",
        10 => "A",
        11 => "B",
        12 => "C",
        13 => "D",
        14 => "E",
        _ => "F",
    };
    assert(s@ =~= seq![digit_char(d as int)]);
    s
}

impl GbaColor {
    /// Writes the color word to `f` as `0x` and four upper-case hexadecimal
    /// digits.
    pub fn fmt(&self, f: &mut String)
        ensures
            final(f)@ == old(f)@ + hex_word(self.0),
    {
        let ghost before = f@;
        let word: u16 = self.0;
        proof {
            reveal_strlit("0x");
        }
        f.append("0x");
        f.append(digit_str((word / 4096) as u8));
        f.append(digit_str((word / 256 % 16) as u8));
        f.append(digit_str((word / 16 % 16) as u8));
        f.append(digit_str((word % 16) as u8));
        assert(f@ =~= before + hex_word(word));
    }
}

/// Appends a palette index in decimal.
pub fn push_decimal(out: &mut String, value: u8)
    ensures
        final(out)@ == old(out)@ + decimal(value as nat),
{
    let ghost before = out@;
    if value >= 100 {
        out.append(digit_str(value / 100));
    }
    if value >= 10 {
        out.append(digit_str(value / 10 % 10));
    }
    out.append(digit_str(value % 10));
    proof {
        let n = value as nat;
        reveal_with_fuel(decimal, 3);
        assert(out@ =~= before + decimal(n));
    }
}

/// Appends the list of color words between square brackets.
pub fn push_color_array(out: &mut String, colors: &Vec<GbaColor>)
    ensures
        final(out)@ == old(out)@ + array_literal(color_items(colors@)),
{
    let ghost before = out@;
    let ghost items = color_items(colors@);
    out.append("[");
    let mut i: usize = 0;
    while i < colors.len()
        invariant
            i <= colors.len(),
            items == color_items(colors@),
            out@ == before + "["@ + joined(items.take(i as int)),
        decreases colors.len() - i,
    {
        let ghost so_far = out@;
        if i > 0 {
            out.append(", ");
        }
        colors[i].fmt(out);
        proof {
            lemma_joined_next(items, i as int);
            assert(out@ =~= before + "["@ + joined(items.take(i + 1)));
        }
        i += 1;
    }
    out.append("]");
    proof {
        assert(items.take(i as int) =~= items);
        assert(out@ =~= before + array_literal(items));
    }
}

/// Appends the list of palette indexes, in decimal, between square brackets.
pub fn push_index_array(out: &mut String, indexes: &Vec<u8>)
    ensures
        final(out)@ == old(out)@ + array_literal(index_items(indexes@)),
{
    let ghost before = out@;
    let ghost items = index_items(indexes@);
    out.append("[");
    let mut i: usize = 0;
    while i < indexes.len()
        invariant
            i <= indexes.len(),
            items == index_items(indexes@),
            out@ == before + "["@ + joined(items.take(i as int)),
        decreases indexes.len() - i,
    {
        if i > 0 {
            out.append(", ");
        }
        push_decimal(out, indexes[i]);
        proof {
            lemma_joined_next(items, i as int);
            assert(out@ =~= before + "["@ + joined(items.take(i + 1)));
        }
        i += 1;
    }
    out.append("]");
    proof {
        assert(items.take(i as int) =~= items);
        assert(out@ =~= before + array_literal(items));
    }
}

} // verus!
