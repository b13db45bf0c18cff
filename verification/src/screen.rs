//! The measurements and states that the client's pages are drawn from.
use vstd::prelude::*;

verus! {

/// How a slot of the PIN row is drawn.
#[derive(Debug, Clone, Copy, PartialEq, Eq, Structural)]
pub enum PinSlot {
    /// A digit was typed here
    Filled,
    /// The next digit goes here
    Cursor,
    /// Not reached yet
    Empty,
}

/// How a cell of the mnemonic grid is drawn.
#[derive(Debug, Clone, Copy, PartialEq, Eq, Structural)]
pub enum WordCell {
    /// The word being typed
    Current,
    /// A word typed earlier
    Entered,
    /// A word not reached yet
    Future,
}

/// The state of slot `i` of the PIN row when `typed` digits were typed.
pub fn pin_slot(i: usize, typed: usize) -> (s: PinSlot)
    ensures
        s == (if i < typed { PinSlot::Filled } else if i == typed { PinSlot::Cursor } else { PinSlot::Empty }),
{
    if i < typed {
        PinSlot::Filled
    } else if i == typed {
        PinSlot::Cursor
    } else {
        PinSlot::Empty
    }
}

/// The state of cell `i` of the mnemonic grid when `count` words were started.
pub fn word_cell(i: usize, count: usize) -> (c: WordCell)
    ensures
        c == (if i + 1 == count { WordCell::Current } else if i < count { WordCell::Entered } else { WordCell::Future }),
{
    if i < count {
        if i == count - 1 { WordCell::Current } else { WordCell::Entered }
    } else {
        WordCell::Future
    }
}

/// The rows that lines of the given lengths take when each is wrapped at `width` columns.
pub open spec fn wrapped_rows(lens: Seq<usize>, width: int) -> int
    decreases lens.len(),
{
    if lens.len() == 0 {
        0
    } else {
        wrapped_rows(lens.drop_last(), width) + (lens.last() + width - 1) / width
    }
}

/// The height of a message whose lines have the given lengths, wrapped at `width` columns
/// (a width of zero counts as one): the rows they take, at least one, as a `u16`.
pub fn message_height(lens: &Vec<usize>, width: u16) -> (h: u16)
    requires
        wrapped_rows(lens@, if width == 0 { 1 } else { width as int }) <= usize::MAX,
        forall|i: int| 0 <= i < lens@.len() ==> lens@[i] + (if width == 0 { 1 } else { width as int }) <= usize::MAX,
    ensures
        h as int == (if wrapped_rows(lens@, if width == 0 { 1 } else { width as int }) == 0 {
            1
        } else {
            wrapped_rows(lens@, if width == 0 { 1 } else { width as int })
        }) % 0x10000,
{
    let w: usize = if width == 0 { 1 } else { width as usize };
    let mut total: usize = 0;
    let mut i: usize = 0;
    while i < lens.len()
        invariant
            i <= lens@.len(),
            w >= 1,
            w == (if width == 0 { 1 } else { width as int }),
            total == wrapped_rows(lens@.take(i as int), w as int),
            wrapped_rows(lens@, w as int) <= usize::MAX,
            forall|k: int| 0 <= k < lens@.len() ==> lens@[k] + w <= usize::MAX,
        decreases lens.len() - i,
    {
        proof {
            lemma_wrapped_rows_prefix(lens@, w as int, i as int + 1);
            assert(lens@.take(i + 1).drop_last() =~= lens@.take(i as int));
        }
        total = total + (lens[i] + w - 1) / w;
        i = i + 1;
    }
    assert(lens@.take(lens.len() as int) =~= lens@);
    let rows: usize = if total == 0 { 1 } else { total };
    (rows % 0x10000) as u16
}

proof fn lemma_wrapped_rows_prefix(lens: Seq<usize>, width: int, n: int)
    requires
        width >= 1,
        0 <= n <= lens.len(),
    ensures
        0 <= wrapped_rows(lens.take(n), width) <= wrapped_rows(lens, width),
    decreases lens.len(),
{
    if lens.len() > 0 {
        if n == lens.len() {
            assert(lens.take(n) =~= lens);
            lemma_wrapped_rows_prefix(lens.drop_last(), width, n - 1);
            assert(lens.drop_last().take(n - 1) =~= lens.drop_last());
        } else {
            assert(lens.take(n) =~= lens.drop_last().take(n));
            lemma_wrapped_rows_prefix(lens.drop_last(), width, n);
        }
        assert((lens.last() + width - 1) / width >= 0) by (nonlinear_arith)
            requires width >= 1, lens.last() >= 0;
    }
}

/// The height of a menu of `items` entries with a blank row between entries.
pub fn menu_height(items: usize) -> (h: u16)
    requires
        2 * items <= usize::MAX,
    ensures
        h as int == (if items == 0 { 0 } else { 2 * items - 1 }) % 0x10000,
{
    let rows: usize = if items == 0 { 0 } else { 2 * items - 1 };
    (rows % 0x10000) as u16
}

} // verus!
