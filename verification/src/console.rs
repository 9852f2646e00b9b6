//! The abstract terminal control surface.
//!
//! The engine never encodes escape sequences. Instead it appends *items* to a
//! [`Console`]: control commands, chunks of payload bytes written verbatim,
//! and flushes. The console is an ordered record of everything the engine
//! asked the terminal to do; the surrounding application replays that record
//! against a real terminal (or a test inspects it directly).

use vstd::prelude::*;

verus! {

/// A single cursor or screen control operation issued to the terminal.
///
/// The escape-sequence encoding of these operations is deliberately left to
/// the surrounding application; the engine only decides which operations to
/// issue, and in what order.
#[derive(Clone, Copy, Debug, PartialEq, Eq, Structural)]
pub enum Command {
    /// Move the cursor to the given column of the current line.
    MoveToColumn(u16),
    /// Clear the current line.
    ClearLine,
    /// Move the cursor up by the given number of lines.
    MoveUp(u16),
    /// Reset text attributes (colors, emphasis) to their defaults.
    ResetAttributes,
    /// Leave the terminal's raw input mode.
    DisableRawMode,
    /// Re-enter the terminal's raw input mode.
    EnableRawMode,
}

/// One recorded sink operation: a control command, payload bytes written
/// verbatim, or a flush of the sink.
#[derive(Clone, Debug, PartialEq, Eq)]
pub enum Item {
    /// A control command for the terminal.
    Control(Command),
    /// Payload bytes written verbatim.
    Text(Vec<u8>),
    /// A flush of the underlying sink.
    Flush,
}

/// The mathematical shape of one recorded sink operation.
pub ghost enum ItemModel {
    Control(Command),
    Text(Seq<u8>),
    Flush,
}

impl View for Item {
    type V = ItemModel;

    open spec fn view(&self) -> ItemModel {
        match self {
            Item::Control(c) => ItemModel::Control(*c),
            Item::Text(b) => ItemModel::Text(b@),
            Item::Flush => ItemModel::Flush,
        }
    }
}

/// The model of a sequence of recorded items.
pub open spec fn items_model(s: Seq<Item>) -> Seq<ItemModel> {
    s.map_values(|i: Item| i@)
}

/// The ordered record of sink operations issued by the engine.
///
/// A `Console` stands for the output stream handed to the engine: everything
/// the engine writes, every control command it issues and every flush it
/// requests is appended here, in order.
#[derive(Debug)]
pub struct Console {
    items: Vec<Item>,
}

impl View for Console {
    type V = Seq<ItemModel>;

    closed spec fn view(&self) -> Seq<ItemModel> {
        items_model(self.items@)
    }
}

impl Console {
    /// An empty record.
    pub fn new() -> (c: Console)
        ensures
            c@ == Seq::<ItemModel>::empty(),
    {
        let c = Console { items: Vec::new() };
        proof {
            assert(c@ =~= Seq::<ItemModel>::empty());
        }
        c
    }

    /// Append one control command.
    pub fn command(&mut self, c: Command)
        ensures
            final(self)@ == old(self)@ + seq![ItemModel::Control(c)],
    {
        self.items.push(Item::Control(c));
        proof {
            assert(self@ =~= old(self)@ + seq![ItemModel::Control(c)]);
        }
    }

    /// Append a copy of the given payload bytes.
    pub fn text(&mut self, bytes: &[u8])
        ensures
            final(self)@ == old(self)@ + seq![ItemModel::Text(bytes@)],
    {
        let mut owned: Vec<u8> = Vec::new();
        owned.extend_from_slice(bytes);
        proof {
            assert(owned@ =~= bytes@);
        }
        self.items.push(Item::Text(owned));
        proof {
            assert(self@ =~= old(self)@ + seq![ItemModel::Text(bytes@)]);
        }
    }

    /// Record a flush of the underlying sink.
    pub fn flush(&mut self)
        ensures
            final(self)@ == old(self)@ + seq![ItemModel::Flush],
    {
        self.items.push(Item::Flush);
        proof {
            assert(self@ =~= old(self)@ + seq![ItemModel::Flush]);
        }
    }

    /// The number of recorded items.
    pub fn item_count(&self) -> (n: usize)
        ensures
            n == self@.len(),
    {
        self.items.len()
    }

    /// The item at the given position.
    pub fn item_at(&self, i: usize) -> (it: &Item)
        requires
            i < self@.len(),
        ensures
            it@ == self@[i as int],
    {
        &self.items[i]
    }

    /// Remove and return the whole record, leaving the console empty.
    pub fn take(&mut self) -> (out: Vec<Item>)
        ensures
            items_model(out@) == old(self)@,
            final(self)@ == Seq::<ItemModel>::empty(),
    {
        let mut v: Vec<Item> = Vec::new();
        core::mem::swap(&mut v, &mut self.items);
        proof {
            assert(self@ =~= Seq::<ItemModel>::empty());
        }
        v
    }
}

/// How many times `x` occurs in `s`.
pub open spec fn count_item(s: Seq<ItemModel>, x: ItemModel) -> nat
    decreases s.len(),
{
    if s.len() == 0 {
        0
    } else {
        count_item(s.drop_last(), x) + (if s.last() == x {
            1nat
        } else {
            0nat
        })
    }
}

/// Counting occurrences distributes over concatenation.
pub proof fn lemma_count_item_add(a: Seq<ItemModel>, b: Seq<ItemModel>, x: ItemModel)
    ensures
        count_item(a + b, x) == count_item(a, x) + count_item(b, x),
    decreases b.len(),
{
    if b.len() == 0 {
        assert(a + b =~= a);
    } else {
        assert((a + b).drop_last() =~= a + b.drop_last());
        lemma_count_item_add(a, b.drop_last(), x);
    }
}

/// Every item of `s` is payload text.
pub open spec fn all_text(s: Seq<ItemModel>) -> bool {
    forall|i: int| 0 <= i < s.len() ==> s[i] is Text
}

/// How many newline bytes occur in `b`.
pub open spec fn newline_count_bytes(b: Seq<u8>) -> nat
    decreases b.len(),
{
    if b.len() == 0 {
        0
    } else {
        newline_count_bytes(b.drop_last()) + (if b.last() == 10u8 {
            1nat
        } else {
            0nat
        })
    }
}

/// How many newline bytes occur in the text items of `s`.
pub open spec fn newline_count(s: Seq<ItemModel>) -> nat
    decreases s.len(),
{
    if s.len() == 0 {
        0
    } else {
        newline_count(s.drop_last()) + (match s.last() {
            ItemModel::Text(b) => newline_count_bytes(b),
            _ => 0nat,
        })
    }
}

} // verus!
