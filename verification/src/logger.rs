//! Writing a text to the console in as many parts as the console takes.

use vstd::prelude::*;

verus! {

/// What follows one write to the console.
#[derive(Copy, Clone, Debug, PartialEq, Eq, Structural)]
pub enum Written {
    /// The console refused: the text cannot be written.
    Failed,
    /// The whole text is written.
    Done,
    /// Write the rest, from this offset.
    More(usize),
}

/// What follows a write of the text from `offset` on, of `len` bytes in
/// all, that returned `count`: a negative count is a failure; else the
/// offset moves on by the count, and the text is done when it has reached
/// its end.
pub open spec fn write_str_spec(offset: usize, len: usize, count: isize) -> Written {
    if count < 0 {
        Written::Failed
    } else if offset + count == len {
        Written::Done
    } else {
        Written::More((offset + count) as usize)
    }
}

/// Decides what follows one write to the console.
pub fn write_str(offset: usize, len: usize, count: isize) -> (written: Written)
    requires
        offset <= len,
        count <= len - offset,
    ensures
        written == write_str_spec(offset, len, count),
        written matches Written::More(next) ==> offset <= next < len,
{
    if count < 0 {
        return Written::Failed;
    }
    let offset = offset + count as usize;
    if offset == len {
        return Written::Done;
    }
    Written::More(offset)
}

/// The prefix that marks a line as coming from `tag`: the tag in square
/// brackets and a space.
pub open spec fn tag_prefix_spec(tag: Seq<u8>) -> Seq<u8> {
    seq![0x5Bu8] + tag + seq![0x5Du8, 0x20u8]
}

/// The prefix that marks a line as coming from `tag`.
pub fn tag_prefix(tag: &[u8]) -> (prefix: Vec<u8>)
    ensures
        prefix@ == tag_prefix_spec(tag@),
{
    let mut prefix: Vec<u8> = Vec::new();
    prefix.push(0x5B);
    let mut i: usize = 0;
    while i < tag.len()
        invariant
            i <= tag@.len(),
            prefix@ == seq![0x5Bu8] + tag@.take(i as int),
        decreases tag@.len() - i,
    {
        prefix.push(tag[i]);
        assert(tag@.take(i + 1) =~= tag@.take(i as int).push(tag@[i as int]));
        i += 1;
    }
    assert(tag@.take(i as int) =~= tag@);
    prefix.push(0x5D);
    prefix.push(0x20);
    assert(prefix@ =~= tag_prefix_spec(tag@));
    prefix
}

} // verus!
