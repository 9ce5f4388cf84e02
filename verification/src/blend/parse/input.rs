//! A position-aware view of the bytes still to be parsed.

use vstd::prelude::*;

use crate::blend::parse::{Endianness, PointerSize};

verus! {

/// What an [`Input`] stands for: the bytes left, where they start in the
/// file, and the byte order and pointer width read so far.
pub struct InputState {
    pub data: Seq<u8>,
    pub position: nat,
    pub endianness: Option<Endianness>,
    pub pointer_size: Option<PointerSize>,
}

impl InputState {
    /// The state after the first `count` bytes have been consumed.
    pub open spec fn advance(self, count: int) -> InputState {
        InputState {
            data: self.data.skip(count),
            position: (self.position + count) as nat,
            endianness: self.endianness,
            pointer_size: self.pointer_size,
        }
    }
}

/// The whole of a file, with nothing read yet.
pub open spec fn file_start(data: Seq<u8>) -> InputState {
    InputState { data, position: 0, endianness: None, pointer_size: None }
}

/// The outcome of comparing the start of an input with a tag.
#[derive(Debug, Copy, Clone, PartialEq, Eq, Structural)]
pub enum CompareResult {
    Match,
    Incomplete,
    Mismatch,
}

/// The bytes still to be parsed, with their position in the file.
#[derive(Debug, Copy, Clone)]
pub struct Input<'a> {
    pub data: &'a [u8],
    pub position: usize,
    pub endianness: Option<Endianness>,
    pub pointer_size: Option<PointerSize>,
}

impl<'a> View for Input<'a> {
    type V = InputState;

    open spec fn view(&self) -> InputState {
        InputState {
            data: self.data@,
            position: self.position as nat,
            endianness: self.endianness,
            pointer_size: self.pointer_size,
        }
    }
}

impl<'a> Input<'a> {
    /// An input at the start of `data`.
    pub fn new(
        data: &'a [u8],
        pointer_size: Option<PointerSize>,
        endianness: Option<Endianness>,
    ) -> (input: Input<'a>)
        ensures
            input.data@ == data@,
            input.position == 0,
            input.endianness == endianness,
            input.pointer_size == pointer_size,
    {
        Input { data, position: 0, endianness, pointer_size }
    }

    /// An input over `data` that starts at `position` in the file, with
    /// neither byte order nor pointer width known yet.
    pub fn new_with_position(data: &'a [u8], position: usize) -> (input: Input<'a>)
        ensures
            input.data@ == data@,
            input.position == position,
            input.endianness is None,
            input.pointer_size is None,
    {
        Input { data, position, endianness: None, pointer_size: None }
    }

    /// The first `count` bytes, labelled with the position after them.
    pub fn take(&self, count: usize) -> (taken: Input<'a>)
        requires
            count <= self.data@.len(),
            self.position + count <= usize::MAX,
        ensures
            taken.data@ == self.data@.take(count as int),
            taken.position == self.position + count,
            taken.endianness == self.endianness,
            taken.pointer_size == self.pointer_size,
    {
        let (head, _) = self.data.split_at(count);
        Input {
            data: head,
            position: self.position + count,
            endianness: self.endianness,
            pointer_size: self.pointer_size,
        }
    }

    /// Splits after `count` bytes into the rest and the prefix, in that order.
    pub fn split(&self, count: usize) -> (parts: (Input<'a>, Input<'a>))
        requires
            count <= self.data@.len(),
            self.position + count <= usize::MAX,
        ensures
            parts.0@ == self@.advance(count as int),
            parts.1.data@ == self.data@.take(count as int),
            parts.1.position == self.position,
            parts.1.endianness == self.endianness,
            parts.1.pointer_size == self.pointer_size,
    {
        let (head, tail) = self.data.split_at(count);
        (
            Input {
                data: tail,
                position: self.position + count,
                endianness: self.endianness,
                pointer_size: self.pointer_size,
            },
            Input {
                data: head,
                position: self.position,
                endianness: self.endianness,
                pointer_size: self.pointer_size,
            },
        )
    }

    /// The input without its first `start` bytes.
    pub fn slice(&self, start: usize) -> (rest: Input<'a>)
        requires
            start <= self.data@.len(),
            self.position + start <= usize::MAX,
        ensures
            rest@ == self@.advance(start as int),
    {
        let (rest, _) = self.split(start);
        rest
    }

    /// Compares the start of the input with `tag`.
    pub fn compare(&self, tag: &[u8]) -> (result: CompareResult)
        ensures
            result == (if tag@.len() > self.data@.len() {
                CompareResult::Incomplete
            } else if self.data@.take(tag@.len() as int) == tag@ {
                CompareResult::Match
            } else {
                CompareResult::Mismatch
            }),
    {
        if tag.len() > self.data.len() {
            return CompareResult::Incomplete;
        }
        let mut i: usize = 0;
        while i < tag.len()
            invariant
                tag@.len() <= self.data@.len(),
                0 <= i <= tag@.len(),
                forall|j: int| 0 <= j < i ==> tag@[j] == self.data@[j],
            decreases tag@.len() - i,
        {
            if tag[i] != self.data[i] {
                assert(self.data@.take(tag@.len() as int)[i as int] != tag@[i as int]);
                return CompareResult::Mismatch;
            }
            i = i + 1;
        }
        assert(self.data@.take(tag@.len() as int) =~= tag@);
        CompareResult::Match
    }

    /// `Ok(count)` when the input holds `count` bytes, else `Err` with the
    /// number of bytes missing.
    pub fn slice_index(&self, count: usize) -> (result: Result<usize, usize>)
        ensures
            result == (if self.data@.len() >= count {
                Ok::<usize, usize>(count)
            } else {
                Err::<usize, usize>((count - self.data@.len()) as usize)
            }),
    {
        if self.data.len() >= count {
            Ok(count)
        } else {
            Err(count - self.data.len())
        }
    }
}

} // verus!
