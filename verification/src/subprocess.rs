//! The process's own arguments: whether they mark a helper process of the
//! engine, and how they are handed to the engine.
//!
//! The engine starts helper processes from the host's own executable and
//! tells them apart by an argument that holds `--type`. A process that finds
//! such an argument among its own hands itself over to the engine.

use crate::ffi::{into, nul_free, terminated};
use vstd::prelude::*;
use vstd::string::StringSliceAdditionalSpecFns;
use vstd::utf8::encode_utf8;

verus! {

/// `needle` stands in `hay` at position `at`.
pub open spec fn occurs_at(hay: Seq<u8>, needle: Seq<u8>, at: int) -> bool {
    &&& 0 <= at
    &&& at + needle.len() <= hay.len()
    &&& hay.subrange(at, at + needle.len()) == needle
}

/// `needle` stands somewhere in `hay`.
pub open spec fn contains(hay: Seq<u8>, needle: Seq<u8>) -> bool {
    exists|at: int| occurs_at(hay, needle, at)
}

/// The argument, given by its text, holds the marker of a helper process.
pub open spec fn marks_subprocess(arg: Seq<char>) -> bool {
    contains(encode_utf8(arg), "--type".spec_bytes())
}

fn stands_at(hay: &[u8], needle: &[u8], at: usize) -> (found: bool)
    requires
        at + needle.len() <= hay.len(),
    ensures
        found == occurs_at(hay@, needle@, at as int),
{
    let ghost window = hay@.subrange(at as int, at + needle.len());
    let mut k: usize = 0;
    while k < needle.len()
        invariant
            0 <= k <= needle.len(),
            at + needle.len() <= hay.len(),
            window == hay@.subrange(at as int, at + needle.len()),
            forall|j: int| 0 <= j < k ==> window[j] == needle@[j],
        decreases needle.len() - k,
    {
        if hay[at + k] != needle[k] {
            assert(window[k as int] != needle@[k as int]);
            return false;
        }
        k += 1;
    }
    assert(window =~= needle@);
    true
}

/// Whether `needle` stands somewhere in `hay`.
pub fn contains_bytes(hay: &[u8], needle: &[u8]) -> (found: bool)
    ensures
        found == contains(hay@, needle@),
{
    if needle.len() > hay.len() {
        return false;
    }
    let last: usize = hay.len() - needle.len();
    let mut at: usize = 0;
    loop
        invariant
            0 <= at <= last,
            last == hay.len() - needle.len(),
            forall|p: int| 0 <= p < at ==> !occurs_at(hay@, needle@, p),
        decreases last - at,
    {
        if stands_at(hay, needle, at) {
            return true;
        }
        if at == last {
            return false;
        }
        at += 1;
    }
}

/// Whether these are the arguments of a helper process of the engine: one
/// of them holds `--type`.
pub fn is_subprocess(args: &Vec<String>) -> (marked: bool)
    ensures
        marked == exists|i: int| 0 <= i < args.len() && marks_subprocess(#[trigger] args[i]@),
{
    let marker = "--type".as_bytes();
    let mut i: usize = 0;
    while i < args.len()
        invariant
            0 <= i <= args.len(),
            marker@ == "--type".spec_bytes(),
            forall|j: int| 0 <= j < i ==> !marks_subprocess(#[trigger] args[j]@),
        decreases args.len() - i,
    {
        if contains_bytes(args[i].as_str().as_bytes(), marker) {
            return true;
        }
        i += 1;
    }
    false
}

/// The arguments of the process as the engine takes them: each one a
/// NUL-terminated byte string, in the order given.
pub struct Args {
    items: Vec<Vec<u8>>,
}

impl View for Args {
    type V = Seq<Seq<u8>>;

    closed spec fn view(&self) -> Seq<Seq<u8>> {
        Seq::new(self.items.len() as nat, |i: int| self.items[i]@)
    }
}

impl Args {
    #[verifier::type_invariant]
    spec fn countable(&self) -> bool {
        self.items.len() <= i32::MAX
    }

    /// The arguments `args` for the engine.
    pub fn new(args: &Vec<String>) -> (native: Args)
        requires
            args.len() <= i32::MAX,
            forall|i: int| 0 <= i < args.len() ==> nul_free(encode_utf8(#[trigger] args[i]@)),
        ensures
            native@.len() == args.len(),
            forall|i: int|
                0 <= i < args.len() ==> #[trigger] native@[i] == terminated(
                    encode_utf8(args[i]@),
                ),
    {
        let mut items: Vec<Vec<u8>> = Vec::new();
        let mut i: usize = 0;
        while i < args.len()
            invariant
                0 <= i <= args.len(),
                items.len() == i,
                forall|j: int| 0 <= j < args.len() ==> nul_free(encode_utf8(#[trigger] args[j]@)),
                forall|j: int|
                    0 <= j < i ==> (#[trigger] items[j])@ == terminated(encode_utf8(args[j]@)),
            decreases args.len() - i,
        {
            assert(nul_free(encode_utf8(args[i as int]@)));
            items.push(into(args[i].as_str()));
            i += 1;
        }
        Args { items }
    }

    /// How many arguments there are, as the engine counts them.
    pub fn len(&self) -> (count: i32)
        ensures
            count == self@.len(),
    {
        proof {
            use_type_invariant(self);
        }
        self.items.len() as i32
    }

    /// The argument at `index`, with its terminator.
    pub fn get(&self, index: usize) -> (arg: &[u8])
        requires
            index < self@.len(),
        ensures
            arg@ == self@[index as int],
    {
        self.items[index].as_slice()
    }
}

} // verus!
