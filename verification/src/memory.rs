//! The interpreter's memory: a store of 256-bit words, addressed by context,
//! segment and offset. A word that was never written reads as zero.

use crate::primitives::U256;
use vstd::prelude::*;

verus! {

/// The regions of a context's memory.
#[derive(Clone, Copy, Debug, PartialEq, Eq, Structural)]
pub enum Segment {
    /// The code that the context runs, one byte to a word.
    Code,
    /// The context's value stack, the bottom at offset zero.
    Stack,
    /// The context's general-purpose memory.
    MainMemory,
}

/// The place of one word in memory.
#[derive(Clone, Copy, Debug, PartialEq, Eq, Structural)]
pub struct MemoryAddress {
    pub context: usize,
    pub segment: Segment,
    pub virt: usize,
}

/// The words written so far in the three segments of one context.
#[derive(Debug)]
struct ContextMemory {
    code: Vec<U256>,
    stack: Vec<U256>,
    main: Vec<U256>,
}

/// The memory image of a run.
#[derive(Debug)]
pub struct MemoryState {
    contexts: Vec<ContextMemory>,
}

/// The word at offset `virt` of a segment of which `words` have been written.
spec fn word_in(words: Seq<U256>, virt: int) -> U256 {
    if 0 <= virt < words.len() {
        words[virt]
    } else {
        U256::spec_zero()
    }
}

/// Lengthens `words` with zero words until it holds at least `len` words.
fn extend_with_zeros(words: &mut Vec<U256>, len: usize)
    ensures
        final(words)@.len() >= len,
        final(words)@.len() >= old(words)@.len(),
        forall|i: int| word_in(final(words)@, i) == word_in(old(words)@, i),
{
    while words.len() < len
        invariant
            words@.len() >= old(words)@.len(),
            forall|i: int| word_in(words@, i) == word_in(old(words)@, i),
        decreases len - words.len(),
    {
        words.push(U256::zero());
    }
}

impl ContextMemory {
    fn new() -> (context: ContextMemory)
        ensures
            context.code@.len() == 0,
            context.stack@.len() == 0,
            context.main@.len() == 0,
    {
        ContextMemory { code: Vec::new(), stack: Vec::new(), main: Vec::new() }
    }

    spec fn words(self, segment: Segment) -> Seq<U256> {
        match segment {
            Segment::Code => self.code@,
            Segment::Stack => self.stack@,
            Segment::MainMemory => self.main@,
        }
    }

    fn load(&self, segment: Segment, virt: usize) -> (word: U256)
        ensures
            word == word_in(self.words(segment), virt as int),
    {
        let words = match segment {
            Segment::Code => &self.code,
            Segment::Stack => &self.stack,
            Segment::MainMemory => &self.main,
        };
        if virt < words.len() {
            words[virt]
        } else {
            U256::zero()
        }
    }

    fn store(&mut self, segment: Segment, virt: usize, word: U256)
        requires
            virt < usize::MAX,
        ensures
            forall|s: Segment, i: int|
                word_in(final(self).words(s), i) == if s == segment && i == virt {
                    word
                } else {
                    word_in(old(self).words(s), i)
                },
    {
        match segment {
            Segment::Code => {
                extend_with_zeros(&mut self.code, virt + 1);
                self.code.set(virt, word);
            },
            Segment::Stack => {
                extend_with_zeros(&mut self.stack, virt + 1);
                self.stack.set(virt, word);
            },
            Segment::MainMemory => {
                extend_with_zeros(&mut self.main, virt + 1);
                self.main.set(virt, word);
            },
        }
    }
}

impl View for MemoryState {
    type V = Map<MemoryAddress, U256>;

    /// The word at every address.
    closed spec fn view(&self) -> Map<MemoryAddress, U256> {
        Map::total(|address: MemoryAddress| self.word_at(address))
    }
}

impl MemoryState {
    spec fn word_at(self, address: MemoryAddress) -> U256 {
        if address.context < self.contexts@.len() {
            word_in(self.contexts@[address.context as int].words(address.segment), address.virt as int)
        } else {
            U256::spec_zero()
        }
    }

    /// The memory at the start of a run on the given kernel code: the code
    /// segment of context 0 holds the code, one byte to a word, and every other
    /// word is zero.
    pub open spec fn initial(kernel_code: Seq<u8>) -> Map<MemoryAddress, U256> {
        Map::total(
            |address: MemoryAddress|
                if address.context == 0 && address.segment == Segment::Code && address.virt
                    < kernel_code.len() {
                    U256::spec_from_u64(kernel_code[address.virt as int] as u64)
                } else {
                    U256::spec_zero()
                },
        )
    }

    /// Every address has a word.
    pub proof fn lemma_total(&self, address: MemoryAddress)
        ensures
            self@.dom().contains(address),
    {
    }

    /// Memory that holds the kernel code and is zero elsewhere.
    pub fn new(kernel_code: &[u8]) -> (memory: MemoryState)
        ensures
            memory@ == MemoryState::initial(kernel_code@),
    {
        let mut context = ContextMemory::new();
        let mut i: usize = 0;
        while i < kernel_code.len()
            invariant
                i <= kernel_code@.len(),
                context.code@.len() == i,
                context.stack@.len() == 0,
                context.main@.len() == 0,
                forall|j: int|
                    0 <= j < i ==> context.code@[j] == U256::spec_from_u64(kernel_code@[j] as u64),
            decreases kernel_code@.len() - i,
        {
            context.code.push(U256::from_u64(kernel_code[i] as u64));
            i += 1;
        }
        let mut contexts: Vec<ContextMemory> = Vec::new();
        contexts.push(context);
        let memory = MemoryState { contexts };
        assert(memory@ =~= MemoryState::initial(kernel_code@));
        memory
    }

    /// The word at `address`; zero where nothing was written.
    pub fn get(&self, address: MemoryAddress) -> (word: U256)
        ensures
            word == self@[address],
    {
        if address.context < self.contexts.len() {
            self.contexts[address.context].load(address.segment, address.virt)
        } else {
            U256::zero()
        }
    }

    /// Writes `word` at `address` and leaves every other word as it was.
    pub fn set(&mut self, address: MemoryAddress, word: U256)
        requires
            address.context < usize::MAX,
            address.virt < usize::MAX,
        ensures
            final(self)@ == old(self)@.insert(address, word),
    {
        while self.contexts.len() <= address.context
            invariant
                forall|a: MemoryAddress| self.word_at(a) == old(self).word_at(a),
            decreases address.context + 1 - self.contexts.len(),
        {
            self.contexts.push(ContextMemory::new());
        }
        self.contexts[address.context].store(address.segment, address.virt, word);
        assert(self@ =~= old(self)@.insert(address, word));
    }
}

} // verus!
