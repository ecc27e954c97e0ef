//! The kernel's label table: the program counters that the bootstrap code
//! gives its named entry points.

use vstd::prelude::*;

verus! {

/// One named entry point of the kernel.
#[derive(Debug)]
pub struct KernelLabel {
    pub name: String,
    pub offset: usize,
}

/// The table of the kernel's labels. It is built once, handed to the
/// generation state when that is made, and only read.
#[derive(Debug)]
pub struct KernelLabels {
    pub labels: Vec<KernelLabel>,
}

/// The offset of the first label called `name`, if there is one.
pub open spec fn offset_of(labels: Seq<KernelLabel>, name: Seq<char>) -> Option<usize>
    decreases labels.len(),
{
    if labels.len() == 0 {
        None
    } else if labels[0].name@ == name {
        Some(labels[0].offset)
    } else {
        offset_of(labels.drop_first(), name)
    }
}

impl KernelLabels {
    /// A table of the given labels. Where a name occurs twice, the first
    /// entry counts.
    pub fn new(labels: Vec<KernelLabel>) -> (table: KernelLabels)
        ensures
            table.labels@ == labels@,
    {
        KernelLabels { labels }
    }

    /// The program counter of the label `name`; `None` where the table has no
    /// such label.
    pub fn lookup(&self, name: &String) -> (offset: Option<usize>)
        ensures
            offset == offset_of(self.labels@, name@),
    {
        let mut i: usize = 0;
        assert(self.labels@.subrange(0, self.labels@.len() as int) =~= self.labels@);
        while i < self.labels.len()
            invariant
                i <= self.labels@.len(),
                offset_of(self.labels@, name@) == offset_of(
                    self.labels@.subrange(i as int, self.labels@.len() as int),
                    name@,
                ),
            decreases self.labels@.len() - i,
        {
            let ghost rest = self.labels@.subrange(i as int, self.labels@.len() as int);
            assert(rest[0] == self.labels@[i as int]);
            assert(rest.drop_first() =~= self.labels@.subrange(
                i as int + 1,
                self.labels@.len() as int,
            ));
            if self.labels[i].name == *name {
                return Some(self.labels[i].offset);
            }
            i += 1;
        }
        assert(self.labels@.subrange(i as int, self.labels@.len() as int).len() == 0);
        None
    }
}

} // verus!
