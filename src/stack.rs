use crate::reg::RegSpan;
use crate::value::UntypedVal;
use vstd::prelude::*;

verus! {

/// A handle of a module instance.
#[derive(Debug, Clone, Copy, PartialEq, Eq, Structural)]
pub struct Instance(pub u32);

/// The slots that all frames of one invocation share.
///
/// `values` holds every slot that has been allocated; the first `len` of
/// them are live. Shrinking the live part keeps what the slots hold, so the
/// results of a finished invocation stay readable at the bottom.
pub struct ValueStack {
    /// The allocated slots.
    pub values: Vec<UntypedVal>,
    /// The number of live slots.
    pub len: usize,
}

impl ValueStack {
    /// The live slots fit in the allocated ones.
    pub open spec fn wf(&self) -> bool {
        self.len <= self.values.len()
    }

    /// Creates a stack of `capacity` zeroed slots with `len` of them live.
    pub fn new(capacity: usize, len: usize) -> (r: Self)
        requires
            len <= capacity,
        ensures
            r.wf(),
            r.len == len,
            r.values@.len() == capacity,
            forall|i: int| 0 <= i < capacity ==> r.values@[i] == (UntypedVal { bits: 0 }),
    {
        let mut values: Vec<UntypedVal> = Vec::new();
        let mut i: usize = 0;
        while i < capacity
            invariant
                i <= capacity,
                values@.len() == i,
                forall|k: int| 0 <= k < i ==> values@[k] == (UntypedVal { bits: 0 }),
            decreases capacity - i,
        {
            values.push(UntypedVal { bits: 0 });
            i = i + 1;
        }
        ValueStack { values, len }
    }

    /// Shrinks the live part to at most `new_len` slots.
    pub fn truncate(&mut self, new_len: usize)
        ensures
            final(self).values@ == old(self).values@,
            final(self).len == if new_len < old(self).len {
                new_len
            } else {
                old(self).len
            },
    {
        if new_len < self.len {
            self.len = new_len;
        }
    }
}

/// The bookkeeping of one function invocation.
#[derive(Debug, Clone, Copy, PartialEq, Eq, Structural)]
pub struct CallFrame {
    /// Where execution resumes in this frame.
    pub ip: usize,
    /// Where the frame's slots start on the value stack.
    pub frame_offset: usize,
    /// Where the frame's registers start on the value stack; the function's
    /// constants lie just below.
    pub base_offset: usize,
    /// The registers of the calling frame that receive the results.
    pub results: RegSpan,
    /// Whether this invocation entered another module instance than its
    /// caller's.
    pub changed_instance: bool,
}

/// The frames of one invocation, innermost last, and the stack of module
/// instances that they entered.
pub struct CallStack {
    /// The frames, the executing one last.
    pub frames: Vec<CallFrame>,
    /// The instances entered, the current one last.
    pub instances: Vec<Instance>,
}

impl CallStack {
    /// Creates an empty call stack.
    pub fn new() -> (r: Self)
        ensures
            r.frames@.len() == 0,
            r.instances@.len() == 0,
    {
        CallStack { frames: Vec::new(), instances: Vec::new() }
    }

    /// Returns the number of frames.
    pub fn len(&self) -> (r: usize)
        ensures
            r == self.frames@.len(),
    {
        self.frames.len()
    }

    /// Pushes a frame; `instance` is the instance it enters, if it enters
    /// another one than its caller's.
    pub fn push(&mut self, frame: CallFrame, instance: Option<Instance>)
        ensures
            final(self).frames@ == old(self).frames@.push(
                CallFrame { changed_instance: instance is Some, ..frame },
            ),
            final(self).instances@ == match instance {
                Some(i) => old(self).instances@.push(i),
                None => old(self).instances@,
            },
    {
        let mut frame = frame;
        frame.changed_instance = instance.is_some();
        self.frames.push(frame);
        if let Some(instance) = instance {
            self.instances.push(instance);
        }
    }

    /// Pops the executing frame, together with the instance it entered if it
    /// entered one.
    pub fn pop(&mut self) -> (r: Option<(CallFrame, Option<Instance>)>)
        ensures
            old(self).frames@.len() == 0 ==> r is None && final(self).frames@ == old(self).frames@
                && final(self).instances@ == old(self).instances@,
            old(self).frames@.len() > 0 ==> {
                let top = old(self).frames@.last();
                let entered = top.changed_instance && old(self).instances@.len() > 0;
                &&& r matches Some((f, i)) && f == top && i == (if entered {
                    Some(old(self).instances@.last())
                } else {
                    None::<Instance>
                })
                &&& final(self).frames@ == old(self).frames@.drop_last()
                &&& final(self).instances@ == if entered {
                    old(self).instances@.drop_last()
                } else {
                    old(self).instances@
                }
            },
    {
        let frame = match self.frames.pop() {
            Some(frame) => frame,
            None => {
                return None;
            },
        };
        let instance = if frame.changed_instance {
            self.instances.pop()
        } else {
            None
        };
        Some((frame, instance))
    }

    /// Returns the executing frame, if any.
    pub fn peek(&self) -> (r: Option<&CallFrame>)
        ensures
            self.frames@.len() == 0 ==> r is None,
            self.frames@.len() > 0 ==> (r matches Some(f) && *f == self.frames@.last()),
    {
        let n = self.frames.len();
        if n == 0 {
            None
        } else {
            Some(&self.frames[n - 1])
        }
    }

    /// Returns the executing frame and its caller's frame, if any.
    pub fn peek_2(&self) -> (r: Option<(&CallFrame, Option<&CallFrame>)>)
        ensures
            self.frames@.len() == 0 ==> r is None,
            self.frames@.len() == 1 ==> (r matches Some((f, None)) && *f == self.frames@[0]),
            self.frames@.len() >= 2 ==> (r matches Some((f, Some(c))) && *f
                == self.frames@.last() && *c == self.frames@[self.frames@.len() - 2]),
    {
        let n = self.frames.len();
        if n == 0 {
            None
        } else if n == 1 {
            Some((&self.frames[0], None))
        } else {
            Some((&self.frames[n - 1], Some(&self.frames[n - 2])))
        }
    }

    /// Returns the current module instance, if any.
    pub fn instance(&self) -> (r: Option<Instance>)
        ensures
            self.instances@.len() == 0 ==> r is None,
            self.instances@.len() > 0 ==> r == Some(self.instances@.last()),
    {
        let n = self.instances.len();
        if n == 0 {
            None
        } else {
            Some(self.instances[n - 1])
        }
    }
}

/// What the interpreter keeps at hand of the current module instance.
#[derive(Debug, Clone, Copy, PartialEq, Eq, Structural)]
pub struct InstanceCache {
    /// The instance whose entities are cached, if any.
    pub instance: Option<Instance>,
}

impl InstanceCache {
    /// Makes `instance` the cached instance.
    pub fn update(&mut self, instance: Instance)
        ensures
            final(self).instance == Some(instance),
    {
        self.instance = Some(instance);
    }
}

} // verus!
