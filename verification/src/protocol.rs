//! The order in which the host may be addressed.
//!
//! Two flags are all the state there is. Both start out false and, once set,
//! stay set. An operation is permitted or not by the flags alone, and an
//! operation that is not permitted must not be made: it would leave the host
//! in a state that nothing defines.

use vstd::prelude::*;

verus! {

/// The operations that cross the boundary.
#[derive(Clone, Copy, Debug, PartialEq, Eq, Structural)]
pub enum Operation {
    /// Fetch one of the properties of the execution.
    GetProperty,
    /// Set the one property that can be set.
    SetProperty,
    /// Take the input of the invocation.
    ReadInput,
    /// Hand over the result of the invocation.
    WriteOutput,
    /// Read an entry of the program's storage.
    GetStorage,
    /// Write an entry of the program's storage.
    SetStorage,
    /// Remove an entry of the program's storage.
    ClearStorage,
    /// Read an entry of the host's own storage.
    GetRuntimeStorage,
    /// Call another program for its effects.
    Invoke,
    /// Call another program for its result.
    Evaluate,
    /// Create another program.
    Instantiate,
    /// Emit an event.
    EmitEvent,
    /// Ask the host for a random hash.
    Random,
    /// Write to the diagnostic log.
    Print,
}

/// The protocol state of one invocation.
#[derive(Clone, Copy, Debug, PartialEq, Eq, Structural)]
pub struct Flags {
    /// Set by the first operation that counts as an interaction.
    pub has_interacted: bool,
    /// Set when the output has been written.
    pub has_returned_value: bool,
}

impl Operation {
    /// Whether the operation counts as an interaction with the host, so that
    /// the input can no longer be read after it.
    pub open spec fn spec_is_interaction(self) -> bool {
        self == Operation::GetProperty || self == Operation::SetProperty || self
            == Operation::ReadInput || self == Operation::WriteOutput || self == Operation::Random
    }

    /// Whether the operation counts as an interaction with the host.
    #[verifier::when_used_as_spec(spec_is_interaction)]
    pub fn is_interaction(self) -> (interaction: bool)
        ensures
            interaction == self.spec_is_interaction(),
    {
        match self {
            Operation::GetProperty
            | Operation::SetProperty
            | Operation::ReadInput
            | Operation::WriteOutput
            | Operation::Random => true,
            _ => false,
        }
    }
}

impl Flags {
    /// The state in which an invocation starts.
    pub open spec fn spec_initial() -> Flags {
        Flags { has_interacted: false, has_returned_value: false }
    }

    /// The state in which an invocation starts.
    #[verifier::when_used_as_spec(spec_initial)]
    pub fn initial() -> (flags: Flags)
        ensures
            flags == Flags::spec_initial(),
    {
        Flags { has_interacted: false, has_returned_value: false }
    }

    /// Whether `op` may be made in this state. Printing always may. The input
    /// may be read as long as nothing has interacted. Everything else may be
    /// made as long as the output has not been written.
    pub open spec fn spec_permits(self, op: Operation) -> bool {
        match op {
            Operation::Print => true,
            Operation::ReadInput => !self.has_interacted && !self.has_returned_value,
            _ => !self.has_returned_value,
        }
    }

    /// Whether `op` may be made in this state.
    #[verifier::when_used_as_spec(spec_permits)]
    pub fn permits(self, op: Operation) -> (permitted: bool)
        ensures
            permitted == self.spec_permits(op),
    {
        match op {
            Operation::Print => true,
            Operation::ReadInput => !self.has_interacted && !self.has_returned_value,
            _ => !self.has_returned_value,
        }
    }

    /// The state that `op` leaves behind.
    pub open spec fn spec_after(self, op: Operation) -> Flags {
        Flags {
            has_interacted: self.has_interacted || op.is_interaction(),
            has_returned_value: self.has_returned_value || op == Operation::WriteOutput,
        }
    }

    /// The state that `op` leaves behind.
    #[verifier::when_used_as_spec(spec_after)]
    pub fn after(self, op: Operation) -> (flags: Flags)
        ensures
            flags == self.spec_after(op),
    {
        let writes_output: bool = match op {
            Operation::WriteOutput => true,
            _ => false,
        };
        Flags {
            has_interacted: self.has_interacted || op.is_interaction(),
            has_returned_value: self.has_returned_value || writes_output,
        }
    }

    /// The state after `ops` were made in turn, or `None` where one of them
    /// was not permitted when its turn came.
    pub open spec fn run(self, ops: Seq<Operation>) -> Option<Flags>
        decreases ops.len(),
    {
        if ops.len() == 0 {
            Some(self)
        } else if !self.permits(ops[0]) {
            None
        } else {
            self.after(ops[0]).run(ops.drop_first())
        }
    }
}

/// A sequence of operations can be run in two parts.
pub proof fn lemma_run_split(start: Flags, ops: Seq<Operation>, at: int)
    requires
        0 <= at <= ops.len(),
    ensures
        start.run(ops) == match start.run(ops.take(at)) {
            Some(middle) => middle.run(ops.skip(at)),
            None => None,
        },
    decreases at,
{
    if at == 0 {
        assert(ops.skip(0) =~= ops);
    } else {
        assert(ops.take(at)[0] == ops[0]);
        assert(ops.take(at).drop_first() =~= ops.drop_first().take(at - 1));
        assert(ops.drop_first().skip(at - 1) =~= ops.skip(at));
        if start.permits(ops[0]) {
            lemma_run_split(start.after(ops[0]), ops.drop_first(), at - 1);
        }
    }
}

/// A flag that is set stays set, whatever is done.
pub proof fn lemma_flags_latch(start: Flags, ops: Seq<Operation>)
    ensures
        start.run(ops) matches Some(end) ==> {
            &&& start.has_interacted ==> end.has_interacted
            &&& start.has_returned_value ==> end.has_returned_value
        },
    decreases ops.len(),
{
    if ops.len() > 0 && start.permits(ops[0]) {
        lemma_flags_latch(start.after(ops[0]), ops.drop_first());
    }
}

/// A run does not go through where it makes `ops[first]` and later an
/// operation that the flags set by `ops[first]` rule out.
proof fn lemma_ruled_out_later(start: Flags, ops: Seq<Operation>, first: int, second: int)
    requires
        0 <= first < second < ops.len(),
        forall|flags: Flags|
            {
                &&& ops[first].is_interaction() ==> flags.has_interacted
                &&& ops[first] == Operation::WriteOutput ==> flags.has_returned_value
            } ==> !#[trigger] flags.permits(ops[second]),
    ensures
        start.run(ops) is None,
{
    lemma_run_split(start, ops, first);
    if let Some(before) = start.run(ops.take(first)) {
        let rest = ops.skip(first);
        assert(rest[0] == ops[first]);
        if before.permits(ops[first]) {
            let made = before.after(ops[first]);
            let tail = rest.drop_first();
            lemma_run_split(made, tail, second - first - 1);
            if let Some(then) = made.run(tail.take(second - first - 1)) {
                lemma_flags_latch(made, tail.take(second - first - 1));
                assert(tail.skip(second - first - 1)[0] == ops[second]);
                assert(!then.permits(ops[second]));
            }
        }
    }
}

/// The input is read at most once: a run that reads it a second time does
/// not go through.
pub proof fn lemma_input_is_read_once(start: Flags, ops: Seq<Operation>, first: int, second: int)
    requires
        0 <= first < second < ops.len(),
        ops[first] == Operation::ReadInput,
        ops[second] == Operation::ReadInput,
    ensures
        start.run(ops) is None,
{
    lemma_ruled_out_later(start, ops, first, second);
}

/// The input is read before anything else: a run that reads it after an
/// interaction does not go through.
pub proof fn lemma_input_is_read_first(start: Flags, ops: Seq<Operation>, first: int, second: int)
    requires
        0 <= first < second < ops.len(),
        ops[first].is_interaction(),
        ops[second] == Operation::ReadInput,
    ensures
        start.run(ops) is None,
{
    lemma_ruled_out_later(start, ops, first, second);
}

/// The output is written last: a run that makes any operation but printing
/// after the output was written, writing it again included, does not go
/// through.
pub proof fn lemma_output_is_written_last(
    start: Flags,
    ops: Seq<Operation>,
    first: int,
    second: int,
)
    requires
        0 <= first < second < ops.len(),
        ops[first] == Operation::WriteOutput,
        ops[second] != Operation::Print,
    ensures
        start.run(ops) is None,
{
    lemma_ruled_out_later(start, ops, first, second);
}

/// Only the five interactions change the flags: storage, calls and events
/// leave them as they are.
pub proof fn lemma_only_interactions_set_flags(flags: Flags, op: Operation)
    requires
        !op.is_interaction(),
    ensures
        flags.after(op) == flags,
{
}

/// Printing is always permitted and changes nothing.
pub proof fn lemma_print_is_exempt(flags: Flags)
    ensures
        flags.permits(Operation::Print),
        flags.after(Operation::Print) == flags,
{
}

} // verus!
