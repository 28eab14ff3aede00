//! Stepping from one recording to the next.
use vstd::prelude::*;

use crate::effects::{Item, SystemCommand};
use crate::store_id::StoreId;

verus! {

/// What the panel can be asked to do.
#[derive(Clone, Copy, Debug, PartialEq, Eq, Structural)]
pub enum RecordingPanelCommand {
    SelectNextRecording,
    SelectPreviousRecording,
}

/// The panel, with the commands that wait for it to be shown.
#[derive(Debug)]
pub struct RecordingPanel {
    commands: Vec<RecordingPanelCommand>,
}

/// Where stepping by `direction` from position `idx` of a list of `len` leads, going around
/// at its ends.
pub open spec fn shifted(idx: int, direction: int, len: int) -> int {
    (idx + direction) % len
}

/// How far a command steps.
pub open spec fn step(command: RecordingPanelCommand) -> int {
    match command {
        RecordingPanelCommand::SelectNextRecording => 1,
        RecordingPanelCommand::SelectPreviousRecording => -1,
    }
}

/// The selection of the recording that stepping by `direction` leads to.
pub open spec fn shift_command(
    current: usize,
    collection: Seq<StoreId>,
    direction: int,
) -> SystemCommand {
    SystemCommand::SetSelection(
        Item::StoreId(collection[shifted(current as int, direction, collection.len() as int)]),
    )
}

/// Step through a collection of recordings, from the current one: `current` is its position,
/// if it is in one.
///
/// A step must not lead further back than once around.
pub fn shift_through_recordings(
    current: Option<usize>,
    collection: &Vec<StoreId>,
    direction: isize,
) -> (r: Option<SystemCommand>)
    requires
        current matches Some(idx) ==> {
            &&& idx < collection@.len()
            &&& 0 <= idx + direction + collection@.len() <= isize::MAX
        },
    ensures
        r == (match current {
            Some(idx) => Some(shift_command(idx, collection@, direction as int)),
            None => None,
        }),
{
    match current {
        Some(idx) => {
            let len: usize = collection.len();
            let sum: usize = if direction >= 0 {
                idx + len + direction as usize
            } else {
                idx + len - (-(direction + 1)) as usize - 1
            };
            let new_idx: usize = sum % len;
            proof {
                let l = len as int;
                assert(sum == idx + direction + l);
                assert((idx + direction + l) % l == (idx + direction) % l) by {
                    vstd::arithmetic::div_mod::lemma_mod_add_multiples_vanish(idx + direction, l);
                }
            }
            Some(SystemCommand::SetSelection(Item::StoreId(collection[new_idx].clone())))
        },
        None => None,
    }
}

impl View for RecordingPanel {
    type V = Seq<RecordingPanelCommand>;

    closed spec fn view(&self) -> Seq<RecordingPanelCommand> {
        self.commands@
    }
}

impl RecordingPanel {
    pub fn new() -> (r: Self)
        ensures
            r@ == Seq::<RecordingPanelCommand>::empty(),
    {
        RecordingPanel { commands: Vec::new() }
    }

    /// Have the panel do something when it is next shown.
    pub fn send_command(&mut self, command: RecordingPanelCommand)
        ensures
            final(self)@ == old(self)@.push(command),
    {
        self.commands.push(command);
    }

    /// Carry out all waiting commands, in their order. Each of them steps from the recording
    /// that is current now.
    pub fn process_commands(&mut self, current: Option<usize>, collection: &Vec<StoreId>) -> (r: Vec<
        SystemCommand,
    >)
        requires
            current matches Some(idx) ==> idx < collection@.len() && 2 * collection@.len()
                <= isize::MAX,
        ensures
            final(self)@ == Seq::<RecordingPanelCommand>::empty(),
            r@ == (match current {
                Some(idx) => Seq::new(
                    old(self)@.len(),
                    |i: int| shift_command(idx, collection@, step(old(self)@[i])),
                ),
                None => Seq::empty(),
            }),
    {
        let n: usize = self.commands.len();
        let mut out: Vec<SystemCommand> = Vec::new();
        let mut i: usize = 0;
        while i < n
            invariant
                i <= n,
                n == self.commands@.len(),
                self.commands@ == old(self)@,
                current matches Some(idx) ==> idx < collection@.len() && 2 * collection@.len()
                    <= isize::MAX,
                current is None ==> out@.len() == 0,
                current matches Some(idx) ==> out@.len() == i && forall|j: int|
                    0 <= j < i ==> #[trigger] out@[j] == shift_command(
                        idx,
                        collection@,
                        step(old(self)@[j]),
                    ),
            decreases n - i,
        {
            let direction: isize = match self.commands[i] {
                RecordingPanelCommand::SelectNextRecording => 1,
                RecordingPanelCommand::SelectPreviousRecording => -1,
            };
            if let Some(command) = shift_through_recordings(current, collection, direction) {
                out.push(command);
            }
            i += 1;
        }
        self.commands = Vec::new();
        assert(out@ =~= (match current {
            Some(idx) => Seq::new(
                old(self)@.len(),
                |i: int| shift_command(idx, collection@, step(old(self)@[i])),
            ),
            None => Seq::empty(),
        }));
        out
    }
}

/// Stepping forward and back again leads to where one was, and so does the other way around.
pub proof fn law_next_undoes_previous(idx: int, len: int)
    requires
        0 <= idx < len,
    ensures
        shifted(shifted(idx, 1, len), -1, len) == idx,
        shifted(shifted(idx, -1, len), 1, len) == idx,
{
    if idx + 1 < len {
        vstd::arithmetic::div_mod::lemma_small_mod((idx + 1) as nat, len as nat);
    } else {
        vstd::arithmetic::div_mod::lemma_mod_self_0(len);
        vstd::arithmetic::div_mod::lemma_mod_add_multiples_vanish(-1, len);
        vstd::arithmetic::div_mod::lemma_small_mod((len - 1) as nat, len as nat);
    }
    vstd::arithmetic::div_mod::lemma_small_mod(idx as nat, len as nat);
    if idx > 0 {
        vstd::arithmetic::div_mod::lemma_small_mod((idx - 1) as nat, len as nat);
    } else {
        vstd::arithmetic::div_mod::lemma_mod_add_multiples_vanish(-1, len);
        vstd::arithmetic::div_mod::lemma_small_mod((len - 1) as nat, len as nat);
        vstd::arithmetic::div_mod::lemma_mod_self_0(len);
    }
}

/// Where `steps` steps forward lead.
pub open spec fn after_steps(idx: int, len: int, steps: nat) -> int
    decreases steps,
{
    if steps == 0 {
        idx
    } else {
        shifted(after_steps(idx, len, (steps - 1) as nat), 1, len)
    }
}

/// Stepping forward visits the recordings one after another, and comes around after as many
/// steps as there are recordings.
pub proof fn law_next_goes_around(idx: int, len: int, steps: nat)
    requires
        0 <= idx < len,
    ensures
        after_steps(idx, len, steps) == (idx + steps) % len,
        after_steps(idx, len, len as nat) == idx,
{
    lemma_after_steps(idx, len, steps);
    lemma_after_steps(idx, len, len as nat);
    vstd::arithmetic::div_mod::lemma_mod_add_multiples_vanish(idx, len);
    vstd::arithmetic::div_mod::lemma_small_mod(idx as nat, len as nat);
}

proof fn lemma_after_steps(idx: int, len: int, steps: nat)
    requires
        0 <= idx < len,
    ensures
        after_steps(idx, len, steps) == (idx + steps) % len,
    decreases steps,
{
    if steps == 0 {
        vstd::arithmetic::div_mod::lemma_small_mod(idx as nat, len as nat);
    } else {
        lemma_after_steps(idx, len, (steps - 1) as nat);
        vstd::arithmetic::div_mod::lemma_add_mod_noop(idx + steps - 1, 1, len);
        vstd::arithmetic::div_mod::lemma_add_mod_noop((idx + steps - 1) % len, 1, len);
        vstd::arithmetic::div_mod::lemma_mod_twice(idx + steps - 1, len);
    }
}

/// The next recording is the one below, and the first one behind the last; the previous one is
/// the one above, and the last one before the first.
pub proof fn law_neighbours_are_selected(current: usize, collection: Seq<StoreId>)
    requires
        current < collection.len() <= usize::MAX,
    ensures
        shift_command(
            current,
            collection,
            step(RecordingPanelCommand::SelectNextRecording),
        ) == SystemCommand::SetSelection(
            Item::StoreId(
                if current + 1 < collection.len() {
                    collection[current + 1]
                } else {
                    collection.first()
                },
            ),
        ),
        shift_command(
            current,
            collection,
            step(RecordingPanelCommand::SelectPreviousRecording),
        ) == SystemCommand::SetSelection(
            Item::StoreId(
                if current > 0 {
                    collection[current - 1]
                } else {
                    collection.last()
                },
            ),
        ),
{
    let len = collection.len() as int;
    if current + 1 < len {
        vstd::arithmetic::div_mod::lemma_small_mod((current + 1) as nat, len as nat);
    } else {
        vstd::arithmetic::div_mod::lemma_mod_self_0(len);
    }
    if current > 0 {
        vstd::arithmetic::div_mod::lemma_small_mod((current - 1) as nat, len as nat);
    } else {
        vstd::arithmetic::div_mod::lemma_mod_add_multiples_vanish(-1, len);
        vstd::arithmetic::div_mod::lemma_small_mod((len - 1) as nat, len as nat);
    }
}

} // verus!
