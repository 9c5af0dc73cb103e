//! What the user interface and the engine leave for each other.
//!
//! The user interface posts commands and takes the latest completed update;
//! the engine takes commands and posts updates.  Every navigation starts a new
//! generation, and an update of any other generation is obsolete.

use crate::backend::frame::BrowserFrame;
use crate::backend::{BrowserInput, BrowserSnapshot, WheelDelta};
use crate::scalar::Real32;
use std::collections::VecDeque;
use vstd::prelude::*;

verus! {

/// The size of the web view in physical pixels, and the scale of a CSS pixel.
#[derive(Clone, Copy, Debug)]
pub struct BrowserViewport {
    pub width: u32,
    pub height: u32,
    pub scale: Real32,
}

impl BrowserViewport {
    /// Whether two viewports show a page the same way.
    pub open spec fn equals(self, other: BrowserViewport) -> bool {
        self.width == other.width && self.height == other.height && self.scale.equals(other.scale)
    }
}

impl PartialEq for BrowserViewport {
    fn eq(&self, other: &BrowserViewport) -> (result: bool) {
        self.width == other.width && self.height == other.height && self.scale == other.scale
    }
}

impl vstd::std_specs::cmp::PartialEqSpecImpl for BrowserViewport {
    open spec fn obeys_eq_spec() -> bool {
        true
    }

    open spec fn eq_spec(&self, other: &BrowserViewport) -> bool {
        self.equals(*other)
    }
}

/// What the user interface asks of the engine.
#[derive(Debug, PartialEq)]
pub enum Command {
    Navigate(String),
    Reload,
    Back,
    Forward,
    Input(BrowserInput),
}

/// A state of the engine, with the frame that it completed, if any.
pub struct Update<D> {
    pub generation: u64,
    pub snapshot: BrowserSnapshot,
    pub frame: Option<(BrowserViewport, BrowserFrame<D>)>,
}

/// Everything that passes between the user interface and the engine.
pub struct Mailbox<D> {
    pub commands: VecDeque<(u64, Command)>,
    pub viewport: BrowserViewport,
    pub generation: u64,
    pub engine_woken: bool,
    pub shutdown: bool,
    pub update: Option<Update<D>>,
}

/// Whether an input may be folded into the one before it.
pub open spec fn coalesces(previous: BrowserInput, input: BrowserInput) -> bool {
    match (previous, input) {
        (BrowserInput::PointerMoved { .. }, BrowserInput::PointerMoved { .. }) => true,
        (BrowserInput::Wheel { x, y, .. }, BrowserInput::Wheel { x: new_x, y: new_y, .. }) => {
            x.equals(new_x) && y.equals(new_y)
        },
        _ => false,
    }
}

/// Whether `result` is what the two inputs are folded into: the later place of
/// the pointer, or all turns of the wheel at the place of the first.
pub open spec fn folded(previous: BrowserInput, input: BrowserInput, result: BrowserInput) -> bool {
    match (previous, input) {
        (BrowserInput::PointerMoved { .. }, BrowserInput::PointerMoved { .. }) => result == input,
        (
            BrowserInput::Wheel { deltas, x, y },
            BrowserInput::Wheel { deltas: more, .. },
        ) => match result {
            BrowserInput::Wheel { deltas: all, x: at_x, y: at_y } => {
                all@ == deltas@ + more@ && at_x == x && at_y == y
            },
            _ => false,
        },
        _ => false,
    }
}

/// Whether the input may be folded into the last command of the queue.
pub open spec fn folds_into_last(
    commands: Seq<(u64, Command)>,
    generation: u64,
    input: BrowserInput,
) -> bool {
    &&& commands.len() > 0
    &&& commands.last().0 == generation
    &&& commands.last().1 matches Command::Input(previous) && coalesces(previous, input)
}

/// Whether `after` is the queue `before` once the input has been posted to it.
pub open spec fn enqueued(
    before: Seq<(u64, Command)>,
    generation: u64,
    input: BrowserInput,
    after: Seq<(u64, Command)>,
) -> bool {
    if folds_into_last(before, generation, input) {
        &&& after.len() == before.len()
        &&& after.drop_last() == before.drop_last()
        &&& after.last().0 == generation
        &&& before.last().1 matches Command::Input(previous)
            && after.last().1 matches Command::Input(result) && folded(previous, input, result)
    } else {
        after == before.push((generation, Command::Input(input)))
    }
}

/// Post an input, folding it into the one before it where that loses nothing
/// but intermediate motion.
pub fn enqueue_input(commands: &mut VecDeque<(u64, Command)>, generation: u64, input: BrowserInput)
    ensures
        enqueued(old(commands)@, generation, input, final(commands)@),
{
    let ghost before = commands@;
    match commands.pop_back() {
        None => {
            commands.push_back((generation, Command::Input(input)));
        },
        Some((previous_generation, Command::Input(previous))) => {
            if previous_generation != generation {
                commands.push_back((previous_generation, Command::Input(previous)));
                assert(commands@ =~= before);
                commands.push_back((generation, Command::Input(input)));
                return ;
            }
            match (previous, input) {
                (
                    BrowserInput::PointerMoved { .. },
                    BrowserInput::PointerMoved { x, y },
                ) => {
                    commands.push_back(
                        (generation, Command::Input(BrowserInput::PointerMoved { x, y })),
                    );
                    assert(commands@.drop_last() =~= before.drop_last());
                },
                (
                    BrowserInput::Wheel { deltas, x, y },
                    BrowserInput::Wheel { deltas: more, x: new_x, y: new_y },
                ) => {
                    if x == new_x && y == new_y {
                        let all = joined(deltas, more);
                        commands.push_back(
                            (generation, Command::Input(BrowserInput::Wheel { deltas: all, x, y })),
                        );
                        assert(commands@.drop_last() =~= before.drop_last());
                    } else {
                        commands.push_back(
                            (generation, Command::Input(BrowserInput::Wheel { deltas, x, y })),
                        );
                        assert(commands@ =~= before);
                        commands.push_back(
                            (
                                generation,
                                Command::Input(
                                    BrowserInput::Wheel { deltas: more, x: new_x, y: new_y },
                                ),
                            ),
                        );
                    }
                },
                (previous, input) => {
                    commands.push_back((previous_generation, Command::Input(previous)));
                    assert(commands@ =~= before);
                    commands.push_back((generation, Command::Input(input)));
                },
            }
        },
        Some(previous) => {
            commands.push_back(previous);
            assert(commands@ =~= before);
            commands.push_back((generation, Command::Input(input)));
        },
    }
}

/// All turns of the wheel, the earlier ones first.
fn joined(first: Vec<WheelDelta>, second: Vec<WheelDelta>) -> (result: Vec<WheelDelta>)
    ensures
        result@ == first@ + second@,
{
    let mut result = first;
    let mut i: usize = 0;
    while i < second.len()
        invariant
            i <= second.len(),
            result@ == first@ + second@.take(i as int),
        decreases second.len() - i,
    {
        result.push(second[i]);
        assert(second@.take(i + 1) =~= second@.take(i as int).push(second@[i as int]));
        i += 1;
    }
    assert(second@.take(i as int) =~= second@);
    result
}

/// The frame that an update carries: its own, or else the one that the update
/// of the same generation before it had not yet delivered.
pub open spec fn carried_frame<D>(
    previous: Option<Update<D>>,
    generation: u64,
    frame: Option<(BrowserViewport, BrowserFrame<D>)>,
) -> Option<(BrowserViewport, BrowserFrame<D>)> {
    match (frame, previous) {
        (None, Some(update)) => if update.generation == generation {
            update.frame
        } else {
            None
        },
        _ => frame,
    }
}

impl<D> Mailbox<D> {
    /// The mailbox once the engine has published a state of `generation`.
    pub open spec fn after_publish(
        self,
        generation: u64,
        snapshot: BrowserSnapshot,
        frame: Option<(BrowserViewport, BrowserFrame<D>)>,
    ) -> Mailbox<D> {
        if self.shutdown || generation != self.generation {
            self
        } else {
            Mailbox {
                update: Some(
                    Update {
                        generation,
                        snapshot,
                        frame: carried_frame(self.update, generation, frame),
                    },
                ),
                ..self
            }
        }
    }

    /// Publish a state of the engine.  The update that it replaces is handed
    /// back, so that the caller can let go of it outside any lock.
    pub fn publish(
        &mut self,
        generation: u64,
        snapshot: BrowserSnapshot,
        frame: Option<(BrowserViewport, BrowserFrame<D>)>,
    ) -> (replaced: Option<Update<D>>)
        ensures
            *final(self) == old(self).after_publish(generation, snapshot, frame),
            replaced is Some <==> old(self).update is Some && !old(self).shutdown && generation
                == old(self).generation,
            replaced matches Some(update) ==> update.generation == old(self).update->0.generation
                && update.snapshot == old(self).update->0.snapshot && update.frame == (if frame is None
                && update.generation == generation {
                None
            } else {
                old(self).update->0.frame
            }),
    {
        if self.shutdown || generation != self.generation {
            return None;
        }
        let mut replaced = self.update.take();
        let mut kept = frame;
        if kept.is_none() {
            if let Some(previous) = replaced {
                if previous.generation == generation {
                    kept = previous.frame;
                    replaced = Some(
                        Update {
                            generation: previous.generation,
                            snapshot: previous.snapshot,
                            frame: None,
                        },
                    );
                } else {
                    replaced = Some(previous);
                }
            }
        }
        self.update = Some(Update { generation, snapshot, frame: kept });
        replaced
    }

    /// Whether `after` is this mailbox once a navigation has been posted to it.
    pub open spec fn navigated(self, command: Command, after: Mailbox<D>) -> bool {
        &&& after.generation == if self.generation == u64::MAX {
            0
        } else {
            self.generation + 1
        }
        &&& after.commands@ == self.commands@.push((after.generation, command))
        &&& after.update == None::<Update<D>>
        &&& after.viewport == self.viewport
        &&& after.engine_woken == self.engine_woken
        &&& after.shutdown == self.shutdown
    }

    /// Post a navigation: a new generation begins, and the update that nobody
    /// has taken yet is withdrawn.
    pub fn post_navigation(&mut self, command: Command) -> (withdrawn: Option<Update<D>>)
        ensures
            old(self).navigated(command, *final(self)),
            withdrawn == old(self).update,
    {
        self.generation = self.generation.wrapping_add(1);
        self.commands.push_back((self.generation, command));
        self.update.take()
    }

    /// Take the latest update, with the generation and the viewport that it has
    /// to match.
    pub fn take_update(&mut self) -> (result: (Option<Update<D>>, u64, BrowserViewport))
        ensures
            *final(self) == (Mailbox { update: None, ..*old(self) }),
            result == (old(self).update, old(self).generation, old(self).viewport),
    {
        let update = self.update.take();
        (update, self.generation, self.viewport)
    }

    /// Ask the engine to look for work.
    pub fn wake(&mut self)
        ensures
            *final(self) == (Mailbox { engine_woken: true, ..*old(self) }),
    {
        self.engine_woken = true;
    }

    /// Tell the engine to stop.
    pub fn close(&mut self)
        ensures
            *final(self) == (Mailbox { shutdown: true, ..*old(self) }),
    {
        self.shutdown = true;
    }
}

/// Whether a command is mere motion: a place of the pointer or a turn of the
/// wheel.
pub open spec fn is_motion(command: Command) -> bool {
    match command {
        Command::Input(BrowserInput::PointerMoved { .. }) => true,
        Command::Input(BrowserInput::Wheel { .. }) => true,
        _ => false,
    }
}

/// The commands of a queue that are more than motion, in their order.
pub open spec fn discrete(commands: Seq<(u64, Command)>) -> Seq<(u64, Command)>
    decreases commands.len(),
{
    if commands.len() == 0 {
        Seq::empty()
    } else if is_motion(commands.last().1) {
        discrete(commands.drop_last())
    } else {
        discrete(commands.drop_last()).push(commands.last())
    }
}

/// The turns of the wheel that a command holds.
pub open spec fn turns_of(command: Command) -> Seq<WheelDelta> {
    match command {
        Command::Input(BrowserInput::Wheel { deltas, .. }) => deltas@,
        _ => Seq::empty(),
    }
}

/// All turns of the wheel in a queue, in their order.
pub open spec fn wheel_turns(commands: Seq<(u64, Command)>) -> Seq<WheelDelta>
    decreases commands.len(),
{
    if commands.len() == 0 {
        Seq::empty()
    } else {
        wheel_turns(commands.drop_last()) + turns_of(commands.last().1)
    }
}

/// Whether two commands, one after the other, cannot be folded into one.
pub open spec fn stay_apart(first: (u64, Command), second: (u64, Command)) -> bool {
    match (first.1, second.1) {
        (Command::Input(previous), Command::Input(input)) => {
            first.0 != second.0 || !coalesces(previous, input)
        },
        _ => true,
    }
}

/// Whether no two neighbours in the queue could have been folded into one.
pub open spec fn fully_coalesced(commands: Seq<(u64, Command)>) -> bool {
    forall|i: int, j: int|
        #![trigger commands[i], commands[j]]
        0 <= i && j == i + 1 && j < commands.len() ==> stay_apart(commands[i], commands[j])
}

/// Posting an input never reorders, drops or repeats a button, a key, a text
/// or a navigation, whatever motion is folded together around them.
pub proof fn event_order_is_preserved(
    before: Seq<(u64, Command)>,
    generation: u64,
    input: BrowserInput,
    after: Seq<(u64, Command)>,
)
    requires
        enqueued(before, generation, input, after),
    ensures
        discrete(after) == if is_motion(Command::Input(input)) {
            discrete(before)
        } else {
            discrete(before).push((generation, Command::Input(input)))
        },
{
    if !folds_into_last(before, generation, input) {
        assert(after.drop_last() =~= before);
    }
}

/// No turn of the wheel is lost: what the page scrolls by in all stays the
/// same, however the turns are folded together.
pub proof fn wheel_turns_are_preserved(
    before: Seq<(u64, Command)>,
    generation: u64,
    input: BrowserInput,
    after: Seq<(u64, Command)>,
)
    requires
        enqueued(before, generation, input, after),
    ensures
        wheel_turns(after) == wheel_turns(before) + turns_of(Command::Input(input)),
{
    if folds_into_last(before, generation, input) {
        assert(wheel_turns(after) =~= wheel_turns(before) + turns_of(Command::Input(input)));
    } else {
        assert(after.drop_last() =~= before);
    }
}

/// What could not be folded together with an input cannot be with what that
/// input and another are folded into.
proof fn folding_stays_apart(
    first: (u64, Command),
    generation: u64,
    previous: BrowserInput,
    input: BrowserInput,
    result: BrowserInput,
)
    requires
        stay_apart(first, (generation, Command::Input(previous))),
        coalesces(previous, input),
        folded(previous, input, result),
    ensures
        stay_apart(first, (generation, Command::Input(result))),
{
}

/// Intermediate motion does not pile up: a queue in which no neighbours could
/// be folded together is still such a queue after an input or a navigation.
pub proof fn motion_stays_coalesced(
    before: Seq<(u64, Command)>,
    generation: u64,
    input: BrowserInput,
    after: Seq<(u64, Command)>,
)
    requires
        fully_coalesced(before),
        enqueued(before, generation, input, after),
    ensures
        fully_coalesced(after),
        input is PointerMoved ==> after.last() == (generation, Command::Input(input)),
{
    let last = after.len() - 1;
    assert forall|i: int, j: int|
        #![trigger after[i], after[j]]
        0 <= i && j == i + 1 && j < after.len() implies stay_apart(after[i], after[j]) by {
        if folds_into_last(before, generation, input) {
            assert(after[i] == after.drop_last()[i]);
            assert(before[i] == before.drop_last()[i]);
            assert(stay_apart(before[i], before[j]));
            if j < last {
                assert(after[j] == after.drop_last()[j]);
                assert(before[j] == before.drop_last()[j]);
            } else {
                folding_stays_apart(
                    before[i],
                    generation,
                    before.last().1->Input_0,
                    input,
                    after.last().1->Input_0,
                );
            }
        } else if j < last {
            assert(stay_apart(before[i], before[j]));
        }
    }
}

/// Once a navigation has been posted, nothing that the engine publishes for
/// any page before it gets into the mailbox, and what it published earlier is
/// gone.
pub proof fn obsolete_navigation_results_are_dropped<D>(
    before: Mailbox<D>,
    command: Command,
    after: Mailbox<D>,
    generation: u64,
    snapshot: BrowserSnapshot,
    frame: Option<(BrowserViewport, BrowserFrame<D>)>,
)
    requires
        before.navigated(command, after),
        generation != after.generation,
    ensures
        after.update is None,
        before.generation != after.generation,
        after.after_publish(generation, snapshot, frame) == after,
{
}

/// A state that comes without a frame keeps the completed frame that has not
/// been taken yet.
pub proof fn status_updates_keep_the_frame<D>(
    mailbox: Mailbox<D>,
    generation: u64,
    first: BrowserSnapshot,
    frame: (BrowserViewport, BrowserFrame<D>),
    second: BrowserSnapshot,
)
    requires
        !mailbox.shutdown,
        generation == mailbox.generation,
    ensures
        mailbox.after_publish(generation, first, Some(frame)).after_publish(
            generation,
            second,
            None,
        ).update == Some(Update { generation, snapshot: second, frame: Some(frame) }),
{
}

/// The latest completed frame replaces an earlier one that was not taken.
pub proof fn latest_frame_wins<D>(
    mailbox: Mailbox<D>,
    generation: u64,
    first: BrowserSnapshot,
    first_frame: Option<(BrowserViewport, BrowserFrame<D>)>,
    second: BrowserSnapshot,
    second_frame: (BrowserViewport, BrowserFrame<D>),
)
    requires
        !mailbox.shutdown,
        generation == mailbox.generation,
    ensures
        mailbox.after_publish(generation, first, first_frame).after_publish(
            generation,
            second,
            Some(second_frame),
        ).update == Some(Update { generation, snapshot: second, frame: Some(second_frame) }),
{
}

/// After shutdown nothing gets into the mailbox any more.
pub proof fn nothing_is_published_after_shutdown<D>(
    mailbox: Mailbox<D>,
    generation: u64,
    snapshot: BrowserSnapshot,
    frame: Option<(BrowserViewport, BrowserFrame<D>)>,
)
    requires
        mailbox.shutdown,
    ensures
        mailbox.after_publish(generation, snapshot, frame) == mailbox,
{
}

/// An input is folded into the command before it only if both are moves of the
/// pointer, or turns of the wheel at the same place, for the same page; any other
/// input is posted behind all commands, and those stay as they are.
pub proof fn only_like_motion_is_folded(
    before: Seq<(u64, Command)>,
    generation: u64,
    input: BrowserInput,
    after: Seq<(u64, Command)>,
)
    requires
        enqueued(before, generation, input, after),
    ensures
        ({
            let alike = before.len() > 0 && before.last().0 == generation && (
            before.last().1 matches Command::Input(previous) && {
                ||| previous is PointerMoved && input is PointerMoved
                ||| previous is Wheel && input is Wheel && previous->Wheel_x.equals(input->Wheel_x)
                    && previous->Wheel_y.equals(input->Wheel_y)
            });
            &&& !alike ==> after.len() == before.len() + 1 && after.drop_last() == before
                && after.last() == (generation, Command::Input(input))
            &&& alike ==> after.len() == before.len() && after.drop_last() == before.drop_last()
                && after.last().0 == generation
        }),
{
    if !folds_into_last(before, generation, input) {
        assert(after.drop_last() =~= before);
    }
}

/// Folded turns of the wheel are all there, the earlier ones first, at the place
/// of the first; of folded moves the pointer is where the last one left it.
pub proof fn folded_motion_is_whole(
    previous: BrowserInput,
    input: BrowserInput,
    result: BrowserInput,
)
    requires
        coalesces(previous, input),
        folded(previous, input, result),
    ensures
        input is PointerMoved ==> result == input,
        input is Wheel ==> result is Wheel && result->deltas@ == previous->deltas@ + input->deltas@
            && result->Wheel_x == previous->Wheel_x && result->Wheel_y == previous->Wheel_y,
{
}

/// A navigation is posted behind all commands, with the number of a new page, and
/// takes back the update that nobody has seen; nothing else in the mailbox
/// changes.
pub proof fn navigations_are_posted_last<D>(
    before: Mailbox<D>,
    command: Command,
    after: Mailbox<D>,
)
    requires
        before.navigated(command, after),
    ensures
        after.generation != before.generation,
        before.generation < u64::MAX ==> after.generation == before.generation + 1,
        after.commands@.len() == before.commands@.len() + 1,
        after.commands@.drop_last() == before.commands@,
        after.commands@.last() == (after.generation, command),
        after.update is None,
        after.viewport == before.viewport,
        after.shutdown == before.shutdown,
        after.engine_woken == before.engine_woken,
{
    assert(after.commands@.drop_last() =~= before.commands@);
}

/// What the engine publishes for the current page gets into the mailbox, with the
/// frame that comes with it, and nothing else in the mailbox changes.
pub proof fn current_states_are_published<D>(
    mailbox: Mailbox<D>,
    snapshot: BrowserSnapshot,
    frame: (BrowserViewport, BrowserFrame<D>),
)
    requires
        !mailbox.shutdown,
    ensures
        ({
            let after = mailbox.after_publish(mailbox.generation, snapshot, Some(frame));
            &&& after.update == Some(
                Update { generation: mailbox.generation, snapshot, frame: Some(frame) },
            )
            &&& after == (Mailbox { update: after.update, ..mailbox })
        }),
        ({
            let after = mailbox.after_publish(mailbox.generation, snapshot, None);
            &&& after.update matches Some(update) && update.snapshot == snapshot
                && update.generation == mailbox.generation
            &&& after == (Mailbox { update: after.update, ..mailbox })
            &&& mailbox.update is None ==> after.update->0.frame is None
            &&& mailbox.update matches Some(last) ==> after.update->0.frame == if last.generation
                == mailbox.generation {
                last.frame
            } else {
                None
            }
        }),
{
}

/// Two viewports are the same to a page exactly if their sizes are, and their
/// scales are equal numbers.
pub proof fn viewports_are_sizes_and_scales(first: BrowserViewport, second: BrowserViewport)
    ensures
        first.equals(second) <==> {
            &&& first.width == second.width
            &&& first.height == second.height
            &&& first.scale.equals(second.scale)
        },
{
}

} // verus!
