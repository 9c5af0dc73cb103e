//! The engine worker's loop: when it sleeps, what it hands to the engine, what
//! it publishes and when it renders.  Time is counted in microseconds since
//! the worker started.

use crate::backend::mailbox::{BrowserViewport, Command, Mailbox};
use crate::backend::{BrowserInput, BrowserSnapshot};
use std::collections::VecDeque;
use vstd::prelude::*;

verus! {

/// The shortest time between two frames.
pub const FRAME_INTERVAL: u64 = 16_667;

/// The longest time that the engine goes without a look at its pending work.
/// A wake is a hint to look earlier, not a promise that every piece of work
/// announces itself.
pub const ENGINE_POLL_INTERVAL: u64 = 16_667;

/// What the worker does next while it holds the mailbox.
#[derive(Clone, Copy, Debug, PartialEq, Eq, Structural)]
pub enum EngineWait {
    /// The user interface is gone.
    Stop,
    /// There is something to do.
    Run,
    /// Nothing to do for so many microseconds, unless the mailbox changes.
    Sleep(u64),
}

/// What the worker does with one command.
#[derive(Debug, PartialEq)]
pub enum EngineStep {
    /// The input was meant for a page that is gone.
    Discard,
    Deliver(BrowserInput),
    Navigate(String),
    Reload,
    GoBack,
    GoForward,
}

/// The state of the worker's loop.
pub struct EngineLoop {
    /// The navigation that the engine has been told of last.
    pub generation: u64,
    /// Whether the page may look different from the last frame.
    pub dirty: bool,
    pub next_frame_at: u64,
    pub next_poll_at: u64,
    /// The state that was published last, with its generation.
    pub last_snapshot: Option<(u64, BrowserSnapshot)>,
    /// The viewport of the last frame.
    pub rendered_viewport: Option<BrowserViewport>,
}

/// Whether the last frame was rendered for the given viewport.
pub open spec fn rendered_for(
    rendered: Option<BrowserViewport>,
    viewport: BrowserViewport,
) -> bool {
    rendered matches Some(last) && last.equals(viewport)
}

/// Whether a state was published last, for the same generation.
pub open spec fn published_last(
    last: Option<(u64, BrowserSnapshot)>,
    generation: u64,
    snapshot: BrowserSnapshot,
) -> bool {
    last matches Some((for_generation, state)) && for_generation == generation && state.agrees(
        snapshot,
    )
}

/// The navigation that the engine has been told of last, once it has worked
/// through the commands.
pub open spec fn generation_after(generation: u64, commands: Seq<(u64, Command)>) -> u64
    decreases commands.len(),
{
    if commands.len() == 0 {
        generation
    } else if commands.last().1 is Input {
        generation_after(generation, commands.drop_last())
    } else {
        commands.last().0
    }
}

/// What the worker does with a command when the engine has last been told of
/// the navigation `generation`.
pub open spec fn step_for(
    generation: u64,
    command_generation: u64,
    command: Command,
) -> EngineStep {
    match command {
        Command::Input(input) => if command_generation == generation {
            EngineStep::Deliver(input)
        } else {
            EngineStep::Discard
        },
        Command::Navigate(location) => EngineStep::Navigate(location),
        Command::Reload => EngineStep::Reload,
        Command::Back => EngineStep::GoBack,
        Command::Forward => EngineStep::GoForward,
    }
}

impl EngineLoop {
    /// The loop of a worker that starts at the time `now`.
    pub fn new(now: u64) -> (result: EngineLoop)
        ensures
            result == (EngineLoop {
                generation: 0,
                dirty: false,
                next_frame_at: now,
                next_poll_at: now,
                last_snapshot: None,
                rendered_viewport: None,
            }),
    {
        EngineLoop {
            generation: 0,
            dirty: false,
            next_frame_at: now,
            next_poll_at: now,
            last_snapshot: None,
            rendered_viewport: None,
        }
    }

    /// The time at which the worker has to look again even if nothing happens.
    pub open spec fn deadline(self) -> u64 {
        if self.dirty && self.next_frame_at < self.next_poll_at {
            self.next_frame_at
        } else {
            self.next_poll_at
        }
    }

    /// What the worker does next.
    pub open spec fn wait_for<D>(self, mailbox: Mailbox<D>, now: u64) -> EngineWait {
        if mailbox.shutdown {
            EngineWait::Stop
        } else if mailbox.commands@.len() > 0 || mailbox.engine_woken || now >= self.next_poll_at
            || (self.dirty && now >= self.next_frame_at) {
            EngineWait::Run
        } else {
            EngineWait::Sleep((self.deadline() - now) as u64)
        }
    }

    /// Decide whether the worker stops, runs or sleeps.
    pub fn wait_step<D>(&self, mailbox: &Mailbox<D>, now: u64) -> (result: EngineWait)
        ensures
            result == self.wait_for(*mailbox, now),
    {
        if mailbox.shutdown {
            return EngineWait::Stop;
        }
        if mailbox.commands.len() > 0 || mailbox.engine_woken || now >= self.next_poll_at || (
        self.dirty && now >= self.next_frame_at) {
            return EngineWait::Run;
        }
        let deadline = if self.dirty && self.next_frame_at < self.next_poll_at {
            self.next_frame_at
        } else {
            self.next_poll_at
        };
        EngineWait::Sleep(deadline - now)
    }

    /// The loop once it has begun a turn.
    pub open spec fn turn_begun<D>(self, mailbox: Mailbox<D>) -> EngineLoop {
        EngineLoop {
            dirty: self.dirty || mailbox.commands@.len() > 0 || !rendered_for(
                self.rendered_viewport,
                mailbox.viewport,
            ),
            ..self
        }
    }

    /// Begin a turn: take all commands, and note whether there may be something
    /// new to draw.
    pub fn begin_turn<D>(&mut self, mailbox: &mut Mailbox<D>) -> (result: (
        VecDeque<(u64, Command)>,
        BrowserViewport,
    ))
        ensures
            result.0@ == old(mailbox).commands@,
            result.1 == old(mailbox).viewport,
            final(mailbox).commands@ == Seq::<(u64, Command)>::empty(),
            *final(mailbox) == (Mailbox {
                commands: final(mailbox).commands,
                engine_woken: false,
                ..*old(mailbox)
            }),
            *final(self) == old(self).turn_begun(*old(mailbox)),
    {
        mailbox.engine_woken = false;
        let mut commands: VecDeque<(u64, Command)> = VecDeque::new();
        commands.append(&mut mailbox.commands);
        let viewport = mailbox.viewport;
        let stale = match self.rendered_viewport {
            Some(last) => last != viewport,
            None => true,
        };
        assert(commands@ =~= old(mailbox).commands@);
        if commands.len() > 0 || stale {
            self.dirty = true;
        }
        (commands, viewport)
    }

    /// Decide what one command of the turn means for the engine.
    pub fn route(&mut self, command_generation: u64, command: Command) -> (step: EngineStep)
        ensures
            step == step_for(old(self).generation, command_generation, command),
            final(self).generation == generation_after(
                old(self).generation,
                seq![(command_generation, command)],
            ),
            *final(self) == (EngineLoop {
                generation: if command is Input {
                    old(self).generation
                } else {
                    command_generation
                },
                ..*old(self)
            }),
    {
        assert(seq![(command_generation, command)] =~= Seq::empty().push(
            (command_generation, command),
        ));
        proof {
            the_last_navigation_counts(
                self.generation,
                Seq::empty(),
                (command_generation, command),
            );
        }
        match command {
            Command::Input(input) => {
                if command_generation == self.generation {
                    EngineStep::Deliver(input)
                } else {
                    EngineStep::Discard
                }
            },
            Command::Navigate(location) => {
                self.generation = command_generation;
                EngineStep::Navigate(location)
            },
            Command::Reload => {
                self.generation = command_generation;
                EngineStep::Reload
            },
            Command::Back => {
                self.generation = command_generation;
                EngineStep::GoBack
            },
            Command::Forward => {
                self.generation = command_generation;
                EngineStep::GoForward
            },
        }
    }

    /// Note what the engine said of an input that was delivered to it.
    pub fn delivered(&mut self, consumed: bool)
        ensures
            *final(self) == (EngineLoop { dirty: old(self).dirty || consumed, ..*old(self) }),
    {
        if consumed {
            self.dirty = true;
        }
    }

    /// The loop once the engine has advanced its pending work.
    pub open spec fn after_tick(
        self,
        changed: bool,
        now: u64,
        snapshot: BrowserSnapshot,
    ) -> EngineLoop {
        EngineLoop {
            dirty: self.dirty || changed,
            next_poll_at: (now + ENGINE_POLL_INTERVAL) as u64,
            last_snapshot: if published_last(self.last_snapshot, self.generation, snapshot) {
                self.last_snapshot
            } else {
                Some((self.generation, snapshot))
            },
            ..self
        }
    }

    /// Note what the engine said when it advanced its pending work, and whether
    /// its state is news to the user interface.  Only the engine can tell
    /// whether that work changed the page.
    pub fn ticked(&mut self, changed: bool, now: u64, snapshot: &BrowserSnapshot) -> (publish: bool)
        requires
            now + ENGINE_POLL_INTERVAL <= u64::MAX,
        ensures
            publish == !published_last(old(self).last_snapshot, old(self).generation, *snapshot),
            *final(self) == old(self).after_tick(changed, now, *snapshot),
    {
        if changed {
            self.dirty = true;
        }
        self.next_poll_at = now + ENGINE_POLL_INTERVAL;
        let known = match &self.last_snapshot {
            Some((generation, state)) => *generation == self.generation && state.same(snapshot),
            None => false,
        };
        if !known {
            self.last_snapshot = Some((self.generation, snapshot.clone()));
        }
        !known
    }

    /// Whether a frame is due.
    pub open spec fn is_due(self, now: u64) -> bool {
        self.dirty && now >= self.next_frame_at
    }

    /// Decide whether a frame is due.  One that is due moves the next one a
    /// frame's time away.
    pub fn frame_due(&mut self, now: u64) -> (due: bool)
        requires
            now + FRAME_INTERVAL <= u64::MAX,
        ensures
            due == old(self).is_due(now),
            *final(self) == (EngineLoop {
                next_frame_at: if due {
                    (now + FRAME_INTERVAL) as u64
                } else {
                    old(self).next_frame_at
                },
                ..*old(self)
            }),
    {
        if self.dirty && now >= self.next_frame_at {
            self.next_frame_at = now + FRAME_INTERVAL;
            true
        } else {
            false
        }
    }

    /// Note that a frame has been rendered for the given viewport.
    pub fn rendered(&mut self, viewport: BrowserViewport)
        ensures
            *final(self) == (EngineLoop {
                rendered_viewport: Some(viewport),
                dirty: false,
                ..*old(self)
            }),
    {
        self.rendered_viewport = Some(viewport);
        self.dirty = false;
    }
}

/// An input reaches the engine if and only if it was made for the page that
/// the engine has last been told to load: in a turn with the commands
/// `commands`, the input at position `at` is delivered exactly when it was
/// posted in the generation of the last navigation before it.
pub proof fn inputs_reach_only_their_own_page(
    generation: u64,
    commands: Seq<(u64, Command)>,
    at: int,
)
    requires
        0 <= at < commands.len(),
        commands[at].1 is Input,
    ensures
        step_for(
            generation_after(generation, commands.take(at)),
            commands[at].0,
            commands[at].1,
        ) is Deliver <==> commands[at].0 == generation_after(generation, commands.take(at)),
        generation_after(generation, commands.take(at + 1)) == generation_after(
            generation,
            commands.take(at),
        ),
{
    assert(commands.take(at + 1).drop_last() =~= commands.take(at));
}

/// A turn in which nothing was asked, the size of the web view is the same and
/// the engine changed nothing does not make a frame due, whenever it ends.
pub proof fn idle_wakes_do_not_render<D>(
    before: EngineLoop,
    mailbox: Mailbox<D>,
    ticked_at: u64,
    snapshot: BrowserSnapshot,
    now: u64,
)
    requires
        !before.dirty,
        mailbox.commands@.len() == 0,
        rendered_for(before.rendered_viewport, mailbox.viewport),
    ensures
        !before.turn_begun(mailbox).after_tick(false, ticked_at, snapshot).is_due(now),
{
}

/// A turn that finds the web view at another size than that of the last frame,
/// or finds a command, makes a frame due as soon as a frame's time has passed,
/// whatever the engine says.
pub proof fn resizes_and_commands_render<D>(
    before: EngineLoop,
    mailbox: Mailbox<D>,
    changed: bool,
    ticked_at: u64,
    snapshot: BrowserSnapshot,
    now: u64,
)
    requires
        !rendered_for(before.rendered_viewport, mailbox.viewport) || mailbox.commands@.len() > 0,
        now >= before.next_frame_at,
    ensures
        before.turn_begun(mailbox).after_tick(changed, ticked_at, snapshot).is_due(now),
{
}

/// The worker never sleeps past the next look at the engine's pending work, so
/// that work makes progress even if nothing announces it, and never past a
/// frame that is wanted.
pub proof fn sleep_is_bounded<D>(engine: EngineLoop, mailbox: Mailbox<D>, now: u64)
    ensures
        engine.wait_for(mailbox, now) matches EngineWait::Sleep(time) ==> {
            &&& time > 0
            &&& now + time <= engine.next_poll_at
            &&& engine.dirty ==> now + time <= engine.next_frame_at
            &&& !mailbox.shutdown
            &&& mailbox.commands@.len() == 0
        },
{
}

/// The worker does what a command says: a navigation whatever the page is that it
/// comes for, and an input if it is for the page of the last navigation; it is
/// then delivered as it is.
pub proof fn commands_are_done(generation: u64, command_generation: u64, command: Command)
    ensures
        ({
            let step = step_for(generation, command_generation, command);
            &&& command matches Command::Navigate(location) ==> step == EngineStep::Navigate(
                location,
            )
            &&& command is Reload ==> step is Reload
            &&& command is Back ==> step is GoBack
            &&& command is Forward ==> step is GoForward
            &&& command matches Command::Input(input) ==> step == if command_generation
                == generation {
                EngineStep::Deliver(input)
            } else {
                EngineStep::Discard
            }
        }),
{
}

/// The page that inputs are for is that of the last navigation among the
/// commands, and that of the time before where there is none.
pub proof fn the_last_navigation_counts(
    generation: u64,
    commands: Seq<(u64, Command)>,
    command: (u64, Command),
)
    ensures
        generation_after(generation, Seq::empty()) == generation,
        command.1 is Input ==> generation_after(generation, commands.push(command))
            == generation_after(generation, commands),
        !(command.1 is Input) ==> generation_after(generation, commands.push(command))
            == command.0,
{
    assert(commands.push(command).drop_last() =~= commands);
}

/// The worker stops exactly when the user interface is gone.  Until then it runs
/// as soon as there is a command, a wake, pending work to look at or a wanted
/// frame whose time has come; and else it sleeps until the first of the times at
/// which there will be one.
pub proof fn the_worker_waits_for_work<D>(engine: EngineLoop, mailbox: Mailbox<D>, now: u64)
    ensures
        ({
            let wait = engine.wait_for(mailbox, now);
            let work = mailbox.commands@.len() > 0 || mailbox.engine_woken || engine.next_poll_at
                <= now || (engine.dirty && engine.next_frame_at <= now);
            &&& wait is Stop <==> mailbox.shutdown
            &&& !mailbox.shutdown && work ==> wait is Run
            &&& !mailbox.shutdown && !work ==> (wait matches EngineWait::Sleep(time) && (now + time
                == engine.next_poll_at || (engine.dirty && now + time == engine.next_frame_at))
                && now + time <= engine.next_poll_at && (engine.dirty ==> now + time
                <= engine.next_frame_at))
        }),
{
}

/// A turn makes the page worth drawing exactly if it was before, or there is a
/// command, or the web view has another size than the last frame; and nothing
/// else changes as it begins.
pub proof fn turns_note_what_is_new<D>(engine: EngineLoop, mailbox: Mailbox<D>)
    ensures
        ({
            let begun = engine.turn_begun(mailbox);
            &&& begun.dirty <==> engine.dirty || mailbox.commands@.len() > 0 || !(
            engine.rendered_viewport matches Some(last) && last.equals(mailbox.viewport))
            &&& begun == (EngineLoop { dirty: begun.dirty, ..engine })
        }),
{
}

/// A tick that changed the page makes it worth drawing, and one that did not
/// leaves it as it was.  The next look is a sixtieth of a second away.  The state
/// is published unless it was the last one published for the same page, and it is
/// then the last one.
pub proof fn ticks_note_what_changed(
    engine: EngineLoop,
    changed: bool,
    now: u64,
    snapshot: BrowserSnapshot,
)
    requires
        now + 16_667 <= u64::MAX,
    ensures
        ({
            let after = engine.after_tick(changed, now, snapshot);
            &&& after.dirty <==> engine.dirty || changed
            &&& after.next_poll_at == now + 16_667
            &&& after.generation == engine.generation
            &&& after.next_frame_at == engine.next_frame_at
            &&& after.rendered_viewport == engine.rendered_viewport
            &&& published_last(engine.last_snapshot, engine.generation, snapshot) ==> (
            engine.last_snapshot matches Some((page, last)) && page == engine.generation
                && last.agrees(snapshot) && after.last_snapshot == engine.last_snapshot)
            &&& !published_last(engine.last_snapshot, engine.generation, snapshot) ==> {
                &&& after.last_snapshot == Some((engine.generation, snapshot))
                &&& !(engine.last_snapshot matches Some((page, last)) && page == engine.generation
                    && last.agrees(snapshot))
            }
        }),
{
}

/// A frame is due exactly when the page is worth drawing and a frame's time has
/// passed since the last one was.
pub proof fn frames_are_due_in_time(engine: EngineLoop, now: u64)
    ensures
        engine.is_due(now) <==> engine.dirty && engine.next_frame_at <= now,
        FRAME_INTERVAL == 16_667,
        ENGINE_POLL_INTERVAL == 16_667,
{
}

} // verus!
