//! The user interface's side of the engine worker.  No method here waits for
//! the engine: each one reads or changes the mailbox and returns.

use crate::backend::frame::BrowserFrame;
use crate::backend::mailbox::{enqueue_input, enqueued, BrowserViewport, Command, Mailbox, Update};
use crate::backend::{BackendError, BrowserInput, BrowserSnapshot, LoadState};
use crate::text::copy_of;
use std::collections::VecDeque;
use vstd::prelude::*;

verus! {

/// UI-side proxy of the engine: the last state that the engine showed.
pub struct BrowserWorker {
    pub snapshot: BrowserSnapshot,
}

/// Whether `after` is the snapshot `before` once a navigation has been asked
/// for.
pub open spec fn shows_loading(before: BrowserSnapshot, after: BrowserSnapshot) -> bool {
    &&& after.load_state == LoadState::Loading
    &&& after.text_input is None
    &&& after.backend_name == before.backend_name
    &&& after.title == before.title
    &&& after.can_go_back == before.can_go_back
    &&& after.can_go_forward == before.can_go_forward
}

/// Whether `after` is the snapshot `before` but for a failure with the given
/// message.
pub open spec fn shows_failure(
    before: BrowserSnapshot,
    message: Seq<char>,
    after: BrowserSnapshot,
) -> bool {
    &&& after.load_state matches LoadState::Failed(text) && text@ == message
    &&& after.backend_name == before.backend_name
    &&& after.url == before.url
    &&& after.title == before.title
    &&& after.can_go_back == before.can_go_back
    &&& after.can_go_forward == before.can_go_forward
    &&& after.text_input == before.text_input
}

/// Whether there is an update, and it is one of the given generation.
pub open spec fn is_current<D>(update: Option<Update<D>>, generation: u64) -> bool {
    update is Some && update->0.generation == generation
}

/// The frame that an update delivers to a user interface that expects the
/// given generation and viewport.
pub open spec fn delivered_frame<D>(
    update: Option<Update<D>>,
    generation: u64,
    viewport: BrowserViewport,
) -> Option<BrowserFrame<D>> {
    match update {
        Some(update) => if update.generation == generation {
            match update.frame {
                Some((rendered, frame)) => if rendered.equals(viewport) {
                    Some(frame)
                } else {
                    None
                },
                None => None,
            }
        } else {
            None
        },
        None => None,
    }
}

/// The mailbox once the engine has been told the size of the web view.
pub open spec fn resized<D>(mailbox: Mailbox<D>, viewport: BrowserViewport) -> Mailbox<D> {
    if mailbox.viewport.equals(viewport) {
        mailbox
    } else {
        Mailbox { viewport, engine_woken: true, ..mailbox }
    }
}

impl BrowserWorker {
    /// The proxy and the mailbox of an engine that is to load `location`.
    pub fn new<D>(location: &str, viewport: BrowserViewport) -> (result: (
        BrowserWorker,
        Mailbox<D>,
    ))
        ensures
            result.0.snapshot.backend_name@ == "Blitz"@,
            result.0.snapshot.url@ == location@,
            result.0.snapshot.title@ == "Myrica"@,
            result.0.snapshot.load_state == LoadState::Loading,
            !result.0.snapshot.can_go_back,
            !result.0.snapshot.can_go_forward,
            result.0.snapshot.text_input is None,
            result.1.generation == 1,
            result.1.commands@.len() == 1,
            result.1.commands@[0].0 == 1,
            result.1.commands@[0].1 matches Command::Navigate(target) && target@ == location@,
            result.1.viewport == viewport,
            result.1.engine_woken,
            !result.1.shutdown,
            result.1.update is None,
    {
        let snapshot = BrowserSnapshot {
            backend_name: "Blitz",
            url: copy_of(location),
            title: copy_of("Myrica"),
            load_state: LoadState::Loading,
            can_go_back: false,
            can_go_forward: false,
            text_input: None,
        };
        let mut commands: VecDeque<(u64, Command)> = VecDeque::new();
        commands.push_back((1, Command::Navigate(copy_of(location))));
        let mailbox = Mailbox {
            commands,
            viewport,
            generation: 1,
            engine_woken: true,
            shutdown: false,
            update: None,
        };
        (BrowserWorker { snapshot }, mailbox)
    }

    /// Report to the user interface that no engine could be made.
    pub fn report_start_failure<D>(&self, mailbox: &mut Mailbox<D>, error: &BackendError)
        ensures
            exists|snapshot: BrowserSnapshot| #[trigger]
                shows_failure(self.snapshot, error.message_text(), snapshot) && *final(mailbox)
                    == old(mailbox).after_publish(1, snapshot, None),
    {
        let mut snapshot = self.snapshot.clone();
        snapshot.load_state = LoadState::Failed(error.message());
        let ghost failure = snapshot;
        let _ = mailbox.publish(1, snapshot, None);
        assert(shows_failure(self.snapshot, error.message_text(), failure));
    }

    /// The last state that the engine showed.
    pub fn snapshot(&self) -> (result: BrowserSnapshot)
        ensures
            result == self.snapshot,
    {
        self.snapshot.clone()
    }

    /// Ask the engine to load `location`.  The update that nobody has taken
    /// yet is handed back, so that the caller can let go of it outside any
    /// lock.
    pub fn navigate<D>(
        &mut self,
        mailbox: &mut Mailbox<D>,
        finished: bool,
        location: &str,
    ) -> (result: Result<Option<Update<D>>, BackendError>)
        ensures
            result is Ok <==> !finished,
            result matches Ok(withdrawn) ==> {
                &&& withdrawn == old(mailbox).update
                &&& exists|target: String|
                    #![trigger target@]
                    target@ == location@ && old(mailbox).navigated(
                        Command::Navigate(target),
                        *final(mailbox),
                    )
                &&& shows_loading(old(self).snapshot, final(self).snapshot)
                &&& final(self).snapshot.url@ == location@
            },
            result matches Err(error) ==> {
                &&& error.message_text() == "browser worker stopped"@
                &&& *final(mailbox) == *old(mailbox)
                &&& shows_failure(
                    old(self).snapshot,
                    "browser worker stopped"@,
                    final(self).snapshot,
                )
            },
    {
        let target = copy_of(location);
        let ghost posted = target;
        let result = self.send_navigation(mailbox, finished, Command::Navigate(target));
        if result.is_ok() {
            assert(posted@ == location@ && old(mailbox).navigated(
                Command::Navigate(posted),
                *mailbox,
            ));
            self.snapshot.url = copy_of(location);
        }
        result
    }

    /// Ask the engine to load the current page again.
    pub fn reload<D>(&mut self, mailbox: &mut Mailbox<D>, finished: bool) -> (withdrawn: Option<
        Update<D>,
    >)
        ensures
            final(self).sent(*old(self), *old(mailbox), *final(mailbox), finished, Command::Reload),
            withdrawn == if finished {
                None
            } else {
                old(mailbox).update
            },
    {
        match self.send_navigation(mailbox, finished, Command::Reload) {
            Ok(withdrawn) => withdrawn,
            Err(_) => None,
        }
    }

    /// Ask the engine for the previous page, where the last state had one.
    pub fn go_back<D>(&mut self, mailbox: &mut Mailbox<D>, finished: bool) -> (withdrawn: Option<
        Update<D>,
    >)
        ensures
            old(self).snapshot.can_go_back ==> final(self).sent(
                *old(self),
                *old(mailbox),
                *final(mailbox),
                finished,
                Command::Back,
            ),
            !old(self).snapshot.can_go_back ==> *final(self) == *old(self) && *final(mailbox)
                == *old(mailbox),
            withdrawn == if finished || !old(self).snapshot.can_go_back {
                None
            } else {
                old(mailbox).update
            },
    {
        if self.snapshot.can_go_back {
            match self.send_navigation(mailbox, finished, Command::Back) {
                Ok(withdrawn) => withdrawn,
                Err(_) => None,
            }
        } else {
            None
        }
    }

    /// Ask the engine for the next page, where the last state had one.
    pub fn go_forward<D>(&mut self, mailbox: &mut Mailbox<D>, finished: bool) -> (withdrawn: Option<
        Update<D>,
    >)
        ensures
            old(self).snapshot.can_go_forward ==> final(self).sent(
                *old(self),
                *old(mailbox),
                *final(mailbox),
                finished,
                Command::Forward,
            ),
            !old(self).snapshot.can_go_forward ==> *final(self) == *old(self) && *final(mailbox)
                == *old(mailbox),
            withdrawn == if finished || !old(self).snapshot.can_go_forward {
                None
            } else {
                old(mailbox).update
            },
    {
        if self.snapshot.can_go_forward {
            match self.send_navigation(mailbox, finished, Command::Forward) {
                Ok(withdrawn) => withdrawn,
                Err(_) => None,
            }
        } else {
            None
        }
    }

    /// Whether this is the proxy `before` once it has sent a navigation to an
    /// engine that is running or has stopped.
    pub open spec fn sent<D>(
        self,
        before: BrowserWorker,
        mailbox_before: Mailbox<D>,
        mailbox_after: Mailbox<D>,
        finished: bool,
        command: Command,
    ) -> bool {
        if finished {
            &&& mailbox_after == mailbox_before
            &&& shows_failure(before.snapshot, "browser worker stopped"@, self.snapshot)
        } else {
            &&& mailbox_before.navigated(command, mailbox_after)
            &&& shows_loading(before.snapshot, self.snapshot)
            &&& self.snapshot.url == before.snapshot.url
        }
    }

    fn send_navigation<D>(
        &mut self,
        mailbox: &mut Mailbox<D>,
        finished: bool,
        command: Command,
    ) -> (result: Result<Option<Update<D>>, BackendError>)
        ensures
            final(self).sent(*old(self), *old(mailbox), *final(mailbox), finished, command),
            result is Ok <==> !finished,
            result matches Ok(withdrawn) ==> withdrawn == old(mailbox).update,
            result matches Err(error) ==> error.message_text() == "browser worker stopped"@,
    {
        if finished {
            let error = BackendError::new("browser worker stopped");
            self.snapshot.load_state = LoadState::Failed(error.message());
            return Err(error);
        }
        let withdrawn = mailbox.post_navigation(command);
        self.snapshot.load_state = LoadState::Loading;
        self.snapshot.text_input = None;
        Ok(withdrawn)
    }

    /// Tell the engine the size of the web view.  Returns whether that is news
    /// to it.
    pub fn resize<D>(&self, mailbox: &mut Mailbox<D>, viewport: BrowserViewport) -> (changed: bool)
        ensures
            changed == !old(mailbox).viewport.equals(viewport),
            *final(mailbox) == resized(*old(mailbox), viewport),
    {
        if mailbox.viewport != viewport {
            mailbox.viewport = viewport;
            mailbox.engine_woken = true;
            true
        } else {
            false
        }
    }

    /// Post an input to the engine.  Returns whether there is an engine to take
    /// it.
    pub fn handle_input<D>(
        &self,
        mailbox: &mut Mailbox<D>,
        finished: bool,
        input: BrowserInput,
    ) -> (taken: bool)
        ensures
            taken == !finished,
            finished ==> *final(mailbox) == *old(mailbox),
            !finished ==> {
                &&& enqueued(
                    old(mailbox).commands@,
                    old(mailbox).generation,
                    input,
                    final(mailbox).commands@,
                )
                &&& *final(mailbox) == (Mailbox {
                    commands: final(mailbox).commands,
                    ..*old(mailbox)
                })
            },
    {
        if finished {
            return false;
        }
        let generation = mailbox.generation;
        enqueue_input(&mut mailbox.commands, generation, input);
        true
    }

    /// Show the update that was taken out of the mailbox, if it is one of the
    /// current generation.  A frame is handed on only if it was rendered for
    /// the current viewport.
    pub fn poll<D>(
        &mut self,
        update: Option<Update<D>>,
        generation: u64,
        viewport: BrowserViewport,
        finished: bool,
    ) -> (result: Option<BrowserFrame<D>>)
        ensures
            result == delivered_frame(update, generation, viewport),
            is_current(update, generation) ==> final(self).snapshot == update->0.snapshot,
            !is_current(update, generation) ==> if finished && !(
            old(self).snapshot.load_state is Failed) {
                shows_failure(
                    old(self).snapshot,
                    "browser worker stopped"@,
                    final(self).snapshot,
                )
            } else {
                *final(self) == *old(self)
            },
    {
        if let Some(update) = update {
            if update.generation == generation {
                self.snapshot = update.snapshot;
                return match update.frame {
                    Some((rendered, frame)) => if rendered == viewport {
                        Some(frame)
                    } else {
                        None
                    },
                    None => None,
                };
            }
        }
        let failed = match self.snapshot.load_state {
            LoadState::Failed(_) => true,
            _ => false,
        };
        if finished && !failed {
            self.snapshot.load_state = LoadState::Failed(copy_of("browser worker stopped"));
        }
        None
    }
}

/// However often the web view changes its size before the engine looks, the
/// engine sees the last size, and nothing piles up for it.
pub proof fn resizes_are_coalesced<D>(
    mailbox: Mailbox<D>,
    first: BrowserViewport,
    second: BrowserViewport,
)
    ensures
        ({
            let after = resized(resized(mailbox, first), second);
            &&& after.viewport == second || after.viewport.equals(second)
            &&& after.commands == mailbox.commands
            &&& after.update == mailbox.update
            &&& after.generation == mailbox.generation
        }),
{
}

/// A frame that reaches the screen was rendered for the current navigation and
/// for the current size of the web view: after a navigation and a resize, no
/// update that the engine published before them, and none that it publishes
/// later for any other page or size, delivers a frame.
pub proof fn obsolete_results_never_reach_the_screen<D>(
    before: Mailbox<D>,
    command: Command,
    navigated: Mailbox<D>,
    viewport: BrowserViewport,
    generation: u64,
    snapshot: BrowserSnapshot,
    rendered: BrowserViewport,
    frame: BrowserFrame<D>,
)
    requires
        before.navigated(command, navigated),
        generation != navigated.generation || !rendered.equals(viewport),
    ensures
        ({
            let resized = Mailbox { viewport, ..navigated };
            let after = resized.after_publish(generation, snapshot, Some((rendered, frame)));
            &&& delivered_frame(resized.update, resized.generation, resized.viewport) is None
            &&& delivered_frame(after.update, after.generation, after.viewport) is None
        }),
{
}

/// A frame reaches the screen exactly if it came with an update for the current
/// page and was rendered for the current size of the web view; it is that frame.
pub proof fn current_frames_reach_the_screen<D>(
    update: Option<Update<D>>,
    generation: u64,
    viewport: BrowserViewport,
    frame: BrowserFrame<D>,
)
    ensures
        delivered_frame(update, generation, viewport) == Some(frame) <==> {
            &&& update matches Some(current) && current.generation == generation && (
            current.frame matches Some((rendered, drawn)) && rendered.equals(viewport) && drawn
                == frame)
        },
        is_current(update, generation) <==> update is Some && update->0.generation == generation,
{
}

/// A web view of another size is told to the engine, which is woken for it; one
/// of the same size is no news.  Nothing else in the mailbox changes.
pub proof fn new_sizes_are_told<D>(mailbox: Mailbox<D>, viewport: BrowserViewport)
    ensures
        ({
            let after = resized(mailbox, viewport);
            &&& !mailbox.viewport.equals(viewport) ==> after.viewport == viewport
                && after.engine_woken
            &&& mailbox.viewport.equals(viewport) ==> after == mailbox
            &&& after.commands == mailbox.commands
            &&& after.update == mailbox.update
            &&& after.generation == mailbox.generation
            &&& after.shutdown == mailbox.shutdown
        }),
{
}

/// While a page that was asked for is on its way, the user interface shows it as
/// loading, without a focused control; its title and the ways back and forward
/// are still those of the page before.
pub proof fn asked_pages_are_shown_as_loading(before: BrowserSnapshot, after: BrowserSnapshot)
    requires
        shows_loading(before, after),
    ensures
        after.load_state is Loading,
        after.text_input is None,
        after.title == before.title,
        after.backend_name == before.backend_name,
        after.can_go_back == before.can_go_back,
        after.can_go_forward == before.can_go_forward,
{
}

/// A failure is shown with its message, and everything else as it was.
pub proof fn failures_are_shown_with_their_message(
    before: BrowserSnapshot,
    message: Seq<char>,
    after: BrowserSnapshot,
)
    requires
        shows_failure(before, message, after),
    ensures
        after.load_state matches LoadState::Failed(text) && text@ == message,
        after.url == before.url,
        after.title == before.title,
        after.backend_name == before.backend_name,
        after.can_go_back == before.can_go_back,
        after.can_go_forward == before.can_go_forward,
        after.text_input == before.text_input,
{
}

/// A navigation that is sent reaches the mailbox of an engine that runs, and
/// shows as a failure where the engine has stopped, which gets no command then.
pub proof fn navigations_are_sent_or_fail<D>(
    before: BrowserWorker,
    after: BrowserWorker,
    mailbox_before: Mailbox<D>,
    mailbox_after: Mailbox<D>,
    finished: bool,
    command: Command,
)
    requires
        after.sent(before, mailbox_before, mailbox_after, finished, command),
    ensures
        !finished ==> {
            &&& mailbox_after.commands@.len() > 0
            &&& mailbox_after.commands@.last() == (mailbox_after.generation, command)
            &&& mailbox_after.generation != mailbox_before.generation
            &&& after.snapshot.load_state is Loading
            &&& after.snapshot.url == before.snapshot.url
        },
        finished ==> {
            &&& mailbox_after == mailbox_before
            &&& after.snapshot.load_state matches LoadState::Failed(text) && text@
                == "browser worker stopped"@
        },
{
}

} // verus!
