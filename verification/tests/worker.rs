use std::collections::VecDeque;
use std::time::{Duration, Instant};

use myrica::backend::engine::{
    EngineLoop, EngineStep, EngineWait, ENGINE_POLL_INTERVAL, FRAME_INTERVAL,
};
use myrica::backend::frame::BrowserFrame;
use myrica::backend::mailbox::{enqueue_input, BrowserViewport, Command, Mailbox};
use myrica::backend::worker::BrowserWorker;
use myrica::backend::{
    BackendError, BrowserInput, BrowserKey, BrowserModifiers, BrowserMouseButton, BrowserSnapshot,
    LoadState, WheelDelta,
};
use myrica::scalar::{Real32, Real64};

fn number(value: f32) -> Real32 {
    Real32::from_bits(value.to_bits())
}

fn viewport(width: u32, height: u32, scale: f32) -> BrowserViewport {
    BrowserViewport { width, height, scale: number(scale) }
}

fn turn(delta_x: f64, delta_y: f64) -> WheelDelta {
    WheelDelta {
        delta_x: Real64 { bits: delta_x.to_bits() },
        delta_y: Real64 { bits: delta_y.to_bits() },
    }
}

fn inputs(commands: VecDeque<(u64, Command)>) -> Vec<BrowserInput> {
    commands
        .into_iter()
        .map(|(_, command)| match command {
            Command::Input(input) => input,
            _ => panic!("expected input"),
        })
        .collect()
}

#[test]
fn motion_coalescing_preserves_drag_and_text_order() {
    let mut commands = VecDeque::new();
    let press = BrowserInput::PointerButton {
        button: BrowserMouseButton::Primary,
        pressed: true,
        x: number(1.0),
        y: number(2.0),
    };
    let release = BrowserInput::PointerButton {
        button: BrowserMouseButton::Primary,
        pressed: false,
        x: number(99.0),
        y: number(2.0),
    };
    enqueue_input(&mut commands, 1, press.clone());
    for x in 0..100 {
        enqueue_input(
            &mut commands,
            1,
            BrowserInput::PointerMoved { x: number(x as f32), y: number(2.0) },
        );
    }
    enqueue_input(&mut commands, 1, release.clone());
    let key = BrowserInput::Key {
        key: BrowserKey::Backspace,
        pressed: true,
        modifiers: BrowserModifiers::default(),
    };
    for input in [
        BrowserInput::Text('a'),
        key.clone(),
        BrowserInput::ImeCommit("日本語".into()),
    ] {
        enqueue_input(&mut commands, 1, input);
    }
    assert_eq!(
        inputs(commands),
        vec![
            press,
            BrowserInput::PointerMoved { x: number(99.0), y: number(2.0) },
            release,
            BrowserInput::Text('a'),
            key,
            BrowserInput::ImeCommit("日本語".into())
        ]
    );
}

#[test]
fn wheel_turns_at_one_place_are_gathered() {
    let mut commands = VecDeque::new();
    let at = |x: f32, turns: Vec<WheelDelta>| BrowserInput::Wheel {
        deltas: turns,
        x: number(x),
        y: number(0.0),
    };
    enqueue_input(&mut commands, 1, at(0.0, vec![turn(0.0, 1.0)]));
    enqueue_input(&mut commands, 1, at(-0.0, vec![turn(0.0, 2.0)]));
    enqueue_input(&mut commands, 1, at(5.0, vec![turn(0.0, 3.0)]));
    enqueue_input(&mut commands, 2, at(5.0, vec![turn(0.0, 4.0)]));
    assert_eq!(commands.len(), 3);
    assert_eq!(
        inputs(commands),
        vec![
            at(0.0, vec![turn(0.0, 1.0), turn(0.0, 2.0)]),
            at(5.0, vec![turn(0.0, 3.0)]),
            at(5.0, vec![turn(0.0, 4.0)]),
        ]
    );
}

#[test]
fn motion_is_not_gathered_across_pages() {
    let mut commands = VecDeque::new();
    for generation in [1, 2] {
        let place = BrowserInput::PointerMoved { x: number(1.0), y: number(1.0) };
        enqueue_input(&mut commands, generation, place);
    }
    assert_eq!(commands.len(), 2);
}

/// An engine that shows the location as its title.
struct TestEngine {
    engine: EngineLoop,
    snapshot: BrowserSnapshot,
    pending: Option<String>,
    revision: u64,
    now: u64,
}

impl TestEngine {
    fn new() -> TestEngine {
        TestEngine {
            engine: EngineLoop::new(0),
            snapshot: BrowserSnapshot {
                backend_name: "test",
                url: String::new(),
                title: String::new(),
                load_state: LoadState::Idle,
                can_go_back: false,
                can_go_forward: false,
                text_input: None,
            },
            pending: None,
            revision: 0,
            now: 0,
        }
    }

    /// The part of a turn before rendering; says whether a frame is due.
    fn run(&mut self, mailbox: &mut Mailbox<()>) -> (bool, BrowserViewport) {
        let (commands, viewport) = self.engine.begin_turn(mailbox);
        for (generation, command) in commands {
            match self.engine.route(generation, command) {
                EngineStep::Navigate(location) => {
                    self.snapshot.url = location.clone();
                    self.snapshot.title = location;
                    self.snapshot.load_state = LoadState::Ready;
                }
                EngineStep::Deliver(_) => self.engine.delivered(true),
                _ => {}
            }
        }
        let changed = match self.pending.take() {
            Some(title) => {
                self.snapshot.title = title;
                true
            }
            None => false,
        };
        if self.engine.ticked(changed, self.now, &self.snapshot) {
            mailbox.publish(self.engine.generation, self.snapshot.clone(), None);
        }
        (self.engine.frame_due(self.now), viewport)
    }

    fn render(&mut self, mailbox: &mut Mailbox<()>, viewport: BrowserViewport) {
        self.revision += 1;
        let mut frame = BrowserFrame::empty(viewport.width, viewport.height);
        frame.revision = self.revision;
        mailbox.publish(self.engine.generation, self.snapshot.clone(), Some((viewport, frame)));
        self.engine.rendered(viewport);
    }

    /// A whole turn, a frame's time after the one before.
    fn turn(&mut self, mailbox: &mut Mailbox<()>) {
        self.now += FRAME_INTERVAL;
        if let (true, viewport) = self.run(mailbox) {
            self.render(mailbox, viewport);
        }
    }
}

fn poll(worker: &mut BrowserWorker, mailbox: &mut Mailbox<()>) -> Option<BrowserFrame<()>> {
    let (update, generation, viewport) = mailbox.take_update();
    worker.poll(update, generation, viewport, false)
}

#[test]
fn ui_calls_and_shutdown_do_not_wait_for_any_engine_phase() {
    // Before the engine has looked, while it is at work, and after its first
    // frame.
    for stage in 0..3 {
        let (mut worker, mut mailbox) = BrowserWorker::new("first", viewport(320, 240, 1.0));
        let mut engine = TestEngine::new();
        worker.handle_input(&mut mailbox, false, BrowserInput::Text('a'));
        match stage {
            0 => {}
            1 => {
                engine.run(&mut mailbox);
            }
            _ => engine.turn(&mut mailbox),
        }
        let queued = mailbox.commands.len();
        let start = Instant::now();
        for index in 0..100 {
            worker.resize(&mut mailbox, viewport(400 + index, 240, 1.0));
            worker.handle_input(
                &mut mailbox,
                false,
                BrowserInput::PointerMoved { x: number(index as f32), y: number(20.0) },
            );
            poll(&mut worker, &mut mailbox);
        }
        assert_eq!(mailbox.viewport, viewport(499, 240, 1.0));
        assert_eq!(mailbox.commands.len(), queued + 1);
        worker.navigate(&mut mailbox, false, "second").unwrap();
        assert_eq!(worker.snapshot().url, "second");
        mailbox.close();
        assert!(start.elapsed() < Duration::from_millis(250));
        assert_eq!(engine.engine.wait_step(&mailbox, engine.now), EngineWait::Stop);
        mailbox.publish(1, engine.snapshot.clone(), None);
        assert!(mailbox.update.is_none());
    }
}

#[test]
fn delayed_frame_cannot_restore_old_navigation_or_viewport() {
    let (mut worker, mut mailbox) = BrowserWorker::new("first", viewport(320, 240, 1.0));
    let mut engine = TestEngine::new();
    let (due, begun_for) = engine.run(&mut mailbox);
    assert!(due);
    // While the frame is being rendered, the user goes on.
    let wanted = viewport(777, 555, 2.0);
    worker.resize(&mut mailbox, wanted);
    assert!(worker.navigate(&mut mailbox, false, "second").is_ok());
    engine.render(&mut mailbox, begun_for);
    assert!(poll(&mut worker, &mut mailbox).is_none());
    assert_eq!(worker.snapshot().url, "second");
    engine.turn(&mut mailbox);
    let frame = poll(&mut worker, &mut mailbox).unwrap();
    assert_eq!((frame.width, frame.height), (777, 555));
    assert_eq!(worker.snapshot().url, "second");
}

#[test]
fn idle_wakes_do_not_render_but_resize_does() {
    let (mut worker, mut mailbox) = BrowserWorker::new("first", viewport(320, 240, 1.0));
    let mut engine = TestEngine::new();
    engine.turn(&mut mailbox);
    assert!(poll(&mut worker, &mut mailbox).is_some());
    for _ in 0..10 {
        mailbox.wake();
        engine.turn(&mut mailbox);
        assert!(
            poll(&mut worker, &mut mailbox).is_none(),
            "a poll wake generated an unchanged frame"
        );
    }
    worker.resize(&mut mailbox, viewport(200, 150, 1.0));
    engine.turn(&mut mailbox);
    let frame = poll(&mut worker, &mut mailbox).unwrap();
    assert_eq!((frame.width, frame.height), (200, 150));
}

#[test]
fn pending_engine_work_reaches_ui_without_another_input_or_notification() {
    let (mut worker, mut mailbox) = BrowserWorker::new("first", viewport(320, 240, 1.0));
    let mut engine = TestEngine::new();
    engine.turn(&mut mailbox);
    let initial_frame = poll(&mut worker, &mut mailbox).unwrap();
    engine.turn(&mut mailbox);
    assert_eq!(
        engine.engine.wait_step(&mailbox, engine.now),
        EngineWait::Sleep(ENGINE_POLL_INTERVAL)
    );
    engine.pending = Some(String::from("loaded after idle"));
    assert_eq!(
        engine.engine.wait_step(&mailbox, engine.now + ENGINE_POLL_INTERVAL),
        EngineWait::Run
    );
    engine.turn(&mut mailbox);
    let frame = poll(&mut worker, &mut mailbox).unwrap();
    assert!(frame.revision > initial_frame.revision);
    assert_eq!(worker.snapshot().title, "loaded after idle");
}

#[test]
fn status_updates_do_not_lose_the_frame() {
    let (mut worker, mut mailbox) = BrowserWorker::new("first", viewport(320, 240, 1.0));
    let mut engine = TestEngine::new();
    engine.turn(&mut mailbox);
    engine.snapshot.title = String::from("later");
    mailbox.publish(1, engine.snapshot.clone(), None);
    assert!(poll(&mut worker, &mut mailbox).is_some());
    assert_eq!(worker.snapshot().title, "later");
}

#[test]
fn inputs_for_a_page_that_is_gone_are_dropped() {
    let mut engine = EngineLoop::new(0);
    assert_eq!(
        engine.route(3, Command::Navigate(String::from("a"))),
        EngineStep::Navigate(String::from("a"))
    );
    let text = || Command::Input(BrowserInput::Text('x'));
    assert_eq!(engine.route(2, text()), EngineStep::Discard);
    assert_eq!(engine.route(3, text()), EngineStep::Deliver(BrowserInput::Text('x')));
    assert_eq!(engine.route(4, Command::Reload), EngineStep::Reload);
    assert_eq!(engine.route(5, Command::Back), EngineStep::GoBack);
    assert_eq!(engine.route(6, Command::Forward), EngineStep::GoForward);
    assert_eq!(engine.generation, 6);
}

#[test]
fn a_closed_mailbox_stops_the_engine() {
    let (_, mut mailbox) = BrowserWorker::new::<()>("first", viewport(1, 1, 1.0));
    let engine = EngineLoop::new(0);
    assert_eq!(engine.wait_step(&mailbox, 0), EngineWait::Run);
    mailbox.close();
    assert_eq!(engine.wait_step(&mailbox, 0), EngineWait::Stop);
    let snapshot = TestEngine::new().snapshot;
    mailbox.publish(1, snapshot, None);
    assert!(mailbox.update.is_none());
}

#[test]
fn a_dead_engine_is_reported() {
    let (mut worker, mut mailbox) = BrowserWorker::new::<()>("first", viewport(1, 1, 1.0));
    let error = worker.navigate(&mut mailbox, true, "second").err().unwrap();
    assert_eq!(error.message(), "browser worker stopped");
    assert_eq!(
        worker.snapshot().load_state,
        LoadState::Failed(String::from("browser worker stopped"))
    );
    assert_eq!(worker.snapshot().url, "first");
    assert_eq!(mailbox.generation, 1);
    assert!(!worker.handle_input(&mut mailbox, true, BrowserInput::Text('a')));

    let (mut worker, mut mailbox) = BrowserWorker::new::<()>("first", viewport(1, 1, 1.0));
    let (update, generation, shown) = mailbox.take_update();
    assert!(worker.poll(update, generation, shown, true).is_none());
    assert_eq!(worker.snapshot().load_state.label(), "Failed: browser worker stopped");
}

#[test]
fn an_engine_that_cannot_start_is_reported() {
    let (mut worker, mut mailbox) = BrowserWorker::new::<()>("first", viewport(1, 1, 1.0));
    worker.report_start_failure(&mut mailbox, &BackendError::new("no fonts"));
    assert!(poll(&mut worker, &mut mailbox).is_none());
    assert_eq!(worker.snapshot().load_state, LoadState::Failed(String::from("no fonts")));
}

#[test]
fn history_commands_need_somewhere_to_go() {
    let (mut worker, mut mailbox) = BrowserWorker::new::<()>("first", viewport(1, 1, 1.0));
    worker.go_back(&mut mailbox, false);
    worker.go_forward(&mut mailbox, false);
    assert_eq!(mailbox.commands.len(), 1);
    worker.reload(&mut mailbox, false);
    assert_eq!(mailbox.commands.len(), 2);
    worker.snapshot.can_go_back = true;
    worker.go_back(&mut mailbox, false);
    assert_eq!(mailbox.commands.back(), Some(&(3, Command::Back)));
    worker.snapshot.can_go_forward = true;
    worker.go_forward(&mut mailbox, false);
    assert_eq!(mailbox.commands.back(), Some(&(4, Command::Forward)));
    assert_eq!(worker.snapshot().load_state, LoadState::Loading);
}

#[test]
fn labels_are_concise() {
    assert_eq!(LoadState::Idle.label(), "Idle");
    assert_eq!(LoadState::Loading.label(), "Loading…");
    assert_eq!(LoadState::Ready.label(), "Ready");
    assert_eq!(LoadState::Failed(String::from("HTTP 404")).label(), "Failed: HTTP 404");
}

#[test]
fn empty_frames_have_a_size() {
    let frame: BrowserFrame<()> = BrowserFrame::empty(0, 7);
    assert_eq!((frame.revision, frame.width, frame.height), (0, 1, 7));
    assert_eq!(frame.draw_count(), 0);
}
