use chaos_game::{
    Action, AnimationDriver, DrawCommand, DriverState, Point, BATCH_SIZE, MAX_X, MAX_Y, SCALE,
    TOTAL_STEPS,
};

fn pixels(x: u64, y: u64) -> Point {
    Point::new(x * SCALE, y * SCALE).expect("on the canvas")
}

/// A host without a display: it draws from a fixed sequence, keeps a clock
/// that it moves itself and records what it is told to paint.
struct Host {
    seed: u64,
    clock_ms: u64,
    painted: Vec<DrawCommand>,
    steps: Vec<u32>,
    requests: u32,
    completions: u32,
}

impl Host {
    fn new(seed: u64) -> Host {
        Host { seed, clock_ms: 0, painted: Vec::new(), steps: Vec::new(), requests: 0, completions: 0 }
    }

    fn uniform(&mut self) -> f64 {
        self.seed = self.seed.wrapping_mul(6364136223846793005).wrapping_add(1442695040888963407);
        (self.seed >> 11) as f64 / (1u64 << 53) as f64
    }

    /// One callback. Returns whether the driver asked for another.
    fn callback(&mut self, driver: &mut AnimationDriver) -> bool {
        let mut made = 0;
        loop {
            match driver.poll() {
                Action::Step => {
                    let color = (self.uniform() * 16_777_216.0) as u64;
                    let index = (self.uniform() * 3.0).floor() as usize;
                    self.clock_ms += 1;
                    let commands = driver.step(index, color, self.clock_ms);
                    self.painted.extend(commands);
                    made += 1;
                }
                Action::RequestCallback => {
                    self.steps.push(made);
                    self.requests += 1;
                    return true;
                }
                Action::Complete => {
                    self.painted.extend(driver.completion());
                    self.steps.push(made);
                    self.completions += 1;
                    return false;
                }
            }
        }
    }

    /// Callbacks until the driver asks for no more.
    fn run(&mut self, driver: &mut AnimationDriver) -> u32 {
        let mut callbacks = 1;
        while self.callback(driver) {
            callbacks += 1;
        }
        callbacks
    }
}

fn completion_message() -> DrawCommand {
    DrawCommand::FillText { text: String::from("All done!"), x: 20 * SCALE, y: 20 * SCALE }
}

#[test]
fn constants_of_a_run() {
    assert_eq!(BATCH_SIZE, 1000);
    assert_eq!(TOTAL_STEPS, 1_000_000);
}

#[test]
fn new_driver_is_running_with_the_full_budget() {
    let driver = AnimationDriver::new(pixels(1, 2), TOTAL_STEPS);
    assert_eq!(driver.state(), DriverState::Running);
    assert_eq!(driver.remaining(), 1_000_000);
    assert_eq!(driver.point(), pixels(1, 2));
    assert_eq!(driver.batch_steps(), 0);
    assert_eq!(driver.next_action(), Action::Step);
}

#[test]
fn budget_of_2500_takes_three_callbacks() {
    let mut host = Host::new(1);
    let mut driver = AnimationDriver::new(pixels(500, 350), 2500);
    assert_eq!(host.run(&mut driver), 3);
    assert_eq!(host.steps, vec![1000, 1000, 500]);
    assert_eq!(host.requests, 2);
    assert_eq!(host.completions, 1);
    assert_eq!(driver.state(), DriverState::Done);
    assert_eq!(driver.remaining(), 0);
}

#[test]
fn budget_of_full_batches_ends_in_a_callback_without_steps() {
    let mut host = Host::new(2);
    let mut driver = AnimationDriver::new(pixels(500, 350), 2000);
    assert_eq!(host.run(&mut driver), 3);
    assert_eq!(host.steps, vec![1000, 1000, 0]);
    assert_eq!(host.painted.len(), 2000 * 6 + 1);
    assert_eq!(host.painted.last(), Some(&completion_message()));
}

#[test]
fn budget_below_a_batch_takes_one_callback() {
    let mut host = Host::new(3);
    let mut driver = AnimationDriver::new(pixels(500, 350), 999);
    assert_eq!(host.run(&mut driver), 1);
    assert_eq!(host.steps, vec![999]);
}

#[test]
fn budget_of_one_batch_takes_two_callbacks() {
    let mut host = Host::new(3);
    let mut driver = AnimationDriver::new(pixels(500, 350), 1000);
    assert_eq!(host.run(&mut driver), 2);
    assert_eq!(host.steps, vec![1000, 0]);
}

#[test]
fn empty_budget_completes_at_once() {
    let mut host = Host::new(4);
    let mut driver = AnimationDriver::new(pixels(7, 7), 0);
    assert_eq!(driver.next_action(), Action::Complete);
    assert_eq!(host.run(&mut driver), 1);
    assert_eq!(host.steps, vec![0]);
    assert_eq!(host.painted, vec![completion_message()]);
    assert_eq!(driver.point(), pixels(7, 7));
}

#[test]
fn callbacks_are_one_more_than_the_full_batches() {
    for steps in [0u32, 1, 999, 1000, 1001, 1999, 2000, 2500, 12_345] {
        let mut host = Host::new(5);
        let mut driver = AnimationDriver::new(pixels(500, 350), steps);
        assert_eq!(host.run(&mut driver), steps / BATCH_SIZE + 1);
        assert_eq!(host.steps.iter().sum::<u32>(), steps);
        assert_eq!(host.requests, steps / BATCH_SIZE);
    }
}

#[test]
fn full_run_takes_a_thousand_and_one_callbacks() {
    let mut driver = AnimationDriver::new(pixels(500, 350), TOTAL_STEPS);
    let mut callbacks = 1;
    let mut made = 0u32;
    loop {
        match driver.poll() {
            Action::Step => {
                driver.step((made % 3) as usize, 0, 0);
                made += 1;
                assert_eq!(driver.remaining(), TOTAL_STEPS - made);
            }
            Action::RequestCallback => callbacks += 1,
            Action::Complete => break,
        }
    }
    assert_eq!(made, 1_000_000);
    assert_eq!(callbacks, 1001);
}

#[test]
fn done_driver_keeps_answering_complete() {
    let mut host = Host::new(6);
    let mut driver = AnimationDriver::new(pixels(500, 350), 1500);
    host.run(&mut driver);
    let point = driver.point();
    let painted = host.painted.len();
    for extra in 1..=5 {
        assert!(!host.callback(&mut driver));
        assert_eq!(driver.state(), DriverState::Done);
        assert_eq!(driver.remaining(), 0);
        assert_eq!(driver.point(), point);
        assert_eq!(host.painted.len(), painted + extra);
        assert_eq!(host.painted.last(), Some(&completion_message()));
    }
    assert_eq!(host.requests, 1);
    assert_eq!(host.steps, vec![1000, 500, 0, 0, 0, 0, 0]);
}

#[test]
fn completion_is_the_same_each_time() {
    let driver = AnimationDriver::new(pixels(0, 0), 0);
    assert_eq!(driver.completion(), vec![completion_message()]);
    assert_eq!(driver.completion(), driver.completion());
    assert_eq!(chaos_game::completion_commands(), vec![completion_message()]);
}

#[test]
fn next_action_leaves_the_driver_as_it_is() {
    let mut driver = AnimationDriver::new(pixels(500, 350), 1);
    assert_eq!(driver.next_action(), Action::Step);
    assert_eq!(driver.next_action(), Action::Step);
    driver.step(0, 0, 0);
    assert_eq!(driver.next_action(), Action::Complete);
    assert_eq!(driver.state(), DriverState::Running);
    assert_eq!(driver.poll(), Action::Complete);
    assert_eq!(driver.state(), DriverState::Done);
}

#[test]
fn poll_on_a_full_batch_opens_the_next() {
    let mut driver = AnimationDriver::new(pixels(500, 350), 1001);
    for _ in 0..1000 {
        assert_eq!(driver.poll(), Action::Step);
        driver.step(1, 0, 0);
    }
    assert_eq!(driver.batch_steps(), 1000);
    assert_eq!(driver.next_action(), Action::RequestCallback);
    assert_eq!(driver.poll(), Action::RequestCallback);
    assert_eq!(driver.batch_steps(), 0);
    assert_eq!(driver.state(), DriverState::Running);
    assert_eq!(driver.remaining(), 1);
    assert_eq!(driver.poll(), Action::Step);
}

#[test]
fn full_batch_yields_before_the_end_is_noticed() {
    let mut driver = AnimationDriver::new(pixels(500, 350), 1000);
    for _ in 0..1000 {
        assert_eq!(driver.poll(), Action::Step);
        driver.step(2, 0, 0);
    }
    assert_eq!(driver.remaining(), 0);
    assert_eq!(driver.poll(), Action::RequestCallback);
    assert_eq!(driver.state(), DriverState::Running);
    assert_eq!(driver.poll(), Action::Complete);
    assert_eq!(driver.state(), DriverState::Done);
}

#[test]
fn step_paints_the_mark_and_the_status_line() {
    let mut driver = AnimationDriver::new(pixels(500, 350), 1_000_000);
    assert_eq!(driver.poll(), Action::Step);
    let commands = driver.step(0, 0xABCDEF, 61_999);
    assert_eq!(
        commands,
        vec![
            DrawCommand::SetFillStyle { style: String::from("#ABCDEF") },
            DrawCommand::FillRect { x: 500 * SCALE, y: 175 * SCALE, width: SCALE, height: SCALE },
            DrawCommand::SetFillStyle { style: String::from("#000") },
            DrawCommand::ClearRect { x: 0, y: 700 * SCALE, width: 1000 * SCALE, height: 700 * SCALE },
            DrawCommand::FillText { text: String::from("Steps left 999999"), x: 20 * SCALE, y: 750 * SCALE },
            DrawCommand::FillText {
                text: String::from("Elapsed time: 61 seconds"),
                x: 150 * SCALE,
                y: 750 * SCALE,
            },
        ]
    );
    assert_eq!(driver.point(), pixels(500, 175));
    assert_eq!(driver.remaining(), 999_999);
    assert_eq!(driver.batch_steps(), 1);
}

#[test]
fn status_line_is_cleared_below_the_canvas() {
    let mut driver = AnimationDriver::new(pixels(500, 350), 1);
    let commands = driver.step(1, 1, 1);
    assert_eq!(
        commands[3],
        DrawCommand::ClearRect { x: 0, y: MAX_Y, width: MAX_X, height: MAX_Y }
    );
}

#[test]
fn driver_makes_the_steps_of_the_iterator() {
    let mut host = Host::new(8);
    let mut shadow = Host::new(8);
    let mut driver = AnimationDriver::new(pixels(500, 350), 3000);
    let mut iterator = chaos_game::FractalIterator::new(pixels(500, 350), 3000);
    host.run(&mut driver);
    for _ in 0..3000 {
        shadow.uniform();
        let index = (shadow.uniform() * 3.0).floor() as usize;
        iterator.step(index);
    }
    assert_eq!(driver.point(), iterator.point());
    assert_eq!(driver.remaining(), iterator.remaining());
}

#[test]
fn displayed_seconds_never_go_back_in_a_run() {
    let mut host = Host::new(9);
    let mut driver = AnimationDriver::new(pixels(500, 350), 4500);
    host.run(&mut driver);
    let mut last = 0u64;
    let mut seen = 0;
    for command in &host.painted {
        if let DrawCommand::FillText { text, .. } = command {
            if let Some(rest) = text.strip_prefix("Elapsed time: ") {
                let seconds: u64 = rest.strip_suffix(" seconds").unwrap().parse().unwrap();
                assert!(seconds >= last);
                last = seconds;
                seen += 1;
            }
        }
    }
    assert_eq!(seen, 4500);
    assert_eq!(last, 4);
}
