//! End-to-end scenario over the verified core: three capture chunks of a
//! third of a window each produce exactly one full window, which reaches
//! the dispatcher and yields one log line per transcribed segment.

use wakeword::accumulator::WindowAccumulator;
use wakeword::dispatch::{dispatch_window, Segment};
use wakeword::lifecycle::{dispatcher_on_event, DispatcherStep, WindowEvent};

#[test]
fn three_thirds_make_exactly_one_window() {
    let w: usize = 9;
    let mut acc = WindowAccumulator::new(w);
    let mut emitted: Vec<Vec<u32>> = Vec::new();
    for part in 0..3u32 {
        let chunk: Vec<u32> = (0..3u32).map(|i| part * 3 + i).collect();
        if let Some(window) = acc.step(&chunk) {
            emitted.push(window);
        }
    }
    assert_eq!(emitted.len(), 1);
    assert_eq!(emitted[0].len(), w);
    assert_eq!(emitted[0], vec![0, 1, 2, 3, 4, 5, 6, 7, 8]);

    // The window crosses the second queue unchanged...
    let step = dispatcher_on_event(WindowEvent::Window(emitted.remove(0)));
    let window = match step {
        DispatcherStep::Infer(window) => window,
        DispatcherStep::Exited => panic!("a window must be handed to inference"),
    };
    assert_eq!(window.len(), w);

    // ...and the dispatcher writes one log line per segment the model
    // returned for it.
    let segments = vec![
        Segment { text: String::from(" all quiet"), start_time: 0, end_time: 400 },
        Segment { text: String::from(" so far"), start_time: 400, end_time: 800 },
    ];
    let out = dispatch_window(&segments, "the octopus has escaped", true);
    assert_eq!(out.log_lines.len(), segments.len());
    assert_eq!(out.transcript, " all quiet so far");
    assert!(!out.fired);
}
