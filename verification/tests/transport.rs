use q6w::graph::plan_graph;
use q6w::transport::{BusEvent, EngineState, Pipeline, TransportOp};

fn pipeline() -> Pipeline {
    Pipeline::new(plan_graph(true, false, 1000, 1920, 1080, None))
}

#[test]
fn transport_commands_report_their_operation() {
    let mut p = pipeline();
    assert_eq!(p.engine_state, EngineState::Idle);
    assert_eq!(p.play(), TransportOp::SetPlaying);
    assert_eq!(p.engine_state, EngineState::Playing);
    assert_eq!(p.pause(), TransportOp::SetPaused);
    assert_eq!(p.engine_state, EngineState::Paused);
    assert_eq!(p.resume(), TransportOp::SetPlaying);
    assert_eq!(p.engine_state, EngineState::Playing);
}

#[test]
fn end_of_stream_restarts_from_idle() {
    // End-of-stream resets the graph and starts it again: a clean restart,
    // after which playback is running and frame pulls succeed again.
    let mut p = pipeline();
    p.play();
    let (ops, fatal) = p.handle_bus(&vec![BusEvent::EndOfStream]);
    assert_eq!(ops, vec![TransportOp::SetIdle, TransportOp::SetPlaying]);
    assert!(!fatal);
    assert_eq!(p.engine_state, EngineState::Playing);

    // The freshest-frame path keeps working after the restart.
    let mut store = q6w::frames::FrameStore::new(2);
    store.push_frame(q6w::frames::Frame { data: vec![1, 2, 3, 4], width: 1, height: 1 });
    let mut seen = false;
    store.with_latest_frame(|_f| seen = true);
    assert!(seen);
}

#[test]
fn fatal_error_stops_the_drain() {
    let mut p = pipeline();
    p.play();
    let (ops, fatal) = p.handle_bus(&vec![
        BusEvent::Other,
        BusEvent::FatalError,
        BusEvent::EndOfStream,
    ]);
    assert_eq!(ops, vec![]);
    assert!(fatal);
}

#[test]
fn events_after_an_end_of_stream_are_still_drained() {
    let mut p = pipeline();
    p.play();
    let (ops, fatal) = p.handle_bus(&vec![
        BusEvent::EndOfStream,
        BusEvent::Other,
        BusEvent::EndOfStream,
    ]);
    assert_eq!(
        ops,
        vec![
            TransportOp::SetIdle,
            TransportOp::SetPlaying,
            TransportOp::SetIdle,
            TransportOp::SetPlaying,
        ]
    );
    assert!(!fatal);
    assert_eq!(p.engine_state, EngineState::Playing);
}

#[test]
fn ignored_events_change_nothing() {
    let mut p = pipeline();
    p.play();
    let (ops, fatal) = p.handle_bus(&vec![BusEvent::Other, BusEvent::Other]);
    assert_eq!(ops, vec![]);
    assert!(!fatal);
    assert_eq!(p.engine_state, EngineState::Playing);
}
