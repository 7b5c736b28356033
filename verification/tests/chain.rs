use cooptask::driver::run;
use cooptask::machines::hello;
use cooptask::machines::print_async;
use cooptask::machines::tokio_main;
use cooptask::task::Computation;
use cooptask::task::Context;
use cooptask::task::Event;
use cooptask::task::Step;

fn full_chain_events() -> Vec<Event> {
    vec![
        Event::MainCreatesHello,
        Event::MainPollsHello,
        Event::HelloCreatesPrint,
        Event::HelloPollsPrint,
        Event::PrintEffect,
        Event::HelloSawPrintComplete,
        Event::MainSawHelloComplete,
    ]
}

#[test]
fn driver_returns_after_single_advance() {
    let mut cx = Context::new();
    let mut log: Vec<Event> = Vec::new();
    run(tokio_main(), &mut cx, &mut log);
    assert_eq!(log, full_chain_events());
}

#[test]
fn one_advance_collapses_whole_chain() {
    let mut cx = Context::new();
    let mut log: Vec<Event> = Vec::new();
    let mut f = tokio_main();
    let r = f.advance(&mut cx, &mut log);
    assert!(matches!(r, Step::Complete(())));
    assert_eq!(log, full_chain_events());
}

#[test]
fn middle_machine_collapses_in_one_advance() {
    let mut cx = Context::new();
    let mut log: Vec<Event> = Vec::new();
    let mut f = hello();
    let r = f.advance(&mut cx, &mut log);
    assert!(matches!(r, Step::Complete(())));
    assert_eq!(
        log,
        vec![
            Event::HelloCreatesPrint,
            Event::HelloPollsPrint,
            Event::PrintEffect,
            Event::HelloSawPrintComplete,
        ]
    );
}

#[test]
fn leaf_side_effect_happens_exactly_once() {
    let mut cx = Context::new();
    let mut log: Vec<Event> = Vec::new();
    let mut f = print_async();
    for _ in 0..5 {
        let r = f.advance(&mut cx, &mut log);
        assert!(matches!(r, Step::Complete(())));
    }
    assert_eq!(log, vec![Event::PrintEffect]);
}

#[test]
fn completed_chain_reports_complete_without_new_events() {
    let mut cx = Context::new();
    let mut log: Vec<Event> = Vec::new();
    let mut f = tokio_main();
    let first = f.advance(&mut cx, &mut log);
    assert!(matches!(first, Step::Complete(())));
    let events_after_first = log.len();
    let second = f.advance(&mut cx, &mut log);
    assert!(matches!(second, Step::Complete(())));
    assert_eq!(log.len(), events_after_first);
}
