use epd_waveshare::epd2in13b_v3::Epd2in13;
use epd_waveshare::interface::{BusOp, Run};
use epd_waveshare::traits::RefreshLut;

/// A bus that writes down what it is asked to do and fails where it is told
/// to.
struct Recorder {
    log: Vec<String>,
    fail_at: Option<usize>,
}

impl Recorder {
    fn new(fail_at: Option<usize>) -> Recorder {
        Recorder { log: Vec::new(), fail_at }
    }

    fn perform(&mut self, op: &BusOp) -> Result<(), usize> {
        let index = self.log.len();
        if self.fail_at == Some(index) {
            return Err(index);
        }
        self.log.push(format!("{:?}", op));
        Ok(())
    }

    fn run(&mut self, plan: Vec<BusOp>) -> Result<(), usize> {
        let mut run = Run::new(plan);
        loop {
            let result = match run.pending() {
                Some(op) => self.perform(op),
                None => return Ok(()),
            };
            run.record(result.is_ok());
            result?;
        }
    }
}

fn three_ops() -> Vec<BusOp> {
    vec![
        BusOp::Command { opcode: 1 },
        BusOp::CommandWithData { opcode: 2, data: vec![9, 8] },
        BusOp::DataFill { byte: 3, count: 4 },
    ]
}

#[test]
fn run_hands_out_operations_in_order() {
    let mut run = Run::new(three_ops());
    assert!(!run.is_complete());
    assert!(!run.has_failed());
    assert_eq!(run.pending(), Some(&BusOp::Command { opcode: 1 }));
    assert_eq!(run.pending(), Some(&BusOp::Command { opcode: 1 }));
    run.record(true);
    assert_eq!(run.pending(), Some(&BusOp::CommandWithData { opcode: 2, data: vec![9, 8] }));
    run.record(true);
    assert_eq!(run.pending(), Some(&BusOp::DataFill { byte: 3, count: 4 }));
    assert!(!run.is_complete());
    run.record(true);
    assert_eq!(run.pending(), None);
    assert!(run.is_complete());
    assert!(!run.has_failed());
}

#[test]
fn run_ends_at_the_first_failure() {
    let mut run = Run::new(three_ops());
    run.record(true);
    run.record(false);
    assert!(run.has_failed());
    assert!(!run.is_complete());
    assert_eq!(run.pending(), None);
    run.record(true);
    assert!(run.has_failed());
    assert!(!run.is_complete());
    assert_eq!(run.pending(), None);
}

#[test]
fn run_ignores_reports_when_nothing_is_pending() {
    let mut run = Run::new(Vec::new());
    assert!(run.is_complete());
    assert_eq!(run.pending(), None);
    run.record(false);
    assert!(run.is_complete());
    assert!(!run.has_failed());
    run.record(true);
    assert!(run.is_complete());
}

#[test]
fn bus_sees_nothing_after_a_failure() {
    let (epd, plan) = Epd2in13::new(vec![0x0f, 0x89]);
    let mut bus = Recorder::new(Some(5));
    assert_eq!(bus.run(plan), Err(5));
    assert_eq!(bus.log.len(), 5);
    let mut healthy = Recorder::new(None);
    assert_eq!(healthy.run(epd.init()), Ok(()));
    assert_eq!(healthy.log.len(), 9);
    assert_eq!(healthy.log[..5], bus.log[..]);
}

#[test]
fn bus_sees_no_traffic_when_the_mode_stays() {
    let (mut epd, plan) = Epd2in13::new(vec![0x0f, 0x89]);
    let mut bus = Recorder::new(None);
    assert_eq!(bus.run(plan), Ok(()));
    assert_eq!(bus.log.len(), 9);
    assert_eq!(bus.run(epd.set_refresh(RefreshLut::Partial)), Ok(()));
    assert_eq!(bus.log.len(), 18);
    assert_eq!(bus.log[9..], bus.log[..9]);
    assert_eq!(bus.run(epd.set_refresh(RefreshLut::Partial)), Ok(()));
    assert_eq!(bus.log.len(), 18);
}

#[test]
fn mode_changes_even_if_the_bus_fails() {
    let (mut epd, _) = Epd2in13::new(vec![0x0f, 0x89]);
    let mut bus = Recorder::new(Some(0));
    assert_eq!(bus.run(epd.set_refresh(RefreshLut::Partial)), Err(0));
    assert_eq!(epd.refresh(), RefreshLut::Partial);
    assert!(bus.log.is_empty());
}
