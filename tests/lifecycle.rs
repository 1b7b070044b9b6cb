use gdt_boot::{BootAction, BootEvent, BootStage, BootState};

fn actions_for(events: &[BootEvent]) -> Vec<BootAction> {
    let mut stage = BootStage::start();
    let mut actions = vec![stage.action()];
    for event in events {
        stage = stage.next(*event);
        actions.push(stage.action());
    }
    actions
}

#[test]
fn boot_starts_announcing() {
    let stage = BootStage::start();
    assert_eq!(stage, BootStage::Announcing);
    assert_eq!(stage.state(), BootState::Booting);
    assert_eq!(stage.action(), BootAction::Announce);
}

#[test]
fn normal_boot_reaches_idle_halt_loop() {
    let events = [BootEvent::Done; 6];
    let actions = actions_for(&events);
    assert_eq!(
        actions,
        vec![
            BootAction::Announce,
            BootAction::Activate,
            BootAction::SelfTest,
            BootAction::ReportSuccess,
            BootAction::Halt,
            BootAction::Halt,
            BootAction::Halt,
        ]
    );
    let mut stage = BootStage::start();
    for event in events {
        stage = stage.next(event);
    }
    assert_eq!(stage.state(), BootState::Idle);
}

#[test]
fn lifecycle_states_in_order() {
    let mut stage = BootStage::start();
    let mut states = vec![stage.state()];
    for _ in 0..4 {
        stage = stage.next(BootEvent::Done);
        states.push(stage.state());
    }
    assert_eq!(
        states,
        vec![
            BootState::Booting,
            BootState::Booting,
            BootState::Running,
            BootState::Running,
            BootState::Idle,
        ]
    );
}

#[test]
fn fault_reports_then_halts_forever() {
    let actions = actions_for(&[
        BootEvent::Done,
        BootEvent::Done,
        BootEvent::Fault,
        BootEvent::Done,
        BootEvent::Done,
        BootEvent::Fault,
    ]);
    assert_eq!(
        actions,
        vec![
            BootAction::Announce,
            BootAction::Activate,
            BootAction::SelfTest,
            BootAction::ReportFault,
            BootAction::Halt,
            BootAction::Halt,
            BootAction::Halt,
        ]
    );
}

#[test]
fn fault_from_every_stage_goes_to_halted() {
    let stages = [
        BootStage::Announcing,
        BootStage::Activating,
        BootStage::SelfTesting,
        BootStage::Reporting,
        BootStage::Idle,
        BootStage::ReportingFault,
        BootStage::Halted,
    ];
    for stage in stages {
        let next = stage.next(BootEvent::Fault);
        assert_eq!(next.state(), BootState::Halted);
        let again = next.next(BootEvent::Done);
        assert_eq!(again, BootStage::Halted);
        assert_eq!(again.action(), BootAction::Halt);
    }
    assert_eq!(BootStage::Idle.next(BootEvent::Fault).action(), BootAction::ReportFault);
    assert_eq!(BootStage::Halted.next(BootEvent::Fault).action(), BootAction::Halt);
}

#[test]
fn activation_happens_once() {
    let actions = actions_for(&[BootEvent::Done; 10]);
    let count = actions.iter().filter(|a| **a == BootAction::Activate).count();
    assert_eq!(count, 1);
}

#[test]
fn idle_stays_idle() {
    let mut stage = BootStage::Idle;
    for _ in 0..5 {
        stage = stage.next(BootEvent::Done);
        assert_eq!(stage, BootStage::Idle);
        assert_eq!(stage.action(), BootAction::Halt);
    }
}
