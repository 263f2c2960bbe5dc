use happy_garden::main_fsm::{MainAction, MainFsm, MILLIS_PER_MINUTE};
use happy_garden::signals::StatusFlag;

#[test]
fn start_up_reaches_ready_once_configured() {
    let mut fsm = MainFsm::new(100);
    let mut status: u32 = 0;
    let mut actions = Vec::new();
    for _ in 0..8 {
        actions.push(fsm.step(&mut status, false, true, 100));
    }
    assert_eq!(fsm.current, StatusFlag::Ready);
    assert_eq!(fsm.previous, StatusFlag::EnableWifi);
    assert_eq!(status, StatusFlag::Ready.bits());
    assert_eq!(
        actions,
        vec![
            MainAction::Idle,
            MainAction::Idle,
            MainAction::Idle,
            MainAction::Idle,
            MainAction::WireParser,
            MainAction::WireDisplay,
            MainAction::Idle,
            MainAction::WireWifi,
        ]
    );
}

#[test]
fn waits_in_check_config_without_serial() {
    let mut fsm = MainFsm::new(0);
    let mut status: u32 = 0;
    for _ in 0..6 {
        fsm.step(&mut status, true, true, 0);
    }
    assert_eq!(fsm.current, StatusFlag::CheckConfig);
    for _ in 0..3 {
        fsm.step(&mut status, true, true, 0);
    }
    assert_eq!(fsm.current, StatusFlag::CheckConfig);
    assert_eq!(status, StatusFlag::CheckConfig.bits());
    fsm.step(&mut status, false, false, 0);
    assert_eq!(fsm.current, StatusFlag::EnableWifi);
    assert_eq!(fsm.step(&mut status, false, false, 0), MainAction::Idle);
    assert_eq!(fsm.current, StatusFlag::Ready);
}

#[test]
fn switching_keeps_other_status_bits() {
    let mut fsm = MainFsm::new(0);
    let mut status: u32 = StatusFlag::UserLogged.bits();
    fsm.step(&mut status, false, true, 0);
    assert_eq!(status, StatusFlag::UserLogged.bits() | StatusFlag::Startup.bits());
    fsm.step(&mut status, false, true, 0);
    assert_eq!(status, StatusFlag::UserLogged.bits() | StatusFlag::EnableSystemHandler.bits());
}

#[test]
fn ready_heartbeat_after_a_minute() {
    let mut fsm = MainFsm::new(10);
    fsm.current = StatusFlag::Ready;
    let mut status: u32 = 0;
    // 60 s elapsed: the timer grows by ten times the seconds.
    assert_eq!(fsm.step(&mut status, false, true, 70), MainAction::Idle);
    assert_eq!(fsm.timer, 600);
    fsm.timer = MILLIS_PER_MINUTE;
    assert_eq!(fsm.step(&mut status, false, true, 70), MainAction::Heartbeat);
    assert_eq!(fsm.timer, 0);
    assert_eq!(status, StatusFlag::Ready.bits());
}
